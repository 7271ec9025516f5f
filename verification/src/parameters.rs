//! Tunable thresholds and poses of the fall protection.

use crate::joints::ArmJoints;
use crate::time::Duration;
use vstd::prelude::*;

verus! {

/// Configuration of the fall protection. Stiffnesses and angles are in
/// fixed-point steps.
#[derive(Clone, Copy, Debug, PartialEq, Eq)]
pub struct FallProtection {
    /// Head stiffness once the head has reached its protective pose.
    pub ground_impact_head_stiffness: i64,
    /// Stiffness of every body joint while the filtered pitch is beyond the
    /// angular threshold.
    pub ground_impact_body_stiffness: i64,
    /// Stiffness of the arm joints otherwise.
    pub arm_stiffness: i64,
    /// Stiffness of the leg joints otherwise.
    pub leg_stiffness: i64,
    /// Filtered pitch magnitude beyond which the body is on ground impact.
    pub ground_impact_angular_threshold: i64,
    /// Catch pose of the left arm.
    pub left_arm_positions: ArmJoints<i64>,
    /// Catch pose of the right arm.
    pub right_arm_positions: ArmJoints<i64>,
    /// Time in fall protection after which the motion may be left.
    pub time_free_motion_exit: Duration,
    /// Time on the ground after which the motion may be left.
    pub time_prolong_ground_impact: Duration,
}

} // verus!
