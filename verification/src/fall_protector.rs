//! The fall protection: tick by tick it decides which pose and how much
//! stiffness to command while the robot falls, hits the ground and recovers,
//! and when the motion may be left.
//!
//! The keyframe interpolator that replays the recovery motion is not part of
//! this module. A tick's [`MainOutputs`] say what to do with it, and take its
//! value to complete the command.

use crate::joints::{BodyJoints, HeadJoints, Joints, JointsCommand};
use crate::motion::{
    FallDirection, FallState, MotionCommand, MotionSafeExits, MotionSelection, MotionType,
};
use crate::parameters::FallProtection;
use crate::scalar::{close_to, is_close_to, magnitude, magnitude_exceeds};
use crate::time::{CycleTime, Duration, Timestamp};
use vstd::prelude::*;

pub mod laws;

verus! {

/// Stiffness of every joint while another motion is selected.
pub const PASSIVE_STIFFNESS: i64 = 800_000_000;

/// Head stiffness on entering fall protection.
pub const FULL_HEAD_STIFFNESS: i64 = 1_000_000_000;

/// Head stiffness once fall protection has lasted [`HEAD_RELAXATION_MILLIS`].
pub const RELAXED_HEAD_STIFFNESS: i64 = 500_000_000;

/// Milliseconds in fall protection after which the head stiffness is lowered.
pub const HEAD_RELAXATION_MILLIS: u64 = 500;

/// Head pitch of the protective pose for a fall to the front.
pub const FORWARD_HEAD_PITCH: i64 = -672_000_000;

/// Head pitch of the protective pose for any other fall.
pub const BACKWARD_HEAD_PITCH: i64 = 514_900_000;

/// Head yaw of both protective poses.
pub const PROTECTIVE_HEAD_YAW: i64 = 0;

/// How far head pitch and yaw may be from the protective pose and still count
/// as having reached it.
pub const HEAD_POSE_TOLERANCE: i64 = 50_000_000;

/// What one tick is given.
#[derive(Clone, Copy, Debug, PartialEq, Eq)]
pub struct CycleContext {
    /// Start of this tick and length of the previous one.
    pub cycle_time: CycleTime,
    /// The balance condition detected for this tick.
    pub fall_state: FallState,
    /// The motion that the behaviour asks for.
    pub motion_command: MotionCommand,
    /// The motion that is selected.
    pub motion_selection: MotionSelection,
    /// The sensed joint angles.
    pub sensed_positions: Joints<i64>,
    /// The low-passed pitch of the torso, updated with this tick's
    /// measurement.
    pub filtered_pitch: i64,
    /// The configuration.
    pub fall_protection: FallProtection,
}

/// Where the target positions of a tick come from, and what is to be done
/// with the interpolator of the recovery motion.
#[derive(Clone, Copy, Debug, PartialEq, Eq)]
pub enum Target {
    /// Command `positions`; the interpolator is left as it is.
    Hold { positions: Joints<i64> },
    /// Reset the interpolator and command `positions`.
    Pose { positions: Joints<i64> },
    /// Seed the interpolator with `initial_positions`, advance it by
    /// `duration` and this tick's condition input, and command its value.
    Replay { initial_positions: Joints<i64>, duration: Duration },
}

/// What one tick decides.
#[derive(Clone, Copy, Debug, PartialEq, Eq)]
pub struct MainOutputs {
    pub target: Target,
    pub stiffnesses: Joints<i64>,
}

/// What the fall protection remembers from one tick to the next.
pub struct ProtectorState {
    /// When fall protection was last entered.
    pub start_time: Timestamp,
    /// The fall state of the previous tick in fall protection.
    pub last_fall_state: FallState,
    /// Since when the robot has been lying on the ground.
    pub fallen_time: Option<Timestamp>,
}

/// The fall protection state machine.
#[derive(Clone, Copy, Debug, PartialEq, Eq)]
pub struct FallProtector {
    start_time: Timestamp,
    last_fall_state: FallState,
    fallen_time: Option<Timestamp>,
}

/// Whether fall protection is the selected motion.
pub open spec fn is_selected(context: CycleContext) -> bool {
    context.motion_selection.current_motion == MotionType::FallProtection
}

/// Whether the tick's start lies at least `span` after `reference`.
pub open spec fn has_lasted(context: CycleContext, reference: Timestamp, span: Duration) -> bool {
    context.cycle_time.start_time.reached(reference, span)
}

/// The head stiffness that the time in fall protection alone gives.
pub open spec fn timed_head_stiffness(state: ProtectorState, context: CycleContext) -> i64 {
    if has_lasted(context, state.start_time, Duration::millis(HEAD_RELAXATION_MILLIS)) {
        RELAXED_HEAD_STIFFNESS
    } else {
        FULL_HEAD_STIFFNESS
    }
}

/// Whether the head is within tolerance of the protective pose with the
/// given pitch.
pub open spec fn head_in_pose(head: HeadJoints<i64>, pitch: i64) -> bool {
    &&& close_to(head.pitch as int, pitch as int, HEAD_POSE_TOLERANCE as int)
    &&& close_to(
        magnitude(head.yaw as int),
        PROTECTIVE_HEAD_YAW as int,
        HEAD_POSE_TOLERANCE as int,
    )
}

/// The head pitch of the protective pose that belongs to `command`.
pub open spec fn protective_head_pitch(command: MotionCommand) -> i64 {
    match command {
        MotionCommand::FallProtection { direction: FallDirection::Forward } => FORWARD_HEAD_PITCH,
        _ => BACKWARD_HEAD_PITCH,
    }
}

/// Whether the head gets the ground-impact stiffness: under a fall-protection
/// command once it has reached the command's protective pose, under any
/// other command always.
pub open spec fn head_braced(context: CycleContext) -> bool {
    match context.motion_command {
        MotionCommand::FallProtection { .. } => head_in_pose(
            context.sensed_positions.head,
            protective_head_pitch(context.motion_command),
        ),
        _ => true,
    }
}

/// The stiffness of both head joints in a tick of fall protection.
pub open spec fn head_stiffness(state: ProtectorState, context: CycleContext) -> i64 {
    if head_braced(context) {
        context.fall_protection.ground_impact_head_stiffness
    } else {
        timed_head_stiffness(state, context)
    }
}

/// Whether the filtered pitch is beyond the ground-impact threshold.
pub open spec fn on_ground_impact(context: CycleContext) -> bool {
    magnitude(context.filtered_pitch as int)
        > context.fall_protection.ground_impact_angular_threshold
}

/// The stiffnesses of the body joints in a tick of fall protection.
pub open spec fn body_stiffnesses(context: CycleContext) -> BodyJoints<i64> {
    if on_ground_impact(context) {
        BodyJoints::mirrored(
            context.fall_protection.ground_impact_body_stiffness,
            context.fall_protection.ground_impact_body_stiffness,
        )
    } else {
        BodyJoints::mirrored(
            context.fall_protection.arm_stiffness,
            context.fall_protection.leg_stiffness,
        )
    }
}

/// The static catch pose: the head at yaw zero and the given pitch, the arms
/// at their configured positions, the legs where they are sensed.
pub open spec fn catch_pose(head_pitch: i64, context: CycleContext) -> Joints<i64> {
    Joints {
        head: HeadJoints { yaw: PROTECTIVE_HEAD_YAW, pitch: head_pitch },
        left_arm: context.fall_protection.left_arm_positions,
        right_arm: context.fall_protection.right_arm_positions,
        left_leg: context.sensed_positions.left_leg,
        right_leg: context.sensed_positions.right_leg,
    }
}

/// The target of a tick of fall protection.
pub open spec fn protective_target(context: CycleContext) -> Target {
    match context.motion_command {
        MotionCommand::FallProtection { direction: FallDirection::Forward } => Target::Pose {
            positions: catch_pose(FORWARD_HEAD_PITCH, context),
        },
        MotionCommand::FallProtection { .. } => Target::Replay {
            initial_positions: context.sensed_positions,
            duration: context.cycle_time.last_cycle_duration,
        },
        _ => Target::Pose { positions: catch_pose(BACKWARD_HEAD_PITCH, context) },
    }
}

/// The instant since which the robot is taken to lie on the ground, after a
/// tick that saw `current` follow `last`: the tick's start when the robot has
/// just hit the ground, the instant held so far while it stays there, and
/// none in every other case.
pub open spec fn fallen_time_after(
    last: FallState,
    current: FallState,
    fallen_time: Option<Timestamp>,
    now: Timestamp,
) -> Option<Timestamp> {
    if last is Falling && current is Fallen {
        Some(now)
    } else if last is Fallen && current is Fallen {
        fallen_time
    } else {
        None
    }
}

/// The instant of ground contact that a tick of fall protection works with.
pub open spec fn observed_fallen_time(
    state: ProtectorState,
    context: CycleContext,
) -> Option<Timestamp> {
    fallen_time_after(
        state.last_fall_state,
        context.fall_state,
        state.fallen_time,
        context.cycle_time.start_time,
    )
}

/// Whether fall protection has lasted long enough to be left.
pub open spec fn free_motion_exit(state: ProtectorState, context: CycleContext) -> bool {
    has_lasted(context, state.start_time, context.fall_protection.time_free_motion_exit)
}

/// Whether the robot has been on the ground long enough for fall protection
/// to be left.
pub open spec fn impact_prolonged(state: ProtectorState, context: CycleContext) -> bool {
    match observed_fallen_time(state, context) {
        Some(fallen_start) => has_lasted(
            context,
            fallen_start,
            context.fall_protection.time_prolong_ground_impact,
        ),
        None => false,
    }
}

/// The safe-exit flag that a tick writes.
pub open spec fn safe_exit(state: ProtectorState, context: CycleContext) -> bool {
    is_selected(context) && (free_motion_exit(state, context) || impact_prolonged(state, context))
}

/// What the fall protection remembers after a tick.
pub open spec fn step(state: ProtectorState, context: CycleContext) -> ProtectorState {
    if is_selected(context) {
        ProtectorState {
            start_time: state.start_time,
            last_fall_state: context.fall_state,
            fallen_time: if impact_prolonged(state, context) {
                None
            } else {
                observed_fallen_time(state, context)
            },
        }
    } else {
        ProtectorState {
            start_time: context.cycle_time.start_time,
            last_fall_state: state.last_fall_state,
            fallen_time: state.fallen_time,
        }
    }
}

/// What a tick decides.
pub open spec fn decision(state: ProtectorState, context: CycleContext) -> MainOutputs {
    if is_selected(context) {
        MainOutputs {
            target: protective_target(context),
            stiffnesses: Joints::combined(
                HeadJoints {
                    yaw: head_stiffness(state, context),
                    pitch: head_stiffness(state, context),
                },
                body_stiffnesses(context),
            ),
        }
    } else {
        MainOutputs {
            target: Target::Hold { positions: context.sensed_positions },
            stiffnesses: Joints::combined(
                HeadJoints { yaw: PASSIVE_STIFFNESS, pitch: PASSIVE_STIFFNESS },
                BodyJoints::mirrored(PASSIVE_STIFFNESS, PASSIVE_STIFFNESS),
            ),
        }
    }
}

/// Whether the clock has not run backwards: in a tick of fall protection the
/// tick starts no earlier than the entry into fall protection, and no
/// earlier than the instant of ground contact that the tick works with.
pub open spec fn clock_is_sound(state: ProtectorState, context: CycleContext) -> bool {
    is_selected(context) ==> {
        &&& context.cycle_time.start_time.not_before(state.start_time)
        &&& match observed_fallen_time(state, context) {
            Some(fallen_start) => context.cycle_time.start_time.not_before(fallen_start),
            None => true,
        }
    }
}

/// The instant of ground contact after a tick that saw `current` follow
/// `last`.
pub fn update_fallen_time(
    last: FallState,
    current: FallState,
    fallen_time: Option<Timestamp>,
    now: Timestamp,
) -> (updated: Option<Timestamp>)
    ensures
        updated == fallen_time_after(last, current, fallen_time, now),
{
    match (last, current) {
        (FallState::Falling { .. }, FallState::Fallen { .. }) => Some(now),
        (FallState::Fallen { .. }, FallState::Fallen { .. }) => fallen_time,
        _ => None,
    }
}

/// Whether the head has reached the protective pose with the given pitch.
pub fn is_head_in_pose(head: HeadJoints<i64>, pitch: i64) -> (reached: bool)
    ensures
        reached == head_in_pose(head, pitch),
{
    is_close_to(head.pitch, pitch, HEAD_POSE_TOLERANCE) && !magnitude_exceeds(
        head.yaw,
        HEAD_POSE_TOLERANCE,
    )
}

/// The static catch pose with the given head pitch.
pub fn build_catch_pose(head_pitch: i64, context: &CycleContext) -> (pose: Joints<i64>)
    ensures
        pose == catch_pose(head_pitch, *context),
{
    Joints::from_head_and_body(
        HeadJoints { yaw: PROTECTIVE_HEAD_YAW, pitch: head_pitch },
        BodyJoints {
            left_arm: context.fall_protection.left_arm_positions,
            right_arm: context.fall_protection.right_arm_positions,
            left_leg: context.sensed_positions.left_leg,
            right_leg: context.sensed_positions.right_leg,
        },
    )
}

impl MainOutputs {
    /// The command that these outputs stand for, once the interpolator holds
    /// `interpolated`: the positions that the target names, or `interpolated`
    /// where the target replays the recovery motion.
    pub open spec fn command(self, interpolated: Joints<i64>) -> JointsCommand<i64> {
        JointsCommand {
            positions: match self.target {
                Target::Hold { positions } => positions,
                Target::Pose { positions } => positions,
                Target::Replay { .. } => interpolated,
            },
            stiffnesses: self.stiffnesses,
        }
    }

    /// Completes the command with the value of the interpolator, read after
    /// the target has been carried out.
    pub fn fall_protection_command(
        &self,
        interpolated: Joints<i64>,
    ) -> (command: JointsCommand<i64>)
        ensures
            command == self.command(interpolated),
    {
        let positions = match self.target {
            Target::Hold { positions } => positions,
            Target::Pose { positions } => positions,
            Target::Replay { .. } => interpolated,
        };
        JointsCommand { positions, stiffnesses: self.stiffnesses }
    }
}

impl View for FallProtector {
    type V = ProtectorState;

    closed spec fn view(&self) -> ProtectorState {
        ProtectorState {
            start_time: self.start_time,
            last_fall_state: self.last_fall_state,
            fallen_time: self.fallen_time,
        }
    }
}

impl ProtectorState {
    /// An instant of ground contact is held only while the robot was last
    /// seen lying on the ground.
    pub open spec fn wf(self) -> bool {
        self.fallen_time.is_some() ==> self.last_fall_state is Fallen
    }
}

impl FallProtector {
    /// The invariant of the remembered state.
    pub open spec fn wf(&self) -> bool {
        self@.wf()
    }

    /// A fall protection that has never run: entered at the epoch, the robot
    /// last seen upright, no ground contact.
    pub fn new() -> (protector: Self)
        ensures
            protector@ == (ProtectorState {
                start_time: Timestamp::unix_epoch(),
                last_fall_state: FallState::Upright,
                fallen_time: None,
            }),
            protector.wf(),
    {
        FallProtector {
            start_time: Timestamp::epoch(),
            last_fall_state: FallState::Upright,
            fallen_time: None,
        }
    }

    /// When fall protection was last entered.
    pub fn start_time(&self) -> (start_time: Timestamp)
        ensures
            start_time == self@.start_time,
    {
        self.start_time
    }

    /// The fall state of the previous tick in fall protection.
    pub fn last_fall_state(&self) -> (fall_state: FallState)
        ensures
            fall_state == self@.last_fall_state,
    {
        self.last_fall_state
    }

    /// Since when the robot has been lying on the ground.
    pub fn fallen_time(&self) -> (fallen_time: Option<Timestamp>)
        ensures
            fallen_time == self@.fallen_time,
    {
        self.fallen_time
    }

    /// Whether a tick with `context` would find the clock behind an instant
    /// that it measures from. `cycle` must not be called on such a tick.
    pub fn clock_ran_backwards(&self, context: &CycleContext) -> (backwards: bool)
        ensures
            backwards == !clock_is_sound(self@, *context),
    {
        if context.motion_selection.current_motion != MotionType::FallProtection {
            return false;
        }
        let now = context.cycle_time.start_time;
        if now.duration_since(self.start_time).is_none() {
            return true;
        }
        match update_fallen_time(self.last_fall_state, context.fall_state, self.fallen_time, now) {
            Some(fallen_start) => now.duration_since(fallen_start).is_none(),
            None => false,
        }
    }

    /// Runs one tick. Writes this motion's safe-exit flag anew, and no other
    /// entry of the table.
    ///
    /// While another motion is selected the tick restarts the timer of fall
    /// protection and holds the sensed positions at the passive stiffness.
    /// In fall protection it picks the stiffnesses from the time since
    /// entry, the head pose and the filtered pitch, picks the target from the
    /// command, follows the fall state, and raises the flag once either
    /// timer has run out.
    pub fn cycle(
        &mut self,
        context: CycleContext,
        motion_safe_exits: &mut MotionSafeExits,
    ) -> (outputs: MainOutputs)
        requires
            clock_is_sound(old(self)@, context),
        ensures
            final(self)@ == step(old(self)@, context),
            old(self).wf() ==> final(self).wf(),
            outputs == decision(old(self)@, context),
            final(motion_safe_exits)@ == old(motion_safe_exits)@.insert(
                MotionType::FallProtection,
                safe_exit(old(self)@, context),
            ),
            !is_selected(context) ==> {
                &&& outputs.stiffnesses.is_uniform(PASSIVE_STIFFNESS)
                &&& outputs.target == (Target::Hold { positions: context.sensed_positions })
                &&& final(self)@.start_time == context.cycle_time.start_time
                &&& final(self)@.last_fall_state == old(self)@.last_fall_state
                &&& final(self)@.fallen_time == old(self)@.fallen_time
                &&& !final(motion_safe_exits)@[MotionType::FallProtection]
            },
            is_selected(context) ==> final(self)@.start_time == old(self)@.start_time,
            is_selected(context) && !(context.fall_state is Fallen)
                ==> final(self)@.fallen_time.is_none(),
    {
        let now = context.cycle_time.start_time;
        let parameters = context.fall_protection;
        motion_safe_exits.set(MotionType::FallProtection, false);

        if context.motion_selection.current_motion != MotionType::FallProtection {
            self.start_time = now;
            return MainOutputs {
                target: Target::Hold { positions: context.sensed_positions },
                stiffnesses: Joints::fill(PASSIVE_STIFFNESS),
            };
        }
        let mut head_stiffness: i64 = FULL_HEAD_STIFFNESS;
        if now.has_reached(self.start_time, Duration::from_millis(HEAD_RELAXATION_MILLIS)) {
            head_stiffness = RELAXED_HEAD_STIFFNESS;
        }
        let mut safe_to_exit = now.has_reached(self.start_time, parameters.time_free_motion_exit);

        self.fallen_time = update_fallen_time(
            self.last_fall_state,
            context.fall_state,
            self.fallen_time,
            now,
        );

        match context.motion_command {
            MotionCommand::FallProtection { direction: FallDirection::Forward } => {
                if is_head_in_pose(context.sensed_positions.head, FORWARD_HEAD_PITCH) {
                    head_stiffness = parameters.ground_impact_head_stiffness;
                }
            },
            MotionCommand::FallProtection { .. } => {
                if is_head_in_pose(context.sensed_positions.head, BACKWARD_HEAD_PITCH) {
                    head_stiffness = parameters.ground_impact_head_stiffness;
                }
            },
            _ => {
                head_stiffness = parameters.ground_impact_head_stiffness;
            },
        }

        let body = if magnitude_exceeds(
            context.filtered_pitch,
            parameters.ground_impact_angular_threshold,
        ) {
            BodyJoints::fill(parameters.ground_impact_body_stiffness)
        } else {
            BodyJoints::fill_mirrored(parameters.arm_stiffness, parameters.leg_stiffness)
        };
        let stiffnesses = Joints::from_head_and_body(HeadJoints::fill(head_stiffness), body);

        let target = match context.motion_command {
            MotionCommand::FallProtection { direction: FallDirection::Forward } => Target::Pose {
                positions: build_catch_pose(FORWARD_HEAD_PITCH, &context),
            },
            MotionCommand::FallProtection { .. } => Target::Replay {
                initial_positions: context.sensed_positions,
                duration: context.cycle_time.last_cycle_duration,
            },
            _ => Target::Pose { positions: build_catch_pose(BACKWARD_HEAD_PITCH, &context) },
        };

        self.last_fall_state = context.fall_state;

        match self.fallen_time {
            Some(fallen_start) => {
                if now.has_reached(fallen_start, parameters.time_prolong_ground_impact) {
                    safe_to_exit = true;
                    self.fallen_time = None;
                }
            },
            None => {},
        }
        if safe_to_exit {
            motion_safe_exits.set(MotionType::FallProtection, true);
        }
        assert(motion_safe_exits@ =~= old(motion_safe_exits)@.insert(
            MotionType::FallProtection,
            safe_exit(old(self)@, context),
        ));
        MainOutputs { target, stiffnesses }
    }
}

} // verus!
