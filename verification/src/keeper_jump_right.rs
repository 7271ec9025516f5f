//! The keeper's jump to the right: a scripted motion that is played while it
//! is selected and rewound while it is not.
//!
//! The keyframe interpolator is not part of this module. A tick first says
//! what to do with it, then publishes what it reports.

use crate::joints::MotorCommands;
use crate::motion::{MotionSafeExits, MotionSelection, MotionType};
use crate::time::{CycleTime, Duration};
use vstd::prelude::*;

verus! {

/// What one tick is given.
#[derive(Clone, Copy, Debug, PartialEq, Eq)]
pub struct CycleContext {
    /// Start of this tick and length of the previous one.
    pub cycle_time: CycleTime,
    /// The motion that is selected.
    pub motion_selection: MotionSelection,
}

/// What a tick does with the interpolator.
#[derive(Clone, Copy, Debug, PartialEq, Eq)]
pub enum Playback {
    /// Advance by `duration` and this tick's condition input.
    Advance { duration: Duration },
    /// Go back to the start of the motion.
    Reset,
}

/// What one tick sends to the motors.
#[derive(Clone, Copy, Debug, PartialEq, Eq)]
pub struct MainOutputs<T> {
    pub keeper_jump_right_motor_commands: MotorCommands<T>,
}

/// The player of the jump. It keeps nothing of its own between ticks: all
/// progress is the interpolator's.
#[derive(Clone, Copy, Debug, PartialEq, Eq)]
pub struct KeeperJumpRight {}

/// Whether the jump is the selected motion.
pub open spec fn is_selected(context: CycleContext) -> bool {
    context.motion_selection.current_motion == MotionType::KeeperJumpRight
}

/// What a tick does with the interpolator: it advances by the length of the
/// previous tick while the jump is selected, and rewinds otherwise.
pub open spec fn playback(context: CycleContext) -> Playback {
    if is_selected(context) {
        Playback::Advance { duration: context.cycle_time.last_cycle_duration }
    } else {
        Playback::Reset
    }
}

impl KeeperJumpRight {
    /// The player. It has no fields, so there is one player only and every
    /// result of this function is that one.
    pub fn new() -> (player: Self) {
        KeeperJumpRight {  }
    }

    /// First half of a tick: what to do with the interpolator.
    pub fn cycle(&mut self, context: CycleContext) -> (step: Playback)
        ensures
            step == playback(context),
            !is_selected(context) ==> step == Playback::Reset,
            *final(self) == *old(self),
    {
        if context.motion_selection.current_motion == MotionType::KeeperJumpRight {
            Playback::Advance { duration: context.cycle_time.last_cycle_duration }
        } else {
            Playback::Reset
        }
    }

    /// Second half of a tick, after the interpolator has done its step: the
    /// jump's safe-exit flag becomes `is_finished`, no other entry of the
    /// table changes, and `value` goes to the motors as it is.
    pub fn publish<T>(
        &self,
        is_finished: bool,
        value: MotorCommands<T>,
        motion_safe_exits: &mut MotionSafeExits,
    ) -> (outputs: MainOutputs<T>)
        ensures
            outputs.keeper_jump_right_motor_commands == value,
            final(motion_safe_exits)@ == old(motion_safe_exits)@.insert(
                MotionType::KeeperJumpRight,
                is_finished,
            ),
            final(motion_safe_exits)@[MotionType::KeeperJumpRight] == is_finished,
    {
        motion_safe_exits.set(MotionType::KeeperJumpRight, is_finished);
        MainOutputs { keeper_jump_right_motor_commands: value }
    }

    /// While the jump is not selected every tick rewinds the interpolator,
    /// however often it is called and whatever the clock shows.
    pub proof fn rewinds_while_not_selected(first: CycleContext, second: CycleContext)
        requires
            !is_selected(first),
            !is_selected(second),
        ensures
            playback(first) == Playback::Reset,
            playback(second) == playback(first),
    {
    }
}

} // verus!
