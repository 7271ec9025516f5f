//! Motion identities, the commands that select a motion, the detected fall
//! state, and the table in which each motion announces that it may be left.

use vstd::prelude::*;

verus! {

/// The motions the robot can run; exactly one is selected in each tick.
#[derive(Clone, Copy, Debug, PartialEq, Eq, Hash, Structural)]
pub enum MotionType {
    ArmsUpSquat,
    Dispatching,
    FallProtection,
    Initial,
    JumpLeft,
    JumpRight,
    KeeperJumpLeft,
    KeeperJumpRight,
    Penalized,
    SitDown,
    Stand,
    StandUpBack,
    StandUpFront,
    Unstiff,
    Walk,
}

/// Which motion is selected in this tick, and which one is being switched to.
#[derive(Clone, Copy, Debug, PartialEq, Eq, Structural)]
pub struct MotionSelection {
    pub current_motion: MotionType,
    pub dispatching_motion: Option<MotionType>,
}

/// The direction in which the robot falls.
#[derive(Clone, Copy, Debug, PartialEq, Eq, Structural)]
pub enum FallDirection {
    Forward,
    Backward,
    Left,
    Right,
}

/// The side on which a fallen robot lies.
#[derive(Clone, Copy, Debug, PartialEq, Eq, Structural)]
pub enum Facing {
    Down,
    Up,
}

/// The side to which a jump goes.
#[derive(Clone, Copy, Debug, PartialEq, Eq, Structural)]
pub enum JumpDirection {
    Left,
    Right,
}

/// The detected balance condition of the robot.
#[derive(Clone, Copy, Debug, PartialEq, Eq, Structural)]
pub enum FallState {
    Upright,
    Falling { direction: FallDirection },
    Fallen { facing: Facing },
}

/// The motion that the behaviour asks for.
#[allow(inconsistent_fields)]
#[derive(Clone, Copy, Debug, PartialEq, Eq, Structural)]
pub enum MotionCommand {
    ArmsUpSquat,
    FallProtection { direction: FallDirection },
    Initial,
    Jump { direction: JumpDirection },
    KeeperJump { direction: JumpDirection },
    Penalized,
    SitDown,
    Stand,
    StandUp { facing: Facing },
    Unstiff,
    Walk,
}

/// Number of motions, and so of entries in the table of safe exits.
pub const MOTION_COUNT: usize = 15;

impl MotionType {
    /// The position of the motion in the order of declaration.
    pub open spec fn slot(self) -> int {
        match self {
            MotionType::ArmsUpSquat => 0,
            MotionType::Dispatching => 1,
            MotionType::FallProtection => 2,
            MotionType::Initial => 3,
            MotionType::JumpLeft => 4,
            MotionType::JumpRight => 5,
            MotionType::KeeperJumpLeft => 6,
            MotionType::KeeperJumpRight => 7,
            MotionType::Penalized => 8,
            MotionType::SitDown => 9,
            MotionType::Stand => 10,
            MotionType::StandUpBack => 11,
            MotionType::StandUpFront => 12,
            MotionType::Unstiff => 13,
            MotionType::Walk => 14,
        }
    }

    pub fn index(&self) -> (index: usize)
        ensures
            index == self.slot(),
            index < MOTION_COUNT,
    {
        match self {
            MotionType::ArmsUpSquat => 0,
            MotionType::Dispatching => 1,
            MotionType::FallProtection => 2,
            MotionType::Initial => 3,
            MotionType::JumpLeft => 4,
            MotionType::JumpRight => 5,
            MotionType::KeeperJumpLeft => 6,
            MotionType::KeeperJumpRight => 7,
            MotionType::Penalized => 8,
            MotionType::SitDown => 9,
            MotionType::Stand => 10,
            MotionType::StandUpBack => 11,
            MotionType::StandUpFront => 12,
            MotionType::Unstiff => 13,
            MotionType::Walk => 14,
        }
    }

    /// No two motions share a position.
    pub proof fn slots_are_distinct(first: MotionType, second: MotionType)
        ensures
            first.slot() == second.slot() <==> first == second,
            0 <= first.slot() < MOTION_COUNT,
    {
    }
}

/// One flag per motion: whether the motion may be left now without a jerk.
/// The key set is closed: every motion has an entry at all times.
#[derive(Clone, Copy, Debug, PartialEq, Eq)]
pub struct MotionSafeExits {
    flags: [bool; 15],
}

impl View for MotionSafeExits {
    type V = Map<MotionType, bool>;

    /// The table as a total map from motions to flags.
    closed spec fn view(&self) -> Map<MotionType, bool> {
        Map::total(|motion: MotionType| self.flags@[motion.slot()])
    }
}

impl MotionSafeExits {
    /// The table with every flag set to `value`.
    pub fn fill(value: bool) -> (table: Self)
        ensures
            table@ == Map::<MotionType, bool>::total(|motion: MotionType| value),
    {
        let table = MotionSafeExits { flags: [value; 15] };
        assert(table@ =~= Map::<MotionType, bool>::total(|motion: MotionType| value));
        table
    }

    /// The flag of `motion`.
    pub fn get(&self, motion: MotionType) -> (flag: bool)
        ensures
            flag == self@[motion],
    {
        self.flags[motion.index()]
    }

    /// Writes the flag of `motion` and leaves every other entry as it was.
    pub fn set(&mut self, motion: MotionType, flag: bool)
        ensures
            final(self)@ == old(self)@.insert(motion, flag),
    {
        let index: usize = motion.index();
        self.flags[index] = flag;
        assert forall|other: MotionType| other != motion implies other.slot() != index by {
            MotionType::slots_are_distinct(other, motion);
        }
        assert(self@ =~= old(self)@.insert(motion, flag));
    }

    /// Every motion has an entry, whatever was written so far.
    pub proof fn key_set_is_closed(self, motion: MotionType)
        ensures
            self@.dom().contains(motion),
    {
    }
}

} // verus!
