//! Per-joint value vectors: the head and body groups, their recombination
//! into the full joint vector, and the commands built from them.

use vstd::prelude::*;

verus! {

/// Values of the two head joints.
#[derive(Clone, Copy, Debug, PartialEq, Eq)]
pub struct HeadJoints<T> {
    pub yaw: T,
    pub pitch: T,
}

/// Values of the six joints of one arm.
#[derive(Clone, Copy, Debug, PartialEq, Eq)]
pub struct ArmJoints<T> {
    pub shoulder_pitch: T,
    pub shoulder_roll: T,
    pub elbow_yaw: T,
    pub elbow_roll: T,
    pub wrist_yaw: T,
    pub hand: T,
}

/// Values of the six joints of one leg.
#[derive(Clone, Copy, Debug, PartialEq, Eq)]
pub struct LegJoints<T> {
    pub hip_yaw_pitch: T,
    pub hip_roll: T,
    pub hip_pitch: T,
    pub knee_pitch: T,
    pub ankle_pitch: T,
    pub ankle_roll: T,
}

/// Values of every joint below the neck.
#[derive(Clone, Copy, Debug, PartialEq, Eq)]
pub struct BodyJoints<T> {
    pub left_arm: ArmJoints<T>,
    pub right_arm: ArmJoints<T>,
    pub left_leg: LegJoints<T>,
    pub right_leg: LegJoints<T>,
}

/// One value per joint of the robot.
#[derive(Clone, Copy, Debug, PartialEq, Eq)]
pub struct Joints<T> {
    pub head: HeadJoints<T>,
    pub left_arm: ArmJoints<T>,
    pub right_arm: ArmJoints<T>,
    pub left_leg: LegJoints<T>,
    pub right_leg: LegJoints<T>,
}

/// Target positions and target stiffnesses for every joint.
#[derive(Clone, Copy, Debug, PartialEq, Eq)]
pub struct JointsCommand<T> {
    pub positions: Joints<T>,
    pub stiffnesses: Joints<T>,
}

/// A command as a scripted motion encodes it: positions with their stiffnesses.
#[derive(Clone, Copy, Debug, PartialEq, Eq)]
pub struct MotorCommands<T> {
    pub positions: T,
    pub stiffnesses: T,
}

impl<T> View for HeadJoints<T> {
    type V = Seq<T>;

    /// The joints in order: yaw, pitch.
    open spec fn view(&self) -> Seq<T> {
        seq![self.yaw, self.pitch]
    }
}

impl<T> View for ArmJoints<T> {
    type V = Seq<T>;

    /// The joints in order, from the shoulder to the hand.
    open spec fn view(&self) -> Seq<T> {
        seq![
            self.shoulder_pitch,
            self.shoulder_roll,
            self.elbow_yaw,
            self.elbow_roll,
            self.wrist_yaw,
            self.hand,
        ]
    }
}

impl<T> View for LegJoints<T> {
    type V = Seq<T>;

    /// The joints in order, from the hip to the ankle.
    open spec fn view(&self) -> Seq<T> {
        seq![
            self.hip_yaw_pitch,
            self.hip_roll,
            self.hip_pitch,
            self.knee_pitch,
            self.ankle_pitch,
            self.ankle_roll,
        ]
    }
}

impl<T> View for BodyJoints<T> {
    type V = Seq<T>;

    /// Left arm, right arm, left leg, right leg.
    open spec fn view(&self) -> Seq<T> {
        self.left_arm@ + self.right_arm@ + self.left_leg@ + self.right_leg@
    }
}

impl<T> View for Joints<T> {
    type V = Seq<T>;

    /// Head first, then the body groups.
    open spec fn view(&self) -> Seq<T> {
        self.head@ + self.left_arm@ + self.right_arm@ + self.left_leg@ + self.right_leg@
    }
}

/// Joints in the head group.
pub const HEAD_JOINTS: usize = 2;

/// Joints in one arm or one leg.
pub const LIMB_JOINTS: usize = 6;

/// Joints below the neck.
pub const BODY_JOINTS: usize = 24;

/// Joints of the whole robot.
pub const ALL_JOINTS: usize = 26;

impl<T: Copy> HeadJoints<T> {
    /// Both head joints set to `value`.
    pub fn fill(value: T) -> (head: Self)
        ensures
            head == (HeadJoints { yaw: value, pitch: value }),
            head@ =~= Seq::new(HEAD_JOINTS as nat, |i: int| value),
    {
        HeadJoints { yaw: value, pitch: value }
    }
}

impl<T: Copy> ArmJoints<T> {
    /// The arm with every joint set to `value`.
    pub open spec fn uniform(value: T) -> Self {
        ArmJoints {
            shoulder_pitch: value,
            shoulder_roll: value,
            elbow_yaw: value,
            elbow_roll: value,
            wrist_yaw: value,
            hand: value,
        }
    }

    pub fn fill(value: T) -> (arm: Self)
        ensures
            arm == Self::uniform(value),
            arm@ =~= Seq::new(LIMB_JOINTS as nat, |i: int| value),
    {
        ArmJoints {
            shoulder_pitch: value,
            shoulder_roll: value,
            elbow_yaw: value,
            elbow_roll: value,
            wrist_yaw: value,
            hand: value,
        }
    }
}

impl<T: Copy> LegJoints<T> {
    /// The leg with every joint set to `value`.
    pub open spec fn uniform(value: T) -> Self {
        LegJoints {
            hip_yaw_pitch: value,
            hip_roll: value,
            hip_pitch: value,
            knee_pitch: value,
            ankle_pitch: value,
            ankle_roll: value,
        }
    }

    pub fn fill(value: T) -> (leg: Self)
        ensures
            leg == Self::uniform(value),
            leg@ =~= Seq::new(LIMB_JOINTS as nat, |i: int| value),
    {
        LegJoints {
            hip_yaw_pitch: value,
            hip_roll: value,
            hip_pitch: value,
            knee_pitch: value,
            ankle_pitch: value,
            ankle_roll: value,
        }
    }
}

impl<T: Copy> BodyJoints<T> {
    /// The body whose arm joints all hold `arm` and whose leg joints all hold
    /// `leg`, left and right alike.
    pub open spec fn mirrored(arm: T, leg: T) -> Self {
        BodyJoints {
            left_arm: ArmJoints::uniform(arm),
            right_arm: ArmJoints::uniform(arm),
            left_leg: LegJoints::uniform(leg),
            right_leg: LegJoints::uniform(leg),
        }
    }

    /// Every body joint set to `value`.
    pub fn fill(value: T) -> (body: Self)
        ensures
            body == Self::mirrored(value, value),
            body@ =~= Seq::new(BODY_JOINTS as nat, |i: int| value),
    {
        BodyJoints {
            left_arm: ArmJoints::fill(value),
            right_arm: ArmJoints::fill(value),
            left_leg: LegJoints::fill(value),
            right_leg: LegJoints::fill(value),
        }
    }

    /// Left and right symmetric: `arm` on every arm joint, `leg` on every leg
    /// joint.
    pub fn fill_mirrored(arm: T, leg: T) -> (body: Self)
        ensures
            body == Self::mirrored(arm, leg),
            body.left_arm == body.right_arm,
            body.left_leg == body.right_leg,
            body@ =~= Seq::new(
                BODY_JOINTS as nat,
                |i: int| if i < 2 * LIMB_JOINTS { arm } else { leg },
            ),
    {
        BodyJoints {
            left_arm: ArmJoints::fill(arm),
            right_arm: ArmJoints::fill(arm),
            left_leg: LegJoints::fill(leg),
            right_leg: LegJoints::fill(leg),
        }
    }
}

impl<T: Copy> Joints<T> {
    /// The joint vector whose head group is `head` and whose body groups are
    /// those of `body`.
    pub open spec fn combined(head: HeadJoints<T>, body: BodyJoints<T>) -> Self {
        Joints {
            head,
            left_arm: body.left_arm,
            right_arm: body.right_arm,
            left_leg: body.left_leg,
            right_leg: body.right_leg,
        }
    }

    /// The head group of the vector.
    pub open spec fn head_part(self) -> HeadJoints<T> {
        self.head
    }

    /// The body groups of the vector.
    pub open spec fn body_part(self) -> BodyJoints<T> {
        BodyJoints {
            left_arm: self.left_arm,
            right_arm: self.right_arm,
            left_leg: self.left_leg,
            right_leg: self.right_leg,
        }
    }

    /// Whether every joint holds `value`.
    pub open spec fn is_uniform(self, value: T) -> bool {
        forall|i: int| 0 <= i < ALL_JOINTS ==> self@[i] == value
    }

    /// Every joint set to `value`.
    pub fn fill(value: T) -> (joints: Self)
        ensures
            joints == Self::combined(
                HeadJoints { yaw: value, pitch: value },
                BodyJoints::mirrored(value, value),
            ),
            joints@.len() == ALL_JOINTS,
            joints.is_uniform(value),
    {
        Joints {
            head: HeadJoints::fill(value),
            left_arm: ArmJoints::fill(value),
            right_arm: ArmJoints::fill(value),
            left_leg: LegJoints::fill(value),
            right_leg: LegJoints::fill(value),
        }
    }

    /// Recombines a head group and the body groups into one vector.
    pub fn from_head_and_body(head: HeadJoints<T>, body: BodyJoints<T>) -> (joints: Self)
        ensures
            joints == Self::combined(head, body),
            joints@ =~= head@ + body@,
    {
        Joints {
            head,
            left_arm: body.left_arm,
            right_arm: body.right_arm,
            left_leg: body.left_leg,
            right_leg: body.right_leg,
        }
    }

    /// The head group.
    pub fn head(&self) -> (head: HeadJoints<T>)
        ensures
            head == self.head_part(),
    {
        self.head
    }

    /// The body groups.
    pub fn body(&self) -> (body: BodyJoints<T>)
        ensures
            body == self.body_part(),
    {
        BodyJoints {
            left_arm: self.left_arm,
            right_arm: self.right_arm,
            left_leg: self.left_leg,
            right_leg: self.right_leg,
        }
    }

    /// Splitting a joint vector into head and body and recombining the two
    /// gives the vector back; combining a head and a body and splitting the
    /// result gives both back. The groups share no joint: the vector is the
    /// head's entries followed by the body's.
    pub proof fn partition_is_lossless(joints: Self, head: HeadJoints<T>, body: BodyJoints<T>)
        ensures
            Self::combined(joints.head_part(), joints.body_part()) == joints,
            Self::combined(head, body).head_part() == head,
            Self::combined(head, body).body_part() == body,
            joints@ =~= joints.head_part()@ + joints.body_part()@,
            joints@.len() == HEAD_JOINTS + BODY_JOINTS,
    {
    }
}

} // verus!
