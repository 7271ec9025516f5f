use control::fall_protector::{
    build_catch_pose, is_head_in_pose, update_fallen_time, CycleContext, FallProtector,
    MainOutputs, Target, BACKWARD_HEAD_PITCH, FORWARD_HEAD_PITCH, FULL_HEAD_STIFFNESS,
    HEAD_POSE_TOLERANCE, PASSIVE_STIFFNESS, RELAXED_HEAD_STIFFNESS,
};
use control::joints::{ArmJoints, BodyJoints, HeadJoints, Joints, JointsCommand, LegJoints};
use control::motion::{
    Facing, FallDirection, FallState, JumpDirection, MotionCommand, MotionSafeExits,
    MotionSelection, MotionType,
};
use control::parameters::FallProtection;
use control::time::{CycleTime, Duration, Timestamp};

const IMPACT_HEAD: i64 = 300_000_000;
const IMPACT_BODY: i64 = 200_000_000;
const ARM: i64 = 600_000_000;
const LEG: i64 = 700_000_000;
const THRESHOLD: i64 = 400_000_000;

fn millis(count: u64) -> Duration {
    Duration::from_millis(count)
}

fn at_millis(count: u128) -> Timestamp {
    Timestamp { nanos: count * 1_000_000 }
}

fn left_arm() -> ArmJoints<i64> {
    ArmJoints {
        shoulder_pitch: 11,
        shoulder_roll: 12,
        elbow_yaw: 13,
        elbow_roll: 14,
        wrist_yaw: 15,
        hand: 16,
    }
}

fn right_arm() -> ArmJoints<i64> {
    ArmJoints {
        shoulder_pitch: 21,
        shoulder_roll: 22,
        elbow_yaw: 23,
        elbow_roll: 24,
        wrist_yaw: 25,
        hand: 26,
    }
}

fn parameters() -> FallProtection {
    FallProtection {
        ground_impact_head_stiffness: IMPACT_HEAD,
        ground_impact_body_stiffness: IMPACT_BODY,
        arm_stiffness: ARM,
        leg_stiffness: LEG,
        ground_impact_angular_threshold: THRESHOLD,
        left_arm_positions: left_arm(),
        right_arm_positions: right_arm(),
        time_free_motion_exit: millis(1000),
        time_prolong_ground_impact: millis(200),
    }
}

fn sensed() -> Joints<i64> {
    Joints {
        head: HeadJoints { yaw: 100_000_000, pitch: 0 },
        left_arm: ArmJoints::fill(31),
        right_arm: ArmJoints::fill(32),
        left_leg: LegJoints {
            hip_yaw_pitch: 41,
            hip_roll: 42,
            hip_pitch: 43,
            knee_pitch: 44,
            ankle_pitch: 45,
            ankle_roll: 46,
        },
        right_leg: LegJoints::fill(52),
    }
}

fn with_head(yaw: i64, pitch: i64) -> Joints<i64> {
    let mut joints = sensed();
    joints.head = HeadJoints { yaw, pitch };
    joints
}

fn selected(motion: MotionType) -> MotionSelection {
    MotionSelection { current_motion: motion, dispatching_motion: None }
}

fn protect(direction: FallDirection) -> MotionCommand {
    MotionCommand::FallProtection { direction }
}

fn tick(now: Timestamp, command: MotionCommand, fall_state: FallState) -> CycleContext {
    CycleContext {
        cycle_time: CycleTime { start_time: now, last_cycle_duration: millis(12) },
        fall_state,
        motion_command: command,
        motion_selection: selected(MotionType::FallProtection),
        sensed_positions: sensed(),
        filtered_pitch: 0,
        fall_protection: parameters(),
    }
}

fn run(
    protector: &mut FallProtector,
    context: CycleContext,
    exits: &mut MotionSafeExits,
) -> MainOutputs {
    assert!(!protector.clock_ran_backwards(&context));
    protector.cycle(context, exits)
}

fn falling() -> FallState {
    FallState::Falling { direction: FallDirection::Forward }
}

fn fallen() -> FallState {
    FallState::Fallen { facing: Facing::Down }
}

#[test]
fn new_protector_starts_at_the_epoch() {
    let protector = FallProtector::new();
    assert_eq!(protector.start_time(), Timestamp { nanos: 0 });
    assert_eq!(protector.start_time(), Timestamp::epoch());
    assert_eq!(protector.last_fall_state(), FallState::Upright);
    assert_eq!(protector.fallen_time(), None);
}

#[test]
fn other_motion_holds_sensed_positions_at_passive_stiffness() {
    let mut protector = FallProtector::new();
    let mut exits = MotionSafeExits::fill(true);
    let mut context = tick(at_millis(7000), protect(FallDirection::Forward), falling());
    context.motion_selection = selected(MotionType::Walk);

    let outputs = run(&mut protector, context, &mut exits);

    assert_eq!(outputs.target, Target::Hold { positions: sensed() });
    assert_eq!(outputs.stiffnesses, Joints::fill(800_000_000));
    assert_eq!(PASSIVE_STIFFNESS, 800_000_000);
    let command = outputs.fall_protection_command(Joints::fill(-1));
    assert_eq!(command, JointsCommand { positions: sensed(), stiffnesses: Joints::fill(800_000_000) });
    assert_eq!(protector.start_time(), at_millis(7000));
    assert_eq!(protector.last_fall_state(), FallState::Upright);
    assert_eq!(protector.fallen_time(), None);
    assert!(!exits.get(MotionType::FallProtection));
    assert!(exits.get(MotionType::Walk));
    assert!(exits.get(MotionType::KeeperJumpRight));
}

#[test]
fn other_motion_leaves_fall_history_untouched() {
    let mut protector = FallProtector::new();
    let mut exits = MotionSafeExits::fill(false);
    let far = {
        let mut p = parameters();
        p.time_free_motion_exit = millis(1_000_000_000);
        p.time_prolong_ground_impact = millis(1_000_000_000);
        p
    };
    let mut first = tick(at_millis(100), protect(FallDirection::Forward), falling());
    first.fall_protection = far;
    run(&mut protector, first, &mut exits);
    let mut second = tick(at_millis(112), protect(FallDirection::Forward), fallen());
    second.fall_protection = far;
    run(&mut protector, second, &mut exits);
    assert_eq!(protector.fallen_time(), Some(at_millis(112)));

    let mut away = tick(at_millis(124), MotionCommand::Stand, FallState::Upright);
    away.motion_selection = selected(MotionType::Stand);
    run(&mut protector, away, &mut exits);

    assert_eq!(protector.start_time(), at_millis(124));
    assert_eq!(protector.last_fall_state(), fallen());
    assert_eq!(protector.fallen_time(), Some(at_millis(112)));
}

#[test]
fn head_is_fully_stiff_before_half_a_second() {
    let mut protector = FallProtector::new();
    let mut exits = MotionSafeExits::fill(false);
    let mut leave = tick(at_millis(1000), MotionCommand::Walk, FallState::Upright);
    leave.motion_selection = selected(MotionType::Walk);
    run(&mut protector, leave, &mut exits);

    let context = tick(at_millis(1499), protect(FallDirection::Forward), falling());
    let outputs = run(&mut protector, context, &mut exits);

    assert_eq!(outputs.stiffnesses.head, HeadJoints::fill(1_000_000_000));
    assert_eq!(FULL_HEAD_STIFFNESS, 1_000_000_000);
    assert!(!exits.get(MotionType::FallProtection));
}

#[test]
fn head_relaxes_at_half_a_second() {
    let mut protector = FallProtector::new();
    let mut exits = MotionSafeExits::fill(false);
    let mut leave = tick(at_millis(1000), MotionCommand::Walk, FallState::Upright);
    leave.motion_selection = selected(MotionType::Walk);
    run(&mut protector, leave, &mut exits);

    let mut just_before = tick(at_millis(1500), protect(FallDirection::Forward), falling());
    just_before.cycle_time.start_time = Timestamp { nanos: 1_499_999_999 };
    let outputs = run(&mut protector, just_before, &mut exits);
    assert_eq!(outputs.stiffnesses.head, HeadJoints::fill(1_000_000_000));

    let exactly = tick(at_millis(1500), protect(FallDirection::Forward), falling());
    let outputs = run(&mut protector, exactly, &mut exits);
    assert_eq!(outputs.stiffnesses.head, HeadJoints::fill(500_000_000));
    assert_eq!(RELAXED_HEAD_STIFFNESS, 500_000_000);

    let after = tick(at_millis(1900), protect(FallDirection::Backward), falling());
    let outputs = run(&mut protector, after, &mut exits);
    assert_eq!(outputs.stiffnesses.head, HeadJoints::fill(500_000_000));
}

#[test]
fn free_motion_exit_opens_and_stays_open() {
    let mut protector = FallProtector::new();
    let mut exits = MotionSafeExits::fill(false);
    let mut leave = tick(at_millis(5000), MotionCommand::Walk, FallState::Upright);
    leave.motion_selection = selected(MotionType::Walk);
    run(&mut protector, leave, &mut exits);

    let mut flags = Vec::new();
    for step in 0..6u128 {
        let context = tick(
            at_millis(5000 + 996 + step * 2),
            protect(FallDirection::Backward),
            falling(),
        );
        run(&mut protector, context, &mut exits);
        flags.push(exits.get(MotionType::FallProtection));
        assert_eq!(protector.start_time(), at_millis(5000));
    }
    assert_eq!(flags, vec![false, false, true, true, true, true]);

    let mut away = tick(at_millis(6100), MotionCommand::Walk, FallState::Upright);
    away.motion_selection = selected(MotionType::Walk);
    run(&mut protector, away, &mut exits);
    assert!(!exits.get(MotionType::FallProtection));
    let back = tick(at_millis(6112), protect(FallDirection::Backward), falling());
    run(&mut protector, back, &mut exits);
    assert!(!exits.get(MotionType::FallProtection));
    assert_eq!(protector.start_time(), at_millis(6100));
}

#[test]
fn fallen_time_follows_falling_fallen_fallen_upright() {
    let mut protector = FallProtector::new();
    let mut exits = MotionSafeExits::fill(false);
    let command = protect(FallDirection::Forward);

    run(&mut protector, tick(at_millis(100), command, falling()), &mut exits);
    assert_eq!(protector.fallen_time(), None);
    assert_eq!(protector.last_fall_state(), falling());

    run(&mut protector, tick(at_millis(112), command, fallen()), &mut exits);
    assert_eq!(protector.fallen_time(), Some(at_millis(112)));

    run(&mut protector, tick(at_millis(124), command, fallen()), &mut exits);
    assert_eq!(protector.fallen_time(), Some(at_millis(112)));
    assert_eq!(protector.last_fall_state(), fallen());

    run(&mut protector, tick(at_millis(136), command, FallState::Upright), &mut exits);
    assert_eq!(protector.fallen_time(), None);
    assert_eq!(protector.last_fall_state(), FallState::Upright);
}

#[test]
fn fallen_without_falling_first_sets_no_fallen_time() {
    let mut protector = FallProtector::new();
    let mut exits = MotionSafeExits::fill(false);
    let command = protect(FallDirection::Forward);
    run(&mut protector, tick(at_millis(100), command, fallen()), &mut exits);
    assert_eq!(protector.fallen_time(), None);
    run(&mut protector, tick(at_millis(112), command, fallen()), &mut exits);
    assert_eq!(protector.fallen_time(), None);
    run(&mut protector, tick(at_millis(400), command, fallen()), &mut exits);
    assert!(!exits.get(MotionType::FallProtection));
}

#[test]
fn update_fallen_time_is_a_transition_table() {
    let now = at_millis(50);
    let held = Some(at_millis(20));
    let states = [FallState::Upright, falling(), fallen()];
    for last in states {
        for current in states {
            let expected = match (last, current) {
                (FallState::Falling { .. }, FallState::Fallen { .. }) => Some(now),
                (FallState::Fallen { .. }, FallState::Fallen { .. }) => held,
                _ => None,
            };
            assert_eq!(update_fallen_time(last, current, held, now), expected);
        }
    }
    assert_eq!(
        update_fallen_time(
            FallState::Falling { direction: FallDirection::Left },
            FallState::Fallen { facing: Facing::Up },
            None,
            now
        ),
        Some(now)
    );
    assert_eq!(update_fallen_time(fallen(), fallen(), None, now), None);
}

#[test]
fn prolonged_ground_impact_signals_once_and_clears() {
    let mut protector = FallProtector::new();
    let mut exits = MotionSafeExits::fill(false);
    let mut leave = tick(at_millis(1000), MotionCommand::Walk, FallState::Upright);
    leave.motion_selection = selected(MotionType::Walk);
    run(&mut protector, leave, &mut exits);
    let command = protect(FallDirection::Forward);

    run(&mut protector, tick(at_millis(1012), command, falling()), &mut exits);
    run(&mut protector, tick(at_millis(1024), command, fallen()), &mut exits);
    assert!(!exits.get(MotionType::FallProtection));
    run(&mut protector, tick(at_millis(1223), command, fallen()), &mut exits);
    assert!(!exits.get(MotionType::FallProtection));
    assert_eq!(protector.fallen_time(), Some(at_millis(1024)));

    run(&mut protector, tick(at_millis(1224), command, fallen()), &mut exits);
    assert!(exits.get(MotionType::FallProtection));
    assert_eq!(protector.fallen_time(), None);

    run(&mut protector, tick(at_millis(1236), command, fallen()), &mut exits);
    assert!(!exits.get(MotionType::FallProtection));
    assert_eq!(protector.fallen_time(), None);
}

#[test]
fn zero_prolong_threshold_clears_on_the_tick_of_impact() {
    let mut protector = FallProtector::new();
    let mut exits = MotionSafeExits::fill(false);
    let mut quick = parameters();
    quick.time_prolong_ground_impact = millis(0);
    quick.time_free_motion_exit = millis(u64::MAX);
    let command = protect(FallDirection::Forward);
    let mut first = tick(at_millis(100), command, falling());
    first.fall_protection = quick;
    run(&mut protector, first, &mut exits);
    let mut second = tick(at_millis(112), command, fallen());
    second.fall_protection = quick;
    run(&mut protector, second, &mut exits);
    assert!(exits.get(MotionType::FallProtection));
    assert_eq!(protector.fallen_time(), None);
}

#[test]
fn forward_pose_reached_braces_the_head() {
    let mut protector = FallProtector::new();
    let mut exits = MotionSafeExits::fill(false);
    let mut context = tick(at_millis(100), protect(FallDirection::Forward), falling());
    context.sensed_positions = with_head(0, -672_000_000);
    let outputs = run(&mut protector, context, &mut exits);
    assert_eq!(outputs.stiffnesses.head, HeadJoints::fill(IMPACT_HEAD));
    assert_eq!(FORWARD_HEAD_PITCH, -672_000_000);
}

#[test]
fn forward_pose_not_reached_keeps_timed_head_stiffness() {
    let mut protector = FallProtector::new();
    let mut exits = MotionSafeExits::fill(false);
    let mut context = tick(at_millis(100), protect(FallDirection::Forward), falling());
    context.sensed_positions = with_head(0, 0);
    let outputs = run(&mut protector, context, &mut exits);
    assert_ne!(outputs.stiffnesses.head, HeadJoints::fill(IMPACT_HEAD));
    assert_eq!(outputs.stiffnesses.head, HeadJoints::fill(1_000_000_000));

    let mut late = tick(at_millis(900), protect(FallDirection::Forward), falling());
    late.sensed_positions = with_head(0, 0);
    let outputs = run(&mut protector, late, &mut exits);
    assert_eq!(outputs.stiffnesses.head, HeadJoints::fill(500_000_000));
}

#[test]
fn head_pose_tolerance_is_inclusive() {
    assert_eq!(HEAD_POSE_TOLERANCE, 50_000_000);
    let target = FORWARD_HEAD_PITCH;
    assert!(is_head_in_pose(HeadJoints { yaw: 0, pitch: target }, target));
    assert!(is_head_in_pose(HeadJoints { yaw: 0, pitch: target + 50_000_000 }, target));
    assert!(is_head_in_pose(HeadJoints { yaw: 0, pitch: target - 50_000_000 }, target));
    assert!(!is_head_in_pose(HeadJoints { yaw: 0, pitch: target + 50_000_001 }, target));
    assert!(!is_head_in_pose(HeadJoints { yaw: 0, pitch: target - 50_000_001 }, target));
    assert!(is_head_in_pose(HeadJoints { yaw: 50_000_000, pitch: target }, target));
    assert!(is_head_in_pose(HeadJoints { yaw: -50_000_000, pitch: target }, target));
    assert!(!is_head_in_pose(HeadJoints { yaw: 50_000_001, pitch: target }, target));
    assert!(!is_head_in_pose(HeadJoints { yaw: -50_000_001, pitch: target }, target));
    assert!(!is_head_in_pose(HeadJoints { yaw: i64::MIN, pitch: target }, target));
    assert!(!is_head_in_pose(HeadJoints { yaw: 0, pitch: i64::MAX }, target));
    assert!(!is_head_in_pose(HeadJoints { yaw: 0, pitch: i64::MIN }, BACKWARD_HEAD_PITCH));
    assert!(!is_head_in_pose(HeadJoints { yaw: 0, pitch: target }, BACKWARD_HEAD_PITCH));
}

#[test]
fn other_directions_check_the_backward_pose() {
    assert_eq!(BACKWARD_HEAD_PITCH, 514_900_000);
    for direction in [FallDirection::Backward, FallDirection::Left, FallDirection::Right] {
        let mut protector = FallProtector::new();
        let mut exits = MotionSafeExits::fill(false);
        let mut context = tick(at_millis(100), protect(direction), falling());
        context.sensed_positions = with_head(-10_000_000, 514_900_000 + 49_000_000);
        let outputs = run(&mut protector, context, &mut exits);
        assert_eq!(outputs.stiffnesses.head, HeadJoints::fill(IMPACT_HEAD));

        let mut forward_pose = tick(at_millis(112), protect(direction), falling());
        forward_pose.sensed_positions = with_head(0, -672_000_000);
        let outputs = run(&mut protector, forward_pose, &mut exits);
        assert_eq!(outputs.stiffnesses.head, HeadJoints::fill(1_000_000_000));
    }
}

#[test]
fn forward_command_ignores_the_backward_pose() {
    let mut protector = FallProtector::new();
    let mut exits = MotionSafeExits::fill(false);
    let mut context = tick(at_millis(100), protect(FallDirection::Forward), falling());
    context.sensed_positions = with_head(0, 514_900_000);
    let outputs = run(&mut protector, context, &mut exits);
    assert_eq!(outputs.stiffnesses.head, HeadJoints::fill(1_000_000_000));
}

#[test]
fn command_mismatch_braces_the_head_and_poses_backward() {
    for command in [
        MotionCommand::Stand,
        MotionCommand::Walk,
        MotionCommand::Unstiff,
        MotionCommand::Jump { direction: JumpDirection::Left },
        MotionCommand::StandUp { facing: Facing::Up },
    ] {
        let mut protector = FallProtector::new();
        let mut exits = MotionSafeExits::fill(false);
        let context = tick(at_millis(100), command, FallState::Upright);
        let outputs = run(&mut protector, context, &mut exits);
        assert_eq!(outputs.stiffnesses.head, HeadJoints::fill(IMPACT_HEAD));
        let expected = Joints {
            head: HeadJoints { yaw: 0, pitch: 514_900_000 },
            left_arm: left_arm(),
            right_arm: right_arm(),
            left_leg: sensed().left_leg,
            right_leg: sensed().right_leg,
        };
        assert_eq!(outputs.target, Target::Pose { positions: expected });
        assert_eq!(outputs.fall_protection_command(Joints::fill(-1)).positions, expected);
    }
}

#[test]
fn forward_command_targets_the_catch_pose() {
    let mut protector = FallProtector::new();
    let mut exits = MotionSafeExits::fill(false);
    let context = tick(at_millis(100), protect(FallDirection::Forward), falling());
    let outputs = run(&mut protector, context, &mut exits);
    let expected = Joints {
        head: HeadJoints { yaw: 0, pitch: -672_000_000 },
        left_arm: left_arm(),
        right_arm: right_arm(),
        left_leg: sensed().left_leg,
        right_leg: sensed().right_leg,
    };
    assert_eq!(outputs.target, Target::Pose { positions: expected });
    assert_eq!(build_catch_pose(-672_000_000, &context), expected);
    let command = outputs.fall_protection_command(Joints::fill(-1));
    assert_eq!(command.positions, expected);
    assert_eq!(command.stiffnesses, outputs.stiffnesses);
}

#[test]
fn other_directions_replay_the_recovery_motion() {
    for direction in [FallDirection::Backward, FallDirection::Left, FallDirection::Right] {
        let mut protector = FallProtector::new();
        let mut exits = MotionSafeExits::fill(false);
        let mut context = tick(at_millis(100), protect(direction), falling());
        context.cycle_time.last_cycle_duration = millis(17);
        let outputs = run(&mut protector, context, &mut exits);
        assert_eq!(
            outputs.target,
            Target::Replay { initial_positions: sensed(), duration: millis(17) }
        );
        let interpolated = Joints::fill(77);
        let command = outputs.fall_protection_command(interpolated);
        assert_eq!(command.positions, interpolated);
        assert_eq!(command.stiffnesses, outputs.stiffnesses);
    }
}

#[test]
fn body_stiffness_is_mirrored_below_the_threshold() {
    let mut protector = FallProtector::new();
    let mut exits = MotionSafeExits::fill(false);
    for pitch in [0, THRESHOLD, -THRESHOLD, 1, -1] {
        let mut context = tick(at_millis(100), protect(FallDirection::Forward), falling());
        context.filtered_pitch = pitch;
        let outputs = run(&mut protector, context, &mut exits);
        assert_eq!(outputs.stiffnesses.body(), BodyJoints::fill_mirrored(ARM, LEG));
        assert_eq!(outputs.stiffnesses.left_arm, ArmJoints::fill(ARM));
        assert_eq!(outputs.stiffnesses.right_arm, ArmJoints::fill(ARM));
        assert_eq!(outputs.stiffnesses.left_leg, LegJoints::fill(LEG));
        assert_eq!(outputs.stiffnesses.right_leg, LegJoints::fill(LEG));
    }
}

#[test]
fn body_stiffness_is_uniform_beyond_the_threshold() {
    let mut protector = FallProtector::new();
    let mut exits = MotionSafeExits::fill(false);
    for pitch in [THRESHOLD + 1, -THRESHOLD - 1, i64::MAX, i64::MIN] {
        let mut context = tick(at_millis(100), protect(FallDirection::Backward), falling());
        context.filtered_pitch = pitch;
        let outputs = run(&mut protector, context, &mut exits);
        assert_eq!(outputs.stiffnesses.body(), BodyJoints::fill(IMPACT_BODY));
        assert_eq!(outputs.stiffnesses.head, HeadJoints::fill(1_000_000_000));
    }
}

#[test]
fn safe_exit_flag_is_recomputed_every_tick() {
    let mut protector = FallProtector::new();
    let mut leave = tick(at_millis(1000), MotionCommand::Walk, FallState::Upright);
    leave.motion_selection = selected(MotionType::Walk);
    let mut exits = MotionSafeExits::fill(true);
    run(&mut protector, leave, &mut exits);
    assert!(!exits.get(MotionType::FallProtection));

    exits.set(MotionType::FallProtection, true);
    let context = tick(at_millis(1012), protect(FallDirection::Forward), falling());
    run(&mut protector, context, &mut exits);
    assert!(!exits.get(MotionType::FallProtection));
    for motion in [MotionType::Walk, MotionType::Stand, MotionType::KeeperJumpRight] {
        assert!(exits.get(motion));
    }
}

#[test]
fn clock_behind_entry_is_reported() {
    let mut protector = FallProtector::new();
    let mut exits = MotionSafeExits::fill(false);
    let mut leave = tick(at_millis(1000), MotionCommand::Walk, FallState::Upright);
    leave.motion_selection = selected(MotionType::Walk);
    run(&mut protector, leave, &mut exits);

    let early = tick(at_millis(999), protect(FallDirection::Forward), falling());
    assert!(protector.clock_ran_backwards(&early));
    let same = tick(at_millis(1000), protect(FallDirection::Forward), falling());
    assert!(!protector.clock_ran_backwards(&same));
    let mut early_elsewhere = early;
    early_elsewhere.motion_selection = selected(MotionType::Stand);
    assert!(!protector.clock_ran_backwards(&early_elsewhere));
}

#[test]
fn clock_behind_ground_contact_is_reported() {
    let mut protector = FallProtector::new();
    let mut exits = MotionSafeExits::fill(false);
    let command = protect(FallDirection::Forward);
    run(&mut protector, tick(at_millis(100), command, falling()), &mut exits);
    run(&mut protector, tick(at_millis(112), command, fallen()), &mut exits);
    assert_eq!(protector.fallen_time(), Some(at_millis(112)));

    assert!(protector.clock_ran_backwards(&tick(at_millis(111), command, fallen())));
    assert!(!protector.clock_ran_backwards(&tick(at_millis(111), command, FallState::Upright)));
    assert!(!protector.clock_ran_backwards(&tick(at_millis(112), command, fallen())));
}
