//! Laws of the fall protection, over single ticks and over runs of ticks.

use crate::fall_protector::{
    decision, free_motion_exit, head_braced, head_stiffness, impact_prolonged, is_selected,
    safe_exit, step, CycleContext, ProtectorState, Target, FORWARD_HEAD_PITCH,
    FULL_HEAD_STIFFNESS, HEAD_RELAXATION_MILLIS, PASSIVE_STIFFNESS, RELAXED_HEAD_STIFFNESS,
};
use crate::joints::Joints;
use crate::motion::{FallDirection, MotionCommand};
use crate::time::Duration;
use vstd::prelude::*;

verus! {

/// What the fall protection remembers after the ticks of `ticks`, run in
/// order from `state`.
pub open spec fn run(state: ProtectorState, ticks: Seq<CycleContext>) -> ProtectorState
    decreases ticks.len(),
{
    if ticks.len() == 0 {
        state
    } else {
        step(run(state, ticks.drop_last()), ticks.last())
    }
}

/// Whether each tick from `from` up to and including `to` runs fall
/// protection and starts no earlier than the tick before it.
pub open spec fn stays_in_protection(ticks: Seq<CycleContext>, from: int, to: int) -> bool {
    &&& forall|i: int| from <= i <= to ==> is_selected(#[trigger] ticks[i])
    &&& forall|i: int|
        from <= i < to ==> (#[trigger] ticks[i + 1]).cycle_time.start_time.not_before(
            ticks[i].cycle_time.start_time,
        )
}

/// While another motion is selected, a tick commands the sensed positions
/// whatever the interpolator holds, at the passive stiffness on every joint,
/// restarts the timer of fall protection at the tick's start, keeps the
/// rest of what is remembered, and does not signal a safe exit.
pub proof fn passive_while_not_selected(
    state: ProtectorState,
    context: CycleContext,
    interpolated: Joints<i64>,
)
    requires
        !is_selected(context),
    ensures
        decision(state, context).command(interpolated).positions == context.sensed_positions,
        decision(state, context).command(interpolated).stiffnesses.is_uniform(PASSIVE_STIFFNESS),
        decision(state, context).target == (Target::Hold { positions: context.sensed_positions }),
        step(state, context).start_time == context.cycle_time.start_time,
        step(state, context).last_fall_state == state.last_fall_state,
        step(state, context).fallen_time == state.fallen_time,
        !safe_exit(state, context),
{
}

/// In fall protection both head joints get the same stiffness. Unless the
/// head is braced for ground impact, it is the full stiffness before the
/// relaxation delay has passed since entry and the relaxed stiffness from
/// then on. Where the configured ground-impact head stiffness does not
/// exceed the full stiffness, neither does the head stiffness.
pub proof fn head_stiffness_follows_entry_time(state: ProtectorState, context: CycleContext)
    requires
        is_selected(context),
    ensures
        decision(state, context).stiffnesses.head.yaw == head_stiffness(state, context),
        decision(state, context).stiffnesses.head.pitch == head_stiffness(state, context),
        !head_braced(context) && context.cycle_time.start_time.nanos_since(state.start_time)
            < Duration::millis(HEAD_RELAXATION_MILLIS).nanos ==> head_stiffness(state, context)
            == FULL_HEAD_STIFFNESS,
        !head_braced(context) && context.cycle_time.start_time.nanos_since(state.start_time)
            >= Duration::millis(HEAD_RELAXATION_MILLIS).nanos ==> head_stiffness(state, context)
            == RELAXED_HEAD_STIFFNESS,
        head_braced(context) ==> head_stiffness(state, context)
            == context.fall_protection.ground_impact_head_stiffness,
        context.fall_protection.ground_impact_head_stiffness <= FULL_HEAD_STIFFNESS
            ==> head_stiffness(state, context) <= FULL_HEAD_STIFFNESS,
{
}

/// Under a command to protect a fall to the front, a head exactly in the
/// protective pose gets the ground-impact stiffness, and a head at pitch zero
/// gets what the time since entry gives.
pub proof fn head_braces_in_forward_pose(state: ProtectorState, context: CycleContext)
    requires
        is_selected(context),
        context.motion_command == (MotionCommand::FallProtection {
            direction: FallDirection::Forward,
        }),
    ensures
        context.sensed_positions.head.pitch == FORWARD_HEAD_PITCH
            && context.sensed_positions.head.yaw == 0 ==> head_stiffness(state, context)
            == context.fall_protection.ground_impact_head_stiffness,
        context.sensed_positions.head.pitch == 0 ==> !head_braced(context) && (head_stiffness(
            state,
            context,
        ) == FULL_HEAD_STIFFNESS || head_stiffness(state, context) == RELAXED_HEAD_STIFFNESS),
{
}

/// The remembered state stays well-formed, and an instant of ground contact
/// survives a tick of fall protection only if the robot is seen on the
/// ground in it.
pub proof fn ground_contact_needs_fallen_run(state: ProtectorState, context: CycleContext)
    requires
        state.wf(),
    ensures
        step(state, context).wf(),
        is_selected(context) && !(context.fall_state is Fallen) ==> step(
            state,
            context,
        ).fallen_time.is_none(),
        is_selected(context) && step(state, context).fallen_time.is_some() ==> (state.last_fall_state
            is Falling || state.last_fall_state is Fallen),
{
}

/// Falling, then fallen twice, then upright again: the instant of ground
/// contact is the start of the second tick after it, unchanged after the
/// third and gone after the fourth, as long as the ground-impact timer does
/// not run out on the way.
pub proof fn ground_contact_over_a_fall(
    state: ProtectorState,
    falling: CycleContext,
    hit: CycleContext,
    lying: CycleContext,
    up: CycleContext,
)
    requires
        is_selected(falling) && is_selected(hit) && is_selected(lying) && is_selected(up),
        falling.fall_state is Falling,
        hit.fall_state is Fallen,
        lying.fall_state is Fallen,
        up.fall_state is Upright,
        !impact_prolonged(step(state, falling), hit),
        !impact_prolonged(step(step(state, falling), hit), lying),
    ensures
        step(state, falling).fallen_time.is_none(),
        step(step(state, falling), hit).fallen_time == Some(hit.cycle_time.start_time),
        step(step(step(state, falling), hit), lying).fallen_time == Some(
            hit.cycle_time.start_time,
        ),
        step(step(step(step(state, falling), hit), lying), up).fallen_time.is_none(),
{
}

/// The ground-impact timer signals once: the tick after one on which it ran
/// out does not find it run out again, whatever that tick sees.
pub proof fn prolonged_impact_signals_once(
    state: ProtectorState,
    context: CycleContext,
    next: CycleContext,
)
    requires
        is_selected(context),
        impact_prolonged(state, context),
    ensures
        safe_exit(state, context),
        step(state, context).fallen_time.is_none(),
        !impact_prolonged(step(state, context), next),
{
}

/// Ticks of fall protection do not move the instant of entry.
pub proof fn entry_time_is_kept(state: ProtectorState, ticks: Seq<CycleContext>, from: int, to: int)
    requires
        0 <= from <= to <= ticks.len(),
        forall|i: int| from <= i < to ==> is_selected(#[trigger] ticks[i]),
    ensures
        run(state, ticks.take(to)).start_time == run(state, ticks.take(from)).start_time,
    decreases to - from,
{
    if from < to {
        entry_time_is_kept(state, ticks, from, to - 1);
        assert(ticks.take(to).drop_last() =~= ticks.take(to - 1));
        assert(ticks.take(to).last() == ticks[to - 1]);
    }
}

/// Once the time since entry has reached the configured free-motion exit,
/// the safe exit is signalled on that tick and on every later one, for as
/// long as fall protection stays selected, the clock does not run backwards
/// and the configured duration does not grow.
pub proof fn free_motion_exit_stays_open(
    state: ProtectorState,
    ticks: Seq<CycleContext>,
    reached: int,
    later: int,
)
    requires
        0 <= reached <= later < ticks.len(),
        stays_in_protection(ticks, reached, later),
        forall|i: int|
            reached <= i <= later ==> (#[trigger] ticks[i]).fall_protection.time_free_motion_exit.nanos
                <= ticks[reached].fall_protection.time_free_motion_exit.nanos,
        free_motion_exit(run(state, ticks.take(reached)), ticks[reached]),
    ensures
        safe_exit(run(state, ticks.take(later)), ticks[later]),
        run(state, ticks.take(later)).start_time == run(state, ticks.take(reached)).start_time,
    decreases later - reached,
{
    entry_time_is_kept(state, ticks, reached, later);
    if reached < later {
        free_motion_exit_stays_open(state, ticks, reached, later - 1);
        entry_time_is_kept(state, ticks, reached, later - 1);
        assert(ticks[later - 1 + 1].cycle_time.start_time.not_before(
            ticks[later - 1].cycle_time.start_time,
        ));
        clock_has_not_gone_back(ticks, reached, later);
    }
}

/// Over ticks that each start no earlier than the one before, the last
/// starts no earlier than the first.
pub proof fn clock_has_not_gone_back(ticks: Seq<CycleContext>, from: int, to: int)
    requires
        0 <= from <= to < ticks.len(),
        stays_in_protection(ticks, from, to),
    ensures
        ticks[to].cycle_time.start_time.not_before(ticks[from].cycle_time.start_time),
    decreases to - from,
{
    if from < to {
        clock_has_not_gone_back(ticks, from, to - 1);
        assert(ticks[to - 1 + 1].cycle_time.start_time.not_before(
            ticks[to - 1].cycle_time.start_time,
        ));
    }
}

} // verus!
