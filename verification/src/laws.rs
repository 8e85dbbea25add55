//! What holds of every run of the control loop.
//!
//! Each statement is over the transition function [`step`] and its extension
//! to traces, [`state_after`] and [`action_at`], which are exactly what
//! [`crate::control::ControlLoop`] computes.

use vstd::prelude::*;
use crate::actuator::ActuatorState;
use crate::control::{
    action_at, lemma_state_after_prefix, state_after, step, Action, Event, LoopState, Transition,
};
use crate::policy::PolicyModel;
use crate::reading::SensorReading;

verus! {

/// Whether every event is a sample whose value lies strictly inside the deadband.
pub open spec fn all_in_deadband(policy: PolicyModel, events: Seq<Event>) -> bool {
    forall|i: int|
        0 <= i < events.len() ==> (#[trigger] events[i] matches Event::Sampled(reading)
            && policy.in_deadband(reading.value as int))
}

/// Whether none of the first `count` events ends the loop.
pub open spec fn undisturbed(events: Seq<Event>, count: int) -> bool {
    forall|i: int|
        0 <= i < count ==> #[trigger] events[i] != Event::ShutdownRequested && events[i]
            != Event::WriteFailed
}

/// Deadband: while every sample lies strictly between `low` and `high`, the
/// actuator keeps the state it had and every answer is `Hold`.
pub proof fn lemma_deadband_keeps_state(
    policy: PolicyModel,
    current: ActuatorState,
    events: Seq<Event>,
)
    requires
        all_in_deadband(policy, events),
    ensures
        state_after(policy, LoopState::Running(current), events) == LoopState::Running(current),
        forall|i: int|
            0 <= i < events.len() ==> #[trigger] action_at(
                policy,
                LoopState::Running(current),
                events,
                i,
            ) == Action::Hold,
    decreases events.len(),
{
    let start = LoopState::Running(current);
    if events.len() > 0 {
        lemma_deadband_keeps_state(policy, current, events.drop_last());
        assert(events[events.len() - 1] is Sampled);
    }
    assert forall|i: int| 0 <= i < events.len() implies #[trigger] action_at(
        policy,
        start,
        events,
        i,
    ) == Action::Hold by {
        let earlier = events.take(i);
        if i < events.len() - 1 {
            assert(earlier =~= events.drop_last().take(i));
            assert(action_at(policy, start, events.drop_last(), i) == Action::Hold);
        } else {
            assert(earlier =~= events.drop_last());
        }
        assert(events[i] is Sampled);
    }
}

/// Crossing a threshold decides the state whatever came before: a sample at or
/// above `high` taken while disengaged engages, and a sample at or below `low`
/// taken while engaged disengages. Both are answered with a `Switch` that
/// carries the old state, the new state and the sample.
pub proof fn lemma_crossing_switches(
    policy: PolicyModel,
    start: LoopState,
    history: Seq<Event>,
    reading: SensorReading,
)
    requires
        policy is Threshold,
        policy.wf(),
    ensures
        ({
            let before = state_after(policy, start, history);
            let events = history.push(Event::Sampled(reading));
            let after = state_after(policy, start, events);
            let answer = action_at(policy, start, events, history.len() as int);
            &&& before == LoopState::Running(ActuatorState::Disengaged) && reading.value
                >= policy->high ==> after == LoopState::Running(ActuatorState::Engaged) && answer
                == Action::Switch(
                Transition {
                    previous: ActuatorState::Disengaged,
                    next: ActuatorState::Engaged,
                    reading,
                },
            )
            &&& before == LoopState::Running(ActuatorState::Engaged) && reading.value
                <= policy->low ==> after == LoopState::Running(ActuatorState::Disengaged)
                && answer == Action::Switch(
                Transition {
                    previous: ActuatorState::Engaged,
                    next: ActuatorState::Disengaged,
                    reading,
                },
            )
        }),
{
    let events = history.push(Event::Sampled(reading));
    assert(events.drop_last() =~= history);
    assert(events.take(history.len() as int) =~= history);
}

/// No command contradicts the sample that caused it: under a threshold policy
/// the actuator is engaged only by a value at or above `high`, and disengaged
/// by a sample only when its value is at or below `low`.
pub proof fn lemma_commands_respect_thresholds(
    policy: PolicyModel,
    state: LoopState,
    reading: SensorReading,
)
    requires
        policy is Threshold,
        policy.wf(),
    ensures
        ({
            let answer = step(policy, state, Event::Sampled(reading)).1;
            &&& answer.command_spec() == Some(ActuatorState::Engaged) ==> reading.value
                >= policy->high
            &&& answer.command_spec() == Some(ActuatorState::Disengaged) ==> reading.value
                <= policy->low
        }),
{
}

/// Idempotence: a sample taken in the state it implies changes nothing, and
/// after any sample the loop is in the state that sample implies. So the same
/// sample fed a second time is answered with `Hold`.
pub proof fn lemma_same_reading_twice(
    policy: PolicyModel,
    current: ActuatorState,
    reading: SensorReading,
)
    ensures
        policy.decide(policy.decide(current, reading), reading) == policy.decide(current, reading),
        policy.decide(current, reading) == current ==> step(
            policy,
            LoopState::Running(current),
            Event::Sampled(reading),
        ) == (LoopState::Running(current), Action::Hold),
        ({
            let once = step(policy, LoopState::Running(current), Event::Sampled(reading)).0;
            step(policy, once, Event::Sampled(reading)) == (once, Action::Hold)
        }),
{
}

/// A `Switch` is an exact record of a change: it is answered only to a sample,
/// it names the state before and the state after, the two differ, and the
/// state after is what the policy decided for that sample. Any other answer
/// of a running loop leaves the actuator state as it was.
pub proof fn lemma_switch_records_change(policy: PolicyModel, current: ActuatorState, event: Event)
    ensures
        ({
            let (after, answer) = step(policy, LoopState::Running(current), event);
            &&& answer matches Action::Switch(transition) ==> {
                &&& event == Event::Sampled(transition.reading)
                &&& transition.previous == current
                &&& transition.next != current
                &&& transition.next == policy.decide(current, transition.reading)
                &&& after == LoopState::Running(transition.next)
            }
            &&& !(answer is Switch) && after is Running ==> after == LoopState::Running(current)
        }),
{
}

/// A duty schedule engages during the first `on` milliseconds of every period
/// and disengages for the `off` milliseconds that follow, whatever the state
/// before.
pub proof fn lemma_duty_windows(
    policy: PolicyModel,
    current: ActuatorState,
    reading: SensorReading,
    cycle: nat,
)
    requires
        policy is Duty,
        policy.wf(),
    ensures
        ({
            let period = policy->on + policy->off;
            let begin = cycle * period;
            &&& begin <= reading.taken_at < begin + policy->on ==> policy.decide(current, reading)
                == ActuatorState::Engaged
            &&& begin + policy->on <= reading.taken_at < begin + period ==> policy.decide(
                current,
                reading,
            ) == ActuatorState::Disengaged
        }),
{
    let period = (policy->on + policy->off) as int;
    let begin = cycle * period;
    let time = reading.taken_at as int;
    if begin <= time < begin + period {
        vstd::arithmetic::div_mod::lemma_fundamental_div_mod_converse(
            time,
            period,
            cycle as int,
            time - begin,
        );
    }
}

/// A duty schedule repeats: whole periods later it prescribes the same state.
pub proof fn lemma_duty_repeats(
    policy: PolicyModel,
    current: ActuatorState,
    reading: SensorReading,
    later: SensorReading,
    cycles: nat,
)
    requires
        policy is Duty,
        policy.wf(),
        later.taken_at == reading.taken_at + cycles * (policy->on + policy->off),
    ensures
        policy.decide(current, later) == policy.decide(current, reading),
{
    let period = (policy->on + policy->off) as int;
    vstd::arithmetic::div_mod::lemma_mod_multiples_vanish(
        cycles as int,
        reading.taken_at as int,
        period,
    );
    assert(period * cycles + reading.taken_at == later.taken_at) by (nonlinear_arith)
        requires
            later.taken_at == reading.taken_at + cycles * period,
    ;
}

/// While no event ends the loop, it keeps running.
pub proof fn lemma_undisturbed_keeps_running(
    policy: PolicyModel,
    current: ActuatorState,
    events: Seq<Event>,
)
    requires
        undisturbed(events, events.len() as int),
    ensures
        state_after(policy, LoopState::Running(current), events) is Running,
    decreases events.len(),
{
    if events.len() > 0 {
        let earlier = events.drop_last();
        assert forall|i: int| 0 <= i < earlier.len() implies #[trigger] earlier[i]
            != Event::ShutdownRequested && earlier[i] != Event::WriteFailed by {
            assert(earlier[i] == events[i]);
        }
        lemma_undisturbed_keeps_running(policy, current, earlier);
        let last = events[events.len() - 1];
        assert(last != Event::ShutdownRequested && last != Event::WriteFailed);
    }
}

/// Once ended, the loop stays ended and never asks for the safe state again.
pub proof fn lemma_ended_stays_ended(policy: PolicyModel, start: LoopState, events: Seq<Event>)
    requires
        !(start is Running),
    ensures
        !(state_after(policy, start, events) is Running),
        forall|i: int|
            0 <= i < events.len() ==> (#[trigger] action_at(policy, start, events, i)).command_spec()
                is None,
    decreases events.len(),
{
    if events.len() > 0 {
        lemma_ended_stays_ended(policy, start, events.drop_last());
    }
    assert forall|i: int| 0 <= i < events.len() implies (#[trigger] action_at(
        policy,
        start,
        events,
        i,
    )).command_spec() is None by {
        lemma_ended_stays_ended(policy, start, events.take(i));
    }
}

/// Shutdown: the first shutdown request seen by a running loop is answered
/// with `ForceSafe`, whatever the actuator state, and that is the only
/// `ForceSafe` of the whole run. It commands `Disengaged`, it ends the loop,
/// and no later answer commands the actuator.
pub proof fn lemma_shutdown_forces_safe_once(
    policy: PolicyModel,
    current: ActuatorState,
    events: Seq<Event>,
    at: int,
)
    requires
        0 <= at < events.len(),
        events[at] == Event::ShutdownRequested,
        undisturbed(events, at),
    ensures
        action_at(policy, LoopState::Running(current), events, at) == Action::ForceSafe,
        Action::ForceSafe.command_spec() == Some(ActuatorState::Disengaged),
        state_after(policy, LoopState::Running(current), events.take(at + 1)) == LoopState::Stopped,
        !(state_after(policy, LoopState::Running(current), events) is Running),
        forall|i: int|
            0 <= i < events.len() && i != at ==> #[trigger] action_at(
                policy,
                LoopState::Running(current),
                events,
                i,
            ) != Action::ForceSafe,
        forall|i: int|
            at < i < events.len() ==> (#[trigger] action_at(
                policy,
                LoopState::Running(current),
                events,
                i,
            )).command_spec() is None,
{
    let start = LoopState::Running(current);
    assert forall|i: int| 0 <= i <= at implies (#[trigger] state_after(
        policy,
        start,
        events.take(i),
    )) is Running by {
        let earlier = events.take(i);
        assert forall|k: int| 0 <= k < earlier.len() implies #[trigger] earlier[k]
            != Event::ShutdownRequested && earlier[k] != Event::WriteFailed by {
            assert(earlier[k] == events[k]);
        }
        lemma_undisturbed_keeps_running(policy, current, earlier);
    }
    assert(state_after(policy, start, events.take(at)) is Running);
    lemma_state_after_prefix(policy, start, events, at);
    let stopped = state_after(policy, start, events.take(at + 1));
    assert(stopped == LoopState::Stopped);
    lemma_resume(policy, start, events, at + 1);
    let rest = events.skip(at + 1);
    lemma_ended_stays_ended(policy, stopped, rest);
    assert forall|i: int| at < i < events.len() implies (#[trigger] action_at(
        policy,
        start,
        events,
        i,
    )).command_spec() is None by {
        lemma_resume_action(policy, start, events, at + 1, i);
        assert(action_at(policy, stopped, rest, i - (at + 1)).command_spec() is None);
    }
    assert forall|i: int| 0 <= i < at implies #[trigger] action_at(policy, start, events, i)
        != Action::ForceSafe by {
        assert(state_after(policy, start, events.take(i)) is Running);
        assert(events[i] != Event::ShutdownRequested);
    }
}

/// A run may be cut anywhere: the state after the whole trace is the state
/// after its tail, started where its head ended.
pub proof fn lemma_resume(policy: PolicyModel, start: LoopState, events: Seq<Event>, cut: int)
    requires
        0 <= cut <= events.len(),
    ensures
        state_after(policy, start, events) == state_after(
            policy,
            state_after(policy, start, events.take(cut)),
            events.skip(cut),
        ),
    decreases events.len(),
{
    if cut == events.len() {
        assert(events.take(cut) =~= events);
        assert(events.skip(cut) =~= Seq::<Event>::empty());
    } else {
        let shorter = events.drop_last();
        lemma_resume(policy, start, shorter, cut);
        assert(shorter.take(cut) =~= events.take(cut));
        assert(shorter.skip(cut) =~= events.skip(cut).drop_last());
        assert(events.skip(cut).last() == events.last());
    }
}

/// The answer to an event past a cut is the answer the tail gives it.
pub proof fn lemma_resume_action(
    policy: PolicyModel,
    start: LoopState,
    events: Seq<Event>,
    cut: int,
    index: int,
)
    requires
        0 <= cut <= index < events.len(),
    ensures
        action_at(policy, start, events, index) == action_at(
            policy,
            state_after(policy, start, events.take(cut)),
            events.skip(cut),
            index - cut,
        ),
{
    let head = events.take(index);
    lemma_resume(policy, start, head, cut);
    assert(head.take(cut) =~= events.take(cut));
    assert(head.skip(cut) =~= events.skip(cut).take(index - cut));
}

} // verus!
