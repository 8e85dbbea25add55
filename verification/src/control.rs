//! The sampling loop as a state machine.
//!
//! The caller owns the clock, the sensor, the actuator and the shutdown flag.
//! At the top of every iteration it reports what it observed as an [`Event`];
//! [`ControlLoop::step`] answers with the [`Action`] to perform. The machine
//! never blocks and never touches hardware.

use vstd::prelude::*;
use crate::actuator::ActuatorState;
use crate::policy::{HysteresisPolicy, PolicyModel};
use crate::reading::SensorReading;

verus! {

/// A change of actuator state together with the sample that caused it.
#[derive(Clone, Copy, Debug, PartialEq, Eq, Structural)]
pub struct Transition {
    pub previous: ActuatorState,
    pub next: ActuatorState,
    pub reading: SensorReading,
}

/// Where the loop stands between two iterations.
#[derive(Clone, Copy, Debug, PartialEq, Eq, Structural)]
pub enum LoopState {
    /// Sampling, with the actuator last commanded to the given state.
    Running(ActuatorState),
    /// Cancellation was observed; the actuator has been sent to its safe state.
    Stopped,
    /// The actuator could not be commanded; nothing more will be attempted.
    Failed,
}

/// What the caller observed since the previous step.
#[derive(Clone, Copy, Debug, PartialEq, Eq, Structural)]
pub enum Event {
    /// The shutdown flag was set when the iteration began.
    ShutdownRequested,
    /// The sensor delivered a sample.
    Sampled(SensorReading),
    /// The sensor could not be read this time.
    ReadFailed,
    /// The actuator rejected the last command.
    WriteFailed,
}

/// What the caller must do next.
#[derive(Clone, Copy, Debug, PartialEq, Eq, Structural)]
pub enum Action {
    /// Leave the actuator alone and sleep one sampling period.
    Hold,
    /// Command the actuator to `next`, record the transition, then sleep.
    Switch(Transition),
    /// Record the failed read and sleep; the next tick tries again.
    SkipTick,
    /// Command the actuator to its safe state and leave the loop.
    ForceSafe,
    /// Record the fatal condition and terminate with a failure status.
    Abort,
    /// The loop has ended; there is nothing left to do.
    Nothing,
}

impl LoopState {
    /// The state every loop starts in.
    pub open spec fn initial() -> LoopState {
        LoopState::Running(ActuatorState::safe())
    }

    /// Status the process exits with once the loop has ended.
    pub open spec fn exit_status_spec(&self) -> Option<i32> {
        match self {
            LoopState::Running(_) => None,
            LoopState::Stopped => Some(0i32),
            LoopState::Failed => Some(1i32),
        }
    }

    /// Status the process exits with: 0 after a clean shutdown, 1 after a
    /// fatal actuator failure, none while the loop runs.
    #[verifier::when_used_as_spec(exit_status_spec)]
    pub fn exit_status(&self) -> (status: Option<i32>)
        ensures
            status == self.exit_status_spec(),
    {
        match self {
            LoopState::Running(_) => None,
            LoopState::Stopped => Some(0),
            LoopState::Failed => Some(1),
        }
    }
}

impl Action {
    /// The state this action sends to the actuator, if any.
    pub open spec fn command_spec(&self) -> Option<ActuatorState> {
        match self {
            Action::Switch(transition) => Some(transition.next),
            Action::ForceSafe => Some(ActuatorState::safe()),
            _ => None,
        }
    }

    /// Whether the caller sleeps one sampling period after this action.
    pub open spec fn sleeps_spec(&self) -> bool {
        self is Hold || self is Switch || self is SkipTick
    }

    /// The state to write to the actuator, if the action commands it.
    #[verifier::when_used_as_spec(command_spec)]
    pub fn command(&self) -> (target: Option<ActuatorState>)
        ensures
            target == self.command_spec(),
    {
        match self {
            Action::Switch(transition) => Some(transition.next),
            Action::ForceSafe => Some(ActuatorState::default()),
            _ => None,
        }
    }

    /// Whether the loop suspends for one sampling period after this action.
    #[verifier::when_used_as_spec(sleeps_spec)]
    pub fn sleeps(&self) -> (sleeps: bool)
        ensures
            sleeps == self.sleeps_spec(),
    {
        match self {
            Action::Hold | Action::Switch(_) | Action::SkipTick => true,
            _ => false,
        }
    }
}

/// One iteration: the state after `event` and the action it calls for.
pub open spec fn step(policy: PolicyModel, state: LoopState, event: Event) -> (LoopState, Action) {
    match state {
        LoopState::Running(current) => match event {
            Event::ShutdownRequested => (LoopState::Stopped, Action::ForceSafe),
            Event::Sampled(reading) => {
                let next = policy.decide(current, reading);
                if next != current {
                    (
                        LoopState::Running(next),
                        Action::Switch(Transition { previous: current, next, reading }),
                    )
                } else {
                    (state, Action::Hold)
                }
            },
            Event::ReadFailed => (state, Action::SkipTick),
            Event::WriteFailed => (LoopState::Failed, Action::Abort),
        },
        LoopState::Stopped => match event {
            Event::WriteFailed => (LoopState::Failed, Action::Abort),
            _ => (state, Action::Nothing),
        },
        LoopState::Failed => (state, Action::Nothing),
    }
}

/// The state reached from `start` after all of `events`, in order.
pub open spec fn state_after(policy: PolicyModel, start: LoopState, events: Seq<Event>) -> LoopState
    decreases events.len(),
{
    if events.len() == 0 {
        start
    } else {
        step(policy, state_after(policy, start, events.drop_last()), events.last()).0
    }
}

/// The action answered to the `index`-th of `events`.
pub open spec fn action_at(
    policy: PolicyModel,
    start: LoopState,
    events: Seq<Event>,
    index: int,
) -> Action {
    step(policy, state_after(policy, start, events.take(index)), events[index]).1
}

/// The actions answered to `events`, one per event.
pub open spec fn actions(policy: PolicyModel, start: LoopState, events: Seq<Event>) -> Seq<Action> {
    Seq::new(events.len(), |index: int| action_at(policy, start, events, index))
}

/// A control loop: its policy, its sampling period and where it stands.
#[derive(Clone, Copy, Debug)]
pub struct ControlLoop {
    policy: HysteresisPolicy,
    period_ms: u64,
    state: LoopState,
}

impl ControlLoop {
    /// The policy the loop was configured with.
    pub closed spec fn policy_spec(&self) -> PolicyModel {
        self.policy@
    }

    /// The sampling period in milliseconds.
    pub closed spec fn period_spec(&self) -> u64 {
        self.period_ms
    }

    /// Where the loop stands.
    pub closed spec fn state_spec(&self) -> LoopState {
        self.state
    }

    /// A loop about to take its first sample, with the actuator disengaged.
    pub fn new(policy: HysteresisPolicy, period_ms: u64) -> (control: ControlLoop)
        ensures
            control.policy_spec() == policy@,
            control.period_spec() == period_ms,
            control.state_spec() == LoopState::initial(),
    {
        ControlLoop { policy, period_ms, state: LoopState::Running(ActuatorState::Disengaged) }
    }

    /// Where the loop stands.
    #[verifier::when_used_as_spec(state_spec)]
    pub fn state(&self) -> (state: LoopState)
        ensures
            state == self.state_spec(),
    {
        self.state
    }

    /// How long to sleep after an action that sleeps, in milliseconds.
    #[verifier::when_used_as_spec(period_spec)]
    pub fn period_ms(&self) -> (period: u64)
        ensures
            period == self.period_spec(),
    {
        self.period_ms
    }

    /// The policy the loop decides by.
    pub fn policy(&self) -> (policy: HysteresisPolicy)
        ensures
            policy@ == self.policy_spec(),
    {
        self.policy
    }

    /// Takes one event and answers with the action to perform.
    ///
    /// While running: a shutdown request ends the loop and forces the actuator
    /// safe, whatever its state; a sample is put to the policy and answered
    /// with `Switch` only if the state changes; a failed read is skipped; a
    /// failed actuator write is fatal. Once the loop has ended nothing is
    /// commanded again.
    pub fn step(&mut self, event: Event) -> (action: Action)
        ensures
            (final(self).state_spec(), action) == step(
                old(self).policy_spec(),
                old(self).state_spec(),
                event,
            ),
            final(self).policy_spec() == old(self).policy_spec(),
            final(self).period_spec() == old(self).period_spec(),
    {
        match self.state {
            LoopState::Running(current) => match event {
                Event::ShutdownRequested => {
                    self.state = LoopState::Stopped;
                    Action::ForceSafe
                },
                Event::Sampled(reading) => {
                    let next = self.policy.decide(current, &reading);
                    if next != current {
                        self.state = LoopState::Running(next);
                        Action::Switch(Transition { previous: current, next, reading })
                    } else {
                        Action::Hold
                    }
                },
                Event::ReadFailed => {
                    Action::SkipTick
                },
                Event::WriteFailed => {
                    self.state = LoopState::Failed;
                    Action::Abort
                },
            },
            LoopState::Stopped => {
                match event {
                    Event::WriteFailed => {
                        self.state = LoopState::Failed;
                        Action::Abort
                    },
                    _ => Action::Nothing,
                }
            },
            LoopState::Failed => {
                Action::Nothing
            },
        }
    }

    /// Feeds a whole trace through the loop and collects the answers.
    ///
    /// The result holds one action per event, each the answer of
    /// [`ControlLoop::step`] in the state the earlier events left behind.
    pub fn replay(&mut self, events: &[Event]) -> (answers: Vec<Action>)
        ensures
            answers@ == actions(old(self).policy_spec(), old(self).state_spec(), events@),
            final(self).state_spec() == state_after(
                old(self).policy_spec(),
                old(self).state_spec(),
                events@,
            ),
            final(self).policy_spec() == old(self).policy_spec(),
            final(self).period_spec() == old(self).period_spec(),
    {
        let ghost policy = self.policy_spec();
        let ghost start = self.state_spec();
        let mut answers: Vec<Action> = Vec::new();
        let mut index: usize = 0;
        proof {
            assert(events@.take(0) =~= Seq::<Event>::empty());
        }
        while index < events.len()
            invariant
                index <= events.len(),
                answers.len() == index,
                self.policy_spec() == policy,
                self.period_spec() == old(self).period_spec(),
                self.state_spec() == state_after(policy, start, events@.take(index as int)),
                forall|j: int|
                    0 <= j < index ==> answers[j] == #[trigger] action_at(policy, start, events@, j),
            decreases events.len() - index,
        {
            proof {
                lemma_state_after_prefix(policy, start, events@, index as int);
            }
            let action = self.step(events[index]);
            answers.push(action);
            index += 1;
        }
        proof {
            assert(events@.take(index as int) =~= events@);
            assert(answers@ =~= actions(policy, start, events@));
        }
        answers
    }
}

/// Extending a prefix by one event takes one step.
pub proof fn lemma_state_after_prefix(
    policy: PolicyModel,
    start: LoopState,
    events: Seq<Event>,
    index: int,
)
    requires
        0 <= index < events.len(),
    ensures
        state_after(policy, start, events.take(index + 1)) == step(
            policy,
            state_after(policy, start, events.take(index)),
            events[index],
        ).0,
{
    let longer = events.take(index + 1);
    assert(longer.drop_last() =~= events.take(index));
    assert(longer.last() == events[index]);
}

} // verus!
