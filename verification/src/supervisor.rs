//! Detachment: from a foreground process to a background one.
//!
//! The sequence is fork, new session, fork again, change to the root
//! directory, redirect the standard streams to the null device. The caller
//! makes the system calls; this module decides, after each, what happens
//! next. Anything but success at any point is fatal: a process that is only
//! partly detached must not go on.

use vstd::prelude::*;

verus! {

/// One system-level step of the sequence.
#[derive(Clone, Copy, Debug, PartialEq, Eq, Structural)]
pub enum DetachStep {
    /// Fork; the parent leaves, the child goes on.
    FirstFork,
    /// Start a new session, with no controlling terminal.
    NewSession,
    /// Fork again; the session leader leaves, so that the survivor can never
    /// acquire a controlling terminal.
    SecondFork,
    /// Change the working directory to the filesystem root.
    ChangeDirectory,
    /// Point standard input, output and error at the null device.
    RedirectStreams,
}

/// What the caller reports after attempting a step.
#[derive(Clone, Copy, Debug, PartialEq, Eq, Structural)]
pub enum Outcome {
    /// A fork returned in the parent.
    Parent,
    /// A fork returned in the child.
    Child,
    /// A session was created, with this identity.
    Session(i32),
    /// The step succeeded and has nothing to report.
    Done,
    /// The step failed.
    Failed,
}

/// Why detachment was abandoned.
#[derive(Clone, Copy, Debug, PartialEq, Eq, Structural)]
pub enum DetachError {
    /// The step did not report the success it can end in.
    StepFailed(DetachStep),
    /// A step was reported although the process was detached already.
    AlreadyDetached,
}

/// The result of a completed detachment. There is one per process.
#[derive(Clone, Copy, Debug, PartialEq, Eq, Structural)]
pub struct DaemonContext {
    /// Identity of the session the daemon runs in.
    pub session: i32,
}

/// How far detachment has come.
#[derive(Clone, Copy, Debug, PartialEq, Eq, Structural)]
pub enum DetachState {
    /// Still the foreground process that was launched.
    Attached,
    /// The first child, not yet in a session of its own.
    Forked,
    /// Leader of a new session.
    SessionLeader(i32),
    /// The second child: in the session, but not its leader.
    Orphaned(i32),
    /// Working directory is the root; streams still point at the terminal.
    Rooted(i32),
    /// Fully detached.
    Detached(DaemonContext),
    /// A parent branch of a fork: this process leaves with status 0.
    Exited,
    /// Detachment failed: this process terminates with status 1.
    Aborted(DetachError),
}

/// What the caller must do in a given state.
#[derive(Clone, Copy, Debug, PartialEq, Eq, Structural)]
pub enum DetachAction {
    /// Attempt this step and report its outcome.
    Attempt(DetachStep),
    /// Detachment is complete: go on as a daemon.
    Proceed(DaemonContext),
    /// Terminate the process with this status.
    Exit(i32),
}

impl DetachState {
    /// The step a state waits for, if it waits for one.
    pub open spec fn pending(self) -> Option<DetachStep> {
        match self {
            DetachState::Attached => Some(DetachStep::FirstFork),
            DetachState::Forked => Some(DetachStep::NewSession),
            DetachState::SessionLeader(_) => Some(DetachStep::SecondFork),
            DetachState::Orphaned(_) => Some(DetachStep::ChangeDirectory),
            DetachState::Rooted(_) => Some(DetachStep::RedirectStreams),
            _ => None,
        }
    }

    /// What to do in this state.
    pub open spec fn action_spec(&self) -> DetachAction {
        match *self {
            DetachState::Detached(context) => DetachAction::Proceed(context),
            DetachState::Exited => DetachAction::Exit(0),
            DetachState::Aborted(_) => DetachAction::Exit(1),
            DetachState::Attached => DetachAction::Attempt(DetachStep::FirstFork),
            DetachState::Forked => DetachAction::Attempt(DetachStep::NewSession),
            DetachState::SessionLeader(_) => DetachAction::Attempt(DetachStep::SecondFork),
            DetachState::Orphaned(_) => DetachAction::Attempt(DetachStep::ChangeDirectory),
            DetachState::Rooted(_) => DetachAction::Attempt(DetachStep::RedirectStreams),
        }
    }

    /// The state after `outcome` was reported in this one.
    pub open spec fn advance_spec(self, outcome: Outcome) -> DetachState {
        match self {
            DetachState::Attached => match outcome {
                Outcome::Child => DetachState::Forked,
                Outcome::Parent => DetachState::Exited,
                _ => DetachState::Aborted(DetachError::StepFailed(DetachStep::FirstFork)),
            },
            DetachState::Forked => match outcome {
                Outcome::Session(session) => DetachState::SessionLeader(session),
                _ => DetachState::Aborted(DetachError::StepFailed(DetachStep::NewSession)),
            },
            DetachState::SessionLeader(session) => match outcome {
                Outcome::Child => DetachState::Orphaned(session),
                Outcome::Parent => DetachState::Exited,
                _ => DetachState::Aborted(DetachError::StepFailed(DetachStep::SecondFork)),
            },
            DetachState::Orphaned(session) => match outcome {
                Outcome::Done => DetachState::Rooted(session),
                _ => DetachState::Aborted(DetachError::StepFailed(DetachStep::ChangeDirectory)),
            },
            DetachState::Rooted(session) => match outcome {
                Outcome::Done => DetachState::Detached(DaemonContext { session }),
                _ => DetachState::Aborted(DetachError::StepFailed(DetachStep::RedirectStreams)),
            },
            DetachState::Detached(_) => DetachState::Aborted(DetachError::AlreadyDetached),
            DetachState::Exited => DetachState::Exited,
            DetachState::Aborted(error) => DetachState::Aborted(error),
        }
    }

    /// The state every process starts in.
    pub fn start() -> (state: DetachState)
        ensures
            state == DetachState::Attached,
    {
        DetachState::Attached
    }

    /// What the caller must do now: attempt the pending step, go on as a
    /// daemon, or terminate with status 0 (parent branch) or 1 (failure).
    #[verifier::when_used_as_spec(action_spec)]
    pub fn action(&self) -> (action: DetachAction)
        ensures
            action == self.action_spec(),
    {
        match *self {
            DetachState::Detached(context) => DetachAction::Proceed(context),
            DetachState::Exited => DetachAction::Exit(0),
            DetachState::Aborted(_) => DetachAction::Exit(1),
            DetachState::Attached => DetachAction::Attempt(DetachStep::FirstFork),
            DetachState::Forked => DetachAction::Attempt(DetachStep::NewSession),
            DetachState::SessionLeader(_) => DetachAction::Attempt(DetachStep::SecondFork),
            DetachState::Orphaned(_) => DetachAction::Attempt(DetachStep::ChangeDirectory),
            DetachState::Rooted(_) => DetachAction::Attempt(DetachStep::RedirectStreams),
        }
    }

    /// Takes the outcome of the pending step.
    ///
    /// The one success a step can end in moves to the next state; a fork that
    /// returns in the parent ends in `Exited`; every other outcome ends in
    /// `Aborted` with the step that failed. An outcome reported after
    /// detachment completed aborts as well. `Exited` and `Aborted` are final.
    pub fn advance(self, outcome: Outcome) -> (next: DetachState)
        ensures
            next == self.advance_spec(outcome),
    {
        match self {
            DetachState::Attached => match outcome {
                Outcome::Child => DetachState::Forked,
                Outcome::Parent => DetachState::Exited,
                _ => DetachState::Aborted(DetachError::StepFailed(DetachStep::FirstFork)),
            },
            DetachState::Forked => match outcome {
                Outcome::Session(session) => DetachState::SessionLeader(session),
                _ => DetachState::Aborted(DetachError::StepFailed(DetachStep::NewSession)),
            },
            DetachState::SessionLeader(session) => match outcome {
                Outcome::Child => DetachState::Orphaned(session),
                Outcome::Parent => DetachState::Exited,
                _ => DetachState::Aborted(DetachError::StepFailed(DetachStep::SecondFork)),
            },
            DetachState::Orphaned(session) => match outcome {
                Outcome::Done => DetachState::Rooted(session),
                _ => DetachState::Aborted(DetachError::StepFailed(DetachStep::ChangeDirectory)),
            },
            DetachState::Rooted(session) => match outcome {
                Outcome::Done => DetachState::Detached(DaemonContext { session }),
                _ => DetachState::Aborted(DetachError::StepFailed(DetachStep::RedirectStreams)),
            },
            DetachState::Detached(_) => DetachState::Aborted(DetachError::AlreadyDetached),
            DetachState::Exited => DetachState::Exited,
            DetachState::Aborted(error) => DetachState::Aborted(error),
        }
    }
}

impl Outcome {
    /// Reads the value a fork returned: negative is failure, zero is the
    /// child, anything else is the parent holding the child's identifier.
    pub fn of_fork(returned: i32) -> (outcome: Outcome)
        ensures
            returned < 0 ==> outcome == Outcome::Failed,
            returned == 0 ==> outcome == Outcome::Child,
            returned > 0 ==> outcome == Outcome::Parent,
    {
        if returned < 0 {
            Outcome::Failed
        } else if returned == 0 {
            Outcome::Child
        } else {
            Outcome::Parent
        }
    }

    /// Reads the value session creation returned: negative is failure,
    /// anything else is the new session's identity.
    pub fn of_session(returned: i32) -> (outcome: Outcome)
        ensures
            returned < 0 ==> outcome == Outcome::Failed,
            returned >= 0 ==> outcome == Outcome::Session(returned),
    {
        if returned < 0 {
            Outcome::Failed
        } else {
            Outcome::Session(returned)
        }
    }

    /// Reads the status of a call that only succeeds or fails.
    pub fn of_status(succeeded: bool) -> (outcome: Outcome)
        ensures
            outcome == if succeeded {
                Outcome::Done
            } else {
                Outcome::Failed
            },
    {
        if succeeded {
            Outcome::Done
        } else {
            Outcome::Failed
        }
    }
}

/// The state reached from `start` after all of `outcomes`, in order.
pub open spec fn detach_after(start: DetachState, outcomes: Seq<Outcome>) -> DetachState
    decreases outcomes.len(),
{
    if outcomes.len() == 0 {
        start
    } else {
        detach_after(start, outcomes.drop_last()).advance_spec(outcomes.last())
    }
}

/// Runs a whole sequence of outcomes from the attached state.
pub fn detach(outcomes: &[Outcome]) -> (end: DetachState)
    ensures
        end == detach_after(DetachState::Attached, outcomes@),
{
    let mut state = DetachState::start();
    let mut index: usize = 0;
    proof {
        assert(outcomes@.take(0) =~= Seq::<Outcome>::empty());
    }
    while index < outcomes.len()
        invariant
            index <= outcomes.len(),
            state == detach_after(DetachState::Attached, outcomes@.take(index as int)),
        decreases outcomes.len() - index,
    {
        proof {
            let longer = outcomes@.take(index + 1);
            assert(longer.drop_last() =~= outcomes@.take(index as int));
        }
        state = state.advance(outcomes[index]);
        index += 1;
    }
    proof {
        assert(outcomes@.take(index as int) =~= outcomes@);
    }
    state
}

/// The five reports of a detachment in which every step succeeded.
pub open spec fn clean_run(session: i32) -> Seq<Outcome> {
    seq![Outcome::Child, Outcome::Session(session), Outcome::Child, Outcome::Done, Outcome::Done]
}

/// Never partly detached: a process counts as detached exactly when all five
/// steps succeeded, in order, and nothing was reported after them.
pub proof fn lemma_detached_iff_clean_run(outcomes: Seq<Outcome>)
    ensures
        detach_after(DetachState::Attached, outcomes) is Detached <==> exists|session: i32|
            outcomes == #[trigger] clean_run(session),
        forall|session: i32|
            outcomes == #[trigger] clean_run(session) ==> detach_after(
                DetachState::Attached,
                outcomes,
            ) == DetachState::Detached(DaemonContext { session }),
{
    let start = DetachState::Attached;
    assert forall|session: i32| outcomes == #[trigger] clean_run(session) implies detach_after(
        start,
        outcomes,
    ) == DetachState::Detached(DaemonContext { session }) by {
        lemma_clean_run_detaches(session);
    }
    if detach_after(start, outcomes) is Detached {
        lemma_stage_length(outcomes);
        let o4 = outcomes;
        let o3 = o4.drop_last();
        let o2 = o3.drop_last();
        let o1 = o2.drop_last();
        let o0 = o1.drop_last();
        lemma_stage_length(o3);
        lemma_stage_length(o2);
        lemma_stage_length(o1);
        lemma_stage_length(o0);
        let session = detach_after(start, outcomes)->Detached_0.session;
        assert(outcomes =~= clean_run(session));
    }
}

/// A clean run ends detached, in the session that was created.
pub proof fn lemma_clean_run_detaches(session: i32)
    ensures
        detach_after(DetachState::Attached, clean_run(session)) == DetachState::Detached(
            DaemonContext { session },
        ),
{
    let o5 = clean_run(session);
    let o4 = o5.drop_last();
    let o3 = o4.drop_last();
    let o2 = o3.drop_last();
    let o1 = o2.drop_last();
    let o0 = o1.drop_last();
    assert(o0.len() == 0);
    assert(detach_after(DetachState::Attached, o0) == DetachState::Attached);
    assert(detach_after(DetachState::Attached, o1) == DetachState::Forked);
    assert(detach_after(DetachState::Attached, o2) == DetachState::SessionLeader(session));
    assert(detach_after(DetachState::Attached, o3) == DetachState::Orphaned(session));
    assert(detach_after(DetachState::Attached, o4) == DetachState::Rooted(session));
}

/// Number of successful reports behind each state that still waits or is done.
pub open spec fn stage(state: DetachState) -> Option<nat> {
    match state {
        DetachState::Attached => Some(0nat),
        DetachState::Forked => Some(1nat),
        DetachState::SessionLeader(_) => Some(2nat),
        DetachState::Orphaned(_) => Some(3nat),
        DetachState::Rooted(_) => Some(4nat),
        DetachState::Detached(_) => Some(5nat),
        _ => None,
    }
}

/// A state on the way to detachment is reached only by as many reports as it
/// has steps behind it, each the success of its step.
pub proof fn lemma_stage_length(outcomes: Seq<Outcome>)
    ensures
        stage(detach_after(DetachState::Attached, outcomes)) matches Some(count) ==> {
            &&& outcomes.len() == count
            &&& count > 0 ==> stage(detach_after(DetachState::Attached, outcomes.drop_last()))
                == Some((count - 1) as nat)
            &&& count == 1 || count == 3 ==> outcomes.last() == Outcome::Child
            &&& count == 2 ==> outcomes.last() == Outcome::Session(
                detach_after(DetachState::Attached, outcomes)->SessionLeader_0,
            )
            &&& count == 4 || count == 5 ==> outcomes.last() == Outcome::Done
            &&& count == 3 ==> detach_after(DetachState::Attached, outcomes)->Orphaned_0
                == detach_after(DetachState::Attached, outcomes.drop_last())->SessionLeader_0
            &&& count == 4 ==> detach_after(DetachState::Attached, outcomes)->Rooted_0
                == detach_after(DetachState::Attached, outcomes.drop_last())->Orphaned_0
            &&& count == 5 ==> detach_after(DetachState::Attached, outcomes)->Detached_0.session
                == detach_after(DetachState::Attached, outcomes.drop_last())->Rooted_0
        },
    decreases outcomes.len(),
{
    if outcomes.len() > 0 {
        lemma_stage_length(outcomes.drop_last());
    }
}

/// Any failure is fatal: while a step is pending, a `Failed` report aborts
/// with that step, and an aborted or exited process stays so whatever is
/// reported afterwards.
pub proof fn lemma_failure_is_fatal(state: DetachState, later: Seq<Outcome>)
    ensures
        state.pending() matches Some(step) ==> state.advance_spec(Outcome::Failed)
            == DetachState::Aborted(DetachError::StepFailed(step)),
        state is Aborted || state is Exited ==> detach_after(state, later) == state,
        detach_after(state, later) is Detached ==> !(state is Aborted) && !(state is Exited),
    decreases later.len(),
{
    if later.len() > 0 {
        lemma_failure_is_fatal(state, later.drop_last());
    }
}

} // verus!
