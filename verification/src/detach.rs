//! Control decisions of the two-stage detachment protocol.
//!
//! The launch sequence tries to turn the poll loop into a fully independent
//! background process: a first detachment creates a child, the child becomes
//! a session leader, and a second detachment creates the grandchild that
//! runs the loop for good. The process performs the actual detachments and
//! hands each outcome to these functions, which decide — exactly as the
//! protocol prescribes — who runs the loop, who returns, who exits, and
//! with which exit code.

use vstd::prelude::*;

verus! {

/// Where an attempted detachment left the caller: the attempt failed, the
/// caller is the newly created context, or the caller is the original one.
#[derive(Clone, Copy, Debug, PartialEq, Eq)]
pub enum ForkOutcome {
    Failed,
    InChild,
    InParent,
}

/// What to do after the first detachment attempt.
#[derive(Clone, Copy, Debug, PartialEq, Eq)]
pub enum FirstDetachAction {
    /// Detachment is unavailable: run the poll loop on a single in-process
    /// background task instead, bound to the caller's lifetime.
    SpawnFallbackTask,
    /// The new context carries on: become a session leader and attempt the
    /// second detachment.
    ContinueDetaching,
    /// The original caller's job is done: return immediately.
    ReturnToCaller,
}

/// What to do after the second detachment attempt, inside the session
/// leader or the context it created.
#[derive(Clone, Copy, Debug, PartialEq, Eq)]
pub enum SecondDetachAction {
    /// The second detachment failed: the session leader terminates
    /// abnormally rather than run the loop half-detached.
    ExitFailure,
    /// The grandchild is the long-lived daemon: redirect the standard
    /// streams to a null sink (best-effort) and run the poll loop forever.
    RunPollLoop,
    /// The handoff succeeded: the session leader terminates cleanly and
    /// must not run the loop.
    ExitSuccess,
}

/// The raw return of a process-creation call, classified: negative means
/// the call failed, zero means the caller is the new child, positive is the
/// child's identifier seen from the parent.
pub open spec fn classify_fork_spec(ret: i64) -> ForkOutcome {
    if ret < 0 {
        ForkOutcome::Failed
    } else if ret == 0 {
        ForkOutcome::InChild
    } else {
        ForkOutcome::InParent
    }
}

/// Classify the raw return of a process-creation call.
pub fn classify_fork(ret: i64) -> (o: ForkOutcome)
    ensures
        o == classify_fork_spec(ret),
{
    if ret < 0 {
        ForkOutcome::Failed
    } else if ret == 0 {
        ForkOutcome::InChild
    } else {
        ForkOutcome::InParent
    }
}

/// What each first-stage outcome prescribes.
pub open spec fn first_detach_spec(o: ForkOutcome) -> FirstDetachAction {
    match o {
        ForkOutcome::Failed => FirstDetachAction::SpawnFallbackTask,
        ForkOutcome::InChild => FirstDetachAction::ContinueDetaching,
        ForkOutcome::InParent => FirstDetachAction::ReturnToCaller,
    }
}

/// Decide the follow-up to the first detachment attempt: a failure degrades
/// to the in-process fallback task, the child continues the protocol, and
/// the original caller returns immediately.
pub fn first_detach_action(o: ForkOutcome) -> (a: FirstDetachAction)
    ensures
        a == first_detach_spec(o),
{
    match o {
        ForkOutcome::Failed => FirstDetachAction::SpawnFallbackTask,
        ForkOutcome::InChild => FirstDetachAction::ContinueDetaching,
        ForkOutcome::InParent => FirstDetachAction::ReturnToCaller,
    }
}

/// What each second-stage outcome prescribes.
pub open spec fn second_detach_spec(o: ForkOutcome) -> SecondDetachAction {
    match o {
        ForkOutcome::Failed => SecondDetachAction::ExitFailure,
        ForkOutcome::InChild => SecondDetachAction::RunPollLoop,
        ForkOutcome::InParent => SecondDetachAction::ExitSuccess,
    }
}

/// Decide the follow-up to the second detachment attempt: only the
/// grandchild runs the loop; the session leader exits either way, cleanly
/// exactly when the handoff succeeded.
pub fn second_detach_action(o: ForkOutcome) -> (a: SecondDetachAction)
    ensures
        a == second_detach_spec(o),
{
    match o {
        ForkOutcome::Failed => SecondDetachAction::ExitFailure,
        ForkOutcome::InChild => SecondDetachAction::RunPollLoop,
        ForkOutcome::InParent => SecondDetachAction::ExitSuccess,
    }
}

/// The exit code of the session-leader intermediary: zero on a successful
/// handoff, one when the second detachment failed.
pub fn intermediary_exit_code(a: SecondDetachAction) -> (c: i32)
    requires
        a != SecondDetachAction::RunPollLoop,
    ensures
        c == if a == SecondDetachAction::ExitFailure {
            1int
        } else {
            0int
        },
{
    match a {
        SecondDetachAction::ExitFailure => 1,
        _ => 0,
    }
}

} // verus!
