//! The order of things at startup.
//!
//! A session that was saved by an earlier run is loaded and resumed; only
//! where none is found does the bot log in with its password, and then it
//! saves the new session. With a session in hand the bot synchronises once,
//! so that what was said before is not taken for new, then registers its
//! event handlers, then synchronises for good. Any failure on the way ends
//! the startup: a session that cannot be loaded or resumed is never replaced
//! by a fresh login behind the operator's back.
//!
//! The sequence is a state machine. Whoever drives it performs the task that
//! `advance` hands out and reports how it went as the next signal.

use vstd::prelude::*;

verus! {

/// One piece of work outside this crate.
#[derive(Clone, Copy, Debug, PartialEq, Eq, Structural)]
pub enum Task {
    /// Look whether a readable session file exists; report `Found`.
    CheckSession,
    /// Log in with the configured user and the password from the
    /// environment.
    Login,
    /// Write the session of the logged-in client to the session file.
    SaveSession,
    /// Read the session file and parse it.
    LoadSession,
    /// Hand the loaded session to the client to resume the connection.
    Resume,
    /// Synchronise with the server once.
    SyncOnce,
    /// Register the handlers for membership events and room messages.
    RegisterHandlers,
    /// Synchronise continuously.
    SyncForever,
}

/// Where the startup stands.
#[derive(Clone, Copy, Debug, PartialEq, Eq, Structural)]
pub enum Phase {
    /// Nothing has been asked for yet.
    Idle,
    /// The work named here was handed out and has not reported back.
    Waiting(Task),
    /// The continuous synchronisation came to an end.
    Stopped,
    /// The work named here failed, and the startup with it.
    Failed(Task),
}

/// What the driver reports.
#[derive(Clone, Copy, Debug, PartialEq, Eq, Structural)]
pub enum Signal {
    /// The process has started.
    Begin,
    /// The answer to `CheckSession`: whether a session file is there.
    Found(bool),
    /// The task that was handed out succeeded.
    Done,
    /// The task that was handed out failed.
    Failed,
}

/// What the driver is to do next.
#[derive(Clone, Copy, Debug, PartialEq, Eq, Structural)]
pub enum Action {
    /// Nothing: the signal does not concern the phase it met.
    Nothing,
    /// Carry out the work named here and report back.
    Perform(Task),
    /// Give up with an error: the work named here failed.
    Abort(Task),
    /// The run is over.
    Halt,
}

/// The task that follows `task` when it has succeeded, if any does.
/// `CheckSession` has none here: what follows it depends on its answer.
pub open spec fn successor(task: Task) -> Option<Task> {
    match task {
        Task::CheckSession => None,
        Task::Login => Some(Task::SaveSession),
        Task::SaveSession => Some(Task::SyncOnce),
        Task::LoadSession => Some(Task::Resume),
        Task::Resume => Some(Task::SyncOnce),
        Task::SyncOnce => Some(Task::RegisterHandlers),
        Task::RegisterHandlers => Some(Task::SyncForever),
        Task::SyncForever => None,
    }
}

/// The transition relation of the startup.
pub open spec fn next(phase: Phase, signal: Signal) -> (Phase, Action) {
    match (phase, signal) {
        (Phase::Idle, Signal::Begin) => (
            Phase::Waiting(Task::CheckSession),
            Action::Perform(Task::CheckSession),
        ),
        (Phase::Waiting(Task::CheckSession), Signal::Found(present)) => {
            let task = if present {
                Task::LoadSession
            } else {
                Task::Login
            };
            (Phase::Waiting(task), Action::Perform(task))
        },
        (Phase::Waiting(Task::SyncForever), Signal::Done) => (Phase::Stopped, Action::Halt),
        (Phase::Waiting(task), Signal::Done) => match successor(task) {
            Some(then) => (Phase::Waiting(then), Action::Perform(then)),
            None => (phase, Action::Nothing),
        },
        (Phase::Waiting(task), Signal::Failed) => (Phase::Failed(task), Action::Abort(task)),
        _ => (phase, Action::Nothing),
    }
}

/// One transition: the phase that follows `phase` on `signal`, and what to
/// do.
pub fn advance(phase: Phase, signal: Signal) -> (r: (Phase, Action))
    ensures
        r == next(phase, signal),
{
    match (phase, signal) {
        (Phase::Idle, Signal::Begin) => (
            Phase::Waiting(Task::CheckSession),
            Action::Perform(Task::CheckSession),
        ),
        (Phase::Waiting(Task::CheckSession), Signal::Found(present)) => {
            let task = restore_or_login(present);
            (Phase::Waiting(task), Action::Perform(task))
        },
        (Phase::Waiting(task), Signal::Done) => {
            let then = match task {
                Task::Login => Task::SaveSession,
                Task::SaveSession => Task::SyncOnce,
                Task::LoadSession => Task::Resume,
                Task::Resume => Task::SyncOnce,
                Task::SyncOnce => Task::RegisterHandlers,
                Task::RegisterHandlers => Task::SyncForever,
                Task::SyncForever => {
                    return (Phase::Stopped, Action::Halt);
                },
                Task::CheckSession => {
                    return (phase, Action::Nothing);
                },
            };
            (Phase::Waiting(then), Action::Perform(then))
        },
        (Phase::Waiting(task), Signal::Failed) => (Phase::Failed(task), Action::Abort(task)),
        _ => (phase, Action::Nothing),
    }
}

/// How the bot comes by its session: it loads the saved one where there is
/// one, and logs in only where there is none.
pub fn restore_or_login(session_present: bool) -> (task: Task)
    ensures
        task == if session_present {
            Task::LoadSession
        } else {
            Task::Login
        },
{
    if session_present {
        Task::LoadSession
    } else {
        Task::Login
    }
}

/// The place of a task in the order of startup. The two ways to a session
/// share the places 1 and 2.
pub open spec fn rank(task: Task) -> nat {
    match task {
        Task::CheckSession => 0,
        Task::Login => 1,
        Task::LoadSession => 1,
        Task::SaveSession => 2,
        Task::Resume => 2,
        Task::SyncOnce => 3,
        Task::RegisterHandlers => 4,
        Task::SyncForever => 5,
    }
}

/// A login is asked for in one case only: the session file was looked for
/// and is not there. In particular a session that fails to load or to resume
/// ends the startup.
pub proof fn law_login_only_without_session(phase: Phase, signal: Signal)
    ensures
        next(phase, signal).1 == Action::Perform(Task::Login) <==> phase == Phase::Waiting(
            Task::CheckSession,
        ) && signal == Signal::Found(false),
        (phase == Phase::Waiting(Task::LoadSession) || phase == Phase::Waiting(Task::Resume))
            && signal == Signal::Failed ==> next(phase, signal).0 is Failed,
{
}

/// The handlers are registered only when the one synchronisation before them
/// is done, and the continuous synchronisation starts only when they are
/// registered.
pub proof fn law_handlers_after_first_sync(phase: Phase, signal: Signal)
    ensures
        next(phase, signal).1 == Action::Perform(Task::RegisterHandlers) <==> phase
            == Phase::Waiting(Task::SyncOnce) && signal == Signal::Done,
        next(phase, signal).1 == Action::Perform(Task::SyncForever) <==> phase == Phase::Waiting(
            Task::RegisterHandlers,
        ) && signal == Signal::Done,
        next(phase, signal).1 == Action::Perform(Task::SyncOnce) <==> (phase == Phase::Waiting(
            Task::SaveSession,
        ) || phase == Phase::Waiting(Task::Resume)) && signal == Signal::Done,
{
}

/// Startup only moves forward: a task that is handed out while another is
/// outstanding comes later in the order, so no task is ever handed out
/// twice; and a failure always ends it.
pub proof fn law_startup_moves_forward(task: Task, signal: Signal)
    ensures
        next(Phase::Waiting(task), signal).1 matches Action::Perform(then) ==> rank(task) < rank(
            then,
        ) && next(Phase::Waiting(task), signal).0 == Phase::Waiting(then),
        signal == Signal::Failed ==> next(Phase::Waiting(task), signal) == (
            Phase::Failed(task),
            Action::Abort(task),
        ),
{
}

/// Once stopped or failed, nothing more happens.
pub proof fn law_end_is_final(phase: Phase, signal: Signal)
    requires
        phase is Stopped || phase is Failed,
    ensures
        next(phase, signal) == (phase, Action::Nothing),
{
}

} // verus!
