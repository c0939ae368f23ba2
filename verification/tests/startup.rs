use syncrab::startup::{advance, restore_or_login, Action, Phase, Signal, Task};

fn drive(signals: &[Signal]) -> (Phase, Vec<Action>) {
    let mut phase = Phase::Idle;
    let mut actions = Vec::new();
    for signal in signals {
        let (next, action) = advance(phase, *signal);
        phase = next;
        actions.push(action);
    }
    (phase, actions)
}

#[test]
fn fresh_process_logs_in_and_saves_the_session() {
    let (phase, actions) = drive(&[
        Signal::Begin,
        Signal::Found(false),
        Signal::Done,
        Signal::Done,
        Signal::Done,
        Signal::Done,
    ]);
    assert_eq!(
        actions,
        vec![
            Action::Perform(Task::CheckSession),
            Action::Perform(Task::Login),
            Action::Perform(Task::SaveSession),
            Action::Perform(Task::SyncOnce),
            Action::Perform(Task::RegisterHandlers),
            Action::Perform(Task::SyncForever),
        ]
    );
    assert_eq!(phase, Phase::Waiting(Task::SyncForever));
}

#[test]
fn restart_resumes_the_saved_session_without_login() {
    let (phase, actions) = drive(&[
        Signal::Begin,
        Signal::Found(true),
        Signal::Done,
        Signal::Done,
        Signal::Done,
        Signal::Done,
    ]);
    assert_eq!(
        actions,
        vec![
            Action::Perform(Task::CheckSession),
            Action::Perform(Task::LoadSession),
            Action::Perform(Task::Resume),
            Action::Perform(Task::SyncOnce),
            Action::Perform(Task::RegisterHandlers),
            Action::Perform(Task::SyncForever),
        ]
    );
    assert!(!actions.contains(&Action::Perform(Task::Login)));
    assert!(!actions.contains(&Action::Perform(Task::SaveSession)));
    let sync = actions.iter().position(|a| *a == Action::Perform(Task::SyncOnce)).unwrap();
    let register =
        actions.iter().position(|a| *a == Action::Perform(Task::RegisterHandlers)).unwrap();
    assert!(sync < register);
    assert_eq!(phase, Phase::Waiting(Task::SyncForever));
}

#[test]
fn first_sync_happens_once() {
    let (_, actions) = drive(&[
        Signal::Begin,
        Signal::Found(true),
        Signal::Done,
        Signal::Done,
        Signal::Done,
        Signal::Done,
        Signal::Done,
        Signal::Done,
    ]);
    let count = actions.iter().filter(|a| **a == Action::Perform(Task::SyncOnce)).count();
    assert_eq!(count, 1);
}

#[test]
fn end_of_the_sync_loop_halts() {
    assert_eq!(
        advance(Phase::Waiting(Task::SyncForever), Signal::Done),
        (Phase::Stopped, Action::Halt)
    );
    assert_eq!(advance(Phase::Stopped, Signal::Begin), (Phase::Stopped, Action::Nothing));
}

#[test]
fn failed_resume_is_fatal_and_never_a_login() {
    let (phase, actions) =
        drive(&[Signal::Begin, Signal::Found(true), Signal::Done, Signal::Failed]);
    assert_eq!(phase, Phase::Failed(Task::Resume));
    assert_eq!(actions[3], Action::Abort(Task::Resume));
    for signal in [Signal::Begin, Signal::Found(false), Signal::Found(true), Signal::Done, Signal::Failed] {
        assert_eq!(advance(phase, signal), (phase, Action::Nothing));
    }
}

#[test]
fn corrupt_session_is_fatal() {
    let (phase, actions) = drive(&[Signal::Begin, Signal::Found(true), Signal::Failed]);
    assert_eq!(phase, Phase::Failed(Task::LoadSession));
    assert_eq!(actions[2], Action::Abort(Task::LoadSession));
}

#[test]
fn every_failure_aborts_with_the_failed_work() {
    for task in [
        Task::CheckSession,
        Task::Login,
        Task::SaveSession,
        Task::LoadSession,
        Task::Resume,
        Task::SyncOnce,
        Task::RegisterHandlers,
        Task::SyncForever,
    ] {
        assert_eq!(
            advance(Phase::Waiting(task), Signal::Failed),
            (Phase::Failed(task), Action::Abort(task))
        );
    }
}

#[test]
fn signals_out_of_turn_change_nothing() {
    assert_eq!(advance(Phase::Idle, Signal::Done), (Phase::Idle, Action::Nothing));
    assert_eq!(advance(Phase::Idle, Signal::Found(true)), (Phase::Idle, Action::Nothing));
    assert_eq!(advance(Phase::Idle, Signal::Failed), (Phase::Idle, Action::Nothing));
    let checking = Phase::Waiting(Task::CheckSession);
    assert_eq!(advance(checking, Signal::Done), (checking, Action::Nothing));
    assert_eq!(advance(checking, Signal::Begin), (checking, Action::Nothing));
    let login = Phase::Waiting(Task::Login);
    assert_eq!(advance(login, Signal::Found(false)), (login, Action::Nothing));
    assert_eq!(advance(login, Signal::Begin), (login, Action::Nothing));
}

#[test]
fn session_is_restored_where_there_is_one() {
    assert_eq!(restore_or_login(true), Task::LoadSession);
    assert_eq!(restore_or_login(false), Task::Login);
}
