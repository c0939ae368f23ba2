use syncrab::autojoin::{
    replay, step, JoinAction, JoinEvent, JoinState, DELAY_CEILING, INITIAL_DELAY, MAX_ATTEMPTS,
};

#[test]
fn begin_starts_the_first_attempt() {
    let (state, action) = step(JoinState::Invited, JoinEvent::Begin);
    assert_eq!(state, JoinState::Joining { delay: 2, resting: false });
    assert_eq!(action, JoinAction::Attempt);
    assert_eq!(INITIAL_DELAY, 2);
    assert_eq!(DELAY_CEILING, 3600);
    assert_eq!(MAX_ATTEMPTS, 11);
}

#[test]
fn accepted_attempt_joins() {
    let (state, action) =
        step(JoinState::Joining { delay: 8, resting: false }, JoinEvent::Accepted);
    assert_eq!(state, JoinState::Joined);
    assert_eq!(action, JoinAction::Finish);
}

#[test]
fn refused_attempt_sleeps_for_the_current_delay() {
    let (state, action) = step(JoinState::Joining { delay: 2, resting: false }, JoinEvent::Refused);
    assert_eq!(state, JoinState::Joining { delay: 2, resting: true });
    assert_eq!(action, JoinAction::Sleep(2));
}

#[test]
fn rest_doubles_the_delay_and_retries() {
    let (state, action) = step(JoinState::Joining { delay: 2, resting: true }, JoinEvent::Rested);
    assert_eq!(state, JoinState::Joining { delay: 4, resting: false });
    assert_eq!(action, JoinAction::Attempt);
}

#[test]
fn delays_double_until_the_next_would_pass_the_ceiling() {
    let (mut state, mut action) = step(JoinState::Invited, JoinEvent::Begin);
    let mut sleeps: Vec<u64> = Vec::new();
    let mut attempts = 0;
    loop {
        match action {
            JoinAction::Attempt => {
                attempts += 1;
                let (s, a) = step(state, JoinEvent::Refused);
                state = s;
                action = a;
            }
            JoinAction::Sleep(secs) => {
                sleeps.push(secs);
                let (s, a) = step(state, JoinEvent::Rested);
                state = s;
                action = a;
            }
            _ => break,
        }
    }
    assert_eq!(sleeps, vec![2, 4, 8, 16, 32, 64, 128, 256, 512, 1024, 2048]);
    assert_eq!(attempts, 11);
    assert_eq!(state, JoinState::Abandoned);
    assert_eq!(action, JoinAction::GiveUp);
}

#[test]
fn third_attempt_succeeds_after_six_seconds() {
    let report = replay(&vec![false, false, true]);
    assert_eq!(report.state, JoinState::Joined);
    assert_eq!(report.sleeps, vec![2, 4]);
    assert_eq!(report.sleeps.iter().sum::<u64>(), 6);
}

#[test]
fn first_attempt_succeeds_without_waiting() {
    let report = replay(&vec![true]);
    assert_eq!(report.state, JoinState::Joined);
    assert!(report.sleeps.is_empty());
}

#[test]
fn replay_without_outcomes_is_still_joining() {
    let report = replay(&Vec::new());
    assert_eq!(report.state, JoinState::Joining { delay: 2, resting: false });
    assert!(report.sleeps.is_empty());
}

#[test]
fn replay_of_one_refusal_waits_and_retries() {
    let report = replay(&vec![false]);
    assert_eq!(report.state, JoinState::Joining { delay: 4, resting: false });
    assert_eq!(report.sleeps, vec![2]);
}

#[test]
fn eleven_refusals_abandon_the_room() {
    let report = replay(&vec![false; 11]);
    assert_eq!(report.state, JoinState::Abandoned);
    assert_eq!(report.sleeps, vec![2, 4, 8, 16, 32, 64, 128, 256, 512, 1024, 2048]);
    assert_eq!(report.sleeps.iter().sum::<u64>(), 4094);
}

#[test]
fn ten_refusals_do_not_abandon_yet() {
    let report = replay(&vec![false; 10]);
    assert_eq!(report.state, JoinState::Joining { delay: 2048, resting: false });
    assert_eq!(report.sleeps.len(), 10);
}

#[test]
fn acceptance_after_abandonment_is_not_seen() {
    let mut outcomes = vec![false; 11];
    outcomes.push(true);
    let report = replay(&outcomes);
    assert_eq!(report.state, JoinState::Abandoned);
    assert_eq!(report.sleeps.len(), 11);
}

#[test]
fn eleventh_attempt_may_still_join() {
    let mut outcomes = vec![false; 10];
    outcomes.push(true);
    let report = replay(&outcomes);
    assert_eq!(report.state, JoinState::Joined);
    assert_eq!(report.sleeps.len(), 10);
    assert_eq!(report.sleeps[9], 1024);
}

#[test]
fn ceiling_is_tested_on_the_doubled_delay() {
    let (state, action) =
        step(JoinState::Joining { delay: 1800, resting: true }, JoinEvent::Rested);
    assert_eq!(state, JoinState::Joining { delay: 3600, resting: false });
    assert_eq!(action, JoinAction::Attempt);
    let (state, action) =
        step(JoinState::Joining { delay: 1801, resting: true }, JoinEvent::Rested);
    assert_eq!(state, JoinState::Abandoned);
    assert_eq!(action, JoinAction::GiveUp);
}

#[test]
fn huge_delay_abandons_without_overflow() {
    let (state, action) =
        step(JoinState::Joining { delay: u64::MAX, resting: true }, JoinEvent::Rested);
    assert_eq!(state, JoinState::Abandoned);
    assert_eq!(action, JoinAction::GiveUp);
}

#[test]
fn events_out_of_turn_change_nothing() {
    let resting = JoinState::Joining { delay: 4, resting: true };
    let trying = JoinState::Joining { delay: 4, resting: false };
    assert_eq!(step(JoinState::Invited, JoinEvent::Accepted), (JoinState::Invited, JoinAction::Nothing));
    assert_eq!(step(JoinState::Invited, JoinEvent::Rested), (JoinState::Invited, JoinAction::Nothing));
    assert_eq!(step(resting, JoinEvent::Accepted), (resting, JoinAction::Nothing));
    assert_eq!(step(resting, JoinEvent::Refused), (resting, JoinAction::Nothing));
    assert_eq!(step(resting, JoinEvent::Begin), (resting, JoinAction::Nothing));
    assert_eq!(step(trying, JoinEvent::Rested), (trying, JoinAction::Nothing));
    assert_eq!(step(trying, JoinEvent::Begin), (trying, JoinAction::Nothing));
}

#[test]
fn final_states_stay() {
    for event in [JoinEvent::Begin, JoinEvent::Accepted, JoinEvent::Refused, JoinEvent::Rested] {
        assert_eq!(step(JoinState::Joined, event), (JoinState::Joined, JoinAction::Nothing));
        assert_eq!(step(JoinState::Abandoned, event), (JoinState::Abandoned, JoinAction::Nothing));
    }
}
