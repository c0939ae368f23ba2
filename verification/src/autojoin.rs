//! Joining a room after an invitation, with bounded exponential backoff.
//!
//! Servers may announce an invitation before they accept the join it invites
//! to. The controller therefore retries: it waits 2 seconds after the first
//! refusal and twice as long after each further one, and abandons the room as
//! soon as the next wait would be longer than an hour.
//!
//! The controller is a state machine. Whoever drives it performs the action
//! that `step` hands out and reports back what happened as the next event.

use vstd::prelude::*;
use vstd::arithmetic::power2::{lemma2_to64, lemma_pow2_unfold, pow2};

verus! {

/// Seconds waited after the first refused join.
pub const INITIAL_DELAY: u64 = 2;

/// No wait is ever longer than this many seconds.
pub const DELAY_CEILING: u64 = 3600;

/// How many refusals in a row the controller sits through before it gives
/// up: the eleventh wait, of 2048 seconds, is the last that fits under the
/// ceiling.
pub const MAX_ATTEMPTS: usize = 11;

/// Where one invitation stands.
#[derive(Clone, Copy, Debug, PartialEq, Eq, Structural)]
pub enum JoinState {
    /// The invitation has arrived and nothing has been tried.
    Invited,
    /// A join is under way. `delay` is the wait that follows the next refusal;
    /// `resting` tells whether that wait is running right now.
    Joining { delay: u64, resting: bool },
    /// The room was joined.
    Joined,
    /// Every retry was refused; the room is left alone until a new invitation.
    Abandoned,
}

/// What the driver reports to the controller.
#[derive(Clone, Copy, Debug, PartialEq, Eq, Structural)]
pub enum JoinEvent {
    /// The invitation is to be acted on.
    Begin,
    /// The server accepted the join request.
    Accepted,
    /// The server refused the join request, or the request failed.
    Refused,
    /// The wait that the controller asked for is over.
    Rested,
}

/// What the controller asks the driver to do next.
#[derive(Clone, Copy, Debug, PartialEq, Eq, Structural)]
pub enum JoinAction {
    /// Nothing: the event does not concern the state it met.
    Nothing,
    /// Send one join request, then report `Accepted` or `Refused`.
    Attempt,
    /// Wait this many seconds, then report `Rested`.
    Sleep(u64),
    /// The room is joined; stop.
    Finish,
    /// Give the room up, with a warning to the operator; stop.
    GiveUp,
}

/// The transition relation of the controller.
pub open spec fn next(state: JoinState, event: JoinEvent) -> (JoinState, JoinAction) {
    match (state, event) {
        (JoinState::Invited, JoinEvent::Begin) => (
            JoinState::Joining { delay: INITIAL_DELAY, resting: false },
            JoinAction::Attempt,
        ),
        (JoinState::Joining { delay, resting: false }, JoinEvent::Accepted) => (
            JoinState::Joined,
            JoinAction::Finish,
        ),
        (JoinState::Joining { delay, resting: false }, JoinEvent::Refused) => (
            JoinState::Joining { delay, resting: true },
            JoinAction::Sleep(delay),
        ),
        (JoinState::Joining { delay, resting: true }, JoinEvent::Rested) => {
            if 2 * delay > DELAY_CEILING {
                (JoinState::Abandoned, JoinAction::GiveUp)
            } else {
                (JoinState::Joining { delay: (2 * delay) as u64, resting: false }, JoinAction::Attempt)
            }
        },
        _ => (state, JoinAction::Nothing),
    }
}

/// One transition: the state that follows `state` on `event`, and what to do.
pub fn step(state: JoinState, event: JoinEvent) -> (r: (JoinState, JoinAction))
    ensures
        r == next(state, event),
{
    match (state, event) {
        (JoinState::Invited, JoinEvent::Begin) => (
            JoinState::Joining { delay: INITIAL_DELAY, resting: false },
            JoinAction::Attempt,
        ),
        (JoinState::Joining { delay: _, resting: false }, JoinEvent::Accepted) => (
            JoinState::Joined,
            JoinAction::Finish,
        ),
        (JoinState::Joining { delay, resting: false }, JoinEvent::Refused) => (
            JoinState::Joining { delay, resting: true },
            JoinAction::Sleep(delay),
        ),
        (JoinState::Joining { delay, resting: true }, JoinEvent::Rested) => {
            if delay > DELAY_CEILING / 2 {
                (JoinState::Abandoned, JoinAction::GiveUp)
            } else {
                (JoinState::Joining { delay: 2 * delay, resting: false }, JoinAction::Attempt)
            }
        },
        _ => (state, JoinAction::Nothing),
    }
}

/// A join request has been sent and has not been answered.
pub open spec fn request_under_way(state: JoinState) -> bool {
    state matches JoinState::Joining { resting: false, .. }
}

/// A wait is running.
pub open spec fn resting_now(state: JoinState) -> bool {
    state matches JoinState::Joining { resting: true, .. }
}

/// One request at a time: a join request is asked for only on a fresh
/// invitation or at the end of a wait, and never while another is under way.
pub proof fn law_one_attempt_at_a_time(state: JoinState, event: JoinEvent)
    ensures
        next(state, event).1 == JoinAction::Attempt ==> {
            &&& state == JoinState::Invited || resting_now(state)
            &&& state == JoinState::Invited <==> event == JoinEvent::Begin
            &&& resting_now(state) <==> event == JoinEvent::Rested
            &&& request_under_way(next(state, event).0)
        },
        request_under_way(state) ==> next(state, event).1 != JoinAction::Attempt,
{
}

/// A joined or abandoned room stays so: only a new invitation, with a
/// controller of its own, is acted on again.
pub proof fn law_join_ends(state: JoinState, event: JoinEvent)
    requires
        state == JoinState::Joined || state == JoinState::Abandoned,
    ensures
        next(state, event) == (state, JoinAction::Nothing),
{
}

/// The course of an invitation from `state` on, when its join requests end
/// as `outcomes` says, `true` for an accepted request: the state in which
/// the outcomes are used up or the controller has stopped, and the waits on
/// the way there, in order.
pub open spec fn course(state: JoinState, outcomes: Seq<bool>) -> (JoinState, Seq<u64>)
    decreases outcomes.len(),
{
    if outcomes.len() == 0 {
        (state, Seq::empty())
    } else {
        match state {
            JoinState::Joining { delay, resting: false } => {
                if outcomes[0] {
                    (next(state, JoinEvent::Accepted).0, Seq::empty())
                } else {
                    let resting = next(state, JoinEvent::Refused).0;
                    let after = next(resting, JoinEvent::Rested).0;
                    let rest = course(after, outcomes.drop_first());
                    (rest.0, seq![delay] + rest.1)
                }
            },
            _ => (state, Seq::empty()),
        }
    }
}

/// The course of a fresh invitation: `course` from the state that `Begin`
/// leads to.
pub open spec fn run(outcomes: Seq<bool>) -> (JoinState, Seq<u64>) {
    course(next(JoinState::Invited, JoinEvent::Begin).0, outcomes)
}

/// What `replay` found: the last state and the waits, in seconds, in order.
pub struct JoinReport {
    pub state: JoinState,
    pub sleeps: Vec<u64>,
}

/// Drives a fresh invitation through recorded join outcomes without waiting:
/// each `true` stands for an accepted request, each `false` for a refused one.
/// Outcomes after the controller has stopped are not looked at.
pub fn replay(outcomes: &Vec<bool>) -> (r: JoinReport)
    ensures
        (r.state, r.sleeps@) == run(outcomes@),
{
    let (first, _) = step(JoinState::Invited, JoinEvent::Begin);
    let mut state = first;
    let mut sleeps: Vec<u64> = Vec::new();
    let mut i: usize = 0;
    assert(outcomes@.skip(0) == outcomes@);
    assert(sleeps@ + run(outcomes@).1 == run(outcomes@).1);
    while i < outcomes.len()
        invariant
            i <= outcomes.len(),
            run(outcomes@).0 == course(state, outcomes@.skip(i as int)).0,
            run(outcomes@).1 == sleeps@ + course(state, outcomes@.skip(i as int)).1,
        decreases outcomes.len() - i,
    {
        let ghost tail = outcomes@.skip(i as int);
        let ghost before = sleeps@;
        assert(tail.len() > 0 && tail[0] == outcomes@[i as int]);
        assert(tail.drop_first() == outcomes@.skip(i + 1));
        let event = if outcomes[i] {
            JoinEvent::Accepted
        } else {
            JoinEvent::Refused
        };
        let (after, action) = step(state, event);
        match action {
            JoinAction::Sleep(delay) => {
                let (rested, _) = step(after, JoinEvent::Rested);
                sleeps.push(delay);
                assert(before + (seq![delay] + course(rested, tail.drop_first()).1)
                    == sleeps@ + course(rested, tail.drop_first()).1);
                state = rested;
                i = i + 1;
            },
            _ => {
                assert(course(state, tail) == (after, Seq::<u64>::empty()));
                state = after;
                i = outcomes.len();
                assert(outcomes@.skip(i as int).len() == 0);
                assert(before + Seq::<u64>::empty() == before);
            },
        }
    }
    assert(outcomes@.skip(i as int).len() == 0);
    assert(sleeps@ + Seq::<u64>::empty() == sleeps@);
    JoinReport { state, sleeps }
}

/// The wait that follows the `n`-th refusal in a row, counted from 1, in
/// seconds: 2, 4, 8, ...
pub open spec fn nth_delay(n: nat) -> nat {
    pow2(n)
}

proof fn lemma_course_from(k: nat, outcomes: Seq<bool>)
    requires
        1 <= k <= MAX_ATTEMPTS,
    ensures
        ({
            let c = course(JoinState::Joining { delay: pow2(k) as u64, resting: false }, outcomes);
            let n = c.1.len();
            &&& n <= outcomes.len()
            &&& n <= MAX_ATTEMPTS + 1 - k
            &&& forall|i: int| 0 <= i < n ==> #[trigger] c.1[i] == pow2((k + i) as nat)
            &&& forall|i: int| 0 <= i < n ==> !#[trigger] outcomes[i]
            &&& c.0 == if n == MAX_ATTEMPTS + 1 - k {
                JoinState::Abandoned
            } else if n < outcomes.len() {
                JoinState::Joined
            } else {
                JoinState::Joining { delay: pow2(k + n) as u64, resting: false }
            }
            &&& n < MAX_ATTEMPTS + 1 - k && n < outcomes.len() ==> outcomes[n as int]
        }),
    decreases outcomes.len(),
{
    lemma_delay_bounds(k);
    let start = JoinState::Joining { delay: pow2(k) as u64, resting: false };
    if outcomes.len() > 0 && !outcomes[0] {
        let tail = outcomes.drop_first();
        let c = course(start, outcomes);
        if k < MAX_ATTEMPTS {
            let after = JoinState::Joining { delay: pow2(k + 1) as u64, resting: false };
            assert(next(next(start, JoinEvent::Refused).0, JoinEvent::Rested).0 == after);
            lemma_course_from(k + 1, tail);
            let rest = course(after, tail);
            assert(c.1 == seq![pow2(k) as u64] + rest.1);
            assert forall|i: int| 0 <= i < c.1.len() implies #[trigger] c.1[i] == pow2(
                (k + i) as nat,
            ) by {
                if i > 0 {
                    assert(c.1[i] == rest.1[i - 1]);
                }
            }
            assert forall|i: int| 0 <= i < c.1.len() implies !#[trigger] outcomes[i] by {
                if i > 0 {
                    assert(outcomes[i] == tail[i - 1]);
                }
            }
            if c.1.len() < MAX_ATTEMPTS + 1 - k && c.1.len() < outcomes.len() {
                assert(outcomes[c.1.len() as int] == tail[rest.1.len() as int]);
            }
        } else {
            assert(next(next(start, JoinEvent::Refused).0, JoinEvent::Rested).0
                == JoinState::Abandoned);
            let rest = course(JoinState::Abandoned, tail);
            assert(rest == (JoinState::Abandoned, Seq::<u64>::empty()));
            assert(c.1 == seq![pow2(k) as u64] + rest.1);
        }
    }
}

/// The waits of an invitation are 2, 4, 8, ... seconds, one after each refused
/// join and none after anything else, and the controller gives the room up
/// exactly when the wait that would come next is longer than the ceiling:
/// after the eleventh refusal in a row. It ends as joined exactly when a
/// request was accepted before that.
pub proof fn law_backoff_doubles(outcomes: Seq<bool>)
    ensures
        ({
            let (state, sleeps) = run(outcomes);
            let n = sleeps.len();
            &&& n <= MAX_ATTEMPTS
            &&& n <= outcomes.len()
            &&& forall|i: int| 0 <= i < n ==> #[trigger] sleeps[i] == nth_delay((i + 1) as nat)
            &&& forall|i: int| 0 <= i < n ==> !#[trigger] outcomes[i]
            &&& forall|i: int| 0 < i < n ==> #[trigger] sleeps[i] == 2 * sleeps[i - 1]
            &&& n > 0 ==> sleeps[0] == INITIAL_DELAY
            &&& forall|i: int| 0 <= i < n - 1 ==> 2 * #[trigger] sleeps[i] <= DELAY_CEILING
            &&& state == JoinState::Abandoned <==> n > 0 && 2 * sleeps[n - 1] > DELAY_CEILING
            &&& state == JoinState::Abandoned <==> n == MAX_ATTEMPTS
            &&& state == JoinState::Joined <==> n < MAX_ATTEMPTS && n < outcomes.len()
                && outcomes[n as int]
            &&& state != JoinState::Abandoned && state != JoinState::Joined ==> n == outcomes.len()
                && state == JoinState::Joining { delay: nth_delay(n + 1) as u64, resting: false }
        }),
{
    lemma2_to64();
    lemma_course_from(1, outcomes);
    let sleeps = run(outcomes).1;
    assert forall|i: int| 0 < i < sleeps.len() implies #[trigger] sleeps[i] == 2 * sleeps[i - 1] by {
        lemma_delay_bounds(i as nat);
        assert(sleeps[i - 1] == nth_delay(i as nat));
    }
    assert forall|i: int| 0 <= i < sleeps.len() - 1 implies 2 * #[trigger] sleeps[i]
        <= DELAY_CEILING by {
        lemma_delay_bounds((i + 1) as nat);
    }
    if sleeps.len() > 0 {
        lemma_delay_bounds(sleeps.len());
    }
}

proof fn lemma_delay_bounds(k: nat)
    requires
        1 <= k <= MAX_ATTEMPTS,
    ensures
        INITIAL_DELAY <= pow2(k) <= 2048,
        pow2(k + 1) == 2 * pow2(k),
        2 * pow2(k) > DELAY_CEILING <==> k == MAX_ATTEMPTS,
{
    lemma2_to64();
    lemma_pow2_unfold(k + 1);
    lemma_delay_grows(1, k);
    lemma_delay_grows(k, 11);
    if k < MAX_ATTEMPTS {
        lemma_delay_grows(k + 1, 11);
    }
}

proof fn lemma_delay_grows(a: nat, b: nat)
    requires
        a <= b,
    ensures
        pow2(a) <= pow2(b),
    decreases b - a,
{
    if a < b {
        lemma_delay_grows(a, (b - 1) as nat);
        lemma_pow2_unfold(b);
    }
}

} // verus!
