//! The publish policy: credential resolution and the bounded retry state
//! machine that drives upload attempts. The wire-level push itself is the
//! registry client's work; this module decides, for each attempt outcome,
//! whether to stop with success, retry, or stop with failure.

use vstd::prelude::*;
use crate::digest::{hex_char, hex_char_str};

verus! {

/// How the registry client should authenticate: basic credentials only when
/// both a username and a password were supplied, anonymously otherwise.
#[derive(Debug, PartialEq, Eq)]
pub enum AuthChoice {
    Basic(String, String),
    Anonymous,
}

/// Resolves optional credentials. Partial credentials (only one of the two
/// supplied) fall back to anonymous access, not to an error.
pub fn resolve_auth(username: Option<String>, password: Option<String>) -> (r: AuthChoice)
    ensures
        r == (match (username, password) {
            (Some(u), Some(p)) => AuthChoice::Basic(u, p),
            _ => AuthChoice::Anonymous,
        }),
{
    match (username, password) {
        (Some(u), Some(p)) => AuthChoice::Basic(u, p),
        _ => AuthChoice::Anonymous,
    }
}

/// The retry ceiling, held as configuration so that small values are
/// testable without real network retries.
pub struct RetryPolicy {
    pub max_attempts: u8,
}

impl RetryPolicy {
    pub open spec fn well_formed(self) -> bool {
        self.max_attempts >= 1
    }

    /// The fixed production policy: three total attempts.
    pub fn standard() -> (r: RetryPolicy)
        ensures
            r.max_attempts == 3,
            r.well_formed(),
    {
        RetryPolicy { max_attempts: 3 }
    }

    /// A policy with the given ceiling.
    pub fn with_max_attempts(max_attempts: u8) -> (r: RetryPolicy)
        requires
            max_attempts >= 1,
        ensures
            r.max_attempts == max_attempts,
            r.well_formed(),
    {
        RetryPolicy { max_attempts }
    }
}

/// The publisher's state: about to make attempt `n`, succeeded at attempt
/// `n`, or failed terminally after `n` attempts.
#[derive(Debug, PartialEq, Eq)]
pub enum PushState {
    Attempting(u8),
    Succeeded(u8),
    Failed(u8),
}

/// The transition taken after attempt `n` ends: success stops immediately,
/// a failure below the ceiling moves to the next attempt, and a failure at
/// the ceiling is terminal.
pub open spec fn next_state(max_attempts: u8, n: u8, attempt_ok: bool) -> PushState {
    if attempt_ok {
        PushState::Succeeded(n)
    } else if n < max_attempts {
        PushState::Attempting((n + 1) as u8)
    } else {
        PushState::Failed(n)
    }
}

/// Advances the state machine by one completed attempt.
pub fn advance(policy: &RetryPolicy, state: &PushState, attempt_ok: bool) -> (r: PushState)
    requires
        state matches PushState::Attempting(n) && 1 <= *n <= policy.max_attempts,
    ensures
        r == next_state(policy.max_attempts, state->Attempting_0, attempt_ok),
{
    match state {
        PushState::Attempting(n) => {
            if attempt_ok {
                PushState::Succeeded(*n)
            } else if *n < policy.max_attempts {
                PushState::Attempting(*n + 1)
            } else {
                PushState::Failed(*n)
            }
        },
        _ => PushState::Failed(policy.max_attempts),
    }
}

/// The terminal state reached from attempt `n` on, when attempt `k` returns
/// `outcomes[k - 1]` for every `k`.
pub open spec fn run_from(max_attempts: u8, n: u8, outcomes: Seq<bool>) -> PushState
    recommends
        1 <= n <= max_attempts,
        outcomes.len() >= max_attempts,
    decreases max_attempts - n,
{
    let st = next_state(max_attempts, n, outcomes[n - 1]);
    if st is Attempting && n < max_attempts {
        run_from(max_attempts, (n + 1) as u8, outcomes)
    } else {
        st
    }
}

/// The terminal state of a whole run whose attempts return the scripted
/// outcomes.
pub open spec fn schedule_result(max_attempts: u8, outcomes: Seq<bool>) -> PushState
    recommends
        max_attempts >= 1,
        outcomes.len() >= max_attempts,
{
    run_from(max_attempts, 1, outcomes)
}

/// Drives the retry state machine against a scripted sequence of attempt
/// outcomes, as a test registry client would supply: attempt `k` returns
/// `outcomes[k - 1]`. Returns the terminal state.
pub fn run_schedule(policy: &RetryPolicy, outcomes: &Vec<bool>) -> (r: PushState)
    requires
        policy.well_formed(),
        outcomes@.len() >= policy.max_attempts,
    ensures
        r == schedule_result(policy.max_attempts, outcomes@),
        !(r is Attempting),
{
    let mut state = PushState::Attempting(1);
    let mut n: u8 = 1;
    loop
        invariant
            policy.well_formed(),
            outcomes@.len() >= policy.max_attempts,
            1 <= n <= policy.max_attempts,
            state == PushState::Attempting(n),
            run_from(policy.max_attempts, n, outcomes@) == schedule_result(
                policy.max_attempts,
                outcomes@,
            ),
        decreases policy.max_attempts - n,
    {
        let attempt_ok = outcomes[(n - 1) as usize];
        let next = advance(policy, &state, attempt_ok);
        match next {
            PushState::Attempting(m) => {
                state = PushState::Attempting(m);
                n = m;
            },
            PushState::Succeeded(m) => {
                return PushState::Succeeded(m);
            },
            PushState::Failed(m) => {
                return PushState::Failed(m);
            },
        }
    }
}

/// Law: the retry loop terminates at the first successful attempt. The run
/// succeeds at attempt `n` exactly when attempt `n` is the first scripted
/// success within the ceiling; it fails terminally, citing the full attempt
/// count, exactly when every attempt within the ceiling fails.
pub proof fn lemma_retry_termination(max_attempts: u8, outcomes: Seq<bool>, n: u8)
    requires
        max_attempts >= 1,
        outcomes.len() >= max_attempts,
    ensures
        schedule_result(max_attempts, outcomes) == PushState::Succeeded(n) <==> (1 <= n
            <= max_attempts && outcomes[n - 1] && (forall|j: int|
            0 <= j < n - 1 ==> !outcomes[j])),
        schedule_result(max_attempts, outcomes) is Failed <==> (forall|j: int|
            0 <= j < max_attempts ==> !outcomes[j]),
        schedule_result(max_attempts, outcomes) is Failed ==> schedule_result(
            max_attempts,
            outcomes,
        ) == PushState::Failed(max_attempts),
{
    lemma_run_from_characterization(max_attempts, 1, outcomes, n);
}

/// The decimal rendering of a number, most significant digit first.
pub open spec fn decimal_of(n: nat) -> Seq<char>
    decreases n,
{
    if n < 10 {
        seq![hex_char(n as u8)]
    } else {
        decimal_of(n / 10) + seq![hex_char((n % 10) as u8)]
    }
}

/// Renders a number in decimal.
pub fn render_decimal(n: u8) -> (r: String)
    ensures
        r@ == decimal_of(n as nat),
    decreases n,
{
    if n < 10 {
        hex_char_str(n).to_owned()
    } else {
        let mut s = render_decimal(n / 10);
        s.append(hex_char_str(n % 10));
        s
    }
}

pub open spec fn failure_note_spec(attempts: u8) -> Seq<char> {
    "Failed after "@ + decimal_of(attempts as nat) + " attempts"@
}

pub open spec fn success_note_spec(reference: Seq<char>) -> Seq<char> {
    "Successfully pushed image to "@ + reference
}

/// The diagnostic reported when the retry ceiling is exhausted, citing the
/// attempt count.
pub fn failure_note(attempts: u8) -> (r: String)
    ensures
        r@ == failure_note_spec(attempts),
{
    let mut s = "Failed after ".to_owned();
    let count = render_decimal(attempts);
    s.append(count.as_str());
    s.append(" attempts");
    s
}

/// The confirmation reported on success, citing the target reference.
pub fn success_note(reference: &str) -> (r: String)
    ensures
        r@ == success_note_spec(reference@),
{
    let mut s = "Successfully pushed image to ".to_owned();
    s.append(reference);
    s
}

proof fn lemma_run_from_characterization(max_attempts: u8, start: u8, outcomes: Seq<bool>, n: u8)
    requires
        1 <= start <= max_attempts,
        outcomes.len() >= max_attempts,
    ensures
        run_from(max_attempts, start, outcomes) == PushState::Succeeded(n) <==> (start <= n
            <= max_attempts && outcomes[n - 1] && (forall|j: int|
            start - 1 <= j < n - 1 ==> !outcomes[j])),
        run_from(max_attempts, start, outcomes) is Failed <==> (forall|j: int|
            start - 1 <= j < max_attempts ==> !outcomes[j]),
        run_from(max_attempts, start, outcomes) is Failed ==> run_from(
            max_attempts,
            start,
            outcomes,
        ) == PushState::Failed(max_attempts),
    decreases max_attempts - start,
{
    if !outcomes[start - 1] && start < max_attempts {
        lemma_run_from_characterization(max_attempts, (start + 1) as u8, outcomes, n);
    }
}

} // verus!
