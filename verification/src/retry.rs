//! When a failed attempt is tried again, and after how long.
//!
//! Backs off exponentially from a quarter of a second, except that a wait the
//! server names in `Retry-After` wins over the schedule. Only a failure that
//! [`Error::retryable`] allows is retried, and never more often than the
//! client's retry budget.

use vstd::prelude::*;

use crate::error::Error;

verus! {

/// The first wait of the schedule, in milliseconds.
pub const RETRY_BASE_DELAY_MS: u128 = 250;

/// The longest wait a `Duration` can hold, in milliseconds: `u64::MAX` seconds
/// and 999 milliseconds. Doubling the schedule past it is an overflow.
pub const LONGEST_DELAY_MS: u128 = 18446744073709551615999;

/// `2^k`.
pub open spec fn pow_of_two(k: nat) -> nat
    decreases k,
{
    if k == 0 {
        1
    } else {
        2 * pow_of_two((k - 1) as nat)
    }
}

/// Where a call stands in its retry budget.
#[derive(Clone, Copy, Debug, PartialEq, Eq, Structural)]
pub struct Backoff {
    /// Further attempts a transient failure may still have.
    pub remaining: u32,
    /// The wait the schedule gives the next retry, in milliseconds.
    pub delay_ms: u128,
}

/// What to do after an attempt failed.
#[derive(Clone, Copy, Debug, PartialEq, Eq, Structural)]
pub enum RetryStep {
    /// Hand the failure back to the caller.
    GiveUp,
    /// Sleep this many milliseconds, then attempt again.
    WaitThenRetry(u128),
}

/// The schedule's wait after `k` retries, in milliseconds.
pub open spec fn scheduled_delay(k: nat) -> nat {
    (RETRY_BASE_DELAY_MS as nat) * pow_of_two(k)
}

/// One failed attempt: the step taken and the state after it.
pub open spec fn transition(state: Backoff, err: Error) -> (Backoff, RetryStep) {
    if state.remaining == 0 || !err.spec_retryable() {
        (state, RetryStep::GiveUp)
    } else {
        let wait: u128 = match err.spec_retry_after() {
            Some(secs) => (secs * 1000) as u128,
            None => state.delay_ms,
        };
        (
            Backoff { remaining: (state.remaining - 1) as u32, delay_ms: (state.delay_ms * 2) as u128 },
            RetryStep::WaitThenRetry(wait),
        )
    }
}

/// Whether the schedule can double its wait once more without overflowing.
pub open spec fn doubles_safely(state: Backoff) -> bool {
    state.delay_ms * 2 <= LONGEST_DELAY_MS
}

impl Backoff {
    /// A fresh budget of `retries` further attempts.
    pub fn new(retries: u32) -> (state: Backoff)
        ensures
            state.remaining == retries,
            state.delay_ms == RETRY_BASE_DELAY_MS,
    {
        Backoff { remaining: retries, delay_ms: RETRY_BASE_DELAY_MS }
    }

    /// Whether the next retry can double the schedule without overflowing.
    pub fn can_double(&self) -> (ok: bool)
        ensures
            ok == doubles_safely(*self),
    {
        self.delay_ms <= LONGEST_DELAY_MS / 2
    }

    /// What follows a failed attempt, before the schedule advances: the same
    /// step [`Backoff::after_failure`] takes, so the wait can be slept before
    /// the schedule is doubled.
    pub fn upcoming_step(&self, err: &Error) -> (step: RetryStep)
        ensures
            step == transition(*self, *err).1,
    {
        if self.remaining == 0 || !err.retryable() {
            return RetryStep::GiveUp;
        }
        match err.retry_after() {
            Some(secs) => RetryStep::WaitThenRetry(secs as u128 * 1000),
            None => RetryStep::WaitThenRetry(self.delay_ms),
        }
    }

    /// Decides what follows a failed attempt. A failure that is not retryable,
    /// or one that arrives with the budget spent, is handed back; anything else
    /// waits the server's `Retry-After` if it named one, else the schedule, and
    /// the schedule doubles.
    pub fn after_failure(&mut self, err: &Error) -> (step: RetryStep)
        requires
            (old(self).remaining > 0 && err.spec_retryable()) ==> doubles_safely(*old(self)),
        ensures
            (*final(self), step) == transition(*old(self), *err),
    {
        if self.remaining == 0 || !err.retryable() {
            return RetryStep::GiveUp;
        }
        let wait: u128 = match err.retry_after() {
            Some(secs) => secs as u128 * 1000,
            None => self.delay_ms,
        };
        self.delay_ms = self.delay_ms * 2;
        self.remaining = self.remaining - 1;
        RetryStep::WaitThenRetry(wait)
    }
}

/// A wait in milliseconds as whole seconds and the nanoseconds left over, the
/// two parts a `Duration` is made of.
pub fn wait_parts(millis: u128) -> (parts: (u64, u32))
    requires
        millis <= LONGEST_DELAY_MS,
    ensures
        parts.0 * 1000 + parts.1 / 1_000_000 == millis,
        parts.1 % 1_000_000 == 0,
        parts.1 < 1_000_000_000,
{
    let secs = (millis / 1000) as u64;
    let nanos = ((millis % 1000) * 1_000_000) as u32;
    (secs, nanos)
}

/// How many times a call waits and tries again when its attempts fail with
/// `errors`, in order, before it hands a failure back.
pub open spec fn retries_taken(state: Backoff, errors: Seq<Error>) -> nat
    decreases errors.len(),
{
    if errors.len() == 0 {
        0
    } else {
        match transition(state, errors[0]).1 {
            RetryStep::GiveUp => 0,
            RetryStep::WaitThenRetry(_) => 1 + retries_taken(transition(state, errors[0]).0, errors.drop_first()),
        }
    }
}

/// A call never retries more often than its budget, and a failure that is not
/// retryable is handed back on the attempt that met it.
pub proof fn lemma_retries_stay_within_budget(state: Backoff, errors: Seq<Error>)
    ensures
        retries_taken(state, errors) <= state.remaining,
        errors.len() > 0 && !errors[0].spec_retryable() ==> retries_taken(state, errors) == 0,
    decreases errors.len(),
{
    if errors.len() > 0 && transition(state, errors[0]).1 != RetryStep::GiveUp {
        lemma_retries_stay_within_budget(transition(state, errors[0]).0, errors.drop_first());
    }
}

/// When every attempt fails retryably, the call spends its whole budget: one
/// attempt, then exactly `remaining` more.
pub proof fn lemma_retryable_failures_spend_the_budget(state: Backoff, errors: Seq<Error>)
    requires
        errors.len() > state.remaining,
        forall|i: int| 0 <= i < errors.len() ==> (#[trigger] errors[i]).spec_retryable(),
    ensures
        retries_taken(state, errors) == state.remaining,
    decreases errors.len(),
{
    if state.remaining > 0 {
        let rest = errors.drop_first();
        assert forall|i: int| 0 <= i < rest.len() implies (#[trigger] rest[i]).spec_retryable() by {
            assert(rest[i] == errors[i + 1]);
        }
        lemma_retryable_failures_spend_the_budget(transition(state, errors[0]).0, rest);
    }
}

/// The schedule: starting from a fresh budget, the `k`-th retry of a failure
/// that names no `Retry-After` waits 250 ms times 2^k, and a named wait
/// replaces the schedule's without resetting it.
pub proof fn lemma_waits_double(retries: u32, k: nat, err: Error)
    requires
        k < retries,
        err.spec_retryable(),
        scheduled_delay(k + 1) <= LONGEST_DELAY_MS,
    ensures
        ({
            let state = Backoff { remaining: (retries - k) as u32, delay_ms: scheduled_delay(k) as u128 };
            &&& transition(state, err).1 == RetryStep::WaitThenRetry(
                match err.spec_retry_after() {
                    Some(secs) => (secs * 1000) as u128,
                    None => scheduled_delay(k) as u128,
                },
            )
            &&& transition(state, err).0 == Backoff {
                remaining: (retries - (k + 1)) as u32,
                delay_ms: scheduled_delay(k + 1) as u128,
            }
        }),
{
    assert(pow_of_two(k + 1) == 2 * pow_of_two(k));
    assert(scheduled_delay(k + 1) == 2 * scheduled_delay(k)) by (nonlinear_arith)
        requires
            pow_of_two(k + 1) == 2 * pow_of_two(k),
            scheduled_delay(k + 1) == (RETRY_BASE_DELAY_MS as nat) * pow_of_two(k + 1),
            scheduled_delay(k) == (RETRY_BASE_DELAY_MS as nat) * pow_of_two(k),
    ;
}

/// A call's run, when its successive attempts end as `outcomes` say (`None`
/// for a success, `Some(e)` for a failure with `e`): how many attempts it
/// makes before it returns.
pub open spec fn run_attempts(state: Backoff, outcomes: Seq<Option<Error>>) -> nat
    decreases outcomes.len(),
{
    if outcomes.len() == 0 {
        0
    } else {
        match outcomes[0] {
            None => 1,
            Some(err) => match transition(state, err).1 {
                RetryStep::GiveUp => 1,
                RetryStep::WaitThenRetry(_) => 1 + run_attempts(transition(state, err).0, outcomes.drop_first()),
            },
        }
    }
}

/// What the run returns: the outcome of its last attempt (`None` if the
/// outcomes ran out first).
pub open spec fn run_outcome(state: Backoff, outcomes: Seq<Option<Error>>) -> Option<Option<Error>>
    decreases outcomes.len(),
{
    if outcomes.len() == 0 {
        None
    } else {
        match outcomes[0] {
            None => Some(None),
            Some(err) => match transition(state, err).1 {
                RetryStep::GiveUp => Some(Some(err)),
                RetryStep::WaitThenRetry(_) => run_outcome(transition(state, err).0, outcomes.drop_first()),
            },
        }
    }
}

/// The waits the run sleeps, in order: one between each failed attempt and the
/// next, none before the first attempt or after the last.
pub open spec fn run_sleeps(state: Backoff, outcomes: Seq<Option<Error>>) -> Seq<u128>
    decreases outcomes.len(),
{
    if outcomes.len() == 0 {
        Seq::empty()
    } else {
        match outcomes[0] {
            None => Seq::empty(),
            Some(err) => match transition(state, err).1 {
                RetryStep::GiveUp => Seq::empty(),
                RetryStep::WaitThenRetry(wait) => seq![wait] + run_sleeps(
                    transition(state, err).0,
                    outcomes.drop_first(),
                ),
            },
        }
    }
}

/// An attempt that failed with an error worth another attempt.
pub open spec fn is_retryable_failure(outcome: Option<Error>) -> bool {
    match outcome {
        Some(err) => err.spec_retryable(),
        None => false,
    }
}

/// An attempt that failed with an error not worth another attempt.
pub open spec fn is_final_failure(outcome: Option<Error>) -> bool {
    match outcome {
        Some(err) => !err.spec_retryable(),
        None => false,
    }
}

/// The first `n` outcomes are retryable failures.
pub open spec fn retryable_failures(outcomes: Seq<Option<Error>>, n: int) -> bool {
    forall|i: int| 0 <= i < n ==> is_retryable_failure(#[trigger] outcomes[i])
}

proof fn lemma_retryable_failures_shift(outcomes: Seq<Option<Error>>, n: int)
    requires
        n >= 1,
        outcomes.len() >= n,
        retryable_failures(outcomes, n),
    ensures
        retryable_failures(outcomes.drop_first(), n - 1),
{
    assert forall|i: int| 0 <= i < n - 1 implies is_retryable_failure(#[trigger] outcomes.drop_first()[i]) by {
        assert(outcomes.drop_first()[i] == outcomes[i + 1]);
    }
}

/// A call whose first `j` attempts fail retryably, `j` within its budget, and
/// whose next attempt succeeds, makes exactly `j + 1` attempts, sleeps exactly
/// `j` times, and returns the success.
pub proof fn lemma_success_after_retryable_failures(state: Backoff, outcomes: Seq<Option<Error>>, j: nat)
    requires
        j <= state.remaining,
        outcomes.len() > j,
        retryable_failures(outcomes, j as int),
        outcomes[j as int] is None,
    ensures
        run_attempts(state, outcomes) == j + 1,
        run_outcome(state, outcomes) == Some(None::<Error>),
        run_sleeps(state, outcomes).len() == j,
    decreases j,
{
    if j > 0 {
        assert(is_retryable_failure(outcomes[0]));
        lemma_retryable_failures_shift(outcomes, j as int);
        let err = outcomes[0]->Some_0;
        lemma_success_after_retryable_failures(transition(state, err).0, outcomes.drop_first(), (j - 1) as nat);
    }
}

/// A call whose first `k - 1` attempts fail retryably, within its budget, and
/// whose `k`-th fails with an error that is not retryable, makes exactly `k`
/// attempts and returns that error.
pub proof fn lemma_non_retryable_failure_is_handed_back(state: Backoff, outcomes: Seq<Option<Error>>, k: nat)
    requires
        k >= 1,
        k - 1 <= state.remaining,
        outcomes.len() >= k,
        retryable_failures(outcomes, k - 1),
        is_final_failure(outcomes[k - 1]),
    ensures
        run_attempts(state, outcomes) == k,
        run_outcome(state, outcomes) == Some(outcomes[k - 1]),
        run_sleeps(state, outcomes).len() == k - 1,
    decreases k,
{
    if k > 1 {
        assert(is_retryable_failure(outcomes[0]));
        lemma_retryable_failures_shift(outcomes, k - 1);
        let err = outcomes[0]->Some_0;
        assert(outcomes.drop_first()[k - 2] == outcomes[k - 1]);
        lemma_non_retryable_failure_is_handed_back(transition(state, err).0, outcomes.drop_first(), (k - 1) as nat);
    }
}

/// Whatever its attempts return, a call never makes more than its budget plus
/// one attempts; when they all fail retryably it makes exactly that many and
/// returns the last failure.
pub proof fn lemma_attempts_never_exceed_the_budget(state: Backoff, outcomes: Seq<Option<Error>>)
    ensures
        run_attempts(state, outcomes) <= state.remaining + 1,
        outcomes.len() > state.remaining && retryable_failures(outcomes, outcomes.len() as int) ==> {
            &&& run_attempts(state, outcomes) == state.remaining + 1
            &&& run_outcome(state, outcomes) == Some(outcomes[state.remaining as int])
        },
    decreases outcomes.len(),
{
    if outcomes.len() > 0 {
        match outcomes[0] {
            None => {},
            Some(err) => {
                let next = transition(state, err).0;
                lemma_attempts_never_exceed_the_budget(next, outcomes.drop_first());
                if outcomes.len() > state.remaining && retryable_failures(outcomes, outcomes.len() as int) {
                    if state.remaining > 0 {
                        lemma_retryable_failures_shift(outcomes, outcomes.len() as int);
                        assert(outcomes.drop_first()[state.remaining - 1] == outcomes[state.remaining as int]);
                    }
                }
            },
        }
    }
}

/// The wait before the retry that follows a failure with `err`, `k` retries
/// into a fresh schedule: the server's `Retry-After` when it named one, else
/// 250 ms times 2^k.
pub open spec fn expected_wait(err: Error, k: nat) -> u128 {
    match err.spec_retry_after() {
        Some(secs) => (secs * 1000) as u128,
        None => scheduled_delay(k) as u128,
    }
}

proof fn lemma_pow_of_two_grows(a: nat, b: nat)
    requires
        a <= b,
    ensures
        pow_of_two(a) <= pow_of_two(b),
    decreases b - a,
{
    if a < b {
        lemma_pow_of_two_grows(a, (b - 1) as nat);
        assert(pow_of_two(b) == 2 * pow_of_two((b - 1) as nat));
    }
}

/// The whole sequence of sleeps: when the first `m` attempts fail retryably,
/// `m` within the budget, the `i`-th sleep (counting from 0) lasts the
/// server's `Retry-After` if it named one, else 250 ms times 2^(k + i) where
/// `k` is how far into the schedule the call started (0 for a fresh one); the
/// schedule doubles either way.
pub proof fn lemma_the_sleeps_follow_the_schedule(state: Backoff, k: nat, outcomes: Seq<Option<Error>>, m: nat)
    requires
        state.delay_ms == scheduled_delay(k),
        m <= state.remaining,
        outcomes.len() >= m,
        retryable_failures(outcomes, m as int),
        scheduled_delay(k + m) <= LONGEST_DELAY_MS,
    ensures
        run_sleeps(state, outcomes).len() >= m,
        forall|i: int| 0 <= i < m ==> run_sleeps(state, outcomes)[i] == expected_wait(
            (#[trigger] outcomes[i])->Some_0,
            (k + i) as nat,
        ),
    decreases m,
{
    if m > 0 {
        assert(is_retryable_failure(outcomes[0]));
        let err = outcomes[0]->Some_0;
        lemma_pow_of_two_grows(k + 1, k + m);
        assert(pow_of_two(k + 1) == 2 * pow_of_two(k));
        assert(scheduled_delay(k + 1) == 2 * scheduled_delay(k)) by (nonlinear_arith)
            requires
                pow_of_two(k + 1) == 2 * pow_of_two(k),
                scheduled_delay(k + 1) == (RETRY_BASE_DELAY_MS as nat) * pow_of_two(k + 1),
                scheduled_delay(k) == (RETRY_BASE_DELAY_MS as nat) * pow_of_two(k),
        ;
        assert(scheduled_delay(k + 1) <= scheduled_delay(k + m)) by (nonlinear_arith)
            requires
                pow_of_two(k + 1) <= pow_of_two(k + m),
                scheduled_delay(k + 1) == (RETRY_BASE_DELAY_MS as nat) * pow_of_two(k + 1),
                scheduled_delay(k + m) == (RETRY_BASE_DELAY_MS as nat) * pow_of_two(k + m),
        ;
        let next = transition(state, err).0;
        assert(next.delay_ms == scheduled_delay(k + 1));
        lemma_retryable_failures_shift(outcomes, m as int);
        lemma_the_sleeps_follow_the_schedule(next, k + 1, outcomes.drop_first(), (m - 1) as nat);
        let sleeps = run_sleeps(state, outcomes);
        let rest = run_sleeps(next, outcomes.drop_first());
        assert(sleeps == seq![expected_wait(err, k)] + rest);
        assert forall|i: int| 0 <= i < m implies sleeps[i] == expected_wait(
            (#[trigger] outcomes[i])->Some_0,
            (k + i) as nat,
        ) by {
            if i > 0 {
                assert(outcomes.drop_first()[i - 1] == outcomes[i]);
                assert(sleeps[i] == rest[i - 1]);
                assert((k + 1 + (i - 1)) as nat == (k + i) as nat);
            }
        }
    }
}

/// A failure that names no wait (a network failure, say) is retried after
/// the schedule's wait: from a fresh budget, 250 ms before the first retry,
/// then twice as long before each next one. The wait is never zero.
pub proof fn lemma_a_failure_without_a_named_wait_waits_the_schedule(
    state: Backoff,
    k: nat,
    err: Error,
)
    requires
        state.remaining > 0,
        state.delay_ms == 250 * pow_of_two(k),
        err.spec_retryable(),
        !(err is Refused),
        doubles_safely(state),
    ensures
        transition(state, err).1 == RetryStep::WaitThenRetry((250 * pow_of_two(k)) as u128),
        250 * pow_of_two(k) >= 250,
        transition(state, err).0.delay_ms == 2 * (250 * pow_of_two(k)),
{
    lemma_pow_of_two_grows(0, k);
}

/// A network failure on a fresh budget of `retries` waits 250 ms, and on the
/// next failure 500 ms.
pub proof fn lemma_network_failures_back_off_from_a_quarter_second(retries: u32, message: String)
    requires
        retries >= 2,
    ensures
        ({
            let fresh = Backoff { remaining: retries, delay_ms: 250 };
            let err = Error::Network(message);
            &&& transition(fresh, err).1 == RetryStep::WaitThenRetry(250)
            &&& transition(transition(fresh, err).0, err).1 == RetryStep::WaitThenRetry(500)
        }),
{
}

} // verus!
