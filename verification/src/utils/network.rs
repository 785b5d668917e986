//! The retry policy for network operations.
//!
//! An operation is tried up to `MAX_NETWORK_RETRIES` times. After a failed
//! attempt that is not the last, the caller waits before the next one, twice
//! as long each time; after the last, the failure is handed back as it is.
//! The policy decides; whoever runs the operation performs the waiting.

use crate::config::{MAX_NETWORK_RETRIES, RETRY_BASE_DELAY_MS};
use vstd::prelude::*;

verus! {

/// What follows an attempt.
#[derive(Debug, Clone, Copy, PartialEq, Eq, Structural)]
pub enum RetryDecision {
    /// The attempt succeeded: its result is the result.
    Done,
    /// The attempt failed: wait, then try again.
    RetryAfter { delay_ms: u64 },
    /// The attempt failed and was the last: its error is the result.
    GiveUp,
}

/// The wait after a failed attempt, in milliseconds: the base delay after
/// the first, doubled after each further one.
pub open spec fn backoff_delay(attempt: nat) -> nat
    decreases attempt,
{
    if attempt <= 1 {
        RETRY_BASE_DELAY_MS as nat
    } else {
        2 * backoff_delay((attempt - 1) as nat)
    }
}

/// What follows attempt number `attempt`, counted from 1.
pub open spec fn decide(attempt: nat, succeeded: bool) -> RetryDecision {
    if succeeded {
        RetryDecision::Done
    } else if attempt < MAX_NETWORK_RETRIES {
        RetryDecision::RetryAfter { delay_ms: backoff_delay(attempt) as u64 }
    } else {
        RetryDecision::GiveUp
    }
}

/// Decides what follows attempt number `attempt`, counted from 1.
pub fn after_attempt(attempt: u32, succeeded: bool) -> (r: RetryDecision)
    requires
        attempt >= 1,
    ensures
        r == decide(attempt as nat, succeeded),
{
    if succeeded {
        return RetryDecision::Done;
    }
    if attempt >= MAX_NETWORK_RETRIES {
        return RetryDecision::GiveUp;
    }
    let mut delay_ms: u64 = RETRY_BASE_DELAY_MS;
    let mut k: u32 = 1;
    while k < attempt
        invariant
            1 <= k <= attempt < MAX_NETWORK_RETRIES,
            delay_ms == backoff_delay(k as nat),
            delay_ms <= 200,
        decreases attempt - k,
    {
        assert(backoff_delay(1) == 100);
        assert(backoff_delay(2) == 2 * backoff_delay(1));
        delay_ms = delay_ms * 2;
        k += 1;
    }
    RetryDecision::RetryAfter { delay_ms }
}

/// How a run of attempts ends.
pub struct RetryRun {
    /// How often the operation was called
    pub calls: nat,
    /// Whether the last call succeeded
    pub succeeded: bool,
    /// The waits between the calls, in order
    pub delays: Seq<u64>,
}

/// The run that follows the policy from attempt number `attempt` on, for an
/// operation whose call number `k` succeeds where `succeeds(k)` holds. The
/// result of the run is the result of its last call.
pub open spec fn run_from(succeeds: spec_fn(nat) -> bool, attempt: nat) -> RetryRun
    decreases MAX_NETWORK_RETRIES + 1 - attempt,
{
    match decide(attempt, succeeds(attempt)) {
        RetryDecision::Done => RetryRun { calls: attempt, succeeded: true, delays: Seq::empty() },
        RetryDecision::GiveUp => RetryRun {
            calls: attempt,
            succeeded: false,
            delays: Seq::empty(),
        },
        RetryDecision::RetryAfter { delay_ms } => {
            let rest = run_from(succeeds, attempt + 1);
            RetryRun {
                calls: rest.calls,
                succeeded: rest.succeeded,
                delays: seq![delay_ms] + rest.delays,
            }
        },
    }
}

/// The run of an operation under the policy.
pub open spec fn run(succeeds: spec_fn(nat) -> bool) -> RetryRun {
    run_from(succeeds, 1)
}

/// Whatever the operation does, it is called at least once and at most
/// three times; the run succeeds exactly if one of the first three calls
/// does, and then ends with the first that does; a run that fails has made
/// all three calls; and there is one wait less than there are calls, 100 ms
/// after the first call and 200 ms after the second, so none follows the
/// last call.
pub proof fn lemma_retry_run(succeeds: spec_fn(nat) -> bool)
    ensures
        1 <= run(succeeds).calls <= 3,
        run(succeeds).succeeded == (succeeds(1) || succeeds(2) || succeeds(3)),
        run(succeeds).succeeded ==> succeeds(run(succeeds).calls) && forall|k: nat|
            1 <= k < run(succeeds).calls ==> !(#[trigger] succeeds(k)),
        !run(succeeds).succeeded ==> run(succeeds).calls == 3,
        run(succeeds).delays.len() == run(succeeds).calls - 1,
        run(succeeds).delays.len() >= 1 ==> run(succeeds).delays[0] == 100,
        run(succeeds).delays.len() >= 2 ==> run(succeeds).delays[1] == 200,
{
    reveal_with_fuel(run_from, 4);
    assert(backoff_delay(1) == 100);
    assert(backoff_delay(2) == 2 * backoff_delay(1));
}

/// An operation that fails twice and then succeeds is called three times
/// and its success is the result.
pub proof fn lemma_retry_third_time_lucky(succeeds: spec_fn(nat) -> bool)
    requires
        !succeeds(1),
        !succeeds(2),
        succeeds(3),
    ensures
        run(succeeds).calls == 3,
        run(succeeds).succeeded,
        run(succeeds).delays == seq![100u64, 200u64],
{
    lemma_retry_run(succeeds);
    assert(run(succeeds).delays =~= seq![100u64, 200u64]);
}

/// An operation that fails three times is called three times, its third
/// failure is the result, and no wait follows it.
pub proof fn lemma_retry_exhausted(succeeds: spec_fn(nat) -> bool)
    requires
        !succeeds(1),
        !succeeds(2),
        !succeeds(3),
    ensures
        run(succeeds).calls == 3,
        !run(succeeds).succeeded,
        run(succeeds).delays == seq![100u64, 200u64],
{
    lemma_retry_run(succeeds);
    assert(run(succeeds).delays =~= seq![100u64, 200u64]);
}

} // verus!
