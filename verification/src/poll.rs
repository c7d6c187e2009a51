//! Readiness polling of the backend's control sockets.
//!
//! After the backend process is started, its control sockets are polled: one
//! connection attempt, a fixed sleep on failure, up to a fixed number of
//! attempts. Connection attempts and sleeps
//! are I/O and live outside this crate: [`poll_step`] decides after each
//! attempt whether to stop or retry, and [`run_readiness_poll`] fixes what a
//! whole run does for any sequence of attempt outcomes — in particular that a
//! run that never connects stops with `BackendUnreachable` after exactly the
//! retry bound, having waited the bound times the interval.

use vstd::prelude::*;

use crate::error::Error;

verus! {

/// How many failed connection attempts end the poll.
pub const RETRY_LIMIT: usize = 200;

/// How long the driver sleeps between attempts, in milliseconds.
pub const RETRY_INTERVAL_MS: u64 = 200;

/// Index of the first `true` in a sequence of attempt outcomes, if any.
pub open spec fn first_success(outcomes: Seq<bool>) -> Option<int>
    decreases outcomes.len(),
{
    if outcomes.len() == 0 {
        None
    } else if outcomes[0] {
        Some(0int)
    } else {
        match first_success(outcomes.drop_first()) {
            Some(i) => Some(i + 1),
            None => None,
        }
    }
}

/// A success at `i` with none before it is the first success.
proof fn lemma_first_success_hit(outcomes: Seq<bool>, i: int)
    requires
        0 <= i < outcomes.len(),
        outcomes[i],
        forall|k: int| 0 <= k < i ==> !outcomes[k],
    ensures
        first_success(outcomes) == Some(i),
    decreases i,
{
    if i > 0 {
        lemma_first_success_hit(outcomes.drop_first(), i - 1);
    }
}

/// The first success, where there is one, is a valid index.
proof fn lemma_first_success_bounds(outcomes: Seq<bool>)
    ensures
        first_success(outcomes) matches Some(j) ==> 0 <= j < outcomes.len(),
    decreases outcomes.len(),
{
    if outcomes.len() > 0 {
        lemma_first_success_bounds(outcomes.drop_first());
    }
}

/// If the first `i` attempts all failed, the first success is not below `i`.
proof fn lemma_first_success_min(outcomes: Seq<bool>, i: int)
    requires
        0 <= i <= outcomes.len(),
        forall|k: int| 0 <= k < i ==> !outcomes[k],
    ensures
        first_success(outcomes) matches Some(j) ==> j >= i,
        outcomes.len() == i ==> first_success(outcomes) is None,
    decreases i,
{
    lemma_first_success_bounds(outcomes);
    if i > 0 {
        lemma_first_success_min(outcomes.drop_first(), i - 1);
    }
}

/// What the polling driver must do after one connection attempt.
#[derive(Debug, PartialEq, Eq, Structural, Clone, Copy)]
pub enum PollDecision {
    /// The attempt connected: the backend is ready.
    Ready,
    /// The attempt failed: sleep for the interval and try again.
    RetryAfterDelay,
    /// The attempt failed and the retry bound is spent: stop with
    /// `BackendUnreachable`.
    GiveUp,
}

/// Decides what to do after one connection attempt: `retry_count` failures
/// happened before it, `connected` says whether it reached the socket.
pub fn poll_step(retry_count: usize, connected: bool) -> (r: PollDecision)
    requires
        retry_count < RETRY_LIMIT,
    ensures
        connected ==> r == PollDecision::Ready,
        !connected && retry_count + 1 < RETRY_LIMIT ==> r == PollDecision::RetryAfterDelay,
        !connected && retry_count + 1 == RETRY_LIMIT ==> r == PollDecision::GiveUp,
{
    if connected {
        PollDecision::Ready
    } else if retry_count + 1 == RETRY_LIMIT {
        PollDecision::GiveUp
    } else {
        PollDecision::RetryAfterDelay
    }
}

/// The result of a whole polling run.
#[derive(Debug)]
pub struct PollRun {
    /// `Ok(k)`: the `k`-th attempt (counting from zero) connected. `Err`:
    /// the retry bound was spent without connecting.
    pub result: Result<usize, Error>,
    /// The total time the driver slept, in milliseconds: one interval per
    /// failed attempt.
    pub waited_ms: u64,
}

/// What a whole polling run does, for any sequence of attempt outcomes
/// (`outcomes[k]` says whether the `k`-th connection attempt would reach the
/// socket; attempts past the end of the sequence fail).
///
/// If some attempt within the retry bound connects, the run stops at the
/// first such attempt, having slept once per failed attempt before it.
/// Otherwise the run stops after exactly the retry bound many attempts with
/// `BackendUnreachable`, having waited the bound times the interval — about
/// forty seconds — never looping forever.
pub fn run_readiness_poll(outcomes: &Vec<bool>) -> (r: PollRun)
    ensures
        (match first_success(outcomes@) {
            Some(k) => k < RETRY_LIMIT,
            None => false,
        }) ==> (r.result matches Ok(k) && Some(k as int) == first_success(outcomes@)
            && r.waited_ms == k * RETRY_INTERVAL_MS),
        (match first_success(outcomes@) {
            Some(k) => k >= RETRY_LIMIT,
            None => true,
        }) ==> r.result == Err::<usize, Error>(Error::BackendUnreachable) && r.waited_ms
            == RETRY_LIMIT * RETRY_INTERVAL_MS,
{
    let mut i: usize = 0;
    while i < RETRY_LIMIT
        invariant
            i <= RETRY_LIMIT,
            forall|k: int| 0 <= k < i && k < outcomes@.len() ==> !outcomes@[k],
        decreases RETRY_LIMIT - i,
    {
        let connected = if i < outcomes.len() {
            outcomes[i]
        } else {
            false
        };
        if connected {
            proof {
                lemma_first_success_hit(outcomes@, i as int);
            }
            return PollRun { result: Ok(i), waited_ms: (i as u64) * RETRY_INTERVAL_MS };
        }
        i = i + 1;
    }
    proof {
        if i <= outcomes@.len() {
            lemma_first_success_min(outcomes@, i as int);
        } else {
            lemma_first_success_min(outcomes@, outcomes@.len() as int);
        }
    }
    PollRun {
        result: Err(Error::BackendUnreachable),
        waited_ms: (RETRY_LIMIT as u64) * RETRY_INTERVAL_MS,
    }
}

} // verus!
