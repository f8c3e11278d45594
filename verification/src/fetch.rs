//! The fetch worker's retry policy.
//!
//! A worker pulls a candidate, attempts to retrieve and validate its audio
//! payload, and on failure discards the candidate and asks for a fresh one
//! (after a fixed delay, which the runtime shell owns). Failures are
//! recovered here and never surface to the control loop.

use vstd::prelude::*;

use crate::track::ReadyTrack;

verus! {

/// The outcome of one fetch attempt against one candidate.
pub enum FetchOutcome {
    /// The candidate's payload was retrieved and validated.
    Ready(ReadyTrack),
    /// Network error, timeout or invalid payload: the candidate is
    /// discarded and a fresh one is requested.
    Failed,
}

/// What a worker makes of a run of fetch attempts: the first successful
/// track together with how many failed attempts were discarded before it,
/// or nothing if every attempt failed.
pub open spec fn resolve_spec(s: Seq<FetchOutcome>) -> Option<(ReadyTrack, int)>
    decreases s.len(),
{
    if s.len() == 0 {
        None
    } else {
        match s[0] {
            FetchOutcome::Ready(t) => Some((t, 0)),
            FetchOutcome::Failed => match resolve_spec(s.drop_first()) {
                Some(p) => Some((p.0, p.1 + 1)),
                None => None,
            },
        }
    }
}

/// Retry until a fetch attempt succeeds: returns the first ready track and
/// the number of discarded failures before it, or `None` if the attempts
/// ran out. The control loop never sees the discarded failures.
pub fn fetch_until_ready(attempts: Vec<FetchOutcome>) -> (r: Option<(ReadyTrack, usize)>)
    ensures
        match r {
            Some(p) => resolve_spec(attempts@) == Some((p.0, p.1 as int)),
            None => resolve_spec(attempts@) is None,
        },
    decreases attempts@.len(),
{
    let mut attempts = attempts;
    if attempts.len() == 0 {
        None
    } else {
        match attempts.remove(0) {
            FetchOutcome::Ready(t) => Some((t, 0)),
            FetchOutcome::Failed => {
                proof {
                    lemma_resolve_index_bound(attempts@);
                }
                match fetch_until_ready(attempts) {
                    Some((t, discarded)) => Some((t, discarded + 1)),
                    None => None,
                }
            },
        }
    }
}

/// The discarded count a resolution reports is below the number of
/// attempts, so counting one more failure cannot overflow.
pub proof fn lemma_resolve_index_bound(s: Seq<FetchOutcome>)
    ensures
        match resolve_spec(s) {
            Some(p) => 0 <= p.1 < s.len(),
            None => true,
        },
    decreases s.len(),
{
    if s.len() > 0 {
        lemma_resolve_index_bound(s.drop_first());
    }
}

/// Retry convergence: when the first `k` attempts fail and attempt `k`
/// succeeds, the worker resolves to exactly that track, with exactly `k`
/// discarded failures.
pub proof fn lemma_retry_convergence(s: Seq<FetchOutcome>, k: int)
    requires
        0 <= k < s.len(),
        s[k] is Ready,
        forall|j: int| 0 <= j < k ==> s[j] is Failed,
    ensures
        resolve_spec(s) == Some((s[k]->Ready_0, k)),
    decreases k,
{
    if k > 0 {
        lemma_retry_convergence(s.drop_first(), k - 1);
    }
}

} // verus!
