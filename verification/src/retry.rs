//! The bounded-retry request executor.
//!
//! One attempt either receives an HTTP response (any status) or fails at the
//! transport level. Only transport failures are retried, with a fixed backoff
//! between attempts; the first received response stops the loop at once, and
//! the final attempt's transport failure is surfaced unmodified.
//!
//! The decision for one attempt is [`retry_step`]; the caller that performs
//! the I/O drives it in a loop, sleeping for the returned backoff.
//! [`execute_script`] is the same control structure run over a given sequence
//! of attempt outcomes, one per attempt that might be made.

use vstd::prelude::*;

use crate::error::{LectoError, RawResponse};

verus! {

/// Fixed wait between a retried transport failure and the next attempt.
pub const BACKOFF_MS: u64 = 1000;

/// What one attempt produced at the transport level.
#[derive(Debug)]
pub enum TransportOutcome {
    /// Some HTTP status was received: transport-level success.
    Response(RawResponse),
    /// Connection error or timeout, with its diagnostic detail.
    Failure(String),
}

/// What the executor does after one attempt.
#[derive(Debug)]
pub enum RetryDecision {
    /// Stop, with the operation's transport-level result.
    Finish(Result<RawResponse, LectoError>),
    /// Wait this many milliseconds, then attempt again.
    RetryAfter(u64),
}

/// How many attempts are made at most: zero and one both mean a single
/// attempt with no retry.
pub open spec fn effective_attempts(max_attempts: usize) -> nat {
    if max_attempts == 0 {
        1
    } else {
        max_attempts as nat
    }
}

/// Decides what follows one attempt. Attempt numbering starts at 1. A
/// received response finishes at once, whatever its status; a transport
/// failure on the final attempt is surfaced unmodified; any earlier transport
/// failure is retried after the fixed backoff.
pub fn retry_step(attempt: usize, max_attempts: usize, outcome: TransportOutcome) -> (d:
    RetryDecision)
    requires
        1 <= attempt,
    ensures
        (outcome matches TransportOutcome::Response(resp) ==> d == RetryDecision::Finish(
            Ok::<RawResponse, LectoError>(resp),
        )),
        (outcome matches TransportOutcome::Failure(detail) ==> (attempt >= effective_attempts(
            max_attempts,
        ) ==> d == RetryDecision::Finish(
            Err::<RawResponse, LectoError>((LectoError::Transport { detail })),
        ))),
        (outcome matches TransportOutcome::Failure(_) ==> (attempt < effective_attempts(
            max_attempts,
        ) ==> d == RetryDecision::RetryAfter(BACKOFF_MS))),
{
    match outcome {
        TransportOutcome::Response(resp) => RetryDecision::Finish(Ok(resp)),
        TransportOutcome::Failure(detail) => {
            if max_attempts == 0 || attempt >= max_attempts {
                RetryDecision::Finish(Err(LectoError::Transport { detail }))
            } else {
                RetryDecision::RetryAfter(BACKOFF_MS)
            }
        },
    }
}

/// The index of the attempt on which the executor stops, given the outcome of
/// each attempt in order and the number of attempts allowed: the first index
/// holding a response, or the final allowed index when every outcome up to it
/// is a failure.
pub open spec fn final_attempt_index(os: Seq<TransportOutcome>, eff: nat) -> nat
    decreases eff,
{
    if eff <= 1 || os.len() == 0 {
        0
    } else if os[0] is Response {
        0
    } else {
        1 + final_attempt_index(os.skip(1), (eff - 1) as nat)
    }
}

/// The transport-level result of the whole executor run, and the number of
/// attempts it makes, over the outcome of each attempt in order.
pub open spec fn script_result(os: Seq<TransportOutcome>, max_attempts: usize) -> (Result<
    RawResponse,
    LectoError,
>, nat) {
    let k = final_attempt_index(os, effective_attempts(max_attempts));
    (
        match os[k as int] {
            TransportOutcome::Response(resp) => Ok(resp),
            TransportOutcome::Failure(detail) => Err((LectoError::Transport { detail })),
        },
        k + 1,
    )
}

/// Any index within the allowed attempts that has only failures before it,
/// and holds a response or is the final allowed attempt, is the stopping
/// index.
pub proof fn lemma_final_attempt_index_is(os: Seq<TransportOutcome>, eff: nat, k: nat)
    requires
        1 <= eff <= os.len(),
        k < eff,
        forall|j: int| 0 <= j < k ==> !(os[j] is Response),
        (os[k as int] is Response) || k == (eff - 1) as nat,
    ensures
        final_attempt_index(os, eff) == k,
    decreases eff,
{
    if eff <= 1 || os[0] is Response {
        assert(k == 0);
    } else {
        assert(k >= 1) by {
            assert(!(os[0] is Response) || !(0 < k)) by {
                if 0 < k {
                    assert(!(os[0] is Response));
                }
            }
        }
        assert forall|j: int| 0 <= j < k - 1 implies !(os.skip(1)[j] is Response) by {
            assert(os.skip(1)[j] == os[j + 1]);
        }
        assert(os.skip(1)[k - 1] == os[k as int]);
        lemma_final_attempt_index_is(os.skip(1), (eff - 1) as nat, (k - 1) as nat);
    }
}

/// Runs the executor over a given sequence of attempt outcomes: element `i`
/// is what attempt `i + 1` produces at the transport level. Returns the
/// operation's result, the number of attempts made, and the backoff waits
/// taken, one fixed wait per retried failure.
pub fn execute_script(outcomes: Vec<TransportOutcome>, max_attempts: usize) -> (r: (
    Result<RawResponse, LectoError>,
    usize,
    Vec<u64>,
))
    requires
        outcomes@.len() >= effective_attempts(max_attempts),
    ensures
        r.0 == script_result(outcomes@, max_attempts).0,
        r.1 as nat == script_result(outcomes@, max_attempts).1,
        r.2@ =~= Seq::new((r.1 - 1) as nat, |i: int| BACKOFF_MS),
{
    let mut rest = outcomes;
    let ghost all = rest@;
    let mut attempt: usize = 1;
    let mut waits: Vec<u64> = Vec::new();
    loop
        invariant
            1 <= attempt <= effective_attempts(max_attempts),
            all.len() >= effective_attempts(max_attempts),
            rest@ =~= all.skip(attempt - 1),
            forall|j: int| 0 <= j < attempt - 1 ==> !(all[j] is Response),
            waits@ =~= Seq::new((attempt - 1) as nat, |i: int| BACKOFF_MS),
            script_result(all, max_attempts) == script_result(outcomes@, max_attempts),
            all == outcomes@,
        decreases effective_attempts(max_attempts) - attempt,
    {
        proof {
            assert(rest@.len() >= effective_attempts(max_attempts) - (attempt - 1) >= 1);
        }
        let o = rest.remove(0);
        proof {
            assert(o == all[attempt - 1]);
        }
        match retry_step(attempt, max_attempts, o) {
            RetryDecision::Finish(res) => {
                proof {
                    lemma_final_attempt_index_is(
                        all,
                        effective_attempts(max_attempts),
                        (attempt - 1) as nat,
                    );
                }
                return (res, attempt, waits);
            },
            RetryDecision::RetryAfter(ms) => {
                waits.push(ms);
                attempt = attempt + 1;
            },
        }
    }
}

/// A transport failure with a single allowed attempt is returned unmodified,
/// with no retry: one attempt is made and no backoff is waited.
pub proof fn lemma_single_attempt_no_retry(os: Seq<TransportOutcome>, detail: String)
    requires
        os.len() >= 1,
        os[0] == TransportOutcome::Failure(detail),
    ensures
        script_result(os, 1).0 == Err::<RawResponse, LectoError>((LectoError::Transport { detail })),
        script_result(os, 1).1 == 1,
{
}

/// With more attempts allowed, the executor retries through transport
/// failures and succeeds on the first attempt that received any HTTP
/// response, making exactly that many attempts.
pub proof fn lemma_retries_until_first_response(
    os: Seq<TransportOutcome>,
    max_attempts: usize,
    i: nat,
)
    requires
        os.len() >= effective_attempts(max_attempts),
        i < effective_attempts(max_attempts),
        os[i as int] is Response,
        forall|j: int| 0 <= j < i ==> !(os[j] is Response),
    ensures
        script_result(os, max_attempts).1 == i + 1,
        (os[i as int] matches TransportOutcome::Response(resp) && script_result(
            os,
            max_attempts,
        ).0 == Ok::<RawResponse, LectoError>(resp)),
{
    lemma_final_attempt_index_is(os, effective_attempts(max_attempts), i);
}

/// When every allowed attempt fails at the transport level, the executor
/// makes all of them and surfaces the final attempt's failure unmodified.
pub proof fn lemma_exhausts_attempts(os: Seq<TransportOutcome>, max_attempts: usize)
    requires
        os.len() >= effective_attempts(max_attempts),
        forall|j: int| 0 <= j < effective_attempts(max_attempts) ==> !(os[j] is Response),
    ensures
        script_result(os, max_attempts).1 == effective_attempts(max_attempts),
        (os[effective_attempts(max_attempts) - 1] matches TransportOutcome::Failure(detail)
            && script_result(os, max_attempts).0 == Err::<RawResponse, LectoError>(
            (LectoError::Transport { detail }),
        )),
{
    let eff = effective_attempts(max_attempts);
    lemma_final_attempt_index_is(os, eff, (eff - 1) as nat);
    assert(!(os[eff - 1] is Response));
}

} // verus!
