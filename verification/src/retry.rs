//! Per-block fetch policy: fetch exactly one block by number, retrying
//! transient conditions indefinitely with a fixed backoff, and aborting the
//! whole pipeline on any permanent error.
//!
//! The surrounding process performs the network request and hands the result
//! back as a [`FetchOutcome`]; [`retry_step`] decides what the fetch loop does
//! next. "Block not yet produced" and transient transport failures are
//! treated alike: both are retried after the same fixed interval, on the
//! assumption that upstream liveness eventually recovers. The caller's
//! cancellation is the only bound on the number of retries.

use vstd::prelude::*;

use crate::block::FetchedBlock;

verus! {

/// Fixed interval between retries of one block's fetch, in milliseconds.
pub const FETCH_RETRY_INTERVAL_MS: u64 = 5000;

/// Result of one attempt to fetch a block, as reported by the upstream
/// client. The client classifies its own transport errors as transient or
/// permanent.
pub enum FetchOutcome {
    /// The upstream returned the block's payload.
    Found(Vec<u8>),
    /// The upstream does not have the block yet.
    NotYetAvailable,
    /// A retryable transport failure.
    TransientError,
    /// An unrecoverable failure.
    PermanentError,
}

/// What the fetch loop does after one attempt.
pub enum RetryDecision {
    /// The block was obtained; hand it to the pipeline.
    Deliver(FetchedBlock),
    /// Sleep for [`FETCH_RETRY_INTERVAL_MS`] and try the same block again.
    RetryAfterDelay,
    /// Abort the entire pipeline with a permanent fetch error.
    Abort,
}

/// Decides the fetch loop's next move for block `number` after one attempt.
/// A block is delivered if and only if the upstream returned it, carrying
/// exactly the requested number and the returned payload; "not yet available"
/// and transient failures are retried; anything else aborts.
pub fn retry_step(number: u64, outcome: FetchOutcome) -> (d: RetryDecision)
    ensures
        outcome matches FetchOutcome::Found(p) ==> (d matches RetryDecision::Deliver(b)
            && b.number == number && b.payload == p),
        outcome is NotYetAvailable || outcome is TransientError ==> d is RetryAfterDelay,
        outcome is PermanentError ==> d is Abort,
{
    match outcome {
        FetchOutcome::Found(payload) => RetryDecision::Deliver(FetchedBlock { number, payload }),
        FetchOutcome::NotYetAvailable => RetryDecision::RetryAfterDelay,
        FetchOutcome::TransientError => RetryDecision::RetryAfterDelay,
        FetchOutcome::PermanentError => RetryDecision::Abort,
    }
}

/// How the fetch loop as a whole resolves, given the outcomes the upstream
/// would produce for successive attempts: it returns at the first outcome
/// that is not retried, and keeps waiting while every attempt so far was
/// retryable. `None` means the loop is still retrying after all listed
/// attempts.
pub open spec fn loop_resolution(number: u64, outcomes: Seq<FetchOutcome>) -> Option<RetryDecision>
    decreases outcomes.len(),
{
    if outcomes.len() == 0 {
        Option::None
    } else {
        match outcomes[0] {
            FetchOutcome::Found(p) => Option::Some(
                RetryDecision::Deliver(FetchedBlock { number, payload: p }),
            ),
            FetchOutcome::PermanentError => Option::Some(RetryDecision::Abort),
            FetchOutcome::NotYetAvailable => loop_resolution(number, outcomes.drop_first()),
            FetchOutcome::TransientError => loop_resolution(number, outcomes.drop_first()),
        }
    }
}

/// Retry idempotence: any number of leading transient failures (or "not yet
/// available" answers) leaves the fetch loop's resolution exactly what it
/// would have been without them. Once the upstream starts succeeding, the
/// loop delivers the block once, however many failed attempts preceded it.
pub proof fn lemma_transient_prefix_irrelevant(
    number: u64,
    prefix: Seq<FetchOutcome>,
    rest: Seq<FetchOutcome>,
)
    requires
        forall|i: int| 0 <= i < prefix.len()
            ==> (#[trigger] prefix[i]) is NotYetAvailable || prefix[i] is TransientError,
    ensures
        loop_resolution(number, prefix + rest) == loop_resolution(number, rest),
    decreases prefix.len(),
{
    if prefix.len() == 0 {
        assert(prefix + rest =~= rest);
    } else {
        assert((prefix + rest).drop_first() =~= prefix.drop_first() + rest);
        lemma_transient_prefix_irrelevant(number, prefix.drop_first(), rest);
    }
}

/// A loop whose next attempt succeeds delivers exactly the fetched block,
/// with the requested number: never a duplicate, never a different block.
pub proof fn lemma_success_delivers_once(
    number: u64,
    prefix: Seq<FetchOutcome>,
    payload: Vec<u8>,
    rest: Seq<FetchOutcome>,
)
    requires
        forall|i: int| 0 <= i < prefix.len()
            ==> (#[trigger] prefix[i]) is NotYetAvailable || prefix[i] is TransientError,
    ensures
        loop_resolution(number, prefix + seq![FetchOutcome::Found(payload)] + rest)
            == Option::Some(RetryDecision::Deliver(FetchedBlock { number, payload })),
{
    let tail = seq![FetchOutcome::Found(payload)] + rest;
    assert(prefix + seq![FetchOutcome::Found(payload)] + rest =~= prefix + tail);
    lemma_transient_prefix_irrelevant(number, prefix, tail);
}

} // verus!
