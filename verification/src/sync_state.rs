//! The sync-state tracker: a single watched cell holding the latest known
//! upstream block height, together with the polling policy of the background
//! loop that feeds it.
//!
//! The cell has one writer (the poller loop) and many readers (the fetch
//! scheduler). Its value is monotonically non-decreasing: writers only move
//! it forward. The fetch scheduler reads it to avoid requesting blocks the
//! upstream has not produced yet.

use vstd::prelude::*;

verus! {

/// After a successful poll the loop sleeps briefly so the pipeline stays
/// responsive to new upstream blocks.
pub const POLL_INTERVAL_MS: u64 = 500;

/// After a failed poll the loop backs off for longer before retrying.
/// Poll failures are never fatal: the tracker is a pure availability loop.
pub const POLL_RETRY_INTERVAL_MS: u64 = 5000;

/// What the height written by `set` must be: the previous height and the
/// observed one, whichever is larger, so the published value never decreases.
pub open spec fn advanced(prev: Option<u64>, observed: u64) -> Option<u64> {
    match prev {
        Option::None => Option::Some(observed),
        Option::Some(p) => if p >= observed {
            Option::Some(p)
        } else {
            Option::Some(observed)
        },
    }
}

/// True when the tracked height is known and has reached `target`.
pub open spec fn height_reached(height: Option<u64>, target: u64) -> bool {
    height matches Option::Some(h) && h >= target
}

/// The latest known upstream block height; `None` until the first successful
/// poll. Readers block (outside this library) until it reaches a target value.
pub struct SyncState {
    height: Option<u64>,
}

impl View for SyncState {
    type V = Option<u64>;

    closed spec fn view(&self) -> Option<u64> {
        self.height
    }
}

impl SyncState {
    /// A tracker that has not yet heard from the upstream.
    pub fn new() -> (s: SyncState)
        ensures
            s@ is None,
    {
        SyncState { height: None }
    }

    /// Publishes a freshly polled height. The stored value only moves
    /// forward: an observation older than what is already known is ignored.
    pub fn set(&mut self, observed: u64)
        ensures
            final(self)@ == advanced(old(self)@, observed),
    {
        match self.height {
            None => {
                self.height = Some(observed);
            }
            Some(p) => {
                if p < observed {
                    self.height = Some(observed);
                }
            }
        }
    }

    /// The current value, `None` until the first successful poll.
    pub fn get(&self) -> (r: Option<u64>)
        ensures
            r == self@,
    {
        self.height
    }

    /// True when the upstream is known to have produced block `target`.
    /// The fetch scheduler issues no request for a block until this holds.
    pub fn reached(&self, target: u64) -> (r: bool)
        ensures
            r == height_reached(self@, target),
    {
        match self.height {
            None => false,
            Some(h) => h >= target,
        }
    }
}

/// The sync-state tracker never moves backwards: whatever `set` observes,
/// the stored height is at least what it was before.
pub proof fn lemma_set_monotonic(prev: Option<u64>, observed: u64)
    ensures
        prev matches Option::Some(p) ==> advanced(prev, observed) matches Option::Some(n) && n >= p,
        advanced(prev, observed) matches Option::Some(n) && n >= observed,
{
}

/// Result of one poll of the upstream height, as handed back by the
/// surrounding process.
pub enum PollOutcome {
    /// The upstream answered with its current height.
    Height(u64),
    /// The request failed; the loop logs and backs off.
    PollError,
}

/// Policy of the background poller loop: on success publish the height and
/// sleep briefly; on failure leave the tracker alone and back off for longer.
/// Returns how long the loop must sleep, in milliseconds, before polling
/// again. The loop never terminates except on cancellation.
pub fn poll_step(state: &mut SyncState, outcome: PollOutcome) -> (delay_ms: u64)
    ensures
        outcome matches PollOutcome::Height(h) ==> {
            &&& final(state)@ == advanced(old(state)@, h)
            &&& delay_ms == POLL_INTERVAL_MS
        },
        outcome is PollError ==> {
            &&& final(state)@ == old(state)@
            &&& delay_ms == POLL_RETRY_INTERVAL_MS
        },
{
    match outcome {
        PollOutcome::Height(h) => {
            state.set(h);
            POLL_INTERVAL_MS
        }
        PollOutcome::PollError => POLL_RETRY_INTERVAL_MS,
    }
}

} // verus!
