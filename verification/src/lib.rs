//! A verified model of a block synchronization pipeline.
//!
//! A node keeps its local copy of a chain in sync with an upstream main node:
//! it determines which blocks are missing locally, fetches them with bounded
//! parallelism, and commits them to local storage strictly in block-number
//! order, while background tasks track upstream liveness and watch for chain
//! forks.
//!
//! The library holds the decision logic of that pipeline: the bounded-window
//! ordered scheduler, the per-block retry policy, the sync-state tracker, the
//! fork monitor, and the orchestration state machine that wires them together
//! in either direct-polling or gossip mode. The surrounding process performs
//! the network calls and timed sleeps and feeds their results back as events.

pub mod block;
pub mod fetcher;
pub mod pipeline;
pub mod retry;
pub mod sync_state;
