//! Scenario tests for the orchestration state machine: the two modes, the
//! fork monitor, structured cancellation, and the durable gossip handoff.

use block_sync::block::GenesisDescriptor;
use block_sync::fetcher::{
    FORK_MONITOR_INTERVAL_MS, FatalError, Fetcher, FetcherEvent, Mode, Phase, Termination,
};
use block_sync::pipeline::{PipelineEvent, PipelineStatus};

fn genesis(fork_number: u64, first_block: u64) -> GenesisDescriptor {
    GenesisDescriptor { chain_id: 270, fork_number, first_block }
}

/// Drives the backfill pipeline inside the fetcher until its bound is
/// reached: every fetch succeeds immediately.
fn drive_backfill(f: &mut Fetcher) {
    assert!(f.step(FetcherEvent::Pipeline(PipelineEvent::HeightObserved(1_000_000))));
    loop {
        let p = f.pipeline.as_ref().expect("backfill pipeline exists");
        if p.is_done() {
            break;
        }
        f.step(FetcherEvent::Pipeline(PipelineEvent::Issue));
        let p = f.pipeline.as_ref().unwrap();
        if p.in_flight() > 0 && p.window[0].payload.is_none() {
            assert!(f.step(FetcherEvent::Pipeline(PipelineEvent::FetchDone(0, Vec::new()))));
        }
        f.step(FetcherEvent::Pipeline(PipelineEvent::Commit));
    }
}

/// A full gossip-mode run over the backfill range `[0, 100)`: the handoff to
/// the consensus executor is refused until the store confirms block 99
/// durable, and the run ends cleanly when the executor exits.
#[test]
fn gossip_run_hands_off_only_after_durability() {
    let mut f = Fetcher::new(Mode::Gossip);
    assert_eq!(f.phase, Phase::Initializing);
    assert!(f.step(FetcherEvent::GenesisReady(genesis(0, 100), 0)));
    assert_eq!(f.phase, Phase::Backfilling);
    assert!(f.poller_running);
    assert!(f.monitor_running);
    assert!(!f.executor_running);

    drive_backfill(&mut f);
    assert_eq!(f.pipeline.as_ref().unwrap().committed.len(), 100);

    // Everything is committed, but not yet confirmed durable: no handoff.
    assert!(!f.step(FetcherEvent::BackfillComplete));
    assert_eq!(f.phase, Phase::Backfilling);

    // The store confirms everything up to and including block 99.
    assert!(f.step(FetcherEvent::Pipeline(PipelineEvent::Persisted(100))));
    assert!(f.step(FetcherEvent::BackfillComplete));
    assert_eq!(f.phase, Phase::SteadyState);
    assert!(f.executor_running);

    assert!(f.step(FetcherEvent::ExecutorExited));
    assert_eq!(f.phase, Phase::Terminated);
    assert_eq!(f.outcome, Some(Termination::Clean));
    assert!(!f.poller_running && !f.monitor_running && !f.executor_running);
    assert_eq!(f.result(), Some(Ok(())));
}

/// Fork halt: a re-fetched genesis that differs from the captured one
/// terminates the run fatally, and no block is committed afterwards.
#[test]
fn fork_mismatch_halts_run() {
    assert_eq!(FORK_MONITOR_INTERVAL_MS, 5000);
    let mut f = Fetcher::new(Mode::Gossip);
    assert!(f.step(FetcherEvent::GenesisReady(genesis(0, 50), 0)));
    assert!(f.step(FetcherEvent::Pipeline(PipelineEvent::HeightObserved(10))));
    assert!(f.step(FetcherEvent::Pipeline(PipelineEvent::Issue)));
    assert!(f.step(FetcherEvent::Pipeline(PipelineEvent::FetchDone(0, vec![0]))));
    assert!(f.step(FetcherEvent::Pipeline(PipelineEvent::Commit)));

    // The monitor sees the same genesis: nothing happens.
    assert!(f.step(FetcherEvent::MonitorObserved(genesis(0, 50))));
    assert_eq!(f.phase, Phase::Backfilling);

    // A fetch failure inside the monitor is transient and swallowed.
    assert!(!f.step(FetcherEvent::MonitorFetchFailed));
    assert_eq!(f.phase, Phase::Backfilling);

    // The upstream's genesis changed: a hard fork. Halt everything.
    assert!(f.step(FetcherEvent::MonitorObserved(genesis(1, 50))));
    assert_eq!(f.outcome, Some(Termination::Failed(FatalError::ForkMismatch)));
    assert_eq!(f.result(), Some(Err(FatalError::ForkMismatch)));
    assert!(!f.poller_running && !f.monitor_running && !f.executor_running);
    assert_eq!(f.pipeline.as_ref().unwrap().status, PipelineStatus::Canceled);

    // No further block is ever committed.
    let committed_before = f.pipeline.as_ref().unwrap().committed.len();
    assert!(!f.step(FetcherEvent::Pipeline(PipelineEvent::FetchDone(0, vec![1]))));
    assert!(!f.step(FetcherEvent::Pipeline(PipelineEvent::Commit)));
    assert!(!f.step(FetcherEvent::BackfillComplete));
    assert_eq!(f.pipeline.as_ref().unwrap().committed.len(), committed_before);
}

/// Cancelling the shared context mid-backfill, with fetches in flight, is a
/// clean termination: a non-error outcome and no task left running.
#[test]
fn cancellation_is_clean_and_stops_everything() {
    let mut f = Fetcher::new(Mode::Gossip);
    assert!(f.step(FetcherEvent::GenesisReady(genesis(0, 100), 0)));
    assert!(f.step(FetcherEvent::Pipeline(PipelineEvent::HeightObserved(100))));
    assert!(f.step(FetcherEvent::Pipeline(PipelineEvent::Issue)));
    assert!(f.step(FetcherEvent::Pipeline(PipelineEvent::Issue)));

    assert!(f.step(FetcherEvent::Canceled));
    assert_eq!(f.phase, Phase::Terminated);
    assert_eq!(f.outcome, Some(Termination::Clean));
    assert_eq!(f.result(), Some(Ok(())));
    assert!(!f.poller_running && !f.monitor_running && !f.executor_running);
    assert_eq!(f.pipeline.as_ref().unwrap().status, PipelineStatus::Canceled);

    // The fetcher is inert afterwards.
    assert!(!f.step(FetcherEvent::Canceled));
    assert!(!f.step(FetcherEvent::Pipeline(PipelineEvent::Issue)));
    assert!(!f.step(FetcherEvent::ExecutorExited));
}

/// A permanent fetch error aborts the whole scope and is surfaced to the
/// caller, with every sibling cancelled first.
#[test]
fn permanent_fetch_error_aborts_scope() {
    let mut f = Fetcher::new(Mode::Gossip);
    assert!(f.step(FetcherEvent::GenesisReady(genesis(0, 100), 0)));
    assert!(f.step(FetcherEvent::Pipeline(PipelineEvent::HeightObserved(100))));
    assert!(f.step(FetcherEvent::Pipeline(PipelineEvent::Issue)));
    assert!(f.step(FetcherEvent::Pipeline(PipelineEvent::FetchPermanent(0))));
    assert_eq!(f.outcome, Some(Termination::Failed(FatalError::PermanentFetch)));
    assert_eq!(f.result(), Some(Err(FatalError::PermanentFetch)));
    assert!(!f.poller_running && !f.monitor_running);
}

/// A storage error while committing is fatal: durability cannot be faked.
#[test]
fn storage_error_is_fatal() {
    let mut f = Fetcher::new(Mode::DirectPolling);
    assert!(f.step(FetcherEvent::CursorReady(3)));
    assert!(f.step(FetcherEvent::TaskFailed(FatalError::Storage)));
    assert_eq!(f.outcome, Some(Termination::Failed(FatalError::Storage)));
    assert_eq!(f.result(), Some(Err(FatalError::Storage)));
}

/// Direct-polling mode: no genesis, no fork monitor, no steady state — one
/// unbounded pipeline run beside the poller, until cancellation.
#[test]
fn direct_polling_runs_unbounded_until_cancelled() {
    let mut f = Fetcher::new(Mode::DirectPolling);
    assert_eq!(f.result(), None);
    // Gossip initialization does not apply to this mode.
    assert!(!f.step(FetcherEvent::GenesisReady(genesis(0, 10), 0)));
    assert!(f.step(FetcherEvent::CursorReady(5)));
    assert_eq!(f.phase, Phase::Backfilling);
    assert!(f.poller_running);
    assert!(!f.monitor_running);
    assert_eq!(f.pipeline.as_ref().unwrap().end, None);

    assert!(f.step(FetcherEvent::Pipeline(PipelineEvent::HeightObserved(8))));
    for n in 5..8 {
        assert!(f.step(FetcherEvent::Pipeline(PipelineEvent::Issue)));
        assert!(f.step(FetcherEvent::Pipeline(PipelineEvent::FetchDone(0, vec![n as u8]))));
        assert!(f.step(FetcherEvent::Pipeline(PipelineEvent::Commit)));
    }
    let numbers: Vec<u64> = f.pipeline.as_ref().unwrap().committed.iter().map(|b| b.number).collect();
    assert_eq!(numbers, vec![5, 6, 7]);

    // There is no bounded backfill to complete and no monitor to report.
    assert!(!f.step(FetcherEvent::BackfillComplete));
    assert!(!f.step(FetcherEvent::MonitorObserved(genesis(0, 10))));
    assert!(!f.step(FetcherEvent::ExecutorExited));

    assert!(f.step(FetcherEvent::Canceled));
    assert_eq!(f.result(), Some(Ok(())));
}

/// Events belonging to other phases are ignored where they do not apply.
#[test]
fn out_of_phase_events_are_ignored() {
    let mut f = Fetcher::new(Mode::Gossip);
    // Nothing is wired up yet.
    assert!(!f.step(FetcherEvent::CursorReady(0)));
    assert!(!f.step(FetcherEvent::Pipeline(PipelineEvent::Issue)));
    assert!(!f.step(FetcherEvent::BackfillComplete));
    assert!(!f.step(FetcherEvent::ExecutorExited));
    assert!(!f.step(FetcherEvent::MonitorObserved(genesis(0, 1))));
    assert_eq!(f.phase, Phase::Initializing);
    // An empty backfill range is durable from the start: immediate handoff.
    assert!(f.step(FetcherEvent::GenesisReady(genesis(0, 4), 4)));
    assert!(f.step(FetcherEvent::BackfillComplete));
    assert_eq!(f.phase, Phase::SteadyState);
}
