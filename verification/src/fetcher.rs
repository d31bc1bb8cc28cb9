//! The fetcher: the top-level orchestration state machine that wires the
//! sync-state poller, the fork monitor, the fetch pipeline and (in gossip
//! mode) the external consensus executor together under one shared
//! cancellation scope.
//!
//! Phases run `Initializing → Backfilling → SteadyState → Terminated`.
//! In direct-polling mode the backfill is one unbounded pipeline run that
//! lasts until cancellation, and there is no steady state or fork monitor.
//! In gossip mode the genesis descriptor is fetched and captured first, the
//! pipeline backfills the gap below the genesis's first in-scope block, and
//! once that backfill is durable the block store is handed to the external
//! gossip executor.
//!
//! Structured concurrency: if any task fails fatally, every sibling task is
//! cancelled before the error is surfaced — [`halt`] stops all background
//! tasks and cancels the pipeline in the same transition. Cancellation of
//! the shared context is always a clean, non-error termination.

use vstd::prelude::*;

use crate::block::GenesisDescriptor;
use crate::pipeline::FetchPipeline;
use crate::pipeline::PipelineEvent;
use crate::pipeline::PipelineModel;
use crate::pipeline::PipelineStatus;
use crate::pipeline::inv;
use crate::pipeline::ready_to_return;

verus! {

/// How often the fork monitor re-fetches the genesis descriptor, in
/// milliseconds.
pub const FORK_MONITOR_INTERVAL_MS: u64 = 5000;

/// How the fetcher synchronizes with the upstream.
#[derive(Clone, Copy, Debug, PartialEq, Eq, Structural)]
pub enum Mode {
    /// Poll the main node's RPC endpoint indefinitely; no consensus handoff.
    DirectPolling,
    /// Backfill up to the consensus genesis, then hand the store to the
    /// gossip-network executor.
    Gossip,
}

/// The orchestration phase.
#[derive(Clone, Copy, Debug, PartialEq, Eq, Structural)]
pub enum Phase {
    /// Setting up: fetching the genesis (gossip) or creating the queue
    /// cursor (direct polling). No task runs yet.
    Initializing,
    /// The pipeline is filling the gap between local storage and upstream,
    /// with the poller (and, in gossip mode, the fork monitor) running in
    /// the background. Direct polling stays here until cancelled.
    Backfilling,
    /// Gossip mode only: the backfill is durable and the external consensus
    /// executor owns the store.
    SteadyState,
    /// The run is over, cleanly or with a fatal error; no task is running.
    Terminated,
}

/// The fatal conditions that abort a whole run. Transient conditions never
/// surface: they are retried inside their local loop.
#[derive(Clone, Copy, Debug, PartialEq, Eq, Structural)]
pub enum FatalError {
    /// The upstream reported an unrecoverable error for some block fetch.
    PermanentFetch,
    /// The payload queue or store failed; durability cannot be faked.
    Storage,
    /// The upstream's genesis no longer equals the captured one: a hard
    /// fork. A deliberate halt — continuing would build on an invalid chain.
    ForkMismatch,
}

/// How a run ended. Cancellation is always clean: the caller distinguishes
/// "stopped on request" from "stopped on failure".
#[derive(Clone, Copy, Debug, PartialEq, Eq, Structural)]
pub enum Termination {
    /// The executor finished or the shared context was cancelled.
    Clean,
    /// Some task failed fatally; all siblings were cancelled first.
    Failed(FatalError),
}

/// The fetcher's complete state: the phase machine, the captured genesis,
/// which background tasks are running, and the pipeline it drives.
pub struct Fetcher {
    pub mode: Mode,
    pub phase: Phase,
    /// The genesis descriptor captured at startup (gossip mode); the fork
    /// monitor compares every later fetch against it, by equality only.
    pub captured: Option<GenesisDescriptor>,
    /// Set exactly when the run terminates.
    pub outcome: Option<Termination>,
    /// Whether the sync-state poller loop is running.
    pub poller_running: bool,
    /// Whether the fork monitor loop is running (gossip mode only).
    pub monitor_running: bool,
    /// Whether the external consensus executor is running (steady state).
    pub executor_running: bool,
    /// The backfill pipeline, created once the queue cursor is known.
    pub pipeline: Option<FetchPipeline>,
}

/// A mathematical snapshot of the fetcher.
pub struct FetcherModel {
    pub mode: Mode,
    pub phase: Phase,
    pub captured: Option<GenesisDescriptor>,
    pub outcome: Option<Termination>,
    pub poller_running: bool,
    pub monitor_running: bool,
    pub executor_running: bool,
    pub pipeline: Option<PipelineModel>,
}

impl View for Fetcher {
    type V = FetcherModel;

    open spec fn view(&self) -> FetcherModel {
        FetcherModel {
            mode: self.mode,
            phase: self.phase,
            captured: self.captured,
            outcome: self.outcome,
            poller_running: self.poller_running,
            monitor_running: self.monitor_running,
            executor_running: self.executor_running,
            pipeline: match self.pipeline {
                Some(p) => Some(p@),
                None => None,
            },
        }
    }
}

/// The fetcher's invariant:
/// - it is terminated exactly when an outcome is recorded, and then no task
///   is left running and the pipeline is no longer running either;
/// - the pipeline, once created, satisfies its own invariant;
/// - direct polling has no genesis, no fork monitor, no steady state, and an
///   unbounded pipeline;
/// - a gossip pipeline is bounded by the captured genesis's first in-scope
///   block;
/// - each phase runs exactly the background tasks it is supposed to, and
///   steady state is only entered once the backfill is durable.
pub open spec fn wf(m: FetcherModel) -> bool {
    &&& (m.phase is Terminated <==> m.outcome is Some)
    &&& (m.pipeline matches Some(p) ==> inv(p))
    &&& (m.mode is DirectPolling ==> {
        &&& m.captured is None
        &&& !m.monitor_running
        &&& !(m.phase is SteadyState)
        &&& (m.pipeline matches Some(p) ==> p.end is None)
    })
    &&& (m.mode is Gossip ==> (m.pipeline matches Some(p)
        ==> (m.captured matches Some(g) && p.end == Some(g.first_block))))
    &&& match m.phase {
        Phase::Initializing => {
            &&& m.pipeline is None
            &&& m.captured is None
            &&& !m.poller_running
            &&& !m.monitor_running
            &&& !m.executor_running
        },
        Phase::Backfilling => {
            &&& m.pipeline is Some
            &&& m.poller_running
            &&& (m.monitor_running <==> m.mode is Gossip)
            &&& !m.executor_running
            &&& (m.mode is Gossip ==> m.captured is Some)
        },
        Phase::SteadyState => {
            &&& m.mode is Gossip
            &&& (m.pipeline matches Some(p) && ready_to_return(p))
            &&& m.captured is Some
            &&& m.poller_running
            &&& m.monitor_running
            &&& m.executor_running
        },
        Phase::Terminated => {
            &&& !m.poller_running
            &&& !m.monitor_running
            &&& !m.executor_running
            &&& (m.pipeline matches Some(p) ==> !(p.status is Running))
        },
    }
}

/// A fetcher that has not started anything yet.
pub open spec fn start(mode: Mode) -> FetcherModel {
    FetcherModel {
        mode: mode,
        phase: Phase::Initializing,
        captured: None,
        outcome: None,
        poller_running: false,
        monitor_running: false,
        executor_running: false,
        pipeline: None,
    }
}

/// What happens to the fetcher at one of its suspension points, as reported
/// by the surrounding process.
pub enum FetcherEvent {
    /// Direct polling: the payload queue's cursor was created; its value is
    /// the first missing block.
    CursorReady(u64),
    /// Gossip: the genesis descriptor was fetched and reconciled with the
    /// store, and the queue cursor was created.
    GenesisReady(GenesisDescriptor, u64),
    /// Anything the backfill pipeline reacts to (issuance, completions,
    /// commits, heights, durability).
    Pipeline(PipelineEvent),
    /// Some task hit an unrecoverable condition outside the pipeline's own
    /// fetches: a queue or store error, or a failure while initializing.
    TaskFailed(FatalError),
    /// The fork monitor re-fetched the genesis descriptor.
    MonitorObserved(GenesisDescriptor),
    /// The fork monitor's fetch failed; treated as transient and retried.
    MonitorFetchFailed,
    /// The bounded backfill reached its end and is durable (gossip mode):
    /// hand the store to the consensus executor.
    BackfillComplete,
    /// The consensus executor finished on its own.
    ExecutorExited,
    /// The shared context was cancelled.
    Canceled,
}

/// Terminates the run: records the outcome, stops every background task, and
/// cancels the pipeline — the structured-concurrency rule that no sibling
/// task survives a termination, whether clean or fatal.
pub open spec fn halt(m: FetcherModel, t: Termination) -> FetcherModel {
    FetcherModel {
        phase: Phase::Terminated,
        outcome: Some(t),
        poller_running: false,
        monitor_running: false,
        executor_running: false,
        pipeline: match m.pipeline {
            Some(p) => Some(crate::pipeline::step(p, PipelineEvent::Cancel)),
            None => None,
        },
        ..m
    }
}

/// Whether the fetcher acts on an event: nothing is acted on after
/// termination, each event only in its phase, and the gossip handoff only
/// once the backfill is durable.
pub open spec fn fetcher_enabled(m: FetcherModel, e: FetcherEvent) -> bool {
    m.outcome is None && match e {
        FetcherEvent::CursorReady(_) => m.phase is Initializing && m.mode is DirectPolling,
        FetcherEvent::GenesisReady(_, _) => m.phase is Initializing && m.mode is Gossip,
        FetcherEvent::Pipeline(_) => m.phase is Backfilling,
        FetcherEvent::TaskFailed(_) => true,
        FetcherEvent::MonitorObserved(_) => m.monitor_running && m.captured is Some,
        FetcherEvent::MonitorFetchFailed => false,
        FetcherEvent::BackfillComplete => {
            &&& m.phase is Backfilling
            &&& m.mode is Gossip
            &&& (m.pipeline matches Some(p) && ready_to_return(p))
        },
        FetcherEvent::ExecutorExited => m.phase is SteadyState,
        FetcherEvent::Canceled => true,
    }
}

/// The effect of an enabled event.
pub open spec fn fetcher_apply(m: FetcherModel, e: FetcherEvent) -> FetcherModel {
    match e {
        FetcherEvent::CursorReady(first) => FetcherModel {
            phase: Phase::Backfilling,
            poller_running: true,
            pipeline: Some(crate::pipeline::init(first, None)),
            ..m
        },
        FetcherEvent::GenesisReady(g, first) => FetcherModel {
            phase: Phase::Backfilling,
            captured: Some(g),
            poller_running: true,
            monitor_running: true,
            pipeline: Some(crate::pipeline::init(first, Some(g.first_block))),
            ..m
        },
        FetcherEvent::Pipeline(pe) => {
            let p2 = crate::pipeline::step(m.pipeline->0, pe);
            let m2 = FetcherModel { pipeline: Some(p2), ..m };
            if p2.status is Failed {
                halt(m2, Termination::Failed(FatalError::PermanentFetch))
            } else {
                m2
            }
        },
        FetcherEvent::TaskFailed(err) => halt(m, Termination::Failed(err)),
        FetcherEvent::MonitorObserved(g) => {
            if g == m.captured->0 {
                m
            } else {
                halt(m, Termination::Failed(FatalError::ForkMismatch))
            }
        },
        FetcherEvent::MonitorFetchFailed => m,
        FetcherEvent::BackfillComplete => FetcherModel {
            phase: Phase::SteadyState,
            executor_running: true,
            ..m
        },
        FetcherEvent::ExecutorExited => halt(m, Termination::Clean),
        FetcherEvent::Canceled => halt(m, Termination::Clean),
    }
}

/// One fetcher transition: an enabled event takes effect, any other leaves
/// the state untouched.
pub open spec fn fetcher_step(m: FetcherModel, e: FetcherEvent) -> FetcherModel {
    if fetcher_enabled(m, e) {
        fetcher_apply(m, e)
    } else {
        m
    }
}

/// A whole run of the fetcher.
pub open spec fn fetcher_run(m: FetcherModel, events: Seq<FetcherEvent>) -> FetcherModel
    decreases events.len(),
{
    if events.len() == 0 {
        m
    } else {
        fetcher_run(fetcher_step(m, events[0]), events.drop_first())
    }
}

impl Fetcher {
    /// A fetcher for the given mode, before anything has started.
    pub fn new(mode: Mode) -> (f: Fetcher)
        ensures
            f@ == start(mode),
            wf(f@),
    {
        Fetcher {
            mode,
            phase: Phase::Initializing,
            captured: None,
            outcome: None,
            poller_running: false,
            monitor_running: false,
            executor_running: false,
            pipeline: None,
        }
    }

    /// Terminates the run with the given outcome, cancelling every sibling
    /// task (and the pipeline) in the same transition.
    fn halt(&mut self, t: Termination)
        requires
            wf(old(self)@),
        ensures
            final(self)@ == halt(old(self)@, t),
    {
        self.phase = Phase::Terminated;
        self.outcome = Some(t);
        self.poller_running = false;
        self.monitor_running = false;
        self.executor_running = false;
        let taken = self.pipeline.take();
        match taken {
            Some(mut p) => {
                p.step(PipelineEvent::Cancel);
                self.pipeline = Some(p);
            }
            None => {}
        }
    }

    /// Applies one event: exactly the transition [`fetcher_step`] describes.
    /// Returns whether the event was acted on in the current phase.
    pub fn step(&mut self, event: FetcherEvent) -> (acted: bool)
        requires
            wf(old(self)@),
        ensures
            final(self)@ == fetcher_step(old(self)@, event),
            wf(final(self)@),
            acted == fetcher_enabled(old(self)@, event),
    {
        proof {
            lemma_fetcher_step_preserves_wf(self@, event);
        }
        if self.outcome.is_some() {
            return false;
        }
        match event {
            FetcherEvent::CursorReady(first) => {
                if self.phase == Phase::Initializing && self.mode == Mode::DirectPolling {
                    self.phase = Phase::Backfilling;
                    self.poller_running = true;
                    self.pipeline = Some(FetchPipeline::new(first, None));
                    true
                } else {
                    false
                }
            }
            FetcherEvent::GenesisReady(g, first) => {
                if self.phase == Phase::Initializing && self.mode == Mode::Gossip {
                    self.phase = Phase::Backfilling;
                    self.captured = Some(g);
                    self.poller_running = true;
                    self.monitor_running = true;
                    self.pipeline = Some(FetchPipeline::new(first, Some(g.first_block)));
                    true
                } else {
                    false
                }
            }
            FetcherEvent::Pipeline(pe) => {
                if self.phase == Phase::Backfilling {
                    let taken = self.pipeline.take();
                    match taken {
                        Some(mut p) => {
                            p.step(pe);
                            let failed = p.status == PipelineStatus::Failed;
                            self.pipeline = Some(p);
                            if failed {
                                self.halt(Termination::Failed(FatalError::PermanentFetch));
                            }
                            true
                        }
                        None => {
                            proof {
                                assert(false);
                            }
                            false
                        }
                    }
                } else {
                    false
                }
            }
            FetcherEvent::TaskFailed(err) => {
                self.halt(Termination::Failed(err));
                true
            }
            FetcherEvent::MonitorObserved(g) => {
                if self.monitor_running {
                    match self.captured {
                        Some(captured) => {
                            if !(g == captured) {
                                self.halt(Termination::Failed(FatalError::ForkMismatch));
                            }
                            true
                        }
                        None => {
                            proof {
                                assert(false);
                            }
                            false
                        }
                    }
                } else {
                    false
                }
            }
            FetcherEvent::MonitorFetchFailed => false,
            FetcherEvent::BackfillComplete => {
                if self.phase == Phase::Backfilling && self.mode == Mode::Gossip {
                    let ready = match &self.pipeline {
                        Some(p) => p.ready_to_return(),
                        None => false,
                    };
                    if ready {
                        self.phase = Phase::SteadyState;
                        self.executor_running = true;
                        true
                    } else {
                        false
                    }
                } else {
                    false
                }
            }
            FetcherEvent::ExecutorExited => {
                if self.phase == Phase::SteadyState {
                    self.halt(Termination::Clean);
                    true
                } else {
                    false
                }
            }
            FetcherEvent::Canceled => {
                self.halt(Termination::Clean);
                true
            }
        }
    }

    /// The caller-facing result of a finished run, under the cross-cutting
    /// failure rule: cancellation and a clean executor exit are `Ok`, any
    /// fatal error is surfaced as `Err`.
    pub fn result(&self) -> (r: Option<Result<(), FatalError>>)
        ensures
            self@.outcome is None ==> r is None,
            self@.outcome == Some(Termination::Clean) ==> r == Some(Result::<(), FatalError>::Ok(())),
            forall|e: FatalError|
                self@.outcome == Some(Termination::Failed(e))
                    ==> r == Some(Result::<(), FatalError>::Err(e)),
    {
        match self.outcome {
            None => None,
            Some(Termination::Clean) => Some(Ok(())),
            Some(Termination::Failed(e)) => Some(Err(e)),
        }
    }
}

/// A terminated fetcher is inert: no event sequence changes it — no task
/// restarts, no block is committed, the recorded outcome stands.
pub proof fn lemma_terminated_is_inert(m: FetcherModel, events: Seq<FetcherEvent>)
    requires
        m.outcome is Some,
    ensures
        fetcher_run(m, events) == m,
    decreases events.len(),
{
    if events.len() > 0 {
        lemma_terminated_is_inert(fetcher_step(m, events[0]), events.drop_first());
    }
}

/// The fetcher invariant holds after any sequence of events.
pub proof fn lemma_fetcher_run_preserves_wf(m: FetcherModel, events: Seq<FetcherEvent>)
    requires
        wf(m),
    ensures
        wf(fetcher_run(m, events)),
    decreases events.len(),
{
    if events.len() > 0 {
        lemma_fetcher_step_preserves_wf(m, events[0]);
        lemma_fetcher_run_preserves_wf(fetcher_step(m, events[0]), events.drop_first());
    }
}

/// Fork halt: when the monitor observes a genesis that differs from the one
/// captured at startup, the run terminates with the fork-mismatch error, no
/// background task is left running, and — whatever events arrive afterwards —
/// not one further block is ever committed.
pub proof fn lemma_fork_halt(m: FetcherModel, g: GenesisDescriptor, events: Seq<FetcherEvent>)
    requires
        wf(m),
        fetcher_enabled(m, FetcherEvent::MonitorObserved(g)),
        g != m.captured->0,
    ensures
        fetcher_step(m, FetcherEvent::MonitorObserved(g)).outcome
            == Some(Termination::Failed(FatalError::ForkMismatch)),
        !fetcher_step(m, FetcherEvent::MonitorObserved(g)).poller_running,
        !fetcher_step(m, FetcherEvent::MonitorObserved(g)).monitor_running,
        !fetcher_step(m, FetcherEvent::MonitorObserved(g)).executor_running,
        fetcher_run(fetcher_step(m, FetcherEvent::MonitorObserved(g)), events)
            == fetcher_step(m, FetcherEvent::MonitorObserved(g)),
        m.pipeline matches Some(p)
            ==> fetcher_run(fetcher_step(m, FetcherEvent::MonitorObserved(g)), events).pipeline
                matches Some(p2) && p2.committed == p.committed,
{
    lemma_terminated_is_inert(fetcher_step(m, FetcherEvent::MonitorObserved(g)), events);
}

/// Cancellation cleanliness: cancelling the shared context, at any point of a
/// live run — fetches in flight included — terminates it cleanly (a non-error
/// outcome), stops every background task, and leaves the fetcher inert.
pub proof fn lemma_cancellation_clean(m: FetcherModel, events: Seq<FetcherEvent>)
    requires
        wf(m),
        m.outcome is None,
    ensures
        fetcher_step(m, FetcherEvent::Canceled).outcome == Some(Termination::Clean),
        !fetcher_step(m, FetcherEvent::Canceled).poller_running,
        !fetcher_step(m, FetcherEvent::Canceled).monitor_running,
        !fetcher_step(m, FetcherEvent::Canceled).executor_running,
        fetcher_step(m, FetcherEvent::Canceled).pipeline matches Some(p)
            ==> !(p.status is Running),
        fetcher_run(fetcher_step(m, FetcherEvent::Canceled), events)
            == fetcher_step(m, FetcherEvent::Canceled),
{
    lemma_terminated_is_inert(fetcher_step(m, FetcherEvent::Canceled), events);
}

/// Durability before handoff: a fetcher in steady state — that is, one that
/// has handed the store to the consensus executor — got there only with a
/// finished backfill every committed block of which is below the store's
/// durable watermark.
pub proof fn lemma_handoff_only_after_durable(m: FetcherModel)
    requires
        wf(m),
        m.phase is SteadyState,
    ensures
        m.pipeline matches Some(p) ==> ready_to_return(p),
        m.pipeline matches Some(p)
            ==> forall|i: int|
                0 <= i < p.committed.len() ==> (#[trigger] p.committed[i]).number < p.persisted,
{
    match m.pipeline {
        Some(p) => crate::pipeline::lemma_durable_before_handoff(p),
        None => {}
    }
}

/// Every fetcher event preserves the fetcher invariant.
pub proof fn lemma_fetcher_step_preserves_wf(m: FetcherModel, e: FetcherEvent)
    requires
        wf(m),
    ensures
        wf(fetcher_step(m, e)),
{
    if fetcher_enabled(m, e) {
        match e {
            FetcherEvent::Pipeline(pe) => {
                crate::pipeline::lemma_step_preserves_inv(m.pipeline->0, pe);
            }
            FetcherEvent::CursorReady(_) | FetcherEvent::GenesisReady(_, _) => {}
            _ => {
                match m.pipeline {
                    Some(p) => crate::pipeline::lemma_step_preserves_inv(
                        p,
                        PipelineEvent::Cancel,
                    ),
                    None => {}
                }
            }
        }
    }
}

} // verus!
