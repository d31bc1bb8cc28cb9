//! The fetch pipeline: a bounded-window ordered scheduler.
//!
//! Given a starting block number `first` (the payload queue's cursor) and an
//! optional exclusive upper bound `end`, the pipeline fetches every block in
//! `[first, end)` (or `[first, ∞)` when unbounded) and commits them to the
//! queue in ascending order. A producer issues per-block fetches — never
//! before the sync state confirms the upstream has produced the block, and
//! never with more than [`MAX_IN_FLIGHT`] fetches outstanding — and pushes
//! their handles into a bounded channel in issuance order. A consumer pops
//! handles strictly in push order and awaits each to completion, so commit
//! order is issuance order even when the network completes fetches out of
//! order: the channel itself, consumed in push order, is the reorder
//! mechanism.
//!
//! The surrounding process owns the actual network calls and suspension
//! points; it reports what happened as [`PipelineEvent`]s, and [`FetchPipeline::step`]
//! is the verified transition function. The model below ([`step`], [`run`])
//! states what any such event sequence can do to the pipeline, and the
//! lemmas at the bottom prove the pipeline's ordering, backpressure and flow
//! control guarantees for every event sequence.

use vstd::prelude::*;

use crate::block::FetchedBlock;
use crate::sync_state::SyncState;
use crate::sync_state::advanced;

verus! {

/// The window size `W`: the bounded channel's capacity, and thereby the sole
/// mechanism limiting how many fetches are outstanding at once.
pub const MAX_IN_FLIGHT: usize = 30;

/// Whether the pipeline is still making progress. Both terminal states are
/// absorbing: no event changes a pipeline that has failed or been cancelled.
#[derive(Clone, Copy, Debug, PartialEq, Eq, Structural)]
pub enum PipelineStatus {
    /// Producer and consumer are running.
    Running,
    /// A permanent fetch error aborted the pipeline.
    Failed,
    /// The shared context was cancelled: a clean, non-error termination.
    Canceled,
}

/// An ordered token for one outstanding fetch, created in issuance order and
/// consumed in the same order regardless of when the network call resolves.
pub struct InFlight {
    /// The block number this fetch was issued for.
    pub number: u64,
    /// `None` while the fetch is pending or retrying; the payload once it
    /// resolved.
    pub payload: Option<Vec<u8>>,
}

/// The pipeline's complete state: scheduler bounds, the in-flight window in
/// issuance order, the commit log of the payload queue it drives, the durable
/// watermark reported by the store, and the sync-state tracker.
pub struct FetchPipeline {
    /// The queue cursor when this run started: the first block to fetch.
    pub first: u64,
    /// Exclusive upper bound of the run; `None` means run until cancelled.
    pub end: Option<u64>,
    /// The next block number the producer will issue a fetch for.
    pub next_to_issue: u64,
    /// Outstanding fetches, oldest first; never longer than [`MAX_IN_FLIGHT`].
    pub window: Vec<InFlight>,
    /// Blocks committed to the payload queue by this run, in commit order.
    /// The queue cursor is `first + committed.len()`.
    pub committed: Vec<FetchedBlock>,
    /// Every block this run committed with a number below this watermark is
    /// confirmed durably persisted by the store.
    pub persisted: u64,
    /// Latest known upstream height, fed by the background poller.
    pub sync: SyncState,
    /// Running, failed, or cancelled.
    pub status: PipelineStatus,
}

/// A mathematical snapshot of the pipeline: the `Vec`s as sequences, the
/// tracker as its value. [`step`] and the lemmas below speak of this.
pub struct PipelineModel {
    pub first: u64,
    pub end: Option<u64>,
    pub next_to_issue: u64,
    pub window: Seq<InFlight>,
    pub committed: Seq<FetchedBlock>,
    pub persisted: u64,
    pub height: Option<u64>,
    pub status: PipelineStatus,
}

impl View for FetchPipeline {
    type V = PipelineModel;

    open spec fn view(&self) -> PipelineModel {
        PipelineModel {
            first: self.first,
            end: self.end,
            next_to_issue: self.next_to_issue,
            window: self.window@,
            committed: self.committed@,
            persisted: self.persisted,
            height: self.sync@,
            status: self.status,
        }
    }
}

/// The payload queue's cursor: the next block number not yet committed.
pub open spec fn cursor(m: PipelineModel) -> int {
    m.first + m.committed.len()
}

/// The pipeline's invariant, maintained by every event:
/// - at most [`MAX_IN_FLIGHT`] fetches are outstanding (backpressure);
/// - issued numbers are exactly `[first, next_to_issue)`: the committed
///   prefix `[first, cursor)` followed by the window, slot `i` of which holds
///   block `cursor + i` — so commits can only happen in issuance order;
/// - the commit log holds exactly blocks `first, first + 1, ...`, gap-free;
/// - a bounded run never issues at or beyond `end`;
/// - no block was issued before the upstream height reached it (flow
///   control), using that the height never decreases;
/// - the durable watermark never passes the cursor.
pub open spec fn inv(m: PipelineModel) -> bool {
    &&& m.window.len() <= MAX_IN_FLIGHT
    &&& m.next_to_issue == cursor(m) + m.window.len()
    &&& forall|i: int| 0 <= i < m.window.len() ==> (#[trigger] m.window[i]).number == cursor(m) + i
    &&& forall|i: int|
        0 <= i < m.committed.len() ==> (#[trigger] m.committed[i]).number == m.first + i
    &&& m.end matches Some(e) ==> (m.next_to_issue > m.first ==> m.next_to_issue <= e)
    &&& m.next_to_issue > m.first ==> (m.height matches Some(h) && m.next_to_issue <= h + 1)
    &&& m.first <= m.persisted <= cursor(m)
}

/// What happened at one of the pipeline's suspension points, reported by the
/// surrounding process. Fetch completions name the window index they belong
/// to: the network may resolve them in any order.
pub enum PipelineEvent {
    /// The background poller published an upstream height.
    HeightObserved(u64),
    /// The producer issues the fetch for the next block number.
    Issue,
    /// The fetch at this window index resolved with the block's payload.
    FetchDone(usize, Vec<u8>),
    /// The fetch at this window index hit a retryable condition; it stays
    /// pending and will be attempted again.
    FetchTransient(usize),
    /// The fetch at this window index failed permanently: the whole pipeline
    /// aborts.
    FetchPermanent(usize),
    /// The consumer commits the oldest in-flight block, if it has resolved.
    Commit,
    /// The store confirms that every block below this number is durable.
    Persisted(u64),
    /// The shared context was cancelled.
    Cancel,
}

/// Whether an event changes the pipeline's state. Every guard demands a
/// running pipeline: failed and cancelled pipelines ignore all events.
/// The producer additionally stops one short of the largest representable
/// block number, so the issuance frontier always fits its machine word.
pub open spec fn enabled(m: PipelineModel, e: PipelineEvent) -> bool {
    m.status is Running && match e {
        PipelineEvent::HeightObserved(_) => true,
        PipelineEvent::Issue => {
            &&& m.window.len() < MAX_IN_FLIGHT
            &&& (m.end matches Some(bound) ==> m.next_to_issue < bound)
            &&& (m.height matches Some(h) && h >= m.next_to_issue)
            &&& m.next_to_issue < u64::MAX
        },
        PipelineEvent::FetchDone(i, _) => i < m.window.len() && m.window[i as int].payload is None,
        PipelineEvent::FetchTransient(_) => false,
        PipelineEvent::FetchPermanent(i) => i < m.window.len()
            && m.window[i as int].payload is None,
        PipelineEvent::Commit => m.window.len() > 0 && m.window[0].payload is Some,
        PipelineEvent::Persisted(upto) => m.first <= upto <= cursor(m),
        PipelineEvent::Cancel => true,
    }
}

/// The effect of an enabled event.
pub open spec fn apply(m: PipelineModel, e: PipelineEvent) -> PipelineModel {
    match e {
        PipelineEvent::HeightObserved(h) => PipelineModel { height: advanced(m.height, h), ..m },
        PipelineEvent::Issue => PipelineModel {
            window: m.window.push(InFlight { number: m.next_to_issue, payload: None }),
            next_to_issue: (m.next_to_issue + 1) as u64,
            ..m
        },
        PipelineEvent::FetchDone(i, payload) => PipelineModel {
            window: m.window.update(
                i as int,
                InFlight { number: m.window[i as int].number, payload: Some(payload) },
            ),
            ..m
        },
        PipelineEvent::FetchTransient(_) => m,
        PipelineEvent::FetchPermanent(_) => PipelineModel { status: PipelineStatus::Failed, ..m },
        PipelineEvent::Commit => PipelineModel {
            window: m.window.drop_first(),
            committed: m.committed.push(
                FetchedBlock {
                    number: m.window[0].number,
                    payload: m.window[0].payload->0,
                },
            ),
            ..m
        },
        PipelineEvent::Persisted(upto) => PipelineModel {
            persisted: if upto > m.persisted {
                upto
            } else {
                m.persisted
            },
            ..m
        },
        PipelineEvent::Cancel => PipelineModel { status: PipelineStatus::Canceled, ..m },
    }
}

/// One pipeline transition: an enabled event takes effect, any other leaves
/// the state untouched.
pub open spec fn step(m: PipelineModel, e: PipelineEvent) -> PipelineModel {
    if enabled(m, e) {
        apply(m, e)
    } else {
        m
    }
}

/// A whole run: the pipeline's state after any sequence of events.
pub open spec fn run(m: PipelineModel, events: Seq<PipelineEvent>) -> PipelineModel
    decreases events.len(),
{
    if events.len() == 0 {
        m
    } else {
        run(step(m, events[0]), events.drop_first())
    }
}

/// The state a fresh pipeline starts in: cursor at `first`, nothing issued,
/// nothing in flight, no upstream height known yet.
pub open spec fn init(first: u64, end: Option<u64>) -> PipelineModel {
    PipelineModel {
        first: first,
        end: end,
        next_to_issue: first,
        window: Seq::empty(),
        committed: Seq::empty(),
        persisted: first,
        height: None,
        status: PipelineStatus::Running,
    }
}

/// A bounded run is done once the queue cursor reaches its end bound. An
/// unbounded run is never done: it commits until cancelled.
pub open spec fn done(m: PipelineModel) -> bool {
    m.end matches Some(e) && cursor(m) >= e
}

/// When the pipeline may return to its caller: the bound is reached and
/// everything this run committed is confirmed durably persisted — the
/// synchronous guarantee a gossip handoff relies on.
pub open spec fn ready_to_return(m: PipelineModel) -> bool {
    done(m) && m.persisted >= cursor(m)
}

impl FetchPipeline {
    /// A pipeline for the range `[first, end)`, or `[first, ∞)` when `end`
    /// is `None`. `first` is read from the payload queue's cursor.
    pub fn new(first: u64, end: Option<u64>) -> (p: FetchPipeline)
        ensures
            p@ == init(first, end),
            inv(p@),
    {
        FetchPipeline {
            first,
            end,
            next_to_issue: first,
            window: Vec::new(),
            committed: Vec::new(),
            persisted: first,
            sync: SyncState::new(),
            status: PipelineStatus::Running,
        }
    }

    /// Applies one event: exactly the transition [`step`] describes. Returns
    /// whether the event was enabled and changed the state.
    pub fn step(&mut self, event: PipelineEvent) -> (applied: bool)
        requires
            inv(old(self)@),
        ensures
            final(self)@ == step(old(self)@, event),
            inv(final(self)@),
            applied == enabled(old(self)@, event),
    {
        proof {
            lemma_step_preserves_inv(self@, event);
        }
        if !(self.status == PipelineStatus::Running) {
            return false;
        }
        match event {
            PipelineEvent::HeightObserved(h) => {
                self.sync.set(h);
                true
            }
            PipelineEvent::Issue => {
                let bound_ok = match self.end {
                    None => true,
                    Some(e) => self.next_to_issue < e,
                };
                if self.window.len() < MAX_IN_FLIGHT && bound_ok
                    && self.sync.reached(self.next_to_issue) && self.next_to_issue < u64::MAX {
                    self.window.push(InFlight { number: self.next_to_issue, payload: None });
                    self.next_to_issue = self.next_to_issue + 1;
                    true
                } else {
                    false
                }
            }
            PipelineEvent::FetchDone(i, payload) => {
                if i < self.window.len() && self.window[i].payload.is_none() {
                    let number = self.window[i].number;
                    self.window[i] = InFlight { number, payload: Some(payload) };
                    true
                } else {
                    false
                }
            }
            PipelineEvent::FetchTransient(_) => false,
            PipelineEvent::FetchPermanent(i) => {
                if i < self.window.len() && self.window[i].payload.is_none() {
                    self.status = PipelineStatus::Failed;
                    true
                } else {
                    false
                }
            }
            PipelineEvent::Commit => {
                if self.window.len() > 0 && self.window[0].payload.is_some() {
                    let slot = self.window.remove(0);
                    match slot.payload {
                        Some(payload) => {
                            self.committed.push(
                                FetchedBlock { number: slot.number, payload },
                            );
                            true
                        }
                        None => {
                            proof {
                                assert(false);
                            }
                            false
                        }
                    }
                } else {
                    false
                }
            }
            PipelineEvent::Persisted(upto) => {
                let cur = self.cursor();
                if self.first <= upto && upto <= cur {
                    if upto > self.persisted {
                        self.persisted = upto;
                    }
                    true
                } else {
                    false
                }
            }
            PipelineEvent::Cancel => {
                self.status = PipelineStatus::Canceled;
                true
            }
        }
    }

    /// The payload queue's cursor: the next block number awaiting commit.
    pub fn cursor(&self) -> (c: u64)
        requires
            inv(self@),
        ensures
            c == cursor(self@),
    {
        self.first + self.committed.len() as u64
    }

    /// How many fetches are currently outstanding.
    pub fn in_flight(&self) -> (n: usize)
        ensures
            n == self@.window.len(),
    {
        self.window.len()
    }

    /// Whether a bounded run has committed its whole range. An unbounded run
    /// never reports done: it keeps committing until cancelled.
    pub fn is_done(&self) -> (r: bool)
        requires
            inv(self@),
        ensures
            r == done(self@),
    {
        match self.end {
            None => false,
            Some(e) => self.cursor() >= e,
        }
    }

    /// Whether the pipeline may return: the bound is reached and every block
    /// this run committed is confirmed durably persisted.
    pub fn ready_to_return(&self) -> (r: bool)
        requires
            inv(self@),
        ensures
            r == ready_to_return(self@),
    {
        self.is_done() && self.persisted >= self.cursor()
    }
}

/// Every event preserves the pipeline invariant.
pub proof fn lemma_step_preserves_inv(m: PipelineModel, e: PipelineEvent)
    requires
        inv(m),
    ensures
        inv(step(m, e)),
{
    if enabled(m, e) {
        let m2 = apply(m, e);
        match e {
            PipelineEvent::Commit => {
                assert(forall|i: int|
                    0 <= i < m2.window.len() ==> #[trigger] m2.window[i] == m.window[i + 1]);
            }
            _ => {}
        }
    }
}

/// The payload queue's cursor contract: a commit appends exactly the block
/// the cursor names — the oldest in-flight one — and advances the cursor by
/// exactly one; nothing else ever moves it.
pub proof fn lemma_commit_advances_cursor_by_one(m: PipelineModel, e: PipelineEvent)
    requires
        inv(m),
    ensures
        e is Commit && enabled(m, e) ==> {
            &&& cursor(step(m, e)) == cursor(m) + 1
            &&& step(m, e).committed == m.committed.push(
                FetchedBlock { number: m.window[0].number, payload: m.window[0].payload->0 },
            )
            &&& m.window[0].number == cursor(m)
        },
        !(e is Commit) ==> cursor(step(m, e)) == cursor(m),
{
}

/// The tracked upstream height never decreases over a run, whatever the
/// poller observes: readers of the sync state see a monotone value.
pub proof fn lemma_height_monotone(m: PipelineModel, events: Seq<PipelineEvent>)
    ensures
        m.height matches Some(h)
            ==> (run(m, events).height matches Some(h2) && h2 >= h),
    decreases events.len(),
{
    if events.len() > 0 {
        lemma_height_monotone(step(m, events[0]), events.drop_first());
    }
}

/// The invariant holds after any sequence of events.
pub proof fn lemma_run_preserves_inv(m: PipelineModel, events: Seq<PipelineEvent>)
    requires
        inv(m),
    ensures
        inv(run(m, events)),
    decreases events.len(),
{
    if events.len() > 0 {
        lemma_step_preserves_inv(m, events[0]);
        lemma_run_preserves_inv(step(m, events[0]), events.drop_first());
    }
}

/// No event moves the pipeline's range: `first` and `end` are fixed for a
/// whole run.
pub proof fn lemma_run_fixed_range(m: PipelineModel, events: Seq<PipelineEvent>)
    ensures
        run(m, events).first == m.first,
        run(m, events).end == m.end,
    decreases events.len(),
{
    if events.len() > 0 {
        lemma_run_fixed_range(step(m, events[0]), events.drop_first());
    }
}

/// Commits are never retracted or reordered: whatever events follow, the
/// blocks already committed stay, in their order, a prefix of the commit log.
pub proof fn lemma_commit_log_monotone(m: PipelineModel, events: Seq<PipelineEvent>)
    ensures
        m.committed.is_prefix_of(run(m, events).committed),
    decreases events.len(),
{
    if events.len() > 0 {
        lemma_commit_log_monotone(step(m, events[0]), events.drop_first());
    }
}

/// Order invariant: however the network interleaves fetch completions, the
/// blocks committed to the queue are strictly increasing and gap-free from
/// `first`, and never run ahead of what was issued — commit order is
/// issuance order.
pub proof fn lemma_order_invariant(m: PipelineModel, events: Seq<PipelineEvent>)
    requires
        inv(m),
    ensures
        forall|i: int|
            0 <= i < run(m, events).committed.len()
                ==> (#[trigger] run(m, events).committed[i]).number == m.first + i,
        forall|i: int, j: int|
            0 <= i < j < run(m, events).committed.len()
                ==> run(m, events).committed[i].number < run(m, events).committed[j].number,
        cursor(run(m, events)) <= run(m, events).next_to_issue,
{
    lemma_run_preserves_inv(m, events);
    lemma_run_fixed_range(m, events);
    let f = run(m, events);
    assert(forall|i: int, j: int|
        0 <= i < j < f.committed.len() ==> f.committed[i].number < f.committed[j].number) by {
        assert(forall|i: int|
            0 <= i < f.committed.len() ==> (#[trigger] f.committed[i]).number == f.first + i);
    }
}

/// Backpressure: whatever the upstream's latency distribution — that is, for
/// every sequence of events — the pipeline never has more than
/// [`MAX_IN_FLIGHT`] fetches outstanding.
pub proof fn lemma_backpressure(m: PipelineModel, events: Seq<PipelineEvent>)
    requires
        inv(m),
    ensures
        run(m, events).window.len() <= MAX_IN_FLIGHT,
{
    lemma_run_preserves_inv(m, events);
}

/// Flow control: no fetch is ever issued for a block the upstream is not
/// known to have produced. After any run in which anything was issued, the
/// tracked upstream height has reached the last issued block number,
/// `next_to_issue - 1` — so every issued number is at or below the height,
/// which never decreases.
pub proof fn lemma_flow_control(m: PipelineModel, events: Seq<PipelineEvent>)
    requires
        inv(m),
    ensures
        run(m, events).next_to_issue > run(m, events).first
            ==> (run(m, events).height matches Some(h)
                && run(m, events).next_to_issue <= h + 1),
{
    lemma_run_preserves_inv(m, events);
}

/// A pipeline that failed or was cancelled is inert: no event sequence
/// changes it, and in particular no further block is ever committed.
pub proof fn lemma_halted_is_inert(m: PipelineModel, events: Seq<PipelineEvent>)
    requires
        !(m.status is Running),
    ensures
        run(m, events) == m,
    decreases events.len(),
{
    if events.len() > 0 {
        lemma_halted_is_inert(step(m, events[0]), events.drop_first());
    }
}

/// A bounded run that is done committed exactly its range `[first, end)`:
/// one block per number, in order, and nothing else — no block at or past
/// `end` is ever committed.
pub proof fn lemma_bounded_run_exact(m: PipelineModel)
    requires
        inv(m),
        done(m),
    ensures
        m.end matches Some(e) && m.committed.len() == (if e >= m.first {
            e - m.first
        } else {
            0int
        }),
        forall|i: int|
            0 <= i < m.committed.len() ==> (#[trigger] m.committed[i]).number == m.first + i,
{
}

/// An unbounded pipeline never reports done: it keeps running (and
/// committing) until cancelled from outside.
pub proof fn lemma_unbounded_never_done(m: PipelineModel, events: Seq<PipelineEvent>)
    requires
        m.end is None,
    ensures
        !done(run(m, events)),
{
    lemma_run_fixed_range(m, events);
}

/// Durability before handoff: when the pipeline is ready to return, every
/// block it committed is below the store's durable watermark — nothing is
/// merely enqueued.
pub proof fn lemma_durable_before_handoff(m: PipelineModel)
    requires
        inv(m),
        ready_to_return(m),
    ensures
        forall|i: int|
            0 <= i < m.committed.len() ==> (#[trigger] m.committed[i]).number < m.persisted,
{
}

} // verus!
