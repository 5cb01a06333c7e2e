//! Clock bookkeeping: phase tokens, phase transitions, input indexing.
use std::sync::Arc;

use tokio::sync::OwnedSemaphorePermit;
use vstd::prelude::*;

use crate::time::{GlobalInstant, LocalInstant};

verus! {

#[verifier::external_type_specification]
#[verifier::external_body]
pub struct ExOwnedSemaphorePermit(OwnedSemaphorePermit);

/// `Arc::clone`: a new handle to the same allocation, hence to an equal value.
#[verifier::external_body]
pub(crate) fn arc_clone<T>(this: &Arc<T>) -> (r: Arc<T>)
    ensures
        r == *this,
{
    Arc::clone(this)
}

/// Snapshot of inputs' local time; position `i` holds the local instant of input `i`.
pub type InputSnapshot = Arc<Vec<LocalInstant>>;

/// Token proving that the clock is in a *mutation* phase.
#[derive(Debug)]
pub struct InputToken {
    current_frame: GlobalInstant,
    guard: Arc<OwnedSemaphorePermit>,
}

impl InputToken {
    /// The frame in which the mutation happens.
    pub closed spec fn frame(&self) -> GlobalInstant {
        self.current_frame
    }

    /// Create a token for frame `current_frame` held alive by `guard`.
    pub fn new(current_frame: GlobalInstant, guard: Arc<OwnedSemaphorePermit>) -> (r: Self)
        ensures
            r.frame() == current_frame,
    {
        InputToken { current_frame, guard }
    }

    /// Time token associated with the next *query* phase.
    pub fn current_frame(&self) -> (r: GlobalInstant)
        ensures
            r == self.frame(),
    {
        self.current_frame
    }
}

impl Clone for InputToken {
    fn clone(&self) -> (r: Self)
        ensures
            r.frame() == self.frame(),
    {
        InputToken { current_frame: self.current_frame, guard: arc_clone(&self.guard) }
    }
}

/// Token proving that the clock is in a *query* phase.
#[derive(Debug)]
pub struct QueryToken {
    current_frame: GlobalInstant,
    input_snapshot: InputSnapshot,
    guard: Arc<OwnedSemaphorePermit>,
}

impl QueryToken {
    /// The frame of the query phase.
    pub closed spec fn frame(&self) -> GlobalInstant {
        self.current_frame
    }

    /// Local instants of all inputs known at the start of the query phase.
    pub closed spec fn snapshot(&self) -> Seq<LocalInstant> {
        self.input_snapshot@
    }

    /// Create a token from its parts.
    pub fn new(
        current_frame: GlobalInstant,
        input_snapshot: InputSnapshot,
        guard: Arc<OwnedSemaphorePermit>,
    ) -> (r: Self)
        ensures
            r.frame() == current_frame,
            r.snapshot() == input_snapshot@,
    {
        QueryToken { current_frame, input_snapshot, guard }
    }

    /// Time token associated with the current *query* phase.
    pub fn current_frame(&self) -> (r: GlobalInstant)
        ensures
            r == self.frame(),
    {
        self.current_frame
    }

    /// Time tokens associated with inputs within the current phase.
    pub fn input_snapshot(&self) -> (r: &InputSnapshot)
        ensures
            r@ == self.snapshot(),
    {
        &self.input_snapshot
    }
}

impl Clone for QueryToken {
    fn clone(&self) -> (r: Self)
        ensures
            r.frame() == self.frame(),
            r.snapshot() == self.snapshot(),
    {
        QueryToken {
            current_frame: self.current_frame,
            input_snapshot: arc_clone(&self.input_snapshot),
            guard: arc_clone(&self.guard),
        }
    }
}

/// Phase of the clock.
///
/// In a *query* phase input values are frozen and their local instants are recorded in the
/// phase's snapshot; in a *mutation* phase inputs may be set and no query runs.
#[derive(Debug)]
pub enum ClockPhase {
    Mutation,
    Query(InputSnapshot),
}

impl Default for ClockPhase {
    /// The runtime starts in a query phase with no known inputs.
    fn default() -> (r: Self)
        ensures
            r matches ClockPhase::Query(s) && s@ == Seq::<LocalInstant>::empty(),
    {
        ClockPhase::Query(Arc::new(Vec::new()))
    }
}

/// Local instant reported by an input, or the initial instant when the input did not answer.
pub open spec fn reported_or_initial(x: Option<LocalInstant>) -> nat {
    match x {
        Some(t) => t@,
        None => 0,
    }
}

/// Frame after a request for a mutation phase: leaving a query phase starts a new frame,
/// staying in a mutation phase keeps the frame.
pub open spec fn frame_after_mutation(in_query: bool, frame: nat) -> nat {
    if in_query {
        frame + 1
    } else {
        frame
    }
}

/// Requesting a mutation phase twice in a row, starting from a query phase, starts exactly
/// one new frame: the second request finds the clock already mutating.
pub proof fn lemma_repeated_mutation_requests(frame: nat)
    ensures
        frame_after_mutation(false, frame_after_mutation(true, frame)) == frame + 1,
        frame_after_mutation(false, frame) == frame,
{
}

/// Phase requested from the clock.
#[derive(Debug, Copy, Clone, PartialEq, Eq, Structural)]
pub enum PhaseRequest {
    Query,
    Mutation,
}

/// Work the clock does before handing out a token of the requested phase.
#[derive(Debug, Copy, Clone, PartialEq, Eq, Structural)]
pub struct ClockPlan {
    /// Wait until every token handed out so far is released.
    pub release_tokens: bool,
    /// Collect the handles of inputs registered since the last collection.
    pub collect_inputs: bool,
    /// Ask every input for its local instant and enter a query phase with them.
    pub snapshot_inputs: bool,
}

/// Internal state of the clock.
///
/// `input_handles[i]` is the handle of the input that was given index `i`.
#[derive(Debug)]
pub struct ClockState<H> {
    pub phase: ClockPhase,
    pub current: GlobalInstant,
    pub input_handles: Vec<H>,
}

impl<H> ClockState<H> {
    /// Initial clock: query phase of the initial frame with no inputs.
    pub fn new() -> (r: Self)
        ensures
            r.phase matches ClockPhase::Query(s) && s@ == Seq::<LocalInstant>::empty(),
            r.current@ == 0,
            r.input_handles@ == Seq::<H>::empty(),
    {
        ClockState { phase: ClockPhase::default(), current: GlobalInstant::default(), input_handles: Vec::new() }
    }

    /// Whether the clock is in a query phase.
    pub fn in_query(&self) -> (r: bool)
        ensures
            r == (self.phase is Query),
    {
        match self.phase {
            ClockPhase::Query(_) => true,
            ClockPhase::Mutation => false,
        }
    }

    /// Work needed before handing out a token of the requested phase.
    ///
    /// A query token in a query phase is handed out at once. Entering a query phase from a
    /// mutation phase waits for all tokens, collects new inputs and snapshots them. A mutation
    /// token always waits for all tokens first, so that mutations are atomic; leaving a query
    /// phase also collects new inputs.
    pub fn plan(&self, request: PhaseRequest) -> (r: ClockPlan)
        ensures
            request is Query && self.phase is Query ==> r == (ClockPlan {
                release_tokens: false,
                collect_inputs: false,
                snapshot_inputs: false,
            }),
            request is Query && self.phase is Mutation ==> r == (ClockPlan {
                release_tokens: true,
                collect_inputs: true,
                snapshot_inputs: true,
            }),
            request is Mutation ==> r == (ClockPlan {
                release_tokens: true,
                collect_inputs: self.phase is Query,
                snapshot_inputs: false,
            }),
    {
        let in_query = self.in_query();
        match request {
            PhaseRequest::Query => ClockPlan {
                release_tokens: !in_query,
                collect_inputs: !in_query,
                snapshot_inputs: !in_query,
            },
            PhaseRequest::Mutation => ClockPlan {
                release_tokens: true,
                collect_inputs: in_query,
                snapshot_inputs: false,
            },
        }
    }

    /// Snapshot of the current query phase, `None` in a mutation phase.
    pub fn query_snapshot(&self) -> (r: Option<InputSnapshot>)
        ensures
            self.phase matches ClockPhase::Query(s) ==> r matches Some(t) && t@ == s@,
            self.phase is Mutation ==> r is None,
    {
        match &self.phase {
            ClockPhase::Query(s) => Some(arc_clone(s)),
            ClockPhase::Mutation => None,
        }
    }

    /// Token of the current query phase, held alive by `guard`: it carries the current frame
    /// and the phase's own snapshot. `None` in a mutation phase.
    pub fn query_token(&self, guard: Arc<OwnedSemaphorePermit>) -> (r: Option<QueryToken>)
        ensures
            self.phase matches ClockPhase::Query(s) ==> (r matches Some(t) && t.frame() == self.current
                && t.snapshot() == s@),
            self.phase is Mutation ==> r is None,
    {
        match &self.phase {
            ClockPhase::Query(s) => Some(QueryToken::new(self.current, arc_clone(s), guard)),
            ClockPhase::Mutation => None,
        }
    }

    /// Token of the current mutation phase, held alive by `guard`: it carries the current
    /// frame. `None` in a query phase.
    pub fn mutation_token(&self, guard: Arc<OwnedSemaphorePermit>) -> (r: Option<InputToken>)
        ensures
            self.phase is Mutation ==> (r matches Some(t) && t.frame() == self.current),
            self.phase is Query ==> r is None,
    {
        match &self.phase {
            ClockPhase::Query(_) => None,
            ClockPhase::Mutation => Some(InputToken::new(self.current, guard)),
        }
    }

    /// Append handles of newly registered inputs, in registration order.
    pub fn update_handles(&mut self, new_handles: Vec<H>)
        ensures
            final(self).input_handles@ == old(self).input_handles@ + new_handles@,
            final(self).current == old(self).current,
            final(self).phase == old(self).phase,
    {
        let mut new_handles = new_handles;
        self.input_handles.append(&mut new_handles);
    }

    /// Enter a query phase with the local instants reported by the inputs, one answer per
    /// known input in index order; an input that did not answer is recorded with the
    /// initial instant.
    ///
    /// The frame does not change. Returns the new phase's snapshot, which has one entry per
    /// known input.
    pub fn start_query(&mut self, reported: Vec<Option<LocalInstant>>) -> (r: InputSnapshot)
        requires
            reported@.len() == old(self).input_handles@.len(),
        ensures
            r@.len() == old(self).input_handles@.len(),
            final(self).current == old(self).current,
            final(self).input_handles == old(self).input_handles,
            final(self).phase matches ClockPhase::Query(s) && s@ == r@,
            r@.len() == reported@.len(),
            forall|i: int| 0 <= i < reported@.len() ==> #[trigger] r@[i]@ == reported_or_initial(reported@[i]),
    {
        let mut snapshot: Vec<LocalInstant> = Vec::new();
        let mut i: usize = 0;
        while i < reported.len()
            invariant
                i <= reported@.len(),
                snapshot@.len() == i,
                forall|j: int| 0 <= j < i ==> #[trigger] snapshot@[j]@ == reported_or_initial(reported@[j]),
            decreases reported@.len() - i,
        {
            let t = match reported[i] {
                Some(t) => t,
                None => LocalInstant::initial(),
            };
            snapshot.push(t);
            i = i + 1;
        }
        let snapshot = Arc::new(snapshot);
        self.phase = ClockPhase::Query(arc_clone(&snapshot));
        snapshot
    }

    /// Enter a mutation phase: leaving a query phase starts the next frame, while a
    /// mutation phase keeps its frame.
    pub fn start_mutation(&mut self)
        requires
            old(self).phase is Query ==> old(self).current@ < u64::MAX,
        ensures
            final(self).phase is Mutation,
            final(self).current@ == frame_after_mutation(old(self).phase is Query, old(self).current@),
            final(self).input_handles == old(self).input_handles,
    {
        match self.phase {
            ClockPhase::Query(_) => {
                self.phase = ClockPhase::Mutation;
                self.current = self.current.next();
            },
            ClockPhase::Mutation => {},
        }
    }
}

/// Indexer: assigns each newly created input a unique index and queues its handle until
/// the clock collects it.
#[derive(Debug)]
pub struct Indexer<H> {
    queue: Vec<H>,
    index: usize,
}

impl<H> Indexer<H> {
    /// Handles registered since the clock last collected them, in registration order.
    pub closed spec fn queued(&self) -> Seq<H> {
        self.queue@
    }

    /// Index the next registered input receives.
    pub closed spec fn next_index(&self) -> nat {
        self.index as nat
    }

    /// Indexer with no registered input.
    pub fn new() -> (r: Self)
        ensures
            r.queued() == Seq::<H>::empty(),
            r.next_index() == 0,
    {
        Indexer { queue: Vec::new(), index: 0 }
    }

    /// Number of inputs registered so far, i.e. the index the next input receives.
    pub fn registered(&self) -> (r: usize)
        ensures
            r == self.next_index(),
    {
        self.index
    }

    /// Register an input's handle; returns the index assigned to the input.
    pub fn register(&mut self, handle: H) -> (r: usize)
        requires
            old(self).next_index() < usize::MAX,
        ensures
            r == old(self).next_index(),
            final(self).next_index() == old(self).next_index() + 1,
            final(self).queued() == old(self).queued().push(handle),
    {
        self.queue.push(handle);
        let i = self.index;
        self.index = self.index + 1;
        i
    }

    /// Hand over all queued handles, leaving the queue empty.
    pub fn acquire_inputs(&mut self) -> (r: Vec<H>)
        ensures
            r@ == old(self).queued(),
            final(self).queued() == Seq::<H>::empty(),
            final(self).next_index() == old(self).next_index(),
    {
        let mut taken = Vec::new();
        std::mem::swap(&mut taken, &mut self.queue);
        taken
    }
}

/// Counting agreement between the indexer and the clock: the number of indices handed out
/// so far equals the number of handles the clock holds plus the number still queued.
/// (That the handles also sit in index order is `lemma_indexing_run`.)
pub open spec fn indices_agree<H>(clock_handles: Seq<H>, queued: Seq<H>, next_index: nat) -> bool {
    clock_handles.len() + queued.len() == next_index
}

/// Registering an input keeps the indexer and the clock in agreement, and the index it
/// receives is the position its handle takes in the clock's list once collected.
pub proof fn lemma_register_keeps_agreement<H>(clock_handles: Seq<H>, queued: Seq<H>, next_index: nat, handle: H)
    requires
        indices_agree(clock_handles, queued, next_index),
    ensures
        indices_agree(clock_handles, queued.push(handle), next_index + 1),
        (clock_handles + queued.push(handle))[next_index as int] == handle,
{
}

/// Collecting the queue into the clock keeps the agreement: the handle queued at
/// position `k` lands at position `clock_handles.len() + k` of the clock's list, which is
/// the index it was given.
pub proof fn lemma_collect_keeps_agreement<H>(clock_handles: Seq<H>, queued: Seq<H>, next_index: nat)
    requires
        indices_agree(clock_handles, queued, next_index),
    ensures
        indices_agree(clock_handles + queued, Seq::<H>::empty(), next_index),
        forall|k: int| 0 <= k < queued.len() ==> #[trigger] (clock_handles + queued)[clock_handles.len() + k] == queued[k],
        forall|i: int| 0 <= i < clock_handles.len() ==> #[trigger] (clock_handles + queued)[i] == clock_handles[i],
{
}

/// Permit bookkeeping of the guard that tracks live phase tokens.
///
/// Every token holds one permit of a semaphore; the ledger counts all permits ever added,
/// so that waiting for that many permits means every token was released.
#[derive(Debug)]
pub struct PermitLedger {
    total_count: u32,
}

impl PermitLedger {
    /// Number of permits added to the semaphore so far.
    pub closed spec fn total(&self) -> nat {
        self.total_count as nat
    }

    /// Ledger of a semaphore created with ten permits.
    pub fn new() -> (r: Self)
        ensures
            r.total() == 10,
    {
        PermitLedger { total_count: 10 }
    }

    /// Permits added so far.
    pub fn total_count(&self) -> (r: u32)
        ensures
            r == self.total(),
    {
        self.total_count
    }

    /// Before handing out a permit: when none is available, ten more permits are added.
    /// Returns how many permits to add to the semaphore.
    pub fn reserve(&mut self, available: usize) -> (r: u32)
        requires
            available == 0 ==> old(self).total() + 10 <= u32::MAX,
        ensures
            available == 0 ==> r == 10,
            available != 0 ==> r == 0,
            final(self).total() == old(self).total() + r,
    {
        if available == 0 {
            let new_permits: u32 = 10;
            self.total_count = self.total_count + new_permits;
            new_permits
        } else {
            0
        }
    }
}

/// A request served by the indexer: registering an input's handle, or handing the queued
/// handles over to the clock (which appends them to its list).
pub enum IndexerRequest<H> {
    Register(H),
    Acquire,
}

/// Abstract state of input indexing: the handles the clock collected, in the order it holds
/// them, the handles still queued at the indexer, and the index the next input receives.
pub struct IndexingView<H> {
    pub collected: Seq<H>,
    pub queued: Seq<H>,
    pub next: nat,
}

/// One request: `Register` queues the handle and hands out the next index
/// (`Indexer::register`); `Acquire` moves the queue to the end of the clock's list
/// (`Indexer::acquire_inputs` followed by `ClockState::update_handles`).
pub open spec fn indexing_step<H>(v: IndexingView<H>, req: IndexerRequest<H>) -> IndexingView<H> {
    match req {
        IndexerRequest::Register(h) => IndexingView { collected: v.collected, queued: v.queued.push(h), next: v.next + 1 },
        IndexerRequest::Acquire => IndexingView { collected: v.collected + v.queued, queued: Seq::empty(), next: v.next },
    }
}

/// State after serving `reqs` in order, starting with no input.
pub open spec fn indexing_run<H>(reqs: Seq<IndexerRequest<H>>) -> IndexingView<H>
    decreases reqs.len(),
{
    if reqs.len() == 0 {
        IndexingView { collected: Seq::empty(), queued: Seq::empty(), next: 0 }
    } else {
        indexing_step(indexing_run(reqs.drop_last()), reqs.last())
    }
}

/// Handles registered by `reqs`, in registration order.
pub open spec fn registrations<H>(reqs: Seq<IndexerRequest<H>>) -> Seq<H>
    decreases reqs.len(),
{
    if reqs.len() == 0 {
        Seq::empty()
    } else {
        match reqs.last() {
            IndexerRequest::Register(h) => registrations(reqs.drop_last()).push(h),
            IndexerRequest::Acquire => registrations(reqs.drop_last()),
        }
    }
}

/// Index handed out to the request at position `p` when it is a registration:
/// the state's `next` index just before it.
pub open spec fn index_given<H>(reqs: Seq<IndexerRequest<H>>, p: int) -> nat {
    indexing_run(reqs.take(p)).next
}

/// Over any run of requests, the handles collected by the clock followed by the queued ones
/// are exactly the registered handles in registration order, and the next index is their
/// number: indices are handed out from 0 without gaps, and each handle sits at the position
/// of its index.
pub proof fn lemma_indexing_run<H>(reqs: Seq<IndexerRequest<H>>)
    ensures
        indexing_run(reqs).collected + indexing_run(reqs).queued == registrations(reqs),
        indexing_run(reqs).next == registrations(reqs).len(),
    decreases reqs.len(),
{
    if reqs.len() > 0 {
        let p = reqs.drop_last();
        lemma_indexing_run(p);
        let v = indexing_run(p);
        match reqs.last() {
            IndexerRequest::Register(h) => {
                assert(v.collected + v.queued.push(h) =~= (v.collected + v.queued).push(h));
            },
            IndexerRequest::Acquire => {
                assert((v.collected + v.queued) + Seq::<H>::empty() =~= v.collected + v.queued);
            },
        }
    }
}

/// Registrations of a prefix of a run are a prefix of the run's registrations.
proof fn lemma_registrations_prefix<H>(reqs: Seq<IndexerRequest<H>>, i: int)
    requires
        0 <= i <= reqs.len(),
    ensures
        registrations(reqs.take(i)).len() <= registrations(reqs).len(),
        registrations(reqs.take(i)) == registrations(reqs).take(registrations(reqs.take(i)).len() as int),
    decreases reqs.len() - i,
{
    if i == reqs.len() {
        assert(reqs.take(i) =~= reqs);
        assert(registrations(reqs).take(registrations(reqs).len() as int) =~= registrations(reqs));
    } else {
        lemma_registrations_prefix(reqs, i + 1);
        assert(reqs.take(i + 1).drop_last() =~= reqs.take(i));
        let a = registrations(reqs.take(i));
        let b = registrations(reqs.take(i + 1));
        assert(a =~= b.take(a.len() as int));
        assert(a =~= registrations(reqs).take(a.len() as int));
    }
}

/// The registration at position `p` receives the index of its handle's position among all
/// registrations, and a later registration receives a larger index: indices are unique.
pub proof fn lemma_index_given<H>(reqs: Seq<IndexerRequest<H>>, p: int, q: int)
    requires
        0 <= p < reqs.len(),
        reqs[p] is Register,
    ensures
        index_given(reqs, p) < registrations(reqs).len(),
        registrations(reqs)[index_given(reqs, p) as int] == reqs[p]->Register_0,
        p < q < reqs.len() && reqs[q] is Register ==> index_given(reqs, p) < index_given(reqs, q),
{
    lemma_indexing_run(reqs.take(p));
    lemma_indexing_run(reqs.take(p + 1));
    assert(reqs.take(p + 1).drop_last() =~= reqs.take(p));
    assert(reqs.take(p + 1).last() == reqs[p]);
    let before = registrations(reqs.take(p));
    let upto = registrations(reqs.take(p + 1));
    assert(upto == before.push(reqs[p]->Register_0));
    assert(upto[before.len() as int] == reqs[p]->Register_0);
    lemma_registrations_prefix(reqs, p + 1);
    assert(registrations(reqs).take(upto.len() as int)[before.len() as int] == registrations(reqs)[before.len() as int]);
    if p < q < reqs.len() && reqs[q] is Register {
        lemma_indexing_run(reqs.take(q));
        assert(reqs.take(q).take(p + 1) =~= reqs.take(p + 1));
        lemma_registrations_prefix(reqs.take(q), p + 1);
    }
}

/// A query phase entered after collecting every registered input and receiving one answer
/// per collected handle records one local instant per registered input: entry `k` is the
/// instant reported by the input with index `k` (or the initial one when it did not answer).
pub proof fn lemma_query_snapshot_covers_registered<H>(
    reqs: Seq<IndexerRequest<H>>,
    reported: Seq<Option<LocalInstant>>,
    snapshot: Seq<LocalInstant>,
)
    requires
        indexing_run(reqs).queued.len() == 0,
        reported.len() == indexing_run(reqs).collected.len(),
        snapshot.len() == reported.len(),
        forall|i: int| 0 <= i < reported.len() ==> #[trigger] snapshot[i]@ == reported_or_initial(reported[i]),
    ensures
        snapshot.len() == registrations(reqs).len(),
        forall|k: int| 0 <= k < snapshot.len() ==> #[trigger] snapshot[k]@ == reported_or_initial(reported[k]),
{
    lemma_indexing_run(reqs);
    assert(indexing_run(reqs).collected + indexing_run(reqs).queued =~= indexing_run(reqs).collected);
}

} // verus!
