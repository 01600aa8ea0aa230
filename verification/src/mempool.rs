//! The wholesale refresh of the local mempool index.
//!
//! A refresh fetches the node's whole mempool, has one batch built from it,
//! clears the local mempool index and applies the batch. Nothing is diffed:
//! whatever the index held before is gone afterwards.

use vstd::prelude::*;

verus! {

/// Why a refresh failed.
#[derive(Clone, Copy, Debug, PartialEq, Eq, Structural)]
pub enum RefreshError {
    /// The mempool could not be fetched.
    Transport,
    /// The store could not build, clear or apply.
    Store,
    /// An event arrived that does not answer the action last handed out.
    Protocol,
}

/// How far a refresh has come.
#[derive(Clone, Copy, Debug, PartialEq, Eq, Structural)]
pub enum RefreshPhase {
    /// The mempool snapshot is being fetched.
    Fetching,
    /// The batch is being built from the snapshot.
    Building,
    /// The local mempool index is being cleared.
    Clearing,
    /// The batch is being applied.
    Applying,
    /// The index holds the snapshot.
    Done,
    /// The refresh was given up.
    Failed(RefreshError),
}

/// What happened outside since the last action.
#[derive(Clone, Copy, Debug, PartialEq, Eq, Structural)]
pub enum RefreshEvent {
    /// The snapshot arrived.
    Fetched,
    /// The chain source failed.
    FetchFailed,
    /// The batch was built.
    Built,
    /// The index was cleared.
    Cleared,
    /// The batch was applied.
    Applied,
    /// The store failed at the step it was asked to do.
    StoreFailed,
}

/// What to do next.
#[derive(Clone, Copy, Debug, PartialEq, Eq, Structural)]
pub enum RefreshAction {
    /// Fetch the whole mempool with full transactions.
    FetchSnapshot,
    /// Build one batch from the snapshot.
    BuildBatch,
    /// Clear the local mempool index.
    ClearIndex,
    /// Apply the batch.
    ApplyBatch,
    /// The refresh is complete.
    Finish,
    /// The refresh failed.
    Abort(RefreshError),
}

/// The next phase and the action for one event of a refresh.
pub open spec fn refresh_step(phase: RefreshPhase, event: RefreshEvent) -> (
    RefreshPhase,
    RefreshAction,
) {
    match phase {
        RefreshPhase::Fetching => match event {
            RefreshEvent::Fetched => (RefreshPhase::Building, RefreshAction::BuildBatch),
            RefreshEvent::FetchFailed => refresh_failure(RefreshError::Transport),
            _ => refresh_failure(RefreshError::Protocol),
        },
        RefreshPhase::Building => match event {
            RefreshEvent::Built => (RefreshPhase::Clearing, RefreshAction::ClearIndex),
            RefreshEvent::StoreFailed => refresh_failure(RefreshError::Store),
            _ => refresh_failure(RefreshError::Protocol),
        },
        RefreshPhase::Clearing => match event {
            RefreshEvent::Cleared => (RefreshPhase::Applying, RefreshAction::ApplyBatch),
            RefreshEvent::StoreFailed => refresh_failure(RefreshError::Store),
            _ => refresh_failure(RefreshError::Protocol),
        },
        RefreshPhase::Applying => match event {
            RefreshEvent::Applied => (RefreshPhase::Done, RefreshAction::Finish),
            RefreshEvent::StoreFailed => refresh_failure(RefreshError::Store),
            _ => refresh_failure(RefreshError::Protocol),
        },
        RefreshPhase::Done => (RefreshPhase::Done, RefreshAction::Finish),
        RefreshPhase::Failed(error) => (phase, RefreshAction::Abort(error)),
    }
}

pub open spec fn refresh_failure(error: RefreshError) -> (RefreshPhase, RefreshAction) {
    (RefreshPhase::Failed(error), RefreshAction::Abort(error))
}

/// One refresh of the mempool index.
#[derive(Debug)]
pub struct MempoolRefresh {
    phase: RefreshPhase,
}

impl View for MempoolRefresh {
    type V = RefreshPhase;

    closed spec fn view(&self) -> RefreshPhase {
        self.phase
    }
}

impl MempoolRefresh {
    /// A refresh about to fetch: the caller begins with
    /// [`RefreshAction::FetchSnapshot`].
    pub fn new() -> (refresh: Self)
        ensures
            refresh@ == RefreshPhase::Fetching,
    {
        MempoolRefresh { phase: RefreshPhase::Fetching }
    }

    /// A refresh that stands at `phase`.
    pub fn resume(phase: RefreshPhase) -> (refresh: Self)
        ensures
            refresh@ == phase,
    {
        MempoolRefresh { phase }
    }

    pub fn phase(&self) -> (phase: RefreshPhase)
        ensures
            phase == self@,
    {
        self.phase
    }

    /// Takes what happened outside and says what to do next.
    ///
    /// `FetchSnapshot` is answered by `Fetched` or `FetchFailed`,
    /// `BuildBatch` by `Built`, `ClearIndex` by `Cleared`, `ApplyBatch` by
    /// `Applied`, and each of the last three by `StoreFailed` where the store
    /// refused. `Finish` and `Abort` are final.
    pub fn step(&mut self, event: RefreshEvent) -> (action: RefreshAction)
        ensures
            final(self)@ == refresh_step(old(self)@, event).0,
            action == refresh_step(old(self)@, event).1,
    {
        let (phase, action) = match self.phase {
            RefreshPhase::Fetching => match event {
                RefreshEvent::Fetched => (RefreshPhase::Building, RefreshAction::BuildBatch),
                RefreshEvent::FetchFailed => failure(RefreshError::Transport),
                _ => failure(RefreshError::Protocol),
            },
            RefreshPhase::Building => match event {
                RefreshEvent::Built => (RefreshPhase::Clearing, RefreshAction::ClearIndex),
                RefreshEvent::StoreFailed => failure(RefreshError::Store),
                _ => failure(RefreshError::Protocol),
            },
            RefreshPhase::Clearing => match event {
                RefreshEvent::Cleared => (RefreshPhase::Applying, RefreshAction::ApplyBatch),
                RefreshEvent::StoreFailed => failure(RefreshError::Store),
                _ => failure(RefreshError::Protocol),
            },
            RefreshPhase::Applying => match event {
                RefreshEvent::Applied => (RefreshPhase::Done, RefreshAction::Finish),
                RefreshEvent::StoreFailed => failure(RefreshError::Store),
                _ => failure(RefreshError::Protocol),
            },
            RefreshPhase::Done => (RefreshPhase::Done, RefreshAction::Finish),
            RefreshPhase::Failed(error) => (self.phase, RefreshAction::Abort(error)),
        };
        self.phase = phase;
        action
    }
}

fn failure(error: RefreshError) -> (next: (RefreshPhase, RefreshAction))
    ensures
        next == refresh_failure(error),
{
    (RefreshPhase::Failed(error), RefreshAction::Abort(error))
}

/// What the local mempool index holds once `actions` have been carried out
/// in order, starting from `index`. `snapshot` is what the batch was built
/// from; `clear` and `apply` are what the store does on a clear and on the
/// application of a batch. Actions that do not touch the store leave the
/// index as it is.
pub open spec fn index_after<I, S>(
    index: I,
    snapshot: S,
    actions: Seq<RefreshAction>,
    clear: spec_fn(I) -> I,
    apply: spec_fn(I, S) -> I,
) -> I
    decreases actions.len(),
{
    if actions.len() == 0 {
        index
    } else {
        let before = index_after(index, snapshot, actions.drop_last(), clear, apply);
        match actions.last() {
            RefreshAction::ClearIndex => clear(before),
            RefreshAction::ApplyBatch => apply(before, snapshot),
            _ => before,
        }
    }
}

/// The actions of a refresh in which nothing fails, the first one included.
pub open spec fn full_refresh() -> Seq<RefreshAction> {
    seq![
        RefreshAction::FetchSnapshot,
        refresh_step(RefreshPhase::Fetching, RefreshEvent::Fetched).1,
        refresh_step(RefreshPhase::Building, RefreshEvent::Built).1,
        refresh_step(RefreshPhase::Clearing, RefreshEvent::Cleared).1,
        refresh_step(RefreshPhase::Applying, RefreshEvent::Applied).1,
    ]
}

/// A refresh in which nothing fails clears the index and then applies the
/// snapshot to the cleared index, in that order and nothing else.
pub proof fn refresh_clears_then_applies<I, S>(
    index: I,
    snapshot: S,
    clear: spec_fn(I) -> I,
    apply: spec_fn(I, S) -> I,
)
    ensures
        index_after(index, snapshot, full_refresh(), clear, apply) == apply(
            clear(index),
            snapshot,
        ),
{
    let actions = full_refresh();
    let a4 = actions.drop_last();
    let a3 = a4.drop_last();
    let a2 = a3.drop_last();
    let a1 = a2.drop_last();
    let a0 = a1.drop_last();
    assert(index_after(index, snapshot, a0, clear, apply) == index);
    assert(index_after(index, snapshot, a1, clear, apply) == index);
    assert(index_after(index, snapshot, a2, clear, apply) == index);
    assert(index_after(index, snapshot, a3, clear, apply) == clear(index));
    assert(index_after(index, snapshot, a4, clear, apply) == apply(clear(index), snapshot));
}

/// Refreshing twice in a row from the same snapshot leaves the index as one
/// refresh leaves it, for every store whose clear forgets what the mempool
/// index held, whatever else the store keeps and however it applies a batch.
pub proof fn refresh_is_idempotent_where_clear_forgets<I, S>(
    index: I,
    snapshot: S,
    clear: spec_fn(I) -> I,
    apply: spec_fn(I, S) -> I,
)
    requires
        forall|a: I, b: I| #[trigger] clear(a) == #[trigger] clear(b),
    ensures
        ({
            let once = index_after(index, snapshot, full_refresh(), clear, apply);
            index_after(once, snapshot, full_refresh(), clear, apply) == once
        }),
{
    let once = index_after(index, snapshot, full_refresh(), clear, apply);
    refresh_clears_then_applies(index, snapshot, clear, apply);
    refresh_clears_then_applies(once, snapshot, clear, apply);
}

/// The local mempool index as far as the pipeline determines it: the
/// snapshots that were applied since the index was last cleared, the
/// oldest first. What the store holds is made of these and nothing else.
pub struct MempoolIndex<S> {
    pub applied: Seq<S>,
}

impl<S> MempoolIndex<S> {
    /// The index after a clear: nothing is applied.
    pub open spec fn cleared(self) -> Self {
        MempoolIndex { applied: Seq::empty() }
    }

    /// The index after the batch of `snapshot` was applied.
    pub open spec fn with(self, snapshot: S) -> Self {
        MempoolIndex { applied: self.applied.push(snapshot) }
    }

    /// The index once `actions` have been carried out in order, the batch
    /// being built from `snapshot`.
    pub open spec fn after(self, snapshot: S, actions: Seq<RefreshAction>) -> Self {
        index_after(
            self,
            snapshot,
            actions,
            |index: Self| index.cleared(),
            |index: Self, applied: S| index.with(applied),
        )
    }
}

/// A refresh leaves the index with the snapshot and nothing else, whatever
/// it held before; so refreshing twice in a row from the same snapshot
/// leaves the index as one refresh leaves it.
pub proof fn refresh_is_idempotent<S>(index: MempoolIndex<S>, snapshot: S)
    ensures
        index.after(snapshot, full_refresh()).applied == seq![snapshot],
        index.after(snapshot, full_refresh()).after(snapshot, full_refresh()) == index.after(
            snapshot,
            full_refresh(),
        ),
{
    let clear = |index: MempoolIndex<S>| index.cleared();
    let apply = |index: MempoolIndex<S>, applied: S| index.with(applied);
    let once = index.after(snapshot, full_refresh());
    refresh_clears_then_applies(index, snapshot, clear, apply);
    refresh_clears_then_applies(once, snapshot, clear, apply);
    assert(once.applied =~= seq![snapshot]);
    assert(once.after(snapshot, full_refresh()).applied =~= seq![snapshot]);
}

} // verus!
