//! The pool and the sequencer together.
//!
//! This module is a model only: it describes every way in which the workers,
//! the channel between them and the sequencer can interleave, and proves what
//! holds in every state that such a run can reach. Nothing here is compiled
//! into the library's callers.

use crate::claim::within_lookahead;
use crate::sequencer::{SequencerEvent, SequencerModel};
use crate::worker::{WorkerEvent, WorkerModel, WorkerPhase};
use vstd::prelude::*;

verus! {

/// The whole catch-up pipeline at one moment.
pub struct PipelineModel<B> {
    /// The lookahead bound that all workers share.
    pub lookahead: usize,
    /// The next height the claim counter hands out.
    pub counter: usize,
    pub workers: Seq<WorkerModel>,
    /// The heights of the batches that were sent and not yet received.
    pub channel: Set<usize>,
    pub sequencer: SequencerModel<B>,
}

/// One move of one participant.
pub enum PipelineStep<B> {
    /// The worker with this index learns of an event.
    Worker(int, WorkerEvent),
    /// The sequencer learns of an event.
    Sequencer(SequencerEvent<B>),
}

impl<B> PipelineModel<B> {
    /// A fresh run from height `first` with `worker_count` idle workers.
    pub open spec fn init(
        first: usize,
        lookahead: usize,
        cancellable: bool,
        worker_count: nat,
        interval_ms: u128,
    ) -> Self {
        PipelineModel {
            lookahead,
            counter: first,
            workers: Seq::new(worker_count, |i: int| WorkerModel::init(lookahead, cancellable)),
            channel: Set::empty(),
            sequencer: SequencerModel::init(first, interval_ms),
        }
    }

    /// Whether `step` can happen in this state. A worker's step is tied to
    /// the shared state where its event reports on it: a claim yields the
    /// counter's value, and a reading of the committed-height signal yields
    /// a frontier that the sequencer has reached, the latest or an earlier
    /// one. The sequencer receives only what is in the channel.
    pub open spec fn enabled(self, step: PipelineStep<B>) -> bool {
        match step {
            PipelineStep::Worker(index, event) => {
                &&& 0 <= index < self.workers.len()
                &&& match event {
                    WorkerEvent::Claimed { height } => height == self.counter && self.counter
                        < usize::MAX,
                    WorkerEvent::Exhausted => self.counter == usize::MAX,
                    WorkerEvent::Frontier { frontier } => frontier <= self.sequencer.frontier,
                    _ => true,
                }
            },
            PipelineStep::Sequencer(event) => match event {
                SequencerEvent::Batch(pending) => self.channel.contains(pending.height),
                _ => true,
            },
        }
    }

    /// The state after `step`.
    pub open spec fn next(self, step: PipelineStep<B>) -> Self {
        match step {
            PipelineStep::Worker(index, event) => {
                let worker = self.workers[index];
                let counter = match event {
                    WorkerEvent::Claimed { height } => (self.counter + 1) as usize,
                    _ => self.counter,
                };
                let channel = match (worker.phase, event) {
                    (WorkerPhase::Sending { height }, WorkerEvent::Sent) => self.channel.insert(
                        height,
                    ),
                    _ => self.channel,
                };
                PipelineModel {
                    counter,
                    channel,
                    workers: self.workers.update(index, worker.step(event).0),
                    ..self
                }
            },
            PipelineStep::Sequencer(event) => {
                let channel = match event {
                    SequencerEvent::Batch(pending) => self.channel.remove(pending.height),
                    _ => self.channel,
                };
                PipelineModel { channel, sequencer: self.sequencer.step(event).0, ..self }
            },
        }
    }

    /// Whether a batch for `height` exists somewhere between a worker's
    /// throttle and the store: in a worker's hands, in the channel, on the
    /// shelf or in application.
    pub open spec fn under_way(self, height: usize) -> bool {
        ||| exists|i: int|
            0 <= i < self.workers.len() && (#[trigger] self.workers[i]).in_flight() == Some(
                height,
            )
        ||| self.channel.contains(height)
        ||| self.sequencer.shelf.contains_key(height)
        ||| self.sequencer.applying() && height == self.sequencer.frontier
    }

    /// Whether `height` is in the channel, on the shelf or in application.
    pub open spec fn past_the_workers(self, height: usize) -> bool {
        ||| self.channel.contains(height)
        ||| self.sequencer.shelf.contains_key(height)
        ||| self.sequencer.applying() && height == self.sequencer.frontier
    }

    /// The sequencer is sound and nothing was committed ahead of the claims.
    pub open spec fn positions_ordered(self) -> bool {
        &&& self.sequencer.wf()
        &&& self.sequencer.frontier <= self.counter
        &&& self.sequencer.applying() ==> {
            &&& self.sequencer.frontier < self.counter
            &&& within_lookahead(
                self.sequencer.frontier as nat,
                self.lookahead as nat,
                self.sequencer.frontier as nat,
            )
        }
    }

    /// Every height a worker holds was claimed, is not committed and is
    /// nowhere else; what a worker fetches is within the lookahead.
    pub open spec fn workers_sound(self) -> bool {
        &&& forall|i: int|
            0 <= i < self.workers.len() ==> (#[trigger] self.workers[i]).lookahead
                == self.lookahead
        &&& forall|i: int|
            0 <= i < self.workers.len() ==> match (#[trigger] self.workers[i]).held() {
                Some(h) => self.sequencer.frontier <= h < self.counter && !self.past_the_workers(
                    h,
                ),
                None => true,
            }
        &&& forall|i: int|
            0 <= i < self.workers.len() ==> match (#[trigger] self.workers[i]).in_flight() {
                Some(h) => within_lookahead(
                    self.sequencer.frontier as nat,
                    self.lookahead as nat,
                    h as nat,
                ),
                None => true,
            }
    }

    /// No two workers hold the same height.
    pub open spec fn claims_distinct(self) -> bool {
        forall|i: int, j: int|
            0 <= i < self.workers.len() && 0 <= j < self.workers.len() && i != j && (
            #[trigger] self.workers[i]).held() is Some ==> self.workers[i].held() != (
            #[trigger] self.workers[j]).held()
    }

    /// Every height in the channel was claimed, is not committed, is not on
    /// the shelf as well, and is within the lookahead.
    pub open spec fn channel_sound(self) -> bool {
        forall|h: usize| #[trigger]
            self.channel.contains(h) ==> {
                &&& self.sequencer.frontier <= h < self.counter
                &&& !self.sequencer.shelf.contains_key(h)
                &&& !(self.sequencer.applying() && h == self.sequencer.frontier)
                &&& within_lookahead(self.sequencer.frontier as nat, self.lookahead as nat, h as nat)
            }
    }

    /// Every height on the shelf was claimed and is within the lookahead.
    pub open spec fn shelf_sound(self) -> bool {
        forall|h: usize| #[trigger]
            self.sequencer.shelf.contains_key(h) ==> {
                &&& h < self.counter
                &&& within_lookahead(self.sequencer.frontier as nat, self.lookahead as nat, h as nat)
            }
    }

    /// What holds in every reachable state.
    pub open spec fn inv(self) -> bool {
        &&& self.positions_ordered()
        &&& self.workers_sound()
        &&& self.claims_distinct()
        &&& self.channel_sound()
        &&& self.shelf_sound()
    }
}

/// A fresh pipeline satisfies the invariant.
pub proof fn init_establishes_inv<B>(
    first: usize,
    lookahead: usize,
    cancellable: bool,
    worker_count: nat,
    interval_ms: u128,
)
    ensures
        PipelineModel::<B>::init(first, lookahead, cancellable, worker_count, interval_ms).inv(),
{
}

/// Every step keeps the invariant.
pub proof fn next_preserves_inv<B>(state: PipelineModel<B>, step: PipelineStep<B>)
    requires
        state.inv(),
        state.enabled(step),
    ensures
        state.next(step).inv(),
{
    match step {
        PipelineStep::Worker(index, event) => {
            worker_step_preserves_inv(state, index, event);
        },
        PipelineStep::Sequencer(event) => {
            sequencer_step_preserves_inv(state, event);
        },
    }
}

proof fn worker_step_preserves_inv<B>(state: PipelineModel<B>, index: int, event: WorkerEvent)
    requires
        state.inv(),
        state.enabled(PipelineStep::Worker(index, event)),
    ensures
        state.next(PipelineStep::Worker(index, event)).inv(),
{
    let after = state.next(PipelineStep::Worker(index, event));
    assert(after.claims_distinct()) by {
        assert forall|i: int, j: int|
            0 <= i < after.workers.len() && 0 <= j < after.workers.len() && i != j && (
            #[trigger] after.workers[i]).held() is Some implies after.workers[i].held() != (
            #[trigger] after.workers[j]).held() by {
            let wi = state.workers[i];
            let wj = state.workers[j];
        }
    }
    assert(after.workers_sound()) by {
        assert forall|i: int| 0 <= i < after.workers.len() implies match (
        #[trigger] after.workers[i]).held() {
            Some(h) => after.sequencer.frontier <= h < after.counter && !after.past_the_workers(h),
            None => true,
        } by {
            let wi = state.workers[i];
        }
        assert forall|i: int| 0 <= i < after.workers.len() implies match (
        #[trigger] after.workers[i]).in_flight() {
            Some(h) => within_lookahead(
                after.sequencer.frontier as nat,
                after.lookahead as nat,
                h as nat,
            ),
            None => true,
        } by {
            let wi = state.workers[i];
        }
    }
}

proof fn sequencer_step_preserves_inv<B>(state: PipelineModel<B>, event: SequencerEvent<B>)
    requires
        state.inv(),
        state.enabled(PipelineStep::Sequencer(event)),
    ensures
        state.next(PipelineStep::Sequencer(event)).inv(),
{
    let after = state.next(PipelineStep::Sequencer(event));
    crate::ordering::step_preserves_wf(state.sequencer, event);
    assert(after.workers_sound()) by {
        assert forall|i: int| 0 <= i < after.workers.len() implies match (
        #[trigger] after.workers[i]).held() {
            Some(h) => after.sequencer.frontier <= h < after.counter && !after.past_the_workers(h),
            None => true,
        } by {
            let wi = state.workers[i];
        }
    }
}

/// Whether each of `steps`, taken in turn from `start`, can happen where it stands.
pub open spec fn possible<B>(start: PipelineModel<B>, steps: Seq<PipelineStep<B>>) -> bool
    decreases steps.len(),
{
    steps.len() > 0 ==> {
        &&& possible(start, steps.drop_last())
        &&& after(start, steps.drop_last()).enabled(steps.last())
    }
}

/// The state that `steps` lead to from `start`.
pub open spec fn after<B>(start: PipelineModel<B>, steps: Seq<PipelineStep<B>>) -> PipelineModel<B>
    decreases steps.len(),
{
    if steps.len() == 0 {
        start
    } else {
        after(start, steps.drop_last()).next(steps.last())
    }
}

/// The invariant holds after every possible run, and the pool keeps its size.
pub proof fn runs_preserve_inv<B>(start: PipelineModel<B>, steps: Seq<PipelineStep<B>>)
    requires
        start.inv(),
        possible(start, steps),
    ensures
        after(start, steps).inv(),
        after(start, steps).workers.len() == start.workers.len(),
        after(start, steps).lookahead == start.lookahead,
    decreases steps.len(),
{
    if steps.len() > 0 {
        runs_preserve_inv(start, steps.drop_last());
        next_preserves_inv(after(start, steps.drop_last()), steps.last());
    }
}

/// Bounded lookahead: in every state of every run, a height whose fetch
/// was let through — whether it is still with its worker, in the channel or
/// on the shelf — is at most `lookahead` above the last committed height.
pub proof fn fetched_heights_stay_within_lookahead<B>(
    first: usize,
    lookahead: usize,
    cancellable: bool,
    worker_count: nat,
    interval_ms: u128,
    steps: Seq<PipelineStep<B>>,
    height: usize,
)
    requires
        possible(
            PipelineModel::<B>::init(first, lookahead, cancellable, worker_count, interval_ms),
            steps,
        ),
        after(
            PipelineModel::<B>::init(first, lookahead, cancellable, worker_count, interval_ms),
            steps,
        ).under_way(height),
    ensures
        height <= after(
            PipelineModel::<B>::init(first, lookahead, cancellable, worker_count, interval_ms),
            steps,
        ).sequencer.committed_height() + lookahead,
{
    let start = PipelineModel::<B>::init(first, lookahead, cancellable, worker_count, interval_ms);
    init_establishes_inv::<B>(first, lookahead, cancellable, worker_count, interval_ms);
    runs_preserve_inv(start, steps);
    let state = after(start, steps);
    if exists|i: int|
        0 <= i < state.workers.len() && (#[trigger] state.workers[i]).in_flight() == Some(height) {
        let i = choose|i: int|
            0 <= i < state.workers.len() && (#[trigger] state.workers[i]).in_flight() == Some(
                height,
            );
    }
}

/// A set of heights from `low` up to `low + span`, exclusive, has at most
/// `span` members.
proof fn heights_in_span_are_few(heights: Set<usize>, low: int, span: nat)
    requires
        heights.finite(),
        forall|h: usize| #[trigger] heights.contains(h) ==> low <= h < low + span,
    ensures
        heights.len() <= span,
{
    let widen = |h: usize| h as int;
    let wide = heights.map(widen);
    vstd::set_lib::lemma_map_size(heights, wide, widen);
    vstd::set_lib::lemma_int_range(low, low + span);
    assert(wide.subset_of(vstd::set_lib::set_int_range(low, low + span))) by {
        assert forall|x: int| wide.contains(x) implies vstd::set_lib::set_int_range(
            low,
            low + span,
        ).contains(x) by {
            let h = choose|h: usize| heights.contains(h) && widen(h) == x;
        }
    }
    vstd::set_lib::lemma_len_subset(wide, vstd::set_lib::set_int_range(low, low + span));
}

/// Shelf boundedness: in every state of every run the shelf holds at most
/// `lookahead` batches, and so at most `worker_count + lookahead`.
pub proof fn shelf_stays_bounded<B>(
    first: usize,
    lookahead: usize,
    cancellable: bool,
    worker_count: nat,
    interval_ms: u128,
    steps: Seq<PipelineStep<B>>,
)
    requires
        possible(
            PipelineModel::<B>::init(first, lookahead, cancellable, worker_count, interval_ms),
            steps,
        ),
    ensures
        ({
            let state = after(
                PipelineModel::<B>::init(first, lookahead, cancellable, worker_count, interval_ms),
                steps,
            );
            &&& state.sequencer.shelf.len() <= lookahead
            &&& state.sequencer.shelf.len() <= worker_count + lookahead
            &&& forall|h: usize| #[trigger]
                state.sequencer.shelf.contains_key(h) ==> h > state.sequencer.committed_height()
        }),
{
    let start = PipelineModel::<B>::init(first, lookahead, cancellable, worker_count, interval_ms);
    init_establishes_inv::<B>(first, lookahead, cancellable, worker_count, interval_ms);
    runs_preserve_inv(start, steps);
    let state = after(start, steps);
    heights_in_span_are_few(
        state.sequencer.shelf.dom(),
        state.sequencer.frontier as int,
        lookahead as nat,
    );
}

/// At-most-once assignment: in every state of every run no two workers hold
/// the same height, and no held height is also in the channel, on the shelf
/// or committed.
pub proof fn heights_are_held_once<B>(
    first: usize,
    lookahead: usize,
    cancellable: bool,
    worker_count: nat,
    interval_ms: u128,
    steps: Seq<PipelineStep<B>>,
    i: int,
    j: int,
)
    requires
        possible(
            PipelineModel::<B>::init(first, lookahead, cancellable, worker_count, interval_ms),
            steps,
        ),
        0 <= i < worker_count,
        0 <= j < worker_count,
        i != j,
    ensures
        ({
            let state = after(
                PipelineModel::<B>::init(first, lookahead, cancellable, worker_count, interval_ms),
                steps,
            );
            state.workers[i].held() matches Some(h) ==> {
                &&& state.workers[j].held() != Some(h)
                &&& !state.past_the_workers(h)
                &&& h > state.sequencer.committed_height()
            }
        }),
{
    let start = PipelineModel::<B>::init(first, lookahead, cancellable, worker_count, interval_ms);
    init_establishes_inv::<B>(first, lookahead, cancellable, worker_count, interval_ms);
    runs_preserve_inv(start, steps);
    let state = after(start, steps);
    let wi = state.workers[i];
    let wj = state.workers[j];
}

} // verus!
