//! Where catch-up ends.
//!
//! In a run without failures against a chain that ends at a fixed tip, every
//! height below the tip is fetched, delivered and committed: once all
//! workers have met the end of the chain and the channel has run dry, the
//! highest committed height is the last block of the chain.

use crate::pipeline::{
    after, init_establishes_inv, possible, runs_preserve_inv, PipelineModel, PipelineStep,
};
use crate::sequencer::{SequencerAction, SequencerEvent, SequencerPhase};
use crate::claim::within_lookahead;
use crate::worker::{WorkerEvent, WorkerModel, WorkerPhase};
use vstd::prelude::*;

verus! {

/// Whether `step` is what happens in a run without failures against a
/// chain whose blocks are exactly those below `tip`: every event answers
/// the action that asked for it, a fetch finds the block if and only if its
/// height is below `tip`, nothing fails, no shutdown is requested, and the
/// channel closes only when all workers are done and nothing is left in it.
pub open spec fn orderly<B>(state: PipelineModel<B>, step: PipelineStep<B>, tip: usize) -> bool {
    match step {
        PipelineStep::Worker(index, event) => {
            &&& 0 <= index < state.workers.len()
            &&& match (state.workers[index].phase, event) {
                (WorkerPhase::Claiming, WorkerEvent::Claimed { height }) => true,
                (WorkerPhase::Claiming, WorkerEvent::Exhausted) => true,
                (WorkerPhase::Throttled { height }, WorkerEvent::Frontier { frontier }) => true,
                (WorkerPhase::Fetching { height }, WorkerEvent::Fetched) => height < tip,
                (WorkerPhase::Fetching { height }, WorkerEvent::NotFound) => height >= tip,
                (WorkerPhase::Building { height }, WorkerEvent::Built) => true,
                (WorkerPhase::Sending { height }, WorkerEvent::Sent) => true,
                (WorkerPhase::Polling, WorkerEvent::Shutdown { requested }) => !requested,
                _ => false,
            }
        },
        PipelineStep::Sequencer(event) => match (state.sequencer.phase, event) {
            (SequencerPhase::Receiving, SequencerEvent::Batch(pending)) => true,
            (SequencerPhase::Receiving, SequencerEvent::SourceClosed) => all_workers_done(state)
                && state.channel =~= Set::empty(),
            (SequencerPhase::Applying, SequencerEvent::Applied { elapsed_ms }) => true,
            (SequencerPhase::Flushing, SequencerEvent::Flushed) => true,
            (SequencerPhase::Publishing, SequencerEvent::Published) => true,
            _ => false,
        },
    }
}

/// Whether every worker has stopped without error.
pub open spec fn all_workers_done<B>(state: PipelineModel<B>) -> bool {
    forall|i: int| 0 <= i < state.workers.len() ==> (#[trigger] state.workers[i]).phase is Done
}

/// Whether every step of the run from `start` is orderly.
pub open spec fn orderly_run<B>(
    start: PipelineModel<B>,
    steps: Seq<PipelineStep<B>>,
    tip: usize,
) -> bool
    decreases steps.len(),
{
    steps.len() > 0 ==> {
        &&& orderly_run(start, steps.drop_last(), tip)
        &&& orderly(after(start, steps.drop_last()), steps.last(), tip)
    }
}

/// Whether some worker holds `height`.
pub open spec fn held_by_a_worker<B>(state: PipelineModel<B>, height: usize) -> bool {
    exists|i: int|
        0 <= i < state.workers.len() && (#[trigger] state.workers[i]).held() == Some(height)
}

/// Whether `height` is committed or on its way to the store.
pub open spec fn accounted_for<B>(state: PipelineModel<B>, height: usize) -> bool {
    ||| height < state.sequencer.frontier
    ||| held_by_a_worker(state, height)
    ||| state.past_the_workers(height)
}

/// What holds in every state of an orderly run.
pub open spec fn on_course<B>(state: PipelineModel<B>, tip: usize) -> bool {
    &&& state.inv()
    &&& state.sequencer.frontier <= tip
    &&& !(state.sequencer.phase is Failed)
    // no claimed block of the chain is lost
    &&& forall|h: usize|
        state.sequencer.first <= h < state.counter && h < tip ==> #[trigger] accounted_for(
            state,
            h,
        )
    // only blocks of the chain are delivered
    &&& forall|i: int|
        0 <= i < state.workers.len() ==> match (#[trigger] state.workers[i]).phase {
            WorkerPhase::Building { height } => height < tip,
            WorkerPhase::Sending { height } => height < tip,
            WorkerPhase::Done => state.counter >= tip,
            WorkerPhase::Failed(_) => false,
            _ => true,
        }
    &&& forall|h: usize| #[trigger] state.channel.contains(h) ==> h < tip
    &&& forall|h: usize| #[trigger] state.sequencer.shelf.contains_key(h) ==> h < tip
    &&& state.sequencer.applying() ==> state.sequencer.frontier < tip
}

/// When all workers are done, the channel is empty and the sequencer waits
/// for input, nothing is left on the shelf: whatever were there would wait
/// behind a height that is neither committed nor on its way.
proof fn nothing_waits_once_all_is_delivered<B>(state: PipelineModel<B>, tip: usize)
    requires
        on_course(state, tip),
        all_workers_done(state),
        state.channel =~= Set::empty(),
        state.sequencer.phase is Receiving,
    ensures
        state.sequencer.shelf.dom() =~= Set::empty(),
        state.sequencer.shelf.len() == 0,
        state.sequencer.frontier < state.counter ==> state.sequencer.frontier == tip,
{
    let frontier = state.sequencer.frontier;
    if frontier < state.counter && frontier < tip {
        assert(accounted_for(state, frontier));
        if held_by_a_worker(state, frontier) {
            let i = choose|i: int|
                0 <= i < state.workers.len() && (#[trigger] state.workers[i]).held() == Some(
                    frontier,
                );
            assert(state.workers[i].phase is Done);
        }
    }
    assert forall|h: usize| !state.sequencer.shelf.dom().contains(h) by {
        if state.sequencer.shelf.contains_key(h) {
            assert(frontier <= h < state.counter && h < tip);
        }
    }
    assert(state.sequencer.shelf.dom() =~= Set::empty());
    assert(state.sequencer.shelf.dom().len() == 0);
}

proof fn orderly_step_stays_on_course<B>(
    state: PipelineModel<B>,
    step: PipelineStep<B>,
    tip: usize,
)
    requires
        on_course(state, tip),
        state.enabled(step),
        orderly(state, step, tip),
    ensures
        on_course(state.next(step), tip),
{
    let next = state.next(step);
    crate::pipeline::next_preserves_inv(state, step);
    match step {
        PipelineStep::Worker(index, event) => {
            let before = state.workers[index];
            assert forall|i: int| 0 <= i < next.workers.len() implies match (
            #[trigger] next.workers[i]).phase {
                WorkerPhase::Building { height } => height < tip,
                WorkerPhase::Sending { height } => height < tip,
                WorkerPhase::Done => next.counter >= tip,
                WorkerPhase::Failed(_) => false,
                _ => true,
            } by {
                let was = state.workers[i];
                if i == index {
                    match (before.phase, event) {
                        (WorkerPhase::Fetching { height }, WorkerEvent::NotFound) => {
                            assert(before.held() == Some(height));
                        },
                        _ => {},
                    }
                }
            }
            assert forall|h: usize|
                next.sequencer.first <= h < next.counter && h < tip implies #[trigger] accounted_for(
                next,
                h,
            ) by {
                if h < state.counter {
                    assert(accounted_for(state, h));
                    if held_by_a_worker(state, h) {
                        let i = choose|i: int|
                            0 <= i < state.workers.len() && (#[trigger] state.workers[i]).held()
                                == Some(h);
                        if i == index {
                            if next.workers[index].held() == Some(h) {
                                assert(held_by_a_worker(next, h));
                            } else {
                                assert(next.channel.contains(h));
                            }
                        } else {
                            assert(next.workers[i] == state.workers[i]);
                        }
                    }
                } else {
                    assert(next.workers[index].held() == Some(h));
                }
            }
        },
        PipelineStep::Sequencer(event) => {
            if state.sequencer.phase is Receiving && event is SourceClosed {
                nothing_waits_once_all_is_delivered(state, tip);
            }
            assert forall|h: usize|
                next.sequencer.first <= h < next.counter && h < tip implies #[trigger] accounted_for(
                next,
                h,
            ) by {
                assert(accounted_for(state, h));
                if held_by_a_worker(state, h) {
                    let i = choose|i: int|
                        0 <= i < state.workers.len() && (#[trigger] state.workers[i]).held()
                            == Some(h);
                    assert(held_by_a_worker(next, h));
                }
            }
        },
    }
}

proof fn orderly_runs_stay_on_course<B>(
    start: PipelineModel<B>,
    steps: Seq<PipelineStep<B>>,
    tip: usize,
)
    requires
        on_course(start, tip),
        possible(start, steps),
        orderly_run(start, steps, tip),
    ensures
        on_course(after(start, steps), tip),
    decreases steps.len(),
{
    if steps.len() > 0 {
        orderly_runs_stay_on_course(start, steps.drop_last(), tip);
        orderly_step_stays_on_course(after(start, steps.drop_last()), steps.last(), tip);
    }
}

/// End-of-chain convergence: in a run without failures from `first`
/// against a chain that ends below `tip`, once every worker has stopped at
/// the end of the chain, the channel is empty and the sequencer waits for
/// input, everything up to the last block of the chain is committed,
/// nothing is left on the shelf, and the sequencer finishes without
/// applying anything more.
pub proof fn catch_up_ends_at_the_tip<B>(
    first: usize,
    lookahead: usize,
    cancellable: bool,
    worker_count: nat,
    interval_ms: u128,
    steps: Seq<PipelineStep<B>>,
    tip: usize,
)
    requires
        first <= tip,
        worker_count > 0,
        possible(
            PipelineModel::<B>::init(first, lookahead, cancellable, worker_count, interval_ms),
            steps,
        ),
        orderly_run(
            PipelineModel::<B>::init(first, lookahead, cancellable, worker_count, interval_ms),
            steps,
            tip,
        ),
        all_workers_done(
            after(
                PipelineModel::<B>::init(first, lookahead, cancellable, worker_count, interval_ms),
                steps,
            ),
        ),
        after(
            PipelineModel::<B>::init(first, lookahead, cancellable, worker_count, interval_ms),
            steps,
        ).channel =~= Set::empty(),
        after(
            PipelineModel::<B>::init(first, lookahead, cancellable, worker_count, interval_ms),
            steps,
        ).sequencer.phase is Receiving,
    ensures
        ({
            let end = after(
                PipelineModel::<B>::init(first, lookahead, cancellable, worker_count, interval_ms),
                steps,
            );
            &&& end.sequencer.frontier == tip
            &&& end.sequencer.committed_height() == tip - 1
            &&& end.sequencer.shelf =~= Map::empty()
            &&& end.sequencer.step(SequencerEvent::SourceClosed).1 == SequencerAction::<
                B,
            >::Finish { frontier: tip }
        }),
{
    let start = PipelineModel::<B>::init(first, lookahead, cancellable, worker_count, interval_ms);
    init_establishes_inv::<B>(first, lookahead, cancellable, worker_count, interval_ms);
    orderly_runs_stay_on_course(start, steps, tip);
    runs_preserve_inv(start, steps);
    let end = after(start, steps);
    assert(end.workers[0].phase is Done);
    nothing_waits_once_all_is_delivered(end, tip);
}

/// Whether a worker will never claim again: it has stopped, or it holds a
/// height at or past the end of the chain.
pub open spec fn spent(worker: WorkerModel, tip: usize) -> bool {
    worker.phase is Done || (worker.held() matches Some(height) && height >= tip)
}

/// How many of `workers` are spent.
pub open spec fn spent_count(workers: Seq<WorkerModel>, tip: usize) -> nat
    decreases workers.len(),
{
    if workers.len() == 0 {
        0
    } else {
        spent_count(workers.drop_last(), tip) + (if spent(workers.last(), tip) {
            1nat
        } else {
            0nat
        })
    }
}

proof fn spent_count_is_bounded(workers: Seq<WorkerModel>, tip: usize)
    ensures
        spent_count(workers, tip) <= workers.len(),
    decreases workers.len(),
{
    if workers.len() > 0 {
        spent_count_is_bounded(workers.drop_last(), tip);
    }
}

proof fn spent_count_after_update(
    workers: Seq<WorkerModel>,
    index: int,
    moved: WorkerModel,
    tip: usize,
)
    requires
        0 <= index < workers.len(),
    ensures
        spent_count(workers.update(index, moved), tip) + (if spent(workers[index], tip) {
            1nat
        } else {
            0nat
        }) == spent_count(workers, tip) + (if spent(moved, tip) {
            1nat
        } else {
            0nat
        }),
    decreases workers.len(),
{
    let updated = workers.update(index, moved);
    if index == workers.len() - 1 {
        assert(updated.drop_last() =~= workers.drop_last());
    } else {
        assert(updated.drop_last() =~= workers.drop_last().update(index, moved));
        spent_count_after_update(workers.drop_last(), index, moved, tip);
    }
}

/// What an orderly run keeps besides staying on course: the claims past
/// the end of the chain are no more than the spent workers.
spec fn claims_covered<B>(state: PipelineModel<B>, tip: usize) -> bool {
    state.counter <= tip + spent_count(state.workers, tip)
}

proof fn orderly_step_keeps_claims_covered<B>(
    state: PipelineModel<B>,
    step: PipelineStep<B>,
    tip: usize,
)
    requires
        on_course(state, tip),
        claims_covered(state, tip),
        state.sequencer.first <= tip,
        state.enabled(step),
        orderly(state, step, tip),
    ensures
        claims_covered(state.next(step), tip),
{
    match step {
        PipelineStep::Worker(index, event) => {
            let before = state.workers[index];
            let moved = before.step(event).0;
            spent_count_after_update(state.workers, index, moved, tip);
        },
        PipelineStep::Sequencer(event) => {
            assert(state.next(step).workers == state.workers);
        },
    }
}

proof fn orderly_runs_keep_claims_covered<B>(
    start: PipelineModel<B>,
    steps: Seq<PipelineStep<B>>,
    tip: usize,
)
    requires
        on_course(start, tip),
        claims_covered(start, tip),
        start.sequencer.first <= tip,
        possible(start, steps),
        orderly_run(start, steps, tip),
    ensures
        on_course(after(start, steps), tip),
        claims_covered(after(start, steps), tip),
        after(start, steps).sequencer.first == start.sequencer.first,
    decreases steps.len(),
{
    if steps.len() > 0 {
        orderly_runs_keep_claims_covered(start, steps.drop_last(), tip);
        let before = after(start, steps.drop_last());
        orderly_step_stays_on_course(before, steps.last(), tip);
        orderly_step_keeps_claims_covered(before, steps.last(), tip);
        match steps.last() {
            PipelineStep::Worker(index, event) => {},
            PipelineStep::Sequencer(event) => {
                crate::ordering::step_preserves_wf(before.sequencer, event);
            },
        }
    }
}

/// No worker is stuck at the end of the chain: in a run without failures
/// whose pool is no larger than the lookahead, never more heights are
/// claimed past the end of the chain than there are workers, and once
/// the whole chain is committed, every height that a worker still holds is
/// within the lookahead of the frontier, so that its fetch is let through
/// and meets the end of the chain.
pub proof fn no_worker_is_stuck_at_the_tip<B>(
    first: usize,
    lookahead: usize,
    cancellable: bool,
    worker_count: nat,
    interval_ms: u128,
    steps: Seq<PipelineStep<B>>,
    tip: usize,
    index: int,
)
    requires
        first <= tip,
        worker_count <= lookahead,
        0 <= index < worker_count,
        possible(
            PipelineModel::<B>::init(first, lookahead, cancellable, worker_count, interval_ms),
            steps,
        ),
        orderly_run(
            PipelineModel::<B>::init(first, lookahead, cancellable, worker_count, interval_ms),
            steps,
            tip,
        ),
    ensures
        ({
            let state = after(
                PipelineModel::<B>::init(first, lookahead, cancellable, worker_count, interval_ms),
                steps,
            );
            &&& state.counter <= tip + worker_count
            &&& state.sequencer.frontier == tip ==> match state.workers[index].held() {
                Some(height) => within_lookahead(tip as nat, lookahead as nat, height as nat),
                None => true,
            }
        }),
{
    let start = PipelineModel::<B>::init(first, lookahead, cancellable, worker_count, interval_ms);
    init_establishes_inv::<B>(first, lookahead, cancellable, worker_count, interval_ms);
    orderly_runs_keep_claims_covered(start, steps, tip);
    runs_preserve_inv(start, steps);
    let state = after(start, steps);
    spent_count_is_bounded(state.workers, tip);
    let worker = state.workers[index];
}

} // verus!
