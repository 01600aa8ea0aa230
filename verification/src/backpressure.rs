//! How far the claims can run ahead of the commits.
//!
//! The throttle holds back fetches, not claims: a worker may hold a height
//! that is far past the lookahead while it waits. But a waiting worker
//! claims nothing more, so the claims run ahead of the frontier by the
//! lookahead and one height per worker at the most.

use crate::pipeline::{
    after, init_establishes_inv, next_preserves_inv, possible, runs_preserve_inv, PipelineModel,
    PipelineStep,
};
use crate::worker::{WorkerEvent, WorkerPhase};
use vstd::prelude::*;

verus! {

/// Whether the event of a worker's step answers the action the worker
/// waits on while the committed-height signal stands. The driver of a
/// worker hands it nothing else, short of the loss of the signal, which
/// ends the run.
pub open spec fn answers<B>(state: PipelineModel<B>, step: PipelineStep<B>) -> bool {
    match step {
        PipelineStep::Worker(index, event) => {
            &&& 0 <= index < state.workers.len()
            &&& match (state.workers[index].phase, event) {
                (WorkerPhase::Claiming, WorkerEvent::Claimed { height }) => true,
                (WorkerPhase::Claiming, WorkerEvent::Exhausted) => true,
                (WorkerPhase::Throttled { height }, WorkerEvent::Frontier { frontier }) => true,
                (WorkerPhase::Fetching { height }, WorkerEvent::Fetched) => true,
                (WorkerPhase::Fetching { height }, WorkerEvent::NotFound) => true,
                (WorkerPhase::Fetching { height }, WorkerEvent::TransportFailed) => true,
                (WorkerPhase::Building { height }, WorkerEvent::Built) => true,
                (WorkerPhase::Building { height }, WorkerEvent::BuildFailed) => true,
                (WorkerPhase::Sending { height }, WorkerEvent::Sent) => true,
                (WorkerPhase::Sending { height }, WorkerEvent::ChannelClosed) => true,
                (WorkerPhase::Polling, WorkerEvent::Shutdown { requested }) => true,
                _ => false,
            }
        },
        PipelineStep::Sequencer(event) => true,
    }
}

/// Whether every worker's step in the run from `start` answers the
/// worker's action.
pub open spec fn answered<B>(start: PipelineModel<B>, steps: Seq<PipelineStep<B>>) -> bool
    decreases steps.len(),
{
    steps.len() > 0 ==> {
        &&& answered(start, steps.drop_last())
        &&& answers(after(start, steps.drop_last()), steps.last())
    }
}

/// Whether the worker with index `index` waits at the throttle with `height`.
pub open spec fn waits_with<B>(state: PipelineModel<B>, index: int, height: usize) -> bool {
    0 <= index < state.workers.len() && state.workers[index].phase == (WorkerPhase::Throttled {
        height,
    })
}

/// Whether some worker waits at the throttle with `height`.
pub open spec fn waited_with<B>(state: PipelineModel<B>, height: usize) -> bool {
    exists|index: int| waits_with(state, index, height)
}

/// Whether a claimed height that is past the lookahead is in the hands of
/// a worker that waits at the throttle.
pub open spec fn held_back<B>(state: PipelineModel<B>, height: usize) -> bool {
    state.sequencer.frontier + state.lookahead <= height < state.counter ==> waited_with(
        state,
        height,
    )
}

/// What holds while every event answers its action: each claimed height
/// past the lookahead waits at the throttle.
pub open spec fn claims_held_back<B>(state: PipelineModel<B>) -> bool {
    &&& state.inv()
    &&& forall|height: usize| #[trigger] held_back(state, height)
}

proof fn answered_step_keeps_claims_held_back<B>(state: PipelineModel<B>, step: PipelineStep<B>)
    requires
        claims_held_back(state),
        state.enabled(step),
        answers(state, step),
    ensures
        claims_held_back(state.next(step)),
{
    let next = state.next(step);
    next_preserves_inv(state, step);
    match step {
        PipelineStep::Worker(index, event) => {
            assert forall|height: usize| #[trigger] held_back(next, height) by {
                if next.sequencer.frontier + next.lookahead <= height < next.counter {
                    if height < state.counter {
                        assert(held_back(state, height));
                        let holder = choose|holder: int| waits_with(state, holder, height);
                        if holder == index {
                            // had the throttle let the height through, the height
                            // would be within the lookahead
                            assert(next.workers[index].in_flight() is None);
                            assert(waits_with(next, index, height));
                        } else {
                            assert(next.workers[holder] == state.workers[holder]);
                            assert(waits_with(next, holder, height));
                        }
                    } else {
                        assert(waits_with(next, index, height));
                    }
                }
            }
        },
        PipelineStep::Sequencer(event) => {
            crate::ordering::step_preserves_wf(state.sequencer, event);
            assert forall|height: usize| #[trigger] held_back(next, height) by {
                if next.sequencer.frontier + next.lookahead <= height < next.counter {
                    assert(held_back(state, height));
                    let holder = choose|holder: int| waits_with(state, holder, height);
                    assert(waits_with(next, holder, height));
                }
            }
        },
    }
}

proof fn answered_runs_keep_claims_held_back<B>(
    start: PipelineModel<B>,
    steps: Seq<PipelineStep<B>>,
)
    requires
        claims_held_back(start),
        possible(start, steps),
        answered(start, steps),
    ensures
        claims_held_back(after(start, steps)),
    decreases steps.len(),
{
    if steps.len() > 0 {
        answered_runs_keep_claims_held_back(start, steps.drop_last());
        answered_step_keeps_claims_held_back(after(start, steps.drop_last()), steps.last());
    }
}

/// When every height from `low` up to `high` has a worker of its own,
/// there are no more such heights than workers.
proof fn no_more_waiting_heights_than_workers<B>(state: PipelineModel<B>, low: int, high: int)
    requires
        0 <= low <= high <= usize::MAX,
        forall|height: usize| low <= height < high ==> #[trigger] waited_with(state, height),
    ensures
        high - low <= state.workers.len(),
{
    let heights = vstd::set_lib::set_int_range(low, high);
    let holder = |height: int|
        choose|index: int| #[trigger] waits_with(state, index, height as usize);
    let holders = heights.map(holder);
    vstd::set_lib::lemma_int_range(low, high);
    assert forall|h: int| heights.contains(h) implies waits_with(
        state,
        #[trigger] holder(h),
        h as usize,
    ) by {
        let height = h as usize;
        assert(waited_with(state, height));
    }
    assert(vstd::relations::injective_on(holder, heights)) by {
        assert forall|a: int, b: int|
            heights.contains(a) && heights.contains(b) && #[trigger] holder(a) == #[trigger] holder(
                b,
            ) implies a == b by {
            assert(waits_with(state, holder(a), a as usize));
            assert(waits_with(state, holder(b), b as usize));
        }
    }
    vstd::set_lib::lemma_map_size(heights, holders, holder);
    vstd::set_lib::lemma_int_range(0, state.workers.len() as int);
    assert(holders.subset_of(vstd::set_lib::set_int_range(0, state.workers.len() as int))) by {
        assert forall|index: int| holders.contains(index) implies vstd::set_lib::set_int_range(
            0,
            state.workers.len() as int,
        ).contains(index) by {
            let h = choose|h: int| heights.contains(h) && holder(h) == index;
            assert(waits_with(state, holder(h), h as usize));
        }
    }
    vstd::set_lib::lemma_len_subset(
        holders,
        vstd::set_lib::set_int_range(0, state.workers.len() as int),
    );
}

/// Backpressure on claims: in every run in which each event answers its
/// action and the signal stands, the claims stay within the lookahead and one height per
/// worker of the frontier, and so does every height that a worker holds,
/// waiting or not: none is more than `lookahead + worker_count` above the
/// last committed height.
pub proof fn claims_stay_close_to_the_frontier<B>(
    first: usize,
    lookahead: usize,
    cancellable: bool,
    worker_count: nat,
    interval_ms: u128,
    steps: Seq<PipelineStep<B>>,
    index: int,
)
    requires
        0 <= index < worker_count,
        possible(
            PipelineModel::<B>::init(first, lookahead, cancellable, worker_count, interval_ms),
            steps,
        ),
        answered(
            PipelineModel::<B>::init(first, lookahead, cancellable, worker_count, interval_ms),
            steps,
        ),
    ensures
        ({
            let state = after(
                PipelineModel::<B>::init(first, lookahead, cancellable, worker_count, interval_ms),
                steps,
            );
            &&& state.counter <= state.sequencer.frontier + lookahead + worker_count
            &&& match state.workers[index].held() {
                Some(height) => height <= state.sequencer.committed_height() + lookahead
                    + worker_count,
                None => true,
            }
        }),
{
    let start = PipelineModel::<B>::init(first, lookahead, cancellable, worker_count, interval_ms);
    init_establishes_inv::<B>(first, lookahead, cancellable, worker_count, interval_ms);
    assert forall|height: usize| #[trigger] held_back(start, height) by {}
    answered_runs_keep_claims_held_back(start, steps);
    runs_preserve_inv(start, steps);
    let state = after(start, steps);
    let low = state.sequencer.frontier + lookahead;
    if low < state.counter {
        assert forall|height: usize| low <= height < state.counter implies #[trigger] waited_with(
            state,
            height,
        ) by {
            assert(held_back(state, height));
        }
        no_more_waiting_heights_than_workers(state, low, state.counter as int);
    }
    let worker = state.workers[index];
}

} // verus!
