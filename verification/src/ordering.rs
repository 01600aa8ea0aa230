//! What the sequencer guarantees over whole runs, whatever order the
//! batches arrive in.

use crate::sequencer::{
    SequencerAction, SequencerError, SequencerEvent, SequencerModel, SequencerPhase,
};
use vstd::prelude::*;

verus! {

/// The state a sequencer reaches from `start` after `events`, one step each.
pub open spec fn run<B>(start: SequencerModel<B>, events: Seq<SequencerEvent<B>>) -> SequencerModel<
    B,
>
    decreases events.len(),
{
    if events.len() == 0 {
        start
    } else {
        run(start, events.drop_last()).step(events.last()).0
    }
}

/// The heights of the batches handed out for application during `events`,
/// in the order in which they were handed out.
pub open spec fn applied_heights<B>(
    start: SequencerModel<B>,
    events: Seq<SequencerEvent<B>>,
) -> Seq<usize>
    decreases events.len(),
{
    if events.len() == 0 {
        Seq::empty()
    } else {
        let before = applied_heights(start, events.drop_last());
        match run(start, events.drop_last()).step(events.last()).1 {
            SequencerAction::Apply(pending) => before.push(pending.height),
            _ => before,
        }
    }
}

/// The heights of all batches that `events` delivered.
pub open spec fn delivered<B>(events: Seq<SequencerEvent<B>>) -> Set<usize>
    decreases events.len(),
{
    if events.len() == 0 {
        Set::empty()
    } else {
        match events.last() {
            SequencerEvent::Batch(pending) => delivered(events.drop_last()).insert(pending.height),
            _ => delivered(events.drop_last()),
        }
    }
}

/// The lowest height that has not been handed out for application.
pub open spec fn next_to_apply<B>(state: SequencerModel<B>) -> int {
    if state.applying() {
        state.frontier + 1
    } else {
        state.frontier as int
    }
}

/// A step keeps a well-formed state well-formed.
pub proof fn step_preserves_wf<B>(state: SequencerModel<B>, event: SequencerEvent<B>)
    requires
        state.wf(),
    ensures
        state.step(event).0.wf(),
        state.step(event).0.first == state.first,
        state.step(event).0.interval_ms == state.interval_ms,
        state.frontier <= state.step(event).0.frontier,
{
    let next = state.step(event).0;
    match state.phase {
        SequencerPhase::Receiving => match event {
            SequencerEvent::Batch(pending) => {
                let shelved = state.shelve(pending.height, pending.batch);
                if shelved.shelf.contains_key(state.frontier) {
                    assert(next.shelf.dom() =~= shelved.shelf.dom().remove(state.frontier));
                }
            },
            _ => {},
        },
        SequencerPhase::Publishing => match event {
            SequencerEvent::Published => {
                if state.shelf.contains_key(state.frontier) {
                    assert(next.shelf.dom() =~= state.shelf.dom().remove(state.frontier));
                }
            },
            _ => {},
        },
        _ => {},
    }
}

/// Every state of a run is well-formed, and the frontier never moves back.
pub proof fn run_preserves_wf<B>(start: SequencerModel<B>, events: Seq<SequencerEvent<B>>)
    requires
        start.wf(),
    ensures
        run(start, events).wf(),
        run(start, events).first == start.first,
        start.frontier <= run(start, events).frontier,
    decreases events.len(),
{
    if events.len() > 0 {
        run_preserves_wf(start, events.drop_last());
        step_preserves_wf(run(start, events.drop_last()), events.last());
    }
}

proof fn applied_heights_are_consecutive<B>(
    first: usize,
    interval_ms: u128,
    events: Seq<SequencerEvent<B>>,
)
    ensures
        ({
            let start = SequencerModel::<B>::init(first, interval_ms);
            let end = run(start, events);
            let applied = applied_heights(start, events);
            &&& forall|i: int| 0 <= i < applied.len() ==> applied[i] == first + i
            &&& !(end.phase is Failed) ==> applied.len() == next_to_apply(end) - first
        }),
    decreases events.len(),
{
    let start = SequencerModel::<B>::init(first, interval_ms);
    if events.len() > 0 {
        let before = run(start, events.drop_last());
        applied_heights_are_consecutive::<B>(first, interval_ms, events.drop_last());
        run_preserves_wf(start, events.drop_last());
        step_preserves_wf(before, events.last());
        if before.phase is Receiving && events.last() is SourceClosed {
            assert(!(before.step(events.last()).1 is Apply));
        }
    }
}

/// The store sees the heights `first`, `first + 1`, `first + 2`, … in exactly
/// that order, none skipped and none repeated, whatever the order in which
/// the batches arrive and whatever else happens during the run.
pub proof fn applies_in_ascending_order<B>(
    first: usize,
    interval_ms: u128,
    events: Seq<SequencerEvent<B>>,
)
    ensures
        forall|i: int|
            0 <= i < applied_heights(SequencerModel::<B>::init(first, interval_ms), events).len()
                ==> #[trigger] applied_heights(
                SequencerModel::<B>::init(first, interval_ms),
                events,
            )[i] == first + i,
{
    applied_heights_are_consecutive::<B>(first, interval_ms, events);
}

/// While a sequencer waits for input, the frontier is the lowest height of
/// the run that has not been delivered: everything below it has been
/// delivered and applied, and the shelf holds exactly the deliveries above it.
pub proof fn frontier_is_first_gap<B>(
    first: usize,
    interval_ms: u128,
    events: Seq<SequencerEvent<B>>,
)
    requires
        run(SequencerModel::<B>::init(first, interval_ms), events).phase is Receiving,
    ensures
        ({
            let end = run(SequencerModel::<B>::init(first, interval_ms), events);
            let arrived = delivered(events);
            &&& forall|h: usize| first <= h < end.frontier ==> arrived.contains(h)
            &&& arrived.contains(end.frontier) ==> end.frontier == usize::MAX
            &&& forall|h: usize|
                end.shelf.contains_key(h) <==> arrived.contains(h) && end.frontier < h
                    < usize::MAX
            &&& applied_heights(SequencerModel::<B>::init(first, interval_ms), events).len()
                == end.frontier - first
        }),
{
    shelf_holds_deliveries_ahead::<B>(first, interval_ms, events);
    applied_heights_are_consecutive::<B>(first, interval_ms, events);
    let start = SequencerModel::<B>::init(first, interval_ms);
    run_preserves_wf(start, events);
}

/// Whether the shelf of `state` holds exactly the heights of `arrived` that
/// have not been handed out, and everything below those has arrived.
spec fn tracks<B>(state: SequencerModel<B>, arrived: Set<usize>) -> bool {
    &&& forall|h: usize|
        state.first <= h < next_to_apply(state) ==> #[trigger] arrived.contains(h)
    &&& forall|h: usize| #[trigger]
        state.shelf.contains_key(h) ==> arrived.contains(h) && next_to_apply(state) <= h
    &&& forall|h: usize|
        #[trigger] arrived.contains(h) && next_to_apply(state) <= h < usize::MAX
            ==> state.shelf.contains_key(h)
}

/// The heights that have arrived once `event` has been handled.
spec fn arrived_after<B>(arrived: Set<usize>, event: SequencerEvent<B>) -> Set<usize> {
    match event {
        SequencerEvent::Batch(pending) => arrived.insert(pending.height),
        _ => arrived,
    }
}

proof fn step_keeps_track<B>(
    state: SequencerModel<B>,
    arrived: Set<usize>,
    event: SequencerEvent<B>,
)
    requires
        state.wf(),
        tracks(state, arrived),
        !(state.phase is Failed || state.phase is Finished),
        !(state.step(event).0.phase is Failed || state.step(event).0.phase is Finished),
    ensures
        tracks(state.step(event).0, arrived_after(arrived, event)),
{
    let next = state.step(event).0;
    let later = arrived_after(arrived, event);
    match state.phase {
        SequencerPhase::Receiving => match event {
            SequencerEvent::Batch(pending) => {
                assert forall|h: usize|
                    next.first <= h < next_to_apply(next) implies #[trigger] later.contains(
                    h,
                ) by {
                    if h != pending.height {
                        assert(arrived.contains(h));
                    }
                }
                assert forall|h: usize| #[trigger]
                    next.shelf.contains_key(h) implies later.contains(h) && next_to_apply(next)
                    <= h by {
                    if h != pending.height {
                        assert(state.shelf.contains_key(h));
                    }
                }
                assert forall|h: usize|
                    #[trigger] later.contains(h) && next_to_apply(next) <= h
                        < usize::MAX implies next.shelf.contains_key(h) by {
                    if h != pending.height {
                        assert(arrived.contains(h));
                    }
                }
            },
            _ => {},
        },
        SequencerPhase::Applying => {},
        SequencerPhase::Flushing => {},
        SequencerPhase::Publishing => {
            assert forall|h: usize|
                next.first <= h < next_to_apply(next) implies #[trigger] later.contains(h) by {
                if h == state.frontier {
                    assert(state.shelf.contains_key(h));
                }
            }
        },
        _ => {},
    }
}

proof fn shelf_holds_deliveries_ahead<B>(
    first: usize,
    interval_ms: u128,
    events: Seq<SequencerEvent<B>>,
)
    ensures
        ({
            let end = run(SequencerModel::<B>::init(first, interval_ms), events);
            !(end.phase is Failed || end.phase is Finished) ==> tracks(end, delivered(events))
        }),
    decreases events.len(),
{
    let start = SequencerModel::<B>::init(first, interval_ms);
    if events.len() > 0 {
        let before = run(start, events.drop_last());
        shelf_holds_deliveries_ahead::<B>(first, interval_ms, events.drop_last());
        run_preserves_wf(start, events.drop_last());
        if !(run(start, events).phase is Failed || run(start, events).phase is Finished) {
            step_keeps_track(before, delivered(events.drop_last()), events.last());
        }
    }
}

/// When the workers delivered exactly the heights `first .. first + count`,
/// in any order, a sequencer that waits for input has committed all of
/// them and its shelf is empty: the highest committed height is the last
/// height that was fetched.
pub proof fn contiguous_deliveries_are_all_committed<B>(
    first: usize,
    interval_ms: u128,
    events: Seq<SequencerEvent<B>>,
    count: nat,
)
    requires
        run(SequencerModel::<B>::init(first, interval_ms), events).phase is Receiving,
        first + count < usize::MAX,
        forall|h: usize| delivered(events).contains(h) <==> first <= h < first + count,
    ensures
        ({
            let end = run(SequencerModel::<B>::init(first, interval_ms), events);
            &&& end.frontier == first + count
            &&& end.committed_height() == first + count - 1
            &&& end.shelf =~= Map::empty()
            &&& end.step(SequencerEvent::SourceClosed).1 == SequencerAction::<B>::Finish {
                frontier: (first + count) as usize,
            }
        }),
{
    frontier_is_first_gap::<B>(first, interval_ms, events);
    let end = run(SequencerModel::<B>::init(first, interval_ms), events);
    if end.frontier < first + count {
        assert(delivered(events).contains(end.frontier));
    }
    if end.frontier > first + count {
        let gap = (first + count) as usize;
        assert(delivered(events).contains(gap));
    }
    assert forall|h: usize| !end.shelf.contains_key(h) by {
        if end.shelf.contains_key(h) {
            assert(delivered(events).contains(h));
        }
    }
}

/// A finished or failed sequencer stays as it is and hands out no further
/// batch, whatever arrives.
pub proof fn nothing_is_applied_after_the_end<B>(
    state: SequencerModel<B>,
    event: SequencerEvent<B>,
)
    requires
        state.phase is Finished || state.phase is Failed,
    ensures
        state.step(event).0 == state,
        !(state.step(event).1 is Apply),
{
}

/// A height counts as committed only after the store has applied it: the
/// frontier moves by one step, past the height in application, and only
/// when the store reports the application, or the flush that follows it.
pub proof fn frontier_moves_only_after_application<B>(
    state: SequencerModel<B>,
    event: SequencerEvent<B>,
)
    requires
        state.wf(),
    ensures
        ({
            let next = state.step(event);
            &&& next.0.frontier == state.frontier || next.0.frontier == state.frontier + 1
            &&& next.0.frontier != state.frontier ==> {
                &&& next.1 == SequencerAction::<B>::Publish { frontier: next.0.frontier }
                &&& (state.phase is Applying && event is Applied) || (state.phase is Flushing
                    && event is Flushed)
            }
            &&& next.1 is Publish ==> next.0.frontier == state.frontier + 1
        }),
{
}

/// When the source closes, the run finishes if and only if nothing waits
/// on the shelf; with a batch on the shelf it fails and names the height
/// that never came.
pub proof fn a_gap_fails_the_run<B>(state: SequencerModel<B>)
    requires
        state.wf(),
        state.phase is Receiving,
    ensures
        ({
            let closed = state.step(SequencerEvent::SourceClosed);
            if state.shelf.dom() =~= Set::empty() {
                &&& closed.1 == SequencerAction::<B>::Finish { frontier: state.frontier }
                &&& closed.0.phase is Finished
            } else {
                &&& closed.1 == SequencerAction::<B>::Abort(
                    SequencerError::Gap { missing: state.frontier },
                )
                &&& closed.0.phase == SequencerPhase::Failed(
                    SequencerError::Gap { missing: state.frontier },
                )
                &&& !state.shelf.contains_key(state.frontier)
            }
        }),
{
    if state.shelf.len() == 0 {
        state.shelf.dom().lemma_len0_is_empty();
    }
}

/// A run finishes only when every height that was delivered is committed:
/// if the sequencer answers the end of the source with `Finish`, no
/// delivery from the first height on lies at or above the frontier, and the
/// heights applied are exactly those from the first height up to the
/// frontier.
pub proof fn a_finished_run_has_committed_every_delivery<B>(
    first: usize,
    interval_ms: u128,
    events: Seq<SequencerEvent<B>>,
)
    requires
        run(SequencerModel::<B>::init(first, interval_ms), events).phase is Receiving,
        run(SequencerModel::<B>::init(first, interval_ms), events).step(
            SequencerEvent::SourceClosed,
        ).1 is Finish,
    ensures
        ({
            let end = run(SequencerModel::<B>::init(first, interval_ms), events);
            &&& forall|h: usize|
                #[trigger] delivered(events).contains(h) && first <= h < usize::MAX ==> h
                    < end.frontier
            &&& applied_heights(SequencerModel::<B>::init(first, interval_ms), events).len()
                == end.frontier - first
        }),
{
    let start = SequencerModel::<B>::init(first, interval_ms);
    let end = run(start, events);
    frontier_is_first_gap::<B>(first, interval_ms, events);
    run_preserves_wf(start, events);
    end.shelf.dom().lemma_len0_is_empty();
    assert forall|h: usize|
        #[trigger] delivered(events).contains(h) && first <= h < usize::MAX implies h
        < end.frontier by {
        if h > end.frontier {
            assert(end.shelf.contains_key(h));
        }
    }
}

} // verus!
