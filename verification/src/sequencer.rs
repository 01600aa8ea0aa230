//! The commit sequencer: batches arrive in any order and leave in height order.
//!
//! The sequencer owns the shelf of batches that have arrived ahead of their
//! turn. It never touches the store or the channels itself: each call of
//! [`CommitSequencer::step`] takes what just happened outside and answers with
//! the one thing to do next. A step consumes the sequencer and returns its
//! successor, so that a batch moves from the event to the shelf and from
//! the shelf to the action without ever being copied.

use std::collections::HashMap;
use vstd::prelude::*;

verus! {

broadcast use vstd::std_specs::hash::group_hash_axioms;

/// A batch of store mutations together with the height of the block it
/// was built from. The sequencer moves the payload and never looks inside.
#[derive(Debug)]
pub struct PendingBatch<B> {
    pub height: usize,
    pub batch: B,
}

/// Why a sequencer gave up.
#[derive(Clone, Copy, Debug, PartialEq, Eq, Structural)]
pub enum SequencerError {
    /// The store refused a batch or a flush.
    Store,
    /// Nobody listens to the committed-height signal any more.
    Signal,
    /// An event arrived that does not answer the action last handed out.
    Protocol,
    /// The source ran dry while batches waited on the shelf: the batch for
    /// the height `missing` never came, and nothing above it was committed.
    Gap { missing: usize },
}

/// What the sequencer is waiting for.
#[derive(Clone, Copy, Debug, PartialEq, Eq, Structural)]
pub enum SequencerPhase {
    /// Waiting for the next batch from the workers.
    Receiving,
    /// The batch at the frontier is being applied to the store.
    Applying,
    /// A throughput report is due and the store is being flushed.
    Flushing,
    /// The new frontier is being published to the workers.
    Publishing,
    /// The source ran dry with nothing left on the shelf; the run is over.
    Finished,
    /// The run was aborted.
    Failed(SequencerError),
}

/// Progress since the previous report, handed out when a flush is due.
#[derive(Clone, Copy, Debug, PartialEq, Eq, Structural)]
pub struct ThroughputReport {
    /// Blocks applied since the previous report.
    pub blocks: usize,
    /// Milliseconds since the previous report.
    pub elapsed_ms: u128,
    /// The height that was applied last.
    pub height: usize,
    /// Batches waiting on the shelf.
    pub shelved: usize,
}

/// What happened outside since the last action.
#[derive(Debug)]
pub enum SequencerEvent<B> {
    /// A worker's batch came out of the channel.
    Batch(PendingBatch<B>),
    /// Every worker has hung up and the channel is empty.
    SourceClosed,
    /// The store applied the batch; `elapsed_ms` is the time since the last report.
    Applied { elapsed_ms: u128 },
    /// The store was flushed.
    Flushed,
    /// The frontier was published.
    Published,
    /// The store failed to apply or to flush.
    StoreFailed,
    /// The committed-height signal has no receivers left.
    SignalClosed,
}

/// What to do next.
#[derive(Debug)]
pub enum SequencerAction<B> {
    /// Wait for the next batch.
    Receive,
    /// Apply this batch to the store.
    Apply(PendingBatch<B>),
    /// Emit the report, flush the store and restart the report timer.
    Flush(ThroughputReport),
    /// Publish the new frontier to the workers.
    Publish { frontier: usize },
    /// Stop: every batch that arrived is committed, and `frontier` is the
    /// first height that never came.
    Finish { frontier: usize },
    /// Stop with an error.
    Abort(SequencerError),
}

/// The sequencer as a mathematical value.
pub struct SequencerModel<B> {
    /// The first height of this run.
    pub first: usize,
    /// The next height to commit: every height from `first` up to here,
    /// exclusive, has been committed.
    pub frontier: usize,
    /// Batches that arrived ahead of their turn, by height.
    pub shelf: Map<usize, B>,
    pub phase: SequencerPhase,
    /// Blocks applied since the last report.
    pub unreported: usize,
    /// A report is due when more than this many milliseconds have passed.
    pub interval_ms: u128,
}

impl<B> SequencerModel<B> {
    /// The state before anything has arrived.
    pub open spec fn init(first: usize, interval_ms: u128) -> Self {
        SequencerModel {
            first,
            frontier: first,
            shelf: Map::empty(),
            phase: SequencerPhase::Receiving,
            unreported: 0,
            interval_ms,
        }
    }

    /// The highest committed height, one below `first` before the first commit.
    pub open spec fn committed_height(self) -> int {
        self.frontier - 1
    }

    /// Whether the batch at the frontier has been handed out for application
    /// and the frontier has not moved past it yet.
    pub open spec fn applying(self) -> bool {
        self.phase is Applying || self.phase is Flushing
    }

    /// What holds of every state a sequencer can reach.
    pub open spec fn wf(self) -> bool {
        &&& self.first <= self.frontier
        &&& self.shelf.dom().finite()
        &&& forall|h: usize| #[trigger]
            self.shelf.contains_key(h) ==> self.frontier <= h < usize::MAX
        &&& self.applying() ==> self.frontier < usize::MAX
        &&& (self.applying() || self.phase is Receiving) ==> !self.shelf.contains_key(
            self.frontier,
        )
        &&& (self.phase is Receiving || self.phase is Applying || self.phase is Publishing)
            ==> self.unreported <= self.frontier - self.first
        &&& self.phase is Finished ==> self.shelf.len() == 0
    }

    /// Whether a batch for `height` can still be committed.
    pub open spec fn accepts(self, height: usize) -> bool {
        self.frontier <= height < usize::MAX
    }

    /// Puts an arrival on the shelf. A batch below the frontier is stale and
    /// dropped; a second batch for a shelved height replaces the first.
    pub open spec fn shelve(self, height: usize, batch: B) -> Self {
        if self.accepts(height) {
            SequencerModel { shelf: self.shelf.insert(height, batch), ..self }
        } else {
            self
        }
    }

    /// Hands out the batch at the frontier if it is on the shelf, and asks
    /// for more input otherwise.
    pub open spec fn dispatch(self) -> (Self, SequencerAction<B>) {
        if self.shelf.contains_key(self.frontier) {
            (
                SequencerModel {
                    shelf: self.shelf.remove(self.frontier),
                    phase: SequencerPhase::Applying,
                    ..self
                },
                SequencerAction::Apply(
                    PendingBatch { height: self.frontier, batch: self.shelf[self.frontier] },
                ),
            )
        } else {
            (SequencerModel { phase: SequencerPhase::Receiving, ..self }, SequencerAction::Receive)
        }
    }

    /// Moves the frontier past the height that was just applied.
    pub open spec fn advance(self, unreported: usize) -> (Self, SequencerAction<B>) {
        let frontier = (self.frontier + 1) as usize;
        (
            SequencerModel { frontier, unreported, phase: SequencerPhase::Publishing, ..self },
            SequencerAction::Publish { frontier },
        )
    }

    /// Gives up.
    pub open spec fn fail(self, error: SequencerError) -> (Self, SequencerAction<B>) {
        (
            SequencerModel { phase: SequencerPhase::Failed(error), ..self },
            SequencerAction::Abort(error),
        )
    }

    /// The store applied the batch at the frontier.
    pub open spec fn applied(self, elapsed_ms: u128) -> (Self, SequencerAction<B>) {
        let blocks = (self.unreported + 1) as usize;
        if elapsed_ms > self.interval_ms {
            (
                SequencerModel { unreported: blocks, phase: SequencerPhase::Flushing, ..self },
                SequencerAction::Flush(
                    ThroughputReport {
                        blocks,
                        elapsed_ms,
                        height: self.frontier,
                        shelved: self.shelf.len() as usize,
                    },
                ),
            )
        } else {
            self.advance(blocks)
        }
    }

    /// The source ran dry. The run ends well when the shelf is empty; a
    /// batch still on the shelf waits behind a height that will never come,
    /// and the run fails.
    pub open spec fn finish(self) -> (Self, SequencerAction<B>) {
        if self.shelf.len() == 0 {
            (
                SequencerModel { phase: SequencerPhase::Finished, ..self },
                SequencerAction::Finish { frontier: self.frontier },
            )
        } else {
            self.fail(SequencerError::Gap { missing: self.frontier })
        }
    }

    /// The next state and the action for one event.
    pub open spec fn step(self, event: SequencerEvent<B>) -> (Self, SequencerAction<B>) {
        match self.phase {
            SequencerPhase::Receiving => match event {
                SequencerEvent::Batch(pending) => self.shelve(
                    pending.height,
                    pending.batch,
                ).dispatch(),
                SequencerEvent::SourceClosed => self.finish(),
                _ => self.fail(SequencerError::Protocol),
            },
            SequencerPhase::Applying => match event {
                SequencerEvent::Applied { elapsed_ms } => self.applied(elapsed_ms),
                SequencerEvent::StoreFailed => self.fail(SequencerError::Store),
                _ => self.fail(SequencerError::Protocol),
            },
            SequencerPhase::Flushing => match event {
                SequencerEvent::Flushed => self.advance(0),
                SequencerEvent::StoreFailed => self.fail(SequencerError::Store),
                _ => self.fail(SequencerError::Protocol),
            },
            SequencerPhase::Publishing => match event {
                SequencerEvent::Published => self.dispatch(),
                SequencerEvent::SignalClosed => self.fail(SequencerError::Signal),
                _ => self.fail(SequencerError::Protocol),
            },
            SequencerPhase::Finished => (self, SequencerAction::Finish { frontier: self.frontier }),
            SequencerPhase::Failed(error) => (self, SequencerAction::Abort(error)),
        }
    }
}

/// The single consumer of the workers' batches.
pub struct CommitSequencer<B> {
    first: usize,
    frontier: usize,
    shelf: HashMap<usize, B>,
    phase: SequencerPhase,
    unreported: usize,
    interval_ms: u128,
}

impl<B> View for CommitSequencer<B> {
    type V = SequencerModel<B>;

    closed spec fn view(&self) -> SequencerModel<B> {
        SequencerModel {
            first: self.first,
            frontier: self.frontier,
            shelf: self.shelf@,
            phase: self.phase,
            unreported: self.unreported,
            interval_ms: self.interval_ms,
        }
    }
}

impl<B> CommitSequencer<B> {
    #[verifier::type_invariant]
    spec fn inv(self) -> bool {
        self@.wf()
    }

    /// A sequencer that commits `first` first and reports whenever more than
    /// `interval_ms` milliseconds have passed since the last report.
    pub fn new(first: usize, interval_ms: u128) -> (sequencer: Self)
        ensures
            sequencer@ == SequencerModel::<B>::init(first, interval_ms),
            sequencer@.wf(),
    {
        CommitSequencer {
            first,
            frontier: first,
            shelf: HashMap::new(),
            phase: SequencerPhase::Receiving,
            unreported: 0,
            interval_ms,
        }
    }

    /// The next height to commit. This is the value the workers throttle on.
    pub fn frontier(&self) -> (frontier: usize)
        ensures
            frontier == self@.frontier,
    {
        self.frontier
    }

    /// The highest committed height, if any height at all lies below the frontier.
    pub fn committed_height(&self) -> (committed: Option<usize>)
        ensures
            match committed {
                Some(height) => height == self@.committed_height(),
                None => self@.frontier == 0,
            },
    {
        if self.frontier == 0 {
            None
        } else {
            Some(self.frontier - 1)
        }
    }

    /// How many batches wait on the shelf.
    pub fn shelved(&self) -> (count: usize)
        ensures
            count == self@.shelf.len(),
    {
        self.shelf.len()
    }

    pub fn phase(&self) -> (phase: SequencerPhase)
        ensures
            phase == self@.phase,
    {
        self.phase
    }

    fn fail(self, error: SequencerError) -> (next: (Self, SequencerAction<B>))
        ensures
            next.0@ == self@.fail(error).0,
            next.1 == self@.fail(error).1,
    {
        proof {
            use_type_invariant(&self);
        }
        let CommitSequencer { first, frontier, shelf, phase: _, unreported, interval_ms } = self;
        (
            CommitSequencer {
                first,
                frontier,
                shelf,
                phase: SequencerPhase::Failed(error),
                unreported,
                interval_ms,
            },
            SequencerAction::Abort(error),
        )
    }

    fn dispatch(self) -> (next: (Self, SequencerAction<B>))
        requires
            self@.phase is Receiving || self@.phase is Publishing,
        ensures
            next.0@ == self@.dispatch().0,
            next.1 == self@.dispatch().1,
    {
        proof {
            use_type_invariant(&self);
        }
        let CommitSequencer { first, frontier, mut shelf, phase: _, unreported, interval_ms } =
            self;
        let ghost before = shelf@;
        match shelf.remove(&frontier) {
            Some(batch) => {
                (
                    CommitSequencer {
                        first,
                        frontier,
                        shelf,
                        phase: SequencerPhase::Applying,
                        unreported,
                        interval_ms,
                    },
                    SequencerAction::Apply(PendingBatch { height: frontier, batch }),
                )
            },
            None => {
                assert(shelf@ =~= before);
                (
                    CommitSequencer {
                        first,
                        frontier,
                        shelf,
                        phase: SequencerPhase::Receiving,
                        unreported,
                        interval_ms,
                    },
                    SequencerAction::Receive,
                )
            },
        }
    }

    fn receive(self, pending: PendingBatch<B>) -> (next: (Self, SequencerAction<B>))
        requires
            self@.phase is Receiving,
        ensures
            next.0@ == self@.shelve(pending.height, pending.batch).dispatch().0,
            next.1 == self@.shelve(pending.height, pending.batch).dispatch().1,
    {
        proof {
            use_type_invariant(&self);
        }
        let PendingBatch { height, batch } = pending;
        if height < self.frontier || height == usize::MAX {
            return self.dispatch();
        }
        let CommitSequencer { first, frontier, mut shelf, phase: _, unreported, interval_ms } =
            self;
        if height == frontier {
            assert(shelf@.insert(height, batch).remove(height) =~= shelf@);
            (
                CommitSequencer {
                    first,
                    frontier,
                    shelf,
                    phase: SequencerPhase::Applying,
                    unreported,
                    interval_ms,
                },
                SequencerAction::Apply(PendingBatch { height, batch }),
            )
        } else {
            shelf.insert(height, batch);
            (
                CommitSequencer {
                    first,
                    frontier,
                    shelf,
                    phase: SequencerPhase::Receiving,
                    unreported,
                    interval_ms,
                },
                SequencerAction::Receive,
            )
        }
    }

    fn advance(self, unreported: usize) -> (next: (Self, SequencerAction<B>))
        requires
            self@.applying(),
            unreported <= self@.frontier - self@.first + 1,
        ensures
            next.0@ == self@.advance(unreported).0,
            next.1 == self@.advance(unreported).1,
    {
        proof {
            use_type_invariant(&self);
        }
        let CommitSequencer { first, frontier, shelf, phase: _, unreported: _, interval_ms } =
            self;
        let frontier: usize = frontier + 1;
        (
            CommitSequencer {
                first,
                frontier,
                shelf,
                phase: SequencerPhase::Publishing,
                unreported,
                interval_ms,
            },
            SequencerAction::Publish { frontier },
        )
    }

    fn applied(self, elapsed_ms: u128) -> (next: (Self, SequencerAction<B>))
        requires
            self@.phase is Applying,
        ensures
            next.0@ == self@.applied(elapsed_ms).0,
            next.1 == self@.applied(elapsed_ms).1,
    {
        proof {
            use_type_invariant(&self);
        }
        let blocks: usize = self.unreported + 1;
        if elapsed_ms > self.interval_ms {
            let CommitSequencer { first, frontier, shelf, phase: _, unreported: _, interval_ms } =
                self;
            let shelved: usize = shelf.len();
            (
                CommitSequencer {
                    first,
                    frontier,
                    shelf,
                    phase: SequencerPhase::Flushing,
                    unreported: blocks,
                    interval_ms,
                },
                SequencerAction::Flush(
                    ThroughputReport { blocks, elapsed_ms, height: frontier, shelved },
                ),
            )
        } else {
            self.advance(blocks)
        }
    }

    fn finish(self) -> (next: (Self, SequencerAction<B>))
        ensures
            next.0@ == self@.finish().0,
            next.1 == self@.finish().1,
    {
        proof {
            use_type_invariant(&self);
        }
        if self.shelf.len() != 0 {
            let missing: usize = self.frontier;
            return self.fail(SequencerError::Gap { missing });
        }
        let CommitSequencer { first, frontier, shelf, phase: _, unreported, interval_ms } = self;
        (
            CommitSequencer {
                first,
                frontier,
                shelf,
                phase: SequencerPhase::Finished,
                unreported,
                interval_ms,
            },
            SequencerAction::Finish { frontier },
        )
    }

    /// Takes what happened outside and says what to do next.
    ///
    /// The caller performs the action and comes back with its outcome:
    /// `Receive` is answered by `Batch` or `SourceClosed`, `Apply` by
    /// `Applied` or `StoreFailed`, `Flush` by `Flushed` or `StoreFailed`,
    /// `Publish` by `Published` or `SignalClosed`. Any other answer aborts
    /// the run with [`SequencerError::Protocol`]. When the source closes,
    /// the run finishes only if the shelf is empty; otherwise it aborts
    /// with [`SequencerError::Gap`]. `Finish` and `Abort` are final: every
    /// later event is answered with the same action.
    pub fn step(self, event: SequencerEvent<B>) -> (next: (Self, SequencerAction<B>))
        ensures
            next.0@ == self@.step(event).0,
            next.1 == self@.step(event).1,
            next.0@.wf(),
    {
        proof {
            use_type_invariant(&self);
        }
        let next = match self.phase {
            SequencerPhase::Receiving => match event {
                SequencerEvent::Batch(pending) => self.receive(pending),
                SequencerEvent::SourceClosed => self.finish(),
                _ => self.fail(SequencerError::Protocol),
            },
            SequencerPhase::Applying => match event {
                SequencerEvent::Applied { elapsed_ms } => self.applied(elapsed_ms),
                SequencerEvent::StoreFailed => self.fail(SequencerError::Store),
                _ => self.fail(SequencerError::Protocol),
            },
            SequencerPhase::Flushing => match event {
                SequencerEvent::Flushed => self.advance(0),
                SequencerEvent::StoreFailed => self.fail(SequencerError::Store),
                _ => self.fail(SequencerError::Protocol),
            },
            SequencerPhase::Publishing => match event {
                SequencerEvent::Published => self.dispatch(),
                SequencerEvent::SignalClosed => self.fail(SequencerError::Signal),
                _ => self.fail(SequencerError::Protocol),
            },
            SequencerPhase::Finished => {
                let frontier: usize = self.frontier;
                (self, SequencerAction::Finish { frontier })
            },
            SequencerPhase::Failed(error) => (self, SequencerAction::Abort(error)),
        };
        proof {
            use_type_invariant(&next.0);
        }
        next
    }
}

} // verus!
