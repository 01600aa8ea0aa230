//! One fetch worker of the pool.
//!
//! A worker claims a height, waits until the height is within the lookahead
//! of the committed frontier, fetches the block, has its batch built and
//! sends it to the sequencer; then it starts over. [`FetchWorker::step`]
//! holds those decisions; claiming, waiting, fetching, building and
//! sending are done by the caller.

use crate::claim::{may_fetch, within_lookahead};
use vstd::prelude::*;

verus! {

/// Why a worker aborted the run.
#[derive(Clone, Copy, Debug, PartialEq, Eq, Structural)]
pub enum WorkerError {
    /// The chain source failed for a reason other than a missing block.
    Transport,
    /// The store could not build the batch of a fetched block.
    Store,
    /// The committed-height signal is gone while the worker waits on it.
    Signal,
    /// An event arrived that does not answer the action last handed out.
    Protocol,
}

/// Where a worker stands in its cycle.
#[derive(Clone, Copy, Debug, PartialEq, Eq, Structural)]
pub enum WorkerPhase {
    /// Waiting for a height from the claim counter.
    Claiming,
    /// Holding `height`, not yet let through by the throttle.
    Throttled { height: usize },
    /// The block at `height` is being fetched.
    Fetching { height: usize },
    /// The batch of the block at `height` is being built.
    Building { height: usize },
    /// The batch for `height` is on its way to the sequencer.
    Sending { height: usize },
    /// Between two blocks, asking whether a shutdown was requested.
    Polling,
    /// Stopped without error.
    Done,
    /// Stopped with an error.
    Failed(WorkerError),
}

/// What happened outside since the last action.
#[derive(Clone, Copy, Debug, PartialEq, Eq, Structural)]
pub enum WorkerEvent {
    /// The claim counter handed out `height`.
    Claimed { height: usize },
    /// The claim counter has no height left.
    Exhausted,
    /// The committed-height signal currently shows `frontier`.
    Frontier { frontier: usize },
    /// The committed-height signal has lost its sender: no frontier will
    /// be published any more.
    SignalClosed,
    /// The chain source returned the block.
    Fetched,
    /// The chain source has no block at this height: the end of the chain.
    NotFound,
    /// The chain source failed.
    TransportFailed,
    /// The batch was built.
    Built,
    /// The store could not build the batch.
    BuildFailed,
    /// The batch was handed to the channel.
    Sent,
    /// The channel's receiver is gone; the batch was dropped.
    ChannelClosed,
    /// The answer to a shutdown poll.
    Shutdown { requested: bool },
}

/// What to do next.
#[derive(Clone, Copy, Debug, PartialEq, Eq, Structural)]
pub enum WorkerAction {
    /// Claim the next height.
    Claim,
    /// Read the committed-height signal without waiting.
    ReadFrontier,
    /// `height` is too far ahead of `frontier`: wait until the signal
    /// changes, then read it.
    AwaitFrontier { height: usize, frontier: usize },
    /// Fetch the block at `height`.
    Fetch { height: usize },
    /// Build the batch of the block just fetched.
    Build { height: usize },
    /// Send the batch just built.
    Send { height: usize },
    /// Ask whether a shutdown was requested.
    PollShutdown,
    /// Stop: this worker is done.
    Stop,
    /// Stop and abort the run.
    Abort(WorkerError),
}

/// A worker as a mathematical value.
pub struct WorkerModel {
    /// How far ahead of the last committed height a fetch may start.
    pub lookahead: usize,
    /// Whether the worker polls for a shutdown request after each block.
    pub cancellable: bool,
    pub phase: WorkerPhase,
}

impl WorkerModel {
    /// A worker about to make its first claim.
    pub open spec fn init(lookahead: usize, cancellable: bool) -> Self {
        WorkerModel { lookahead, cancellable, phase: WorkerPhase::Claiming }
    }

    /// The height whose fetch has been let through, if the worker holds one.
    pub open spec fn in_flight(self) -> Option<usize> {
        match self.phase {
            WorkerPhase::Fetching { height } => Some(height),
            WorkerPhase::Building { height } => Some(height),
            WorkerPhase::Sending { height } => Some(height),
            _ => None,
        }
    }

    /// The height the worker holds, let through or not.
    pub open spec fn held(self) -> Option<usize> {
        match self.phase {
            WorkerPhase::Throttled { height } => Some(height),
            _ => self.in_flight(),
        }
    }

    pub open spec fn enter(self, phase: WorkerPhase, action: WorkerAction) -> (Self, WorkerAction) {
        (WorkerModel { phase, ..self }, action)
    }

    pub open spec fn fail(self, error: WorkerError) -> (Self, WorkerAction) {
        self.enter(WorkerPhase::Failed(error), WorkerAction::Abort(error))
    }

    /// The block is out of the worker's hands, sent or dropped.
    pub open spec fn next_round(self) -> (Self, WorkerAction) {
        if self.cancellable {
            self.enter(WorkerPhase::Polling, WorkerAction::PollShutdown)
        } else {
            self.enter(WorkerPhase::Claiming, WorkerAction::Claim)
        }
    }

    /// The next state and the action for one event.
    pub open spec fn step(self, event: WorkerEvent) -> (Self, WorkerAction) {
        match self.phase {
            WorkerPhase::Claiming => match event {
                WorkerEvent::Claimed { height } => self.enter(
                    WorkerPhase::Throttled { height },
                    WorkerAction::ReadFrontier,
                ),
                WorkerEvent::Exhausted => self.enter(WorkerPhase::Done, WorkerAction::Stop),
                _ => self.fail(WorkerError::Protocol),
            },
            WorkerPhase::Throttled { height } => match event {
                WorkerEvent::Frontier { frontier } => if within_lookahead(
                    frontier as nat,
                    self.lookahead as nat,
                    height as nat,
                ) {
                    self.enter(WorkerPhase::Fetching { height }, WorkerAction::Fetch { height })
                } else {
                    self.enter(
                        WorkerPhase::Throttled { height },
                        WorkerAction::AwaitFrontier { height, frontier },
                    )
                },
                WorkerEvent::SignalClosed => self.fail(WorkerError::Signal),
                _ => self.fail(WorkerError::Protocol),
            },
            WorkerPhase::Fetching { height } => match event {
                WorkerEvent::Fetched => self.enter(
                    WorkerPhase::Building { height },
                    WorkerAction::Build { height },
                ),
                WorkerEvent::NotFound => self.enter(WorkerPhase::Done, WorkerAction::Stop),
                WorkerEvent::TransportFailed => self.fail(WorkerError::Transport),
                _ => self.fail(WorkerError::Protocol),
            },
            WorkerPhase::Building { height } => match event {
                WorkerEvent::Built => self.enter(
                    WorkerPhase::Sending { height },
                    WorkerAction::Send { height },
                ),
                WorkerEvent::BuildFailed => self.fail(WorkerError::Store),
                _ => self.fail(WorkerError::Protocol),
            },
            WorkerPhase::Sending { height } => match event {
                WorkerEvent::Sent => self.next_round(),
                WorkerEvent::ChannelClosed => self.next_round(),
                _ => self.fail(WorkerError::Protocol),
            },
            WorkerPhase::Polling => match event {
                WorkerEvent::Shutdown { requested } => if requested {
                    self.enter(WorkerPhase::Done, WorkerAction::Stop)
                } else {
                    self.enter(WorkerPhase::Claiming, WorkerAction::Claim)
                },
                _ => self.fail(WorkerError::Protocol),
            },
            WorkerPhase::Done => (self, WorkerAction::Stop),
            WorkerPhase::Failed(error) => (self, WorkerAction::Abort(error)),
        }
    }
}

/// The decisions of one fetch worker.
#[derive(Debug)]
pub struct FetchWorker {
    lookahead: usize,
    cancellable: bool,
    phase: WorkerPhase,
}

impl View for FetchWorker {
    type V = WorkerModel;

    closed spec fn view(&self) -> WorkerModel {
        WorkerModel { lookahead: self.lookahead, cancellable: self.cancellable, phase: self.phase }
    }
}

impl FetchWorker {
    /// A worker that may fetch up to `lookahead` heights past the last
    /// committed one. A `cancellable` worker asks for a shutdown request
    /// once per block, after sending it. The worker starts out waiting for
    /// its first claim: the caller begins with [`WorkerAction::Claim`].
    pub fn new(lookahead: usize, cancellable: bool) -> (worker: Self)
        ensures
            worker@ == WorkerModel::init(lookahead, cancellable),
    {
        FetchWorker { lookahead, cancellable, phase: WorkerPhase::Claiming }
    }

    pub fn phase(&self) -> (phase: WorkerPhase)
        ensures
            phase == self@.phase,
    {
        self.phase
    }

    fn enter(&mut self, phase: WorkerPhase, action: WorkerAction) -> (taken: WorkerAction)
        ensures
            final(self)@ == old(self)@.enter(phase, action).0,
            taken == action,
    {
        self.phase = phase;
        action
    }

    /// Takes what happened outside and says what to do next.
    ///
    /// `Claim` is answered by `Claimed` or `Exhausted`; `ReadFrontier` and
    /// `AwaitFrontier` by `Frontier`, or by `SignalClosed` where the signal
    /// is gone; `Fetch` by `Fetched`, `NotFound` or
    /// `TransportFailed`; `Build` by `Built` or `BuildFailed`; `Send` by
    /// `Sent` or `ChannelClosed`; `PollShutdown` by `Shutdown`. Any other
    /// answer aborts with [`WorkerError::Protocol`]. `Stop` and `Abort` are
    /// final.
    pub fn step(&mut self, event: WorkerEvent) -> (action: WorkerAction)
        ensures
            final(self)@ == old(self)@.step(event).0,
            action == old(self)@.step(event).1,
    {
        match self.phase {
            WorkerPhase::Claiming => match event {
                WorkerEvent::Claimed { height } => self.enter(
                    WorkerPhase::Throttled { height },
                    WorkerAction::ReadFrontier,
                ),
                WorkerEvent::Exhausted => self.enter(WorkerPhase::Done, WorkerAction::Stop),
                _ => self.fail(),
            },
            WorkerPhase::Throttled { height } => match event {
                WorkerEvent::Frontier { frontier } => {
                    if may_fetch(frontier, self.lookahead, height) {
                        self.enter(WorkerPhase::Fetching { height }, WorkerAction::Fetch { height })
                    } else {
                        self.enter(
                            WorkerPhase::Throttled { height },
                            WorkerAction::AwaitFrontier { height, frontier },
                        )
                    }
                },
                WorkerEvent::SignalClosed => self.enter(
                    WorkerPhase::Failed(WorkerError::Signal),
                    WorkerAction::Abort(WorkerError::Signal),
                ),
                _ => self.fail(),
            },
            WorkerPhase::Fetching { height } => match event {
                WorkerEvent::Fetched => self.enter(
                    WorkerPhase::Building { height },
                    WorkerAction::Build { height },
                ),
                WorkerEvent::NotFound => self.enter(WorkerPhase::Done, WorkerAction::Stop),
                WorkerEvent::TransportFailed => self.enter(
                    WorkerPhase::Failed(WorkerError::Transport),
                    WorkerAction::Abort(WorkerError::Transport),
                ),
                _ => self.fail(),
            },
            WorkerPhase::Building { height } => match event {
                WorkerEvent::Built => self.enter(
                    WorkerPhase::Sending { height },
                    WorkerAction::Send { height },
                ),
                WorkerEvent::BuildFailed => self.enter(
                    WorkerPhase::Failed(WorkerError::Store),
                    WorkerAction::Abort(WorkerError::Store),
                ),
                _ => self.fail(),
            },
            WorkerPhase::Sending { height: _ } => match event {
                WorkerEvent::Sent => self.next_round(),
                WorkerEvent::ChannelClosed => self.next_round(),
                _ => self.fail(),
            },
            WorkerPhase::Polling => match event {
                WorkerEvent::Shutdown { requested } => {
                    if requested {
                        self.enter(WorkerPhase::Done, WorkerAction::Stop)
                    } else {
                        self.enter(WorkerPhase::Claiming, WorkerAction::Claim)
                    }
                },
                _ => self.fail(),
            },
            WorkerPhase::Done => WorkerAction::Stop,
            WorkerPhase::Failed(error) => WorkerAction::Abort(error),
        }
    }

    fn fail(&mut self) -> (action: WorkerAction)
        ensures
            final(self)@ == old(self)@.fail(WorkerError::Protocol).0,
            action == old(self)@.fail(WorkerError::Protocol).1,
    {
        self.enter(
            WorkerPhase::Failed(WorkerError::Protocol),
            WorkerAction::Abort(WorkerError::Protocol),
        )
    }

    fn next_round(&mut self) -> (action: WorkerAction)
        ensures
            final(self)@ == old(self)@.next_round().0,
            action == old(self)@.next_round().1,
    {
        if self.cancellable {
            self.enter(WorkerPhase::Polling, WorkerAction::PollShutdown)
        } else {
            self.enter(WorkerPhase::Claiming, WorkerAction::Claim)
        }
    }
}

/// A fetch starts only for the height the worker holds, and only when that
/// height is at most `lookahead` above the last committed height it was shown.
pub proof fn fetch_starts_within_lookahead(worker: WorkerModel, event: WorkerEvent)
    ensures
        worker.step(event).1 matches WorkerAction::Fetch { height } ==> {
            &&& worker.phase == WorkerPhase::Throttled { height }
            &&& event matches WorkerEvent::Frontier { frontier }
            &&& within_lookahead(frontier as nat, worker.lookahead as nat, height as nat)
        },
{
}

/// A worker that was told its height does not exist stops without error and
/// does nothing afterwards.
pub proof fn end_of_chain_stops_the_worker(worker: WorkerModel, later: WorkerEvent)
    requires
        worker.phase is Fetching,
    ensures
        ({
            let stopped = worker.step(WorkerEvent::NotFound);
            &&& stopped.1 == WorkerAction::Stop
            &&& stopped.0.phase is Done
            &&& stopped.0.step(later) == (stopped.0, WorkerAction::Stop)
        }),
{
}

/// A failed fetch or a failed batch construction aborts the run; nothing is
/// retried and nothing is sent for that height. A worker that waits on a
/// signal that is gone aborts as well.
pub proof fn failures_abort_the_worker(worker: WorkerModel)
    ensures
        worker.phase is Throttled ==> worker.step(WorkerEvent::SignalClosed).1
            == WorkerAction::Abort(WorkerError::Signal),
        worker.phase is Fetching ==> worker.step(WorkerEvent::TransportFailed).1
            == WorkerAction::Abort(WorkerError::Transport),
        worker.phase is Building ==> worker.step(WorkerEvent::BuildFailed).1 == WorkerAction::Abort(
            WorkerError::Store,
        ),
{
}

} // verus!
