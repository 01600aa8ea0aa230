//! The two live loops that take over after catch-up.
//!
//! The block loop applies every new block and then refreshes the mempool
//! index; the transaction loop applies every new unconfirmed transaction.
//! Neither loop ever gives up: whenever the subscription fails, ends, or the
//! store refuses something, the loop reports the cause and subscribes again
//! at once, without backoff and without a limit on the number of restarts.

use crate::mempool::{refresh_step, MempoolRefresh, RefreshAction, RefreshEvent, RefreshPhase};
use vstd::prelude::*;

verus! {

/// Which stream a monitor follows.
#[derive(Clone, Copy, Debug, PartialEq, Eq, Structural)]
pub enum MonitorKind {
    /// New blocks; each one is followed by a mempool refresh.
    Blocks,
    /// New unconfirmed transactions.
    Transactions,
}

/// Why a loop restarted.
#[derive(Clone, Copy, Debug, PartialEq, Eq, Structural)]
pub enum RestartCause {
    /// The stream ended without an error.
    StreamEnded,
    /// Subscribing failed, the stream failed or the mempool could not be fetched.
    Transport,
    /// The store could not build, apply or clear.
    Store,
    /// An event arrived that does not answer the action last handed out.
    Protocol,
}

/// Where a loop stands.
#[derive(Clone, Copy, Debug, PartialEq, Eq, Structural)]
pub enum MonitorPhase {
    /// Asking for the subscription.
    Subscribing,
    /// Waiting for the next notification.
    Listening,
    /// The batch of the item at hand is being built.
    Building,
    /// The batch of the item at hand is being applied.
    Applying,
    /// The block was applied and the mempool index is being refreshed.
    Refreshing(RefreshPhase),
}

/// What happened outside since the last action.
#[derive(Clone, Copy, Debug, PartialEq, Eq, Structural)]
pub enum MonitorEvent {
    /// The subscription stands.
    Subscribed,
    /// The subscription could not be made.
    SubscribeFailed,
    /// A notification that carries a full block, or an unconfirmed
    /// transaction with its data.
    Item,
    /// A notification of any other kind.
    Other,
    /// The stream ended.
    StreamEnded,
    /// The stream failed.
    StreamFailed,
    /// The batch was built.
    Built,
    /// The batch was applied.
    Applied,
    /// The store failed at what it was asked to do.
    StoreFailed,
    /// An event of the mempool refresh.
    Refresh(RefreshEvent),
}

/// What to do next.
#[derive(Clone, Copy, Debug, PartialEq, Eq, Structural)]
pub enum MonitorAction {
    /// Report the cause and subscribe again, at once.
    Restart(RestartCause),
    /// Wait for the next notification.
    NextMessage,
    /// Build the batch of the item just received.
    BuildBatch,
    /// Apply the batch just built.
    ApplyBatch,
    /// Carry out a step of the mempool refresh.
    Refresh(RefreshAction),
}

/// A monitor as a mathematical value.
pub struct MonitorModel {
    pub kind: MonitorKind,
    pub phase: MonitorPhase,
}

impl MonitorModel {
    /// A monitor about to subscribe for the first time.
    pub open spec fn init(kind: MonitorKind) -> Self {
        MonitorModel { kind, phase: MonitorPhase::Subscribing }
    }

    pub open spec fn enter(self, phase: MonitorPhase, action: MonitorAction) -> (
        Self,
        MonitorAction,
    ) {
        (MonitorModel { phase, ..self }, action)
    }

    pub open spec fn restart(self, cause: RestartCause) -> (Self, MonitorAction) {
        self.enter(MonitorPhase::Subscribing, MonitorAction::Restart(cause))
    }

    /// What follows a step of the mempool refresh.
    pub open spec fn refreshed(self, step: (RefreshPhase, RefreshAction)) -> (Self, MonitorAction) {
        match step.1 {
            RefreshAction::Finish => self.enter(MonitorPhase::Listening, MonitorAction::NextMessage),
            RefreshAction::Abort(error) => self.restart(restart_cause(error)),
            action => self.enter(MonitorPhase::Refreshing(step.0), MonitorAction::Refresh(action)),
        }
    }

    /// The next state and the action for one event.
    pub open spec fn step(self, event: MonitorEvent) -> (Self, MonitorAction) {
        match self.phase {
            MonitorPhase::Subscribing => match event {
                MonitorEvent::Subscribed => self.enter(
                    MonitorPhase::Listening,
                    MonitorAction::NextMessage,
                ),
                MonitorEvent::SubscribeFailed => self.restart(RestartCause::Transport),
                _ => self.restart(RestartCause::Protocol),
            },
            MonitorPhase::Listening => match event {
                MonitorEvent::Item => self.enter(MonitorPhase::Building, MonitorAction::BuildBatch),
                MonitorEvent::Other => self.enter(
                    MonitorPhase::Listening,
                    MonitorAction::NextMessage,
                ),
                MonitorEvent::StreamEnded => self.restart(RestartCause::StreamEnded),
                MonitorEvent::StreamFailed => self.restart(RestartCause::Transport),
                _ => self.restart(RestartCause::Protocol),
            },
            MonitorPhase::Building => match event {
                MonitorEvent::Built => self.enter(MonitorPhase::Applying, MonitorAction::ApplyBatch),
                MonitorEvent::StoreFailed => self.restart(RestartCause::Store),
                _ => self.restart(RestartCause::Protocol),
            },
            MonitorPhase::Applying => match event {
                MonitorEvent::Applied => match self.kind {
                    MonitorKind::Blocks => self.enter(
                        MonitorPhase::Refreshing(RefreshPhase::Fetching),
                        MonitorAction::Refresh(RefreshAction::FetchSnapshot),
                    ),
                    MonitorKind::Transactions => self.enter(
                        MonitorPhase::Listening,
                        MonitorAction::NextMessage,
                    ),
                },
                MonitorEvent::StoreFailed => self.restart(RestartCause::Store),
                _ => self.restart(RestartCause::Protocol),
            },
            MonitorPhase::Refreshing(phase) => match event {
                MonitorEvent::Refresh(inner) => self.refreshed(refresh_step(phase, inner)),
                _ => self.restart(RestartCause::Protocol),
            },
        }
    }
}

/// The cause a failed refresh gives to the restart of the block loop.
pub open spec fn restart_cause(error: crate::mempool::RefreshError) -> RestartCause {
    match error {
        crate::mempool::RefreshError::Transport => RestartCause::Transport,
        crate::mempool::RefreshError::Store => RestartCause::Store,
        crate::mempool::RefreshError::Protocol => RestartCause::Protocol,
    }
}

/// The decisions of one live loop.
#[derive(Debug)]
pub struct LiveMonitor {
    kind: MonitorKind,
    phase: MonitorPhase,
}

impl View for LiveMonitor {
    type V = MonitorModel;

    closed spec fn view(&self) -> MonitorModel {
        MonitorModel { kind: self.kind, phase: self.phase }
    }
}

impl LiveMonitor {
    /// A monitor about to subscribe: the caller begins by subscribing and
    /// answers with `Subscribed` or `SubscribeFailed`.
    pub fn new(kind: MonitorKind) -> (monitor: Self)
        ensures
            monitor@ == MonitorModel::init(kind),
    {
        LiveMonitor { kind, phase: MonitorPhase::Subscribing }
    }

    pub fn phase(&self) -> (phase: MonitorPhase)
        ensures
            phase == self@.phase,
    {
        self.phase
    }

    fn enter(&mut self, phase: MonitorPhase, action: MonitorAction) -> (taken: MonitorAction)
        ensures
            final(self)@ == old(self)@.enter(phase, action).0,
            taken == action,
    {
        self.phase = phase;
        action
    }

    fn restart(&mut self, cause: RestartCause) -> (action: MonitorAction)
        ensures
            final(self)@ == old(self)@.restart(cause).0,
            action == old(self)@.restart(cause).1,
    {
        self.enter(MonitorPhase::Subscribing, MonitorAction::Restart(cause))
    }

    fn refresh(&mut self, phase: RefreshPhase, event: RefreshEvent) -> (action: MonitorAction)
        ensures
            final(self)@ == old(self)@.refreshed(refresh_step(phase, event)).0,
            action == old(self)@.refreshed(refresh_step(phase, event)).1,
    {
        let mut refresh = MempoolRefresh::resume(phase);
        let inner = refresh.step(event);
        match inner {
            RefreshAction::Finish => self.enter(MonitorPhase::Listening, MonitorAction::NextMessage),
            RefreshAction::Abort(error) => {
                let cause = match error {
                    crate::mempool::RefreshError::Transport => RestartCause::Transport,
                    crate::mempool::RefreshError::Store => RestartCause::Store,
                    crate::mempool::RefreshError::Protocol => RestartCause::Protocol,
                };
                self.restart(cause)
            },
            _ => self.enter(MonitorPhase::Refreshing(refresh.phase()), MonitorAction::Refresh(inner)),
        }
    }

    /// Takes what happened outside and says what to do next.
    ///
    /// `Restart` is answered by `Subscribed` or `SubscribeFailed`;
    /// `NextMessage` by `Item`, `Other`, `StreamEnded` or `StreamFailed`;
    /// `BuildBatch` by `Built`, `ApplyBatch` by `Applied`, either by
    /// `StoreFailed`; `Refresh` by the refresh's own event. No action is
    /// final: the loop goes on until the caller drops the monitor.
    pub fn step(&mut self, event: MonitorEvent) -> (action: MonitorAction)
        ensures
            final(self)@ == old(self)@.step(event).0,
            action == old(self)@.step(event).1,
    {
        match self.phase {
            MonitorPhase::Subscribing => match event {
                MonitorEvent::Subscribed => self.enter(
                    MonitorPhase::Listening,
                    MonitorAction::NextMessage,
                ),
                MonitorEvent::SubscribeFailed => self.restart(RestartCause::Transport),
                _ => self.restart(RestartCause::Protocol),
            },
            MonitorPhase::Listening => match event {
                MonitorEvent::Item => self.enter(MonitorPhase::Building, MonitorAction::BuildBatch),
                MonitorEvent::Other => self.enter(
                    MonitorPhase::Listening,
                    MonitorAction::NextMessage,
                ),
                MonitorEvent::StreamEnded => self.restart(RestartCause::StreamEnded),
                MonitorEvent::StreamFailed => self.restart(RestartCause::Transport),
                _ => self.restart(RestartCause::Protocol),
            },
            MonitorPhase::Building => match event {
                MonitorEvent::Built => self.enter(MonitorPhase::Applying, MonitorAction::ApplyBatch),
                MonitorEvent::StoreFailed => self.restart(RestartCause::Store),
                _ => self.restart(RestartCause::Protocol),
            },
            MonitorPhase::Applying => match event {
                MonitorEvent::Applied => match self.kind {
                    MonitorKind::Blocks => self.enter(
                        MonitorPhase::Refreshing(RefreshPhase::Fetching),
                        MonitorAction::Refresh(RefreshAction::FetchSnapshot),
                    ),
                    MonitorKind::Transactions => self.enter(
                        MonitorPhase::Listening,
                        MonitorAction::NextMessage,
                    ),
                },
                MonitorEvent::StoreFailed => self.restart(RestartCause::Store),
                _ => self.restart(RestartCause::Protocol),
            },
            MonitorPhase::Refreshing(phase) => match event {
                MonitorEvent::Refresh(inner) => self.refresh(phase, inner),
                _ => self.restart(RestartCause::Protocol),
            },
        }
    }
}

/// A loop never stops: whatever happens, the monitor answers with an action
/// that keeps it going, and every failure leads straight back to subscribing.
pub proof fn every_failure_restarts(monitor: MonitorModel, event: MonitorEvent)
    ensures
        ({
            let next = monitor.step(event);
            &&& next.0.kind == monitor.kind
            &&& next.1 is Restart <==> next.0.phase is Subscribing
            &&& (event is SubscribeFailed || event is StreamEnded || event is StreamFailed
                || event is StoreFailed) ==> next.1 is Restart
        }),
{
}

/// A batch is applied only right after it was built from an item that the
/// stream delivered; a restart by itself applies nothing again.
pub proof fn restart_applies_nothing(monitor: MonitorModel, event: MonitorEvent)
    ensures
        monitor.step(event).1 is ApplyBatch ==> monitor.phase is Building && event is Built,
        monitor.step(event).1 is BuildBatch ==> monitor.phase is Listening && event is Item,
{
}

} // verus!
