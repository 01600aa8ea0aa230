//! The composition root: the two indexer variants, the course of a run from
//! catch-up to live monitoring, and the point queries.

use crate::mempool::{
    refresh_step, MempoolRefresh, RefreshAction, RefreshError, RefreshEvent, RefreshPhase,
};
use crate::monitor::{LiveMonitor, MonitorKind, MonitorModel};
use crate::sequencer::{CommitSequencer, SequencerError, SequencerModel};
use crate::worker::{FetchWorker, WorkerError, WorkerEvent, WorkerModel};
use vstd::prelude::*;

verus! {

/// How far a worker may fetch ahead of the last committed height.
pub const MAX_FETCH_AHEAD: usize = 1000;

/// The size of the pool when a live node is indexed.
pub const PRODUCTION_WORKERS: usize = 50;

/// The size of the pool when blocks are fabricated locally.
pub const DEVELOPMENT_WORKERS: usize = 1;

/// The channel between workers and sequencer holds this many batches per worker.
pub const CHANNEL_SLOTS_PER_WORKER: usize = 2;

/// The sequencer reports and flushes when more than this many milliseconds
/// have passed since its last report.
pub const REPORT_INTERVAL_MS: u128 = 10_000;

/// The shape of a pipeline.
///
/// The lookahead should not be smaller than the pool. At the end of the
/// chain each worker holds one height past the last block; a worker whose
/// height lies further past the last commit than the lookahead allows is
/// never let through, so it never learns that the chain has ended.
#[derive(Clone, Copy, Debug, PartialEq, Eq, Structural)]
pub struct PipelineSettings {
    /// The number of fetch workers.
    pub workers: usize,
    /// The lookahead bound of every worker.
    pub lookahead: usize,
    /// The capacity of the channel from the workers to the sequencer.
    pub channel_capacity: usize,
    /// Whether the workers poll for a shutdown request between blocks.
    pub cancellable: bool,
    /// The sequencer's report interval in milliseconds.
    pub report_interval_ms: u128,
}

/// What an indexer variant decides about its pipeline. The variants differ
/// in where the blocks come from and in the shape of the pool; sequencing,
/// throttling and the hand-over to the live loops are the same for all.
pub trait Indexer {
    spec fn pipeline(&self) -> PipelineSettings;

    /// The shape of this variant's pipeline.
    fn settings(&self) -> (settings: PipelineSettings)
        ensures
            settings == self.pipeline(),
    ;

    /// The decisions of one fetch worker of this variant.
    fn index_thread(&self) -> (worker: FetchWorker)
        ensures
            worker@ == WorkerModel::init(self.pipeline().lookahead, self.pipeline().cancellable),
    ;

    /// The sequencer of a run that resumes at `first`.
    fn sequencer<B>(&self, first: usize) -> (sequencer: CommitSequencer<B>)
        ensures
            sequencer@ == SequencerModel::<B>::init(first, self.pipeline().report_interval_ms),
    {
        CommitSequencer::new(first, self.settings().report_interval_ms)
    }

    /// The course of a run of this variant: catch-up with the whole pool,
    /// then a mempool refresh, then the live loops.
    fn run_indexer_inner(&self) -> (run: IndexerRun)
        ensures
            run@ == (RunPhase::CatchingUp {
                workers_left: self.pipeline().workers,
                drained: false,
            }),
    {
        IndexerRun::new(self.settings().workers)
    }

    /// The decisions of the loop that follows new blocks.
    fn monitor_new_blocks(&self) -> (monitor: LiveMonitor)
        ensures
            monitor@ == MonitorModel::init(MonitorKind::Blocks),
    {
        LiveMonitor::new(MonitorKind::Blocks)
    }

    /// The decisions of the loop that follows new unconfirmed transactions.
    fn monitor_mempool(&self) -> (monitor: LiveMonitor)
        ensures
            monitor@ == MonitorModel::init(MonitorKind::Transactions),
    {
        LiveMonitor::new(MonitorKind::Transactions)
    }

    /// The decisions of one refresh of the mempool index.
    fn update_mempool(&self) -> (refresh: MempoolRefresh)
        ensures
            refresh@ == RefreshPhase::Fetching,
    {
        MempoolRefresh::new()
    }
}

/// The variant that indexes a live node: a large pool and no way to stop
/// it short of ending the process.
#[derive(Debug)]
pub struct IndexerProduction {
    max_fetch_ahead: usize,
}

/// The variant that indexes fabricated blocks: a single worker, which can
/// be asked to stop between two blocks while the rest of the process goes on.
#[derive(Debug)]
pub struct IndexerDevelopment {
    max_fetch_ahead: usize,
    scheduled_for_termination: bool,
}

/// What an operator's interrupt leads to.
#[derive(Clone, Copy, Debug, PartialEq, Eq, Structural)]
pub enum InterruptAction {
    /// First interrupt: the indexer stops after the block at hand, the
    /// rest of the process keeps running.
    StopIndexing,
    /// Second interrupt: the process exits.
    ExitProcess,
}

impl IndexerProduction {
    pub closed spec fn max_fetch_ahead(&self) -> usize {
        self.max_fetch_ahead
    }

    /// The production variant with the standard lookahead.
    pub fn connect() -> (indexer: Self)
        ensures
            indexer.max_fetch_ahead() == MAX_FETCH_AHEAD,
    {
        IndexerProduction { max_fetch_ahead: MAX_FETCH_AHEAD }
    }
}

impl Indexer for IndexerProduction {
    open spec fn pipeline(&self) -> PipelineSettings {
        PipelineSettings {
            workers: PRODUCTION_WORKERS,
            lookahead: self.max_fetch_ahead(),
            channel_capacity: (PRODUCTION_WORKERS * CHANNEL_SLOTS_PER_WORKER) as usize,
            cancellable: false,
            report_interval_ms: REPORT_INTERVAL_MS,
        }
    }

    fn settings(&self) -> (settings: PipelineSettings) {
        PipelineSettings {
            workers: PRODUCTION_WORKERS,
            lookahead: self.max_fetch_ahead,
            channel_capacity: PRODUCTION_WORKERS * CHANNEL_SLOTS_PER_WORKER,
            cancellable: false,
            report_interval_ms: REPORT_INTERVAL_MS,
        }
    }

    fn index_thread(&self) -> (worker: FetchWorker) {
        FetchWorker::new(self.max_fetch_ahead, false)
    }
}

impl IndexerDevelopment {
    pub closed spec fn max_fetch_ahead(&self) -> usize {
        self.max_fetch_ahead
    }

    /// Whether a shutdown of the indexer has been requested.
    pub closed spec fn termination_scheduled(&self) -> bool {
        self.scheduled_for_termination
    }

    /// The development variant with the standard lookahead and no shutdown
    /// requested.
    pub fn connect() -> (indexer: Self)
        ensures
            indexer.max_fetch_ahead() == MAX_FETCH_AHEAD,
            !indexer.termination_scheduled(),
    {
        IndexerDevelopment { max_fetch_ahead: MAX_FETCH_AHEAD, scheduled_for_termination: false }
    }

    /// Whether the worker should stop after the block at hand.
    pub fn scheduled_for_termination(&self) -> (scheduled: bool)
        ensures
            scheduled == self.termination_scheduled(),
    {
        self.scheduled_for_termination
    }

    /// Records an operator's interrupt. The first one schedules the indexer
    /// for termination; any later one asks for the process to exit.
    pub fn interrupt(&mut self) -> (action: InterruptAction)
        ensures
            final(self).termination_scheduled(),
            final(self).max_fetch_ahead() == old(self).max_fetch_ahead(),
            action == (if old(self).termination_scheduled() {
                InterruptAction::ExitProcess
            } else {
                InterruptAction::StopIndexing
            }),
    {
        if self.scheduled_for_termination {
            InterruptAction::ExitProcess
        } else {
            self.scheduled_for_termination = true;
            InterruptAction::StopIndexing
        }
    }
}

impl Indexer for IndexerDevelopment {
    open spec fn pipeline(&self) -> PipelineSettings {
        PipelineSettings {
            workers: DEVELOPMENT_WORKERS,
            lookahead: self.max_fetch_ahead(),
            channel_capacity: (DEVELOPMENT_WORKERS * CHANNEL_SLOTS_PER_WORKER) as usize,
            cancellable: true,
            report_interval_ms: REPORT_INTERVAL_MS,
        }
    }

    fn settings(&self) -> (settings: PipelineSettings) {
        PipelineSettings {
            workers: DEVELOPMENT_WORKERS,
            lookahead: self.max_fetch_ahead,
            channel_capacity: DEVELOPMENT_WORKERS * CHANNEL_SLOTS_PER_WORKER,
            cancellable: true,
            report_interval_ms: REPORT_INTERVAL_MS,
        }
    }

    fn index_thread(&self) -> (worker: FetchWorker) {
        FetchWorker::new(self.max_fetch_ahead, true)
    }
}

impl PipelineSettings {
    /// Whether every worker can be let through once the whole chain is
    /// committed: the pool is no larger than the lookahead.
    pub open spec fn lets_all_workers_through(self) -> bool {
        self.workers <= self.lookahead
    }
}

/// Both variants, set up with the standard lookahead, let all their workers
/// through at the end of the chain, and give the channel two slots per worker.
pub proof fn standard_pipelines_are_sound(
    production: IndexerProduction,
    development: IndexerDevelopment,
)
    requires
        production.max_fetch_ahead() == MAX_FETCH_AHEAD,
        development.max_fetch_ahead() == MAX_FETCH_AHEAD,
    ensures
        production.pipeline().lets_all_workers_through(),
        development.pipeline().lets_all_workers_through(),
        production.pipeline().channel_capacity == 2 * production.pipeline().workers,
        development.pipeline().channel_capacity == 2 * development.pipeline().workers,
        !production.pipeline().cancellable,
        development.pipeline().cancellable,
{
}

/// Why a run was aborted.
#[derive(Clone, Copy, Debug, PartialEq, Eq, Structural)]
pub enum FatalError {
    /// The chain source failed.
    Transport,
    /// The store failed.
    Store,
    /// The committed-height signal lost its receivers.
    Signal,
    /// A participant was driven out of turn.
    Protocol,
    /// A worker ended without reporting an outcome.
    WorkerLost,
    /// The workers stopped while batches waited for the height `missing`,
    /// which never came.
    Gap { missing: usize },
}

/// How far a run has come.
#[derive(Clone, Copy, Debug, PartialEq, Eq, Structural)]
pub enum RunPhase {
    /// The pool fetches and the sequencer commits. `workers_left` workers
    /// have not stopped yet; `drained` says whether the sequencer has finished.
    CatchingUp { workers_left: usize, drained: bool },
    /// Catch-up is complete and the mempool index is being refreshed.
    Refreshing(RefreshPhase),
    /// The live loops have taken over.
    Live,
    /// The run was aborted.
    Failed(FatalError),
}

/// What happened outside.
#[derive(Clone, Copy, Debug, PartialEq, Eq, Structural)]
pub enum RunEvent {
    /// A worker stopped without error.
    WorkerStopped,
    /// A worker aborted.
    WorkerFailed(WorkerError),
    /// A worker ended without an outcome.
    WorkerLost,
    /// The sequencer finished: the source ran dry and the shelf was empty.
    Drained,
    /// The sequencer aborted.
    DrainFailed(SequencerError),
    /// An event of the mempool refresh.
    Refresh(RefreshEvent),
}

/// What to do next.
#[derive(Clone, Copy, Debug, PartialEq, Eq, Structural)]
pub enum RunAction {
    /// Wait for the next outcome of a worker or of the sequencer.
    Wait,
    /// Carry out a step of the mempool refresh.
    Refresh(RefreshAction),
    /// Start the block loop and the transaction loop; the run has succeeded.
    StartMonitors,
    /// Stop everything and surface the error.
    Abort(FatalError),
}

pub open spec fn fatal_from_worker(error: WorkerError) -> FatalError {
    match error {
        WorkerError::Transport => FatalError::Transport,
        WorkerError::Store => FatalError::Store,
        WorkerError::Signal => FatalError::Signal,
        WorkerError::Protocol => FatalError::Protocol,
    }
}

pub open spec fn fatal_from_sequencer(error: SequencerError) -> FatalError {
    match error {
        SequencerError::Store => FatalError::Store,
        SequencerError::Signal => FatalError::Signal,
        SequencerError::Protocol => FatalError::Protocol,
        SequencerError::Gap { missing } => FatalError::Gap { missing },
    }
}

pub open spec fn fatal_from_refresh(error: RefreshError) -> FatalError {
    match error {
        RefreshError::Transport => FatalError::Transport,
        RefreshError::Store => FatalError::Store,
        RefreshError::Protocol => FatalError::Protocol,
    }
}

pub open spec fn run_failure(error: FatalError) -> (RunPhase, RunAction) {
    (RunPhase::Failed(error), RunAction::Abort(error))
}

/// Catch-up is over once every worker has stopped and the sequencer has
/// drained the channel; the mempool refresh begins then.
pub open spec fn run_settled(workers_left: usize, drained: bool) -> (RunPhase, RunAction) {
    if workers_left == 0 && drained {
        (
            RunPhase::Refreshing(RefreshPhase::Fetching),
            RunAction::Refresh(RefreshAction::FetchSnapshot),
        )
    } else {
        (RunPhase::CatchingUp { workers_left, drained }, RunAction::Wait)
    }
}

/// The next phase and the action for one event of a run.
pub open spec fn run_step(phase: RunPhase, event: RunEvent) -> (RunPhase, RunAction) {
    match phase {
        RunPhase::CatchingUp { workers_left, drained } => match event {
            RunEvent::WorkerStopped => if workers_left == 0 {
                run_failure(FatalError::Protocol)
            } else {
                run_settled((workers_left - 1) as usize, drained)
            },
            RunEvent::WorkerFailed(error) => run_failure(fatal_from_worker(error)),
            RunEvent::WorkerLost => run_failure(FatalError::WorkerLost),
            RunEvent::Drained => if drained {
                run_failure(FatalError::Protocol)
            } else {
                run_settled(workers_left, true)
            },
            RunEvent::DrainFailed(error) => run_failure(fatal_from_sequencer(error)),
            RunEvent::Refresh(_) => run_failure(FatalError::Protocol),
        },
        RunPhase::Refreshing(refresh) => match event {
            RunEvent::Refresh(inner) => match refresh_step(refresh, inner).1 {
                RefreshAction::Finish => (RunPhase::Live, RunAction::StartMonitors),
                RefreshAction::Abort(error) => run_failure(fatal_from_refresh(error)),
                action => (
                    RunPhase::Refreshing(refresh_step(refresh, inner).0),
                    RunAction::Refresh(action),
                ),
            },
            _ => run_failure(FatalError::Protocol),
        },
        RunPhase::Live => (RunPhase::Live, RunAction::StartMonitors),
        RunPhase::Failed(error) => (phase, RunAction::Abort(error)),
    }
}

/// The course of one indexing run: catch-up, mempool refresh, hand-over.
#[derive(Debug)]
pub struct IndexerRun {
    phase: RunPhase,
}

impl View for IndexerRun {
    type V = RunPhase;

    closed spec fn view(&self) -> RunPhase {
        self.phase
    }
}

impl IndexerRun {
    /// A run whose `workers` workers and sequencer have just been started.
    pub fn new(workers: usize) -> (run: Self)
        ensures
            run@ == (RunPhase::CatchingUp { workers_left: workers, drained: false }),
    {
        IndexerRun { phase: RunPhase::CatchingUp { workers_left: workers, drained: false } }
    }

    pub fn phase(&self) -> (phase: RunPhase)
        ensures
            phase == self@,
    {
        self.phase
    }

    /// Takes what happened outside and says what to do next.
    ///
    /// While catching up the run takes the outcomes of the workers and of
    /// the sequencer in any order. The first failure aborts the run at once.
    /// `StartMonitors` and `Abort` are final.
    pub fn step(&mut self, event: RunEvent) -> (action: RunAction)
        ensures
            final(self)@ == run_step(old(self)@, event).0,
            action == run_step(old(self)@, event).1,
    {
        let (phase, action) = match self.phase {
            RunPhase::CatchingUp { workers_left, drained } => match event {
                RunEvent::WorkerStopped => {
                    if workers_left == 0 {
                        fatal(FatalError::Protocol)
                    } else {
                        settled(workers_left - 1, drained)
                    }
                },
                RunEvent::WorkerFailed(error) => fatal(
                    match error {
                        WorkerError::Transport => FatalError::Transport,
                        WorkerError::Store => FatalError::Store,
                        WorkerError::Signal => FatalError::Signal,
                        WorkerError::Protocol => FatalError::Protocol,
                    },
                ),
                RunEvent::WorkerLost => fatal(FatalError::WorkerLost),
                RunEvent::Drained => {
                    if drained {
                        fatal(FatalError::Protocol)
                    } else {
                        settled(workers_left, true)
                    }
                },
                RunEvent::DrainFailed(error) => fatal(
                    match error {
                        SequencerError::Store => FatalError::Store,
                        SequencerError::Signal => FatalError::Signal,
                        SequencerError::Protocol => FatalError::Protocol,
                        SequencerError::Gap { missing } => FatalError::Gap { missing },
                    },
                ),
                RunEvent::Refresh(_) => fatal(FatalError::Protocol),
            },
            RunPhase::Refreshing(refresh) => match event {
                RunEvent::Refresh(inner) => {
                    let mut refresh = MempoolRefresh::resume(refresh);
                    match refresh.step(inner) {
                        RefreshAction::Finish => (RunPhase::Live, RunAction::StartMonitors),
                        RefreshAction::Abort(error) => fatal(
                            match error {
                                RefreshError::Transport => FatalError::Transport,
                                RefreshError::Store => FatalError::Store,
                                RefreshError::Protocol => FatalError::Protocol,
                            },
                        ),
                        action => (
                            RunPhase::Refreshing(refresh.phase()),
                            RunAction::Refresh(action),
                        ),
                    }
                },
                _ => fatal(FatalError::Protocol),
            },
            RunPhase::Live => (RunPhase::Live, RunAction::StartMonitors),
            RunPhase::Failed(error) => (self.phase, RunAction::Abort(error)),
        };
        self.phase = phase;
        action
    }
}

fn fatal(error: FatalError) -> (next: (RunPhase, RunAction))
    ensures
        next == run_failure(error),
{
    (RunPhase::Failed(error), RunAction::Abort(error))
}

fn settled(workers_left: usize, drained: bool) -> (next: (RunPhase, RunAction))
    ensures
        next == run_settled(workers_left, drained),
{
    if workers_left == 0 && drained {
        (
            RunPhase::Refreshing(RefreshPhase::Fetching),
            RunAction::Refresh(RefreshAction::FetchSnapshot),
        )
    } else {
        (RunPhase::CatchingUp { workers_left, drained }, RunAction::Wait)
    }
}

/// The live loops start only after every worker has stopped without error,
/// the sequencer has finished and the mempool refresh has completed; a
/// failure of any of them aborts the run and nothing starts afterwards.
pub proof fn monitors_start_only_after_catch_up(phase: RunPhase, event: RunEvent)
    ensures
        run_step(phase, event).1 is StartMonitors ==> phase is Live || phase is Refreshing,
        run_step(
            RunPhase::Refreshing(RefreshPhase::Applying),
            RunEvent::Refresh(RefreshEvent::Applied),
        ) == (RunPhase::Live, RunAction::StartMonitors),
        phase matches RunPhase::CatchingUp { workers_left, drained } ==> (run_step(
            phase,
            event,
        ).1 is Refresh <==> (event is WorkerStopped && workers_left == 1 && drained) || (
        event is Drained && workers_left == 0 && !drained)),
        (event is WorkerFailed || event is WorkerLost || event is DrainFailed) && (
        phase is CatchingUp) ==> run_step(phase, event).1 is Abort,
        phase is Failed ==> run_step(phase, event) == (phase, RunAction::Abort(phase->Failed_0)),
{
}

/// The height at which catch-up goes on: the height after the last one
/// committed, and the first height of the chain where nothing is
/// committed yet. There is none after the largest height.
pub open spec fn height_after(last_committed: Option<usize>) -> Option<usize> {
    match last_committed {
        None => Some(0usize),
        Some(height) => if height < usize::MAX {
            Some((height + 1) as usize)
        } else {
            None
        },
    }
}

/// The first height of a run, given the last height the index has
/// committed: the claim counter, the sequencer and the committed-height
/// signal all start there, so that the last committed block is not fetched
/// or applied again.
pub fn resume_height(last_committed: Option<usize>) -> (first: Option<usize>)
    ensures
        first == height_after(last_committed),
{
    match last_committed {
        None => Some(0),
        Some(height) => if height < usize::MAX {
            Some(height + 1)
        } else {
            None
        },
    }
}

/// A run that resumes after the last committed height has that height as
/// its highest committed one before anything is applied.
pub proof fn resuming_commits_nothing_again<B>(last_committed: usize, interval_ms: u128)
    requires
        last_committed < usize::MAX,
    ensures
        height_after(Some(last_committed)) matches Some(first) && SequencerModel::<B>::init(
            first,
            interval_ms,
        ).committed_height() == last_committed,
{
}

/// The message with which the node reports that it has no block at a height.
pub open spec fn end_of_chain_message() -> Seq<char> {
    "block not found"@
}

/// Tells the end of the chain from a failure of the chain source, by the
/// message of the failed fetch: the worker's event is `NotFound` exactly
/// when the message is the node's "block not found".
pub fn classify_fetch_failure(message: &str) -> (event: WorkerEvent)
    ensures
        event == (if message@ == end_of_chain_message() {
            WorkerEvent::NotFound
        } else {
            WorkerEvent::TransportFailed
        }),
{
    let given = message.to_owned();
    let expected = "block not found".to_owned();
    if given == expected {
        WorkerEvent::NotFound
    } else {
        WorkerEvent::TransportFailed
    }
}

/// Why a point query failed.
#[derive(Clone, Copy, Debug, PartialEq, Eq, Structural)]
pub enum QueryError {
    /// The node does not know the block.
    NoBlock,
    /// The block's entry holds a full transaction, or nothing, where a
    /// transaction hash was asked for.
    InvalidTxHash,
    /// A transaction hash is not 32 bytes long.
    HashLength,
    /// The store holds no metadata for a transaction of the block.
    UnindexedTx,
    /// The node does not know the transaction.
    NoTx,
    /// The store holds no metadata for the transaction.
    NoTxMeta,
}

/// The transaction hash of one entry of a block that was fetched without
/// full transactions. `hash` is the entry's hash, or `None` where the entry
/// holds something else.
pub fn block_tx_hash(hash: Option<&[u8]>) -> (result: Result<[u8; 32], QueryError>)
    ensures
        match result {
            Ok(bytes) => hash matches Some(given) && given@ == bytes@,
            Err(QueryError::InvalidTxHash) => hash is None,
            Err(QueryError::HashLength) => hash matches Some(given) && given@.len() != 32,
            Err(_) => false,
        },
{
    match hash {
        None => Err(QueryError::InvalidTxHash),
        Some(given) => {
            if given.len() != 32 {
                return Err(QueryError::HashLength);
            }
            let mut bytes: [u8; 32] = [0u8; 32];
            let mut i: usize = 0;
            while i < 32
                invariant
                    i <= 32,
                    given@.len() == 32,
                    forall|k: int| 0 <= k < i ==> bytes@[k] == given@[k],
                decreases 32 - i,
            {
                bytes[i] = given[i];
                i += 1;
            }
            Ok(bytes)
        },
    }
}

/// The answer of the node to the request for a block: what it returned,
/// or `NoBlock` where it returned nothing.
pub fn found_block<E>(block: Option<E>) -> (result: Result<E, QueryError>)
    ensures
        result == (match block {
            Some(found) => Ok::<E, QueryError>(found),
            None => Err::<E, QueryError>(QueryError::NoBlock),
        }),
{
    match block {
        Some(found) => Ok(found),
        None => Err(QueryError::NoBlock),
    }
}

/// One transaction of a block with its metadata, or `UnindexedTx` where
/// the store holds none for it.
pub fn indexed_block_tx<M>(tx_hash: [u8; 32], tx_meta: Option<M>) -> (result: Result<
    ([u8; 32], M),
    QueryError,
>)
    ensures
        result == (match tx_meta {
            Some(meta) => Ok::<([u8; 32], M), QueryError>((tx_hash, meta)),
            None => Err::<([u8; 32], M), QueryError>(QueryError::UnindexedTx),
        }),
{
    match tx_meta {
        Some(meta) => Ok((tx_hash, meta)),
        None => Err(QueryError::UnindexedTx),
    }
}

/// The token whose metadata belongs to a transaction: the token id of its
/// token section, unless there is none or it is empty.
pub fn token_to_look_up<'a>(token_id: Option<&'a [u8]>) -> (wanted: Option<&'a [u8]>)
    ensures
        wanted == (match token_id {
            Some(id) if id@.len() > 0 => Some(id),
            _ => None,
        }),
{
    match token_id {
        Some(id) => if id.len() > 0 {
            Some(id)
        } else {
            None
        },
        None => None,
    }
}

/// A transaction with everything the index knows about it. The pipeline
/// carries the node's transaction, the metadata and the spends as they are.
#[derive(Debug)]
pub struct Tx<T, M, K, S> {
    pub transaction: T,
    pub tx_meta: M,
    pub token_meta: Option<K>,
    pub raw_tx: Vec<u8>,
    pub tx_out_spends: S,
}

impl<T, M, K, S> Tx<T, M, K, S> {
    /// Puts together the answer to a transaction query. The query fails
    /// with `NoTx` when the node did not return the transaction, and
    /// otherwise with `NoTxMeta` when the store has no metadata for it.
    pub fn assemble(
        transaction: Option<T>,
        tx_meta: Option<M>,
        token_meta: Option<K>,
        raw_tx: Vec<u8>,
        tx_out_spends: S,
    ) -> (result: Result<Self, QueryError>)
        ensures
            match (transaction, tx_meta) {
                (None, _) => result == Err::<Self, QueryError>(QueryError::NoTx),
                (Some(_), None) => result == Err::<Self, QueryError>(QueryError::NoTxMeta),
                (Some(transaction), Some(tx_meta)) => result == Ok::<Self, QueryError>(
                    Tx { transaction, tx_meta, token_meta, raw_tx, tx_out_spends },
                ),
            },
    {
        match transaction {
            None => Err(QueryError::NoTx),
            Some(transaction) => match tx_meta {
                None => Err(QueryError::NoTxMeta),
                Some(tx_meta) => Ok(Tx { transaction, tx_meta, token_meta, raw_tx, tx_out_spends }),
            },
        }
    }
}

} // verus!
