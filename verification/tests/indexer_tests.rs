use explorer_server::indexer::{
    block_tx_hash, classify_fetch_failure, found_block, indexed_block_tx, resume_height,
    token_to_look_up, FatalError, Indexer, IndexerDevelopment, IndexerProduction, IndexerRun,
    InterruptAction, PipelineSettings, QueryError, RunAction, RunEvent, RunPhase, Tx,
    MAX_FETCH_AHEAD, REPORT_INTERVAL_MS,
};
use explorer_server::mempool::{RefreshAction, RefreshEvent, RefreshPhase};
use explorer_server::monitor::{MonitorAction, MonitorEvent, MonitorPhase};
use explorer_server::sequencer::SequencerError;
use explorer_server::worker::{WorkerAction, WorkerError, WorkerEvent, WorkerPhase};

#[test]
fn production_pipeline_has_fifty_workers() {
    let indexer = IndexerProduction::connect();
    assert_eq!(
        indexer.settings(),
        PipelineSettings {
            workers: 50,
            lookahead: 1000,
            channel_capacity: 100,
            cancellable: false,
            report_interval_ms: 10_000,
        }
    );
    assert_eq!(MAX_FETCH_AHEAD, 1000);
    assert_eq!(REPORT_INTERVAL_MS, 10_000);
}

#[test]
fn development_pipeline_has_one_cancellable_worker() {
    let indexer = IndexerDevelopment::connect();
    assert_eq!(
        indexer.settings(),
        PipelineSettings {
            workers: 1,
            lookahead: 1000,
            channel_capacity: 2,
            cancellable: true,
            report_interval_ms: 10_000,
        }
    );
}

#[test]
fn index_thread_follows_the_variant() {
    let mut worker = IndexerProduction::connect().index_thread();
    assert_eq!(worker.phase(), WorkerPhase::Claiming);
    worker.step(WorkerEvent::Claimed { height: 1000 });
    assert_eq!(
        worker.step(WorkerEvent::Frontier { frontier: 0 }),
        WorkerAction::AwaitFrontier { height: 1000, frontier: 0 }
    );
    assert_eq!(worker.step(WorkerEvent::Frontier { frontier: 1 }), WorkerAction::Fetch { height: 1000 });
    worker.step(WorkerEvent::Fetched);
    worker.step(WorkerEvent::Built);
    assert_eq!(worker.step(WorkerEvent::Sent), WorkerAction::Claim);

    let mut worker = IndexerDevelopment::connect().index_thread();
    worker.step(WorkerEvent::Claimed { height: 0 });
    worker.step(WorkerEvent::Frontier { frontier: 0 });
    worker.step(WorkerEvent::Fetched);
    worker.step(WorkerEvent::Built);
    assert_eq!(worker.step(WorkerEvent::Sent), WorkerAction::PollShutdown);
}

#[test]
fn variants_build_the_machines_of_a_run() {
    let indexer = IndexerProduction::connect();
    assert_eq!(
        indexer.run_indexer_inner().phase(),
        RunPhase::CatchingUp { workers_left: 50, drained: false }
    );
    assert_eq!(indexer.monitor_new_blocks().phase(), MonitorPhase::Subscribing);
    assert_eq!(indexer.update_mempool().phase(), RefreshPhase::Fetching);
    let sequencer = indexer.sequencer::<u8>(77);
    assert_eq!(sequencer.frontier(), 77);

    let indexer = IndexerDevelopment::connect();
    assert_eq!(
        indexer.run_indexer_inner().phase(),
        RunPhase::CatchingUp { workers_left: 1, drained: false }
    );
    // the block loop refreshes the mempool after a block, the other loop does not
    let mut blocks = indexer.monitor_new_blocks();
    let mut transactions = indexer.monitor_mempool();
    for monitor in [&mut blocks, &mut transactions] {
        monitor.step(MonitorEvent::Subscribed);
        monitor.step(MonitorEvent::Item);
        monitor.step(MonitorEvent::Built);
    }
    assert_eq!(
        blocks.step(MonitorEvent::Applied),
        MonitorAction::Refresh(RefreshAction::FetchSnapshot)
    );
    assert_eq!(transactions.step(MonitorEvent::Applied), MonitorAction::NextMessage);
}

#[test]
fn first_interrupt_stops_indexing_second_exits() {
    let mut indexer = IndexerDevelopment::connect();
    assert!(!indexer.scheduled_for_termination());
    assert_eq!(indexer.interrupt(), InterruptAction::StopIndexing);
    assert!(indexer.scheduled_for_termination());
    assert_eq!(indexer.interrupt(), InterruptAction::ExitProcess);
    assert_eq!(indexer.interrupt(), InterruptAction::ExitProcess);
    assert!(indexer.scheduled_for_termination());
}

#[test]
fn run_hands_over_after_workers_sequencer_and_refresh() {
    let mut run = IndexerRun::new(2);
    assert_eq!(run.phase(), RunPhase::CatchingUp { workers_left: 2, drained: false });
    assert_eq!(run.step(RunEvent::WorkerStopped), RunAction::Wait);
    assert_eq!(run.step(RunEvent::WorkerStopped), RunAction::Wait);
    assert_eq!(run.phase(), RunPhase::CatchingUp { workers_left: 0, drained: false });
    assert_eq!(run.step(RunEvent::Drained), RunAction::Refresh(RefreshAction::FetchSnapshot));
    assert_eq!(
        run.step(RunEvent::Refresh(RefreshEvent::Fetched)),
        RunAction::Refresh(RefreshAction::BuildBatch)
    );
    assert_eq!(
        run.step(RunEvent::Refresh(RefreshEvent::Built)),
        RunAction::Refresh(RefreshAction::ClearIndex)
    );
    assert_eq!(run.phase(), RunPhase::Refreshing(RefreshPhase::Clearing));
    assert_eq!(
        run.step(RunEvent::Refresh(RefreshEvent::Cleared)),
        RunAction::Refresh(RefreshAction::ApplyBatch)
    );
    assert_eq!(run.step(RunEvent::Refresh(RefreshEvent::Applied)), RunAction::StartMonitors);
    assert_eq!(run.phase(), RunPhase::Live);
    assert_eq!(run.step(RunEvent::WorkerStopped), RunAction::StartMonitors);
}

#[test]
fn run_takes_outcomes_in_any_order() {
    let mut run = IndexerRun::new(1);
    assert_eq!(run.step(RunEvent::Drained), RunAction::Wait);
    assert_eq!(run.step(RunEvent::WorkerStopped), RunAction::Refresh(RefreshAction::FetchSnapshot));
}

#[test]
fn run_without_workers_refreshes_once_drained() {
    let mut run = IndexerRun::new(0);
    assert_eq!(run.step(RunEvent::Drained), RunAction::Refresh(RefreshAction::FetchSnapshot));
}

#[test]
fn worker_failure_aborts_the_run_at_once() {
    let mut run = IndexerRun::new(50);
    assert_eq!(run.step(RunEvent::WorkerStopped), RunAction::Wait);
    assert_eq!(
        run.step(RunEvent::WorkerFailed(WorkerError::Transport)),
        RunAction::Abort(FatalError::Transport)
    );
    assert_eq!(run.phase(), RunPhase::Failed(FatalError::Transport));
    assert_eq!(run.step(RunEvent::Drained), RunAction::Abort(FatalError::Transport));
    assert_eq!(run.step(RunEvent::WorkerStopped), RunAction::Abort(FatalError::Transport));

    let mut run = IndexerRun::new(1);
    assert_eq!(
        run.step(RunEvent::WorkerFailed(WorkerError::Store)),
        RunAction::Abort(FatalError::Store)
    );
    let mut run = IndexerRun::new(1);
    assert_eq!(run.step(RunEvent::WorkerLost), RunAction::Abort(FatalError::WorkerLost));
}

#[test]
fn sequencer_failure_aborts_the_run() {
    let mut run = IndexerRun::new(3);
    assert_eq!(
        run.step(RunEvent::DrainFailed(SequencerError::Store)),
        RunAction::Abort(FatalError::Store)
    );
    let mut run = IndexerRun::new(3);
    assert_eq!(
        run.step(RunEvent::DrainFailed(SequencerError::Signal)),
        RunAction::Abort(FatalError::Signal)
    );
}

#[test]
fn gap_at_the_end_aborts_the_run_though_all_workers_stopped() {
    let mut run = IndexerProduction::connect().run_indexer_inner();
    for _ in 0..50 {
        assert_eq!(run.step(RunEvent::WorkerStopped), RunAction::Wait);
    }
    assert_eq!(
        run.step(RunEvent::DrainFailed(SequencerError::Gap { missing: 1 })),
        RunAction::Abort(FatalError::Gap { missing: 1 })
    );
    assert_eq!(run.phase(), RunPhase::Failed(FatalError::Gap { missing: 1 }));
    assert_eq!(
        run.step(RunEvent::Refresh(RefreshEvent::Fetched)),
        RunAction::Abort(FatalError::Gap { missing: 1 })
    );
}

#[test]
fn lost_signal_of_a_worker_aborts_the_run() {
    let mut run = IndexerRun::new(2);
    assert_eq!(
        run.step(RunEvent::WorkerFailed(WorkerError::Signal)),
        RunAction::Abort(FatalError::Signal)
    );
}

#[test]
fn run_resumes_after_the_last_committed_height() {
    assert_eq!(resume_height(None), Some(0));
    assert_eq!(resume_height(Some(0)), Some(1));
    assert_eq!(resume_height(Some(699_999)), Some(700_000));
    assert_eq!(resume_height(Some(usize::MAX - 1)), Some(usize::MAX));
    assert_eq!(resume_height(Some(usize::MAX)), None);
    let first = resume_height(Some(41)).expect("a height is left");
    let sequencer = IndexerProduction::connect().sequencer::<u8>(first);
    assert_eq!(sequencer.frontier(), 42);
    assert_eq!(sequencer.committed_height(), Some(41));
}

#[test]
fn block_query_needs_the_block_and_the_metadata_of_each_transaction() {
    assert_eq!(found_block(Some(vec![1, 2])), Ok(vec![1, 2]));
    assert_eq!(found_block::<Vec<u8>>(None), Err(QueryError::NoBlock));
    assert_eq!(indexed_block_tx([7u8; 32], Some("meta")), Ok(([7u8; 32], "meta")));
    assert_eq!(indexed_block_tx::<&str>([7u8; 32], None), Err(QueryError::UnindexedTx));
}

#[test]
fn failed_refresh_aborts_the_run() {
    let mut run = IndexerRun::new(0);
    run.step(RunEvent::Drained);
    assert_eq!(
        run.step(RunEvent::Refresh(RefreshEvent::FetchFailed)),
        RunAction::Abort(FatalError::Transport)
    );
    let mut run = IndexerRun::new(0);
    run.step(RunEvent::Drained);
    run.step(RunEvent::Refresh(RefreshEvent::Fetched));
    assert_eq!(
        run.step(RunEvent::Refresh(RefreshEvent::StoreFailed)),
        RunAction::Abort(FatalError::Store)
    );
}

#[test]
fn run_rejects_events_out_of_turn() {
    let mut run = IndexerRun::new(0);
    assert_eq!(run.step(RunEvent::WorkerStopped), RunAction::Abort(FatalError::Protocol));
    let mut run = IndexerRun::new(1);
    run.step(RunEvent::Drained);
    assert_eq!(run.step(RunEvent::Drained), RunAction::Abort(FatalError::Protocol));
    let mut run = IndexerRun::new(1);
    assert_eq!(
        run.step(RunEvent::Refresh(RefreshEvent::Fetched)),
        RunAction::Abort(FatalError::Protocol)
    );
}

#[test]
fn block_not_found_is_the_end_of_the_chain() {
    assert_eq!(classify_fetch_failure("block not found"), WorkerEvent::NotFound);
    assert_eq!(classify_fetch_failure("Block not found"), WorkerEvent::TransportFailed);
    assert_eq!(classify_fetch_failure("block not found "), WorkerEvent::TransportFailed);
    assert_eq!(classify_fetch_failure("connection reset"), WorkerEvent::TransportFailed);
    assert_eq!(classify_fetch_failure(""), WorkerEvent::TransportFailed);
}

#[test]
fn block_entry_must_be_a_hash_of_thirty_two_bytes() {
    let hash: Vec<u8> = (0u8..32).collect();
    let mut expected = [0u8; 32];
    expected.copy_from_slice(&hash);
    assert_eq!(block_tx_hash(Some(&hash)), Ok(expected));
    assert_eq!(block_tx_hash(None), Err(QueryError::InvalidTxHash));
    assert_eq!(block_tx_hash(Some(&hash[..31])), Err(QueryError::HashLength));
    assert_eq!(block_tx_hash(Some(&[])), Err(QueryError::HashLength));
    let long = vec![7u8; 33];
    assert_eq!(block_tx_hash(Some(&long)), Err(QueryError::HashLength));
}

#[test]
fn token_is_looked_up_only_for_a_non_empty_id() {
    let id = [1u8, 2, 3];
    assert_eq!(token_to_look_up(Some(&id)), Some(&id[..]));
    assert_eq!(token_to_look_up(Some(&[])), None);
    assert_eq!(token_to_look_up(None), None);
}

#[test]
fn transaction_answer_needs_the_transaction_and_its_meta() {
    let found: Result<Tx<&str, u32, u8, ()>, QueryError> =
        Tx::assemble(Some("tx"), Some(7), Some(1), vec![0xde, 0xad], ());
    let tx = found.expect("complete");
    assert_eq!(tx.transaction, "tx");
    assert_eq!(tx.tx_meta, 7);
    assert_eq!(tx.token_meta, Some(1));
    assert_eq!(tx.raw_tx, vec![0xde, 0xad]);

    let missing: Result<Tx<&str, u32, u8, ()>, QueryError> =
        Tx::assemble(None, Some(7), None, vec![], ());
    assert_eq!(missing.err(), Some(QueryError::NoTx));
    let missing: Result<Tx<&str, u32, u8, ()>, QueryError> =
        Tx::assemble(None, None, None, vec![], ());
    assert_eq!(missing.err(), Some(QueryError::NoTx));
    let missing: Result<Tx<&str, u32, u8, ()>, QueryError> =
        Tx::assemble(Some("tx"), None, None, vec![], ());
    assert_eq!(missing.err(), Some(QueryError::NoTxMeta));
}
