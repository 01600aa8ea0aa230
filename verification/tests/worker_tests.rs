use explorer_server::worker::{FetchWorker, WorkerAction, WorkerError, WorkerEvent, WorkerPhase};

#[test]
fn worker_runs_one_full_round() {
    let mut worker = FetchWorker::new(1000, false);
    assert_eq!(worker.phase(), WorkerPhase::Claiming);
    assert_eq!(worker.step(WorkerEvent::Claimed { height: 3 }), WorkerAction::ReadFrontier);
    assert_eq!(worker.step(WorkerEvent::Frontier { frontier: 0 }), WorkerAction::Fetch { height: 3 });
    assert_eq!(worker.step(WorkerEvent::Fetched), WorkerAction::Build { height: 3 });
    assert_eq!(worker.step(WorkerEvent::Built), WorkerAction::Send { height: 3 });
    assert_eq!(worker.step(WorkerEvent::Sent), WorkerAction::Claim);
    assert_eq!(worker.phase(), WorkerPhase::Claiming);
}

#[test]
fn worker_waits_until_the_frontier_is_close_enough() {
    let mut worker = FetchWorker::new(10, false);
    worker.step(WorkerEvent::Claimed { height: 25 });
    assert_eq!(
        worker.step(WorkerEvent::Frontier { frontier: 3 }),
        WorkerAction::AwaitFrontier { height: 25, frontier: 3 }
    );
    assert_eq!(worker.phase(), WorkerPhase::Throttled { height: 25 });
    assert_eq!(
        worker.step(WorkerEvent::Frontier { frontier: 15 }),
        WorkerAction::AwaitFrontier { height: 25, frontier: 15 }
    );
    assert_eq!(worker.step(WorkerEvent::Frontier { frontier: 16 }), WorkerAction::Fetch { height: 25 });
}

#[test]
fn end_of_chain_stops_a_worker_without_error() {
    let mut worker = FetchWorker::new(1000, false);
    worker.step(WorkerEvent::Claimed { height: 50 });
    worker.step(WorkerEvent::Frontier { frontier: 40 });
    assert_eq!(worker.step(WorkerEvent::NotFound), WorkerAction::Stop);
    assert_eq!(worker.phase(), WorkerPhase::Done);
    assert_eq!(worker.step(WorkerEvent::Claimed { height: 51 }), WorkerAction::Stop);
    assert_eq!(worker.step(WorkerEvent::Fetched), WorkerAction::Stop);
}

#[test]
fn transport_failure_is_fatal() {
    let mut worker = FetchWorker::new(1000, false);
    worker.step(WorkerEvent::Claimed { height: 30 });
    worker.step(WorkerEvent::Frontier { frontier: 30 });
    assert_eq!(worker.step(WorkerEvent::TransportFailed), WorkerAction::Abort(WorkerError::Transport));
    assert_eq!(worker.phase(), WorkerPhase::Failed(WorkerError::Transport));
    assert_eq!(worker.step(WorkerEvent::Sent), WorkerAction::Abort(WorkerError::Transport));
}

#[test]
fn build_failure_is_fatal() {
    let mut worker = FetchWorker::new(1000, false);
    worker.step(WorkerEvent::Claimed { height: 1 });
    worker.step(WorkerEvent::Frontier { frontier: 1 });
    worker.step(WorkerEvent::Fetched);
    assert_eq!(worker.step(WorkerEvent::BuildFailed), WorkerAction::Abort(WorkerError::Store));
}

#[test]
fn closed_channel_drops_the_batch_and_goes_on() {
    let mut worker = FetchWorker::new(1000, false);
    worker.step(WorkerEvent::Claimed { height: 1 });
    worker.step(WorkerEvent::Frontier { frontier: 1 });
    worker.step(WorkerEvent::Fetched);
    worker.step(WorkerEvent::Built);
    assert_eq!(worker.step(WorkerEvent::ChannelClosed), WorkerAction::Claim);
}

#[test]
fn cancellable_worker_polls_once_per_block() {
    let mut worker = FetchWorker::new(1000, true);
    worker.step(WorkerEvent::Claimed { height: 0 });
    worker.step(WorkerEvent::Frontier { frontier: 0 });
    worker.step(WorkerEvent::Fetched);
    worker.step(WorkerEvent::Built);
    assert_eq!(worker.step(WorkerEvent::Sent), WorkerAction::PollShutdown);
    assert_eq!(worker.phase(), WorkerPhase::Polling);
    assert_eq!(worker.step(WorkerEvent::Shutdown { requested: false }), WorkerAction::Claim);
    worker.step(WorkerEvent::Claimed { height: 1 });
    worker.step(WorkerEvent::Frontier { frontier: 1 });
    worker.step(WorkerEvent::Fetched);
    worker.step(WorkerEvent::Built);
    assert_eq!(worker.step(WorkerEvent::Sent), WorkerAction::PollShutdown);
    assert_eq!(worker.step(WorkerEvent::Shutdown { requested: true }), WorkerAction::Stop);
    assert_eq!(worker.phase(), WorkerPhase::Done);
}

#[test]
fn lost_signal_aborts_a_waiting_worker() {
    let mut worker = FetchWorker::new(10, false);
    worker.step(WorkerEvent::Claimed { height: 25 });
    assert_eq!(
        worker.step(WorkerEvent::Frontier { frontier: 3 }),
        WorkerAction::AwaitFrontier { height: 25, frontier: 3 }
    );
    assert_eq!(worker.step(WorkerEvent::SignalClosed), WorkerAction::Abort(WorkerError::Signal));
    assert_eq!(worker.phase(), WorkerPhase::Failed(WorkerError::Signal));
    assert_eq!(worker.step(WorkerEvent::Frontier { frontier: 30 }), WorkerAction::Abort(WorkerError::Signal));
    // only a worker at the throttle listens to the signal
    let mut worker = FetchWorker::new(10, false);
    assert_eq!(worker.step(WorkerEvent::SignalClosed), WorkerAction::Abort(WorkerError::Protocol));
}

#[test]
fn exhausted_counter_stops_a_worker() {
    let mut worker = FetchWorker::new(1000, false);
    assert_eq!(worker.step(WorkerEvent::Exhausted), WorkerAction::Stop);
}

#[test]
fn event_out_of_turn_aborts_a_worker() {
    let mut worker = FetchWorker::new(1000, false);
    assert_eq!(worker.step(WorkerEvent::Fetched), WorkerAction::Abort(WorkerError::Protocol));
    let mut worker = FetchWorker::new(1000, false);
    worker.step(WorkerEvent::Claimed { height: 0 });
    assert_eq!(worker.step(WorkerEvent::Sent), WorkerAction::Abort(WorkerError::Protocol));
    assert_eq!(worker.phase(), WorkerPhase::Failed(WorkerError::Protocol));
}
