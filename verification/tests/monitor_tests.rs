use explorer_server::mempool::{MempoolRefresh, RefreshAction, RefreshError, RefreshEvent, RefreshPhase};
use explorer_server::monitor::{
    LiveMonitor, MonitorAction, MonitorEvent, MonitorKind, MonitorPhase, RestartCause,
};

#[test]
fn refresh_fetches_builds_clears_applies() {
    let mut refresh = MempoolRefresh::new();
    assert_eq!(refresh.phase(), RefreshPhase::Fetching);
    assert_eq!(refresh.step(RefreshEvent::Fetched), RefreshAction::BuildBatch);
    assert_eq!(refresh.step(RefreshEvent::Built), RefreshAction::ClearIndex);
    assert_eq!(refresh.step(RefreshEvent::Cleared), RefreshAction::ApplyBatch);
    assert_eq!(refresh.step(RefreshEvent::Applied), RefreshAction::Finish);
    assert_eq!(refresh.phase(), RefreshPhase::Done);
    assert_eq!(refresh.step(RefreshEvent::Fetched), RefreshAction::Finish);
}

#[test]
fn refresh_fails_with_the_cause() {
    let mut refresh = MempoolRefresh::new();
    assert_eq!(refresh.step(RefreshEvent::FetchFailed), RefreshAction::Abort(RefreshError::Transport));
    assert_eq!(refresh.step(RefreshEvent::Fetched), RefreshAction::Abort(RefreshError::Transport));

    let mut refresh = MempoolRefresh::new();
    refresh.step(RefreshEvent::Fetched);
    refresh.step(RefreshEvent::Built);
    assert_eq!(refresh.step(RefreshEvent::StoreFailed), RefreshAction::Abort(RefreshError::Store));
    assert_eq!(refresh.phase(), RefreshPhase::Failed(RefreshError::Store));

    let mut refresh = MempoolRefresh::new();
    assert_eq!(refresh.step(RefreshEvent::Cleared), RefreshAction::Abort(RefreshError::Protocol));
}

#[test]
fn refresh_twice_gives_the_same_index_as_once() {
    // a store whose mempool index is a list of transaction names
    fn carry_out(index: &mut Vec<&'static str>, snapshot: &[&'static str]) {
        let mut refresh = MempoolRefresh::new();
        let mut action = RefreshAction::FetchSnapshot;
        loop {
            let event = match action {
                RefreshAction::FetchSnapshot => RefreshEvent::Fetched,
                RefreshAction::BuildBatch => RefreshEvent::Built,
                RefreshAction::ClearIndex => {
                    index.clear();
                    RefreshEvent::Cleared
                }
                RefreshAction::ApplyBatch => {
                    index.extend_from_slice(snapshot);
                    RefreshEvent::Applied
                }
                RefreshAction::Finish => break,
                RefreshAction::Abort(error) => panic!("refresh failed: {:?}", error),
            };
            action = refresh.step(event);
        }
    }
    let snapshot = ["a", "b", "c"];
    let mut index = vec!["stale", "a"];
    carry_out(&mut index, &snapshot);
    let once = index.clone();
    assert_eq!(once, vec!["a", "b", "c"]);
    carry_out(&mut index, &snapshot);
    assert_eq!(index, once);
}

#[test]
fn block_loop_applies_then_refreshes() {
    let mut monitor = LiveMonitor::new(MonitorKind::Blocks);
    assert_eq!(monitor.phase(), MonitorPhase::Subscribing);
    assert_eq!(monitor.step(MonitorEvent::Subscribed), MonitorAction::NextMessage);
    assert_eq!(monitor.step(MonitorEvent::Item), MonitorAction::BuildBatch);
    assert_eq!(monitor.step(MonitorEvent::Built), MonitorAction::ApplyBatch);
    assert_eq!(
        monitor.step(MonitorEvent::Applied),
        MonitorAction::Refresh(RefreshAction::FetchSnapshot)
    );
    assert_eq!(
        monitor.step(MonitorEvent::Refresh(RefreshEvent::Fetched)),
        MonitorAction::Refresh(RefreshAction::BuildBatch)
    );
    assert_eq!(
        monitor.step(MonitorEvent::Refresh(RefreshEvent::Built)),
        MonitorAction::Refresh(RefreshAction::ClearIndex)
    );
    assert_eq!(
        monitor.step(MonitorEvent::Refresh(RefreshEvent::Cleared)),
        MonitorAction::Refresh(RefreshAction::ApplyBatch)
    );
    assert_eq!(monitor.step(MonitorEvent::Refresh(RefreshEvent::Applied)), MonitorAction::NextMessage);
    assert_eq!(monitor.phase(), MonitorPhase::Listening);
}

#[test]
fn transaction_loop_applies_and_listens_again() {
    let mut monitor = LiveMonitor::new(MonitorKind::Transactions);
    monitor.step(MonitorEvent::Subscribed);
    assert_eq!(monitor.step(MonitorEvent::Other), MonitorAction::NextMessage);
    assert_eq!(monitor.step(MonitorEvent::Item), MonitorAction::BuildBatch);
    assert_eq!(monitor.step(MonitorEvent::Built), MonitorAction::ApplyBatch);
    assert_eq!(monitor.step(MonitorEvent::Applied), MonitorAction::NextMessage);
}

/// Drives the block loop over a stream of blocks and counts how often each
/// height is applied. `None` in the stream is a stream error.
fn follow(stream: &[Option<usize>]) -> Vec<usize> {
    let mut monitor = LiveMonitor::new(MonitorKind::Blocks);
    let mut applied = Vec::new();
    let mut upcoming = stream.iter();
    let mut at_hand = 0;
    let mut action = monitor.step(MonitorEvent::Subscribed);
    loop {
        let event = match action {
            MonitorAction::Restart(_) => MonitorEvent::Subscribed,
            MonitorAction::NextMessage => match upcoming.next() {
                Some(Some(height)) => {
                    at_hand = *height;
                    MonitorEvent::Item
                }
                Some(None) => MonitorEvent::StreamFailed,
                None => return applied,
            },
            MonitorAction::BuildBatch => MonitorEvent::Built,
            MonitorAction::ApplyBatch => {
                applied.push(at_hand);
                MonitorEvent::Applied
            }
            MonitorAction::Refresh(RefreshAction::FetchSnapshot) => {
                MonitorEvent::Refresh(RefreshEvent::Fetched)
            }
            MonitorAction::Refresh(RefreshAction::BuildBatch) => {
                MonitorEvent::Refresh(RefreshEvent::Built)
            }
            MonitorAction::Refresh(RefreshAction::ClearIndex) => {
                MonitorEvent::Refresh(RefreshEvent::Cleared)
            }
            MonitorAction::Refresh(RefreshAction::ApplyBatch) => {
                MonitorEvent::Refresh(RefreshEvent::Applied)
            }
            MonitorAction::Refresh(other) => panic!("unexpected refresh action {:?}", other),
        };
        action = monitor.step(event);
    }
}

#[test]
fn stream_error_after_block_hundred_restarts_and_goes_on_with_the_next() {
    let applied = follow(&[Some(99), Some(100), None, Some(101), Some(102)]);
    assert_eq!(applied, vec![99, 100, 101, 102]);
}

#[test]
fn stream_error_restarts_the_subscription() {
    let mut monitor = LiveMonitor::new(MonitorKind::Blocks);
    monitor.step(MonitorEvent::Subscribed);
    assert_eq!(monitor.step(MonitorEvent::StreamFailed), MonitorAction::Restart(RestartCause::Transport));
    assert_eq!(monitor.phase(), MonitorPhase::Subscribing);
    assert_eq!(monitor.step(MonitorEvent::SubscribeFailed), MonitorAction::Restart(RestartCause::Transport));
    assert_eq!(monitor.step(MonitorEvent::SubscribeFailed), MonitorAction::Restart(RestartCause::Transport));
    assert_eq!(monitor.step(MonitorEvent::Subscribed), MonitorAction::NextMessage);
    assert_eq!(monitor.step(MonitorEvent::StreamEnded), MonitorAction::Restart(RestartCause::StreamEnded));
}

#[test]
fn store_failure_in_a_live_loop_only_restarts_it() {
    let mut monitor = LiveMonitor::new(MonitorKind::Transactions);
    monitor.step(MonitorEvent::Subscribed);
    monitor.step(MonitorEvent::Item);
    assert_eq!(monitor.step(MonitorEvent::StoreFailed), MonitorAction::Restart(RestartCause::Store));
    monitor.step(MonitorEvent::Subscribed);
    monitor.step(MonitorEvent::Item);
    monitor.step(MonitorEvent::Built);
    assert_eq!(monitor.step(MonitorEvent::StoreFailed), MonitorAction::Restart(RestartCause::Store));
    assert_eq!(monitor.phase(), MonitorPhase::Subscribing);
}

#[test]
fn failed_refresh_restarts_the_block_loop() {
    let mut monitor = LiveMonitor::new(MonitorKind::Blocks);
    monitor.step(MonitorEvent::Subscribed);
    monitor.step(MonitorEvent::Item);
    monitor.step(MonitorEvent::Built);
    monitor.step(MonitorEvent::Applied);
    assert_eq!(
        monitor.step(MonitorEvent::Refresh(RefreshEvent::FetchFailed)),
        MonitorAction::Restart(RestartCause::Transport)
    );
    monitor.step(MonitorEvent::Subscribed);
    monitor.step(MonitorEvent::Item);
    monitor.step(MonitorEvent::Built);
    monitor.step(MonitorEvent::Applied);
    monitor.step(MonitorEvent::Refresh(RefreshEvent::Fetched));
    monitor.step(MonitorEvent::Refresh(RefreshEvent::Built));
    assert_eq!(
        monitor.step(MonitorEvent::Refresh(RefreshEvent::StoreFailed)),
        MonitorAction::Restart(RestartCause::Store)
    );
}

#[test]
fn event_out_of_turn_restarts_a_loop() {
    let mut monitor = LiveMonitor::new(MonitorKind::Blocks);
    assert_eq!(monitor.step(MonitorEvent::Applied), MonitorAction::Restart(RestartCause::Protocol));
    monitor.step(MonitorEvent::Subscribed);
    assert_eq!(monitor.step(MonitorEvent::Built), MonitorAction::Restart(RestartCause::Protocol));
}
