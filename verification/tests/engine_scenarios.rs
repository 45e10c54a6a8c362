use nakadi::committer::CommitFailureAction;
use nakadi::connection::ConnectionState;
use nakadi::cursor::SubscriptionId;
use nakadi::engine::{Engine, LineOutcome};
use nakadi::errors::{classify_status, ErrorKind};

fn fresh_engine() -> Engine {
    let mut e = Engine::new(
        SubscriptionId("sub-1".to_string()),
        4,
        3,
        100,
        1_000,
    );
    e.open_requested();
    assert_eq!(e.state, ConnectionState::Connecting);
    e.connected(250);
    assert_eq!(e.state, ConnectionState::Streaming);
    e
}

#[test]
fn three_line_stream_dispatches_two_batches_and_commits_in_order() {
    let mut e = fresh_engine();

    let line1 = br#"{"cursor":{"partition":"0","offset":"1"},"events":[{"n":1}]}"#.to_vec();
    let line2 = b"   ".to_vec();
    let line3 = br#"{"cursor":{"partition":"0","offset":"2"},"events":[{"n":2}]}"#.to_vec();

    assert_eq!(e.on_line(&line1), LineOutcome::Dispatched);
    assert_eq!(e.on_line(&line2), LineOutcome::KeptAlive);
    assert_eq!(e.on_line(&line3), LineOutcome::Dispatched);

    assert_eq!(e.dispatcher.queued(), 2);
    let stats = e.stats();
    assert_eq!(stats.stream.keep_alives_per_second.count, 1);
    assert_eq!(stats.stream.batches_dropped_per_second.count, 0);

    let first = e.worker_step(true, 10).expect("first batch yields a commit");
    assert_eq!(first.partition, b"0".to_vec());
    assert_eq!(first.offset, b"1".to_vec());
    e.commit_succeeded(&first, 5);

    let second = e.worker_step(true, 10).expect("second batch yields a commit");
    assert_eq!(second.partition, b"0".to_vec());
    assert_eq!(second.offset, b"2".to_vec());
    e.commit_succeeded(&second, 5);

    assert_eq!(e.dispatcher.queued(), 0);
    assert_eq!(e.stats().checkpointing.checkpoints_per_second.count, 2);
}

#[test]
fn conflict_on_commit_is_not_retried_and_streaming_goes_on() {
    let mut e = fresh_engine();
    let kind = classify_status(409);
    assert_eq!(kind, ErrorKind::Conflict);

    let action = e.commit_failed(kind, "slot reassigned".to_string(), 1, 7);
    assert_eq!(action, CommitFailureAction::GiveUp);
    assert_eq!(e.state, ConnectionState::Streaming);
    assert_eq!(e.stats().checkpointing.checkpointing_errors_per_second.count, 1);
    assert!(e.last_error.is_none());
}

#[test]
fn forbidden_on_open_closes_without_reconnecting() {
    let mut e = Engine::new(SubscriptionId("sub-2".to_string()), 2, 3, 100, 1_000);
    e.open_requested();
    assert_eq!(e.state, ConnectionState::Connecting);

    let kind = classify_status(403);
    assert_eq!(kind, ErrorKind::Forbidden);
    e.stream_failed(kind, "access denied".to_string(), 0);

    assert_eq!(e.state, ConnectionState::Closed);
    let err = e.last_error.as_ref().expect("a fatal error is surfaced");
    assert_eq!(err.kind, ErrorKind::Forbidden);

    e.backoff_elapsed();
    assert_eq!(e.state, ConnectionState::Closed);
}

#[test]
fn full_queue_drops_batch_and_counts_it_once() {
    let mut e = Engine::new(SubscriptionId("sub-3".to_string()), 2, 3, 100, 1_000);
    e.open_requested();
    e.connected(0);

    let mk = |off: u32| {
        format!(
            r#"{{"cursor":{{"partition":"0","offset":"{}"}},"events":[]}}"#,
            off
        )
        .into_bytes()
    };
    assert_eq!(e.on_line(&mk(1)), LineOutcome::Dispatched);
    assert_eq!(e.on_line(&mk(2)), LineOutcome::Dispatched);
    assert_eq!(e.on_line(&mk(3)), LineOutcome::Dropped);
    assert_eq!(e.dispatcher.dropped_count(), 1);
    assert_eq!(e.stats().stream.batches_dropped_per_second.count, 1);
    assert_eq!(e.dispatcher.queued(), 2);
}

#[test]
fn undecodable_line_reenters_reconnection() {
    let mut e = fresh_engine();
    let bad = b"{not json at all".to_vec();
    assert_eq!(e.on_line(&bad), LineOutcome::DecodeFailed);
    assert_eq!(e.state, ConnectionState::Reconnecting);
    e.backoff_elapsed();
    assert_eq!(e.state, ConnectionState::Connecting);
}

#[test]
fn duplicate_cursor_is_not_committed_again() {
    let mut e = fresh_engine();
    let line = br#"{"cursor":{"partition":"0","offset":"9"},"events":[]}"#.to_vec();
    assert_eq!(e.on_line(&line), LineOutcome::Dispatched);
    let c = e.worker_step(true, 1).expect("fresh cursor is committed");
    e.commit_succeeded(&c, 1);

    // The broker redelivers the same cursor after a reconnect.
    assert_eq!(e.on_line(&line), LineOutcome::Dispatched);
    assert!(e.worker_step(true, 1).is_none());
}

#[test]
fn handler_failure_does_not_advance_the_cursor() {
    let mut e = fresh_engine();
    let line = br#"{"cursor":{"partition":"0","offset":"5"},"events":[]}"#.to_vec();
    assert_eq!(e.on_line(&line), LineOutcome::Dispatched);
    assert!(e.worker_step(false, 1).is_none());
    assert_eq!(e.stats().checkpointing.checkpoints_per_second.count, 0);
}

#[test]
fn transient_commit_failure_retries_until_the_bound() {
    let mut e = fresh_engine();
    let kind = classify_status(503);
    assert_eq!(kind, ErrorKind::Connection);
    assert_eq!(
        e.commit_failed(kind, "broker away".to_string(), 0, 3),
        CommitFailureAction::Retry
    );
    assert_eq!(
        e.commit_failed(kind, "broker away".to_string(), 2, 3),
        CommitFailureAction::Retry
    );
    assert_eq!(
        e.commit_failed(kind, "broker away".to_string(), 3, 3),
        CommitFailureAction::Fatal
    );
    assert_eq!(e.state, ConnectionState::Closed);
    assert_eq!(e.last_error.as_ref().unwrap().kind, ErrorKind::Connection);
}

#[test]
fn reconnect_delays_grow_until_streaming_is_stable_again() {
    let mut e = fresh_engine();
    let bad = b"broken".to_vec();
    assert_eq!(e.on_line(&bad), LineOutcome::DecodeFailed);
    assert_eq!(e.state, ConnectionState::Reconnecting);

    let d1 = e.next_reconnect_delay();
    e.backoff_elapsed();
    e.connected(d1);
    assert_eq!(e.on_line(&bad), LineOutcome::DecodeFailed);
    let d2 = e.next_reconnect_delay();
    assert!(d2 >= d1);

    e.backoff_elapsed();
    e.connected(d2);
    e.sustained_streaming();
    assert_eq!(e.next_reconnect_delay(), 100);
}

#[test]
fn tick_rolls_rate_windows_and_stats_is_pure() {
    let mut e = fresh_engine();
    e.on_line(&b" ".to_vec());
    e.tick();
    let s1 = e.stats();
    let s2 = e.stats();
    assert_eq!(s1.stream.keep_alives_per_second.count, 1);
    assert_eq!(s2.stream.keep_alives_per_second.count, 1);
    assert_eq!(s1.stream.lines_per_second.ticks, 1);
    e.close();
    assert_eq!(e.state, ConnectionState::Closed);
}
