use nakadi::backoff::Backoff;
use nakadi::committer::{CheckpointCommitter, CommitFailureAction};
use nakadi::cursor::{copy_bytes, eq_bytes, Cursor};
use nakadi::dispatch::{Dispatcher, SubmitOutcome};
use nakadi::errors::{classify_status, retry_class, ClientError, ErrorKind, RetryClass};
use nakadi::metrics::{duration_to_micros, duration_to_millis, DistRecorder, RateMeter};
use nakadi::reader::{decode_line, DecodedLine};
use nakadi::support::{empty_string_is_none, MessageError, OwningApplication};

fn batch_line(partition: &str, offset: &str) -> Vec<u8> {
    format!(
        r#"{{"cursor":{{"partition":"{}","offset":"{}"}},"events":[{{"k":true}}]}}"#,
        partition, offset
    )
    .into_bytes()
}

fn decode_batch(line: &[u8]) -> nakadi::cursor::Batch {
    match decode_line(&line.to_vec()) {
        Ok(DecodedLine::Frame(b)) => b,
        other => panic!("expected a batch frame, got {:?}", other.is_ok()),
    }
}

#[test]
fn blank_lines_are_keep_alives() {
    for line in [&b""[..], &b" "[..], &b" \t\r\n"[..]] {
        match decode_line(&line.to_vec()) {
            Ok(DecodedLine::KeepAlive) => {}
            _ => panic!("blank line must be a keep-alive"),
        }
    }
}

#[test]
fn frame_decodes_cursor_tokens_and_raw_events() {
    let b = decode_batch(&batch_line("11", "000042"));
    assert_eq!(b.cursor.partition, b"11".to_vec());
    assert_eq!(b.cursor.offset, b"000042".to_vec());
    assert_eq!(b.events, br#"[{"k":true}]"#.to_vec());
}

#[test]
fn frame_tolerates_metadata_and_extra_cursor_fields() {
    let line = br#" {"cursor":{"partition":"p-1","offset":"o-7","event_type":"order"},"events":[1,2,[3]],"info":{"debug":"x,y]"}} "#.to_vec();
    let b = decode_batch(&line);
    assert_eq!(b.cursor.partition, b"p-1".to_vec());
    assert_eq!(b.cursor.offset, b"o-7".to_vec());
    assert_eq!(b.events, b"[1,2,[3]]".to_vec());
}

#[test]
fn cursor_tokens_keep_escapes_raw() {
    let line = br#"{"cursor":{"partition":"0","offset":"a\"b"},"events":[]}"#.to_vec();
    let b = decode_batch(&line);
    assert_eq!(b.cursor.offset, br#"a\"b"#.to_vec());
}

#[test]
fn malformed_lines_are_invalid_responses() {
    let cases: Vec<&[u8]> = vec![
        b"nonsense",
        b"{",
        br#"{"events":[],"cursor":{"partition":"0","offset":"1"}}"#,
        br#"{"cursor":{"partition":"0"},"events":[]}"#,
        br#"{"cursor":{"partition":"0","offset":"1"},"events":[}"#,
        br#"{"cursor":{"partition":"0","offset":"1"}}"#,
        br#"{"cursor":{"partition":"0","offset":"1"},"events":[]} trailing"#,
    ];
    for line in cases {
        match decode_line(&line.to_vec()) {
            Err(e) => assert_eq!(e.kind, ErrorKind::InvalidResponse),
            Ok(_) => panic!("malformed line must not decode"),
        }
    }
}

#[test]
fn status_codes_map_onto_the_taxonomy() {
    assert_eq!(classify_status(403), ErrorKind::Forbidden);
    assert_eq!(classify_status(404), ErrorKind::NoSubscription);
    assert_eq!(classify_status(409), ErrorKind::Conflict);
    assert_eq!(classify_status(422), ErrorKind::CursorUnprocessable);
    assert_eq!(classify_status(400), ErrorKind::Request);
    assert_eq!(classify_status(418), ErrorKind::Request);
    assert_eq!(classify_status(500), ErrorKind::Connection);
    assert_eq!(classify_status(503), ErrorKind::Connection);
}

#[test]
fn retry_classes_follow_the_design() {
    assert_eq!(retry_class(ErrorKind::Connection), RetryClass::Transient);
    assert_eq!(retry_class(ErrorKind::Token), RetryClass::Transient);
    assert_eq!(retry_class(ErrorKind::InvalidResponse), RetryClass::Transient);
    assert_eq!(retry_class(ErrorKind::Conflict), RetryClass::PerCursor);
    assert_eq!(retry_class(ErrorKind::CursorUnprocessable), RetryClass::PerCursor);
    assert_eq!(retry_class(ErrorKind::Request), RetryClass::Fatal);
    assert_eq!(retry_class(ErrorKind::NoSubscription), RetryClass::Fatal);
    assert_eq!(retry_class(ErrorKind::Forbidden), RetryClass::Fatal);
}

#[test]
fn recorder_clamps_to_the_ceiling() {
    let mut r = DistRecorder::new(100);
    r.record(50);
    assert!(r.max_value >= 50);
    assert_eq!(r.min_value, 50);
    r.record(250);
    assert_eq!(r.max_value, 100);
    assert_eq!(r.count, 2);
    assert_eq!(r.sum, 150);
    // The underlying histogram saw both recordings.
    assert_eq!(r.recorded_total(), 2);
    let s = r.snapshot();
    assert_eq!(s.count, 2);
    assert_eq!(s.max, 100);
    assert_eq!(s.min, 50);
    assert_eq!(s.ceiling, 100);
}

#[test]
fn meter_counts_and_ticks() {
    let mut m = RateMeter::new();
    m.mark(1);
    m.mark(41);
    m.tick();
    let s = m.snapshot();
    assert_eq!(s.count, 42);
    assert_eq!(s.ticks, 1);
}

#[test]
fn duration_conversions_are_exact() {
    assert_eq!(duration_to_millis(1, 500_000_000), 1_500);
    assert_eq!(duration_to_millis(0, 999_999), 0);
    assert_eq!(duration_to_micros(2, 1_500), 2_000_001);
}

#[test]
fn backoff_is_monotone_and_resets() {
    let mut b = Backoff::new(100, 1_000);
    let mut delays = Vec::new();
    for _ in 0..6 {
        delays.push(b.next_delay());
    }
    assert_eq!(delays, vec![100, 200, 400, 800, 1_000, 1_000]);
    for w in delays.windows(2) {
        assert!(w[0] <= w[1]);
    }
    b.reset();
    assert_eq!(b.next_delay(), 100);
}

#[test]
fn dispatcher_delivers_each_batch_once_in_order() {
    let mut d = Dispatcher::new(2);
    let batch = |off: &[u8]| nakadi::cursor::Batch {
        cursor: Cursor::new(b"0".to_vec(), off.to_vec()),
        events: b"[]".to_vec(),
    };
    assert_eq!(d.submit(batch(b"1")), SubmitOutcome::Accepted);
    assert_eq!(d.submit(batch(b"2")), SubmitOutcome::Accepted);
    assert_eq!(d.submit(batch(b"3")), SubmitOutcome::Dropped);
    assert_eq!(d.dropped_count(), 1);

    let first = d.take_next().unwrap();
    let second = d.take_next().unwrap();
    assert_eq!(first.cursor.offset, b"1".to_vec());
    assert_eq!(second.cursor.offset, b"2".to_vec());
    assert!(d.take_next().is_none());
}

#[test]
fn committer_skips_only_the_last_committed_offset() {
    let c5 = Cursor::new(b"0".to_vec(), b"5".to_vec());
    let c6 = Cursor::new(b"0".to_vec(), b"6".to_vec());
    let other = Cursor::new(b"1".to_vec(), b"5".to_vec());
    let mut cm = CheckpointCommitter::new(3);
    assert!(cm.should_send(&c5));
    cm.record_success(&c5);
    assert!(!cm.should_send(&c5));
    assert!(cm.should_send(&c6));
    assert!(cm.should_send(&other));
    cm.record_success(&c6);
    assert!(!cm.should_send(&c6));
    assert!(cm.should_send(&c5));
}

#[test]
fn committer_failure_actions() {
    let cm = CheckpointCommitter::new(2);
    assert_eq!(cm.on_failure(ErrorKind::Connection, 0), CommitFailureAction::Retry);
    assert_eq!(cm.on_failure(ErrorKind::Token, 1), CommitFailureAction::Retry);
    assert_eq!(cm.on_failure(ErrorKind::Connection, 2), CommitFailureAction::Fatal);
    assert_eq!(cm.on_failure(ErrorKind::Conflict, 0), CommitFailureAction::GiveUp);
    assert_eq!(
        cm.on_failure(ErrorKind::CursorUnprocessable, 0),
        CommitFailureAction::GiveUp
    );
    assert_eq!(cm.on_failure(ErrorKind::Forbidden, 0), CommitFailureAction::Fatal);
    assert_eq!(cm.on_failure(ErrorKind::NoSubscription, 0), CommitFailureAction::Fatal);
    assert_eq!(cm.on_failure(ErrorKind::Request, 0), CommitFailureAction::Fatal);
}

#[test]
fn byte_helpers_compare_and_copy() {
    let a = b"abc".to_vec();
    let b = b"abc".to_vec();
    let c = b"abd".to_vec();
    assert!(eq_bytes(&a, &b));
    assert!(!eq_bytes(&a, &c));
    assert!(!eq_bytes(&a, &b"ab".to_vec()));
    let copied = copy_bytes(&a);
    assert_eq!(copied, a);
    let dup = Cursor::new(a.clone(), c.clone()).duplicate();
    assert_eq!(dup.partition, a);
    assert_eq!(dup.offset, c);
}

#[test]
fn support_values_keep_their_content() {
    let m = MessageError::new("boom".to_string());
    assert_eq!(m.0, "boom");
    let app = OwningApplication::new("team-a".to_string());
    assert_eq!(app.0, "team-a");
    let e = ClientError::new(ErrorKind::Request, "bad".to_string());
    assert_eq!(e.kind, ErrorKind::Request);
    assert_eq!(e.message, "bad");
    assert_eq!(empty_string_is_none(String::new()), None);
    assert_eq!(
        empty_string_is_none("x".to_string()),
        Some("x".to_string())
    );
}
