use gelf_logger::{Buffer, Event, TransportError};
use serde_gelf::{GelfRecord, GelfRecordBuilder, GelfRecordGetter};

fn record(message: &str) -> GelfRecord {
    GelfRecord::new().set_message(message.to_string())
}

fn data(message: &str) -> Event {
    Event::Data(record(message))
}

fn messages(buffer: &Buffer) -> Vec<String> {
    buffer.batch().iter().map(|r| r.message()).collect()
}

fn error_messages(errors: &[TransportError]) -> Vec<String> {
    errors.iter().map(|e| e.message().clone()).collect()
}

#[test]
fn three_records_then_flush() {
    let mut buffer = Buffer::new(None);
    assert!(!buffer.handle(data("A")));
    assert!(!buffer.handle(data("B")));
    assert!(!buffer.handle(data("C")));
    assert!(buffer.handle(Event::Send));
    assert_eq!(messages(&buffer), vec!["A", "B", "C"]);
    assert!(buffer.complete(Ok(())).is_none());
    assert!(buffer.batch().is_empty());
    assert!(!buffer.handle(Event::Send));
    assert!(buffer.batch().is_empty());
}

#[test]
fn threshold_two_flushes_before_third_record() {
    let mut buffer = Buffer::new(Some(2));
    assert!(!buffer.handle(data("A")));
    assert!(buffer.handle(data("B")));
    assert_eq!(messages(&buffer), vec!["A", "B"]);
    assert!(buffer.complete(Ok(())).is_none());
    assert!(!buffer.handle(data("C")));
    assert_eq!(messages(&buffer), vec!["C"]);
}

#[test]
fn flush_delivers_all_records_in_order() {
    let mut buffer = Buffer::new(None);
    let names = ["r0", "r1", "r2", "r3", "r4", "r5", "r6"];
    for name in names.iter() {
        assert!(!buffer.handle(data(name)));
    }
    assert!(buffer.handle(Event::Send));
    assert_eq!(messages(&buffer), names.to_vec());
    assert!(buffer.complete(Ok(())).is_none());
    assert!(buffer.batch().is_empty());
}

#[test]
fn threshold_reached_triggers_delivery() {
    let mut buffer = Buffer::new(Some(3));
    assert_eq!(buffer.buffer_size(), Some(3));
    assert!(!buffer.handle(data("a")));
    assert!(!buffer.handle(data("b")));
    assert!(buffer.handle(data("c")));
    assert_eq!(messages(&buffer), vec!["a", "b", "c"]);
}

#[test]
fn threshold_of_one_delivers_each_record() {
    let mut buffer = Buffer::new(Some(1));
    assert!(buffer.handle(data("a")));
    assert!(buffer.complete(Ok(())).is_none());
    assert!(buffer.handle(data("b")));
    assert_eq!(messages(&buffer), vec!["b"]);
}

#[test]
fn failed_delivery_keeps_batch() {
    let mut buffer = Buffer::new(None);
    buffer.handle(data("A"));
    buffer.handle(data("B"));
    assert!(buffer.handle(Event::Send));
    let failure = TransportError::Connect("refused".to_string());
    assert!(buffer.complete(Err(failure)).is_none());
    assert_eq!(messages(&buffer), vec!["A", "B"]);
    assert_eq!(buffer.errors().len(), 1);
    assert!(!buffer.handle(data("C")));
    assert!(buffer.handle(Event::Send));
    assert_eq!(messages(&buffer), vec!["A", "B", "C"]);
    assert!(buffer.complete(Ok(())).is_none());
    assert!(buffer.batch().is_empty());
}

#[test]
fn failed_delivery_above_threshold_retries_on_next_record() {
    let mut buffer = Buffer::new(Some(2));
    buffer.handle(data("A"));
    assert!(buffer.handle(data("B")));
    buffer.complete(Err(TransportError::Write("broken pipe".to_string())));
    assert!(buffer.handle(data("C")));
    assert_eq!(messages(&buffer), vec!["A", "B", "C"]);
}

#[test]
fn five_failures_are_reported_and_reset() {
    let mut buffer = Buffer::new(None);
    buffer.handle(data("A"));
    for i in 0..4 {
        let e = TransportError::Connect(format!("e{}", i));
        assert!(buffer.complete(Err(e)).is_none());
        assert_eq!(buffer.errors().len(), i + 1);
    }
    let report = buffer.complete(Err(TransportError::Connect("e4".to_string())));
    let report = report.expect("the fifth failure is reported");
    assert_eq!(error_messages(&report), vec!["e0", "e1", "e2", "e3", "e4"]);
    assert!(buffer.errors().is_empty());
    assert!(buffer.complete(Err(TransportError::Handshake("e5".to_string()))).is_none());
    assert_eq!(error_messages(buffer.errors()), vec!["e5"]);
    assert_eq!(messages(&buffer), vec!["A"]);
}

#[test]
fn second_report_starts_from_sixth_failure() {
    let mut buffer = Buffer::new(None);
    let mut reports = Vec::new();
    for i in 0..10 {
        if let Some(r) = buffer.complete(Err(TransportError::Write(format!("w{}", i)))) {
            reports.push(error_messages(&r));
        }
    }
    assert_eq!(reports.len(), 2);
    assert_eq!(reports[1], vec!["w5", "w6", "w7", "w8", "w9"]);
    assert!(buffer.errors().is_empty());
}

#[test]
fn empty_flush_is_silent() {
    let mut buffer = Buffer::new(None);
    buffer.complete(Err(TransportError::Connect("x".to_string())));
    assert!(!buffer.handle(Event::Send));
    assert!(buffer.batch().is_empty());
    assert_eq!(error_messages(buffer.errors()), vec!["x"]);
}

#[test]
fn success_clears_batch_but_not_error_log() {
    let mut buffer = Buffer::new(None);
    buffer.handle(data("A"));
    buffer.complete(Err(TransportError::Connect("x".to_string())));
    assert!(buffer.complete(Ok(())).is_none());
    assert!(buffer.batch().is_empty());
    assert_eq!(buffer.errors().len(), 1);
}

#[test]
fn transport_error_messages() {
    assert_eq!(TransportError::Connect("c".to_string()).message(), "c");
    assert_eq!(TransportError::Handshake("h".to_string()).message(), "h");
    assert_eq!(TransportError::Write("w".to_string()).message(), "w");
}
