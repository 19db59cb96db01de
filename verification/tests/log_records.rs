//! Behaviour of the action log observed through a memory sink.

use lyrebird::json::JsonValue;
use lyrebird::log::Log;
use lyrebird::sink::{DiscardSink, MemorySink, Sink, WriteError};

fn sample_log() -> Log<MemorySink> {
    Log::new(
        MemorySink::new(),
        Some(String::from("alice")),
        vec![String::from("lyrebird"), String::from("exec")],
        7777,
    )
}

fn small_payload(n: u64) -> JsonValue {
    JsonValue::Obj(vec![(String::from("n"), JsonValue::UInt(n))])
}

fn parse_lines(text: &str) -> Vec<serde_json::Value> {
    let mut out = Vec::new();
    for line in text.lines() {
        out.push(serde_json::from_str(line).expect("record line must parse as JSON"));
    }
    out
}

#[test]
fn two_records_two_lines_in_order() {
    let mut log = sample_log();
    log.record_action("X", small_payload(1)).expect("first record failed");
    log.record_action("X", small_payload(2)).expect("second record failed");

    let text = log.sink.text().clone();
    assert_eq!(text.matches('\n').count(), 2, "each record must end its own line");
    assert!(text.ends_with('\n'));

    let records = parse_lines(&text);
    assert_eq!(records.len(), 2);
    for record in &records {
        let obj = record.as_object().expect("record must be a JSON object");
        let mut keys: Vec<&str> = obj.keys().map(|k| k.as_str()).collect();
        keys.sort();
        assert_eq!(keys, vec!["cmd", "data", "pid", "time", "type", "user"]);
        assert_eq!(obj["type"], serde_json::Value::String(String::from("X")));
    }
    assert_eq!(records[0]["data"]["n"].as_u64(), Some(1));
    assert_eq!(records[1]["data"]["n"].as_u64(), Some(2));
}

#[test]
fn user_field_identical_across_records() {
    let mut log = sample_log();
    log.record_action("A", small_payload(1)).unwrap();
    log.record_action("B", small_payload(2)).unwrap();
    log.record_action("C", JsonValue::Null).unwrap();

    let records = parse_lines(log.sink.text());
    assert_eq!(records.len(), 3);
    for record in &records {
        assert_eq!(record["user"], serde_json::Value::String(String::from("alice")));
    }
}

#[test]
fn cmd_field_identical_across_records() {
    let mut log = sample_log();
    log.record_action("A", small_payload(1)).unwrap();
    log.record_action("B", small_payload(2)).unwrap();

    let records = parse_lines(log.sink.text());
    assert_eq!(records.len(), 2);
    let expected = serde_json::Value::Array(vec![
        serde_json::Value::String(String::from("lyrebird")),
        serde_json::Value::String(String::from("exec")),
    ]);
    assert_eq!(records[0]["cmd"], expected);
    assert_eq!(records[1]["cmd"], expected);
}

#[test]
fn absent_user_becomes_null() {
    let mut log = Log::new(MemorySink::new(), None, vec![String::from("lyrebird")], 1);
    log.record_action("A", JsonValue::Null).unwrap();

    let records = parse_lines(log.sink.text());
    assert_eq!(records[0]["user"], serde_json::Value::Null);
}

#[test]
fn discard_sink_still_succeeds() {
    let mut log = Log::new(DiscardSink::new(), Some(String::from("alice")), Vec::new(), 42);
    log.record_action("X", small_payload(1)).expect("a discard sink must accept every record");
    log.record_action("X", small_payload(2)).expect("a discard sink must accept every record");
}

#[test]
fn pid_field_is_the_constructed_pid() {
    let mut log = sample_log();
    log.record_action("A", JsonValue::Null).unwrap();
    let records = parse_lines(log.sink.text());
    assert_eq!(records[0]["pid"].as_u64(), Some(7777));
}

#[test]
fn timestamp_is_rfc3339_shaped() {
    let mut log = sample_log();
    log.record_action("A", JsonValue::Null).unwrap();
    let records = parse_lines(log.sink.text());
    let stamp = records[0]["time"].as_str().expect("time must be a string");
    assert!(stamp.len() >= 20, "timestamp too short: {}", stamp);
    assert!(stamp.chars().all(|c| c.is_ascii_digit()
        || c == '-' || c == ':' || c == 'T' || c == '.' || c == 'Z' || c == '+'),
        "timestamp holds a character outside the RFC 3339 alphabet: {}", stamp);
    assert!(stamp.contains('T'));
    assert!(stamp.ends_with('Z'), "a UTC timestamp must end in Z: {}", stamp);
}

/// A sink whose writes always fail, to drive the write-error path.
struct RefusingSink;

impl Sink for RefusingSink {
    fn write_text(&mut self, _text: &str) -> Result<(), WriteError> {
        Err(WriteError)
    }
}

#[test]
fn write_failure_is_reported() {
    let mut log = Log::new(RefusingSink, Some(String::from("alice")), Vec::new(), 1);
    let r = log.record_action("X", JsonValue::Null);
    assert!(
        matches!(r, Err(lyrebird::log::LogError::SinkWrite(_))),
        "a refused write must surface as a sink-write error"
    );
}

#[test]
fn end_to_end_fixed_identity_example() {
    let mut log = Log::new(
        MemorySink::new(),
        Some(String::from("alice")),
        vec![
            String::from("lyrebird"),
            String::from("exec"),
            String::from("touch"),
            String::from("/tmp/x"),
        ],
        4321,
    );
    let payload = JsonValue::Obj(vec![
        (String::from("cmd"), JsonValue::Str(String::from("touch"))),
        (
            String::from("args"),
            JsonValue::Arr(vec![JsonValue::Str(String::from("/tmp/x"))]),
        ),
        (String::from("pid"), JsonValue::UInt(4242)),
    ]);
    log.record_action("StartProcess", payload).expect("record_action failed");

    let text = log.sink.text().clone();
    assert_eq!(text.matches('\n').count(), 1, "exactly one line expected");

    let prefix = "{\"type\":\"StartProcess\",\"time\":\"";
    assert!(text.starts_with(prefix), "unexpected line start: {}", text);
    let rest = &text[prefix.len()..];
    let stamp_end = rest.find('"').expect("timestamp must be quoted");
    assert!(stamp_end >= 20, "timestamp too short");
    let mut suffix = String::from("\",\"pid\":4321,\"user\":\"alice\"");
    suffix.push_str(",\"cmd\":[\"lyrebird\",\"exec\",\"touch\",\"/tmp/x\"]");
    suffix.push_str(",\"data\":{\"cmd\":\"touch\",\"args\":[\"/tmp/x\"],\"pid\":4242}}\n");
    assert_eq!(&rest[stamp_end..], suffix.as_str(), "line does not match the documented schema");
}

#[test]
fn fixed_stamp_yields_the_exact_line() {
    let mut log = Log::new(
        MemorySink::new(),
        Some(String::from("alice")),
        vec![String::from("lyrebird"), String::from("exec")],
        4321,
    );
    let payload = JsonValue::Obj(vec![(String::from("pid"), JsonValue::UInt(4242))]);
    log.record_with_stamp("StartProcess", "2024-01-02T03:04:05Z", payload)
        .expect("an in-memory sink must accept the record");

    let mut expected = String::from("{\"type\":\"StartProcess\",\"time\":\"2024-01-02T03:04:05Z\"");
    expected.push_str(",\"pid\":4321,\"user\":\"alice\",\"cmd\":[\"lyrebird\",\"exec\"]");
    expected.push_str(",\"data\":{\"pid\":4242}}\n");
    assert_eq!(log.sink.text(), &expected);
}
