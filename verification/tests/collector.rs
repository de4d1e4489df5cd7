use instrumentor::collector::Instrumentor;
use instrumentor::event::ProfileResult;
use instrumentor::timer::InstrumentationTimer;

fn record(name: &str, start: i64, end: i64, thread_id: u32) -> ProfileResult {
    ProfileResult { name: name.to_string(), start, end, thread_id }
}

#[test]
fn begin_session_returns_preamble() {
    let mut c = Instrumentor::new();
    let header = c.begin_session("session", true).expect("a fresh begin writes the preamble");
    assert_eq!(header, "{\"otherData\": {}, \"traceEvents\":[");
    assert!(c.session_active());
    assert_eq!(c.event_count(), 0);
}

#[test]
fn exact_event_text() {
    let mut c = Instrumentor::new();
    c.begin_session("session", true);
    let chunk = c.write_profile(&record("work", 5, 130, 7)).expect("active session");
    assert_eq!(
        chunk,
        "{\"cat\":\"function\",\"dur\":125,\"name\":\"work\",\"ph\":\"X\",\"pid\":0,\"tid\":7,\"ts\":5}"
    );
}

#[test]
fn negative_duration_written_as_signed_decimal() {
    let mut c = Instrumentor::new();
    c.begin_session("session", true);
    let chunk = c.write_profile(&record("w", 100, 40, 1)).expect("active session");
    assert_eq!(
        chunk,
        "{\"cat\":\"function\",\"dur\":-60,\"name\":\"w\",\"ph\":\"X\",\"pid\":0,\"tid\":1,\"ts\":100}"
    );
}

#[test]
fn zero_values_written_as_single_zero() {
    let mut c = Instrumentor::new();
    c.begin_session("session", true);
    let chunk = c.write_profile(&record("z", 0, 0, 0)).expect("active session");
    assert_eq!(
        chunk,
        "{\"cat\":\"function\",\"dur\":0,\"name\":\"z\",\"ph\":\"X\",\"pid\":0,\"tid\":0,\"ts\":0}"
    );
}

#[test]
fn first_event_without_comma_later_events_with_one() {
    let mut c = Instrumentor::new();
    c.begin_session("session", true);
    let first = c.write_profile(&record("a", 0, 1, 1)).unwrap();
    let second = c.write_profile(&record("b", 0, 2, 1)).unwrap();
    let third = c.write_profile(&record("c", 0, 3, 1)).unwrap();
    assert!(first.starts_with('{'), "the first event takes no separator");
    assert!(second.starts_with(",{"), "a later event takes exactly one comma");
    assert!(third.starts_with(",{"));
    assert_eq!(c.event_count(), 3);
}

#[test]
fn begin_twice_keeps_first_session() {
    let mut c = Instrumentor::new();
    let header = c.begin_session("first", true);
    assert!(header.is_some());
    let again = c.begin_session("second", true);
    assert!(again.is_none(), "a second begin writes no new preamble");
    let chunk = c.write_profile(&record("a", 0, 1, 1)).unwrap();
    assert!(!chunk.starts_with(','), "the original session keeps its event count");
}

#[test]
fn begin_with_failed_open_is_swallowed() {
    let mut c = Instrumentor::new();
    let r = c.begin_session("session", false);
    assert!(r.is_none());
    assert!(!c.session_active());
    assert!(c.write_profile(&record("a", 0, 1, 1)).is_none());
}

#[test]
fn end_without_session_is_noop() {
    let mut c = Instrumentor::new();
    assert!(c.end_session().is_none());
    assert!(!c.session_active());
    let header = c.begin_session("session", true);
    assert!(header.is_some(), "a begin after the no-op end still works");
}

#[test]
fn write_without_session_drops_event() {
    let mut c = Instrumentor::new();
    assert!(c.write_profile(&record("a", 0, 1, 1)).is_none());
    assert_eq!(c.event_count(), 0);
}

#[test]
fn end_session_returns_closing_token_once() {
    let mut c = Instrumentor::new();
    c.begin_session("session", true);
    assert_eq!(c.end_session().expect("active session"), "]}");
    assert!(c.end_session().is_none());
    assert!(!c.session_active());
}

#[test]
fn quote_in_label_replaced_by_apostrophe() {
    let mut c = Instrumentor::new();
    let mut doc = c.begin_session("session", true).unwrap();
    doc += &c.write_profile(&record("He said \"hi\"", 0, 1, 1)).unwrap();
    doc += &c.end_session().unwrap();
    let v: serde_json::Value = serde_json::from_str(&doc).expect("valid JSON");
    let events = v["traceEvents"].as_array().expect("an array");
    assert_eq!(events.len(), 1);
    assert_eq!(events[0]["name"].as_str().unwrap(), "He said 'hi'");
}

#[test]
fn round_trip_valid_json() {
    let mut c = Instrumentor::new();
    let mut doc = c.begin_session("S", true).unwrap();
    let mut timer = InstrumentationTimer::new("work");
    let begun = std::time::Instant::now();
    while begun.elapsed().as_micros() < 12_000 {}
    let pr = timer.stop(3).expect("first stop reports");
    doc += &c.write_profile(&pr).unwrap();
    doc += &c.end_session().unwrap();
    let v: serde_json::Value = serde_json::from_str(&doc).expect("valid JSON");
    assert!(v["otherData"].as_object().unwrap().is_empty());
    let events = v["traceEvents"].as_array().expect("an array");
    assert_eq!(events.len(), 1);
    let ev = &events[0];
    assert_eq!(ev["name"].as_str().unwrap(), "work");
    assert!(ev["dur"].as_i64().unwrap() >= 10_000);
    assert_eq!(ev["ph"].as_str().unwrap(), "X");
    assert_eq!(ev["pid"].as_i64().unwrap(), 0);
    assert_eq!(ev["cat"].as_str().unwrap(), "function");
    assert_eq!(ev["tid"].as_i64().unwrap(), 3);
}

#[test]
fn many_events_stay_well_formed() {
    let mut c = Instrumentor::new();
    let mut doc = c.begin_session("S", true).unwrap();
    let n: i64 = 300;
    for i in 0..n {
        doc += &c.write_profile(&record("step", i, i + 2, (i % 5) as u32)).unwrap();
    }
    doc += &c.end_session().unwrap();
    let v: serde_json::Value = serde_json::from_str(&doc).expect("valid JSON");
    let events = v["traceEvents"].as_array().expect("an array");
    assert_eq!(events.len(), 300);
    for (i, ev) in events.iter().enumerate() {
        assert_eq!(ev["name"].as_str().unwrap(), "step");
        assert_eq!(ev["dur"].as_i64().unwrap(), 2);
        assert_eq!(ev["ts"].as_i64().unwrap(), i as i64);
    }
}

#[test]
fn extreme_timestamps_formatted_exactly() {
    let mut c = Instrumentor::new();
    c.begin_session("session", true);
    let chunk = c.write_profile(&record("x", i64::MIN, i64::MAX, u32::MAX)).unwrap();
    assert_eq!(
        chunk,
        "{\"cat\":\"function\",\"dur\":18446744073709551615,\"name\":\"x\",\"ph\":\"X\",\"pid\":0,\
         \"tid\":4294967295,\"ts\":-9223372036854775808}"
    );
}

#[test]
fn only_quotes_are_sanitized() {
    let mut c = Instrumentor::new();
    c.begin_session("session", true);
    let chunk = c.write_profile(&record("a\\b\tc", 0, 1, 1)).unwrap();
    assert!(chunk.contains("\"name\":\"a\\b\tc\""), "other characters pass through unchanged");
}

#[test]
fn non_ascii_label_preserved() {
    let mut c = Instrumentor::new();
    c.begin_session("session", true);
    let chunk = c.write_profile(&record("héllo ✓", 0, 1, 1)).unwrap();
    assert!(chunk.contains("\"name\":\"héllo ✓\""));
}

#[test]
fn new_session_after_end_starts_fresh() {
    let mut c = Instrumentor::new();
    c.begin_session("first", true);
    c.write_profile(&record("a", 0, 1, 1)).unwrap();
    c.end_session().unwrap();
    let header = c.begin_session("second", true);
    assert!(header.is_some());
    let chunk = c.write_profile(&record("b", 0, 1, 1)).unwrap();
    assert!(!chunk.starts_with(','), "the new session's first event takes no comma");
}
