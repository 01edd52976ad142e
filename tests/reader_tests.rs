use agenttrace_core::{
    calculate, decode_events, format_hex, frame_line, split_and_verify, Event, FirstRecord,
    ReadError, StorageLayout, TraceDir, TraceMeta, TraceReader,
};
use agenttrace_core::meta::{meta_from_record, read_first_record, summarize_trace};
use serde_json::Value;

fn text(s: &str) -> Value {
    Value::String(s.to_string())
}

fn parse(s: &str) -> Value {
    serde_json::from_str(s).unwrap()
}

/// The JSON text of an event, with absent spans left out.
fn event_json(e: &Event) -> String {
    let mut m = serde_json::Map::new();
    m.insert("schema_version".to_string(), Value::from(e.schema_version));
    m.insert("trace_id".to_string(), text(&e.trace_id));
    m.insert("seq".to_string(), Value::from(e.seq));
    m.insert("ts_unix_ns".to_string(), Value::from(e.ts_unix_ns));
    m.insert("kind".to_string(), text(&e.kind));
    if let Some(s) = &e.span_id {
        m.insert("span_id".to_string(), text(s));
    }
    if let Some(s) = &e.parent_span_id {
        m.insert("parent_span_id".to_string(), text(s));
    }
    m.insert("level".to_string(), text(&e.level));
    let mut attrs = serde_json::Map::new();
    for (k, v) in &e.attrs {
        attrs.insert(k.clone(), v.clone());
    }
    m.insert("attrs".to_string(), Value::Object(attrs));
    m.insert("payload".to_string(), e.payload.clone());
    serde_json::to_string(&Value::Object(m)).unwrap()
}

/// The line that the writer appends for an event, without its line end.
fn written_line(e: &Event) -> String {
    let line = frame_line(&event_json(e));
    line.strip_suffix('\n').unwrap().to_string()
}

#[test]
fn test_crc_calculation() {
    let data = b"{\"hello\":\"world\"}";
    let crc = calculate(data);
    assert_ne!(crc, 0);
    let hex = format_hex(crc);
    assert_eq!(hex.len(), 8);
}

#[test]
fn test_reader_verify_crc() {
    let trace_id = "test-reader";
    let event = Event::new(trace_id.to_string(), 1, "test".to_string(), parse(r#"{"a": 1}"#));
    let lines = vec![written_line(&event)];

    let reader = TraceReader::new("/tmp/traces");
    let events = reader.get_events(trace_id, Some(&lines)).unwrap();
    assert_eq!(events.len(), 1);
    assert_eq!(events[0]["kind"], "test");
}

#[test]
fn test_reader_legacy_support() {
    let trace_id = "legacy-trace";
    let event = Event::new(trace_id.to_string(), 1, "legacy".to_string(), parse("{}"));
    let lines = vec![event_json(&event)];

    let reader = TraceReader::new("/tmp/traces");
    let events = reader.get_events(trace_id, Some(&lines)).unwrap();
    assert_eq!(events.len(), 1);
    assert_eq!(events[0]["kind"], "legacy");
}

#[test]
fn test_reader_detects_corruption() {
    let trace_id = "corrupt-trace";
    let lines = vec!["{\"kind\":\"test\",\"seq\":1}\t00000000".to_string()];

    let reader = TraceReader::new("/tmp/traces");
    let result = reader.get_events(trace_id, Some(&lines));
    assert!(result.is_err());
    let err = result.unwrap_err();
    assert!(matches!(err, ReadError::CrcMismatch { .. }));
}

#[test]
fn test_list_traces() {
    let mut dirs = Vec::new();
    for (id, name) in &[("trace-a", "alpha"), ("trace-b", "beta")] {
        let mut payload = serde_json::Map::new();
        payload.insert("trace_name".to_string(), text(name));
        let event = Event::new(id.to_string(), 1, "trace_start".to_string(), Value::Object(payload));
        dirs.push(TraceDir { id: id.to_string(), modified_ns: 0, lines: Some(vec![written_line(&event)]) });
    }

    let reader = TraceReader::new("/tmp/traces");
    let traces = reader.list_traces(dirs);
    assert_eq!(traces.len(), 2);

    let names: Vec<&str> = traces.iter().map(|t| t.name.as_str()).collect();
    assert!(names.contains(&"alpha"));
    assert!(names.contains(&"beta"));

    for t in &traces {
        assert_eq!(t.event_count, 1);
    }
}

#[test]
fn test_writer_basic() {
    let trace_id = "test-trace";
    let mut payload = serde_json::Map::new();
    payload.insert("foo".to_string(), text("bar"));
    let event = Event::new(trace_id.to_string(), 1, "test".to_string(), Value::Object(payload));
    let content = frame_line(&event_json(&event));

    let layout = StorageLayout::new("/tmp/traces");
    assert_eq!(layout.events_file(trace_id), "/tmp/traces/test-trace/events.jsonl");
    assert!(content.contains("\t"));
    assert!(content.contains("test"));
    assert!(content.ends_with('\n'));
}

#[test]
fn checksum_known_values() {
    assert_eq!(calculate(b"123456789"), 0xe306_9283);
    assert_eq!(calculate(b""), 0);
    assert_eq!(format_hex(0), "00000000");
    assert_eq!(format_hex(0xdead_beef), "deadbeef");
    assert_eq!(format_hex(0x1a), "0000001a");
    assert_eq!(format_hex(calculate(b"123456789")), "e3069283");
}

#[test]
fn checksum_text_is_eight_hex_digits() {
    for data in [&b""[..], b"a", b"{\"hello\":\"world\"}", b"\x00\xff\t\n"] {
        let hex = format_hex(calculate(data));
        assert_eq!(hex.len(), 8);
        assert!(hex.chars().all(|c| c.is_ascii_digit() || ('a'..='f').contains(&c)));
    }
}

#[test]
fn frame_line_exact() {
    assert_eq!(frame_line("123456789"), "123456789\te3069283\n");
    assert_eq!(frame_line(""), "\t00000000\n");
}

#[test]
fn split_accepts_matching_checksum() {
    assert_eq!(split_and_verify("123456789\te3069283", 3).unwrap(), "123456789");
}

#[test]
fn split_reports_mismatch() {
    match split_and_verify("123456789\te3069284", 7) {
        Err(ReadError::CrcMismatch { line, expected, actual }) => {
            assert_eq!(line, 7);
            assert_eq!(expected, "e3069284");
            assert_eq!(actual, "e3069283");
        }
        other => panic!("unexpected {:?}", other),
    }
}

#[test]
fn split_treats_other_suffixes_as_legacy() {
    assert_eq!(split_and_verify("{\"a\":1}", 1).unwrap(), "{\"a\":1}");
    assert_eq!(split_and_verify("{\"a\":1}\t0000000", 1).unwrap(), "{\"a\":1}\t0000000");
    assert_eq!(split_and_verify("{\"a\":1}\t000000000", 1).unwrap(), "{\"a\":1}\t000000000");
    assert_eq!(split_and_verify("a\t00000000\tb", 1).unwrap(), "a\t00000000\tb");
}

#[test]
fn round_trip_keeps_every_field() {
    let mut attrs = std::collections::HashMap::new();
    attrs.insert("k".to_string(), parse("[1, 2]"));
    let full = Event {
        schema_version: 2,
        trace_id: "t".to_string(),
        seq: 9,
        ts_unix_ns: 123,
        kind: "step".to_string(),
        span_id: Some("s1".to_string()),
        parent_span_id: None,
        level: "debug".to_string(),
        attrs,
        payload: parse(r#"{"x": "y"}"#),
    };
    let lines = vec![written_line(&full)];
    let events = decode_events(&lines).unwrap();
    assert_eq!(events.len(), 1);
    assert_eq!(events[0], parse(&event_json(&full)));
    assert_eq!(events[0]["span_id"], "s1");
    assert!(events[0].get("parent_span_id").is_none());
    assert_eq!(events[0]["attrs"]["k"][1], 2);
}

#[test]
fn appended_events_read_back_in_order() {
    let n = 5u64;
    let lines: Vec<String> = (0..n)
        .map(|i| written_line(&Event::new("t".to_string(), i, "step".to_string(), Value::Null)))
        .collect();
    let events = decode_events(&lines).unwrap();
    assert_eq!(events.len(), n as usize);
    for (i, e) in events.iter().enumerate() {
        assert_eq!(e["seq"], i as u64);
    }
    let dir = TraceDir { id: "t".to_string(), modified_ns: 5, lines: Some(lines) };
    assert_eq!(summarize_trace(&dir).event_count, n);
}

#[test]
fn corrupted_byte_names_its_line() {
    let good = written_line(&Event::new("t".to_string(), 1, "a".to_string(), Value::Null));
    let bad = written_line(&Event::new("t".to_string(), 2, "b".to_string(), Value::Null));
    let corrupted = bad.replacen("\"b\"", "\"c\"", 1);
    let lines = vec![good, String::new(), corrupted];
    match decode_events(&lines) {
        Err(ReadError::CrcMismatch { line, expected, actual }) => {
            assert_eq!(line, 3);
            assert_ne!(expected, actual);
        }
        other => panic!("unexpected {:?}", other),
    }
}

#[test]
fn blank_lines_are_skipped() {
    let lines = vec![
        "  ".to_string(),
        "{\"seq\":1}".to_string(),
        String::new(),
        " {\"seq\":2}\t".to_string(),
    ];
    let events = decode_events(&lines).unwrap();
    assert_eq!(events.len(), 2);
    assert_eq!(events[1]["seq"], 2);
}

#[test]
fn malformed_line_is_a_parse_error() {
    let lines = vec!["{\"seq\":1}".to_string(), "not json".to_string()];
    assert!(matches!(decode_events(&lines), Err(ReadError::Json(_))));
}

#[test]
fn listing_no_directories_is_empty() {
    let reader = TraceReader::new("/nonexistent/root");
    assert!(reader.list_traces(Vec::new()).is_empty());
}

#[test]
fn missing_log_is_not_found() {
    let reader = TraceReader::new("/tmp/traces");
    match reader.get_events("ghost", None) {
        Err(ReadError::TraceNotFound(id)) => assert_eq!(id, "ghost"),
        other => panic!("unexpected {:?}", other),
    }
}

#[test]
fn non_start_first_line_keeps_directory_id() {
    let event = Event::new("t".to_string(), 1, "step".to_string(), parse(r#"{"trace_name": "alpha"}"#));
    let dir = TraceDir { id: "dir-id".to_string(), modified_ns: 77, lines: Some(vec![written_line(&event)]) };
    let meta = summarize_trace(&dir);
    assert_eq!(meta.name, "dir-id");
    assert_eq!(meta.project, None);
    assert_eq!(meta.ts_unix_ns, 77);
}

#[test]
fn start_record_supplies_name_project_and_time() {
    let line = r#"{"kind":"trace_start","ts_unix_ns":5000000000,"payload":{"trace_name":"alpha","project":"p"}}"#;
    let dir = TraceDir {
        id: "trace-a".to_string(),
        modified_ns: 1,
        lines: Some(vec![String::new(), line.to_string(), "{}".to_string()]),
    };
    let meta = summarize_trace(&dir);
    assert_eq!(meta.id, "trace-a");
    assert_eq!(meta.name, "alpha");
    assert_eq!(meta.project.as_deref(), Some("p"));
    assert_eq!(meta.ts_unix_ns, 5_000_000_000);
    assert_eq!(meta.event_count, 2);
}

#[test]
fn start_record_without_name_is_untitled() {
    let rec = read_first_record(r#"{"kind":"trace_start","payload":{}}"#);
    let meta = meta_from_record("x", 3, &rec, 1);
    assert_eq!(meta.name, "Untitled");
    assert_eq!(meta.ts_unix_ns, 3);
}

#[test]
fn unparsable_first_line_falls_back() {
    assert!(read_first_record("garbage").is_none());
    let dir = TraceDir { id: "x".to_string(), modified_ns: 4, lines: Some(vec!["garbage".to_string()]) };
    let meta = summarize_trace(&dir);
    assert_eq!(meta.name, "x");
    assert_eq!(meta.event_count, 1);
    let none = TraceDir { id: "y".to_string(), modified_ns: 8, lines: None };
    let meta = summarize_trace(&none);
    assert_eq!(meta.name, "y");
    assert_eq!(meta.event_count, 0);
}

#[test]
fn first_record_fields_are_read() {
    let rec: FirstRecord = read_first_record(
        "{\"kind\":\"trace_start\",\"ts_unix_ns\":12,\"payload\":{\"trace_name\":\"n\",\"project\":\"p\"}}\t00000000",
    )
    .unwrap();
    assert_eq!(rec.kind.as_deref(), Some("trace_start"));
    assert_eq!(rec.trace_name.as_deref(), Some("n"));
    assert_eq!(rec.project.as_deref(), Some("p"));
    assert_eq!(rec.ts_unix_ns, Some(12));
}

#[test]
fn listing_is_newest_first() {
    let mk = |id: &str, ns: u64| TraceDir { id: id.to_string(), modified_ns: ns, lines: None };
    let reader = TraceReader::new("/tmp/traces");
    let traces: Vec<TraceMeta> = reader.list_traces(vec![mk("a", 5), mk("b", 9), mk("c", 1), mk("d", 7)]);
    let ids: Vec<&str> = traces.iter().map(|t| t.id.as_str()).collect();
    assert_eq!(ids, vec!["b", "d", "a", "c"]);
}

#[test]
fn layout_paths() {
    let layout = StorageLayout::new("/data/");
    assert_eq!(layout.trace_dir("abc"), "/data/abc");
    assert_eq!(layout.events_file("abc"), "/data/abc/events.jsonl");
    let relative = StorageLayout::new("root");
    assert_eq!(relative.trace_dir("t1"), "root/t1");
    let reader = TraceReader::new("base");
    assert_eq!(reader.layout.events_file("z"), "base/z/events.jsonl");
}

#[test]
fn new_event_defaults() {
    let e = Event::new("t".to_string(), 4, "k".to_string(), Value::Null);
    assert_eq!(e.schema_version, 1);
    assert_eq!(e.level, "info");
    assert!(e.span_id.is_none() && e.parent_span_id.is_none());
    assert!(e.attrs.is_empty());
    assert!(e.ts_unix_ns > 0);
}

#[test]
fn unicode_white_space_is_trimmed() {
    let lines = vec!["\u{3000}{\"seq\":1}\u{a0}".to_string(), "\u{2028}".to_string()];
    let events = decode_events(&lines).unwrap();
    assert_eq!(events.len(), 1);
    assert_eq!(events[0]["seq"], 1);
}

#[test]
fn eight_character_suffix_is_counted_in_characters() {
    match split_and_verify("{}\t\u{3b1}\u{3b2}\u{3b3}\u{3b4}\u{3b5}\u{3b6}\u{3b7}\u{3b8}", 2) {
        Err(ReadError::CrcMismatch { line, expected, .. }) => {
            assert_eq!(line, 2);
            assert_eq!(expected.chars().count(), 8);
        }
        other => panic!("unexpected {:?}", other),
    }
}

#[test]
fn start_record_with_non_object_payload_is_untitled() {
    let line = r#"{"kind":"trace_start","ts_unix_ns":9,"payload":"text"}"#;
    let dir = TraceDir { id: "trace-p".to_string(), modified_ns: 1, lines: Some(vec![line.to_string()]) };
    let meta = summarize_trace(&dir);
    assert_eq!(meta.name, "Untitled");
    assert_eq!(meta.project, None);
    assert_eq!(meta.ts_unix_ns, 9);
}

#[test]
fn corrupt_trace_leaves_other_summaries_alone() {
    let mut payload = serde_json::Map::new();
    payload.insert("trace_name".to_string(), text("alpha"));
    let start = written_line(&Event::new("a".to_string(), 1, "trace_start".to_string(), Value::Object(payload)));
    let a = || TraceDir { id: "a".to_string(), modified_ns: 3, lines: Some(vec![start.clone()]) };
    let reader = TraceReader::new("/tmp/traces");
    let alone = reader.list_traces(vec![a()]);
    let corrupt = TraceDir { id: "x".to_string(), modified_ns: 2, lines: Some(vec!["{broken\t00000000".to_string()]) };
    let both = reader.list_traces(vec![a(), corrupt]);
    assert_eq!(both.len(), 2);
    let listed_a = both.iter().find(|t| t.id == "a").unwrap();
    assert_eq!(listed_a.name, alone[0].name);
    assert_eq!(listed_a.ts_unix_ns, alone[0].ts_unix_ns);
    assert_eq!(listed_a.event_count, alone[0].event_count);
    let listed_x = both.iter().find(|t| t.id == "x").unwrap();
    assert_eq!(listed_x.name, "x");
}
