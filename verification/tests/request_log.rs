use grok_search_rs::error::GrokSearchError;
use grok_search_rs::json::{Json, JsonMap};
use grok_search_rs::logging::{
    append_failure, capture_logs, emit_current, emit_request_log, format_request_log,
    is_secret_key, redact_json_value, redact_secret_text, sanitize_field, AppendStep, DebugEvent,
    LogSink, RequestTrace, REQUEST_LOG_QUERY_MAX,
};
use grok_search_rs::mcp::{handle_line, LineStep};

fn object(members: Vec<(&str, Json)>) -> Json {
    let mut out = JsonMap::new();
    for (key, value) in members {
        out = out.with(key, value);
    }
    Json::Object(out)
}

#[test]
fn request_log_line_has_sid_phase_and_fields() {
    let line = format_request_log(
        "abc123def456",
        "start",
        &[
            ("query", "what is grok"),
            ("model", "grok-4.20-multi-agent-0309"),
            ("effort", "medium"),
        ],
    );
    assert!(
        line.starts_with("grok-search-rs: sid=abc123def456 phase=start "),
        "got {line}"
    );
    assert!(line.contains("query=what is grok"));
    assert!(line.contains("model=grok-4.20-multi-agent-0309"));
    assert!(line.contains("effort=medium"));
    assert!(!line.contains('\n'), "one line only: {line}");
}

#[test]
fn request_log_truncates_long_query_and_strips_newlines() {
    let long = format!("line1\nline2 {}", "x".repeat(REQUEST_LOG_QUERY_MAX + 20));
    let line = format_request_log("sid", "start", &[("query", &long)]);
    assert!(
        !line.contains('\n'),
        "newlines must not split the log line: {line}"
    );
    assert!(
        line.contains("query=line1 line2"),
        "newlines become spaces: {line}"
    );
    assert!(
        line.contains("…") || line.contains("..."),
        "long query must be truncated: {line}"
    );
}

#[test]
fn request_log_does_not_echo_secrets() {
    let line = format_request_log(
        "sid",
        "start",
        &[
            ("query", "Authorization: Bearer g2a_secret_value"),
            ("key", "g2a_c8ea35a62b74_should_not_appear"),
        ],
    );
    assert!(
        !line.contains("g2a_secret_value") && !line.contains("g2a_c8ea35a62b74"),
        "secret leaked: {line}"
    );
}

#[test]
fn capture_logs_records_trace_emit() {
    let mut sink = LogSink::new();
    let ((), lines) = capture_logs(&mut sink, |sink| {
        let trace = RequestTrace::new("sess01");
        assert_eq!(trace.emit(sink, "start", &[("query", "hello")]), None);
        assert_eq!(
            trace.emit(
                sink,
                "return",
                &[("provider", "grok_responses"), ("sources", "3")],
            ),
            None
        );
    });
    assert_eq!(lines.len(), 2, "{lines:?}");
    assert!(lines[0].contains("phase=start") && lines[0].contains("sid=sess01"));
    assert!(lines[1].contains("phase=return") && lines[1].contains("provider=grok_responses"));
}

#[test]
fn log_line_is_exact() {
    assert_eq!(
        format_request_log("s", "p", &[]),
        "grok-search-rs: sid=s phase=p"
    );
    assert_eq!(
        format_request_log("s", "p", &[("a", " 1\r\n"), ("b", "Bearer tok x")]),
        "grok-search-rs: sid=s phase=p a=1 b=Bearer *** x"
    );
}

#[test]
fn query_is_cut_at_its_limit_and_other_fields_are_not() {
    let exact = "y".repeat(REQUEST_LOG_QUERY_MAX);
    assert_eq!(sanitize_field("query", &exact), exact);
    let longer = "é".repeat(REQUEST_LOG_QUERY_MAX + 1);
    assert_eq!(
        sanitize_field("query", &longer),
        format!("{}…", "é".repeat(REQUEST_LOG_QUERY_MAX))
    );
    assert_eq!(sanitize_field("model", &longer), longer);
}

#[test]
fn secrets_are_masked_in_text() {
    assert_eq!(redact_secret_text("nothing here"), "nothing here");
    assert_eq!(
        redact_secret_text("Authorization: Bearer abc.def rest"),
        "Authorization: Bearer *** rest"
    );
    assert_eq!(redact_secret_text("k=g2a_abc,x y"), "k=g2a_*** y");
    assert_eq!(
        redact_secret_text("g2a_one Bearer two"),
        "g2a_*** Bearer ***"
    );
    assert_eq!(redact_secret_text("Bearer "), "Bearer ***");
    assert_eq!(redact_secret_text("Bearer g2a_x"), "Bearer ***");
    assert_eq!(redact_secret_text("g2a_ag2a_b c"), "g2a_*** c");
    assert_eq!(redact_secret_text("Bearer g2a_x g2a_y"), "Bearer *** g2a_***");
    assert_eq!(redact_secret_text("Bearer  x"), "Bearer *** x");
    assert_eq!(
        redact_secret_text("Bearer a Bearer b"),
        "Bearer *** Bearer ***"
    );
    assert_eq!(redact_secret_text("g2a_a g2a_b"), "g2a_*** g2a_***");
    assert_eq!(
        redact_secret_text("g2a_aa x g2a_bb\tBearer c, g2a_dd"),
        "g2a_*** x g2a_***\tBearer *** g2a_***"
    );
    assert_eq!(
        redact_secret_text("Bearer Bearer Bearer x"),
        "Bearer *** Bearer ***"
    );
    let masked = redact_secret_text("g2a_1 Bearer 2 Bearer  g2a_3g2a_4");
    assert_eq!(masked, "g2a_*** Bearer *** Bearer *** g2a_***");
    assert_eq!(redact_secret_text(&masked), masked);
}

#[test]
fn lines_outside_a_capture_are_handed_back() {
    let mut sink = LogSink::new();
    assert_eq!(
        emit_request_log(&mut sink, "s", "p", &[("k", "v")]),
        Some("grok-search-rs: sid=s phase=p k=v".to_string())
    );
    assert_eq!(emit_current(None, &mut sink, "p", &[]), None);
    let trace = RequestTrace::new("t");
    assert_eq!(trace.sid(), "t");
    assert_eq!(
        emit_current(Some(&trace), &mut sink, "p", &[]),
        Some("grok-search-rs: sid=t phase=p".to_string())
    );
}

#[test]
fn capture_ends_and_drops_an_earlier_one() {
    let mut sink = LogSink::new();
    sink.begin_capture();
    assert_eq!(emit_request_log(&mut sink, "lost", "p", &[]), None);
    let (value, lines) = capture_logs(&mut sink, |sink| {
        emit_request_log(sink, "kept", "p", &[]);
        5
    });
    assert_eq!(value, 5);
    assert_eq!(lines, vec!["grok-search-rs: sid=kept phase=p".to_string()]);
    assert!(emit_request_log(&mut sink, "s", "p", &[]).is_some());
    assert!(sink.end_capture().is_empty());
}

#[test]
fn secret_keys_are_known() {
    for key in [
        "Authorization",
        "x-API_KEY",
        "apiKey",
        "access_token",
        "client_SECRET_2",
    ] {
        assert!(is_secret_key(key), "{key}");
    }
    for key in ["query", "api-key", "toke", "ſecret"] {
        assert!(!is_secret_key(key), "{key}");
    }
}

#[test]
fn secrets_are_taken_out_at_any_depth() {
    let value = object(vec![
        ("query", Json::text("q")),
        ("token", object(vec![("x", Json::Null)])),
        (
            "items",
            Json::Array(vec![
                Json::Bool(true),
                object(vec![("ApiKey", Json::Bool(false)), ("n", Json::Null)]),
            ]),
        ),
    ]);
    let expected = object(vec![
        ("query", Json::text("q")),
        ("token", Json::text("***")),
        (
            "items",
            Json::Array(vec![
                Json::Bool(true),
                object(vec![("ApiKey", Json::text("***")), ("n", Json::Null)]),
            ]),
        ),
    ]);
    let redacted = redact_json_value(value);
    assert_eq!(redacted, expected);
    assert_eq!(redact_json_value(redacted), expected);
}

#[test]
fn debug_event_is_one_line_without_secrets() {
    let event = DebugEvent::new(
        "send\nit",
        object(vec![
            ("authorization", Json::text("Bearer x")),
            ("model", Json::text("m")),
        ]),
    );
    assert_eq!(event.event, "send\nit");
    assert_eq!(
        event.jsonl_line(),
        r#"{"event":"send\nit","payload":{"authorization":"***","model":"m"}}"#
    );
}

#[test]
fn secrets_of_every_field_are_masked_in_the_line() {
    assert_eq!(
        format_request_log(
            "s",
            "p",
            &[("a", "g2a_1 x"), ("b", "Bearer t"), ("c", "y g2a_2\nz")]
        ),
        "grok-search-rs: sid=s phase=p a=g2a_*** x b=Bearer *** c=y g2a_*** z"
    );
    assert_eq!(
        format_request_log("s", "p", &[("a", "Bearer"), ("b", "1")]),
        "grok-search-rs: sid=s phase=p a=Bearer b=1"
    );
}

#[test]
fn record_is_one_line_whatever_it_is_made_of() {
    assert_eq!(
        format_request_log("s\n1", "p\r\n2", &[("k\n3", "v\n4")]),
        "grok-search-rs: sid=s 1 phase=p  2 k 3=v 4"
    );
}

#[test]
fn append_failures_name_their_step() {
    for (step, message) in [
        (AppendStep::CreateDirectory, "create log dir failed: why"),
        (AppendStep::Open, "open log failed: why"),
        (AppendStep::Write, "write log failed: why"),
    ] {
        assert_eq!(
            append_failure(step, "why"),
            GrokSearchError::Provider(message.to_string())
        );
    }
}

#[test]
fn debug_event_is_read_back_from_its_line() {
    let event = DebugEvent::new(
        "e\t\u{2028}\"",
        object(vec![
            ("n", Json::integer(-5)),
            ("l", Json::Array(vec![Json::Null, Json::text("\\\u{0}")])),
        ]),
    );
    let line = event.jsonl_line();
    let back = match handle_line(&line) {
        LineStep::Message(value) => value,
        other => panic!("{other:?}"),
    };
    assert_eq!(back.get_str("event"), Some(event.event.as_str()));
    assert_eq!(back.get("payload"), Some(&event.payload));
}

#[test]
fn long_query_with_a_secret_is_cut_before_it_is_masked() {
    let query = format!("g2a_{}", "k".repeat(REQUEST_LOG_QUERY_MAX));
    assert_eq!(sanitize_field("query", &query), "g2a_***");
    let late = format!("{} Bearer abcdef", "w".repeat(REQUEST_LOG_QUERY_MAX - 10));
    assert_eq!(
        sanitize_field("query", &late),
        format!("{} Bearer ***", "w".repeat(REQUEST_LOG_QUERY_MAX - 10))
    );
}
