use grok_search_rs::error::GrokSearchError;
use grok_search_rs::json::{Json, JsonMap, JsonNumber};
use grok_search_rs::json_text::READ_DEPTH;
use grok_search_rs::mcp::messages::{after_reading, tool_response_with_text};
use grok_search_rs::mcp::{
    call_tool, error_response, finish_call, handle_line, handle_message, handle_request,
    negotiate_protocol_version, parse_string_array, parse_web_search_input, response_line,
    search_input_schema, serialize_failure, success_response, tool_response, tools_list, web_map_result, ErrorReport,
    LineStep, MessageStep, RequestStep, ToolCall, LATEST_PROTOCOL_VERSION,
};
use grok_search_rs::model::source::Source;

fn json(text: &str) -> Json {
    match handle_line(text) {
        LineStep::Message(value) => value,
        other => panic!("no message in {text}: {other:?}"),
    }
}

fn at<'a>(value: &'a Json, path: &[&str]) -> &'a Json {
    let mut here = value;
    for key in path {
        here = match here.get(key) {
            Some(next) => next,
            None => panic!("no {key} in {here:?}"),
        };
    }
    here
}

fn text_at(value: &Json, path: &[&str]) -> String {
    at(value, path).as_str().expect("a text").to_string()
}

fn number(n: u64) -> Json {
    Json::Number(JsonNumber::Unsigned(n))
}

fn empty() -> Json {
    Json::Object(JsonMap::new())
}

fn reply(request: &Json) -> Json {
    match handle_request(request, "1.2.3") {
        Ok(RequestStep::Reply(response)) => response,
        other => panic!("no reply: {other:?}"),
    }
}

fn tool_named<'a>(listed: &'a Json, name: &str) -> &'a Json {
    listed
        .get("tools")
        .and_then(Json::as_array)
        .expect("tools array")
        .iter()
        .find(|t| t.get_str("name") == Some(name))
        .unwrap_or_else(|| panic!("tool {name} missing"))
}

#[test]
fn initialized_notification_does_not_emit_response() {
    let response = handle_message(
        &json(r#"{"jsonrpc":"2.0","method":"notifications/initialized","params":{}}"#),
        "1.2.3",
    );
    assert_eq!(response, None);
}

#[test]
fn negotiate_protocol_version_prefers_supported_client_version() {
    assert_eq!(negotiate_protocol_version(Some("2024-11-05")), "2024-11-05");
    assert_eq!(negotiate_protocol_version(Some("2025-06-18")), "2025-06-18");
    assert_eq!(negotiate_protocol_version(Some("2025-11-25")), "2025-11-25");
    assert_eq!(
        negotiate_protocol_version(Some("1999-01-01")),
        LATEST_PROTOCOL_VERSION
    );
    assert_eq!(negotiate_protocol_version(None), LATEST_PROTOCOL_VERSION);
}

#[test]
fn every_supported_version_is_echoed() {
    assert_eq!(negotiate_protocol_version(Some("2025-03-26")), "2025-03-26");
    assert_eq!(LATEST_PROTOCOL_VERSION, "2025-11-25");
    assert_eq!(negotiate_protocol_version(Some("")), "2025-11-25");
}

#[test]
fn initialize_echoes_legacy_client_version() {
    let response = reply(&json(
        r#"{"jsonrpc":"2.0","id":1,"method":"initialize","params":{"protocolVersion":"2024-11-05","capabilities":{}}}"#,
    ));
    assert_eq!(text_at(&response, &["result", "protocolVersion"]), "2024-11-05");
    assert_eq!(
        text_at(&response, &["result", "serverInfo", "name"]),
        "grok-search-rs"
    );
}

#[test]
fn initialize_declares_latest_for_unknown_version() {
    let response = reply(&json(
        r#"{"jsonrpc":"2.0","id":2,"method":"initialize","params":{"protocolVersion":"3000-01-01","capabilities":{}}}"#,
    ));
    assert_eq!(
        text_at(&response, &["result", "protocolVersion"]),
        LATEST_PROTOCOL_VERSION
    );
}

#[test]
fn initialize_without_params_declares_latest_and_version() {
    let response = reply(&json(r#"{"id":"a","method":"initialize"}"#));
    assert_eq!(
        text_at(&response, &["result", "protocolVersion"]),
        LATEST_PROTOCOL_VERSION
    );
    assert_eq!(
        text_at(&response, &["result", "serverInfo", "version"]),
        "1.2.3"
    );
    assert_eq!(*at(&response, &["result", "capabilities", "tools"]), empty());
    assert_eq!(*at(&response, &["id"]), Json::text("a"));
}

#[test]
fn ping_request_gets_empty_success_response() {
    let response = reply(&json(r#"{"jsonrpc":"2.0","id":7,"method":"ping"}"#));
    assert_eq!(*at(&response, &["id"]), number(7));
    assert_eq!(*at(&response, &["result"]), empty());
}

#[test]
fn web_map_returns_url_sources_without_search_metadata() {
    let request = json(
        r#"{"jsonrpc":"2.0","id":9,"method":"tools/call","params":{"name":"web_map","arguments":{"url":"https://example.com","max_results":2}}}"#,
    );
    let (id, url) = match handle_message(&request, "1.2.3") {
        Some(MessageStep::Call {
            id,
            call: ToolCall::WebMap { url, max_results },
        }) => {
            assert_eq!(max_results, 2);
            (id, url)
        }
        other => panic!("no call of web_map: {other:?}"),
    };
    assert_eq!(url, "https://example.com");
    let sources: Vec<Source> = (0..2)
        .map(|i| Source {
            url: format!("https://example.com/page-{i}"),
            provider: "tavily".to_string(),
            title: Some("title".to_string()),
            description: Some("description".to_string()),
            published_date: Some("2025-01-01".to_string()),
        })
        .collect();
    let response = finish_call(id, Ok(web_map_result(&url, &sources)));
    assert_eq!(*at(&response, &["id"]), number(9));
    let output = at(&response, &["result", "structuredContent"]);
    let listed = at(output, &["sources"]).as_array().expect("sources");
    assert_eq!(*at(output, &["sources_count"]), number(2));
    assert_eq!(
        listed[0],
        json(r#"{"url":"https://example.com/page-0","provider":"tavily"}"#)
    );
    assert!(listed[0].get("title").is_none());
    assert!(listed[0].get("description").is_none());
    assert!(listed[0].get("published_date").is_none());
}

#[test]
fn tools_list_descriptions_guide_routing() {
    let listed = tools_list();
    let desc = |name: &str| -> String { text_at(tool_named(&listed, name), &["description"]) };

    let web_search = desc("web_search");
    assert!(web_search.contains("DEFAULT"), "web_search: {web_search}");
    assert!(web_search.contains("grok-chat-fast"), "web_search: {web_search}");
    assert!(web_search.contains("discovery"), "web_search: {web_search}");
    assert!(
        web_search.contains("don't have a specific URL"),
        "web_search: {web_search}"
    );
    assert!(
        !web_search.contains("read a single page"),
        "web_search must not claim the single-page-read role: {web_search}"
    );
    assert!(
        web_search.contains("web_search_standard"),
        "web_search must point at the standard tool: {web_search}"
    );

    let standard = desc("web_search_standard");
    assert!(standard.contains("multi-agent"), "web_search_standard: {standard}");
    assert!(
        standard.contains("simple fact lookup"),
        "web_search_standard must steer simple lookups to low: {standard}"
    );
    assert!(
        standard.contains("Prefer web_search"),
        "web_search_standard: {standard}"
    );

    let effort = text_at(
        tool_named(&listed, "web_search_standard"),
        &["inputSchema", "properties", "reasoning_effort", "description"],
    );
    assert!(
        effort.contains("simple fact lookup"),
        "reasoning_effort must say low is enough for fact lookup: {effort}"
    );
    assert!(
        effort.contains("server default"),
        "reasoning_effort must point omit at the server default: {effort}"
    );
    assert!(
        !effort.contains("this host"),
        "schema must not bake in this-host defaults: {effort}"
    );

    let web_fetch = desc("web_fetch");
    assert!(web_fetch.contains("specific URL"), "web_fetch: {web_fetch}");
    assert!(web_fetch.contains("read a single page"), "web_fetch: {web_fetch}");
    assert!(web_fetch.contains("GitHub issue"), "web_fetch: {web_fetch}");
    assert!(
        web_fetch.contains("StackOverflow") || web_fetch.contains("StackExchange"),
        "web_fetch: {web_fetch}"
    );
    assert!(web_fetch.contains("arXiv"), "web_fetch: {web_fetch}");
    assert!(web_fetch.contains("Wikipedia"), "web_fetch: {web_fetch}");
    assert!(web_fetch.contains("web_search"), "web_fetch: {web_fetch}");
    assert!(
        web_fetch.contains("60s"),
        "web_fetch must name the 60s cap: {web_fetch}"
    );

    let get_sources = desc("get_sources");
    assert!(get_sources.contains("session_id"), "get_sources: {get_sources}");
    assert!(get_sources.contains("new search"), "get_sources: {get_sources}");
}

#[test]
fn web_search_schema_hides_model_and_platform() {
    let listed = tools_list();
    let tools = listed.get("tools").and_then(Json::as_array).expect("tools array");
    assert_eq!(
        text_at(&tools[0], &["name"]),
        "web_search",
        "DEFAULT search tool must be listed first"
    );
    for name in ["web_search", "web_search_standard"] {
        let props = at(tool_named(&listed, name), &["inputSchema", "properties"]);
        assert!(matches!(props, Json::Object(_)));
        assert!(props.get("model").is_none(), "{name} must not expose `model`: {props:?}");
        assert!(
            props.get("platform").is_none(),
            "{name} must not expose `platform`: {props:?}"
        );
        assert!(props.get("fast").is_none(), "{name} must not expose `fast`: {props:?}");
        assert!(props.get("query").is_some(), "{name} query must remain: {props:?}");
        assert!(
            props.get("response_format").is_some(),
            "{name} response_format must remain: {props:?}"
        );
    }

    let fast_props = at(tool_named(&listed, "web_search"), &["inputSchema", "properties"]);
    assert!(
        fast_props.get("reasoning_effort").is_none(),
        "web_search must not expose reasoning_effort: {fast_props:?}"
    );

    let std_props = at(
        tool_named(&listed, "web_search_standard"),
        &["inputSchema", "properties"],
    );
    assert!(
        std_props.get("reasoning_effort").is_some(),
        "web_search_standard must expose reasoning_effort: {std_props:?}"
    );
    let effort_enum = at(std_props, &["reasoning_effort", "enum"])
        .as_array()
        .expect("reasoning_effort enum");
    for level in ["low", "medium", "high", "xhigh"] {
        assert!(
            effort_enum.iter().any(|v| v.as_str() == Some(level)),
            "missing {level} in {effort_enum:?}"
        );
    }
}

#[test]
fn parse_web_search_input_ignores_fast_arg() {
    let input = parse_web_search_input(&json(
        r#"{"query":"capital of France","fast":true,"reasoning_effort":"high"}"#,
    ))
    .expect("parse");
    assert_eq!(input.query, "capital of France");
    assert!(!input.fast, "fast is dispatcher-owned, not a tool arg");
    assert_eq!(input.reasoning_effort.as_deref(), Some("high"));
}

#[test]
fn parse_web_search_input_defaults_fast_false() {
    let input = parse_web_search_input(&json(r#"{"query":"q"}"#)).expect("parse");
    assert!(!input.fast);
}

#[test]
fn tools_list_splits_fast_and_standard() {
    let listed = tools_list();
    let tools = listed.get("tools").and_then(Json::as_array).expect("tools array");
    let names: Vec<&str> = tools.iter().filter_map(|t| t.get_str("name")).collect();
    assert!(
        names.contains(&"web_search") && names.contains(&"web_search_standard"),
        "expected both search tools, got {names:?}"
    );
    let desc = text_at(tool_named(&listed, "web_search"), &["description"]);
    assert!(desc.contains("DEFAULT"), "web_search: {desc}");
    assert!(desc.contains("grok-chat-fast"), "web_search: {desc}");
    assert!(desc.contains("x_search"), "web_search: {desc}");
    let std_desc = text_at(tool_named(&listed, "web_search_standard"), &["description"]);
    assert!(std_desc.contains("multi-agent"), "{std_desc}");
    assert!(std_desc.contains("Prefer web_search"), "{std_desc}");
}

#[test]
fn search_schema_requires_the_query() {
    for effort in [false, true] {
        let schema = search_input_schema(effort);
        assert_eq!(text_at(&schema, &["type"]), "object");
        assert_eq!(*at(&schema, &["required"]), json(r#"["query"]"#));
        assert_eq!(
            *at(&schema, &["properties", "extra_sources", "minimum"]),
            number(0)
        );
        assert_eq!(
            *at(&schema, &["properties", "include_domains", "items"]),
            json(r#"{"type":"string"}"#)
        );
        assert_eq!(
            *at(&schema, &["properties", "include_content", "default"]),
            Json::Bool(true)
        );
        assert_eq!(
            *at(&schema, &["properties", "response_format", "enum"]),
            json(r#"["concise","detailed"]"#)
        );
    }
}

#[test]
fn other_tools_are_listed_with_their_schemas() {
    let listed = tools_list();
    let schema = |name: &str| at(tool_named(&listed, name), &["inputSchema"]).clone();
    assert_eq!(
        schema("web_map"),
        json(
            r#"{"type":"object","required":["url"],"properties":{"url":{"type":"string"},"max_results":{"type":"integer","minimum":1}}}"#
        )
    );
    assert_eq!(
        schema("doctor"),
        json(r#"{"type":"object","properties":{}}"#)
    );
    let sources = schema("get_sources");
    assert_eq!(*at(&sources, &["required"]), json(r#"["session_id"]"#));
    assert_eq!(*at(&sources, &["properties", "offset", "default"]), number(0));
    assert_eq!(*at(&sources, &["properties", "limit", "minimum"]), number(1));
    assert_eq!(
        *at(&schema("web_fetch"), &["properties", "max_chars", "minimum"]),
        number(1)
    );
}

#[test]
fn listed_tools_are_those_that_can_be_called() {
    let listed = tools_list();
    let tools = listed.get("tools").and_then(Json::as_array).expect("tools array");
    assert_eq!(tools.len(), 6);
    for tool in tools {
        let name = text_at(tool, &["name"]);
        assert!(!matches!(
            call_tool(&name, &empty()),
            Err(GrokSearchError::NotFound(_))
        ));
    }
    assert_eq!(
        call_tool("web_searches", &empty()),
        Err(GrokSearchError::NotFound("unknown tool: web_searches".to_string()))
    );
}

#[test]
fn search_call_reads_every_argument() {
    let args = json(
        r#"{"query":"q","model":"grok-4","platform":"x","extra_sources":3,"recency_days":7,
            "include_domains":[" a.com ","",7,"b.org"],"exclude_domains":"c.net",
            "include_content":false,"response_format":"concise","reasoning_effort":" XHigh "}"#,
    );
    let input = parse_web_search_input(&args).expect("parse");
    assert_eq!(input.platform, None);
    assert_eq!(input.model, None);
    assert_eq!(input.extra_sources, Some(3));
    assert_eq!(input.recency_days, Some(7));
    assert_eq!(input.include_domains, vec!["a.com", "b.org"]);
    assert!(input.exclude_domains.is_empty());
    assert_eq!(input.include_content, Some(false));
    assert_eq!(input.response_format.as_deref(), Some("concise"));
    assert_eq!(input.reasoning_effort.as_deref(), Some("xhigh"));
}

#[test]
fn search_call_drops_what_it_cannot_use() {
    let args = json(
        r#"{"query":"q","extra_sources":-1,"recency_days":4294967296,"include_content":"no",
            "reasoning_effort":"enormous","response_format":1}"#,
    );
    let input = parse_web_search_input(&args).expect("parse");
    assert_eq!(input.extra_sources, None);
    assert_eq!(input.recency_days, None);
    assert_eq!(input.include_content, None);
    assert_eq!(input.reasoning_effort, None);
    assert_eq!(input.response_format, None);
    let wrapped = json(r#"{"query":"q","recency_days":4294967297}"#);
    assert_eq!(
        parse_web_search_input(&wrapped).expect("parse").recency_days,
        Some(1)
    );
}

#[test]
fn callers_model_changes_nothing() {
    let plain = json(r#"{"query":"q","extra_sources":1}"#);
    let chosen = json(r#"{"query":"q","extra_sources":1,"model":"m","platform":"p","fast":true}"#);
    assert_eq!(
        parse_web_search_input(&plain),
        parse_web_search_input(&chosen)
    );
    assert_eq!(call_tool("web_search", &plain), call_tool("web_search", &chosen));
}

#[test]
fn channel_goes_by_the_tool_name() {
    for (name, fast) in [("web_search", true), ("web_search_standard", false)] {
        match call_tool(name, &json(r#"{"query":"q","fast":false}"#)) {
            Ok(ToolCall::WebSearch(input)) => assert_eq!(input.fast, fast),
            other => panic!("{other:?}"),
        }
        assert_eq!(
            call_tool(name, &json(r#"{"query":5}"#)),
            Err(GrokSearchError::InvalidParams(
                "web_search.query is required".to_string()
            ))
        );
    }
}

#[test]
fn other_calls_are_read() {
    assert_eq!(call_tool("doctor", &Json::Null), Ok(ToolCall::Doctor));
    assert_eq!(
        call_tool("get_sources", &json(r#"{"session_id":"s","offset":4,"limit":0}"#)),
        Ok(ToolCall::GetSources {
            session_id: "s".to_string(),
            offset: 4,
            limit: None
        })
    );
    assert_eq!(
        call_tool("get_sources", &json(r#"{"session_id":"s","limit":2}"#)),
        Ok(ToolCall::GetSources {
            session_id: "s".to_string(),
            offset: 0,
            limit: Some(2)
        })
    );
    assert_eq!(
        call_tool("web_fetch", &json(r#"{"url":"u","max_chars":10}"#)),
        Ok(ToolCall::WebFetch {
            url: "u".to_string(),
            max_chars: Some(10)
        })
    );
    assert_eq!(
        call_tool("web_map", &json(r#"{"url":"u"}"#)),
        Ok(ToolCall::WebMap {
            url: "u".to_string(),
            max_results: 10
        })
    );
    for (name, message) in [
        ("get_sources", "get_sources.session_id is required"),
        ("web_fetch", "web_fetch.url is required"),
        ("web_map", "web_map.url is required"),
    ] {
        assert_eq!(
            call_tool(name, &empty()),
            Err(GrokSearchError::InvalidParams(message.to_string()))
        );
    }
}

#[test]
fn string_arrays_are_trimmed() {
    let list = json(r#"["　x ","  ",null,"y z"]"#);
    assert_eq!(parse_string_array(Some(&list)), vec!["x", "y z"]);
    assert!(parse_string_array(None).is_empty());
    assert!(parse_string_array(Some(&Json::Null)).is_empty());
}

#[test]
fn bad_requests_fail_with_their_error() {
    let fail = |text: &str| match handle_message(&json(text), "1.2.3") {
        Some(MessageStep::Fail { id, error }) => (id, error),
        other => panic!("{other:?}"),
    };
    assert_eq!(
        fail(r#"{"id":1}"#),
        (
            number(1),
            GrokSearchError::InvalidParams("missing method".to_string())
        )
    );
    assert_eq!(
        fail(r#"{"id":null,"method":"resources/list"}"#),
        (
            Json::Null,
            GrokSearchError::NotFound("unsupported method: resources/list".to_string())
        )
    );
    assert_eq!(
        fail(r#"{"id":2,"method":"tools/call","params":[]}"#).1,
        GrokSearchError::InvalidParams("missing tool name".to_string())
    );
    assert_eq!(
        fail(r#"{"id":2,"method":"tools/call","params":{"name":"x"}}"#).1,
        GrokSearchError::NotFound("unknown tool: x".to_string())
    );
}

#[test]
fn tools_call_without_arguments_reaches_the_tool() {
    match handle_message(
        &json(r#"{"id":3,"method":"tools/call","params":{"name":"doctor"}}"#),
        "1.2.3",
    ) {
        Some(MessageStep::Call { id, call }) => {
            assert_eq!(id, number(3));
            assert_eq!(call, ToolCall::Doctor);
        }
        other => panic!("{other:?}"),
    }
}

#[test]
fn tools_list_request_lists_the_tools() {
    let response = reply(&json(r#"{"id":4,"method":"tools/list"}"#));
    assert_eq!(*at(&response, &["result"]), tools_list());
}

#[test]
fn responses_have_their_members() {
    assert_eq!(
        success_response(number(1), Json::Bool(true)),
        json(r#"{"jsonrpc":"2.0","id":1,"result":true}"#)
    );
    assert_eq!(
        error_response(Json::text("i"), -32602, "bad".to_string()),
        json(r#"{"jsonrpc":"2.0","id":"i","error":{"code":-32602,"message":"bad"}}"#)
    );
    assert_eq!(
        *at(&error_response(Json::Null, 7, String::new()), &["error", "code"]),
        number(7)
    );
}

#[test]
fn tool_result_is_given_as_value_and_as_text() {
    let result = json(r#"{"b":[1,-2,"x\ny"],"a":null}"#);
    let response = tool_response(number(5), result.clone());
    assert_eq!(*at(&response, &["result", "structuredContent"]), result);
    let content = at(&response, &["result", "content"]).as_array().expect("content");
    assert_eq!(content.len(), 1);
    assert_eq!(text_at(&content[0], &["type"]), "text");
    assert_eq!(
        text_at(&content[0], &["text"]),
        r#"{"a":null,"b":[1,-2,"x\ny"]}"#
    );
    let given = tool_response_with_text(number(5), result, "t".to_string());
    let content = at(&given, &["result", "content"]).as_array().expect("content");
    assert_eq!(text_at(&content[0], &["text"]), "t");
}

#[test]
fn failed_call_is_answered_with_its_report() {
    let response = finish_call(
        number(6),
        Err(ErrorReport {
            code: -32000,
            message: "upstream".to_string(),
        }),
    );
    assert_eq!(
        response,
        json(r#"{"jsonrpc":"2.0","id":6,"error":{"code":-32000,"message":"upstream"}}"#)
    );
}

#[test]
fn lines_are_told_apart() {
    assert_eq!(handle_line(" \t "), LineStep::Ignore);
    assert_eq!(handle_line("null"), LineStep::Message(Json::Null));
    match handle_line("{oops") {
        LineStep::Reply(response) => {
            assert_eq!(*at(&response, &["id"]), Json::Null);
            assert_eq!(
                *at(&response, &["error", "code"]),
                Json::Number(JsonNumber::Negative(-32700))
            );
            let message = text_at(&response, &["error", "message"]);
            assert_eq!(message, "parse error: key must be a string at line 1 column 2");
        }
        other => panic!("{other:?}"),
    }
    match after_reading(Err("why".to_string())) {
        LineStep::Reply(response) => {
            assert_eq!(text_at(&response, &["error", "message"]), "parse error: why")
        }
        other => panic!("{other:?}"),
    }
    assert_eq!(
        after_reading(Ok(number(1))),
        LineStep::Message(number(1))
    );
}

#[test]
fn response_goes_out_on_one_line() {
    let line = response_line(&success_response(number(1), Json::text("a\nb\r\"c\"")));
    assert_eq!(
        line,
        "{\"id\":1,\"jsonrpc\":\"2.0\",\"result\":\"a\\nb\\r\\\"c\\\"\"}\n"
    );
}

#[test]
fn float_id_is_echoed() {
    let response = reply(&json(r#"{"id":1.5,"method":"ping"}"#));
    assert_eq!(
        response_line(&response),
        "{\"id\":1.5,\"jsonrpc\":\"2.0\",\"result\":{}}\n"
    );
}

#[test]
fn unserialized_outputs_are_told_apart() {
    for (name, args, message) in [
        ("web_search", r#"{"query":"q"}"#, "serialize output: why"),
        ("web_search_standard", r#"{"query":"q"}"#, "serialize output: why"),
        ("get_sources", r#"{"session_id":"s"}"#, "serialize sources: why"),
        ("web_fetch", r#"{"url":"u"}"#, "serialize fetch: why"),
    ] {
        let call = call_tool(name, &json(args)).expect("a call");
        assert_eq!(
            serialize_failure(&call, "why"),
            GrokSearchError::Parse(message.to_string())
        );
    }
}

#[test]
fn text_of_a_tool_answer_is_read_back() {
    let result = json(r#"{"b":[1,-2,"x\ny\u0000\""],"a":{"":null},"n":18446744073709551615}"#);
    let response = tool_response(number(5), result.clone());
    let content = at(&response, &["result", "content"]).as_array().expect("content");
    assert_eq!(json(&text_at(&content[0], &["text"])), result);
    let line = response_line(&response);
    assert_eq!(json(&line), response);
}

#[test]
fn nesting_is_read_back_up_to_its_limit() {
    let nested = |depth: usize| {
        let mut value = Json::Null;
        for _ in 0..depth {
            value = Json::array(vec![value]);
        }
        value
    };
    let line = response_line(&nested(READ_DEPTH));
    assert_eq!(json(&line), nested(READ_DEPTH));
    assert!(matches!(
        handle_line(&response_line(&nested(READ_DEPTH + 1))),
        LineStep::Reply(_)
    ));
}
