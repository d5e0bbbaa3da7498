use grok_search_rs::adapters::grok_responses_request::to_grok_responses_payload;
use grok_search_rs::error::GrokSearchError;
use grok_search_rs::json::Json;
use grok_search_rs::mcp::{handle_line, LineStep};
use grok_search_rs::model::search::{
    ContentBlock, SearchFilters, SearchMessage, SearchRequest, SearchTool, FAST_MODEL,
};

fn json(text: &str) -> Json {
    match handle_line(text) {
        LineStep::Message(value) => value,
        other => panic!("{other:?}"),
    }
}

fn request() -> SearchRequest {
    SearchRequest {
        model: "grok-4".to_string(),
        system: Some(" be brief ".to_string()),
        messages: vec![SearchMessage {
            role: "user".to_string(),
            content: vec![ContentBlock::text("one"), ContentBlock::text("two")],
        }],
        tools: vec![SearchTool::web_search()],
        reasoning_effort: Some(" high ".to_string()),
        fast: false,
    }
}

#[test]
fn standard_payload_is_exact() {
    assert_eq!(
        to_grok_responses_payload(&request(), true, true),
        Ok(json(
            r#"{"model":"grok-4","stream":true,
                "input":[{"role":"system","content":" be brief "},{"role":"user","content":"one\ntwo"}],
                "tools":[{"type":"web_search"},{"type":"x_search"}],
                "reasoning":{"effort":"high"}}"#
        ))
    );
}

#[test]
fn fast_payload_is_bare() {
    let mut fast = request();
    fast.apply_fast_mode();
    assert_eq!(fast.model, FAST_MODEL);
    assert_eq!(fast.reasoning_effort, None);
    assert!(fast.fast);
    let body = to_grok_responses_payload(&fast, true, true).expect("body");
    assert_eq!(
        body,
        json(
            r#"{"model":"grok-chat-fast","stream":true,
                "input":[{"role":"system","content":" be brief "},{"role":"user","content":"one\ntwo"}],
                "tools":[{"type":"web_search"}]}"#
        )
    );
    let mut flagged = request();
    flagged.fast = true;
    assert_eq!(to_grok_responses_payload(&flagged, true, true), Ok(body));
}

#[test]
fn blank_parts_are_left_out() {
    let mut req = request();
    req.system = Some(" \n".to_string());
    req.reasoning_effort = Some("\t".to_string());
    req.messages = vec![SearchMessage {
        role: "user".to_string(),
        content: vec![],
    }];
    assert_eq!(
        to_grok_responses_payload(&req, false, false),
        Ok(json(
            r#"{"model":"grok-4","stream":true,"input":[{"role":"user","content":""}],"tools":[]}"#
        ))
    );
}

#[test]
fn required_web_search_must_be_asked_for() {
    let mut req = request();
    req.tools = vec![SearchTool {
        name: "web_searcher".to_string(),
        input_schema: Json::Null,
    }];
    assert_eq!(
        to_grok_responses_payload(&req, true, false),
        Err(GrokSearchError::Parse(
            "web_search is enabled but request does not include web_search tool intent".to_string()
        ))
    );
    assert!(to_grok_responses_payload(&req, false, false).is_ok());
}

#[test]
fn web_search_tool_takes_nothing() {
    let tool = SearchTool::web_search();
    assert_eq!(tool.name, "web_search");
    assert_eq!(tool.input_schema, json(r#"{"type":"object","properties":{}}"#));
}

#[test]
fn content_block_gives_its_text_back() {
    assert_eq!(ContentBlock::text("x").as_text(), "x");
}

#[test]
fn filters_are_empty_by_default() {
    assert!(SearchFilters::default().is_empty());
    let by_day = SearchFilters {
        recency_days: Some(0),
        ..SearchFilters::default()
    };
    assert!(!by_day.is_empty());
    let by_domain = SearchFilters {
        exclude_domains: vec![String::new()],
        ..SearchFilters::default()
    };
    assert!(!by_domain.is_empty());
    let only = SearchFilters {
        include_domains: vec!["a".to_string()],
        ..SearchFilters::default()
    };
    assert!(!only.is_empty());
}
