use grok_search_rs::error::GrokSearchError;
use grok_search_rs::json::Json;
use grok_search_rs::json_text::to_serde;
use grok_search_rs::logging::{LogSink, RequestTrace};
use grok_search_rs::model::search::{ContentBlock, SearchMessage, SearchRequest, SearchTool};
use grok_search_rs::providers::grok::{
    should_retry_grok, GrokResponsesProvider, RetryNotice, SearchRun, SearchStep,
    GROK_RETRY_PAUSE_MILLIS, GROK_RETRY_WINDOW,
};
use std::time::Duration;

fn nanos(elapsed: Duration) -> u128 {
    elapsed.as_nanos()
}

fn sample_request() -> SearchRequest {
    SearchRequest {
        model: "grok-4.20-multi-agent-0309".to_string(),
        system: None,
        messages: vec![SearchMessage {
            role: "user".to_string(),
            content: vec![ContentBlock::text("latest rust release")],
        }],
        tools: vec![SearchTool::web_search()],
        reasoning_effort: Some("medium".into()),
        fast: false,
    }
}

#[test]
fn retries_transport_and_incomplete_inside_window() {
    let timeout = GrokSearchError::Timeout("Grok Responses request timed out".into());
    let incomplete = GrokSearchError::Provider(
        "Grok Responses SSE stream ended incompletely (no response.completed)".into(),
    );
    assert!(should_retry_grok(&timeout, None, nanos(Duration::from_secs(0))));
    assert!(should_retry_grok(
        &incomplete,
        None,
        nanos(Duration::from_millis(119_999))
    ));
    assert!(should_retry_grok(
        &timeout,
        Some(503),
        nanos(Duration::from_secs(1))
    ));
    assert!(should_retry_grok(
        &timeout,
        Some(429),
        nanos(Duration::from_secs(10))
    ));
}

#[test]
fn does_not_retry_after_window_or_on_client_errors() {
    let timeout = GrokSearchError::Timeout("timed out".into());
    let failed = GrokSearchError::Provider(
        "Grok Responses stream ended with response.failed: upstream failed".into(),
    );
    let parse = GrokSearchError::Parse("bad json".into());
    assert!(!should_retry_grok(&timeout, None, GROK_RETRY_WINDOW));
    assert!(!should_retry_grok(
        &timeout,
        None,
        GROK_RETRY_WINDOW + nanos(Duration::from_millis(1))
    ));
    assert!(!should_retry_grok(
        &timeout,
        Some(401),
        nanos(Duration::from_secs(1))
    ));
    assert!(!should_retry_grok(
        &timeout,
        Some(400),
        nanos(Duration::from_secs(1))
    ));
    assert!(!should_retry_grok(
        &timeout,
        Some(403),
        nanos(Duration::from_secs(1))
    ));
    assert!(!should_retry_grok(&failed, None, nanos(Duration::from_secs(1))));
    assert!(!should_retry_grok(&parse, None, nanos(Duration::from_secs(1))));
}

#[test]
fn window_is_two_minutes() {
    assert_eq!(GROK_RETRY_WINDOW, nanos(Duration::from_secs(120)));
    let timeout = GrokSearchError::Timeout(String::new());
    assert!(should_retry_grok(&timeout, None, GROK_RETRY_WINDOW - 1));
}

#[test]
fn other_final_failures_are_not_retried() {
    let timeout = GrokSearchError::Timeout("t".into());
    assert!(!should_retry_grok(&timeout, Some(404), 0));
    assert!(!should_retry_grok(&timeout, Some(422), 0));
    let conflict = GrokSearchError::Provider("conflict".into());
    assert!(!should_retry_grok(&conflict, Some(409), nanos(Duration::from_secs(1))));
    for code in 400..500u16 {
        assert_eq!(should_retry_grok(&conflict, Some(code), 0), code == 429, "{code}");
        assert_eq!(should_retry_grok(&timeout, Some(code), 0), code == 429, "{code}");
    }
    for status in [None, Some(200), Some(399), Some(500), Some(599)] {
        assert!(should_retry_grok(&conflict, status, 0), "{status:?}");
    }
    let incomplete =
        GrokSearchError::Provider("stream ended with response.incomplete: max_tokens".into());
    assert!(!should_retry_grok(&incomplete, None, 0));
    for err in [
        GrokSearchError::InvalidParams("x".into()),
        GrokSearchError::NotFound("x".into()),
    ] {
        assert!(!should_retry_grok(&err, None, 0));
    }
}

#[test]
fn retry_payload_asks_for_stream() {
    let provider = GrokResponsesProvider::new("http://localhost/v1", true, false);
    let body = provider.request_body(&sample_request()).expect("body");
    assert_eq!(body.get("stream"), Some(&Json::Bool(true)));
    let sent = to_serde(&body).to_string();
    assert!(
        sent.contains(r#""stream":true"#),
        "Grok request body must set stream:true"
    );
}

#[test]
fn endpoint_ignores_slashes_at_the_end() {
    for url in ["http://h/v1", "http://h/v1/", "http://h/v1///"] {
        assert_eq!(
            GrokResponsesProvider::new(url, false, false).endpoint(),
            "http://h/v1/responses"
        );
    }
    assert_eq!(
        GrokResponsesProvider::new("//", false, false).endpoint(),
        "/responses"
    );
}

#[test]
fn retry_is_logged_and_rested_on() {
    let mut run = SearchRun::new();
    for _ in 0..12 {
        run.begin_attempt();
    }
    assert_eq!(run.attempts(), 12);
    let step = run.after_failure(
        GrokSearchError::Timeout("slow".into()),
        "timeout: slow",
        Some(503),
        5,
    );
    let notice = RetryNotice {
        attempt: "12".to_string(),
        status: "503".to_string(),
        err: "timeout: slow".to_string(),
        pause_millis: 200,
    };
    assert_eq!(step, SearchStep::Retry(notice.clone()));
    assert_eq!(GROK_RETRY_PAUSE_MILLIS, 200);
    let mut sink = LogSink::new();
    assert_eq!(notice.emit(None, &mut sink), None);
    assert_eq!(
        notice.emit(Some(&RequestTrace::new("retry01")), &mut sink),
        Some(
            "grok-search-rs: sid=retry01 phase=grok_retry attempt=12 status=503 err=timeout: slow"
                .to_string()
        )
    );
}

#[test]
fn failure_without_status_shows_a_dash() {
    let mut run = SearchRun::new();
    run.begin_attempt();
    match run.after_failure(GrokSearchError::Provider("reset".into()), "reset", None, 0) {
        SearchStep::Retry(notice) => {
            assert_eq!(notice.attempt, "1");
            assert_eq!(notice.status, "-");
        }
        other => panic!("{other:?}"),
    }
}

#[test]
fn final_failure_is_given_up() {
    let mut run = SearchRun::new();
    run.begin_attempt();
    let err = GrokSearchError::Timeout("slow".into());
    assert_eq!(
        run.after_failure(err.clone(), "slow", None, GROK_RETRY_WINDOW),
        SearchStep::Fail(err)
    );
}

/// How many attempts a search makes against a backend that answers as scripted, and what it
/// ends in; `None` in the script is an attempt that succeeds.
fn attempts_made(
    script: Vec<Option<(GrokSearchError, Option<u16>)>>,
) -> (u32, Result<(), GrokSearchError>) {
    let mut run = SearchRun::new();
    for outcome in script {
        run.begin_attempt();
        match outcome {
            None => return (run.attempts(), Ok(())),
            Some((err, status)) => match run.after_failure(err, "text", status, 1) {
                SearchStep::Retry(notice) => assert_eq!(notice.attempt, run.attempts().to_string()),
                SearchStep::Fail(err) => return (run.attempts(), Err(err)),
            },
        }
    }
    panic!("the script is over");
}

#[test]
fn incomplete_streams_are_tried_again_until_one_completes() {
    let incomplete = || {
        Some((
            GrokSearchError::Provider(
                "Grok Responses SSE stream ended incompletely (no response.completed)".into(),
            ),
            Some(200),
        ))
    };
    assert_eq!(attempts_made(vec![incomplete(), None]), (2, Ok(())));
    assert_eq!(
        attempts_made(vec![incomplete(), incomplete(), incomplete(), None]),
        (4, Ok(()))
    );
}

#[test]
fn refusals_end_a_search_at_once() {
    let unauthorized = GrokSearchError::Provider("Grok Responses HTTP 401: bad key".into());
    assert_eq!(
        attempts_made(vec![Some((unauthorized.clone(), Some(401))), None]),
        (1, Err(unauthorized))
    );
    let failed = GrokSearchError::Provider(
        "Grok Responses stream ended with response.failed: upstream failed".into(),
    );
    assert_eq!(
        attempts_made(vec![Some((failed.clone(), Some(200))), None]),
        (1, Err(failed))
    );
}
