use emobanana::error::AppError;
use emobanana::flow::{success_response, FlowAction, FlowPhase, TransformFlow};
use emobanana::gemini::{
    attempt_result, build_request, GeminiCandidate, GeminiContent, GeminiPart, GeminiProvider, GeminiResponse,
    InlineData, UpstreamReply, MODEL_VERSION,
};
use emobanana::models::TransformRequest;

const PNG_B64: &str = "iVBORw0KGgoAAAANSUhEUgAAAAEAAAABCAYAAAAfFcSJAAAADUlEQVR42mNk+M9QDwADhgGAWjR9awAAAABJRU5ErkJggg==";

fn provider() -> Result<GeminiProvider, AppError> {
    GeminiProvider::new(Some("key".to_string()), None)
}

fn body(image: &str, emoji: &str) -> Result<TransformRequest, String> {
    Ok(TransformRequest { image: image.to_string(), emoji: emoji.to_string() })
}

fn image_reply(data: &str) -> UpstreamReply {
    UpstreamReply::Answered {
        status: 200,
        body: String::new(),
        parsed: Ok(GeminiResponse {
            candidates: vec![GeminiCandidate {
                content: Some(GeminiContent {
                    parts: vec![GeminiPart::Image {
                        inline_data: InlineData { mime_type: "image/png".to_string(), data: data.to_string() },
                    }],
                }),
                finish_reason: Some("STOP".to_string()),
            }],
        }),
    }
}

fn safety_reply() -> UpstreamReply {
    UpstreamReply::Answered {
        status: 200,
        body: String::new(),
        parsed: Ok(GeminiResponse {
            candidates: vec![GeminiCandidate { content: None, finish_reason: Some("SAFETY".to_string()) }],
        }),
    }
}

/// Drives a request to its end against a stub provider and an in-memory
/// store. Returns the final action and how many upstream calls were made.
fn run(
    body: Result<TransformRequest, String>,
    identity: &str,
    stored: Option<String>,
    stub: impl FnMut(usize) -> UpstreamReply,
) -> (FlowAction, usize, Option<(String, u32)>) {
    run_with(body, provider(), identity, stored, stub)
}

fn run_with(
    body: Result<TransformRequest, String>,
    provider: Result<GeminiProvider, AppError>,
    identity: &str,
    stored: Option<String>,
    mut stub: impl FnMut(usize) -> UpstreamReply,
) -> (FlowAction, usize, Option<(String, u32)>) {
    let (mut flow, mut action) = TransformFlow::start(body, provider, identity.to_string(), "2025-03-01");
    let mut calls = 0;
    let mut written = None;
    loop {
        action = match action {
            FlowAction::ReadQuota(_) => flow.quota_read(stored.clone()),
            FlowAction::CallUpstream(_) => {
                calls += 1;
                let reply = stub(calls);
                flow.upstream_result(attempt_result(&reply))
            },
            FlowAction::WriteQuota(k, n) => {
                written = Some((k, n));
                flow.quota_written()
            },
            done => return (done, calls, written),
        };
    }
}

#[test]
fn successful_request_end_to_end() {
    let url = format!("data:image/png;base64,{}", PNG_B64);
    let (action, calls, written) = run(body(&url, "😊"), "203.0.113.9", Some("2".to_string()), |_| image_reply("RESULT"));
    assert_eq!(calls, 1);
    assert_eq!(written, Some(("rate_limit:203.0.113.9:2025-03-01".to_string(), 3)));
    let image = match action {
        FlowAction::Succeed(image) => image,
        other => panic!("unexpected {:?}", other),
    };
    let response = success_response(image, 1_000, 1_250, "6f1c7a52-3d1e-4a7b-9c55-0d2f1e8b9a10".to_string());
    assert_eq!(response.transformed_image, "RESULT");
    assert_eq!(response.metadata.processing_time_ms, 250);
    assert_eq!(response.metadata.model_version, MODEL_VERSION);
    assert_eq!(response.metadata.model_version, "gemini-2.5-flash-image-preview");
    assert_eq!(response.metadata.request_id, "6f1c7a52-3d1e-4a7b-9c55-0d2f1e8b9a10");
}

#[test]
fn upstream_gets_prompt_and_payload() {
    let url = format!("data:image/png;base64,{}", PNG_B64);
    let (flow, action) = TransformFlow::start(body(&url, "😊"), provider(), "unknown".to_string(), "2025-03-01");
    assert_eq!(action, FlowAction::CallUpstream(build_request(PNG_B64, "😊")));
    assert_eq!(flow.phase(), FlowPhase::QuotaChecked);
    assert_eq!(flow.provider().unwrap().api_key(), "key");
}

#[test]
fn safety_block_on_every_attempt_end_to_end() {
    let url = format!("data:image/png;base64,{}", PNG_B64);
    let (action, calls, written) = run(body(&url, "😊"), "203.0.113.9", None, |_| safety_reply());
    assert_eq!(calls, 3);
    assert_eq!(written, None);
    let e = match action {
        FlowAction::Fail(e) => e,
        other => panic!("unexpected {:?}", other),
    };
    let reply = e.to_response();
    assert_eq!(reply.status, 451);
    assert_eq!(reply.body.error.code.as_deref(), Some("gemini_content_filtered"));
}

#[test]
fn blocked_twice_then_image_succeeds_on_third_attempt() {
    let url = format!("data:image/png;base64,{}", PNG_B64);
    let (action, calls, _) =
        run(body(&url, "😢"), "unknown", None, |n| if n < 3 { safety_reply() } else { image_reply("LATE") });
    assert_eq!(calls, 3);
    assert_eq!(action, FlowAction::Succeed("LATE".to_string()));
}

#[test]
fn other_failures_are_not_retried() {
    let url = format!("data:image/png;base64,{}", PNG_B64);
    let (action, calls, written) = run(body(&url, "😢"), "10.0.0.1", None, |_| UpstreamReply::Answered {
        status: 500,
        body: "boom".to_string(),
        parsed: Err("not json".to_string()),
    });
    assert_eq!(calls, 1);
    assert_eq!(written, None);
    assert_eq!(action, FlowAction::Fail(AppError::GeminiApiError("Gemini API server error: boom".to_string())));
}

#[test]
fn empty_emoji_is_bad_request_without_upstream_call() {
    let url = format!("data:image/png;base64,{}", PNG_B64);
    let (action, calls, written) = run(body(&url, ""), "10.0.0.1", None, |_| image_reply("NEVER"));
    assert_eq!(calls, 0);
    assert_eq!(written, None);
    let e = match action {
        FlowAction::Fail(e) => e,
        other => panic!("unexpected {:?}", other),
    };
    let reply = e.to_response();
    assert_eq!(reply.status, 400);
    assert_eq!(reply.body.error.code.as_deref(), Some("bad_request"));
}

#[test]
fn malformed_body_and_empty_image_are_bad_requests() {
    let (action, calls, _) = run(Err("expected value".to_string()), "10.0.0.1", None, |_| image_reply("X"));
    assert_eq!(calls, 0);
    assert_eq!(action, FlowAction::Fail(AppError::BadRequest("Invalid JSON in request body: expected value".to_string())));
    let (action, calls, _) = run(body("", "😊"), "10.0.0.1", None, |_| image_reply("X"));
    assert_eq!(calls, 0);
    assert!(matches!(action, FlowAction::Fail(AppError::BadRequest(_))));
}

#[test]
fn invalid_image_stops_before_quota_and_upstream() {
    let (flow, action) =
        TransformFlow::start(body("data:image/gif;base64,AAAA", "😊"), provider(), "10.0.0.1".to_string(), "d");
    assert!(matches!(action, FlowAction::Fail(AppError::UnsupportedImageType(_))));
    assert_eq!(flow.phase(), FlowPhase::Errored);
}

#[test]
fn missing_api_key_is_internal_error() {
    let url = format!("data:image/png;base64,{}", PNG_B64);
    let (_, action) =
        TransformFlow::start(body(&url, "😊"), GeminiProvider::new(None, None), "unknown".to_string(), "d");
    assert!(matches!(action, FlowAction::Fail(AppError::InternalError(_))));
    let (action, calls, _) = run_with(body(&url, "😊"), GeminiProvider::new(None, None), "10.0.0.1", None, |_| {
        image_reply("X")
    });
    assert_eq!(calls, 0);
    assert!(matches!(action, FlowAction::Fail(AppError::InternalError(_))));
}

#[test]
fn quota_is_checked_before_provider_setup() {
    let url = format!("data:image/png;base64,{}", PNG_B64);
    let (flow, action) =
        TransformFlow::start(body(&url, "😊"), GeminiProvider::new(None, None), "10.0.0.1".to_string(), "d");
    assert_eq!(action, FlowAction::ReadQuota("rate_limit:10.0.0.1:d".to_string()));
    assert_eq!(flow.phase(), FlowPhase::Validated);
    let (action, calls, _) = run_with(
        body(&url, "😊"),
        GeminiProvider::new(None, None),
        "10.0.0.1",
        Some("5".to_string()),
        |_| image_reply("X"),
    );
    assert_eq!(calls, 0);
    let reply = match action {
        FlowAction::Fail(e) => e.to_response(),
        other => panic!("unexpected {:?}", other),
    };
    assert_eq!(reply.status, 429);
    assert_eq!(
        reply.body.error.message,
        "Rate limit exceeded. You can make 5 requests per day. Try again tomorrow."
    );
}

#[test]
fn prohibited_content_in_an_error_body_is_retried() {
    let url = format!("data:image/png;base64,{}", PNG_B64);
    let (action, calls, _) = run(body(&url, "😊"), "unknown", None, |n| {
        if n < 3 {
            UpstreamReply::Answered {
                status: 400,
                body: "blocked: PROHIBITED_CONTENT".to_string(),
                parsed: Err("not a reply".to_string()),
            }
        } else {
            image_reply("THIRD")
        }
    });
    assert_eq!(calls, 3);
    assert_eq!(action, FlowAction::Succeed("THIRD".to_string()));
}

#[test]
fn exhausted_quota_is_refused_before_upstream() {
    let url = format!("data:image/png;base64,{}", PNG_B64);
    let (action, calls, _) = run(body(&url, "😊"), "10.0.0.1", Some("5".to_string()), |_| image_reply("X"));
    assert_eq!(calls, 0);
    assert!(matches!(action, FlowAction::Fail(AppError::RateLimitExceeded(_))));
}

#[test]
fn elapsed_time_never_negative() {
    let r = success_response("I".to_string(), 2_000, 1_000, "id".to_string());
    assert_eq!(r.metadata.processing_time_ms, 0);
}
