use emobanana::error::AppError;
use emobanana::gemini::{
    after_attempt, attempt_result, build_prompt, build_request, classify_http_failure, interpret_response,
    AttemptStep, GeminiCandidate, GeminiContent, GeminiPart, GeminiProvider, GeminiResponse, InlineData,
    UpstreamReply, MAX_ATTEMPTS,
};

fn text(t: &str) -> GeminiPart {
    GeminiPart::Text { text: t.to_string() }
}

fn image(d: &str) -> GeminiPart {
    GeminiPart::Image { inline_data: InlineData { mime_type: "image/png".to_string(), data: d.to_string() } }
}

fn candidate(reason: Option<&str>, parts: Option<Vec<GeminiPart>>) -> GeminiCandidate {
    GeminiCandidate {
        content: parts.map(|parts| GeminiContent { parts }),
        finish_reason: reason.map(|r| r.to_string()),
    }
}

fn response(candidates: Vec<GeminiCandidate>) -> GeminiResponse {
    GeminiResponse { candidates }
}

#[test]
fn prompt_embeds_the_emoji() {
    assert_eq!(
        build_prompt("😊"),
        "Please edit this photo by changing the person's facial expression to look more like this emoji: 😊. Make the facial expression match the mood of the emoji while keeping everything else the same."
    );
}

#[test]
fn request_holds_prompt_then_image() {
    let req = build_request("QUJD", "😢");
    assert_eq!(req.contents.len(), 1);
    let parts = &req.contents[0].parts;
    assert_eq!(parts.len(), 2);
    assert_eq!(parts[0], text(&build_prompt("😢")));
    assert_eq!(
        parts[1],
        GeminiPart::Image { inline_data: InlineData { mime_type: "image/jpeg".to_string(), data: "QUJD".to_string() } }
    );
}

#[test]
fn http_failures_are_classified() {
    assert_eq!(
        classify_http_failure(400, "bad"),
        AppError::GeminiInvalidRequest("Invalid request to Gemini API: bad".to_string())
    );
    assert_eq!(
        classify_http_failure(401, "x"),
        AppError::GeminiApiError("Authentication failed with Gemini API".to_string())
    );
    assert_eq!(
        classify_http_failure(403, "x"),
        AppError::GeminiApiError("Authentication failed with Gemini API".to_string())
    );
    assert_eq!(classify_http_failure(429, "x"), AppError::GeminiQuotaExceeded("Gemini API quota exceeded".to_string()));
    assert_eq!(
        classify_http_failure(503, "down"),
        AppError::GeminiApiError("Gemini API server error: down".to_string())
    );
    assert_eq!(classify_http_failure(404, "nf"), AppError::GeminiApiError("Gemini API error: nf".to_string()));
    assert_eq!(classify_http_failure(302, "moved"), AppError::GeminiApiError("Gemini API error: moved".to_string()));
}

#[test]
fn empty_candidate_list_is_internal_error() {
    assert!(matches!(interpret_response(&response(vec![])), Err(AppError::InternalError(_))));
}

#[test]
fn finish_reasons_are_read_before_content() {
    let img = Some(vec![image("AAAA")]);
    for reason in ["PROHIBITED_CONTENT", "SAFETY"] {
        let r = interpret_response(&response(vec![candidate(Some(reason), img.clone())]));
        assert!(matches!(r, Err(AppError::GeminiContentFiltered(_))));
    }
    for reason in ["RECITATION", "OTHER"] {
        let r = interpret_response(&response(vec![candidate(Some(reason), img.clone())]));
        assert!(matches!(r, Err(AppError::TransformationFailed(_))));
    }
    let r = interpret_response(&response(vec![candidate(Some("STOP"), img.clone())]));
    assert_eq!(r, Ok("AAAA".to_string()));
}

#[test]
fn first_inline_image_wins() {
    let r = interpret_response(&response(vec![
        candidate(None, None),
        candidate(None, Some(vec![text("here"), image("BBBB"), image("CCCC")])),
        candidate(Some("SAFETY"), None),
    ]));
    assert_eq!(r, Ok("BBBB".to_string()));
}

#[test]
fn no_image_is_transformation_failure() {
    let r = interpret_response(&response(vec![candidate(Some("STOP"), Some(vec![text("sorry")]))]));
    assert!(matches!(r, Err(AppError::TransformationFailed(_))));
}

#[test]
fn attempt_results() {
    let ok = UpstreamReply::Answered {
        status: 200,
        body: String::new(),
        parsed: Ok(response(vec![candidate(None, Some(vec![image("DDDD")]))])),
    };
    assert_eq!(attempt_result(&ok), Ok("DDDD".to_string()));
    let unparsable = UpstreamReply::Answered { status: 200, body: "{".to_string(), parsed: Err("eof".to_string()) };
    assert!(matches!(attempt_result(&unparsable), Err(AppError::InternalError(_))));
    let refused = UpstreamReply::Answered { status: 429, body: String::new(), parsed: Err("x".to_string()) };
    assert!(matches!(attempt_result(&refused), Err(AppError::GeminiQuotaExceeded(_))));
    let gone = UpstreamReply::Unreachable { detail: "dns".to_string() };
    assert!(matches!(attempt_result(&gone), Err(AppError::InternalError(_))));
    assert!(matches!(attempt_result(&UpstreamReply::TimedOut), Err(AppError::GeminiTimeout(_))));
}

#[test]
fn only_content_filter_blocks_are_retried() {
    assert_eq!(MAX_ATTEMPTS, 3);
    let blocked = || Err(AppError::GeminiContentFiltered("x".to_string()));
    assert_eq!(after_attempt(1, blocked()), AttemptStep::Retry);
    assert_eq!(after_attempt(2, blocked()), AttemptStep::Retry);
    assert_eq!(after_attempt(3, blocked()), AttemptStep::Done(blocked()));
    assert_eq!(after_attempt(1, Ok("i".to_string())), AttemptStep::Done(Ok("i".to_string())));
    let other = Err(AppError::GeminiApiError("y".to_string()));
    assert_eq!(after_attempt(1, other.clone()), AttemptStep::Done(other));
}

#[test]
fn retry_driver_with_stub() {
    // A stub that blocks twice, then returns an image.
    let mut stub = vec![
        Err(AppError::GeminiContentFiltered("a".to_string())),
        Err(AppError::GeminiContentFiltered("b".to_string())),
        Ok("IMG".to_string()),
    ]
    .into_iter();
    let mut attempt = 1;
    let result = loop {
        match after_attempt(attempt, stub.next().unwrap()) {
            AttemptStep::Retry => attempt += 1,
            AttemptStep::Done(r) => break r,
        }
    };
    assert_eq!(result, Ok("IMG".to_string()));
    assert_eq!(attempt, 3);
}

#[test]
fn provider_key_resolution() {
    let p = GeminiProvider::new(Some("s".to_string()), Some("v".to_string())).unwrap();
    assert_eq!(p.api_key(), "s");
    let p = GeminiProvider::new(None, Some("v".to_string())).unwrap();
    assert_eq!(p.api_key(), "v");
    assert!(matches!(GeminiProvider::new(None, None), Err(AppError::InternalError(_))));
}

#[test]
fn content_filter_signal_in_text_is_retried() {
    let prohibited = || Err(AppError::GeminiInvalidRequest("Invalid request to Gemini API: PROHIBITED_CONTENT".to_string()));
    assert_eq!(after_attempt(1, prohibited()), AttemptStep::Retry);
    assert_eq!(after_attempt(3, prohibited()), AttemptStep::Done(prohibited()));
    let flagged = Err(AppError::InternalError("Content flagged as inappropriate. Try again.".to_string()));
    assert_eq!(after_attempt(2, flagged), AttemptStep::Retry);
    let flagged_lower = Err(AppError::GeminiApiError("upstream: content flagged as inappropriate".to_string()));
    assert_eq!(after_attempt(1, flagged_lower), AttemptStep::Retry);
    let unrelated = Err(AppError::GeminiApiError("Gemini API server error: prohibited".to_string()));
    assert_eq!(after_attempt(1, unrelated.clone()), AttemptStep::Done(unrelated));
}
