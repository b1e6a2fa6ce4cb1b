use emobanana::error::AppError;

fn check(e: AppError, status: u16, error_type: &str, code: &str, suggestion: &str) {
    let reply = e.to_response();
    assert_eq!(reply.status, status);
    assert_eq!(e.status(), status);
    assert_eq!(e.code(), code);
    assert_eq!(reply.body.error.error_type, error_type);
    assert_eq!(reply.body.error.code.as_deref(), Some(code));
    assert_eq!(reply.body.error.suggestion.as_deref(), Some(suggestion));
    assert_eq!(reply.body.error.param, None);
}

#[test]
fn every_kind_has_its_status_type_code_and_suggestion() {
    check(AppError::BadRequest("m".to_string()), 400, "invalid_request_error", "bad_request", "Please check your input and try again.");
    check(AppError::InternalError("m".to_string()), 500, "internal_error", "internal_error", "If the problem persists, please contact support.");
    check(AppError::RateLimitExceeded("m".to_string()), 429, "rate_limit_error", "rate_limit_exceeded", "Please wait until tomorrow to make more requests.");
    check(AppError::InvalidImageFormat("m".to_string()), 400, "invalid_image_format", "invalid_image_format", "Please upload a valid image file (JPEG, PNG, or WebP).");
    check(AppError::ImageTooLarge("m".to_string()), 413, "image_too_large", "image_too_large", "Please upload a smaller image (max 10MB).");
    check(AppError::UnsupportedImageType("m".to_string()), 415, "unsupported_image_type", "unsupported_image_type", "Please upload a JPEG, PNG, or WebP image.");
    check(AppError::GeminiApiError("m".to_string()), 502, "ai_service_error", "gemini_api_error", "The AI service is experiencing issues. Please try again in a few minutes.");
    check(AppError::GeminiQuotaExceeded("m".to_string()), 429, "ai_quota_exceeded", "gemini_quota_exceeded", "The AI service is at capacity. Please try again in a few hours.");
    check(AppError::GeminiContentFiltered("m".to_string()), 451, "content_filtered", "gemini_content_filtered", "Try using a different image or emoji that follows our content guidelines.");
    check(AppError::GeminiInvalidRequest("m".to_string()), 400, "ai_invalid_request", "gemini_invalid_request", "Please check your image and emoji selection.");
    check(AppError::GeminiTimeout("m".to_string()), 504, "ai_timeout", "gemini_timeout", "Please try again with a simpler image.");
    check(AppError::ProcessingFailed("m".to_string()), 422, "processing_failed", "processing_failed", "Please try with a different image.");
    check(AppError::NoFacesDetected("m".to_string()), 422, "no_faces_detected", "no_faces_detected", "Please upload an image with a clear face.");
    check(AppError::TransformationFailed("m".to_string()), 422, "transformation_failed", "transformation_failed", "Please try with a different emoji or image.");
}

#[test]
fn internal_messages_are_withheld() {
    let reply = AppError::InternalError("upstream said: secret detail".to_string()).to_response();
    assert_eq!(reply.body.error.message, "An internal error occurred. Please try again later.");
}

#[test]
fn other_messages_pass_through() {
    let reply = AppError::RateLimitExceeded("Try again tomorrow.".to_string()).to_response();
    assert_eq!(reply.body.error.message, "Try again tomorrow.");
    let reply = AppError::GeminiContentFiltered("Content violated safety guidelines".to_string()).to_response();
    assert_eq!(reply.body.error.message, "Content violated safety guidelines");
    assert_eq!(AppError::BadRequest("x".to_string()).message(), "x");
}
