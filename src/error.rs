//! The closed set of failures and how each one is shown to a client.
use crate::models::{ErrorDetail, ErrorResponse};
use vstd::prelude::*;

verus! {

/// Every failure of the pipeline, each carrying the message it was raised with.
#[derive(Debug, Clone, PartialEq, Eq)]
pub enum AppError {
    /// The request body is malformed or a field is missing.
    BadRequest(String),
    /// A failure inside the service or its collaborators.
    InternalError(String),
    /// The client's daily quota is used up.
    RateLimitExceeded(String),
    /// The image is not a well-formed base64 data URL.
    InvalidImageFormat(String),
    /// The image is over the size ceiling.
    ImageTooLarge(String),
    /// The image's declared type is not one that is accepted.
    UnsupportedImageType(String),
    /// The upstream provider failed or refused the credentials.
    GeminiApiError(String),
    /// The upstream provider's own quota is used up.
    GeminiQuotaExceeded(String),
    /// The upstream provider's content filter blocked the request.
    GeminiContentFiltered(String),
    /// The upstream provider judged the request invalid.
    GeminiInvalidRequest(String),
    /// The upstream provider did not answer in time.
    GeminiTimeout(String),
    /// The image could not be processed.
    ProcessingFailed(String),
    /// No face was found in the image.
    NoFacesDetected(String),
    /// The upstream provider produced no usable image.
    TransformationFailed(String),
}

/// A failure rendered for the client: the HTTP status and the body.
#[derive(Debug, Clone, PartialEq, Eq)]
pub struct ErrorReply {
    pub status: u16,
    pub body: ErrorResponse,
}

/// The text shown to clients in place of an internal error's own message.
pub open spec fn internal_error_text() -> Seq<char> {
    "An internal error occurred. Please try again later."@
}

impl AppError {
    /// The message the failure was raised with.
    pub open spec fn message_spec(&self) -> Seq<char> {
        match self {
            AppError::BadRequest(m) => m@,
            AppError::InternalError(m) => m@,
            AppError::RateLimitExceeded(m) => m@,
            AppError::InvalidImageFormat(m) => m@,
            AppError::ImageTooLarge(m) => m@,
            AppError::UnsupportedImageType(m) => m@,
            AppError::GeminiApiError(m) => m@,
            AppError::GeminiQuotaExceeded(m) => m@,
            AppError::GeminiContentFiltered(m) => m@,
            AppError::GeminiInvalidRequest(m) => m@,
            AppError::GeminiTimeout(m) => m@,
            AppError::ProcessingFailed(m) => m@,
            AppError::NoFacesDetected(m) => m@,
            AppError::TransformationFailed(m) => m@,
        }
    }

    /// The HTTP status of the failure's kind.
    pub open spec fn status_spec(&self) -> u16 {
        match self {
            AppError::BadRequest(_) => 400,
            AppError::InternalError(_) => 500,
            AppError::RateLimitExceeded(_) => 429,
            AppError::InvalidImageFormat(_) => 400,
            AppError::ImageTooLarge(_) => 413,
            AppError::UnsupportedImageType(_) => 415,
            AppError::GeminiApiError(_) => 502,
            AppError::GeminiQuotaExceeded(_) => 429,
            AppError::GeminiContentFiltered(_) => 451,
            AppError::GeminiInvalidRequest(_) => 400,
            AppError::GeminiTimeout(_) => 504,
            AppError::ProcessingFailed(_) => 422,
            AppError::NoFacesDetected(_) => 422,
            AppError::TransformationFailed(_) => 422,
        }
    }

    /// The machine-readable type string of the failure's kind.
    pub open spec fn type_spec(&self) -> Seq<char> {
        match self {
            AppError::BadRequest(_) => "invalid_request_error"@,
            AppError::InternalError(_) => "internal_error"@,
            AppError::RateLimitExceeded(_) => "rate_limit_error"@,
            AppError::InvalidImageFormat(_) => "invalid_image_format"@,
            AppError::ImageTooLarge(_) => "image_too_large"@,
            AppError::UnsupportedImageType(_) => "unsupported_image_type"@,
            AppError::GeminiApiError(_) => "ai_service_error"@,
            AppError::GeminiQuotaExceeded(_) => "ai_quota_exceeded"@,
            AppError::GeminiContentFiltered(_) => "content_filtered"@,
            AppError::GeminiInvalidRequest(_) => "ai_invalid_request"@,
            AppError::GeminiTimeout(_) => "ai_timeout"@,
            AppError::ProcessingFailed(_) => "processing_failed"@,
            AppError::NoFacesDetected(_) => "no_faces_detected"@,
            AppError::TransformationFailed(_) => "transformation_failed"@,
        }
    }

    /// The machine-readable code of the failure's kind.
    pub open spec fn code_spec(&self) -> Seq<char> {
        match self {
            AppError::BadRequest(_) => "bad_request"@,
            AppError::InternalError(_) => "internal_error"@,
            AppError::RateLimitExceeded(_) => "rate_limit_exceeded"@,
            AppError::InvalidImageFormat(_) => "invalid_image_format"@,
            AppError::ImageTooLarge(_) => "image_too_large"@,
            AppError::UnsupportedImageType(_) => "unsupported_image_type"@,
            AppError::GeminiApiError(_) => "gemini_api_error"@,
            AppError::GeminiQuotaExceeded(_) => "gemini_quota_exceeded"@,
            AppError::GeminiContentFiltered(_) => "gemini_content_filtered"@,
            AppError::GeminiInvalidRequest(_) => "gemini_invalid_request"@,
            AppError::GeminiTimeout(_) => "gemini_timeout"@,
            AppError::ProcessingFailed(_) => "processing_failed"@,
            AppError::NoFacesDetected(_) => "no_faces_detected"@,
            AppError::TransformationFailed(_) => "transformation_failed"@,
        }
    }

    /// The advice given to the client for the failure's kind.
    pub open spec fn suggestion_spec(&self) -> Seq<char> {
        match self {
            AppError::BadRequest(_) => "Please check your input and try again."@,
            AppError::InternalError(_) => "If the problem persists, please contact support."@,
            AppError::RateLimitExceeded(_) => "Please wait until tomorrow to make more requests."@,
            AppError::InvalidImageFormat(_) => "Please upload a valid image file (JPEG, PNG, or WebP)."@,
            AppError::ImageTooLarge(_) => "Please upload a smaller image (max 10MB)."@,
            AppError::UnsupportedImageType(_) => "Please upload a JPEG, PNG, or WebP image."@,
            AppError::GeminiApiError(_) => "The AI service is experiencing issues. Please try again in a few minutes."@,
            AppError::GeminiQuotaExceeded(_) => "The AI service is at capacity. Please try again in a few hours."@,
            AppError::GeminiContentFiltered(_) => "Try using a different image or emoji that follows our content guidelines."@,
            AppError::GeminiInvalidRequest(_) => "Please check your image and emoji selection."@,
            AppError::GeminiTimeout(_) => "Please try again with a simpler image."@,
            AppError::ProcessingFailed(_) => "Please try with a different image."@,
            AppError::NoFacesDetected(_) => "Please upload an image with a clear face."@,
            AppError::TransformationFailed(_) => "Please try with a different emoji or image."@,
        }
    }

    /// The message a client sees: an internal error's own text is withheld.
    pub open spec fn client_message_spec(&self) -> Seq<char> {
        match self {
            AppError::InternalError(_) => internal_error_text(),
            _ => self.message_spec(),
        }
    }

    /// The message the failure was raised with.
    pub fn message(&self) -> (r: &String)
        ensures
            r@ == self.message_spec(),
    {
        match self {
            AppError::BadRequest(m) => m,
            AppError::InternalError(m) => m,
            AppError::RateLimitExceeded(m) => m,
            AppError::InvalidImageFormat(m) => m,
            AppError::ImageTooLarge(m) => m,
            AppError::UnsupportedImageType(m) => m,
            AppError::GeminiApiError(m) => m,
            AppError::GeminiQuotaExceeded(m) => m,
            AppError::GeminiContentFiltered(m) => m,
            AppError::GeminiInvalidRequest(m) => m,
            AppError::GeminiTimeout(m) => m,
            AppError::ProcessingFailed(m) => m,
            AppError::NoFacesDetected(m) => m,
            AppError::TransformationFailed(m) => m,
        }
    }

    /// The HTTP status of the failure's kind.
    pub fn status(&self) -> (r: u16)
        ensures
            r == self.status_spec(),
    {
        match self {
            AppError::BadRequest(_) => 400,
            AppError::InternalError(_) => 500,
            AppError::RateLimitExceeded(_) => 429,
            AppError::InvalidImageFormat(_) => 400,
            AppError::ImageTooLarge(_) => 413,
            AppError::UnsupportedImageType(_) => 415,
            AppError::GeminiApiError(_) => 502,
            AppError::GeminiQuotaExceeded(_) => 429,
            AppError::GeminiContentFiltered(_) => 451,
            AppError::GeminiInvalidRequest(_) => 400,
            AppError::GeminiTimeout(_) => 504,
            AppError::ProcessingFailed(_) => 422,
            AppError::NoFacesDetected(_) => 422,
            AppError::TransformationFailed(_) => 422,
        }
    }

    fn type_text(&self) -> (r: &'static str)
        ensures
            r@ == self.type_spec(),
    {
        match self {
            AppError::BadRequest(_) => "invalid_request_error",
            AppError::InternalError(_) => "internal_error",
            AppError::RateLimitExceeded(_) => "rate_limit_error",
            AppError::InvalidImageFormat(_) => "invalid_image_format",
            AppError::ImageTooLarge(_) => "image_too_large",
            AppError::UnsupportedImageType(_) => "unsupported_image_type",
            AppError::GeminiApiError(_) => "ai_service_error",
            AppError::GeminiQuotaExceeded(_) => "ai_quota_exceeded",
            AppError::GeminiContentFiltered(_) => "content_filtered",
            AppError::GeminiInvalidRequest(_) => "ai_invalid_request",
            AppError::GeminiTimeout(_) => "ai_timeout",
            AppError::ProcessingFailed(_) => "processing_failed",
            AppError::NoFacesDetected(_) => "no_faces_detected",
            AppError::TransformationFailed(_) => "transformation_failed",
        }
    }

    /// The machine-readable code of the failure's kind.
    pub fn code(&self) -> (r: &'static str)
        ensures
            r@ == self.code_spec(),
    {
        match self {
            AppError::BadRequest(_) => "bad_request",
            AppError::InternalError(_) => "internal_error",
            AppError::RateLimitExceeded(_) => "rate_limit_exceeded",
            AppError::InvalidImageFormat(_) => "invalid_image_format",
            AppError::ImageTooLarge(_) => "image_too_large",
            AppError::UnsupportedImageType(_) => "unsupported_image_type",
            AppError::GeminiApiError(_) => "gemini_api_error",
            AppError::GeminiQuotaExceeded(_) => "gemini_quota_exceeded",
            AppError::GeminiContentFiltered(_) => "gemini_content_filtered",
            AppError::GeminiInvalidRequest(_) => "gemini_invalid_request",
            AppError::GeminiTimeout(_) => "gemini_timeout",
            AppError::ProcessingFailed(_) => "processing_failed",
            AppError::NoFacesDetected(_) => "no_faces_detected",
            AppError::TransformationFailed(_) => "transformation_failed",
        }
    }

    fn suggestion_text(&self) -> (r: &'static str)
        ensures
            r@ == self.suggestion_spec(),
    {
        match self {
            AppError::BadRequest(_) => "Please check your input and try again.",
            AppError::InternalError(_) => "If the problem persists, please contact support.",
            AppError::RateLimitExceeded(_) => "Please wait until tomorrow to make more requests.",
            AppError::InvalidImageFormat(_) => "Please upload a valid image file (JPEG, PNG, or WebP).",
            AppError::ImageTooLarge(_) => "Please upload a smaller image (max 10MB).",
            AppError::UnsupportedImageType(_) => "Please upload a JPEG, PNG, or WebP image.",
            AppError::GeminiApiError(_) => "The AI service is experiencing issues. Please try again in a few minutes.",
            AppError::GeminiQuotaExceeded(_) => "The AI service is at capacity. Please try again in a few hours.",
            AppError::GeminiContentFiltered(_) => "Try using a different image or emoji that follows our content guidelines.",
            AppError::GeminiInvalidRequest(_) => "Please check your image and emoji selection.",
            AppError::GeminiTimeout(_) => "Please try again with a simpler image.",
            AppError::ProcessingFailed(_) => "Please try with a different image.",
            AppError::NoFacesDetected(_) => "Please upload an image with a clear face.",
            AppError::TransformationFailed(_) => "Please try with a different emoji or image.",
        }
    }

    /// Renders the failure for the client: its kind's status, type, code and
    /// suggestion, no parameter, and its message unless it is an internal error.
    pub fn to_response(&self) -> (r: ErrorReply)
        ensures
            r.status == self.status_spec(),
            r.body.error.message@ == self.client_message_spec(),
            r.body.error.error_type@ == self.type_spec(),
            r.body.error.param is None,
            r.body.error.code is Some && r.body.error.code->0@ == self.code_spec(),
            r.body.error.suggestion is Some && r.body.error.suggestion->0@ == self.suggestion_spec(),
    {
        let message = match self {
            AppError::InternalError(_) => "An internal error occurred. Please try again later.".to_string(),
            _ => self.message().clone(),
        };
        ErrorReply {
            status: self.status(),
            body: ErrorResponse {
                error: ErrorDetail {
                    message,
                    error_type: self.type_text().to_string(),
                    param: None,
                    code: Some(self.code().to_string()),
                    suggestion: Some(self.suggestion_text().to_string()),
                },
            },
        }
    }
}

} // verus!
