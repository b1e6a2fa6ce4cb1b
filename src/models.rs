//! The wire-level values exchanged with clients.
use vstd::prelude::*;

verus! {

/// A client's request: the image (a data URL) and the target emoji.
#[derive(Debug, Clone, PartialEq, Eq)]
pub struct TransformRequest {
    pub image: String,
    pub emoji: String,
}

/// What a successful transformation returns.
#[derive(Debug, Clone, PartialEq, Eq)]
pub struct TransformResponse {
    pub transformed_image: String,
    pub metadata: TransformMetadata,
}

/// Facts about how a transformation was produced.
#[derive(Debug, Clone, PartialEq, Eq)]
pub struct TransformMetadata {
    pub processing_time_ms: u64,
    pub model_version: String,
    pub request_id: String,
}

/// The one shape in which every failure reaches a client.
#[derive(Debug, Clone, PartialEq, Eq)]
pub struct ErrorResponse {
    pub error: ErrorDetail,
}

/// A failure as a client sees it.
#[derive(Debug, Clone, PartialEq, Eq)]
pub struct ErrorDetail {
    pub message: String,
    pub error_type: String,
    pub param: Option<String>,
    pub code: Option<String>,
    pub suggestion: Option<String>,
}

} // verus!
