//! The lifecycle of one transformation request, as a state machine that the
//! caller drives. Each step returns the [`FlowAction`] to perform; the caller
//! performs it (a store read or write, an upstream call, the reply to the
//! client) and reports back through the matching method. The order is fixed:
//! body and fields, image validation, provider set-up, quota check, upstream
//! attempts, quota commit, reply. A failure at any step ends the request with
//! that failure and nothing more is done.
use crate::error::AppError;
use crate::gemini::{
    after_attempt, build_request, is_upstream_request, retry_wanted, AttemptStep, GeminiProvider, GeminiRequest,
    MAX_ATTEMPTS, MODEL_VERSION,
};
use crate::models::{TransformMetadata, TransformRequest, TransformResponse};
use crate::quota::{
    next_count_spec, quota_allows, quota_key_spec, rate_limit_message, stored_count_spec, unknown_identity,
    QuotaTracker,
};
use crate::validate::{image_accepted, image_payload, is_validation_of, payload_of, validate_image_data};
use vstd::prelude::*;

verus! {

/// Where a request stands.
#[derive(Debug, Clone, Copy, PartialEq, Eq, Structural)]
pub enum FlowPhase {
    /// Validated; waiting for the quota store's value.
    Validated,
    /// Quota checked; waiting for the result of an upstream attempt.
    QuotaChecked,
    /// Transformed; waiting for the quota write to be made.
    Transformed,
    /// Answered with the transformed image.
    Responded,
    /// Answered with a failure.
    Errored,
}

/// What the caller is to do next.
#[derive(Debug, PartialEq, Eq)]
pub enum FlowAction {
    /// Read this key from the quota store, then call [`TransformFlow::quota_read`].
    ReadQuota(String),
    /// Send this request upstream, then call [`TransformFlow::upstream_result`].
    CallUpstream(GeminiRequest),
    /// Write this count under this key, ignoring any failure, then call
    /// [`TransformFlow::quota_written`].
    WriteQuota(String, u32),
    /// Answer the client with this transformed image.
    Succeed(String),
    /// Answer the client with this failure.
    Fail(AppError),
}

/// One request in progress.
#[derive(Debug)]
pub struct TransformFlow {
    phase: FlowPhase,
    provider: Option<Result<GeminiProvider, AppError>>,
    tracker: QuotaTracker,
    payload: String,
    emoji: String,
    attempt: u32,
    image: String,
}

/// Whether `action` asks for the upstream request on `payload` and `emoji`.
pub open spec fn calls_upstream(action: FlowAction, payload: Seq<char>, emoji: Seq<char>) -> bool {
    action matches FlowAction::CallUpstream(req) && is_upstream_request(req, payload, emoji)
}

impl TransformFlow {
    /// Where the request stands.
    pub closed spec fn phase_view(&self) -> FlowPhase {
        self.phase
    }

    /// The number of the current upstream attempt.
    pub closed spec fn attempt_view(&self) -> u32 {
        self.attempt
    }

    /// The image payload sent upstream.
    pub closed spec fn payload_view(&self) -> Seq<char> {
        self.payload@
    }

    /// The target emoji.
    pub closed spec fn emoji_view(&self) -> Seq<char> {
        self.emoji@
    }

    /// The client's quota counter.
    pub closed spec fn tracker_view(&self) -> QuotaTracker {
        self.tracker
    }

    /// The transformed image, once there is one.
    pub closed spec fn image_view(&self) -> Seq<char> {
        self.image@
    }

    /// The provider, or why it could not be set up, until the request ends
    /// with a failure.
    pub closed spec fn provider_view(&self) -> Option<Result<GeminiProvider, AppError>> {
        self.provider
    }

    /// The provider's API key, while the request is in progress.
    pub open spec fn api_key_view(&self) -> Option<Seq<char>> {
        match self.provider_view() {
            Some(Ok(p)) => Some(p.api_key_view()),
            _ => None,
        }
    }

    /// The attempt number stays within the retry bound, and a request
    /// waiting for its quota read still holds the provider or its failure.
    pub closed spec fn wf(&self) -> bool {
        &&& 1 <= self.attempt <= MAX_ATTEMPTS
        &&& self.phase == FlowPhase::Validated ==> self.provider is Some
    }

    /// Whether `flow` and `action` are how a request with a well-formed body
    /// starts: see [`TransformFlow::start`].
    pub open spec fn is_start_of(
        image: Seq<char>,
        emoji: Seq<char>,
        provider: Result<GeminiProvider, AppError>,
        identity: Seq<char>,
        day: Seq<char>,
        flow: TransformFlow,
        action: FlowAction,
    ) -> bool {
        if image.len() == 0 || emoji.len() == 0 {
            (action matches FlowAction::Fail(AppError::BadRequest(_))) && flow.phase_view() == FlowPhase::Errored
        } else if !image_accepted(image) {
            (action matches FlowAction::Fail(e) && is_validation_of(image, Err(e)))
                && flow.phase_view() == FlowPhase::Errored
        } else if identity != unknown_identity() {
            &&& flow.payload_view() == payload_of(image)
            &&& flow.emoji_view() == emoji
            &&& flow.provider_view() == Some(provider)
            &&& flow.tracker_view().identity_view() == identity
            &&& flow.tracker_view().key_view() == quota_key_spec(identity, day)
            &&& flow.attempt_view() == 1
            &&& action matches FlowAction::ReadQuota(k) && k@ == quota_key_spec(identity, day)
            &&& flow.phase_view() == FlowPhase::Validated
        } else if provider is Err {
            action == FlowAction::Fail(provider->Err_0) && flow.phase_view() == FlowPhase::Errored
        } else {
            &&& flow.payload_view() == payload_of(image)
            &&& flow.emoji_view() == emoji
            &&& flow.api_key_view() == Some(provider->Ok_0.api_key_view())
            &&& flow.tracker_view().identity_view() == identity
            &&& flow.tracker_view().key_view() == quota_key_spec(identity, day)
            &&& flow.attempt_view() == 1
            &&& calls_upstream(action, payload_of(image), emoji)
            &&& flow.phase_view() == FlowPhase::QuotaChecked
        }
    }

    /// Starts a request from its decoded body (or why the body could not be
    /// decoded), the provider (or why it could not be set up), the client's
    /// identity and the current day. A malformed body or an empty field is a
    /// bad request; the image is then validated. A known identity's counter
    /// is read next; for an unknown identity the quota is not checked. Once
    /// the quota lets the request through, a provider that could not be set
    /// up ends it, else the first upstream attempt follows.
    pub fn start(
        body: Result<TransformRequest, String>,
        provider: Result<GeminiProvider, AppError>,
        identity: String,
        day: &str,
    ) -> (r: (TransformFlow, FlowAction))
        ensures
            r.0.wf(),
            match body {
                Err(_) => (r.1 matches FlowAction::Fail(AppError::BadRequest(_)))
                    && r.0.phase_view() == FlowPhase::Errored,
                Ok(req) => Self::is_start_of(req.image@, req.emoji@, provider, identity@, day@, r.0, r.1),
            },
    {
        let tracker = QuotaTracker::new(identity, day);
        let req = match body {
            Ok(req) => req,
            Err(detail) => {
                let mut m = "Invalid JSON in request body: ".to_string();
                m.append(detail.as_str());
                return (
                    TransformFlow::errored(tracker),
                    FlowAction::Fail(AppError::BadRequest(m)),
                );
            },
        };
        if req.image.as_str().is_empty() {
            return (
                TransformFlow::errored(tracker),
                FlowAction::Fail(AppError::BadRequest("Please upload an image to transform".to_string())),
            );
        }
        if req.emoji.as_str().is_empty() {
            return (
                TransformFlow::errored(tracker),
                FlowAction::Fail(AppError::BadRequest("Please select an emoji for the transformation".to_string())),
            );
        }
        match validate_image_data(req.image.as_str()) {
            Ok(_) => {},
            Err(e) => {
                return (TransformFlow::errored(tracker), FlowAction::Fail(e));
            },
        }
        let payload = image_payload(req.image.as_str());
        let mut flow = TransformFlow {
            phase: FlowPhase::Validated,
            provider: Some(provider),
            tracker,
            payload,
            emoji: req.emoji,
            attempt: 1,
            image: String::new(),
        };
        let action = match flow.tracker.key() {
            Some(k) => FlowAction::ReadQuota(k.clone()),
            None => {
                let _ = flow.tracker.check_and_reserve(None);
                flow.after_quota()
            },
        };
        (flow, action)
    }

    /// What follows a quota check that let the request through: the first
    /// upstream attempt, or the failure to set up the provider.
    fn after_quota(&mut self) -> (a: FlowAction)
        requires
            old(self).wf(),
            old(self).provider_view() is Some,
        ensures
            final(self).wf(),
            final(self).payload_view() == old(self).payload_view(),
            final(self).emoji_view() == old(self).emoji_view(),
            final(self).attempt_view() == old(self).attempt_view(),
            final(self).tracker_view() == old(self).tracker_view(),
            old(self).provider_view()->0 is Ok ==> calls_upstream(a, old(self).payload_view(), old(self).emoji_view())
                && final(self).phase_view() == FlowPhase::QuotaChecked
                && final(self).provider_view() == old(self).provider_view(),
            old(self).provider_view()->0 is Err ==> a == FlowAction::Fail(old(self).provider_view()->0->Err_0)
                && final(self).phase_view() == FlowPhase::Errored,
    {
        match self.provider.take() {
            Some(Ok(p)) => {
                self.provider = Some(Ok(p));
                self.phase = FlowPhase::QuotaChecked;
                FlowAction::CallUpstream(build_request(self.payload.as_str(), self.emoji.as_str()))
            },
            Some(Err(e)) => {
                self.phase = FlowPhase::Errored;
                FlowAction::Fail(e)
            },
            None => {
                self.phase = FlowPhase::Errored;
                FlowAction::Fail(AppError::InternalError("provider missing".to_string()))
            },
        }
    }

    /// A request that ended with a failure.
    fn errored(tracker: QuotaTracker) -> (r: TransformFlow)
        ensures
            r.wf(),
            r.phase_view() == FlowPhase::Errored,
    {
        TransformFlow {
            phase: FlowPhase::Errored,
            provider: None,
            tracker,
            payload: String::new(),
            emoji: String::new(),
            attempt: 1,
            image: String::new(),
        }
    }

    /// The provider to send upstream requests with, while the request is in
    /// progress.
    pub fn provider(&self) -> (r: Option<&GeminiProvider>)
        ensures
            match r {
                Some(p) => self.api_key_view() == Some(p.api_key_view()),
                None => self.api_key_view() is None,
            },
    {
        match &self.provider {
            Some(Ok(p)) => Some(p),
            _ => None,
        }
    }

    /// Where the request stands.
    pub fn phase(&self) -> (r: FlowPhase)
        ensures
            r == self.phase_view(),
    {
        self.phase
    }

    /// The number of the current upstream attempt.
    pub fn attempt(&self) -> (r: u32)
        ensures
            r == self.attempt_view(),
    {
        self.attempt
    }

    /// Takes the quota store's value for the key that was asked for (`None`
    /// if it was missing or could not be read). Beyond the quota, the request
    /// fails; within it, a provider that could not be set up ends it, else
    /// the first upstream attempt follows.
    pub fn quota_read(&mut self, stored: Option<String>) -> (a: FlowAction)
        requires
            old(self).wf(),
            old(self).phase_view() == FlowPhase::Validated,
        ensures
            final(self).wf(),
            final(self).payload_view() == old(self).payload_view(),
            final(self).emoji_view() == old(self).emoji_view(),
            final(self).attempt_view() == old(self).attempt_view(),
            final(self).tracker_view().identity_view() == old(self).tracker_view().identity_view(),
            final(self).tracker_view().key_view() == old(self).tracker_view().key_view(),
            final(self).tracker_view().count_view() == stored_count_spec(
                match stored { Some(s) => Some(s@), None => None },
            ),
            !quota_allows(old(self).tracker_view().identity_view(), final(self).tracker_view().count_view())
                ==> (a matches FlowAction::Fail(AppError::RateLimitExceeded(m)) && m@ == rate_limit_message())
                && final(self).phase_view() == FlowPhase::Errored,
            quota_allows(old(self).tracker_view().identity_view(), final(self).tracker_view().count_view())
                && old(self).provider_view()->0 is Ok ==> calls_upstream(
                a,
                old(self).payload_view(),
                old(self).emoji_view(),
            ) && final(self).phase_view() == FlowPhase::QuotaChecked
                && final(self).api_key_view() == old(self).api_key_view(),
            quota_allows(old(self).tracker_view().identity_view(), final(self).tracker_view().count_view())
                && old(self).provider_view()->0 is Err ==> a == FlowAction::Fail(
                old(self).provider_view()->0->Err_0,
            ) && final(self).phase_view() == FlowPhase::Errored,
    {
        match self.tracker.check_and_reserve(stored) {
            Ok(()) => self.after_quota(),
            Err(e) => {
                self.phase = FlowPhase::Errored;
                FlowAction::Fail(e)
            },
        }
    }

    /// Takes the result of the current upstream attempt. A content-filter
    /// block before the last attempt is followed by another attempt; any other
    /// failure, or a block on the last attempt, ends the request with it. An
    /// image is kept, and the quota write follows, or for an unknown identity
    /// the reply at once.
    pub fn upstream_result(&mut self, result: Result<String, AppError>) -> (a: FlowAction)
        requires
            old(self).wf(),
            old(self).phase_view() == FlowPhase::QuotaChecked,
        ensures
            final(self).wf(),
            final(self).payload_view() == old(self).payload_view(),
            final(self).emoji_view() == old(self).emoji_view(),
            final(self).api_key_view() == old(self).api_key_view(),
            final(self).tracker_view() == old(self).tracker_view(),
            retry_wanted(old(self).attempt_view(), result) ==> calls_upstream(
                a,
                old(self).payload_view(),
                old(self).emoji_view(),
            ) && final(self).attempt_view() == old(self).attempt_view() + 1
                && final(self).phase_view() == FlowPhase::QuotaChecked,
            !retry_wanted(old(self).attempt_view(), result) && result is Err ==> a == FlowAction::Fail(
                result->Err_0,
            ) && final(self).phase_view() == FlowPhase::Errored,
            !retry_wanted(old(self).attempt_view(), result) && result is Ok
                && old(self).tracker_view().identity_view() != unknown_identity() ==> (
            a matches FlowAction::WriteQuota(k, n) && k@ == old(self).tracker_view().key_view()
                && n == next_count_spec(old(self).tracker_view().count_view()))
                && final(self).phase_view() == FlowPhase::Transformed
                && final(self).image_view() == result->Ok_0@,
            !retry_wanted(old(self).attempt_view(), result) && result is Ok
                && old(self).tracker_view().identity_view() == unknown_identity() ==> (
            a matches FlowAction::Succeed(img) && img@ == result->Ok_0@)
                && final(self).phase_view() == FlowPhase::Responded,
    {
        match after_attempt(self.attempt, result) {
            AttemptStep::Retry => {
                self.attempt = self.attempt + 1;
                FlowAction::CallUpstream(build_request(self.payload.as_str(), self.emoji.as_str()))
            },
            AttemptStep::Done(Err(e)) => {
                self.phase = FlowPhase::Errored;
                FlowAction::Fail(e)
            },
            AttemptStep::Done(Ok(image)) => {
                match self.tracker.commit() {
                    Some(write) => {
                        self.image = image;
                        self.phase = FlowPhase::Transformed;
                        FlowAction::WriteQuota(write.0, write.1)
                    },
                    None => {
                        self.phase = FlowPhase::Responded;
                        FlowAction::Succeed(image)
                    },
                }
            },
        }
    }

    /// Notes that the quota write was made, or failed: either way the
    /// transformed image is the answer.
    pub fn quota_written(&mut self) -> (a: FlowAction)
        requires
            old(self).phase_view() == FlowPhase::Transformed,
        ensures
            final(self).wf() == old(self).wf(),
            (a matches FlowAction::Succeed(img) && img@ == old(self).image_view()),
            final(self).phase_view() == FlowPhase::Responded,
    {
        self.phase = FlowPhase::Responded;
        FlowAction::Succeed(self.image.clone())
    }
}

/// The answer to a successful request: the image, the time between
/// `started_ms` and `finished_ms` (zero if the clock went back), the model
/// version and the request's identifier.
pub fn success_response(
    transformed_image: String,
    started_ms: u64,
    finished_ms: u64,
    request_id: String,
) -> (r: TransformResponse)
    ensures
        r.transformed_image@ == transformed_image@,
        r.metadata.processing_time_ms == if finished_ms >= started_ms { (finished_ms - started_ms) as u64 } else { 0 },
        r.metadata.model_version@ == MODEL_VERSION@,
        r.metadata.request_id@ == request_id@,
{
    let processing_time_ms = if finished_ms >= started_ms { finished_ms - started_ms } else { 0 };
    TransformResponse {
        transformed_image,
        metadata: TransformMetadata {
            processing_time_ms,
            model_version: MODEL_VERSION.to_string(),
            request_id,
        },
    }
}

} // verus!
