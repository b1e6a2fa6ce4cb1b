//! The upstream image-editing provider: the request it is sent, how its
//! replies are read, and when a failed attempt is tried again. The network
//! exchange itself is made by the caller, which hands each reply back as an
//! [`UpstreamReply`].
use crate::error::AppError;
use crate::text::{chars_of, contains_chars, occurs_in, same_chars};
use vstd::prelude::*;

verus! {

/// The model that produces the transformed images.
pub const MODEL_VERSION: &'static str = "gemini-2.5-flash-image-preview";

/// The media type under which the image is sent upstream.
pub const UPLOAD_MIME_TYPE: &'static str = "image/jpeg";

/// How many times one transformation is attempted at most.
pub const MAX_ATTEMPTS: u32 = 3;

/// A single-turn request to the provider.
#[derive(Debug, Clone, PartialEq, Eq)]
pub struct GeminiRequest {
    pub contents: Vec<GeminiContent>,
}

/// An ordered list of parts.
#[derive(Debug, Clone, PartialEq, Eq)]
pub struct GeminiContent {
    pub parts: Vec<GeminiPart>,
}

/// One part of a request or of a candidate: text, or an inline image.
#[derive(Debug, Clone, PartialEq, Eq)]
pub enum GeminiPart {
    Text { text: String },
    Image { inline_data: InlineData },
}

/// Base64 image data tagged with its media type.
#[derive(Debug, Clone, PartialEq, Eq)]
pub struct InlineData {
    pub mime_type: String,
    pub data: String,
}

/// The provider's reply: a list of candidate results.
#[derive(Debug, Clone, PartialEq, Eq)]
pub struct GeminiResponse {
    pub candidates: Vec<GeminiCandidate>,
}

/// One candidate result, with the reason generation stopped, if given.
#[derive(Debug, Clone, PartialEq, Eq)]
pub struct GeminiCandidate {
    pub content: Option<GeminiContent>,
    pub finish_reason: Option<String>,
}

/// What one attempt's exchange with the provider came to, as seen by the
/// caller that made it.
#[derive(Debug, PartialEq, Eq)]
pub enum UpstreamReply {
    /// The provider answered with this status and body; `parsed` is the body
    /// read as a [`GeminiResponse`], or why it could not be.
    Answered { status: u16, body: String, parsed: Result<GeminiResponse, String> },
    /// No answer was received.
    Unreachable { detail: String },
    /// No answer was received in time.
    TimedOut,
}

/// A provider client, holding its API key.
#[derive(Debug, Clone, PartialEq, Eq)]
pub struct GeminiProvider {
    api_key: String,
}

/// The instruction sent upstream for `emoji`.
pub open spec fn prompt_spec(emoji: Seq<char>) -> Seq<char> {
    "Please edit this photo by changing the person's facial expression to look more like this emoji: "@ + emoji + ". Make the facial expression match the mood of the emoji while keeping everything else the same."@
}

/// Whether a finish reason marks a content-filter block.
pub open spec fn is_filter_reason(reason: Seq<char>) -> bool {
    reason == seq!['P', 'R', 'O', 'H', 'I', 'B', 'I', 'T', 'E', 'D', '_', 'C', 'O', 'N', 'T', 'E', 'N', 'T'] || reason == seq!['S', 'A', 'F', 'E', 'T', 'Y']
}

/// Whether a finish reason marks a failure to transform.
pub open spec fn is_failure_reason(reason: Seq<char>) -> bool {
    reason == seq!['R', 'E', 'C', 'I', 'T', 'A', 'T', 'I', 'O', 'N'] || reason == seq!['O', 'T', 'H', 'E', 'R']
}

/// The data of the first inline image among `parts`.
pub open spec fn first_image(parts: Seq<GeminiPart>) -> Option<Seq<char>>
    decreases parts.len(),
{
    if parts.len() == 0 {
        None
    } else {
        match parts[0] {
            GeminiPart::Image { inline_data } => Some(inline_data.data@),
            GeminiPart::Text { .. } => first_image(parts.drop_first()),
        }
    }
}

/// The data of the first inline image of a candidate.
pub open spec fn candidate_image(c: GeminiCandidate) -> Option<Seq<char>> {
    match c.content {
        Some(content) => first_image(content.parts@),
        None => None,
    }
}

/// What a single candidate settles on its own.
#[derive(Debug, Clone, Copy, PartialEq, Eq, Structural)]
pub enum CandidateVerdict {
    /// Blocked by the content filter.
    Filtered,
    /// Stopped without a usable result.
    Failed,
    /// Carries an image.
    Image,
    /// Settles nothing; the next candidate is looked at.
    Undecided,
}

/// What a candidate settles: its finish reason is looked at before its parts.
pub open spec fn candidate_verdict(c: GeminiCandidate) -> CandidateVerdict {
    if c.finish_reason is Some && is_filter_reason(c.finish_reason->0@) {
        CandidateVerdict::Filtered
    } else if c.finish_reason is Some && is_failure_reason(c.finish_reason->0@) {
        CandidateVerdict::Failed
    } else if candidate_image(c) is Some {
        CandidateVerdict::Image
    } else {
        CandidateVerdict::Undecided
    }
}

/// Whether candidate `i` is the first of `cs` that settles the reply.
pub open spec fn first_decisive(cs: Seq<GeminiCandidate>, i: int) -> bool {
    &&& 0 <= i < cs.len()
    &&& candidate_verdict(cs[i]) != CandidateVerdict::Undecided
    &&& forall|j: int| 0 <= j < i ==> candidate_verdict(#[trigger] cs[j]) == CandidateVerdict::Undecided
}

/// Whether a failure message carries the content-filter signal.
pub open spec fn carries_filter_signal(message: Seq<char>) -> bool {
    occurs_in(message, seq!['P', 'R', 'O', 'H', 'I', 'B', 'I', 'T', 'E', 'D', '_', 'C', 'O', 'N', 'T', 'E', 'N', 'T'])
        || occurs_in(message, seq!['C', 'o', 'n', 't', 'e', 'n', 't', ' ', 'f', 'l', 'a', 'g', 'g', 'e', 'd', ' ', 'a', 's', ' ', 'i', 'n', 'a', 'p', 'p', 'r', 'o', 'p', 'r', 'i', 'a', 't', 'e'])
        || occurs_in(message, seq!['c', 'o', 'n', 't', 'e', 'n', 't', ' ', 'f', 'l', 'a', 'g', 'g', 'e', 'd', ' ', 'a', 's', ' ', 'i', 'n', 'a', 'p', 'p', 'r', 'o', 'p', 'r', 'i', 'a', 't', 'e'])
}

/// Whether a failure is a content-filter block, the one failure that is
/// retried: its kind says so, or its message carries `PROHIBITED_CONTENT` or
/// "content flagged as inappropriate".
pub open spec fn is_content_filter(e: AppError) -> bool {
    e is GeminiContentFiltered || carries_filter_signal(e.message_spec())
}

/// Whether attempt number `attempt` with result `result` is followed by another.
pub open spec fn retry_wanted(attempt: u32, result: Result<String, AppError>) -> bool {
    result is Err && is_content_filter(result->Err_0) && attempt < MAX_ATTEMPTS
}

/// What follows attempt number `attempt`.
#[derive(Debug, PartialEq, Eq)]
pub enum AttemptStep {
    /// Send the same request again.
    Retry,
    /// Stop with this result.
    Done(Result<String, AppError>),
}

/// Whether `r` is the request for one attempt on `image_data` and `emoji`:
/// one content holding the prompt and then the image data, tagged with
/// [`UPLOAD_MIME_TYPE`].
pub open spec fn is_upstream_request(r: GeminiRequest, image_data: Seq<char>, emoji: Seq<char>) -> bool {
    &&& r.contents@.len() == 1
    &&& r.contents@[0].parts@.len() == 2
    &&& r.contents@[0].parts@[0] matches GeminiPart::Text { text } && text@ == prompt_spec(emoji)
    &&& r.contents@[0].parts@[1] matches GeminiPart::Image { inline_data }
        && inline_data.mime_type@ == UPLOAD_MIME_TYPE@ && inline_data.data@ == image_data
}

/// The instruction sent upstream for `emoji`: change only the facial
/// expression to match it, keep the rest of the image.
pub fn build_prompt(emoji: &str) -> (r: String)
    ensures
        r@ == prompt_spec(emoji@),
{
    let mut p = "Please edit this photo by changing the person's facial expression to look more like this emoji: ".to_string();
    p.append(emoji);
    p.append(". Make the facial expression match the mood of the emoji while keeping everything else the same.");
    p
}

/// The request for one attempt: one content holding the prompt for `emoji`
/// and then the image data, tagged with [`UPLOAD_MIME_TYPE`].
pub fn build_request(image_data: &str, emoji: &str) -> (r: GeminiRequest)
    ensures
        is_upstream_request(r, image_data@, emoji@),
{
    let text = build_prompt(emoji);
    let image = InlineData { mime_type: UPLOAD_MIME_TYPE.to_string(), data: image_data.to_string() };
    let parts = vec![GeminiPart::Text { text }, GeminiPart::Image { inline_data: image }];
    GeminiRequest { contents: vec![GeminiContent { parts }] }
}

/// `prefix` followed by `detail`.
fn joined(prefix: &str, detail: &str) -> (r: String)
    ensures
        r@ == prefix@ + detail@,
{
    let mut m = prefix.to_string();
    m.append(detail);
    m
}

/// Whether `e` is the failure that an answer with `status` outside
/// `200..=299` and body `body` stands for.
pub open spec fn is_http_failure(status: u16, body: Seq<char>, e: AppError) -> bool {
    if status == 400 {
        e matches AppError::GeminiInvalidRequest(m) && m@ == "Invalid request to Gemini API: "@ + body
    } else if status == 401 || status == 403 {
        e matches AppError::GeminiApiError(m) && m@ == "Authentication failed with Gemini API"@
    } else if status == 429 {
        e matches AppError::GeminiQuotaExceeded(m) && m@ == "Gemini API quota exceeded"@
    } else if 500 <= status <= 599 {
        e matches AppError::GeminiApiError(m) && m@ == "Gemini API server error: "@ + body
    } else {
        e matches AppError::GeminiApiError(m) && m@ == "Gemini API error: "@ + body
    }
}

/// Whether `r` is how a reply accepted by the provider reads: see
/// [`interpret_response`].
pub open spec fn is_reading_of(response: GeminiResponse, r: Result<String, AppError>) -> bool {
    let cs = response.candidates@;
    &&& cs.len() == 0 ==> (r matches Err(AppError::InternalError(_)))
    &&& cs.len() > 0 && (forall|j: int| 0 <= j < cs.len()
        ==> candidate_verdict(#[trigger] cs[j]) == CandidateVerdict::Undecided)
        ==> (r matches Err(AppError::TransformationFailed(_)))
    &&& forall|i: int| #[trigger] first_decisive(cs, i) ==> {
        let c = cs[i];
        &&& candidate_verdict(c) == CandidateVerdict::Filtered ==> (r matches Err(AppError::GeminiContentFiltered(_)))
        &&& candidate_verdict(c) == CandidateVerdict::Failed ==> (r matches Err(AppError::TransformationFailed(_)))
        &&& candidate_verdict(c) == CandidateVerdict::Image ==> r is Ok && r->Ok_0@ == candidate_image(c)->0
    }
}

/// The failure that an answer with a status outside `200..=299` stands for:
/// 400 is an invalid request, 401 and 403 an authentication failure, 429 the
/// provider's quota, anything else a provider error. The body is kept in the
/// message except for 401, 403 and 429.
pub fn classify_http_failure(status: u16, body: &str) -> (r: AppError)
    ensures
        is_http_failure(status, body@, r),
{
    if status == 400 {
        AppError::GeminiInvalidRequest(joined("Invalid request to Gemini API: ", body))
    } else if status == 401 || status == 403 {
        AppError::GeminiApiError("Authentication failed with Gemini API".to_string())
    } else if status == 429 {
        AppError::GeminiQuotaExceeded("Gemini API quota exceeded".to_string())
    } else if 500 <= status && status <= 599 {
        AppError::GeminiApiError(joined("Gemini API server error: ", body))
    } else {
        AppError::GeminiApiError(joined("Gemini API error: ", body))
    }
}

/// The data of the first inline image among `parts`.
fn find_image(parts: &Vec<GeminiPart>) -> (r: Option<String>)
    ensures
        r is Some <==> first_image(parts@) is Some,
        r is Some ==> r->0@ == first_image(parts@)->0,
{
    let mut i: usize = 0;
    assert(parts@.subrange(0, parts@.len() as int) =~= parts@);
    while i < parts.len()
        invariant
            i <= parts@.len(),
            first_image(parts@) == first_image(parts@.subrange(i as int, parts@.len() as int)),
        decreases parts@.len() - i,
    {
        let ghost rest = parts@.subrange(i as int, parts@.len() as int);
        assert(rest.drop_first() =~= parts@.subrange(i + 1, parts@.len() as int));
        match &parts[i] {
            GeminiPart::Image { inline_data } => {
                return Some(inline_data.data.clone());
            },
            GeminiPart::Text { .. } => {},
        }
        i = i + 1;
    }
    None
}

/// What a candidate settles on its own, the image it carries, and the
/// message of a failure it settles.
fn judge_candidate(c: &GeminiCandidate) -> (r: (CandidateVerdict, Option<String>, &'static str))
    ensures
        r.0 == candidate_verdict(*c),
        r.0 == CandidateVerdict::Image ==> r.1 is Some && r.1->0@ == candidate_image(*c)->0,
{
    match &c.finish_reason {
        Some(reason) => {
            let v = chars_of(reason.as_str());
            let prohibited: Vec<char> = vec!['P', 'R', 'O', 'H', 'I', 'B', 'I', 'T', 'E', 'D', '_', 'C', 'O', 'N', 'T', 'E', 'N', 'T'];
            let safety: Vec<char> = vec!['S', 'A', 'F', 'E', 'T', 'Y'];
            let recitation: Vec<char> = vec!['R', 'E', 'C', 'I', 'T', 'A', 'T', 'I', 'O', 'N'];
            let other: Vec<char> = vec!['O', 'T', 'H', 'E', 'R'];
            assert(prohibited@ =~= seq!['P', 'R', 'O', 'H', 'I', 'B', 'I', 'T', 'E', 'D', '_', 'C', 'O', 'N', 'T', 'E', 'N', 'T']);
            assert(safety@ =~= seq!['S', 'A', 'F', 'E', 'T', 'Y']);
            assert(recitation@ =~= seq!['R', 'E', 'C', 'I', 'T', 'A', 'T', 'I', 'O', 'N']);
            assert(other@ =~= seq!['O', 'T', 'H', 'E', 'R']);
            if same_chars(&v, &prohibited) {
                return (CandidateVerdict::Filtered, None, "Content was flagged as inappropriate by Gemini");
            }
            if same_chars(&v, &safety) {
                return (CandidateVerdict::Filtered, None, "Content violated safety guidelines");
            }
            if same_chars(&v, &recitation) {
                return (CandidateVerdict::Failed, None, "Gemini could not process this type of content");
            }
            if same_chars(&v, &other) {
                return (CandidateVerdict::Failed, None, "Gemini encountered an unknown error");
            }
        },
        None => {},
    }
    let image = match &c.content {
        Some(content) => find_image(&content.parts),
        None => None,
    };
    match image {
        Some(data) => (CandidateVerdict::Image, Some(data), ""),
        None => (CandidateVerdict::Undecided, None, ""),
    }
}

/// Reads a reply that the provider accepted. No candidate is an internal
/// error. Otherwise the first candidate that settles anything decides: a
/// `PROHIBITED_CONTENT` or `SAFETY` finish reason is a content-filter block,
/// `RECITATION` or `OTHER` a failed transformation, and else its first inline
/// image is the result. When no candidate settles anything, the
/// transformation failed.
pub fn interpret_response(response: &GeminiResponse) -> (r: Result<String, AppError>)
    ensures
        is_reading_of(*response, r),
{
    if response.candidates.len() == 0 {
        return Err(AppError::InternalError("No response from Gemini".to_string()));
    }
    let mut i: usize = 0;
    while i < response.candidates.len()
        invariant
            i <= response.candidates@.len(),
            forall|j: int| 0 <= j < i ==> candidate_verdict(#[trigger] response.candidates@[j]) == CandidateVerdict::Undecided,
        decreases response.candidates@.len() - i,
    {
        let candidate = &response.candidates[i];
        let judged = judge_candidate(candidate);
        let verdict = judged.0;
        let image = judged.1;
        let message = judged.2;
        assert(verdict == candidate_verdict(response.candidates@[i as int]));
        if verdict != CandidateVerdict::Undecided {
            assert(first_decisive(response.candidates@, i as int));
            assert forall|k: int| #[trigger] first_decisive(response.candidates@, k) implies k == i as int by {
                if k < i {
                    assert(candidate_verdict(response.candidates@[k]) == CandidateVerdict::Undecided);
                } else if k > i {
                    assert(candidate_verdict(response.candidates@[i as int]) == CandidateVerdict::Undecided);
                }
            }
        }
        match verdict {
            CandidateVerdict::Filtered => {
                return Err(AppError::GeminiContentFiltered(message.to_string()));
            },
            CandidateVerdict::Failed => {
                return Err(AppError::TransformationFailed(message.to_string()));
            },
            CandidateVerdict::Image => {
                match image {
                    Some(data) => {
                        return Ok(data);
                    },
                    None => {},
                }
            },
            CandidateVerdict::Undecided => {},
        }
        i = i + 1;
    }
    Err(AppError::TransformationFailed(
        "Gemini did not return an image. Try a different photo or emoji.".to_string(),
    ))
}

/// Whether an answer's status is a success (`200..=299`).
pub open spec fn is_success_status(status: u16) -> bool {
    200 <= status <= 299
}

/// The result of one attempt, from what its exchange came to: an answer
/// outside `200..=299` is classified by [`classify_http_failure`]; a
/// successful one is read by [`interpret_response`], and is an internal error
/// if its body could not be read; no answer is an internal error, and no
/// answer in time a timeout.
pub fn attempt_result(reply: &UpstreamReply) -> (r: Result<String, AppError>)
    ensures
        match *reply {
            UpstreamReply::Answered { status, body, parsed } => if !is_success_status(status) {
                r is Err && is_http_failure(status, body@, r->Err_0)
            } else {
                match parsed {
                    Ok(response) => is_reading_of(response, r),
                    Err(_) => r matches Err(AppError::InternalError(_)),
                }
            },
            UpstreamReply::Unreachable { .. } => r matches Err(AppError::InternalError(_)),
            UpstreamReply::TimedOut => r matches Err(AppError::GeminiTimeout(_)),
        },
{
    match reply {
        UpstreamReply::Answered { status, body, parsed } => {
            if !(200 <= *status && *status <= 299) {
                Err(classify_http_failure(*status, body.as_str()))
            } else {
                match parsed {
                    Ok(response) => interpret_response(response),
                    Err(detail) => {
                        let mut m = joined("Failed to parse Gemini response: ", detail.as_str());
                        m.append(". Response: ");
                        m.append(body.as_str());
                        Err(AppError::InternalError(m))
                    },
                }
            }
        },
        UpstreamReply::Unreachable { detail } => {
            Err(AppError::InternalError(joined("Failed to reach Gemini API: ", detail.as_str())))
        },
        UpstreamReply::TimedOut => {
            Err(AppError::GeminiTimeout("Gemini API did not respond in time".to_string()))
        },
    }
}

/// Whether a failure is a content-filter block.
fn is_content_filter_error(e: &AppError) -> (r: bool)
    ensures
        r == is_content_filter(*e),
{
    if let AppError::GeminiContentFiltered(_) = e {
        return true;
    }
    let m = chars_of(e.message().as_str());
    let prohibited: Vec<char> = vec!['P', 'R', 'O', 'H', 'I', 'B', 'I', 'T', 'E', 'D', '_', 'C', 'O', 'N', 'T', 'E', 'N', 'T'];
    let flagged: Vec<char> = vec!['C', 'o', 'n', 't', 'e', 'n', 't', ' ', 'f', 'l', 'a', 'g', 'g', 'e', 'd', ' ', 'a', 's', ' ', 'i', 'n', 'a', 'p', 'p', 'r', 'o', 'p', 'r', 'i', 'a', 't', 'e'];
    let flagged_lower: Vec<char> = vec!['c', 'o', 'n', 't', 'e', 'n', 't', ' ', 'f', 'l', 'a', 'g', 'g', 'e', 'd', ' ', 'a', 's', ' ', 'i', 'n', 'a', 'p', 'p', 'r', 'o', 'p', 'r', 'i', 'a', 't', 'e'];
    assert(prohibited@ =~= seq!['P', 'R', 'O', 'H', 'I', 'B', 'I', 'T', 'E', 'D', '_', 'C', 'O', 'N', 'T', 'E', 'N', 'T']);
    assert(flagged@ =~= seq!['C', 'o', 'n', 't', 'e', 'n', 't', ' ', 'f', 'l', 'a', 'g', 'g', 'e', 'd', ' ', 'a', 's', ' ', 'i', 'n', 'a', 'p', 'p', 'r', 'o', 'p', 'r', 'i', 'a', 't', 'e']);
    assert(flagged_lower@ =~= seq!['c', 'o', 'n', 't', 'e', 'n', 't', ' ', 'f', 'l', 'a', 'g', 'g', 'e', 'd', ' ', 'a', 's', ' ', 'i', 'n', 'a', 'p', 'p', 'r', 'o', 'p', 'r', 'i', 'a', 't', 'e']);
    contains_chars(&m, &prohibited) || contains_chars(&m, &flagged) || contains_chars(&m, &flagged_lower)
}

/// Decides what follows attempt number `attempt`: a content-filter block (see
/// [`is_content_filter`]) before the last attempt is tried again; anything
/// else, and a block on the last attempt, ends the transformation with that
/// attempt's result.
pub fn after_attempt(attempt: u32, result: Result<String, AppError>) -> (r: AttemptStep)
    requires
        1 <= attempt <= MAX_ATTEMPTS,
    ensures
        r is Retry <==> retry_wanted(attempt, result),
        !retry_wanted(attempt, result) ==> r == AttemptStep::Done(result),
{
    if attempt < MAX_ATTEMPTS {
        if let Err(e) = &result {
            if is_content_filter_error(e) {
                return AttemptStep::Retry;
            }
        }
    }
    AttemptStep::Done(result)
}

/// The final result and the number of attempts made when, from attempt number
/// `attempt` on, attempt `k` comes to `results[k - 1]`, and each attempt is
/// followed by another exactly when [`after_attempt`] says to retry.
pub open spec fn attempts_from(results: Seq<Result<String, AppError>>, attempt: u32) -> (Result<String, AppError>, u32)
    decreases MAX_ATTEMPTS - attempt,
{
    if 1 <= attempt <= MAX_ATTEMPTS && attempt <= results.len() {
        if retry_wanted(attempt, results[attempt - 1]) {
            attempts_from(results, (attempt + 1) as u32)
        } else {
            (results[attempt - 1], attempt)
        }
    } else {
        (Err(AppError::InternalError(arbitrary())), attempt)
    }
}

/// The retry policy over three attempts: content-filter blocks on the first
/// two followed by an image give that image after three attempts; blocks on
/// all three give the last block; a failure that is not a content-filter
/// block ends the transformation at once, with that failure.
pub proof fn lemma_retry_policy(results: Seq<Result<String, AppError>>)
    requires
        results.len() == MAX_ATTEMPTS,
    ensures
        results[0] is Err && is_content_filter(results[0]->Err_0) && results[1] is Err && is_content_filter(
            results[1]->Err_0,
        ) && results[2] is Ok ==> attempts_from(results, 1) == (results[2], 3u32),
        results[0] is Err && is_content_filter(results[0]->Err_0) && results[1] is Err && is_content_filter(
            results[1]->Err_0,
        ) && results[2] is Err ==> attempts_from(results, 1) == (results[2], 3u32),
        results[0] is Ok ==> attempts_from(results, 1) == (results[0], 1u32),
        results[0] is Err && !is_content_filter(results[0]->Err_0) ==> attempts_from(results, 1) == (
            results[0],
            1u32,
        ),
{
    assert(attempts_from(results, 3) == (results[2], 3u32));
    if results[1] is Err && is_content_filter(results[1]->Err_0) {
        assert(attempts_from(results, 2) == attempts_from(results, 3));
    }
    if results[0] is Err && is_content_filter(results[0]->Err_0) {
        assert(attempts_from(results, 1) == attempts_from(results, 2));
    }
}

impl GeminiProvider {
    /// The API key it sends.
    pub closed spec fn api_key_view(&self) -> Seq<char> {
        self.api_key@
    }

    /// A client whose API key is the secret if one is set, else the plain
    /// variable; with neither, an internal error.
    pub fn new(secret: Option<String>, var: Option<String>) -> (r: Result<GeminiProvider, AppError>)
        ensures
            secret is Some ==> r is Ok && r->Ok_0.api_key_view() == secret->0@,
            secret is None && var is Some ==> r is Ok && r->Ok_0.api_key_view() == var->0@,
            secret is None && var is None ==> r matches Err(AppError::InternalError(_)),
    {
        match secret {
            Some(key) => Ok(GeminiProvider { api_key: key }),
            None => match var {
                Some(key) => Ok(GeminiProvider { api_key: key }),
                None => Err(AppError::InternalError(
                    "GEMINI_API_KEY not configured as secret or environment variable".to_string(),
                )),
            },
        }
    }

    /// The API key it sends.
    pub fn api_key(&self) -> (r: &String)
        ensures
            r@ == self.api_key_view(),
    {
        &self.api_key
    }
}

} // verus!
