//! ResponseReducer: collapses an upstream HTTP response into the minimized
//! public response shape. A success status forwards the headers and the body
//! (parsed as JSON when it parses, wrapped as raw text otherwise); any other
//! status is reduced to its code and canonical reason phrase — the error body
//! is discarded entirely, whatever it held.

use vstd::prelude::*;
use vstd::string::StringSliceAdditionalSpecFns;

verus! {

/// serde_json's JSON document type, carried opaquely through the reducer.
#[verifier::external_type_specification]
#[verifier::external_body]
pub struct ExValue(serde_json::Value);

/// Whether serde_json's parser accepts a text as a JSON document: a function
/// of the characters alone.
pub uninterp spec fn is_json(s: Seq<char>) -> bool;

/// Relies on serde_json::from_str::<serde_json::Value>: whether a text
/// parses as JSON depends on its characters alone.
#[verifier::external_body]
fn try_parse_json(s: &str) -> (r: Option<serde_json::Value>)
    ensures
        r is Some <==> is_json(s@),
{
    serde_json::from_str::<serde_json::Value>(s).ok()
}

/// The canonical reason phrase of an HTTP status code, if the code has one:
/// a fixed table keyed by the status alone.
pub uninterp spec fn reason_phrase(status: u16) -> Option<Seq<char>>;

/// Relies on reqwest::StatusCode::canonical_reason, a fixed status-to-phrase
/// table (StatusCode::from_u16 converts the argument; a status outside the
/// code space has no phrase).
#[verifier::external_body]
fn canonical_reason(status: u16) -> (r: Option<String>)
    ensures
        r is Some <==> reason_phrase(status) is Some,
        match r {
            Some(s) => reason_phrase(status) == Some(s@),
            None => true,
        },
{
    match reqwest::StatusCode::from_u16(status) {
        Ok(c) => c.canonical_reason().map(|s| s.to_string()),
        Err(_) => None,
    }
}

/// The body of a successful upstream response.
pub enum ResponseBody {
    /// The body parsed as a JSON document.
    Parsed(serde_json::Value),
    /// The body as received, when it is not valid JSON.
    Raw(String),
}

/// A successful outcome: the upstream status, all upstream headers as
/// received, and the upstream body.
pub struct ResponseData {
    /// Upstream status code (a success code).
    pub status: u16,
    /// Upstream headers, order and case as received.
    pub headers: Vec<(String, String)>,
    /// Upstream body.
    pub body: ResponseBody,
}

/// A minimized error outcome: only the status and a short reason cross the
/// boundary; the upstream error body never does.
pub struct ErrorResponseData {
    /// Upstream status code (not a success code).
    pub status: u16,
    /// The canonical reason phrase of the status, or the fixed fallback.
    pub message: String,
}

/// The normalized outcome of one upstream call.
pub enum ApiResponse {
    /// The upstream answered with a success status.
    Success(ResponseData),
    /// The upstream answered with any other status.
    Error(ErrorResponseData),
}

/// Is the status a success status?
pub open spec fn is_success_status(status: u16) -> bool {
    200 <= status < 300
}

/// The message an error reduction carries: the canonical reason phrase of
/// the status, or the fixed fallback for a status that has none. A function
/// of the status alone — never of the response body.
pub open spec fn error_message_chars(status: u16) -> Seq<char> {
    match reason_phrase(status) {
        Some(p) => p,
        None => "Unknown Status"@,
    }
}

/// Reduces an upstream response. A success status (and only a success
/// status) yields the full response: status, every header as received, and
/// the body — parsed when it is JSON, raw otherwise. Every other status
/// yields only its code and reason phrase: the body is discarded, and the
/// error outcome is a function of the status alone.
pub fn reduce_response(status: u16, headers: Vec<(String, String)>, body_text: String) -> (r:
    ApiResponse)
    ensures
        is_success_status(status) ==> match r {
            ApiResponse::Success(d) => {
                &&& d.status == status
                &&& d.headers@ == headers@
                &&& (is_json(body_text@) ==> d.body is Parsed)
                &&& (!is_json(body_text@) ==> d.body == ResponseBody::Raw(body_text))
            },
            ApiResponse::Error(_) => false,
        },
        !is_success_status(status) ==> match r {
            ApiResponse::Success(_) => false,
            ApiResponse::Error(e) => e.status == status && e.message@ == error_message_chars(
                status,
            ),
        },
{
    if 200 <= status && status < 300 {
        let body = match try_parse_json(body_text.as_str()) {
            Some(v) => ResponseBody::Parsed(v),
            None => ResponseBody::Raw(body_text),
        };
        ApiResponse::Success(ResponseData { status, headers, body })
    } else {
        let message = match canonical_reason(status) {
            Some(m) => m,
            None => "Unknown Status".to_owned(),
        };
        ApiResponse::Error(ErrorResponseData { status, message })
    }
}

} // verus!
