//! Pipeline: the per-request lifecycle before the forwarding boundary.
//! Authenticate, classify, route: an authentication failure terminates the
//! request at once with the uniform forbidden outcome and nothing is routed;
//! otherwise the request is pinned to its region-sharded target, with the
//! classification headers to forward alongside the body.

use vstd::prelude::*;
use vstd::string::StringExecFns;
use vstd::string::StringSliceAdditionalSpecFns;

use crate::auth::{valid_bearer, validate_token, AuthError};
use crate::classify::{classify_region, log_level_of, region_of_request, LogLevel};
use crate::http::headers_view;
use crate::route::{
    namespace_chars, region_chars, route, shard_of, target_name_chars, TargetDescriptor,
};

verus! {

/// What happens to one inbound request before the forwarding boundary.
pub enum RequestPlan {
    /// Authentication failed: answer with this status and message and do
    /// nothing else — no routing, no forwarding.
    Reject {
        /// The uniform forbidden status.
        status: u16,
        /// The uniform forbidden message.
        message: String,
    },
    /// Authentication succeeded: forward the body to the routed target.
    Forward {
        /// The region-pinned target selected for the body.
        target: TargetDescriptor,
        /// The internal URL carrying the original path.
        url: String,
        /// The headers to forward along with the body.
        headers: Vec<(String, String)>,
        /// The logging level the caller selected.
        level: LogLevel,
    },
}

/// The header value that reproduces a logging level.
pub open spec fn level_header_chars(level: LogLevel) -> Seq<char> {
    if level == LogLevel::Debug {
        "debug"@
    } else {
        "info"@
    }
}

/// The headers forwarded to the routed target: the content type, the request
/// kind when one was named, and the logging level.
pub open spec fn forward_headers_chars(rt: Seq<char>, level: LogLevel) -> Seq<
    (Seq<char>, Seq<char>),
> {
    let base = seq![("Content-Type"@, "application/json"@)];
    let with_rt = if rt.len() > 0 {
        base.push(("X-Request-Type"@, rt))
    } else {
        base
    };
    with_rt.push(("X-Log-Level"@, level_header_chars(level)))
}

/// Plans one inbound request from its headers, path and body.
///
/// Rejects, with the uniform forbidden outcome, exactly when the bearer
/// credential is absent or wrong. Otherwise the body is routed: the target
/// is the pure function of the classified region and the body bytes that the
/// router defines, the URL keeps the original path, and the forwarded
/// headers carry the request kind (when named) and the logging level.
pub fn plan_request(
    auth_header: Option<&str>,
    expected_token: &str,
    region_header: Option<&str>,
    request_type: Option<&str>,
    log_level_header: Option<&str>,
    path: &str,
    body: &str,
) -> (r: RequestPlan)
    ensures
        (r matches RequestPlan::Reject { .. }) <==> !match auth_header {
            Some(h) => valid_bearer(h.spec_bytes(), expected_token.spec_bytes()),
            None => false,
        },
        match r {
            RequestPlan::Reject { status, message } => status == 403 && message@
                == "Forbidden: Invalid or missing authentication token"@,
            RequestPlan::Forward { target, url, headers, level } => {
                let region = region_of_request(
                    match region_header {
                        Some(h) => Some(h.spec_bytes()),
                        None => None,
                    },
                );
                let rt = match request_type {
                    Some(s) => s@,
                    None => ""@,
                };
                &&& level == log_level_of(
                    match log_level_header {
                        Some(h) => h.spec_bytes(),
                        None => "".spec_bytes(),
                    },
                )
                &&& target.shard == shard_of(body.spec_bytes())
                &&& target.namespace@ == namespace_chars(region)
                &&& target.name@ == target_name_chars(region, shard_of(body.spec_bytes()))
                &&& target.location_hint@ == region_chars(region)
                &&& target.is_eu == region.spec_is_eu()
                &&& url@ == "http://internal"@ + path@
                &&& headers_view(headers@) == forward_headers_chars(rt, level)
            },
        },
{
    if !validate_token(auth_header, expected_token) {
        let (status, message) = AuthError::forbidden();
        return RequestPlan::Reject { status, message: message.to_owned() };
    }
    let level = match log_level_header {
        Some(h) => LogLevel::from_header(h),
        None => LogLevel::from_header(""),
    };
    let region = classify_region(region_header);
    let target = route(region, body.as_bytes());
    let mut url = "http://internal".to_owned();
    url.append(path);
    let rt = match request_type {
        Some(s) => s,
        None => "",
    };
    let mut headers: Vec<(String, String)> = Vec::new();
    headers.push(("Content-Type".to_owned(), "application/json".to_owned()));
    if !rt.is_empty() {
        headers.push(("X-Request-Type".to_owned(), rt.to_owned()));
    }
    headers.push(("X-Log-Level".to_owned(), level.header_value().to_owned()));
    proof {
        assert(headers_view(headers@) =~= forward_headers_chars(
            match request_type {
                Some(s) => s@,
                None => ""@,
            },
            level,
        ));
    }
    RequestPlan::Forward { target, url, headers, level }
}

} // verus!
