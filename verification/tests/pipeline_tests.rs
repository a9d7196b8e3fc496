use edge_router::classify::LogLevel;
use edge_router::pipeline::{plan_request, RequestPlan};
use edge_router::trace::parse_colo_trace;

fn plan(
    auth: Option<&str>,
    region: Option<&str>,
    kind: Option<&str>,
    level: Option<&str>,
) -> RequestPlan {
    plan_request(auth, "tok-1", region, kind, level, "/v1/call", "hello")
}

#[test]
fn bad_credential_rejects_uniformly() {
    let cases = [None, Some("Bearer wrong"), Some("Basic tok-1"), Some("")];
    for auth in cases {
        match plan(auth, Some("weur"), Some("soap"), Some("debug")) {
            RequestPlan::Reject { status, message } => {
                assert_eq!(status, 403);
                assert_eq!(message, "Forbidden: Invalid or missing authentication token");
            }
            RequestPlan::Forward { .. } => panic!("an invalid credential must be rejected"),
        }
    }
}

#[test]
fn valid_credential_forwards_to_routed_target() {
    match plan(Some("Bearer tok-1"), Some("weur"), Some("soap"), Some("debug")) {
        RequestPlan::Forward { target, url, headers, level } => {
            // FNV-1a of "hello" selects shard 1.
            assert_eq!(target.shard, 1);
            assert_eq!(target.name, "weur-processor-1");
            assert_eq!(target.namespace, "WEUR_PROCESSOR");
            assert_eq!(target.location_hint, "weur");
            assert!(target.is_eu);
            assert_eq!(url, "http://internal/v1/call");
            assert_eq!(level, LogLevel::Debug);
            assert_eq!(
                headers,
                vec![
                    ("Content-Type".to_string(), "application/json".to_string()),
                    ("X-Request-Type".to_string(), "soap".to_string()),
                    ("X-Log-Level".to_string(), "debug".to_string()),
                ]
            );
        }
        RequestPlan::Reject { .. } => panic!("a valid credential must be forwarded"),
    }
}

#[test]
fn missing_headers_take_defaults() {
    match plan(Some("Bearer tok-1"), None, None, None) {
        RequestPlan::Forward { target, headers, level, .. } => {
            assert_eq!(target.namespace, "WNAM_PROCESSOR");
            assert!(!target.is_eu);
            assert_eq!(level, LogLevel::Info);
            assert_eq!(
                headers,
                vec![
                    ("Content-Type".to_string(), "application/json".to_string()),
                    ("X-Log-Level".to_string(), "info".to_string()),
                ]
            );
        }
        RequestPlan::Reject { .. } => panic!("a valid credential must be forwarded"),
    }
}

#[test]
fn colo_trace_parsing() {
    let text = "fl=123\nh=cloudflare.com\ncolo=SJC\nip=1.2.3.4\n";
    assert_eq!(parse_colo_trace(text), Some(b"SJC".to_vec()));
}

#[test]
fn colo_trace_trims_and_skips_empty_values() {
    assert_eq!(parse_colo_trace("colo= \ncolo=\tIAD \n"), Some(b"IAD".to_vec()));
    assert_eq!(parse_colo_trace("colo=LHR\r\nrest=x"), Some(b"LHR".to_vec()));
}

#[test]
fn colo_trace_without_value_is_none() {
    assert_eq!(parse_colo_trace(""), None);
    assert_eq!(parse_colo_trace("a=b\nc=d"), None);
    assert_eq!(parse_colo_trace("colo=\n"), None);
    assert_eq!(parse_colo_trace("notcolo=ABC"), None);
}
