use edge_router::reduce::{reduce_response, ApiResponse, ResponseBody};

#[test]
fn success_with_json_body_is_parsed() {
    let headers = vec![("Content-Type".to_string(), "application/json".to_string())];
    let r = reduce_response(201, headers.clone(), "{\"a\":1}".to_string());
    match r {
        ApiResponse::Success(d) => {
            assert_eq!(d.status, 201);
            assert_eq!(d.headers, headers);
            match d.body {
                ResponseBody::Parsed(v) => {
                    let expected: serde_json::Value = serde_json::from_str("{\"a\":1}").unwrap();
                    assert_eq!(v, expected);
                }
                ResponseBody::Raw(_) => panic!("a JSON body must be parsed"),
            }
        }
        ApiResponse::Error(_) => panic!("a success status must reduce to a success"),
    }
}

#[test]
fn success_with_non_json_body_is_raw() {
    let r = reduce_response(200, vec![], "<xml>not json</xml>".to_string());
    match r {
        ApiResponse::Success(d) => match d.body {
            ResponseBody::Raw(s) => assert_eq!(s, "<xml>not json</xml>"),
            ResponseBody::Parsed(_) => panic!("a non-JSON body must stay raw"),
        },
        ApiResponse::Error(_) => panic!("a success status must reduce to a success"),
    }
}

#[test]
fn not_found_discards_body() {
    let r = reduce_response(404, vec![("X".to_string(), "y".to_string())], "secret upstream details".to_string());
    match r {
        ApiResponse::Error(e) => {
            assert_eq!(e.status, 404);
            assert_eq!(e.message, "Not Found");
        }
        ApiResponse::Success(_) => panic!("a failure status must reduce to an error"),
    }
}

#[test]
fn error_outcome_ignores_body_content() {
    let r1 = reduce_response(500, vec![], "one body".to_string());
    let r2 = reduce_response(500, vec![], "another body entirely".to_string());
    match (r1, r2) {
        (ApiResponse::Error(e1), ApiResponse::Error(e2)) => {
            assert_eq!(e1.status, e2.status);
            assert_eq!(e1.message, e2.message);
            assert_eq!(e1.message, "Internal Server Error");
        }
        _ => panic!("failure statuses must reduce to errors"),
    }
}

#[test]
fn status_without_reason_phrase_uses_fallback() {
    let r = reduce_response(599, vec![], "body".to_string());
    match r {
        ApiResponse::Error(e) => {
            assert_eq!(e.status, 599);
            assert_eq!(e.message, "Unknown Status");
        }
        ApiResponse::Success(_) => panic!("a failure status must reduce to an error"),
    }
}

#[test]
fn boundary_statuses() {
    assert!(matches!(reduce_response(200, vec![], String::new()), ApiResponse::Success(_)));
    assert!(matches!(reduce_response(299, vec![], String::new()), ApiResponse::Success(_)));
    assert!(matches!(reduce_response(199, vec![], String::new()), ApiResponse::Error(_)));
    assert!(matches!(reduce_response(300, vec![], String::new()), ApiResponse::Error(_)));
}
