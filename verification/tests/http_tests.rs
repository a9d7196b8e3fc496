use edge_router::http::{
    build_json_object, default_method, default_timeout, is_valid_header_name,
    is_valid_header_value, translate_request, HttpMethod, RequestData, TranslateError,
};

fn base_request(method: HttpMethod) -> RequestData {
    RequestData {
        url: "https://api.example.com/path".to_string(),
        method,
        params: vec![("q".to_string(), "x".to_string())],
        headers: vec![],
        timeout: 30,
    }
}

#[test]
fn method_parse_known_names() {
    assert_eq!(HttpMethod::parse("get"), Some(HttpMethod::Get));
    assert_eq!(HttpMethod::parse("GET"), Some(HttpMethod::Get));
    assert_eq!(HttpMethod::parse("post"), Some(HttpMethod::Post));
    assert_eq!(HttpMethod::parse("Put"), Some(HttpMethod::Put));
    assert_eq!(HttpMethod::parse("delete"), Some(HttpMethod::Delete));
    assert_eq!(HttpMethod::parse("patch"), Some(HttpMethod::Patch));
    assert_eq!(HttpMethod::parse("head"), Some(HttpMethod::Head));
    assert_eq!(HttpMethod::parse("OPTIONS"), Some(HttpMethod::Options));
    assert_eq!(HttpMethod::parse("fetch"), None);
    assert_eq!(HttpMethod::parse(""), None);
}

#[test]
fn defaults() {
    assert_eq!(default_method(), HttpMethod::Post);
    assert_eq!(default_timeout(), 30);
}

#[test]
fn method_wire_names() {
    assert_eq!(HttpMethod::Get.name(), "GET");
    assert_eq!(HttpMethod::Options.name(), "OPTIONS");
}

#[test]
fn get_places_params_in_query_string() {
    let out = translate_request(base_request(HttpMethod::Get)).unwrap();
    assert_eq!(
        String::from_utf8(out.url).unwrap(),
        "https://api.example.com/path?q=x"
    );
    assert!(out.body.is_none());
}

#[test]
fn post_places_params_in_json_body() {
    let out = translate_request(base_request(HttpMethod::Post)).unwrap();
    assert_eq!(String::from_utf8(out.url).unwrap(), "https://api.example.com/path");
    let body = String::from_utf8(out.body.unwrap()).unwrap();
    assert_eq!(body, "{\"q\":\"x\"}");
}

#[test]
fn head_and_delete_use_query_put_and_patch_use_body() {
    for m in [HttpMethod::Head, HttpMethod::Delete] {
        let out = translate_request(base_request(m)).unwrap();
        assert!(out.body.is_none());
        assert!(String::from_utf8(out.url).unwrap().ends_with("?q=x"));
    }
    for m in [HttpMethod::Put, HttpMethod::Patch, HttpMethod::Options] {
        let out = translate_request(base_request(m)).unwrap();
        assert!(out.body.is_some());
    }
}

#[test]
fn query_encoding_escapes_reserved_bytes() {
    let mut data = base_request(HttpMethod::Get);
    data.params = vec![("a b".to_string(), "c&d=e".to_string())];
    let out = translate_request(data).unwrap();
    assert_eq!(
        String::from_utf8(out.url).unwrap(),
        "https://api.example.com/path?a+b=c%26d%3De"
    );
}

#[test]
fn query_appends_to_existing_query() {
    let mut data = base_request(HttpMethod::Get);
    data.url = "https://api.example.com/path?v=1".to_string();
    let out = translate_request(data).unwrap();
    assert_eq!(
        String::from_utf8(out.url).unwrap(),
        "https://api.example.com/path?v=1&q=x"
    );
}

#[test]
fn empty_params_leave_url_and_give_empty_object() {
    let mut data = base_request(HttpMethod::Get);
    data.params = vec![];
    let out = translate_request(data).unwrap();
    assert_eq!(String::from_utf8(out.url).unwrap(), "https://api.example.com/path");
    let mut data = base_request(HttpMethod::Post);
    data.params = vec![];
    let out = translate_request(data).unwrap();
    assert_eq!(String::from_utf8(out.body.unwrap()).unwrap(), "{}");
}

#[test]
fn json_body_escapes_strings() {
    let ps = vec![("k\"ey".to_string(), "a\\b\nc".to_string())];
    let body = String::from_utf8(build_json_object(&ps)).unwrap();
    assert_eq!(body, "{\"k\\\"ey\":\"a\\\\b\\nc\"}");
}

#[test]
fn json_body_escapes_control_bytes() {
    let ps = vec![("k".to_string(), "\u{1}".to_string())];
    let body = String::from_utf8(build_json_object(&ps)).unwrap();
    assert_eq!(body, "{\"k\":\"\\u0001\"}");
}

#[test]
fn default_user_agent_is_injected_only_when_absent() {
    let out = translate_request(base_request(HttpMethod::Post)).unwrap();
    assert!(out
        .headers
        .iter()
        .any(|(k, v)| k == "user-agent" && v == "ApiProxy/1.0"));
    let mut data = base_request(HttpMethod::Post);
    data.headers = vec![("User-Agent".to_string(), "custom/2.0".to_string())];
    let out = translate_request(data).unwrap();
    assert_eq!(out.headers[0], ("User-Agent".to_string(), "custom/2.0".to_string()));
    assert!(!out.headers.iter().any(|(_, v)| v == "ApiProxy/1.0"));
}

#[test]
fn json_content_type_is_set_for_body_requests() {
    let out = translate_request(base_request(HttpMethod::Post)).unwrap();
    assert!(out
        .headers
        .iter()
        .any(|(k, v)| k == "content-type" && v == "application/json"));
    let out = translate_request(base_request(HttpMethod::Get)).unwrap();
    assert!(!out.headers.iter().any(|(k, _)| k == "content-type"));
}

#[test]
fn invalid_header_name_is_a_translation_error() {
    let mut data = base_request(HttpMethod::Post);
    data.headers = vec![("bad name".to_string(), "v".to_string())];
    match translate_request(data) {
        Err(TranslateError::InvalidHeaderName(k)) => {
            assert_eq!(k, "bad name");
        }
        _ => panic!("expected an invalid header name error"),
    }
}

#[test]
fn invalid_header_value_is_a_translation_error() {
    let mut data = base_request(HttpMethod::Post);
    data.headers = vec![("x-ok".to_string(), "bad\u{0}value".to_string())];
    match translate_request(data) {
        Err(TranslateError::InvalidHeaderValue(v)) => {
            assert_eq!(v, "bad\u{0}value");
        }
        _ => panic!("expected an invalid header value error"),
    }
}

#[test]
fn translate_error_messages() {
    let e = TranslateError::InvalidHeaderName("bad name".to_string());
    assert_eq!(e.message(), "Invalid header name: bad name");
    let e = TranslateError::InvalidHeaderValue("v".to_string());
    assert_eq!(e.message(), "Invalid header value: v");
}

#[test]
fn header_validation_rules() {
    assert!(is_valid_header_name("content-type"));
    assert!(is_valid_header_name("X-Custom_Header.1"));
    assert!(!is_valid_header_name(""));
    assert!(!is_valid_header_name("has space"));
    assert!(!is_valid_header_name("colon:name"));
    assert!(is_valid_header_value("text/xml; charset=ISO-8859-1"));
    assert!(is_valid_header_value("\ttabbed"));
    assert!(!is_valid_header_value("line\nbreak"));
    assert!(!is_valid_header_value("\u{7f}"));
}
