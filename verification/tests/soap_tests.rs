use edge_router::soap::{build_soap_envelope, html_escape, translate_soap_request, SoapRequestData, SoapValue};
use edge_router::http::HttpMethod;

fn envelope_str(action: &str, namespace: &str, params: Vec<(String, SoapValue)>) -> String {
    let bytes = build_soap_envelope(action, namespace, &params);
    String::from_utf8(bytes).unwrap()
}

#[test]
fn envelope_matches_legacy_wire_format_exactly() {
    let params = vec![
        ("1".to_string(), SoapValue::Number("44".to_string())),
        ("format".to_string(), SoapValue::Text("json".to_string())),
    ];
    let got = envelope_str("getDIDCountry", "urn:getDIDCountry", params);
    let expected = "<?xml version=\"1.0\" encoding=\"ISO-8859-1\"?><SOAP-ENV:Envelope SOAP-ENV:encodingStyle=\"http://schemas.xmlsoap.org/soap/encoding/\" xmlns:SOAP-ENV=\"http://schemas.xmlsoap.org/soap/envelope/\" xmlns:xsd=\"http://www.w3.org/2001/XMLSchema\" xmlns:xsi=\"http://www.w3.org/2001/XMLSchema-instance\" xmlns:SOAP-ENC=\"http://schemas.xmlsoap.org/soap/encoding/\"><SOAP-ENV:Body><ns1766:getDIDCountry xmlns:ns1766=\"urn:getDIDCountry\"><__numeric_1 xsi:type=\"xsd:int\">44</__numeric_1><format xsi:type=\"xsd:string\">json</format></ns1766:getDIDCountry></SOAP-ENV:Body></SOAP-ENV:Envelope>";
    assert_eq!(got, expected);
}

#[test]
fn envelope_has_no_newlines() {
    let params = vec![("a".to_string(), SoapValue::Text("line".to_string()))];
    let got = envelope_str("act", "urn:act", params);
    assert!(!got.contains('\n'));
    assert!(!got.contains('\r'));
}

#[test]
fn html_escape_all_five_entities() {
    let got = String::from_utf8(html_escape("<a>&\"'")).unwrap();
    assert_eq!(got, "&lt;a&gt;&amp;&quot;&apos;");
}

#[test]
fn html_escape_passes_ordinary_text() {
    let got = String::from_utf8(html_escape("plain text 123")).unwrap();
    assert_eq!(got, "plain text 123");
}

#[test]
fn parameters_keep_input_order() {
    let params = vec![
        ("zz".to_string(), SoapValue::Text("1".to_string())),
        ("aa".to_string(), SoapValue::Text("2".to_string())),
    ];
    let got = envelope_str("act", "urn:act", params);
    let zz = got.find("<zz ").unwrap();
    let aa = got.find("<aa ").unwrap();
    assert!(zz < aa);
}

#[test]
fn numeric_keys_are_rewritten() {
    let params = vec![
        ("007".to_string(), SoapValue::Text("bond".to_string())),
        ("x7".to_string(), SoapValue::Text("kept".to_string())),
    ];
    let got = envelope_str("act", "urn:act", params);
    assert!(got.contains("<__numeric_007 xsi:type=\"xsd:string\">bond</__numeric_007>"));
    assert!(got.contains("<x7 xsi:type=\"xsd:string\">kept</x7>"));
}

#[test]
fn value_kinds_and_type_hints() {
    let params = vec![
        ("b".to_string(), SoapValue::Bool(true)),
        ("c".to_string(), SoapValue::Bool(false)),
        ("n".to_string(), SoapValue::Number("-12".to_string())),
        ("s".to_string(), SoapValue::Text("a&b".to_string())),
        ("z".to_string(), SoapValue::Null),
        ("o".to_string(), SoapValue::Other("[1,2]".to_string())),
    ];
    let got = envelope_str("act", "urn:act", params);
    assert!(got.contains("<b xsi:type=\"xsd:boolean\">true</b>"));
    assert!(got.contains("<c xsi:type=\"xsd:boolean\">false</c>"));
    assert!(got.contains("<n xsi:type=\"xsd:int\">-12</n>"));
    assert!(got.contains("<s xsi:type=\"xsd:string\">a&amp;b</s>"));
    assert!(got.contains("<z xsi:type=\"xsd:string\"></z>"));
    assert!(got.contains("<o xsi:type=\"xsd:string\">[1,2]</o>"));
}

#[test]
fn soap_translation_fixes_outbound_headers() {
    let data = SoapRequestData {
        url: "https://legacy.example.com/soap".to_string(),
        action: "getDIDCountry".to_string(),
        namespace: "urn:getDIDCountry".to_string(),
        params: vec![],
        headers: vec![("X-Custom".to_string(), "kept".to_string())],
        timeout: 30,
    };
    let out = translate_soap_request(data).unwrap();
    assert_eq!(out.method, HttpMethod::Post);
    assert_eq!(String::from_utf8(out.url).unwrap(), "https://legacy.example.com/soap");
    let h = out.headers;
    assert_eq!(h[0], ("X-Custom".to_string(), "kept".to_string()));
    assert_eq!(h[1], ("content-type".to_string(), "text/xml; charset=ISO-8859-1".to_string()));
    assert_eq!(h[2], ("soapaction".to_string(), "\"\"".to_string()));
    assert_eq!(h[3], ("user-agent".to_string(), "NuSOAP/0.9.17 (1.123)".to_string()));
    let body = String::from_utf8(out.body.unwrap()).unwrap();
    assert!(body.starts_with("<?xml version=\"1.0\" encoding=\"ISO-8859-1\"?>"));
}

#[test]
fn soap_translation_rejects_bad_headers() {
    let data = SoapRequestData {
        url: "https://x".to_string(),
        action: "a".to_string(),
        namespace: "urn:a".to_string(),
        params: vec![],
        headers: vec![("bad name".to_string(), "v".to_string())],
        timeout: 30,
    };
    assert!(translate_soap_request(data).is_err());
}
