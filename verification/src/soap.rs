//! ProtocolTranslator, SOAP variant: reproduces a legacy SOAP client's wire
//! format byte for byte. The envelope is a single line with no embedded
//! newlines, parameters are emitted in input order, all-digit keys are
//! rewritten with a numeric prefix, and string values are HTML-entity-escaped.

use vstd::prelude::*;
use vstd::string::StringSliceAdditionalSpecFns;
use vstd::utf8::encode_utf8;

use crate::wire::{push_bytes, push_str_bytes};

verus! {

/// A typed SOAP parameter value. `Number` and `Other` carry the textual form
/// the value had in the inbound payload (a decimal rendering, or the raw
/// serialized form of a non-scalar shape).
pub enum SoapValue {
    /// A boolean, emitted as `true`/`false` with an `xsd:boolean` hint.
    Bool(bool),
    /// A number, emitted verbatim with an `xsd:int` hint.
    Number(String),
    /// A string, emitted HTML-entity-escaped with an `xsd:string` hint.
    Text(String),
    /// A null, emitted as empty content with an `xsd:string` hint.
    Null,
    /// Any other shape, emitted verbatim with an `xsd:string` hint.
    Other(String),
}

/// The HTML-entity escaping of one byte: the five XML-special characters
/// become entities, every other byte is kept.
pub open spec fn escaped_byte(b: u8) -> Seq<u8> {
    if b == 38 {  // &
        "&amp;".spec_bytes()
    } else if b == 60 {  // <
        "&lt;".spec_bytes()
    } else if b == 62 {  // >
        "&gt;".spec_bytes()
    } else if b == 34 {  // "
        "&quot;".spec_bytes()
    } else if b == 39 {  // '
        "&apos;".spec_bytes()
    } else {
        seq![b]
    }
}

/// HTML-entity escaping of a byte sequence, byte by byte.
pub open spec fn html_escape_bytes(s: Seq<u8>) -> Seq<u8>
    decreases s.len(),
{
    if s.len() == 0 {
        Seq::empty()
    } else {
        html_escape_bytes(s.drop_last()) + escaped_byte(s.last())
    }
}

/// HTML-escapes the UTF-8 bytes of `s` for use as SOAP parameter content:
/// `&` `<` `>` `"` `'` become entities, everything else passes through.
pub fn html_escape(s: &str) -> (r: Vec<u8>)
    ensures
        r@ == html_escape_bytes(s.spec_bytes()),
{
    let b = s.as_bytes();
    let mut out: Vec<u8> = Vec::new();
    assert(b@.subrange(0, 0) =~= Seq::<u8>::empty());
    for i in 0..b.len()
        invariant
            out@ == html_escape_bytes(b@.subrange(0, i as int)),
    {
        let c = b[i];
        if c == 38 {
            push_str_bytes(&mut out, "&amp;");
        } else if c == 60 {
            push_str_bytes(&mut out, "&lt;");
        } else if c == 62 {
            push_str_bytes(&mut out, "&gt;");
        } else if c == 34 {
            push_str_bytes(&mut out, "&quot;");
        } else if c == 39 {
            push_str_bytes(&mut out, "&apos;");
        } else {
            out.push(c);
            assert(out@ =~= html_escape_bytes(b@.subrange(0, i as int)) + escaped_byte(c));
        }
        proof {
            let pre = b@.subrange(0, i as int);
            let post = b@.subrange(0, i + 1);
            assert(post.drop_last() =~= pre);
            assert(post.last() == c);
        }
    }
    assert(b@.subrange(0, b@.len() as int) =~= b@);
    out
}

/// Is every byte of the key an ASCII decimal digit? (True of the empty key.)
pub open spec fn all_digits(k: Seq<u8>) -> bool {
    forall|i: int| 0 <= i < k.len() ==> 48 <= #[trigger] k[i] <= 57
}

/// The emitted spelling of a parameter key: an all-digit key is rewritten
/// with the numeric prefix, any other key is kept as it is.
pub open spec fn xml_key_bytes(k: Seq<u8>) -> Seq<u8> {
    if all_digits(k) {
        "__numeric_".spec_bytes() + k
    } else {
        k
    }
}

/// The type hint emitted for a value.
pub open spec fn type_hint_bytes(v: SoapValue) -> Seq<u8> {
    match v {
        SoapValue::Bool(_) => "xsd:boolean".spec_bytes(),
        SoapValue::Number(_) => "xsd:int".spec_bytes(),
        _ => "xsd:string".spec_bytes(),
    }
}

/// The element content emitted for a value.
pub open spec fn value_content_bytes(v: SoapValue) -> Seq<u8> {
    match v {
        SoapValue::Bool(b) => if b {
            "true".spec_bytes()
        } else {
            "false".spec_bytes()
        },
        SoapValue::Number(n) => encode_utf8(n@),
        SoapValue::Text(s) => html_escape_bytes(encode_utf8(s@)),
        SoapValue::Null => Seq::empty(),
        SoapValue::Other(s) => encode_utf8(s@),
    }
}

/// One emitted parameter element: `<KEY xsi:type="TYPE">VALUE</KEY>`.
pub open spec fn param_bytes(p: (String, SoapValue)) -> Seq<u8> {
    let key = xml_key_bytes(encode_utf8(p.0@));
    "<".spec_bytes() + key + " xsi:type=\"".spec_bytes() + type_hint_bytes(p.1)
        + "\">".spec_bytes() + value_content_bytes(p.1) + "</".spec_bytes() + key
        + ">".spec_bytes()
}

/// All parameter elements, in input order.
pub open spec fn params_bytes(ps: Seq<(String, SoapValue)>) -> Seq<u8>
    decreases ps.len(),
{
    if ps.len() == 0 {
        Seq::empty()
    } else {
        params_bytes(ps.drop_last()) + param_bytes(ps.last())
    }
}

/// The complete envelope: the XML declaration and the fixed envelope
/// boilerplate wrapping the action element and its parameters, with no
/// newline anywhere.
pub open spec fn soap_envelope_bytes(
    action: Seq<u8>,
    namespace: Seq<u8>,
    ps: Seq<(String, SoapValue)>,
) -> Seq<u8> {
    "<?xml version=\"1.0\" encoding=\"ISO-8859-1\"?><SOAP-ENV:Envelope SOAP-ENV:encodingStyle=\"http://schemas.xmlsoap.org/soap/encoding/\" xmlns:SOAP-ENV=\"http://schemas.xmlsoap.org/soap/envelope/\" xmlns:xsd=\"http://www.w3.org/2001/XMLSchema\" xmlns:xsi=\"http://www.w3.org/2001/XMLSchema-instance\" xmlns:SOAP-ENC=\"http://schemas.xmlsoap.org/soap/encoding/\"><SOAP-ENV:Body>".spec_bytes()
        + "<ns1766:".spec_bytes() + action + " xmlns:ns1766=\"".spec_bytes() + namespace
        + "\">".spec_bytes() + params_bytes(ps) + "</ns1766:".spec_bytes() + action
        + ">".spec_bytes() + "</SOAP-ENV:Body></SOAP-ENV:Envelope>".spec_bytes()
}

/// Emits the key spelling: tests for an all-digit key and prefixes it.
fn push_xml_key(out: &mut Vec<u8>, key: &str)
    ensures
        final(out)@ == old(out)@ + xml_key_bytes(key.spec_bytes()),
{
    let b = key.as_bytes();
    let mut digits = true;
    for i in 0..b.len()
        invariant
            digits == (forall|j: int| 0 <= j < i ==> 48 <= #[trigger] b@[j] <= 57),
    {
        if b[i] < 48 || b[i] > 57 {
            digits = false;
        }
    }
    assert(digits == all_digits(b@));
    if digits {
        push_str_bytes(out, "__numeric_");
        push_bytes(out, b);
        assert(out@ =~= old(out)@ + ("__numeric_".spec_bytes() + b@));
    } else {
        push_bytes(out, b);
    }
}

/// Emits the content of a value.
fn push_value_content(out: &mut Vec<u8>, v: &SoapValue)
    ensures
        final(out)@ == old(out)@ + value_content_bytes(*v),
{
    match v {
        SoapValue::Bool(b) => {
            if *b {
                push_str_bytes(out, "true");
            } else {
                push_str_bytes(out, "false");
            }
        },
        SoapValue::Number(n) => {
            push_str_bytes(out, n.as_str());
        },
        SoapValue::Text(s) => {
            let mut esc = html_escape(s.as_str());
            out.append(&mut esc);
        },
        SoapValue::Null => {
            assert(out@ =~= out@ + Seq::<u8>::empty());
        },
        SoapValue::Other(s) => {
            push_str_bytes(out, s.as_str());
        },
    }
}

/// Emits the type hint of a value.
fn push_type_hint(out: &mut Vec<u8>, v: &SoapValue)
    ensures
        final(out)@ == old(out)@ + type_hint_bytes(*v),
{
    match v {
        SoapValue::Bool(_) => push_str_bytes(out, "xsd:boolean"),
        SoapValue::Number(_) => push_str_bytes(out, "xsd:int"),
        SoapValue::Text(_) => push_str_bytes(out, "xsd:string"),
        SoapValue::Null => push_str_bytes(out, "xsd:string"),
        SoapValue::Other(_) => push_str_bytes(out, "xsd:string"),
    }
}

/// Emits one parameter element.
fn push_param(out: &mut Vec<u8>, p: &(String, SoapValue))
    ensures
        final(out)@ == old(out)@ + param_bytes(*p),
{
    push_str_bytes(out, "<");
    push_xml_key(out, p.0.as_str());
    push_str_bytes(out, " xsi:type=\"");
    push_type_hint(out, &p.1);
    push_str_bytes(out, "\">");
    push_value_content(out, &p.1);
    push_str_bytes(out, "</");
    push_xml_key(out, p.0.as_str());
    push_str_bytes(out, ">");
    assert(out@ =~= old(out)@ + param_bytes(*p));
}

/// Builds the byte-exact SOAP envelope for an action, a namespace and an
/// ordered parameter list. Parameters are emitted exactly in the order given;
/// the result is the single-line legacy wire format, byte for byte.
pub fn build_soap_envelope(action: &str, namespace: &str, params: &Vec<(String, SoapValue)>) -> (r:
    Vec<u8>)
    ensures
        r@ == soap_envelope_bytes(action.spec_bytes(), namespace.spec_bytes(), params@),
{
    let mut out: Vec<u8> = Vec::new();
    push_str_bytes(
        &mut out,
        "<?xml version=\"1.0\" encoding=\"ISO-8859-1\"?><SOAP-ENV:Envelope SOAP-ENV:encodingStyle=\"http://schemas.xmlsoap.org/soap/encoding/\" xmlns:SOAP-ENV=\"http://schemas.xmlsoap.org/soap/envelope/\" xmlns:xsd=\"http://www.w3.org/2001/XMLSchema\" xmlns:xsi=\"http://www.w3.org/2001/XMLSchema-instance\" xmlns:SOAP-ENC=\"http://schemas.xmlsoap.org/soap/encoding/\"><SOAP-ENV:Body>",
    );
    push_str_bytes(&mut out, "<ns1766:");
    push_str_bytes(&mut out, action);
    push_str_bytes(&mut out, " xmlns:ns1766=\"");
    push_str_bytes(&mut out, namespace);
    push_str_bytes(&mut out, "\">");
    let ghost header = out@;
    for i in 0..params.len()
        invariant
            out@ == header + params_bytes(params@.subrange(0, i as int)),
    {
        push_param(&mut out, &params[i]);
        proof {
            let pre = params@.subrange(0, i as int);
            let post = params@.subrange(0, i + 1);
            assert(post.drop_last() =~= pre);
            assert(out@ =~= header + params_bytes(post));
        }
    }
    assert(params@.subrange(0, params@.len() as int) =~= params@);
    push_str_bytes(&mut out, "</ns1766:");
    push_str_bytes(&mut out, action);
    push_str_bytes(&mut out, ">");
    push_str_bytes(&mut out, "</SOAP-ENV:Body></SOAP-ENV:Envelope>");
    assert(out@ =~= soap_envelope_bytes(action.spec_bytes(), namespace.spec_bytes(), params@));
    out
}

/// A parsed SOAP payload: the action, its namespace, and the parameters in
/// the exact order received — order is semantically significant for the
/// legacy receiver and is never re-sorted.
pub struct SoapRequestData {
    /// Target URL.
    pub url: String,
    /// SOAP action name.
    pub action: String,
    /// XML namespace of the action.
    pub namespace: String,
    /// Ordered parameter list.
    pub params: Vec<(String, SoapValue)>,
    /// Caller-supplied headers, in the order received.
    pub headers: Vec<(String, String)>,
    /// Advisory timeout in seconds.
    pub timeout: u64,
}

/// The outbound headers of a SOAP call: the caller's headers in order, then
/// the fixed legacy set — content type, empty SOAP action, identifying
/// agent — which, coming later, wins over any caller entry of the same name.
pub open spec fn soap_merged_headers(hs: Seq<(String, String)>) -> Seq<(Seq<char>, Seq<char>)> {
    crate::http::headers_view(hs).push(("content-type"@, "text/xml; charset=ISO-8859-1"@)).push(
        ("soapaction"@, "\"\""@),
    ).push(("user-agent"@, "NuSOAP/0.9.17 (1.123)"@))
}

/// Translates a SOAP payload into a concrete outbound request.
///
/// Succeeds exactly when every caller header fits the wire format. On
/// success the request is a POST to the payload's URL, the body is the
/// byte-exact envelope of the action, namespace and ordered parameters, and
/// the headers are the caller's followed by the fixed legacy set.
pub fn translate_soap_request(data: SoapRequestData) -> (r: Result<
    crate::http::OutboundRequest,
    crate::http::TranslateError,
>)
    ensures
        r is Ok <==> crate::http::headers_wire_valid(data.headers@),
        match r {
            Ok(o) => {
                &&& o.method == crate::http::HttpMethod::Post
                &&& o.url@ == encode_utf8(data.url@)
                &&& (match o.body {
                    Some(b) => b@ == soap_envelope_bytes(
                        encode_utf8(data.action@),
                        encode_utf8(data.namespace@),
                        data.params@,
                    ),
                    None => false,
                })
                &&& crate::http::headers_view(o.headers@) == soap_merged_headers(data.headers@)
            },
            Err(crate::http::TranslateError::InvalidHeaderName(k)) => exists|i: int|
                0 <= i < data.headers@.len() && k@ == (#[trigger] data.headers@[i]).0@
                    && !crate::http::valid_header_name(encode_utf8(data.headers@[i].0@)),
            Err(crate::http::TranslateError::InvalidHeaderValue(v)) => exists|i: int|
                0 <= i < data.headers@.len() && v@ == (#[trigger] data.headers@[i]).1@
                    && !crate::http::valid_header_value(encode_utf8(data.headers@[i].1@)),
        },
{
    if let Err(e) = crate::http::check_headers(&data.headers) {
        return Err(e);
    }
    let envelope = build_soap_envelope(data.action.as_str(), data.namespace.as_str(), &data.params);
    let mut url: Vec<u8> = Vec::new();
    push_str_bytes(&mut url, data.url.as_str());
    assert(url@ =~= encode_utf8(data.url@));
    let mut headers = data.headers;
    let ghost base = headers@;
    headers.push(("content-type".to_owned(), "text/xml; charset=ISO-8859-1".to_owned()));
    headers.push(("soapaction".to_owned(), "\"\"".to_owned()));
    headers.push(("user-agent".to_owned(), "NuSOAP/0.9.17 (1.123)".to_owned()));
    proof {
        assert(crate::http::headers_view(headers@) =~= soap_merged_headers(base));
    }
    Ok(
        crate::http::OutboundRequest {
            url,
            method: crate::http::HttpMethod::Post,
            headers,
            body: Some(envelope),
        },
    )
}

} // verus!
