//! ProtocolTranslator, HTTP pass-through variant: turns a parsed proxy
//! payload into a concrete outbound request. Parameters go into the query
//! string for query-style methods and into a JSON object body for all others;
//! caller headers are validated against the wire format and merged with the
//! default identifying header.

use vstd::prelude::*;
use vstd::string::StringExecFns;
use vstd::string::StringSliceAdditionalSpecFns;
use vstd::utf8::encode_utf8;

use crate::wire::{eq_ignore_case, lower_bytes, push_bytes, push_str_bytes};

verus! {

/// The seven supported HTTP methods.
#[derive(Clone, Copy, PartialEq, Eq, Structural, Debug)]
pub enum HttpMethod {
    /// GET.
    Get,
    /// POST — the default.
    Post,
    /// PUT.
    Put,
    /// DELETE.
    Delete,
    /// PATCH.
    Patch,
    /// HEAD.
    Head,
    /// OPTIONS.
    Options,
}

/// The method selected by a textual method name, case-insensitively; an
/// unknown name selects none.
pub open spec fn method_of(s: Seq<u8>) -> Option<HttpMethod> {
    let low = lower_bytes(s);
    if low == "get".spec_bytes() {
        Some(HttpMethod::Get)
    } else if low == "post".spec_bytes() {
        Some(HttpMethod::Post)
    } else if low == "put".spec_bytes() {
        Some(HttpMethod::Put)
    } else if low == "delete".spec_bytes() {
        Some(HttpMethod::Delete)
    } else if low == "patch".spec_bytes() {
        Some(HttpMethod::Patch)
    } else if low == "head".spec_bytes() {
        Some(HttpMethod::Head)
    } else if low == "options".spec_bytes() {
        Some(HttpMethod::Options)
    } else {
        None
    }
}

impl HttpMethod {
    /// Parses a method name, case-insensitively; anything other than the
    /// seven known names is rejected.
    pub fn parse(s: &str) -> (r: Option<HttpMethod>)
        ensures
            r == method_of(s.spec_bytes()),
    {
        let b = s.as_bytes();
        if eq_ignore_case(b, "get".as_bytes()) {
            Some(HttpMethod::Get)
        } else if eq_ignore_case(b, "post".as_bytes()) {
            Some(HttpMethod::Post)
        } else if eq_ignore_case(b, "put".as_bytes()) {
            Some(HttpMethod::Put)
        } else if eq_ignore_case(b, "delete".as_bytes()) {
            Some(HttpMethod::Delete)
        } else if eq_ignore_case(b, "patch".as_bytes()) {
            Some(HttpMethod::Patch)
        } else if eq_ignore_case(b, "head".as_bytes()) {
            Some(HttpMethod::Head)
        } else if eq_ignore_case(b, "options".as_bytes()) {
            Some(HttpMethod::Options)
        } else {
            None
        }
    }

    /// The canonical upper-case wire name of the method.
    pub fn name(&self) -> (r: &'static str)
        ensures
            r@ == method_name_chars(*self),
    {
        match self {
            HttpMethod::Get => "GET",
            HttpMethod::Post => "POST",
            HttpMethod::Put => "PUT",
            HttpMethod::Delete => "DELETE",
            HttpMethod::Patch => "PATCH",
            HttpMethod::Head => "HEAD",
            HttpMethod::Options => "OPTIONS",
        }
    }

    /// Whether this method carries parameters in the query string rather
    /// than in a body.
    pub fn places_params_in_query(&self) -> (r: bool)
        ensures
            r == spec_places_params_in_query(*self),
    {
        match self {
            HttpMethod::Get => true,
            HttpMethod::Head => true,
            HttpMethod::Delete => true,
            _ => false,
        }
    }
}

/// The canonical upper-case wire name of each method.
pub open spec fn method_name_chars(m: HttpMethod) -> Seq<char> {
    match m {
        HttpMethod::Get => "GET"@,
        HttpMethod::Post => "POST"@,
        HttpMethod::Put => "PUT"@,
        HttpMethod::Delete => "DELETE"@,
        HttpMethod::Patch => "PATCH"@,
        HttpMethod::Head => "HEAD"@,
        HttpMethod::Options => "OPTIONS"@,
    }
}

/// Query-style methods place parameters in the query string; every other
/// method places them in a JSON object body.
pub open spec fn spec_places_params_in_query(m: HttpMethod) -> bool {
    m == HttpMethod::Get || m == HttpMethod::Head || m == HttpMethod::Delete
}

/// The method used when the payload names none.
pub fn default_method() -> (r: HttpMethod)
    ensures
        r == HttpMethod::Post,
{
    HttpMethod::Post
}

/// The advisory timeout used when the payload names none. The value is
/// carried through the data model but not enforced by the router itself.
pub fn default_timeout() -> (r: u64)
    ensures
        r == 30,
{
    30
}

/// A parsed HTTP pass-through payload.
pub struct RequestData {
    /// Target URL.
    pub url: String,
    /// HTTP method.
    pub method: HttpMethod,
    /// Request parameters, in the order received.
    pub params: Vec<(String, String)>,
    /// Caller-supplied headers, in the order received.
    pub headers: Vec<(String, String)>,
    /// Advisory timeout in seconds.
    pub timeout: u64,
}

/// A concrete outbound request, ready to be forwarded.
pub struct OutboundRequest {
    /// Target URL bytes, query string included where applicable.
    pub url: Vec<u8>,
    /// HTTP method.
    pub method: HttpMethod,
    /// Headers to send, in order; a later entry wins over an earlier one of
    /// the same (case-insensitive) name.
    pub headers: Vec<(String, String)>,
    /// The body to send, if the method carries one.
    pub body: Option<Vec<u8>>,
}

/// A translation failure: a caller header that cannot be put on the wire.
#[derive(Debug)]
pub enum TranslateError {
    /// A header name holds a byte outside the header-name token set.
    InvalidHeaderName(String),
    /// A header value holds a control byte.
    InvalidHeaderValue(String),
}

impl TranslateError {
    /// A contextual message naming the offending header part.
    pub fn message(&self) -> (r: String)
        ensures
            match self {
                TranslateError::InvalidHeaderName(k) => r@ == "Invalid header name: "@ + k@,
                TranslateError::InvalidHeaderValue(v) => r@ == "Invalid header value: "@ + v@,
            },
    {
        match self {
            TranslateError::InvalidHeaderName(k) => {
                let mut m = "Invalid header name: ".to_owned();
                m.append(k.as_str());
                m
            },
            TranslateError::InvalidHeaderValue(v) => {
                let mut m = "Invalid header value: ".to_owned();
                m.append(v.as_str());
                m
            },
        }
    }
}

/// Is `b` in the header-name token set? Exactly the bytes the wire format
/// admits in a header name.
pub open spec fn valid_name_byte(b: u8) -> bool {
    b == 33 || (35 <= b <= 39) || b == 42 || b == 43 || b == 45 || b == 46 || (48 <= b <= 57) || (
    65 <= b <= 90) || (94 <= b <= 96) || (97 <= b <= 122) || b == 124 || b == 126
}

/// A valid header name: non-empty, all bytes in the token set.
pub open spec fn valid_header_name(s: Seq<u8>) -> bool {
    s.len() > 0 && forall|i: int| 0 <= i < s.len() ==> valid_name_byte(#[trigger] s[i])
}

/// Is `b` admissible in a header value? Tab and every byte that is not an
/// ASCII control byte.
pub open spec fn valid_value_byte(b: u8) -> bool {
    b == 9 || (b >= 32 && b != 127)
}

/// A valid header value: no control bytes other than tab.
pub open spec fn valid_header_value(s: Seq<u8>) -> bool {
    forall|i: int| 0 <= i < s.len() ==> valid_value_byte(#[trigger] s[i])
}

/// Checks a header name against the wire format.
pub fn is_valid_header_name(s: &str) -> (r: bool)
    ensures
        r == valid_header_name(s.spec_bytes()),
{
    let b = s.as_bytes();
    if b.len() == 0 {
        return false;
    }
    for i in 0..b.len()
        invariant
            b@ == s.spec_bytes(),
            b@.len() > 0,
            forall|j: int| 0 <= j < i ==> valid_name_byte(#[trigger] b@[j]),
    {
        let c = b[i];
        let ok = c == 33 || (35 <= c && c <= 39) || c == 42 || c == 43 || c == 45 || c == 46 || (48
            <= c && c <= 57) || (65 <= c && c <= 90) || (94 <= c && c <= 96) || (97 <= c && c
            <= 122) || c == 124 || c == 126;
        if !ok {
            assert(!valid_name_byte(s.spec_bytes()[i as int]));
            return false;
        }
    }
    true
}

/// Checks a header value against the wire format.
pub fn is_valid_header_value(s: &str) -> (r: bool)
    ensures
        r == valid_header_value(s.spec_bytes()),
{
    let b = s.as_bytes();
    for i in 0..b.len()
        invariant
            b@ == s.spec_bytes(),
            forall|j: int| 0 <= j < i ==> valid_value_byte(#[trigger] b@[j]),
    {
        let c = b[i];
        if !(c == 9 || (c >= 32 && c != 127)) {
            assert(!valid_value_byte(s.spec_bytes()[i as int]));
            return false;
        }
    }
    true
}

/// Every header of the list can be put on the wire.
pub open spec fn headers_wire_valid(hs: Seq<(String, String)>) -> bool {
    forall|i: int|
        0 <= i < hs.len() ==> valid_header_name(encode_utf8((#[trigger] hs[i]).0@))
            && valid_header_value(encode_utf8(hs[i].1@))
}

/// Checks every header of the list, names before values, in order; the first
/// offending part is reported.
pub fn check_headers(hs: &Vec<(String, String)>) -> (r: Result<(), TranslateError>)
    ensures
        r is Ok <==> headers_wire_valid(hs@),
        match r {
            Ok(_) => true,
            Err(TranslateError::InvalidHeaderName(k)) => exists|i: int|
                0 <= i < hs@.len() && k@ == (#[trigger] hs@[i]).0@ && !valid_header_name(
                    encode_utf8(hs@[i].0@),
                ),
            Err(TranslateError::InvalidHeaderValue(v)) => exists|i: int|
                0 <= i < hs@.len() && v@ == (#[trigger] hs@[i]).1@ && !valid_header_value(
                    encode_utf8(hs@[i].1@),
                ),
        },
{
    for i in 0..hs.len()
        invariant
            forall|j: int|
                0 <= j < i ==> valid_header_name(encode_utf8((#[trigger] hs@[j]).0@))
                    && valid_header_value(encode_utf8(hs@[j].1@)),
    {
        if !is_valid_header_name(hs[i].0.as_str()) {
            return Err(TranslateError::InvalidHeaderName(hs[i].0.clone()));
        }
        if !is_valid_header_value(hs[i].1.as_str()) {
            return Err(TranslateError::InvalidHeaderValue(hs[i].1.clone()));
        }
    }
    Ok(())
}

/// The view of a header list: each name and value as characters.
pub open spec fn headers_view(hs: Seq<(String, String)>) -> Seq<(Seq<char>, Seq<char>)> {
    hs.map_values(|p: (String, String)| (p.0@, p.1@))
}

/// Does the list carry a header of the given (lower-case) name,
/// case-insensitively?
pub open spec fn has_header_named(hs: Seq<(String, String)>, lower_name: Seq<u8>) -> bool {
    exists|i: int| 0 <= i < hs.len() && lower_bytes(encode_utf8((#[trigger] hs[i]).0@)) == lower_name
}

/// Tests whether the list carries a header of the given lower-case name.
fn contains_header(hs: &Vec<(String, String)>, lower_name: &str) -> (r: bool)
    ensures
        r == has_header_named(hs@, lower_name.spec_bytes()),
{
    for i in 0..hs.len()
        invariant
            forall|j: int|
                0 <= j < i ==> lower_bytes(encode_utf8((#[trigger] hs@[j]).0@))
                    != lower_name.spec_bytes(),
    {
        if eq_ignore_case(hs[i].0.as_str().as_bytes(), lower_name.as_bytes()) {
            return true;
        }
    }
    false
}

/// An upper-case hexadecimal digit.
pub open spec fn hex_upper(n: u8) -> u8 {
    if n < 10 {
        (48 + n) as u8
    } else {
        (55 + n) as u8
    }
}

/// A lower-case hexadecimal digit.
pub open spec fn hex_lower(n: u8) -> u8 {
    if n < 10 {
        (48 + n) as u8
    } else {
        (87 + n) as u8
    }
}

/// Form-urlencoding of one byte: alphanumerics and `*-._` unchanged, space
/// as `+`, anything else percent-encoded with upper-case hex.
pub open spec fn form_encoded_byte(b: u8) -> Seq<u8> {
    if b == 42 || b == 45 || b == 46 || (48 <= b <= 57) || (65 <= b <= 90) || b == 95 || (97 <= b
        <= 122) {
        seq![b]
    } else if b == 32 {
        "+".spec_bytes()
    } else {
        seq![37u8, hex_upper(b / 16), hex_upper(b % 16)]
    }
}

/// Form-urlencoding of a byte sequence.
pub open spec fn form_encoded(s: Seq<u8>) -> Seq<u8>
    decreases s.len(),
{
    if s.len() == 0 {
        Seq::empty()
    } else {
        form_encoded(s.drop_last()) + form_encoded_byte(s.last())
    }
}

/// One encoded query pair: `key=value`.
pub open spec fn query_pair(p: (String, String)) -> Seq<u8> {
    form_encoded(encode_utf8(p.0@)) + "=".spec_bytes() + form_encoded(encode_utf8(p.1@))
}

/// The encoded query string of a parameter list: pairs in input order,
/// joined with `&`.
pub open spec fn query_string(ps: Seq<(String, String)>) -> Seq<u8>
    decreases ps.len(),
{
    if ps.len() == 0 {
        Seq::empty()
    } else if ps.len() == 1 {
        query_pair(ps[0])
    } else {
        query_string(ps.drop_last()) + "&".spec_bytes() + query_pair(ps.last())
    }
}

/// Appends the form-urlencoding of `s`.
fn push_form_encoded(out: &mut Vec<u8>, s: &str)
    ensures
        final(out)@ == old(out)@ + form_encoded(s.spec_bytes()),
{
    let b = s.as_bytes();
    let ghost orig = out@;
    assert(b@.subrange(0, 0) =~= Seq::<u8>::empty());
    for i in 0..b.len()
        invariant
            out@ == orig + form_encoded(b@.subrange(0, i as int)),
    {
        let c = b[i];
        if c == 42 || c == 45 || c == 46 || (48 <= c && c <= 57) || (65 <= c && c <= 90) || c == 95
            || (97 <= c && c <= 122) {
            out.push(c);
            assert(out@ =~= orig + form_encoded(b@.subrange(0, i as int)) + form_encoded_byte(c));
        } else if c == 32 {
            push_str_bytes(out, "+");
        } else {
            out.push(37);
            let hi = c / 16;
            let lo = c % 16;
            out.push(if hi < 10 {
                48 + hi
            } else {
                55 + hi
            });
            out.push(if lo < 10 {
                48 + lo
            } else {
                55 + lo
            });
            assert(out@ =~= orig + form_encoded(b@.subrange(0, i as int)) + form_encoded_byte(c));
        }
        proof {
            let pre = b@.subrange(0, i as int);
            let post = b@.subrange(0, i + 1);
            assert(post.drop_last() =~= pre);
            assert(post.last() == c);
        }
    }
    assert(b@.subrange(0, b@.len() as int) =~= b@);
}

/// Appends the encoded query string of `ps`.
fn push_query_string(out: &mut Vec<u8>, ps: &Vec<(String, String)>)
    ensures
        final(out)@ == old(out)@ + query_string(ps@),
{
    let ghost orig = out@;
    for i in 0..ps.len()
        invariant
            out@ == orig + query_string(ps@.subrange(0, i as int)),
    {
        if i > 0 {
            push_str_bytes(out, "&");
        }
        push_form_encoded(out, ps[i].0.as_str());
        push_str_bytes(out, "=");
        push_form_encoded(out, ps[i].1.as_str());
        proof {
            let pre = ps@.subrange(0, i as int);
            let post = ps@.subrange(0, i + 1);
            assert(post.drop_last() =~= pre);
            assert(post.last() == ps@[i as int]);
            if i == 0 {
                assert(out@ =~= orig + query_string(post));
            } else {
                assert(out@ =~= orig + query_string(post));
            }
        }
    }
    assert(ps@.subrange(0, ps@.len() as int) =~= ps@);
}

/// JSON string escaping of one byte: quote and backslash escaped, the five
/// short control escapes, other control bytes as `\u00..` with lower-case
/// hex, everything else unchanged.
pub open spec fn json_escaped_byte(b: u8) -> Seq<u8> {
    if b == 34 {
        "\\\"".spec_bytes()
    } else if b == 92 {
        "\\\\".spec_bytes()
    } else if b == 8 {
        "\\b".spec_bytes()
    } else if b == 9 {
        "\\t".spec_bytes()
    } else if b == 10 {
        "\\n".spec_bytes()
    } else if b == 12 {
        "\\f".spec_bytes()
    } else if b == 13 {
        "\\r".spec_bytes()
    } else if b < 32 {
        "\\u00".spec_bytes() + seq![hex_lower(b / 16), hex_lower(b % 16)]
    } else {
        seq![b]
    }
}

/// JSON string escaping of a byte sequence.
pub open spec fn json_escaped(s: Seq<u8>) -> Seq<u8>
    decreases s.len(),
{
    if s.len() == 0 {
        Seq::empty()
    } else {
        json_escaped(s.drop_last()) + json_escaped_byte(s.last())
    }
}

/// A JSON string literal: the escaped bytes between quotes.
pub open spec fn json_string(s: Seq<u8>) -> Seq<u8> {
    "\"".spec_bytes() + json_escaped(s) + "\"".spec_bytes()
}

/// One JSON object member: `"key":"value"`.
pub open spec fn json_member(p: (String, String)) -> Seq<u8> {
    json_string(encode_utf8(p.0@)) + ":".spec_bytes() + json_string(encode_utf8(p.1@))
}

/// The members of the JSON object carrying a parameter list, in input
/// order, joined with commas.
pub open spec fn json_members(ps: Seq<(String, String)>) -> Seq<u8>
    decreases ps.len(),
{
    if ps.len() == 0 {
        Seq::empty()
    } else if ps.len() == 1 {
        json_member(ps[0])
    } else {
        json_members(ps.drop_last()) + ",".spec_bytes() + json_member(ps.last())
    }
}

/// The JSON object carrying a parameter list: its members between braces.
pub open spec fn json_object(ps: Seq<(String, String)>) -> Seq<u8> {
    "{".spec_bytes() + json_members(ps) + "}".spec_bytes()
}

/// Appends the JSON escaping of `s`.
fn push_json_escaped(out: &mut Vec<u8>, s: &str)
    ensures
        final(out)@ == old(out)@ + json_escaped(s.spec_bytes()),
{
    let b = s.as_bytes();
    let ghost orig = out@;
    assert(b@.subrange(0, 0) =~= Seq::<u8>::empty());
    for i in 0..b.len()
        invariant
            out@ == orig + json_escaped(b@.subrange(0, i as int)),
    {
        let c = b[i];
        if c == 34 {
            push_str_bytes(out, "\\\"");
        } else if c == 92 {
            push_str_bytes(out, "\\\\");
        } else if c == 8 {
            push_str_bytes(out, "\\b");
        } else if c == 9 {
            push_str_bytes(out, "\\t");
        } else if c == 10 {
            push_str_bytes(out, "\\n");
        } else if c == 12 {
            push_str_bytes(out, "\\f");
        } else if c == 13 {
            push_str_bytes(out, "\\r");
        } else if c < 32 {
            push_str_bytes(out, "\\u00");
            let hi = c / 16;
            let lo = c % 16;
            out.push(if hi < 10 {
                48 + hi
            } else {
                87 + hi
            });
            out.push(if lo < 10 {
                48 + lo
            } else {
                87 + lo
            });
            assert(out@ =~= orig + json_escaped(b@.subrange(0, i as int)) + json_escaped_byte(c));
        } else {
            out.push(c);
            assert(out@ =~= orig + json_escaped(b@.subrange(0, i as int)) + json_escaped_byte(c));
        }
        proof {
            let pre = b@.subrange(0, i as int);
            let post = b@.subrange(0, i + 1);
            assert(post.drop_last() =~= pre);
            assert(post.last() == c);
        }
    }
    assert(b@.subrange(0, b@.len() as int) =~= b@);
}

/// Builds the JSON object body carrying a parameter list.
#[verifier::rlimit(50)]
pub fn build_json_object(ps: &Vec<(String, String)>) -> (r: Vec<u8>)
    ensures
        r@ == json_object(ps@),
{
    let mut out: Vec<u8> = Vec::new();
    push_str_bytes(&mut out, "{");
    let ghost orig = out@;
    assert(ps@.subrange(0, 0) =~= Seq::<(String, String)>::empty());
    for i in 0..ps.len()
        invariant
            out@ == orig + json_members(ps@.subrange(0, i as int)),
    {
        if i > 0 {
            push_str_bytes(&mut out, ",");
        }
        push_str_bytes(&mut out, "\"");
        push_json_escaped(&mut out, ps[i].0.as_str());
        push_str_bytes(&mut out, "\"");
        push_str_bytes(&mut out, ":");
        push_str_bytes(&mut out, "\"");
        push_json_escaped(&mut out, ps[i].1.as_str());
        push_str_bytes(&mut out, "\"");
        proof {
            let pre = ps@.subrange(0, i as int);
            let post = ps@.subrange(0, i + 1);
            assert(post.drop_last() =~= pre);
            assert(post.last() == ps@[i as int]);
            let p = ps@[i as int];
            assert(json_member(p) =~= "\"".spec_bytes() + json_escaped(encode_utf8(p.0@))
                + "\"".spec_bytes() + ":".spec_bytes() + "\"".spec_bytes() + json_escaped(
                encode_utf8(p.1@),
            ) + "\"".spec_bytes());
            assert(out@ =~= orig + json_members(post));
        }
    }
    push_str_bytes(&mut out, "}");
    proof {
        assert(ps@.subrange(0, ps@.len() as int) =~= ps@);
        assert(out@ =~= json_object(ps@));
    }
    out
}

/// Does the URL already carry a query marker?
pub open spec fn contains_qmark(u: Seq<u8>) -> bool {
    exists|i: int| 0 <= i < u.len() && u[i] == 63
}

/// The separator that appends a query string to the URL: `&` if the URL
/// already has a query part, `?` otherwise.
pub open spec fn query_sep(u: Seq<u8>) -> Seq<u8> {
    if contains_qmark(u) {
        "&".spec_bytes()
    } else {
        "?".spec_bytes()
    }
}

/// The outbound URL: for query-style methods with parameters, the URL with
/// the encoded query string appended; otherwise the URL unchanged.
pub open spec fn translated_url(url: Seq<u8>, m: HttpMethod, ps: Seq<(String, String)>) -> Seq<
    u8,
> {
    if spec_places_params_in_query(m) && ps.len() > 0 {
        url + query_sep(url) + query_string(ps)
    } else {
        url
    }
}

/// The merged outbound headers: the caller's headers in order, then the
/// default identifying header if the caller set none, then — when a JSON
/// body is sent — the JSON content type if the caller set none.
pub open spec fn merged_headers(hs: Seq<(String, String)>, json_body: bool) -> Seq<
    (Seq<char>, Seq<char>),
> {
    let base = headers_view(hs);
    let with_ua = if has_header_named(hs, "user-agent".spec_bytes()) {
        base
    } else {
        base.push(("user-agent"@, "ApiProxy/1.0"@))
    };
    if json_body && !has_header_named(hs, "content-type".spec_bytes()) {
        with_ua.push(("content-type"@, "application/json"@))
    } else {
        with_ua
    }
}

/// Translates an HTTP pass-through payload into a concrete outbound request.
///
/// Succeeds exactly when every caller header fits the wire format. On
/// success: the method is kept; query-style methods carry the parameters in
/// the query string and no body, all other methods carry them as a JSON
/// object body; the caller's headers are kept in order and the default
/// identifying header and JSON content type are appended only if absent.
pub fn translate_request(data: RequestData) -> (r: Result<OutboundRequest, TranslateError>)
    ensures
        r is Ok <==> headers_wire_valid(data.headers@),
        match r {
            Ok(o) => {
                &&& o.method == data.method
                &&& o.url@ == translated_url(encode_utf8(data.url@), data.method, data.params@)
                &&& (match o.body {
                    Some(b) => !spec_places_params_in_query(data.method) && b@ == json_object(
                        data.params@,
                    ),
                    None => spec_places_params_in_query(data.method),
                })
                &&& headers_view(o.headers@) == merged_headers(
                    data.headers@,
                    !spec_places_params_in_query(data.method),
                )
            },
            Err(TranslateError::InvalidHeaderName(k)) => exists|i: int|
                0 <= i < data.headers@.len() && k@ == (#[trigger] data.headers@[i]).0@
                    && !valid_header_name(encode_utf8(data.headers@[i].0@)),
            Err(TranslateError::InvalidHeaderValue(v)) => exists|i: int|
                0 <= i < data.headers@.len() && v@ == (#[trigger] data.headers@[i]).1@
                    && !valid_header_value(encode_utf8(data.headers@[i].1@)),
        },
{
    if let Err(e) = check_headers(&data.headers) {
        return Err(e);
    }
    let places_in_query = data.method.places_params_in_query();
    let url_str = data.url.as_str();
    let mut url: Vec<u8> = Vec::new();
    push_str_bytes(&mut url, url_str);
    assert(url@ =~= encode_utf8(data.url@));
    let body: Option<Vec<u8>>;
    if places_in_query {
        if data.params.len() > 0 {
            let ghost base = url@;
            let has_q = contains_byte(url_str, 63);
            proof {
                assert(base == url_str.spec_bytes());
                if has_q {
                    let i = choose|i: int|
                        0 <= i < url_str.spec_bytes().len() && url_str.spec_bytes()[i] == 63;
                    assert(base[i] == 63);
                } else {
                    if contains_qmark(base) {
                        let i = choose|i: int| 0 <= i < base.len() && base[i] == 63;
                        assert(url_str.spec_bytes()[i] == 63);
                    }
                }
            }
            assert(has_q == contains_qmark(base));
            if has_q {
                push_str_bytes(&mut url, "&");
            } else {
                push_str_bytes(&mut url, "?");
            }
            assert(url@ == base + query_sep(base));
            push_query_string(&mut url, &data.params);
            assert(url@ =~= base + query_sep(base) + query_string(data.params@));
        }
        body = None;
    } else {
        body = Some(build_json_object(&data.params));
    }
    let has_ua = contains_header(&data.headers, "user-agent");
    let has_ct = contains_header(&data.headers, "content-type");
    let mut headers = data.headers;
    let ghost base = headers@;
    if !has_ua {
        headers.push(("user-agent".to_owned(), "ApiProxy/1.0".to_owned()));
    }
    if !places_in_query && !has_ct {
        headers.push(("content-type".to_owned(), "application/json".to_owned()));
    }
    proof {
        assert(headers_view(headers@) =~= merged_headers(
            base,
            !spec_places_params_in_query(data.method),
        ));
    }
    Ok(
        OutboundRequest {
            url,
            method: data.method,
            headers,
            body,
        },
    )
}

/// Does the UTF-8 form of `s` contain the byte `b`?
fn contains_byte(s: &str, b: u8) -> (r: bool)
    ensures
        r == exists|i: int| 0 <= i < s.spec_bytes().len() && s.spec_bytes()[i] == b,
{
    let v = s.as_bytes();
    for i in 0..v.len()
        invariant
            v@ == s.spec_bytes(),
            forall|j: int| 0 <= j < i ==> v@[j] != b,
    {
        if v[i] == b {
            assert(s.spec_bytes()[i as int] == b);
            return true;
        }
    }
    false
}

} // verus!
