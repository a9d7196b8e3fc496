//! RequestClassifier: derives the target region, the request kind (SOAP or
//! generic HTTP) and the logging level from request headers. Region and kind
//! matching is ASCII-case-insensitive; every unknown value falls back to a
//! fixed default, so classification is a total function of the headers.

use vstd::prelude::*;
use vstd::string::StringSliceAdditionalSpecFns;

use crate::wire::{eq_ignore_case, lower_bytes};

verus! {

/// The eight symbolic regions a request can be pinned to.
#[derive(Clone, Copy, PartialEq, Eq, Structural, Debug)]
pub enum RegionCode {
    /// Western North America — the default region.
    Wnam,
    /// Eastern North America.
    Enam,
    /// Western Europe (EU jurisdiction).
    Weur,
    /// Eastern Europe (EU jurisdiction).
    Eeur,
    /// Asia-Pacific.
    Apac,
    /// Oceania.
    Oc,
    /// Africa.
    Af,
    /// Middle East.
    Me,
}

/// The region selected by a region-header value: the matching code,
/// case-insensitively, or the default for anything else.
pub open spec fn region_of_header(h: Seq<u8>) -> RegionCode {
    let low = lower_bytes(h);
    if low == "wnam".spec_bytes() {
        RegionCode::Wnam
    } else if low == "enam".spec_bytes() {
        RegionCode::Enam
    } else if low == "weur".spec_bytes() {
        RegionCode::Weur
    } else if low == "eeur".spec_bytes() {
        RegionCode::Eeur
    } else if low == "apac".spec_bytes() {
        RegionCode::Apac
    } else if low == "oc".spec_bytes() {
        RegionCode::Oc
    } else if low == "af".spec_bytes() {
        RegionCode::Af
    } else if low == "me".spec_bytes() {
        RegionCode::Me
    } else {
        RegionCode::Wnam
    }
}

/// The region for a request: the region header's match when the header is
/// present, the default region when it is absent.
pub open spec fn region_of_request(h: Option<Seq<u8>>) -> RegionCode {
    match h {
        Some(v) => region_of_header(v),
        None => RegionCode::Wnam,
    }
}

/// Maps the optional region header to the target region.
pub fn classify_region(header: Option<&str>) -> (r: RegionCode)
    ensures
        r == region_of_request(match header {
            Some(h) => Some(h.spec_bytes()),
            None => None,
        }),
{
    match header {
        None => RegionCode::Wnam,
        Some(h) => {
            let b = h.as_bytes();
            if eq_ignore_case(b, "wnam".as_bytes()) {
                RegionCode::Wnam
            } else if eq_ignore_case(b, "enam".as_bytes()) {
                RegionCode::Enam
            } else if eq_ignore_case(b, "weur".as_bytes()) {
                RegionCode::Weur
            } else if eq_ignore_case(b, "eeur".as_bytes()) {
                RegionCode::Eeur
            } else if eq_ignore_case(b, "apac".as_bytes()) {
                RegionCode::Apac
            } else if eq_ignore_case(b, "oc".as_bytes()) {
                RegionCode::Oc
            } else if eq_ignore_case(b, "af".as_bytes()) {
                RegionCode::Af
            } else if eq_ignore_case(b, "me".as_bytes()) {
                RegionCode::Me
            } else {
                RegionCode::Wnam
            }
        },
    }
}

impl RegionCode {
    /// Whether the region lies in EU jurisdiction.
    pub open spec fn spec_is_eu(self) -> bool {
        self == RegionCode::Weur || self == RegionCode::Eeur
    }

    /// Whether the region lies in EU jurisdiction; exactly the two European
    /// regions carry the EU flag.
    pub fn is_eu(self) -> (r: bool)
        ensures
            r == self.spec_is_eu(),
    {
        match self {
            RegionCode::Weur => true,
            RegionCode::Eeur => true,
            _ => false,
        }
    }
}

/// Does a request-kind header select the SOAP protocol? Only the SOAP
/// marker, case-insensitively; anything else means generic HTTP.
pub open spec fn is_soap_kind(h: Seq<u8>) -> bool {
    lower_bytes(h) == "soap".spec_bytes()
}

/// Classifies the request-kind header: true exactly for the SOAP marker.
pub fn is_soap_request(header: &str) -> (r: bool)
    ensures
        r == is_soap_kind(header.spec_bytes()),
{
    eq_ignore_case(header.as_bytes(), "soap".as_bytes())
}

/// Logging severity selected by the caller.
#[derive(Clone, Copy, PartialEq, Eq, Structural, Debug)]
pub enum LogLevel {
    /// The default level.
    Info,
    /// Verbose level, selected by the debug marker.
    Debug,
}

/// The level selected by a log-level header value: debug exactly for the
/// debug marker, case-insensitively; info for everything else.
pub open spec fn log_level_of(h: Seq<u8>) -> LogLevel {
    if lower_bytes(h) == "debug".spec_bytes() {
        LogLevel::Debug
    } else {
        LogLevel::Info
    }
}

impl LogLevel {
    /// Parses a log-level header value.
    pub fn from_header(value: &str) -> (r: LogLevel)
        ensures
            r == log_level_of(value.spec_bytes()),
    {
        if eq_ignore_case(value.as_bytes(), "debug".as_bytes()) {
            LogLevel::Debug
        } else {
            LogLevel::Info
        }
    }

    /// Whether debug-severity events should be emitted.
    pub fn should_log_debug(&self) -> (r: bool)
        ensures
            r == (*self == LogLevel::Debug),
    {
        match self {
            LogLevel::Debug => true,
            LogLevel::Info => false,
        }
    }

    /// The header value that reproduces this level when forwarded.
    pub fn header_value(&self) -> (r: &'static str)
        ensures
            *self == LogLevel::Debug ==> r@ == "debug"@,
            *self == LogLevel::Info ==> r@ == "info"@,
    {
        match self {
            LogLevel::Debug => "debug",
            LogLevel::Info => "info",
        }
    }
}

/// The canonical (lower-case) header spelling of each region code.
pub open spec fn region_header_bytes(c: RegionCode) -> Seq<u8> {
    match c {
        RegionCode::Wnam => "wnam".spec_bytes(),
        RegionCode::Enam => "enam".spec_bytes(),
        RegionCode::Weur => "weur".spec_bytes(),
        RegionCode::Eeur => "eeur".spec_bytes(),
        RegionCode::Apac => "apac".spec_bytes(),
        RegionCode::Oc => "oc".spec_bytes(),
        RegionCode::Af => "af".spec_bytes(),
        RegionCode::Me => "me".spec_bytes(),
    }
}

/// Establishes that the eight region spellings are pairwise distinct byte
/// sequences.
proof fn region_spellings_distinct()
    ensures
        region_header_bytes(RegionCode::Wnam) == "wnam".spec_bytes(),
        region_header_bytes(RegionCode::Enam) == "enam".spec_bytes(),
        region_header_bytes(RegionCode::Weur) == "weur".spec_bytes(),
        region_header_bytes(RegionCode::Eeur) == "eeur".spec_bytes(),
        region_header_bytes(RegionCode::Apac) == "apac".spec_bytes(),
        region_header_bytes(RegionCode::Oc) == "oc".spec_bytes(),
        region_header_bytes(RegionCode::Af) == "af".spec_bytes(),
        region_header_bytes(RegionCode::Me) == "me".spec_bytes(),
        forall|c1: RegionCode, c2: RegionCode|
            c1 != c2 ==> #[trigger] region_header_bytes(c1) != #[trigger] region_header_bytes(c2),
{
    reveal_strlit("wnam");
    reveal_strlit("enam");
    reveal_strlit("weur");
    reveal_strlit("eeur");
    reveal_strlit("apac");
    reveal_strlit("oc");
    reveal_strlit("af");
    reveal_strlit("me");
    crate::wire::str_bytes_differ_at("enam", "wnam", 0);
    crate::wire::str_bytes_differ_at("weur", "wnam", 1);
    crate::wire::str_bytes_differ_at("weur", "enam", 0);
    crate::wire::str_bytes_differ_at("eeur", "wnam", 0);
    crate::wire::str_bytes_differ_at("eeur", "enam", 1);
    crate::wire::str_bytes_differ_at("eeur", "weur", 0);
    crate::wire::str_bytes_differ_at("apac", "wnam", 0);
    crate::wire::str_bytes_differ_at("apac", "enam", 0);
    crate::wire::str_bytes_differ_at("apac", "weur", 0);
    crate::wire::str_bytes_differ_at("apac", "eeur", 0);
    crate::wire::str_bytes_differ_len("oc", "wnam");
    crate::wire::str_bytes_differ_len("oc", "enam");
    crate::wire::str_bytes_differ_len("oc", "weur");
    crate::wire::str_bytes_differ_len("oc", "eeur");
    crate::wire::str_bytes_differ_len("oc", "apac");
    crate::wire::str_bytes_differ_len("af", "wnam");
    crate::wire::str_bytes_differ_len("af", "enam");
    crate::wire::str_bytes_differ_len("af", "weur");
    crate::wire::str_bytes_differ_len("af", "eeur");
    crate::wire::str_bytes_differ_len("af", "apac");
    crate::wire::str_bytes_differ_at("af", "oc", 0);
    crate::wire::str_bytes_differ_len("me", "wnam");
    crate::wire::str_bytes_differ_len("me", "enam");
    crate::wire::str_bytes_differ_len("me", "weur");
    crate::wire::str_bytes_differ_len("me", "eeur");
    crate::wire::str_bytes_differ_len("me", "apac");
    crate::wire::str_bytes_differ_at("me", "oc", 0);
    crate::wire::str_bytes_differ_at("me", "af", 0);
    assert forall|c1: RegionCode, c2: RegionCode| c1 != c2 implies #[trigger] region_header_bytes(
        c1,
    ) != #[trigger] region_header_bytes(c2) by {
        match c1 {
            RegionCode::Wnam => {},
            RegionCode::Enam => {},
            RegionCode::Weur => {},
            RegionCode::Eeur => {},
            RegionCode::Apac => {},
            RegionCode::Oc => {},
            RegionCode::Af => {},
            RegionCode::Me => {},
        }
        match c2 {
            RegionCode::Wnam => {},
            RegionCode::Enam => {},
            RegionCode::Weur => {},
            RegionCode::Eeur => {},
            RegionCode::Apac => {},
            RegionCode::Oc => {},
            RegionCode::Af => {},
            RegionCode::Me => {},
        }
    }
}

/// Region mapping law: a header value that equals one of the eight known
/// codes, case-insensitively, classifies to exactly that region, and a value
/// equal to none of them classifies to the default region.
pub proof fn region_mapping_law(h: Seq<u8>, c: RegionCode)
    ensures
        lower_bytes(h) == region_header_bytes(c) ==> region_of_header(h) == c,
        (forall|c2: RegionCode| lower_bytes(h) != #[trigger] region_header_bytes(c2))
            ==> region_of_header(h) == RegionCode::Wnam,
{
    region_spellings_distinct();
    if lower_bytes(h) == region_header_bytes(c) {
        match c {
            RegionCode::Wnam => {},
            RegionCode::Enam => {},
            RegionCode::Weur => {},
            RegionCode::Eeur => {},
            RegionCode::Apac => {},
            RegionCode::Oc => {},
            RegionCode::Af => {},
            RegionCode::Me => {},
        }
    }
}

} // verus!
