//! Parsing of the datacenter trace format: newline-separated `key=value`
//! lines, from which the first non-empty `colo=` value names the datacenter
//! the code is executing in.

use vstd::prelude::*;
use vstd::string::StringSliceAdditionalSpecFns;

verus! {

/// ASCII whitespace, as trimmed around a trace value.
pub open spec fn is_ws(b: u8) -> bool {
    b == 32 || (9 <= b <= 13)
}

/// The index of the first newline byte, or the length if there is none.
pub open spec fn newline_idx(s: Seq<u8>) -> int
    decreases s.len(),
{
    if s.len() == 0 {
        0
    } else if s[0] == 10 {
        0
    } else {
        1 + newline_idx(s.drop_first())
    }
}

/// The first newline is exactly where the bytes say it is.
proof fn newline_idx_char(s: Seq<u8>, m: int)
    requires
        0 <= m <= s.len(),
        forall|k: int| 0 <= k < m ==> s[k] != 10,
        m < s.len() ==> s[m] == 10,
    ensures
        newline_idx(s) == m,
    decreases m,
{
    if s.len() == 0 {
    } else if m == 0 {
    } else {
        newline_idx_char(s.drop_first(), m - 1);
    }
}

/// The bytes with leading whitespace removed.
pub open spec fn trim_start_bytes(s: Seq<u8>) -> Seq<u8>
    decreases s.len(),
{
    if s.len() > 0 && is_ws(s[0]) {
        trim_start_bytes(s.drop_first())
    } else {
        s
    }
}

/// The bytes with trailing whitespace removed.
pub open spec fn trim_end_bytes(s: Seq<u8>) -> Seq<u8>
    decreases s.len(),
{
    if s.len() > 0 && is_ws(s.last()) {
        trim_end_bytes(s.drop_last())
    } else {
        s
    }
}

/// The bytes with whitespace removed at both ends.
pub open spec fn trim_bytes(s: Seq<u8>) -> Seq<u8> {
    trim_end_bytes(trim_start_bytes(s))
}

/// Leading whitespace ends exactly where the bytes say it does.
proof fn trim_start_char(s: Seq<u8>, m: int)
    requires
        0 <= m <= s.len(),
        forall|k: int| 0 <= k < m ==> is_ws(#[trigger] s[k]),
        m < s.len() ==> !is_ws(s[m]),
    ensures
        trim_start_bytes(s) =~= s.subrange(m, s.len() as int),
    decreases m,
{
    if m == 0 {
        assert(s.subrange(0, s.len() as int) =~= s);
    } else {
        trim_start_char(s.drop_first(), m - 1);
        assert(s.drop_first().subrange(m - 1, s.drop_first().len() as int) =~= s.subrange(
            m,
            s.len() as int,
        ));
    }
}

/// Trailing whitespace starts exactly where the bytes say it does.
proof fn trim_end_char(s: Seq<u8>, m: int)
    requires
        0 <= m <= s.len(),
        forall|k: int| m <= k < s.len() ==> is_ws(#[trigger] s[k]),
        m > 0 ==> !is_ws(s[m - 1]),
    ensures
        trim_end_bytes(s) =~= s.subrange(0, m),
    decreases s.len(),
{
    if s.len() > 0 && is_ws(s.last()) {
        trim_end_char(s.drop_last(), m);
        assert(s.drop_last().subrange(0, m) =~= s.subrange(0, m));
    } else {
        assert(s.subrange(0, s.len() as int) =~= s);
    }
}

/// The `colo` value carried by one trace line: the trimmed remainder of a
/// line opening with the colo key, when that remainder is non-empty.
pub open spec fn colo_of_line(line: Seq<u8>) -> Option<Seq<u8>> {
    if line.len() >= 5 && line.subrange(0, 5) == "colo=".spec_bytes() {
        let v = trim_bytes(line.subrange(5, line.len() as int));
        if v.len() > 0 {
            Some(v)
        } else {
            None
        }
    } else {
        None
    }
}

/// The datacenter named by a trace: the value of the first line that carries
/// a non-empty `colo=` value, if any line does.
pub open spec fn colo_of_trace(s: Seq<u8>) -> Option<Seq<u8>>
    decreases s.len(),
{
    let n = newline_idx(s);
    let line = s.subrange(0, n);
    if colo_of_line(line) is Some {
        colo_of_line(line)
    } else if 0 <= n && n < s.len() {
        colo_of_trace(s.subrange(n + 1, s.len() as int))
    } else {
        None
    }
}

/// Is `c` ASCII whitespace?
fn ws_byte(c: u8) -> (r: bool)
    ensures
        r == is_ws(c),
{
    c == 32 || (9 <= c && c <= 13)
}

/// Scans one line starting at `pos`: returns the index of its terminating
/// newline, or the length if it is the last line.
fn find_newline(b: &[u8], pos: usize) -> (j: usize)
    requires
        pos <= b@.len(),
    ensures
        pos <= j <= b@.len(),
        forall|k: int| pos <= k < j ==> b@[k] != 10,
        j < b@.len() ==> b@[j as int] == 10,
{
    let mut j = pos;
    while j < b.len() && b[j] != 10
        invariant
            pos <= j <= b@.len(),
            forall|k: int| pos <= k < j ==> b@[k] != 10,
        decreases b@.len() - j,
    {
        j += 1;
    }
    j
}

/// Parses a trace text: the first non-empty `colo=` value, trimmed, or
/// nothing when no line carries one.
pub fn parse_colo_trace(text: &str) -> (r: Option<Vec<u8>>)
    ensures
        match r {
            Some(v) => colo_of_trace(text.spec_bytes()) == Some(v@),
            None => colo_of_trace(text.spec_bytes()) is None,
        },
{
    let b = text.as_bytes();
    let mut pos: usize = 0;
    assert(b@.subrange(0, b@.len() as int) =~= b@);
    loop
        invariant
            b@ == text.spec_bytes(),
            pos <= b@.len(),
            colo_of_trace(b@) == colo_of_trace(b@.subrange(pos as int, b@.len() as int)),
        decreases b@.len() - pos,
    {
        let ghost suffix = b@.subrange(pos as int, b@.len() as int);
        let j = find_newline(b, pos);
        proof {
            newline_idx_char(suffix, j - pos);
            assert(suffix.subrange(0, j - pos) =~= b@.subrange(pos as int, j as int));
        }
        let ghost line = b@.subrange(pos as int, j as int);
        // Does the line open with the colo key?
        let key = "colo=".as_bytes();
        proof {
            reveal_strlit("colo=");
            assert(vstd::utf8::is_ascii_chars("colo="@)) by {
                assert forall|i: int|
                    0 <= i < "colo="@.len() implies '\0' <= #[trigger] "colo="@[i]
                    <= '\u{7f}' by {
                    if i == 0 {
                    } else if i == 1 {
                    } else if i == 2 {
                    } else if i == 3 {
                    } else {
                        assert(i == 4);
                    }
                }
            }
            crate::wire::ascii_str_bytes("colo=");
            assert(key@.len() == 5);
        }
        let has_key = if j - pos >= 5 {
            let mut eq = true;
            for t in 0..5usize
                invariant
                    pos + 5 <= j <= b@.len(),
                    key@ == "colo=".spec_bytes(),
                    key@.len() == 5,
                    eq == (forall|k: int| 0 <= k < t ==> b@[pos + k] == key@[k]),
            {
                if b[pos + t] != key[t] {
                    eq = false;
                }
            }
            proof {
                if eq {
                    assert(line.subrange(0, 5) =~= "colo=".spec_bytes());
                } else {
                    assert(line.subrange(0, 5) != "colo=".spec_bytes()) by {
                        let k = choose|k: int| 0 <= k < 5 && b@[pos + k] != key@[k];
                        assert(line.subrange(0, 5)[k] == b@[pos + k]);
                    }
                }
            }
            eq
        } else {
            proof {
                assert(line.len() < 5);
            }
            false
        };
        if has_key {
            let ghost v = line.subrange(5, line.len() as int);
            // Trim the value.
            let mut ts = pos + 5;
            while ts < j && ws_byte(b[ts])
                invariant
                    pos + 5 <= ts <= j <= b@.len(),
                    forall|k: int| pos + 5 <= k < ts ==> is_ws(#[trigger] b@[k]),
                decreases j - ts,
            {
                ts += 1;
            }
            let mut te = j;
            while te > ts && ws_byte(b[te - 1])
                invariant
                    ts <= te <= j,
                    pos + 5 <= ts,
                    j <= b@.len(),
                    forall|k: int| te <= k < j ==> is_ws(#[trigger] b@[k]),
                decreases te,
            {
                te -= 1;
            }
            proof {
                trim_start_char(v, ts - (pos + 5));
                let w = v.subrange(ts - (pos + 5), v.len() as int);
                assert(w =~= b@.subrange(ts as int, j as int));
                trim_end_char(w, te - ts);
                assert(w.subrange(0, te - ts) =~= b@.subrange(ts as int, te as int));
                assert(trim_bytes(v) =~= b@.subrange(ts as int, te as int));
            }
            if te > ts {
                let mut out: Vec<u8> = Vec::new();
                for k in ts..te
                    invariant
                        ts <= k <= te <= b@.len(),
                        out@ == b@.subrange(ts as int, k as int),
                {
                    out.push(b[k]);
                    assert(out@ =~= b@.subrange(ts as int, k + 1));
                }
                proof {
                    assert(colo_of_line(line) == Some(b@.subrange(ts as int, te as int)));
                }
                return Some(out);
            }
            proof {
                assert(colo_of_line(line) is None);
            }
        } else {
            proof {
                assert(colo_of_line(line) is None);
            }
        }
        if j == b.len() {
            proof {
                assert(colo_of_trace(suffix) is None);
            }
            return None;
        }
        proof {
            assert(suffix.subrange(j - pos + 1, suffix.len() as int) =~= b@.subrange(
                j + 1,
                b@.len() as int,
            ));
        }
        pos = j + 1;
    }
}

} // verus!
