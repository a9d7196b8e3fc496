//! Byte-level helpers shared by the router: comparisons, ASCII case folding,
//! and appending to byte buffers. All wire formats in this crate are specified
//! over `Seq<u8>`, the UTF-8 bytes of the strings involved.

use vstd::prelude::*;
use vstd::string::StringSliceAdditionalSpecFns;

verus! {

/// ASCII lower-casing of one byte; other bytes are untouched.
pub open spec fn lower_byte(b: u8) -> u8 {
    if 65 <= b <= 90 {
        (b + 32) as u8
    } else {
        b
    }
}

/// ASCII lower-casing of a byte sequence.
pub open spec fn lower_bytes(s: Seq<u8>) -> Seq<u8> {
    s.map_values(|b: u8| lower_byte(b))
}

/// Does `h` consist of exactly `p` followed by `t`?
pub fn is_concat_of(h: &[u8], p: &[u8], t: &[u8]) -> (r: bool)
    ensures
        r == (h@ == p@ + t@),
{
    if h.len() < p.len() {
        assert(h@ != p@ + t@) by {
            assert((p@ + t@).len() == p@.len() + t@.len());
        }
        return false;
    }
    if h.len() - p.len() != t.len() {
        assert(h@ != p@ + t@) by {
            assert((p@ + t@).len() == p@.len() + t@.len());
        }
        return false;
    }
    for i in 0..p.len()
        invariant
            h@.len() == p@.len() + t@.len(),
            forall|j: int| 0 <= j < i ==> h@[j] == p@[j],
    {
        if h[i] != p[i] {
            assert(h@ != p@ + t@) by {
                assert((p@ + t@)[i as int] == p@[i as int]);
            }
            return false;
        }
    }
    let off = p.len();
    for i in off..h.len()
        invariant
            h@.len() == p@.len() + t@.len(),
            off == p@.len(),
            off <= i <= h@.len(),
            forall|j: int| 0 <= j < p@.len() ==> h@[j] == p@[j],
            forall|j: int| off <= j < i ==> h@[j] == t@[j - off],
    {
        if h[i] != t[i - off] {
            assert(h@ != p@ + t@) by {
                assert((p@ + t@)[i as int] == t@[i - off]);
            }
            return false;
        }
    }
    assert(h@ =~= p@ + t@);
    true
}

/// Case-insensitive comparison of `s` against an already-lower-case pattern.
pub fn eq_ignore_case(s: &[u8], lower_pat: &[u8]) -> (r: bool)
    ensures
        r == (lower_bytes(s@) == lower_pat@),
{
    if s.len() != lower_pat.len() {
        assert(lower_bytes(s@) != lower_pat@) by {
            assert(lower_bytes(s@).len() == s@.len());
        }
        return false;
    }
    for i in 0..s.len()
        invariant
            s@.len() == lower_pat@.len(),
            forall|j: int| 0 <= j < i ==> lower_byte(s@[j]) == lower_pat@[j],
    {
        let c = s[i];
        let low = if 65 <= c && c <= 90 {
            c + 32
        } else {
            c
        };
        assert(low == lower_byte(s@[i as int]));
        if low != lower_pat[i] {
            assert(lower_bytes(s@) != lower_pat@) by {
                assert(lower_bytes(s@)[i as int] == lower_byte(s@[i as int]));
            }
            return false;
        }
    }
    assert(lower_bytes(s@) =~= lower_pat@);
    true
}

/// For an ASCII string, the UTF-8 bytes are the characters themselves, one
/// byte per character.
pub proof fn ascii_str_bytes(s: &str)
    requires
        vstd::utf8::is_ascii_chars(s@),
    ensures
        s.spec_bytes().len() == s@.len(),
        forall|i: int| 0 <= i < s@.len() ==> s.spec_bytes()[i] == s@[i] as u8,
{
    vstd::utf8::is_ascii_chars_encode_utf8(s@);
}

/// UTF-8 encoding is injective: strings with different characters have
/// different bytes.
pub proof fn str_bytes_injective(a: &str, b: &str)
    requires
        a@ != b@,
    ensures
        a.spec_bytes() != b.spec_bytes(),
{
    vstd::utf8::encode_utf8_decode_utf8(a@);
    vstd::utf8::encode_utf8_decode_utf8(b@);
}

/// Two strings that differ in some character differ in their bytes.
pub proof fn str_bytes_differ_at(a: &str, b: &str, i: int)
    requires
        0 <= i < a@.len(),
        0 <= i < b@.len(),
        a@[i] != b@[i],
    ensures
        a.spec_bytes() != b.spec_bytes(),
{
    assert(a@ != b@);
    str_bytes_injective(a, b);
}

/// Two strings of different character length differ in their bytes.
pub proof fn str_bytes_differ_len(a: &str, b: &str)
    requires
        a@.len() != b@.len(),
    ensures
        a.spec_bytes() != b.spec_bytes(),
{
    assert(a@ != b@);
    str_bytes_injective(a, b);
}

/// Appends all of `s` to `out`.
pub fn push_bytes(out: &mut Vec<u8>, s: &[u8])
    ensures
        final(out)@ == old(out)@ + s@,
{
    let ghost orig = out@;
    for i in 0..s.len()
        invariant
            out@ == orig + s@.subrange(0, i as int),
    {
        out.push(s[i]);
        assert(orig + s@.subrange(0, i as int) + seq![s@[i as int]] =~= orig + s@.subrange(
            0,
            i + 1,
        ));
    }
    assert(orig + s@.subrange(0, s@.len() as int) =~= orig + s@);
}

/// Appends the UTF-8 bytes of `s` to `out`.
pub fn push_str_bytes(out: &mut Vec<u8>, s: &str)
    ensures
        final(out)@ == old(out)@ + s.spec_bytes(),
{
    push_bytes(out, s.as_bytes());
}

} // verus!
