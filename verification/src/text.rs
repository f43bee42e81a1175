//! Small executable string utilities with exact view-level contracts.
//!
//! Device identifiers, serial-port names and manifest fields all arrive as
//! `String` values; the classification and filtering rules of the library are
//! prefix tests and case folds over those values, so they are implemented
//! here once, against `Seq<char>` views.
use vstd::prelude::*;

verus! {

/// Relies on `String::push` from std: appends the given character to the
/// end of the string.
pub assume_specification[ String::push ](s: &mut String, ch: char)
    ensures
        final(s)@ == old(s)@.push(ch),
;

/// `p` is a prefix of `s`.
pub open spec fn seq_starts_with(s: Seq<char>, p: Seq<char>) -> bool {
    p.len() <= s.len() && s.subrange(0, p.len() as int) == p
}

/// ASCII-only lower-casing of one character: `'A'..='Z'` map to
/// `'a'..='z'`, everything else is unchanged.
pub open spec fn spec_ascii_lower_char(c: char) -> char {
    if 'A' <= c && c <= 'Z' {
        ((c as u8) + 32) as char
    } else {
        c
    }
}

/// ASCII-only lower-casing of a character sequence.
pub open spec fn spec_ascii_lower(s: Seq<char>) -> Seq<char> {
    s.map_values(|c: char| spec_ascii_lower_char(c))
}

/// Exact executable prefix test: does `s` start with `p`?
pub fn str_starts_with(s: &str, p: &str) -> (r: bool)
    ensures
        r == seq_starts_with(s@, p@),
{
    let s_len = s.unicode_len();
    let p_len = p.unicode_len();
    if p_len > s_len {
        assert(!seq_starts_with(s@, p@));
        return false;
    }
    let mut i: usize = 0;
    while i < p_len
        invariant
            i <= p_len,
            p_len <= s_len,
            s_len == s@.len(),
            p_len == p@.len(),
            forall|j: int| 0 <= j < i ==> s@[j] == p@[j],
        decreases p_len - i,
    {
        if s.get_char(i) != p.get_char(i) {
            assert(s@.subrange(0, p@.len() as int)[i as int] != p@[i as int]);
            return false;
        }
        i = i + 1;
    }
    assert(s@.subrange(0, p@.len() as int) =~= p@);
    true
}

/// ASCII-only lower-casing of one character, as the spec says.
pub fn ascii_lower_char(c: char) -> (r: char)
    ensures
        r == spec_ascii_lower_char(c),
{
    if 'A' <= c && c <= 'Z' {
        let b: u8 = c as u8;
        assert(b < 128) by {
            assert('A' <= c && c <= 'Z');
        };
        ((b + 32) as char)
    } else {
        c
    }
}

/// ASCII-only lower-casing of a string.
pub fn ascii_lower(s: &str) -> (r: String)
    ensures
        r@ == spec_ascii_lower(s@),
{
    let len = s.unicode_len();
    let mut out = String::new();
    let mut i: usize = 0;
    while i < len
        invariant
            i <= len,
            len == s@.len(),
            out@ =~= spec_ascii_lower(s@.subrange(0, i as int)),
        decreases len - i,
    {
        let c = ascii_lower_char(s.get_char(i));
        out.push(c);
        assert(out@ =~= spec_ascii_lower(s@.subrange(0, i + 1 as int))) by {
            assert(s@.subrange(0, i + 1 as int) =~= s@.subrange(0, i as int).push(s@[i as int]));
            assert(spec_ascii_lower(s@.subrange(0, i as int).push(s@[i as int])) =~= spec_ascii_lower(
                s@.subrange(0, i as int),
            ).push(spec_ascii_lower_char(s@[i as int])));
        };
        i = i + 1;
    }
    assert(s@.subrange(0, len as int) =~= s@);
    out
}

/// What lossy UTF-8 decoding returns for a byte sequence: a function of
/// the bytes alone, with every invalid sequence replaced.
pub uninterp spec fn utf8_lossy_of(bytes: Seq<u8>) -> Seq<char>;

/// Decode raw output bytes as text, with invalid byte sequences replaced:
/// this never fails, whatever the bytes hold.
///
/// Relies on `String::from_utf8_lossy` from std: the decoding depends on
/// the bytes alone, and an empty input decodes to an empty string.
#[verifier::external_body]
pub fn decode(data: Vec<u8>) -> (r: String)
    ensures
        r@ == utf8_lossy_of(data@),
        data@.len() == 0 ==> r@.len() == 0,
{
    String::from_utf8_lossy(&data).to_string()
}

/// Exact executable equality of two string views.
pub fn str_eq(a: &str, b: &str) -> (r: bool)
    ensures
        r == (a@ == b@),
{
    let a_len = a.unicode_len();
    let b_len = b.unicode_len();
    if a_len != b_len {
        return false;
    }
    let mut i: usize = 0;
    while i < a_len
        invariant
            i <= a_len,
            a_len == a@.len(),
            a_len == b@.len(),
            forall|j: int| 0 <= j < i ==> a@[j] == b@[j],
        decreases a_len - i,
    {
        if a.get_char(i) != b.get_char(i) {
            return false;
        }
        i = i + 1;
    }
    assert(a@ =~= b@);
    true
}

} // verus!
