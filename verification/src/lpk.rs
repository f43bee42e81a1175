//! Validation of a firmware package's manifest.
//!
//! A package is an archive holding a manifest and one image file per
//! partition. Unpacking the archive and deserializing the manifest are the
//! host's work; verified here are the rules the manifest must pass — the
//! supported-chip check, the image-address syntax, the digest comparison —
//! and the record each accepted image becomes.
use vstd::prelude::*;

use crate::error::{Error, ErrorModel};
use crate::file::TmpFile;
use crate::text::{seq_starts_with, spec_ascii_lower, str_starts_with};

verus! {

/// One partition to flash: its start address and the unpacked image file.
#[derive(Debug)]
pub struct Partition {
    pub addr: u32,
    pub file: TmpFile,
}

/// One image entry of the manifest, as plain values: the address text, the
/// path inside the package, and the expected digest.
#[derive(Debug)]
pub struct Image {
    pub addr: String,
    pub file: String,
    pub md5: String,
}

/// The value of one character as a digit, or a negative marker when it is
/// no digit of the radix.
pub open spec fn spec_digit_val(c: char, radix: int) -> int {
    let d = if '0' <= c && c <= '9' {
        c as int - '0' as int
    } else if 'a' <= c && c <= 'z' {
        c as int - 'a' as int + 10
    } else if 'A' <= c && c <= 'Z' {
        c as int - 'A' as int + 10
    } else {
        -1
    };
    if 0 <= d && d < radix {
        d
    } else {
        -1
    }
}

/// Every character is a digit of the radix.
pub open spec fn spec_all_digits(s: Seq<char>, radix: int) -> bool {
    forall|i: int| 0 <= i < s.len() ==> spec_digit_val(#[trigger] s[i], radix) >= 0
}

/// The number a digit string denotes in the radix.
pub open spec fn spec_radix_val(s: Seq<char>, radix: int) -> int
    decreases s.len(),
{
    if s.len() == 0 {
        0
    } else {
        spec_radix_val(s.drop_last(), radix) * radix + spec_digit_val(s.last(), radix)
    }
}

/// A single leading plus sign is accepted and ignored.
pub open spec fn spec_strip_sign(s: Seq<char>) -> Seq<char> {
    if s.len() > 0 && s[0] == '+' {
        s.drop_first()
    } else {
        s
    }
}

/// Exactly what parsing an unsigned number accepts: after an optional
/// plus sign, at least one digit of the radix and nothing else, denoting a
/// value that fits.
pub open spec fn spec_parse_u32(s: Seq<char>, radix: int) -> Option<int> {
    let t = spec_strip_sign(s);
    if t.len() > 0 && spec_all_digits(t, radix) && spec_radix_val(t, radix) <= u32::MAX {
        Some(spec_radix_val(t, radix))
    } else {
        None
    }
}

/// A digit string's value is never negative.
proof fn lemma_radix_val_nonneg(s: Seq<char>, radix: int)
    requires
        radix >= 2,
        spec_all_digits(s, radix),
    ensures
        spec_radix_val(s, radix) >= 0,
    decreases s.len(),
{
    if s.len() > 0 {
        assert(spec_all_digits(s.drop_last(), radix));
        lemma_radix_val_nonneg(s.drop_last(), radix);
        let v = spec_radix_val(s.drop_last(), radix);
        assert(v * radix >= 0) by (nonlinear_arith)
            requires
                v >= 0,
                radix >= 2,
        ;
    }
}

/// Extending a digit string never shrinks its value: the value of any
/// prefix bounds the whole from below.
proof fn lemma_radix_val_prefix_le(s: Seq<char>, radix: int, k: int)
    requires
        radix >= 2,
        spec_all_digits(s, radix),
        0 <= k <= s.len(),
    ensures
        spec_radix_val(s.subrange(0, k), radix) <= spec_radix_val(s, radix),
    decreases s.len() - k,
{
    if k == s.len() {
        assert(s.subrange(0, k) =~= s);
    } else {
        let next = s.subrange(0, k + 1);
        assert(next.drop_last() =~= s.subrange(0, k));
        assert(next.last() == s[k]);
        assert(spec_all_digits(next, radix));
        let v = spec_radix_val(s.subrange(0, k), radix);
        assert(spec_all_digits(s.subrange(0, k), radix));
        lemma_radix_val_nonneg(s.subrange(0, k), radix);
        assert(v * radix >= v) by (nonlinear_arith)
            requires
                v >= 0,
                radix >= 2,
        ;
        lemma_radix_val_prefix_le(s, radix, k + 1);
    }
}

/// The value of one character as a digit of the radix, when it is one.
fn digit_val(c: char, radix: u32) -> (r: Option<u32>)
    requires
        radix == 10 || radix == 16,
    ensures
        match r {
            Some(d) => spec_digit_val(c, radix as int) == d && d < radix,
            None => spec_digit_val(c, radix as int) == -1,
        },
{
    let code = c as u32;
    let d: u32 = if c >= '0' && c <= '9' {
        code - 48
    } else if c >= 'a' && c <= 'z' {
        code - 97 + 10
    } else if c >= 'A' && c <= 'Z' {
        code - 65 + 10
    } else {
        return None;
    };
    if d < radix {
        Some(d)
    } else {
        None
    }
}

/// Parse an unsigned number in the radix: exactly the accepted strings,
/// exactly their value.
fn parse_u32_radix(s: &str, radix: u32) -> (r: Option<u32>)
    requires
        radix == 10 || radix == 16,
    ensures
        match r {
            Some(v) => spec_parse_u32(s@, radix as int) == Some(v as int),
            None => spec_parse_u32(s@, radix as int) is None,
        },
{
    let len = s.unicode_len();
    let start: usize = if len > 0 && s.get_char(0) == '+' {
        1
    } else {
        0
    };
    let ghost t = spec_strip_sign(s@);
    proof {
        assert(t =~= s@.subrange(start as int, len as int));
    }
    if start == len {
        return None;
    }
    let mut acc: u64 = 0;
    let mut i: usize = start;
    proof {
        assert(t.subrange(0, 0) =~= Seq::<char>::empty());
    }
    while i < len
        invariant
            start <= i <= len,
            len == s@.len(),
            radix == 10 || radix == 16,
            t == s@.subrange(start as int, len as int),
            t == spec_strip_sign(s@),
            acc <= u32::MAX,
            spec_all_digits(t.subrange(0, i - start), radix as int),
            acc == spec_radix_val(t.subrange(0, i - start), radix as int),
        decreases len - i,
    {
        let c = s.get_char(i);
        proof {
            assert(t[i - start] == s@[i as int]);
        }
        let ghost prefix = t.subrange(0, i - start);
        let ghost next = t.subrange(0, i + 1 - start);
        proof {
            assert(next.drop_last() =~= prefix);
            assert(next.last() == t[i - start]);
        }
        match digit_val(c, radix) {
            Some(d) => {
                proof {
                    assert(acc * (radix as u64) <= 0xFFFF_FFFFu64 * 16) by (nonlinear_arith)
                        requires
                            acc <= 0xFFFF_FFFFu64,
                            radix == 10 || radix == 16,
                    ;
                }
                acc = acc * (radix as u64) + (d as u64);
                proof {
                    assert(spec_all_digits(next, radix as int));
                }
                if acc > 0xFFFF_FFFFu64 {
                    proof {
                        assert(acc == spec_radix_val(next, radix as int));
                        if spec_all_digits(t, radix as int) {
                            lemma_radix_val_prefix_le(t, radix as int, i + 1 - start);
                            assert(spec_radix_val(t, radix as int) > u32::MAX);
                        }
                        assert(spec_parse_u32(s@, radix as int) is None);
                    }
                    return None;
                }
            },
            None => {
                proof {
                    assert(spec_digit_val(t[i - start], radix as int) == -1);
                    assert(!spec_all_digits(t, radix as int));
                    assert(spec_parse_u32(s@, radix as int) is None);
                }
                return None;
            },
        }
        i = i + 1;
    }
    proof {
        assert(t.subrange(0, len - start) =~= t);
    }
    Some(acc as u32)
}

/// The lowercase hexadecimal digest of a byte sequence: a function of the
/// bytes alone.
pub uninterp spec fn md5_hex_of(bytes: Seq<u8>) -> Seq<char>;

/// The digest of an image's bytes, as the manifest states it.
///
/// Relies on `md5::compute` and its digest's lowercase-hex formatting:
/// sixteen bytes, two lowercase hexadecimal digits each, a function of the
/// input bytes alone.
#[verifier::external_body]
pub fn md5(content: &Vec<u8>) -> (r: String)
    ensures
        r@ == md5_hex_of(content@),
        r@.len() == 32,
{
    format!("{:x}", md5::compute(content.as_slice()))
}

/// The supported-chip rule: the chip name, letters folded to lower case,
/// starts with the supported family's prefix.
pub open spec fn spec_chip_supported(chip: Seq<char>) -> bool {
    seq_starts_with(spec_ascii_lower(chip), "csk6"@)
}

/// Whether the manifest's chip is of the supported family.
pub fn chip_supported(chip: &str) -> (r: bool)
    ensures
        r == spec_chip_supported(chip@),
{
    let lower = crate::text::ascii_lower(chip);
    str_starts_with(lower.as_str(), "csk6")
}

/// Whether an image's expected digest, folded to lower case, is exactly
/// the computed digest.
pub fn image_digest_matches(expected: &str, digest: &str) -> (r: bool)
    ensures
        r == (spec_ascii_lower(expected@) == digest@),
{
    let lower = crate::text::ascii_lower(expected);
    crate::text::str_eq(lower.as_str(), digest)
}

/// The manifest-level rules: the chip must be supported and at least one
/// image must be listed, in that order of complaint.
pub fn validate_manifest(chip: &str, image_count: usize) -> (r: Result<(), Error>)
    ensures
        r is Ok <==> (spec_chip_supported(chip@) && image_count > 0),
        !spec_chip_supported(chip@) ==> (r matches Err(e) && e@ == (ErrorModel::InvalidLpk {
            message: "Chip unsupported"@,
        })),
        spec_chip_supported(chip@) && image_count == 0 ==> (r matches Err(e) && e@
            == (ErrorModel::InvalidLpk { message: "No images found"@ })),
{
    if !chip_supported(chip) {
        let message = <String as vstd::string::StringExecFns>::from_str("Chip unsupported");
        return Err(Error::InvalidLpk { message });
    }
    if image_count == 0 {
        let message = <String as vstd::string::StringExecFns>::from_str("No images found");
        return Err(Error::InvalidLpk { message });
    }
    Ok(())
}

/// The address an image entry declares, or the validation error naming the
/// offending text.
pub fn image_addr(image: &Image) -> (r: Result<u32, Error>)
    ensures
        match r {
            Ok(v) => spec_parse_addr(image.addr@) == Some(v as int),
            Err(e) => spec_parse_addr(image.addr@) is None && e@ == (ErrorModel::InvalidLpk {
                message: "Invalid address \""@ + image.addr@ + "\""@,
            }),
        },
{
    match parse_addr(image.addr.as_str()) {
        Some(v) => Ok(v),
        None => {
            let mut message = <String as vstd::string::StringExecFns>::from_str(
                "Invalid address \"",
            );
            message.append(image.addr.as_str());
            message.append("\"");
            Err(Error::InvalidLpk { message })
        },
    }
}

/// Compare an image's expected digest with the digest computed from its
/// unpacked bytes; a mismatch is the validation error naming the file.
pub fn check_image_digest(image: &Image, digest: &str) -> (r: Result<(), Error>)
    ensures
        r is Ok <==> spec_ascii_lower(image.md5@) == digest@,
        r matches Err(e) ==> e@ == (ErrorModel::InvalidLpk {
            message: "MD5 mismatch for "@ + image.file@,
        }),
{
    if image_digest_matches(image.md5.as_str(), digest) {
        Ok(())
    } else {
        let mut message = <String as vstd::string::StringExecFns>::from_str("MD5 mismatch for ");
        message.append(image.file.as_str());
        Err(Error::InvalidLpk { message })
    }
}

/// The archive path an image entry's `file` field denotes: the field with
/// its two-character leading `./` stripped, as the package writes it.
pub fn image_entry_path(file: &str) -> (r: String)
    requires
        file@.len() >= 2,
    ensures
        r@ == file@.skip(2),
{
    let len = file.unicode_len();
    let rest = file.substring_char(2, len);
    proof {
        assert(rest@ =~= file@.skip(2));
    }
    <String as vstd::string::StringExecFns>::from_str(rest)
}

/// The address an image entry's text denotes: hexadecimal after a `0x`
/// prefix — with no fallback when the hexadecimal digits are bad —
/// otherwise decimal.
pub open spec fn spec_parse_addr(s: Seq<char>) -> Option<int> {
    if seq_starts_with(s, "0x"@) {
        spec_parse_u32(s.skip(2), 16)
    } else {
        spec_parse_u32(s, 10)
    }
}

/// Parse an image entry's address text.
pub fn parse_addr(addr: &str) -> (r: Option<u32>)
    ensures
        match r {
            Some(v) => spec_parse_addr(addr@) == Some(v as int),
            None => spec_parse_addr(addr@) is None,
        },
{
    if str_starts_with(addr, "0x") {
        let len = addr.unicode_len();
        proof {
            reveal_strlit("0x");
        }
        let rest = addr.substring_char(2, len);
        proof {
            assert(rest@ =~= addr@.skip(2));
        }
        parse_u32_radix(rest, 16)
    } else {
        parse_u32_radix(addr, 10)
    }
}

} // verus!
