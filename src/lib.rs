//! Decoders for the binary telemetry that environmental sensor beacons
//! broadcast, and for the advertisement frames that carry it.
//!
//! A payload starts with a format identifier byte; [`RuuviData::decode`]
//! picks the decoder of that format. [`decode`] does the same for a hex
//! string, and [`extract_ruuvi_from_ble`] finds the payload inside a whole
//! advertisement.

pub mod e1;
pub mod error;
pub mod fields;
pub mod ruuvi_data;
pub mod text;
pub mod v5;
pub mod v6;

pub use error::DecodeError;
pub use ruuvi_data::{DataFormat, RuuviData};

use vstd::prelude::*;
use vstd::string::StringSliceAdditionalSpecFns;
use vstd::utf8::encode_utf8;

use ruuvi_data::decode_post;
use text::{
    chars_of, decimal, push_char, push_decimal, to_uppercase, trim_white_space, trimmed,
    uppercase_of,
};

verus! {

/// An ASCII hex digit byte, either case.
pub open spec fn is_hex_byte(c: u8) -> bool {
    ||| 48 <= c <= 57
    ||| 65 <= c <= 70
    ||| 97 <= c <= 102
}

/// The value of a hex digit byte.
pub open spec fn hex_byte_value(c: u8) -> int {
    if c <= 57 {
        c - 48
    } else if c <= 70 {
        c - 55
    } else {
        c - 87
    }
}

/// Every byte of `b` is a hex digit.
pub open spec fn all_hex_bytes(b: Seq<u8>) -> bool {
    forall|i: int| 0 <= i < b.len() ==> is_hex_byte(#[trigger] b[i])
}

/// The bytes that pairs of hex digits stand for, the high digit first.
pub open spec fn hex_pairs(b: Seq<u8>) -> Seq<u8> {
    Seq::new(
        b.len() / 2,
        |i: int| (hex_byte_value(b[2 * i]) * 16 + hex_byte_value(b[2 * i + 1])) as u8,
    )
}

#[verifier::external_type_specification]
#[verifier::external_body]
pub struct ExFromHexError(hex::FromHexError);

/// Relies on hex::decode: an even number of hex digits (either case) gives
/// one byte per pair, the first digit high; anything else is an error.
#[verifier::external_body]
fn decode_hex_digits(s: &str) -> (r: Result<Vec<u8>, hex::FromHexError>)
    ensures
        match r {
            Ok(v) => s.spec_bytes().len() % 2 == 0 && all_hex_bytes(s.spec_bytes()) && v@
                == hex_pairs(s.spec_bytes()),
            Err(_) => !(s.spec_bytes().len() % 2 == 0 && all_hex_bytes(s.spec_bytes())),
        },
{
    hex::decode(s)
}

/// The outcome of [`hex_to_bytes`] on a string whose UTF-8 encoding is `b`
/// and whose characters are `text`.
pub open spec fn hex_to_bytes_post(b: Seq<u8>, text: Seq<char>, r: Result<Vec<u8>, DecodeError>) -> bool {
    if b.len() % 2 != 0 {
        r matches Err(DecodeError::InvalidHex(m)) && m@ == "Odd number of hex characters: "@
            + decimal(b.len())
    } else if all_hex_bytes(b) {
        r matches Ok(v) && v@ == hex_pairs(b)
    } else {
        r matches Err(DecodeError::InvalidHex(m)) && m@ == text
    }
}

/// Converts a hex string (either case, no prefix or separators) to bytes.
pub fn hex_to_bytes(hex_str: &str) -> (r: Result<Vec<u8>, DecodeError>)
    ensures
        hex_to_bytes_post(hex_str.spec_bytes(), hex_str@, r),
{
    let n = hex_str.as_bytes().len();
    if n % 2 != 0 {
        let mut m = String::from_str("Odd number of hex characters: ");
        push_decimal(&mut m, n);
        return Err(DecodeError::InvalidHex(m));
    }
    match decode_hex_digits(hex_str) {
        Ok(v) => Ok(v),
        Err(_) => Err(DecodeError::InvalidHex(String::from_str(hex_str))),
    }
}

/// `s` with every leading `"0x"` removed.
pub open spec fn strip_hex_prefix(s: Seq<char>) -> Seq<char>
    decreases s.len(),
{
    if s.len() >= 2 && s[0] == '0' && s[1] == 'x' {
        strip_hex_prefix(s.subrange(2, s.len() as int))
    } else {
        s
    }
}

/// `s` with every space removed.
pub open spec fn without_spaces(s: Seq<char>) -> Seq<char>
    decreases s.len(),
{
    if s.len() == 0 {
        s
    } else if s.last() == ' ' {
        without_spaces(s.drop_last())
    } else {
        without_spaces(s.drop_last()).push(s.last())
    }
}

/// The hex digits that [`decode`] reads from its input: white space trimmed,
/// leading `"0x"` removed, then every space removed.
pub open spec fn cleaned_hex(s: Seq<char>) -> Seq<char> {
    without_spaces(strip_hex_prefix(trimmed(s)))
}

/// Decodes a payload given as a hex string: it may be surrounded by white
/// space, start with `"0x"` and hold spaces.
pub fn decode(hex_data: &str) -> (r: Result<RuuviData, DecodeError>)
    ensures
        ({
            let clean = cleaned_hex(hex_data@);
            let b = encode_utf8(clean);
            if b.len() % 2 != 0 {
                r matches Err(DecodeError::InvalidHex(m)) && m@ == "Odd number of hex characters: "@
                    + decimal(b.len())
            } else if all_hex_bytes(b) {
                decode_post(hex_pairs(b), r)
            } else {
                r matches Err(DecodeError::InvalidHex(m)) && m@ == clean
            }
        }),
{
    let chars = chars_of(trim_white_space(hex_data));
    let n = chars.len();
    let mut start: usize = 0;
    assert(chars@.subrange(0, n as int) =~= chars@);
    while n - start >= 2 && chars[start] == '0' && chars[start + 1] == 'x'
        invariant
            chars@.len() == n,
            start <= n,
            strip_hex_prefix(chars@) == strip_hex_prefix(chars@.subrange(start as int, n as int)),
        decreases n - start,
    {
        proof {
            assert(chars@.subrange(start as int, n as int).subrange(2, n - start) =~= chars@.subrange(
                start + 2,
                n as int,
            ));
        }
        start = start + 2;
    }
    let ghost rest = chars@.subrange(start as int, n as int);
    let mut clean = String::new();
    let mut i: usize = start;
    while i < n
        invariant
            chars@.len() == n,
            start <= i <= n,
            rest == chars@.subrange(start as int, n as int),
            clean@ == without_spaces(chars@.subrange(start as int, i as int)),
        decreases n - i,
    {
        if chars[i] != ' ' {
            push_char(&mut clean, chars[i]);
        }
        proof {
            assert(chars@.subrange(start as int, i + 1).drop_last() =~= chars@.subrange(
                start as int,
                i as int,
            ));
        }
        i = i + 1;
    }
    proof {
        assert(rest =~= chars@.subrange(start as int, i as int));
    }
    let bytes = hex_to_bytes(clean.as_str())?;
    RuuviData::decode(bytes.as_slice())
}

/// An ASCII hex digit character, either case.
pub open spec fn is_hex_char(c: char) -> bool {
    ||| '0' <= c <= '9'
    ||| 'A' <= c <= 'F'
    ||| 'a' <= c <= 'f'
}

/// `s` begins with one of the two byte orders of the manufacturer
/// identifier: `"9904"` or `"0499"`.
pub open spec fn starts_with_marker(s: Seq<char>) -> bool {
    s.len() >= 4 && (s.take(4) == seq!['9', '9', '0', '4'] || s.take(4) == seq!['0', '4', '9', '9'])
}

/// The payload that an upper-cased advertisement carries: only an
/// advertisement of hex digits that begins with the marker carries one, and
/// it is everything after the marker.
pub open spec fn payload_of(s: Seq<char>) -> Option<Seq<char>> {
    if (forall|i: int| 0 <= i < s.len() ==> is_hex_char(#[trigger] s[i])) && starts_with_marker(s) {
        Some(s.skip(4))
    } else {
        None
    }
}

/// Finds the payload in an advertisement that has already been trimmed and
/// upper-cased.
pub fn extract_payload(clean: &str) -> (r: Option<String>)
    ensures
        match r {
            Some(p) => payload_of(clean@) == Some(p@),
            None => payload_of(clean@) is None,
        },
{
    let chars = chars_of(clean);
    let n = chars.len();
    for i in 0..n
        invariant
            chars@ == clean@,
            n == chars@.len(),
            forall|j: int| 0 <= j < i ==> is_hex_char(#[trigger] chars@[j]),
    {
        let c = chars[i];
        if !(('0' <= c && c <= '9') || ('A' <= c && c <= 'F') || ('a' <= c && c <= 'f')) {
            return None;
        }
    }
    if n < 4 {
        return None;
    }
    let nine_first = chars[0] == '9' && chars[1] == '9' && chars[2] == '0' && chars[3] == '4';
    let zero_first = chars[0] == '0' && chars[1] == '4' && chars[2] == '9' && chars[3] == '9';
    proof {
        assert(nine_first <==> chars@.take(4) =~= seq!['9', '9', '0', '4']);
        assert(zero_first <==> chars@.take(4) =~= seq!['0', '4', '9', '9']);
    }
    if nine_first || zero_first {
        let mut p = String::new();
        for i in 4..n
            invariant
                chars@ == clean@,
                n == chars@.len(),
                p@ == chars@.subrange(4, i as int),
        {
            push_char(&mut p, chars[i]);
            proof {
                assert(chars@.subrange(4, i + 1) =~= chars@.subrange(4, i as int).push(chars@[i as int]));
            }
        }
        proof {
            assert(chars@.subrange(4, n as int) =~= chars@.skip(4));
        }
        Some(p)
    } else {
        None
    }
}

/// Extracts the payload hex from a whole advertisement hex string. The
/// advertisement is trimmed and upper-cased first; see [`payload_of`].
pub fn extract_ruuvi_from_ble(ble_data: &str) -> (r: Option<String>)
    ensures
        match r {
            Some(p) => payload_of(uppercase_of(trimmed(ble_data@))) == Some(p@),
            None => payload_of(uppercase_of(trimmed(ble_data@))) is None,
        },
{
    let clean = to_uppercase(trim_white_space(ble_data));
    extract_payload(clean.as_str())
}

} // verus!
