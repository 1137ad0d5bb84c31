//! The errors that decoding can produce.

use vstd::prelude::*;

use crate::text::{decimal, push_char, push_decimal};

verus! {

/// Everything that can go wrong while decoding a payload.
#[derive(Debug, Clone, PartialEq)]
pub enum DecodeError {
    /// The input is not a well-formed hex string.
    InvalidHex(String),
    /// The payload does not have the length its format requires.
    InvalidLength(String),
    /// The format identifier byte names no known format.
    UnsupportedFormat(u8),
    /// A field holds a value that is not allowed.
    InvalidData(String),
    /// A checksum or another validation failed.
    ValidationFailed(String),
    /// An encrypted payload could not be decrypted.
    DecryptionFailed(String),
    /// A required field is missing.
    MissingField(String),
}

/// The mathematical content of a [`DecodeError`]: its kind and its text.
pub enum DecodeErrorView {
    InvalidHex(Seq<char>),
    InvalidLength(Seq<char>),
    UnsupportedFormat(u8),
    InvalidData(Seq<char>),
    ValidationFailed(Seq<char>),
    DecryptionFailed(Seq<char>),
    MissingField(Seq<char>),
}

impl View for DecodeError {
    type V = DecodeErrorView;

    open spec fn view(&self) -> DecodeErrorView {
        match self {
            DecodeError::InvalidHex(s) => DecodeErrorView::InvalidHex(s@),
            DecodeError::InvalidLength(s) => DecodeErrorView::InvalidLength(s@),
            DecodeError::UnsupportedFormat(b) => DecodeErrorView::UnsupportedFormat(*b),
            DecodeError::InvalidData(s) => DecodeErrorView::InvalidData(s@),
            DecodeError::ValidationFailed(s) => DecodeErrorView::ValidationFailed(s@),
            DecodeError::DecryptionFailed(s) => DecodeErrorView::DecryptionFailed(s@),
            DecodeError::MissingField(s) => DecodeErrorView::MissingField(s@),
        }
    }
}

/// The upper-case hex digit character for `d` (for `d < 16`).
pub open spec fn upper_hex_digit(d: nat) -> char {
    if d < 10 {
        crate::text::decimal_digit(d)
    } else if d == 10 { 'A' }
    else if d == 11 { 'B' }
    else if d == 12 { 'C' }
    else if d == 13 { 'D' }
    else if d == 14 { 'E' }
    else { 'F' }
}

/// The text of an `InvalidLength` error for `actual` bytes where `expected` were due.
pub open spec fn length_message(expected: nat, actual: nat) -> Seq<char> {
    "Expected "@ + decimal(expected) + " bytes, got "@ + decimal(actual)
}

/// The text of an `InvalidData` error for `field` holding `value`.
pub open spec fn field_message(field: Seq<char>, value: Seq<char>) -> Seq<char> {
    "Invalid "@ + field + " value: "@ + value
}

/// How an error reads when it is shown to a person.
pub open spec fn error_text(e: DecodeError) -> Seq<char> {
    match e {
        DecodeError::InvalidHex(s) => "Invalid hex string: "@ + s@,
        DecodeError::InvalidLength(s) => "Invalid data length: "@ + s@,
        DecodeError::UnsupportedFormat(b) => "Unsupported data format: 0x"@ + seq![
            upper_hex_digit(b as nat / 16),
            upper_hex_digit(b as nat % 16),
        ],
        DecodeError::InvalidData(s) => "Invalid data values: "@ + s@,
        DecodeError::ValidationFailed(s) => "Validation failed: "@ + s@,
        DecodeError::DecryptionFailed(s) => "Decryption failed: "@ + s@,
        DecodeError::MissingField(s) => "Missing required field: "@ + s@,
    }
}

fn upper_hex_char(d: u8) -> (c: char)
    requires
        d < 16,
    ensures
        c == upper_hex_digit(d as nat),
{
    match d {
        0 => '0',
        1 => '1',
        2 => '2',
        3 => '3',
        4 => '4',
        5 => '5',
        6 => '6',
        7 => '7',
        8 => '8',
        9 => '9',
        10 => 'A',
        11 => 'B',
        12 => 'C',
        13 => 'D',
        14 => 'E',
        _ => 'F',
    }
}

fn prefixed(prefix: &str, rest: &String) -> (r: String)
    ensures
        r@ == prefix@ + rest@,
{
    let mut r = String::from_str(prefix);
    r.append(rest.as_str());
    r
}

impl DecodeError {
    /// An `InvalidLength` error that names the expected and the actual byte count.
    pub fn invalid_length(expected: usize, actual: usize) -> (r: DecodeError)
        ensures
            r matches DecodeError::InvalidLength(s) && s@ == length_message(
                expected as nat,
                actual as nat,
            ),
    {
        let mut s = String::from_str("Expected ");
        push_decimal(&mut s, expected);
        s.append(" bytes, got ");
        push_decimal(&mut s, actual);
        DecodeError::InvalidLength(s)
    }

    /// An `InvalidData` error for a field and the value it held.
    pub fn invalid_field(field: &str, value: &str) -> (r: DecodeError)
        ensures
            r matches DecodeError::InvalidData(s) && s@ == field_message(field@, value@),
    {
        let mut s = String::from_str("Invalid ");
        s.append(field);
        s.append(" value: ");
        s.append(value);
        DecodeError::InvalidData(s)
    }

    /// The error as a person reads it.
    #[allow(clippy::inherent_to_string)]
    pub fn to_string(&self) -> (r: String)
        ensures
            r@ == error_text(*self),
    {
        match self {
            DecodeError::InvalidHex(s) => prefixed("Invalid hex string: ", s),
            DecodeError::InvalidLength(s) => prefixed("Invalid data length: ", s),
            DecodeError::UnsupportedFormat(b) => {
                let mut r = String::from_str("Unsupported data format: 0x");
                push_char(&mut r, upper_hex_char(*b / 16));
                push_char(&mut r, upper_hex_char(*b % 16));
                r
            },
            DecodeError::InvalidData(s) => prefixed("Invalid data values: ", s),
            DecodeError::ValidationFailed(s) => prefixed("Validation failed: ", s),
            DecodeError::DecryptionFailed(s) => prefixed("Decryption failed: ", s),
            DecodeError::MissingField(s) => prefixed("Missing required field: ", s),
        }
    }
}

} // verus!
