//! Big-endian field readers and the scalings that all formats share.

use vstd::prelude::*;

use crate::text::{decimal_digit, push_char};

verus! {

/// The unsigned 16-bit big-endian value at `b[i..i + 2]`.
pub open spec fn be_u16(b: Seq<u8>, i: int) -> int {
    b[i] as int * 256 + b[i + 1] as int
}

/// The signed (two's complement) 16-bit big-endian value at `b[i..i + 2]`.
pub open spec fn be_i16(b: Seq<u8>, i: int) -> int {
    if be_u16(b, i) >= 32768 {
        be_u16(b, i) - 65536
    } else {
        be_u16(b, i)
    }
}

/// The unsigned 24-bit big-endian value at `b[i..i + 3]`.
pub open spec fn be_u24(b: Seq<u8>, i: int) -> int {
    b[i] as int * 65536 + b[i + 1] as int * 256 + b[i + 2] as int
}

/// Temperature in thousandths of a degree Celsius (0.005 °C per step);
/// the smallest signed value means "not measured".
pub open spec fn temperature_value(raw: int) -> Option<i32> {
    if raw == -32768 {
        None
    } else {
        Some((raw * 5) as i32)
    }
}

/// Pressure in pascals (1 Pa per step, offset 50 000 Pa); all ones means "not measured".
pub open spec fn pressure_value(raw: int) -> Option<u32> {
    if raw == 65535 {
        None
    } else {
        Some((raw + 50000) as u32)
    }
}

/// Relative humidity in ten-thousandths of a percent (0.0025 % per step).
pub open spec fn humidity_scaled(raw: int) -> u32 {
    (raw * 25) as u32
}

/// A 9-bit index: the data byte gives the high eight bits, bit `bit` of `flags` the lowest.
/// Values above 500 mean "not measured".
pub open spec fn index_value(high: u8, flags: u8, bit: nat) -> Option<u16> {
    let v = high as int * 2 + (flags as int / pow2_spec(bit)) % 2;
    if v > 500 {
        None
    } else {
        Some(v as u16)
    }
}

/// `2` to the power `k`.
pub open spec fn pow2_spec(k: nat) -> int
    decreases k,
{
    if k == 0 {
        1
    } else {
        2 * pow2_spec((k - 1) as nat)
    }
}

/// The lower-case hex digit character for `d` (for `d < 16`).
pub open spec fn lower_hex_digit(d: nat) -> char {
    if d < 10 {
        decimal_digit(d)
    } else if d == 10 { 'a' }
    else if d == 11 { 'b' }
    else if d == 12 { 'c' }
    else if d == 13 { 'd' }
    else if d == 14 { 'e' }
    else { 'f' }
}

/// Bytes rendered as lower-case hex, two digits per byte, no separators.
pub open spec fn hex_text(b: Seq<u8>) -> Seq<char>
    decreases b.len(),
{
    if b.len() == 0 {
        Seq::empty()
    } else {
        hex_text(b.drop_last()) + seq![
            lower_hex_digit(b.last() as nat / 16),
            lower_hex_digit(b.last() as nat % 16),
        ]
    }
}

pub(crate) fn read_u16(b: &[u8], i: usize) -> (r: u16)
    requires
        i + 1 < b@.len(),
    ensures
        r == be_u16(b@, i as int),
{
    (b[i] as u16) * 256 + (b[i + 1] as u16)
}

pub(crate) fn read_i16(b: &[u8], i: usize) -> (r: i16)
    requires
        i + 1 < b@.len(),
    ensures
        r == be_i16(b@, i as int),
{
    let u = read_u16(b, i);
    if u >= 32768 {
        (u as i32 - 65536) as i16
    } else {
        u as i16
    }
}

pub(crate) fn read_u24(b: &[u8], i: usize) -> (r: u32)
    requires
        i + 2 < b@.len(),
    ensures
        r == be_u24(b@, i as int),
{
    (b[i] as u32) * 65536 + (b[i + 1] as u32) * 256 + (b[i + 2] as u32)
}

pub(crate) fn temperature_of(raw: i16) -> (r: Option<i32>)
    ensures
        r == temperature_value(raw as int),
{
    if raw == i16::MIN {
        None
    } else {
        Some(raw as i32 * 5)
    }
}

pub(crate) fn pressure_of(raw: u16) -> (r: Option<u32>)
    ensures
        r == pressure_value(raw as int),
{
    if raw == 65535 {
        None
    } else {
        Some(raw as u32 + 50000)
    }
}

pub(crate) fn humidity_of(raw: u16) -> (r: u32)
    ensures
        r == humidity_scaled(raw as int),
{
    raw as u32 * 25
}

/// Assembles a 9-bit index from its data byte and bit 6 (`bit == 6`) or
/// bit 7 (`bit == 7`) of the flags byte.
pub(crate) fn index_of(high: u8, flags: u8, bit: u8) -> (r: Option<u16>)
    requires
        bit == 6 || bit == 7,
    ensures
        r == index_value(high, flags, bit as nat),
{
    let low: u16 = if bit == 6 {
        (flags as u16 / 64) % 2
    } else {
        (flags as u16 / 128) % 2
    };
    proof {
        reveal_with_fuel(pow2_spec, 8);
    }
    let v: u16 = high as u16 * 2 + low;
    if v > 500 {
        None
    } else {
        Some(v)
    }
}

fn lower_hex_char(d: u8) -> (c: char)
    requires
        d < 16,
    ensures
        c == lower_hex_digit(d as nat),
{
    match d {
        0 => '0',
        1 => '1',
        2 => '2',
        3 => '3',
        4 => '4',
        5 => '5',
        6 => '6',
        7 => '7',
        8 => '8',
        9 => '9',
        10 => 'a',
        11 => 'b',
        12 => 'c',
        13 => 'd',
        14 => 'e',
        _ => 'f',
    }
}

/// Renders bytes as lower-case hex.
pub fn hex_string(b: &[u8]) -> (r: String)
    ensures
        r@ == hex_text(b@),
{
    let mut r = String::new();
    for i in 0..b.len()
        invariant
            r@ == hex_text(b@.subrange(0, i as int)),
    {
        let x = b[i];
        push_char(&mut r, lower_hex_char(x / 16));
        push_char(&mut r, lower_hex_char(x % 16));
        proof {
            assert(b@.subrange(0, i + 1).drop_last() =~= b@.subrange(0, i as int));
        }
    }
    proof {
        assert(b@.subrange(0, b@.len() as int) =~= b@);
    }
    r
}

} // verus!
