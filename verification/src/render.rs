//! Rendering of register values as ASCII bytes for the trap reporter:
//! lower-case hexadecimal, either zero-padded to the full sixteen-digit
//! register width or trimmed to the significant digits, and decimal for
//! small fields such as the instruction-length bit.

use vstd::prelude::*;

verus! {

/// The ASCII byte of one hexadecimal digit, lower case.
pub open spec fn hex_digit(d: u64) -> u8
    recommends
        d < 16,
{
    if d < 10 {
        (0x30 + d) as u8
    } else {
        (0x57 + d) as u8
    }
}

/// The low `n` hexadecimal digits of `v`, most significant first,
/// zero-padded to exactly `n` digits.
pub open spec fn hex_digits(v: u64, n: nat) -> Seq<u8>
    decreases n,
{
    if n == 0 {
        Seq::empty()
    } else {
        hex_digits(v / 16, (n - 1) as nat).push(hex_digit(v % 16))
    }
}

/// The significant hexadecimal digits of `v` — at least one, no leading
/// zero unless `v` itself is zero.
pub open spec fn hex_sig(v: u64) -> Seq<u8>
    decreases v,
{
    if v < 16 {
        seq![hex_digit(v)]
    } else {
        hex_sig(v / 16).push(hex_digit(v % 16))
    }
}

/// The significant decimal digits of `v`.
pub open spec fn dec_digits(v: u64) -> Seq<u8>
    decreases v,
{
    if v < 10 {
        seq![(0x30 + v) as u8]
    } else {
        dec_digits(v / 10).push((0x30 + v % 10) as u8)
    }
}

/// A register value in the `0x`-prefixed, zero-padded sixteen-digit form
/// used for the syndrome, return-address and fault-address lines.
pub open spec fn hex_full_bytes(v: u64) -> Seq<u8> {
    seq![0x30u8, 0x78u8] + hex_digits(v, 16)
}

/// A field value in the `0x`-prefixed form trimmed to its significant
/// digits.
pub open spec fn hex_short_bytes(v: u64) -> Seq<u8> {
    seq![0x30u8, 0x78u8] + hex_sig(v)
}

fn hex_digit_byte(d: u64) -> (b: u8)
    requires
        d < 16,
    ensures
        b == hex_digit(d),
{
    if d < 10 {
        (0x30 + d) as u8
    } else {
        (0x57 + d) as u8
    }
}

fn hex_fixed(v: u64, n: usize) -> (r: Vec<u8>)
    ensures
        r@ == hex_digits(v, n as nat),
    decreases n,
{
    if n == 0 {
        Vec::new()
    } else {
        let mut r = hex_fixed(v / 16, n - 1);
        r.push(hex_digit_byte(v % 16));
        r
    }
}

fn hex_trimmed(v: u64) -> (r: Vec<u8>)
    ensures
        r@ == hex_sig(v),
    decreases v,
{
    if v < 16 {
        let mut r: Vec<u8> = Vec::new();
        r.push(hex_digit_byte(v));
        r
    } else {
        let mut r = hex_trimmed(v / 16);
        r.push(hex_digit_byte(v % 16));
        r
    }
}

/// Renders `v` as the reporter's full register form: `0x` followed by
/// all sixteen digits, zero-padded.
pub fn hex_full(v: u64) -> (r: Vec<u8>)
    ensures
        r@ == hex_full_bytes(v),
{
    let mut r: Vec<u8> = Vec::new();
    r.push(0x30);
    r.push(0x78);
    let mut digits = hex_fixed(v, 16);
    r.append(&mut digits);
    r
}

/// Renders `v` as `0x` followed by its significant digits.
pub fn hex_short(v: u64) -> (r: Vec<u8>)
    ensures
        r@ == hex_short_bytes(v),
{
    let mut r: Vec<u8> = Vec::new();
    r.push(0x30);
    r.push(0x78);
    let mut digits = hex_trimmed(v);
    r.append(&mut digits);
    r
}

/// Renders `v` in decimal.
pub fn dec(v: u64) -> (r: Vec<u8>)
    ensures
        r@ == dec_digits(v),
    decreases v,
{
    if v < 10 {
        let mut r: Vec<u8> = Vec::new();
        r.push((0x30 + v) as u8);
        r
    } else {
        let mut r = dec(v / 10);
        r.push((0x30 + v % 10) as u8);
        r
    }
}

} // verus!
