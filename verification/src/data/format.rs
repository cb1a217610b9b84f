//! Byte counts written the way the catalog shows them ("512 B", "2 KB",
//! "2.0 MB"): exactly what `{:.0}` and `{:.1}` print for the `f64` value
//! `bytes as f64 / unit`, computed in integer arithmetic.

use vstd::prelude::*;
use crate::strings::{decimal, digit_char, push_decimal, push_str_chars, string_from_chars};

verus! {

/// 2 to the 53rd: below it every integer is an exact `f64`.
pub open spec fn two_53() -> nat {
    0x20_0000_0000_0000
}

/// The spacing of `f64` values around `n`, found by doubling `unit` from 1.
pub open spec fn f64_unit_from(n: nat, unit: nat) -> nat
    decreases n + 1 - unit when unit >= 1
{
    if n / unit < two_53() {
        unit
    } else {
        proof {
            assert(2 * unit <= n) by (nonlinear_arith)
                requires
                    unit >= 1,
                    n / unit >= two_53(),
            {
                vstd::arithmetic::div_mod::lemma_fundamental_div_mod(n as int, unit as int);
                assert(unit * (n / unit) >= unit * 2) by (nonlinear_arith)
                    requires unit >= 1, n / unit >= 2;
            }
        }
        f64_unit_from(n, unit * 2)
    }
}

/// `num / den` rounded to the nearest integer, ties to even (how `{:.N}` rounds).
pub open spec fn round_half_even(num: nat, den: nat) -> nat {
    let q = num / den;
    let r = num % den;
    if 2 * r > den || (2 * r == den && q % 2 == 1) {
        q + 1
    } else {
        q
    }
}

/// The value of `n as f64`: `n` rounded to 53 significant bits, ties to even.
pub open spec fn f64_of(n: nat) -> nat {
    let unit = f64_unit_from(n, 1);
    round_half_even(n, unit) * unit
}

/// `x / unit` written with no decimals.
pub open spec fn whole_text(x: nat, unit: nat) -> Seq<char> {
    decimal(round_half_even(x, unit))
}

/// `x / unit` written with one decimal.
pub open spec fn tenths_text(x: nat, unit: nat) -> Seq<char> {
    let t = round_half_even(x * 10, unit);
    decimal(t / 10).push('.').push(digit_char(t % 10))
}

/// The text of a byte count as the catalog's size labels show it.
pub open spec fn size_text(bytes: nat) -> Seq<char> {
    if bytes < 0x10_0000 {
        whole_text(f64_of(bytes), 1024) + " KB"@
    } else {
        tenths_text(f64_of(bytes), 0x10_0000) + " MB"@
    }
}

/// The text of a byte count as the cache statistics show it.
pub open spec fn bytes_text(bytes: nat) -> Seq<char> {
    if bytes >= 0x4000_0000 {
        tenths_text(f64_of(bytes), 0x4000_0000) + " GB"@
    } else if bytes >= 0x10_0000 {
        tenths_text(f64_of(bytes), 0x10_0000) + " MB"@
    } else if bytes >= 1024 {
        whole_text(f64_of(bytes), 1024) + " KB"@
    } else {
        decimal(bytes) + " B"@
    }
}

fn round_half_even_exec(num: u128, den: u128) -> (r: u128)
    requires
        den > 0,
        num <= 0x100_0000_0000_0000_0000,
    ensures
        r == round_half_even(num as nat, den as nat),
{
    let q = num / den;
    let r = num % den;
    assert(r < den);
    if r > den - r || (r == den - r && q % 2 == 1) {
        assert(q <= num) by (nonlinear_arith)
            requires q == num / den, den > 0;
        q + 1
    } else {
        q
    }
}

/// `bytes as f64`, as an exact integer.
fn f64_of_exec(bytes: u64) -> (r: u128)
    ensures
        r == f64_of(bytes as nat),
        r <= 0x2_0000_0000_0000_0000,
{
    let n: u128 = bytes as u128;
    let mut unit: u128 = 1;
    while n / unit >= 0x20_0000_0000_0000
        invariant
            1 <= unit <= n + 1,
            unit <= 4096,
            f64_unit_from(n as nat, unit as nat) == f64_unit_from(n as nat, 1),
            n == bytes,
        decreases n + 1 - unit,
    {
        assert(unit * 2 <= n && unit < 2048) by (nonlinear_arith)
            requires n / unit >= 0x20_0000_0000_0000, unit >= 1, n < 0x1_0000_0000_0000_0000u128,
        {
            assert(n >= unit * (n / unit));
            assert(unit * (n / unit) >= unit * 0x20_0000_0000_0000);
        }
        unit = unit * 2;
    }
    let q = round_half_even_exec(n, unit);
    assert(q <= n / unit + 1);
    assert(q * unit <= 0x2_0000_0000_0000_0000) by (nonlinear_arith)
        requires
            q <= n / unit + 1,
            n / unit < 0x20_0000_0000_0000,
            1 <= unit <= 4096,
    {
        assert(q <= 0x20_0000_0000_0000);
        assert(q * unit <= 0x20_0000_0000_0000 * unit);
    }
    q * unit
}

fn push_whole(v: &mut Vec<char>, x: u128, unit: u128)
    requires
        unit > 0,
        x <= 0x2_0000_0000_0000_0000,
    ensures
        final(v)@ == old(v)@ + whole_text(x as nat, unit as nat),
{
    let q = round_half_even_exec(x, unit);
    push_decimal(v, q);
}

fn push_tenths(v: &mut Vec<char>, x: u128, unit: u128)
    requires
        unit > 0,
        x <= 0x2_0000_0000_0000_0000,
    ensures
        final(v)@ == old(v)@ + tenths_text(x as nat, unit as nat),
{
    let t = round_half_even_exec(x * 10, unit);
    push_decimal(v, t / 10);
    v.push('.');
    let d: u8 = (t % 10) as u8;
    let zero: u8 = 48;
    let c: char = (zero + d) as char;
    assert(c == digit_char((t % 10) as nat));
    v.push(c);
}

/// A size label: kilobytes with no decimals below one megabyte, else megabytes
/// with one decimal.
pub fn format_size(bytes: u64) -> (r: String)
    ensures
        r@ == size_text(bytes as nat),
{
    let x = f64_of_exec(bytes);
    let mut v: Vec<char> = Vec::new();
    if bytes < 0x10_0000 {
        push_whole(&mut v, x, 1024);
        push_str_chars(&mut v, " KB");
    } else {
        push_tenths(&mut v, x, 0x10_0000);
        push_str_chars(&mut v, " MB");
    }
    string_from_chars(&v)
}

/// A cache size label: bytes, whole kilobytes, or megabytes or gigabytes with one decimal.
pub fn format_bytes(bytes: u64) -> (r: String)
    ensures
        r@ == bytes_text(bytes as nat),
{
    let x = f64_of_exec(bytes);
    let mut v: Vec<char> = Vec::new();
    if bytes >= 0x4000_0000 {
        push_tenths(&mut v, x, 0x4000_0000);
        push_str_chars(&mut v, " GB");
    } else if bytes >= 0x10_0000 {
        push_tenths(&mut v, x, 0x10_0000);
        push_str_chars(&mut v, " MB");
    } else if bytes >= 1024 {
        push_whole(&mut v, x, 1024);
        push_str_chars(&mut v, " KB");
    } else {
        push_decimal(&mut v, bytes as u128);
        push_str_chars(&mut v, " B");
    }
    string_from_chars(&v)
}

} // verus!
