//! Sizes as they are shown: in bytes, or to two decimals in a binary unit.

use crate::digits::{decimal, decimal_text, digit_char};
use crate::file::PitouFileSize;
use vstd::arithmetic::div_mod::lemma_div_denominator;
use vstd::prelude::*;
use vstd::string::StringExecFns;

verus! {

/// The first number that needs more than 53 binary digits.
pub const WIDE: u64 = 0x20_0000_0000_0000;

/// `n / d` rounded to the nearest whole number, a tie going to the even one.
pub open spec fn rounded_div(n: nat, d: nat) -> nat
    recommends
        d > 0,
{
    let q = n / d;
    let r = n % d;
    if 2 * r > d || (2 * r == d && q % 2 == 1) {
        q + 1
    } else {
        q
    }
}

/// The distance between neighbours among the numbers of 53 binary digits
/// that are as large as `n`.
pub open spec fn step_of(n: nat) -> nat
    decreases n,
{
    if n < WIDE {
        1
    } else {
        2 * step_of(n / 2)
    }
}

/// The number of 53 binary digits that is nearest to `n`, a tie going to the
/// one with an even last digit: sizes are shown as a `f64` holds them.
pub open spec fn nearest_double(n: nat) -> nat {
    rounded_div(n, step_of(n)) * step_of(n)
}

/// A quotient to two decimals: `n / unit` rounded to hundredths, a tie going
/// to the even hundredth.
pub open spec fn two_decimals(n: nat, unit: nat) -> Seq<char> {
    let hundredths = rounded_div(n * 100, unit);
    decimal_text(hundredths / 100) + seq![
        '.',
        digit_char((hundredths % 100) / 10),
        digit_char(hundredths % 10),
    ]
}

/// What `format` writes for a number of bytes: the bytes themselves below
/// 1024, else the number in the largest of KB, MB, GB and TB that it
/// reaches, to two decimals.
pub open spec fn size_text(bytes: u64) -> Seq<char> {
    let n = nearest_double(bytes as nat);
    if n < 0x400 {
        decimal_text(n) + " B"@
    } else if n < 0x10_0000 {
        two_decimals(n, 0x400) + " KB"@
    } else if n < 0x4000_0000 {
        two_decimals(n, 0x10_0000) + " MB"@
    } else if n < 0x100_0000_0000 {
        two_decimals(n, 0x4000_0000) + " GB"@
    } else {
        two_decimals(n, 0x100_0000_0000) + " TB"@
    }
}

fn round_div(n: u128, d: u128) -> (r: u128)
    requires
        0 < d <= 0x100_0000_0000,
        n <= 0x80_0000_0000_0000_0000_0000,
    ensures
        r == rounded_div(n as nat, d as nat),
{
    let q: u128 = n / d;
    let r: u128 = n % d;
    if 2 * r > d || (2 * r == d && q % 2 == 1) {
        q + 1
    } else {
        q
    }
}

fn nearest(bytes: u64) -> (r: u128)
    ensures
        r == nearest_double(bytes as nat),
        r <= 0x2_0000_0000_0000_0000,
{
    let mut step: u64 = 1;
    let mut top: u64 = bytes;
    while top >= WIDE
        invariant
            1 <= step <= 4096,
            top == bytes / step,
            top * step <= bytes,
            step_of(bytes as nat) == step * step_of(top as nat),
        decreases top,
    {
        proof {
            assert(step < 2048) by (nonlinear_arith)
                requires
                    top * step <= bytes,
                    bytes < 0x1_0000_0000_0000_0000,
                    top >= 0x20_0000_0000_0000,
                    step >= 1,
            ;
            lemma_div_denominator(bytes as int, step as int, 2);
            assert((top / 2) * (step * 2) <= top * step) by (nonlinear_arith)
                requires
                    (top / 2) * 2 <= top,
                    step >= 1,
            ;
            assert(step * step_of(top as nat) == (step * 2) * step_of((top / 2) as nat))
                by (nonlinear_arith)
                requires
                    step_of(top as nat) == 2 * step_of((top / 2) as nat),
            ;
        }
        top = top / 2;
        step = step * 2;
    }
    assert(step_of(top as nat) == 1);
    assert(step_of(bytes as nat) == step) by (nonlinear_arith)
        requires
            step_of(bytes as nat) == step * step_of(top as nat),
            step_of(top as nat) == 1,
    ;
    let whole: u128 = round_div(bytes as u128, step as u128);
    assert(whole <= top + 1);
    assert(whole * step <= bytes + step) by (nonlinear_arith)
        requires
            whole <= top + 1,
            top * step <= bytes,
            step >= 1,
    ;
    whole * (step as u128)
}

fn fixed(n: u128, unit: u128) -> (r: String)
    requires
        0x400 <= unit <= 0x100_0000_0000,
        n <= 0x2_0000_0000_0000_0000,
    ensures
        r@ == two_decimals(n as nat, unit as nat),
{
    let hundredths: u128 = round_div(n * 100, unit);
    assert((n as int * 100) / (unit as int) <= n) by (nonlinear_arith)
        requires
            unit >= 100,
            n >= 0,
    ;
    assert(hundredths / 100 <= u64::MAX);
    let mut out = decimal((hundredths / 100) as u64);
    out.push('.');
    out.push(crate::digits::digit(((hundredths % 100) / 10) as u64));
    out.push(crate::digits::digit((hundredths % 10) as u64));
    assert(out@ =~= two_decimals(n as nat, unit as nat));
    out
}

impl PitouFileSize {
    /// Writes the size for a reader.
    pub fn format(self) -> (r: String)
        ensures
            r@ == size_text(self.bytes),
    {
        let n: u128 = nearest(self.bytes);
        if n < 0x400 {
            let mut out = decimal(n as u64);
            out.append(" B");
            out
        } else if n < 0x10_0000 {
            let mut out = fixed(n, 0x400);
            out.append(" KB");
            out
        } else if n < 0x4000_0000 {
            let mut out = fixed(n, 0x10_0000);
            out.append(" MB");
            out
        } else if n < 0x100_0000_0000 {
            let mut out = fixed(n, 0x4000_0000);
            out.append(" GB");
            out
        } else {
            let mut out = fixed(n, 0x100_0000_0000);
            out.append(" TB");
            out
        }
    }
}

} // verus!
