//! Decimal text of unsigned integers.

use vstd::prelude::*;

verus! {

/// The character of one decimal digit.
pub open spec fn digit_char(d: nat) -> char
    recommends
        d < 10,
{
    (48 + d) as u8 as char
}

/// The decimal digits of `n`, most significant first, without leading zeros.
pub open spec fn decimal_text(n: nat) -> Seq<char>
    decreases n,
{
    if n < 10 {
        seq![digit_char(n)]
    } else {
        decimal_text(n / 10).push(digit_char(n % 10))
    }
}

pub fn digit(d: u64) -> (c: char)
    requires
        d < 10,
    ensures
        c == digit_char(d as nat),
{
    let b: u8 = (48 + d) as u8;
    b as char
}

/// Writes `n` in decimal.
pub fn decimal(n: u64) -> (r: String)
    ensures
        r@ == decimal_text(n as nat),
{
    let mut low_first: Vec<char> = Vec::new();
    let mut rest: u64 = n;
    while rest >= 10
        invariant
            forall|k: nat| #![trigger decimal_text(k)] k == rest ==> decimal_text(n as nat)
                == decimal_text(k) + low_first@.reverse(),
        decreases rest,
    {
        let ghost before = low_first@;
        low_first.push(digit(rest % 10));
        proof {
            assert(low_first@.reverse() =~= seq![digit_char((rest % 10) as nat)] + before.reverse());
            assert(decimal_text(rest as nat) == decimal_text((rest / 10) as nat).push(
                digit_char((rest % 10) as nat),
            ));
            assert(decimal_text(rest as nat) + before.reverse() =~= decimal_text(
                (rest / 10) as nat,
            ) + low_first@.reverse());
        }
        rest = rest / 10;
    }
    let mut out = String::new();
    out.push(digit(rest));
    let mut i: usize = low_first.len();
    while i > 0
        invariant
            i <= low_first@.len(),
            out@ == decimal_text(rest as nat) + low_first@.reverse().subrange(
                0,
                low_first@.len() - i,
            ),
        decreases i,
    {
        i -= 1;
        out.push(low_first[i]);
        proof {
            let rev = low_first@.reverse();
            let k = low_first@.len() - 1 - i;
            assert(rev[k] == low_first@[i as int]);
            assert(rev.subrange(0, k + 1) =~= rev.subrange(0, k).push(rev[k]));
        }
    }
    proof {
        assert(low_first@.reverse().subrange(0, low_first@.len() as int) =~= low_first@.reverse());
    }
    out
}

} // verus!
