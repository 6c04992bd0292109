//! Rendering of integers and fixed-point decimals into strings.
//!
//! Gauges of the node are held in fixed-point integer units (tenths,
//! thousandths, ten-thousandths); this module turns them into the decimal
//! notation of the exposition format, with the fractional part dropped when
//! it is zero and trailing zeros of the fraction stripped.

use vstd::prelude::*;
use vstd::string::StringExecFns;

verus! {

/// The character for a single decimal digit.
pub open spec fn digit_char(d: int) -> char {
    if d == 0 {
        '0'
    } else if d == 1 {
        '1'
    } else if d == 2 {
        '2'
    } else if d == 3 {
        '3'
    } else if d == 4 {
        '4'
    } else if d == 5 {
        '5'
    } else if d == 6 {
        '6'
    } else if d == 7 {
        '7'
    } else if d == 8 {
        '8'
    } else {
        '9'
    }
}

/// Decimal numeral of `n`, most significant digit first, no leading zeros
/// (except for `n == 0`, which is the single digit `0`).
pub open spec fn dec_of(n: nat) -> Seq<char>
    decreases n,
{
    if n < 10 {
        seq![digit_char(n as int)]
    } else {
        dec_of(n / 10).push(digit_char((n % 10) as int))
    }
}

/// `10^k`.
pub open spec fn pow10(k: nat) -> nat
    decreases k,
{
    if k == 0 {
        1
    } else {
        10 * pow10((k - 1) as nat)
    }
}

/// Decimal numeral of `n` zero-padded to exactly `k` digits.
pub open spec fn padded_of(n: nat, k: nat) -> Seq<char>
    decreases k,
{
    if k == 0 {
        Seq::empty()
    } else {
        padded_of(n / 10, (k - 1) as nat).push(digit_char((n % 10) as int))
    }
}

/// The fractional digits for a numerator `f` of `10^k`, zero-padded to the
/// left and with trailing zeros stripped. Meaningful for `0 < f < 10^k`.
pub open spec fn frac_of(f: nat, k: nat) -> Seq<char>
    decreases k,
{
    if f % 10 == 0 && k > 0 {
        frac_of(f / 10, (k - 1) as nat)
    } else {
        padded_of(f, k)
    }
}

/// The decimal notation of the fixed-point value `v / 10^k`: the integer part,
/// then a point and the non-zero fraction, or the integer part alone when the
/// fraction is zero.
pub open spec fn fixed_of(v: nat, k: nat) -> Seq<char> {
    if v % pow10(k) == 0 {
        dec_of(v / pow10(k))
    } else {
        dec_of(v / pow10(k)) + seq!['.'] + frac_of(v % pow10(k), k)
    }
}

/// Appends the given character.
/// Relies on `String::push` of std: it appends the character to the end of
/// the string.
#[verifier::external_body]
pub(crate) fn push_char(out: &mut String, c: char)
    ensures
        final(out)@ == old(out)@.push(c),
{
    out.push(c);
}

fn push_digit(out: &mut String, d: u64)
    requires
        d < 10,
    ensures
        final(out)@ == old(out)@.push(digit_char(d as int)),
{
    if d == 0 {
        proof {
            reveal_strlit("0");
        }
        out.append("0");
    } else if d == 1 {
        proof {
            reveal_strlit("1");
        }
        out.append("1");
    } else if d == 2 {
        proof {
            reveal_strlit("2");
        }
        out.append("2");
    } else if d == 3 {
        proof {
            reveal_strlit("3");
        }
        out.append("3");
    } else if d == 4 {
        proof {
            reveal_strlit("4");
        }
        out.append("4");
    } else if d == 5 {
        proof {
            reveal_strlit("5");
        }
        out.append("5");
    } else if d == 6 {
        proof {
            reveal_strlit("6");
        }
        out.append("6");
    } else if d == 7 {
        proof {
            reveal_strlit("7");
        }
        out.append("7");
    } else if d == 8 {
        proof {
            reveal_strlit("8");
        }
        out.append("8");
    } else {
        proof {
            reveal_strlit("9");
        }
        out.append("9");
    }
    proof {
        assert(out@ =~= old(out)@.push(digit_char(d as int)));
    }
}

/// Appends the decimal numeral of `n`.
pub fn push_dec(out: &mut String, n: u64)
    ensures
        final(out)@ == old(out)@ + dec_of(n as nat),
    decreases n,
{
    if n < 10 {
        push_digit(out, n);
        proof {
            assert(out@ =~= old(out)@ + dec_of(n as nat));
        }
    } else {
        push_dec(out, n / 10);
        push_digit(out, n % 10);
        proof {
            assert(out@ =~= old(out)@ + dec_of(n as nat));
        }
    }
}

fn pow10_exec(k: u64) -> (r: u64)
    requires
        k <= 4,
    ensures
        r == pow10(k as nat),
        r >= 1,
{
    proof {
        assert(pow10(0) == 1);
        assert(pow10(1) == 10);
        assert(pow10(2) == 100);
        assert(pow10(3) == 1000);
        assert(pow10(4) == 10000);
    }
    if k == 0 {
        1
    } else if k == 1 {
        10
    } else if k == 2 {
        100
    } else if k == 3 {
        1000
    } else {
        10000
    }
}

proof fn lemma_div10_below_pow(f: nat, k: nat)
    requires
        k >= 1,
        f < pow10(k),
    ensures
        f / 10 < pow10((k - 1) as nat),
{
    let p = pow10((k - 1) as nat);
    assert(pow10(k) == 10 * p);
    assert(f < 10 * p);
    assert(f / 10 < p) by (nonlinear_arith)
        requires
            f < 10 * p,
            p >= 0,
    ;
}

fn push_padded(out: &mut String, n: u64, k: u64)
    requires
        k <= 4,
        n < pow10(k as nat),
    ensures
        final(out)@ == old(out)@ + padded_of(n as nat, k as nat),
    decreases k,
{
    if k == 0 {
        proof {
            assert(out@ =~= old(out)@ + padded_of(n as nat, k as nat));
        }
    } else {
        proof {
            lemma_div10_below_pow(n as nat, k as nat);
        }
        push_padded(out, n / 10, k - 1);
        push_digit(out, n % 10);
        proof {
            assert(out@ =~= old(out)@ + padded_of(n as nat, k as nat));
        }
    }
}

fn push_frac(out: &mut String, f: u64, k: u64)
    requires
        k <= 4,
        0 < f < pow10(k as nat),
    ensures
        final(out)@ == old(out)@ + frac_of(f as nat, k as nat),
    decreases k,
{
    proof {
        if k == 0 {
            assert(pow10(0) == 1);
            assert(false);
        }
    }
    if f % 10 == 0 {
        proof {
            lemma_div10_below_pow(f as nat, k as nat);
        }
        push_frac(out, f / 10, k - 1);
    } else {
        push_padded(out, f, k);
    }
}

/// The decimal numeral of `n` as a fresh string.
pub fn dec_string(n: u64) -> (s: String)
    ensures
        s@ == dec_of(n as nat),
{
    let mut s = String::new();
    push_dec(&mut s, n);
    proof {
        assert(s@ =~= dec_of(n as nat));
    }
    s
}

/// The decimal notation of the fixed-point value `v / 10^k` as a fresh string.
pub fn fixed_string(v: u64, k: u64) -> (s: String)
    requires
        k <= 4,
    ensures
        s@ == fixed_of(v as nat, k as nat),
{
    let pow = pow10_exec(k);
    let whole = v / pow;
    let frac = v % pow;
    let mut s = String::new();
    push_dec(&mut s, whole);
    if frac > 0 {
        proof {
            reveal_strlit(".");
            assert("."@ =~= seq!['.']);
        }
        s.append(".");
        push_frac(&mut s, frac, k);
    }
    proof {
        assert(s@ =~= fixed_of(v as nat, k as nat));
    }
    s
}

} // verus!
