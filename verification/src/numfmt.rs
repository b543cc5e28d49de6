//! Verified rendering of unsigned numbers as decimal and octal text, and of
//! two-digit zero-padded clock fields.

use vstd::prelude::*;

verus! {

/// The character for one digit value below 10.
pub open spec fn digit_char(d: int) -> char {
    if d == 0 {
        '0'
    } else if d == 1 {
        '1'
    } else if d == 2 {
        '2'
    } else if d == 3 {
        '3'
    } else if d == 4 {
        '4'
    } else if d == 5 {
        '5'
    } else if d == 6 {
        '6'
    } else if d == 7 {
        '7'
    } else if d == 8 {
        '8'
    } else {
        '9'
    }
}

/// The decimal rendering of `n`, most significant digit first, without
/// leading zeros (a single `0` for zero).
pub open spec fn dec_seq(n: int) -> Seq<char>
    recommends
        n >= 0,
    decreases n,
{
    if n <= 9 {
        seq![digit_char(n)]
    } else {
        dec_seq(n / 10) + seq![digit_char(n % 10)]
    }
}

/// The octal rendering of `n`, most significant digit first, without
/// leading zeros (a single `0` for zero).
pub open spec fn oct_seq(n: int) -> Seq<char>
    recommends
        n >= 0,
    decreases n,
{
    if n <= 7 {
        seq![digit_char(n)]
    } else {
        oct_seq(n / 8) + seq![digit_char(n % 8)]
    }
}

/// A clock field below 100 rendered as exactly two digits, zero-padded.
pub open spec fn pad2_seq(n: int) -> Seq<char> {
    seq![digit_char(n / 10), digit_char(n % 10)]
}

fn digit_char_exec(d: u64) -> (c: char)
    requires
        d <= 9,
    ensures
        c == digit_char(d as int),
{
    if d == 0 {
        '0'
    } else if d == 1 {
        '1'
    } else if d == 2 {
        '2'
    } else if d == 3 {
        '3'
    } else if d == 4 {
        '4'
    } else if d == 5 {
        '5'
    } else if d == 6 {
        '6'
    } else if d == 7 {
        '7'
    } else if d == 8 {
        '8'
    } else {
        '9'
    }
}

/// Appends the reversed contents of `digits` to `out`.
fn push_reversed(out: &mut String, digits: &Vec<char>)
    ensures
        final(out)@ == old(out)@ + digits@.reverse(),
{
    let mut k: usize = digits.len();
    proof {
        assert(out@ =~= old(out)@ + digits@.skip(k as int).reverse());
    }
    while k > 0
        invariant
            k <= digits@.len(),
            out@ == old(out)@ + digits@.skip(k as int).reverse(),
        decreases k,
    {
        let ghost outk = out@;
        k = k - 1;
        let c = digits[k];
        out.push(c);
        proof {
            assert(out@ =~= old(out)@ + digits@.skip(k as int).reverse());
        }
    }
    proof {
        assert(digits@.skip(0) =~= digits@);
    }
}

/// Appends the decimal rendering of `n` to `out`.
pub fn push_dec_u64(out: &mut String, n: u64)
    ensures
        final(out)@ == old(out)@ + dec_seq(n as int),
{
    let mut digits: Vec<char> = Vec::new();
    let mut m: u64 = n;
    proof {
        assert(dec_seq(n as int) =~= dec_seq(n as int) + digits@.reverse());
    }
    loop
        invariant_except_break
            dec_seq(n as int) == dec_seq(m as int) + digits@.reverse(),
        ensures
            dec_seq(n as int) == digits@.reverse(),
        decreases m,
    {
        let ghost digits0 = digits@;
        let d = m % 10;
        digits.push(digit_char_exec(d));
        proof {
            assert(digits@.reverse() =~= seq![digit_char(d as int)] + digits0.reverse());
        }
        if m <= 9 {
            proof {
                assert(dec_seq(m as int) == seq![digit_char(m as int)]);
                assert(dec_seq(n as int) =~= digits@.reverse());
            }
            break;
        }
        proof {
            assert(dec_seq(m as int) == dec_seq(m as int / 10) + seq![digit_char(m as int % 10)]);
            assert(dec_seq(m as int / 10) + digits@.reverse() =~= dec_seq(m as int)
                + digits0.reverse());
        }
        m = m / 10;
    }
    push_reversed(out, &digits);
    proof {
        assert(digits@.reverse() =~= dec_seq(n as int));
    }
}

/// Appends the octal rendering of `n` to `out`.
pub fn push_oct_u32(out: &mut String, n: u32)
    ensures
        final(out)@ == old(out)@ + oct_seq(n as int),
{
    let mut digits: Vec<char> = Vec::new();
    let mut m: u32 = n;
    proof {
        assert(oct_seq(n as int) =~= oct_seq(n as int) + digits@.reverse());
    }
    loop
        invariant_except_break
            oct_seq(n as int) == oct_seq(m as int) + digits@.reverse(),
        ensures
            oct_seq(n as int) == digits@.reverse(),
        decreases m,
    {
        let ghost digits0 = digits@;
        let d = m % 8;
        digits.push(digit_char_exec(d as u64));
        proof {
            assert(digits@.reverse() =~= seq![digit_char(d as int)] + digits0.reverse());
        }
        if m <= 7 {
            proof {
                assert(oct_seq(m as int) == seq![digit_char(m as int)]);
                assert(oct_seq(n as int) =~= digits@.reverse());
            }
            break;
        }
        proof {
            assert(oct_seq(m as int) == oct_seq(m as int / 8) + seq![digit_char(m as int % 8)]);
            assert(oct_seq(m as int / 8) + digits@.reverse() =~= oct_seq(m as int)
                + digits0.reverse());
        }
        m = m / 8;
    }
    push_reversed(out, &digits);
    proof {
        assert(digits@.reverse() =~= oct_seq(n as int));
    }
}

/// Appends the two-digit zero-padded rendering of a clock field to `out`.
pub fn push_pad2(out: &mut String, n: u32)
    requires
        n < 100,
    ensures
        final(out)@ == old(out)@ + pad2_seq(n as int),
{
    let ghost out0 = out@;
    out.push(digit_char_exec((n / 10) as u64));
    out.push(digit_char_exec((n % 10) as u64));
    proof {
        assert(out@ =~= out0 + pad2_seq(n as int));
    }
}

/// Every character of a decimal rendering is a decimal digit.
pub proof fn lemma_dec_seq_digits(n: int)
    requires
        n >= 0,
    ensures
        forall|i: int|
            0 <= i < dec_seq(n).len() ==> ('0' <= #[trigger] dec_seq(n)[i] && dec_seq(n)[i]
                <= '9'),
    decreases n,
{
    if n > 9 {
        lemma_dec_seq_digits(n / 10);
        assert forall|i: int|
            0 <= i < dec_seq(n).len() implies ('0' <= #[trigger] dec_seq(n)[i] && dec_seq(n)[i]
            <= '9') by {
            if i < dec_seq(n / 10).len() {
                assert(dec_seq(n)[i] == dec_seq(n / 10)[i]);
            } else {
                assert(dec_seq(n)[i] == digit_char(n % 10));
            }
        }
    }
}

/// Every character of an octal rendering is a decimal digit.
pub proof fn lemma_oct_seq_digits(n: int)
    requires
        n >= 0,
    ensures
        forall|i: int|
            0 <= i < oct_seq(n).len() ==> ('0' <= #[trigger] oct_seq(n)[i] && oct_seq(n)[i]
                <= '9'),
    decreases n,
{
    if n > 7 {
        lemma_oct_seq_digits(n / 8);
        assert forall|i: int|
            0 <= i < oct_seq(n).len() implies ('0' <= #[trigger] oct_seq(n)[i] && oct_seq(n)[i]
            <= '9') by {
            if i < oct_seq(n / 8).len() {
                assert(oct_seq(n)[i] == oct_seq(n / 8)[i]);
            } else {
                assert(oct_seq(n)[i] == digit_char(n % 8));
            }
        }
    }
}

} // verus!
