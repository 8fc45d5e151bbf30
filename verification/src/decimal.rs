//! Decimal rendering of the counters that appear in the service's labels.

use vstd::prelude::*;

verus! {

/// The character for one decimal digit.
pub open spec fn digit_char(d: int) -> char {
    if d == 0 {
        '0'
    } else if d == 1 {
        '1'
    } else if d == 2 {
        '2'
    } else if d == 3 {
        '3'
    } else if d == 4 {
        '4'
    } else if d == 5 {
        '5'
    } else if d == 6 {
        '6'
    } else if d == 7 {
        '7'
    } else if d == 8 {
        '8'
    } else {
        '9'
    }
}

/// The decimal digits of a non-negative number, most significant first,
/// without leading zeros (except for the number zero itself).
pub open spec fn dec_seq(n: nat) -> Seq<char>
    decreases n,
{
    if n < 10 {
        seq![digit_char(n as int)]
    } else {
        dec_seq(n / 10) + seq![digit_char((n % 10) as int)]
    }
}

/// The decimal rendering of a signed number: a minus sign before the
/// digits when it is negative.
pub open spec fn int_dec_seq(v: int) -> Seq<char> {
    if v < 0 {
        seq!['-'] + dec_seq((-v) as nat)
    } else {
        dec_seq(v as nat)
    }
}

/// A decimal rendering is never empty, and a number of two or more digits
/// renders to two or more characters.
pub proof fn lemma_dec_seq_len(n: nat)
    ensures
        dec_seq(n).len() >= 1,
        n >= 10 ==> dec_seq(n).len() >= 2,
    decreases n,
{
    if n >= 10 {
        lemma_dec_seq_len(n / 10);
    }
}

/// Distinct digits render to distinct characters.
proof fn lemma_digit_char_injective(d1: int, d2: int)
    requires
        0 <= d1 < 10,
        0 <= d2 < 10,
        d1 != d2,
    ensures
        digit_char(d1) != digit_char(d2),
{
}

/// Two different numbers never share a decimal rendering.
pub proof fn lemma_dec_seq_injective(a: nat, b: nat)
    requires
        a != b,
    ensures
        dec_seq(a) != dec_seq(b),
    decreases a + b,
{
    lemma_dec_seq_len(a);
    lemma_dec_seq_len(b);
    if a < 10 && b < 10 {
        lemma_digit_char_injective(a as int, b as int);
        assert(dec_seq(a)[0] != dec_seq(b)[0]);
    } else if a < 10 {
        assert(dec_seq(a).len() == 1);
    } else if b < 10 {
        assert(dec_seq(b).len() == 1);
    } else if dec_seq(a) == dec_seq(b) {
        let la = dec_seq(a).len() as int;
        assert(dec_seq(a)[la - 1] == digit_char((a % 10) as int));
        assert(dec_seq(b)[la - 1] == digit_char((b % 10) as int));
        if a % 10 != b % 10 {
            lemma_digit_char_injective((a % 10) as int, (b % 10) as int);
        } else {
            assert(dec_seq(a).subrange(0, la - 1) =~= dec_seq(a / 10));
            assert(dec_seq(b).subrange(0, la - 1) =~= dec_seq(b / 10));
            assert(a / 10 != b / 10);
            lemma_dec_seq_injective(a / 10, b / 10);
        }
        assert(false);
    }
}

/// One decimal digit as a string slice.
fn digit_str(d: u64) -> (r: &'static str)
    requires
        d < 10,
    ensures
        r@ == seq![digit_char(d as int)],
{
    proof {
        reveal_strlit("0");
        reveal_strlit("1");
        reveal_strlit("2");
        reveal_strlit("3");
        reveal_strlit("4");
        reveal_strlit("5");
        reveal_strlit("6");
        reveal_strlit("7");
        reveal_strlit("8");
        reveal_strlit("9");
    }
    let r = match d {
        0 => "0",
        1 => "1",
        2 => "2",
        3 => "3",
        4 => "4",
        5 => "5",
        6 => "6",
        7 => "7",
        8 => "8",
        _ => "9",
    };
    proof {
        assert(r@ =~= seq![digit_char(d as int)]);
    }
    r
}

/// Renders a non-negative number in decimal.
pub fn u64_to_decimal(n: u64) -> (r: String)
    ensures
        r@ == dec_seq(n as nat),
    decreases n,
{
    if n < 10 {
        let r = String::from_str(digit_str(n));
        proof {
            assert(r@ =~= dec_seq(n as nat));
        }
        r
    } else {
        let r = u64_to_decimal(n / 10).concat(digit_str(n % 10));
        proof {
            assert(r@ =~= dec_seq(n as nat));
        }
        r
    }
}

/// Renders a signed number in decimal, with a leading minus sign when it
/// is negative.
pub fn i32_to_decimal(v: i32) -> (r: String)
    ensures
        r@ == int_dec_seq(v as int),
{
    let wide: i64 = v as i64;
    if wide < 0 {
        let r = String::from_str("-").concat(u64_to_decimal((-wide) as u64).as_str());
        proof {
            reveal_strlit("-");
            assert(r@ =~= int_dec_seq(v as int));
        }
        r
    } else {
        u64_to_decimal(wide as u64)
    }
}

} // verus!
