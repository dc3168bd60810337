//! Decimal rendering of numbers, used to derive VM names from pool indices.

use vstd::prelude::*;

verus! {

/// The character for one decimal digit.
pub open spec fn digit_char(d: int) -> char {
    if d == 0 {
        '0'
    } else if d == 1 {
        '1'
    } else if d == 2 {
        '2'
    } else if d == 3 {
        '3'
    } else if d == 4 {
        '4'
    } else if d == 5 {
        '5'
    } else if d == 6 {
        '6'
    } else if d == 7 {
        '7'
    } else if d == 8 {
        '8'
    } else {
        '9'
    }
}

/// The decimal rendering of `n`, most significant digit first, without
/// leading zeros (a single `'0'` for zero itself).
pub open spec fn dec_digits(n: nat) -> Seq<char>
    decreases n,
{
    if n < 10 {
        seq![digit_char(n as int)]
    } else {
        dec_digits(n / 10).push(digit_char((n % 10) as int))
    }
}

proof fn lemma_dec_digits_len(n: nat)
    ensures
        dec_digits(n).len() >= 1,
        n >= 10 ==> dec_digits(n).len() >= 2,
    decreases n,
{
    if n >= 10 {
        lemma_dec_digits_len(n / 10);
    }
}

proof fn lemma_digit_char_injective(a: int, b: int)
    requires
        0 <= a < 10,
        0 <= b < 10,
        digit_char(a) == digit_char(b),
    ensures
        a == b,
{
}

/// Distinct numbers have distinct decimal renderings.
pub proof fn lemma_dec_digits_injective(m: nat, n: nat)
    requires
        dec_digits(m) == dec_digits(n),
    ensures
        m == n,
    decreases m + n,
{
    lemma_dec_digits_len(m);
    lemma_dec_digits_len(n);
    if m < 10 && n < 10 {
        assert(dec_digits(m)[0] == digit_char(m as int));
        assert(dec_digits(n)[0] == digit_char(n as int));
        lemma_digit_char_injective(m as int, n as int);
    } else if m < 10 {
        lemma_dec_digits_len(n / 10);
        assert(dec_digits(n).len() >= 2);
    } else if n < 10 {
        lemma_dec_digits_len(m / 10);
        assert(dec_digits(m).len() >= 2);
    } else {
        assert(dec_digits(m).last() == digit_char((m % 10) as int));
        assert(dec_digits(n).last() == digit_char((n % 10) as int));
        lemma_digit_char_injective((m % 10) as int, (n % 10) as int);
        assert(dec_digits(m / 10) == dec_digits(n / 10)) by {
            assert(dec_digits(m / 10).push(digit_char((m % 10) as int)).drop_last() =~= dec_digits(
                m / 10,
            ));
            assert(dec_digits(n / 10).push(digit_char((n % 10) as int)).drop_last() =~= dec_digits(
                n / 10,
            ));
        }
        lemma_dec_digits_injective(m / 10, n / 10);
    }
}

/// The single-character rendering of one decimal digit.
fn digit_str(d: u64) -> (r: &'static str)
    requires
        d < 10,
    ensures
        r@ =~= seq![digit_char(d as int)],
{
    proof {
        reveal_strlit("0");
        reveal_strlit("1");
        reveal_strlit("2");
        reveal_strlit("3");
        reveal_strlit("4");
        reveal_strlit("5");
        reveal_strlit("6");
        reveal_strlit("7");
        reveal_strlit("8");
        reveal_strlit("9");
    }
    match d {
        0 => "0",
        1 => "1",
        2 => "2",
        3 => "3",
        4 => "4",
        5 => "5",
        6 => "6",
        7 => "7",
        8 => "8",
        _ => "9",
    }
}

/// The decimal rendering of `n` as an owned string.
pub fn u64_to_string(n: u64) -> (r: String)
    ensures
        r@ == dec_digits(n as nat),
    decreases n,
{
    if n < 10 {
        String::from_str(digit_str(n))
    } else {
        let prefix = u64_to_string(n / 10);
        let r = prefix.concat(digit_str(n % 10));
        proof {
            assert(r@ =~= dec_digits((n / 10) as nat).push(digit_char((n % 10) as int)));
        }
        r
    }
}

} // verus!
