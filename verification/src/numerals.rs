//! Decimal rendering of identifiers, and the zero-padded sequence symbol
//! given to each newly minted collection.

use vstd::prelude::*;
use vstd::string::StringExecFns;

verus! {

/// The decimal digit character for `d`, which must lie in `0..=9`.
pub open spec fn digit_char(d: nat) -> char {
    if d == 0 {
        '0'
    } else if d == 1 {
        '1'
    } else if d == 2 {
        '2'
    } else if d == 3 {
        '3'
    } else if d == 4 {
        '4'
    } else if d == 5 {
        '5'
    } else if d == 6 {
        '6'
    } else if d == 7 {
        '7'
    } else if d == 8 {
        '8'
    } else {
        '9'
    }
}

/// The decimal digits of `n`, most significant first, without leading zeros
/// (except for `n == 0`, which is the single digit `0`).
pub open spec fn decimal_digits(n: nat) -> Seq<char>
    decreases n,
{
    if n < 10 {
        seq![digit_char(n)]
    } else {
        decimal_digits(n / 10) + seq![digit_char(n % 10)]
    }
}

/// How many decimal digits `n` has.
pub open spec fn num_digits(n: nat) -> nat
    decreases n,
{
    if n < 10 {
        1
    } else {
        1 + num_digits(n / 10)
    }
}

/// `10^k`.
pub open spec fn pow10(k: nat) -> nat
    decreases k,
{
    if k == 0 {
        1
    } else {
        10 * pow10((k - 1) as nat)
    }
}

/// The concrete powers of ten up to the width of a 64-bit number.
pub proof fn lemma_pow10_values()
    ensures
        pow10(0) == 1,
        pow10(1) == 10,
        pow10(2) == 100,
        pow10(3) == 1000,
        pow10(4) == 10000,
        pow10(5) == 100000,
        pow10(6) == 1000000,
        pow10(7) == 10000000,
        pow10(8) == 100000000,
        pow10(9) == 1000000000,
        pow10(10) == 10000000000,
        pow10(11) == 100000000000,
        pow10(12) == 1000000000000,
        pow10(13) == 10000000000000,
        pow10(14) == 100000000000000,
        pow10(15) == 1000000000000000,
        pow10(16) == 10000000000000000,
        pow10(17) == 100000000000000000,
        pow10(18) == 1000000000000000000,
        pow10(19) == 10000000000000000000,
        pow10(20) == 100000000000000000000,
{
    assert(pow10(0) == 1);
    assert(pow10(1) == 10);
    assert(pow10(2) == 100);
    assert(pow10(3) == 1000);
    assert(pow10(4) == 10000);
    assert(pow10(5) == 100000);
    assert(pow10(6) == 1000000);
    assert(pow10(7) == 10000000);
    assert(pow10(8) == 100000000);
    assert(pow10(9) == 1000000000);
    assert(pow10(10) == 10000000000);
    assert(pow10(11) == 100000000000);
    assert(pow10(12) == 1000000000000);
    assert(pow10(13) == 10000000000000);
    assert(pow10(14) == 100000000000000);
    assert(pow10(15) == 1000000000000000);
    assert(pow10(16) == 10000000000000000);
    assert(pow10(17) == 100000000000000000);
    assert(pow10(18) == 1000000000000000000);
    assert(pow10(19) == 10000000000000000000);
    assert(pow10(20) == 100000000000000000000);
}

/// A number in `[10^k, 10^(k+1))` has exactly `k + 1` decimal digits.
pub proof fn lemma_num_digits_exact(n: nat, k: nat)
    requires
        pow10(k) <= n < pow10(k + 1),
    ensures
        num_digits(n) == k + 1,
    decreases k,
{
    if k == 0 {
        assert(pow10(1) == 10 * pow10(0));
    } else {
        assert(pow10(k) == 10 * pow10((k - 1) as nat));
        assert(pow10(k + 1) == 10 * pow10(k));
        assert(pow10((k - 1) as nat) <= n / 10 < pow10(k)) by {
            assert(10 * pow10((k - 1) as nat) <= n);
            assert(n < 10 * pow10(k));
        };
        lemma_num_digits_exact(n / 10, (k - 1) as nat);
    }
}

/// A number of at least `10^k` has more than `k` decimal digits.
pub proof fn lemma_num_digits_at_least(n: nat, k: nat)
    requires
        pow10(k) <= n,
    ensures
        num_digits(n) >= k + 1,
    decreases k,
{
    if k > 0 {
        assert(pow10(k) == 10 * pow10((k - 1) as nat));
        assert(pow10((k - 1) as nat) <= n / 10) by {
            assert(10 * pow10((k - 1) as nat) <= n);
        };
        lemma_num_digits_at_least(n / 10, (k - 1) as nat);
    }
}

/// The one-character string slice holding the decimal digit `d`.
fn digit_str(d: u64) -> (r: &'static str)
    requires
        d < 10,
    ensures
        r@ == seq![digit_char(d as nat)],
{
    let r = if d == 0 {
        "0"
    } else if d == 1 {
        "1"
    } else if d == 2 {
        "2"
    } else if d == 3 {
        "3"
    } else if d == 4 {
        "4"
    } else if d == 5 {
        "5"
    } else if d == 6 {
        "6"
    } else if d == 7 {
        "7"
    } else if d == 8 {
        "8"
    } else {
        "9"
    };
    proof {
        reveal_strlit("0");
        reveal_strlit("1");
        reveal_strlit("2");
        reveal_strlit("3");
        reveal_strlit("4");
        reveal_strlit("5");
        reveal_strlit("6");
        reveal_strlit("7");
        reveal_strlit("8");
        reveal_strlit("9");
        assert(r@ =~= seq![digit_char(d as nat)]);
    }
    r
}

/// Appends the decimal digits of `n` to `s`, most significant first.
fn push_decimal(s: &mut String, n: u64)
    ensures
        final(s)@ == old(s)@ + decimal_digits(n as nat),
    decreases n,
{
    if n >= 10 {
        push_decimal(s, n / 10);
    }
    let d = digit_str(n % 10);
    s.append(d);
    proof {
        if n < 10 {
            assert(s@ =~= old(s)@ + decimal_digits(n as nat));
        } else {
            assert(s@ =~= old(s)@ + decimal_digits(n as nat));
        }
    }
}

/// Renders `n` in decimal.
pub fn u64_to_decimal(n: u64) -> (r: String)
    ensures
        r@ == decimal_digits(n as nat),
{
    let mut s = String::new();
    push_decimal(&mut s, n);
    proof {
        assert(s@ =~= decimal_digits(n as nat));
    }
    s
}

/// The symbol prefix shared by every collection.
pub open spec fn symbol_prefix() -> Seq<char> {
    seq!['V', 'E', 'C', '-', '#']
}

/// `k` zero characters.
pub open spec fn zero_pad(k: nat) -> Seq<char> {
    Seq::new(k, |i: int| '0')
}

/// How many zeros pad the digits of `n`: the number part of a symbol is
/// filled to a width that shrinks by one per decade — seven characters
/// while `n` has one digit, six while it has two, five while it has three,
/// and none from four digits on.
pub open spec fn pad_width(n: nat) -> nat {
    if num_digits(n) >= 4 {
        0
    } else {
        (8 - 2 * num_digits(n)) as nat
    }
}

/// The sequence symbol for the `n`-th collection: `VEC-#`, then the decimal
/// digits of `n` left-padded with zeros to [`pad_width`].
pub open spec fn spec_format_id(n: nat) -> Seq<char> {
    symbol_prefix() + zero_pad(pad_width(n)) + decimal_digits(n)
}

/// Formats the sequence symbol of the `id`-th collection.
pub fn format_id(id: u64) -> (r: String)
    ensures
        r@ == spec_format_id(id as nat),
{
    let mut s = if id < 10 {
        String::from_str("VEC-#000000")
    } else if id < 100 {
        String::from_str("VEC-#0000")
    } else if id < 1000 {
        String::from_str("VEC-#00")
    } else {
        String::from_str("VEC-#")
    };
    proof {
        reveal_strlit("VEC-#000000");
        reveal_strlit("VEC-#0000");
        reveal_strlit("VEC-#00");
        reveal_strlit("VEC-#");
        lemma_pow10_values();
        let n = id as nat;
        if id < 10 {
            assert(num_digits(n) == 1);
        } else if id < 100 {
            lemma_num_digits_exact(n, 1);
        } else if id < 1000 {
            lemma_num_digits_exact(n, 2);
        } else {
            lemma_num_digits_at_least(n, 3);
        }
        assert(s@ =~= symbol_prefix() + zero_pad(pad_width(id as nat)));
    }
    push_decimal(&mut s, id);
    proof {
        assert(s@ =~= spec_format_id(id as nat));
    }
    s
}

} // verus!
