//! Decimal rendering of integers, as it appears in query strings and in the
//! timestamp of a signed request.

use vstd::prelude::*;

verus! {

/// The character that stands for one decimal digit.
pub open spec fn digit_char(d: int) -> char {
    if d == 0 {
        '0'
    } else if d == 1 {
        '1'
    } else if d == 2 {
        '2'
    } else if d == 3 {
        '3'
    } else if d == 4 {
        '4'
    } else if d == 5 {
        '5'
    } else if d == 6 {
        '6'
    } else if d == 7 {
        '7'
    } else if d == 8 {
        '8'
    } else {
        '9'
    }
}

/// The digits of a natural number, most significant first, without leading
/// zeros; zero is the single digit `0`.
pub open spec fn natural_text(n: nat) -> Seq<char>
    decreases n,
{
    if n < 10 {
        seq![digit_char(n as int)]
    } else {
        natural_text(n / 10).push(digit_char((n % 10) as int))
    }
}

/// The decimal text of an integer: a minus sign for a negative number, then
/// the digits of its magnitude.
pub open spec fn decimal_text(n: int) -> Seq<char> {
    if n < 0 {
        seq!['-'] + natural_text((-n) as nat)
    } else {
        natural_text(n as nat)
    }
}

/// One decimal digit as a string slice.
fn digit_str(d: u64) -> (r: &'static str)
    requires
        d < 10,
    ensures
        r@ == seq![digit_char(d as int)],
{
    proof {
        reveal_strlit("0");
        reveal_strlit("1");
        reveal_strlit("2");
        reveal_strlit("3");
        reveal_strlit("4");
        reveal_strlit("5");
        reveal_strlit("6");
        reveal_strlit("7");
        reveal_strlit("8");
        reveal_strlit("9");
    }
    let r: &'static str = if d == 0 {
        "0"
    } else if d == 1 {
        "1"
    } else if d == 2 {
        "2"
    } else if d == 3 {
        "3"
    } else if d == 4 {
        "4"
    } else if d == 5 {
        "5"
    } else if d == 6 {
        "6"
    } else if d == 7 {
        "7"
    } else if d == 8 {
        "8"
    } else {
        "9"
    };
    assert(r@ =~= seq![digit_char(d as int)]);
    r
}

/// Appends the digits of `n` to `out`.
fn append_natural(out: &mut String, n: u64)
    ensures
        final(out)@ == old(out)@ + natural_text(n as nat),
    decreases n,
{
    if n >= 10 {
        append_natural(out, n / 10);
    }
    let d = digit_str(n % 10);
    out.append(d);
    assert(final(out)@ =~= old(out)@ + natural_text(n as nat));
}

/// Renders `n` in decimal, as `i64`'s own formatting does.
pub fn decimal_string(n: i64) -> (r: String)
    ensures
        r@ == decimal_text(n as int),
{
    let mut out = String::new();
    if n < 0 {
        proof {
            reveal_strlit("-");
        }
        out.append("-");
        let magnitude: u64 = if n == i64::MIN {
            9223372036854775808u64
        } else {
            (-n) as u64
        };
        append_natural(&mut out, magnitude);
        assert(out@ =~= decimal_text(n as int));
    } else {
        append_natural(&mut out, n as u64);
        assert(out@ =~= decimal_text(n as int));
    }
    out
}

/// The digits of a number are at least one, and none of them is a minus
/// sign.
pub proof fn lemma_natural_text_digits(n: nat)
    ensures
        natural_text(n).len() >= 1,
        forall|i: int| 0 <= i < natural_text(n).len() ==> natural_text(n)[i] != '-',
    decreases n,
{
    if n >= 10 {
        lemma_natural_text_digits(n / 10);
    }
}

/// Different natural numbers have different digits.
pub proof fn lemma_natural_text_tells_numbers(first: nat, second: nat)
    requires
        first != second,
    ensures
        natural_text(first) != natural_text(second),
    decreases first,
{
    lemma_natural_text_digits(first / 10);
    lemma_natural_text_digits(second / 10);
    if natural_text(first) == natural_text(second) {
        if first < 10 && second < 10 {
            assert(natural_text(first)[0] == natural_text(second)[0]);
        } else if first >= 10 && second >= 10 {
            let a = natural_text(first / 10);
            let b = natural_text(second / 10);
            let x = digit_char((first % 10) as int);
            let y = digit_char((second % 10) as int);
            assert(a.push(x).last() == b.push(y).last());
            assert(a.push(x).drop_last() =~= a);
            assert(b.push(y).drop_last() =~= b);
            assert(first % 10 == second % 10);
            if first / 10 != second / 10 {
                lemma_natural_text_tells_numbers(first / 10, second / 10);
            }
        } else {
            assert(natural_text(first).len() == natural_text(second).len());
        }
    }
}

/// Different integers are written differently.
pub proof fn lemma_decimal_text_tells_numbers(first: int, second: int)
    requires
        first != second,
    ensures
        decimal_text(first) != decimal_text(second),
{
    let a = if first < 0 {
        (-first) as nat
    } else {
        first as nat
    };
    let b = if second < 0 {
        (-second) as nat
    } else {
        second as nat
    };
    lemma_natural_text_digits(a);
    lemma_natural_text_digits(b);
    if decimal_text(first) == decimal_text(second) {
        assert(decimal_text(first)[0] == decimal_text(second)[0]);
        if first < 0 {
            assert(decimal_text(first)[0] == '-');
            assert(second < 0);
            assert(decimal_text(first).drop_first() =~= natural_text(a));
            assert(decimal_text(second).drop_first() =~= natural_text(b));
        }
        lemma_natural_text_tells_numbers(a, b);
    }
}

} // verus!
