//! Text helpers: comparing strings, and writing numbers in decimal and in hexadecimal.

use vstd::prelude::*;
use vstd::string::StringExecFns;

verus! {

/// Whether two strings are equal.
pub fn str_equal(a: &str, b: &str) -> (equal: bool)
    ensures
        equal == (a@ == b@),
{
    a.to_owned() == b.to_owned()
}

/// The character of a digit, in lower case.
pub open spec fn digit_char(d: nat) -> char {
    if d < 10 {
        (d + ('0' as nat)) as char
    } else {
        (d - 10 + ('a' as nat)) as char
    }
}

/// A number written in the given base, without leading zeros.
pub open spec fn digits(n: nat, base: nat) -> Seq<char>
    decreases n,
{
    if base < 2 || n < base {
        seq![digit_char(n)]
    } else {
        proof {
            vstd::arithmetic::div_mod::lemma_div_decreases(n as int, base as int);
        }
        digits(n / base, base).push(digit_char(n % base))
    }
}

/// The low `count` digits of a number in the given base, with leading zeros.
pub open spec fn padded_digits(n: nat, base: nat, count: nat) -> Seq<char>
    decreases count,
{
    if count == 0 {
        Seq::empty()
    } else {
        padded_digits(n / base, base, (count - 1) as nat).push(digit_char(n % base))
    }
}

/// The number that the character of a digit stands for.
pub open spec fn digit_of(c: char) -> nat {
    if '0' <= c <= '9' {
        (c as int - '0' as int) as nat
    } else {
        (c as int - 'a' as int + 10) as nat
    }
}

/// The number that digits stand for, each of which counts `base` times as much as the next one.
pub open spec fn digits_value(text: Seq<char>, base: nat) -> nat
    decreases text.len(),
{
    if text.len() == 0 {
        0
    } else {
        digits_value(text.drop_last(), base) * base + digit_of(text.last())
    }
}

/// Written in a base, a number can be read again. There is at least one digit, and more than one
/// only if the first is not zero.
pub proof fn law_digits_tell_number(n: nat, base: nat)
    requires
        2 <= base <= 16,
    ensures
        digits_value(digits(n, base), base) == n,
        digits(n, base).len() > 0,
        n > 0 ==> digits(n, base)[0] != '0',
    decreases n,
{
    let text = digits(n, base);
    if n < base {
        assert(text.drop_last() =~= Seq::<char>::empty());
        assert(digits_value(text.drop_last(), base) == 0);
        assert(0 * base == 0);
    } else {
        vstd::arithmetic::div_mod::lemma_div_decreases(n as int, base as int);
        vstd::arithmetic::div_mod::lemma_fundamental_div_mod(n as int, base as int);
        vstd::arithmetic::div_mod::lemma_div_non_zero(n as int, base as int);
        vstd::arithmetic::mul::lemma_mul_is_commutative(base as int, (n / base) as int);
        law_digits_tell_number(n / base, base);
        assert(text.drop_last() =~= digits(n / base, base));
        assert(n % base < base);
    }
}

/// Written with a fixed number of digits, a number that needs no more can be read again.
pub proof fn law_padded_digits_tell_number(n: nat, base: nat, count: nat)
    requires
        2 <= base <= 16,
    ensures
        padded_digits(n, base, count).len() == count,
        digits_value(padded_digits(n, base, count), base) == n % (vstd::arithmetic::power::pow(
            base as int,
            count,
        ) as nat),
    decreases count,
{
    let text = padded_digits(n, base, count);
    vstd::arithmetic::power::lemma_pow_positive(base as int, count);
    if count == 0 {
        vstd::arithmetic::power::lemma_pow0(base as int);
        assert(n % 1 == 0);
    } else {
        let less = (count - 1) as nat;
        let part = vstd::arithmetic::power::pow(base as int, less);
        vstd::arithmetic::power::lemma_pow_positive(base as int, less);
        reveal(vstd::arithmetic::power::pow);
        assert(vstd::arithmetic::power::pow(base as int, count) == base * part);
        law_padded_digits_tell_number(n / base, base, less);
        assert(text.drop_last() =~= padded_digits(n / base, base, less));
        vstd::arithmetic::div_mod::lemma_mod_breakdown(n as int, base as int, part);
        vstd::arithmetic::mul::lemma_mul_is_commutative(
            base as int,
            ((n / base) as int) % part,
        );
        assert(n % base < base) by {
            vstd::arithmetic::div_mod::lemma_mod_bound(n as int, base as int);
        }
    }
}

/// The string that holds a single digit.
pub fn digit_str(d: u8) -> (s: &'static str)
    requires
        d < 16,
    ensures
        s@ == seq![digit_char(d as nat)],
{
    proof {
        reveal_strlit("0");
        reveal_strlit("1");
        reveal_strlit("2");
        reveal_strlit("3");
        reveal_strlit("4");
        reveal_strlit("5");
        reveal_strlit("6");
        reveal_strlit("7");
        reveal_strlit("8");
        reveal_strlit("9");
        reveal_strlit("a");
        reveal_strlit("b");
        reveal_strlit("c");
        reveal_strlit("d");
        reveal_strlit("e");
        reveal_strlit("f");
    }
    let s: &'static str = match d {
        0 => "0",
        1 => "1",
        2 => "2",
        3 => "3",
        4 => "4",
        5 => "5",
        6 => "6",
        7 => "7",
        8 => "8",
        9 => "9",
        10 => "a",
        11 => "b",
        12 => "c",
        13 => "d",
        14 => "e",
        _ => "f",
    };
    assert(s@ =~= seq![digit_char(d as nat)]);
    s
}

/// Writes a number in the given base, without leading zeros.
pub fn write_digits(n: u64, base: u64) -> (s: String)
    requires
        2 <= base <= 16,
    ensures
        s@ == digits(n as nat, base as nat),
    decreases n,
{
    if n < base {
        digit_str(n as u8).to_owned()
    } else {
        proof {
            vstd::arithmetic::div_mod::lemma_div_decreases(n as int, base as int);
        }
        let mut s: String = write_digits(n / base, base);
        s.append(digit_str((n % base) as u8));
        assert(s@ =~= digits(n as nat, base as nat));
        s
    }
}

/// Writes the low `count` digits of a number in the given base.
pub fn write_padded(n: u64, base: u64, count: u8) -> (s: String)
    requires
        2 <= base <= 16,
    ensures
        s@ == padded_digits(n as nat, base as nat, count as nat),
    decreases count,
{
    if count == 0 {
        let s: String = String::new();
        assert(s@ =~= Seq::<char>::empty());
        s
    } else {
        let mut s: String = write_padded(n / base, base, count - 1);
        s.append(digit_str((n % base) as u8));
        assert(s@ =~= padded_digits(n as nat, base as nat, count as nat));
        s
    }
}

} // verus!
