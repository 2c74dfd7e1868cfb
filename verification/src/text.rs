//! Text building blocks shared by the encoder and the response classifier:
//! appending characters to a `String`, and writing integers in decimal.
use vstd::prelude::*;

verus! {

/// `String::push` appends the given character to the end of the string.
pub assume_specification[ std::string::String::push ](s: &mut std::string::String, c: char)
    ensures
        final(s)@ == old(s)@.push(c),
;

/// The character that writes the decimal digit `d`.
pub open spec fn digit_char(d: nat) -> char
    recommends
        d < 10,
{
    if d == 0 {
        '0'
    } else if d == 1 {
        '1'
    } else if d == 2 {
        '2'
    } else if d == 3 {
        '3'
    } else if d == 4 {
        '4'
    } else if d == 5 {
        '5'
    } else if d == 6 {
        '6'
    } else if d == 7 {
        '7'
    } else if d == 8 {
        '8'
    } else {
        '9'
    }
}

/// Whether `c` is one of the ten decimal digits.
pub open spec fn is_digit(c: char) -> bool {
    '0' <= c <= '9'
}

/// The value of the decimal digit `c`.
pub open spec fn digit_value(c: char) -> nat
    recommends
        is_digit(c),
{
    (c as int - '0' as int) as nat
}

/// The digits of `n` in base ten, most significant first, without leading
/// zeros; zero is written `0`.
pub open spec fn nat_digits(n: nat) -> Seq<char>
    decreases n,
{
    if n < 10 {
        seq![digit_char(n)]
    } else {
        nat_digits(n / 10).push(digit_char(n % 10))
    }
}

/// The decimal numeral of `i`: a minus sign for negative numbers, then the
/// digits of the magnitude.
pub open spec fn decimal(i: int) -> Seq<char> {
    if i < 0 {
        seq!['-'] + nat_digits((-i) as nat)
    } else {
        nat_digits(i as nat)
    }
}

/// Every digit character is a digit, and its value is the digit it writes.
pub proof fn lemma_digit_char(d: nat)
    requires
        d < 10,
    ensures
        is_digit(digit_char(d)),
        digit_value(digit_char(d)) == d,
{
}

/// A numeral of a natural number is not empty and holds digits only.
pub proof fn lemma_nat_digits_are_digits(n: nat)
    ensures
        nat_digits(n).len() > 0,
        forall|k: int| 0 <= k < nat_digits(n).len() ==> is_digit(#[trigger] nat_digits(n)[k]),
    decreases n,
{
    if n < 10 {
        lemma_digit_char(n);
    } else {
        lemma_nat_digits_are_digits(n / 10);
        lemma_digit_char(n % 10);
    }
}

fn digit(d: u8) -> (c: char)
    requires
        d < 10,
    ensures
        c == digit_char(d as nat),
{
    match d {
        0 => '0',
        1 => '1',
        2 => '2',
        3 => '3',
        4 => '4',
        5 => '5',
        6 => '6',
        7 => '7',
        8 => '8',
        _ => '9',
    }
}

/// Appends the decimal digits of `n` to `out`.
pub fn push_nat(out: &mut String, n: u64)
    ensures
        final(out)@ == old(out)@ + nat_digits(n as nat),
    decreases n,
{
    if n >= 10 {
        push_nat(out, n / 10);
    }
    let d: u8 = (n % 10) as u8;
    out.push(digit(d));
}

/// Appends the decimal numeral of `i` to `out`.
pub fn push_decimal(out: &mut String, i: i64)
    ensures
        final(out)@ == old(out)@ + decimal(i as int),
{
    if i < 0 {
        out.push('-');
        let magnitude: u64 = (-(i + 1)) as u64 + 1;
        push_nat(out, magnitude);
    } else {
        push_nat(out, i as u64);
    }
}

/// Appends the characters of `text` to `out`, in order.
pub fn push_chars(out: &mut Vec<char>, text: &str)
    ensures
        final(out)@ == old(out)@ + text@,
{
    for c in it: text.chars()
        invariant
            it.seq() == text@,
            out@ == old(out)@ + text@.take(it.index() as int),
    {
        proof {
            let k = it.index() as int;
            assert(text@.take(k + 1) == text@.take(k).push(c));
        }
        out.push(c);
    }
    proof {
        assert(text@.take(text@.len() as int) == text@);
    }
}

/// Whether the character `c` occurs in `s`.
pub fn contains_char(s: &str, c: char) -> (found: bool)
    ensures
        found == s@.contains(c),
{
    let mut found = false;
    for x in it: s.chars()
        invariant
            it.seq() == s@,
            found == s@.take(it.index() as int).contains(c),
    {
        proof {
            let k = it.index() as int;
            assert(s@.take(k + 1) == s@.take(k).push(x));
            if s@.take(k).contains(c) {
                let j = choose|j: int| 0 <= j < k && s@.take(k)[j] == c;
                assert(s@.take(k + 1)[j] == c);
            }
            if x == c {
                assert(s@.take(k + 1)[k] == c);
            }
        }
        if x == c {
            found = true;
        }
    }
    proof {
        assert(s@.take(s@.len() as int) == s@);
    }
    found
}

} // verus!
