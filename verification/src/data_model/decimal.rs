//! Decimal numerals: how a floating-point number is held and written.
//!
//! The line protocol tells a float from an integer by its text alone, so a
//! float is kept as the numeral that goes on the wire, checked once when it is
//! made.
use crate::text::{is_digit, push_chars};
use vstd::prelude::*;

verus! {

/// The index just past the run of digits that starts at `from`.
pub open spec fn digit_run(s: Seq<char>, from: int) -> int
    decreases s.len() - from,
{
    if 0 <= from < s.len() && is_digit(s[from]) {
        digit_run(s, from + 1)
    } else {
        from
    }
}

/// Where the mantissa of a numeral ends: an optional minus sign, digits, and
/// optionally a point followed by digits. `None` where a digit is missing.
pub open spec fn mantissa_end(s: Seq<char>) -> Option<int> {
    let start = if s.len() > 0 && s[0] == '-' {
        1int
    } else {
        0int
    };
    let whole = digit_run(s, start);
    if whole == start {
        None
    } else if whole < s.len() && s[whole] == '.' {
        let fraction = digit_run(s, whole + 1);
        if fraction == whole + 1 {
            None
        } else {
            Some(fraction)
        }
    } else {
        Some(whole)
    }
}

/// Where the exponent that starts at `from` ends: nothing, or `e` or `E`, an
/// optional sign, and digits. `None` where a digit is missing.
pub open spec fn exponent_end(s: Seq<char>, from: int) -> Option<int> {
    if 0 <= from < s.len() && (s[from] == 'e' || s[from] == 'E') {
        let start = if from + 1 < s.len() && (s[from + 1] == '-' || s[from + 1] == '+') {
            from + 2
        } else {
            from + 1
        };
        let end = digit_run(s, start);
        if end == start {
            None
        } else {
            Some(end)
        }
    } else {
        Some(from)
    }
}

/// Whether `s` is a decimal numeral: a mantissa and an optional exponent, and
/// nothing after them.
pub open spec fn is_decimal(s: Seq<char>) -> bool {
    match mantissa_end(s) {
        Some(m) => exponent_end(s, m) == Some(s.len() as int),
        None => false,
    }
}

/// Whether the numeral `s` cannot be taken for an integer.
pub open spec fn has_fraction_or_exponent(s: Seq<char>) -> bool {
    s.contains('.') || s.contains('e') || s.contains('E')
}

/// Whether `s` is the numeral of a float as it is written: a decimal numeral
/// that cannot be taken for an integer.
pub open spec fn is_float_numeral(s: Seq<char>) -> bool {
    is_decimal(s) && has_fraction_or_exponent(s)
}

/// The numeral `s` as a float is written: unchanged where it has a fraction or
/// an exponent, and with `.0` after it where it has neither.
pub open spec fn float_text(s: Seq<char>) -> Seq<char> {
    if has_fraction_or_exponent(s) {
        s
    } else {
        s + seq!['.', '0']
    }
}

/// A run of digits stays inside the text, holds digits only, and ends at the
/// first character that is no digit.
pub proof fn lemma_digit_run(s: Seq<char>, from: int)
    requires
        0 <= from <= s.len(),
    ensures
        from <= digit_run(s, from) <= s.len(),
        forall|k: int| from <= k < digit_run(s, from) ==> is_digit(#[trigger] s[k]),
        digit_run(s, from) < s.len() ==> !is_digit(s[digit_run(s, from)]),
    decreases s.len() - from,
{
    if from < s.len() && is_digit(s[from]) {
        lemma_digit_run(s, from + 1);
    }
}

/// The run of digits from `from` ends at `end` where the characters between
/// them are digits and the one at `end`, if any, is not.
pub proof fn lemma_digit_run_ends(s: Seq<char>, from: int, end: int)
    requires
        0 <= from <= end <= s.len(),
        forall|k: int| from <= k < end ==> is_digit(#[trigger] s[k]),
        end < s.len() ==> !is_digit(s[end]),
    ensures
        digit_run(s, from) == end,
    decreases end - from,
{
    if from < end {
        lemma_digit_run_ends(s, from + 1, end);
    }
}

/// A numeral written as a float is a numeral that has a fraction or an
/// exponent.
pub proof fn lemma_float_text_is_decimal(s: Seq<char>)
    requires
        is_decimal(s),
    ensures
        is_float_numeral(float_text(s)),
{
    if !has_fraction_or_exponent(s) {
        let t = s + seq!['.', '0'];
        let n = s.len() as int;
        let start = if s.len() > 0 && s[0] == '-' {
            1int
        } else {
            0int
        };
        let whole = digit_run(s, start);
        lemma_digit_run(s, start);
        if whole < n {
            assert(s.contains(s[whole]));
        }
        assert(whole == n);
        assert forall|k: int| start <= k < n implies is_digit(#[trigger] t[k]) by {
            assert(t[k] == s[k]);
        }
        assert(t[n] == '.');
        assert(t[n + 1] == '0');
        lemma_digit_run_ends(t, start, n);
        lemma_digit_run_ends(t, n + 1, n + 2);
        assert(t.len() > 0 && (t[0] == '-') == (s.len() > 0 && s[0] == '-'));
        assert(mantissa_end(t) == Some(n + 2));
        assert(t.contains(t[n]));
    }
}

/// A decimal numeral that cannot be taken for an integer: what stands for a
/// floating-point number.
#[derive(Debug, PartialEq, Eq)]
pub struct Decimal {
    text: String,
}

impl View for Decimal {
    type V = Seq<char>;

    closed spec fn view(&self) -> Seq<char> {
        self.text@
    }
}

fn scan_digits(chars: &Vec<char>, from: usize) -> (end: usize)
    requires
        from <= chars.len(),
    ensures
        end == digit_run(chars@, from as int),
        from <= end <= chars.len(),
{
    let mut end: usize = from;
    while end < chars.len() && '0' <= chars[end] && chars[end] <= '9'
        invariant
            from <= end <= chars.len(),
            digit_run(chars@, from as int) == digit_run(chars@, end as int),
        decreases chars.len() - end,
    {
        end = end + 1;
    }
    end
}

fn scan_mantissa(chars: &Vec<char>) -> (end: Option<usize>)
    ensures
        match end {
            Some(e) => mantissa_end(chars@) == Some(e as int) && e <= chars.len(),
            None => mantissa_end(chars@) is None,
        },
{
    let start: usize = if chars.len() > 0 && chars[0] == '-' {
        1
    } else {
        0
    };
    let whole: usize = scan_digits(chars, start);
    if whole == start {
        None
    } else if whole < chars.len() && chars[whole] == '.' {
        let fraction: usize = scan_digits(chars, whole + 1);
        if fraction == whole + 1 {
            None
        } else {
            Some(fraction)
        }
    } else {
        Some(whole)
    }
}

fn scan_exponent(chars: &Vec<char>, from: usize) -> (end: Option<usize>)
    requires
        from <= chars.len(),
    ensures
        match end {
            Some(e) => exponent_end(chars@, from as int) == Some(e as int) && e <= chars.len(),
            None => exponent_end(chars@, from as int) is None,
        },
{
    if from < chars.len() && (chars[from] == 'e' || chars[from] == 'E') {
        let start: usize = if from + 1 < chars.len() && (chars[from + 1] == '-' || chars[from
            + 1] == '+') {
            from + 2
        } else {
            from + 1
        };
        let end: usize = scan_digits(chars, start);
        if end == start {
            None
        } else {
            Some(end)
        }
    } else {
        Some(from)
    }
}

fn holds_fraction_or_exponent(chars: &Vec<char>) -> (found: bool)
    ensures
        found == has_fraction_or_exponent(chars@),
{
    let mut found = false;
    let mut i: usize = 0;
    while i < chars.len()
        invariant
            i <= chars.len(),
            found == has_fraction_or_exponent(chars@.take(i as int)),
        decreases chars.len() - i,
    {
        let c = chars[i];
        proof {
            let before = chars@.take(i as int);
            let after = chars@.take(i + 1);
            assert(after == before.push(c));
            assert forall|x: char| after.contains(x) <==> (before.contains(x) || x == c) by {
                if before.contains(x) {
                    let j = choose|j: int| 0 <= j < before.len() && before[j] == x;
                    assert(after[j] == x);
                }
                if x == c {
                    assert(after[i as int] == x);
                }
            }
        }
        if c == '.' || c == 'e' || c == 'E' {
            found = true;
        }
        i = i + 1;
    }
    proof {
        assert(chars@.take(chars.len() as int) == chars@);
    }
    found
}

impl Decimal {
    /// What holds of every numeral that is held: it is a decimal numeral that
    /// cannot be taken for an integer.
    #[verifier::type_invariant]
    pub open spec fn well_formed(self) -> bool {
        is_float_numeral(self@)
    }

    /// Reads a numeral. The result is `Some` exactly where `text` is a decimal
    /// numeral, and then holds it as a float is written.
    pub fn parse(text: &str) -> (numeral: Option<Decimal>)
        ensures
            numeral is Some <==> is_decimal(text@),
            numeral matches Some(d) ==> d@ == float_text(text@),
    {
        let mut chars: Vec<char> = Vec::new();
        push_chars(&mut chars, text);
        let accepted = match scan_mantissa(&chars) {
            Some(m) => match scan_exponent(&chars, m) {
                Some(e) => e == chars.len(),
                None => false,
            },
            None => false,
        };
        if !accepted {
            return None;
        }
        let mut written = text.to_owned();
        if !holds_fraction_or_exponent(&chars) {
            written.push('.');
            written.push('0');
            assert(written@ == text@ + seq!['.', '0']);
        }
        proof {
            lemma_float_text_is_decimal(text@);
        }
        Some(Decimal { text: written })
    }

    /// The numeral as it is written: a decimal numeral with a fraction or an
    /// exponent.
    pub fn as_str(&self) -> (text: &str)
        ensures
            text@ == self@,
            is_float_numeral(text@),
    {
        proof {
            use_type_invariant(self);
        }
        self.text.as_str()
    }
}

impl Clone for Decimal {
    fn clone(&self) -> (copy: Decimal)
        ensures
            copy@ == self@,
    {
        proof {
            use_type_invariant(self);
        }
        Decimal { text: self.text.clone() }
    }
}

} // verus!
