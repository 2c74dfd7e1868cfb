//! How a text in the line protocol is read: the reader that the writer is held
//! to. Nothing here runs; it states, and proves, that what was written is read
//! back as it was.
use crate::data_model::data_points::{
    all_valid, entry_has_line_break, has_line_break, numerals_well_formed, Entries, PointView,
    ValueView,
};
use crate::data_model::decimal::{digit_run, exponent_end, is_decimal, lemma_digit_run, mantissa_end};
use crate::serialization::{
    bool_text, escaped, escaped_char, field_item, field_text, fields_text, line_text, lines_text,
    needs_escape, tag_item, tag_text, tags_text, timestamp_text, Escaping,
};
use crate::text::{decimal, digit_value, is_digit, lemma_digit_char, nat_digits};
use vstd::prelude::*;

verus! {

/// The number that a run of digits writes.
pub open spec fn digits_value(s: Seq<char>) -> nat
    decreases s.len(),
{
    if s.len() == 0 {
        0
    } else {
        digits_value(s.drop_last()) * 10 + digit_value(s.last())
    }
}

/// Whether `s` holds digits only.
pub open spec fn all_digits(s: Seq<char>) -> bool {
    forall|k: int| 0 <= k < s.len() ==> is_digit(#[trigger] s[k])
}

/// The natural number that `s` writes; `None` where `s` is empty or holds
/// anything but digits.
pub open spec fn read_nat(s: Seq<char>) -> Option<nat> {
    if s.len() > 0 && all_digits(s) {
        Some(digits_value(s))
    } else {
        None
    }
}

/// The integer that `s` writes: an optional minus sign, then digits.
pub open spec fn read_decimal(s: Seq<char>) -> Option<int> {
    if s.len() > 0 && s[0] == '-' {
        match read_nat(s.skip(1)) {
            Some(n) => Some(-(n as int)),
            None => None,
        }
    } else {
        match read_nat(s) {
            Some(n) => Some(n as int),
            None => None,
        }
    }
}

/// The digits of a natural number write that number.
pub proof fn lemma_read_nat_digits(n: nat)
    ensures
        read_nat(nat_digits(n)) == Some(n),
    decreases n,
{
    if n < 10 {
        lemma_digit_char(n);
        let s = nat_digits(n);
        assert(s.drop_last() =~= Seq::<char>::empty());
        assert(digits_value(s.drop_last()) == 0);
    } else {
        lemma_read_nat_digits(n / 10);
        lemma_digit_char(n % 10);
        let s = nat_digits(n);
        assert(s.drop_last() =~= nat_digits(n / 10));
        assert forall|k: int| 0 <= k < s.len() implies is_digit(#[trigger] s[k]) by {
            if k < s.len() - 1 {
                assert(s[k] == nat_digits(n / 10)[k]);
            }
        }
    }
}

/// The numeral of an integer is read back as that integer.
pub proof fn lemma_read_decimal(i: int)
    ensures
        read_decimal(decimal(i)) == Some(i),
{
    if i < 0 {
        let n = (-i) as nat;
        lemma_read_nat_digits(n);
        assert(decimal(i).skip(1) =~= nat_digits(n));
    } else {
        lemma_read_nat_digits(i as nat);
        let s = nat_digits(i as nat);
        assert(is_digit(s[0]));
    }
}

/// A text written in two parts is the two parts written one after the other.
pub proof fn lemma_escaped_concat(mode: Escaping, a: Seq<char>, b: Seq<char>)
    ensures
        escaped(mode, a + b) == escaped(mode, a) + escaped(mode, b),
    decreases b.len(),
{
    if b.len() == 0 {
        assert(a + b =~= a);
        assert(escaped(mode, a) + escaped(mode, b) =~= escaped(mode, a));
    } else {
        lemma_escaped_concat(mode, a, b.drop_last());
        assert((a + b).drop_last() =~= a + b.drop_last());
        assert((a + b).last() == b.last());
        assert(escaped(mode, a + b) =~= escaped(mode, a) + escaped(mode, b));
    }
}

/// A text as it is written starts with its first character as it is written.
pub proof fn lemma_escaped_front(mode: Escaping, s: Seq<char>)
    requires
        s.len() > 0,
    ensures
        escaped(mode, s) == escaped_char(mode, s[0]) + escaped(mode, s.skip(1)),
{
    let head = seq![s[0]];
    assert(head.drop_last().len() == 0);
    assert(escaped(mode, head.drop_last()) =~= Seq::<char>::empty());
    assert(head.last() == s[0]);
    assert(escaped(mode, head) =~= escaped_char(mode, s[0]));
    assert(s =~= head + s.skip(1));
    lemma_escaped_concat(mode, head, s.skip(1));
}

/// Reads a name: the characters up to the first comma, space or equals sign
/// that has no backslash before it, each escaped one without its backslash.
/// Gives the name and what follows it.
pub open spec fn read_name(s: Seq<char>) -> (Seq<char>, Seq<char>)
    decreases s.len(),
{
    if s.len() == 0 {
        (Seq::empty(), s)
    } else if s[0] == '\\' && s.len() >= 2 && needs_escape(Escaping::Name, s[1]) {
        let (name, rest) = read_name(s.skip(2));
        (seq![s[1]] + name, rest)
    } else if needs_escape(Escaping::Name, s[0]) {
        (Seq::empty(), s)
    } else {
        let (name, rest) = read_name(s.skip(1));
        (seq![s[0]] + name, rest)
    }
}

/// Whether a name can be followed by syntax: a backslash at its end would
/// take what follows for a part of the name.
pub open spec fn ends_cleanly(name: Seq<char>) -> bool {
    name.len() > 0 ==> name.last() != '\\'
}

/// A name that was written is read back as it was, up to the syntax that
/// follows it.
pub proof fn lemma_read_name_written(name: Seq<char>, rest: Seq<char>)
    requires
        rest.len() == 0 || needs_escape(Escaping::Name, rest[0]),
        rest.len() > 0 ==> ends_cleanly(name),
    ensures
        read_name(escaped(Escaping::Name, name) + rest) == (name, rest),
    decreases name.len(),
{
    let mode = Escaping::Name;
    let full = escaped(mode, name) + rest;
    if name.len() == 0 {
        assert(full =~= rest);
    } else {
        let c = name[0];
        let tail = name.skip(1);
        lemma_escaped_front(mode, name);
        if tail.len() > 0 {
            assert(tail.last() == name.last());
            lemma_escaped_front(mode, tail);
        }
        lemma_read_name_written(tail, rest);
        let after = escaped(mode, tail) + rest;
        if needs_escape(mode, c) {
            assert(full =~= seq!['\\', c] + after);
            assert(full.skip(2) =~= after);
            assert(seq![c] + tail =~= name);
        } else {
            assert(full =~= seq![c] + after);
            assert(full.skip(1) =~= after);
            if c == '\\' && full.len() >= 2 {
                if tail.len() > 0 {
                    assert(full[1] == escaped(mode, tail)[0]);
                    assert(!needs_escape(mode, full[1]));
                } else {
                    assert(name.last() == '\\');
                }
            }
            assert(seq![c] + tail =~= name);
        }
    }
}

/// Reads the inside of a quoted text up to the double quote that ends it: a
/// backslash before a double quote or a backslash is dropped, every other
/// character is kept. Gives the text and what follows the closing quote;
/// `None` where no quote closes the text.
pub open spec fn read_quoted_body(s: Seq<char>) -> Option<(Seq<char>, Seq<char>)>
    decreases s.len(),
{
    if s.len() == 0 {
        None
    } else if s[0] == '"' {
        Some((Seq::empty(), s.skip(1)))
    } else if s[0] == '\\' && s.len() >= 2 && needs_escape(Escaping::Quoted, s[1]) {
        match read_quoted_body(s.skip(2)) {
            Some((text, rest)) => Some((seq![s[1]] + text, rest)),
            None => None,
        }
    } else {
        match read_quoted_body(s.skip(1)) {
            Some((text, rest)) => Some((seq![s[0]] + text, rest)),
            None => None,
        }
    }
}

/// A text that was written between double quotes is read back as it was,
/// whatever it holds and whatever follows it.
pub proof fn lemma_read_quoted_written(text: Seq<char>, rest: Seq<char>)
    ensures
        read_quoted_body(escaped(Escaping::Quoted, text) + seq!['"'] + rest) == Some((text, rest)),
    decreases text.len(),
{
    let mode = Escaping::Quoted;
    let full = escaped(mode, text) + seq!['"'] + rest;
    if text.len() == 0 {
        assert(full =~= seq!['"'] + rest);
        assert(full.skip(1) =~= rest);
    } else {
        let c = text[0];
        let tail = text.skip(1);
        lemma_escaped_front(mode, text);
        lemma_read_quoted_written(tail, rest);
        let after = escaped(mode, tail) + seq!['"'] + rest;
        if needs_escape(mode, c) {
            assert(full =~= seq!['\\', c] + after);
            assert(full.skip(2) =~= after);
        } else {
            assert(full =~= seq![c] + after);
            assert(full.skip(1) =~= after);
        }
        assert(seq![c] + tail =~= text);
    }
}

/// Reads a word that stands bare: the characters up to the first comma or
/// space. Gives the word and what follows it.
pub open spec fn read_bare(s: Seq<char>) -> (Seq<char>, Seq<char>)
    decreases s.len(),
{
    if s.len() == 0 || s[0] == ',' || s[0] == ' ' {
        (Seq::empty(), s)
    } else {
        let (word, rest) = read_bare(s.skip(1));
        (seq![s[0]] + word, rest)
    }
}

/// Whether a word holds neither a comma nor a space.
pub open spec fn is_bare(word: Seq<char>) -> bool {
    forall|k: int| 0 <= k < word.len() ==> #[trigger] word[k] != ',' && word[k] != ' '
}

/// A bare word is read back as it was, up to the comma or space that follows
/// it.
pub proof fn lemma_read_bare_written(word: Seq<char>, rest: Seq<char>)
    requires
        is_bare(word),
        rest.len() == 0 || rest[0] == ',' || rest[0] == ' ',
    ensures
        read_bare(word + rest) == (word, rest),
    decreases word.len(),
{
    let full = word + rest;
    if word.len() == 0 {
        assert(full =~= rest);
    } else {
        let tail = word.skip(1);
        assert forall|k: int| 0 <= k < tail.len() implies #[trigger] tail[k] != ',' && tail[k]
            != ' ' by {
            assert(tail[k] == word[k + 1]);
        }
        lemma_read_bare_written(tail, rest);
        assert(full[0] == word[0]);
        assert(full.skip(1) =~= tail + rest);
        assert(seq![word[0]] + tail =~= word);
    }
}

/// Whether `c` can stand in a numeral: a digit, a sign, a point, or the mark
/// of an exponent.
pub open spec fn is_numeral_char(c: char) -> bool {
    is_digit(c) || c == '-' || c == '+' || c == '.' || c == 'e' || c == 'E'
}

/// Whether `s` is not empty and holds characters of numerals only.
pub open spec fn is_numeral_text(s: Seq<char>) -> bool {
    s.len() > 0 && forall|k: int| 0 <= k < s.len() ==> is_numeral_char(#[trigger] s[k])
}

/// The numeral of an integer holds characters of numerals only.
pub proof fn lemma_decimal_is_numeral_text(i: int)
    ensures
        is_numeral_text(decimal(i)),
{
    let n = if i < 0 {
        (-i) as nat
    } else {
        i as nat
    };
    crate::text::lemma_nat_digits_are_digits(n);
    let s = decimal(i);
    assert forall|k: int| 0 <= k < s.len() implies is_numeral_char(#[trigger] s[k]) by {
        if i < 0 {
            if k > 0 {
                assert(s[k] == nat_digits(n)[k - 1]);
            }
        }
    }
}

/// A decimal numeral holds characters of numerals only.
pub proof fn lemma_is_decimal_numeral_text(s: Seq<char>)
    requires
        is_decimal(s),
    ensures
        is_numeral_text(s),
{
    let start = if s.len() > 0 && s[0] == '-' {
        1int
    } else {
        0int
    };
    lemma_digit_run(s, start);
    let whole = digit_run(s, start);
    let m = mantissa_end(s)->0;
    if whole < s.len() && s[whole] == '.' {
        lemma_digit_run(s, whole + 1);
    }
    let e = exponent_end(s, m)->0;
    if 0 <= m < s.len() && (s[m] == 'e' || s[m] == 'E') {
        let from = if m + 1 < s.len() && (s[m + 1] == '-' || s[m + 1] == '+') {
            m + 2
        } else {
            m + 1
        };
        lemma_digit_run(s, from);
    }
    assert forall|k: int| 0 <= k < s.len() implies is_numeral_char(#[trigger] s[k]) by {
        if k < start {
        } else if k < whole {
        } else if k < m {
        } else {
        }
    }
}

/// The value that a bare word writes: a truth value, an integer where the
/// word ends in `i` after an integer numeral, a float where the word is a
/// decimal numeral.
pub open spec fn bare_value(word: Seq<char>) -> Option<ValueView> {
    if word == bool_text(true) {
        Some(ValueView::Boolean(true))
    } else if word == bool_text(false) {
        Some(ValueView::Boolean(false))
    } else if word.len() > 0 && word.last() == 'i' {
        match read_decimal(word.drop_last()) {
            Some(i) => Some(ValueView::Integer(i)),
            None => None,
        }
    } else if is_decimal(word) {
        Some(ValueView::Float(word))
    } else {
        None
    }
}

/// Reads the value of a field: a text between double quotes, or a bare word.
/// Gives the value and what follows it.
pub open spec fn read_value(s: Seq<char>) -> Option<(ValueView, Seq<char>)> {
    if s.len() > 0 && s[0] == '"' {
        match read_quoted_body(s.skip(1)) {
            Some((text, rest)) => Some((ValueView::String(text), rest)),
            None => None,
        }
    } else {
        let (word, rest) = read_bare(s);
        match bare_value(word) {
            Some(value) => Some((value, rest)),
            None => None,
        }
    }
}

/// The value of a field that was written is read back as it was, up to the
/// comma or space that follows it.
pub proof fn lemma_read_value_written(value: ValueView, rest: Seq<char>)
    requires
        value matches ValueView::Float(t) ==> is_decimal(t),
        rest.len() == 0 || rest[0] == ',' || rest[0] == ' ',
    ensures
        read_value(field_text(value) + rest) == Some((value, rest)),
{
    let word = field_text(value);
    let full = word + rest;
    match value {
        ValueView::String(text) => {
            lemma_read_quoted_written(text, rest);
            assert(full[0] == '"');
            assert(full.skip(1) =~= escaped(Escaping::Quoted, text) + seq!['"'] + rest);
        },
        ValueView::Integer(i) => {
            lemma_decimal_is_numeral_text(i);
            lemma_read_decimal(i);
            let numeral = decimal(i);
            assert(word.drop_last() =~= numeral);
            assert(word[0] == numeral[0]);
            assert(is_numeral_char(numeral[0]));
            assert forall|k: int| 0 <= k < word.len() implies #[trigger] word[k] != ',' && word[k]
                != ' ' by {
                if k < numeral.len() {
                    assert(word[k] == numeral[k]);
                    assert(is_numeral_char(numeral[k]));
                }
            }
            lemma_read_bare_written(word, rest);
            assert(full[0] == word[0]);
            assert(word.last() == 'i');
            assert(word != bool_text(true)) by {
                if word.len() == 4 {
                    assert(bool_text(true)[3] == 'e');
                }
            }
            assert(word != bool_text(false)) by {
                if word.len() == 5 {
                    assert(bool_text(false)[4] == 'e');
                }
            }
        },
        ValueView::Float(t) => {
            lemma_is_decimal_numeral_text(t);
            assert(is_numeral_char(t[0]));
            assert(is_numeral_char(t.last()));
            assert forall|k: int| 0 <= k < word.len() implies #[trigger] word[k] != ',' && word[k]
                != ' ' by {
                assert(is_numeral_char(t[k]));
            }
            lemma_read_bare_written(word, rest);
            assert(full[0] == word[0]);
            assert(word != bool_text(true)) by {
                assert(bool_text(true)[0] == 't');
            }
            assert(word != bool_text(false)) by {
                assert(bool_text(false)[0] == 'f');
            }
        },
        ValueView::Boolean(b) => {
            assert(is_bare(word));
            lemma_read_bare_written(word, rest);
            assert(full[0] == word[0]);
            assert(bool_text(true)[0] == 't');
            assert(bool_text(false)[0] == 'f');
        },
    }
}

/// The tags as they are read: the value of a tag comes back as its text.
pub open spec fn tags_as_read(tags: Entries) -> Entries {
    Seq::new(tags.len(), |i: int| (tags[i].0, ValueView::String(tag_text(tags[i].1))))
}

/// Reads the tags: as long as a comma stands first, a key, an equals sign and
/// a value. Gives the tags, in the order in which they stand, and what
/// follows them.
pub open spec fn read_tags(s: Seq<char>) -> Option<(Entries, Seq<char>)>
    decreases s.len(),
{
    if s.len() > 0 && s[0] == ',' {
        let (key, after_key) = read_name(s.skip(1));
        if after_key.len() > 0 && after_key[0] == '=' {
            let (value, rest) = read_name(after_key.skip(1));
            if rest.len() < s.len() {
                match read_tags(rest) {
                    Some((tags, end)) => Some((seq![(key, ValueView::String(value))] + tags, end)),
                    None => None,
                }
            } else {
                None
            }
        } else {
            None
        }
    } else {
        Some((Seq::empty(), s))
    }
}

/// Reads the fields: a key, an equals sign and a value, and again after each
/// comma. Gives the fields, in the order in which they stand, and what
/// follows them.
pub open spec fn read_fields(s: Seq<char>) -> Option<(Entries, Seq<char>)>
    decreases s.len(),
{
    let (key, after_key) = read_name(s);
    if after_key.len() > 0 && after_key[0] == '=' {
        match read_value(after_key.skip(1)) {
            Some((value, rest)) => {
                if rest.len() > 0 && rest[0] == ',' {
                    if rest.len() <= s.len() {
                        match read_fields(rest.skip(1)) {
                            Some((fields, end)) => Some((seq![(key, value)] + fields, end)),
                            None => None,
                        }
                    } else {
                        None
                    }
                } else {
                    Some((seq![(key, value)], rest))
                }
            },
            None => None,
        }
    } else {
        None
    }
}

/// Reads the time: nothing, or a space and an integer numeral up to the end
/// of the line.
pub open spec fn read_timestamp(s: Seq<char>) -> Option<Option<int>> {
    if s.len() == 0 {
        Some(None)
    } else if s[0] == ' ' {
        match read_decimal(s.skip(1)) {
            Some(t) => Some(Some(t)),
            None => None,
        }
    } else {
        None
    }
}

/// Reads one line: the measurement, the tags, a space, the fields and the
/// time. `None` where the line does not have this shape.
pub open spec fn read_line(s: Seq<char>) -> Option<PointView> {
    let (measurement, after_name) = read_name(s);
    match read_tags(after_name) {
        Some((tags, after_tags)) => {
            if after_tags.len() > 0 && after_tags[0] == ' ' {
                match read_fields(after_tags.skip(1)) {
                    Some((fields, after_fields)) => match read_timestamp(after_fields) {
                        Some(timestamp) => Some(
                            PointView { measurement, tags, fields, timestamp },
                        ),
                        None => None,
                    },
                    None => None,
                }
            } else {
                None
            }
        },
        None => None,
    }
}

/// The tags as they are written start with the first tag.
pub proof fn lemma_tags_text_front(tags: Entries)
    requires
        tags.len() > 0,
    ensures
        tags_text(tags) == seq![','] + tag_item(tags[0]) + tags_text(tags.skip(1)),
    decreases tags.len(),
{
    let init = tags.drop_last();
    if tags.len() == 1 {
        assert(init.len() == 0);
        assert(tags.skip(1).len() == 0);
        assert(tags_text(init) =~= Seq::<char>::empty());
        assert(tags_text(tags.skip(1)) =~= Seq::<char>::empty());
        assert(tags.last() == tags[0]);
        assert(tags_text(tags) =~= seq![','] + tag_item(tags[0]) + tags_text(tags.skip(1)));
    } else {
        lemma_tags_text_front(init);
        assert(init[0] == tags[0]);
        assert(tags.skip(1).drop_last() =~= init.skip(1));
        assert(tags.skip(1).last() == tags.last());
        assert(tags_text(tags) =~= seq![','] + tag_item(tags[0]) + tags_text(tags.skip(1)));
    }
}

/// The fields after the first as they are written: each with a comma before
/// it.
pub open spec fn following_fields(fields: Entries) -> Seq<char>
    decreases fields.len(),
{
    if fields.len() == 0 {
        Seq::empty()
    } else {
        following_fields(fields.drop_last()) + seq![','] + field_item(fields.last())
    }
}

/// The fields after the first start with the first of them.
pub proof fn lemma_following_fields_front(fields: Entries)
    requires
        fields.len() > 0,
    ensures
        following_fields(fields) == seq![','] + field_item(fields[0]) + following_fields(
            fields.skip(1),
        ),
    decreases fields.len(),
{
    let init = fields.drop_last();
    if fields.len() == 1 {
        assert(init.len() == 0);
        assert(fields.skip(1).len() == 0);
        assert(following_fields(init) =~= Seq::<char>::empty());
        assert(following_fields(fields.skip(1)) =~= Seq::<char>::empty());
        assert(fields.last() == fields[0]);
        assert(following_fields(fields) =~= seq![','] + field_item(fields[0]) + following_fields(
            fields.skip(1),
        ));
    } else {
        lemma_following_fields_front(init);
        assert(init[0] == fields[0]);
        assert(fields.skip(1).drop_last() =~= init.skip(1));
        assert(fields.skip(1).last() == fields.last());
        assert(following_fields(fields) =~= seq![','] + field_item(fields[0]) + following_fields(
            fields.skip(1),
        ));
    }
}

/// The fields as they are written are a space, the first field, and the
/// fields after it.
pub proof fn lemma_fields_text_front(fields: Entries)
    requires
        fields.len() > 0,
    ensures
        fields_text(fields) == seq![' '] + field_item(fields[0]) + following_fields(
            fields.skip(1),
        ),
    decreases fields.len(),
{
    let init = fields.drop_last();
    if fields.len() == 1 {
        assert(init.len() == 0);
        assert(fields.skip(1).len() == 0);
        assert(fields_text(init) =~= Seq::<char>::empty());
        assert(following_fields(fields.skip(1)) =~= Seq::<char>::empty());
        assert(fields.last() == fields[0]);
        assert(fields_text(fields) =~= seq![' '] + field_item(fields[0]) + following_fields(
            fields.skip(1),
        ));
    } else {
        lemma_fields_text_front(init);
        assert(init[0] == fields[0]);
        assert(fields.skip(1).drop_last() =~= init.skip(1));
        assert(fields.skip(1).last() == fields.last());
        assert(following_fields(fields.skip(1)) == following_fields(init.skip(1)) + seq![',']
            + field_item(fields.last()));
        assert(fields_text(fields) =~= seq![' '] + field_item(fields[0]) + following_fields(
            fields.skip(1),
        ));
    }
}

/// Whether every key can be followed by syntax.
pub open spec fn keys_end_cleanly(entries: Entries) -> bool {
    forall|i: int| 0 <= i < entries.len() ==> ends_cleanly((#[trigger] entries[i]).0)
}

/// Whether the text of every value can be followed by syntax.
pub open spec fn values_end_cleanly(entries: Entries) -> bool {
    forall|i: int| 0 <= i < entries.len() ==> ends_cleanly(tag_text((#[trigger] entries[i]).1))
}

/// One tag that was written is read back: its key up to the equals sign, and
/// the text of its value up to the syntax that follows.
pub proof fn lemma_read_tag_written(key: Seq<char>, text: Seq<char>, after: Seq<char>)
    requires
        ends_cleanly(key),
        ends_cleanly(text),
        after.len() > 0 && needs_escape(Escaping::Name, after[0]),
    ensures
        read_name(
            (seq![','] + escaped(Escaping::Name, key) + seq!['='] + escaped(Escaping::Name, text)
                + after).skip(1),
        ) == (key, seq!['='] + escaped(Escaping::Name, text) + after),
        (seq!['='] + escaped(Escaping::Name, text) + after).skip(1) == escaped(
            Escaping::Name,
            text,
        ) + after,
        read_name(escaped(Escaping::Name, text) + after) == (text, after),
{
    let mode = Escaping::Name;
    let after_key = seq!['='] + escaped(mode, text) + after;
    let full = seq![','] + escaped(mode, key) + seq!['='] + escaped(mode, text) + after;
    assert(full.skip(1) =~= escaped(mode, key) + after_key);
    assert(after_key[0] == '=');
    lemma_read_name_written(key, after_key);
    assert(after_key.skip(1) =~= escaped(mode, text) + after);
    lemma_read_name_written(text, after);
}

/// The tags that were written are read back in their order, each value as
/// its text, up to the space that follows them.
pub proof fn lemma_read_tags_written(tags: Entries, rest: Seq<char>)
    requires
        keys_end_cleanly(tags),
        values_end_cleanly(tags),
        rest.len() > 0 && rest[0] == ' ',
    ensures
        read_tags(tags_text(tags) + rest) == Some((tags_as_read(tags), rest)),
    decreases tags.len(),
{
    let full = tags_text(tags) + rest;
    if tags.len() == 0 {
        assert(full =~= rest);
        assert(tags_as_read(tags) =~= Seq::<(Seq<char>, ValueView)>::empty());
    } else {
        let mode = Escaping::Name;
        let key = tags[0].0;
        let text = tag_text(tags[0].1);
        let more = tags.skip(1);
        assert(keys_end_cleanly(more) && values_end_cleanly(more)) by {
            assert forall|i: int| 0 <= i < more.len() implies ends_cleanly((#[trigger] more[i]).0)
                && ends_cleanly(tag_text(more[i].1)) by {
                assert(more[i] == tags[i + 1]);
            }
        }
        lemma_read_tags_written(more, rest);
        let after = tags_text(more) + rest;
        assert(after.len() > 0 && needs_escape(mode, after[0])) by {
            if more.len() > 0 {
                lemma_tags_text_front(more);
                assert(after[0] == ',');
            } else {
                assert(tags_text(more) =~= Seq::<char>::empty());
                assert(after =~= rest);
            }
        }
        let written = seq![','] + escaped(mode, key) + seq!['='] + escaped(mode, text) + after;
        assert(full == written) by {
            lemma_tags_text_front(tags);
            assert(full =~= written);
        }
        lemma_read_tag_written(key, text, after);
        assert(written[0] == ',');
        assert(after.len() < written.len());
        assert(seq![(key, ValueView::String(text))] + tags_as_read(more) =~= tags_as_read(tags));
    }
}

/// One field that was written is read back: its key up to the equals sign,
/// and its value up to the comma or space that follows.
pub proof fn lemma_read_field_written(entry: (Seq<char>, ValueView), after: Seq<char>)
    requires
        ends_cleanly(entry.0),
        entry.1 matches ValueView::Float(t) ==> is_decimal(t),
        after.len() == 0 || after[0] == ',' || after[0] == ' ',
    ensures
        read_name(field_item(entry) + after) == (entry.0, seq!['='] + field_text(entry.1) + after),
        (seq!['='] + field_text(entry.1) + after).skip(1) == field_text(entry.1) + after,
        read_value(field_text(entry.1) + after) == Some((entry.1, after)),
{
    let mode = Escaping::Name;
    let after_key = seq!['='] + field_text(entry.1) + after;
    assert(field_item(entry) + after =~= escaped(mode, entry.0) + after_key);
    assert(after_key[0] == '=');
    lemma_read_name_written(entry.0, after_key);
    assert(after_key.skip(1) =~= field_text(entry.1) + after);
    lemma_read_value_written(entry.1, after);
}

/// The fields that were written are read back as they were, in their order,
/// up to the space or the end that follows them.
pub proof fn lemma_read_fields_written(fields: Entries, rest: Seq<char>)
    requires
        fields.len() > 0,
        keys_end_cleanly(fields),
        numerals_well_formed(fields),
        rest.len() == 0 || rest[0] == ' ',
    ensures
        read_fields(field_item(fields[0]) + following_fields(fields.skip(1)) + rest) == Some(
            (fields, rest),
        ),
    decreases fields.len(),
{
    let entry = fields[0];
    let more = fields.skip(1);
    let after = following_fields(more) + rest;
    let full = field_item(entry) + following_fields(more) + rest;
    let after_key = seq!['='] + field_text(entry.1) + after;
    assert(full == field_item(entry) + after) by {
        assert(full =~= field_item(entry) + after);
    }
    if more.len() > 0 {
        let next = field_item(more[0]) + following_fields(more.skip(1)) + rest;
        assert(after == seq![','] + next) by {
            lemma_following_fields_front(more);
            assert(after =~= seq![','] + next);
        }
        assert(after[0] == ',');
        assert(after.skip(1) == next) by {
            assert(after.skip(1) =~= next);
        }
        assert(read_fields(next) == Some((more, rest))) by {
            assert forall|i: int| 0 <= i < more.len() implies ends_cleanly((#[trigger] more[i]).0) by {
                assert(more[i] == fields[i + 1]);
            }
            assert(numerals_well_formed(more)) by {
                assert forall|i: int| 0 <= i < more.len() implies (#[trigger] more[i].1 matches ValueView::Float(
                    t,
                ) ==> crate::data_model::decimal::is_float_numeral(t)) by {
                    assert(more[i] == fields[i + 1]);
                }
            }
            lemma_read_fields_written(more, rest);
        }
        lemma_read_field_written(entry, after);
        assert(after.len() <= full.len());
        assert(seq![entry] + more =~= fields);
        assert(read_fields(full) == Some((seq![entry] + more, rest)));
    } else {
        assert(after == rest) by {
            assert(following_fields(more) =~= Seq::<char>::empty());
            assert(after =~= rest);
        }
        lemma_read_field_written(entry, after);
        assert(seq![entry] =~= fields);
        assert(read_fields(full) == Some((seq![entry], rest)));
    }
}

/// Whether the line of a point can be read back: it has a field, its floats
/// are decimal numerals, and neither the measurement, nor a key, nor the text
/// of a tag ends in a backslash, which would take the syntax after it for a
/// part of the name.
pub open spec fn reads_back(point: PointView) -> bool {
    &&& point.fields.len() > 0
    &&& numerals_well_formed(point.fields)
    &&& ends_cleanly(point.measurement)
    &&& keys_end_cleanly(point.tags)
    &&& values_end_cleanly(point.tags)
    &&& keys_end_cleanly(point.fields)
}

/// A point as it is read: what it was, with the value of each tag as its text.
pub open spec fn as_read(point: PointView) -> PointView {
    PointView { tags: tags_as_read(point.tags), ..point }
}

/// The time that was written is read back as it was.
pub proof fn lemma_read_timestamp_written(timestamp: Option<int>)
    ensures
        read_timestamp(timestamp_text(timestamp)) == Some(timestamp),
{
    match timestamp {
        Some(t) => {
            lemma_read_decimal(t);
            assert(timestamp_text(timestamp).skip(1) =~= decimal(t));
        },
        None => {},
    }
}

/// Writing a point and reading its line gives the point back: the
/// measurement, every key, the text of every tag and the value of every field
/// come back unchanged and in their order, whatever commas, spaces, equals
/// signs, double quotes and backslashes they hold.
pub proof fn lemma_line_round_trip(point: PointView)
    requires
        reads_back(point),
    ensures
        read_line(line_text(point)) == Some(as_read(point)),
{
    let mode = Escaping::Name;
    let time = timestamp_text(point.timestamp);
    let fields = point.fields;
    let written_fields = field_item(fields[0]) + following_fields(fields.skip(1));
    let after_tags = seq![' '] + written_fields + time;
    let after_name = tags_text(point.tags) + after_tags;
    let line = line_text(point);
    assert(line == escaped(mode, point.measurement) + after_name) by {
        lemma_fields_text_front(fields);
        assert(line =~= escaped(mode, point.measurement) + after_name);
    }
    assert(after_tags[0] == ' ');
    assert(read_name(line) == (point.measurement, after_name)) by {
        if point.tags.len() > 0 {
            lemma_tags_text_front(point.tags);
            assert(after_name[0] == ',');
        } else {
            assert(tags_text(point.tags) =~= Seq::<char>::empty());
            assert(after_name =~= after_tags);
        }
        lemma_read_name_written(point.measurement, after_name);
    }
    assert(read_tags(after_name) == Some((tags_as_read(point.tags), after_tags))) by {
        lemma_read_tags_written(point.tags, after_tags);
    }
    assert(after_tags.skip(1) == written_fields + time) by {
        assert(after_tags.skip(1) =~= written_fields + time);
    }
    assert(read_fields(written_fields + time) == Some((fields, time))) by {
        lemma_read_fields_written(fields, time);
    }
    assert(read_timestamp(time) == Some(point.timestamp)) by {
        lemma_read_timestamp_written(point.timestamp);
    }
}

/// Whether a text holds no line break.
pub open spec fn single_line(s: Seq<char>) -> bool {
    forall|k: int| 0 <= k < s.len() ==> #[trigger] s[k] != '\n'
}

/// The place of the first line break of `s`, or the length of `s` where it
/// holds none.
pub open spec fn first_break(s: Seq<char>) -> int
    decreases s.len(),
{
    if s.len() == 0 || s[0] == '\n' {
        0
    } else {
        1 + first_break(s.skip(1))
    }
}

/// The lines of a text: what stands between its line breaks, in order. The
/// empty text has no line, and a line break at the very end opens none.
pub open spec fn split_lines(s: Seq<char>) -> Seq<Seq<char>>
    decreases s.len(),
{
    if s.len() == 0 {
        Seq::empty()
    } else {
        let k = first_break(s);
        if 0 <= k < s.len() {
            seq![s.take(k)] + split_lines(s.skip(k + 1))
        } else {
            seq![s]
        }
    }
}

/// The lines of the points of a batch, in the order of the batch.
pub open spec fn lines_of(points: Seq<PointView>) -> Seq<Seq<char>> {
    Seq::new(points.len(), |i: int| line_text(points[i]))
}

/// The first line break after a text without one is where that text ends.
pub proof fn lemma_first_break(line: Seq<char>, rest: Seq<char>)
    requires
        single_line(line),
        rest.len() == 0 || rest[0] == '\n',
    ensures
        first_break(line + rest) == line.len(),
    decreases line.len(),
{
    let full = line + rest;
    if line.len() == 0 {
        assert(full =~= rest);
    } else {
        let tail = line.skip(1);
        assert forall|k: int| 0 <= k < tail.len() implies #[trigger] tail[k] != '\n' by {
            assert(tail[k] == line[k + 1]);
        }
        lemma_first_break(tail, rest);
        assert(full[0] == line[0]);
        assert(full.skip(1) =~= tail + rest);
    }
}

/// The text of a batch starts with the line of its first point; a line break
/// and the text of the other points follow where there are others.
pub proof fn lemma_lines_text_front(points: Seq<PointView>)
    requires
        points.len() > 1,
    ensures
        lines_text(points) == line_text(points[0]) + seq!['\n'] + lines_text(points.skip(1)),
    decreases points.len(),
{
    let init = points.drop_last();
    let more = points.skip(1);
    if points.len() == 2 {
        assert(init.len() == 1);
        assert(more.len() == 1);
        assert(init[0] == points[0]);
        assert(more[0] == points.last());
        assert(lines_text(init) == line_text(init[0]));
        assert(lines_text(more) == line_text(more[0]));
        assert(lines_text(points) == lines_text(init) + seq!['\n'] + line_text(points.last()));
    } else {
        lemma_lines_text_front(init);
        assert(init[0] == points[0]);
        assert(more.drop_last() =~= init.skip(1));
        assert(more.last() == points.last());
        assert(lines_text(points) == lines_text(init) + seq!['\n'] + line_text(points.last()));
        assert(lines_text(more) == lines_text(more.drop_last()) + seq!['\n'] + line_text(
            more.last(),
        ));
        assert(lines_text(points) =~= line_text(points[0]) + seq!['\n'] + lines_text(more));
    }
}

/// The lines of a written batch are the lines of its points, in the order of
/// the batch: as many lines as points, the line of each point in its place.
pub proof fn lemma_split_lines_written(points: Seq<PointView>)
    requires
        forall|i: int|
            0 <= i < points.len() ==> single_line(#[trigger] line_text(points[i])) && line_text(
                points[i],
            ).len() > 0,
    ensures
        split_lines(lines_text(points)) == lines_of(points),
    decreases points.len(),
{
    let text = lines_text(points);
    if points.len() == 0 {
        assert(lines_of(points) =~= Seq::<Seq<char>>::empty());
    } else if points.len() == 1 {
        let line = line_text(points[0]);
        lemma_first_break(line, Seq::empty());
        assert(line + Seq::<char>::empty() =~= line);
        assert(lines_of(points) =~= seq![line]);
    } else {
        let line = line_text(points[0]);
        let more = points.skip(1);
        lemma_lines_text_front(points);
        assert forall|i: int| 0 <= i < more.len() implies single_line(
            #[trigger] line_text(more[i]),
        ) && line_text(more[i]).len() > 0 by {
            assert(more[i] == points[i + 1]);
        }
        lemma_split_lines_written(more);
        let rest = seq!['\n'] + lines_text(more);
        assert(text =~= line + rest);
        lemma_first_break(line, rest);
        assert(text.take(line.len() as int) =~= line);
        assert(text.skip(line.len() as int + 1) =~= lines_text(more));
        assert(seq![line] + lines_of(more) =~= lines_of(points));
    }
}

/// A text without a line break is written without one.
pub proof fn lemma_escaped_single_line(mode: Escaping, s: Seq<char>)
    requires
        single_line(s),
    ensures
        single_line(escaped(mode, s)),
    decreases s.len(),
{
    if s.len() > 0 {
        let init = s.drop_last();
        assert forall|k: int| 0 <= k < init.len() implies #[trigger] init[k] != '\n' by {
            assert(init[k] == s[k]);
        }
        lemma_escaped_single_line(mode, init);
        assert(s.last() != '\n');
    }
}

/// Whether nothing in the entries holds a line break: no key, and no value
/// as a tag writes it.
pub open spec fn entries_single_line(entries: Entries) -> bool {
    forall|i: int|
        0 <= i < entries.len() ==> single_line((#[trigger] entries[i]).0) && single_line(
            tag_text(entries[i].1),
        )
}

/// Whether the line of a point is one line: it has a field, its floats are
/// decimal numerals, and neither the measurement, nor a key, nor a text among
/// its values holds a line break.
pub open spec fn stays_on_one_line(point: PointView) -> bool {
    &&& point.fields.len() > 0
    &&& numerals_well_formed(point.fields)
    &&& single_line(point.measurement)
    &&& entries_single_line(point.tags)
    &&& entries_single_line(point.fields)
}

/// A value without a line break is written without one, as a tag and as a
/// field.
pub proof fn lemma_value_single_line(value: ValueView)
    requires
        single_line(tag_text(value)),
    ensures
        single_line(escaped(Escaping::Name, tag_text(value))),
        single_line(field_text(value)),
{
    lemma_escaped_single_line(Escaping::Name, tag_text(value));
    match value {
        ValueView::String(text) => {
            lemma_escaped_single_line(Escaping::Quoted, text);
        },
        ValueView::Integer(i) => {},
        ValueView::Float(t) => {},
        ValueView::Boolean(b) => {},
    }
}

/// Tags without a line break are written without one.
pub proof fn lemma_tags_single_line(tags: Entries)
    requires
        entries_single_line(tags),
    ensures
        single_line(tags_text(tags)),
    decreases tags.len(),
{
    if tags.len() > 0 {
        let init = tags.drop_last();
        assert forall|i: int| 0 <= i < init.len() implies single_line((#[trigger] init[i]).0)
            && single_line(tag_text(init[i].1)) by {
            assert(init[i] == tags[i]);
        }
        lemma_tags_single_line(init);
        let entry = tags.last();
        assert(entry == tags[tags.len() - 1]);
        lemma_escaped_single_line(Escaping::Name, entry.0);
        lemma_value_single_line(entry.1);
    }
}

/// Fields without a line break are written without one.
pub proof fn lemma_fields_single_line(fields: Entries)
    requires
        entries_single_line(fields),
    ensures
        single_line(fields_text(fields)),
    decreases fields.len(),
{
    if fields.len() > 0 {
        let init = fields.drop_last();
        assert forall|i: int| 0 <= i < init.len() implies single_line((#[trigger] init[i]).0)
            && single_line(tag_text(init[i].1)) by {
            assert(init[i] == fields[i]);
        }
        lemma_fields_single_line(init);
        let entry = fields.last();
        assert(entry == fields[fields.len() - 1]);
        lemma_escaped_single_line(Escaping::Name, entry.0);
        lemma_value_single_line(entry.1);
    }
}

/// The line of a point that holds no line break is one line, and not empty.
pub proof fn lemma_line_is_one_line(point: PointView)
    requires
        stays_on_one_line(point),
    ensures
        single_line(line_text(point)),
        line_text(point).len() > 0,
{
    lemma_escaped_single_line(Escaping::Name, point.measurement);
    lemma_tags_single_line(point.tags);
    lemma_fields_single_line(point.fields);
    match point.timestamp {
        Some(t) => {
            lemma_decimal_is_numeral_text(t);
            let numeral = decimal(t);
            assert forall|k: int| 0 <= k < numeral.len() implies #[trigger] numeral[k] != '\n' by {
                assert(is_numeral_char(numeral[k]));
            }
        },
        None => {},
    }
    lemma_fields_text_front(point.fields);
}

/// Entries that may be written, with floats as they are made, hold no line
/// break: neither in a key nor in what a value writes.
pub proof fn lemma_entries_single_line(entries: Entries)
    requires
        !has_line_break(entries),
        numerals_well_formed(entries),
    ensures
        entries_single_line(entries),
{
    assert forall|i: int| 0 <= i < entries.len() implies single_line((#[trigger] entries[i]).0)
        && single_line(tag_text(entries[i].1)) by {
        let key = entries[i].0;
        let text = tag_text(entries[i].1);
        assert(!entry_has_line_break(entries[i]));
        assert forall|k: int| 0 <= k < key.len() implies #[trigger] key[k] != '\n' by {
            assert(key.contains(key[k]));
        }
        match entries[i].1 {
            ValueView::String(t) => {},
            ValueView::Integer(n) => {
                lemma_decimal_is_numeral_text(n);
            },
            ValueView::Float(t) => {
                lemma_is_decimal_numeral_text(t);
            },
            ValueView::Boolean(b) => {},
        }
        assert forall|k: int| 0 <= k < text.len() implies #[trigger] text[k] != '\n' by {
            match entries[i].1 {
                ValueView::String(t) => {
                    assert(t.contains(t[k]));
                },
                ValueView::Integer(n) => {
                    assert(is_numeral_char(text[k]));
                },
                ValueView::Float(t) => {
                    assert(is_numeral_char(text[k]));
                },
                ValueView::Boolean(b) => {},
            }
        }
    }
}

/// Whether the floats of a point are held as floats are made: as decimal
/// numerals that cannot be taken for integers. It holds of every point that
/// was built.
pub open spec fn floats_as_made(point: PointView) -> bool {
    numerals_well_formed(point.tags) && numerals_well_formed(point.fields)
}

/// A point that can be written stays on one line.
pub proof fn lemma_valid_point_is_one_line(point: PointView)
    requires
        point.valid(),
        floats_as_made(point),
    ensures
        stays_on_one_line(point),
        single_line(line_text(point)),
        line_text(point).len() > 0,
{
    lemma_entries_single_line(point.tags);
    lemma_entries_single_line(point.fields);
    let name = point.measurement;
    assert forall|k: int| 0 <= k < name.len() implies #[trigger] name[k] != '\n' by {
        assert(name.contains(name[k]));
    }
    lemma_line_is_one_line(point);
}

/// The order of a batch is kept: the text of a batch that can be written has
/// one line for each point, and the lines stand in the order of the batch.
pub proof fn lemma_batch_order_kept(points: Seq<PointView>)
    requires
        all_valid(points),
        forall|i: int| 0 <= i < points.len() ==> floats_as_made(#[trigger] points[i]),
    ensures
        split_lines(lines_text(points)) == lines_of(points),
        split_lines(lines_text(points)).len() == points.len(),
{
    assert forall|i: int| 0 <= i < points.len() implies single_line(
        #[trigger] line_text(points[i]),
    ) && line_text(points[i]).len() > 0 by {
        lemma_valid_point_is_one_line(points[i]);
    }
    lemma_split_lines_written(points);
}

/// Whether the names of a point end cleanly: neither the measurement, nor a
/// key, nor the text of a tag ends in a backslash.
pub open spec fn names_end_cleanly(point: PointView) -> bool {
    &&& ends_cleanly(point.measurement)
    &&& keys_end_cleanly(point.tags)
    &&& values_end_cleanly(point.tags)
    &&& keys_end_cleanly(point.fields)
}

/// What was written is read back, in its order: the text of a batch that can
/// be written has one line for each point, in the order of the batch, and each
/// line is read back as its point, with the measurement, the tags and the
/// fields unchanged and in the order in which they were added.
pub proof fn lemma_batch_round_trip(points: Seq<PointView>)
    requires
        all_valid(points),
        forall|i: int|
            0 <= i < points.len() ==> floats_as_made(#[trigger] points[i]) && names_end_cleanly(
                points[i],
            ),
    ensures
        split_lines(lines_text(points)).len() == points.len(),
        forall|i: int|
            0 <= i < points.len() ==> (#[trigger] split_lines(lines_text(points))[i]) == line_text(
                points[i],
            ) && read_line(split_lines(lines_text(points))[i]) == Some(as_read(points[i])),
{
    lemma_batch_order_kept(points);
    assert forall|i: int| 0 <= i < points.len() implies (#[trigger] split_lines(
        lines_text(points),
    )[i]) == line_text(points[i]) && read_line(split_lines(lines_text(points))[i]) == Some(
        as_read(points[i]),
    ) by {
        assert(points[i].valid());
        assert(reads_back(points[i]));
        lemma_line_round_trip(points[i]);
        assert(lines_of(points)[i] == line_text(points[i]));
    }
}

} // verus!
