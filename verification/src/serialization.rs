//! The line protocol: how a batch of points is written as text, one point to a
//! line.
use crate::data_model::data_points::{
    all_valid, entries_view, Entries, InvalidPoint, Point, PointView, Points, Value, ValueView,
};
use crate::text::{decimal, push_decimal};
use vstd::prelude::*;

verus! {

/// The two ways in which a text is protected from being taken for syntax.
#[derive(Clone, Copy, Debug, PartialEq, Eq, Structural)]
pub enum Escaping {
    /// For the name of a measurement, a key, and the value of a tag: a comma, a
    /// space and an equals sign get a backslash before them.
    Name,
    /// For a text between double quotes: a double quote and a backslash get a
    /// backslash before them.
    Quoted,
}

/// Whether `c` gets a backslash before it.
pub open spec fn needs_escape(mode: Escaping, c: char) -> bool {
    match mode {
        Escaping::Name => c == ',' || c == ' ' || c == '=',
        Escaping::Quoted => c == '"' || c == '\\',
    }
}

/// One character as it is written.
pub open spec fn escaped_char(mode: Escaping, c: char) -> Seq<char> {
    if needs_escape(mode, c) {
        seq!['\\', c]
    } else {
        seq![c]
    }
}

/// A text as it is written: each of its characters, in order, as it is
/// written.
pub open spec fn escaped(mode: Escaping, s: Seq<char>) -> Seq<char>
    decreases s.len(),
{
    if s.len() == 0 {
        Seq::empty()
    } else {
        escaped(mode, s.drop_last()) + escaped_char(mode, s.last())
    }
}

/// A text between double quotes.
pub open spec fn quoted(s: Seq<char>) -> Seq<char> {
    seq!['"'] + escaped(Escaping::Quoted, s) + seq!['"']
}

/// A truth value as it is written.
pub open spec fn bool_text(b: bool) -> Seq<char> {
    if b {
        seq!['t', 'r', 'u', 'e']
    } else {
        seq!['f', 'a', 'l', 's', 'e']
    }
}

/// The text of a value that stands for a tag, before it is escaped: a text as
/// it is, a number as its numeral, a truth value as its word.
pub open spec fn tag_text(value: ValueView) -> Seq<char> {
    match value {
        ValueView::String(s) => s,
        ValueView::Integer(i) => decimal(i),
        ValueView::Float(t) => t,
        ValueView::Boolean(b) => bool_text(b),
    }
}

/// The value of a field as it is written: a text between double quotes, an
/// integer as its numeral followed by `i`, a float as its numeral, a truth
/// value as its word.
pub open spec fn field_text(value: ValueView) -> Seq<char> {
    match value {
        ValueView::String(s) => quoted(s),
        ValueView::Integer(i) => decimal(i).push('i'),
        ValueView::Float(t) => t,
        ValueView::Boolean(b) => bool_text(b),
    }
}

/// One tag as it is written: its key, an equals sign and its value.
pub open spec fn tag_item(entry: (Seq<char>, ValueView)) -> Seq<char> {
    escaped(Escaping::Name, entry.0) + seq!['='] + escaped(Escaping::Name, tag_text(entry.1))
}

/// One field as it is written: its key, an equals sign and its value.
pub open spec fn field_item(entry: (Seq<char>, ValueView)) -> Seq<char> {
    escaped(Escaping::Name, entry.0) + seq!['='] + field_text(entry.1)
}

/// The tags as they are written: each, in order, with a comma before it.
pub open spec fn tags_text(tags: Entries) -> Seq<char>
    decreases tags.len(),
{
    if tags.len() == 0 {
        Seq::empty()
    } else {
        tags_text(tags.drop_last()) + seq![','] + tag_item(tags.last())
    }
}

/// The fields as they are written: each, in order, the first with a space
/// before it and every other with a comma.
pub open spec fn fields_text(fields: Entries) -> Seq<char>
    decreases fields.len(),
{
    if fields.len() == 0 {
        Seq::empty()
    } else {
        fields_text(fields.drop_last()) + seq![
            if fields.len() == 1 {
                ' '
            } else {
                ','
            },
        ] + field_item(fields.last())
    }
}

/// The time as it is written: nothing, or a space and the numeral.
pub open spec fn timestamp_text(timestamp: Option<int>) -> Seq<char> {
    match timestamp {
        Some(t) => seq![' '] + decimal(t),
        None => Seq::empty(),
    }
}

/// The line of one point: the measurement, the tags, the fields and the time.
pub open spec fn line_text(point: PointView) -> Seq<char> {
    escaped(Escaping::Name, point.measurement) + tags_text(point.tags) + fields_text(point.fields)
        + timestamp_text(point.timestamp)
}

/// The text of a batch: the lines of its points, in order, with one line break
/// between two lines and none at the end.
pub open spec fn lines_text(points: Seq<PointView>) -> Seq<char>
    decreases points.len(),
{
    if points.len() == 0 {
        Seq::empty()
    } else if points.len() == 1 {
        line_text(points[0])
    } else {
        lines_text(points.drop_last()) + seq!['\n'] + line_text(points.last())
    }
}

/// Appends `text` to `out` as it is written under `mode`.
pub fn push_escaped(out: &mut String, text: &str, mode: Escaping)
    ensures
        final(out)@ == old(out)@ + escaped(mode, text@),
{
    for c in it: text.chars()
        invariant
            it.seq() == text@,
            out@ == old(out)@ + escaped(mode, text@.take(it.index() as int)),
    {
        proof {
            let k = it.index() as int;
            assert(text@.take(k + 1).drop_last() == text@.take(k));
            assert(text@.take(k + 1).last() == c);
        }
        let escape = match mode {
            Escaping::Name => c == ',' || c == ' ' || c == '=',
            Escaping::Quoted => c == '"' || c == '\\',
        };
        if escape {
            out.push('\\');
        }
        out.push(c);
    }
    proof {
        assert(text@.take(text@.len() as int) == text@);
    }
}

/// The name of a measurement, a key, or the value of a tag as it is written.
pub fn escape_keys_and_tags(value: &str) -> (written: String)
    ensures
        written@ == escaped(Escaping::Name, value@),
{
    let mut written = String::new();
    push_escaped(&mut written, value, Escaping::Name);
    written
}

/// The text of a field as it is written, between double quotes.
pub fn escape_string_field_value(value: &str) -> (written: String)
    ensures
        written@ == quoted(value@),
{
    let mut written = String::new();
    written.push('"');
    push_escaped(&mut written, value, Escaping::Quoted);
    written.push('"');
    written
}

/// Appends the word of a truth value.
fn push_bool(out: &mut String, b: bool)
    ensures
        final(out)@ == old(out)@ + bool_text(b),
{
    proof {
        reveal_strlit("true");
        reveal_strlit("false");
    }
    if b {
        out.append("true");
        assert("true"@ =~= bool_text(true));
    } else {
        out.append("false");
        assert("false"@ =~= bool_text(false));
    }
}

/// Appends the value of a tag as it is written.
fn push_tag_value(out: &mut String, value: &Value)
    ensures
        final(out)@ == old(out)@ + escaped(Escaping::Name, tag_text(value@)),
{
    match value {
        Value::String(s) => {
            push_escaped(out, s.as_str(), Escaping::Name);
        },
        Value::Integer(i) => {
            let mut numeral = String::new();
            push_decimal(&mut numeral, *i);
            push_escaped(out, numeral.as_str(), Escaping::Name);
        },
        Value::Float(d) => {
            push_escaped(out, d.as_str(), Escaping::Name);
        },
        Value::Boolean(b) => {
            let mut word = String::new();
            push_bool(&mut word, *b);
            push_escaped(out, word.as_str(), Escaping::Name);
        },
    }
}

/// Appends the value of a field as it is written.
fn push_field_value(out: &mut String, value: &Value)
    ensures
        final(out)@ == old(out)@ + field_text(value@),
{
    match value {
        Value::String(s) => {
            out.push('"');
            push_escaped(out, s.as_str(), Escaping::Quoted);
            out.push('"');
        },
        Value::Integer(i) => {
            push_decimal(out, *i);
            out.push('i');
        },
        Value::Float(d) => {
            out.append(d.as_str());
        },
        Value::Boolean(b) => {
            push_bool(out, *b);
        },
    }
}

/// Appends the tags as they are written.
fn push_tags(out: &mut String, tags: &Vec<(String, Value)>)
    ensures
        final(out)@ == old(out)@ + tags_text(entries_view(tags@)),
{
    let ghost all = entries_view(tags@);
    let mut i: usize = 0;
    while i < tags.len()
        invariant
            i <= tags.len(),
            all == entries_view(tags@),
            out@ == old(out)@ + tags_text(all.take(i as int)),
        decreases tags.len() - i,
    {
        proof {
            assert(all.take(i + 1).drop_last() == all.take(i as int));
            assert(all.take(i + 1).last() == (tags@[i as int].0@, tags@[i as int].1@));
        }
        out.push(',');
        push_escaped(out, tags[i].0.as_str(), Escaping::Name);
        out.push('=');
        push_tag_value(out, &tags[i].1);
        i = i + 1;
    }
    proof {
        assert(all.take(tags.len() as int) == all);
    }
}

/// Appends the fields as they are written.
fn push_fields(out: &mut String, fields: &Vec<(String, Value)>)
    ensures
        final(out)@ == old(out)@ + fields_text(entries_view(fields@)),
{
    let ghost all = entries_view(fields@);
    let mut i: usize = 0;
    while i < fields.len()
        invariant
            i <= fields.len(),
            all == entries_view(fields@),
            out@ == old(out)@ + fields_text(all.take(i as int)),
        decreases fields.len() - i,
    {
        proof {
            assert(all.take(i + 1).drop_last() == all.take(i as int));
            assert(all.take(i + 1).last() == (fields@[i as int].0@, fields@[i as int].1@));
        }
        if i == 0 {
            out.push(' ');
        } else {
            out.push(',');
        }
        push_escaped(out, fields[i].0.as_str(), Escaping::Name);
        out.push('=');
        push_field_value(out, &fields[i].1);
        i = i + 1;
    }
    proof {
        assert(all.take(fields.len() as int) == all);
    }
}

/// Appends the line of `point`.
pub fn push_line(out: &mut String, point: &Point)
    ensures
        final(out)@ == old(out)@ + line_text(point@),
{
    push_escaped(out, point.measurement(), Escaping::Name);
    push_tags(out, point.tags());
    push_fields(out, point.fields());
    match point.timestamp() {
        Some(t) => {
            out.push(' ');
            push_decimal(out, t);
        },
        None => {},
    }
}

/// Resolve the points to line protocol format: the lines of the points, in
/// their order, with one line break between two lines and none at the end.
pub fn line_serialization(points: &Points) -> (line: String)
    requires
        all_valid(points@),
    ensures
        line@ == lines_text(points@),
{
    let mut line = String::new();
    let mut i: usize = 0;
    while i < points.point.len()
        invariant
            i <= points.point.len(),
            line@ == lines_text(points@.take(i as int)),
        decreases points.point.len() - i,
    {
        proof {
            assert(points@.take(i + 1).drop_last() == points@.take(i as int));
            assert(points@.take(i + 1).last() == points.point@[i as int]@);
        }
        if i > 0 {
            line.push('\n');
        }
        push_line(&mut line, &points.point[i]);
        i = i + 1;
    }
    proof {
        assert(points@.take(points.point.len() as int) == points@);
    }
    line
}

/// The text of a batch, after each of its points was checked. `Ok` exactly
/// where every point can be written; otherwise the first point that cannot,
/// with the reason, and nothing is written.
pub fn encode(points: &Points) -> (written: Result<String, InvalidPoint>)
    ensures
        written is Ok <==> all_valid(points@),
        written matches Ok(line) ==> line@ == lines_text(points@),
        written matches Err(e) ==> {
            &&& e.index < points@.len()
            &&& points@[e.index as int].fault() == Some(e.fault)
            &&& all_valid(points@.take(e.index as int))
        },
{
    match points.check() {
        Ok(()) => Ok(line_serialization(points)),
        Err(e) => Err(e),
    }
}

/// What `serde_json` finds in `text` under `field`: where `text` as a whole is
/// one JSON object that holds a string under the key `field`, that string;
/// `None` where `text` is no JSON, is JSON of another shape, has no such key,
/// or holds something other than a string under it.
pub uninterp spec fn json_string_field(text: Seq<char>, field: Seq<char>) -> Option<Seq<char>>;

/// Reads `text` with `serde_json::from_str` into a `serde_json::Value` and
/// looks `field` up in it with `Value::get`. Both depend on the two texts
/// alone; the contract gives their result its name and claims nothing else.
#[verifier::external_body]
fn read_json_string_field(text: &str, field: &str) -> (found: Option<String>)
    ensures
        found is Some <==> json_string_field(text@, field@) is Some,
        found matches Some(s) ==> json_string_field(text@, field@) == Some(s@),
{
    let parsed: Result<serde_json::Value, serde_json::Error> = serde_json::from_str(text);
    match parsed {
        Ok(value) => match value.get(field) {
            Some(serde_json::Value::String(s)) => Some(s.clone()),
            _ => None,
        },
        Err(_) => None,
    }
}

/// The key under which the server puts the message of a structured error.
pub open spec fn message_key() -> Seq<char> {
    "message"@
}

/// The message where one was found, and the body as it came where none was.
pub open spec fn message_or_raw(body: Seq<char>, message: Option<Seq<char>>) -> Seq<char> {
    match message {
        Some(m) => m,
        None => body,
    }
}

/// The message of an error body: that of the structured error where the body
/// is one, and the body as it came where it is not.
pub open spec fn normalized(body: Seq<char>) -> Seq<char> {
    message_or_raw(body, json_string_field(body, message_key()))
}

/// The message where one was found, and the body as it came where none was.
pub fn message_or_body(body: &str, message: Option<String>) -> (text: String)
    ensures
        text@ == message_or_raw(
            body@,
            match message {
                Some(m) => Some(m@),
                None => None,
            },
        ),
{
    match message {
        Some(m) => m,
        None => body.to_owned(),
    }
}

/// The message of an error body: that of the structured error where the body
/// is the JSON of one, and the body as it came where it is not. A body that is
/// no JSON is never refused.
pub fn conversion(value: &str) -> (text: String)
    ensures
        text@ == normalized(value@),
{
    message_or_body(value, read_json_string_field(value, "message"))
}

} // verus!
