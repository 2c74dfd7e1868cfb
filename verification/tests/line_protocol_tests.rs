use influxdb_rs::data_model::data_points::{InvalidPoint, PointFault};
use influxdb_rs::serialization::{
    encode, escape_keys_and_tags, escape_string_field_value, line_serialization, push_line,
};
use influxdb_rs::text::{push_decimal, push_nat};
use influxdb_rs::{Point, Points, Precision, Value};

fn float(f: f64) -> Value {
    Value::float(&format!("{}", f)).unwrap()
}

fn line_of(point: Point) -> String {
    line_serialization(&Points::new(point))
}

#[test]
fn tag_with_comma_is_escaped() {
    let point = Point::new("temp")
        .add_tag("host", Value::string("serverA,01"))
        .add_field("value", float(23.5));
    assert_eq!(line_of(point), "temp,host=serverA\\,01 value=23.5");
}

#[test]
fn string_field_is_quoted_and_its_quotes_escaped() {
    let point = Point::new("m").add_field("note", Value::string("he said \"hi\""));
    assert_eq!(line_of(point), "m note=\"he said \\\"hi\\\"\"");
}

#[test]
fn two_points_are_two_lines_without_trailing_break() {
    let first = Point::new("a").add_field("x", Value::Integer(1));
    let second = Point::new("b").add_field("y", Value::Integer(2));
    let text = line_serialization(&Points::new(first).push(second));
    assert_eq!(text, "a x=1i\nb y=2i");
    assert_eq!(text.matches('\n').count(), 1);
    assert!(!text.ends_with('\n'));
}

#[test]
fn empty_batch_is_empty_text() {
    assert_eq!(line_serialization(&Points::create_new(vec![])), "");
}

#[test]
fn point_without_tags_has_no_comma_after_the_measurement() {
    let point = Point::new("cpu").add_field("load", Value::Integer(3));
    assert_eq!(line_of(point), "cpu load=3i");
}

#[test]
fn every_kind_of_field_is_written_in_its_own_way() {
    let point = Point::new("test1")
        .add_field("foo", Value::string("bar"))
        .add_field("integer", Value::Integer(11))
        .add_field("float", float(22.3))
        .add_field("'boolean'", Value::Boolean(false))
        .add_timestamp(1_600_000_000);
    assert_eq!(
        line_of(point),
        "test1 foo=\"bar\",integer=11i,float=22.3,'boolean'=false 1600000000"
    );
}

#[test]
fn every_kind_of_tag_is_written_bare() {
    let point = Point::new("test2")
        .add_tag("tags", Value::string("'=213w"))
        .add_tag("number", Value::Integer(12))
        .add_tag("float", float(12.6))
        .add_tag("on", Value::Boolean(true))
        .add_field("fd", Value::string("'3'"));
    assert_eq!(
        line_of(point),
        "test2,tags='\\=213w,number=12,float=12.6,on=true fd=\"'3'\""
    );
}

#[test]
fn measurement_and_keys_are_escaped() {
    let point = Point::new("my measure,ment=1")
        .add_tag("tag key", Value::string("a b"))
        .add_field("field,key", Value::Boolean(true));
    assert_eq!(
        line_of(point),
        "my\\ measure\\,ment\\=1,tag\\ key=a\\ b field\\,key=true"
    );
}

#[test]
fn backslash_in_a_string_field_is_doubled() {
    let point = Point::new("m").add_field("path", Value::string("C:\\dir \"x\""));
    assert_eq!(line_of(point), "m path=\"C:\\\\dir \\\"x\\\"\"");
}

#[test]
fn backslash_in_a_tag_is_kept_as_it_is() {
    assert_eq!(escape_keys_and_tags("a\\b"), "a\\b");
    assert_eq!(escape_keys_and_tags("a,b c=d"), "a\\,b\\ c\\=d");
    assert_eq!(escape_keys_and_tags(""), "");
}

#[test]
fn quoted_text_has_quotes_around_it() {
    assert_eq!(escape_string_field_value(""), "\"\"");
    assert_eq!(escape_string_field_value("a,b c=d"), "\"a,b c=d\"");
    assert_eq!(escape_string_field_value("\\\""), "\"\\\\\\\"\"");
}

#[test]
fn negative_time_and_smallest_integer() {
    let point = Point::new("m")
        .add_field("v", Value::Integer(i64::MIN))
        .add_field("w", Value::Integer(i64::MAX))
        .add_field("z", Value::Integer(0))
        .add_timestamp(-5);
    assert_eq!(
        line_of(point),
        "m v=-9223372036854775808i,w=9223372036854775807i,z=0i -5"
    );
}

#[test]
fn numerals_are_written_in_base_ten() {
    let mut out = String::from(">");
    push_nat(&mut out, 0);
    out.push(' ');
    push_nat(&mut out, 10);
    out.push(' ');
    push_nat(&mut out, u64::MAX);
    out.push(' ');
    push_decimal(&mut out, -120);
    out.push(' ');
    push_decimal(&mut out, 7);
    assert_eq!(out, ">0 10 18446744073709551615 -120 7");
}

#[test]
fn float_without_fraction_gets_one() {
    let point = Point::new("m")
        .add_field("a", float(23.0))
        .add_field("b", Value::float("1e21").unwrap())
        .add_field("c", Value::float("-0.5").unwrap())
        .add_field("d", Value::float("2E-7").unwrap())
        .add_field("e", Value::float("1.5e+3").unwrap());
    assert_eq!(line_of(point), "m a=23.0,b=1e21,c=-0.5,d=2E-7,e=1.5e+3");
}

#[test]
fn text_that_is_no_numeral_is_no_float() {
    for text in [
        "", "-", ".", "1.", ".5", "1e", "1e+", "abc", "NaN", "inf", "1 2", "1,2", "+1", "1.2.3",
        "1e2e3", "1i", "--1", "1e-",
    ] {
        assert!(Value::float(text).is_none(), "{:?}", text);
    }
    for text in ["0", "-0", "12", "1.0", "-1.25", "1e5", "1E5", "1e-5", "1.5e+10", "007"] {
        assert!(Value::float(text).is_some(), "{:?}", text);
    }
}

#[test]
fn a_key_that_is_set_again_keeps_its_place() {
    let point = Point::new("m")
        .add_tag("a", Value::Integer(1))
        .add_tag("b", Value::Integer(2))
        .add_tag("a", Value::Integer(3))
        .add_field("x", Value::Integer(1))
        .add_field("y", Value::Integer(2))
        .add_field("x", Value::Boolean(true));
    assert_eq!(point.tags().len(), 2);
    assert_eq!(point.fields().len(), 2);
    assert_eq!(line_of(point), "m,a=3,b=2 x=true,y=2i");
}

#[test]
fn tags_and_fields_keep_the_order_in_which_they_were_added() {
    let point = Point::new("m")
        .add_tag("z", Value::string("1"))
        .add_tag("a", Value::string("2"))
        .add_tag("m", Value::string("3"))
        .add_field("y", Value::Integer(1))
        .add_field("b", Value::Integer(2))
        .add_field("k", Value::Integer(3));
    assert_eq!(line_of(point), "m,z=1,a=2,m=3 y=1i,b=2i,k=3i");
}

#[test]
fn points_keep_the_order_of_the_batch() {
    let mut batch = Vec::new();
    for name in ["c", "a", "b", "a"] {
        batch.push(Point::new(name).add_field("v", Value::Integer(1)));
    }
    let text = encode(&Points::create_new(batch)).unwrap();
    let lines: Vec<&str> = text.split('\n').collect();
    assert_eq!(lines, vec!["c v=1i", "a v=1i", "b v=1i", "a v=1i"]);
}

#[test]
fn getters_show_what_was_built() {
    let point = Point::new("m")
        .add_tag("t", Value::string("v"))
        .add_field("f", Value::Integer(4))
        .add_timestamp(9);
    assert_eq!(point.measurement(), "m");
    assert_eq!(point.tags(), &vec![("t".to_string(), Value::string("v"))]);
    assert_eq!(point.fields(), &vec![("f".to_string(), Value::Integer(4))]);
    assert_eq!(point.timestamp(), Some(9));
    assert_eq!(Point::new("m").timestamp(), None);
    let copy = point.clone();
    assert_eq!(copy, point);
}

#[test]
fn values_are_made_from_plain_values() {
    assert_eq!(Value::from(11), Value::Integer(11));
    assert_eq!(Value::from(false), Value::Boolean(false));
    assert_eq!(Value::from("bar".to_string()), Value::string("bar"));
    let point = Point::new("m").add_field("a", 11.into()).add_field("b", true.into());
    assert_eq!(line_of(point), "m a=11i,b=true");
}

#[test]
fn push_line_appends_to_what_is_there() {
    let mut out = String::from("# ");
    push_line(&mut out, &Point::new("m").add_field("f", Value::Boolean(true)));
    assert_eq!(out, "# m f=true");
}

#[test]
fn point_without_measurement_is_refused() {
    let good = Point::new("m").add_field("f", Value::Integer(1));
    let bad = Point::new("").add_field("f", Value::Integer(1));
    assert_eq!(bad.fault(), Some(PointFault::EmptyMeasurement));
    assert!(!bad.is_valid());
    assert!(good.is_valid());
    let batch = Points::new(good).push(bad);
    assert_eq!(
        encode(&batch),
        Err(InvalidPoint { index: 1, fault: PointFault::EmptyMeasurement })
    );
    assert_eq!(batch.check(), Err(InvalidPoint { index: 1, fault: PointFault::EmptyMeasurement }));
}

#[test]
fn point_without_field_is_refused() {
    let bad = Point::new("m").add_tag("t", Value::Integer(1));
    assert_eq!(bad.fault(), Some(PointFault::NoFields));
    assert_eq!(
        encode(&Points::new(bad)),
        Err(InvalidPoint { index: 0, fault: PointFault::NoFields })
    );
}

#[test]
fn line_break_in_a_string_field_is_refused() {
    let bad = Point::new("m")
        .add_field("a", Value::Integer(1))
        .add_field("b", Value::string("two\nlines"));
    assert_eq!(bad.fault(), Some(PointFault::LineBreak));
    let first = Point::new("").add_field("b", Value::string("two\nlines"));
    assert_eq!(first.fault(), Some(PointFault::EmptyMeasurement));
    let batch = Points::create_new(vec![
        Point::new("ok").add_field("a", Value::Integer(1)),
        Point::new("ok").add_field("a", Value::Integer(2)),
        bad,
        Point::new(""),
    ]);
    assert_eq!(encode(&batch), Err(InvalidPoint { index: 2, fault: PointFault::LineBreak }));
}

#[test]
fn line_break_in_a_name_is_refused() {
    let field = || Point::new("m").add_field("f", Value::Integer(1));
    let broken = [
        Point::new("two\nlines").add_field("f", Value::Integer(1)),
        field().add_tag("a\nb", Value::string("v")),
        field().add_tag("t", Value::string("a\nb")),
        field().add_field("a\nb", Value::Boolean(true)),
        field().add_tag("t", Value::string("\n")),
    ];
    for point in broken {
        assert_eq!(point.fault(), Some(PointFault::LineBreak));
        assert!(!point.is_valid());
        let batch = Points::new(field()).push(point);
        assert_eq!(encode(&batch), Err(InvalidPoint { index: 1, fault: PointFault::LineBreak }));
    }
    let carriage = field().add_tag("t", Value::string("a\rb"));
    assert_eq!(carriage.fault(), None);
}

#[test]
fn refused_point_says_where_and_why() {
    let refused = |index, fault| InvalidPoint { index, fault }.to_string();
    assert_eq!(refused(0, PointFault::EmptyMeasurement), "point 0: the measurement has no name");
    assert_eq!(refused(12, PointFault::NoFields), "point 12: the point has no field");
    assert_eq!(
        refused(3, PointFault::LineBreak),
        "point 3: a name or a text of the point holds a line break"
    );
    assert_eq!(
        influxdb_rs::Error::refused(&InvalidPoint { index: 7, fault: PointFault::NoFields }),
        influxdb_rs::Error {
            inner: influxdb_rs::error::ErrorKind::SyntaxError(
                "point 7: the point has no field".to_string()
            )
        }
    );
}

#[test]
fn valid_batch_is_checked_and_written() {
    let batch = Points::new(Point::new("m").add_field("f", Value::Integer(1)));
    assert_eq!(batch.check(), Ok(()));
    assert_eq!(encode(&batch), Ok("m f=1i".to_string()));
}

#[test]
fn every_precision_has_its_own_code() {
    let all = [
        (Precision::Nanoseconds, "ns"),
        (Precision::Microseconds, "u"),
        (Precision::Milliseconds, "ms"),
        (Precision::Seconds, "s"),
        (Precision::Minutes, "m"),
        (Precision::Hours, "h"),
    ];
    for (precision, code) in all {
        assert_eq!(precision.to_str(), code);
    }
    for (i, (a, _)) in all.iter().enumerate() {
        for (j, (b, _)) in all.iter().enumerate() {
            assert_eq!(a.to_str() == b.to_str(), i == j);
        }
    }
}

// A reader of lines, written after the rules of the protocol, to hold the
// writer to on chosen values.

fn is_special(c: char) -> bool {
    c == ',' || c == ' ' || c == '='
}

fn read_name(s: &[char]) -> (String, &[char]) {
    let mut name = String::new();
    let mut i = 0;
    while i < s.len() {
        if s[i] == '\\' && i + 1 < s.len() && is_special(s[i + 1]) {
            name.push(s[i + 1]);
            i += 2;
        } else if is_special(s[i]) {
            break;
        } else {
            name.push(s[i]);
            i += 1;
        }
    }
    (name, &s[i..])
}

fn read_quoted(s: &[char]) -> Option<(String, &[char])> {
    let mut text = String::new();
    let mut i = 0;
    while i < s.len() {
        if s[i] == '"' {
            return Some((text, &s[i + 1..]));
        } else if s[i] == '\\' && i + 1 < s.len() && (s[i + 1] == '"' || s[i + 1] == '\\') {
            text.push(s[i + 1]);
            i += 2;
        } else {
            text.push(s[i]);
            i += 1;
        }
    }
    None
}

#[derive(Debug, PartialEq)]
enum Read {
    Text(String),
    Integer(i64),
    Float(f64),
    Boolean(bool),
}

fn read_value(s: &[char]) -> Option<(Read, &[char])> {
    if !s.is_empty() && s[0] == '"' {
        let (text, rest) = read_quoted(&s[1..])?;
        return Some((Read::Text(text), rest));
    }
    let end = s.iter().position(|c| *c == ',' || *c == ' ').unwrap_or(s.len());
    let word: String = s[..end].iter().collect();
    let value = if word == "true" {
        Read::Boolean(true)
    } else if word == "false" {
        Read::Boolean(false)
    } else if let Some(digits) = word.strip_suffix('i') {
        Read::Integer(digits.parse().ok()?)
    } else {
        Read::Float(word.parse().ok()?)
    };
    Some((value, &s[end..]))
}

#[derive(Debug, PartialEq)]
struct ReadPoint {
    measurement: String,
    tags: Vec<(String, String)>,
    fields: Vec<(String, Read)>,
    timestamp: Option<i64>,
}

fn read_line(line: &str) -> Option<ReadPoint> {
    let chars: Vec<char> = line.chars().collect();
    let (measurement, mut rest) = read_name(&chars);
    let mut tags = Vec::new();
    while !rest.is_empty() && rest[0] == ',' {
        let (key, after_key) = read_name(&rest[1..]);
        if after_key.is_empty() || after_key[0] != '=' {
            return None;
        }
        let (value, after) = read_name(&after_key[1..]);
        tags.push((key, value));
        rest = after;
    }
    if rest.is_empty() || rest[0] != ' ' {
        return None;
    }
    rest = &rest[1..];
    let mut fields = Vec::new();
    loop {
        let (key, after_key) = read_name(rest);
        if after_key.is_empty() || after_key[0] != '=' {
            return None;
        }
        let (value, after) = read_value(&after_key[1..])?;
        fields.push((key, value));
        rest = after;
        if !rest.is_empty() && rest[0] == ',' {
            rest = &rest[1..];
        } else {
            break;
        }
    }
    let timestamp = if rest.is_empty() {
        None
    } else if rest[0] == ' ' {
        let text: String = rest[1..].iter().collect();
        Some(text.parse().ok()?)
    } else {
        return None;
    };
    Some(ReadPoint { measurement, tags, fields, timestamp })
}

#[test]
fn what_is_written_is_read_back() {
    let texts = [
        "plain",
        "a,b",
        "a b",
        "a=b",
        "\"quoted\"",
        "back\\slash",
        "\\,\\ \\=",
        ", =\"\\x",
        "\\\\a",
        ",,,",
        "   x",
        "a\\\"b",
        "é ü,=",
        "x\\,y",
    ];
    for text in texts {
        for other in texts {
            let point = Point::new(text)
                .add_tag(other, Value::string(text))
                .add_tag(text, Value::string(other))
                .add_field(text, Value::string(other))
                .add_field(other, Value::string(text))
                .add_field("n", Value::Integer(-42))
                .add_field("f", float(2.5))
                .add_field("b", Value::Boolean(true))
                .add_timestamp(17);
            let mut tags = vec![(other.to_string(), text.to_string())];
            if text == other {
                tags[0].1 = other.to_string();
            } else {
                tags.push((text.to_string(), other.to_string()));
            }
            let mut fields = vec![(text.to_string(), Read::Text(other.to_string()))];
            if text == other {
                fields[0].1 = Read::Text(text.to_string());
            } else {
                fields.push((other.to_string(), Read::Text(text.to_string())));
            }
            fields.push(("n".to_string(), Read::Integer(-42)));
            fields.push(("f".to_string(), Read::Float(2.5)));
            fields.push(("b".to_string(), Read::Boolean(true)));
            let expected =
                ReadPoint { measurement: text.to_string(), tags, fields, timestamp: Some(17) };
            let line = line_of(point);
            assert_eq!(read_line(&line), Some(expected), "{:?}", line);
        }
    }
}

#[test]
fn string_field_is_read_back_whatever_it_ends_in() {
    for text in ["", "\\", "\\\\", "\"", "a\\", "a\"", "\\\"", " , = ", "a\\\\\"\\"] {
        let point = Point::new("m").add_field("f", Value::string(text));
        let read = read_line(&line_of(point)).unwrap();
        assert_eq!(read.fields, vec![("f".to_string(), Read::Text(text.to_string()))]);
    }
}

#[test]
fn name_that_ends_in_a_backslash_is_not_read_back() {
    let point = Point::new("m")
        .add_tag("t", Value::string("end\\"))
        .add_field("f", Value::Integer(1));
    let line = line_of(point);
    assert_eq!(line, "m,t=end\\ f=1i");
    assert_eq!(read_line(&line), None);
}
