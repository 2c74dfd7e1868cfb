//! Points: one sample of a measurement, with its tags, fields and time.
use crate::data_model::decimal::{is_float_numeral, Decimal};
use crate::text::{contains_char, decimal, push_nat};
use vstd::prelude::*;
use vstd::std_specs::convert::FromSpecImpl;

verus! {

/// The value of a tag or of a field.
#[derive(Debug, PartialEq, Eq)]
pub enum Value {
    /// A text.
    String(String),
    /// A signed integer of 64 bits.
    Integer(i64),
    /// A floating-point number, held as its decimal numeral.
    Float(Decimal),
    /// A truth value.
    Boolean(bool),
}

/// The mathematical content of a [`Value`].
pub enum ValueView {
    String(Seq<char>),
    Integer(int),
    Float(Seq<char>),
    Boolean(bool),
}

impl View for Value {
    type V = ValueView;

    open spec fn view(&self) -> ValueView {
        match self {
            Value::String(s) => ValueView::String(s@),
            Value::Integer(i) => ValueView::Integer(*i as int),
            Value::Float(d) => ValueView::Float(d@),
            Value::Boolean(b) => ValueView::Boolean(*b),
        }
    }
}

impl Clone for Value {
    fn clone(&self) -> (copy: Value)
        ensures
            copy@ == self@,
    {
        match self {
            Value::String(s) => Value::String(s.clone()),
            Value::Integer(i) => Value::Integer(*i),
            Value::Float(d) => Value::Float(d.clone()),
            Value::Boolean(b) => Value::Boolean(*b),
        }
    }
}

impl Value {
    /// The float that the decimal numeral `text` writes. `None` where `text` is
    /// no decimal numeral; otherwise the numeral is kept, with `.0` after it
    /// where it has neither a fraction nor an exponent.
    pub fn float(text: &str) -> (value: Option<Value>)
        ensures
            value is Some <==> crate::data_model::decimal::is_decimal(text@),
            value matches Some(v) ==> v@ == ValueView::Float(
                crate::data_model::decimal::float_text(text@),
            ),
    {
        match Decimal::parse(text) {
            Some(d) => Some(Value::Float(d)),
            None => None,
        }
    }

    /// A text value.
    pub fn string(text: &str) -> (value: Value)
        ensures
            value@ == ValueView::String(text@),
    {
        Value::String(text.to_owned())
    }
}

impl From<i64> for Value {
    /// An integer value.
    fn from(number: i64) -> (value: Value)
        ensures
            value@ == ValueView::Integer(number as int),
    {
        Value::Integer(number)
    }
}

impl FromSpecImpl<i64> for Value {
    open spec fn obeys_from_spec() -> bool {
        true
    }

    open spec fn from_spec(number: i64) -> Value {
        Value::Integer(number)
    }
}

impl From<bool> for Value {
    /// A truth value.
    fn from(truth: bool) -> (value: Value)
        ensures
            value@ == ValueView::Boolean(truth),
    {
        Value::Boolean(truth)
    }
}

impl FromSpecImpl<bool> for Value {
    open spec fn obeys_from_spec() -> bool {
        true
    }

    open spec fn from_spec(truth: bool) -> Value {
        Value::Boolean(truth)
    }
}

impl From<String> for Value {
    /// A text value.
    fn from(text: String) -> (value: Value)
        ensures
            value@ == ValueView::String(text@),
    {
        Value::String(text)
    }
}

impl FromSpecImpl<String> for Value {
    open spec fn obeys_from_spec() -> bool {
        true
    }

    open spec fn from_spec(text: String) -> Value {
        Value::String(text)
    }
}

/// The keyed values of a point, in the order in which they were added.
pub type Entries = Seq<(Seq<char>, ValueView)>;

/// The mathematical content of keyed values as a point holds them.
pub open spec fn entries_view(entries: Seq<(String, Value)>) -> Entries {
    Seq::new(entries.len(), |i: int| (entries[i].0@, entries[i].1@))
}

/// An entry added at the end shows at the end of the content.
pub proof fn lemma_entries_view_push(entries: Seq<(String, Value)>, entry: (String, Value))
    ensures
        entries_view(entries.push(entry)) == entries_view(entries).push((entry.0@, entry.1@)),
{
    let left = entries_view(entries.push(entry));
    let right = entries_view(entries).push((entry.0@, entry.1@));
    assert(left.len() == right.len());
    assert forall|i: int| 0 <= i < left.len() implies left[i] == right[i] by {
        if i < entries.len() {
            assert(entries.push(entry)[i] == entries[i]);
        } else {
            assert(entries.push(entry)[i] == entry);
        }
    }
    assert(left =~= right);
}

/// An entry put in the place of another shows in that place of the content.
pub proof fn lemma_entries_view_update(
    entries: Seq<(String, Value)>,
    at: int,
    entry: (String, Value),
)
    requires
        0 <= at < entries.len(),
    ensures
        entries_view(entries.update(at, entry)) == entries_view(entries).update(
            at,
            (entry.0@, entry.1@),
        ),
{
    let left = entries_view(entries.update(at, entry));
    let right = entries_view(entries).update(at, (entry.0@, entry.1@));
    assert(left.len() == right.len());
    assert forall|i: int| 0 <= i < left.len() implies left[i] == right[i] by {
        if i == at {
            assert(entries.update(at, entry)[i] == entry);
        } else {
            assert(entries.update(at, entry)[i] == entries[i]);
        }
    }
    assert(left =~= right);
}

/// Whether some entry has the key `key`.
pub open spec fn has_key(entries: Entries, key: Seq<char>) -> bool {
    exists|i: int| 0 <= i < entries.len() && #[trigger] entries[i].0 == key
}

/// Whether no key occurs twice.
pub open spec fn unique_keys(entries: Entries) -> bool {
    forall|i: int, j: int|
        0 <= i < j < entries.len() ==> #[trigger] entries[i].0 != #[trigger] entries[j].0
}

/// The entries after `key` was given the value `value`: a key that is there
/// keeps its place and gets the new value, a new key goes to the end.
pub open spec fn upsert(entries: Entries, key: Seq<char>, value: ValueView) -> Entries {
    if has_key(entries, key) {
        let i = choose|i: int| 0 <= i < entries.len() && #[trigger] entries[i].0 == key;
        entries.update(i, (key, value))
    } else {
        entries.push((key, value))
    }
}

/// Whether every float among the values is held as a decimal numeral that
/// cannot be taken for an integer, as every float that was made is.
pub open spec fn numerals_well_formed(entries: Entries) -> bool {
    forall|i: int|
        0 <= i < entries.len() ==> (#[trigger] entries[i].1 matches ValueView::Float(t)
            ==> is_float_numeral(t))
}

/// Whether an entry holds a line break: in its key, or in its value where
/// that is a text.
pub open spec fn entry_has_line_break(entry: (Seq<char>, ValueView)) -> bool {
    entry.0.contains('\n') || (entry.1 matches ValueView::String(s) && s.contains('\n'))
}

/// Whether some entry holds a line break.
pub open spec fn has_line_break(entries: Entries) -> bool {
    exists|i: int| 0 <= i < entries.len() && entry_has_line_break(#[trigger] entries[i])
}

/// Why a point cannot be written.
#[derive(Clone, Copy, Debug, PartialEq, Eq, Structural)]
pub enum PointFault {
    /// The name of the measurement is empty.
    EmptyMeasurement,
    /// The point has no field.
    NoFields,
    /// The measurement, a key, or a text among the values holds a line break.
    LineBreak,
}

/// The mathematical content of a [`Point`].
pub struct PointView {
    pub measurement: Seq<char>,
    pub tags: Entries,
    pub fields: Entries,
    pub timestamp: Option<int>,
}

impl PointView {
    /// The first reason for which the point cannot be written, if there is one.
    pub open spec fn fault(self) -> Option<PointFault> {
        if self.measurement.len() == 0 {
            Some(PointFault::EmptyMeasurement)
        } else if self.fields.len() == 0 {
            Some(PointFault::NoFields)
        } else if self.measurement.contains('\n') || has_line_break(self.tags) || has_line_break(
            self.fields,
        ) {
            Some(PointFault::LineBreak)
        } else {
            None
        }
    }

    /// Whether the point can be written: its measurement has a name, it has a
    /// field, and neither the measurement, nor a key, nor a text among its
    /// values holds a line break.
    pub open spec fn valid(self) -> bool {
        self.fault() is None
    }
}

/// Giving a key a value keeps the keys distinct, changes no other entry and
/// moves none; where the floats were decimal numerals and the value is one or
/// no float, they still are.
pub proof fn lemma_upsert(entries: Entries, key: Seq<char>, value: ValueView)
    requires
        unique_keys(entries),
    ensures
        unique_keys(upsert(entries, key, value)),
        numerals_well_formed(entries) && (value matches ValueView::Float(t) ==> is_float_numeral(t))
            ==> numerals_well_formed(upsert(entries, key, value)),
        has_key(upsert(entries, key, value), key),
        forall|i: int|
            #![trigger entries[i]]
            0 <= i < entries.len() ==> {
                &&& i < upsert(entries, key, value).len()
                &&& upsert(entries, key, value)[i].0 == entries[i].0
                &&& (entries[i].0 != key ==> upsert(entries, key, value)[i] == entries[i])
                &&& (entries[i].0 == key ==> upsert(entries, key, value)[i].1 == value)
            },
        upsert(entries, key, value).len() == if has_key(entries, key) {
            entries.len()
        } else {
            entries.len() + 1
        },
{
    let after = upsert(entries, key, value);
    if has_key(entries, key) {
        let i = choose|i: int| 0 <= i < entries.len() && #[trigger] entries[i].0 == key;
        assert(after[i].0 == key);
    } else {
        assert(after[entries.len() as int].0 == key);
    }
}

/// Where the keys are distinct and the entry at `at` has the key `key`, giving
/// `key` a value changes that entry.
pub proof fn lemma_upsert_at(entries: Entries, key: Seq<char>, value: ValueView, at: int)
    requires
        unique_keys(entries),
        0 <= at < entries.len(),
        entries[at].0 == key,
    ensures
        upsert(entries, key, value) == entries.update(at, (key, value)),
{
    let i = choose|i: int| 0 <= i < entries.len() && #[trigger] entries[i].0 == key;
    assert(i == at);
}

/// One sample of a measurement.
#[derive(Debug, PartialEq, Eq)]
pub struct Point {
    measurement: String,
    tags: Vec<(String, Value)>,
    fields: Vec<(String, Value)>,
    timestamp: Option<i64>,
}

impl View for Point {
    type V = PointView;

    closed spec fn view(&self) -> PointView {
        PointView {
            measurement: self.measurement@,
            tags: entries_view(self.tags@),
            fields: entries_view(self.fields@),
            timestamp: match self.timestamp {
                Some(t) => Some(t as int),
                None => None,
            },
        }
    }
}

/// Gives `key` the value `value` among `entries`.
fn put(entries: &mut Vec<(String, Value)>, key: &str, value: Value)
    requires
        unique_keys(entries_view(old(entries)@)),
        numerals_well_formed(entries_view(old(entries)@)),
    ensures
        entries_view(final(entries)@) == upsert(entries_view(old(entries)@), key@, value@),
        unique_keys(entries_view(final(entries)@)),
        numerals_well_formed(entries_view(final(entries)@)),
{
    let ghost before = entries_view(entries@);
    proof {
        match &value {
            Value::Float(d) => {
                use_type_invariant(d);
            },
            _ => {},
        }
    }
    let owned = key.to_owned();
    let mut i: usize = 0;
    while i < entries.len()
        invariant
            i <= entries.len(),
            owned@ == key@,
            entries_view(entries@) == before,
            before == entries_view(old(entries)@),
            unique_keys(before),
            numerals_well_formed(before),
            value@ matches ValueView::Float(t) ==> is_float_numeral(t),
            forall|j: int| 0 <= j < i ==> #[trigger] before[j].0 != key@,
        decreases entries.len() - i,
    {
        if entries[i].0 == owned {
            proof {
                assert(before[i as int].0 == key@);
                lemma_upsert_at(before, key@, value@, i as int);
                lemma_upsert(before, key@, value@);
            }
            let ghost held = entries@;
            entries.set(i, (owned, value));
            proof {
                lemma_entries_view_update(held, i as int, (owned, value));
            }
            return ;
        }
        i = i + 1;
    }
    proof {
        assert(!has_key(before, key@));
        lemma_upsert(before, key@, value@);
    }
    let ghost held = entries@;
    entries.push((owned, value));
    proof {
        lemma_entries_view_push(held, (owned, value));
    }
}

/// A copy of `entries`.
fn copy_entries(entries: &Vec<(String, Value)>) -> (copy: Vec<(String, Value)>)
    ensures
        entries_view(copy@) == entries_view(entries@),
{
    let mut copy: Vec<(String, Value)> = Vec::new();
    let mut i: usize = 0;
    while i < entries.len()
        invariant
            i <= entries.len(),
            entries_view(copy@) == entries_view(entries@).take(i as int),
        decreases entries.len() - i,
    {
        let key = entries[i].0.clone();
        let value = entries[i].1.clone();
        let ghost held = copy@;
        copy.push((key, value));
        proof {
            lemma_entries_view_push(held, (key, value));
            assert(entries_view(entries@).take(i + 1) == entries_view(entries@).take(
                i as int,
            ).push(entries_view(entries@)[i as int]));
        }
        i = i + 1;
    }
    assert(entries_view(entries@).take(entries.len() as int) == entries_view(entries@));
    copy
}

impl Clone for Point {
    fn clone(&self) -> (copy: Point)
        ensures
            copy@ == self@,
    {
        proof {
            use_type_invariant(self);
        }
        Point {
            measurement: self.measurement.clone(),
            tags: copy_entries(&self.tags),
            fields: copy_entries(&self.fields),
            timestamp: self.timestamp,
        }
    }
}

impl Point {
    #[verifier::type_invariant]
    spec fn well_formed(self) -> bool {
        &&& unique_keys(entries_view(self.tags@))
        &&& unique_keys(entries_view(self.fields@))
        &&& numerals_well_formed(entries_view(self.tags@))
        &&& numerals_well_formed(entries_view(self.fields@))
    }

    /// A point of the measurement `measurement`, with no tag, no field and no
    /// time yet.
    pub fn new(measurement: &str) -> (point: Point)
        ensures
            point@ == (PointView {
                measurement: measurement@,
                tags: Seq::empty(),
                fields: Seq::empty(),
                timestamp: None,
            }),
    {
        let point = Point {
            measurement: measurement.to_owned(),
            tags: Vec::new(),
            fields: Vec::new(),
            timestamp: None,
        };
        assert(entries_view(point.tags@) == Seq::<(Seq<char>, ValueView)>::empty());
        assert(entries_view(point.fields@) == Seq::<(Seq<char>, ValueView)>::empty());
        point
    }

    /// Gives the tag `tag` the value `value`.
    pub fn add_tag(self, tag: &str, value: Value) -> (point: Point)
        ensures
            point@ == (PointView { tags: upsert(self@.tags, tag@, value@), ..self@ }),
    {
        proof {
            use_type_invariant(&self);
        }
        let Point { measurement, mut tags, fields, timestamp } = self;
        put(&mut tags, tag, value);
        Point { measurement, tags, fields, timestamp }
    }

    /// Gives the field `field` the value `value`.
    pub fn add_field(self, field: &str, value: Value) -> (point: Point)
        ensures
            point@ == (PointView { fields: upsert(self@.fields, field@, value@), ..self@ }),
    {
        proof {
            use_type_invariant(&self);
        }
        let Point { measurement, tags, mut fields, timestamp } = self;
        put(&mut fields, field, value);
        Point { measurement, tags, fields, timestamp }
    }

    /// Sets the time of the point. Its unit is that of the batch in which the
    /// point is written.
    pub fn add_timestamp(self, timestamp: i64) -> (point: Point)
        ensures
            point@ == (PointView { timestamp: Some(timestamp as int), ..self@ }),
    {
        proof {
            use_type_invariant(&self);
        }
        let Point { measurement, tags, fields, timestamp: _ } = self;
        Point { measurement, tags, fields, timestamp: Some(timestamp) }
    }

    /// The name of the measurement.
    pub fn measurement(&self) -> (name: &str)
        ensures
            name@ == self@.measurement,
    {
        self.measurement.as_str()
    }

    /// The tags, in the order in which they were added; no key occurs twice,
    /// and every float is a decimal numeral.
    pub fn tags(&self) -> (tags: &Vec<(String, Value)>)
        ensures
            entries_view(tags@) == self@.tags,
            unique_keys(self@.tags),
            numerals_well_formed(self@.tags),
    {
        proof {
            use_type_invariant(self);
        }
        &self.tags
    }

    /// The fields, in the order in which they were added; no key occurs
    /// twice, and every float is a decimal numeral.
    pub fn fields(&self) -> (fields: &Vec<(String, Value)>)
        ensures
            entries_view(fields@) == self@.fields,
            unique_keys(self@.fields),
            numerals_well_formed(self@.fields),
    {
        proof {
            use_type_invariant(self);
        }
        &self.fields
    }

    /// The time of the point, if it has one.
    pub fn timestamp(&self) -> (timestamp: Option<i64>)
        ensures
            timestamp is Some == self@.timestamp is Some,
            timestamp matches Some(t) ==> self@.timestamp == Some(t as int),
    {
        self.timestamp
    }
}

/// Whether some entry of `entries` holds a line break.
fn holds_line_break(entries: &Vec<(String, Value)>) -> (found: bool)
    ensures
        found == has_line_break(entries_view(entries@)),
{
    let ghost all = entries_view(entries@);
    let mut i: usize = 0;
    while i < entries.len()
        invariant
            i <= entries.len(),
            all == entries_view(entries@),
            !has_line_break(all.take(i as int)),
        decreases entries.len() - i,
    {
        let in_key = contains_char(entries[i].0.as_str(), '\n');
        let in_value = match &entries[i].1 {
            Value::String(s) => contains_char(s.as_str(), '\n'),
            _ => false,
        };
        if in_key || in_value {
            assert(entry_has_line_break(all[i as int]));
            return true;
        }
        proof {
            let before = all.take(i as int);
            let after = all.take(i + 1);
            assert(!entry_has_line_break(all[i as int]));
            if has_line_break(after) {
                let j = choose|j: int|
                    0 <= j < after.len() && entry_has_line_break(#[trigger] after[j]);
                if j < i {
                    assert(before[j] == after[j]);
                } else {
                    assert(after[j] == all[i as int]);
                }
            }
        }
        i = i + 1;
    }
    assert(all.take(entries.len() as int) == all);
    false
}

impl Point {
    /// The first reason for which the point cannot be written, if there is one.
    pub fn fault(&self) -> (fault: Option<PointFault>)
        ensures
            fault == self@.fault(),
    {
        if self.measurement.as_str().is_empty() {
            Some(PointFault::EmptyMeasurement)
        } else if self.fields.len() == 0 {
            Some(PointFault::NoFields)
        } else if contains_char(self.measurement.as_str(), '\n') || holds_line_break(&self.tags)
            || holds_line_break(&self.fields) {
            Some(PointFault::LineBreak)
        } else {
            None
        }
    }

    /// Whether the point can be written.
    pub fn is_valid(&self) -> (valid: bool)
        ensures
            valid == self@.valid(),
    {
        self.fault().is_none()
    }
}

/// A batch of points, in the order in which they are written.
#[derive(Debug, Clone, PartialEq, Eq)]
pub struct Points {
    /// The points of the batch.
    pub point: Vec<Point>,
}

impl View for Points {
    type V = Seq<PointView>;

    open spec fn view(&self) -> Seq<PointView> {
        Seq::new(self.point@.len(), |i: int| self.point@[i]@)
    }
}

/// The first point of a batch that cannot be written, and why.
#[derive(Clone, Copy, Debug, PartialEq, Eq, Structural)]
pub struct InvalidPoint {
    /// The place of the point in the batch, counted from zero.
    pub index: usize,
    /// Why the point cannot be written.
    pub fault: PointFault,
}

impl PointFault {
    /// The fault in words.
    pub open spec fn text(self) -> Seq<char> {
        match self {
            PointFault::EmptyMeasurement => "the measurement has no name"@,
            PointFault::NoFields => "the point has no field"@,
            PointFault::LineBreak => "a name or a text of the point holds a line break"@,
        }
    }

    /// The fault in words.
    pub fn as_str(&self) -> (text: &'static str)
        ensures
            text@ == self.text(),
    {
        match self {
            PointFault::EmptyMeasurement => "the measurement has no name",
            PointFault::NoFields => "the point has no field",
            PointFault::LineBreak => "a name or a text of the point holds a line break",
        }
    }
}

impl InvalidPoint {
    /// The place of the point and its fault, in words.
    pub open spec fn text(self) -> Seq<char> {
        "point "@ + decimal(self.index as int) + ": "@ + self.fault.text()
    }

    /// The place of the point and its fault, in words.
    pub fn to_string(&self) -> (text: String)
        ensures
            text@ == self.text(),
    {
        let mut text = "point ".to_owned();
        push_nat(&mut text, self.index as u64);
        text.append(": ");
        text.append(self.fault.as_str());
        text
    }
}

/// Whether every point of the batch can be written.
pub open spec fn all_valid(points: Seq<PointView>) -> bool {
    forall|i: int| 0 <= i < points.len() ==> (#[trigger] points[i]).valid()
}

impl Points {
    /// A batch of one point.
    pub fn new(point: Point) -> (points: Points)
        ensures
            points@ == seq![point@],
    {
        let mut batch: Vec<Point> = Vec::new();
        batch.push(point);
        let points = Points { point: batch };
        assert(points@ =~= seq![point@]);
        points
    }

    /// The batch with `point` after its last point.
    pub fn push(self, point: Point) -> (points: Points)
        ensures
            points@ == self@.push(point@),
    {
        let mut batch = self.point;
        batch.push(point);
        let points = Points { point: batch };
        assert(points@ =~= self@.push(point@));
        points
    }

    /// The batch of the given points, in their order.
    pub fn create_new(points: Vec<Point>) -> (batch: Points)
        ensures
            batch.point == points,
    {
        Points { point: points }
    }

    /// Looks for a point that cannot be written. `Ok` exactly where every point
    /// can be; otherwise the first that cannot, with the reason.
    pub fn check(&self) -> (checked: Result<(), InvalidPoint>)
        ensures
            checked is Ok <==> all_valid(self@),
            checked matches Err(e) ==> {
                &&& e.index < self@.len()
                &&& self@[e.index as int].fault() == Some(e.fault)
                &&& all_valid(self@.take(e.index as int))
            },
    {
        let mut i: usize = 0;
        while i < self.point.len()
            invariant
                i <= self.point.len(),
                all_valid(self@.take(i as int)),
            decreases self.point.len() - i,
        {
            match self.point[i].fault() {
                Some(fault) => {
                    assert(!self@[i as int].valid());
                    return Err(InvalidPoint { index: i, fault });
                },
                None => {},
            }
            proof {
                let after = self@.take(i + 1);
                assert forall|j: int| 0 <= j < after.len() implies (#[trigger] after[j]).valid() by {
                    if j < i {
                        assert(after[j] == self@.take(i as int)[j]);
                    }
                }
            }
            i = i + 1;
        }
        assert(self@.take(self.point.len() as int) == self@);
        Ok(())
    }
}

/// The unit of the times of a batch.
#[derive(Clone, Copy, Debug, PartialEq, Eq, Structural)]
pub enum Precision {
    /// ns
    Nanoseconds,
    /// u
    Microseconds,
    /// ms
    Milliseconds,
    /// s
    Seconds,
    /// m
    Minutes,
    /// h
    Hours,
}

impl Precision {
    /// The code that names the unit in a request.
    pub open spec fn code(&self) -> Seq<char> {
        match self {
            Precision::Nanoseconds => seq!['n', 's'],
            Precision::Microseconds => seq!['u'],
            Precision::Milliseconds => seq!['m', 's'],
            Precision::Seconds => seq!['s'],
            Precision::Minutes => seq!['m'],
            Precision::Hours => seq!['h'],
        }
    }

    /// Convert Precision to &str
    pub fn to_str(&self) -> (code: &'static str)
        ensures
            code@ == self.code(),
    {
        proof {
            reveal_strlit("ns");
            reveal_strlit("u");
            reveal_strlit("ms");
            reveal_strlit("s");
            reveal_strlit("m");
            reveal_strlit("h");
        }
        let code = match self {
            Precision::Nanoseconds => "ns",
            Precision::Microseconds => "u",
            Precision::Milliseconds => "ms",
            Precision::Seconds => "s",
            Precision::Minutes => "m",
            Precision::Hours => "h",
        };
        assert(code@ =~= self.code());
        code
    }
}

/// Every unit has one code, and no two units share a code.
pub proof fn lemma_precision_codes_differ(a: Precision, b: Precision)
    ensures
        a.code().len() > 0,
        a.code() == b.code() <==> a == b,
{
    if a != b {
        let x = a.code();
        let y = b.code();
        if x.len() == y.len() {
            assert(x[0] != y[0] || (x.len() == 2 && x[1] != y[1]));
        }
    }
}

} // verus!
