//! The values that the configuration of a resource is rendered from.

use vstd::prelude::*;

verus! {

/// One plain value.
#[derive(Debug)]
pub enum Scalar {
    Text(String),
    Flag(bool),
    Number(u64),
    /// No value: what an absent option is rendered as.
    Absent,
}

/// What a [`Scalar`] holds, as a mathematical value.
pub enum ScalarView {
    Text(Seq<char>),
    Flag(bool),
    Number(u64),
    Absent,
}

impl View for Scalar {
    type V = ScalarView;

    open spec fn view(&self) -> ScalarView {
        match *self {
            Scalar::Text(t) => ScalarView::Text(t@),
            Scalar::Flag(b) => ScalarView::Flag(b),
            Scalar::Number(n) => ScalarView::Number(n),
            Scalar::Absent => ScalarView::Absent,
        }
    }
}

/// A record: its fields by name, in order.
#[derive(Debug)]
pub struct Record {
    pub fields: Vec<(String, Scalar)>,
}

/// The fields of a record as mathematical values.
pub open spec fn fields_view(fields: Seq<(String, Scalar)>) -> Seq<(Seq<char>, ScalarView)> {
    Seq::new(fields.len(), |i: int| (fields[i].0@, fields[i].1@))
}

impl View for Record {
    type V = Seq<(Seq<char>, ScalarView)>;

    open spec fn view(&self) -> Seq<(Seq<char>, ScalarView)> {
        fields_view(self.fields@)
    }
}

impl Record {
    /// The record without fields.
    pub fn new() -> (r: Record)
        ensures
            r@ == Seq::<(Seq<char>, ScalarView)>::empty(),
    {
        let r = Record { fields: Vec::new() };
        assert(r@ =~= Seq::empty());
        r
    }

    /// Adds a field at the end.
    pub fn push(&mut self, name: &str, value: Scalar)
        ensures
            final(self)@ == old(self)@.push((name@, value@)),
    {
        self.fields.push((String::from_str(name), value));
        assert(self@ =~= old(self)@.push((name@, value@)));
    }
}

/// The records of a list as mathematical values.
pub open spec fn records_view(records: Seq<Record>) -> Seq<Seq<(Seq<char>, ScalarView)>> {
    Seq::new(records.len(), |i: int| records[i]@)
}

/// A value of a configuration: a plain value or a list of records.
#[derive(Debug)]
pub enum TemplateValue {
    Plain(Scalar),
    Records(Vec<Record>),
}

/// What a [`TemplateValue`] holds, as a mathematical value.
pub enum TemplateValueView {
    Plain(ScalarView),
    Records(Seq<Seq<(Seq<char>, ScalarView)>>),
}

impl View for TemplateValue {
    type V = TemplateValueView;

    open spec fn view(&self) -> TemplateValueView {
        match *self {
            TemplateValue::Plain(s) => TemplateValueView::Plain(s@),
            TemplateValue::Records(r) => TemplateValueView::Records(records_view(r@)),
        }
    }
}

/// The values of a configuration by name, in the order in which they were
/// set. Where a name is set twice, the later value stands.
#[derive(Debug)]
pub struct TemplateContext {
    pub entries: Vec<(String, TemplateValue)>,
}

/// The entries of a configuration as mathematical values.
pub open spec fn entries_view(entries: Seq<(String, TemplateValue)>) -> Seq<
    (Seq<char>, TemplateValueView),
> {
    Seq::new(entries.len(), |i: int| (entries[i].0@, entries[i].1@))
}

impl View for TemplateContext {
    type V = Seq<(Seq<char>, TemplateValueView)>;

    open spec fn view(&self) -> Seq<(Seq<char>, TemplateValueView)> {
        entries_view(self.entries@)
    }
}

/// The entry that sets `name` to a text.
pub open spec fn text_entry(name: Seq<char>, value: Seq<char>) -> (Seq<char>, TemplateValueView) {
    (name, TemplateValueView::Plain(ScalarView::Text(value)))
}

/// The entry that sets `name` to a flag.
pub open spec fn flag_entry(name: Seq<char>, value: bool) -> (Seq<char>, TemplateValueView) {
    (name, TemplateValueView::Plain(ScalarView::Flag(value)))
}

/// The entry that sets `name` to a number.
pub open spec fn number_entry(name: Seq<char>, value: u64) -> (Seq<char>, TemplateValueView) {
    (name, TemplateValueView::Plain(ScalarView::Number(value)))
}

/// The entry that sets `name` to a number that may be absent.
pub open spec fn optional_number_entry(name: Seq<char>, value: Option<u64>) -> (
    Seq<char>,
    TemplateValueView,
) {
    (
        name,
        TemplateValueView::Plain(
            match value {
                Some(n) => ScalarView::Number(n),
                None => ScalarView::Absent,
            },
        ),
    )
}

/// The entry that sets `name` to a list of records.
pub open spec fn records_entry(name: Seq<char>, value: Seq<Seq<(Seq<char>, ScalarView)>>) -> (
    Seq<char>,
    TemplateValueView,
) {
    (name, TemplateValueView::Records(value))
}

impl TemplateContext {
    /// The configuration without values.
    pub fn new() -> (r: TemplateContext)
        ensures
            r@ == Seq::<(Seq<char>, TemplateValueView)>::empty(),
    {
        let r = TemplateContext { entries: Vec::new() };
        assert(r@ =~= Seq::empty());
        r
    }

    /// Sets `name` to a value.
    pub fn insert(&mut self, name: &str, value: TemplateValue)
        ensures
            final(self)@ == old(self)@.push((name@, value@)),
    {
        self.entries.push((String::from_str(name), value));
        assert(self@ =~= old(self)@.push((name@, value@)));
    }

    /// Sets `name` to a text.
    pub fn insert_text(&mut self, name: &str, value: &str)
        ensures
            final(self)@ == old(self)@.push(text_entry(name@, value@)),
    {
        self.insert(name, TemplateValue::Plain(Scalar::Text(String::from_str(value))));
    }

    /// Sets `name` to a flag.
    pub fn insert_flag(&mut self, name: &str, value: bool)
        ensures
            final(self)@ == old(self)@.push(flag_entry(name@, value)),
    {
        self.insert(name, TemplateValue::Plain(Scalar::Flag(value)));
    }

    /// Sets `name` to a number.
    pub fn insert_number(&mut self, name: &str, value: u64)
        ensures
            final(self)@ == old(self)@.push(number_entry(name@, value)),
    {
        self.insert(name, TemplateValue::Plain(Scalar::Number(value)));
    }

    /// Sets `name` to a number that may be absent.
    pub fn insert_optional_number(&mut self, name: &str, value: Option<u64>)
        ensures
            final(self)@ == old(self)@.push(optional_number_entry(name@, value)),
    {
        let scalar = match value {
            Some(n) => Scalar::Number(n),
            None => Scalar::Absent,
        };
        self.insert(name, TemplateValue::Plain(scalar));
    }

    /// Sets `name` to a list of records.
    pub fn insert_records(&mut self, name: &str, value: Vec<Record>)
        ensures
            final(self)@ == old(self)@.push(records_entry(name@, records_view(value@))),
    {
        self.insert(name, TemplateValue::Records(value));
    }

    /// The value that stands for `name`: the one set last.
    pub fn get(&self, name: &str) -> (r: Option<&TemplateValue>)
        ensures
            match r {
                Some(v) => exists|i: int|
                    0 <= i < self@.len() && (#[trigger] self@[i]).0 == name@ && self@[i].1 == v@
                        && forall|j: int| i < j < self@.len() ==> (#[trigger] self@[j]).0 != name@,
                None => forall|j: int| 0 <= j < self@.len() ==> (#[trigger] self@[j]).0 != name@,
            },
    {
        let wanted = String::from_str(name);
        let mut i: usize = self.entries.len();
        while i > 0
            invariant
                i <= self.entries@.len(),
                wanted@ == name@,
                forall|j: int| i <= j < self@.len() ==> (#[trigger] self@[j]).0 != name@,
            decreases i,
        {
            i = i - 1;
            if self.entries[i].0 == wanted {
                assert(self@[i as int].0 == name@);
                return Some(&self.entries[i].1);
            }
        }
        None
    }
}

} // verus!
