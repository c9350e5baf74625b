//! Argument payloads as the bridge sees them.

use crate::text::same_text;
use vstd::prelude::*;

verus! {

/// The value of one argument.
#[derive(Debug, PartialEq, Eq)]
pub enum ArgValue {
    /// An explicit null.
    Null,
    /// A truth value.
    Bool(bool),
    /// A whole number.
    Integer(i64),
    /// A piece of text.
    Text(String),
    /// Any value that the bridge does not look into: a fraction, a list, a
    /// nested record.
    Opaque,
}

/// The mathematical value of an [`ArgValue`].
pub enum ArgValueView {
    Null,
    Bool(bool),
    Integer(i64),
    Text(Seq<char>),
    Opaque,
}

impl View for ArgValue {
    type V = ArgValueView;

    open spec fn view(&self) -> ArgValueView {
        match self {
            ArgValue::Null => ArgValueView::Null,
            ArgValue::Bool(b) => ArgValueView::Bool(*b),
            ArgValue::Integer(n) => ArgValueView::Integer(*n),
            ArgValue::Text(t) => ArgValueView::Text(t@),
            ArgValue::Opaque => ArgValueView::Opaque,
        }
    }
}

/// One named argument.
#[derive(Debug, PartialEq, Eq)]
pub struct Field {
    pub name: String,
    pub value: ArgValue,
}

/// The mathematical value of a [`Field`].
pub struct FieldView {
    pub name: Seq<char>,
    pub value: ArgValueView,
}

impl View for Field {
    type V = FieldView;

    open spec fn view(&self) -> FieldView {
        FieldView { name: self.name@, value: self.value@ }
    }
}

/// What the front-end sent along with a command name.
///
/// The payload is untrusted: it may be missing, it may not be a record of
/// named arguments at all, and a record may name a field more than once, in
/// which case the first occurrence counts.
#[derive(Debug, PartialEq, Eq)]
pub enum Payload {
    /// Nothing was sent.
    Absent,
    /// Something was sent that is not a record of named arguments.
    Malformed,
    /// Named arguments, in the order in which they were sent.
    Record(Vec<Field>),
}

/// The mathematical value of a [`Payload`].
pub enum PayloadView {
    Absent,
    Malformed,
    Record(Seq<FieldView>),
}

impl View for Payload {
    type V = PayloadView;

    open spec fn view(&self) -> PayloadView {
        match self {
            Payload::Absent => PayloadView::Absent,
            Payload::Malformed => PayloadView::Malformed,
            Payload::Record(fields) => PayloadView::Record(fields_view(fields@)),
        }
    }
}

/// The values of a list of fields, field by field.
pub open spec fn fields_view(fields: Seq<Field>) -> Seq<FieldView> {
    Seq::new(fields.len(), |i: int| fields[i]@)
}

/// The value of the first field called `key`, if there is one.
pub open spec fn first_named(fields: Seq<FieldView>, key: Seq<char>) -> Option<ArgValueView>
    decreases fields.len(),
{
    if fields.len() == 0 {
        None
    } else if fields[0].name == key {
        Some(fields[0].value)
    } else {
        first_named(fields.drop_first(), key)
    }
}

impl PayloadView {
    /// The value of the argument called `key`. A payload that is not a record
    /// has no arguments.
    pub open spec fn field(self, key: Seq<char>) -> Option<ArgValueView> {
        match self {
            PayloadView::Record(fields) => first_named(fields, key),
            _ => None,
        }
    }

    /// The text of the argument called `key`, where the payload has such an
    /// argument and its value is text.
    pub open spec fn text(self, key: Seq<char>) -> Option<Seq<char>> {
        match self.field(key) {
            Some(ArgValueView::Text(t)) => Some(t),
            _ => None,
        }
    }
}

impl Payload {
    /// A record made of the given fields.
    pub fn record(fields: Vec<Field>) -> (payload: Payload)
        ensures
            payload@ == PayloadView::Record(fields_view(fields@)),
    {
        Payload::Record(fields)
    }

    /// The value of the argument called `key`.
    pub fn field(&self, key: &str) -> (found: Option<&ArgValue>)
        ensures
            match found {
                Some(value) => self@.field(key@) == Some(value@),
                None => self@.field(key@) is None,
            },
    {
        match self {
            Payload::Record(fields) => {
                let ghost all = fields_view(fields@);
                assert(all.skip(0) =~= all);
                let mut i: usize = 0;
                while i < fields.len()
                    invariant
                        i <= fields@.len(),
                        all == fields_view(fields@),
                        self@ == PayloadView::Record(all),
                        first_named(all, key@) == first_named(all.skip(i as int), key@),
                    decreases fields@.len() - i,
                {
                    proof {
                        let rest = all.skip(i as int);
                        assert(rest[0] == fields@[i as int]@);
                        assert(rest.drop_first() =~= all.skip(i + 1));
                    }
                    if same_text(fields[i].name.as_str(), key) {
                        return Some(&fields[i].value);
                    }
                    i += 1;
                }
                None
            },
            _ => None,
        }
    }

    /// The text of the argument called `key`, where the payload has such an
    /// argument and its value is text.
    pub fn text(&self, key: &str) -> (found: Option<&String>)
        ensures
            match found {
                Some(t) => self@.text(key@) == Some(t@),
                None => self@.text(key@) is None,
            },
    {
        match self.field(key) {
            Some(ArgValue::Text(t)) => Some(t),
            _ => None,
        }
    }
}

impl Field {
    /// A field with a text value.
    pub fn text(name: &str, value: &str) -> (field: Field)
        ensures
            field@ == (FieldView { name: name@, value: ArgValueView::Text(value@) }),
    {
        Field { name: name.to_owned(), value: ArgValue::Text(value.to_owned()) }
    }
}

} // verus!
