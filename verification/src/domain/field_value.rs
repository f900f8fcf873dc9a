//! Typed values of record fields, and the ordered maps that hold the fields of no known name.

use indexmap::IndexMap;

use vstd::prelude::*;
use vstd::string::*;

use crate::domain::entries;
use crate::domain::identity::Uuid;
use crate::domain::timestamp::Timestamp;
use crate::outcome;

verus! {

#[derive(Clone, Copy, Debug, PartialEq, Eq, Hash, Structural)]
pub enum FieldType {
    Uuid,
    Int,
    Bool,
    DateTime,
    Str,
}

impl FieldType {
    /// How the type is named to the operator.
    pub open spec fn text(self) -> Seq<char> {
        match self {
            FieldType::Uuid => "UUID"@,
            FieldType::Int => "int"@,
            FieldType::Bool => "bool"@,
            FieldType::DateTime => "datetime (ISO 8601)"@,
            FieldType::Str => "str"@,
        }
    }

    pub fn as_str(self) -> (result: &'static str)
        ensures
            result@ == self.text(),
    {
        match self {
            FieldType::Uuid => "UUID",
            FieldType::Int => "int",
            FieldType::Bool => "bool",
            FieldType::DateTime => "datetime (ISO 8601)",
            FieldType::Str => "str",
        }
    }
}

#[derive(Debug, PartialEq, Eq)]
pub enum FieldValue {
    Uuid(Uuid),
    Int(i64),
    Bool(bool),
    DateTime(Timestamp),
    Str(String),
    Null,
}

#[derive(Clone, Copy, Debug, PartialEq, Eq)]
pub enum FieldValueRef<'a> {
    Uuid(&'a Uuid),
    Int(i64),
    Bool(bool),
    DateTime(&'a Timestamp),
    Str(&'a str),
    Null,
}

/// A field value as a mathematical value.
pub enum ValueView {
    Uuid(u128),
    Int(i64),
    Bool(bool),
    DateTime(Timestamp),
    Str(Seq<char>),
    Null,
}

impl ValueView {
    pub open spec fn field_type(self) -> Option<FieldType> {
        match self {
            ValueView::Uuid(_) => Some(FieldType::Uuid),
            ValueView::Int(_) => Some(FieldType::Int),
            ValueView::Bool(_) => Some(FieldType::Bool),
            ValueView::DateTime(_) => Some(FieldType::DateTime),
            ValueView::Str(_) => Some(FieldType::Str),
            ValueView::Null => None,
        }
    }
}

impl View for FieldValue {
    type V = ValueView;

    open spec fn view(&self) -> ValueView {
        match self {
            FieldValue::Uuid(value) => ValueView::Uuid(value@),
            FieldValue::Int(value) => ValueView::Int(*value),
            FieldValue::Bool(value) => ValueView::Bool(*value),
            FieldValue::DateTime(value) => ValueView::DateTime(*value),
            FieldValue::Str(value) => ValueView::Str(value@),
            FieldValue::Null => ValueView::Null,
        }
    }
}

impl<'a> View for FieldValueRef<'a> {
    type V = ValueView;

    open spec fn view(&self) -> ValueView {
        match self {
            FieldValueRef::Uuid(value) => ValueView::Uuid(value@),
            FieldValueRef::Int(value) => ValueView::Int(*value),
            FieldValueRef::Bool(value) => ValueView::Bool(*value),
            FieldValueRef::DateTime(value) => ValueView::DateTime(**value),
            FieldValueRef::Str(value) => ValueView::Str(value@),
            FieldValueRef::Null => ValueView::Null,
        }
    }
}

impl Clone for FieldValue {
    fn clone(&self) -> (result: Self)
        ensures
            result == *self,
    {
        match self {
            FieldValue::Uuid(value) => FieldValue::Uuid(*value),
            FieldValue::Int(value) => FieldValue::Int(*value),
            FieldValue::Bool(value) => FieldValue::Bool(*value),
            FieldValue::DateTime(value) => FieldValue::DateTime(*value),
            FieldValue::Str(value) => FieldValue::Str(value.clone()),
            FieldValue::Null => FieldValue::Null,
        }
    }
}

impl FieldValue {
    pub fn field_type(&self) -> (result: Option<FieldType>)
        ensures
            result == self@.field_type(),
    {
        match self {
            FieldValue::Uuid(_) => Some(FieldType::Uuid),
            FieldValue::Int(_) => Some(FieldType::Int),
            FieldValue::Bool(_) => Some(FieldType::Bool),
            FieldValue::DateTime(_) => Some(FieldType::DateTime),
            FieldValue::Str(_) => Some(FieldType::Str),
            FieldValue::Null => None,
        }
    }

    pub fn is_null(&self) -> (result: bool)
        ensures
            result == (self@ == ValueView::Null),
    {
        match self {
            FieldValue::Null => true,
            _ => false,
        }
    }

    pub fn as_ref(&self) -> (result: FieldValueRef<'_>)
        ensures
            result@ == self@,
    {
        match self {
            FieldValue::Uuid(value) => FieldValueRef::Uuid(value),
            FieldValue::Int(value) => FieldValueRef::Int(*value),
            FieldValue::Bool(value) => FieldValueRef::Bool(*value),
            FieldValue::DateTime(value) => FieldValueRef::DateTime(value),
            FieldValue::Str(value) => FieldValueRef::Str(value.as_str()),
            FieldValue::Null => FieldValueRef::Null,
        }
    }
}

impl<'a> FieldValueRef<'a> {
    pub fn field_type(self) -> (result: Option<FieldType>)
        ensures
            result == self@.field_type(),
    {
        match self {
            FieldValueRef::Uuid(_) => Some(FieldType::Uuid),
            FieldValueRef::Int(_) => Some(FieldType::Int),
            FieldValueRef::Bool(_) => Some(FieldType::Bool),
            FieldValueRef::DateTime(_) => Some(FieldType::DateTime),
            FieldValueRef::Str(_) => Some(FieldType::Str),
            FieldValueRef::Null => None,
        }
    }

    pub fn is_null(self) -> (result: bool)
        ensures
            result == (self@ == ValueView::Null),
    {
        match self {
            FieldValueRef::Null => true,
            _ => false,
        }
    }

    pub fn into_owned(self) -> (result: FieldValue)
        ensures
            result@ == self@,
    {
        match self {
            FieldValueRef::Uuid(value) => FieldValue::Uuid(*value),
            FieldValueRef::Int(value) => FieldValue::Int(value),
            FieldValueRef::Bool(value) => FieldValue::Bool(value),
            FieldValueRef::DateTime(value) => FieldValue::DateTime(*value),
            FieldValueRef::Str(value) => FieldValue::Str(value.to_owned()),
            FieldValueRef::Null => FieldValue::Null,
        }
    }
}

/// Fields whose names the tool does not know, in the order they were met.
pub type ExtraFields = IndexMap<String, FieldValue>;

/// The entries of a map of fields, in order.
pub uninterp spec fn extra_entries(fields: IndexMap<String, FieldValue>) -> Seq<(Seq<char>, ValueView)>;

/// Calls `IndexMap::new`: the map is empty.
#[verifier::external_body]
pub(crate) fn new_extra() -> (result: ExtraFields)
    ensures
        extra_entries(result) == Seq::<(Seq<char>, ValueView)>::empty(),
{
    IndexMap::new()
}

/// Calls `IndexMap::clone`: the copy holds the same entries, since a `String` and a `FieldValue` are
/// cloned to equal ones.
#[verifier::external_body]
pub(crate) fn clone_extra(fields: &ExtraFields) -> (result: ExtraFields)
    ensures
        extra_entries(result) == extra_entries(*fields),
{
    fields.clone()
}

/// Calls `IndexMap::len`: the number of entries. No key occurs twice in a map.
#[verifier::external_body]
pub(crate) fn extra_len(fields: &ExtraFields) -> (result: usize)
    ensures
        entries::counts(result, extra_entries(*fields)),
{
    fields.len()
}

/// Calls `IndexMap::get`: the value of a key.
#[verifier::external_body]
pub(crate) fn extra_get<'a>(fields: &'a ExtraFields, key: &str) -> (result: Option<&'a FieldValue>)
    ensures
        outcome::option_view(result) == entries::lookup(extra_entries(*fields), key@),
{
    fields.get(key)
}

/// Calls `IndexMap::get_index`: the entry at a position, in insertion order.
#[verifier::external_body]
pub(crate) fn extra_at(fields: &ExtraFields, index: usize) -> (result: Option<(&String, &FieldValue)>)
    ensures
        match result {
            Some((key, value)) => index < extra_entries(*fields).len() && extra_entries(
                *fields,
            )[index as int] == (key@, value@),
            None => index >= extra_entries(*fields).len(),
        },
{
    fields.get_index(index)
}

/// Calls `IndexMap::insert`: a known key keeps its place and gets the new value, a new key goes
/// last.
#[verifier::external_body]
pub(crate) fn extra_insert(fields: &mut ExtraFields, key: String, value: FieldValue)
    ensures
        extra_entries(*final(fields)) == entries::inserted(
            extra_entries(*old(fields)),
            key@,
            value@,
        ),
{
    fields.insert(key, value);
}

} // verus!
