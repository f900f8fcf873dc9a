//! JSON documents of plain values.

use vstd::prelude::*;
use vstd::string::*;

use serde_json::Value;

use crate::outcome;

verus! {

/// A value in a document. A text may be missing.
#[derive(Debug, PartialEq, Eq)]
pub enum JsonScalar {
    Bool(bool),
    Int(i64),
    Count(u64),
    Text(Option<String>),
}

pub enum JsonView {
    Null,
    Bool(bool),
    Int(int),
    Text(Seq<char>),
}

impl View for JsonScalar {
    type V = JsonView;

    open spec fn view(&self) -> JsonView {
        match self {
            JsonScalar::Bool(value) => JsonView::Bool(*value),
            JsonScalar::Int(value) => JsonView::Int(*value as int),
            JsonScalar::Count(value) => JsonView::Int(*value as int),
            JsonScalar::Text(Some(value)) => JsonView::Text(value@),
            JsonScalar::Text(None) => JsonView::Null,
        }
    }
}

/// The members of an object, in order.
pub type JsonRow = Vec<(String, JsonScalar)>;

/// The members of an object, in order, by view.
pub type RowView = Seq<(Seq<char>, JsonView)>;

pub open spec fn row_view(row: Seq<(String, JsonScalar)>) -> RowView {
    row.map_values(|member: (String, JsonScalar)| (member.0@, member.1@))
}

pub open spec fn rows_view(rows: Seq<JsonRow>) -> Seq<RowView> {
    rows.map_values(|row: JsonRow| row_view(row@))
}

/// The lists of objects of a document, each under its name.
pub type JsonLists = Vec<(String, Vec<JsonRow>)>;

pub open spec fn lists_view(lists: Seq<(String, Vec<JsonRow>)>) -> Seq<(Seq<char>, Seq<RowView>)> {
    lists.map_values(|list: (String, Vec<JsonRow>)| (list.0@, rows_view(list.1@)))
}

/// What `serde_json::to_vec_pretty` writes for an object of named lists of objects and, last, a named
/// object, or why it does not.
pub uninterp spec fn json_text_of(
    lists: Seq<(Seq<char>, Seq<RowView>)>,
    name: Seq<char>,
    object: RowView,
) -> Result<Seq<u8>, Seq<char>>;

/// Calls `serde_json::to_vec_pretty`, whose output is a function of the document alone.
#[verifier::external_body]
pub(crate) fn write_json(lists: JsonLists, name: String, object: JsonRow) -> (result: Result<Vec<u8>, String>)
    ensures
        outcome::result_view(result) == json_text_of(lists_view(lists@), name@, row_view(object@)),
{
    let row = |row: JsonRow| row.into_iter().map(|(name, value)| (name, match value {
        JsonScalar::Bool(value) => Value::from(value),
        JsonScalar::Int(value) => value.into(),
        JsonScalar::Count(value) => value.into(),
        JsonScalar::Text(value) => value.into(),
    })).collect::<Value>();
    let lists = lists.into_iter().map(|(name, rows)| (name, rows.into_iter().map(row).collect()));
    let document = lists.chain([(name, row(object))]).collect::<Value>();
    serde_json::to_vec_pretty(&document).map_err(|error| error.to_string())
}

/// What `serde_json::to_vec` writes for an object, or why it does not.
pub uninterp spec fn json_line_of(object: RowView) -> Result<Seq<u8>, Seq<char>>;

/// Whether a text that was written holds no line feed.
pub open spec fn is_one_line(written: Result<Vec<u8>, String>) -> bool {
    written matches Ok(bytes) ==> forall|i: int| 0 <= i < bytes@.len() ==> #[trigger] bytes@[i] != 0x0a
}

/// Calls `serde_json::to_vec`, whose output is a function of the object alone. It writes no line feed:
/// there is none between values, and one inside a text is escaped.
#[verifier::external_body]
pub(crate) fn write_json_line(object: JsonRow) -> (result: Result<Vec<u8>, String>)
    ensures
        outcome::result_view(result) == json_line_of(row_view(object@)),
        is_one_line(result),
{
    let document = object.into_iter().map(|(name, value)| (name, match value {
        JsonScalar::Bool(value) => Value::from(value),
        JsonScalar::Int(value) => value.into(),
        JsonScalar::Count(value) => value.into(),
        JsonScalar::Text(value) => value.into(),
    })).collect::<Value>();
    serde_json::to_vec(&document).map_err(|error| error.to_string())
}

/// A text that may be missing, in a document.
pub open spec fn optional_text(value: Option<Seq<char>>) -> JsonView {
    match value {
        Some(value) => JsonView::Text(value),
        None => JsonView::Null,
    }
}

/// A member of an object that holds a text.
pub fn text_member(name: &str, value: &str) -> (result: (String, JsonScalar))
    ensures
        result.0@ == name@,
        result.1@ == JsonView::Text(value@),
{
    (name.to_owned(), JsonScalar::Text(Some(value.to_owned())))
}

/// A member of an object that holds a text that may be missing.
pub fn optional_text_member(name: &str, value: &Option<String>) -> (result: (String, JsonScalar))
    ensures
        result.0@ == name@,
        result.1@ == optional_text(outcome::option_view(*value)),
{
    let shown = match value {
        Some(value) => JsonScalar::Text(Some(value.clone())),
        None => JsonScalar::Text(None),
    };
    (name.to_owned(), shown)
}

} // verus!
