//! How the value of a field is written: for machines, in a document, and in a table for people.

use vstd::prelude::*;
use vstd::string::*;

use crate::domain::field_value::{FieldValue, ValueView};
use crate::domain::fields::FieldUnit;
use crate::domain::identity;
use crate::domain::timestamp::Timestamp;
use crate::json::{JsonScalar, JsonView};
use crate::number;

verus! {

pub open spec fn bool_text(value: bool) -> Seq<char> {
    if value {
        "true"@
    } else {
        "false"@
    }
}

/// The text of a value for machines; a missing value has none.
pub open spec fn machine_text(value: ValueView) -> Seq<char> {
    match value {
        ValueView::Uuid(value) => identity::uuid_text(value),
        ValueView::Int(value) => number::signed_decimal(value as int),
        ValueView::Bool(value) => bool_text(value),
        ValueView::DateTime(value) => value.text(false),
        ValueView::Str(value) => value,
        ValueView::Null => Seq::empty(),
    }
}

/// Writes a value for machines.
pub fn machine_value(value: &FieldValue) -> (result: String)
    ensures
        result@ == machine_text(value@),
{
    match value {
        FieldValue::Uuid(value) => value.to_text(),
        FieldValue::Int(value) => number::format_i64(*value),
        FieldValue::Bool(value) => if *value {
            "true".to_owned()
        } else {
            "false".to_owned()
        },
        FieldValue::DateTime(value) => value.to_text(false),
        FieldValue::Str(value) => value.clone(),
        FieldValue::Null => String::new(),
    }
}

/// A value in a document: numbers and truth values keep their type.
pub open spec fn json_value(value: ValueView) -> JsonView {
    match value {
        ValueView::Uuid(value) => JsonView::Text(identity::uuid_text(value)),
        ValueView::Int(value) => JsonView::Int(value as int),
        ValueView::Bool(value) => JsonView::Bool(value),
        ValueView::DateTime(value) => JsonView::Text(value.text(true)),
        ValueView::Str(value) => JsonView::Text(value),
        ValueView::Null => JsonView::Null,
    }
}

/// A value in a document.
pub fn json_scalar(value: &FieldValue) -> (result: JsonScalar)
    ensures
        result@ == json_value(value@),
{
    match value {
        FieldValue::Uuid(value) => JsonScalar::Text(Some(value.to_text())),
        FieldValue::Int(value) => JsonScalar::Int(*value),
        FieldValue::Bool(value) => JsonScalar::Bool(*value),
        FieldValue::DateTime(value) => JsonScalar::Text(Some(value.to_text(true))),
        FieldValue::Str(value) => JsonScalar::Text(Some(value.clone())),
        FieldValue::Null => JsonScalar::Text(None),
    }
}

/// The text of a document's value in a grid; a missing value has none.
pub open spec fn plain_text(value: JsonView) -> Seq<char> {
    match value {
        JsonView::Null => Seq::empty(),
        JsonView::Bool(value) => bool_text(value),
        JsonView::Int(value) => number::signed_decimal(value),
        JsonView::Text(value) => value,
    }
}

/// Writes a document's value for a grid.
pub fn plain_value(value: &JsonScalar) -> (result: String)
    ensures
        result@ == plain_text(value@),
{
    match value {
        JsonScalar::Bool(value) => if *value {
            "true".to_owned()
        } else {
            "false".to_owned()
        },
        JsonScalar::Int(value) => number::format_i64(*value),
        JsonScalar::Count(value) => number::format_u64(*value),
        JsonScalar::Text(Some(value)) => value.clone(),
        JsonScalar::Text(None) => String::new(),
    }
}

/// A cell of a table for people. A scaled number is shown as its quotient by the one divisor and then by
/// the other, with that many decimals and its unit; a moment is shown in local time.
#[derive(Debug, PartialEq, Eq)]
pub enum TableCell {
    Text(String),
    Scaled { value: i64, first: u64, second: u64, decimals: usize, unit: &'static str },
    Moment(Timestamp),
}

pub enum CellView {
    Text(Seq<char>),
    Scaled { value: i64, first: u64, second: u64, decimals: usize, unit: Seq<char> },
    Moment(Timestamp),
}

impl View for TableCell {
    type V = CellView;

    open spec fn view(&self) -> CellView {
        match self {
            TableCell::Text(value) => CellView::Text(value@),
            TableCell::Scaled { value, first, second, decimals, unit } => CellView::Scaled {
                value: *value,
                first: *first,
                second: *second,
                decimals: *decimals,
                unit: unit@,
            },
            TableCell::Moment(value) => CellView::Moment(*value),
        }
    }
}

pub open spec fn magnitude(value: i64) -> int {
    if value < 0 {
        -(value as int)
    } else {
        value as int
    }
}

fn absolute(value: i64) -> (result: u64)
    ensures
        result == magnitude(value),
{
    if value < 0 {
        (-(value as i128)) as u64
    } else {
        value as u64
    }
}

/// A number with its unit, as it is.
pub open spec fn whole(value: i64, unit: Seq<char>) -> CellView {
    CellView::Text(number::signed_decimal(value as int) + " "@ + unit)
}

fn whole_cell(value: i64, unit: &str) -> (result: TableCell)
    ensures
        result@ == whole(value, unit@),
{
    let mut text = number::format_i64(value);
    text.push_str(" ");
    text.push_str(unit);
    TableCell::Text(text)
}

/// A number of bytes in the largest binary unit that is not larger than it.
pub open spec fn bytes_cell(value: i64) -> CellView {
    let size = magnitude(value);
    if size < 1024 {
        whole(value, "B"@)
    } else if size < 1_048_576 {
        CellView::Scaled { value, first: 1024, second: 1, decimals: 1, unit: "KiB"@ }
    } else if size < 1_073_741_824 {
        CellView::Scaled { value, first: 1_048_576, second: 1, decimals: 1, unit: "MiB"@ }
    } else if size < 1_099_511_627_776 {
        CellView::Scaled { value, first: 1_073_741_824, second: 1, decimals: 1, unit: "GiB"@ }
    } else {
        CellView::Scaled { value, first: 1_099_511_627_776, second: 1, decimals: 1, unit: "TiB"@ }
    }
}

/// Shows a number of bytes.
pub fn format_bytes(value: i64) -> (result: TableCell)
    ensures
        result@ == bytes_cell(value),
{
    let size: u64 = absolute(value);
    if size < 1024 {
        whole_cell(value, "B")
    } else if size < 1_048_576 {
        TableCell::Scaled { value, first: 1024, second: 1, decimals: 1, unit: "KiB" }
    } else if size < 1_073_741_824 {
        TableCell::Scaled { value, first: 1_048_576, second: 1, decimals: 1, unit: "MiB" }
    } else if size < 1_099_511_627_776 {
        TableCell::Scaled { value, first: 1_073_741_824, second: 1, decimals: 1, unit: "GiB" }
    } else {
        TableCell::Scaled { value, first: 1_099_511_627_776, second: 1, decimals: 1, unit: "TiB" }
    }
}

/// A duration of `base`ths of a second, in seconds, minutes or hours.
pub open spec fn duration_cell(value: i64, base: u64) -> CellView {
    let size = magnitude(value);
    if size < 60 * base {
        CellView::Scaled { value, first: base, second: 1, decimals: 2, unit: "s"@ }
    } else if size < 3600 * base {
        CellView::Scaled { value, first: base, second: 60, decimals: 1, unit: "min"@ }
    } else {
        CellView::Scaled { value, first: base, second: 3600, decimals: 1, unit: "h"@ }
    }
}

fn format_duration(value: i64, base: u64) -> (result: TableCell)
    requires
        base <= 1_000_000,
    ensures
        result@ == duration_cell(value, base),
{
    let size: u64 = absolute(value);
    if size < 60 * base {
        TableCell::Scaled { value, first: base, second: 1, decimals: 2, unit: "s" }
    } else if size < 3600 * base {
        TableCell::Scaled { value, first: base, second: 60, decimals: 1, unit: "min" }
    } else {
        TableCell::Scaled { value, first: base, second: 3600, decimals: 1, unit: "h" }
    }
}

pub open spec fn microseconds_cell(value: i64) -> CellView {
    let size = magnitude(value);
    if size < 1_000 {
        whole(value, "us"@)
    } else if size < 1_000_000 {
        CellView::Scaled { value, first: 1_000, second: 1, decimals: 1, unit: "ms"@ }
    } else {
        duration_cell(value, 1_000_000)
    }
}

/// Shows a number of microseconds.
pub fn format_microseconds(value: i64) -> (result: TableCell)
    ensures
        result@ == microseconds_cell(value),
{
    let size: u64 = absolute(value);
    if size < 1_000 {
        whole_cell(value, "us")
    } else if size < 1_000_000 {
        TableCell::Scaled { value, first: 1_000, second: 1, decimals: 1, unit: "ms" }
    } else {
        format_duration(value, 1_000_000)
    }
}

pub open spec fn milliseconds_cell(value: i64) -> CellView {
    if magnitude(value) < 1_000 {
        whole(value, "ms"@)
    } else {
        duration_cell(value, 1_000)
    }
}

/// Shows a number of milliseconds.
pub fn format_milliseconds(value: i64) -> (result: TableCell)
    ensures
        result@ == milliseconds_cell(value),
{
    if absolute(value) < 1_000 {
        whole_cell(value, "ms")
    } else {
        format_duration(value, 1_000)
    }
}

/// Shows a number of seconds.
pub fn format_seconds(value: i64) -> (result: TableCell)
    ensures
        result@ == duration_cell(value, 1),
{
    format_duration(value, 1)
}

/// The cell of a value whose field has a unit.
pub open spec fn cell_of(value: ValueView, unit: Option<FieldUnit>) -> CellView {
    match value {
        ValueView::DateTime(value) => CellView::Moment(value),
        ValueView::Int(value) => match unit {
            Some(FieldUnit::Bytes) => bytes_cell(value),
            Some(FieldUnit::Milliseconds) => milliseconds_cell(value),
            Some(FieldUnit::Microseconds) => microseconds_cell(value),
            Some(FieldUnit::Seconds) => duration_cell(value, 1),
            Some(FieldUnit::Count) | None => CellView::Text(number::signed_decimal(value as int)),
        },
        other => CellView::Text(machine_text(other)),
    }
}

/// The cell of a value whose field has a unit.
pub fn table_value(value: &FieldValue, unit: Option<FieldUnit>) -> (result: TableCell)
    ensures
        result@ == cell_of(value@, unit),
{
    match value {
        FieldValue::DateTime(value) => TableCell::Moment(*value),
        FieldValue::Int(value) => match unit {
            Some(FieldUnit::Bytes) => format_bytes(*value),
            Some(FieldUnit::Milliseconds) => format_milliseconds(*value),
            Some(FieldUnit::Microseconds) => format_microseconds(*value),
            Some(FieldUnit::Seconds) => format_seconds(*value),
            Some(FieldUnit::Count) | None => TableCell::Text(number::format_i64(*value)),
        },
        other => TableCell::Text(machine_value(other)),
    }
}

/// A scaled number of bytes is at least one of its unit and, but for the largest unit, less than one of
/// the next.
pub proof fn law_units_fit(value: i64)
    ensures
        bytes_cell(value) matches CellView::Scaled { first, unit, .. } ==> magnitude(value) >= first
            && (unit != "TiB"@ ==> magnitude(value) < first * 1024),
{
}

} // verus!
