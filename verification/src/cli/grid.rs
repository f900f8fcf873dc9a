//! Grids of text as CSV and as tables, and documents as JSON.

use vstd::prelude::*;
use vstd::string::*;

use crate::cli::args::OutputFormat;
use crate::json;
use crate::json::{write_json, JsonLists, JsonRow, RowView};
use crate::number;
use crate::outcome;
use crate::text;

verus! {

/// Why output could not be made.
#[derive(Debug, PartialEq, Eq)]
pub enum OutputError {
    Json(String),
    Csv(String),
    Io(String),
}

pub enum OutputProblem {
    Json(Seq<char>),
    Csv(Seq<char>),
    Io(Seq<char>),
}

impl View for OutputError {
    type V = OutputProblem;

    open spec fn view(&self) -> OutputProblem {
        match self {
            OutputError::Json(reason) => OutputProblem::Json(reason@),
            OutputError::Csv(reason) => OutputProblem::Csv(reason@),
            OutputError::Io(reason) => OutputProblem::Io(reason@),
        }
    }
}

impl OutputProblem {
    pub open spec fn message(self) -> Seq<char> {
        match self {
            OutputProblem::Json(reason) => "Не удалось сериализовать JSON: "@ + reason,
            OutputProblem::Csv(reason) => "Не удалось сформировать CSV: "@ + reason,
            OutputProblem::Io(reason) => "Не удалось записать вывод: "@ + reason,
        }
    }
}

impl OutputError {
    /// The text shown to the operator.
    pub fn message(&self) -> (result: String)
        ensures
            result@ == self@.message(),
    {
        match self {
            OutputError::Json(reason) => {
                let mut result = "Не удалось сериализовать JSON: ".to_owned();
                result.push_str(reason.as_str());
                result
            },
            OutputError::Csv(reason) => {
                let mut result = "Не удалось сформировать CSV: ".to_owned();
                result.push_str(reason.as_str());
                result
            },
            OutputError::Io(reason) => {
                let mut result = "Не удалось записать вывод: ".to_owned();
                result.push_str(reason.as_str());
                result
            },
        }
    }
}

/// The rows of a grid by view.
pub open spec fn grid_views(rows: Seq<Vec<String>>) -> Seq<Seq<Seq<char>>> {
    rows.map_values(|row: Vec<String>| text::views(row@))
}

/// A text with every quote written twice.
pub open spec fn quotes_doubled(s: Seq<char>) -> Seq<char>
    decreases s.len(),
{
    if s.len() == 0 {
        Seq::empty()
    } else if s.last() == '"' {
        quotes_doubled(s.drop_last()) + seq!['"', '"']
    } else {
        quotes_doubled(s.drop_last()).push(s.last())
    }
}

/// A field of a CSV record: in quotes where it holds a comma, a quote or a character that ends lines.
pub open spec fn csv_field(field: Seq<char>) -> Seq<char> {
    if field.contains(',') || field.contains('"') || field.contains('\r') || field.contains('\n') {
        seq!['"'] + quotes_doubled(field) + seq!['"']
    } else {
        field
    }
}

/// The first `count` fields of a record, with commas between them.
pub open spec fn csv_fields(fields: Seq<Seq<char>>, count: int) -> Seq<char>
    decreases count,
{
    if count <= 0 {
        Seq::empty()
    } else if count == 1 {
        csv_field(fields[0])
    } else {
        csv_fields(fields, count - 1) + seq![','] + csv_field(fields[count - 1])
    }
}

/// The line of a record. A record of nothing is written as an empty field in quotes.
pub open spec fn csv_line(fields: Seq<Seq<char>>) -> Seq<char> {
    let line = csv_fields(fields, fields.len() as int);
    (if line.len() == 0 {
        seq!['"', '"']
    } else {
        line
    }) + seq!['\r', '\n']
}

/// Calls `csv::Writer::write_record` on a new writer into memory, with lines that end in CR LF. It quotes
/// the fields that need it, doubles the quotes in them and never fails.
#[verifier::external_body]
fn csv_record(fields: &Vec<String>) -> (result: Result<Vec<u8>, String>)
    ensures
        result is Ok,
        result->Ok_0@ == vstd::utf8::encode_utf8(csv_line(text::views(fields@))),
{
    let mut builder = csv::WriterBuilder::new();
    let mut writer = builder.terminator(csv::Terminator::CRLF).from_writer(Vec::new());
    writer.write_record(fields).map_err(|error| error.to_string())?;
    writer.into_inner().map_err(|error| error.to_string())
}

/// What `comfy_table::Table` shows for a header and rows within a width, with the condensed border
/// and dynamic arrangement.
pub uninterp spec fn table_text(
    headers: Seq<Seq<char>>,
    rows: Seq<Seq<Seq<char>>>,
    width: u16,
) -> Seq<char>;

/// Calls `comfy_table::Table::to_string` on a table of texts, which is a function of the texts and of
/// the width, since the width is set.
#[verifier::external_body]
fn write_table(headers: &Vec<String>, rows: &Vec<Vec<String>>, width: u16) -> (result: String)
    ensures
        result@ == table_text(text::views(headers@), grid_views(rows@), width),
{
    let mut table = comfy_table::Table::new();
    table.load_preset(comfy_table::presets::UTF8_FULL_CONDENSED);
    table.set_content_arrangement(comfy_table::ContentArrangement::Dynamic);
    table.set_width(width).set_header(headers.clone()).add_rows(rows.clone());
    table.to_string()
}

/// A document of records, errors and counts.
pub struct Document {
    pub data: Vec<JsonRow>,
    pub errors: Vec<JsonRow>,
    pub meta: JsonRow,
}

pub struct DocumentView {
    pub data: Seq<RowView>,
    pub errors: Seq<RowView>,
    pub meta: RowView,
}

impl View for Document {
    type V = DocumentView;

    open spec fn view(&self) -> DocumentView {
        DocumentView {
            data: json::rows_view(self.data@),
            errors: json::rows_view(self.errors@),
            meta: json::row_view(self.meta@),
        }
    }
}

impl DocumentView {
    /// The JSON text of a document and a line feed.
    pub open spec fn bytes(self) -> Result<Seq<u8>, OutputProblem> {
        match json::json_text_of(
            seq![("data"@, self.data), ("errors"@, self.errors)],
            "meta"@,
            self.meta,
        ) {
            Ok(bytes) => Ok(bytes.push(0x0a)),
            Err(reason) => Err(OutputProblem::Json(reason)),
        }
    }
}

/// Writes a document.
pub fn json_bytes(document: Document) -> (result: Result<Vec<u8>, OutputError>)
    ensures
        outcome::result_view(result) == document@.bytes(),
{
    let ghost shown = document@;
    let mut lists: JsonLists = Vec::new();
    lists.push(("data".to_owned(), document.data));
    lists.push(("errors".to_owned(), document.errors));
    assert(json::lists_view(lists@) =~= seq![("data"@, shown.data), ("errors"@, shown.errors)]);
    match write_json(lists, "meta".to_owned(), document.meta) {
        Ok(bytes) => {
            let mut bytes = bytes;
            bytes.push(0x0a);
            Ok(bytes)
        },
        Err(reason) => Err(OutputError::Json(reason)),
    }
}

/// What is said of a row that has not as many fields as the header.
pub open spec fn unequal_lengths(found: nat, expected: nat) -> Seq<char> {
    "CSV error: found record with "@ + number::decimal(found)
        + " fields, but the previous record has "@ + number::decimal(expected) + " fields"@
}

fn tell_unequal_lengths(found: usize, expected: usize) -> (result: String)
    ensures
        result@ == unequal_lengths(found as nat, expected as nat),
{
    let mut result = "CSV error: found record with ".to_owned();
    result.push_str(number::format_u64(found as u64).as_str());
    result.push_str(" fields, but the previous record has ");
    result.push_str(number::format_u64(expected as u64).as_str());
    result.push_str(" fields");
    result
}

/// The first `count` rows of a grid as CSV, behind its header.
pub open spec fn csv_lines(headers: Seq<Seq<char>>, rows: Seq<Seq<Seq<char>>>, count: int) -> Result<
    Seq<u8>,
    OutputProblem,
>
    decreases count,
{
    if count <= 0 {
        Ok(vstd::utf8::encode_utf8(csv_line(headers)))
    } else {
        match csv_lines(headers, rows, count - 1) {
            Err(problem) => Err(problem),
            Ok(before) => if rows[count - 1].len() != headers.len() {
                Err(OutputProblem::Csv(unequal_lengths(rows[count - 1].len(), headers.len())))
            } else {
                Ok(before + vstd::utf8::encode_utf8(csv_line(rows[count - 1])))
            },
        }
    }
}

proof fn lemma_csv_stays(
    headers: Seq<Seq<char>>,
    rows: Seq<Seq<Seq<char>>>,
    from: int,
    to: int,
)
    requires
        0 <= from <= to,
        csv_lines(headers, rows, from) is Err,
    ensures
        csv_lines(headers, rows, to) == csv_lines(headers, rows, from),
    decreases to - from,
{
    if from < to {
        lemma_csv_stays(headers, rows, from, to - 1);
    }
}

/// Writes a grid as CSV.
pub(crate) fn render_grid_csv(headers: &Vec<String>, rows: &Vec<Vec<String>>) -> (result: Result<
    Vec<u8>,
    OutputError,
>)
    ensures
        outcome::result_view(result) == csv_lines(
            text::views(headers@),
            grid_views(rows@),
            rows@.len() as int,
        ),
{
    let ghost names = text::views(headers@);
    let ghost grid = grid_views(rows@);
    let mut output = match csv_record(headers) {
        Ok(bytes) => bytes,
        Err(reason) => {
            return Err(OutputError::Csv(reason));
        },
    };
    let mut i: usize = 0;
    while i < rows.len()
        invariant
            i <= rows.len(),
            names == text::views(headers@),
            grid == grid_views(rows@),
            csv_lines(names, grid, i as int) == Ok::<_, OutputProblem>(output@),
        decreases rows.len() - i,
    {
        assert(grid[i as int] == text::views(rows@[i as int]@));
        if rows[i].len() != headers.len() {
            proof {
                lemma_csv_stays(names, grid, i + 1, rows@.len() as int);
            }
            return Err(OutputError::Csv(tell_unequal_lengths(rows[i].len(), headers.len())));
        }
        match csv_record(&rows[i]) {
            Ok(bytes) => {
                let mut bytes = bytes;
                output.append(&mut bytes);
            },
            Err(reason) => {
                return Err(OutputError::Csv(reason));
            },
        }
        i = i + 1;
    }
    Ok(output)
}

/// A width that a table can have.
pub open spec fn table_width(width: u16) -> u16 {
    if width < 20 {
        20
    } else {
        width
    }
}

/// A grid as a table: its text and a line feed.
pub open spec fn table_bytes(
    headers: Seq<Seq<char>>,
    rows: Seq<Seq<Seq<char>>>,
    width: u16,
) -> Seq<u8> {
    vstd::utf8::encode_utf8(table_text(headers, rows, table_width(width))).push(0x0a)
}

/// Writes a grid as a table.
pub(crate) fn render_grid_table(headers: &Vec<String>, rows: &Vec<Vec<String>>, width: u16) -> (result: Vec<
    u8,
>)
    ensures
        result@ == table_bytes(text::views(headers@), grid_views(rows@), width),
{
    let fitting: u16 = if width < 20 {
        20
    } else {
        width
    };
    let written = write_table(headers, rows, fitting);
    let mut output: Vec<u8> = Vec::new();
    output.extend_from_slice(written.as_str().as_bytes());
    assert(output@ =~= vstd::utf8::encode_utf8(written@));
    output.push(0x0a);
    output
}

/// A grid in a format; there is none in JSON.
pub open spec fn grid_bytes(
    format: OutputFormat,
    headers: Seq<Seq<char>>,
    rows: Seq<Seq<Seq<char>>>,
    width: u16,
) -> Result<Seq<u8>, OutputProblem> {
    match format {
        OutputFormat::Csv => csv_lines(headers, rows, rows.len() as int),
        OutputFormat::Table => Ok(table_bytes(headers, rows, width)),
        OutputFormat::Json => Ok(Seq::empty()),
    }
}

/// Writes a grid in a format.
pub(crate) fn render_grid(
    format: OutputFormat,
    headers: &Vec<String>,
    rows: &Vec<Vec<String>>,
    width: u16,
) -> (result: Result<Vec<u8>, OutputError>)
    ensures
        outcome::result_view(result) == grid_bytes(
            format,
            text::views(headers@),
            grid_views(rows@),
            width,
        ),
{
    match format {
        OutputFormat::Csv => render_grid_csv(headers, rows),
        OutputFormat::Table => Ok(render_grid_table(headers, rows, width)),
        OutputFormat::Json => {
            let nothing: Vec<u8> = Vec::new();
            assert(nothing@ =~= Seq::<u8>::empty());
            Ok(nothing)
        },
    }
}

} // verus!
