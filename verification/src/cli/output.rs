//! Records as CSV, as a table and as JSON, with one set of columns in all three.

use vstd::prelude::*;
use vstd::string::*;

use crate::cli::args::OutputFormat;
use crate::cli::cells::{self, CellView, TableCell};
use crate::cli::grid::{self, Document, DocumentView, OutputError, OutputProblem};
use crate::domain::entries;
use crate::domain::field_value::{
    self, extra_at, extra_get, extra_insert, extra_len, new_extra, ExtraFields, FieldValue, ValueView,
};
use crate::domain::fields::{self, FieldRegistry, FieldUnit};
use crate::domain::model::{FieldAccess, RecordKind};
use crate::domain::outcome::{QueryMeta, QueryOutcome, TargetError, TargetProblem};
use crate::domain::query::{self, Projection, ProjectionView};
use crate::domain::value;
use crate::json;
use crate::json::{text_member, JsonRow, JsonScalar, JsonView, RowView};
use crate::outcome;
use crate::text;

verus! {

/// A record as a projection shows it: the columns in order with their values.
pub type ProjectedRow = ExtraFields;

/// Records, the failures of targets and counts, as every command that lists records gives them.
#[derive(Debug)]
pub struct OutputEnvelope<T> {
    pub data: Vec<T>,
    pub errors: Vec<TargetError>,
    pub meta: QueryMeta,
}

impl<T> OutputEnvelope<T> {
    pub fn new(data: Vec<T>, errors: Vec<TargetError>, meta: QueryMeta) -> (result: Self)
        ensures
            result.data == data,
            result.errors == errors,
            result.meta == meta,
    {
        OutputEnvelope { data, errors, meta }
    }
}

/// Bytes for the two output streams.
#[derive(Debug, PartialEq, Eq)]
pub struct RenderedOutput {
    pub stdout: Vec<u8>,
    pub stderr: Vec<u8>,
}

pub struct StreamsView {
    pub stdout: Seq<u8>,
    pub stderr: Seq<u8>,
}

impl View for RenderedOutput {
    type V = StreamsView;

    open spec fn view(&self) -> StreamsView {
        StreamsView { stdout: self.stdout@, stderr: self.stderr@ }
    }
}

/// The first `count` columns of a row; a column that the row lacks is null.
pub open spec fn projected(
    columns: Seq<Seq<char>>,
    row: Seq<(Seq<char>, ValueView)>,
    count: int,
) -> Seq<(Seq<char>, ValueView)>
    decreases count,
{
    if count <= 0 {
        Seq::empty()
    } else {
        entries::inserted(
            projected(columns, row, count - 1),
            columns[count - 1],
            query::or_null(entries::lookup(row, columns[count - 1])),
        )
    }
}

/// Records as a projection shows them, all with the same columns.
pub open spec fn projected_rows<R: FieldAccess>(projection: ProjectionView, records: Seq<R>) -> Seq<
    Seq<(Seq<char>, ValueView)>,
> {
    let columns = query::table_columns(projection, records);
    records.map_values(
        |record: R| projected(columns, query::row_of(projection, record), columns.len() as int),
    )
}

/// The entries of rows.
pub open spec fn rows_entries(rows: Seq<ProjectedRow>) -> Seq<Seq<(Seq<char>, ValueView)>> {
    rows.map_values(|row: ProjectedRow| field_value::extra_entries(row))
}

fn project_row(columns: &Vec<String>, row: &ExtraFields) -> (result: ProjectedRow)
    ensures
        field_value::extra_entries(result) == projected(
            text::views(columns@),
            field_value::extra_entries(*row),
            columns@.len() as int,
        ),
{
    let ghost names = text::views(columns@);
    let mut result = new_extra();
    let mut i: usize = 0;
    while i < columns.len()
        invariant
            i <= columns.len(),
            names == text::views(columns@),
            field_value::extra_entries(result) == projected(
                names,
                field_value::extra_entries(*row),
                i as int,
            ),
        decreases columns.len() - i,
    {
        assert(names[i as int] == columns@[i as int]@);
        let value = match extra_get(row, columns[i].as_str()) {
            Some(value) => value.clone(),
            None => FieldValue::Null,
        };
        extra_insert(&mut result, columns[i].clone(), value);
        i = i + 1;
    }
    result
}

/// The columns of a table of records, and the records as the projection shows them.
pub fn project_rows<R: FieldAccess>(records: &Vec<R>, projection: &Projection) -> (result: (
    Vec<String>,
    Vec<ProjectedRow>,
))
    ensures
        text::views(result.0@) == query::table_columns(projection@, records@),
        rows_entries(result.1@) == projected_rows(projection@, records@),
{
    let columns = projection.resolved_columns(records.as_slice());
    let ghost names = query::table_columns(projection@, records@);
    let ghost all = projected_rows(projection@, records@);
    let mut rows: Vec<ProjectedRow> = Vec::new();
    let mut i: usize = 0;
    assert(rows_entries(rows@) =~= all.take(0));
    while i < records.len()
        invariant
            i <= records.len(),
            names == query::table_columns(projection@, records@),
            all == projected_rows(projection@, records@),
            text::views(columns@) == names,
            rows_entries(rows@) == all.take(i as int),
        decreases records.len() - i,
    {
        let full = projection.project(&records[i]);
        let row = project_row(&columns, &full);
        let ghost before = rows_entries(rows@);
        let ghost added = field_value::extra_entries(row);
        rows.push(row);
        assert(rows_entries(rows@) =~= before.push(added));
        assert(all.take(i + 1) =~= before.push(all[i as int]));
        i = i + 1;
    }
    assert(all.take(records@.len() as int) =~= all);
    (columns, rows)
}

/// The texts of a row's columns for machines.
pub open spec fn machine_row(columns: Seq<Seq<char>>, row: Seq<(Seq<char>, ValueView)>) -> Seq<
    Seq<char>,
> {
    columns.map_values(
        |column: Seq<char>| cells::machine_text(query::or_null(entries::lookup(row, column))),
    )
}

pub open spec fn machine_rows(
    columns: Seq<Seq<char>>,
    rows: Seq<Seq<(Seq<char>, ValueView)>>,
) -> Seq<Seq<Seq<char>>> {
    rows.map_values(|row: Seq<(Seq<char>, ValueView)>| machine_row(columns, row))
}

fn machine_texts(columns: &Vec<String>, row: &ProjectedRow) -> (result: Vec<String>)
    ensures
        text::views(result@) == machine_row(
            text::views(columns@),
            field_value::extra_entries(*row),
        ),
{
    let ghost names = text::views(columns@);
    let ghost whole = machine_row(names, field_value::extra_entries(*row));
    let mut result: Vec<String> = Vec::new();
    let mut i: usize = 0;
    assert(text::views(result@) =~= whole.take(0));
    while i < columns.len()
        invariant
            i <= columns.len(),
            names == text::views(columns@),
            whole == machine_row(names, field_value::extra_entries(*row)),
            text::views(result@) == whole.take(i as int),
        decreases columns.len() - i,
    {
        assert(names[i as int] == columns@[i as int]@);
        let shown = match extra_get(row, columns[i].as_str()) {
            Some(value) => cells::machine_value(value),
            None => String::new(),
        };
        let ghost before = text::views(result@);
        let ghost added = shown@;
        assert(added =~= whole[i as int]);
        result.push(shown);
        assert(text::views(result@) =~= before.push(added));
        assert(whole.take(i + 1) =~= before.push(whole[i as int]));
        i = i + 1;
    }
    assert(whole.take(columns@.len() as int) =~= whole);
    result
}

/// Writes projected records as CSV.
pub fn render_csv(columns: &Vec<String>, rows: &Vec<ProjectedRow>) -> (result: Result<
    Vec<u8>,
    OutputError,
>)
    ensures
        outcome::result_view(result) == grid::csv_lines(
            text::views(columns@),
            machine_rows(text::views(columns@), rows_entries(rows@)),
            rows@.len() as int,
        ),
{
    let ghost names = text::views(columns@);
    let ghost all = machine_rows(names, rows_entries(rows@));
    let mut texts: Vec<Vec<String>> = Vec::new();
    let mut i: usize = 0;
    assert(grid::grid_views(texts@) =~= all.take(0));
    while i < rows.len()
        invariant
            i <= rows.len(),
            names == text::views(columns@),
            all == machine_rows(names, rows_entries(rows@)),
            grid::grid_views(texts@) == all.take(i as int),
        decreases rows.len() - i,
    {
        let row = machine_texts(columns, &rows[i]);
        let ghost before = grid::grid_views(texts@);
        let ghost added = text::views(row@);
        assert(added == all[i as int]);
        texts.push(row);
        assert(grid::grid_views(texts@) =~= before.push(added));
        assert(all.take(i + 1) =~= before.push(all[i as int]));
        i = i + 1;
    }
    assert(all.take(rows@.len() as int) =~= all);
    assert(texts@.len() == grid::grid_views(texts@).len());
    grid::render_grid_csv(columns, &texts)
}

/// A projected record in a document.
pub open spec fn json_row(row: Seq<(Seq<char>, ValueView)>) -> RowView {
    row.map_values(|entry: (Seq<char>, ValueView)| (entry.0, cells::json_value(entry.1)))
}

pub open spec fn json_rows(rows: Seq<Seq<(Seq<char>, ValueView)>>) -> Seq<RowView> {
    rows.map_values(|row: Seq<(Seq<char>, ValueView)>| json_row(row))
}

fn document_row(row: &ProjectedRow) -> (result: JsonRow)
    ensures
        json::row_view(result@) == json_row(field_value::extra_entries(*row)),
{
    let ghost whole = json_row(field_value::extra_entries(*row));
    let mut result: JsonRow = Vec::new();
    let count: usize = extra_len(row);
    let mut i: usize = 0;
    assert(json::row_view(result@) =~= whole.take(0));
    while i < count
        invariant
            i <= count,
            count == whole.len(),
            whole == json_row(field_value::extra_entries(*row)),
            json::row_view(result@) == whole.take(i as int),
        decreases count - i,
    {
        if let Some((name, value)) = extra_at(row, i) {
            let ghost before = json::row_view(result@);
            let member = (name.clone(), cells::json_scalar(value));
            let ghost added = (member.0@, member.1@);
            assert(added == whole[i as int]);
            result.push(member);
            assert(json::row_view(result@) =~= before.push(added));
            assert(whole.take(i + 1) =~= before.push(whole[i as int]));
        }
        i = i + 1;
    }
    assert(whole.take(count as int) =~= whole);
    result
}

fn document_rows(rows: &Vec<ProjectedRow>) -> (result: Vec<JsonRow>)
    ensures
        json::rows_view(result@) == json_rows(rows_entries(rows@)),
{
    let ghost all = json_rows(rows_entries(rows@));
    let mut result: Vec<JsonRow> = Vec::new();
    let mut i: usize = 0;
    assert(json::rows_view(result@) =~= all.take(0));
    while i < rows.len()
        invariant
            i <= rows.len(),
            all == json_rows(rows_entries(rows@)),
            json::rows_view(result@) == all.take(i as int),
        decreases rows.len() - i,
    {
        let row = document_row(&rows[i]);
        let ghost before = json::rows_view(result@);
        let ghost added = json::row_view(row@);
        assert(added == all[i as int]);
        result.push(row);
        assert(json::rows_view(result@) =~= before.push(added));
        assert(all.take(i + 1) =~= before.push(all[i as int]));
        i = i + 1;
    }
    assert(all.take(rows@.len() as int) =~= all);
    result
}

/// The cells of a row for people; the registry knows the units of fields.
pub open spec fn cell_row(
    kind: RecordKind,
    columns: Seq<Seq<char>>,
    row: Seq<(Seq<char>, ValueView)>,
) -> Seq<CellView> {
    columns.map_values(
        |column: Seq<char>|
            cells::cell_of(query::or_null(entries::lookup(row, column)), unit_of(kind, column)),
    )
}

/// The unit of a column, where it is a field of the kind that has one.
pub open spec fn unit_of(kind: RecordKind, column: Seq<char>) -> Option<FieldUnit> {
    match fields::definition_of(kind, column) {
        Ok(definition) => definition.unit,
        Err(_) => None,
    }
}

pub open spec fn cell_views(row: Seq<TableCell>) -> Seq<CellView> {
    row.map_values(|cell: TableCell| cell@)
}

pub open spec fn cell_rows_view(rows: Seq<Vec<TableCell>>) -> Seq<Seq<CellView>> {
    rows.map_values(|row: Vec<TableCell>| cell_views(row@))
}

/// The cells of projected records.
pub open spec fn cell_rows(
    kind: RecordKind,
    columns: Seq<Seq<char>>,
    rows: Seq<Seq<(Seq<char>, ValueView)>>,
) -> Seq<Seq<CellView>> {
    rows.map_values(|row: Seq<(Seq<char>, ValueView)>| cell_row(kind, columns, row))
}

fn row_cells(
    kind: RecordKind,
    columns: &Vec<String>,
    row: &ProjectedRow,
    registry: &FieldRegistry,
) -> (result: Vec<TableCell>)
    ensures
        cell_views(result@) == cell_row(
            kind,
            text::views(columns@),
            field_value::extra_entries(*row),
        ),
{
    let ghost names = text::views(columns@);
    let ghost whole = cell_row(kind, names, field_value::extra_entries(*row));
    let mut result: Vec<TableCell> = Vec::new();
    let mut i: usize = 0;
    assert(cell_views(result@) =~= whole.take(0));
    while i < columns.len()
        invariant
            i <= columns.len(),
            names == text::views(columns@),
            whole == cell_row(kind, names, field_value::extra_entries(*row)),
            cell_views(result@) == whole.take(i as int),
        decreases columns.len() - i,
    {
        assert(names[i as int] == columns@[i as int]@);
        let unit = match registry.definition(kind, columns[i].as_str()) {
            Ok(definition) => definition.unit,
            Err(_) => None,
        };
        let cell = match extra_get(row, columns[i].as_str()) {
            Some(value) => cells::table_value(value, unit),
            None => TableCell::Text(String::new()),
        };
        let ghost before = cell_views(result@);
        let ghost added = cell@;
        assert(added == whole[i as int]) by {
            if added is Text {
                assert(added->Text_0 =~= whole[i as int]->Text_0);
            }
        }
        result.push(cell);
        assert(cell_views(result@) =~= before.push(added));
        assert(whole.take(i + 1) =~= before.push(whole[i as int]));
        i = i + 1;
    }
    assert(whole.take(columns@.len() as int) =~= whole);
    result
}

/// The cells of a table of records, row by row.
pub fn table_cells<R: FieldAccess>(
    kind: RecordKind,
    records: &Vec<R>,
    projection: &Projection,
    registry: &FieldRegistry,
) -> (result: Vec<Vec<TableCell>>)
    ensures
        cell_rows_view(result@) == cell_rows(
            kind,
            query::table_columns(projection@, records@),
            projected_rows(projection@, records@),
        ),
{
    let (columns, rows) = project_rows(records, projection);
    let ghost names = text::views(columns@);
    let ghost all = cell_rows(kind, names, rows_entries(rows@));
    let mut result: Vec<Vec<TableCell>> = Vec::new();
    let mut i: usize = 0;
    assert(cell_rows_view(result@) =~= all.take(0));
    while i < rows.len()
        invariant
            i <= rows.len(),
            names == text::views(columns@),
            all == cell_rows(kind, names, rows_entries(rows@)),
            cell_rows_view(result@) == all.take(i as int),
        decreases rows.len() - i,
    {
        let row = row_cells(kind, &columns, &rows[i], registry);
        let ghost before = cell_rows_view(result@);
        let ghost added = cell_views(row@);
        assert(added == all[i as int]);
        result.push(row);
        assert(cell_rows_view(result@) =~= before.push(added));
        assert(all.take(i + 1) =~= before.push(all[i as int]));
        i = i + 1;
    }
    assert(all.take(rows@.len() as int) =~= all);
    result
}

/// The columns of the failures of targets.
pub open spec fn target_error_columns() -> Seq<Seq<char>> {
    seq!["cluster"@, "ras_address"@, "code"@, "message"@]
}

/// The failure of a target in a document.
pub open spec fn target_error_row(error: TargetProblem) -> RowView {
    seq![
        ("cluster"@, JsonView::Text(error.cluster)),
        (
            "ras_address"@,
            JsonView::Text(
                value::endpoint_text(error.ras_address.host, error.ras_address.port as nat),
            ),
        ),
        ("code"@, JsonView::Text(error.kind.text())),
        ("message"@, JsonView::Text(error.message)),
    ]
}

pub open spec fn target_error_rows(errors: Seq<TargetProblem>) -> Seq<RowView> {
    errors.map_values(|error: TargetProblem| target_error_row(error))
}

fn error_row(error: &TargetError) -> (result: JsonRow)
    ensures
        json::row_view(result@) == target_error_row(error@),
{
    let mut row: JsonRow = Vec::new();
    row.push(text_member("cluster", error.cluster.as_str()));
    row.push(text_member("ras_address", error.ras_address.as_str()));
    row.push(text_member("code", error.code()));
    row.push(text_member("message", error.message.as_str()));
    assert(json::row_view(row@) =~= target_error_row(error@));
    row
}

fn error_rows(errors: &Vec<TargetError>) -> (result: Vec<JsonRow>)
    ensures
        json::rows_view(result@) == target_error_rows(TargetProblem::all(errors@)),
{
    let ghost all = target_error_rows(TargetProblem::all(errors@));
    let mut rows: Vec<JsonRow> = Vec::new();
    let mut i: usize = 0;
    assert(json::rows_view(rows@) =~= all.take(0));
    while i < errors.len()
        invariant
            i <= errors.len(),
            all == target_error_rows(TargetProblem::all(errors@)),
            json::rows_view(rows@) == all.take(i as int),
        decreases errors.len() - i,
    {
        let row = error_row(&errors[i]);
        let ghost before = json::rows_view(rows@);
        let ghost added = json::row_view(row@);
        assert(added == all[i as int]);
        rows.push(row);
        assert(json::rows_view(rows@) =~= before.push(added));
        assert(all.take(i + 1) =~= before.push(all[i as int]));
        i = i + 1;
    }
    assert(all.take(errors@.len() as int) =~= all);
    rows
}

/// The texts of a document's row in a grid.
pub open spec fn plain_row(row: RowView) -> Seq<Seq<char>> {
    row.map_values(|member: (Seq<char>, JsonView)| cells::plain_text(member.1))
}

pub open spec fn plain_rows(rows: Seq<RowView>) -> Seq<Seq<Seq<char>>> {
    rows.map_values(|row: RowView| plain_row(row))
}

fn plain_texts(row: &JsonRow) -> (result: Vec<String>)
    ensures
        text::views(result@) == plain_row(json::row_view(row@)),
{
    let ghost whole = plain_row(json::row_view(row@));
    let mut result: Vec<String> = Vec::new();
    let mut i: usize = 0;
    assert(text::views(result@) =~= whole.take(0));
    while i < row.len()
        invariant
            i <= row.len(),
            whole == plain_row(json::row_view(row@)),
            text::views(result@) == whole.take(i as int),
        decreases row.len() - i,
    {
        let shown = cells::plain_value(&row[i].1);
        let ghost before = text::views(result@);
        let ghost added = shown@;
        assert(added == whole[i as int]);
        result.push(shown);
        assert(text::views(result@) =~= before.push(added));
        assert(whole.take(i + 1) =~= before.push(whole[i as int]));
        i = i + 1;
    }
    assert(whole.take(row@.len() as int) =~= whole);
    result
}

/// The texts of a document's rows in a grid.
pub fn grid_texts(rows: &Vec<JsonRow>) -> (result: Vec<Vec<String>>)
    ensures
        grid::grid_views(result@) == plain_rows(json::rows_view(rows@)),
{
    let ghost all = plain_rows(json::rows_view(rows@));
    let mut result: Vec<Vec<String>> = Vec::new();
    let mut i: usize = 0;
    assert(grid::grid_views(result@) =~= all.take(0));
    while i < rows.len()
        invariant
            i <= rows.len(),
            all == plain_rows(json::rows_view(rows@)),
            grid::grid_views(result@) == all.take(i as int),
        decreases rows.len() - i,
    {
        let row = plain_texts(&rows[i]);
        let ghost before = grid::grid_views(result@);
        let ghost added = text::views(row@);
        assert(added == all[i as int]);
        result.push(row);
        assert(grid::grid_views(result@) =~= before.push(added));
        assert(all.take(i + 1) =~= before.push(all[i as int]));
        i = i + 1;
    }
    assert(all.take(rows@.len() as int) =~= all);
    result
}

/// The names of columns as texts.
pub fn header(names: &[&str]) -> (result: Vec<String>)
    ensures
        text::views(result@) == text::str_views(names@),
{
    let ghost whole = text::str_views(names@);
    let mut result: Vec<String> = Vec::new();
    let mut i: usize = 0;
    assert(text::views(result@) =~= whole.take(0));
    while i < names.len()
        invariant
            i <= names.len(),
            whole == text::str_views(names@),
            text::views(result@) == whole.take(i as int),
        decreases names.len() - i,
    {
        let ghost before = text::views(result@);
        result.push(names[i].to_owned());
        assert(text::views(result@) =~= before.push(whole[i as int]));
        assert(whole.take(i + 1) =~= before.push(whole[i as int]));
        i = i + 1;
    }
    assert(whole.take(names@.len() as int) =~= whole);
    result
}

/// The width of a table whose terminal may not be known.
pub open spec fn shown_width(width: Option<u16>) -> u16 {
    grid::table_width(
        match width {
            Some(width) => width,
            None => 120,
        },
    )
}

/// What the error stream shows of failures: nothing where there are none, or where the document of
/// the output stream holds them.
pub open spec fn errors_shown(
    errors: Seq<TargetProblem>,
    format: OutputFormat,
    width: Option<u16>,
) -> Result<Seq<u8>, OutputProblem> {
    if errors.len() == 0 || format == OutputFormat::Json {
        Ok(Seq::empty())
    } else {
        grid::grid_bytes(
            format,
            target_error_columns(),
            plain_rows(target_error_rows(errors)),
            shown_width(width),
        )
    }
}

/// Writes the failures of targets for the error stream.
pub fn render_errors_for_stderr(
    errors: &Vec<TargetError>,
    format: OutputFormat,
    terminal_width: Option<u16>,
) -> (result: Result<Vec<u8>, OutputError>)
    ensures
        outcome::result_view(result) == errors_shown(
            TargetProblem::all(errors@),
            format,
            terminal_width,
        ),
{
    if errors.len() == 0 || format == OutputFormat::Json {
        let nothing: Vec<u8> = Vec::new();
        assert(nothing@ =~= Seq::<u8>::empty());
        return Ok(nothing);
    }
    let rows = grid_texts(&error_rows(errors));
    let columns = header(&["cluster", "ras_address", "code", "message"]);
    assert(text::views(columns@) =~= target_error_columns());
    let width: u16 = match terminal_width {
        Some(width) => if width < 20 {
            20
        } else {
            width
        },
        None => 120,
    };
    grid::render_grid(format, &columns, &rows, width)
}

/// How records are rendered: the format, whether without colours, and the width of tables where it is
/// not that of the terminal.
#[derive(Clone, Copy, Debug)]
pub struct OutputRenderer {
    format: OutputFormat,
    no_color: bool,
    terminal_width: Option<u16>,
}

/// The counts of a query in a document.
pub open spec fn meta_row(meta: QueryMeta) -> RowView {
    seq![
        ("matched"@, JsonView::Int(meta.matched as int)),
        ("returned"@, JsonView::Int(meta.returned as int)),
        ("partial"@, JsonView::Bool(meta.partial)),
    ]
}

pub(crate) fn query_meta(meta: QueryMeta) -> (result: JsonRow)
    ensures
        json::row_view(result@) == meta_row(meta),
{
    let mut row: JsonRow = Vec::new();
    row.push(("matched".to_owned(), JsonScalar::Count(meta.matched as u64)));
    row.push(("returned".to_owned(), JsonScalar::Count(meta.returned as u64)));
    row.push(("partial".to_owned(), JsonScalar::Bool(meta.partial)));
    assert(json::row_view(row@) =~= meta_row(meta));
    row
}

/// The document of an envelope of projected records.
pub open spec fn envelope_document(
    rows: Seq<Seq<(Seq<char>, ValueView)>>,
    errors: Seq<TargetProblem>,
    meta: QueryMeta,
) -> DocumentView {
    DocumentView { data: json_rows(rows), errors: target_error_rows(errors), meta: meta_row(meta) }
}

/// Writes an envelope as a document.
pub fn render_json(envelope: &OutputEnvelope<ProjectedRow>) -> (result: Result<Vec<u8>, OutputError>)
    ensures
        outcome::result_view(result) == envelope_document(
            rows_entries(envelope.data@),
            TargetProblem::all(envelope.errors@),
            envelope.meta,
        ).bytes(),
{
    grid::json_bytes(
        Document {
            data: document_rows(&envelope.data),
            errors: error_rows(&envelope.errors),
            meta: query_meta(envelope.meta),
        },
    )
}

/// What the output stream shows of records.
pub open spec fn records_shown<R: FieldAccess>(
    format: OutputFormat,
    width: u16,
    records: Seq<R>,
    errors: Seq<TargetProblem>,
    meta: QueryMeta,
    projection: ProjectionView,
    shown: Seq<Seq<Seq<char>>>,
) -> Result<Seq<u8>, OutputProblem> {
    let columns = query::table_columns(projection, records);
    let rows = projected_rows(projection, records);
    match format {
        OutputFormat::Json => envelope_document(rows, errors, meta).bytes(),
        OutputFormat::Csv => grid::csv_lines(
            columns,
            machine_rows(columns, rows),
            records.len() as int,
        ),
        OutputFormat::Table => Ok(grid::table_bytes(columns, shown, width)),
    }
}

/// What both streams show of records and failures.
pub open spec fn streams_shown<R: FieldAccess>(
    format: OutputFormat,
    width: u16,
    records: Seq<R>,
    errors: Seq<TargetProblem>,
    meta: QueryMeta,
    projection: ProjectionView,
    shown: Seq<Seq<Seq<char>>>,
) -> Result<StreamsView, OutputProblem> {
    match records_shown(format, width, records, errors, meta, projection, shown) {
        Err(problem) => Err(problem),
        Ok(stdout) => match errors_shown(errors, format, Some(width)) {
            Err(problem) => Err(problem),
            Ok(stderr) => Ok(StreamsView { stdout, stderr }),
        },
    }
}

/// What both streams show of the outcome of a query.
pub open spec fn outcome_shown<R: FieldAccess>(
    format: OutputFormat,
    width: u16,
    found: QueryOutcome<R>,
    projection: ProjectionView,
    shown: Seq<Seq<Seq<char>>>,
) -> Result<StreamsView, OutputProblem> {
    streams_shown(
        format,
        width,
        found.data@,
        TargetProblem::all(found.errors@),
        found.meta,
        projection,
        shown,
    )
}

impl OutputRenderer {
    pub closed spec fn format_view(&self) -> OutputFormat {
        self.format
    }

    pub closed spec fn no_color_view(&self) -> bool {
        self.no_color
    }

    pub closed spec fn width_view(&self) -> Option<u16> {
        self.terminal_width
    }

    pub fn new(format: OutputFormat, no_color: bool) -> (result: Self)
        ensures
            result.format_view() == format,
            result.no_color_view() == no_color,
            result.width_view() is None,
    {
        OutputRenderer { format, no_color, terminal_width: None }
    }

    /// The same renderer with tables of a width of their own.
    pub fn with_terminal_width(self, width: u16) -> (result: Self)
        ensures
            result.format_view() == self.format_view(),
            result.no_color_view() == self.no_color_view(),
            result.width_view() == Some(width),
    {
        OutputRenderer { format: self.format, no_color: self.no_color, terminal_width: Some(width) }
    }

    pub fn format(&self) -> (result: OutputFormat)
        ensures
            result == self.format_view(),
    {
        self.format
    }

    pub fn no_color(&self) -> (result: bool)
        ensures
            result == self.no_color_view(),
    {
        self.no_color
    }

    /// The width of tables, where the terminal may have told its own.
    pub fn effective_width(&self, detected: Option<u16>) -> (result: u16)
        ensures
            result == shown_width(
                if self.width_view() is Some {
                    self.width_view()
                } else {
                    detected
                },
            ),
    {
        let width: u16 = match self.terminal_width {
            Some(width) => width,
            None => match detected {
                Some(width) => width,
                None => 120,
            },
        };
        if width < 20 {
            20
        } else {
            width
        }
    }

    /// Renders the outcome of a query. `shown` holds the cells of the table of its records as texts,
    /// and `width` is the width of tables.
    pub fn render<R: FieldAccess>(
        &self,
        found: &QueryOutcome<R>,
        projection: &Projection,
        shown: &Vec<Vec<String>>,
        width: u16,
    ) -> (result: Result<RenderedOutput, OutputError>)
        ensures
            outcome::result_view(result) == outcome_shown(
                self.format_view(),
                width,
                *found,
                projection@,
                grid::grid_views(shown@),
            ),
    {
        self.render_records(&found.data, &found.errors, found.meta, projection, shown, width)
    }

    /// Renders records and failures with their counts.
    pub fn render_records<R: FieldAccess>(
        &self,
        records: &Vec<R>,
        errors: &Vec<TargetError>,
        meta: QueryMeta,
        projection: &Projection,
        shown: &Vec<Vec<String>>,
        width: u16,
    ) -> (result: Result<RenderedOutput, OutputError>)
        ensures
            outcome::result_view(result) == streams_shown(
                self.format_view(),
                width,
                records@,
                TargetProblem::all(errors@),
                meta,
                projection@,
                grid::grid_views(shown@),
            ),
    {
        let (columns, rows) = project_rows(records, projection);
        assert(rows@.len() == rows_entries(rows@).len());
        let rendered = match self.format {
            OutputFormat::Json => render_json(
                &OutputEnvelope::new(rows, copy_errors(errors), meta),
            ),
            OutputFormat::Csv => render_csv(&columns, &rows),
            OutputFormat::Table => Ok(grid::render_grid_table(&columns, shown, width)),
        };
        match rendered {
            Err(error) => Err(error),
            Ok(stdout) => match render_errors_for_stderr(errors, self.format, Some(width)) {
                Err(error) => Err(error),
                Ok(stderr) => Ok(RenderedOutput { stdout, stderr }),
            },
        }
    }
}

fn copy_errors(errors: &Vec<TargetError>) -> (result: Vec<TargetError>)
    ensures
        result@ == errors@,
{
    let mut result: Vec<TargetError> = Vec::new();
    let mut i: usize = 0;
    while i < errors.len()
        invariant
            i <= errors.len(),
            result@ == errors@.take(i as int),
        decreases errors.len() - i,
    {
        result.push(errors[i].clone());
        assert(errors@.take(i + 1) =~= errors@.take(i as int).push(errors@[i as int]));
        i = i + 1;
    }
    assert(errors@.take(errors@.len() as int) =~= errors@);
    result
}

proof fn lemma_projected(
    columns: Seq<Seq<char>>,
    row: Seq<(Seq<char>, ValueView)>,
    count: int,
    column: Seq<char>,
)
    requires
        0 <= count <= columns.len(),
    ensures
        entries::distinct(projected(columns, row, count)),
        entries::lookup(projected(columns, row, count), column) == (if columns.take(
            count,
        ).contains(column) {
            Some(query::or_null(entries::lookup(row, column)))
        } else {
            None
        }),
    decreases count,
{
    if count > 0 {
        lemma_projected(columns, row, count - 1, column);
        lemma_projected(columns, row, count - 1, columns[count - 1]);
        let last = columns[count - 1];
        entries::law_insert(
            projected(columns, row, count - 1),
            last,
            query::or_null(entries::lookup(row, last)),
            column,
        );
        assert(columns.take(count) =~= columns.take(count - 1).push(last));
        if column == last {
            assert(columns.take(count)[count - 1] == last);
        } else if columns.take(count).contains(column) {
            let i = choose|i: int| 0 <= i < count && columns.take(count)[i] == column;
            assert(columns.take(count - 1)[i] == column);
        } else if columns.take(count - 1).contains(column) {
            let before = columns.take(count - 1);
            let i = choose|i: int| 0 <= i < before.len() && before[i] == column;
            assert(columns.take(count)[i] == column);
        }
    } else {
        entries::lemma_lookup(projected(columns, row, count), column);
    }
}

/// Every format shows the same columns: the members of a record's object are exactly the columns of
/// the table, each once, with the value that the record has.
pub proof fn law_formats_share_columns<R: FieldAccess>(
    projection: ProjectionView,
    records: Seq<R>,
    i: int,
    column: Seq<char>,
)
    requires
        0 <= i < records.len(),
    ensures
        ({
            let columns = query::table_columns(projection, records);
            let row = projected_rows(projection, records)[i];
            &&& entries::distinct(row)
            &&& entries::has(row, column) <==> columns.contains(column)
            &&& columns.contains(column) ==> entries::lookup(row, column) == Some(
                query::or_null(
                    entries::lookup(query::row_of(projection, records[i]), column),
                ),
            )
        }),
{
    let columns = query::table_columns(projection, records);
    let row = projected_rows(projection, records)[i];
    lemma_projected(
        columns,
        query::row_of(projection, records[i]),
        columns.len() as int,
        column,
    );
    assert(columns.take(columns.len() as int) =~= columns);
    entries::lemma_lookup(row, column);
}

} // verus!
