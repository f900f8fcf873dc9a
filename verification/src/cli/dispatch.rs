//! What a command leaves behind: the bytes of both streams and the exit code.

use vstd::prelude::*;
use vstd::string::*;

use crate::application::clusters::ClusterRemoveOutcome;
use crate::application::error::{AppError, AppErrorCategory, AppExitCode, AppProblem, ExitCodePolicy};
use crate::application::outcome::Approval;
use crate::cli::args::{Cli, CliCommand, ClusterCommand, OutputFormat};
use crate::cli::confirm::Confirmation;
use crate::cli::grid::{self, Document, DocumentView, OutputError, OutputProblem};
use crate::cli::output::{
    self, grid_texts, header, OutputRenderer, RenderedOutput, StreamsView,
};
use crate::domain::identity;
use crate::domain::model::{ClusterTarget, FieldAccess, TargetView};
use crate::domain::outcome::{QueryMeta, QueryOutcome, TargetError, TargetProblem};
use crate::domain::query::{Projection, ProjectionView};
use crate::domain::value;
use crate::infrastructure::telemetry::logging;
use crate::infrastructure::telemetry::redaction;
use crate::infrastructure::telemetry::redaction::SecretRedactor;
use crate::json;
use crate::json::{text_member, JsonRow, JsonScalar, JsonView, RowView};
use crate::number;
use crate::outcome;
use crate::text;

verus! {

/// All that the process shows of a command.
#[derive(Debug, PartialEq, Eq)]
pub struct CliRunResult {
    pub stdout: Vec<u8>,
    pub stderr: Vec<u8>,
    pub exit_code: AppExitCode,
}

pub struct RunView {
    pub stdout: Seq<u8>,
    pub stderr: Seq<u8>,
    pub exit_code: AppExitCode,
}

impl View for CliRunResult {
    type V = RunView;

    open spec fn view(&self) -> RunView {
        RunView { stdout: self.stdout@, stderr: self.stderr@, exit_code: self.exit_code }
    }
}

impl RunView {
    /// A result with a text before what the error stream shows, on lines of its own.
    pub open spec fn preceded(self, prefix: Seq<u8>) -> RunView {
        if prefix.len() == 0 {
            self
        } else if prefix.last() != 0x0a && self.stderr.len() > 0 {
            RunView { stderr: prefix.push(0x0a) + self.stderr, ..self }
        } else {
            RunView { stderr: prefix + self.stderr, ..self }
        }
    }
}

fn copy_bytes(bytes: &Vec<u8>) -> (result: Vec<u8>)
    ensures
        result@ == bytes@,
{
    let mut result: Vec<u8> = Vec::new();
    result.extend_from_slice(bytes.as_slice());
    assert(result@ =~= bytes@);
    result
}

impl CliRunResult {
    pub fn new(output: RenderedOutput, exit_code: AppExitCode) -> (result: Self)
        ensures
            result@ == (RunView {
                stdout: output@.stdout,
                stderr: output@.stderr,
                exit_code,
            }),
    {
        CliRunResult { stdout: output.stdout, stderr: output.stderr, exit_code }
    }

    pub fn rendered_output(&self) -> (result: RenderedOutput)
        ensures
            result@ == (StreamsView { stdout: self@.stdout, stderr: self@.stderr }),
    {
        RenderedOutput { stdout: copy_bytes(&self.stdout), stderr: copy_bytes(&self.stderr) }
    }

    pub fn into_rendered_output(self) -> (result: RenderedOutput)
        ensures
            result@ == (StreamsView { stdout: self@.stdout, stderr: self@.stderr }),
    {
        RenderedOutput { stdout: self.stdout, stderr: self.stderr }
    }

    /// Puts a text before what the error stream shows, on lines of its own.
    pub fn prepend_stderr(&mut self, prefix: Vec<u8>)
        ensures
            final(self)@ == old(self)@.preceded(prefix@),
    {
        if prefix.len() == 0 {
            return;
        }
        let mut joined = copy_bytes(&prefix);
        if prefix[prefix.len() - 1] != 0x0a && self.stderr.len() > 0 {
            joined.push(0x0a);
        }
        joined.extend_from_slice(self.stderr.as_slice());
        self.stderr = joined;
        assert(self@.stderr =~= old(self)@.preceded(prefix@).stderr);
    }
}

impl ExitCodePolicy for CliRunResult {
    open spec fn exit_code_of(&self) -> AppExitCode {
        self.exit_code
    }

    fn app_exit_code(&self) -> (result: AppExitCode) {
        self.exit_code
    }
}

/// Streams with an exit code.
pub open spec fn ended(
    streams: Result<StreamsView, OutputProblem>,
    exit_code: AppExitCode,
) -> Result<RunView, OutputProblem> {
    match streams {
        Err(problem) => Err(problem),
        Ok(streams) => Ok(
            RunView { stdout: streams.stdout, stderr: streams.stderr, exit_code },
        ),
    }
}

/// Rows on the output stream and errors on the error stream, or both in one document.
pub open spec fn rows_shown(
    format: OutputFormat,
    width: u16,
    columns: Seq<Seq<char>>,
    error_columns: Seq<Seq<char>>,
    document: DocumentView,
) -> Result<StreamsView, OutputProblem> {
    match format {
        OutputFormat::Json => match document.bytes() {
            Err(problem) => Err(problem),
            Ok(stdout) => Ok(StreamsView { stdout, stderr: Seq::empty() }),
        },
        _ => match grid::grid_bytes(format, columns, output::plain_rows(document.data), width) {
            Err(problem) => Err(problem),
            Ok(stdout) => if document.errors.len() == 0 {
                Ok(StreamsView { stdout, stderr: Seq::empty() })
            } else {
                match grid::grid_bytes(
                    format,
                    error_columns,
                    output::plain_rows(document.errors),
                    width,
                ) {
                    Err(problem) => Err(problem),
                    Ok(stderr) => Ok(StreamsView { stdout, stderr }),
                }
            },
        },
    }
}

/// Writes rows to the output stream and errors to the error stream, or both in one document.
pub fn render_action_output(
    format: OutputFormat,
    width: u16,
    columns: &Vec<String>,
    error_columns: &Vec<String>,
    document: Document,
    exit_code: AppExitCode,
) -> (result: Result<CliRunResult, OutputError>)
    ensures
        outcome::result_view(result) == ended(
            rows_shown(
                format,
                width,
                text::views(columns@),
                text::views(error_columns@),
                document@,
            ),
            exit_code,
        ),
{
    let nothing: Vec<u8> = Vec::new();
    assert(nothing@ =~= Seq::<u8>::empty());
    if format == OutputFormat::Json {
        return match grid::json_bytes(document) {
            Err(error) => Err(error),
            Ok(stdout) => Ok(CliRunResult { stdout, stderr: nothing, exit_code }),
        };
    }
    let stdout = match grid::render_grid(format, columns, &grid_texts(&document.data), width) {
        Err(error) => {
            return Err(error);
        },
        Ok(stdout) => stdout,
    };
    if document.errors.len() == 0 {
        return Ok(CliRunResult { stdout, stderr: nothing, exit_code });
    }
    match grid::render_grid(format, error_columns, &grid_texts(&document.errors), width) {
        Err(error) => Err(error),
        Ok(stderr) => Ok(CliRunResult { stdout, stderr, exit_code }),
    }
}

/// A command that failed, with what its error stream shows first.
pub struct DispatchFailure {
    pub error: AppError,
    pub stderr_prefix: Vec<u8>,
}

pub struct FailureView {
    pub error: AppProblem,
    pub stderr_prefix: Seq<u8>,
}

impl View for DispatchFailure {
    type V = FailureView;

    open spec fn view(&self) -> FailureView {
        FailureView { error: self.error@, stderr_prefix: self.stderr_prefix@ }
    }
}

impl DispatchFailure {
    pub fn with_stderr(error: AppError, stderr_prefix: Vec<u8>) -> (result: Self)
        ensures
            result@ == (FailureView { error: error@, stderr_prefix: stderr_prefix@ }),
    {
        DispatchFailure { error, stderr_prefix }
    }

    /// Output that could not be made.
    pub fn output(error: &OutputError, stderr_prefix: Vec<u8>) -> (result: Self)
        ensures
            result@ == (FailureView {
                error: AppProblem::internal("output_error"@, error@.message()),
                stderr_prefix: stderr_prefix@,
            }),
    {
        DispatchFailure {
            error: AppError::internal("output_error", error.message().as_str()),
            stderr_prefix,
        }
    }
}

/// What a reply to a request for confirmation leads to; `Err` tells why nobody could be asked.
pub open spec fn approved(reply: Result<Confirmation, Seq<char>>) -> Result<Approval, AppProblem> {
    match reply {
        Ok(Confirmation::Confirmed) => Ok(Approval::Confirmed),
        Ok(Confirmation::Declined) => Err(
            AppProblem::plain(
                AppErrorCategory::Cancelled,
                "confirmation_declined"@,
                "Операция отменена пользователем"@,
            ),
        ),
        Ok(Confirmation::NonInteractive) => Err(AppProblem::confirmation_required()),
        Err(reason) => Err(
            AppProblem::internal(
                "confirmation_io"@,
                "Не удалось запросить подтверждение: "@ + reason,
            ),
        ),
    }
}

/// A reply by view.
pub open spec fn reply_view(reply: Result<Confirmation, String>) -> Result<Confirmation, Seq<char>> {
    match reply {
        Ok(answer) => Ok(answer),
        Err(reason) => Err(reason@),
    }
}

/// What a reply to a request for confirmation leads to.
pub fn approval_from(reply: Result<Confirmation, String>) -> (result: Result<Approval, AppError>)
    ensures
        match result {
            Ok(approval) => approved(reply_view(reply)) == Ok::<_, AppProblem>(approval),
            Err(error) => approved(reply_view(reply)) == Err::<Approval, _>(error@),
        },
{
    match reply {
        Ok(Confirmation::Confirmed) => Ok(Approval::Confirmed),
        Ok(Confirmation::Declined) => Err(
            AppError::new(
                AppErrorCategory::Cancelled,
                "confirmation_declined",
                "Операция отменена пользователем",
            ),
        ),
        Ok(Confirmation::NonInteractive) => Err(AppError::confirmation_required()),
        Err(reason) => {
            let mut message = "Не удалось запросить подтверждение: ".to_owned();
            message.push_str(reason.as_str());
            Err(AppError::internal("confirmation_io", message.as_str()))
        },
    }
}

/// An approval by view.
pub open spec fn approval_view(result: Result<(Approval, bool), AppError>) -> Result<
    Approval,
    AppProblem,
> {
    match result {
        Ok((approval, _)) => Ok(approval),
        Err(error) => Err(error@),
    }
}

/// Whether a result is what some reply to the question leads to.
pub open spec fn follows_reply<F: FnOnce(&str, &str) -> Result<Confirmation, String>>(
    request_confirmation: F,
    prompt: &str,
    shown: &str,
    reply: Result<Confirmation, String>,
    approval: Result<Approval, AppProblem>,
) -> bool {
    &&& call_ensures(request_confirmation, (prompt, shown), reply)
    &&& approved(reply_view(reply)) == approval
}

/// Asks for an approval with a preview, unless it is forced. The preview is still to be shown where
/// nobody was asked.
pub fn request_approval<F: FnOnce(&str, &str) -> Result<Confirmation, String>>(
    force: bool,
    prompt: &str,
    preview: &Vec<u8>,
    request_confirmation: F,
) -> (result: Result<(Approval, bool), AppError>)
    requires
        forall|shown: &str| #[trigger] call_requires(request_confirmation, (prompt, shown)),
    ensures
        force ==> result == Ok::<_, AppError>((Approval::Forced, true)),
        !force ==> {
            &&& result is Ok ==> !result->Ok_0.1
            &&& exists|shown: &str, reply: Result<Confirmation, String>|
                shown@ == logging::lossy_text(preview@) && #[trigger] follows_reply(
                    request_confirmation,
                    prompt,
                    shown,
                    reply,
                    approval_view(result),
                )
        },
{
    if force {
        return Ok((Approval::Forced, true));
    }
    let text = logging::read_lossy(preview.as_slice());
    let shown = text.as_str();
    let reply = request_confirmation(prompt, shown);
    let ghost answered = reply;
    match approval_from(reply) {
        Ok(approval) => {
            assert(follows_reply(
                request_confirmation,
                prompt,
                shown,
                answered,
                Ok::<_, AppProblem>(approval),
            ));
            Ok((approval, false))
        },
        Err(error) => {
            assert(follows_reply(
                request_confirmation,
                prompt,
                shown,
                answered,
                Err::<Approval, _>(error@),
            ));
            Err(error)
        },
    }
}

/// Shows the outcome of a query.
pub fn render_query<R: FieldAccess>(
    renderer: &OutputRenderer,
    found: &QueryOutcome<R>,
    projection: &Projection,
    shown: &Vec<Vec<String>>,
    width: u16,
) -> (result: Result<CliRunResult, OutputError>)
    ensures
        outcome::result_view(result) == ended(
            output::outcome_shown(
                renderer.format_view(),
                width,
                *found,
                projection@,
                grid::grid_views(shown@),
            ),
            found.exit_code_of(),
        ),
{
    let exit_code = found.app_exit_code();
    match renderer.render(found, projection, shown, width) {
        Ok(rendered) => Ok(CliRunResult::new(rendered, exit_code)),
        Err(error) => Err(error),
    }
}

/// The line above a table of a preview.
pub open spec fn preview_line(format: OutputFormat, label: Seq<char>, count: nat) -> Seq<u8> {
    if format == OutputFormat::Table {
        vstd::utf8::encode_utf8(label + ": "@ + number::decimal(count) + "\n"@)
    } else {
        Seq::empty()
    }
}

/// What the operator sees of the targets of an action before it begins.
pub open spec fn preview_shown<R: FieldAccess>(
    format: OutputFormat,
    width: u16,
    records: Seq<R>,
    errors: Seq<TargetProblem>,
    projection: ProjectionView,
    shown: Seq<Seq<Seq<char>>>,
    label: Seq<char>,
) -> Result<Seq<u8>, OutputProblem> {
    let meta = QueryMeta {
        matched: records.len() as usize,
        returned: records.len() as usize,
        partial: errors.len() > 0 && records.len() > 0,
    };
    match output::streams_shown(format, width, records, errors, meta, projection, shown) {
        Err(problem) => Err(problem),
        Ok(streams) => Ok(
            preview_line(format, label, records.len()) + streams.stdout + streams.stderr,
        ),
    }
}

/// Shows the targets of an action before it begins.
pub fn render_preview<R: FieldAccess>(
    renderer: &OutputRenderer,
    records: &Vec<R>,
    errors: &Vec<TargetError>,
    projection: &Projection,
    label: &str,
    shown: &Vec<Vec<String>>,
    width: u16,
) -> (result: Result<Vec<u8>, OutputError>)
    ensures
        outcome::result_view(result) == preview_shown(
            renderer.format_view(),
            width,
            records@,
            TargetProblem::all(errors@),
            projection@,
            grid::grid_views(shown@),
            label@,
        ),
{
    let meta = QueryMeta {
        matched: records.len(),
        returned: records.len(),
        partial: errors.len() > 0 && records.len() > 0,
    };
    let rendered = match renderer.render_records(records, errors, meta, projection, shown, width) {
        Ok(rendered) => rendered,
        Err(error) => {
            return Err(error);
        },
    };
    let mut preview: Vec<u8> = Vec::new();
    if renderer.format() == OutputFormat::Table {
        let mut line = label.to_owned();
        line.push_str(": ");
        line.push_str(number::format_u64(records.len() as u64).as_str());
        line.push_str("\n");
        preview.extend_from_slice(line.as_str().as_bytes());
    }
    assert(preview@ =~= preview_line(renderer.format_view(), label@, records@.len()));
    preview.extend_from_slice(rendered.stdout.as_slice());
    preview.extend_from_slice(rendered.stderr.as_slice());
    assert(preview@ =~= preview_line(renderer.format_view(), label@, records@.len())
        + rendered@.stdout + rendered@.stderr);
    Ok(preview)
}

/// A change to a configured cluster, in a document.
pub open spec fn mutation_row(action: Seq<char>, target: TargetView, config_path: Seq<char>) -> RowView {
    seq![
        ("action"@, JsonView::Text(action)),
        ("cluster"@, JsonView::Text(target.alias)),
        (
            "cluster_uuid"@,
            JsonView::Text(identity::uuid_text(target.discovered_cluster.uuid)),
        ),
        (
            "ras_address"@,
            JsonView::Text(value::endpoint_text(target.ras.host, target.ras.port as nat)),
        ),
        ("config_path"@, JsonView::Text(config_path)),
    ]
}

pub open spec fn mutation_columns() -> Seq<Seq<char>> {
    seq!["action"@, "cluster"@, "cluster_uuid"@, "ras_address"@, "config_path"@]
}

/// All that is shown of a change to a configured cluster.
pub open spec fn mutation_document(
    action: Seq<char>,
    target: TargetView,
    config_path: Seq<char>,
) -> DocumentView {
    DocumentView {
        data: seq![mutation_row(action, target, config_path)],
        errors: Seq::empty(),
        meta: seq![("succeeded"@, JsonView::Int(1)), ("partial"@, JsonView::Bool(false))],
    }
}

/// Shows a change to a configured cluster.
pub fn render_cluster_mutation(
    action: &str,
    target: &ClusterTarget,
    config_path: &str,
    format: OutputFormat,
    width: u16,
) -> (result: Result<CliRunResult, OutputError>)
    ensures
        outcome::result_view(result) == ended(
            rows_shown(
                format,
                width,
                mutation_columns(),
                Seq::empty(),
                mutation_document(action@, target@, config_path@),
            ),
            AppExitCode::Success,
        ),
{
    let mut row: JsonRow = Vec::new();
    row.push(text_member("action", action));
    row.push(text_member("cluster", target.alias.as_str()));
    row.push(text_member("cluster_uuid", target.discovered_cluster.uuid.to_text().as_str()));
    row.push(text_member("ras_address", target.ras.as_str()));
    row.push(text_member("config_path", config_path));
    assert(json::row_view(row@) =~= mutation_row(action@, target@, config_path@));
    let ghost shown = json::row_view(row@);
    let mut data: Vec<JsonRow> = Vec::new();
    data.push(row);
    assert(json::rows_view(data@) =~= seq![shown]);
    let mut meta: JsonRow = Vec::new();
    meta.push(("succeeded".to_owned(), JsonScalar::Count(1)));
    meta.push(("partial".to_owned(), JsonScalar::Bool(false)));
    assert(json::row_view(meta@) =~= seq![
        ("succeeded"@, JsonView::Int(1)),
        ("partial"@, JsonView::Bool(false)),
    ]);
    let errors: Vec<JsonRow> = Vec::new();
    assert(json::rows_view(errors@) =~= Seq::<RowView>::empty());
    let columns = header(&["action", "cluster", "cluster_uuid", "ras_address", "config_path"]);
    assert(text::views(columns@) =~= mutation_columns());
    let nothing: Vec<String> = Vec::new();
    assert(text::views(nothing@) =~= Seq::<Seq<char>>::empty());
    render_action_output(
        format,
        width,
        &columns,
        &nothing,
        Document { data, errors, meta },
        AppExitCode::Success,
    )
}

/// The failure of a command in a document.
pub open spec fn command_row(code: Seq<char>, message: Seq<char>) -> RowView {
    seq![
        ("scope"@, JsonView::Text("command"@)),
        ("cluster"@, JsonView::Null),
        ("ras_address"@, JsonView::Null),
        ("code"@, JsonView::Text(code)),
        ("message"@, JsonView::Text(message)),
    ]
}

/// The failure of a target of a command in a document, without secrets.
pub open spec fn scoped_row(secrets: Seq<Seq<char>>, error: TargetProblem) -> RowView {
    seq![
        ("scope"@, JsonView::Text("target"@)),
        ("cluster"@, JsonView::Text(error.cluster)),
        (
            "ras_address"@,
            JsonView::Text(
                value::endpoint_text(error.ras_address.host, error.ras_address.port as nat),
            ),
        ),
        ("code"@, JsonView::Text(error.kind.text())),
        ("message"@, JsonView::Text(redaction::redacted(secrets, error.message))),
    ]
}

/// The rows of a failed command, without secrets: its own and one for each target.
pub open spec fn failure_rows(secrets: Seq<Seq<char>>, error: AppProblem) -> Seq<RowView> {
    seq![command_row(error.code, redaction::redacted(secrets, error.message))]
        + error.target_errors.map_values(|target: TargetProblem| scoped_row(secrets, target))
}

pub open spec fn failure_columns() -> Seq<Seq<char>> {
    seq!["scope"@, "cluster"@, "ras_address"@, "code"@, "message"@]
}

/// What is shown of a failed command: a document, or rows on the error stream.
pub open spec fn failure_shown(
    format: OutputFormat,
    width: u16,
    secrets: Seq<Seq<char>>,
    error: AppProblem,
) -> Result<StreamsView, OutputProblem> {
    let rows = failure_rows(secrets, error);
    match format {
        OutputFormat::Json => match (DocumentView {
            data: Seq::empty(),
            errors: rows,
            meta: output::meta_row(QueryMeta { matched: 0, returned: 0, partial: false }),
        }).bytes() {
            Err(problem) => Err(problem),
            Ok(stdout) => Ok(StreamsView { stdout, stderr: Seq::empty() }),
        },
        _ => match grid::grid_bytes(format, failure_columns(), output::plain_rows(rows), width) {
            Err(problem) => Err(problem),
            Ok(stderr) => Ok(StreamsView { stdout: Seq::empty(), stderr }),
        },
    }
}

fn failure_document(error: &AppError, redactor: &SecretRedactor) -> (result: Vec<JsonRow>)
    ensures
        json::rows_view(result@) == failure_rows(redactor@, error@),
{
    let message = redactor.redact(error.message());
    let mut first: JsonRow = Vec::new();
    first.push(text_member("scope", "command"));
    first.push(("cluster".to_owned(), JsonScalar::Text(None)));
    first.push(("ras_address".to_owned(), JsonScalar::Text(None)));
    first.push(text_member("code", error.code()));
    first.push(text_member("message", message.as_str()));
    assert(json::row_view(first@) =~= command_row(error@.code, message@));
    let ghost shown = json::row_view(first@);
    let mut rows: Vec<JsonRow> = Vec::new();
    rows.push(first);
    let targets = error.target_errors();
    let ghost all = failure_rows(redactor@, error@);
    assert(all.len() == targets@.len() + 1) by {
        assert(TargetProblem::all(targets@).len() == targets@.len());
    }
    assert(json::rows_view(rows@) =~= all.take(1)) by {
        assert(json::rows_view(rows@)[0] == shown);
    }
    let mut i: usize = 0;
    while i < targets.len()
        invariant
            i <= targets.len(),
            TargetProblem::all(targets@) == error@.target_errors,
            all == failure_rows(redactor@, error@),
            all.len() == targets@.len() + 1,
            json::rows_view(rows@) == all.take(i + 1),
        decreases targets.len() - i,
    {
        assert(error@.target_errors[i as int] == targets@[i as int]@);
        let message = redactor.redact(targets[i].message.as_str());
        let mut row: JsonRow = Vec::new();
        row.push(text_member("scope", "target"));
        row.push(text_member("cluster", targets[i].cluster.as_str()));
        row.push(text_member("ras_address", targets[i].ras_address.as_str()));
        row.push(text_member("code", targets[i].code()));
        row.push(text_member("message", message.as_str()));
        assert(json::row_view(row@) =~= scoped_row(redactor@, targets@[i as int]@));
        let ghost before = json::rows_view(rows@);
        let ghost added = json::row_view(row@);
        assert(added == all[i + 1]);
        rows.push(row);
        assert(json::rows_view(rows@) =~= before.push(added));
        assert(all.take(i + 2) =~= before.push(all[i + 1]));
        i = i + 1;
    }
    assert(all.take(all.len() as int) =~= all);
    rows
}

/// Writes a failed command.
pub fn render_app_error_output(
    format: OutputFormat,
    width: u16,
    error: &AppError,
    redactor: &SecretRedactor,
) -> (result: Result<RenderedOutput, OutputError>)
    ensures
        outcome::result_view(result) == failure_shown(format, width, redactor@, error@),
{
    let rows = failure_document(error, redactor);
    let nothing: Vec<u8> = Vec::new();
    assert(nothing@ =~= Seq::<u8>::empty());
    if format == OutputFormat::Json {
        let data: Vec<JsonRow> = Vec::new();
        assert(json::rows_view(data@) =~= Seq::<RowView>::empty());
        let meta = output::query_meta(QueryMeta { matched: 0, returned: 0, partial: false });
        return match grid::json_bytes(Document { data, errors: rows, meta }) {
            Err(error) => Err(error),
            Ok(stdout) => Ok(RenderedOutput { stdout, stderr: nothing }),
        };
    }
    let columns = header(&["scope", "cluster", "ras_address", "code", "message"]);
    assert(text::views(columns@) =~= failure_columns());
    match grid::render_grid(format, &columns, &grid_texts(&rows), width) {
        Err(error) => Err(error),
        Ok(stderr) => Ok(RenderedOutput { stdout: nothing, stderr }),
    }
}

/// What a failed command leaves behind. Where even that cannot be written, one line tells why.
pub open spec fn failed_run(
    format: OutputFormat,
    width: u16,
    secrets: Seq<Seq<char>>,
    error: AppProblem,
    exit_code: AppExitCode,
) -> RunView {
    match failure_shown(format, width, secrets, error) {
        Ok(streams) => RunView { stdout: streams.stdout, stderr: streams.stderr, exit_code },
        Err(problem) => RunView {
            stdout: Seq::empty(),
            stderr: vstd::utf8::encode_utf8(
                "output_error: "@ + redaction::redacted(secrets, problem.message()) + "\n"@,
            ),
            exit_code: AppExitCode::Internal,
        },
    }
}

/// Shows a failed command.
pub fn render_app_error(
    format: OutputFormat,
    width: u16,
    error: &AppError,
    redactor: &SecretRedactor,
    exit_code: AppExitCode,
) -> (result: CliRunResult)
    ensures
        result@ == failed_run(format, width, redactor@, error@, exit_code),
{
    match render_app_error_output(format, width, error, redactor) {
        Ok(rendered) => CliRunResult::new(rendered, exit_code),
        Err(problem) => {
            let mut line = "output_error: ".to_owned();
            line.push_str(redactor.redact(problem.message().as_str()).as_str());
            line.push_str("\n");
            let mut stderr: Vec<u8> = Vec::new();
            stderr.extend_from_slice(line.as_str().as_bytes());
            assert(stderr@ =~= vstd::utf8::encode_utf8(line@));
            let stdout: Vec<u8> = Vec::new();
            assert(stdout@ =~= Seq::<u8>::empty());
            CliRunResult { stdout, stderr, exit_code: AppExitCode::Internal }
        },
    }
}

/// A failure whose message holds no secrets.
pub open spec fn sanitized_problem(secrets: Seq<Seq<char>>, error: TargetProblem) -> TargetProblem {
    TargetProblem { message: redaction::redacted(secrets, error.message), ..error }
}

/// Whether a text holds none of the secrets, but for those that may come from what replaces them.
pub open spec fn holds_no_secret(secrets: Seq<Seq<char>>, message: Seq<char>) -> bool {
    forall|secret: Seq<char>|
        secrets.contains(secret) && redaction::is_unlike_masks(secret)
            ==> !#[trigger] text::contains(message, secret)
}

/// Takes the secrets out of the messages of failures.
pub fn sanitize_target_errors(errors: &mut Vec<TargetError>, redactor: &SecretRedactor)
    ensures
        TargetProblem::all(final(errors)@) == TargetProblem::all(old(errors)@).map_values(
            |error: TargetProblem| sanitized_problem(redactor@, error),
        ),
        forall|i: int|
            0 <= i < final(errors)@.len() ==> holds_no_secret(
                redactor@,
                (#[trigger] final(errors)@[i]).message@,
            ),
{
    let ghost source = errors@;
    let mut i: usize = 0;
    while i < errors.len()
        invariant
            i <= errors.len(),
            errors@.len() == source.len(),
            forall|j: int|
                0 <= j < i ==> (#[trigger] errors@[j])@ == sanitized_problem(
                    redactor@,
                    source[j]@,
                ) && holds_no_secret(redactor@, errors@[j].message@),
            forall|j: int| i <= j < source.len() ==> #[trigger] errors@[j] == source[j],
        decreases errors.len() - i,
    {
        let mut error = errors[i].clone();
        error.message = redactor.redact(errors[i].message.as_str());
        errors.set(i, error);
        i = i + 1;
    }
    assert(TargetProblem::all(errors@) =~= TargetProblem::all(source).map_values(
        |error: TargetProblem| sanitized_problem(redactor@, error),
    ));
}

/// What the operator sees of a cluster before its connection is removed.
pub open spec fn removal_preview(target: TargetView) -> Seq<char> {
    "Будет удалено подключение: cluster="@ + target.alias + ", cluster_uuid="@ + identity::uuid_text(
        target.discovered_cluster.uuid,
    ) + ", ras_address="@ + value::endpoint_text(target.ras.host, target.ras.port as nat) + "\n"@
}

/// What the operator sees of a cluster before its connection is removed.
pub fn cluster_removal_preview(target: &ClusterTarget) -> (result: String)
    ensures
        result@ == removal_preview(target@),
{
    let mut result = "Будет удалено подключение: cluster=".to_owned();
    result.push_str(target.alias.as_str());
    result.push_str(", cluster_uuid=");
    result.push_str(target.discovered_cluster.uuid.to_text().as_str());
    result.push_str(", ras_address=");
    result.push_str(target.ras.as_str());
    result.push_str("\n");
    result
}

/// The question before a connection to a cluster is removed.
pub fn cluster_removal_prompt(target: &ClusterTarget) -> (result: String)
    ensures
        result@ == "Удалить подключение к кластеру `"@ + target@.alias + "`?"@,
{
    let mut result = "Удалить подключение к кластеру `".to_owned();
    result.push_str(target.alias.as_str());
    result.push_str("`?");
    result
}

/// What a removal leads to, behind the preview where it was not shown yet.
pub open spec fn removal_finished(
    format: OutputFormat,
    width: u16,
    done: Result<(TargetView, Seq<char>), AppProblem>,
    preview: Seq<u8>,
) -> Result<RunView, FailureView> {
    match done {
        Err(error) => Err(FailureView { error, stderr_prefix: preview }),
        Ok((removed, config_path)) => match ended(
            rows_shown(
                format,
                width,
                mutation_columns(),
                Seq::empty(),
                mutation_document("removed"@, removed, config_path),
            ),
            AppExitCode::Success,
        ) {
            Err(problem) => Err(output_failure(problem, preview)),
            Ok(run) => Ok(run.preceded(preview)),
        },
    }
}

/// Output that could not be made.
pub open spec fn output_failure(problem: OutputProblem, stderr_prefix: Seq<u8>) -> FailureView {
    FailureView { error: AppProblem::internal("output_error"@, problem.message()), stderr_prefix }
}

/// A removal by view.
pub open spec fn removal_view(done: Result<ClusterRemoveOutcome, AppError>) -> Result<
    (TargetView, Seq<char>),
    AppProblem,
> {
    match done {
        Ok(done) => Ok((done.removed@, done.config_path@)),
        Err(error) => Err(error@),
    }
}

/// Shows what a removal led to.
pub fn finish_cluster_removal(
    format: OutputFormat,
    width: u16,
    done: Result<ClusterRemoveOutcome, AppError>,
    preview: Vec<u8>,
) -> (result: Result<CliRunResult, DispatchFailure>)
    ensures
        outcome::result_view(result) == removal_finished(
            format,
            width,
            removal_view(done),
            preview@,
        ),
{
    match done {
        Err(error) => Err(DispatchFailure::with_stderr(error, preview)),
        Ok(done) => match render_cluster_mutation(
            "removed",
            &done.removed,
            done.config_path.as_str(),
            format,
            width,
        ) {
            Err(error) => Err(DispatchFailure::output(&error, preview)),
            Ok(run) => {
                let mut run = run;
                run.prepend_stderr(preview);
                Ok(run)
            },
        },
    }
}

/// The passwords on a command line.
pub open spec fn command_secrets(command: Option<CliCommand>) -> Seq<Seq<char>> {
    match command {
        Some(CliCommand::Cluster { command: ClusterCommand::Add(args) }) => {
            let one = match args.password {
                Some(password) => redaction::registered(Seq::empty(), password@),
                None => Seq::empty(),
            };
            match args.infobase_password {
                Some(password) => redaction::registered(one, password@),
                None => one,
            }
        },
        _ => Seq::empty(),
    }
}

/// A redactor that knows the passwords on a command line.
pub fn redactor_for_cli(cli: &Cli) -> (result: SecretRedactor)
    ensures
        result@ == command_secrets(cli.command),
{
    let mut redactor = SecretRedactor::new();
    if let Some(CliCommand::Cluster { command: ClusterCommand::Add(args) }) = &cli.command {
        if let Some(password) = &args.password {
            let _ = redactor.register_secret(password.expose_secret());
        }
        if let Some(password) = &args.infobase_password {
            let _ = redactor.register_secret(password.expose_secret());
        }
    }
    redactor
}

/// Why a command does not begin: it was interrupted, or its arguments are wrong.
pub open spec fn not_begun(cli: Cli, cancelled: bool) -> Option<(AppProblem, AppExitCode)> {
    if cancelled {
        Some((AppProblem::interrupted(), AppExitCode::Interrupted))
    } else {
        match cli.command {
            None => None,
            Some(command) => match command.problem() {
                None => None,
                Some(problem) => Some(
                    (AppProblem::invalid(problem.code, problem.message), AppExitCode::InvalidInput),
                ),
            },
        }
    }
}

/// Shows why a command does not begin, where it does not.
pub fn begin_run(cli: &Cli, cancelled: bool, width: u16, redactor: &SecretRedactor) -> (result: Option<
    CliRunResult,
>)
    ensures
        outcome::option_view(result) == (match not_begun(*cli, cancelled) {
            None => None,
            Some((error, exit_code)) => Some(
                failed_run(cli.format, width, redactor@, error, exit_code),
            ),
        }),
{
    if cancelled {
        return Some(
            render_app_error(
                cli.format,
                width,
                &AppError::interrupted(),
                redactor,
                AppExitCode::Interrupted,
            ),
        );
    }
    match cli.validate() {
        Ok(()) => None,
        Err(error) => {
            let told = AppError::invalid(error.code(), error.message());
            Some(render_app_error(cli.format, width, &told, redactor, AppExitCode::InvalidInput))
        },
    }
}

/// The failure of a command line without a command.
pub fn command_required() -> (result: DispatchFailure)
    ensures
        result@ == (FailureView {
            error: AppProblem::invalid(
                "command_required"@,
                "CLI dispatcher требует явную подкоманду"@,
            ),
            stderr_prefix: Seq::empty(),
        }),
{
    let nothing: Vec<u8> = Vec::new();
    assert(nothing@ =~= Seq::<u8>::empty());
    DispatchFailure::with_stderr(
        AppError::invalid("command_required", "CLI dispatcher требует явную подкоманду"),
        nothing,
    )
}

/// What a command leaves behind in the end. One that was cancelled by an interruption counts as
/// interrupted.
pub open spec fn finished(
    format: OutputFormat,
    width: u16,
    secrets: Seq<Seq<char>>,
    cancelled: bool,
    done: Result<RunView, FailureView>,
) -> RunView {
    match done {
        Ok(run) => if run.exit_code == AppExitCode::Cancelled && cancelled {
            RunView { exit_code: AppExitCode::Interrupted, ..run }
        } else {
            run
        },
        Err(failure) => {
            let exit_code = failure.error.category.code_of();
            (if exit_code == AppExitCode::Cancelled && cancelled {
                failed_run(
                    format,
                    width,
                    secrets,
                    AppProblem::interrupted(),
                    AppExitCode::Interrupted,
                )
            } else {
                failed_run(format, width, secrets, failure.error, exit_code)
            }).preceded(failure.stderr_prefix)
        },
    }
}

/// Shows what a command led to.
pub fn finish_run(
    format: OutputFormat,
    width: u16,
    redactor: &SecretRedactor,
    cancelled: bool,
    done: Result<CliRunResult, DispatchFailure>,
) -> (result: CliRunResult)
    ensures
        result@ == finished(format, width, redactor@, cancelled, outcome::result_view(done)),
{
    match done {
        Ok(run) => {
            let mut run = run;
            if run.exit_code == AppExitCode::Cancelled && cancelled {
                run.exit_code = AppExitCode::Interrupted;
            }
            run
        },
        Err(failure) => {
            let exit_code = failure.error.app_exit_code();
            let mut run = if exit_code == AppExitCode::Cancelled && cancelled {
                render_app_error(
                    format,
                    width,
                    &AppError::interrupted(),
                    redactor,
                    AppExitCode::Interrupted,
                )
            } else {
                render_app_error(format, width, &failure.error, redactor, exit_code)
            };
            run.prepend_stderr(failure.stderr_prefix);
            run
        },
    }
}

/// A command that fails shows nothing on the output stream but in a document.
pub proof fn law_failures_leave_the_output_stream(
    format: OutputFormat,
    width: u16,
    secrets: Seq<Seq<char>>,
    cancelled: bool,
    failure: FailureView,
)
    requires
        format != OutputFormat::Json,
    ensures
        finished(format, width, secrets, cancelled, Err(failure)).stdout.len() == 0,
{
}

} // verus!
