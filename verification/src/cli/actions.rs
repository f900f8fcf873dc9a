//! What is shown of an action on sessions, connections or working processes: each target with its
//! status, and what went wrong.

use vstd::prelude::*;
use vstd::string::*;

use crate::application::connections::ConnectionKillOutcome;
use crate::application::error::{AppError, AppExitCode, AppProblem, ExitCodePolicy};
use crate::application::outcome::{
    ActionError, ActionItemOutcome, ActionMeta, ActionOutcome, ActionProblem, ActionStatus, ActionView, ItemView,
};
use crate::application::processes::ProcessKillOutcome;
use crate::application::sessions::SessionKillOutcome;
use crate::cli::args::OutputFormat;
use crate::cli::dispatch::{
    self, render_action_output, CliRunResult, DispatchFailure, FailureView, RunView,
};
use crate::cli::grid::{Document, DocumentView, OutputError, OutputProblem};
use crate::domain::fields::FieldRegistry;
use crate::domain::identity;
use crate::domain::kill::{ConnectionKillTarget, ProcessKillTarget, SessionKillTarget};
use crate::domain::model::RecordKind;
use crate::domain::outcome::{TargetError, TargetProblem};
use crate::domain::query;
use crate::domain::query::{Projection, ProjectionView};
use crate::domain::value;
use crate::domain::value::{ClusterAlias, EndpointView, RasEndpoint};
use crate::infrastructure::telemetry::redaction;
use crate::infrastructure::telemetry::redaction::SecretRedactor;
use crate::json;
use crate::json::{
    optional_text_member, text_member, JsonRow, JsonScalar, JsonView, RowView,
};
use crate::number;
use crate::outcome;
use crate::text;

verus! {

/// A number that may be missing, in a document.
pub open spec fn optional_number(value: Option<i64>) -> JsonView {
    match value {
        Some(value) => JsonView::Int(value as int),
        None => JsonView::Null,
    }
}

fn optional_number_member(name: &str, value: Option<i64>) -> (result: (String, JsonScalar))
    ensures
        result.0@ == name@,
        result.1@ == optional_number(value),
{
    let shown = match value {
        Some(value) => JsonScalar::Int(value),
        None => JsonScalar::Text(None),
    };
    (name.to_owned(), shown)
}

/// The cluster and the server of a row.
pub open spec fn place_members(cluster: Seq<char>, ras: EndpointView) -> RowView {
    seq![
        ("cluster"@, JsonView::Text(cluster)),
        ("ras_address"@, JsonView::Text(value::endpoint_text(ras.host, ras.port as nat))),
    ]
}

fn place_row(cluster: &ClusterAlias, ras: &RasEndpoint) -> (result: JsonRow)
    ensures
        json::row_view(result@) == place_members(cluster@, ras@),
{
    let mut row: JsonRow = Vec::new();
    row.push(text_member("cluster", cluster.as_str()));
    row.push(text_member("ras_address", ras.as_str()));
    assert(json::row_view(row@) =~= place_members(cluster@, ras@));
    row
}

/// A target of an action, as it is shown.
pub trait ActionTarget {
    /// The names of the columns that tell the target, behind those that tell its cluster.
    spec fn own_columns() -> Seq<Seq<char>>;

    spec fn members_view(&self) -> RowView;

    fn columns() -> (result: Vec<&'static str>)
        ensures
            text::str_views(result@) == Self::own_columns(),
    ;

    fn members(&self) -> (result: JsonRow)
        ensures
            json::row_view(result@) == self.members_view(),
    ;
}

impl ActionTarget for SessionKillTarget {
    open spec fn own_columns() -> Seq<Seq<char>> {
        seq!["infobase"@, "session"@, "session_id"@]
    }

    open spec fn members_view(&self) -> RowView {
        place_members(self.cluster@, self.ras_address@) + seq![
            ("infobase"@, json::optional_text(outcome::option_view(self.infobase))),
            ("session"@, JsonView::Text(identity::uuid_text(self.session_id@))),
            ("session_id"@, optional_number(self.session_number)),
        ]
    }

    fn columns() -> (result: Vec<&'static str>) {
        let mut columns: Vec<&'static str> = Vec::new();
        columns.push("infobase");
        columns.push("session");
        columns.push("session_id");
        assert(text::str_views(columns@) =~= Self::own_columns());
        columns
    }

    fn members(&self) -> (result: JsonRow) {
        let mut row = place_row(&self.cluster, &self.ras_address);
        let ghost before = json::row_view(row@);
        row.push(optional_text_member("infobase", &self.infobase));
        row.push(text_member("session", self.session_id.to_text().as_str()));
        row.push(optional_number_member("session_id", self.session_number));
        assert(json::row_view(row@) =~= self.members_view()) by {
            assert(before.len() == 2);
            assert(json::row_view(row@)[0] == before[0]);
            assert(json::row_view(row@)[1] == before[1]);
        }
        row
    }
}

impl ActionTarget for ConnectionKillTarget {
    open spec fn own_columns() -> Seq<Seq<char>> {
        seq!["infobase"@, "connection"@, "conn_id"@, "process"@]
    }

    open spec fn members_view(&self) -> RowView {
        place_members(self.cluster@, self.ras_address@) + seq![
            ("infobase"@, json::optional_text(outcome::option_view(self.infobase))),
            ("connection"@, JsonView::Text(identity::uuid_text(self.connection_id@))),
            ("conn_id"@, optional_number(self.connection_number)),
            ("process"@, JsonView::Text(identity::uuid_text(self.process_id@))),
        ]
    }

    fn columns() -> (result: Vec<&'static str>) {
        let mut columns: Vec<&'static str> = Vec::new();
        columns.push("infobase");
        columns.push("connection");
        columns.push("conn_id");
        columns.push("process");
        assert(text::str_views(columns@) =~= Self::own_columns());
        columns
    }

    fn members(&self) -> (result: JsonRow) {
        let mut row = place_row(&self.cluster, &self.ras_address);
        let ghost before = json::row_view(row@);
        row.push(optional_text_member("infobase", &self.infobase));
        row.push(text_member("connection", self.connection_id.to_text().as_str()));
        row.push(optional_number_member("conn_id", self.connection_number));
        row.push(text_member("process", self.process_id.to_text().as_str()));
        assert(json::row_view(row@) =~= self.members_view()) by {
            assert(before.len() == 2);
            assert(json::row_view(row@)[0] == before[0]);
            assert(json::row_view(row@)[1] == before[1]);
        }
        row
    }
}

impl ActionTarget for ProcessKillTarget {
    open spec fn own_columns() -> Seq<Seq<char>> {
        seq!["process"@, "pid"@]
    }

    open spec fn members_view(&self) -> RowView {
        place_members(self.cluster@, self.ras_address@) + seq![
            ("process"@, JsonView::Text(identity::uuid_text(self.process_id@))),
            ("pid"@, optional_number(self.pid)),
        ]
    }

    fn columns() -> (result: Vec<&'static str>) {
        let mut columns: Vec<&'static str> = Vec::new();
        columns.push("process");
        columns.push("pid");
        assert(text::str_views(columns@) =~= Self::own_columns());
        columns
    }

    fn members(&self) -> (result: JsonRow) {
        let mut row = place_row(&self.cluster, &self.ras_address);
        let ghost before = json::row_view(row@);
        row.push(text_member("process", self.process_id.to_text().as_str()));
        row.push(optional_number_member("pid", self.pid));
        assert(json::row_view(row@) =~= self.members_view()) by {
            assert(before.len() == 2);
            assert(json::row_view(row@)[0] == before[0]);
            assert(json::row_view(row@)[1] == before[1]);
        }
        row
    }
}

/// The row of a target with its status.
pub open spec fn status_row<T: ActionTarget>(target: T, status: ActionStatus) -> RowView {
    target.members_view().push(("status"@, JsonView::Text(status.text())))
}

pub open spec fn status_rows<T: ActionTarget>(items: Seq<ItemView<T>>) -> Seq<RowView> {
    items.map_values(|item: ItemView<T>| status_row(item.target, item.status))
}

/// What went wrong, and at which stage.
pub open spec fn problem_members(stage: Seq<char>, code: Seq<char>, message: Seq<char>) -> RowView {
    seq![
        ("stage"@, JsonView::Text(stage)),
        ("code"@, JsonView::Text(code)),
        ("message"@, JsonView::Text(message)),
    ]
}

/// What is told of an item that did not succeed: its error, or that there is none to tell.
pub open spec fn told_error<T>(item: ItemView<T>) -> Option<(Seq<char>, Seq<char>)> {
    match item.error {
        Some(error) => Some((error.code, error.message)),
        None => if item.status == ActionStatus::Success {
            None
        } else {
            Some(("action_failed"@, "Действие завершилось без диагностического сообщения"@))
        },
    }
}

/// The error rows of the first `count` items, without secrets.
pub open spec fn item_errors<T: ActionTarget>(
    secrets: Seq<Seq<char>>,
    items: Seq<ItemView<T>>,
    count: int,
) -> Seq<RowView>
    decreases count,
{
    if count <= 0 {
        Seq::empty()
    } else {
        let before = item_errors(secrets, items, count - 1);
        match told_error(items[count - 1]) {
            None => before,
            Some((code, message)) => before.push(
                items[count - 1].target.members_view() + problem_members(
                    "action"@,
                    code,
                    redaction::redacted(secrets, message),
                ),
            ),
        }
    }
}

/// The error row of a cluster whose targets could not be selected, without secrets.
pub open spec fn selection_row(
    secrets: Seq<Seq<char>>,
    own: Seq<Seq<char>>,
    error: TargetProblem,
) -> RowView {
    place_members(error.cluster, error.ras_address) + own.map_values(
        |name: Seq<char>| (name, JsonView::Null),
    ) + problem_members(
        "selection"@,
        error.kind.text(),
        redaction::redacted(secrets, error.message),
    )
}

pub open spec fn selection_rows(
    secrets: Seq<Seq<char>>,
    own: Seq<Seq<char>>,
    errors: Seq<TargetProblem>,
) -> Seq<RowView> {
    errors.map_values(|error: TargetProblem| selection_row(secrets, own, error))
}

/// The counts of an action whose targets could not all be selected.
pub open spec fn counts_row(meta: ActionMeta, unselected: int) -> RowView {
    seq![
        ("attempted"@, JsonView::Int(meta.attempted as int)),
        ("succeeded"@, JsonView::Int(meta.succeeded as int)),
        ("failed"@, JsonView::Int(meta.failed as int)),
        ("cancelled"@, JsonView::Int(meta.cancelled as int)),
        ("selection_failed"@, JsonView::Int(unselected)),
        ("partial"@, JsonView::Bool(meta.partial || (unselected > 0 && meta.succeeded > 0))),
    ]
}

/// All that is shown of an action.
pub open spec fn action_document<T: ActionTarget>(
    secrets: Seq<Seq<char>>,
    result: ActionView<T>,
    errors: Seq<TargetProblem>,
) -> DocumentView {
    DocumentView {
        data: status_rows(result.items),
        errors: item_errors(secrets, result.items, result.items.len() as int) + selection_rows(
            secrets,
            T::own_columns(),
            errors,
        ),
        meta: counts_row(result.meta, errors.len() as int),
    }
}

/// The columns of an action's rows.
pub open spec fn action_columns<T: ActionTarget>() -> Seq<Seq<char>> {
    seq!["cluster"@, "ras_address"@] + T::own_columns() + seq!["status"@]
}

/// The columns of an action's errors.
pub open spec fn action_error_columns<T: ActionTarget>() -> Seq<Seq<char>> {
    seq!["cluster"@, "ras_address"@] + T::own_columns() + seq!["stage"@, "code"@, "message"@]
}

/// The names of the columns that tell a target and its cluster.
fn target_header<T: ActionTarget>() -> (result: Vec<String>)
    ensures
        text::views(result@) == seq!["cluster"@, "ras_address"@] + T::own_columns(),
{
    let own = T::columns();
    let ghost whole = seq!["cluster"@, "ras_address"@] + T::own_columns();
    let mut result: Vec<String> = Vec::new();
    result.push("cluster".to_owned());
    result.push("ras_address".to_owned());
    let mut i: usize = 0;
    assert(text::views(result@) =~= whole.take(2));
    while i < own.len()
        invariant
            i <= own.len(),
            text::str_views(own@) == T::own_columns(),
            whole == seq!["cluster"@, "ras_address"@] + T::own_columns(),
            text::views(result@) == whole.take(i + 2),
        decreases own.len() - i,
    {
        assert(T::own_columns()[i as int] == own@[i as int]@);
        let ghost before = text::views(result@);
        result.push(own[i].to_owned());
        assert(text::views(result@) =~= before.push(whole[i + 2]));
        assert(whole.take(i + 3) =~= before.push(whole[i + 2]));
        i = i + 1;
    }
    assert(T::own_columns().len() == own@.len());
    assert(whole.take(whole.len() as int) =~= whole);
    result
}

fn action_header<T: ActionTarget>() -> (result: Vec<String>)
    ensures
        text::views(result@) == action_columns::<T>(),
{
    let mut result = target_header::<T>();
    let ghost before = text::views(result@);
    result.push("status".to_owned());
    assert(text::views(result@) =~= before.push("status"@));
    assert(action_columns::<T>() =~= before.push("status"@));
    result
}

fn action_error_header<T: ActionTarget>() -> (result: Vec<String>)
    ensures
        text::views(result@) == action_error_columns::<T>(),
{
    let mut result = target_header::<T>();
    let ghost before = text::views(result@);
    result.push("stage".to_owned());
    result.push("code".to_owned());
    result.push("message".to_owned());
    assert(text::views(result@) =~= before + seq!["stage"@, "code"@, "message"@]) by {
        assert forall|i: int| 0 <= i < before.len() implies #[trigger] text::views(result@)[i]
            == before[i] by {}
    }
    result
}

fn status_document<T: ActionTarget>(done: &ActionOutcome<T>) -> (result: Vec<JsonRow>)
    ensures
        json::rows_view(result@) == status_rows(done@.items),
{
    let items = &done.items;
    let ghost all = status_rows(done@.items);
    let mut rows: Vec<JsonRow> = Vec::new();
    let mut i: usize = 0;
    assert(json::rows_view(rows@) =~= all.take(0));
    while i < items.len()
        invariant
            i <= items.len(),
            *items == done.items,
            all == status_rows(done@.items),
            json::rows_view(rows@) == all.take(i as int),
        decreases items.len() - i,
    {
        let mut row = items[i].target.members();
        let ghost members = json::row_view(row@);
        let status = text_member("status", items[i].status.code());
        let ghost last = (status.0@, status.1@);
        row.push(status);
        assert(json::row_view(row@) =~= members.push(last));
        let ghost before = json::rows_view(rows@);
        let ghost added = json::row_view(row@);
        assert(done@.items[i as int] == items@[i as int]@);
        assert(added == all[i as int]);
        rows.push(row);
        assert(json::rows_view(rows@) =~= before.push(added));
        assert(all.take(i + 1) =~= before.push(all[i as int]));
        i = i + 1;
    }
    assert(all.take(items@.len() as int) =~= all);
    rows
}

fn push_problem(row: &mut JsonRow, stage: &str, code: &str, message: &str)
    ensures
        json::row_view(final(row)@) == json::row_view(old(row)@) + problem_members(
            stage@,
            code@,
            message@,
        ),
{
    let ghost before = json::row_view(row@);
    row.push(text_member("stage", stage));
    row.push(text_member("code", code));
    row.push(text_member("message", message));
    assert(json::row_view(row@) =~= before + problem_members(stage@, code@, message@)) by {
        assert forall|i: int| 0 <= i < before.len() implies #[trigger] json::row_view(row@)[i]
            == before[i] by {}
    }
}

/// Adds the row of an item's error, without secrets.
fn push_action_error<T: ActionTarget>(
    target: &T,
    code: &str,
    message: &str,
    redactor: &SecretRedactor,
    rows: &mut Vec<JsonRow>,
)
    ensures
        json::rows_view(final(rows)@) == json::rows_view(old(rows)@).push(
            target.members_view() + problem_members(
                "action"@,
                code@,
                redaction::redacted(redactor@, message@),
            ),
        ),
{
    let shown = redactor.redact(message);
    let mut row = target.members();
    push_problem(&mut row, "action", code, shown.as_str());
    let ghost before = json::rows_view(rows@);
    let ghost added = json::row_view(row@);
    rows.push(row);
    assert(json::rows_view(rows@) =~= before.push(added));
}

fn item_error_rows<T: ActionTarget>(done: &ActionOutcome<T>, redactor: &SecretRedactor) -> (result:
    Vec<JsonRow>)
    ensures
        json::rows_view(result@) == item_errors(
            redactor@,
            done@.items,
            done@.items.len() as int,
        ),
{
    let items = &done.items;
    let mut rows: Vec<JsonRow> = Vec::new();
    let mut i: usize = 0;
    assert(json::rows_view(rows@) =~= Seq::<RowView>::empty());
    while i < items.len()
        invariant
            i <= items.len(),
            *items == done.items,
            json::rows_view(rows@) == item_errors(redactor@, done@.items, i as int),
        decreases items.len() - i,
    {
        assert(done@.items[i as int] == items@[i as int]@);
        match &items[i].error {
            Some(error) => push_action_error(
                &items[i].target,
                error.code.as_str(),
                error.message.as_str(),
                redactor,
                &mut rows,
            ),
            None => {
                if items[i].status != ActionStatus::Success {
                    push_action_error(
                        &items[i].target,
                        "action_failed",
                        "Действие завершилось без диагностического сообщения",
                        redactor,
                        &mut rows,
                    );
                }
            },
        }
        i = i + 1;
    }
    rows
}

fn selection_error_row<T: ActionTarget>(error: &TargetError, redactor: &SecretRedactor) -> (result:
    JsonRow)
    ensures
        json::row_view(result@) == selection_row(redactor@, T::own_columns(), error@),
{
    let own = T::columns();
    let mut row = place_row(&error.cluster, &error.ras_address);
    let ghost place = json::row_view(row@);
    let ghost blanks = T::own_columns().map_values(|name: Seq<char>| (name, JsonView::Null));
    let mut i: usize = 0;
    assert(place + blanks.take(0) =~= place);
    while i < own.len()
        invariant
            i <= own.len(),
            text::str_views(own@) == T::own_columns(),
            blanks == T::own_columns().map_values(|name: Seq<char>| (name, JsonView::Null)),
            json::row_view(row@) == place + blanks.take(i as int),
        decreases own.len() - i,
    {
        assert(T::own_columns()[i as int] == own@[i as int]@);
        let ghost before = json::row_view(row@);
        row.push((own[i].to_owned(), JsonScalar::Text(None)));
        assert(json::row_view(row@) =~= before.push(blanks[i as int]));
        assert(place + blanks.take(i + 1) =~= before.push(blanks[i as int]));
        i = i + 1;
    }
    assert(T::own_columns().len() == own@.len());
    assert(blanks.take(own@.len() as int) =~= blanks);
    let message = redactor.redact(error.message.as_str());
    push_problem(&mut row, "selection", error.code(), message.as_str());
    row
}

fn push_selection_errors<T: ActionTarget>(
    errors: &Vec<TargetError>,
    redactor: &SecretRedactor,
    rows: &mut Vec<JsonRow>,
)
    ensures
        json::rows_view(final(rows)@) == json::rows_view(old(rows)@) + selection_rows(
            redactor@,
            T::own_columns(),
            TargetProblem::all(errors@),
        ),
{
    let ghost start = json::rows_view(rows@);
    let ghost all = selection_rows(redactor@, T::own_columns(), TargetProblem::all(errors@));
    let mut i: usize = 0;
    assert(start + all.take(0) =~= start);
    while i < errors.len()
        invariant
            i <= errors.len(),
            all == selection_rows(redactor@, T::own_columns(), TargetProblem::all(errors@)),
            json::rows_view(rows@) == start + all.take(i as int),
        decreases errors.len() - i,
    {
        let row = selection_error_row::<T>(&errors[i], redactor);
        let ghost before = json::rows_view(rows@);
        let ghost added = json::row_view(row@);
        assert(added == all[i as int]);
        rows.push(row);
        assert(json::rows_view(rows@) =~= before.push(added));
        assert(start + all.take(i + 1) =~= before.push(all[i as int]));
        i = i + 1;
    }
    assert(all.take(errors@.len() as int) =~= all);
}

fn action_counts(meta: ActionMeta, unselected: usize) -> (result: JsonRow)
    ensures
        json::row_view(result@) == counts_row(meta, unselected as int),
{
    let partial = meta.partial || (unselected > 0 && meta.succeeded > 0);
    let mut row: JsonRow = Vec::new();
    row.push(("attempted".to_owned(), JsonScalar::Count(meta.attempted as u64)));
    row.push(("succeeded".to_owned(), JsonScalar::Count(meta.succeeded as u64)));
    row.push(("failed".to_owned(), JsonScalar::Count(meta.failed as u64)));
    row.push(("cancelled".to_owned(), JsonScalar::Count(meta.cancelled as u64)));
    row.push(("selection_failed".to_owned(), JsonScalar::Count(unselected as u64)));
    row.push(("partial".to_owned(), JsonScalar::Bool(partial)));
    assert(json::row_view(row@) =~= counts_row(meta, unselected as int));
    row
}

/// What is shown of an action.
pub open spec fn action_shown<T: ActionTarget>(
    format: OutputFormat,
    width: u16,
    secrets: Seq<Seq<char>>,
    result: ActionView<T>,
    errors: Seq<TargetProblem>,
    exit_code: AppExitCode,
) -> Result<RunView, OutputProblem> {
    dispatch::ended(
        dispatch::rows_shown(
            format,
            width,
            action_columns::<T>(),
            action_error_columns::<T>(),
            action_document(secrets, result, errors),
        ),
        exit_code,
    )
}

fn render_action<T: ActionTarget>(
    format: OutputFormat,
    width: u16,
    done: &ActionOutcome<T>,
    target_errors: &Vec<TargetError>,
    exit_code: AppExitCode,
    redactor: &SecretRedactor,
) -> (result: Result<CliRunResult, OutputError>)
    ensures
        outcome::result_view(result) == action_shown(
            format,
            width,
            redactor@,
            done@,
            TargetProblem::all(target_errors@),
            exit_code,
        ),
{
    let data = status_document(done);
    let mut errors = item_error_rows(done, redactor);
    push_selection_errors::<T>(target_errors, redactor, &mut errors);
    let meta = action_counts(done.meta, target_errors.len());
    let columns = action_header::<T>();
    let error_columns = action_error_header::<T>();
    render_action_output(
        format,
        width,
        &columns,
        &error_columns,
        Document { data, errors, meta },
        exit_code,
    )
}

/// Shows the termination of sessions.
pub fn render_session_action(
    format: OutputFormat,
    width: u16,
    done: &SessionKillOutcome,
    target_errors: &Vec<TargetError>,
    exit_code: AppExitCode,
    redactor: &SecretRedactor,
) -> (result: Result<CliRunResult, OutputError>)
    ensures
        outcome::result_view(result) == action_shown(
            format,
            width,
            redactor@,
            done@,
            TargetProblem::all(target_errors@),
            exit_code,
        ),
{
    render_action(format, width, done, target_errors, exit_code, redactor)
}

/// Shows the breaking of connections.
pub fn render_connection_action(
    format: OutputFormat,
    width: u16,
    done: &ConnectionKillOutcome,
    target_errors: &Vec<TargetError>,
    exit_code: AppExitCode,
    redactor: &SecretRedactor,
) -> (result: Result<CliRunResult, OutputError>)
    ensures
        outcome::result_view(result) == action_shown(
            format,
            width,
            redactor@,
            done@,
            TargetProblem::all(target_errors@),
            exit_code,
        ),
{
    render_action(format, width, done, target_errors, exit_code, redactor)
}

/// The exit code of an action: that of its outcome, but a success for all selected targets is partial
/// where some could not be selected.
pub open spec fn exit_code_shown(meta: ActionMeta, unselected: int) -> AppExitCode {
    if meta.code_of() == AppExitCode::Success && unselected > 0 {
        AppExitCode::PartialSuccess
    } else {
        meta.code_of()
    }
}

/// The exit code of an action.
pub fn action_exit_code<T>(done: &ActionOutcome<T>, target_errors: &Vec<TargetError>) -> (result:
    AppExitCode)
    ensures
        result == exit_code_shown(done.meta, target_errors@.len() as int),
{
    let exit_code = done.app_exit_code();
    if exit_code == AppExitCode::Success && target_errors.len() > 0 {
        AppExitCode::PartialSuccess
    } else {
        exit_code
    }
}

/// Each item has a row, and it has an error row exactly where it did not succeed or has an error; the
/// failures of selection follow.
pub proof fn law_every_failure_is_shown<T: ActionTarget>(
    secrets: Seq<Seq<char>>,
    result: ActionView<T>,
    errors: Seq<TargetProblem>,
)
    ensures
        ({
            let document = action_document(secrets, result, errors);
            &&& document.data.len() == result.items.len()
            &&& document.errors.len() == failures(result.items, result.items.len() as int)
                + errors.len()
        }),
{
    lemma_failures(secrets, result.items, result.items.len() as int);
}

/// How many of the first `count` items did not succeed or have an error.
pub open spec fn failures<T>(items: Seq<ItemView<T>>, count: int) -> nat
    decreases count,
{
    if count <= 0 {
        0
    } else {
        failures(items, count - 1) + (if items[count - 1].error is Some || items[count - 1].status
            != ActionStatus::Success {
            1nat
        } else {
            0nat
        })
    }
}

proof fn lemma_failures<T: ActionTarget>(
    secrets: Seq<Seq<char>>,
    items: Seq<ItemView<T>>,
    count: int,
)
    ensures
        item_errors(secrets, items, count).len() == failures(items, count),
    decreases count,
{
    if count > 0 {
        lemma_failures(secrets, items, count - 1);
    }
}

/// An item whose error holds no secrets.
pub open spec fn sanitized_item<T>(secrets: Seq<Seq<char>>, item: ItemView<T>) -> ItemView<T> {
    ItemView {
        error: match item.error {
            Some(error) => Some(
                ActionProblem {
                    code: error.code,
                    message: redaction::redacted(secrets, error.message),
                },
            ),
            None => None,
        },
        ..item
    }
}

/// An outcome whose errors hold no secrets.
pub open spec fn sanitized_action<T>(secrets: Seq<Seq<char>>, done: ActionView<T>) -> ActionView<T> {
    ActionView { items: done.items.map_values(|item: ItemView<T>| sanitized_item(secrets, item)), ..done }
}

fn sanitize_item<T>(item: ActionItemOutcome<T>, redactor: &SecretRedactor) -> (result:
    ActionItemOutcome<T>)
    ensures
        result@ == sanitized_item(redactor@, item@),
{
    let error = match item.error {
        Some(error) => {
            let message = redactor.redact(error.message.as_str());
            Some(ActionError { code: error.code, message })
        },
        None => None,
    };
    ActionItemOutcome {
        target: item.target,
        status: item.status,
        error,
        audit_error: item.audit_error,
    }
}

/// Takes the secrets out of the errors of an outcome.
pub fn sanitize_action_outcome<T>(done: ActionOutcome<T>, redactor: &SecretRedactor) -> (result:
    ActionOutcome<T>)
    ensures
        result@ == sanitized_action(redactor@, done@),
{
    let ghost shown = done@.items;
    let ghost clean = sanitized_action(redactor@, done@).items;
    let meta = done.meta;
    let ghost source = done.items@;
    let mut items: Vec<ActionItemOutcome<T>> = Vec::new();
    for item in it: done.items
        invariant
            it.seq() == source,
            shown == source.map_values(|item: ActionItemOutcome<T>| item@),
            clean == shown.map_values(|item: ItemView<T>| sanitized_item(redactor@, item)),
            items@.len() == it.index(),
            forall|j: int| 0 <= j < it.index() ==> (#[trigger] items@[j])@ == clean[j],
    {
        let ghost at = it.index();
        assert(item == source[at]);
        let cleaned = sanitize_item(item, redactor);
        assert(cleaned@ == clean[at]);
        items.push(cleaned);
    }
    let result = ActionOutcome { items, meta };
    assert(result@.items =~= clean);
    result
}

/// What an action leads to: its rows and errors without secrets behind the preview, or its failure.
pub open spec fn action_finished<T: ActionTarget>(
    format: OutputFormat,
    width: u16,
    secrets: Seq<Seq<char>>,
    done: Result<ActionView<T>, AppProblem>,
    errors: Seq<TargetProblem>,
    preview: Seq<u8>,
) -> Result<RunView, FailureView> {
    match done {
        Err(error) => Err(FailureView { error, stderr_prefix: preview }),
        Ok(done) => match action_shown(
            format,
            width,
            secrets,
            sanitized_action(secrets, done),
            errors,
            exit_code_shown(done.meta, errors.len() as int),
        ) {
            Err(problem) => Err(dispatch::output_failure(problem, preview)),
            Ok(run) => Ok(run.preceded(preview)),
        },
    }
}

/// Shows what an action led to.
fn finish_action<T: ActionTarget>(
    format: OutputFormat,
    width: u16,
    done: Result<ActionOutcome<T>, AppError>,
    target_errors: &Vec<TargetError>,
    preview: Vec<u8>,
    redactor: &SecretRedactor,
) -> (result: Result<CliRunResult, DispatchFailure>)
    ensures
        outcome::result_view(result) == action_finished(
            format,
            width,
            redactor@,
            outcome::result_view(done),
            TargetProblem::all(target_errors@),
            preview@,
        ),
{
    let done = match done {
        Ok(done) => done,
        Err(error) => {
            return Err(DispatchFailure::with_stderr(error, preview));
        },
    };
    let done = sanitize_action_outcome(done, redactor);
    let exit_code = action_exit_code(&done, target_errors);
    assert(TargetProblem::all(target_errors@).len() == target_errors@.len());
    match render_action(format, width, &done, target_errors, exit_code, redactor) {
        Ok(run) => {
            let mut run = run;
            run.prepend_stderr(preview);
            Ok(run)
        },
        Err(error) => Err(DispatchFailure::output(&error, preview)),
    }
}

/// Shows what the termination of sessions led to, behind the preview where it was not shown yet.
pub fn finish_session_kill(
    format: OutputFormat,
    width: u16,
    done: Result<SessionKillOutcome, AppError>,
    target_errors: &Vec<TargetError>,
    preview: Vec<u8>,
    redactor: &SecretRedactor,
) -> (result: Result<CliRunResult, DispatchFailure>)
    ensures
        outcome::result_view(result) == action_finished(
            format,
            width,
            redactor@,
            outcome::result_view(done),
            TargetProblem::all(target_errors@),
            preview@,
        ),
{
    finish_action(format, width, done, target_errors, preview, redactor)
}

/// Shows what the breaking of connections led to, behind the preview where it was not shown yet.
pub fn finish_connection_kill(
    format: OutputFormat,
    width: u16,
    done: Result<ConnectionKillOutcome, AppError>,
    target_errors: &Vec<TargetError>,
    preview: Vec<u8>,
    redactor: &SecretRedactor,
) -> (result: Result<CliRunResult, DispatchFailure>)
    ensures
        outcome::result_view(result) == action_finished(
            format,
            width,
            redactor@,
            outcome::result_view(done),
            TargetProblem::all(target_errors@),
            preview@,
        ),
{
    finish_action(format, width, done, target_errors, preview, redactor)
}

/// Shows what the turning off of working processes led to, behind the preview where it was not shown
/// yet.
pub fn finish_process_kill(
    format: OutputFormat,
    width: u16,
    done: Result<ProcessKillOutcome, AppError>,
    target_errors: &Vec<TargetError>,
    preview: Vec<u8>,
    redactor: &SecretRedactor,
) -> (result: Result<CliRunResult, DispatchFailure>)
    ensures
        outcome::result_view(result) == action_finished(
            format,
            width,
            redactor@,
            outcome::result_view(done),
            TargetProblem::all(target_errors@),
            preview@,
        ),
{
    finish_action(format, width, done, target_errors, preview, redactor)
}

/// The columns of a preview of sessions.
pub const SESSION_PREVIEW_COLUMNS: &'static str =
    "cluster,infobase,session,session_id,user_name,host,app_id";

/// The columns of a preview of connections.
pub const CONNECTION_PREVIEW_COLUMNS: &'static str =
    "cluster,infobase,connection,conn_id,host,application,process";

/// The columns of a preview of working processes.
pub const PROCESS_PREVIEW_COLUMNS: &'static str = "cluster,process,pid,server,started_at";

/// The columns of a preview, or that they cannot be used.
pub open spec fn preview_columns(columns: Seq<char>, kind: RecordKind, failure: Seq<char>) -> Result<
    ProjectionView,
    AppProblem,
> {
    match query::projection_of(Some(columns), kind) {
        Ok(projection) => Ok(projection),
        Err(error) => Err(
            AppProblem::internal("preview_projection_error"@, failure + error.message()),
        ),
    }
}

fn preview_projection(
    columns: &str,
    kind: RecordKind,
    failure: &str,
    registry: &FieldRegistry,
) -> (result: Result<Projection, AppError>)
    ensures
        outcome::result_view(result) == preview_columns(columns@, kind, failure@),
{
    match Projection::parse(Some(columns), kind, registry) {
        Ok(projection) => Ok(projection),
        Err(error) => {
            let mut message = failure.to_owned();
            message.push_str(error.message().as_str());
            Err(AppError::internal("preview_projection_error", message.as_str()))
        },
    }
}

/// The columns of a preview of sessions.
pub fn session_preview_projection(registry: &FieldRegistry) -> (result: Result<Projection, AppError>)
    ensures
        outcome::result_view(result) == preview_columns(
            SESSION_PREVIEW_COLUMNS@,
            RecordKind::Session,
            "Не удалось построить проекцию предпросмотра сеансов: "@,
        ),
{
    preview_projection(
        SESSION_PREVIEW_COLUMNS,
        RecordKind::Session,
        "Не удалось построить проекцию предпросмотра сеансов: ",
        registry,
    )
}

/// The columns of a preview of connections.
pub fn connection_preview_projection(registry: &FieldRegistry) -> (result: Result<
    Projection,
    AppError,
>)
    ensures
        outcome::result_view(result) == preview_columns(
            CONNECTION_PREVIEW_COLUMNS@,
            RecordKind::Connection,
            "Не удалось построить проекцию предпросмотра соединений: "@,
        ),
{
    preview_projection(
        CONNECTION_PREVIEW_COLUMNS,
        RecordKind::Connection,
        "Не удалось построить проекцию предпросмотра соединений: ",
        registry,
    )
}

/// The columns of a preview of working processes.
pub fn process_preview_projection(registry: &FieldRegistry) -> (result: Result<Projection, AppError>)
    ensures
        outcome::result_view(result) == preview_columns(
            PROCESS_PREVIEW_COLUMNS@,
            RecordKind::Process,
            "Не удалось построить проекцию предпросмотра рабочих процессов: "@,
        ),
{
    preview_projection(
        PROCESS_PREVIEW_COLUMNS,
        RecordKind::Process,
        "Не удалось построить проекцию предпросмотра рабочих процессов: ",
        registry,
    )
}

/// The label of a preview of sessions.
pub const SESSION_PREVIEW_LABEL: &'static str = "Выбрано сеансов";

/// The label of a preview of connections.
pub const CONNECTION_PREVIEW_LABEL: &'static str = "Выбрано соединений";

/// The label of a preview of working processes.
pub const PROCESS_PREVIEW_LABEL: &'static str = "Выбрано рабочих процессов";

fn counted_question(question: &str, count: usize) -> (result: String)
    ensures
        result@ == question@ + " ("@ + number::decimal(count as nat) + ")?"@,
{
    let mut result = question.to_owned();
    result.push_str(" (");
    result.push_str(number::format_u64(count as u64).as_str());
    result.push_str(")?");
    result
}

/// The question before sessions are terminated.
pub fn session_kill_prompt(count: usize) -> (result: String)
    ensures
        result@ == "Завершить выбранные сеансы"@ + " ("@ + number::decimal(count as nat) + ")?"@,
{
    counted_question("Завершить выбранные сеансы", count)
}

/// The question before connections are broken.
pub fn connection_kill_prompt(count: usize) -> (result: String)
    ensures
        result@ == "Разорвать выбранные соединения"@ + " ("@ + number::decimal(count as nat) + ")?"@,
{
    counted_question("Разорвать выбранные соединения", count)
}

/// The question before working processes are turned off.
pub fn process_kill_prompt(count: usize) -> (result: String)
    ensures
        result@ == "Выключить выбранные рабочие процессы"@ + " ("@ + number::decimal(count as nat)
            + ")?"@,
{
    counted_question("Выключить выбранные рабочие процессы", count)
}

} // verus!
