//! What goes to which stream: the records to one, the failures to the other, and nothing of the one depends
//! on the other.

use vstd::prelude::*;
use vstd::string::*;

use crate::application::error::{AppExitCode, AppProblem};
use crate::application::outcome::ActionView;
use crate::cli::actions;
use crate::cli::actions::ActionTarget;
use crate::cli::args::{Cli, CliCommand, ClusterAddArgs, ClusterCommand, OutputFormat};
use crate::cli::cells;
use crate::cli::confirm::confirmation_text;
use crate::cli::dispatch;
use crate::cli::dispatch::{FailureView, RunView};
use crate::cli::grid;
use crate::cli::grid::{DocumentView, OutputProblem};
use crate::cli::output;
use crate::cli::output::StreamsView;
use crate::domain::entries;
use crate::domain::field_value::ValueView;
use crate::domain::fields;
use crate::domain::identity;
use crate::domain::model::{FieldAccess, RecordKind, TargetView};
use crate::domain::outcome::{QueryMeta, TargetProblem};
use crate::domain::query::ProjectionView;
use crate::domain::value;
use crate::infrastructure::telemetry::redaction;
use crate::json::JsonView;
use crate::number;
use crate::text;

verus! {

/// The value that a row has under a column is shown in that row and under that column, in the unit of the
/// field; a machine reads the same value there, and the document holds it under its name.
pub proof fn law_values_stand_in_their_row_and_column(
    kind: RecordKind,
    columns: Seq<Seq<char>>,
    rows: Seq<Seq<(Seq<char>, ValueView)>>,
    row: int,
    column: int,
    value: ValueView,
)
    requires
        0 <= row < rows.len(),
        0 <= column < columns.len(),
        entries::lookup(rows[row], columns[column]) == Some(value),
    ensures
        output::machine_rows(columns, rows).len() == rows.len(),
        output::machine_rows(columns, rows)[row].len() == columns.len(),
        output::machine_rows(columns, rows)[row][column] == cells::machine_text(value),
        fields::definition_of(kind, columns[column]) is Ok ==> output::cell_rows(
            kind,
            columns,
            rows,
        )[row][column] == cells::cell_of(
            value,
            fields::definition_of(kind, columns[column])->Ok_0.unit,
        ),
        output::json_rows(rows)[row].contains((columns[column], cells::json_value(value))),
{
    let entry = rows[row];
    let key = columns[column];
    entries::lemma_position(entry, key, 0);
    let at = entries::position(entry, key, 0);
    assert(output::json_row(entry)[at] == (key, cells::json_value(value)));
}

/// A column without a value in a row is empty there.
pub proof fn law_missing_values_are_shown_as_such(
    columns: Seq<Seq<char>>,
    rows: Seq<Seq<(Seq<char>, ValueView)>>,
    row: int,
    column: int,
)
    requires
        0 <= row < rows.len(),
        0 <= column < columns.len(),
        entries::lookup(rows[row], columns[column]) is None,
    ensures
        output::machine_rows(columns, rows)[row][column] == cells::machine_text(ValueView::Null),
{
}

/// The document of a query holds a member for every record, one for every failure, and the counts.
pub proof fn law_documents_hold_everything(
    rows: Seq<Seq<(Seq<char>, ValueView)>>,
    errors: Seq<TargetProblem>,
    meta: QueryMeta,
    row: int,
    error: int,
)
    requires
        0 <= row < rows.len(),
        0 <= error < errors.len(),
    ensures
        ({
            let document = output::envelope_document(rows, errors, meta);
            &&& document.data.len() == rows.len()
            &&& document.data[row].len() == rows[row].len()
            &&& document.errors.len() == errors.len()
            &&& document.errors[error] == output::target_error_row(errors[error])
            &&& document.meta == output::meta_row(meta)
        }),
{
}

/// Outside of documents the records are shown alike whatever failed, and nothing but failures is on the
/// error stream; a document holds both, and its error stream is empty.
pub proof fn law_failures_leave_the_records_alone<R: FieldAccess>(
    format: OutputFormat,
    width: u16,
    records: Seq<R>,
    errors: Seq<TargetProblem>,
    meta: QueryMeta,
    projection: ProjectionView,
    shown: Seq<Seq<Seq<char>>>,
)
    ensures
        ({
            let whole = output::streams_shown(
                format,
                width,
                records,
                errors,
                meta,
                projection,
                shown,
            );
            let alone = output::streams_shown(
                format,
                width,
                records,
                Seq::empty(),
                meta,
                projection,
                shown,
            );
            &&& format != OutputFormat::Json && whole is Ok ==> alone is Ok && alone->Ok_0.stdout
                == whole->Ok_0.stdout
            &&& format != OutputFormat::Json && errors.len() > 0 && whole is Ok ==> grid::grid_bytes(
                format,
                output::target_error_columns(),
                output::plain_rows(errors.map_values(|e: TargetProblem| output::target_error_row(e))),
                grid::table_width(width),
            ) == Ok::<_, OutputProblem>(whole->Ok_0.stderr)
            &&& alone is Ok ==> alone->Ok_0.stderr.len() == 0
            &&& format == OutputFormat::Json && whole is Ok ==> whole->Ok_0.stderr.len() == 0
        }),
{
    assert(errors.map_values(|e: TargetProblem| output::target_error_row(e))
        =~= output::target_error_rows(errors));
}

/// The same of actions: the records stay as they are whatever failed.
pub proof fn law_failed_items_leave_the_rows_alone(
    format: OutputFormat,
    width: u16,
    columns: Seq<Seq<char>>,
    error_columns: Seq<Seq<char>>,
    document: DocumentView,
)
    requires
        format != OutputFormat::Json,
    ensures
        ({
            let whole = dispatch::rows_shown(format, width, columns, error_columns, document);
            let alone = dispatch::rows_shown(
                format,
                width,
                columns,
                error_columns,
                DocumentView { errors: Seq::empty(), ..document },
            );
            &&& whole is Ok ==> alone is Ok && alone->Ok_0.stdout == whole->Ok_0.stdout
            &&& whole is Ok && document.errors.len() > 0 ==> grid::grid_bytes(
                format,
                error_columns,
                output::plain_rows(document.errors),
                width,
            ) == Ok::<_, OutputProblem>(whole->Ok_0.stderr)
            &&& alone is Ok ==> alone->Ok_0.stderr.len() == 0
        }),
{
}

/// Every row follows the heading and the rows before it.
pub proof fn law_rows_follow_each_other(headers: Seq<Seq<char>>, rows: Seq<Seq<Seq<char>>>, count: int)
    requires
        0 <= count < rows.len(),
        grid::csv_lines(headers, rows, count + 1) is Ok,
    ensures
        grid::csv_lines(headers, rows, 0) == Ok::<_, OutputProblem>(
            vstd::utf8::encode_utf8(grid::csv_line(headers)),
        ),
        grid::csv_lines(headers, rows, count) is Ok,
        grid::csv_lines(headers, rows, count + 1)->Ok_0 == grid::csv_lines(headers, rows, count)->Ok_0
            + vstd::utf8::encode_utf8(grid::csv_line(rows[count])),
        rows[count].len() == headers.len(),
{
}

/// A run that was shown ends with its streams and its code.
pub proof fn law_runs_end_with_their_code(streams: StreamsView, code: AppExitCode)
    ensures
        dispatch::ended(Ok(streams), code) == Ok::<_, OutputProblem>(
            RunView { stdout: streams.stdout, stderr: streams.stderr, exit_code: code },
        ),
{
}

/// What was previewed stands before everything else on the error stream, also where the action fails, and
/// the action ends as it went.
pub proof fn law_previews_come_first<T: ActionTarget>(
    format: OutputFormat,
    width: u16,
    secrets: Seq<Seq<char>>,
    done: Result<ActionView<T>, AppProblem>,
    errors: Seq<TargetProblem>,
    preview: Seq<u8>,
)
    ensures
        ({
            let result = actions::action_finished(format, width, secrets, done, errors, preview);
            &&& done is Err ==> result == Err::<RunView, _>(
                FailureView { error: done->Err_0, stderr_prefix: preview },
            )
            &&& result is Err ==> result->Err_0.stderr_prefix == preview
            &&& result is Ok ==> done is Ok && preview.len() <= result->Ok_0.stderr.len()
                && result->Ok_0.stderr.take(preview.len() as int) == preview
                && result->Ok_0.exit_code == actions::exit_code_shown(
                done->Ok_0.meta,
                errors.len() as int,
            )
        }),
{
    let result = actions::action_finished(format, width, secrets, done, errors, preview);
    if result is Ok {
        assert(result->Ok_0.stderr.take(preview.len() as int) =~= preview);
    }
}

/// Redaction changes the message of a failure and nothing else of what was done.
pub proof fn law_redaction_keeps_what_was_done<T>(
    secrets: Seq<Seq<char>>,
    done: ActionView<T>,
    i: int,
)
    requires
        0 <= i < done.items.len(),
    ensures
        ({
            let after = actions::sanitized_action(secrets, done);
            &&& after.meta == done.meta
            &&& after.items.len() == done.items.len()
            &&& after.items[i].target == done.items[i].target
            &&& after.items[i].status == done.items[i].status
            &&& after.items[i].error is Some <==> done.items[i].error is Some
            &&& done.items[i].error is Some ==> {
                &&& after.items[i].error->0.code == done.items[i].error->0.code
                &&& after.items[i].error->0.message == redaction::redacted(
                    secrets,
                    done.items[i].error->0.message,
                )
            }
        }),
{
}

proof fn lemma_part(s: Seq<char>, before: Seq<char>, part: Seq<char>, after: Seq<char>)
    requires
        s == before + part + after,
    ensures
        text::contains(s, part),
{
    let at = before.len() as int;
    assert(s.subrange(at, at + part.len()) =~= part);
}

/// What is shown before a cluster is removed names its alias, its identity and its server.
pub proof fn law_removals_name_the_cluster(target: TargetView)
    ensures
        text::contains(dispatch::removal_preview(target), target.alias),
        text::contains(
            dispatch::removal_preview(target),
            identity::uuid_text(target.discovered_cluster.uuid),
        ),
        text::contains(
            dispatch::removal_preview(target),
            value::endpoint_text(target.ras.host, target.ras.port as nat),
        ),
{
    let shown = dispatch::removal_preview(target);
    let a = "Будет удалено подключение: cluster="@;
    let b = ", cluster_uuid="@;
    let c = ", ras_address="@;
    let d = "\n"@;
    let uuid = identity::uuid_text(target.discovered_cluster.uuid);
    let server = value::endpoint_text(target.ras.host, target.ras.port as nat);
    assert(shown =~= a + target.alias + (b + uuid + c + server + d));
    assert(shown =~= (a + target.alias + b) + uuid + (c + server + d));
    assert(shown =~= (a + target.alias + b + uuid + c) + server + d);
    lemma_part(shown, a, target.alias, b + uuid + c + server + d);
    lemma_part(shown, a + target.alias + b, uuid, c + server + d);
    lemma_part(shown, a + target.alias + b + uuid + c, server, d);
}

/// A preview in a table begins with its label and the number of records; the records and the failures
/// follow.
pub proof fn law_previews_tell_how_many<R: FieldAccess>(
    width: u16,
    records: Seq<R>,
    errors: Seq<TargetProblem>,
    projection: ProjectionView,
    shown: Seq<Seq<Seq<char>>>,
    label: Seq<char>,
)
    ensures
        ({
            let preview = dispatch::preview_shown(
                OutputFormat::Table,
                width,
                records,
                errors,
                projection,
                shown,
                label,
            );
            let line = vstd::utf8::encode_utf8(
                label + ": "@ + number::decimal(records.len()) + "\n"@,
            );
            preview is Ok ==> line.len() <= preview->Ok_0.len() && preview->Ok_0.take(
                line.len() as int,
            ) == line
        }),
{
    let preview = dispatch::preview_shown(
        OutputFormat::Table,
        width,
        records,
        errors,
        projection,
        shown,
        label,
    );
    let line = vstd::utf8::encode_utf8(label + ": "@ + number::decimal(records.len()) + "\n"@);
    if preview is Ok {
        assert(preview->Ok_0.take(line.len() as int) =~= line);
    }
}

/// The preview stands before the question, on lines of its own; who cannot answer is asked nothing.
pub proof fn law_questions_follow_the_preview(
    interactive: bool,
    prompt: &str,
    preview: &str,
    result: String,
)
    requires
        call_ensures(confirmation_text, (interactive, prompt, preview), result),
    ensures
        preview@.len() <= result@.len() && result@.take(preview@.len() as int) == preview@,
        interactive ==> text::contains(result@, prompt@),
        interactive && preview@.len() == 0 ==> result@ == prompt@ + " [y/N]: "@,
        !interactive ==> result@.len() <= preview@.len() + 1,
{
    assert(result@.take(preview@.len() as int) =~= preview@);
    if interactive {
        let tail = " [y/N]: "@;
        if preview@.len() > 0 && preview@.last() != '\n' {
            lemma_part(result@, preview@.push('\n'), prompt@, tail);
        } else {
            lemma_part(result@, preview@, prompt@, tail);
        }
        if preview@.len() == 0 {
            assert(result@ =~= prompt@ + tail);
        }
    }
}

/// An interrupted command ends as interrupted, whatever it was; one that asks for nothing wrong begins.
pub proof fn law_interrupted_commands_do_not_begin(cli: Cli)
    ensures
        dispatch::not_begun(cli, true) matches Some((_, code)) && code == AppExitCode::Interrupted,
        cli.command is None ==> dispatch::not_begun(cli, false) is None,
        cli.command is Some && cli.command->0.problem() is None ==> dispatch::not_begun(cli, false)
            is None,
        cli.command is Some && cli.command->0.problem() is Some ==> {
            &&& dispatch::not_begun(cli, false) matches Some((problem, code))
            &&& code == AppExitCode::InvalidInput
            &&& problem.code == cli.command->0.problem()->0.code
        },
{
}

/// Both passwords of a cluster that is added are known as secrets.
pub proof fn law_passwords_of_commands_are_secrets(args: ClusterAddArgs)
    ensures
        ({
            let secrets = dispatch::command_secrets(
                Some(CliCommand::Cluster { command: ClusterCommand::Add(args) }),
            );
            &&& args.password is Some && args.password->0@.len() > 0 ==> secrets.contains(
                args.password->0@,
            )
            &&& args.infobase_password is Some && args.infobase_password->0@.len() > 0
                ==> secrets.contains(args.infobase_password->0@)
        }),
{
    let none = Seq::<Seq<char>>::empty();
    let one = match args.password {
        Some(password) => redaction::registered(none, password@),
        None => none,
    };
    if args.password is Some {
        redaction::law_longest_secrets_come_first(none, args.password->0@, args.password->0@);
        if args.infobase_password is Some {
            redaction::law_longest_secrets_come_first(
                one,
                args.infobase_password->0@,
                args.password->0@,
            );
        }
    } else if args.infobase_password is Some {
        redaction::law_longest_secrets_come_first(
            none,
            args.infobase_password->0@,
            args.infobase_password->0@,
        );
    }
}

/// A number of a document reads back from the grid, a text stands there as it is, and what is missing is
/// empty.
pub proof fn law_grids_show_the_document(value: JsonView)
    ensures
        value is Null ==> cells::plain_text(value).len() == 0,
        value matches JsonView::Text(text) ==> cells::plain_text(value) == text,
        value matches JsonView::Int(number) ==> i64::MIN <= number <= i64::MAX ==> number::signed(
            cells::plain_text(value),
        ) == Some(number),
        value matches JsonView::Bool(truth) ==> cells::plain_text(value) == (if truth {
            "true"@
        } else {
            "false"@
        }),
{
    if value is Int {
        let number = value->Int_0;
        if i64::MIN <= number <= i64::MAX {
            number::lemma_signed_round_trip(number);
        }
    }
}

} // verus!
