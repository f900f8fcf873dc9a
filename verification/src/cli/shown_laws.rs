//! What is shown is what there is: every value under its own name and in its own unit, every count and
//! every exit code as things went.

use vstd::prelude::*;
use vstd::string::*;

use crate::application::error::{
    AppError, AppErrorCategory, AppExitCode, AppProblem, ExitCodePolicy,
};
use crate::application::outcome;
use crate::application::outcome::{
    ActionItemOutcome, ActionMeta, ActionOutcome, ActionStatus, ActionView, Approval, ItemView,
};
use crate::cli::actions;
use crate::cli::actions::{action_exit_code, ActionTarget};
use crate::cli::cells;
use crate::cli::cells::{table_value, CellView, TableCell};
use crate::cli::confirm::Confirmation;
use crate::cli::dispatch;
use crate::cli::dispatch::approval_from;
use crate::cli::output;
use crate::domain::field_value::{FieldValue, ValueView};
use crate::domain::fields::FieldUnit;
use crate::domain::identity;
use crate::domain::kill::{ConnectionKillTarget, ProcessKillTarget, SessionKillTarget};
use crate::domain::model::TargetView;
use crate::domain::outcome::{QueryMeta, QueryOutcome, TargetError, TargetProblem};
use crate::domain::value;
use crate::infrastructure::telemetry::redaction;
use crate::json::{JsonView, RowView};
use crate::number;

verus! {

/// How many of a field's own units one of the units shown is.
pub open spec fn units_in(unit: FieldUnit, shown: Seq<char>) -> int {
    match unit {
        FieldUnit::Bytes => if shown == "KiB"@ {
            1024
        } else if shown == "MiB"@ {
            1024int * 1024
        } else if shown == "GiB"@ {
            1024int * 1024 * 1024
        } else {
            1024int * 1024 * 1024 * 1024
        },
        FieldUnit::Microseconds => if shown == "ms"@ {
            1000
        } else {
            1_000_000 * seconds_in(shown)
        },
        FieldUnit::Milliseconds => 1000 * seconds_in(shown),
        FieldUnit::Seconds => seconds_in(shown),
        FieldUnit::Count => 1,
    }
}

/// How many seconds a unit of time is.
pub open spec fn seconds_in(shown: Seq<char>) -> int {
    if shown == "s"@ {
        1
    } else if shown == "min"@ {
        60
    } else {
        3600
    }
}

proof fn lemma_unit_names()
    ensures
        "KiB"@ != "MiB"@,
        "KiB"@ != "GiB"@,
        "KiB"@ != "TiB"@,
        "MiB"@ != "GiB"@,
        "MiB"@ != "TiB"@,
        "GiB"@ != "TiB"@,
        "s"@ != "min"@,
        "s"@ != "h"@,
        "min"@ != "h"@,
        "ms"@ != "s"@,
        "ms"@ != "min"@,
        "ms"@ != "h"@,
{
    reveal_strlit("KiB");
    reveal_strlit("MiB");
    reveal_strlit("GiB");
    reveal_strlit("TiB");
    reveal_strlit("s");
    reveal_strlit("min");
    reveal_strlit("h");
    reveal_strlit("ms");
    assert("KiB"@[0] == 'K');
    assert("MiB"@[0] == 'M');
    assert("GiB"@[0] == 'G');
    assert("TiB"@[0] == 'T');
    assert("s"@[0] == 's');
    assert("min"@[0] == 'm');
    assert("h"@[0] == 'h');
    assert("s"@.len() == 1);
    assert("min"@.len() == 3);
    assert("ms"@.len() == 2);
    assert("h"@.len() == 1);
}

/// A cell shows the number of its field: whole, or divided by what the unit beside it is in the units of
/// the field, and then the number is at least one such unit, unless seconds are the smallest unit there is.
pub proof fn law_cells_show_the_number(
    value: FieldValue,
    number: i64,
    unit: FieldUnit,
    cell: TableCell,
)
    requires
        call_ensures(table_value, (&value, Some(unit)), cell),
        value@ == ValueView::Int(number),
    ensures
        cell@ matches CellView::Scaled { value: shown, first, second, unit: name, .. } ==> {
            &&& shown == number
            &&& first * second == units_in(unit, name)
            &&& cells::magnitude(number) >= first * second || name == "s"@
        },
        cell@ matches CellView::Text(shown) ==> (unit == FieldUnit::Count && shown
            == number::signed_decimal(number as int)) || (unit == FieldUnit::Bytes && shown
            == number::signed_decimal(number as int) + " "@ + "B"@) || (unit
            == FieldUnit::Milliseconds && shown == number::signed_decimal(number as int) + " "@
            + "ms"@) || (unit == FieldUnit::Microseconds && shown == number::signed_decimal(
            number as int,
        ) + " "@ + "us"@),
        !(cell@ is Moment),
{
    lemma_unit_names();
    if let CellView::Scaled { first, second, .. } = cell@ {
        assert(second == 1 ==> first * second == first) by (nonlinear_arith);
        assert(second == 60 ==> first * second == 60 * first) by (nonlinear_arith);
        assert(second == 3600 ==> first * second == 3600 * first) by (nonlinear_arith);
        assert(second == 1 || second == 60 || second == 3600);
    }
}

/// A cell without a unit shows the value as it is: an integer in digits, an identity and a text as
/// themselves, nothing where there is nothing; a time is shown as that moment.
pub proof fn law_cells_show_the_value(value: FieldValue, cell: TableCell)
    requires
        call_ensures(table_value, (&value, None::<FieldUnit>), cell),
    ensures
        value@ matches ValueView::Int(number) ==> cell@ == CellView::Text(
            number::signed_decimal(number as int),
        ),
        value@ matches ValueView::Uuid(id) ==> cell@ == CellView::Text(identity::uuid_text(id)),
        value@ matches ValueView::Str(shown) ==> cell@ == CellView::Text(shown),
        value@ matches ValueView::Bool(yes) ==> cell@ == CellView::Text(
            if yes {
                "true"@
            } else {
                "false"@
            },
        ),
        value@ matches ValueView::DateTime(moment) ==> cell@ == CellView::Moment(moment),
        value@ is Null ==> (cell@ matches CellView::Text(shown) && shown.len() == 0),
{
}

/// Values are written for machines so that they read back: an integer in digits, an identity in its own
/// text, a text as itself, a truth value as a word, and nothing as nothing; a document keeps the types.
pub proof fn law_machines_read_the_value(value: ValueView)
    ensures
        value matches ValueView::Int(number) ==> number::signed(cells::machine_text(value)) == Some(
            number as int,
        ) && cells::json_value(value) == JsonView::Int(number as int),
        value matches ValueView::Uuid(id) ==> cells::machine_text(value) == identity::uuid_text(id)
            && cells::json_value(value) == JsonView::Text(identity::uuid_text(id)),
        value matches ValueView::Str(text) ==> cells::machine_text(value) == text
            && cells::json_value(value) == JsonView::Text(text),
        value matches ValueView::Bool(yes) ==> cells::machine_text(value) == (if yes {
            "true"@
        } else {
            "false"@
        }) && cells::json_value(value) == JsonView::Bool(yes),
        value matches ValueView::DateTime(moment) ==> cells::machine_text(value) == moment.text(false)
            && cells::json_value(value) == JsonView::Text(moment.text(true)),
        value is Null ==> cells::machine_text(value).len() == 0 && cells::json_value(value)
            == JsonView::Null,
{
    if let ValueView::Int(number) = value {
        number::lemma_signed_round_trip(number as int);
    }
}

/// A member of a row under a name.
pub open spec fn says(row: RowView, name: Seq<char>, value: JsonView) -> bool {
    row.contains((name, value))
}

proof fn lemma_says(row: RowView, at: int, name: Seq<char>, value: JsonView)
    requires
        0 <= at < row.len(),
        row[at] == (name, value),
    ensures
        says(row, name, value),
{
}

/// A text that may be missing, in a document.
pub open spec fn text_or_null(value: Option<String>) -> JsonView {
    match value {
        Some(value) => JsonView::Text(value@),
        None => JsonView::Null,
    }
}

/// A number that may be missing, in a document.
pub open spec fn number_or_null(value: Option<i64>) -> JsonView {
    match value {
        Some(value) => JsonView::Int(value as int),
        None => JsonView::Null,
    }
}

/// How the end of an action is called.
pub open spec fn status_name(status: ActionStatus) -> Seq<char> {
    match status {
        ActionStatus::Success => "success"@,
        ActionStatus::Failed => "failed"@,
        ActionStatus::Cancelled => "cancelled"@,
    }
}

/// The row of a session that was acted on tells its cluster, its server, its infobase, its identity, its
/// number and how the action ended, each under its own name.
pub proof fn law_session_rows_tell_the_session(target: SessionKillTarget, status: ActionStatus)
    ensures
        ({
            let row = actions::status_row(target, status);
            let server = value::endpoint_text(
                target.ras_address@.host,
                target.ras_address@.port as nat,
            );
            &&& row.len() == 6
            &&& says(row, "cluster"@, JsonView::Text(target.cluster@))
            &&& says(row, "ras_address"@, JsonView::Text(server))
            &&& says(row, "infobase"@, text_or_null(target.infobase))
            &&& says(row, "session"@, JsonView::Text(identity::uuid_text(target.session_id@)))
            &&& says(row, "session_id"@, number_or_null(target.session_number))
            &&& says(row, "status"@, JsonView::Text(status_name(status)))
        }),
{
    let row = actions::status_row(target, status);
    let server = value::endpoint_text(target.ras_address@.host, target.ras_address@.port as nat);
    lemma_says(row, 0, "cluster"@, JsonView::Text(target.cluster@));
    lemma_says(row, 1, "ras_address"@, JsonView::Text(server));
    lemma_says(row, 2, "infobase"@, text_or_null(target.infobase));
    lemma_says(row, 3, "session"@, JsonView::Text(identity::uuid_text(target.session_id@)));
    lemma_says(row, 4, "session_id"@, number_or_null(target.session_number));
    lemma_says(row, 5, "status"@, JsonView::Text(status_name(status)));
}

/// The row of a connection that was acted on tells its cluster, its server, its infobase, its identity, its
/// number, its process and how the action ended, each under its own name.
pub proof fn law_connection_rows_tell_the_connection(
    target: ConnectionKillTarget,
    status: ActionStatus,
)
    ensures
        ({
            let row = actions::status_row(target, status);
            let server = value::endpoint_text(
                target.ras_address@.host,
                target.ras_address@.port as nat,
            );
            &&& row.len() == 7
            &&& says(row, "cluster"@, JsonView::Text(target.cluster@))
            &&& says(row, "ras_address"@, JsonView::Text(server))
            &&& says(row, "infobase"@, text_or_null(target.infobase))
            &&& says(row, "connection"@, JsonView::Text(identity::uuid_text(target.connection_id@)))
            &&& says(row, "conn_id"@, number_or_null(target.connection_number))
            &&& says(row, "process"@, JsonView::Text(identity::uuid_text(target.process_id@)))
            &&& says(row, "status"@, JsonView::Text(status_name(status)))
        }),
{
    let row = actions::status_row(target, status);
    let server = value::endpoint_text(target.ras_address@.host, target.ras_address@.port as nat);
    lemma_says(row, 0, "cluster"@, JsonView::Text(target.cluster@));
    lemma_says(row, 1, "ras_address"@, JsonView::Text(server));
    lemma_says(row, 2, "infobase"@, text_or_null(target.infobase));
    lemma_says(row, 3, "connection"@, JsonView::Text(identity::uuid_text(target.connection_id@)));
    lemma_says(row, 4, "conn_id"@, number_or_null(target.connection_number));
    lemma_says(row, 5, "process"@, JsonView::Text(identity::uuid_text(target.process_id@)));
    lemma_says(row, 6, "status"@, JsonView::Text(status_name(status)));
}

/// The row of a working process that was acted on tells its cluster, its server, its identity, its number
/// and how the action ended, each under its own name.
pub proof fn law_process_rows_tell_the_process(target: ProcessKillTarget, status: ActionStatus)
    ensures
        ({
            let row = actions::status_row(target, status);
            let server = value::endpoint_text(
                target.ras_address@.host,
                target.ras_address@.port as nat,
            );
            &&& row.len() == 5
            &&& says(row, "cluster"@, JsonView::Text(target.cluster@))
            &&& says(row, "ras_address"@, JsonView::Text(server))
            &&& says(row, "process"@, JsonView::Text(identity::uuid_text(target.process_id@)))
            &&& says(row, "pid"@, number_or_null(target.pid))
            &&& says(row, "status"@, JsonView::Text(status_name(status)))
        }),
{
    let row = actions::status_row(target, status);
    let server = value::endpoint_text(target.ras_address@.host, target.ras_address@.port as nat);
    lemma_says(row, 0, "cluster"@, JsonView::Text(target.cluster@));
    lemma_says(row, 1, "ras_address"@, JsonView::Text(server));
    lemma_says(row, 2, "process"@, JsonView::Text(identity::uuid_text(target.process_id@)));
    lemma_says(row, 3, "pid"@, number_or_null(target.pid));
    lemma_says(row, 4, "status"@, JsonView::Text(status_name(status)));
}

proof fn lemma_names_hold<T: ActionTarget>(target: T, status: ActionStatus, i: int)
    requires
        target.members_view().len() == T::own_columns().len() + 2,
        target.members_view()[0].0 == "cluster"@,
        target.members_view()[1].0 == "ras_address"@,
        forall|k: int|
            0 <= k < T::own_columns().len() ==> (#[trigger] target.members_view()[k + 2]).0
                == T::own_columns()[k],
        0 <= i < actions::action_columns::<T>().len(),
    ensures
        actions::action_columns::<T>().len() == actions::status_row(target, status).len(),
        actions::status_row(target, status)[i].0 == actions::action_columns::<T>()[i],
{
    let own = T::own_columns();
    if 2 <= i < own.len() + 2 {
        assert(target.members_view()[(i - 2) + 2].0 == own[i - 2]);
    }
}

/// The columns of an action stand above the members of its rows: each column has the name of the member
/// below it.
pub proof fn law_columns_stand_above_their_members(
    session: SessionKillTarget,
    connection: ConnectionKillTarget,
    process: ProcessKillTarget,
    status: ActionStatus,
)
    ensures
        forall|i: int|
            0 <= i < 6 ==> (#[trigger] actions::status_row(session, status)[i]).0
                == actions::action_columns::<SessionKillTarget>()[i],
        forall|i: int|
            0 <= i < 7 ==> (#[trigger] actions::status_row(connection, status)[i]).0
                == actions::action_columns::<ConnectionKillTarget>()[i],
        forall|i: int|
            0 <= i < 5 ==> (#[trigger] actions::status_row(process, status)[i]).0
                == actions::action_columns::<ProcessKillTarget>()[i],
        actions::action_columns::<SessionKillTarget>().len() == 6,
        actions::action_columns::<ConnectionKillTarget>().len() == 7,
        actions::action_columns::<ProcessKillTarget>().len() == 5,
{
    assert forall|i: int| 0 <= i < 6 implies (#[trigger] actions::status_row(session, status)[i]).0
        == actions::action_columns::<SessionKillTarget>()[i] by {
        lemma_names_hold(session, status, i);
    }
    assert forall|i: int| 0 <= i < 7 implies (#[trigger] actions::status_row(
        connection,
        status,
    )[i]).0 == actions::action_columns::<ConnectionKillTarget>()[i] by {
        lemma_names_hold(connection, status, i);
    }
    assert forall|i: int| 0 <= i < 5 implies (#[trigger] actions::status_row(process, status)[i]).0
        == actions::action_columns::<ProcessKillTarget>()[i] by {
        lemma_names_hold(process, status, i);
    }
}

/// The counts of an action are shown each under its own name; an action is partial where some targets
/// succeeded and others did not, or could not be selected.
pub proof fn law_counts_are_shown(meta: ActionMeta, unselected: int)
    ensures
        ({
            let row = actions::counts_row(meta, unselected);
            &&& row.len() == 6
            &&& says(row, "attempted"@, JsonView::Int(meta.attempted as int))
            &&& says(row, "succeeded"@, JsonView::Int(meta.succeeded as int))
            &&& says(row, "failed"@, JsonView::Int(meta.failed as int))
            &&& says(row, "cancelled"@, JsonView::Int(meta.cancelled as int))
            &&& says(row, "selection_failed"@, JsonView::Int(unselected))
            &&& says(
                row,
                "partial"@,
                JsonView::Bool(meta.partial || (unselected > 0 && meta.succeeded > 0)),
            )
        }),
{
    let row = actions::counts_row(meta, unselected);
    lemma_says(row, 0, "attempted"@, JsonView::Int(meta.attempted as int));
    lemma_says(row, 1, "succeeded"@, JsonView::Int(meta.succeeded as int));
    lemma_says(row, 2, "failed"@, JsonView::Int(meta.failed as int));
    lemma_says(row, 3, "cancelled"@, JsonView::Int(meta.cancelled as int));
    lemma_says(row, 4, "selection_failed"@, JsonView::Int(unselected));
    lemma_says(
        row,
        5,
        "partial"@,
        JsonView::Bool(meta.partial || (unselected > 0 && meta.succeeded > 0)),
    );
}

/// The counts of a query are shown each under its own name.
pub proof fn law_query_counts_are_shown(meta: QueryMeta)
    ensures
        ({
            let row = output::meta_row(meta);
            &&& row.len() == 3
            &&& says(row, "matched"@, JsonView::Int(meta.matched as int))
            &&& says(row, "returned"@, JsonView::Int(meta.returned as int))
            &&& says(row, "partial"@, JsonView::Bool(meta.partial))
        }),
{
    let row = output::meta_row(meta);
    lemma_says(row, 0, "matched"@, JsonView::Int(meta.matched as int));
    lemma_says(row, 1, "returned"@, JsonView::Int(meta.returned as int));
    lemma_says(row, 2, "partial"@, JsonView::Bool(meta.partial));
}

/// The failure of a target is shown with its cluster, its server, its code and its message, each under its
/// own name.
pub proof fn law_target_failures_are_shown(error: TargetProblem)
    ensures
        ({
            let row = output::target_error_row(error);
            let server = value::endpoint_text(error.ras_address.host, error.ras_address.port as nat);
            &&& row.len() == 4
            &&& says(row, "cluster"@, JsonView::Text(error.cluster))
            &&& says(row, "ras_address"@, JsonView::Text(server))
            &&& says(row, "code"@, JsonView::Text(error.kind.text()))
            &&& says(row, "message"@, JsonView::Text(error.message))
        }),
{
    let row = output::target_error_row(error);
    let server = value::endpoint_text(error.ras_address.host, error.ras_address.port as nat);
    lemma_says(row, 0, "cluster"@, JsonView::Text(error.cluster));
    lemma_says(row, 1, "ras_address"@, JsonView::Text(server));
    lemma_says(row, 2, "code"@, JsonView::Text(error.kind.text()));
    lemma_says(row, 3, "message"@, JsonView::Text(error.message));
}

/// A change to a configured cluster is shown with what was done, the alias, the identity and the server of
/// the cluster, and the file it was written to, each under its own name.
pub proof fn law_cluster_changes_are_shown(
    action: Seq<char>,
    target: TargetView,
    config_path: Seq<char>,
)
    ensures
        ({
            let row = dispatch::mutation_row(action, target, config_path);
            let server = value::endpoint_text(target.ras.host, target.ras.port as nat);
            &&& row.len() == 5
            &&& says(row, "action"@, JsonView::Text(action))
            &&& says(row, "cluster"@, JsonView::Text(target.alias))
            &&& says(
                row,
                "cluster_uuid"@,
                JsonView::Text(identity::uuid_text(target.discovered_cluster.uuid)),
            )
            &&& says(row, "ras_address"@, JsonView::Text(server))
            &&& says(row, "config_path"@, JsonView::Text(config_path))
        }),
{
    let row = dispatch::mutation_row(action, target, config_path);
    let server = value::endpoint_text(target.ras.host, target.ras.port as nat);
    let id = identity::uuid_text(target.discovered_cluster.uuid);
    lemma_says(row, 0, "action"@, JsonView::Text(action));
    lemma_says(row, 1, "cluster"@, JsonView::Text(target.alias));
    lemma_says(row, 2, "cluster_uuid"@, JsonView::Text(id));
    lemma_says(row, 3, "ras_address"@, JsonView::Text(server));
    lemma_says(row, 4, "config_path"@, JsonView::Text(config_path));
}

proof fn lemma_status_counts<T>(items: Seq<ActionItemOutcome<T>>, status: ActionStatus, count: int)
    requires
        0 <= count <= items.len(),
    ensures
        outcome::with_status(items, status, count) > 0 <==> exists|i: int|
            0 <= i < count && (#[trigger] items[i]).status == status,
        outcome::with_status(items, status, count) <= count,
    decreases count,
{
    if count > 0 {
        lemma_status_counts(items, status, count - 1);
        if items[count - 1].status == status {
            assert(items[count - 1].status == status);
        }
    }
}

/// An action exits as cancelled where any target was cancelled. Where every outcome was recorded and none
/// was cancelled, it exits with success where no target failed and every one was selected, as a partial
/// success where some succeeded and some failed or were not selected, and as a failure where all failed.
pub proof fn law_actions_exit_as_they_went<T>(
    items: Vec<ActionItemOutcome<T>>,
    done: ActionOutcome<T>,
    target_errors: Vec<TargetError>,
    code: AppExitCode,
)
    requires
        call_ensures(ActionOutcome::<T>::new, (items,), done),
        call_ensures(action_exit_code::<T>, (&done, &target_errors), code),
    ensures
        ({
            let cancelled = exists|i: int|
                0 <= i < items@.len() && (#[trigger] items@[i]).status == ActionStatus::Cancelled;
            let failed = exists|i: int|
                0 <= i < items@.len() && (#[trigger] items@[i]).status == ActionStatus::Failed;
            let succeeded = exists|i: int|
                0 <= i < items@.len() && (#[trigger] items@[i]).status == ActionStatus::Success;
            let recorded = done.meta.audit_failed == 0;
            &&& cancelled <==> code == AppExitCode::Cancelled
            &&& !cancelled && recorded && items@.len() == 0 ==> code == AppExitCode::NoObjects
            &&& !cancelled && recorded && succeeded && !failed && target_errors@.len() == 0 ==> code
                == AppExitCode::Success
            &&& !cancelled && recorded && succeeded && (failed || target_errors@.len() > 0) ==> code
                == AppExitCode::PartialSuccess
            &&& !cancelled && recorded && failed && !succeeded ==> code
                == AppExitCode::AllTargetsFailed
            &&& done.meta.partial <==> succeeded && (failed || cancelled)
        }),
{
    let n = items@.len() as int;
    lemma_status_counts(items@, ActionStatus::Cancelled, n);
    lemma_status_counts(items@, ActionStatus::Failed, n);
    lemma_status_counts(items@, ActionStatus::Success, n);
    outcome::law_every_item_counts_once(done.meta, done.items@);
}

/// An action goes ahead only where the operator confirmed it: a refusal and the lack of anybody to ask end
/// it as cancelled.
pub proof fn law_only_confirmed_actions_go_ahead(
    reply: Result<Confirmation, String>,
    result: Result<Approval, AppError>,
)
    requires
        call_ensures(approval_from, (reply,), result),
    ensures
        result is Ok <==> reply == Ok::<Confirmation, String>(Confirmation::Confirmed),
        reply is Ok && result is Err ==> result->Err_0@.category == AppErrorCategory::Cancelled,
        reply is Err ==> result->Err_0@.category == AppErrorCategory::Internal,
{
}

/// A failed command is shown with its code and its message, and without a cluster; each of its targets that
/// failed with its cluster, its server, its code and its message, each under its own name.
pub proof fn law_failures_are_shown(
    secrets: Seq<Seq<char>>,
    error: AppProblem,
    i: int,
)
    requires
        0 <= i < error.target_errors.len(),
    ensures
        ({
            let rows = dispatch::failure_rows(secrets, error);
            let target = error.target_errors[i];
            let server = value::endpoint_text(
                target.ras_address.host,
                target.ras_address.port as nat,
            );
            &&& rows.len() == error.target_errors.len() + 1
            &&& says(rows[0], "scope"@, JsonView::Text("command"@))
            &&& says(rows[0], "cluster"@, JsonView::Null)
            &&& says(rows[0], "ras_address"@, JsonView::Null)
            &&& says(rows[0], "code"@, JsonView::Text(error.code))
            &&& says(
                rows[0],
                "message"@,
                JsonView::Text(redaction::redacted(secrets, error.message)),
            )
            &&& says(rows[i + 1], "scope"@, JsonView::Text("target"@))
            &&& says(rows[i + 1], "cluster"@, JsonView::Text(target.cluster))
            &&& says(rows[i + 1], "ras_address"@, JsonView::Text(server))
            &&& says(rows[i + 1], "code"@, JsonView::Text(target.kind.text()))
            &&& says(
                rows[i + 1],
                "message"@,
                JsonView::Text(redaction::redacted(secrets, target.message)),
            )
        }),
{
    let rows = dispatch::failure_rows(secrets, error);
    let target = error.target_errors[i];
    let server = value::endpoint_text(target.ras_address.host, target.ras_address.port as nat);
    let told = redaction::redacted(secrets, target.message);
    lemma_says(rows[0], 0, "scope"@, JsonView::Text("command"@));
    lemma_says(rows[0], 1, "cluster"@, JsonView::Null);
    lemma_says(rows[0], 2, "ras_address"@, JsonView::Null);
    lemma_says(rows[0], 3, "code"@, JsonView::Text(error.code));
    lemma_says(
        rows[0],
        4,
        "message"@,
        JsonView::Text(redaction::redacted(secrets, error.message)),
    );
    lemma_says(rows[i + 1], 0, "scope"@, JsonView::Text("target"@));
    lemma_says(rows[i + 1], 1, "cluster"@, JsonView::Text(target.cluster));
    lemma_says(rows[i + 1], 2, "ras_address"@, JsonView::Text(server));
    lemma_says(rows[i + 1], 3, "code"@, JsonView::Text(target.kind.text()));
    lemma_says(rows[i + 1], 4, "message"@, JsonView::Text(told));
}

proof fn lemma_item_error<T: ActionTarget>(
    secrets: Seq<Seq<char>>,
    items: Seq<ItemView<T>>,
    count: int,
    i: int,
)
    requires
        0 <= i < count <= items.len(),
        items[i].error is Some,
    ensures
        actions::item_errors(secrets, items, count).contains(
            items[i].target.members_view() + actions::problem_members(
                "action"@,
                items[i].error->0.code,
                redaction::redacted(secrets, items[i].error->0.message),
            ),
        ),
    decreases count,
{
    let all = actions::item_errors(secrets, items, count);
    let row = items[i].target.members_view() + actions::problem_members(
        "action"@,
        items[i].error->0.code,
        redaction::redacted(secrets, items[i].error->0.message),
    );
    if i == count - 1 {
        assert(all.last() == row);
    } else {
        lemma_item_error(secrets, items, count - 1, i);
        let before = actions::item_errors(secrets, items, count - 1);
        let p = choose|p: int| 0 <= p < before.len() && before[p] == row;
        assert(all[p] == row);
    }
}

/// The error of every target of an action is among the errors shown, behind the members that tell the
/// target, with its stage, its code and its message, each under its own name.
pub proof fn law_target_errors_are_shown<T: ActionTarget>(
    secrets: Seq<Seq<char>>,
    result: ActionView<T>,
    errors: Seq<TargetProblem>,
    i: int,
)
    requires
        0 <= i < result.items.len(),
        result.items[i].error is Some,
    ensures
        exists|row: RowView|
            {
                &&& #[trigger] actions::action_document(secrets, result, errors).errors.contains(row)
                &&& result.items[i].target.members_view().is_prefix_of(row)
                &&& says(row, "stage"@, JsonView::Text("action"@))
                &&& says(row, "code"@, JsonView::Text(result.items[i].error->0.code))
                &&& says(
                    row,
                    "message"@,
                    JsonView::Text(
                        redaction::redacted(secrets, result.items[i].error->0.message),
                    ),
                )
            },
{
    let item = result.items[i];
    let message = redaction::redacted(secrets, item.error->0.message);
    let members = item.target.members_view();
    let row = members + actions::problem_members("action"@, item.error->0.code, message);
    let n = members.len() as int;
    lemma_item_error(secrets, result.items, result.items.len() as int, i);
    let own = actions::item_errors(secrets, result.items, result.items.len() as int);
    let all = actions::action_document(secrets, result, errors).errors;
    let p = choose|p: int| 0 <= p < own.len() && own[p] == row;
    assert(all[p] == row);
    assert(all.contains(row));
    lemma_says(row, n, "stage"@, JsonView::Text("action"@));
    lemma_says(row, n + 1, "code"@, JsonView::Text(item.error->0.code));
    lemma_says(row, n + 2, "message"@, JsonView::Text(message));
}

/// A list exits with success where every target answered, as a partial success where only some did, and as
/// a failure where none did and nothing was found.
pub proof fn law_lists_exit_as_they_went<T>(found: QueryOutcome<T>)
    ensures
        found.meta.partial ==> found.exit_code_of() == AppExitCode::PartialSuccess,
        !found.meta.partial && found.errors@.len() == 0 ==> found.exit_code_of()
            == AppExitCode::Success,
        !found.meta.partial && found.errors@.len() > 0 && found.data@.len() == 0
            ==> found.exit_code_of() == AppExitCode::AllTargetsFailed,
{
}

} // verus!
