//! What a plan is for: it names the very objects that were found, each with its own identity, and what
//! becomes of each is recorded under that identity.

use vstd::prelude::*;
use vstd::string::*;

use crate::application::connections::{
    audit_connection_outcome, connections_for_target, prepare_connection_kill,
    ConnectionKillRequest, PreparedConnectionKill,
};
use crate::application::conversion;
use crate::application::conversion::{ConfiguredTarget, ConfiguredView};
use crate::application::error::AppError;
use crate::application::kill;
use crate::application::kill::{home_cluster, GroupStep, GroupView, KillTarget};
use crate::application::listing;
use crate::application::outcome::{ActionItemOutcome, ActionProblem, ActionStatus};
use crate::application::processes::{
    prepare_process_kill, PreparedProcessKill, ProcessKillRequest,
};
use crate::application::sessions::{
    audit_session_outcome, prepare_session_kill, sessions_for_target, PreparedSessionKill,
    SessionKillRequest,
};
use crate::application::targets::LiveCluster;
use crate::domain::kill as plans;
use crate::domain::kill::{
    ConnectionKillTarget, ProcessKillTarget, SessionKillTarget, SnapshotId,
};
use crate::domain::model::{ConnectionRecord, InfobaseRecord, ProcessRecord, SessionRecord};
use crate::domain::outcome::{QueryOutcome, TargetError};
use crate::domain::timestamp::Timestamp;
use crate::infrastructure::rac::error::{RacError, RacErrorKind, RacErrorView};
use crate::infrastructure::rac::parser::RacRecord;
use crate::infrastructure::telemetry::audit::{AuditEvent, AuditResult};
use crate::outcome;
use crate::text;

verus! {

/// A target is a session as it was found: its identity, its number, its infobase, its cluster and the
/// server it is reached through.
pub open spec fn is_session(target: SessionKillTarget, record: SessionRecord) -> bool {
    &&& target.session_id@ == record.session@
    &&& target.session_number == record.session_id
    &&& target.infobase == record.infobase
    &&& target.infobase_uuid == record.infobase_uuid
    &&& target.cluster == record.source.cluster
    &&& target.cluster_uuid@ == record.source.cluster_uuid@
    &&& target.ras_address == record.source.ras_address
}

/// A target is a connection as it was found: its identity with that of its process, its number, its
/// infobase, its cluster and the server it is reached through.
pub open spec fn is_connection(target: ConnectionKillTarget, record: ConnectionRecord) -> bool {
    &&& target.connection_id@ == record.connection@
    &&& target.process_id@ == record.process@
    &&& target.connection_number == record.conn_id
    &&& target.infobase == record.infobase
    &&& Some(target.infobase_uuid) == record.infobase_uuid
    &&& target.cluster == record.source.cluster
    &&& target.cluster_uuid@ == record.source.cluster_uuid@
    &&& target.ras_address == record.source.ras_address
}

/// A target is a working process as it was found: its identity, its number, its cluster and the server
/// it is reached through.
pub open spec fn is_process(target: ProcessKillTarget, record: ProcessRecord) -> bool {
    &&& target.process_id@ == record.process@
    &&& target.pid == record.pid
    &&& target.cluster == record.source.cluster
    &&& target.cluster_uuid@ == record.source.cluster_uuid@
    &&& target.ras_address == record.source.ras_address
}

/// Two sessions are one: the same identity in the same cluster.
pub open spec fn is_same_session(left: SessionRecord, right: SessionRecord) -> bool {
    left.session@ == right.session@ && left.source.cluster_uuid@ == right.source.cluster_uuid@
}

/// Two connections are one: the same identity of the same process in the same cluster.
pub open spec fn is_same_connection(left: ConnectionRecord, right: ConnectionRecord) -> bool {
    left.connection@ == right.connection@ && left.process@ == right.process@
        && left.source.cluster_uuid@ == right.source.cluster_uuid@
}

/// Two working processes are one: the same identity in the same cluster.
pub open spec fn is_same_process(left: ProcessRecord, right: ProcessRecord) -> bool {
    left.process@ == right.process@ && left.source.cluster_uuid@ == right.source.cluster_uuid@
}

/// A plan of sessions holds every session that was found, in the order of the list, and nothing else. Its
/// users are told the message of the request.
pub proof fn law_planned_sessions_are_those_found(
    request: SessionKillRequest,
    snapshot_id: SnapshotId,
    found: QueryOutcome<SessionRecord>,
    prepared: PreparedSessionKill,
)
    requires
        call_ensures(
            prepare_session_kill,
            (&request, snapshot_id, found),
            Ok::<PreparedSessionKill, AppError>(prepared),
        ),
    ensures
        prepared.plan@.targets.len() == found.data@.len(),
        forall|i: int|
            0 <= i < found.data@.len() ==> is_session(
                #[trigger] prepared.plan@.targets[i],
                found.data@[i],
            ),
        prepared.plan@.snapshot_id == snapshot_id@,
        request.message is Some ==> prepared.plan@.message == request.message->0@,
        prepared.records@ == found.data@,
        prepared.target_errors@ == found.errors@,
{
}

/// A plan of sessions is made exactly where the request asks for certain sessions, some were found, each
/// has an identity, and none was found twice.
pub proof fn law_when_sessions_are_planned(
    request: SessionKillRequest,
    snapshot_id: SnapshotId,
    found: QueryOutcome<SessionRecord>,
    result: Result<PreparedSessionKill, AppError>,
)
    requires
        call_ensures(prepare_session_kill, (&request, snapshot_id, found), result),
    ensures
        result is Ok <==> {
            &&& request.selection.is_narrow()
            &&& found.data@.len() > 0
            &&& forall|i: int|
                0 <= i < found.data@.len() ==> (#[trigger] found.data@[i]).session@ != 0
            &&& forall|i: int, j: int|
                0 <= i < j < found.data@.len() ==> !is_same_session(
                    #[trigger] found.data@[i],
                    #[trigger] found.data@[j],
                )
        },
{
    let targets = plans::session_targets(found.data@);
    assert(targets.len() == found.data@.len());
    assert forall|i: int| 0 <= i < targets.len() implies (#[trigger] targets[i]).session_id
        == found.data@[i].session && targets[i].cluster_uuid
        == found.data@[i].source.cluster_uuid by {}
    if plans::some_nil_session(targets) {
        let i = choose|i: int| 0 <= i < targets.len() && (#[trigger] targets[i]).session_id@ == 0;
        assert(found.data@[i].session@ == 0);
    } else {
        assert forall|i: int| 0 <= i < found.data@.len() implies (
        #[trigger] found.data@[i]).session@ != 0 by {
            assert(targets[i].session_id@ != 0);
        }
    }
    if plans::distinct_sessions(targets) {
        assert forall|i: int, j: int| 0 <= i < j < found.data@.len() implies !is_same_session(
            #[trigger] found.data@[i],
            #[trigger] found.data@[j],
        ) by {
            assert(!plans::same_session(targets[i], targets[j]));
        }
    } else {
        let (i, j) = choose|i: int, j: int|
            0 <= i < j < targets.len() && plans::same_session(
                #[trigger] targets[i],
                #[trigger] targets[j],
            );
        assert(is_same_session(found.data@[i], found.data@[j]));
    }
}

proof fn lemma_connection_targets(records: Seq<ConnectionRecord>, count: int)
    requires
        0 <= count <= records.len(),
    ensures
        plans::connection_targets(records, count) is Ok ==> {
            let targets = plans::connection_targets(records, count)->Ok_0;
            &&& targets.len() == count
            &&& forall|i: int|
                0 <= i < count ==> is_connection(#[trigger] targets[i], records[i])
        },
        plans::connection_targets(records, count) is Ok <==> forall|i: int|
            0 <= i < count ==> has_identities(#[trigger] records[i]),
    decreases count,
{
    if count > 0 {
        lemma_connection_targets(records, count - 1);
        assert(has_identities(records[count - 1]) <==> plans::connection_target(
            records[count - 1],
        ) is Ok);
    }
}

/// A connection has what breaking it takes: the identities of its infobase, of its process and its own.
pub open spec fn has_identities(record: ConnectionRecord) -> bool {
    &&& record.infobase_uuid is Some
    &&& record.infobase_uuid->0@ != 0
    &&& record.process@ != 0
    &&& record.connection@ != 0
}

/// A plan of connections holds every connection that was found, in the order of the list, and nothing
/// else.
pub proof fn law_planned_connections_are_those_found(
    request: ConnectionKillRequest,
    snapshot_id: SnapshotId,
    found: QueryOutcome<ConnectionRecord>,
    prepared: PreparedConnectionKill,
)
    requires
        call_ensures(
            prepare_connection_kill,
            (&request, snapshot_id, found),
            Ok::<PreparedConnectionKill, AppError>(prepared),
        ),
    ensures
        prepared.plan@.targets.len() == found.data@.len(),
        forall|i: int|
            0 <= i < found.data@.len() ==> is_connection(
                #[trigger] prepared.plan@.targets[i],
                found.data@[i],
            ),
        prepared.plan@.snapshot_id == snapshot_id@,
        prepared.records@ == found.data@,
        prepared.target_errors@ == found.errors@,
{
    lemma_connection_targets(found.data@, found.data@.len() as int);
}

/// A plan of connections is made exactly where the request asks for certain connections, some were found,
/// each has all its identities, and none was found twice.
pub proof fn law_when_connections_are_planned(
    request: ConnectionKillRequest,
    snapshot_id: SnapshotId,
    found: QueryOutcome<ConnectionRecord>,
    result: Result<PreparedConnectionKill, AppError>,
)
    requires
        call_ensures(prepare_connection_kill, (&request, snapshot_id, found), result),
    ensures
        result is Ok <==> {
            &&& request.selection.is_narrow()
            &&& found.data@.len() > 0
            &&& forall|i: int| 0 <= i < found.data@.len() ==> has_identities(#[trigger] found.data@[i])
            &&& forall|i: int, j: int|
                0 <= i < j < found.data@.len() ==> !is_same_connection(
                    #[trigger] found.data@[i],
                    #[trigger] found.data@[j],
                )
        },
{
    let records = found.data@;
    lemma_connection_targets(records, records.len() as int);
    let read = plans::connection_targets(records, records.len() as int);
    if read is Ok {
        let targets = read->Ok_0;
        if plans::distinct_connections(targets) {
            assert forall|i: int, j: int| 0 <= i < j < records.len() implies !is_same_connection(
                #[trigger] records[i],
                #[trigger] records[j],
            ) by {
                assert(is_connection(targets[i], records[i]));
                assert(is_connection(targets[j], records[j]));
                assert(!plans::same_connection(targets[i], targets[j]));
            }
        } else {
            let (i, j) = choose|i: int, j: int|
                0 <= i < j < targets.len() && plans::same_connection(
                    #[trigger] targets[i],
                    #[trigger] targets[j],
                );
            assert(is_same_connection(records[i], records[j]));
        }
    }
}

/// A plan of working processes holds every process that was found, in the order of the list, and nothing
/// else.
pub proof fn law_planned_processes_are_those_found(
    request: ProcessKillRequest,
    snapshot_id: SnapshotId,
    found: QueryOutcome<ProcessRecord>,
    prepared: PreparedProcessKill,
)
    requires
        call_ensures(
            prepare_process_kill,
            (&request, snapshot_id, found),
            Ok::<PreparedProcessKill, AppError>(prepared),
        ),
    ensures
        prepared.plan@.targets.len() == found.data@.len(),
        forall|i: int|
            0 <= i < found.data@.len() ==> is_process(
                #[trigger] prepared.plan@.targets[i],
                found.data@[i],
            ),
        prepared.plan@.snapshot_id == snapshot_id@,
        prepared.records@ == found.data@,
        prepared.target_errors@ == found.errors@,
{
}

/// A plan of working processes is made exactly where the request asks for certain processes, some were
/// found, each has an identity, and none was found twice.
pub proof fn law_when_processes_are_planned(
    request: ProcessKillRequest,
    snapshot_id: SnapshotId,
    found: QueryOutcome<ProcessRecord>,
    result: Result<PreparedProcessKill, AppError>,
)
    requires
        call_ensures(prepare_process_kill, (&request, snapshot_id, found), result),
    ensures
        result is Ok <==> {
            &&& request.selection.is_narrow()
            &&& found.data@.len() > 0
            &&& forall|i: int|
                0 <= i < found.data@.len() ==> (#[trigger] found.data@[i]).process@ != 0
            &&& forall|i: int, j: int|
                0 <= i < j < found.data@.len() ==> !is_same_process(
                    #[trigger] found.data@[i],
                    #[trigger] found.data@[j],
                )
        },
{
    let targets = plans::process_targets(found.data@);
    assert(targets.len() == found.data@.len());
    assert forall|i: int| 0 <= i < targets.len() implies (#[trigger] targets[i]).process_id
        == found.data@[i].process && targets[i].cluster_uuid
        == found.data@[i].source.cluster_uuid by {}
    if plans::some_nil_process(targets) {
        let i = choose|i: int| 0 <= i < targets.len() && (#[trigger] targets[i]).process_id@ == 0;
        assert(found.data@[i].process@ == 0);
    } else {
        assert forall|i: int| 0 <= i < found.data@.len() implies (
        #[trigger] found.data@[i]).process@ != 0 by {
            assert(targets[i].process_id@ != 0);
        }
    }
    if plans::distinct_processes(targets) {
        assert forall|i: int, j: int| 0 <= i < j < found.data@.len() implies !is_same_process(
            #[trigger] found.data@[i],
            #[trigger] found.data@[j],
        ) by {
            assert(!plans::same_process(targets[i], targets[j]));
        }
    } else {
        let (i, j) = choose|i: int, j: int|
            0 <= i < j < targets.len() && plans::same_process(
                #[trigger] targets[i],
                #[trigger] targets[j],
            );
        assert(is_same_process(found.data@[i], found.data@[j]));
    }
}

/// A query asks for certain records: it holds a condition or a text to search for.
pub open spec fn asks_for_certain(filters: nat, searches: bool) -> bool {
    filters > 0 || searches
}

/// A request with any selector of its own asks for certain sessions, connections or processes; one
/// without selectors and without a query never does, whatever its clusters.
pub proof fn law_selectors_make_requests_narrow(
    session: SessionKillRequest,
    connection: ConnectionKillRequest,
    process: ProcessKillRequest,
)
    ensures
        session.selection.query is None ==> (session.selection.is_narrow() <==> {
            ||| session.selection.id is Some
            ||| session.selection.number is Some
            ||| session.selection.infobase is Some
            ||| session.selection.user is Some
            ||| session.selection.host is Some
            ||| session.selection.app is Some
        }),
        session.selection.query is Some && asks_for_certain(
            session.selection.query->0@.filters.len(),
            session.selection.query->0@.text_query is Some,
        ) ==> session.selection.is_narrow(),
        connection.selection.query is None ==> (connection.selection.is_narrow() <==> {
            ||| connection.selection.id is Some
            ||| connection.selection.number is Some
            ||| connection.selection.infobase is Some
            ||| connection.selection.process is Some
            ||| connection.selection.host is Some
            ||| connection.selection.application is Some
        }),
        connection.selection.query is Some && asks_for_certain(
            connection.selection.query->0@.filters.len(),
            connection.selection.query->0@.text_query is Some,
        ) ==> connection.selection.is_narrow(),
        process.selection.query is None ==> (process.selection.is_narrow() <==> {
            ||| process.selection.id is Some
            ||| process.selection.pid is Some
            ||| process.selection.server is Some
        }),
        process.selection.query is Some && asks_for_certain(
            process.selection.query->0@.filters.len(),
            process.selection.query->0@.text_query is Some,
        ) ==> process.selection.is_narrow(),
{
}

proof fn lemma_home_position<T: KillTarget>(configured: Seq<ConfiguredView>, target: T, from: int)
    requires
        0 <= from <= configured.len(),
    ensures
        ({
            let at = kill::home_position(configured, target, from);
            &&& from <= at <= configured.len()
            &&& at < configured.len() ==> is_home(configured[at], target)
            &&& forall|i: int| from <= i < at ==> !is_home(#[trigger] configured[i], target)
        }),
    decreases configured.len() - from,
{
    if from < configured.len() && !is_home(configured[from], target) {
        lemma_home_position(configured, target, from + 1);
    }
}

/// A configured cluster is that of a target: the same alias, but for ASCII case, and the same identity.
pub open spec fn is_home<T: KillTarget>(configured: ConfiguredView, target: T) -> bool {
    &&& text::same_ignoring_ascii_case(configured.target.alias, target.alias_view())
    &&& configured.target.discovered_cluster.uuid == target.cluster_view()
}

/// A target is acted on through a configured cluster with its own alias and identity, and not at all
/// where there is none.
pub proof fn law_targets_stay_in_their_clusters<T: KillTarget>(
    configured: Vec<ConfiguredTarget>,
    target: T,
    result: Option<&ConfiguredTarget>,
    i: int,
)
    requires
        call_ensures(home_cluster::<T>, (&configured, &target), result),
        0 <= i < configured@.len(),
    ensures
        result is Some ==> is_home(result->0@, target),
        is_home(configured@[i]@, target) ==> result is Some,
{
    let views = conversion::configured_views(configured@);
    lemma_home_position(views, target, 0);
    assert(views[i] == configured@[i]@);
}

/// A command that came to an end decides the target it was run for: it succeeded where there was no
/// error, was cancelled where the error says so, and failed with that error otherwise. A target whose
/// group failed as a whole fails with that failure, and no command is run for it.
pub proof fn law_outcomes_are_those_of_the_command<T>(
    run: GroupView<T>,
    failure: Option<RacErrorView>,
    cancelled: bool,
)
    requires
        run.pending is None,
        run.done.len() < run.targets.len(),
    ensures
        ({
            let target = run.targets[run.done.len() as int].1;
            let item = run.ran(failure).pending->0;
            &&& run.ran(failure).pending is Some
            &&& item.target == target
            &&& item.audit_error is None
            &&& failure is None ==> item.status == ActionStatus::Success && item.error is None
            &&& failure is Some && failure->0.kind == RacErrorKind::Cancelled ==> item.status
                == ActionStatus::Cancelled
            &&& failure is Some && failure->0.kind != RacErrorKind::Cancelled ==> item.status
                == ActionStatus::Failed && item.error is Some && item.error->0.message
                == failure->0.text()
        }),
        ({
            let target = run.targets[run.done.len() as int].1;
            let (next, step) = run.begun(cancelled);
            &&& run.failure is None && !cancelled ==> step == GroupStep::Run && next == run
            &&& run.failure is Some ==> step == GroupStep::Record && next.pending is Some
                && next.pending->0.target == target && next.pending->0.status
                == ActionStatus::Failed && next.pending->0.error == run.failure
            &&& run.failure is None && cancelled ==> step == GroupStep::Record && next.pending is Some
                && next.pending->0.target == target && next.pending->0.status
                == ActionStatus::Cancelled
        }),
{
}

/// A recorded outcome goes to its target, with what kept it from being recorded, and changes neither its
/// status nor its error.
pub proof fn law_recording_keeps_the_outcome<T>(run: GroupView<T>, failure: Option<ActionProblem>)
    requires
        run.pending is Some,
        run.done.len() < run.targets.len(),
    ensures
        ({
            let next = run.recorded(failure);
            let (at, item) = next.done.last();
            &&& next.pending is None
            &&& next.done.len() == run.done.len() + 1
            &&& next.done.drop_last() == run.done
            &&& at == run.targets[run.done.len() as int].0
            &&& item.target == run.pending->0.target
            &&& item.status == run.pending->0.status
            &&& item.error == run.pending->0.error
            &&& failure is Some ==> item.audit_error == failure
            &&& failure is None ==> item.audit_error == run.pending->0.audit_error
        }),
{
    assert(run.recorded(failure).done.drop_last() =~= run.done);
}

/// How the end of an action is told in its record.
pub open spec fn is_told(status: ActionStatus, result: AuditResult) -> bool {
    match status {
        ActionStatus::Success => result == AuditResult::Success,
        ActionStatus::Failed => result == AuditResult::Failure,
        ActionStatus::Cancelled => result == AuditResult::Cancelled,
    }
}

/// The record of a terminated session tells the session, its infobase and its cluster, who did it and
/// when, the message, how it ended, and the error where there was one.
pub proof fn law_session_records_tell_the_session(
    timestamp: Timestamp,
    windows_user: &str,
    message: &str,
    item: ActionItemOutcome<SessionKillTarget>,
    event: AuditEvent,
)
    requires
        call_ensures(audit_session_outcome, (timestamp, windows_user, message, &item), event),
    ensures
        event@.timestamp == timestamp,
        event@.windows_user == windows_user@,
        event@.action == "session_kill"@,
        is_told(item.status, event@.result),
        event@.context.session_uuid == Some(item.target.session_id@),
        event@.context.connection_uuid is None,
        event@.context.cluster_uuid == Some(item.target.cluster_uuid@),
        event@.context.cluster_alias == Some(item.target.cluster@),
        event@.context.infobase_uuid == outcome::option_view(item.target.infobase_uuid),
        event@.context.infobase_name == outcome::option_view(item.target.infobase),
        event@.context.message == Some(message@),
        item.target.session_number is Some && item.target.session_number->0 >= 0
            ==> event@.context.numeric_id is Some && event@.context.numeric_id->0
            == item.target.session_number->0,
        !(item.target.session_number is Some && item.target.session_number->0 >= 0)
            ==> event@.context.numeric_id is None,
        item.error is None ==> event@.error is None && event@.error_code is None,
        item.error is Some ==> event@.error == Some(item.error->0@.message) && event@.error_code
            == Some(item.error->0@.code),
{
}

/// The record of a broken connection tells the connection, its infobase and its cluster, who did it and
/// when, how it ended, and the error where there was one.
pub proof fn law_connection_records_tell_the_connection(
    timestamp: Timestamp,
    windows_user: &str,
    item: ActionItemOutcome<ConnectionKillTarget>,
    event: AuditEvent,
)
    requires
        call_ensures(audit_connection_outcome, (timestamp, windows_user, &item), event),
    ensures
        event@.timestamp == timestamp,
        event@.windows_user == windows_user@,
        event@.action == "connection_kill"@,
        is_told(item.status, event@.result),
        event@.context.connection_uuid == Some(item.target.connection_id@),
        event@.context.session_uuid is None,
        event@.context.cluster_uuid == Some(item.target.cluster_uuid@),
        event@.context.cluster_alias == Some(item.target.cluster@),
        event@.context.infobase_uuid == Some(item.target.infobase_uuid@),
        event@.context.infobase_name == outcome::option_view(item.target.infobase),
        item.target.connection_number is Some && item.target.connection_number->0 >= 0
            ==> event@.context.numeric_id is Some && event@.context.numeric_id->0
            == item.target.connection_number->0,
        !(item.target.connection_number is Some && item.target.connection_number->0 >= 0)
            ==> event@.context.numeric_id is None,
        item.error is None ==> event@.error is None && event@.error_code is None,
        item.error is Some ==> event@.error == Some(item.error->0@.message) && event@.error_code
            == Some(item.error->0@.code),
{
}

proof fn lemma_infobase_name(infobases: Seq<InfobaseRecord>, uuid: u128, count: int)
    requires
        0 <= count <= infobases.len(),
    ensures
        ({
            let name = listing::infobase_name(infobases, uuid, count);
            &&& name is Some ==> exists|i: int|
                0 <= i < count && (#[trigger] infobases[i]).infobase_uuid@ == uuid
                    && infobases[i].infobase@ == name->0
            &&& name is None ==> forall|i: int|
                0 <= i < count ==> (#[trigger] infobases[i]).infobase_uuid@ != uuid
        }),
    decreases count,
{
    if count > 0 && infobases[count - 1].infobase_uuid@ != uuid {
        lemma_infobase_name(infobases, uuid, count - 1);
    }
}

/// The name is that of an infobase with the identity; there is no name where none has it.
pub open spec fn is_name_of(name: Option<String>, uuid: Option<u128>, infobases: Seq<InfobaseRecord>) -> bool {
    match name {
        Some(name) => uuid is Some && exists|i: int|
            0 <= i < infobases.len() && (#[trigger] infobases[i]).infobase_uuid@ == uuid->0
                && infobases[i].infobase@ == name@,
        None => uuid is None || forall|i: int|
            0 <= i < infobases.len() ==> (#[trigger] infobases[i]).infobase_uuid@ != uuid->0,
    }
}

/// A session in an answer bears the name of the infobase whose identity it has, and comes from the
/// cluster that was asked.
pub proof fn law_listed_sessions_bear_their_infobase(
    configured: ConfiguredTarget,
    live: LiveCluster,
    infobases: Vec<InfobaseRecord>,
    reply: Result<Vec<RacRecord>, RacError>,
    result: Vec<SessionRecord>,
    i: int,
)
    requires
        call_ensures(
            sessions_for_target,
            (&configured, &live, &infobases, &reply),
            Ok::<Vec<SessionRecord>, TargetError>(result),
        ),
        0 <= i < result@.len(),
    ensures
        result@[i].source == live.source,
        is_name_of(
            result@[i].infobase,
            outcome::option_view(result@[i].infobase_uuid),
            infobases@,
        ),
{
    if result@[i].infobase_uuid is Some {
        lemma_infobase_name(infobases@, result@[i].infobase_uuid->0@, infobases@.len() as int);
    }
}

/// A connection in an answer bears the name of the infobase whose identity it has, and comes from the
/// cluster that was asked.
pub proof fn law_listed_connections_bear_their_infobase(
    configured: ConfiguredTarget,
    live: LiveCluster,
    infobases: Vec<InfobaseRecord>,
    reply: Result<Vec<RacRecord>, RacError>,
    result: Vec<ConnectionRecord>,
    i: int,
)
    requires
        call_ensures(
            connections_for_target,
            (&configured, &live, &infobases, &reply),
            Ok::<Vec<ConnectionRecord>, TargetError>(result),
        ),
        0 <= i < result@.len(),
    ensures
        result@[i].source == live.source,
        is_name_of(
            result@[i].infobase,
            outcome::option_view(result@[i].infobase_uuid),
            infobases@,
        ),
{
    if result@[i].infobase_uuid is Some {
        lemma_infobase_name(infobases@, result@[i].infobase_uuid->0@, infobases@.len() as int);
    }
}

} // verus!
