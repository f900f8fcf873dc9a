//! Connections: asking for them and breaking them.

use vstd::prelude::*;
use vstd::string::*;

use crate::application::conversion;
use crate::application::conversion::{ConfiguredTarget, ConfiguredView, RacOptions};
use crate::application::error::{AppError, AppProblem};
use crate::application::kill;
use crate::application::listing;
use crate::application::listing::{
    repeated_identity, Identities, Identity, InfobaseNames,
};
use crate::application::normalize;
use crate::application::normalize::{Fields, NormalizationProblem};
use crate::application::outcome::{
    ActionError, ActionItemOutcome, ActionOutcome, ActionProblem, ItemView,
};
use crate::application::sessions;
use crate::application::sessions::numeric_id;
use crate::application::targets;
use crate::application::targets::{
    asked_query_narrows, fail_command, fail_target, mask_operand, narrow, ClusterSelector,
    LiveCluster,
};
use crate::domain::auth::AuthView;
use crate::domain::error::DomainErrorView;
use crate::domain::field_value::FieldValue;
use crate::domain::fields::{FieldRegistry, FilterOperator};
use crate::domain::identity::{ConnectionUuid, ProcessUuid};
use crate::domain::kill as plans;
use crate::domain::kill::{
    ConnectionKillPlan, ConnectionKillTarget, ConnectionPlanView, SnapshotId,
};
use crate::domain::mask::SqlMask;
use crate::domain::model::{ClusterSource, InfobaseRecord, RecordKind, ConnectionRecord};
use crate::domain::outcome::{QueryOutcome, TargetError, TargetErrorKind};
use crate::domain::query::{QuerySpec, QuerySpecView};
use crate::domain::timestamp::Timestamp;
use crate::infrastructure::rac::arguments::RacCredentials;
use crate::infrastructure::rac::error::RacError;
use crate::infrastructure::rac::locator::clone_text;
use crate::infrastructure::rac::parser::RacRecord;
use crate::infrastructure::telemetry::audit::{AuditContext, AuditEvent, ContextView, EventView};
use crate::infrastructure::telemetry::audit_actions;
use crate::outcome;

verus! {

/// Which connections are asked for.
pub struct ConnectionListRequest {
    pub clusters: ClusterSelector,
    pub infobase: Option<SqlMask>,
    pub id: Option<ConnectionUuid>,
    pub number: Option<i64>,
    pub host: Option<SqlMask>,
    pub application: Option<SqlMask>,
    pub process: Option<ProcessUuid>,
    pub query: Option<QuerySpec>,
    pub rac_options: RacOptions,
}

impl Default for ConnectionListRequest {
    fn default() -> (result: Self)
        ensures
            !result.is_narrow(),
            result.clusters@ is None,
            result.query is None,
            result.rac_options.explicit_path is None,
    {
        ConnectionListRequest {
            clusters: ClusterSelector::all(),
            infobase: None,
            id: None,
            number: None,
            host: None,
            application: None,
            process: None,
            query: None,
            rac_options: RacOptions::default(),
        }
    }
}

impl ConnectionListRequest {
    /// Whether the request is for certain connections, not for all of its clusters.
    pub open spec fn is_narrow(self) -> bool {
        ||| self.infobase is Some
        ||| self.id is Some
        ||| self.number is Some
        ||| self.host is Some
        ||| self.application is Some
        ||| self.process is Some
        ||| targets::query_narrows(outcome::option_view(self.query))
    }

    pub fn has_destructive_selector(&self) -> (result: bool)
        ensures
            result == self.is_narrow(),
    {
        self.infobase.is_some() || self.id.is_some() || self.number.is_some() || self.host.is_some()
            || self.application.is_some() || self.process.is_some() || asked_query_narrows(
            &self.query,
        )
    }

    /// The query that a request stands for: its own, with a condition for each of its selectors.
    pub open spec fn query_view(self) -> Result<QuerySpecView, AppProblem> {
        let base = targets::query_for(RecordKind::Connection, outcome::option_view(self.query));
        let by_id = targets::narrowed(
            base,
            "connection"@,
            FilterOperator::Eq,
            sessions::uuid_operand(outcome::option_view(self.id)),
        );
        let by_number = targets::narrowed(
            by_id,
            "conn_id"@,
            FilterOperator::Eq,
            sessions::int_operand(self.number),
        );
        let by_process = targets::narrowed(
            by_number,
            "process"@,
            FilterOperator::Eq,
            sessions::uuid_operand(outcome::option_view(self.process)),
        );
        let by_infobase = targets::narrowed(
            by_process,
            "infobase"@,
            FilterOperator::Like,
            targets::mask_value(outcome::option_view(self.infobase)),
        );
        let by_host = targets::narrowed(
            by_infobase,
            "host"@,
            FilterOperator::Like,
            targets::mask_value(outcome::option_view(self.host)),
        );
        targets::narrowed(
            by_host,
            "application"@,
            FilterOperator::Like,
            targets::mask_value(outcome::option_view(self.application)),
        )
    }
}

/// The query that a request stands for.
pub fn connection_query(request: &ConnectionListRequest, registry: &FieldRegistry) -> (result: Result<
    QuerySpec,
    AppError,
>)
    ensures
        outcome::result_view(result) == request.query_view(),
{
    let id = match request.id {
        Some(id) => Some(FieldValue::Uuid(id.into_uuid())),
        None => None,
    };
    let number = match request.number {
        Some(number) => Some(FieldValue::Int(number)),
        None => None,
    };
    let process = match request.process {
        Some(id) => Some(FieldValue::Uuid(id.into_uuid())),
        None => None,
    };
    let asked = targets::resolved_query_spec(RecordKind::Connection, &request.query, registry);
    let asked = narrow(asked, "connection", FilterOperator::Eq, id, registry);
    let asked = narrow(asked, "conn_id", FilterOperator::Eq, number, registry);
    let asked = narrow(asked, "process", FilterOperator::Eq, process, registry);
    let asked = narrow(
        asked,
        "infobase",
        FilterOperator::Like,
        mask_operand(&request.infobase),
        registry,
    );
    let asked = narrow(asked, "host", FilterOperator::Like, mask_operand(&request.host), registry);
    narrow(
        asked,
        "application",
        FilterOperator::Like,
        mask_operand(&request.application),
        registry,
    )
}

/// The identities of the connections in an answer.
pub open spec fn connection_ids(records: Seq<Fields>) -> Seq<Identity> {
    records.map_values(
        |record: Fields| match normalize::connection_identity_of(record) {
            Ok((connection, _)) => Ok::<u128, NormalizationProblem>(connection),
            Err(problem) => Err::<u128, NormalizationProblem>(problem),
        },
    )
}

/// Whether a connection is the one that a record tells of, with the name of its infobase.
pub open spec fn is_listed_connection(
    item: ConnectionRecord,
    record: Fields,
    source: ClusterSource,
    infobases: Seq<InfobaseRecord>,
) -> bool {
    &&& normalize::is_connection_of(ConnectionRecord { infobase: None, ..item }, record, source)
    &&& normalize::connection_identity_of(record) == Ok::<_, NormalizationProblem>(
        (item.connection@, item.process@),
    )
    &&& outcome::option_view(item.infobase) == (match item.infobase_uuid {
        Some(uuid) => listing::infobase_name(infobases, uuid@, infobases.len() as int),
        None => None,
    })
}

/// Reads the connections of a target.
pub fn connections_for_target(
    configured: &ConfiguredTarget,
    live: &LiveCluster,
    infobases: &Vec<InfobaseRecord>,
    reply: &Result<Vec<RacRecord>, RacError>,
) -> (result: Result<Vec<ConnectionRecord>, TargetError>)
    ensures
        ({
            let records = listing::answer_records(*reply);
            match listing::answer_problem(
                configured@,
                *reply,
                connection_ids(records),
                "RAC вернул повторяющийся UUID соединения "@,
            ) {
                Some(problem) => result is Err && result->Err_0@ == problem,
                None => {
                    &&& result is Ok
                    &&& result->Ok_0@.len() == records.len()
                    &&& forall|i: int|
                        0 <= i < records.len() ==> is_listed_connection(
                            #[trigger] result->Ok_0@[i],
                            records[i],
                            live.source,
                            infobases@,
                        )
                },
            }
        }),
{
    let records = match reply {
        Ok(records) => records,
        Err(error) => {
            return Err(fail_command(configured, error));
        },
    };
    let names = InfobaseNames::new(infobases);
    let ghost views = targets::record_views(records@);
    let ghost ids = connection_ids(views);
    let ghost repeated = "RAC вернул повторяющийся UUID соединения "@;
    let mut seen = Identities::new();
    let mut result: Vec<ConnectionRecord> = Vec::new();
    let mut i: usize = 0;
    assert(ids.take(0) =~= Seq::<Identity>::empty());
    while i < records.len()
        invariant
            i <= records.len(),
            views == targets::record_views(records@),
            ids == connection_ids(views),
            repeated == "RAC вернул повторяющийся UUID соединения "@,
            *reply == Ok::<Vec<RacRecord>, RacError>(*records),
            forall|uuid: u128| #[trigger]
                names.name(uuid) == listing::infobase_name(
                    infobases@,
                    uuid,
                    infobases@.len() as int,
                ),
            listing::first_unusable(ids, repeated, i as int) is None,
            listing::holds_identities(seen@, ids, i as int),
            result@.len() == i,
            forall|j: int|
                0 <= j < i ==> is_listed_connection(
                    #[trigger] result@[j],
                    views[j],
                    live.source,
                    infobases@,
                ),
        decreases records.len() - i,
    {
        assert(views[i as int] == records@[i as int]@);
        let mut item = match normalize::normalize_connection(&records[i], live.source.clone()) {
            Ok(item) => item,
            Err(error) => {
                proof {
                    listing::lemma_unusable_stays(ids, repeated, i + 1, records@.len() as int);
                }
                return Err(
                    fail_target(
                        configured,
                        TargetErrorKind::InvalidResponse,
                        error.to_text().as_str(),
                    ),
                );
            },
        };
        let ghost before = seen@;
        if !seen.note(item.connection.into_uuid()) {
            proof {
                listing::lemma_unusable_stays(ids, repeated, i + 1, records@.len() as int);
            }
            let message = repeated_identity(
                "RAC вернул повторяющийся UUID соединения ",
                item.connection.into_uuid(),
            );
            return Err(
                fail_target(configured, TargetErrorKind::InvalidResponse, message.as_str()),
            );
        }
        proof {
            listing::lemma_holds_next(before, ids, i as int, item.connection@);
        }
        let ghost unnamed = item;
        if let Some(uuid) = item.infobase_uuid {
            item.infobase = names.get(uuid);
        }
        assert(ConnectionRecord { infobase: None, ..item } == unnamed);
        result.push(item);
        i = i + 1;
    }
    Ok(result)
}

/// Which connections are to be broken.
pub struct ConnectionKillRequest {
    pub selection: ConnectionListRequest,
}

impl Default for ConnectionKillRequest {
    fn default() -> (result: Self)
        ensures
            !result.selection.is_narrow(),
            result.selection.clusters@ is None,
            result.selection.query is None,
            result.selection.rac_options.explicit_path is None,
    {
        ConnectionKillRequest { selection: ConnectionListRequest::default() }
    }
}

pub open spec fn selector_problem() -> AppProblem {
    AppProblem::invalid(
        "selector_required"@,
        "Разрыв соединений без предметного селектора запрещен; одного кластера недостаточно"@,
    )
}

/// Refuses to break all connections of a cluster.
pub fn require_connection_selector(request: &ConnectionKillRequest) -> (result: Result<(), AppError>)
    ensures
        match result {
            Ok(()) => request.selection.is_narrow(),
            Err(error) => !request.selection.is_narrow() && error@ == selector_problem(),
        },
{
    if request.selection.has_destructive_selector() {
        Ok(())
    } else {
        Err(
            AppError::invalid(
                "selector_required",
                "Разрыв соединений без предметного селектора запрещен; одного кластера недостаточно",
            ),
        )
    }
}

/// A plan that was shown to the operator.
pub struct PreparedConnectionKill {
    pub plan: ConnectionKillPlan,
    pub records: Vec<ConnectionRecord>,
    pub target_errors: Vec<TargetError>,
    pub rac_options: RacOptions,
}

impl PreparedConnectionKill {
    pub fn is_partial(&self) -> (result: bool)
        ensures
            result == (self.target_errors@.len() > 0),
    {
        self.target_errors.len() > 0
    }
}

/// The plan for the connections that were found, or why there is none.
pub open spec fn connection_plan_of(snapshot_id: u128, found: Seq<ConnectionRecord>) -> Result<
    ConnectionPlanView,
    DomainErrorView,
> {
    match plans::connection_targets(found, found.len() as int) {
        Err(error) => Err(error),
        Ok(targets) => plans::connection_plan(snapshot_id, targets),
    }
}

/// Why nothing can be planned for the connections that were found.
pub open spec fn connection_kill_problem(
    request: ConnectionKillRequest,
    snapshot_id: u128,
    found: Seq<ConnectionRecord>,
) -> Option<AppProblem> {
    if !request.selection.is_narrow() {
        Some(selector_problem())
    } else if found.len() == 0 {
        Some(AppProblem::no_objects("connection"@))
    } else {
        match connection_plan_of(snapshot_id, found) {
            Err(error) => Some(AppProblem::of_domain(error)),
            Ok(_) => None,
        }
    }
}

/// Plans the breaking of the connections that were found, under an identity of its own.
pub fn prepare_connection_kill(
    request: &ConnectionKillRequest,
    snapshot_id: SnapshotId,
    found: QueryOutcome<ConnectionRecord>,
) -> (result: Result<PreparedConnectionKill, AppError>)
    ensures
        match connection_kill_problem(*request, snapshot_id@, found.data@) {
            Some(problem) => result is Err && result->Err_0@ == problem,
            None => {
                &&& result is Ok
                &&& connection_plan_of(snapshot_id@, found.data@) == Ok::<_, DomainErrorView>(
                    result->Ok_0.plan@,
                )
                &&& result->Ok_0.records == found.data
                &&& result->Ok_0.target_errors == found.errors
                &&& result->Ok_0.rac_options == request.selection.rac_options
            },
        },
{
    match require_connection_selector(request) {
        Ok(()) => {},
        Err(error) => {
            return Err(error);
        },
    }
    if found.data.len() == 0 {
        return Err(AppError::no_objects("connection"));
    }
    let plan = match ConnectionKillPlan::from_records(
        snapshot_id,
        found.data.as_slice(),
    ) {
        Ok(plan) => plan,
        Err(error) => {
            return Err(AppError::from_domain(&error));
        },
    };
    Ok(
        PreparedConnectionKill {
            plan,
            records: found.data,
            target_errors: found.errors,
            rac_options: request.selection.rac_options.clone(),
        },
    )
}

/// Who breaks a connection: the credentials for its infobase, by identity, then by name, then the
/// default ones.
pub open spec fn connection_auth(configured: ConfiguredView, target: ConnectionKillTarget) -> AuthView {
    configured.target.infobase_auth.resolved(
        Some(target.infobase_uuid@),
        match target.infobase {
            Some(name) => name@,
            None => Seq::empty(),
        },
    )
}

/// The credentials for the infobase of a connection, and the account of the system that they expect.
pub struct ConnectionCredentials {
    pub credentials: RacCredentials,
    pub expected_os_user: Option<String>,
}

/// Finds who breaks a connection, or why nobody can.
pub fn connection_credentials(configured: &ConfiguredTarget, target: &ConnectionKillTarget) -> (result:
    Result<ConnectionCredentials, ActionError>)
    ensures
        match conversion::credentials_of(connection_auth(configured@, *target)) {
            Ok(credentials) => {
                &&& result is Ok
                &&& result->Ok_0.credentials@ == credentials
                &&& outcome::option_view(result->Ok_0.expected_os_user) == (match connection_auth(
                    configured@,
                    *target,
                ) {
                    AuthView::Os { os_user, .. } => os_user,
                    _ => None,
                })
            },
            Err(problem) => result is Err && result->Err_0@ == (ActionProblem {
                code: problem.code,
                message: problem.message,
            }),
        },
{
    let name = match &target.infobase {
        Some(name) => name.as_str(),
        None => "",
    };
    proof {
        reveal_strlit("");
        assert(""@ =~= Seq::<char>::empty());
    }
    let auth = configured.target.infobase_auth.resolve(Some(target.infobase_uuid), name);
    let credentials = match conversion::auth_to_rac_credentials(auth) {
        Ok(credentials) => credentials,
        Err(error) => {
            return Err(ActionError::new(error.code(), error.message()));
        },
    };
    let expected_os_user = match auth.expected_os_user() {
        Some(account) => Some(account.to_owned()),
        None => None,
    };
    Ok(ConnectionCredentials { credentials, expected_os_user })
}

/// The record of what became of a connection.
pub open spec fn connection_event(
    timestamp: Timestamp,
    windows_user: Seq<char>,
    item: ItemView<ConnectionKillTarget>,
) -> EventView {
    let event = EventView::bare(
        timestamp,
        windows_user,
        audit_actions::CONNECTION_KILL@,
        kill::recorded_result(item.status),
    ).with_context(
        ContextView {
            cluster_alias: Some(item.target.cluster@),
            cluster_uuid: Some(item.target.cluster_uuid@),
            infobase_name: outcome::option_view(item.target.infobase),
            infobase_uuid: Some(item.target.infobase_uuid@),
            session_uuid: None,
            connection_uuid: Some(item.target.connection_id@),
            numeric_id: sessions::recorded_number(item.target.connection_number),
            message: None,
            reason: None,
        },
    );
    match item.error {
        Some(error) => event.with_error(error.code, error.message),
        None => event,
    }
}

/// The record of what became of a connection.
pub fn audit_connection_outcome(
    timestamp: Timestamp,
    windows_user: &str,
    item: &ActionItemOutcome<ConnectionKillTarget>,
) -> (result: AuditEvent)
    ensures
        result@ == connection_event(timestamp, windows_user@, item@),
{
    let context = AuditContext {
        cluster_alias: Some(item.target.cluster.as_str().to_owned()),
        cluster_uuid: Some(item.target.cluster_uuid.into_uuid()),
        infobase_name: clone_text(&item.target.infobase),
        infobase_uuid: Some(item.target.infobase_uuid.into_uuid()),
        session_uuid: None,
        connection_uuid: Some(item.target.connection_id.into_uuid()),
        numeric_id: numeric_id(item.target.connection_number),
        message: None,
        reason: None,
    };
    let event = AuditEvent::new(
        timestamp,
        windows_user,
        audit_actions::CONNECTION_KILL,
        kill::audit_result_of(item.status),
    ).with_context(context);
    match &item.error {
        Some(error) => event.with_error(error.code.as_str(), error.message.as_str()),
        None => event,
    }
}

pub type ConnectionKillOutcome = ActionOutcome<ConnectionKillTarget>;

} // verus!
