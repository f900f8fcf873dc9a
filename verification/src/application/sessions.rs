//! Sessions: asking for them and terminating them.

use vstd::prelude::*;
use vstd::string::*;

use crate::application::conversion::{ConfiguredTarget, RacOptions};
use crate::application::error::{AppError, AppProblem};
use crate::application::kill;
use crate::application::listing;
use crate::application::listing::{
    repeated_identity, Identities, Identity, InfobaseNames,
};
use crate::application::normalize;
use crate::application::normalize::{Fields, NormalizationProblem};
use crate::application::outcome::{ActionItemOutcome, ActionOutcome, ItemView};
use crate::application::targets;
use crate::application::targets::{
    asked_query_narrows, fail_command, fail_target, mask_operand, narrow, ClusterSelector,
    LiveCluster,
};
use crate::domain::field_value::{FieldValue, ValueView};
use crate::domain::fields::{FieldRegistry, FilterOperator};
use crate::domain::identity::SessionUuid;
use crate::domain::kill as plans;
use crate::domain::kill::{SessionKillPlan, SessionKillTarget, SnapshotId};
use crate::domain::mask::SqlMask;
use crate::domain::model::{ClusterSource, InfobaseRecord, RecordKind, SessionRecord};
use crate::domain::outcome::{QueryOutcome, TargetError, TargetErrorKind};
use crate::domain::query::{QuerySpec, QuerySpecView};
use crate::domain::timestamp::Timestamp;
use crate::infrastructure::rac::error::RacError;
use crate::infrastructure::rac::locator::clone_text;
use crate::infrastructure::rac::parser::RacRecord;
use crate::infrastructure::telemetry::audit::{AuditContext, AuditEvent, ContextView, EventView};
use crate::infrastructure::telemetry::audit_actions;
use crate::outcome;

verus! {

/// Which sessions are asked for.
pub struct SessionListRequest {
    pub clusters: ClusterSelector,
    pub infobase: Option<SqlMask>,
    pub id: Option<SessionUuid>,
    pub number: Option<i64>,
    pub user: Option<SqlMask>,
    pub host: Option<SqlMask>,
    pub app: Option<SqlMask>,
    pub query: Option<QuerySpec>,
    pub rac_options: RacOptions,
}

impl Default for SessionListRequest {
    fn default() -> (result: Self)
        ensures
            !result.is_narrow(),
            result.clusters@ is None,
            result.query is None,
            result.rac_options.explicit_path is None,
    {
        SessionListRequest {
            clusters: ClusterSelector::all(),
            infobase: None,
            id: None,
            number: None,
            user: None,
            host: None,
            app: None,
            query: None,
            rac_options: RacOptions::default(),
        }
    }
}

/// A number as the value of a condition.
pub open spec fn int_operand(number: Option<i64>) -> Option<ValueView> {
    match number {
        Some(number) => Some(ValueView::Int(number)),
        None => None,
    }
}

/// An identity as the value of a condition.
pub open spec fn uuid_operand(id: Option<u128>) -> Option<ValueView> {
    match id {
        Some(id) => Some(ValueView::Uuid(id)),
        None => None,
    }
}

impl SessionListRequest {
    /// Whether the request is for certain sessions, not for all of its clusters.
    pub open spec fn is_narrow(self) -> bool {
        ||| self.infobase is Some
        ||| self.id is Some
        ||| self.number is Some
        ||| self.user is Some
        ||| self.host is Some
        ||| self.app is Some
        ||| targets::query_narrows(outcome::option_view(self.query))
    }

    pub fn has_destructive_selector(&self) -> (result: bool)
        ensures
            result == self.is_narrow(),
    {
        self.infobase.is_some() || self.id.is_some() || self.number.is_some() || self.user.is_some()
            || self.host.is_some() || self.app.is_some() || asked_query_narrows(&self.query)
    }

    /// The query that a request stands for: its own, with a condition for each of its selectors.
    pub open spec fn query_view(self) -> Result<QuerySpecView, AppProblem> {
        let base = targets::query_for(RecordKind::Session, outcome::option_view(self.query));
        let by_id = targets::narrowed(
            base,
            "session"@,
            FilterOperator::Eq,
            uuid_operand(outcome::option_view(self.id)),
        );
        let by_number = targets::narrowed(
            by_id,
            "session_id"@,
            FilterOperator::Eq,
            int_operand(self.number),
        );
        let by_infobase = targets::narrowed(
            by_number,
            "infobase"@,
            FilterOperator::Like,
            targets::mask_value(outcome::option_view(self.infobase)),
        );
        let by_user = targets::narrowed(
            by_infobase,
            "user_name"@,
            FilterOperator::Like,
            targets::mask_value(outcome::option_view(self.user)),
        );
        let by_host = targets::narrowed(
            by_user,
            "host"@,
            FilterOperator::Like,
            targets::mask_value(outcome::option_view(self.host)),
        );
        targets::narrowed(
            by_host,
            "app_id"@,
            FilterOperator::Like,
            targets::mask_value(outcome::option_view(self.app)),
        )
    }
}

/// The query that a request stands for.
pub fn session_query(request: &SessionListRequest, registry: &FieldRegistry) -> (result: Result<
    QuerySpec,
    AppError,
>)
    ensures
        outcome::result_view(result) == request.query_view(),
{
    let id = match request.id {
        Some(id) => Some(FieldValue::Uuid(id.into_uuid())),
        None => None,
    };
    let number = match request.number {
        Some(number) => Some(FieldValue::Int(number)),
        None => None,
    };
    let asked = targets::resolved_query_spec(RecordKind::Session, &request.query, registry);
    let asked = narrow(asked, "session", FilterOperator::Eq, id, registry);
    let asked = narrow(asked, "session_id", FilterOperator::Eq, number, registry);
    let asked = narrow(
        asked,
        "infobase",
        FilterOperator::Like,
        mask_operand(&request.infobase),
        registry,
    );
    let asked = narrow(
        asked,
        "user_name",
        FilterOperator::Like,
        mask_operand(&request.user),
        registry,
    );
    let asked = narrow(asked, "host", FilterOperator::Like, mask_operand(&request.host), registry);
    narrow(asked, "app_id", FilterOperator::Like, mask_operand(&request.app), registry)
}

/// The identities of the sessions in an answer.
pub open spec fn session_ids(records: Seq<Fields>) -> Seq<Identity> {
    records.map_values(
        |record: Fields| match normalize::session_identity_of(
            normalize::raw(record, normalize::session_aliases()),
            normalize::raw(record, seq!["session_id"@]),
        ) {
            Ok((session, _)) => Ok::<u128, NormalizationProblem>(session),
            Err(problem) => Err::<u128, NormalizationProblem>(problem),
        },
    )
}

/// Whether a session is the one that a record tells of, with the name of its infobase.
pub open spec fn is_listed_session(
    item: SessionRecord,
    record: Fields,
    source: ClusterSource,
    infobases: Seq<InfobaseRecord>,
) -> bool {
    &&& normalize::is_session_of(SessionRecord { infobase: None, ..item }, record, source)
    &&& outcome::option_view(item.infobase) == (match item.infobase_uuid {
        Some(uuid) => listing::infobase_name(infobases, uuid@, infobases.len() as int),
        None => None,
    })
}

/// Reads the sessions of a target.
pub fn sessions_for_target(
    configured: &ConfiguredTarget,
    live: &LiveCluster,
    infobases: &Vec<InfobaseRecord>,
    reply: &Result<Vec<RacRecord>, RacError>,
) -> (result: Result<Vec<SessionRecord>, TargetError>)
    ensures
        ({
            let records = listing::answer_records(*reply);
            match listing::answer_problem(
                configured@,
                *reply,
                session_ids(records),
                "RAC вернул повторяющийся UUID сеанса "@,
            ) {
                Some(problem) => result is Err && result->Err_0@ == problem,
                None => {
                    &&& result is Ok
                    &&& result->Ok_0@.len() == records.len()
                    &&& forall|i: int|
                        0 <= i < records.len() ==> is_listed_session(
                            #[trigger] result->Ok_0@[i],
                            records[i],
                            live.source,
                            infobases@,
                        )
                },
            }
        }),
{
    let records = match reply {
        Ok(records) => records,
        Err(error) => {
            return Err(fail_command(configured, error));
        },
    };
    let names = InfobaseNames::new(infobases);
    let ghost views = targets::record_views(records@);
    let ghost ids = session_ids(views);
    let ghost repeated = "RAC вернул повторяющийся UUID сеанса "@;
    let mut seen = Identities::new();
    let mut result: Vec<SessionRecord> = Vec::new();
    let mut i: usize = 0;
    assert(ids.take(0) =~= Seq::<Identity>::empty());
    while i < records.len()
        invariant
            i <= records.len(),
            views == targets::record_views(records@),
            ids == session_ids(views),
            repeated == "RAC вернул повторяющийся UUID сеанса "@,
            *reply == Ok::<Vec<RacRecord>, RacError>(*records),
            forall|uuid: u128| #[trigger]
                names.name(uuid) == listing::infobase_name(
                    infobases@,
                    uuid,
                    infobases@.len() as int,
                ),
            listing::first_unusable(ids, repeated, i as int) is None,
            listing::holds_identities(seen@, ids, i as int),
            result@.len() == i,
            forall|j: int|
                0 <= j < i ==> is_listed_session(
                    #[trigger] result@[j],
                    views[j],
                    live.source,
                    infobases@,
                ),
        decreases records.len() - i,
    {
        assert(views[i as int] == records@[i as int]@);
        let mut item = match normalize::normalize_session(&records[i], live.source.clone()) {
            Ok(item) => item,
            Err(error) => {
                proof {
                    listing::lemma_unusable_stays(ids, repeated, i + 1, records@.len() as int);
                }
                return Err(
                    fail_target(
                        configured,
                        TargetErrorKind::InvalidResponse,
                        error.to_text().as_str(),
                    ),
                );
            },
        };
        let ghost before = seen@;
        if !seen.note(item.session.into_uuid()) {
            proof {
                listing::lemma_unusable_stays(ids, repeated, i + 1, records@.len() as int);
            }
            let message = repeated_identity(
                "RAC вернул повторяющийся UUID сеанса ",
                item.session.into_uuid(),
            );
            return Err(
                fail_target(configured, TargetErrorKind::InvalidResponse, message.as_str()),
            );
        }
        proof {
            listing::lemma_holds_next(before, ids, i as int, item.session@);
        }
        let ghost unnamed = item;
        if let Some(uuid) = item.infobase_uuid {
            item.infobase = names.get(uuid);
        }
        assert(SessionRecord { infobase: None, ..item } == unnamed);
        result.push(item);
        i = i + 1;
    }
    Ok(result)
}

/// Which sessions are to be terminated, and what their users are told.
pub struct SessionKillRequest {
    pub selection: SessionListRequest,
    pub message: Option<String>,
}

impl Default for SessionKillRequest {
    fn default() -> (result: Self)
        ensures
            !result.selection.is_narrow(),
            result.selection.clusters@ is None,
            result.selection.query is None,
            result.selection.rac_options.explicit_path is None,
            result.message is None,
    {
        SessionKillRequest { selection: SessionListRequest::default(), message: None }
    }
}

pub open spec fn selector_problem() -> AppProblem {
    AppProblem::invalid(
        "selector_required"@,
        "Завершение сеансов без предметного селектора запрещено; одного кластера недостаточно"@,
    )
}

/// Refuses to terminate all sessions of a cluster.
pub fn require_session_selector(request: &SessionKillRequest) -> (result: Result<(), AppError>)
    ensures
        match result {
            Ok(()) => request.selection.is_narrow(),
            Err(error) => !request.selection.is_narrow() && error@ == selector_problem(),
        },
{
    if request.selection.has_destructive_selector() {
        Ok(())
    } else {
        Err(
            AppError::invalid(
                "selector_required",
                "Завершение сеансов без предметного селектора запрещено; одного кластера недостаточно",
            ),
        )
    }
}

/// A plan that was shown to the operator.
pub struct PreparedSessionKill {
    pub plan: SessionKillPlan,
    pub records: Vec<SessionRecord>,
    pub target_errors: Vec<TargetError>,
    pub rac_options: RacOptions,
}

impl PreparedSessionKill {
    pub fn is_partial(&self) -> (result: bool)
        ensures
            result == (self.target_errors@.len() > 0),
    {
        self.target_errors.len() > 0
    }
}

/// Why nothing can be planned for the sessions that were found.
pub open spec fn session_kill_problem(
    request: SessionKillRequest,
    found: Seq<SessionRecord>,
) -> Option<AppProblem> {
    if !request.selection.is_narrow() {
        Some(selector_problem())
    } else if found.len() == 0 {
        Some(AppProblem::no_objects("session"@))
    } else {
        match plans::session_plan_problem(plans::session_targets(found)) {
            Some(error) => Some(AppProblem::of_domain(error)),
            None => None,
        }
    }
}

/// Plans the termination of the sessions that were found, under an identity of its own.
pub fn prepare_session_kill(
    request: &SessionKillRequest,
    snapshot_id: SnapshotId,
    found: QueryOutcome<SessionRecord>,
) -> (result: Result<PreparedSessionKill, AppError>)
    ensures
        match session_kill_problem(*request, found.data@) {
            Some(problem) => result is Err && result->Err_0@ == problem,
            None => {
                &&& result is Ok
                &&& plans::session_plan(
                    snapshot_id@,
                    plans::session_targets(found.data@),
                    outcome::option_view(request.message),
                ) == Ok::<_, crate::domain::error::DomainErrorView>(result->Ok_0.plan@)
                &&& result->Ok_0.records == found.data
                &&& result->Ok_0.target_errors == found.errors
                &&& result->Ok_0.rac_options == request.selection.rac_options
            },
        },
{
    match require_session_selector(request) {
        Ok(()) => {},
        Err(error) => {
            return Err(error);
        },
    }
    if found.data.len() == 0 {
        return Err(AppError::no_objects("session"));
    }
    let plan = match SessionKillPlan::from_records(
        snapshot_id,
        found.data.as_slice(),
        clone_text(&request.message),
    ) {
        Ok(plan) => plan,
        Err(error) => {
            return Err(AppError::from_domain(&error));
        },
    };
    Ok(
        PreparedSessionKill {
            plan,
            records: found.data,
            target_errors: found.errors,
            rac_options: request.selection.rac_options.clone(),
        },
    )
}

/// A number that can be recorded: one that is not negative.
pub open spec fn recorded_number(number: Option<i64>) -> Option<u64> {
    match number {
        Some(number) if number >= 0 => Some(number as u64),
        _ => None,
    }
}

pub(crate) fn numeric_id(number: Option<i64>) -> (result: Option<u64>)
    ensures
        result == recorded_number(number),
{
    match number {
        Some(number) => if number >= 0 {
            Some(number as u64)
        } else {
            None
        },
        None => None,
    }
}

/// The record of what became of a session.
pub open spec fn session_event(
    timestamp: Timestamp,
    windows_user: Seq<char>,
    message: Seq<char>,
    item: ItemView<SessionKillTarget>,
) -> EventView {
    let event = EventView::bare(
        timestamp,
        windows_user,
        audit_actions::SESSION_KILL@,
        kill::recorded_result(item.status),
    ).with_context(
        ContextView {
            cluster_alias: Some(item.target.cluster@),
            cluster_uuid: Some(item.target.cluster_uuid@),
            infobase_name: outcome::option_view(item.target.infobase),
            infobase_uuid: outcome::option_view(item.target.infobase_uuid),
            session_uuid: Some(item.target.session_id@),
            connection_uuid: None,
            numeric_id: recorded_number(item.target.session_number),
            message: Some(message),
            reason: None,
        },
    );
    match item.error {
        Some(error) => event.with_error(error.code, error.message),
        None => event,
    }
}

/// The record of what became of a session.
pub fn audit_session_outcome(
    timestamp: Timestamp,
    windows_user: &str,
    message: &str,
    item: &ActionItemOutcome<SessionKillTarget>,
) -> (result: AuditEvent)
    ensures
        result@ == session_event(timestamp, windows_user@, message@, item@),
{
    let infobase_uuid = match item.target.infobase_uuid {
        Some(uuid) => Some(uuid.into_uuid()),
        None => None,
    };
    let context = AuditContext {
        cluster_alias: Some(item.target.cluster.as_str().to_owned()),
        cluster_uuid: Some(item.target.cluster_uuid.into_uuid()),
        infobase_name: clone_text(&item.target.infobase),
        infobase_uuid,
        session_uuid: Some(item.target.session_id.into_uuid()),
        connection_uuid: None,
        numeric_id: numeric_id(item.target.session_number),
        message: Some(message.to_owned()),
        reason: None,
    };
    let event = AuditEvent::new(
        timestamp,
        windows_user,
        audit_actions::SESSION_KILL,
        kill::audit_result_of(item.status),
    ).with_context(context);
    match &item.error {
        Some(error) => event.with_error(error.code.as_str(), error.message.as_str()),
        None => event,
    }
}

pub type SessionKillOutcome = ActionOutcome<SessionKillTarget>;

} // verus!
