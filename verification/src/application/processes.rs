//! Working processes: asking for them and turning them off.

use vstd::prelude::*;
use vstd::string::*;

use crate::application::conversion::{ConfiguredTarget, RacOptions};
use crate::application::error::{AppError, AppProblem};
use crate::application::listing;
use crate::application::listing::{
    repeated_identity, Identities, Identity,
};
use crate::application::normalize;
use crate::application::normalize::{Fields, NormalizationProblem};
use crate::application::outcome::ActionOutcome;
use crate::application::sessions;
use crate::application::targets;
use crate::application::targets::{
    asked_query_narrows, fail_command, fail_target, narrow, ClusterSelector, LiveCluster,
};
use crate::domain::error::DomainErrorView;
use crate::domain::field_value::FieldValue;
use crate::domain::fields::{FieldRegistry, FilterOperator};
use crate::domain::identity::{ProcessUuid, Uuid};
use crate::domain::kill as plans;
use crate::domain::kill::{ProcessKillPlan, ProcessKillTarget, ProcessPlanView, SnapshotId};
use crate::domain::model::{ClusterSource, ProcessRecord, RecordKind};
use crate::domain::outcome::{QueryOutcome, TargetError, TargetErrorKind};
use crate::domain::query::{QuerySpec, QuerySpecView};
use crate::infrastructure::rac::error::RacError;
use crate::infrastructure::rac::parser::RacRecord;
use crate::outcome;

verus! {

/// Which working processes are asked for.
pub struct ProcessListRequest {
    pub clusters: ClusterSelector,
    pub id: Option<ProcessUuid>,
    pub pid: Option<i64>,
    pub server: Option<Uuid>,
    pub query: Option<QuerySpec>,
    pub rac_options: RacOptions,
}

impl Default for ProcessListRequest {
    fn default() -> (result: Self)
        ensures
            !result.is_narrow(),
            result.clusters@ is None,
            result.query is None,
            result.rac_options.explicit_path is None,
    {
        ProcessListRequest {
            clusters: ClusterSelector::all(),
            id: None,
            pid: None,
            server: None,
            query: None,
            rac_options: RacOptions::default(),
        }
    }
}

impl ProcessListRequest {
    /// Whether the request is for certain processes, not for all of its clusters.
    pub open spec fn is_narrow(self) -> bool {
        ||| self.id is Some
        ||| self.pid is Some
        ||| self.server is Some
        ||| targets::query_narrows(outcome::option_view(self.query))
    }

    pub fn has_destructive_selector(&self) -> (result: bool)
        ensures
            result == self.is_narrow(),
    {
        self.id.is_some() || self.pid.is_some() || self.server.is_some() || asked_query_narrows(
            &self.query,
        )
    }

    /// The query that a request stands for: its own, with a condition for each of its selectors.
    pub open spec fn query_view(self) -> Result<QuerySpecView, AppProblem> {
        let base = targets::query_for(RecordKind::Process, outcome::option_view(self.query));
        let by_id = targets::narrowed(
            base,
            "process"@,
            FilterOperator::Eq,
            sessions::uuid_operand(outcome::option_view(self.id)),
        );
        let by_pid = targets::narrowed(by_id, "pid"@, FilterOperator::Eq, sessions::int_operand(self.pid));
        targets::narrowed(
            by_pid,
            "server"@,
            FilterOperator::Eq,
            sessions::uuid_operand(outcome::option_view(self.server)),
        )
    }
}

/// The query that a request stands for.
pub fn process_query(request: &ProcessListRequest, registry: &FieldRegistry) -> (result: Result<
    QuerySpec,
    AppError,
>)
    ensures
        outcome::result_view(result) == request.query_view(),
{
    let id = match request.id {
        Some(id) => Some(FieldValue::Uuid(id.into_uuid())),
        None => None,
    };
    let pid = match request.pid {
        Some(number) => Some(FieldValue::Int(number)),
        None => None,
    };
    let server = match request.server {
        Some(id) => Some(FieldValue::Uuid(id)),
        None => None,
    };
    let asked = targets::resolved_query_spec(RecordKind::Process, &request.query, registry);
    let asked = narrow(asked, "process", FilterOperator::Eq, id, registry);
    let asked = narrow(asked, "pid", FilterOperator::Eq, pid, registry);
    narrow(asked, "server", FilterOperator::Eq, server, registry)
}

/// The identity of a working process in an answer.
pub open spec fn process_identity(record: Fields) -> Identity {
    normalize::required_uuid_of(
        normalize::raw(record, seq!["process"@, "process_uuid"@]),
        "process"@,
    )
}

/// The identities of the working processes in an answer.
pub open spec fn process_ids(records: Seq<Fields>) -> Seq<Identity> {
    records.map_values(|record: Fields| process_identity(record))
}

/// Whether a working process is the one that a record tells of.
pub open spec fn is_listed_process(item: ProcessRecord, record: Fields, source: ClusterSource) -> bool {
    &&& normalize::is_process_of(item, record, source)
    &&& process_identity(record) == Ok::<u128, NormalizationProblem>(item.process@)
}

/// Reads the working processes of a target.
pub fn processes_for_target(
    configured: &ConfiguredTarget,
    live: &LiveCluster,
    reply: &Result<Vec<RacRecord>, RacError>,
) -> (result: Result<Vec<ProcessRecord>, TargetError>)
    ensures
        ({
            let records = listing::answer_records(*reply);
            match listing::answer_problem(
                configured@,
                *reply,
                process_ids(records),
                "RAC вернул повторяющийся UUID рабочего процесса "@,
            ) {
                Some(problem) => result is Err && result->Err_0@ == problem,
                None => {
                    &&& result is Ok
                    &&& result->Ok_0@.len() == records.len()
                    &&& forall|i: int|
                        0 <= i < records.len() ==> is_listed_process(
                            #[trigger] result->Ok_0@[i],
                            records[i],
                            live.source,
                        )
                },
            }
        }),
{
    let records = match reply {
        Ok(records) => records,
        Err(error) => {
            return Err(fail_command(configured, error));
        },
    };
    let ghost views = targets::record_views(records@);
    let ghost ids = process_ids(views);
    let ghost repeated = "RAC вернул повторяющийся UUID рабочего процесса "@;
    let mut seen = Identities::new();
    let mut result: Vec<ProcessRecord> = Vec::new();
    let mut i: usize = 0;
    assert(ids.take(0) =~= Seq::<Identity>::empty());
    while i < records.len()
        invariant
            i <= records.len(),
            views == targets::record_views(records@),
            ids == process_ids(views),
            repeated == "RAC вернул повторяющийся UUID рабочего процесса "@,
            *reply == Ok::<Vec<RacRecord>, RacError>(*records),
            listing::first_unusable(ids, repeated, i as int) is None,
            listing::holds_identities(seen@, ids, i as int),
            result@.len() == i,
            forall|j: int|
                0 <= j < i ==> is_listed_process(
                    #[trigger] result@[j],
                    views[j],
                    live.source,
                ),
        decreases records.len() - i,
    {
        assert(views[i as int] == records@[i as int]@);
        let item = match normalize::normalize_process(&records[i], live.source.clone()) {
            Ok(item) => item,
            Err(error) => {
                proof {
                    listing::lemma_unusable_stays(ids, repeated, i + 1, records@.len() as int);
                }
                return Err(
                    fail_target(
                        configured,
                        TargetErrorKind::InvalidResponse,
                        error.to_text().as_str(),
                    ),
                );
            },
        };
        let ghost before = seen@;
        if !seen.note(item.process.into_uuid()) {
            proof {
                listing::lemma_unusable_stays(ids, repeated, i + 1, records@.len() as int);
            }
            let message = repeated_identity(
                "RAC вернул повторяющийся UUID рабочего процесса ",
                item.process.into_uuid(),
            );
            return Err(
                fail_target(configured, TargetErrorKind::InvalidResponse, message.as_str()),
            );
        }
        proof {
            listing::lemma_holds_next(before, ids, i as int, item.process@);
        }
        result.push(item);
        i = i + 1;
    }
    Ok(result)
}

/// Which working processes are to be turned off.
pub struct ProcessKillRequest {
    pub selection: ProcessListRequest,
}

impl Default for ProcessKillRequest {
    fn default() -> (result: Self)
        ensures
            !result.selection.is_narrow(),
            result.selection.clusters@ is None,
            result.selection.query is None,
            result.selection.rac_options.explicit_path is None,
    {
        ProcessKillRequest { selection: ProcessListRequest::default() }
    }
}

pub open spec fn selector_problem() -> AppProblem {
    AppProblem::invalid(
        "selector_required"@,
        "Выключение рабочих процессов без предметного селектора запрещено; одного кластера недостаточно"@,
    )
}

/// Refuses to turn off all working processes of a cluster.
pub fn require_process_selector(request: &ProcessKillRequest) -> (result: Result<(), AppError>)
    ensures
        match result {
            Ok(()) => request.selection.is_narrow(),
            Err(error) => !request.selection.is_narrow() && error@ == selector_problem(),
        },
{
    if request.selection.has_destructive_selector() {
        Ok(())
    } else {
        Err(
            AppError::invalid(
                "selector_required",
                "Выключение рабочих процессов без предметного селектора запрещено; одного кластера недостаточно",
            ),
        )
    }
}

/// A plan that was shown to the operator.
pub struct PreparedProcessKill {
    pub plan: ProcessKillPlan,
    pub records: Vec<ProcessRecord>,
    pub target_errors: Vec<TargetError>,
    pub rac_options: RacOptions,
}

impl PreparedProcessKill {
    pub fn is_partial(&self) -> (result: bool)
        ensures
            result == (self.target_errors@.len() > 0),
    {
        self.target_errors.len() > 0
    }
}

/// The plan for the working processes that were found, or why there is none.
pub open spec fn process_plan_of(snapshot_id: u128, found: Seq<ProcessRecord>) -> Result<
    ProcessPlanView,
    DomainErrorView,
> {
    plans::process_plan(snapshot_id, plans::process_targets(found))
}

/// Why nothing can be planned for the working processes that were found.
pub open spec fn process_kill_problem(
    request: ProcessKillRequest,
    snapshot_id: u128,
    found: Seq<ProcessRecord>,
) -> Option<AppProblem> {
    if !request.selection.is_narrow() {
        Some(selector_problem())
    } else if found.len() == 0 {
        Some(AppProblem::no_objects("process"@))
    } else {
        match process_plan_of(snapshot_id, found) {
            Err(error) => Some(AppProblem::of_domain(error)),
            Ok(_) => None,
        }
    }
}

/// Plans the turning off of the working processes that were found, under an identity of its own.
pub fn prepare_process_kill(
    request: &ProcessKillRequest,
    snapshot_id: SnapshotId,
    found: QueryOutcome<ProcessRecord>,
) -> (result: Result<PreparedProcessKill, AppError>)
    ensures
        match process_kill_problem(*request, snapshot_id@, found.data@) {
            Some(problem) => result is Err && result->Err_0@ == problem,
            None => {
                &&& result is Ok
                &&& process_plan_of(snapshot_id@, found.data@) == Ok::<_, DomainErrorView>(
                    result->Ok_0.plan@,
                )
                &&& result->Ok_0.records == found.data
                &&& result->Ok_0.target_errors == found.errors
                &&& result->Ok_0.rac_options == request.selection.rac_options
            },
        },
{
    match require_process_selector(request) {
        Ok(()) => {},
        Err(error) => {
            return Err(error);
        },
    }
    if found.data.len() == 0 {
        return Err(AppError::no_objects("process"));
    }
    let plan = match ProcessKillPlan::from_records(
        snapshot_id,
        found.data.as_slice(),
    ) {
        Ok(plan) => plan,
        Err(error) => {
            return Err(AppError::from_domain(&error));
        },
    };
    Ok(
        PreparedProcessKill {
            plan,
            records: found.data,
            target_errors: found.errors,
            rac_options: request.selection.rac_options.clone(),
        },
    )
}

pub type ProcessKillOutcome = ActionOutcome<ProcessKillTarget>;

} // verus!
