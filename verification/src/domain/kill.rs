//! Plans of destructive operations: fixed lists of distinct targets taken from one snapshot.

use vstd::prelude::*;
use vstd::string::*;

use crate::domain::error::{DomainError, DomainErrorView};
use crate::domain::identity;
use crate::domain::identity::{
    ClusterUuid, ConnectionUuid, InfobaseUuid, ProcessUuid, SessionUuid, Uuid,
};
use crate::domain::model::{ConnectionRecord, ProcessRecord, SessionRecord};
use crate::domain::value::{ClusterAlias, RasEndpoint};
use crate::outcome;

verus! {

/// What users of a terminated session are told by default.
pub const DEFAULT_SESSION_KILL_MESSAGE: &'static str =
    "Сеанс принудительно завершен администратором через onecadmin";

/// The identity of a snapshot of records.
#[derive(Clone, Copy, Debug, PartialEq, Eq, PartialOrd, Ord, Hash, Structural)]
pub struct SnapshotId {
    value: Uuid,
}

impl View for SnapshotId {
    type V = u128;

    closed spec fn view(&self) -> u128 {
        self.value@
    }
}

impl SnapshotId {
    pub fn new(value: Uuid) -> (result: Self)
        ensures
            result@ == value@,
    {
        SnapshotId { value }
    }

    /// A new random identity, which is of version 4 and never nil.
    pub fn random() -> (result: Self)
        ensures
            identity::is_version_4(result@),
            result@ != 0,
    {
        SnapshotId { value: Uuid::new_v4() }
    }

    pub fn as_uuid(&self) -> (result: &Uuid)
        ensures
            result@ == self@,
    {
        &self.value
    }
}

/// A session to terminate.
#[derive(Debug, PartialEq, Eq)]
pub struct SessionKillTarget {
    pub cluster: ClusterAlias,
    pub cluster_uuid: ClusterUuid,
    pub ras_address: RasEndpoint,
    pub infobase: Option<String>,
    pub infobase_uuid: Option<InfobaseUuid>,
    pub session_id: SessionUuid,
    pub session_number: Option<i64>,
}

fn clone_text(value: &Option<String>) -> (result: Option<String>)
    ensures
        result == *value,
{
    match value {
        Some(text) => Some(text.clone()),
        None => None,
    }
}

impl Clone for SessionKillTarget {
    fn clone(&self) -> (result: Self)
        ensures
            result == *self,
    {
        SessionKillTarget {
            cluster: self.cluster.clone(),
            cluster_uuid: self.cluster_uuid,
            ras_address: self.ras_address.clone(),
            infobase: clone_text(&self.infobase),
            infobase_uuid: self.infobase_uuid,
            session_id: self.session_id,
            session_number: self.session_number,
        }
    }
}

/// The target that a session record makes.
pub open spec fn session_target(record: SessionRecord) -> SessionKillTarget {
    SessionKillTarget {
        cluster: record.source.cluster,
        cluster_uuid: record.source.cluster_uuid,
        ras_address: record.source.ras_address,
        infobase: record.infobase,
        infobase_uuid: record.infobase_uuid,
        session_id: record.session,
        session_number: record.session_id,
    }
}

impl SessionKillTarget {
    /// The target of a session record.
    pub fn of_record(record: &SessionRecord) -> (result: Self)
        ensures
            result == session_target(*record),
    {
        SessionKillTarget {
            cluster: record.source.cluster.clone(),
            cluster_uuid: record.source.cluster_uuid,
            ras_address: record.source.ras_address.clone(),
            infobase: clone_text(&record.infobase),
            infobase_uuid: record.infobase_uuid,
            session_id: record.session,
            session_number: record.session_id,
        }
    }
}

/// Sessions are told apart by their cluster and their identity.
pub open spec fn same_session(left: SessionKillTarget, right: SessionKillTarget) -> bool {
    left.cluster_uuid@ == right.cluster_uuid@ && left.session_id@ == right.session_id@
}

/// Connections are told apart by their cluster, process and identity.
pub open spec fn same_connection(left: ConnectionKillTarget, right: ConnectionKillTarget) -> bool {
    left.cluster_uuid@ == right.cluster_uuid@ && left.process_id@ == right.process_id@
        && left.connection_id@ == right.connection_id@
}

/// Processes are told apart by their cluster and their identity.
pub open spec fn same_process(left: ProcessKillTarget, right: ProcessKillTarget) -> bool {
    left.cluster_uuid@ == right.cluster_uuid@ && left.process_id@ == right.process_id@
}

pub open spec fn some_nil_session(targets: Seq<SessionKillTarget>) -> bool {
    exists|i: int| 0 <= i < targets.len() && (#[trigger] targets[i]).session_id@ == 0
}

pub open spec fn distinct_sessions(targets: Seq<SessionKillTarget>) -> bool {
    forall|i: int, j: int|
        0 <= i < j < targets.len() ==> !same_session(#[trigger] targets[i], #[trigger] targets[j])
}

pub open spec fn distinct_connections(targets: Seq<ConnectionKillTarget>) -> bool {
    forall|i: int, j: int|
        0 <= i < j < targets.len() ==> !same_connection(
            #[trigger] targets[i],
            #[trigger] targets[j],
        )
}

pub open spec fn distinct_processes(targets: Seq<ProcessKillTarget>) -> bool {
    forall|i: int, j: int|
        0 <= i < j < targets.len() ==> !same_process(#[trigger] targets[i], #[trigger] targets[j])
}

/// Why a list of sessions makes no plan.
pub open spec fn session_plan_problem(targets: Seq<SessionKillTarget>) -> Option<DomainErrorView> {
    if targets.len() == 0 {
        Some(DomainErrorView::EmptyKillPlan)
    } else if some_nil_session(targets) {
        Some(DomainErrorView::MissingKillIdentity { field: "session"@ })
    } else if !distinct_sessions(targets) {
        Some(DomainErrorView::DuplicateKillTarget)
    } else {
        None
    }
}

fn sessions_repeat(targets: &Vec<SessionKillTarget>) -> (result: bool)
    ensures
        result == !distinct_sessions(targets@),
{
    let mut j: usize = 0;
    while j < targets.len()
        invariant
            j <= targets@.len(),
            distinct_sessions(targets@.take(j as int)),
        decreases targets.len() - j,
    {
        let mut i: usize = 0;
        while i < j
            invariant
                i <= j < targets@.len(),
                forall|k: int|
                    0 <= k < i ==> !same_session(#[trigger] targets@[k], targets@[j as int]),
            decreases j - i,
        {
            if targets[i].cluster_uuid.same(targets[j].cluster_uuid)
                && targets[i].session_id.same(targets[j].session_id) {
                assert(same_session(targets@[i as int], targets@[j as int]));
                return true;
            }
            i = i + 1;
        }
        proof {
            let longer = targets@.take(j + 1);
            assert forall|a: int, b: int| 0 <= a < b < longer.len() implies !same_session(
                #[trigger] longer[a],
                #[trigger] longer[b],
            ) by {
                if b < j {
                    assert(longer[a] == targets@.take(j as int)[a]);
                    assert(longer[b] == targets@.take(j as int)[b]);
                }
            }
        }
        j = j + 1;
    }
    assert(targets@.take(targets@.len() as int) =~= targets@);
    false
}

/// Sessions to terminate, none twice, with the message for their users.
#[derive(Debug, PartialEq, Eq)]
pub struct SessionKillPlan {
    snapshot_id: SnapshotId,
    targets: Vec<SessionKillTarget>,
    message: String,
}

pub struct SessionPlanView {
    pub snapshot_id: u128,
    pub targets: Seq<SessionKillTarget>,
    pub message: Seq<char>,
}

impl View for SessionKillPlan {
    type V = SessionPlanView;

    closed spec fn view(&self) -> SessionPlanView {
        SessionPlanView {
            snapshot_id: self.snapshot_id@,
            targets: self.targets@,
            message: self.message@,
        }
    }
}

pub open spec fn session_targets(records: Seq<SessionRecord>) -> Seq<SessionKillTarget> {
    records.map_values(|record: SessionRecord| session_target(record))
}

/// The plan for the given sessions.
pub open spec fn session_plan(
    snapshot_id: u128,
    targets: Seq<SessionKillTarget>,
    message: Option<Seq<char>>,
) -> Result<SessionPlanView, DomainErrorView> {
    match session_plan_problem(targets) {
        Some(problem) => Err(problem),
        None => Ok(
            SessionPlanView {
                snapshot_id,
                targets,
                message: match message {
                    Some(message) => message,
                    None => DEFAULT_SESSION_KILL_MESSAGE@,
                },
            },
        ),
    }
}

impl SessionKillPlan {
    /// A plan has targets, all with identities, none twice.
    #[verifier::type_invariant]
    spec fn well_formed(self) -> bool {
        session_plan_problem(self.targets@) is None
    }

    pub fn new(
        snapshot_id: SnapshotId,
        targets: Vec<SessionKillTarget>,
        message: Option<String>,
    ) -> (result: Result<Self, DomainError>)
        ensures
            outcome::result_view(result) == session_plan(
                snapshot_id@,
                targets@,
                outcome::option_view(message),
            ),
    {
        if targets.len() == 0 {
            return Err(DomainError::EmptyKillPlan);
        }
        let mut i: usize = 0;
        while i < targets.len()
            invariant
                i <= targets@.len(),
                targets@.len() > 0,
                forall|j: int| 0 <= j < i ==> (#[trigger] targets@[j]).session_id@ != 0,
            decreases targets.len() - i,
        {
            if targets[i].session_id.is_nil() {
                return Err(DomainError::MissingKillIdentity { field: "session" });
            }
            i = i + 1;
        }
        if sessions_repeat(&targets) {
            return Err(DomainError::DuplicateKillTarget);
        }
        let message = match message {
            Some(message) => message,
            None => DEFAULT_SESSION_KILL_MESSAGE.to_owned(),
        };
        Ok(SessionKillPlan { snapshot_id, targets, message })
    }

    /// The plan for the sessions of a snapshot.
    pub fn from_records(
        snapshot_id: SnapshotId,
        records: &[SessionRecord],
        message: Option<String>,
    ) -> (result: Result<Self, DomainError>)
        ensures
            outcome::result_view(result) == session_plan(
                snapshot_id@,
                session_targets(records@),
                outcome::option_view(message),
            ),
    {
        let mut targets: Vec<SessionKillTarget> = Vec::new();
        let mut i: usize = 0;
        while i < records.len()
            invariant
                i <= records@.len(),
                targets@ == session_targets(records@.take(i as int)),
            decreases records.len() - i,
        {
            let target = SessionKillTarget::of_record(&records[i]);
            targets.push(target);
            assert(targets@ =~= session_targets(records@.take(i + 1)));
            i = i + 1;
        }
        assert(records@.take(records@.len() as int) =~= records@);
        SessionKillPlan::new(snapshot_id, targets, message)
    }

    pub fn snapshot_id(&self) -> (result: SnapshotId)
        ensures
            result@ == self@.snapshot_id,
    {
        self.snapshot_id
    }

    pub fn targets(&self) -> (result: &Vec<SessionKillTarget>)
        ensures
            result@ == self@.targets,
            session_plan_problem(result@) is None,
    {
        proof {
            use_type_invariant(self);
        }
        &self.targets
    }

    pub fn message(&self) -> (result: &str)
        ensures
            result@ == self@.message,
    {
        self.message.as_str()
    }

    pub fn len(&self) -> (result: usize)
        ensures
            result == self@.targets.len(),
    {
        self.targets.len()
    }

    pub fn is_empty(&self) -> (result: bool)
        ensures
            result == (self@.targets.len() == 0),
    {
        self.targets.len() == 0
    }
}

/// A connection to drop.
#[derive(Debug, PartialEq, Eq)]
pub struct ConnectionKillTarget {
    pub cluster: ClusterAlias,
    pub cluster_uuid: ClusterUuid,
    pub ras_address: RasEndpoint,
    pub infobase: Option<String>,
    pub infobase_uuid: InfobaseUuid,
    pub process_id: ProcessUuid,
    pub connection_id: ConnectionUuid,
    pub connection_number: Option<i64>,
}

impl Clone for ConnectionKillTarget {
    fn clone(&self) -> (result: Self)
        ensures
            result == *self,
    {
        ConnectionKillTarget {
            cluster: self.cluster.clone(),
            cluster_uuid: self.cluster_uuid,
            ras_address: self.ras_address.clone(),
            infobase: clone_text(&self.infobase),
            infobase_uuid: self.infobase_uuid,
            process_id: self.process_id,
            connection_id: self.connection_id,
            connection_number: self.connection_number,
        }
    }
}

/// The identity that a connection record lacks for being dropped.
pub open spec fn missing_identity(record: ConnectionRecord) -> Option<Seq<char>> {
    if record.infobase_uuid is None || record.infobase_uuid->0@ == 0 {
        Some("infobase_uuid"@)
    } else if record.process@ == 0 {
        Some("process"@)
    } else if record.connection@ == 0 {
        Some("connection"@)
    } else {
        None
    }
}

/// The target that a connection record makes; its process and its identity are of one record.
pub open spec fn connection_target(record: ConnectionRecord) -> Result<
    ConnectionKillTarget,
    DomainErrorView,
> {
    match missing_identity(record) {
        Some(field) => Err(DomainErrorView::MissingKillIdentity { field }),
        None => Ok(
            ConnectionKillTarget {
                cluster: record.source.cluster,
                cluster_uuid: record.source.cluster_uuid,
                ras_address: record.source.ras_address,
                infobase: record.infobase,
                infobase_uuid: record.infobase_uuid->0,
                process_id: record.process,
                connection_id: record.connection,
                connection_number: record.conn_id,
            },
        ),
    }
}

impl ConnectionKillTarget {
    /// The target of a connection record.
    pub fn try_from(record: &ConnectionRecord) -> (result: Result<Self, DomainError>)
        ensures
            match result {
                Ok(target) => connection_target(*record) == Ok::<_, DomainErrorView>(target),
                Err(error) => connection_target(*record) == Err::<ConnectionKillTarget, _>(error@),
            },
    {
        let infobase_uuid = match record.infobase_uuid {
            Some(uuid) => uuid,
            None => {
                return Err(DomainError::MissingKillIdentity { field: "infobase_uuid" });
            },
        };
        if infobase_uuid.is_nil() {
            return Err(DomainError::MissingKillIdentity { field: "infobase_uuid" });
        }
        if record.process.is_nil() {
            return Err(DomainError::MissingKillIdentity { field: "process" });
        }
        if record.connection.is_nil() {
            return Err(DomainError::MissingKillIdentity { field: "connection" });
        }
        Ok(
            ConnectionKillTarget {
                cluster: record.source.cluster.clone(),
                cluster_uuid: record.source.cluster_uuid,
                ras_address: record.source.ras_address.clone(),
                infobase: clone_text(&record.infobase),
                infobase_uuid,
                process_id: record.process,
                connection_id: record.connection,
                connection_number: record.conn_id,
            },
        )
    }
}

fn connections_repeat(targets: &Vec<ConnectionKillTarget>) -> (result: bool)
    ensures
        result == !distinct_connections(targets@),
{
    let mut j: usize = 0;
    while j < targets.len()
        invariant
            j <= targets@.len(),
            distinct_connections(targets@.take(j as int)),
        decreases targets.len() - j,
    {
        let mut i: usize = 0;
        while i < j
            invariant
                i <= j < targets@.len(),
                forall|k: int|
                    0 <= k < i ==> !same_connection(#[trigger] targets@[k], targets@[j as int]),
            decreases j - i,
        {
            if targets[i].cluster_uuid.same(targets[j].cluster_uuid)
                && targets[i].process_id.same(targets[j].process_id)
                && targets[i].connection_id.same(targets[j].connection_id) {
                assert(same_connection(targets@[i as int], targets@[j as int]));
                return true;
            }
            i = i + 1;
        }
        proof {
            let longer = targets@.take(j + 1);
            assert forall|a: int, b: int| 0 <= a < b < longer.len() implies !same_connection(
                #[trigger] longer[a],
                #[trigger] longer[b],
            ) by {
                if b < j {
                    assert(longer[a] == targets@.take(j as int)[a]);
                    assert(longer[b] == targets@.take(j as int)[b]);
                }
            }
        }
        j = j + 1;
    }
    assert(targets@.take(targets@.len() as int) =~= targets@);
    false
}

/// Connections to drop, none twice.
#[derive(Debug, PartialEq, Eq)]
pub struct ConnectionKillPlan {
    snapshot_id: SnapshotId,
    targets: Vec<ConnectionKillTarget>,
}

pub struct ConnectionPlanView {
    pub snapshot_id: u128,
    pub targets: Seq<ConnectionKillTarget>,
}

impl View for ConnectionKillPlan {
    type V = ConnectionPlanView;

    closed spec fn view(&self) -> ConnectionPlanView {
        ConnectionPlanView { snapshot_id: self.snapshot_id@, targets: self.targets@ }
    }
}

/// The plan for the given connections.
pub open spec fn connection_plan(snapshot_id: u128, targets: Seq<ConnectionKillTarget>) -> Result<
    ConnectionPlanView,
    DomainErrorView,
> {
    if targets.len() == 0 {
        Err(DomainErrorView::EmptyKillPlan)
    } else if !distinct_connections(targets) {
        Err(DomainErrorView::DuplicateKillTarget)
    } else {
        Ok(ConnectionPlanView { snapshot_id, targets })
    }
}

/// The targets of the first `count` connection records, or what the first unfit one lacks.
pub open spec fn connection_targets(records: Seq<ConnectionRecord>, count: int) -> Result<
    Seq<ConnectionKillTarget>,
    DomainErrorView,
>
    decreases count,
{
    if count <= 0 {
        Ok(Seq::empty())
    } else {
        match connection_targets(records, count - 1) {
            Err(error) => Err(error),
            Ok(before) => match connection_target(records[count - 1]) {
                Err(error) => Err(error),
                Ok(target) => Ok(before.push(target)),
            },
        }
    }
}

proof fn lemma_connection_targets_fail(records: Seq<ConnectionRecord>, from: int, to: int)
    requires
        0 <= from <= to,
        connection_targets(records, from) is Err,
    ensures
        connection_targets(records, to) == connection_targets(records, from),
    decreases to - from,
{
    if from < to {
        lemma_connection_targets_fail(records, from, to - 1);
    }
}

impl ConnectionKillPlan {
    /// A plan has targets, none twice.
    #[verifier::type_invariant]
    spec fn well_formed(self) -> bool {
        self.targets@.len() > 0 && distinct_connections(self.targets@)
    }

    pub fn new(snapshot_id: SnapshotId, targets: Vec<ConnectionKillTarget>) -> (result: Result<
        Self,
        DomainError,
    >)
        ensures
            outcome::result_view(result) == connection_plan(snapshot_id@, targets@),
    {
        if targets.len() == 0 {
            return Err(DomainError::EmptyKillPlan);
        }
        if connections_repeat(&targets) {
            return Err(DomainError::DuplicateKillTarget);
        }
        Ok(ConnectionKillPlan { snapshot_id, targets })
    }

    /// The plan for the connections of a snapshot.
    pub fn from_records(snapshot_id: SnapshotId, records: &[ConnectionRecord]) -> (result: Result<
        Self,
        DomainError,
    >)
        ensures
            outcome::result_view(result) == (match connection_targets(
                records@,
                records@.len() as int,
            ) {
                Err(error) => Err(error),
                Ok(targets) => connection_plan(snapshot_id@, targets),
            }),
    {
        let mut targets: Vec<ConnectionKillTarget> = Vec::new();
        let mut i: usize = 0;
        while i < records.len()
            invariant
                i <= records@.len(),
                connection_targets(records@, i as int) == Ok::<_, DomainErrorView>(targets@),
            decreases records.len() - i,
        {
            match ConnectionKillTarget::try_from(&records[i]) {
                Ok(target) => {
                    targets.push(target);
                },
                Err(error) => {
                    proof {
                        lemma_connection_targets_fail(records@, i + 1, records@.len() as int);
                    }
                    return Err(error);
                },
            }
            i = i + 1;
        }
        ConnectionKillPlan::new(snapshot_id, targets)
    }

    pub fn snapshot_id(&self) -> (result: SnapshotId)
        ensures
            result@ == self@.snapshot_id,
    {
        self.snapshot_id
    }

    pub fn targets(&self) -> (result: &Vec<ConnectionKillTarget>)
        ensures
            result@ == self@.targets,
            result@.len() > 0,
            distinct_connections(result@),
    {
        proof {
            use_type_invariant(self);
        }
        &self.targets
    }

    pub fn len(&self) -> (result: usize)
        ensures
            result == self@.targets.len(),
    {
        self.targets.len()
    }

    pub fn is_empty(&self) -> (result: bool)
        ensures
            result == (self@.targets.len() == 0),
    {
        self.targets.len() == 0
    }
}

/// A working process to turn off.
#[derive(Debug, PartialEq, Eq)]
pub struct ProcessKillTarget {
    pub cluster: ClusterAlias,
    pub cluster_uuid: ClusterUuid,
    pub ras_address: RasEndpoint,
    pub process_id: ProcessUuid,
    pub pid: Option<i64>,
}

impl Clone for ProcessKillTarget {
    fn clone(&self) -> (result: Self)
        ensures
            result == *self,
    {
        ProcessKillTarget {
            cluster: self.cluster.clone(),
            cluster_uuid: self.cluster_uuid,
            ras_address: self.ras_address.clone(),
            process_id: self.process_id,
            pid: self.pid,
        }
    }
}

pub open spec fn process_target(record: ProcessRecord) -> ProcessKillTarget {
    ProcessKillTarget {
        cluster: record.source.cluster,
        cluster_uuid: record.source.cluster_uuid,
        ras_address: record.source.ras_address,
        process_id: record.process,
        pid: record.pid,
    }
}

pub open spec fn process_targets(records: Seq<ProcessRecord>) -> Seq<ProcessKillTarget> {
    records.map_values(|record: ProcessRecord| process_target(record))
}

pub open spec fn some_nil_process(targets: Seq<ProcessKillTarget>) -> bool {
    exists|i: int| 0 <= i < targets.len() && (#[trigger] targets[i]).process_id@ == 0
}

fn processes_repeat(targets: &Vec<ProcessKillTarget>) -> (result: bool)
    ensures
        result == !distinct_processes(targets@),
{
    let mut j: usize = 0;
    while j < targets.len()
        invariant
            j <= targets@.len(),
            distinct_processes(targets@.take(j as int)),
        decreases targets.len() - j,
    {
        let mut i: usize = 0;
        while i < j
            invariant
                i <= j < targets@.len(),
                forall|k: int|
                    0 <= k < i ==> !same_process(#[trigger] targets@[k], targets@[j as int]),
            decreases j - i,
        {
            if targets[i].cluster_uuid.same(targets[j].cluster_uuid)
                && targets[i].process_id.same(targets[j].process_id) {
                assert(same_process(targets@[i as int], targets@[j as int]));
                return true;
            }
            i = i + 1;
        }
        proof {
            let longer = targets@.take(j + 1);
            assert forall|a: int, b: int| 0 <= a < b < longer.len() implies !same_process(
                #[trigger] longer[a],
                #[trigger] longer[b],
            ) by {
                if b < j {
                    assert(longer[a] == targets@.take(j as int)[a]);
                    assert(longer[b] == targets@.take(j as int)[b]);
                }
            }
        }
        j = j + 1;
    }
    assert(targets@.take(targets@.len() as int) =~= targets@);
    false
}

/// Working processes to turn off, none twice.
#[derive(Debug, PartialEq, Eq)]
pub struct ProcessKillPlan {
    snapshot_id: SnapshotId,
    targets: Vec<ProcessKillTarget>,
}

pub struct ProcessPlanView {
    pub snapshot_id: u128,
    pub targets: Seq<ProcessKillTarget>,
}

impl View for ProcessKillPlan {
    type V = ProcessPlanView;

    closed spec fn view(&self) -> ProcessPlanView {
        ProcessPlanView { snapshot_id: self.snapshot_id@, targets: self.targets@ }
    }
}

/// The plan for the given processes.
pub open spec fn process_plan(snapshot_id: u128, targets: Seq<ProcessKillTarget>) -> Result<
    ProcessPlanView,
    DomainErrorView,
> {
    if targets.len() == 0 {
        Err(DomainErrorView::EmptyKillPlan)
    } else if some_nil_process(targets) {
        Err(DomainErrorView::MissingKillIdentity { field: "process"@ })
    } else if !distinct_processes(targets) {
        Err(DomainErrorView::DuplicateKillTarget)
    } else {
        Ok(ProcessPlanView { snapshot_id, targets })
    }
}

impl ProcessKillPlan {
    /// A plan has targets, all with identities, none twice.
    #[verifier::type_invariant]
    spec fn well_formed(self) -> bool {
        self.targets@.len() > 0 && !some_nil_process(self.targets@) && distinct_processes(
            self.targets@,
        )
    }

    pub fn new(snapshot_id: SnapshotId, targets: Vec<ProcessKillTarget>) -> (result: Result<
        Self,
        DomainError,
    >)
        ensures
            outcome::result_view(result) == process_plan(snapshot_id@, targets@),
    {
        if targets.len() == 0 {
            return Err(DomainError::EmptyKillPlan);
        }
        let mut i: usize = 0;
        while i < targets.len()
            invariant
                i <= targets@.len(),
                targets@.len() > 0,
                forall|j: int| 0 <= j < i ==> (#[trigger] targets@[j]).process_id@ != 0,
            decreases targets.len() - i,
        {
            if targets[i].process_id.is_nil() {
                return Err(DomainError::MissingKillIdentity { field: "process" });
            }
            i = i + 1;
        }
        if processes_repeat(&targets) {
            return Err(DomainError::DuplicateKillTarget);
        }
        Ok(ProcessKillPlan { snapshot_id, targets })
    }

    /// The plan for the processes of a snapshot.
    pub fn from_records(snapshot_id: SnapshotId, records: &[ProcessRecord]) -> (result: Result<
        Self,
        DomainError,
    >)
        ensures
            outcome::result_view(result) == process_plan(snapshot_id@, process_targets(records@)),
    {
        let mut targets: Vec<ProcessKillTarget> = Vec::new();
        let mut i: usize = 0;
        while i < records.len()
            invariant
                i <= records@.len(),
                targets@ == process_targets(records@.take(i as int)),
            decreases records.len() - i,
        {
            let record = &records[i];
            targets.push(
                ProcessKillTarget {
                    cluster: record.source.cluster.clone(),
                    cluster_uuid: record.source.cluster_uuid,
                    ras_address: record.source.ras_address.clone(),
                    process_id: record.process,
                    pid: record.pid,
                },
            );
            assert(targets@ =~= process_targets(records@.take(i + 1)));
            i = i + 1;
        }
        assert(records@.take(records@.len() as int) =~= records@);
        ProcessKillPlan::new(snapshot_id, targets)
    }

    pub fn snapshot_id(&self) -> (result: SnapshotId)
        ensures
            result@ == self@.snapshot_id,
    {
        self.snapshot_id
    }

    pub fn targets(&self) -> (result: &Vec<ProcessKillTarget>)
        ensures
            result@ == self@.targets,
            result@.len() > 0,
            distinct_processes(result@),
    {
        proof {
            use_type_invariant(self);
        }
        &self.targets
    }

    pub fn len(&self) -> (result: usize)
        ensures
            result == self@.targets.len(),
    {
        self.targets.len()
    }

    pub fn is_empty(&self) -> (result: bool)
        ensures
            result == (self@.targets.len() == 0),
    {
        self.targets.len() == 0
    }
}

} // verus!
