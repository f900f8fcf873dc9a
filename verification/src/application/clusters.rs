//! Connections to clusters: adding them and removing them.

use vstd::prelude::*;
use vstd::string::*;

use crate::application::conversion;
use crate::application::conversion::{
    domain_auth_to_config, domain_infobase_auth_to_config, domain_rac_to_config,
    search_policy_for_new_cluster, ApplicationConfigSnapshot, ApplicationView, ConfiguredTarget,
    ConfiguredView, RacOptions,
};
use crate::application::diagnostics::{DiagnosticsSnapshot, SelectedRac};
use crate::application::error::{AppError, AppErrorCategory, AppProblem};
use crate::application::normalize;
use crate::application::normalize::Fields;
use crate::application::ports::{PortError, PortProblem, RawConfigSnapshot, RawSnapshotView};
use crate::application::targets;
use crate::application::targets::config_port_error;
use crate::domain::auth::{AuthConfig, AuthView};
use crate::domain::model;
use crate::domain::model::{
    ClusterTarget, DiscoveredCluster, DiscoveredView, InfobaseAuthPolicy, PolicyView, RacPolicy,
    RacPolicyView, TargetView,
};
use crate::domain::timestamp::Timestamp;
use crate::domain::value;
use crate::domain::value::{ClusterAlias, EndpointView, RasEndpoint};
use crate::infrastructure::config::model as config;
use crate::infrastructure::config::model::{ClusterView, CredentialView, InfobaseAuthView};
use crate::infrastructure::rac::arguments::{CredentialsView, RacCredentials};
use crate::infrastructure::rac::error::{RacError, RacErrorView};
use crate::infrastructure::rac::locator::{SearchPolicy, SearchPolicyView};
use crate::infrastructure::rac::parser::RacRecord;
use crate::infrastructure::telemetry::audit::{
    AuditContext, AuditEvent, AuditResult, ContextView, EventView,
};
use crate::infrastructure::telemetry::audit_actions;
use crate::number;
use crate::outcome;
use crate::text;

verus! {

/// A configuration that was asked for: what the store gave, read for the services.
pub open spec fn read_or_told(
    raw: Result<RawSnapshotView, PortProblem>,
    defaults: SearchPolicyView,
) -> Result<Seq<ConfiguredView>, AppProblem> {
    match raw {
        Err(problem) => Err(targets::told_port(problem)),
        Ok(snapshot) => conversion::read_snapshot(snapshot, defaults),
    }
}

/// Reads what the store gave for the services.
pub fn read_stored(raw: Result<RawConfigSnapshot, PortError>, defaults: &SearchPolicy) -> (result:
    Result<ApplicationConfigSnapshot, AppError>)
    ensures
        match result {
            Ok(converted) => {
                &&& raw is Ok
                &&& read_or_told(outcome::result_view(raw), defaults@) is Ok
                &&& conversion::is_read_from(
                    converted@,
                    raw->Ok_0@,
                    read_or_told(outcome::result_view(raw), defaults@)->Ok_0,
                )
            },
            Err(error) => read_or_told(outcome::result_view(raw), defaults@) == Err::<
                Seq<ConfiguredView>,
                _,
            >(error@),
        },
{
    match raw {
        Ok(snapshot) => conversion::convert_config_snapshot(snapshot, defaults),
        Err(error) => Err(config_port_error(&error)),
    }
}

/// Reads the configuration for a request that may have been cancelled before or while it was read.
pub fn load_config_snapshot(
    cancelled_before: bool,
    raw: Result<RawConfigSnapshot, PortError>,
    cancelled_after: bool,
    defaults: &SearchPolicy,
) -> (result: Result<ApplicationConfigSnapshot, AppError>)
    ensures
        ({
            let expected = if cancelled_before {
                Err::<Seq<ConfiguredView>, AppProblem>(AppProblem::cancelled())
            } else {
                match raw {
                    Err(error) => Err(targets::told_port(error@)),
                    Ok(_) => if cancelled_after {
                        Err(AppProblem::cancelled())
                    } else {
                        read_or_told(outcome::result_view(raw), defaults@)
                    },
                }
            };
            match result {
                Ok(converted) => raw is Ok && expected is Ok && conversion::is_read_from(
                    converted@,
                    raw->Ok_0@,
                    expected->Ok_0,
                ),
                Err(error) => expected == Err::<Seq<ConfiguredView>, _>(error@),
            }
        }),
{
    if cancelled_before {
        return Err(AppError::cancelled());
    }
    match raw {
        Err(error) => Err(config_port_error(&error)),
        Ok(snapshot) => {
            if cancelled_after {
                return Err(AppError::cancelled());
            }
            read_stored(Ok(snapshot), defaults)
        },
    }
}

/// A cluster to be added.
pub struct ClusterAddRequest {
    pub alias: ClusterAlias,
    pub ras: RasEndpoint,
    pub cluster_auth: AuthConfig,
    pub infobase_auth: InfobaseAuthPolicy,
    pub rac_policy: RacPolicy,
    pub rac_options: RacOptions,
}

pub struct AddRequestView {
    pub alias: Seq<char>,
    pub ras: EndpointView,
    pub cluster_auth: AuthView,
    pub infobase_auth: PolicyView,
    pub rac_policy: RacPolicyView,
    pub explicit_path: Option<Seq<char>>,
}

impl View for ClusterAddRequest {
    type V = AddRequestView;

    open spec fn view(&self) -> AddRequestView {
        AddRequestView {
            alias: self.alias@,
            ras: self.ras@,
            cluster_auth: self.cluster_auth@,
            infobase_auth: self.infobase_auth@,
            rac_policy: self.rac_policy@,
            explicit_path: outcome::option_view(self.rac_options.explicit_path),
        }
    }
}

impl ClusterAddRequest {
    pub fn new(alias: ClusterAlias, ras: RasEndpoint, cluster_auth: AuthConfig) -> (result: Self)
        ensures
            result@ == (AddRequestView {
                alias: alias@,
                ras: ras@,
                cluster_auth: cluster_auth@,
                infobase_auth: PolicyView { default: AuthView::NoAuth, overrides: Seq::empty() },
                rac_policy: RacPolicyView::Auto,
                explicit_path: None,
            }),
    {
        ClusterAddRequest {
            alias,
            ras,
            cluster_auth,
            infobase_auth: InfobaseAuthPolicy::default(),
            rac_policy: RacPolicy::Auto,
            rac_options: RacOptions::default(),
        }
    }
}

/// What is known of a request before anything is asked of anyone: how its credentials are written
/// down, and how the utility is told of them.
pub struct AdditionDraft {
    cluster_auth: config::AuthConfig,
    infobase_auth: config::InfobaseAuthConfig,
    credentials: RacCredentials,
}

pub struct DraftView {
    pub cluster_auth: CredentialView,
    pub infobase_auth: InfobaseAuthView,
    pub credentials: CredentialsView,
}

impl View for AdditionDraft {
    type V = DraftView;

    closed spec fn view(&self) -> DraftView {
        DraftView {
            cluster_auth: self.cluster_auth@,
            infobase_auth: self.infobase_auth@,
            credentials: self.credentials@,
        }
    }
}

/// The draft of a request, or why it has none.
pub open spec fn drafted(request: AddRequestView) -> Result<DraftView, AppProblem> {
    match conversion::written_auth(request.cluster_auth) {
        Err(problem) => Err(problem),
        Ok(cluster_auth) => match conversion::written_policy(request.infobase_auth) {
            Err(problem) => Err(problem),
            Ok(infobase_auth) => match conversion::credentials_of(request.cluster_auth) {
                Err(problem) => Err(problem),
                Ok(credentials) => Ok(DraftView { cluster_auth, infobase_auth, credentials }),
            },
        },
    }
}

fn draft_addition(request: &ClusterAddRequest) -> (result: Result<AdditionDraft, AppError>)
    ensures
        outcome::result_view(result) == drafted(request@),
{
    let cluster_auth = match domain_auth_to_config(&request.cluster_auth) {
        Ok(auth) => auth,
        Err(error) => {
            return Err(error);
        },
    };
    let infobase_auth = match domain_infobase_auth_to_config(&request.infobase_auth) {
        Ok(auth) => auth,
        Err(error) => {
            return Err(error);
        },
    };
    let credentials = match conversion::auth_to_rac_credentials(&request.cluster_auth) {
        Ok(credentials) => credentials,
        Err(error) => {
            return Err(error);
        },
    };
    Ok(AdditionDraft { cluster_auth, infobase_auth, credentials })
}

/// The cluster that a new server has: exactly one, and readable.
pub open spec fn discovered_of(ras: Seq<char>, reply: Result<Seq<Fields>, RacErrorView>) -> Result<
    DiscoveredView,
    AppProblem,
> {
    match reply {
        Err(error) => Err(AppProblem::of_rac(error)),
        Ok(records) => if records.len() != 1 {
            Err(
                AppProblem::plain(
                    AppErrorCategory::AllTargetsFailed,
                    "invalid_cluster_count"@,
                    "RAS `"@ + ras + "` должен вернуть ровно один кластер, получено: "@
                        + number::decimal(records.len()),
                ),
            )
        } else {
            match normalize::cluster_of(records[0]) {
                Err(problem) => Err(
                    AppProblem::plain(
                        AppErrorCategory::AllTargetsFailed,
                        problem.code,
                        problem.message,
                    ),
                ),
                Ok((uuid, name, host, port)) => Ok(
                    DiscoveredView {
                        uuid,
                        name,
                        host,
                        port,
                        extra: normalize::cluster_reader(records[0]).finished(),
                    },
                ),
            }
        },
    }
}

fn discover_cluster(ras: &RasEndpoint, reply: &Result<Vec<RacRecord>, RacError>) -> (result: Result<
    DiscoveredCluster,
    AppError,
>)
    ensures
        outcome::result_view(result) == discovered_of(
            value::endpoint_text(ras@.host, ras@.port as nat),
            targets::reply_view(*reply),
        ),
{
    let records = match reply {
        Ok(records) => records,
        Err(error) => {
            return Err(AppError::target_operation(error));
        },
    };
    if records.len() != 1 {
        let mut message = "RAS `".to_owned();
        message.push_str(ras.as_str());
        message.push_str("` должен вернуть ровно один кластер, получено: ");
        message.push_str(number::format_u64(records.len() as u64).as_str());
        return Err(
            AppError::new(
                AppErrorCategory::AllTargetsFailed,
                "invalid_cluster_count",
                message.as_str(),
            ),
        );
    }
    assert(targets::record_views(records@)[0] == records@[0]@);
    match normalize::normalize_cluster(&records[0]) {
        Ok(cluster) => Ok(cluster),
        Err(error) => Err(
            AppError::new(AppErrorCategory::AllTargetsFailed, error.code(), error.message()),
        ),
    }
}

/// A new cluster as the configuration writes it.
pub open spec fn written_cluster(
    request: AddRequestView,
    draft: DraftView,
    cluster: DiscoveredView,
) -> ClusterView {
    let (rac_path, rac_version) = conversion::written_rac(request.rac_policy);
    ClusterView {
        ras_host: request.ras.host,
        ras_port: request.ras.port,
        uuid: cluster.uuid,
        name: cluster.name,
        host: cluster.host,
        port: cluster.port,
        rac_path,
        rac_version,
        cluster_auth: draft.cluster_auth,
        infobase_auth: draft.infobase_auth,
    }
}

fn write_cluster(request: &ClusterAddRequest, draft: AdditionDraft, cluster: &DiscoveredCluster) -> (result:
    config::ClusterConfig)
    ensures
        result@ == written_cluster(request@, draft@, cluster@),
{
    config::ClusterConfig {
        ras: config::RasConfig { host: request.ras.host().to_owned(), port: request.ras.port() },
        discovered_cluster: config::DiscoveredCluster {
            uuid: cluster.uuid.into_uuid(),
            name: cluster.name.clone(),
            host: cluster.host.clone(),
            port: cluster.port,
        },
        rac: domain_rac_to_config(&request.rac_policy),
        cluster_auth: draft.cluster_auth,
        infobase_auth: draft.infobase_auth,
    }
}

/// How far the addition of a cluster has come.
enum AdditionState {
    Loading(AdditionDraft),
    Verifying(AdditionDraft, SearchPolicy),
    Discovering(AdditionDraft, SearchPolicy),
    Authenticating(AdditionDraft, SearchPolicy, DiscoveredCluster),
    Writing(config::ClusterConfig),
    Added(ConfiguredTarget, String),
    Failed(AppError),
}

/// How far the addition of a cluster has come: the configuration is read, the account is verified,
/// the server is asked for its cluster, the credentials are tried, and the cluster is written down.
pub enum AdditionView {
    Loading { draft: DraftView },
    Verifying { draft: DraftView, policy: SearchPolicyView },
    Discovering { draft: DraftView, policy: SearchPolicyView },
    Authenticating { draft: DraftView, policy: SearchPolicyView, cluster: DiscoveredView },
    Writing { cluster: ClusterView },
    Added { target: ConfiguredView, path: Seq<char> },
    Failed { problem: AppProblem },
}

impl AdditionState {
    spec fn shown(self) -> AdditionView {
        match self {
            AdditionState::Loading(draft) => AdditionView::Loading { draft: draft@ },
            AdditionState::Verifying(draft, policy) => AdditionView::Verifying {
                draft: draft@,
                policy: policy@,
            },
            AdditionState::Discovering(draft, policy) => AdditionView::Discovering {
                draft: draft@,
                policy: policy@,
            },
            AdditionState::Authenticating(draft, policy, cluster) => {
                AdditionView::Authenticating {
                    draft: draft@,
                    policy: policy@,
                    cluster: cluster@,
                }
            },
            AdditionState::Writing(cluster) => AdditionView::Writing { cluster: cluster@ },
            AdditionState::Added(target, path) => AdditionView::Added {
                target: target@,
                path: path@,
            },
            AdditionState::Failed(error) => AdditionView::Failed { problem: error@ },
        }
    }
}

impl AdditionView {
    pub open spec fn start(request: AddRequestView, cancelled: bool) -> AdditionView {
        if cancelled {
            AdditionView::Failed { problem: AppProblem::cancelled() }
        } else {
            match drafted(request) {
                Err(problem) => AdditionView::Failed { problem },
                Ok(draft) => AdditionView::Loading { draft },
            }
        }
    }

    /// The configuration was read. Its aliases must not hold that of the request.
    pub open spec fn loaded(
        self,
        request: AddRequestView,
        snapshot: Result<ApplicationView, AppProblem>,
        defaults: SearchPolicyView,
    ) -> AdditionView {
        match (self, snapshot) {
            (AdditionView::Loading { .. }, Err(problem)) => AdditionView::Failed { problem },
            (AdditionView::Loading { draft }, Ok(view)) => if view.target(request.alias) is Some {
                AdditionView::Failed {
                    problem: AppProblem::invalid(
                        "cluster_already_exists"@,
                        "Подключение с alias `"@ + request.alias + "` уже существует"@,
                    ),
                }
            } else {
                AdditionView::Verifying {
                    draft,
                    policy: conversion::new_cluster_policy(
                        view.global_rac_path,
                        request.rac_policy,
                        request.explicit_path,
                        defaults,
                    ),
                }
            },
            (unchanged, _) => unchanged,
        }
    }

    /// The account that the credentials expect was verified, or not.
    pub open spec fn verified(self, failure: Option<PortProblem>) -> AdditionView {
        match (self, failure) {
            (AdditionView::Verifying { draft, policy }, None) => AdditionView::Discovering {
                draft,
                policy,
            },
            (AdditionView::Verifying { .. }, Some(error)) => AdditionView::Failed {
                problem: AppProblem::plain(
                    AppErrorCategory::AllTargetsFailed,
                    error.code,
                    error.message,
                ),
            },
            (unchanged, _) => unchanged,
        }
    }

    /// The server told of its clusters.
    pub open spec fn listed(
        self,
        request: AddRequestView,
        reply: Result<Seq<Fields>, RacErrorView>,
    ) -> AdditionView {
        match self {
            AdditionView::Discovering { draft, policy } => match discovered_of(
                value::endpoint_text(request.ras.host, request.ras.port as nat),
                reply,
            ) {
                Err(problem) => AdditionView::Failed { problem },
                Ok(cluster) => AdditionView::Authenticating { draft, policy, cluster },
            },
            unchanged => unchanged,
        }
    }

    /// A command with the credentials succeeded or failed.
    pub open spec fn authenticated(
        self,
        request: AddRequestView,
        failure: Option<RacErrorView>,
        cancelled: bool,
    ) -> AdditionView {
        match (self, failure) {
            (AdditionView::Authenticating { .. }, Some(error)) => AdditionView::Failed {
                problem: AppProblem::of_rac(error),
            },
            (AdditionView::Authenticating { draft, cluster, .. }, None) => if cancelled {
                AdditionView::Failed { problem: AppProblem::cancelled() }
            } else {
                AdditionView::Writing { cluster: written_cluster(request, draft, cluster) }
            },
            (unchanged, _) => unchanged,
        }
    }

    /// The cluster was written down, or not.
    pub open spec fn written(
        self,
        request: AddRequestView,
        stored: Result<ApplicationView, AppProblem>,
    ) -> AdditionView {
        match (self, stored) {
            (AdditionView::Writing { .. }, Err(problem)) => AdditionView::Failed { problem },
            (AdditionView::Writing { .. }, Ok(view)) => match view.target(request.alias) {
                Some(target) => AdditionView::Added { target, path: view.path },
                None => AdditionView::Failed {
                    problem: AppProblem::internal(
                        "config_write_invariant"@,
                        "Добавленный кластер отсутствует в записанном снимке конфигурации"@,
                    ),
                },
            },
            (unchanged, _) => unchanged,
        }
    }
}

/// The addition of a cluster, step by step.
pub struct ClusterAddition {
    request: ClusterAddRequest,
    state: AdditionState,
}

impl View for ClusterAddition {
    type V = AdditionView;

    closed spec fn view(&self) -> AdditionView {
        self.state.shown()
    }
}

/// What is to be done next for an addition.
pub enum AdditionStep<'a> {
    Load,
    Verify { expected_os_user: Option<&'a str> },
    ListClusters { policy: &'a SearchPolicy },
    ListInfobases {
        policy: &'a SearchPolicy,
        cluster: &'a DiscoveredCluster,
        credentials: &'a RacCredentials,
    },
    Write { cluster: &'a config::ClusterConfig },
    Finished,
}

impl ClusterAddition {
    pub closed spec fn request_view(self) -> AddRequestView {
        self.request@
    }

    pub fn new(request: ClusterAddRequest, cancelled: bool) -> (result: Self)
        ensures
            result.request_view() == request@,
            result@ == AdditionView::start(request@, cancelled),
    {
        let state = if cancelled {
            AdditionState::Failed(AppError::cancelled())
        } else {
            match draft_addition(&request) {
                Ok(draft) => AdditionState::Loading(draft),
                Err(error) => AdditionState::Failed(error),
            }
        };
        ClusterAddition { request, state }
    }

    pub fn request(&self) -> (result: &ClusterAddRequest)
        ensures
            result@ == self.request_view(),
    {
        &self.request
    }

    /// What is to be done next.
    pub fn step(&self) -> (result: AdditionStep<'_>)
        ensures
            match self@ {
                AdditionView::Loading { .. } => result is Load,
                AdditionView::Verifying { .. } => {
                    &&& result matches AdditionStep::Verify { expected_os_user }
                    &&& outcome::option_view(expected_os_user) == (match self.request_view().cluster_auth {
                        AuthView::Os { os_user, .. } => os_user,
                        _ => None,
                    })
                },
                AdditionView::Discovering { policy, .. } => {
                    &&& result matches AdditionStep::ListClusters { policy: used }
                    &&& used@ == policy
                },
                AdditionView::Authenticating { draft, policy, cluster } => {
                    &&& result matches AdditionStep::ListInfobases {
                        policy: used,
                        cluster: asked,
                        credentials,
                    }
                    &&& used@ == policy
                    &&& asked@ == cluster
                    &&& credentials@ == draft.credentials
                },
                AdditionView::Writing { cluster } => {
                    &&& result matches AdditionStep::Write { cluster: written }
                    &&& written@ == cluster
                },
                _ => result is Finished,
            },
    {
        match &self.state {
            AdditionState::Loading(_) => AdditionStep::Load,
            AdditionState::Verifying(_, _) => AdditionStep::Verify {
                expected_os_user: self.request.cluster_auth.expected_os_user(),
            },
            AdditionState::Discovering(_, policy) => AdditionStep::ListClusters { policy },
            AdditionState::Authenticating(draft, policy, cluster) => {
                AdditionStep::ListInfobases { policy, cluster, credentials: &draft.credentials }
            },
            AdditionState::Writing(cluster) => AdditionStep::Write { cluster },
            AdditionState::Added(_, _) => AdditionStep::Finished,
            AdditionState::Failed(_) => AdditionStep::Finished,
        }
    }

    /// Takes in the configuration.
    pub fn loaded(
        self,
        snapshot: Result<ApplicationConfigSnapshot, AppError>,
        defaults: &SearchPolicy,
    ) -> (result: Self)
        ensures
            result.request_view() == self.request_view(),
            result@ == self@.loaded(
                self.request_view(),
                outcome::result_view(snapshot),
                defaults@,
            ),
    {
        let request = self.request;
        let state = match self.state {
            AdditionState::Loading(draft) => match snapshot {
                Err(error) => AdditionState::Failed(error),
                Ok(found) => {
                    if found.target(&request.alias).is_some() {
                        let mut message = "Подключение с alias `".to_owned();
                        message.push_str(request.alias.as_str());
                        message.push_str("` уже существует");
                        AdditionState::Failed(
                            AppError::invalid("cluster_already_exists", message.as_str()),
                        )
                    } else {
                        let policy = search_policy_for_new_cluster(
                            &found.global_rac_path,
                            &request.rac_policy,
                            &request.rac_options,
                            defaults,
                        );
                        AdditionState::Verifying(draft, policy)
                    }
                },
            },
            unchanged => unchanged,
        };
        ClusterAddition { request, state }
    }

    /// Takes in whether the account was verified.
    pub fn verified(self, failure: Option<PortError>) -> (result: Self)
        ensures
            result.request_view() == self.request_view(),
            result@ == self@.verified(outcome::option_view(failure)),
    {
        let request = self.request;
        let state = match self.state {
            AdditionState::Verifying(draft, policy) => match failure {
                None => AdditionState::Discovering(draft, policy),
                Some(error) => AdditionState::Failed(
                    AppError::new(
                        AppErrorCategory::AllTargetsFailed,
                        error.code,
                        error.message.as_str(),
                    ),
                ),
            },
            unchanged => unchanged,
        };
        ClusterAddition { request, state }
    }

    /// Takes in what the server told of its clusters.
    pub fn listed(self, reply: &Result<Vec<RacRecord>, RacError>) -> (result: Self)
        ensures
            result.request_view() == self.request_view(),
            result@ == self@.listed(self.request_view(), targets::reply_view(*reply)),
    {
        let request = self.request;
        let state = match self.state {
            AdditionState::Discovering(draft, policy) => match discover_cluster(
                &request.ras,
                reply,
            ) {
                Ok(cluster) => AdditionState::Authenticating(draft, policy, cluster),
                Err(error) => AdditionState::Failed(error),
            },
            unchanged => unchanged,
        };
        ClusterAddition { request, state }
    }

    /// Takes in whether a command with the credentials succeeded.
    pub fn authenticated(self, reply: &Result<Vec<RacRecord>, RacError>, cancelled: bool) -> (result:
        Self)
        ensures
            result.request_view() == self.request_view(),
            result@ == self@.authenticated(
                self.request_view(),
                match *reply {
                    Ok(_) => None,
                    Err(error) => Some(error@),
                },
                cancelled,
            ),
    {
        let request = self.request;
        let state = match self.state {
            AdditionState::Authenticating(draft, policy, cluster) => match reply {
                Err(error) => AdditionState::Failed(AppError::target_operation(error)),
                Ok(_) => {
                    if cancelled {
                        AdditionState::Failed(AppError::cancelled())
                    } else {
                        AdditionState::Writing(write_cluster(&request, draft, &cluster))
                    }
                },
            },
            unchanged => unchanged,
        };
        ClusterAddition { request, state }
    }

    /// Takes in the configuration that was written.
    pub fn written(self, stored: Result<ApplicationConfigSnapshot, AppError>) -> (result: Self)
        ensures
            result.request_view() == self.request_view(),
            result@ == self@.written(self.request_view(), outcome::result_view(stored)),
    {
        let request = self.request;
        let state = match self.state {
            AdditionState::Writing(cluster) => match stored {
                Err(error) => AdditionState::Failed(error),
                Ok(found) => match found.target(&request.alias) {
                    Some(target) => AdditionState::Added(target.clone(), found.path.clone()),
                    None => AdditionState::Failed(
                        AppError::internal(
                            "config_write_invariant",
                            "Добавленный кластер отсутствует в записанном снимке конфигурации",
                        ),
                    ),
                },
            },
            unchanged => unchanged,
        };
        ClusterAddition { request, state }
    }

    /// The target that was added and the file that it was written to, or why it was not. An addition
    /// that has not come to its end gives nothing.
    pub fn into_result(self) -> (result: Option<Result<(ConfiguredTarget, String), AppError>>)
        ensures
            match self@ {
                AdditionView::Added { target, path } => {
                    &&& result matches Some(Ok(added))
                    &&& added.0@ == target
                    &&& added.1@ == path
                },
                AdditionView::Failed { problem } => {
                    &&& result matches Some(Err(error))
                    &&& error@ == problem
                },
                _ => result is None,
            },
    {
        match self.state {
            AdditionState::Added(target, path) => Some(Ok((target, path))),
            AdditionState::Failed(error) => Some(Err(error)),
            _ => None,
        }
    }
}

/// Nothing is written down before a command with the credentials of the request succeeded, and then
/// only where the request was not cancelled.
pub proof fn law_nothing_is_written_before_authentication(
    state: AdditionView,
    request: AddRequestView,
    cancelled: bool,
    snapshot: Result<ApplicationView, AppProblem>,
    defaults: SearchPolicyView,
    unverified: Option<PortProblem>,
    reply: Result<Seq<Fields>, RacErrorView>,
    failure: Option<RacErrorView>,
)
    ensures
        !(AdditionView::start(request, cancelled) is Writing),
        !(state is Writing) ==> {
            &&& !(state.loaded(request, snapshot, defaults) is Writing)
            &&& !(state.verified(unverified) is Writing)
            &&& !(state.listed(request, reply) is Writing)
            &&& !(state.written(request, snapshot) is Writing)
            &&& state.authenticated(request, failure, cancelled) is Writing ==> state
                is Authenticating && failure is None && !cancelled
        },
        state is Added || state.written(request, snapshot) is Added ==> state is Added || state
            is Writing,
{
}

/// A cluster that was written down reads back as the request and the server described it.
pub proof fn law_added_cluster_reads_back(
    request: AddRequestView,
    cluster: DiscoveredView,
    global_rac_path: Option<Seq<char>>,
    defaults: SearchPolicyView,
)
    requires
        value::is_alias(request.alias),
        value::endpoint_of(request.ras.host, request.ras.port) == Ok::<
            _,
            crate::domain::error::DomainErrorView,
        >(request.ras),
        value::endpoint_of(cluster.host, cluster.port) is Ok,
        conversion::is_sound(request.cluster_auth),
        conversion::is_sound(request.infobase_auth.default),
        forall|i: int|
            0 <= i < request.infobase_auth.overrides.len() ==> conversion::is_sound(
                (#[trigger] request.infobase_auth.overrides[i]).auth,
            ),
        model::first_conflict(request.infobase_auth.overrides, 0) is None,
        drafted(request) is Ok,
    ensures
        ({
            let draft = drafted(request)->Ok_0;
            let read = conversion::read_target(
                request.alias,
                written_cluster(request, draft, cluster),
                global_rac_path,
                defaults,
            );
            &&& read is Ok
            &&& read->Ok_0.target == (TargetView {
                alias: request.alias,
                ras: request.ras,
                discovered_cluster: DiscoveredView { extra: Seq::empty(), ..cluster },
                rac_policy: request.rac_policy,
                cluster_auth: request.cluster_auth,
                infobase_auth: request.infobase_auth,
            })
            &&& read->Ok_0.cluster_credentials == draft.credentials
        }),
{
    conversion::law_credentials_read_back(request.cluster_auth);
    conversion::law_policy_reads_back(request.infobase_auth);
    conversion::law_rac_policy_reads_back(request.alias, request.rac_policy);
}

/// A cluster that was added.
pub struct ClusterAddOutcome {
    pub target: ClusterTarget,
    pub config_path: String,
    pub selected_rac: Option<SelectedRac>,
}

/// The position of the copy of the utility that serves an alias, from `from` on, or the length.
pub open spec fn selected_position(selected: Seq<SelectedRac>, alias: Seq<char>, from: int) -> int
    decreases selected.len() - from,
{
    if from >= selected.len() {
        selected.len() as int
    } else if text::same_ignoring_ascii_case(selected[from].cluster@, alias) {
        from
    } else {
        selected_position(selected, alias, from + 1)
    }
}

/// The copy of the utility that serves an alias.
pub fn selected_rac(diagnostics: &DiagnosticsSnapshot, alias: &ClusterAlias) -> (result: Option<
    SelectedRac,
>)
    ensures
        ({
            let selected = diagnostics.selected_rac@;
            let at = selected_position(selected, alias@, 0);
            result == (if at < selected.len() {
                Some(selected[at])
            } else {
                None
            })
        }),
{
    let mut i: usize = 0;
    while i < diagnostics.selected_rac.len()
        invariant
            i <= diagnostics.selected_rac.len(),
            selected_position(diagnostics.selected_rac@, alias@, 0) == selected_position(
                diagnostics.selected_rac@,
                alias@,
                i as int,
            ),
        decreases diagnostics.selected_rac.len() - i,
    {
        if text::eq_ignore_ascii_case(
            diagnostics.selected_rac[i].cluster.as_str(),
            alias.as_str(),
        ) {
            return Some(diagnostics.selected_rac[i].clone());
        }
        i = i + 1;
    }
    None
}

/// What a failure counts as in the records.
pub open spec fn failure_result(problem: AppProblem) -> AuditResult {
    if problem.category == AppErrorCategory::Cancelled {
        AuditResult::Cancelled
    } else {
        AuditResult::Failure
    }
}

/// The record of an action that succeeded or failed.
pub open spec fn action_event(
    timestamp: Timestamp,
    windows_user: Seq<char>,
    action: Seq<char>,
    context: ContextView,
    failure: Option<AppProblem>,
) -> EventView {
    match failure {
        None => EventView::bare(
            timestamp,
            windows_user,
            action,
            AuditResult::Success,
        ).with_context(context),
        Some(problem) => EventView::bare(
            timestamp,
            windows_user,
            action,
            failure_result(problem),
        ).with_context(context).with_error(problem.code, problem.message),
    }
}

pub(crate) fn audit_action(
    timestamp: Timestamp,
    windows_user: &str,
    action: &str,
    context: AuditContext,
    failure: Option<&AppError>,
) -> (result: AuditEvent)
    ensures
        result@ == action_event(
            timestamp,
            windows_user@,
            action@,
            context@,
            outcome::option_view(failure),
        ),
{
    match failure {
        None => AuditEvent::new(timestamp, windows_user, action, AuditResult::Success).with_context(
            context,
        ),
        Some(error) => {
            let result = if error.category() == AppErrorCategory::Cancelled {
                AuditResult::Cancelled
            } else {
                AuditResult::Failure
            };
            AuditEvent::new(timestamp, windows_user, action, result).with_context(
                context,
            ).with_error(error.code(), error.message())
        },
    }
}

/// A change that is recorded.
#[derive(Clone, Copy, Debug, PartialEq, Eq, Structural)]
pub enum AuditedChange {
    ClusterAdded,
    ClusterRemoved,
    OverrideChanged,
}

impl AuditedChange {
    /// What the change did.
    pub open spec fn text(self) -> Seq<char> {
        match self {
            AuditedChange::ClusterAdded => "Подключение к кластеру добавлено"@,
            AuditedChange::ClusterRemoved => "Подключение удалено"@,
            AuditedChange::OverrideChanged => "Переопределение учетных данных изменено"@,
        }
    }

    fn as_str(self) -> (result: &'static str)
        ensures
            result@ == self.text(),
    {
        match self {
            AuditedChange::ClusterAdded => "Подключение к кластеру добавлено",
            AuditedChange::ClusterRemoved => "Подключение удалено",
            AuditedChange::OverrideChanged => "Переопределение учетных данных изменено",
        }
    }
}

/// What the operator is told of an action that was or was not recorded: an action that took effect
/// and was not recorded is a failure of its own, and a failure that was not recorded stays what it
/// was, with the reason added.
pub fn complete_audit<T>(
    result: Result<T, AppError>,
    unrecorded: Option<PortError>,
    change: AuditedChange,
) -> (told: Result<T, AppError>)
    ensures
        match (result, unrecorded) {
            (Ok(value), None) => told == Ok::<T, AppError>(value),
            (Ok(_), Some(error)) => told is Err && told->Err_0@ == AppProblem::internal(
                "audit_write_failed"@,
                change.text() + ", но событие аудита не записано: "@ + error@.message,
            ),
            (Err(error), None) => told == Err::<T, AppError>(error),
            (Err(error), Some(reason)) => told is Err && told->Err_0@ == error@.with_audit(
                reason@.message,
            ),
        },
{
    match (result, unrecorded) {
        (Ok(value), None) => Ok(value),
        (Ok(_), Some(error)) => {
            let mut message = change.as_str().to_owned();
            message.push_str(", но событие аудита не записано: ");
            message.push_str(error.message.as_str());
            Err(AppError::internal("audit_write_failed", message.as_str()))
        },
        (Err(error), None) => Err(error),
        (Err(error), Some(reason)) => Err(error.with_audit_error(reason.message.as_str())),
    }
}

/// An effect that was not recorded never looks like a success.
pub proof fn law_unrecorded_effects_are_told(problem: AppProblem, reason: Seq<char>)
    ensures
        problem.with_audit(reason).audit_error == Some(reason),
        problem.with_audit(reason).category == problem.category,
        problem.with_audit(reason).message == problem.message,
        AppProblem::internal("audit_write_failed"@, reason).category.code_of()
            != crate::application::error::AppExitCode::Success,
{
}

/// The record of the addition of a cluster.
pub fn audit_cluster_add(
    timestamp: Timestamp,
    windows_user: &str,
    alias: &ClusterAlias,
    result: &Result<ClusterAddOutcome, AppError>,
) -> (event: AuditEvent)
    ensures
        event@ == action_event(
            timestamp,
            windows_user@,
            audit_actions::CLUSTER_ADD@,
            ContextView {
                cluster_alias: Some(alias@),
                cluster_uuid: (match *result {
                    Ok(added) => Some(added.target.discovered_cluster.uuid@),
                    Err(_) => None,
                }),
                ..ContextView::nothing()
            },
            (match *result {
                Ok(_) => None,
                Err(error) => Some(error@),
            }),
        ),
{
    let mut context = AuditContext::default();
    context.cluster_alias = Some(alias.as_str().to_owned());
    match result {
        Ok(added) => {
            context.cluster_uuid = Some(added.target.discovered_cluster.uuid.into_uuid());
            audit_action(timestamp, windows_user, audit_actions::CLUSTER_ADD, context, None)
        },
        Err(error) => audit_action(
            timestamp,
            windows_user,
            audit_actions::CLUSTER_ADD,
            context,
            Some(error),
        ),
    }
}

/// A cluster whose removal the operator was shown.
pub struct ClusterRemovePlan {
    pub target: ClusterTarget,
}

/// A cluster that was removed.
pub struct ClusterRemoveOutcome {
    pub removed: ClusterTarget,
    pub config_path: String,
}

/// The cluster that an alias names, for its removal.
pub open spec fn removal_plan(alias: Seq<char>, view: ApplicationView) -> Result<TargetView, AppProblem> {
    match value::alias_of(alias) {
        Err(error) => Err(AppProblem::of_domain(error)),
        Ok(alias) => match view.target(alias) {
            Some(configured) => Ok(configured.target),
            None => Err(AppProblem::no_objects("cluster"@)),
        },
    }
}

/// Plans the removal of the cluster that an alias names.
pub fn prepare_cluster_remove(alias: &str, snapshot: &ApplicationConfigSnapshot) -> (result: Result<
    ClusterRemovePlan,
    AppError,
>)
    ensures
        match result {
            Ok(plan) => removal_plan(alias@, snapshot@) == Ok::<_, AppProblem>(plan.target@),
            Err(error) => removal_plan(alias@, snapshot@) == Err::<TargetView, _>(error@),
        },
{
    let alias = match ClusterAlias::new(alias) {
        Ok(alias) => alias,
        Err(error) => {
            return Err(AppError::from_domain(&error));
        },
    };
    match snapshot.target(&alias) {
        Some(configured) => Ok(ClusterRemovePlan { target: configured.target.clone() }),
        None => Err(AppError::no_objects("cluster")),
    }
}

/// Why a planned removal cannot be carried out: the cluster is gone, or it is another one by now, or
/// the request was cancelled.
pub open spec fn removal_problem(
    plan: TargetView,
    view: ApplicationView,
    cancelled: bool,
) -> Option<AppProblem> {
    match view.target(plan.alias) {
        None => Some(AppProblem::no_objects("cluster"@)),
        Some(current) => if current.target.discovered_cluster.uuid
            != plan.discovered_cluster.uuid {
            Some(
                AppProblem::invalid(
                    "cluster_changed"@,
                    "Подключение изменилось после подготовки удаления; создайте новый план"@,
                ),
            )
        } else if cancelled {
            Some(AppProblem::cancelled())
        } else {
            None
        },
    }
}

/// Checks that a planned removal can be carried out.
pub fn check_cluster_remove(
    plan: &ClusterRemovePlan,
    snapshot: &ApplicationConfigSnapshot,
    cancelled: bool,
) -> (result: Result<(), AppError>)
    ensures
        match removal_problem(plan.target@, snapshot@, cancelled) {
            Some(problem) => result is Err && result->Err_0@ == problem,
            None => result is Ok,
        },
{
    let current = match snapshot.target(&plan.target.alias) {
        Some(current) => current,
        None => {
            return Err(AppError::no_objects("cluster"));
        },
    };
    if !current.target.discovered_cluster.uuid.same(plan.target.discovered_cluster.uuid) {
        return Err(
            AppError::invalid(
                "cluster_changed",
                "Подключение изменилось после подготовки удаления; создайте новый план",
            ),
        );
    }
    targets::ensure_not_cancelled(cancelled)
}

/// What was removed, and from which file.
pub fn finish_cluster_remove(
    plan: &ClusterRemovePlan,
    written: Result<RawConfigSnapshot, PortError>,
) -> (result: Result<ClusterRemoveOutcome, AppError>)
    ensures
        match written {
            Ok(snapshot) => result is Ok && result->Ok_0.removed@ == plan.target@
                && result->Ok_0.config_path@ == snapshot@.path,
            Err(error) => result is Err && result->Err_0@ == targets::told_port(error@),
        },
{
    match written {
        Ok(snapshot) => Ok(
            ClusterRemoveOutcome { removed: plan.target.clone(), config_path: snapshot.path },
        ),
        Err(error) => Err(config_port_error(&error)),
    }
}

/// The record of the removal of a cluster.
pub fn audit_cluster_remove(
    timestamp: Timestamp,
    windows_user: &str,
    plan: &ClusterRemovePlan,
    failure: Option<&AppError>,
) -> (event: AuditEvent)
    ensures
        event@ == action_event(
            timestamp,
            windows_user@,
            audit_actions::CLUSTER_REMOVE@,
            ContextView {
                cluster_alias: Some(plan.target@.alias),
                cluster_uuid: Some(plan.target@.discovered_cluster.uuid),
                ..ContextView::nothing()
            },
            outcome::option_view(failure),
        ),
{
    let mut context = AuditContext::default();
    context.cluster_alias = Some(plan.target.alias.as_str().to_owned());
    context.cluster_uuid = Some(plan.target.discovered_cluster.uuid.into_uuid());
    audit_action(timestamp, windows_user, audit_actions::CLUSTER_REMOVE, context, failure)
}

/// A removal is carried out only on the very cluster that the operator was shown.
pub proof fn law_removal_needs_the_planned_cluster(
    plan: TargetView,
    view: ApplicationView,
    cancelled: bool,
)
    ensures
        removal_problem(plan, view, cancelled) is None ==> view.target(plan.alias) is Some
            && view.target(plan.alias)->0.target.discovered_cluster.uuid
            == plan.discovered_cluster.uuid && !cancelled,
{
}

} // verus!
