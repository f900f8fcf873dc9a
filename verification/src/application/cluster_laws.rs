//! What configured clusters are for: which of them are asked, what they are taken for, who asks them, and
//! what is written down of them.

use vstd::prelude::*;
use vstd::string::*;

use crate::application::clusters;
use crate::application::clusters::{
    audit_cluster_add, audit_cluster_remove, check_cluster_remove, complete_audit,
    finish_cluster_remove, prepare_cluster_remove, selected_rac, AddRequestView, AdditionView,
    AuditedChange, ClusterAddOutcome, ClusterRemoveOutcome, ClusterRemovePlan,
};
use crate::application::connections::{connection_credentials, ConnectionCredentials};
use crate::application::conversion;
use crate::application::conversion::{
    ApplicationConfigSnapshot, ApplicationView, ConfiguredTarget, ConfiguredView,
};
use crate::application::credentials::{
    audit_credential_change, check_override_add, check_override_remove, credential_overrides,
    CredentialMutation, CredentialOverrideAddRequest, CredentialOverrideRemoveRequest,
    CredentialSelectorView, CredentialWriteOutcome,
};
use crate::application::diagnostics;
use crate::application::diagnostics::{update_diagnostics, DiagnosticsSnapshot, SelectedRac};
use crate::application::error;
use crate::application::error::{AppError, AppErrorCategory, AppExitCode, AppProblem};
use crate::application::listing;
use crate::application::outcome::ActionError;
use crate::application::ports::{config_error, PortError, PortErrorKind, RawConfigSnapshot};
use crate::application::reading_laws;
use crate::application::targets;
use crate::application::targets::{
    live_cluster, select_configured_targets, ClusterSelector, LiveCluster,
};
use crate::domain::auth::AuthView;
use crate::domain::kill::ConnectionKillTarget;
use crate::domain::mask;
use crate::domain::model;
use crate::domain::model::{FieldAccess, InfobaseAuthOverride, OverrideView, RacPolicyView};
use crate::domain::outcome::{QueryOutcome, TargetError, TargetErrorKind};
use crate::domain::query::QuerySpec;
use crate::domain::timestamp::Timestamp;
use crate::domain::value;
use crate::domain::value::ClusterAlias;
use crate::infrastructure::config::error::ConfigError;
use crate::infrastructure::config::model::{ClusterView, CredentialView};
use crate::infrastructure::rac::arguments::CredentialsView;
use crate::infrastructure::rac::error::{RacError, RacErrorKind, RacErrorView};
use crate::infrastructure::rac::locator::{
    CandidateView, RacCandidate, SearchPolicy, SearchPolicyView, SelectionView,
};
use crate::infrastructure::rac::parser::RacRecord;
use crate::infrastructure::telemetry::audit::{AuditEvent, AuditResult};
use crate::text;

verus! {

/// A configured cluster goes by an alias, but for ASCII case.
pub open spec fn goes_by(configured: ConfiguredView, alias: Seq<char>) -> bool {
    text::same_ignoring_ascii_case(configured.target.alias, alias)
}

proof fn lemma_target_position(targets: Seq<ConfiguredView>, alias: Seq<char>, from: int)
    requires
        0 <= from <= targets.len(),
    ensures
        ({
            let at = conversion::target_position(targets, alias, from);
            &&& from <= at <= targets.len()
            &&& at < targets.len() ==> goes_by(targets[at], alias)
            &&& forall|i: int| from <= i < at ==> !goes_by(#[trigger] targets[i], alias)
        }),
    decreases targets.len() - from,
{
    if from < targets.len() && !goes_by(targets[from], alias) {
        lemma_target_position(targets, alias, from + 1);
    }
}

/// Without a selector every configured cluster is asked. With one, a cluster is asked only where its alias
/// is the text of the selector or is covered by it as a mask; and every covered cluster is asked, unless
/// the text is an alias itself.
pub proof fn law_selectors_choose_by_alias(
    snapshot: ApplicationConfigSnapshot,
    selector: ClusterSelector,
    chosen: Vec<ConfiguredTarget>,
    i: int,
    k: int,
)
    requires
        call_ensures(
            select_configured_targets,
            (&snapshot, &selector),
            Ok::<Vec<ConfiguredTarget>, AppError>(chosen),
        ),
        0 <= i < chosen@.len(),
        0 <= k < snapshot@.targets.len(),
    ensures
        snapshot@.targets.contains(chosen@[i]@),
        selector@ is None ==> conversion::configured_views(chosen@) == snapshot@.targets,
        selector@ is Some ==> goes_by(chosen@[i]@, selector@->0) || mask::mask_matches(
            selector@->0,
            chosen@[i]@.target.alias,
        ),
        selector@ is Some && mask::mask_matches(selector@->0, snapshot@.targets[k].target.alias)
            && (forall|j: int|
            0 <= j < snapshot@.targets.len() ==> !goes_by(
                #[trigger] snapshot@.targets[j],
                selector@->0,
            )) ==> conversion::configured_views(chosen@).contains(snapshot@.targets[k]),
        selector@ is Some && goes_by(snapshot@.targets[k], selector@->0) ==> chosen@.len() == 1
            && goes_by(chosen@[0]@, selector@->0),
{
    let views = conversion::configured_views(chosen@);
    let all = snapshot@.targets;
    assert(views[i] == chosen@[i]@);
    assert(views.contains(views[i]));
    if selector@ is Some {
        let source = selector@->0;
        let keep = |target: ConfiguredView| mask::mask_matches(source, target.target.alias);
        lemma_target_position(all, source, 0);
        broadcast use vstd::seq_lib::group_filter_ensures;

        let at = conversion::target_position(all, source, 0);
        if at < all.len() {
            assert(views =~= seq![all[at]]);
            assert(views[0] == chosen@[0]@);
            assert(all.contains(all[at]));
        } else {
            all.lemma_filter_contains_rev(keep, views[i]);
            if mask::mask_matches(source, all[k].target.alias) {
                all.lemma_filter_contains(keep, k);
            }
        }
    }
}

/// A cluster that answered is told by the alias and the server of its configuration, and by the identity,
/// the name, the host and the port that it prints itself; its identity is the configured one.
pub proof fn law_live_clusters_are_told_as_they_answer(
    configured: ConfiguredTarget,
    policy: SearchPolicy,
    records: Vec<RacRecord>,
    live: LiveCluster,
)
    requires
        call_ensures(
            live_cluster,
            (&configured, policy, &Ok::<Vec<RacRecord>, RacError>(records)),
            Ok::<LiveCluster, TargetError>(live),
        ),
    ensures
        records@.len() == 1,
        live@.source.cluster == configured@.target.alias,
        live@.source.ras_address == configured@.target.ras,
        live@.source.cluster_uuid == configured@.target.discovered_cluster.uuid,
        live@.source.cluster_uuid == live@.cluster.uuid,
        live@.source.cluster_name == live@.cluster.name,
        reading_laws::either(records@[0]@, "name"@, "cluster_name"@) == Some(live@.cluster.name),
        reading_laws::either(records@[0]@, "host"@, "cluster_host"@) == Some(live@.cluster.host),
        live@.search_policy == policy@,
{
    let record = records@[0]@;
    assert(targets::record_views(records@)[0] == record);
    reading_laws::lemma_two_names(record, "name"@, "cluster_name"@);
    reading_laws::lemma_two_names(record, "host"@, "cluster_host"@);
}

/// A cluster is removed only under an alias of its own, and the plan shows the very cluster that goes by
/// that alias.
pub proof fn law_removals_show_the_named_cluster(
    alias: &str,
    snapshot: ApplicationConfigSnapshot,
    plan: ClusterRemovePlan,
    cancelled: bool,
    checked: Result<(), AppError>,
)
    requires
        call_ensures(
            prepare_cluster_remove,
            (alias, &snapshot),
            Ok::<ClusterRemovePlan, AppError>(plan),
        ),
        call_ensures(check_cluster_remove, (&plan, &snapshot, cancelled), checked),
    ensures
        text::same_ignoring_ascii_case(plan.target@.alias, alias@),
        exists|i: int|
            0 <= i < snapshot@.targets.len() && (#[trigger] snapshot@.targets[i]).target
                == plan.target@,
        checked is Ok <==> !cancelled,
{
    lemma_target_position(snapshot@.targets, alias@, 0);
    lemma_target_position(snapshot@.targets, plan.target@.alias, 0);
    let at = conversion::target_position(snapshot@.targets, alias@, 0);
    let again = conversion::target_position(snapshot@.targets, plan.target@.alias, 0);
    assert(goes_by(snapshot@.targets[at], alias@));
    if again < at {
        assert(!goes_by(snapshot@.targets[again], alias@));
    }
    if at < again {
        assert(!goes_by(snapshot@.targets[at], plan.target@.alias));
    }
}

/// A planned removal is refused where the cluster of that alias is another one by now, or is gone.
pub proof fn law_changed_clusters_are_not_removed(
    plan: ClusterRemovePlan,
    snapshot: ApplicationConfigSnapshot,
    cancelled: bool,
    checked: Result<(), AppError>,
)
    requires
        call_ensures(check_cluster_remove, (&plan, &snapshot, cancelled), checked),
    ensures
        checked is Ok ==> exists|i: int|
            0 <= i < snapshot@.targets.len() && goes_by(
                #[trigger] snapshot@.targets[i],
                plan.target@.alias,
            ) && snapshot@.targets[i].target.discovered_cluster.uuid
                == plan.target@.discovered_cluster.uuid,
        cancelled ==> checked is Err,
{
    lemma_target_position(snapshot@.targets, plan.target@.alias, 0);
}

/// A new cluster is written down with the server of the request, with what the server says of itself, and
/// never over a cluster of the same alias.
pub proof fn law_new_clusters_are_written_as_asked(
    state: AdditionView,
    request: AddRequestView,
    snapshot: Result<ApplicationView, AppProblem>,
    defaults: SearchPolicyView,
    failure: Option<RacErrorView>,
    cancelled: bool,
)
    ensures
        state is Loading && snapshot is Ok && (exists|i: int|
            0 <= i < snapshot->Ok_0.targets.len() && goes_by(
                #[trigger] snapshot->Ok_0.targets[i],
                request.alias,
            )) ==> state.loaded(request, snapshot, defaults) is Failed,
        state is Loading && snapshot is Err ==> state.loaded(request, snapshot, defaults) is Failed,
        state is Authenticating && (failure is Some || cancelled) ==> state.authenticated(
            request,
            failure,
            cancelled,
        ) is Failed,
        state is Authenticating && failure is None && !cancelled ==> {
            let next = state.authenticated(request, failure, cancelled);
            &&& next is Writing
            &&& next->Writing_cluster.ras_host == request.ras.host
            &&& next->Writing_cluster.ras_port == request.ras.port
            &&& next->Writing_cluster.uuid == state->Authenticating_cluster.uuid
            &&& next->Writing_cluster.name == state->Authenticating_cluster.name
            &&& next->Writing_cluster.host == state->Authenticating_cluster.host
            &&& next->Writing_cluster.port == state->Authenticating_cluster.port
            &&& next->Writing_cluster.cluster_auth == state->Authenticating_draft.cluster_auth
            &&& next->Writing_cluster.infobase_auth == state->Authenticating_draft.infobase_auth
        },
{
    if snapshot is Ok {
        lemma_target_position(snapshot->Ok_0.targets, request.alias, 0);
    }
}

/// The record of an added cluster tells its alias and, once it is added, its identity; the record of a
/// removed one tells both. Each tells who did it and when, and the error where there was one.
pub proof fn law_cluster_records_tell_the_cluster(
    timestamp: Timestamp,
    windows_user: &str,
    alias: ClusterAlias,
    added: Result<ClusterAddOutcome, AppError>,
    plan: ClusterRemovePlan,
    failure: Option<&AppError>,
    addition: AuditEvent,
    removal: AuditEvent,
)
    requires
        call_ensures(audit_cluster_add, (timestamp, windows_user, &alias, &added), addition),
        call_ensures(audit_cluster_remove, (timestamp, windows_user, &plan, failure), removal),
    ensures
        addition@.timestamp == timestamp,
        addition@.windows_user == windows_user@,
        addition@.action == "cluster_add"@,
        addition@.context.cluster_alias == Some(alias@),
        added is Ok ==> addition@.result == AuditResult::Success && addition@.error is None
            && addition@.context.cluster_uuid == Some(
            added->Ok_0.target.discovered_cluster.uuid@,
        ),
        added is Err ==> addition@.result != AuditResult::Success && addition@.error == Some(
            added->Err_0@.message,
        ) && addition@.error_code == Some(added->Err_0@.code) && addition@.context.cluster_uuid is None,
        removal@.timestamp == timestamp,
        removal@.windows_user == windows_user@,
        removal@.action == "cluster_remove"@,
        removal@.context.cluster_alias == Some(plan.target@.alias),
        removal@.context.cluster_uuid == Some(plan.target@.discovered_cluster.uuid),
        failure is None ==> removal@.result == AuditResult::Success && removal@.error is None,
        failure is Some ==> removal@.result != AuditResult::Success && removal@.error == Some(
            failure->0@.message,
        ) && removal@.error_code == Some(failure->0@.code),
{
}

/// An action that was cancelled is recorded as cancelled, and every other failure as a failure.
pub proof fn law_cancelled_changes_are_recorded_as_such(problem: AppProblem)
    ensures
        clusters::failure_result(problem) == AuditResult::Cancelled <==> problem.category
            == AppErrorCategory::Cancelled,
        clusters::failure_result(problem) == AuditResult::Failure <==> problem.category
            != AppErrorCategory::Cancelled,
{
}

/// An action is told as a success only where it succeeded and was recorded.
pub proof fn law_only_recorded_changes_succeed<T>(
    result: Result<T, AppError>,
    unrecorded: Option<PortError>,
    change: AuditedChange,
    told: Result<T, AppError>,
)
    requires
        call_ensures(complete_audit::<T>, (result, unrecorded, change), told),
    ensures
        told is Ok <==> result is Ok && unrecorded is None,
        told is Ok ==> told->Ok_0 == result->Ok_0,
        result is Err ==> told->Err_0@.message == result->Err_0@.message && told->Err_0@.category
            == result->Err_0@.category && told->Err_0@.code == result->Err_0@.code,
        result is Err && unrecorded is Some ==> told->Err_0@.audit_error == Some(
            unrecorded->0@.message,
        ),
{
}

proof fn lemma_override_position(
    selector: CredentialSelectorView,
    overrides: Seq<OverrideView>,
    from: int,
)
    requires
        0 <= from <= overrides.len(),
    ensures
        ({
            let at = selector.position(overrides, from);
            &&& from <= at <= overrides.len()
            &&& at < overrides.len() ==> is_meant(selector, overrides[at])
            &&& forall|i: int| from <= i < at ==> !is_meant(selector, #[trigger] overrides[i])
        }),
    decreases overrides.len() - from,
{
    if from < overrides.len() && !is_meant(selector, overrides[from]) {
        lemma_override_position(selector, overrides, from + 1);
    }
}

/// A selector means an override: by the identity of its infobase, or by its name but for case.
pub open spec fn is_meant(selector: CredentialSelectorView, item: OverrideView) -> bool {
    match selector {
        CredentialSelectorView::Uuid(uuid) => item.infobase_uuid == Some(uuid),
        CredentialSelectorView::Name(name) => item.infobase is Some && text::lowercase(
            item.infobase->0,
        ) == text::lowercase(name),
    }
}

/// The override that is removed is one of the named cluster, and the one that the selector means; it is
/// found wherever there is one.
pub proof fn law_the_meant_override_is_removed(
    request: CredentialOverrideRemoveRequest,
    snapshot: ApplicationConfigSnapshot,
    result: Result<InfobaseAuthOverride, AppError>,
    k: int,
    j: int,
)
    requires
        call_ensures(check_override_remove, (&request, &snapshot, false), result),
        0 <= k < snapshot@.targets.len(),
        goes_by(snapshot@.targets[k], request.cluster@),
        forall|i: int| 0 <= i < k ==> !goes_by(#[trigger] snapshot@.targets[i], request.cluster@),
        0 <= j < snapshot@.targets[k].target.infobase_auth.overrides.len(),
        is_meant(request.selector@, snapshot@.targets[k].target.infobase_auth.overrides[j]),
    ensures
        result is Ok,
        is_meant(request.selector@, result->Ok_0@),
        snapshot@.targets[k].target.infobase_auth.overrides.contains(result->Ok_0@),
{
    let overrides = snapshot@.targets[k].target.infobase_auth.overrides;
    lemma_target_position(snapshot@.targets, request.cluster@, 0);
    assert(conversion::target_position(snapshot@.targets, request.cluster@, 0) == k);
    lemma_override_position(request.selector@, overrides, 0);
}

/// The record of a changed override tells the cluster, the infobase and whether it was added or removed.
pub proof fn law_override_records_tell_the_override(
    timestamp: Timestamp,
    windows_user: &str,
    cluster: ClusterAlias,
    entry: InfobaseAuthOverride,
    mutation: CredentialMutation,
    result: Result<CredentialWriteOutcome, AppError>,
    event: AuditEvent,
)
    requires
        call_ensures(
            audit_credential_change,
            (timestamp, windows_user, &cluster, &entry, mutation, &result),
            event,
        ),
    ensures
        event@.timestamp == timestamp,
        event@.windows_user == windows_user@,
        event@.action == "credential_override_change"@,
        event@.context.cluster_alias == Some(cluster@),
        event@.context.infobase_name == entry@.infobase,
        event@.context.infobase_uuid == entry@.infobase_uuid,
        mutation == CredentialMutation::Added ==> event@.context.reason == Some("add"@),
        mutation == CredentialMutation::Removed ==> event@.context.reason == Some("remove"@),
        result is Ok ==> event@.result == AuditResult::Success && event@.context.cluster_uuid == Some(
            result->Ok_0.cluster.discovered_cluster.uuid@,
        ),
        result is Err ==> event@.result != AuditResult::Success && event@.error == Some(
            result->Err_0@.message,
        ),
{
}

/// Who acts: nobody in particular, a user with a password, or an account of the system.
pub open spec fn acts_as(credentials: CredentialsView, auth: AuthView) -> bool {
    match auth {
        AuthView::NoAuth => credentials is NoAuth,
        AuthView::Password { user, password } => credentials == (CredentialsView::Password {
            username: user,
            password,
        }),
        AuthView::Os { user, .. } => user is Some && credentials == (CredentialsView::Os {
            username: user->0,
        }),
    }
}

/// A connection is broken with the credentials of the override that has the identity of its infobase; where
/// no override has its identity or its name, with the default ones of its cluster.
pub proof fn law_connections_are_broken_with_their_credentials(
    configured: ConfiguredTarget,
    target: ConnectionKillTarget,
    found: ConnectionCredentials,
    i: int,
)
    requires
        call_ensures(
            connection_credentials,
            (&configured, &target),
            Ok::<ConnectionCredentials, ActionError>(found),
        ),
        model::first_conflict(configured@.target.infobase_auth.overrides, 0) is None,
        0 <= i <= configured@.target.infobase_auth.overrides.len(),
    ensures
        i < configured@.target.infobase_auth.overrides.len()
            && configured@.target.infobase_auth.overrides[i].infobase_uuid == Some(
            target.infobase_uuid@,
        ) ==> acts_as(
            found.credentials@,
            configured@.target.infobase_auth.overrides[i].auth,
        ),
        configured@.target.infobase_auth.overrides.len() == 0 ==> acts_as(
            found.credentials@,
            configured@.target.infobase_auth.default,
        ),
{
    let policy = configured@.target.infobase_auth;
    let name = match target.infobase {
        Some(name) => name@,
        None => Seq::empty(),
    };
    if i < policy.overrides.len() && policy.overrides[i].infobase_uuid == Some(
        target.infobase_uuid@,
    ) {
        model::law_identity_wins_over_name(policy, target.infobase_uuid@, name, i);
    }
}

/// The process ends with zero on success alone; bad input is two, a missing utility three, the failure of
/// every target four, a partial success five, a cancelled action six, nothing found seven, and an
/// interruption a hundred and thirty.
pub proof fn law_exit_codes_tell_the_outcome(category: AppErrorCategory)
    ensures
        AppExitCode::Success.number() == 0,
        AppExitCode::PartialSuccess.number() == 5,
        category.code_of().number() == (match category {
            AppErrorCategory::Internal => 1u8,
            AppErrorCategory::InvalidInput => 2u8,
            AppErrorCategory::RacNotFound => 3u8,
            AppErrorCategory::AllTargetsFailed => 4u8,
            AppErrorCategory::Cancelled => 6u8,
            AppErrorCategory::NoObjects => 7u8,
            AppErrorCategory::Interrupted => 130u8,
        }),
{
}

/// What a failed command counts as: an unreachable server, a timeout, refused credentials, a protocol that
/// does not fit, an answer that cannot be read, a missing utility, or a cancelled action.
pub proof fn law_failed_commands_are_told_apart(kind: RacErrorKind, error: RacErrorView)
    requires
        error.kind == kind,
    ensures
        error::target_kind(kind) == TargetErrorKind::Unavailable <==> kind == RacErrorKind::Dns || kind
            == RacErrorKind::ConnectionRefused,
        error::target_kind(kind) == TargetErrorKind::Timeout <==> kind == RacErrorKind::Timeout,
        error::target_kind(kind) == TargetErrorKind::Authentication <==> kind == RacErrorKind::Auth,
        error::target_kind(kind) == TargetErrorKind::Protocol <==> kind
            == RacErrorKind::ProtocolIncompatible || kind == RacErrorKind::CommandSyntax,
        error::target_kind(kind) == TargetErrorKind::InvalidResponse <==> kind
            == RacErrorKind::Parse,
        error::target_kind(kind) == TargetErrorKind::RacNotFound <==> kind == RacErrorKind::NotFound
            || kind == RacErrorKind::UnsupportedVersion,
        error::target_kind(kind) == TargetErrorKind::Cancelled <==> kind == RacErrorKind::Cancelled,
        AppProblem::of_rac(error).category == AppErrorCategory::RacNotFound <==> kind
            == RacErrorKind::NotFound || kind == RacErrorKind::UnsupportedVersion,
        AppProblem::of_rac(error).category == AppErrorCategory::Cancelled <==> kind
            == RacErrorKind::Cancelled,
        AppProblem::of_rac(error).message == error.text(),
{
}

/// A removed cluster is told as the one that was planned, with the file that it was removed from; a removal
/// that could not be written is no removal.
pub proof fn law_removals_tell_the_planned_cluster(
    plan: ClusterRemovePlan,
    written: Result<RawConfigSnapshot, PortError>,
    result: Result<ClusterRemoveOutcome, AppError>,
)
    requires
        call_ensures(finish_cluster_remove, (&plan, written), result),
    ensures
        result is Ok <==> written is Ok,
        result is Ok ==> result->Ok_0.removed@ == plan.target@ && result->Ok_0.config_path@
            == written->Ok_0@.path,
{
}

proof fn lemma_selected_position(selected: Seq<SelectedRac>, alias: Seq<char>, from: int)
    requires
        0 <= from <= selected.len(),
    ensures
        ({
            let at = clusters::selected_position(selected, alias, from);
            &&& from <= at <= selected.len()
            &&& at < selected.len() ==> text::same_ignoring_ascii_case(selected[at].cluster@, alias)
            &&& forall|i: int|
                from <= i < at ==> !text::same_ignoring_ascii_case(
                    (#[trigger] selected[i]).cluster@,
                    alias,
                )
        }),
    decreases selected.len() - from,
{
    if from < selected.len() && !text::same_ignoring_ascii_case(selected[from].cluster@, alias) {
        lemma_selected_position(selected, alias, from + 1);
    }
}

/// The copy of the utility that is told of a cluster is one that served that cluster; it is told wherever
/// there is one.
pub proof fn law_the_copy_told_served_the_cluster(
    snapshot: DiagnosticsSnapshot,
    alias: ClusterAlias,
    result: Option<SelectedRac>,
    i: int,
)
    requires
        call_ensures(selected_rac, (&snapshot, &alias), result),
        0 <= i < snapshot.selected_rac@.len(),
    ensures
        result is Some ==> text::same_ignoring_ascii_case(result->0.cluster@, alias@),
        text::same_ignoring_ascii_case(snapshot.selected_rac@[i].cluster@, alias@)
            ==> result is Some,
{
    lemma_selected_position(snapshot.selected_rac@, alias@, 0);
}

/// What a search for the utility is told: the path that the operator names, the path and the version of
/// the cluster, and the path of the settings, each in its own place. A path of the cluster leaves its
/// version open.
pub proof fn law_searches_are_told_each_path_in_its_place(
    configured: ConfiguredView,
    explicit_path: Option<Seq<char>>,
    global_path: Option<Seq<char>>,
    policy: RacPolicyView,
    defaults: SearchPolicyView,
)
    ensures
        ({
            let search = configured.policy_with(explicit_path);
            &&& search.explicit_path == explicit_path
            &&& search.cluster_path == configured.search_policy.cluster_path
            &&& search.global_path == configured.search_policy.global_path
            &&& search.version == configured.search_policy.version
            &&& search.minimum_version == configured.search_policy.minimum_version
        }),
        ({
            let search = conversion::new_cluster_policy(global_path, policy, explicit_path, defaults);
            &&& search.explicit_path == explicit_path
            &&& search.global_path == global_path
            &&& policy matches RacPolicyView::ExplicitPath(path) ==> search.cluster_path == Some(path)
            &&& !(policy is ExplicitPath) ==> search.cluster_path is None
            &&& policy matches RacPolicyView::Version(version) ==> search.version
                == SelectionView::Exact(version)
            &&& !(policy is Version) ==> search.version == SelectionView::Auto
            &&& search.minimum_version == defaults.minimum_version
            &&& search.environment == defaults.environment
            &&& search.registry_paths == defaults.registry_paths
        }),
{
}

/// A configured cluster is read with everything that the configuration says of it, each in its own place.
pub proof fn law_clusters_are_read_as_written(
    alias: Seq<char>,
    cluster: ClusterView,
    global_path: Option<Seq<char>>,
    defaults: SearchPolicyView,
    read: ConfiguredView,
)
    requires
        conversion::read_target(alias, cluster, global_path, defaults) == Ok::<_, AppProblem>(read),
    ensures
        read.target.alias == alias,
        read.target.ras.host == cluster.ras_host,
        read.target.ras.port == cluster.ras_port,
        read.target.discovered_cluster.uuid == cluster.uuid,
        read.target.discovered_cluster.name == cluster.name,
        read.target.discovered_cluster.host == cluster.host,
        read.target.discovered_cluster.port == cluster.port,
        is_read(cluster.cluster_auth, read.target.cluster_auth),
        is_read(cluster.infobase_auth.default, read.target.infobase_auth.default),
        acts_as(read.cluster_credentials, read.target.cluster_auth),
        read.search_policy.cluster_path == cluster.rac_path,
        read.search_policy.global_path == global_path,
        read.search_policy.minimum_version == defaults.minimum_version,
        cluster.rac_path matches Some(path) ==> read.target.rac_policy
            == RacPolicyView::ExplicitPath(path),
        cluster.rac_path is None && cluster.rac_version is Auto ==> read.target.rac_policy
            == RacPolicyView::Auto,
{
}

/// Credentials are read as they are written: the user and the password, or the user and the account of the
/// system, or none.
pub open spec fn is_read(written: CredentialView, read: AuthView) -> bool {
    match written {
        CredentialView::NoAuth => read is NoAuth,
        CredentialView::Password { user, password } => read == (AuthView::Password {
            user,
            password,
        }),
        CredentialView::Os { user, os_user } => read == (AuthView::Os {
            user: Some(user),
            os_user,
        }),
    }
}

proof fn lemma_gathered<T>(results: Seq<Result<Vec<T>, TargetError>>, count: int, k: int, i: int)
    requires
        0 <= k < count <= results.len(),
    ensures
        results[k] is Ok && 0 <= i < results[k]->Ok_0@.len() ==> listing::gathered(
            results,
            count,
        ).contains(results[k]->Ok_0@[i]),
        results[k] is Err ==> listing::failures(results, count).contains(results[k]->Err_0),
    decreases count,
{
    let before = listing::gathered(results, count - 1);
    let all = listing::gathered(results, count);
    if k < count - 1 {
        lemma_gathered(results, count - 1, k, i);
        if results[k] is Ok && 0 <= i < results[k]->Ok_0@.len() {
            let p = choose|p: int| 0 <= p < before.len() && before[p] == results[k]->Ok_0@[i];
            assert(all[p] == before[p]);
        }
        if results[k] is Err {
            let failed = listing::failures(results, count - 1);
            let p = choose|p: int| 0 <= p < failed.len() && failed[p] == results[k]->Err_0;
            assert(listing::failures(results, count)[p] == failed[p]);
        }
    } else {
        if results[k] is Ok && 0 <= i < results[k]->Ok_0@.len() {
            assert(all[before.len() + i] == results[k]->Ok_0@[i]);
        }
        if results[k] is Err {
            assert(listing::failures(results, count).last() == results[k]->Err_0);
        }
    }
}

proof fn lemma_gathered_from<T>(results: Seq<Result<Vec<T>, TargetError>>, count: int, p: int)
    requires
        0 <= count <= results.len(),
        0 <= p < listing::gathered(results, count).len(),
    ensures
        exists|k: int|
            0 <= k < count && results[k] is Ok && (#[trigger] results[k])->Ok_0@.contains(
                listing::gathered(results, count)[p],
            ),
    decreases count,
{
    let before = listing::gathered(results, count - 1);
    if p < before.len() {
        lemma_gathered_from(results, count - 1, p);
    } else {
        let own = results[count - 1]->Ok_0@;
        assert(own[p - before.len()] == listing::gathered(results, count)[p]);
        assert(results[count - 1]->Ok_0@.contains(own[p - before.len()]));
    }
}

/// What targets answer is gathered without loss: every record of every target that answered and every
/// failure of one that did not is there, and nothing else is.
pub proof fn law_answers_are_gathered_without_loss<T>(
    results: Vec<Result<Vec<T>, TargetError>>,
    found: (Vec<T>, Vec<TargetError>, usize),
    k: int,
    i: int,
    p: int,
)
    requires
        call_ensures(listing::gather::<T>, (results,), found),
        0 <= k < results@.len(),
    ensures
        results@[k] is Ok && 0 <= i < results@[k]->Ok_0@.len() ==> found.0@.contains(
            results@[k]->Ok_0@[i],
        ),
        results@[k] is Err ==> found.1@.contains(results@[k]->Err_0),
        0 <= p < found.0@.len() ==> exists|q: int|
            0 <= q < results@.len() && results@[q] is Ok && (#[trigger] results@[q])->Ok_0@.contains(
                found.0@[p],
            ),
        found.1@.len() + found.2 == results@.len(),
{
    lemma_gathered(results@, results@.len() as int, k, i);
    if 0 <= p < found.0@.len() {
        lemma_gathered_from(results@, results@.len() as int, p);
    }
    listing::law_every_target_counts_once(results@, results@.len() as int);
}

/// A request is answered where it was not cancelled and some target answered, or none was asked; the
/// answer is partial exactly where some target failed, and the failures come with it.
pub proof fn law_failed_targets_make_answers_partial<R: FieldAccess>(
    results: Vec<Result<Vec<R>, TargetError>>,
    cancelled: bool,
    asked: QuerySpec,
    result: Result<QueryOutcome<R>, AppError>,
    k: int,
)
    requires
        call_ensures(listing::list_outcome::<R>, (results, cancelled, &asked), result),
        0 <= k < results@.len(),
    ensures
        cancelled ==> result is Err && result->Err_0@.category == AppErrorCategory::Cancelled,
        results@[k] is Err && result is Ok ==> result->Ok_0.meta.partial
            && result->Ok_0.errors@.contains(results@[k]->Err_0),
        result is Ok && result->Ok_0.meta.partial ==> exists|q: int|
            0 <= q < results@.len() && (#[trigger] results@[q]) is Err,
        (forall|q: int| 0 <= q < results@.len() ==> (#[trigger] results@[q]) is Err) ==> result is Err,
{
    let count = results@.len() as int;
    lemma_gathered(results@, count, k, 0);
    lemma_failures_come(results@, count);
    listing::law_every_target_counts_once(results@, count);
}

proof fn lemma_failures_come<T>(results: Seq<Result<Vec<T>, TargetError>>, count: int)
    requires
        0 <= count <= results.len(),
    ensures
        listing::failures(results, count).len() > 0 ==> exists|q: int|
            0 <= q < count && (#[trigger] results[q]) is Err,
        (forall|q: int| 0 <= q < count ==> (#[trigger] results[q]) is Err) ==> listing::answered(
            results,
            count,
        ) == 0,
    decreases count,
{
    if count > 0 {
        lemma_failures_come(results, count - 1);
        if results[count - 1] is Err {
            assert(results[count - 1] is Err);
        }
    }
}

proof fn lemma_chosen(
    targets: Seq<ConfiguredView>,
    candidates: Seq<Option<CandidateView>>,
    count: int,
    i: int,
)
    requires
        0 <= i < count <= targets.len(),
        targets.len() == candidates.len(),
        candidates[i] is Some,
    ensures
        diagnostics::chosen(targets, candidates, count).contains(
            diagnostics::selected_for(targets[i], candidates[i]->0),
        ),
    decreases count,
{
    let all = diagnostics::chosen(targets, candidates, count);
    let item = diagnostics::selected_for(targets[i], candidates[i]->0);
    if i == count - 1 {
        assert(all.last() == item);
    } else {
        lemma_chosen(targets, candidates, count - 1, i);
        let before = diagnostics::chosen(targets, candidates, count - 1);
        let p = choose|p: int| 0 <= p < before.len() && before[p] == item;
        assert(all[p] == item);
    }
}

/// The copy that served a target is told with the alias and the server of that target, and with its own
/// path, version and origin; the failures and the moment are told as they are.
pub proof fn law_diagnostics_tell_who_served_whom(
    asked: Vec<ConfiguredTarget>,
    candidates: Vec<Option<RacCandidate>>,
    errors: Vec<TargetError>,
    now: Timestamp,
    result: DiagnosticsSnapshot,
    i: int,
)
    requires
        call_ensures(update_diagnostics, (&asked, &candidates, &errors, now), result),
        candidates@.len() == asked@.len(),
        0 <= i < asked@.len(),
        candidates@[i] is Some,
    ensures
        exists|p: int|
            {
                &&& 0 <= p < result@.selected_rac.len()
                &&& (#[trigger] result@.selected_rac[p]).cluster == asked@[i]@.target.alias
                &&& result@.selected_rac[p].ras_address == asked@[i]@.target.ras
                &&& result@.selected_rac[p].path == candidates@[i]->0@.path
                &&& result@.selected_rac[p].version == candidates@[i]->0@.version
                &&& result@.selected_rac[p].origin == candidates@[i]->0@.origin.text()
            },
        result@.updated_at == Some(now),
        result@.target_errors.len() == errors@.len(),
{
    let views = conversion::configured_views(asked@);
    let found = diagnostics::candidate_options(candidates@);
    assert(views[i] == asked@[i]@);
    assert(found[i] == Some(candidates@[i]->0@));
    lemma_chosen(views, found, asked@.len() as int, i);
    let item = diagnostics::selected_for(views[i], found[i]->0);
    let p = choose|p: int|
        0 <= p < result@.selected_rac.len() && result@.selected_rac[p] == item;
    assert(result@.selected_rac[p] == item);
}

/// The overrides that are shown for a cluster are its own: those of the first cluster under that alias.
/// An unknown cluster has none, and takes none.
pub proof fn law_overrides_are_of_the_named_cluster(
    cluster: &str,
    request: CredentialOverrideAddRequest,
    snapshot: ApplicationConfigSnapshot,
    shown: Result<&Vec<InfobaseAuthOverride>, AppError>,
    checked: Result<(), AppError>,
    i: int,
)
    requires
        call_ensures(credential_overrides, (cluster, &snapshot), shown),
        call_ensures(check_override_add, (&request, &snapshot, false), checked),
        request.cluster@ == cluster@,
        value::alias_of(cluster@) is Ok,
        0 <= i <= snapshot@.targets.len(),
        forall|j: int|
            0 <= j < i ==> !text::same_ignoring_ascii_case(
                (#[trigger] snapshot@.targets[j]).target.alias,
                cluster@,
            ),
        i < snapshot@.targets.len() ==> text::same_ignoring_ascii_case(
            snapshot@.targets[i].target.alias,
            cluster@,
        ),
    ensures
        shown is Ok <==> i < snapshot@.targets.len(),
        checked is Ok <==> i < snapshot@.targets.len(),
        shown is Ok ==> model::override_views(shown->Ok_0@)
            == snapshot@.targets[i].target.infobase_auth.overrides,
{
    lemma_target_position(snapshot@.targets, cluster@, 0);
    assert(conversion::target_position(snapshot@.targets, cluster@, 0) == i);
}

/// A change that was interrupted is not begun.
pub proof fn law_interrupted_changes_are_not_begun(
    request: CredentialOverrideAddRequest,
    snapshot: ApplicationConfigSnapshot,
    checked: Result<(), AppError>,
)
    requires
        call_ensures(check_override_add, (&request, &snapshot, true), checked),
    ensures
        checked is Err,
{
}

/// A failed command counts for its target under the code that scripts know it by.
pub proof fn law_target_failures_have_their_codes(kind: TargetErrorKind)
    ensures
        kind.text() == (if kind is Unavailable {
            "target_unavailable"@
        } else if kind is Timeout {
            "timeout"@
        } else if kind is Authentication {
            "authentication_failed"@
        } else if kind is Protocol {
            "protocol_error"@
        } else if kind is InvalidResponse {
            "invalid_response"@
        } else if kind is RacNotFound {
            "rac_not_found"@
        } else if kind is Cancelled {
            "cancelled"@
        } else {
            "internal_error"@
        }),
{
}

/// A problem with the configuration is told by its own code and text: what is there already, what is not
/// there, what is wrong and what cannot be read are told apart.
pub proof fn law_configuration_problems_are_told_apart(error: ConfigError, told: PortError)
    requires
        call_ensures(config_error, (&error,), told),
    ensures
        error is ClusterAlreadyExists ==> told.kind == PortErrorKind::Conflict && told@.code
            == "cluster_already_exists"@,
        error is ClusterNotFound ==> told.kind == PortErrorKind::NotFound && told@.code
            == "cluster_not_found"@,
        error is OverrideNotFound ==> told.kind == PortErrorKind::NotFound && told@.code
            == "credential_override_not_found"@,
        error is NotFound ==> told.kind == PortErrorKind::Configuration && told@.code
            == "config_not_found"@,
        error is Validation || error is Yaml ==> told.kind == PortErrorKind::Configuration
            && told@.code == "invalid_config"@,
        error@.message().is_suffix_of(told@.message),
{
    let tail = error@.message();
    let whole = told@.message;
    assert(whole.subrange(whole.len() - tail.len(), whole.len() as int) =~= tail);
}

/// A search that found nothing to end is told of what it looked for.
pub proof fn law_nothing_found_is_told_of_what_was_sought()
    ensures
        AppProblem::no_objects("session"@).message == "Не найдено сеансов для завершения"@,
        AppProblem::no_objects("connection"@).message == "Не найдено соединений для разрыва"@,
        AppProblem::no_objects("cluster"@).message
            == "Не найдено подключений к кластеру для удаления"@,
        forall|entity: Seq<char>|
            (#[trigger] AppProblem::no_objects(entity)).category == AppErrorCategory::NoObjects,
{
    reveal_strlit("session");
    reveal_strlit("connection");
    reveal_strlit("cluster");
    assert("session"@.len() != "connection"@.len());
    assert("session"@[0] != "cluster"@[0]);
}

} // verus!
