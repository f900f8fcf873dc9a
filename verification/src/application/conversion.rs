//! Between the configuration as it is written and the targets that the services work with.

use vstd::prelude::*;
use vstd::string::*;

use crate::application::error::{AppError, AppProblem};
use crate::application::ports::{RawConfigSnapshot, RawSnapshotView};
use crate::domain::auth;
use crate::domain::auth::{AuthConfig, AuthView, SecretString};
use crate::domain::error::DomainErrorView;
use crate::domain::identity::{ClusterUuid, InfobaseUuid};
use crate::domain::model;
use crate::domain::model::{
    ClusterTarget, DiscoveredCluster, DiscoveredView, InfobaseAuthOverride, InfobaseAuthPolicy,
    OverrideView, PolicyView, RacPolicy, RacPolicyView, TargetView,
};
use crate::domain::value;
use crate::domain::value::{ClusterAlias, RasEndpoint};
use crate::domain::version;
use crate::domain::version::{PlatformVersion, VersionView};
use crate::infrastructure::config::model as config;
use crate::infrastructure::config::model::{
    ClusterView, CredentialView, EntryView, InfobaseAuthView, RacVersionView,
};
use crate::infrastructure::config::validation;
use crate::infrastructure::rac::arguments::{CredentialsView, RacCredentials};
use crate::infrastructure::rac::locator::{
    clone_text, RacVersionSelection, SearchPolicy, SearchPolicyView, SelectionView,
};
use crate::infrastructure::rac::version::PlatformVersion as RacPlatformVersion;
use crate::order;
use crate::order::Order;
use crate::outcome;
use crate::text;

verus! {

/// What the operator says of the utility.
#[derive(Debug, PartialEq, Eq)]
pub struct RacOptions {
    pub explicit_path: Option<String>,
}

impl RacOptions {
    pub fn with_explicit_path(path: &str) -> (result: Self)
        ensures
            outcome::option_view(result.explicit_path) == Some(path@),
    {
        RacOptions { explicit_path: Some(path.to_owned()) }
    }
}

impl Default for RacOptions {
    fn default() -> (result: Self)
        ensures
            result.explicit_path is None,
    {
        RacOptions { explicit_path: None }
    }
}

impl Clone for RacOptions {
    fn clone(&self) -> (result: Self)
        ensures
            result == *self,
    {
        RacOptions { explicit_path: clone_text(&self.explicit_path) }
    }
}

/// A target with all that its commands need.
pub struct ConfiguredTarget {
    pub target: ClusterTarget,
    pub search_policy: SearchPolicy,
    pub cluster_credentials: RacCredentials,
}

pub struct ConfiguredView {
    pub target: TargetView,
    pub search_policy: SearchPolicyView,
    pub cluster_credentials: CredentialsView,
}

impl View for ConfiguredTarget {
    type V = ConfiguredView;

    open spec fn view(&self) -> ConfiguredView {
        ConfiguredView {
            target: self.target@,
            search_policy: self.search_policy@,
            cluster_credentials: self.cluster_credentials@,
        }
    }
}

impl ConfiguredView {
    /// The search for the utility, where the operator may name it.
    pub open spec fn policy_with(self, explicit_path: Option<Seq<char>>) -> SearchPolicyView {
        SearchPolicyView { explicit_path, ..self.search_policy }
    }
}

impl ConfiguredTarget {
    pub fn effective_search_policy(&self, options: &RacOptions) -> (result: SearchPolicy)
        ensures
            result@ == self@.policy_with(outcome::option_view(options.explicit_path)),
    {
        let mut policy = self.search_policy.clone();
        policy.explicit_path = clone_text(&options.explicit_path);
        policy
    }
}

impl Clone for ConfiguredTarget {
    fn clone(&self) -> (result: Self)
        ensures
            result@ == self@,
    {
        ConfiguredTarget {
            target: self.target.clone(),
            search_policy: self.search_policy.clone(),
            cluster_credentials: self.cluster_credentials.clone(),
        }
    }
}

pub open spec fn configured_views(targets: Seq<ConfiguredTarget>) -> Seq<ConfiguredView> {
    targets.map_values(|target: ConfiguredTarget| target@)
}

/// The configuration as the services work with it.
pub struct ApplicationConfigSnapshot {
    pub path: String,
    /// How long a command may take, in seconds.
    pub timeout: u64,
    pub global_rac_path: Option<String>,
    pub targets: Vec<ConfiguredTarget>,
}

pub struct ApplicationView {
    pub path: Seq<char>,
    pub timeout: u64,
    pub global_rac_path: Option<Seq<char>>,
    pub targets: Seq<ConfiguredView>,
}

impl View for ApplicationConfigSnapshot {
    type V = ApplicationView;

    open spec fn view(&self) -> ApplicationView {
        ApplicationView {
            path: self.path@,
            timeout: self.timeout,
            global_rac_path: outcome::option_view(self.global_rac_path),
            targets: configured_views(self.targets@),
        }
    }
}

/// The position of the first target with an alias, without regard to ASCII case, from `from` on, or
/// the length.
pub open spec fn target_position(
    targets: Seq<ConfiguredView>,
    alias: Seq<char>,
    from: int,
) -> int
    decreases targets.len() - from,
{
    if from >= targets.len() {
        targets.len() as int
    } else if text::same_ignoring_ascii_case(targets[from].target.alias, alias) {
        from
    } else {
        target_position(targets, alias, from + 1)
    }
}

pub(crate) fn find_target(targets: &Vec<ConfiguredTarget>, alias: &str) -> (result: usize)
    ensures
        result == target_position(configured_views(targets@), alias@, 0),
        result <= targets@.len(),
{
    let ghost views = configured_views(targets@);
    let mut i: usize = 0;
    while i < targets.len()
        invariant
            i <= targets.len(),
            views == configured_views(targets@),
            target_position(views, alias@, 0) == target_position(views, alias@, i as int),
        decreases targets.len() - i,
    {
        assert(views[i as int] == targets@[i as int]@);
        if text::eq_ignore_ascii_case(targets[i].target.alias.as_str(), alias) {
            return i;
        }
        i = i + 1;
    }
    i
}

impl ApplicationView {
    /// The target with an alias.
    pub open spec fn target(self, alias: Seq<char>) -> Option<ConfiguredView> {
        let at = target_position(self.targets, alias, 0);
        if at < self.targets.len() {
            Some(self.targets[at])
        } else {
            None
        }
    }
}

impl ApplicationConfigSnapshot {
    pub fn target(&self, alias: &ClusterAlias) -> (result: Option<&ConfiguredTarget>)
        ensures
            outcome::option_view(result) == self@.target(alias@),
    {
        let at: usize = find_target(&self.targets, alias.as_str());
        if at < self.targets.len() {
            Some(&self.targets[at])
        } else {
            None
        }
    }

    pub fn cluster_targets(&self) -> (result: Vec<ClusterTarget>)
        ensures
            result@.map_values(|target: ClusterTarget| target@) == self@.targets.map_values(
                |configured: ConfiguredView| configured.target,
            ),
    {
        let mut result: Vec<ClusterTarget> = Vec::new();
        let mut i: usize = 0;
        while i < self.targets.len()
            invariant
                i <= self.targets.len(),
                result@.len() == i,
                forall|j: int| 0 <= j < i ==> (#[trigger] result@[j])@ == self.targets@[j]@.target,
            decreases self.targets.len() - i,
        {
            result.push(self.targets[i].target.clone());
            i = i + 1;
        }
        assert(result@.map_values(|target: ClusterTarget| target@) =~= self@.targets.map_values(
            |configured: ConfiguredView| configured.target,
        ));
        result
    }
}

/// A result of the domain as the operator sees it.
pub open spec fn told<T>(result: Result<T, DomainErrorView>) -> Result<T, AppProblem> {
    match result {
        Ok(value) => Ok(value),
        Err(error) => Err(AppProblem::of_domain(error)),
    }
}

/// The credentials that the configuration gives.
pub open spec fn read_auth(credential: CredentialView) -> Result<AuthView, AppProblem> {
    match credential {
        CredentialView::Password { user, password } => told(auth::password_auth(user, password)),
        CredentialView::Os { user, os_user } => told(auth::os_auth(Some(user), os_user)),
        CredentialView::NoAuth => Ok(AuthView::NoAuth),
    }
}

fn auth_from_ref(credential: config::AuthRef<'_>) -> (result: Result<AuthConfig, AppError>)
    ensures
        outcome::result_view(result) == read_auth(credential@),
{
    let found = match credential {
        config::AuthRef::Password { user, password } => AuthConfig::password(
            user,
            SecretString::new(password.expose_secret()),
        ),
        config::AuthRef::Os { user, os_user } => AuthConfig::os(Some(user), os_user),
        config::AuthRef::NoAuth => Ok(AuthConfig::none()),
    };
    match found {
        Ok(found) => Ok(found),
        Err(error) => Err(AppError::from_domain(&error)),
    }
}

/// The credentials that the configuration gives.
pub fn config_auth_to_domain(credential: &config::AuthConfig) -> (result: Result<
    AuthConfig,
    AppError,
>)
    ensures
        outcome::result_view(result) == read_auth(credential@),
{
    auth_from_ref(credential.as_ref())
}

/// An override that the configuration gives.
pub open spec fn read_override(entry: EntryView) -> Result<OverrideView, AppProblem> {
    match read_auth(entry.auth) {
        Err(problem) => Err(problem),
        Ok(auth) => told(model::override_of(Some(entry.infobase), entry.infobase_uuid, auth)),
    }
}

/// The first `count` overrides that the configuration gives, or the first problem with one.
pub open spec fn read_overrides(entries: Seq<EntryView>, count: int) -> Result<
    Seq<OverrideView>,
    AppProblem,
>
    decreases count,
{
    if count <= 0 {
        Ok(Seq::empty())
    } else {
        match read_overrides(entries, count - 1) {
            Err(problem) => Err(problem),
            Ok(found) => match read_override(entries[count - 1]) {
                Err(problem) => Err(problem),
                Ok(item) => Ok(found.push(item)),
            },
        }
    }
}

/// The credentials for infobases that the configuration gives.
pub open spec fn read_policy(policy: InfobaseAuthView) -> Result<PolicyView, AppProblem> {
    match read_auth(policy.default) {
        Err(problem) => Err(problem),
        Ok(default) => match read_overrides(policy.overrides, policy.overrides.len() as int) {
            Err(problem) => Err(problem),
            Ok(overrides) => match model::first_conflict(overrides, 0) {
                Some(reason) => Err(
                    AppProblem::of_domain(DomainErrorView::InvalidAuthOverride { reason }),
                ),
                None => Ok(PolicyView { default, overrides }),
            },
        },
    }
}

proof fn lemma_read_overrides_fail(entries: Seq<EntryView>, from: int, to: int)
    requires
        0 <= from <= to,
        read_overrides(entries, from) is Err,
    ensures
        read_overrides(entries, to) == read_overrides(entries, from),
    decreases to - from,
{
    if from < to {
        lemma_read_overrides_fail(entries, from, to - 1);
    }
}

fn override_to_domain(entry: &config::InfobaseAuthOverride) -> (result: Result<
    InfobaseAuthOverride,
    AppError,
>)
    ensures
        outcome::result_view(result) == read_override(entry@),
{
    let auth = match auth_from_ref(entry.as_ref()) {
        Ok(auth) => auth,
        Err(error) => {
            return Err(error);
        },
    };
    let uuid = match entry.infobase_uuid() {
        Some(uuid) => Some(InfobaseUuid::new(uuid)),
        None => None,
    };
    match InfobaseAuthOverride::new(Some(entry.infobase().to_owned()), uuid, auth) {
        Ok(item) => Ok(item),
        Err(error) => Err(AppError::from_domain(&error)),
    }
}

fn overrides_to_domain(entries: &Vec<config::InfobaseAuthOverride>) -> (result: Result<
    Vec<InfobaseAuthOverride>,
    AppError,
>)
    ensures
        match result {
            Ok(overrides) => read_overrides(
                config::entry_views(entries@),
                entries@.len() as int,
            ) == Ok::<_, AppProblem>(model::override_views(overrides@)),
            Err(error) => read_overrides(config::entry_views(entries@), entries@.len() as int)
                == Err::<Seq<OverrideView>, _>(error@),
        },
{
    let ghost views = config::entry_views(entries@);
    let mut result: Vec<InfobaseAuthOverride> = Vec::new();
    let mut i: usize = 0;
    assert(model::override_views(result@) =~= Seq::<OverrideView>::empty());
    while i < entries.len()
        invariant
            i <= entries.len(),
            views == config::entry_views(entries@),
            read_overrides(views, i as int) == Ok::<_, AppProblem>(
                model::override_views(result@),
            ),
        decreases entries.len() - i,
    {
        assert(views[i as int] == entries@[i as int]@);
        let item = match override_to_domain(&entries[i]) {
            Ok(item) => item,
            Err(error) => {
                proof {
                    lemma_read_overrides_fail(views, i + 1, entries@.len() as int);
                }
                return Err(error);
            },
        };
        let ghost before = model::override_views(result@);
        let ghost added = item@;
        result.push(item);
        assert(model::override_views(result@) =~= before.push(added));
        i = i + 1;
    }
    Ok(result)
}

fn config_infobase_auth_to_domain(policy: &config::InfobaseAuthConfig) -> (result: Result<
    InfobaseAuthPolicy,
    AppError,
>)
    ensures
        outcome::result_view(result) == read_policy(policy@),
{
    let default = match config_auth_to_domain(&policy.default) {
        Ok(default) => default,
        Err(error) => {
            return Err(error);
        },
    };
    let overrides = match overrides_to_domain(&policy.overrides) {
        Ok(overrides) => overrides,
        Err(error) => {
            return Err(error);
        },
    };
    match InfobaseAuthPolicy::new(default, overrides) {
        Ok(found) => Ok(found),
        Err(error) => Err(AppError::from_domain(&error)),
    }
}

/// What the utility is told of who it acts for.
pub open spec fn credentials_of(auth: AuthView) -> Result<CredentialsView, AppProblem> {
    match auth {
        AuthView::NoAuth => Ok(CredentialsView::NoAuth),
        AuthView::Password { user, password } => Ok(
            CredentialsView::Password { username: user, password },
        ),
        AuthView::Os { user: Some(user), .. } if user.len() > 0 => Ok(
            CredentialsView::Os { username: user },
        ),
        AuthView::Os { .. } => Err(
            AppProblem::invalid(
                "missing_auth_user"@,
                "В учетных данных OS-режима отсутствует имя администратора 1С"@,
            ),
        ),
    }
}

/// What the utility is told of who it acts for.
pub fn auth_to_rac_credentials(auth: &AuthConfig) -> (result: Result<RacCredentials, AppError>)
    ensures
        outcome::result_view(result) == credentials_of(auth@),
{
    match auth {
        AuthConfig::NoAuth => Ok(RacCredentials::none()),
        AuthConfig::Password(found) => Ok(
            RacCredentials::password(found.user(), found.password().expose_secret()),
        ),
        AuthConfig::Os(found) => {
            match found.user() {
                Some(user) => if !user.is_empty() {
                    return Ok(RacCredentials::os(user));
                },
                None => {},
            }
            Err(
                AppError::config(
                    "missing_auth_user",
                    "В учетных данных OS-режима отсутствует имя администратора 1С",
                ),
            )
        },
    }
}

fn domain_version_to_rac(found: PlatformVersion) -> (result: RacPlatformVersion)
    ensures
        result@ == found@,
{
    RacPlatformVersion::new(found.major(), found.minor(), found.patch(), found.build())
}

/// The version that the configuration asks for.
pub open spec fn read_version(alias: Seq<char>, asked: RacVersionView) -> Result<
    Option<VersionView>,
    AppProblem,
> {
    match asked {
        RacVersionView::Auto => Ok(None),
        RacVersionView::Exact(text) => match version::version_of(text) {
            Some(found) => Ok(Some(found)),
            None => Err(
                AppProblem::invalid(
                    "invalid_rac_version"@,
                    "Некорректная версия RAC для кластера `"@ + alias
                        + "`: ожидаются четыре числовых компонента"@,
                ),
            ),
        },
    }
}

fn version_to_domain(alias: &str, asked: &config::RacVersion) -> (result: Result<
    Option<PlatformVersion>,
    AppError,
>)
    ensures
        match result {
            Ok(found) => read_version(alias@, asked@) == Ok::<_, AppProblem>(
                outcome::option_view(found),
            ),
            Err(error) => read_version(alias@, asked@) == Err::<Option<VersionView>, _>(error@),
        },
{
    match asked {
        config::RacVersion::Auto => Ok(None),
        config::RacVersion::Exact(text) => match PlatformVersion::parse(text.as_str()) {
            Ok(found) => Ok(Some(found)),
            Err(_) => {
                let mut message = "Некорректная версия RAC для кластера `".to_owned();
                message.push_str(alias);
                message.push_str("`: ожидаются четыре числовых компонента");
                Err(AppError::config("invalid_rac_version", message.as_str()))
            },
        },
    }
}

/// A path wins over a version.
pub open spec fn policy_of(path: Option<Seq<char>>, asked: Option<VersionView>) -> RacPolicyView {
    match (path, asked) {
        (Some(path), _) => RacPolicyView::ExplicitPath(path),
        (None, Some(found)) => RacPolicyView::Version(found),
        (None, None) => RacPolicyView::Auto,
    }
}

pub open spec fn selection_of(asked: Option<VersionView>) -> SelectionView {
    match asked {
        Some(found) => SelectionView::Exact(found),
        None => SelectionView::Auto,
    }
}

/// A target that the configuration gives, or the first problem with it. The search for the utility
/// starts from `defaults`.
pub open spec fn read_target(
    alias: Seq<char>,
    cluster: ClusterView,
    global_rac_path: Option<Seq<char>>,
    defaults: SearchPolicyView,
) -> Result<ConfiguredView, AppProblem> {
    match told(value::alias_of(alias)) {
        Err(problem) => Err(problem),
        Ok(alias) => match told(value::endpoint_of(cluster.ras_host, cluster.ras_port)) {
            Err(problem) => Err(problem),
            Ok(ras) => match told(value::endpoint_of(cluster.host, cluster.port)) {
                Err(problem) => Err(problem),
                Ok(_) => match read_auth(cluster.cluster_auth) {
                    Err(problem) => Err(problem),
                    Ok(cluster_auth) => match read_policy(cluster.infobase_auth) {
                        Err(problem) => Err(problem),
                        Ok(infobase_auth) => match read_version(alias, cluster.rac_version) {
                            Err(problem) => Err(problem),
                            Ok(asked) => match credentials_of(cluster_auth) {
                                Err(problem) => Err(problem),
                                Ok(cluster_credentials) => Ok(
                                    ConfiguredView {
                                        target: TargetView {
                                            alias,
                                            ras,
                                            discovered_cluster: DiscoveredView {
                                                uuid: cluster.uuid,
                                                name: cluster.name,
                                                host: cluster.host,
                                                port: cluster.port,
                                                extra: Seq::empty(),
                                            },
                                            rac_policy: policy_of(cluster.rac_path, asked),
                                            cluster_auth,
                                            infobase_auth,
                                        },
                                        search_policy: SearchPolicyView {
                                            cluster_path: cluster.rac_path,
                                            global_path: global_rac_path,
                                            version: selection_of(asked),
                                            ..defaults
                                        },
                                        cluster_credentials,
                                    },
                                ),
                            },
                        },
                    },
                },
            },
        },
    }
}

fn selection_from(asked: Option<PlatformVersion>) -> (result: RacVersionSelection)
    ensures
        result@ == selection_of(outcome::option_view(asked)),
{
    match asked {
        Some(found) => RacVersionSelection::Exact(domain_version_to_rac(found)),
        None => RacVersionSelection::Auto,
    }
}

/// Reads one target of the configuration.
pub fn convert_cluster(
    alias: &str,
    cluster: &config::ClusterConfig,
    global_rac_path: &Option<String>,
    defaults: &SearchPolicy,
) -> (result: Result<ConfiguredTarget, AppError>)
    ensures
        outcome::result_view(result) == read_target(
            alias@,
            cluster@,
            outcome::option_view(*global_rac_path),
            defaults@,
        ),
{
    let alias = match ClusterAlias::new(alias) {
        Ok(alias) => alias,
        Err(error) => {
            return Err(AppError::from_domain(&error));
        },
    };
    let ras = match RasEndpoint::new(cluster.ras.host.as_str(), cluster.ras.port) {
        Ok(ras) => ras,
        Err(error) => {
            return Err(AppError::from_domain(&error));
        },
    };
    let discovered_cluster = match DiscoveredCluster::new(
        ClusterUuid::new(cluster.discovered_cluster.uuid),
        cluster.discovered_cluster.name.as_str(),
        cluster.discovered_cluster.host.as_str(),
        cluster.discovered_cluster.port,
    ) {
        Ok(discovered) => discovered,
        Err(error) => {
            return Err(AppError::from_domain(&error));
        },
    };
    let cluster_auth = match config_auth_to_domain(&cluster.cluster_auth) {
        Ok(auth) => auth,
        Err(error) => {
            return Err(error);
        },
    };
    let infobase_auth = match config_infobase_auth_to_domain(&cluster.infobase_auth) {
        Ok(auth) => auth,
        Err(error) => {
            return Err(error);
        },
    };
    let asked = match version_to_domain(alias.as_str(), &cluster.rac.version) {
        Ok(asked) => asked,
        Err(error) => {
            return Err(error);
        },
    };
    let rac_policy = match &cluster.rac.path {
        Some(path) => RacPolicy::ExplicitPath(path.clone()),
        None => match asked {
            Some(found) => RacPolicy::Version(found),
            None => RacPolicy::Auto,
        },
    };
    let cluster_credentials = match auth_to_rac_credentials(&cluster_auth) {
        Ok(credentials) => credentials,
        Err(error) => {
            return Err(error);
        },
    };
    let mut search_policy = defaults.clone();
    search_policy.cluster_path = clone_text(&cluster.rac.path);
    search_policy.global_path = clone_text(global_rac_path);
    search_policy.version = selection_from(asked);
    let target = ClusterTarget::new(
        alias,
        ras,
        discovered_cluster,
        rac_policy,
        cluster_auth,
        infobase_auth,
    );
    Ok(ConfiguredTarget { target, search_policy, cluster_credentials })
}

/// The first `count` targets of a configuration, or the first problem with one.
pub open spec fn read_targets(
    clusters: Seq<(Seq<char>, ClusterView)>,
    global_rac_path: Option<Seq<char>>,
    defaults: SearchPolicyView,
    count: int,
) -> Result<Seq<ConfiguredView>, AppProblem>
    decreases count,
{
    if count <= 0 {
        Ok(Seq::empty())
    } else {
        match read_targets(clusters, global_rac_path, defaults, count - 1) {
            Err(problem) => Err(problem),
            Ok(found) => match read_target(
                clusters[count - 1].0,
                clusters[count - 1].1,
                global_rac_path,
                defaults,
            ) {
                Err(problem) => Err(problem),
                Ok(target) => Ok(found.push(target)),
            },
        }
    }
}

proof fn lemma_read_targets_fail(
    clusters: Seq<(Seq<char>, ClusterView)>,
    global_rac_path: Option<Seq<char>>,
    defaults: SearchPolicyView,
    from: int,
    to: int,
)
    requires
        0 <= from <= to,
        read_targets(clusters, global_rac_path, defaults, from) is Err,
    ensures
        read_targets(clusters, global_rac_path, defaults, to) == read_targets(
            clusters,
            global_rac_path,
            defaults,
            from,
        ),
    decreases to - from,
{
    if from < to {
        lemma_read_targets_fail(clusters, global_rac_path, defaults, from, to - 1);
    }
}

/// Aliases in order, without regard to ASCII case.
pub open spec fn alias_order(left: ConfiguredView, right: ConfiguredView) -> Order {
    order::compare_text(text::lower(left.target.alias), text::lower(right.target.alias))
}

pub open spec fn alias_ranking() -> spec_fn(ConfiguredView, ConfiguredView) -> Order {
    |left: ConfiguredView, right: ConfiguredView| alias_order(left, right)
}

spec fn target_ranking() -> spec_fn(ConfiguredTarget, ConfiguredTarget) -> Order {
    |left: ConfiguredTarget, right: ConfiguredTarget| alias_order(left@, right@)
}

proof fn lemma_target_ranking()
    ensures
        order::is_ranking(target_ranking()),
{
    let rank = target_ranking();
    assert forall|a: ConfiguredTarget, b: ConfiguredTarget| #[trigger] rank(b, a) == rank(
        a,
        b,
    ).flipped() by {
        order::lemma_compare_text_flips(
            text::lower(a@.target.alias),
            text::lower(b@.target.alias),
        );
    }
    assert forall|a: ConfiguredTarget, b: ConfiguredTarget, c: ConfiguredTarget|
        #[trigger] rank(a, b) != Order::Greater && #[trigger] rank(b, c)
            != Order::Greater implies rank(a, c) != Order::Greater by {
        order::lemma_compare_text_transitive(
            text::lower(a@.target.alias),
            text::lower(b@.target.alias),
            text::lower(c@.target.alias),
        );
    }
}

fn sort_targets(targets: Vec<ConfiguredTarget>) -> (result: Vec<ConfiguredTarget>)
    ensures
        order::is_stable_sort(
            configured_views(targets@),
            configured_views(result@),
            alias_ranking(),
        ),
{
    let compare = |left: &ConfiguredTarget, right: &ConfiguredTarget| -> (found: Order)
        ensures
            found == alias_order(left@, right@),
        { left.target.alias.compare(&right.target.alias) };
    proof {
        lemma_target_ranking();
    }
    let ghost before = targets@;
    let result = order::stable_sort(targets, &compare, Ghost(target_ranking()));
    proof {
        order::lemma_sort_of_views(
            before,
            result@,
            target_ranking(),
            |target: ConfiguredTarget| target@,
            alias_ranking(),
        );
    }
    result
}

fn targets_to_domain(
    clusters: &config::Clusters,
    global_rac_path: &Option<String>,
    defaults: &SearchPolicy,
) -> (result: Result<Vec<ConfiguredTarget>, AppError>)
    ensures
        ({
            let entries = config::cluster_entries(*clusters);
            let expected = read_targets(
                entries,
                outcome::option_view(*global_rac_path),
                defaults@,
                entries.len() as int,
            );
            match result {
                Ok(targets) => expected == Ok::<_, AppProblem>(configured_views(targets@)),
                Err(error) => expected == Err::<Seq<ConfiguredView>, _>(error@),
            }
        }),
{
    let ghost entries = config::cluster_entries(*clusters);
    let ghost path = outcome::option_view(*global_rac_path);
    let mut result: Vec<ConfiguredTarget> = Vec::new();
    let count: usize = config::clusters_len(clusters);
    let mut i: usize = 0;
    assert(configured_views(result@) =~= Seq::<ConfiguredView>::empty());
    while i < count
        invariant
            i <= count == entries.len(),
            entries == config::cluster_entries(*clusters),
            path == outcome::option_view(*global_rac_path),
            read_targets(entries, path, defaults@, i as int) == Ok::<_, AppProblem>(
                configured_views(result@),
            ),
        decreases count - i,
    {
        if let Some((alias, cluster)) = config::clusters_at(clusters, i) {
            let target = match convert_cluster(alias.as_str(), cluster, global_rac_path, defaults) {
                Ok(target) => target,
                Err(error) => {
                    proof {
                        lemma_read_targets_fail(
                            entries,
                            path,
                            defaults@,
                            i + 1,
                            entries.len() as int,
                        );
                    }
                    return Err(error);
                },
            };
            let ghost before = configured_views(result@);
            let ghost added = target@;
            result.push(target);
            assert(configured_views(result@) =~= before.push(added));
        }
        i = i + 1;
    }
    Ok(result)
}

/// The targets of a configuration in the order in which they were written, or why it cannot be used.
pub open spec fn read_snapshot(snapshot: RawSnapshotView, defaults: SearchPolicyView) -> Result<
    Seq<ConfiguredView>,
    AppProblem,
> {
    match validation::config_problem(snapshot.config) {
        Some(problem) => Err(
            AppProblem::invalid(
                "invalid_config"@,
                "Некорректная конфигурация: "@ + problem.message(),
            ),
        ),
        None => read_targets(
            snapshot.config.clusters,
            snapshot.config.settings.rac_path,
            defaults,
            snapshot.config.clusters.len() as int,
        ),
    }
}

/// Whether the services see a configuration as it is: its settings, and its targets sorted by alias.
pub open spec fn is_read_from(
    view: ApplicationView,
    snapshot: RawSnapshotView,
    targets: Seq<ConfiguredView>,
) -> bool {
    &&& view.path == snapshot.path
    &&& view.timeout == snapshot.config.settings.timeout_seconds
    &&& view.global_rac_path == snapshot.config.settings.rac_path
    &&& order::is_stable_sort(targets, view.targets, alias_ranking())
}

/// Reads a configuration for the services.
pub fn convert_config_snapshot(snapshot: RawConfigSnapshot, defaults: &SearchPolicy) -> (result:
    Result<ApplicationConfigSnapshot, AppError>)
    ensures
        match result {
            Ok(converted) => read_snapshot(snapshot@, defaults@) is Ok && is_read_from(
                converted@,
                snapshot@,
                read_snapshot(snapshot@, defaults@)->Ok_0,
            ),
            Err(error) => read_snapshot(snapshot@, defaults@) == Err::<Seq<ConfiguredView>, _>(
                error@,
            ),
        },
{
    match snapshot.config.validate() {
        Ok(()) => {},
        Err(problem) => {
            let mut message = "Некорректная конфигурация: ".to_owned();
            message.push_str(problem.message().as_str());
            return Err(AppError::config("invalid_config", message.as_str()));
        },
    }
    let targets = match targets_to_domain(
        &snapshot.config.clusters,
        &snapshot.config.settings.rac_path,
        defaults,
    ) {
        Ok(targets) => targets,
        Err(error) => {
            return Err(error);
        },
    };
    let targets = sort_targets(targets);
    Ok(
        ApplicationConfigSnapshot {
            path: snapshot.path,
            timeout: snapshot.config.settings.timeout_seconds,
            global_rac_path: snapshot.config.settings.rac_path,
            targets,
        },
    )
}

/// The search for the utility on behalf of a cluster that is not configured yet.
pub open spec fn new_cluster_policy(
    global_rac_path: Option<Seq<char>>,
    policy: RacPolicyView,
    explicit_path: Option<Seq<char>>,
    defaults: SearchPolicyView,
) -> SearchPolicyView {
    SearchPolicyView {
        explicit_path,
        cluster_path: (match policy {
            RacPolicyView::ExplicitPath(path) => Some(path),
            _ => None,
        }),
        global_path: global_rac_path,
        version: (match policy {
            RacPolicyView::Version(found) => SelectionView::Exact(found),
            _ => SelectionView::Auto,
        }),
        ..defaults
    }
}

/// The search for the utility on behalf of a cluster that is not configured yet.
pub fn search_policy_for_new_cluster(
    global_rac_path: &Option<String>,
    policy: &RacPolicy,
    options: &RacOptions,
    defaults: &SearchPolicy,
) -> (result: SearchPolicy)
    ensures
        result@ == new_cluster_policy(
            outcome::option_view(*global_rac_path),
            policy@,
            outcome::option_view(options.explicit_path),
            defaults@,
        ),
{
    let mut result = defaults.clone();
    result.explicit_path = clone_text(&options.explicit_path);
    result.global_path = clone_text(global_rac_path);
    match policy {
        RacPolicy::Auto => {
            result.cluster_path = None;
            result.version = RacVersionSelection::Auto;
        },
        RacPolicy::Version(found) => {
            result.cluster_path = None;
            result.version = RacVersionSelection::Exact(domain_version_to_rac(*found));
        },
        RacPolicy::ExplicitPath(path) => {
            result.cluster_path = Some(path.clone());
            result.version = RacVersionSelection::Auto;
        },
    }
    result
}

/// Credentials as the configuration writes them.
pub open spec fn written_auth(auth: AuthView) -> Result<CredentialView, AppProblem> {
    match auth {
        AuthView::NoAuth => Ok(CredentialView::NoAuth),
        AuthView::Password { user, password } => Ok(CredentialView::Password { user, password }),
        AuthView::Os { user: Some(user), os_user } if user.len() > 0 => Ok(
            CredentialView::Os { user, os_user },
        ),
        AuthView::Os { .. } => Err(
            AppProblem::invalid(
                "missing_auth_user"@,
                "Для OS-аутентификации требуется имя администратора 1С"@,
            ),
        ),
    }
}

/// Credentials as the configuration writes them.
pub fn domain_auth_to_config(auth: &AuthConfig) -> (result: Result<config::AuthConfig, AppError>)
    ensures
        outcome::result_view(result) == written_auth(auth@),
{
    match auth {
        AuthConfig::NoAuth => Ok(config::AuthConfig::none()),
        AuthConfig::Password(found) => Ok(
            config::AuthConfig::password(
                found.user(),
                config::Password::new(found.password().expose_secret()),
            ),
        ),
        AuthConfig::Os(found) => {
            match found.user() {
                Some(user) => if !user.is_empty() {
                    let os_user = match found.os_user() {
                        Some(os_user) => Some(os_user.to_owned()),
                        None => None,
                    };
                    return Ok(config::AuthConfig::os(user, os_user));
                },
                None => {},
            }
            Err(
                AppError::invalid(
                    "missing_auth_user",
                    "Для OS-аутентификации требуется имя администратора 1С",
                ),
            )
        },
    }
}

/// An override as the configuration writes it, which needs the name of the infobase.
pub open spec fn written_override(item: OverrideView) -> Result<EntryView, AppProblem> {
    match item.infobase {
        Some(name) if name.len() > 0 => match written_auth(item.auth) {
            Err(problem) => Err(problem),
            Ok(auth) => Ok(EntryView { infobase: name, infobase_uuid: item.infobase_uuid, auth }),
        },
        _ => Err(
            AppProblem::invalid(
                "missing_infobase_name"@,
                "Для переопределения учетных данных требуется точное имя информационной базы"@,
            ),
        ),
    }
}

fn missing_infobase_name() -> (result: AppError)
    ensures
        result@ == AppProblem::invalid(
            "missing_infobase_name"@,
            "Для переопределения учетных данных требуется точное имя информационной базы"@,
        ),
{
    AppError::invalid(
        "missing_infobase_name",
        "Для переопределения учетных данных требуется точное имя информационной базы",
    )
}

/// An override as the configuration writes it.
pub fn domain_override_to_config(item: &InfobaseAuthOverride) -> (result: Result<
    config::InfobaseAuthOverride,
    AppError,
>)
    ensures
        outcome::result_view(result) == written_override(item@),
{
    let name = match item.infobase() {
        Some(name) => name,
        None => {
            return Err(missing_infobase_name());
        },
    };
    if name.is_empty() {
        return Err(missing_infobase_name());
    }
    let uuid = match item.infobase_uuid() {
        Some(uuid) => Some(uuid.into_uuid()),
        None => None,
    };
    match domain_auth_to_config(item.auth()) {
        Ok(config::AuthConfig::NoAuth(_)) => Ok(config::InfobaseAuthOverride::none(name, uuid)),
        Ok(config::AuthConfig::Password(auth)) => Ok(
            config::InfobaseAuthOverride::password(name, uuid, auth.user.as_str(), auth.password),
        ),
        Ok(config::AuthConfig::Os(auth)) => Ok(
            config::InfobaseAuthOverride::os(name, uuid, auth.user.as_str(), auth.os_user),
        ),
        Err(error) => Err(error),
    }
}

/// The first `count` overrides as the configuration writes them, or the first problem with one.
pub open spec fn written_overrides(items: Seq<OverrideView>, count: int) -> Result<
    Seq<EntryView>,
    AppProblem,
>
    decreases count,
{
    if count <= 0 {
        Ok(Seq::empty())
    } else {
        match written_overrides(items, count - 1) {
            Err(problem) => Err(problem),
            Ok(found) => match written_override(items[count - 1]) {
                Err(problem) => Err(problem),
                Ok(entry) => Ok(found.push(entry)),
            },
        }
    }
}

proof fn lemma_written_overrides_fail(items: Seq<OverrideView>, from: int, to: int)
    requires
        0 <= from <= to,
        written_overrides(items, from) is Err,
    ensures
        written_overrides(items, to) == written_overrides(items, from),
    decreases to - from,
{
    if from < to {
        lemma_written_overrides_fail(items, from, to - 1);
    }
}

/// Credentials for infobases as the configuration writes them.
pub open spec fn written_policy(policy: PolicyView) -> Result<InfobaseAuthView, AppProblem> {
    match written_auth(policy.default) {
        Err(problem) => Err(problem),
        Ok(default) => match written_overrides(
            policy.overrides,
            policy.overrides.len() as int,
        ) {
            Err(problem) => Err(problem),
            Ok(overrides) => Ok(InfobaseAuthView { default, overrides }),
        },
    }
}

fn overrides_to_config(items: &Vec<InfobaseAuthOverride>) -> (result: Result<
    Vec<config::InfobaseAuthOverride>,
    AppError,
>)
    ensures
        match result {
            Ok(entries) => written_overrides(
                model::override_views(items@),
                items@.len() as int,
            ) == Ok::<_, AppProblem>(config::entry_views(entries@)),
            Err(error) => written_overrides(model::override_views(items@), items@.len() as int)
                == Err::<Seq<EntryView>, _>(error@),
        },
{
    let ghost views = model::override_views(items@);
    let mut result: Vec<config::InfobaseAuthOverride> = Vec::new();
    let mut i: usize = 0;
    assert(config::entry_views(result@) =~= Seq::<EntryView>::empty());
    while i < items.len()
        invariant
            i <= items.len(),
            views == model::override_views(items@),
            written_overrides(views, i as int) == Ok::<_, AppProblem>(
                config::entry_views(result@),
            ),
        decreases items.len() - i,
    {
        assert(views[i as int] == items@[i as int]@);
        let entry = match domain_override_to_config(&items[i]) {
            Ok(entry) => entry,
            Err(error) => {
                proof {
                    lemma_written_overrides_fail(views, i + 1, items@.len() as int);
                }
                return Err(error);
            },
        };
        let ghost before = config::entry_views(result@);
        let ghost added = entry@;
        result.push(entry);
        assert(config::entry_views(result@) =~= before.push(added));
        i = i + 1;
    }
    Ok(result)
}

/// Credentials for infobases as the configuration writes them.
pub fn domain_infobase_auth_to_config(policy: &InfobaseAuthPolicy) -> (result: Result<
    config::InfobaseAuthConfig,
    AppError,
>)
    ensures
        outcome::result_view(result) == written_policy(policy@),
{
    let default = match domain_auth_to_config(policy.default_auth()) {
        Ok(default) => default,
        Err(error) => {
            return Err(error);
        },
    };
    let overrides = match overrides_to_config(policy.overrides()) {
        Ok(overrides) => overrides,
        Err(error) => {
            return Err(error);
        },
    };
    Ok(config::InfobaseAuthConfig { default, overrides })
}

/// Which utility the configuration writes down for a cluster.
pub open spec fn written_rac(policy: RacPolicyView) -> (Option<Seq<char>>, RacVersionView) {
    match policy {
        RacPolicyView::Auto => (None, RacVersionView::Auto),
        RacPolicyView::Version(found) => (None, RacVersionView::Exact(found.text())),
        RacPolicyView::ExplicitPath(path) => (Some(path), RacVersionView::Auto),
    }
}

/// Which utility the configuration writes down for a cluster.
pub fn domain_rac_to_config(policy: &RacPolicy) -> (result: config::RacConfig)
    ensures
        (outcome::option_view(result.path), result.version@) == written_rac(policy@),
{
    match policy {
        RacPolicy::Auto => config::RacConfig::default(),
        RacPolicy::Version(found) => config::RacConfig {
            path: None,
            version: config::RacVersion::Exact(found.to_text()),
        },
        RacPolicy::ExplicitPath(path) => config::RacConfig {
            path: Some(path.clone()),
            version: config::RacVersion::Auto,
        },
    }
}

/// Credentials that the domain accepts.
pub open spec fn is_sound(auth: AuthView) -> bool {
    match auth {
        AuthView::NoAuth => true,
        AuthView::Password { user, password } => auth::password_auth(user, password) is Ok,
        AuthView::Os { user, os_user } => auth::os_auth(user, os_user) is Ok,
    }
}

/// Credentials that were written down read back as they were.
pub proof fn law_credentials_read_back(auth: AuthView)
    requires
        is_sound(auth),
        written_auth(auth) is Ok,
    ensures
        read_auth(written_auth(auth)->Ok_0) == Ok::<_, AppProblem>(auth),
{
}

/// An override that was written down reads back as it was.
pub proof fn law_override_reads_back(item: OverrideView)
    requires
        is_sound(item.auth),
        written_override(item) is Ok,
    ensures
        read_override(written_override(item)->Ok_0) == Ok::<_, AppProblem>(item),
{
}

proof fn lemma_overrides_read_back(items: Seq<OverrideView>, count: int)
    requires
        0 <= count <= items.len(),
        forall|i: int| 0 <= i < items.len() ==> is_sound((#[trigger] items[i]).auth),
        written_overrides(items, count) is Ok,
    ensures
        written_overrides(items, count)->Ok_0.len() == count,
        read_overrides(written_overrides(items, count)->Ok_0, count) == Ok::<_, AppProblem>(
            items.take(count),
        ),
    decreases count,
{
    if count > 0 {
        lemma_overrides_read_back(items, count - 1);
        let before = written_overrides(items, count - 1)->Ok_0;
        let after = written_overrides(items, count)->Ok_0;
        let entry = written_override(items[count - 1])->Ok_0;
        assert(after == before.push(entry));
        law_override_reads_back(items[count - 1]);
        lemma_same_start(before, after, count - 1);
        assert(items.take(count) =~= items.take(count - 1).push(items[count - 1]));
    } else {
        assert(items.take(0) =~= Seq::empty());
    }
}

proof fn lemma_same_start(left: Seq<EntryView>, right: Seq<EntryView>, count: int)
    requires
        0 <= count <= left.len(),
        count <= right.len(),
        forall|i: int| 0 <= i < count ==> #[trigger] left[i] == right[i],
    ensures
        read_overrides(left, count) == read_overrides(right, count),
    decreases count,
{
    if count > 0 {
        lemma_same_start(left, right, count - 1);
        assert(left[count - 1] == right[count - 1]);
    }
}

/// Credentials for infobases that were written down read back as they were.
pub proof fn law_policy_reads_back(policy: PolicyView)
    requires
        is_sound(policy.default),
        forall|i: int|
            0 <= i < policy.overrides.len() ==> is_sound((#[trigger] policy.overrides[i]).auth),
        model::first_conflict(policy.overrides, 0) is None,
        written_policy(policy) is Ok,
    ensures
        read_policy(written_policy(policy)->Ok_0) == Ok::<_, AppProblem>(policy),
{
    law_credentials_read_back(policy.default);
    lemma_overrides_read_back(policy.overrides, policy.overrides.len() as int);
    assert(policy.overrides.take(policy.overrides.len() as int) =~= policy.overrides);
}

/// Which utility was written down for a cluster reads back as it was.
pub proof fn law_rac_policy_reads_back(alias: Seq<char>, policy: RacPolicyView)
    ensures
        ({
            let (path, asked) = written_rac(policy);
            &&& read_version(alias, asked) is Ok
            &&& policy_of(path, read_version(alias, asked)->Ok_0) == policy
        }),
{
    match policy {
        RacPolicyView::Version(found) => {
            version::law_version_round_trip(found);
        },
        _ => {},
    }
}

proof fn lemma_targets_keep_aliases(
    clusters: Seq<(Seq<char>, ClusterView)>,
    global_rac_path: Option<Seq<char>>,
    defaults: SearchPolicyView,
    count: int,
)
    requires
        0 <= count <= clusters.len(),
        read_targets(clusters, global_rac_path, defaults, count) is Ok,
    ensures
        ({
            let targets = read_targets(clusters, global_rac_path, defaults, count)->Ok_0;
            &&& targets.len() == count
            &&& forall|i: int|
                0 <= i < count ==> (#[trigger] targets[i]).target.alias == clusters[i].0
        }),
    decreases count,
{
    if count > 0 {
        lemma_targets_keep_aliases(clusters, global_rac_path, defaults, count - 1);
    }
}

/// The services see every cluster of the configuration once, in strictly ascending order of aliases
/// without regard to case.
pub proof fn law_targets_ascend(
    view: ApplicationView,
    snapshot: RawSnapshotView,
    defaults: SearchPolicyView,
    i: int,
    j: int,
)
    requires
        read_snapshot(snapshot, defaults) is Ok,
        is_read_from(view, snapshot, read_snapshot(snapshot, defaults)->Ok_0),
        0 <= i < j < view.targets.len(),
    ensures
        view.targets.len() == snapshot.config.clusters.len(),
        alias_order(view.targets[i], view.targets[j]) == Order::Less,
{
    let targets = read_snapshot(snapshot, defaults)->Ok_0;
    let clusters = snapshot.config.clusters;
    lemma_targets_keep_aliases(
        clusters,
        snapshot.config.settings.rac_path,
        defaults,
        clusters.len() as int,
    );
    let places = choose|places: Seq<int>|
        #[trigger] order::is_rearranged(targets, view.targets, places) && order::is_ordered(
            view.targets,
            places,
            alias_ranking(),
        );
    let a = places[i];
    let b = places[j];
    assert(view.targets[i] == targets[a]);
    assert(view.targets[j] == targets[b]);
    assert(a != b);
    let rank = alias_ranking();
    assert(rank(view.targets[i], view.targets[j]) == alias_order(view.targets[i], view.targets[j]));
    if a < b {
        validation::law_valid_aliases_differ(snapshot.config, a, b);
    } else {
        validation::law_valid_aliases_differ(snapshot.config, b, a);
    }
    order::lemma_compare_text_flips(
        text::lower(view.targets[i].target.alias),
        text::lower(view.targets[j].target.alias),
    );
}

} // verus!
