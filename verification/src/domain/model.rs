//! Records of a cluster and the targets they come from.

use vstd::prelude::*;
use vstd::string::*;

use crate::domain::auth::{AuthConfig, AuthView};
use crate::domain::entries;
use crate::domain::error::{DomainError, DomainErrorView};
use crate::domain::field_value::{
    clone_extra, extra_get, new_extra, ExtraFields, FieldValue, FieldValueRef, ValueView,
};
use crate::domain::identity::{
    ClusterUuid, ConnectionUuid, InfobaseUuid, ProcessUuid, SessionUuid, Uuid,
};
use crate::domain::timestamp::Timestamp;
use crate::domain::value;
use crate::domain::value::{ClusterAlias, EndpointView, RasEndpoint};
use crate::domain::version::{PlatformVersion, VersionView};
use crate::number;
use crate::outcome;
use crate::text;

verus! {

#[derive(Clone, Copy, Debug, PartialEq, Eq, Hash, Structural)]
pub enum RecordKind {
    Infobase,
    Session,
    Connection,
    Process,
}

impl RecordKind {
    pub open spec fn text(self) -> Seq<char> {
        match self {
            RecordKind::Infobase => "infobase"@,
            RecordKind::Session => "session"@,
            RecordKind::Connection => "connection"@,
            RecordKind::Process => "process"@,
        }
    }

    pub fn as_str(self) -> (result: &'static str)
        ensures
            result@ == self.text(),
    {
        match self {
            RecordKind::Infobase => "infobase",
            RecordKind::Session => "session",
            RecordKind::Connection => "connection",
            RecordKind::Process => "process",
        }
    }
}

/// Which `rac` executable a cluster is administered with.
#[derive(Debug, PartialEq, Eq)]
pub enum RacPolicy {
    Auto,
    Version(PlatformVersion),
    ExplicitPath(String),
}

pub enum RacPolicyView {
    Auto,
    Version(VersionView),
    ExplicitPath(Seq<char>),
}

impl View for RacPolicy {
    type V = RacPolicyView;

    open spec fn view(&self) -> RacPolicyView {
        match self {
            RacPolicy::Auto => RacPolicyView::Auto,
            RacPolicy::Version(version) => RacPolicyView::Version(version@),
            RacPolicy::ExplicitPath(path) => RacPolicyView::ExplicitPath(path@),
        }
    }
}

impl Clone for RacPolicy {
    fn clone(&self) -> (result: Self)
        ensures
            result == *self,
    {
        match self {
            RacPolicy::Auto => RacPolicy::Auto,
            RacPolicy::Version(version) => RacPolicy::Version(*version),
            RacPolicy::ExplicitPath(path) => RacPolicy::ExplicitPath(path.clone()),
        }
    }
}

impl Default for RacPolicy {
    fn default() -> (result: Self)
        ensures
            result == RacPolicy::Auto,
    {
        RacPolicy::Auto
    }
}

/// A cluster as its administration server describes it.
#[derive(Debug, PartialEq, Eq)]
pub struct DiscoveredCluster {
    pub uuid: ClusterUuid,
    pub name: String,
    pub host: String,
    pub port: u16,
    pub extra: ExtraFields,
}

pub struct DiscoveredView {
    pub uuid: u128,
    pub name: Seq<char>,
    pub host: Seq<char>,
    pub port: u16,
    pub extra: Seq<(Seq<char>, ValueView)>,
}

impl View for DiscoveredCluster {
    type V = DiscoveredView;

    open spec fn view(&self) -> DiscoveredView {
        DiscoveredView {
            uuid: self.uuid@,
            name: self.name@,
            host: self.host@,
            port: self.port,
            extra: crate::domain::field_value::extra_entries(self.extra),
        }
    }
}

impl DiscoveredCluster {
    pub fn new(uuid: ClusterUuid, name: &str, host: &str, port: u16) -> (result: Result<
        Self,
        DomainError,
    >)
        ensures
            match result {
                Ok(cluster) => value::endpoint_of(host@, port) is Ok && cluster.uuid == uuid
                    && cluster.name@ == name@ && cluster.host@ == host@ && cluster.port == port
                    && extra_entries_empty(cluster.extra),
                Err(error) => value::endpoint_of(host@, port) == Err::<value::EndpointView, _>(
                    error@,
                ),
            },
    {
        let endpoint = match RasEndpoint::new(host, port) {
            Ok(endpoint) => endpoint,
            Err(error) => {
                return Err(error);
            },
        };
        Ok(
            DiscoveredCluster {
                uuid,
                name: name.to_owned(),
                host: endpoint.host().to_owned(),
                port: endpoint.port(),
                extra: new_extra(),
            },
        )
    }

    /// The address of the cluster itself.
    pub fn endpoint(&self) -> (result: Result<RasEndpoint, DomainError>)
        ensures
            outcome::result_view(result) == value::endpoint_of(self.host@, self.port),
    {
        RasEndpoint::new(self.host.as_str(), self.port)
    }
}

/// Two descriptions of a cluster with the same contents.
pub open spec fn same_cluster(left: DiscoveredCluster, right: DiscoveredCluster) -> bool {
    &&& left.uuid == right.uuid
    &&& left.name == right.name
    &&& left.host == right.host
    &&& left.port == right.port
    &&& crate::domain::field_value::extra_entries(left.extra)
        == crate::domain::field_value::extra_entries(right.extra)
}

impl Clone for DiscoveredCluster {
    fn clone(&self) -> (result: Self)
        ensures
            same_cluster(result, *self),
    {
        DiscoveredCluster {
            uuid: self.uuid,
            name: self.name.clone(),
            host: self.host.clone(),
            port: self.port,
            extra: clone_extra(&self.extra),
        }
    }
}

pub open spec fn extra_entries_empty(extra: ExtraFields) -> bool {
    crate::domain::field_value::extra_entries(extra) == Seq::<(Seq<char>, ValueView)>::empty()
}

/// Credentials for one infobase, found by its name or its identity.
#[derive(PartialEq, Eq)]
pub struct InfobaseAuthOverride {
    infobase: Option<String>,
    infobase_uuid: Option<InfobaseUuid>,
    auth: AuthConfig,
}

pub struct OverrideView {
    pub infobase: Option<Seq<char>>,
    pub infobase_uuid: Option<u128>,
    pub auth: AuthView,
}

impl View for InfobaseAuthOverride {
    type V = OverrideView;

    closed spec fn view(&self) -> OverrideView {
        OverrideView {
            infobase: outcome::option_view(self.infobase),
            infobase_uuid: outcome::option_view(self.infobase_uuid),
            auth: self.auth@,
        }
    }
}

/// An override needs a name or an identity, and its name is not empty.
pub open spec fn override_of(
    infobase: Option<Seq<char>>,
    infobase_uuid: Option<u128>,
    auth: AuthView,
) -> Result<OverrideView, DomainErrorView> {
    if infobase matches Some(name) && name.len() == 0 {
        Err(
            DomainErrorView::InvalidAuthOverride {
                reason: "имя информационной базы не может быть пустым"@,
            },
        )
    } else if infobase is None && infobase_uuid is None {
        Err(
            DomainErrorView::InvalidAuthOverride {
                reason: "требуется имя или UUID информационной базы"@,
            },
        )
    } else {
        Ok(OverrideView { infobase, infobase_uuid, auth })
    }
}

impl InfobaseAuthOverride {
    pub fn new(
        infobase: Option<String>,
        infobase_uuid: Option<InfobaseUuid>,
        auth: AuthConfig,
    ) -> (result: Result<Self, DomainError>)
        ensures
            outcome::result_view(result) == override_of(
                outcome::option_view(infobase),
                outcome::option_view(infobase_uuid),
                auth@,
            ),
    {
        if let Some(name) = &infobase {
            if name.as_str().is_empty() {
                return Err(
                    DomainError::InvalidAuthOverride {
                        reason: "имя информационной базы не может быть пустым",
                    },
                );
            }
        }
        if infobase.is_none() && infobase_uuid.is_none() {
            return Err(
                DomainError::InvalidAuthOverride {
                    reason: "требуется имя или UUID информационной базы",
                },
            );
        }
        Ok(InfobaseAuthOverride { infobase, infobase_uuid, auth })
    }

    pub fn infobase(&self) -> (result: Option<&str>)
        ensures
            outcome::option_view(result) == self@.infobase,
    {
        match &self.infobase {
            Some(name) => Some(name.as_str()),
            None => None,
        }
    }

    pub fn infobase_uuid(&self) -> (result: Option<InfobaseUuid>)
        ensures
            outcome::option_view(result) == self@.infobase_uuid,
    {
        self.infobase_uuid
    }

    pub fn auth(&self) -> (result: &AuthConfig)
        ensures
            result@ == self@.auth,
    {
        &self.auth
    }
}

impl Clone for InfobaseAuthOverride {
    fn clone(&self) -> (result: Self)
        ensures
            result == *self,
    {
        InfobaseAuthOverride {
            infobase: match &self.infobase {
                Some(name) => Some(name.clone()),
                None => None,
            },
            infobase_uuid: self.infobase_uuid,
            auth: self.auth.clone(),
        }
    }
}

/// Why two overrides cannot stand together: the same identity, or the same name but for case.
pub open spec fn conflict(candidate: OverrideView, existing: OverrideView) -> Option<Seq<char>> {
    if candidate.infobase_uuid is Some && candidate.infobase_uuid == existing.infobase_uuid {
        Some("UUID информационной базы повторяется"@)
    } else if candidate.infobase is Some && existing.infobase is Some && text::lowercase(
        candidate.infobase->0,
    ) == text::lowercase(existing.infobase->0) {
        Some("имя информационной базы повторяется без учета регистра"@)
    } else {
        None
    }
}

/// The first conflict of override `i` with an earlier one, from `j` on.
pub open spec fn conflict_from(overrides: Seq<OverrideView>, i: int, j: int) -> Option<Seq<char>>
    decreases i - j,
{
    if j >= i {
        None
    } else if conflict(overrides[i], overrides[j]) is Some {
        conflict(overrides[i], overrides[j])
    } else {
        conflict_from(overrides, i, j + 1)
    }
}

/// The first conflict among overrides, from `i` on.
pub open spec fn first_conflict(overrides: Seq<OverrideView>, i: int) -> Option<Seq<char>>
    decreases overrides.len() - i,
{
    if i >= overrides.len() {
        None
    } else if conflict_from(overrides, i, 0) is Some {
        conflict_from(overrides, i, 0)
    } else {
        first_conflict(overrides, i + 1)
    }
}

fn find_conflict(candidate: &InfobaseAuthOverride, existing: &InfobaseAuthOverride) -> (result:
    Option<&'static str>)
    ensures
        outcome::option_view(result) == conflict(candidate@, existing@),
{
    if let (Some(left), Some(right)) = (candidate.infobase_uuid, existing.infobase_uuid) {
        if left.same(right) {
            return Some("UUID информационной базы повторяется");
        }
    }
    if let (Some(left), Some(right)) = (candidate.infobase(), existing.infobase()) {
        if text::to_lowercase(left) == text::to_lowercase(right) {
            return Some("имя информационной базы повторяется без учета регистра");
        }
    }
    None
}

pub open spec fn override_views(overrides: Seq<InfobaseAuthOverride>) -> Seq<OverrideView> {
    overrides.map_values(|item: InfobaseAuthOverride| item@)
}

/// Default credentials for infobases, and overrides for single ones.
#[derive(PartialEq, Eq)]
pub struct InfobaseAuthPolicy {
    default: AuthConfig,
    overrides: Vec<InfobaseAuthOverride>,
}

pub struct PolicyView {
    pub default: AuthView,
    pub overrides: Seq<OverrideView>,
}

impl View for InfobaseAuthPolicy {
    type V = PolicyView;

    closed spec fn view(&self) -> PolicyView {
        PolicyView { default: self.default@, overrides: override_views(self.overrides@) }
    }
}

/// The first override with an identity, from `i` on.
pub open spec fn override_by_uuid(overrides: Seq<OverrideView>, uuid: u128, i: int) -> Option<AuthView>
    decreases overrides.len() - i,
{
    if i >= overrides.len() {
        None
    } else if overrides[i].infobase_uuid == Some(uuid) {
        Some(overrides[i].auth)
    } else {
        override_by_uuid(overrides, uuid, i + 1)
    }
}

/// The first override with a name but for case, from `i` on.
pub open spec fn override_by_name(
    overrides: Seq<OverrideView>,
    name: Seq<char>,
    i: int,
) -> Option<AuthView>
    decreases overrides.len() - i,
{
    if i >= overrides.len() {
        None
    } else if overrides[i].infobase is Some && text::lowercase(overrides[i].infobase->0)
        == text::lowercase(name) {
        Some(overrides[i].auth)
    } else {
        override_by_name(overrides, name, i + 1)
    }
}

impl PolicyView {
    /// The credentials for an infobase: by identity, then by name, then the default.
    pub open spec fn resolved(self, uuid: Option<u128>, name: Seq<char>) -> AuthView {
        let by_uuid = match uuid {
            Some(uuid) => override_by_uuid(self.overrides, uuid, 0),
            None => None,
        };
        match by_uuid {
            Some(auth) => auth,
            None => match override_by_name(self.overrides, name, 0) {
                Some(auth) => auth,
                None => self.default,
            },
        }
    }
}

impl InfobaseAuthPolicy {
    /// No two overrides conflict.
    #[verifier::type_invariant]
    spec fn well_formed(self) -> bool {
        first_conflict(override_views(self.overrides@), 0) is None
    }

    pub fn new(default: AuthConfig, overrides: Vec<InfobaseAuthOverride>) -> (result: Result<
        Self,
        DomainError,
    >)
        ensures
            outcome::result_view(result) == (match first_conflict(override_views(overrides@), 0) {
                Some(reason) => Err(DomainErrorView::InvalidAuthOverride { reason }),
                None => Ok(PolicyView { default: default@, overrides: override_views(overrides@) }),
            }),
    {
        let ghost views = override_views(overrides@);
        let mut i: usize = 0;
        while i < overrides.len()
            invariant
                views == override_views(overrides@),
                i <= overrides@.len(),
                first_conflict(views, 0) == first_conflict(views, i as int),
            decreases overrides.len() - i,
        {
            let mut j: usize = 0;
            while j < i
                invariant
                    views == override_views(overrides@),
                    j <= i < overrides@.len(),
                    first_conflict(views, 0) == first_conflict(views, i as int),
                    conflict_from(views, i as int, 0) == conflict_from(views, i as int, j as int),
                decreases i - j,
            {
                assert(views[i as int] == overrides@[i as int]@);
                assert(views[j as int] == overrides@[j as int]@);
                if let Some(reason) = find_conflict(&overrides[i], &overrides[j]) {
                    return Err(DomainError::InvalidAuthOverride { reason });
                }
                j = j + 1;
            }
            i = i + 1;
        }
        Ok(InfobaseAuthPolicy { default, overrides })
    }

    pub fn default_auth(&self) -> (result: &AuthConfig)
        ensures
            result@ == self@.default,
    {
        &self.default
    }

    pub fn overrides(&self) -> (result: &Vec<InfobaseAuthOverride>)
        ensures
            override_views(result@) == self@.overrides,
            first_conflict(self@.overrides, 0) is None,
    {
        proof {
            use_type_invariant(self);
        }
        &self.overrides
    }

    /// The credentials for an infobase.
    pub fn resolve(&self, uuid: Option<InfobaseUuid>, name: &str) -> (result: &AuthConfig)
        ensures
            result@ == self@.resolved(outcome::option_view(uuid), name@),
    {
        let ghost views = self@.overrides;
        if let Some(wanted) = uuid {
            let mut i: usize = 0;
            while i < self.overrides.len()
                invariant
                    uuid == Some(wanted),
                    views == override_views(self.overrides@),
                    i <= self.overrides@.len(),
                    override_by_uuid(views, wanted@, 0) == override_by_uuid(views, wanted@, i as int),
                    self@.overrides == views,
                    self@.resolved(Some(wanted@), name@) == (match override_by_uuid(views, wanted@, 0) {
                        Some(auth) => auth,
                        None => self@.resolved(None, name@),
                    }),
                decreases self.overrides.len() - i,
            {
                assert(views[i as int] == self.overrides@[i as int]@);
                if let Some(candidate) = self.overrides[i].infobase_uuid {
                    if candidate.same(wanted) {
                        return &self.overrides[i].auth;
                    }
                }
                i = i + 1;
            }
        }
        let folded = text::to_lowercase(name);
        let mut i: usize = 0;
        while i < self.overrides.len()
            invariant
                views == override_views(self.overrides@),
                i <= self.overrides@.len(),
                folded@ == text::lowercase(name@),
                override_by_name(views, name@, 0) == override_by_name(views, name@, i as int),
                self@.overrides == views,
                self@.resolved(outcome::option_view(uuid), name@) == self@.resolved(None, name@),
            decreases self.overrides.len() - i,
        {
            assert(views[i as int] == self.overrides@[i as int]@);
            if let Some(candidate) = self.overrides[i].infobase() {
                if text::to_lowercase(candidate) == folded {
                    return &self.overrides[i].auth;
                }
            }
            i = i + 1;
        }
        &self.default
    }
}

impl Default for InfobaseAuthPolicy {
    fn default() -> (result: Self)
        ensures
            result@ == (PolicyView { default: AuthView::NoAuth, overrides: Seq::empty() }),
    {
        let result = InfobaseAuthPolicy { default: AuthConfig::none(), overrides: Vec::new() };
        assert(result@.overrides =~= Seq::<OverrideView>::empty());
        result
    }
}

impl Clone for InfobaseAuthPolicy {
    fn clone(&self) -> (result: Self)
        ensures
            result@ == self@,
    {
        let mut overrides: Vec<InfobaseAuthOverride> = Vec::new();
        let mut i: usize = 0;
        while i < self.overrides.len()
            invariant
                i <= self.overrides@.len(),
                overrides@ == self.overrides@.take(i as int),
            decreases self.overrides.len() - i,
        {
            overrides.push(self.overrides[i].clone());
            assert(overrides@ =~= self.overrides@.take(i + 1));
            i = i + 1;
        }
        assert(overrides@ =~= self.overrides@);
        proof {
            use_type_invariant(self);
        }
        InfobaseAuthPolicy { default: self.default.clone(), overrides }
    }
}

proof fn lemma_no_conflict_at(overrides: Seq<OverrideView>, start: int, i: int)
    requires
        first_conflict(overrides, start) is None,
        0 <= start <= i < overrides.len(),
    ensures
        conflict_from(overrides, i, 0) is None,
    decreases i - start,
{
    if start < i {
        lemma_no_conflict_at(overrides, start + 1, i);
    }
}

proof fn lemma_no_conflict_with(overrides: Seq<OverrideView>, i: int, start: int, j: int)
    requires
        conflict_from(overrides, i, start) is None,
        0 <= start <= j < i < overrides.len(),
    ensures
        conflict(overrides[i], overrides[j]) is None,
    decreases j - start,
{
    if start < j {
        lemma_no_conflict_with(overrides, i, start + 1, j);
    }
}

/// In an accepted policy no identity and, but for case, no name occurs twice.
pub proof fn law_overrides_are_unique(overrides: Seq<OverrideView>, i: int, j: int)
    requires
        first_conflict(overrides, 0) is None,
        0 <= j < i < overrides.len(),
    ensures
        overrides[i].infobase_uuid is Some ==> overrides[i].infobase_uuid
            != overrides[j].infobase_uuid,
        overrides[i].infobase is Some && overrides[j].infobase is Some ==> text::lowercase(
            overrides[i].infobase->0,
        ) != text::lowercase(overrides[j].infobase->0),
{
    lemma_no_conflict_at(overrides, 0, i);
    lemma_no_conflict_with(overrides, i, 0, j);
}

/// An override by identity wins over every override by name.
pub proof fn law_identity_wins_over_name(policy: PolicyView, uuid: u128, name: Seq<char>, i: int)
    requires
        first_conflict(policy.overrides, 0) is None,
        0 <= i < policy.overrides.len(),
        policy.overrides[i].infobase_uuid == Some(uuid),
    ensures
        policy.resolved(Some(uuid), name) == policy.overrides[i].auth,
{
    assert forall|j: int| 0 <= j < i implies (#[trigger] policy.overrides[j]).infobase_uuid != Some(
        uuid,
    ) by {
        law_overrides_are_unique(policy.overrides, i, j);
    }
    lemma_found_by_uuid(policy.overrides, uuid, 0, i);
}

proof fn lemma_found_by_uuid(overrides: Seq<OverrideView>, uuid: u128, from: int, i: int)
    requires
        0 <= from <= i < overrides.len(),
        overrides[i].infobase_uuid == Some(uuid),
        forall|j: int| from <= j < i ==> (#[trigger] overrides[j]).infobase_uuid != Some(uuid),
    ensures
        override_by_uuid(overrides, uuid, from) == Some(overrides[i].auth),
    decreases i - from,
{
    if from < i {
        lemma_found_by_uuid(overrides, uuid, from + 1, i);
    }
}

/// A configured cluster with everything needed to administer it.
pub struct ClusterTarget {
    pub alias: ClusterAlias,
    pub ras: RasEndpoint,
    pub discovered_cluster: DiscoveredCluster,
    pub rac_policy: RacPolicy,
    pub cluster_auth: AuthConfig,
    pub infobase_auth: InfobaseAuthPolicy,
}

pub struct TargetView {
    pub alias: Seq<char>,
    pub ras: EndpointView,
    pub discovered_cluster: DiscoveredView,
    pub rac_policy: RacPolicyView,
    pub cluster_auth: AuthView,
    pub infobase_auth: PolicyView,
}

impl View for ClusterTarget {
    type V = TargetView;

    open spec fn view(&self) -> TargetView {
        TargetView {
            alias: self.alias@,
            ras: self.ras@,
            discovered_cluster: self.discovered_cluster@,
            rac_policy: self.rac_policy@,
            cluster_auth: self.cluster_auth@,
            infobase_auth: self.infobase_auth@,
        }
    }
}

impl Clone for ClusterTarget {
    fn clone(&self) -> (result: Self)
        ensures
            result@ == self@,
    {
        ClusterTarget {
            alias: self.alias.clone(),
            ras: self.ras.clone(),
            discovered_cluster: self.discovered_cluster.clone(),
            rac_policy: self.rac_policy.clone(),
            cluster_auth: self.cluster_auth.clone(),
            infobase_auth: self.infobase_auth.clone(),
        }
    }
}

impl ClusterTarget {
    pub fn new(
        alias: ClusterAlias,
        ras: RasEndpoint,
        discovered_cluster: DiscoveredCluster,
        rac_policy: RacPolicy,
        cluster_auth: AuthConfig,
        infobase_auth: InfobaseAuthPolicy,
    ) -> (result: Self)
        ensures
            result.alias == alias,
            result.ras == ras,
            result.discovered_cluster == discovered_cluster,
            result.rac_policy == rac_policy,
            result.cluster_auth == cluster_auth,
            result.infobase_auth == infobase_auth,
    {
        ClusterTarget { alias, ras, discovered_cluster, rac_policy, cluster_auth, infobase_auth }
    }

    /// Where the records of the target come from.
    pub fn source(&self) -> (result: ClusterSource)
        ensures
            result == (ClusterSource {
                cluster: self.alias,
                cluster_uuid: self.discovered_cluster.uuid,
                cluster_name: self.discovered_cluster.name,
                ras_address: self.ras,
            }),
    {
        ClusterSource {
            cluster: self.alias.clone(),
            cluster_uuid: self.discovered_cluster.uuid,
            cluster_name: self.discovered_cluster.name.clone(),
            ras_address: self.ras.clone(),
        }
    }
}

/// The cluster that a record comes from.
#[derive(Debug, PartialEq, Eq)]
pub struct ClusterSource {
    pub cluster: ClusterAlias,
    pub cluster_uuid: ClusterUuid,
    pub cluster_name: String,
    pub ras_address: RasEndpoint,
}

pub struct SourceView {
    pub cluster: Seq<char>,
    pub cluster_uuid: u128,
    pub cluster_name: Seq<char>,
    pub ras_address: EndpointView,
}

impl View for ClusterSource {
    type V = SourceView;

    open spec fn view(&self) -> SourceView {
        SourceView {
            cluster: self.cluster@,
            cluster_uuid: self.cluster_uuid@,
            cluster_name: self.cluster_name@,
            ras_address: self.ras_address@,
        }
    }
}

impl ClusterSource {
    pub fn new(
        cluster: ClusterAlias,
        cluster_uuid: ClusterUuid,
        cluster_name: &str,
        ras_address: RasEndpoint,
    ) -> (result: Self)
        ensures
            result.cluster == cluster,
            result.cluster_uuid == cluster_uuid,
            result.cluster_name@ == cluster_name@,
            result.ras_address == ras_address,
    {
        ClusterSource { cluster, cluster_uuid, cluster_name: cluster_name.to_owned(), ras_address }
    }
}

impl Clone for ClusterSource {
    fn clone(&self) -> (result: Self)
        ensures
            result == *self,
    {
        ClusterSource {
            cluster: self.cluster.clone(),
            cluster_uuid: self.cluster_uuid,
            cluster_name: self.cluster_name.clone(),
            ras_address: self.ras_address.clone(),
        }
    }
}

/// Access to the fields of a record by name.
pub trait FieldAccess {
    spec fn kind_view(&self) -> RecordKind;

    spec fn field_view(&self, name: Seq<char>) -> Option<ValueView>;

    spec fn extras_view(&self) -> Seq<(Seq<char>, ValueView)>;

    fn record_kind(&self) -> (result: RecordKind)
        ensures
            result == self.kind_view(),
    ;

    fn field(&self, name: &str) -> (result: Option<FieldValueRef<'_>>)
        ensures
            outcome::option_view(result) == self.field_view(name@),
    ;

    fn extra_fields(&self) -> (result: &ExtraFields)
        ensures
            crate::domain::field_value::extra_entries(*result) == self.extras_view(),
    ;

    fn field_owned(&self, name: &str) -> (result: Option<FieldValue>)
        ensures
            outcome::option_view(result) == self.field_view(name@),
    {
        match self.field(name) {
            Some(value) => Some(value.into_owned()),
            None => None,
        }
    }
}

/// The first of three places that knows a field.
pub open spec fn first_known(
    source: Option<ValueView>,
    known: Option<ValueView>,
    extra: Option<ValueView>,
) -> Option<ValueView> {
    if source is Some {
        source
    } else if known is Some {
        known
    } else {
        extra
    }
}

/// The value of a field that every record has from its source.
pub open spec fn source_value(source: ClusterSource, name: Seq<char>) -> Option<ValueView> {
    if name == "cluster"@ {
        Some(ValueView::Str(source.cluster@))
    } else if name == "cluster_uuid"@ {
        Some(ValueView::Uuid(source.cluster_uuid@))
    } else if name == "cluster_name"@ {
        Some(ValueView::Str(source.cluster_name@))
    } else if name == "ras_address"@ {
        Some(
            ValueView::Str(
                value::endpoint_text(source.ras_address@.host, source.ras_address@.port as nat),
            ),
        )
    } else {
        None
    }
}

fn source_field<'a>(source: &'a ClusterSource, name: &str) -> (result: Option<FieldValueRef<'a>>)
    ensures
        outcome::option_view(result) == source_value(*source, name@),
{
    if text::same(name, "cluster") {
        Some(FieldValueRef::Str(source.cluster.as_str()))
    } else if text::same(name, "cluster_uuid") {
        Some(FieldValueRef::Uuid(source.cluster_uuid.as_uuid()))
    } else if text::same(name, "cluster_name") {
        Some(FieldValueRef::Str(source.cluster_name.as_str()))
    } else if text::same(name, "ras_address") {
        Some(FieldValueRef::Str(source.ras_address.as_str()))
    } else {
        None
    }
}

fn extra_field<'a>(extra: &'a ExtraFields, name: &str) -> (result: Option<FieldValueRef<'a>>)
    ensures
        outcome::option_view(result) == entries::lookup(
            crate::domain::field_value::extra_entries(*extra),
            name@,
        ),
{
    match extra_get(extra, name) {
        Some(value) => Some(value.as_ref()),
        None => None,
    }
}

pub open spec fn text_value(value: Option<String>) -> ValueView {
    match value {
        Some(value) => ValueView::Str(value@),
        None => ValueView::Null,
    }
}

pub open spec fn uuid_value<T: View<V = u128>>(value: Option<T>) -> ValueView {
    match value {
        Some(value) => ValueView::Uuid(value@),
        None => ValueView::Null,
    }
}

pub open spec fn int_value(value: Option<i64>) -> ValueView {
    match value {
        Some(value) => ValueView::Int(value),
        None => ValueView::Null,
    }
}

pub open spec fn bool_value(value: Option<bool>) -> ValueView {
    match value {
        Some(value) => ValueView::Bool(value),
        None => ValueView::Null,
    }
}

pub open spec fn time_value(value: Option<Timestamp>) -> ValueView {
    match value {
        Some(value) => ValueView::DateTime(value),
        None => ValueView::Null,
    }
}

fn optional_str(value: &Option<String>) -> (result: FieldValueRef<'_>)
    ensures
        result@ == text_value(*value),
{
    match value {
        Some(value) => FieldValueRef::Str(value.as_str()),
        None => FieldValueRef::Null,
    }
}

fn optional_uuid(value: &Option<Uuid>) -> (result: FieldValueRef<'_>)
    ensures
        result@ == uuid_value(*value),
{
    match value {
        Some(value) => FieldValueRef::Uuid(value),
        None => FieldValueRef::Null,
    }
}

fn optional_int<'a>(value: Option<i64>) -> (result: FieldValueRef<'a>)
    ensures
        result@ == int_value(value),
{
    match value {
        Some(value) => FieldValueRef::Int(value),
        None => FieldValueRef::Null,
    }
}

fn optional_bool<'a>(value: Option<bool>) -> (result: FieldValueRef<'a>)
    ensures
        result@ == bool_value(value),
{
    match value {
        Some(value) => FieldValueRef::Bool(value),
        None => FieldValueRef::Null,
    }
}

fn optional_datetime(value: &Option<Timestamp>) -> (result: FieldValueRef<'_>)
    ensures
        result@ == time_value(*value),
{
    match value {
        Some(value) => FieldValueRef::DateTime(value),
        None => FieldValueRef::Null,
    }
}

/// A text with every quote doubled.
pub open spec fn doubled_quotes(s: Seq<char>) -> Seq<char>
    decreases s.len(),
{
    if s.len() == 0 {
        Seq::empty()
    } else if s.last() == '"' {
        doubled_quotes(s.drop_last()) + seq!['"', '"']
    } else {
        doubled_quotes(s.drop_last()).push(s.last())
    }
}

fn double_quotes(value: &str) -> (result: String)
    ensures
        result@ == doubled_quotes(value@),
{
    let source = text::chars(value);
    let mut result = String::new();
    let mut i: usize = 0;
    while i < source.len()
        invariant
            source@ == value@,
            i <= source@.len(),
            result@ == doubled_quotes(value@.take(i as int)),
        decreases source.len() - i,
    {
        assert(value@.take(i + 1).drop_last() =~= value@.take(i as int));
        let ghost before = result@;
        if source[i] == '"' {
            result.push('"');
            result.push('"');
            assert(result@ =~= before + seq!['"', '"']);
        } else {
            result.push(source[i]);
        }
        i = i + 1;
    }
    assert(value@.take(value@.len() as int) =~= value@);
    result
}

/// The connection string of an infobase: its cluster's host and port, and its name.
pub open spec fn connection_text(host: Seq<char>, port: u16, infobase: Seq<char>) -> Seq<char> {
    "Srvr=\""@ + doubled_quotes(host) + ":"@ + number::decimal(port as nat) + "\";Ref=\""@
        + doubled_quotes(infobase) + "\";"@
}

impl InfobaseRecord {
    pub fn new(
        source: ClusterSource,
        infobase: &str,
        infobase_uuid: InfobaseUuid,
        connection_string: &str,
    ) -> (result: Self)
        ensures
            result.source == source,
            result.infobase@ == infobase@,
            result.infobase_uuid == infobase_uuid,
            result.connection_string@ == connection_string@,
            extra_entries_empty(result.extra),
    {
        InfobaseRecord {
            source,
            infobase: infobase.to_owned(),
            infobase_uuid,
            connection_string: connection_string.to_owned(),
            extra: new_extra(),
        }
    }

    pub fn build_connection_string(cluster: &DiscoveredCluster, infobase: &str) -> (result: String)
        ensures
            result@ == connection_text(cluster.host@, cluster.port, infobase@),
    {
        let mut result = "Srvr=\"".to_owned();
        result.push_str(double_quotes(cluster.host.as_str()).as_str());
        result.push_str(":");
        result.push_str(number::format_u64(cluster.port as u64).as_str());
        result.push_str("\";Ref=\"");
        result.push_str(double_quotes(infobase).as_str());
        result.push_str("\";");
        result
    }
}

/// A session of a user with an infobase.
#[derive(Clone, Debug, PartialEq, Eq)]
pub struct SessionRecord {
    pub source: ClusterSource,
    pub infobase: Option<String>,
    pub infobase_uuid: Option<InfobaseUuid>,
    pub session: SessionUuid,
    pub session_id: Option<i64>,
    pub connection: Option<ConnectionUuid>,
    pub process: Option<ProcessUuid>,
    pub user_name: Option<String>,
    pub host: Option<String>,
    pub app_id: Option<String>,
    pub locale: Option<String>,
    pub started_at: Option<Timestamp>,
    pub last_active_at: Option<Timestamp>,
    pub hibernate: Option<bool>,
    pub passive_session_hibernate_time: Option<i64>,
    pub hibernate_session_terminate_time: Option<i64>,
    pub blocked_by_dbms: Option<i64>,
    pub blocked_by_ls: Option<i64>,
    pub bytes_all: Option<i64>,
    pub bytes_last_5min: Option<i64>,
    pub calls_all: Option<i64>,
    pub calls_last_5min: Option<i64>,
    pub dbms_bytes_all: Option<i64>,
    pub dbms_bytes_last_5min: Option<i64>,
    pub db_proc_info: Option<String>,
    pub db_proc_took: Option<i64>,
    pub db_proc_took_at: Option<Timestamp>,
    pub duration_all: Option<i64>,
    pub duration_all_dbms: Option<i64>,
    pub duration_current: Option<i64>,
    pub duration_current_dbms: Option<i64>,
    pub duration_last_5min: Option<i64>,
    pub duration_last_5min_dbms: Option<i64>,
    pub memory_current: Option<i64>,
    pub memory_last_5min: Option<i64>,
    pub memory_total: Option<i64>,
    pub read_current: Option<i64>,
    pub read_last_5min: Option<i64>,
    pub read_total: Option<i64>,
    pub write_current: Option<i64>,
    pub write_last_5min: Option<i64>,
    pub write_total: Option<i64>,
    pub duration_current_service: Option<i64>,
    pub duration_last_5min_service: Option<i64>,
    pub duration_all_service: Option<i64>,
    pub current_service_name: Option<String>,
    pub cpu_time_current: Option<i64>,
    pub cpu_time_last_5min: Option<i64>,
    pub cpu_time_total: Option<i64>,
    pub data_separation: Option<String>,
    pub client_ip: Option<String>,
    pub extra: ExtraFields,
}

/// The value of a known field of session records, after those of the source.
pub open spec fn session_value(record: SessionRecord, name: Seq<char>) -> Option<ValueView> {
    if name == "infobase"@ {
        Some(text_value(record.infobase))
    } else if name == "infobase_uuid"@ {
        Some(uuid_value(record.infobase_uuid))
    } else if name == "session"@ {
        Some(ValueView::Uuid(record.session@))
    } else if name == "session_id"@ {
        Some(int_value(record.session_id))
    } else if name == "connection"@ {
        Some(uuid_value(record.connection))
    } else if name == "process"@ {
        Some(uuid_value(record.process))
    } else if name == "user_name"@ {
        Some(text_value(record.user_name))
    } else if name == "host"@ {
        Some(text_value(record.host))
    } else if name == "app_id"@ {
        Some(text_value(record.app_id))
    } else if name == "locale"@ {
        Some(text_value(record.locale))
    } else if name == "started_at"@ {
        Some(time_value(record.started_at))
    } else if name == "last_active_at"@ {
        Some(time_value(record.last_active_at))
    } else if name == "hibernate"@ {
        Some(bool_value(record.hibernate))
    } else if name == "passive_session_hibernate_time"@ {
        Some(int_value(record.passive_session_hibernate_time))
    } else if name == "hibernate_session_terminate_time"@ {
        Some(int_value(record.hibernate_session_terminate_time))
    } else if name == "blocked_by_dbms"@ {
        Some(int_value(record.blocked_by_dbms))
    } else if name == "blocked_by_ls"@ {
        Some(int_value(record.blocked_by_ls))
    } else if name == "bytes_all"@ {
        Some(int_value(record.bytes_all))
    } else if name == "bytes_last_5min"@ {
        Some(int_value(record.bytes_last_5min))
    } else if name == "calls_all"@ {
        Some(int_value(record.calls_all))
    } else if name == "calls_last_5min"@ {
        Some(int_value(record.calls_last_5min))
    } else if name == "dbms_bytes_all"@ {
        Some(int_value(record.dbms_bytes_all))
    } else if name == "dbms_bytes_last_5min"@ {
        Some(int_value(record.dbms_bytes_last_5min))
    } else if name == "db_proc_info"@ {
        Some(text_value(record.db_proc_info))
    } else if name == "db_proc_took"@ {
        Some(int_value(record.db_proc_took))
    } else if name == "db_proc_took_at"@ {
        Some(time_value(record.db_proc_took_at))
    } else if name == "duration_all"@ {
        Some(int_value(record.duration_all))
    } else if name == "duration_all_dbms"@ {
        Some(int_value(record.duration_all_dbms))
    } else if name == "duration_current"@ {
        Some(int_value(record.duration_current))
    } else if name == "duration_current_dbms"@ {
        Some(int_value(record.duration_current_dbms))
    } else if name == "duration_last_5min"@ {
        Some(int_value(record.duration_last_5min))
    } else if name == "duration_last_5min_dbms"@ {
        Some(int_value(record.duration_last_5min_dbms))
    } else if name == "memory_current"@ {
        Some(int_value(record.memory_current))
    } else if name == "memory_last_5min"@ {
        Some(int_value(record.memory_last_5min))
    } else if name == "memory_total"@ {
        Some(int_value(record.memory_total))
    } else if name == "read_current"@ {
        Some(int_value(record.read_current))
    } else if name == "read_last_5min"@ {
        Some(int_value(record.read_last_5min))
    } else if name == "read_total"@ {
        Some(int_value(record.read_total))
    } else if name == "write_current"@ {
        Some(int_value(record.write_current))
    } else if name == "write_last_5min"@ {
        Some(int_value(record.write_last_5min))
    } else if name == "write_total"@ {
        Some(int_value(record.write_total))
    } else if name == "duration_current_service"@ {
        Some(int_value(record.duration_current_service))
    } else if name == "duration_last_5min_service"@ {
        Some(int_value(record.duration_last_5min_service))
    } else if name == "duration_all_service"@ {
        Some(int_value(record.duration_all_service))
    } else if name == "current_service_name"@ {
        Some(text_value(record.current_service_name))
    } else if name == "cpu_time_current"@ {
        Some(int_value(record.cpu_time_current))
    } else if name == "cpu_time_last_5min"@ {
        Some(int_value(record.cpu_time_last_5min))
    } else if name == "cpu_time_total"@ {
        Some(int_value(record.cpu_time_total))
    } else if name == "data_separation"@ {
        Some(text_value(record.data_separation))
    } else if name == "client_ip"@ {
        Some(text_value(record.client_ip))
    } else {
        None
    }
}

fn session_field<'a>(record: &'a SessionRecord, name: &str) -> (result: Option<FieldValueRef<'a>>)
    ensures
        outcome::option_view(result) == session_value(*record, name@),
{
    if text::same(name, "infobase") {
        Some(optional_str(&record.infobase))
    } else if text::same(name, "infobase_uuid") {
        Some(match &record.infobase_uuid {
            Some(value) => FieldValueRef::Uuid(value.as_uuid()),
            None => FieldValueRef::Null,
        })
    } else if text::same(name, "session") {
        Some(FieldValueRef::Uuid(record.session.as_uuid()))
    } else if text::same(name, "session_id") {
        Some(optional_int(record.session_id))
    } else if text::same(name, "connection") {
        Some(match &record.connection {
            Some(value) => FieldValueRef::Uuid(value.as_uuid()),
            None => FieldValueRef::Null,
        })
    } else if text::same(name, "process") {
        Some(match &record.process {
            Some(value) => FieldValueRef::Uuid(value.as_uuid()),
            None => FieldValueRef::Null,
        })
    } else if text::same(name, "user_name") {
        Some(optional_str(&record.user_name))
    } else if text::same(name, "host") {
        Some(optional_str(&record.host))
    } else if text::same(name, "app_id") {
        Some(optional_str(&record.app_id))
    } else if text::same(name, "locale") {
        Some(optional_str(&record.locale))
    } else if text::same(name, "started_at") {
        Some(optional_datetime(&record.started_at))
    } else if text::same(name, "last_active_at") {
        Some(optional_datetime(&record.last_active_at))
    } else if text::same(name, "hibernate") {
        Some(optional_bool(record.hibernate))
    } else if text::same(name, "passive_session_hibernate_time") {
        Some(optional_int(record.passive_session_hibernate_time))
    } else if text::same(name, "hibernate_session_terminate_time") {
        Some(optional_int(record.hibernate_session_terminate_time))
    } else if text::same(name, "blocked_by_dbms") {
        Some(optional_int(record.blocked_by_dbms))
    } else if text::same(name, "blocked_by_ls") {
        Some(optional_int(record.blocked_by_ls))
    } else if text::same(name, "bytes_all") {
        Some(optional_int(record.bytes_all))
    } else if text::same(name, "bytes_last_5min") {
        Some(optional_int(record.bytes_last_5min))
    } else if text::same(name, "calls_all") {
        Some(optional_int(record.calls_all))
    } else if text::same(name, "calls_last_5min") {
        Some(optional_int(record.calls_last_5min))
    } else if text::same(name, "dbms_bytes_all") {
        Some(optional_int(record.dbms_bytes_all))
    } else if text::same(name, "dbms_bytes_last_5min") {
        Some(optional_int(record.dbms_bytes_last_5min))
    } else if text::same(name, "db_proc_info") {
        Some(optional_str(&record.db_proc_info))
    } else if text::same(name, "db_proc_took") {
        Some(optional_int(record.db_proc_took))
    } else if text::same(name, "db_proc_took_at") {
        Some(optional_datetime(&record.db_proc_took_at))
    } else if text::same(name, "duration_all") {
        Some(optional_int(record.duration_all))
    } else if text::same(name, "duration_all_dbms") {
        Some(optional_int(record.duration_all_dbms))
    } else if text::same(name, "duration_current") {
        Some(optional_int(record.duration_current))
    } else if text::same(name, "duration_current_dbms") {
        Some(optional_int(record.duration_current_dbms))
    } else if text::same(name, "duration_last_5min") {
        Some(optional_int(record.duration_last_5min))
    } else if text::same(name, "duration_last_5min_dbms") {
        Some(optional_int(record.duration_last_5min_dbms))
    } else if text::same(name, "memory_current") {
        Some(optional_int(record.memory_current))
    } else if text::same(name, "memory_last_5min") {
        Some(optional_int(record.memory_last_5min))
    } else if text::same(name, "memory_total") {
        Some(optional_int(record.memory_total))
    } else if text::same(name, "read_current") {
        Some(optional_int(record.read_current))
    } else if text::same(name, "read_last_5min") {
        Some(optional_int(record.read_last_5min))
    } else if text::same(name, "read_total") {
        Some(optional_int(record.read_total))
    } else if text::same(name, "write_current") {
        Some(optional_int(record.write_current))
    } else if text::same(name, "write_last_5min") {
        Some(optional_int(record.write_last_5min))
    } else if text::same(name, "write_total") {
        Some(optional_int(record.write_total))
    } else if text::same(name, "duration_current_service") {
        Some(optional_int(record.duration_current_service))
    } else if text::same(name, "duration_last_5min_service") {
        Some(optional_int(record.duration_last_5min_service))
    } else if text::same(name, "duration_all_service") {
        Some(optional_int(record.duration_all_service))
    } else if text::same(name, "current_service_name") {
        Some(optional_str(&record.current_service_name))
    } else if text::same(name, "cpu_time_current") {
        Some(optional_int(record.cpu_time_current))
    } else if text::same(name, "cpu_time_last_5min") {
        Some(optional_int(record.cpu_time_last_5min))
    } else if text::same(name, "cpu_time_total") {
        Some(optional_int(record.cpu_time_total))
    } else if text::same(name, "data_separation") {
        Some(optional_str(&record.data_separation))
    } else if text::same(name, "client_ip") {
        Some(optional_str(&record.client_ip))
    } else {
        None
    }
}

impl FieldAccess for SessionRecord {
    open spec fn kind_view(&self) -> RecordKind {
        RecordKind::Session
    }

    open spec fn field_view(&self, name: Seq<char>) -> Option<ValueView> {
        first_known(
            source_value(self.source, name),
            session_value(*self, name),
            entries::lookup(crate::domain::field_value::extra_entries(self.extra), name),
        )
    }

    open spec fn extras_view(&self) -> Seq<(Seq<char>, ValueView)> {
        crate::domain::field_value::extra_entries(self.extra)
    }

    fn record_kind(&self) -> (result: RecordKind) {
        RecordKind::Session
    }

    fn field(&self, name: &str) -> (result: Option<FieldValueRef<'_>>) {
        if let Some(value) = source_field(&self.source, name) {
            return Some(value);
        }
        if let Some(value) = session_field(self, name) {
            return Some(value);
        }
        extra_field(&self.extra, name)
    }

    fn extra_fields(&self) -> (result: &ExtraFields) {
        &self.extra
    }
}

/// A session record of which nothing is known but its identity.
pub open spec fn is_bare_session(record: SessionRecord, source: ClusterSource, session: SessionUuid) -> bool {
    &&& record.source == source
    &&& record.infobase is None
    &&& record.infobase_uuid is None
    &&& record.session == session
    &&& record.session_id is None
    &&& record.connection is None
    &&& record.process is None
    &&& record.user_name is None
    &&& record.host is None
    &&& record.app_id is None
    &&& record.locale is None
    &&& record.started_at is None
    &&& record.last_active_at is None
    &&& record.hibernate is None
    &&& record.passive_session_hibernate_time is None
    &&& record.hibernate_session_terminate_time is None
    &&& record.blocked_by_dbms is None
    &&& record.blocked_by_ls is None
    &&& record.bytes_all is None
    &&& record.bytes_last_5min is None
    &&& record.calls_all is None
    &&& record.calls_last_5min is None
    &&& record.dbms_bytes_all is None
    &&& record.dbms_bytes_last_5min is None
    &&& record.db_proc_info is None
    &&& record.db_proc_took is None
    &&& record.db_proc_took_at is None
    &&& record.duration_all is None
    &&& record.duration_all_dbms is None
    &&& record.duration_current is None
    &&& record.duration_current_dbms is None
    &&& record.duration_last_5min is None
    &&& record.duration_last_5min_dbms is None
    &&& record.memory_current is None
    &&& record.memory_last_5min is None
    &&& record.memory_total is None
    &&& record.read_current is None
    &&& record.read_last_5min is None
    &&& record.read_total is None
    &&& record.write_current is None
    &&& record.write_last_5min is None
    &&& record.write_total is None
    &&& record.duration_current_service is None
    &&& record.duration_last_5min_service is None
    &&& record.duration_all_service is None
    &&& record.current_service_name is None
    &&& record.cpu_time_current is None
    &&& record.cpu_time_last_5min is None
    &&& record.cpu_time_total is None
    &&& record.data_separation is None
    &&& record.client_ip is None
    &&& crate::domain::field_value::extra_entries(record.extra) == Seq::<(Seq<char>, ValueView)>::empty()
}

impl SessionRecord {
    pub fn new(source: ClusterSource, session: SessionUuid) -> (result: Self)
        ensures
            is_bare_session(result, source, session),
    {
        SessionRecord {
            source,
            infobase: None,
            infobase_uuid: None,
            session,
            session_id: None,
            connection: None,
            process: None,
            user_name: None,
            host: None,
            app_id: None,
            locale: None,
            started_at: None,
            last_active_at: None,
            hibernate: None,
            passive_session_hibernate_time: None,
            hibernate_session_terminate_time: None,
            blocked_by_dbms: None,
            blocked_by_ls: None,
            bytes_all: None,
            bytes_last_5min: None,
            calls_all: None,
            calls_last_5min: None,
            dbms_bytes_all: None,
            dbms_bytes_last_5min: None,
            db_proc_info: None,
            db_proc_took: None,
            db_proc_took_at: None,
            duration_all: None,
            duration_all_dbms: None,
            duration_current: None,
            duration_current_dbms: None,
            duration_last_5min: None,
            duration_last_5min_dbms: None,
            memory_current: None,
            memory_last_5min: None,
            memory_total: None,
            read_current: None,
            read_last_5min: None,
            read_total: None,
            write_current: None,
            write_last_5min: None,
            write_total: None,
            duration_current_service: None,
            duration_last_5min_service: None,
            duration_all_service: None,
            current_service_name: None,
            cpu_time_current: None,
            cpu_time_last_5min: None,
            cpu_time_total: None,
            data_separation: None,
            client_ip: None,
            extra: new_extra(),
        }
    }
}

/// A connection to an infobase through a working process.
#[derive(Clone, Debug, PartialEq, Eq)]
pub struct ConnectionRecord {
    pub source: ClusterSource,
    pub infobase: Option<String>,
    pub infobase_uuid: Option<InfobaseUuid>,
    pub connection: ConnectionUuid,
    pub conn_id: Option<i64>,
    pub host: Option<String>,
    pub process: ProcessUuid,
    pub application: Option<String>,
    pub connected_at: Option<Timestamp>,
    pub session_number: Option<i64>,
    pub blocked_by_ls: Option<i64>,
    pub extra: ExtraFields,
}

/// The value of a known field of connection records, after those of the source.
pub open spec fn connection_value(record: ConnectionRecord, name: Seq<char>) -> Option<ValueView> {
    if name == "infobase"@ {
        Some(text_value(record.infobase))
    } else if name == "infobase_uuid"@ {
        Some(uuid_value(record.infobase_uuid))
    } else if name == "connection"@ {
        Some(ValueView::Uuid(record.connection@))
    } else if name == "conn_id"@ {
        Some(int_value(record.conn_id))
    } else if name == "host"@ {
        Some(text_value(record.host))
    } else if name == "process"@ {
        Some(ValueView::Uuid(record.process@))
    } else if name == "application"@ {
        Some(text_value(record.application))
    } else if name == "connected_at"@ {
        Some(time_value(record.connected_at))
    } else if name == "session_number"@ {
        Some(int_value(record.session_number))
    } else if name == "blocked_by_ls"@ {
        Some(int_value(record.blocked_by_ls))
    } else {
        None
    }
}

fn connection_field<'a>(record: &'a ConnectionRecord, name: &str) -> (result: Option<FieldValueRef<'a>>)
    ensures
        outcome::option_view(result) == connection_value(*record, name@),
{
    if text::same(name, "infobase") {
        Some(optional_str(&record.infobase))
    } else if text::same(name, "infobase_uuid") {
        Some(match &record.infobase_uuid {
            Some(value) => FieldValueRef::Uuid(value.as_uuid()),
            None => FieldValueRef::Null,
        })
    } else if text::same(name, "connection") {
        Some(FieldValueRef::Uuid(record.connection.as_uuid()))
    } else if text::same(name, "conn_id") {
        Some(optional_int(record.conn_id))
    } else if text::same(name, "host") {
        Some(optional_str(&record.host))
    } else if text::same(name, "process") {
        Some(FieldValueRef::Uuid(record.process.as_uuid()))
    } else if text::same(name, "application") {
        Some(optional_str(&record.application))
    } else if text::same(name, "connected_at") {
        Some(optional_datetime(&record.connected_at))
    } else if text::same(name, "session_number") {
        Some(optional_int(record.session_number))
    } else if text::same(name, "blocked_by_ls") {
        Some(optional_int(record.blocked_by_ls))
    } else {
        None
    }
}

impl FieldAccess for ConnectionRecord {
    open spec fn kind_view(&self) -> RecordKind {
        RecordKind::Connection
    }

    open spec fn field_view(&self, name: Seq<char>) -> Option<ValueView> {
        first_known(
            source_value(self.source, name),
            connection_value(*self, name),
            entries::lookup(crate::domain::field_value::extra_entries(self.extra), name),
        )
    }

    open spec fn extras_view(&self) -> Seq<(Seq<char>, ValueView)> {
        crate::domain::field_value::extra_entries(self.extra)
    }

    fn record_kind(&self) -> (result: RecordKind) {
        RecordKind::Connection
    }

    fn field(&self, name: &str) -> (result: Option<FieldValueRef<'_>>) {
        if let Some(value) = source_field(&self.source, name) {
            return Some(value);
        }
        if let Some(value) = connection_field(self, name) {
            return Some(value);
        }
        extra_field(&self.extra, name)
    }

    fn extra_fields(&self) -> (result: &ExtraFields) {
        &self.extra
    }
}

/// A connection record of which nothing is known but its identity.
pub open spec fn is_bare_connection(record: ConnectionRecord, source: ClusterSource, connection: ConnectionUuid, process: ProcessUuid) -> bool {
    &&& record.source == source
    &&& record.infobase is None
    &&& record.infobase_uuid is None
    &&& record.connection == connection
    &&& record.conn_id is None
    &&& record.host is None
    &&& record.process == process
    &&& record.application is None
    &&& record.connected_at is None
    &&& record.session_number is None
    &&& record.blocked_by_ls is None
    &&& crate::domain::field_value::extra_entries(record.extra) == Seq::<(Seq<char>, ValueView)>::empty()
}

impl ConnectionRecord {
    pub fn new(source: ClusterSource, connection: ConnectionUuid, process: ProcessUuid) -> (result: Self)
        ensures
            is_bare_connection(result, source, connection, process),
    {
        ConnectionRecord {
            source,
            infobase: None,
            infobase_uuid: None,
            connection,
            conn_id: None,
            host: None,
            process,
            application: None,
            connected_at: None,
            session_number: None,
            blocked_by_ls: None,
            extra: new_extra(),
        }
    }
}

/// A working process of a cluster.
#[derive(Clone, Debug, PartialEq, Eq)]
pub struct ProcessRecord {
    pub source: ClusterSource,
    pub process: ProcessUuid,
    pub server: Option<Uuid>,
    pub pid: Option<i64>,
    pub started_at: Option<Timestamp>,
    pub extra: ExtraFields,
}

/// The value of a known field of process records, after those of the source.
pub open spec fn process_value(record: ProcessRecord, name: Seq<char>) -> Option<ValueView> {
    if name == "process"@ {
        Some(ValueView::Uuid(record.process@))
    } else if name == "server"@ {
        Some(uuid_value(record.server))
    } else if name == "pid"@ {
        Some(int_value(record.pid))
    } else if name == "started_at"@ {
        Some(time_value(record.started_at))
    } else {
        None
    }
}

fn process_field<'a>(record: &'a ProcessRecord, name: &str) -> (result: Option<FieldValueRef<'a>>)
    ensures
        outcome::option_view(result) == process_value(*record, name@),
{
    if text::same(name, "process") {
        Some(FieldValueRef::Uuid(record.process.as_uuid()))
    } else if text::same(name, "server") {
        Some(optional_uuid(&record.server))
    } else if text::same(name, "pid") {
        Some(optional_int(record.pid))
    } else if text::same(name, "started_at") {
        Some(optional_datetime(&record.started_at))
    } else {
        None
    }
}

impl FieldAccess for ProcessRecord {
    open spec fn kind_view(&self) -> RecordKind {
        RecordKind::Process
    }

    open spec fn field_view(&self, name: Seq<char>) -> Option<ValueView> {
        first_known(
            source_value(self.source, name),
            process_value(*self, name),
            entries::lookup(crate::domain::field_value::extra_entries(self.extra), name),
        )
    }

    open spec fn extras_view(&self) -> Seq<(Seq<char>, ValueView)> {
        crate::domain::field_value::extra_entries(self.extra)
    }

    fn record_kind(&self) -> (result: RecordKind) {
        RecordKind::Process
    }

    fn field(&self, name: &str) -> (result: Option<FieldValueRef<'_>>) {
        if let Some(value) = source_field(&self.source, name) {
            return Some(value);
        }
        if let Some(value) = process_field(self, name) {
            return Some(value);
        }
        extra_field(&self.extra, name)
    }

    fn extra_fields(&self) -> (result: &ExtraFields) {
        &self.extra
    }
}

/// A process record of which nothing is known but its identity.
pub open spec fn is_bare_process(record: ProcessRecord, source: ClusterSource, process: ProcessUuid) -> bool {
    &&& record.source == source
    &&& record.process == process
    &&& record.server is None
    &&& record.pid is None
    &&& record.started_at is None
    &&& crate::domain::field_value::extra_entries(record.extra) == Seq::<(Seq<char>, ValueView)>::empty()
}

impl ProcessRecord {
    pub fn new(source: ClusterSource, process: ProcessUuid) -> (result: Self)
        ensures
            is_bare_process(result, source, process),
    {
        ProcessRecord {
            source,
            process,
            server: None,
            pid: None,
            started_at: None,
            extra: new_extra(),
        }
    }
}

/// An infobase of a cluster.
#[derive(Clone, Debug, PartialEq, Eq)]
pub struct InfobaseRecord {
    pub source: ClusterSource,
    pub infobase: String,
    pub infobase_uuid: InfobaseUuid,
    pub connection_string: String,
    pub extra: ExtraFields,
}

/// The value of a known field of infobase records, after those of the source.
pub open spec fn infobase_value(record: InfobaseRecord, name: Seq<char>) -> Option<ValueView> {
    if name == "infobase"@ {
        Some(ValueView::Str(record.infobase@))
    } else if name == "infobase_uuid"@ {
        Some(ValueView::Uuid(record.infobase_uuid@))
    } else if name == "connection_string"@ {
        Some(ValueView::Str(record.connection_string@))
    } else {
        None
    }
}

fn infobase_field<'a>(record: &'a InfobaseRecord, name: &str) -> (result: Option<FieldValueRef<'a>>)
    ensures
        outcome::option_view(result) == infobase_value(*record, name@),
{
    if text::same(name, "infobase") {
        Some(FieldValueRef::Str(record.infobase.as_str()))
    } else if text::same(name, "infobase_uuid") {
        Some(FieldValueRef::Uuid(record.infobase_uuid.as_uuid()))
    } else if text::same(name, "connection_string") {
        Some(FieldValueRef::Str(record.connection_string.as_str()))
    } else {
        None
    }
}

impl FieldAccess for InfobaseRecord {
    open spec fn kind_view(&self) -> RecordKind {
        RecordKind::Infobase
    }

    open spec fn field_view(&self, name: Seq<char>) -> Option<ValueView> {
        first_known(
            source_value(self.source, name),
            infobase_value(*self, name),
            entries::lookup(crate::domain::field_value::extra_entries(self.extra), name),
        )
    }

    open spec fn extras_view(&self) -> Seq<(Seq<char>, ValueView)> {
        crate::domain::field_value::extra_entries(self.extra)
    }

    fn record_kind(&self) -> (result: RecordKind) {
        RecordKind::Infobase
    }

    fn field(&self, name: &str) -> (result: Option<FieldValueRef<'_>>) {
        if let Some(value) = source_field(&self.source, name) {
            return Some(value);
        }
        if let Some(value) = infobase_field(self, name) {
            return Some(value);
        }
        extra_field(&self.extra, name)
    }

    fn extra_fields(&self) -> (result: &ExtraFields) {
        &self.extra
    }
}

/// Fields of the source win over everything that a record carries under their names.
pub proof fn law_source_fields_win(record: SessionRecord, name: Seq<char>)
    requires
        source_value(record.source, name) is Some,
    ensures
        record.field_view(name) == source_value(record.source, name),
{
}

} // verus!
