//! Changes of the configuration, and how they are written into its text.

use vstd::prelude::*;
use vstd::string::*;

use crate::domain::entries;
use crate::domain::identity;
use crate::domain::identity::Uuid;
use crate::infrastructure::config::error::{AclError, ConfigError, ConfigProblem};
use crate::infrastructure::config::model;
use crate::infrastructure::config::model::{
    ClusterConfig, ClusterView, Config, ConfigView, EntryView, InfobaseAuthOverride,
    InfobaseAuthView,
};
use crate::infrastructure::config::validation;
use crate::outcome;

verus! {

/// Whether a file was restricted to its owner.
#[derive(Clone, Copy, Debug, PartialEq, Eq, Structural)]
pub enum AclProtection {
    Applied,
    NotConfigured,
}

/// How much of the text of the configuration a change left as it was.
#[derive(Clone, Copy, Debug, PartialEq, Eq, Structural)]
pub enum FormatPreservation {
    Canonical,
    TargetedCst,
    CanonicalFallback,
}

/// A configuration with the path it was read from.
pub struct ConfigSnapshot {
    path: String,
    config: Config,
}

pub struct SnapshotView {
    pub path: Seq<char>,
    pub config: ConfigView,
}

impl View for ConfigSnapshot {
    type V = SnapshotView;

    closed spec fn view(&self) -> SnapshotView {
        SnapshotView { path: self.path@, config: self.config@ }
    }
}

impl ConfigSnapshot {
    pub fn new(path: &str, config: Config) -> (result: Self)
        ensures
            result@ == (SnapshotView { path: path@, config: config@ }),
    {
        ConfigSnapshot { path: path.to_owned(), config }
    }

    pub fn path(&self) -> (result: &str)
        ensures
            result@ == self@.path,
    {
        self.path.as_str()
    }

    pub fn config(&self) -> (result: &Config)
        ensures
            result@ == self@.config,
    {
        &self.config
    }

    pub fn into_config(self) -> (result: Config)
        ensures
            result@ == self@.config,
    {
        self.config
    }
}

/// A configuration with the text it was read from.
pub struct ConfigDocument {
    snapshot: ConfigSnapshot,
    source: String,
}

impl View for ConfigDocument {
    type V = (SnapshotView, Seq<char>);

    closed spec fn view(&self) -> (SnapshotView, Seq<char>) {
        (self.snapshot@, self.source@)
    }
}

impl ConfigDocument {
    pub fn new(snapshot: ConfigSnapshot, source: String) -> (result: Self)
        ensures
            result@ == (snapshot@, source@),
    {
        ConfigDocument { snapshot, source }
    }

    pub fn snapshot(&self) -> (result: &ConfigSnapshot)
        ensures
            result@ == self@.0,
    {
        &self.snapshot
    }

    pub fn source(&self) -> (result: &str)
        ensures
            result@ == self@.1,
    {
        self.source.as_str()
    }

    pub fn into_parts(self) -> (result: (ConfigSnapshot, String))
        ensures
            (result.0@, result.1@) == self@,
    {
        (self.snapshot, self.source)
    }
}

/// What a change of the configuration came to.
pub struct WriteOutcome {
    pub snapshot: ConfigSnapshot,
    pub format_preservation: FormatPreservation,
    pub acl_protection: AclProtection,
}

/// Which override is meant: by its identity, else by its name.
#[derive(Debug, PartialEq, Eq)]
pub struct OverrideSelector {
    pub infobase_uuid: Option<Uuid>,
    pub infobase: String,
}

pub struct SelectorView {
    pub infobase_uuid: Option<u128>,
    pub infobase: Seq<char>,
}

impl View for OverrideSelector {
    type V = SelectorView;

    open spec fn view(&self) -> SelectorView {
        SelectorView {
            infobase_uuid: outcome::option_view(self.infobase_uuid),
            infobase: self.infobase@,
        }
    }
}

impl SelectorView {
    /// The position of the override that is meant, or the length where there is none. An empty name
    /// means no override.
    pub open spec fn position(self, overrides: Seq<EntryView>) -> int {
        match self.infobase_uuid {
            Some(uuid) if model::entry_by_uuid(overrides, uuid, 0) < overrides.len() =>
                model::entry_by_uuid(overrides, uuid, 0),
            _ => if self.infobase.len() == 0 {
                overrides.len() as int
            } else {
                model::entry_by_name(overrides, self.infobase, 0)
            },
        }
    }

    pub open spec fn label(self) -> Seq<char> {
        match self.infobase_uuid {
            Some(uuid) => identity::uuid_text(uuid),
            None => self.infobase,
        }
    }
}

impl OverrideSelector {
    pub fn new(infobase_uuid: Option<Uuid>, infobase: &str) -> (result: Self)
        ensures
            result@ == (SelectorView {
                infobase_uuid: outcome::option_view(infobase_uuid),
                infobase: infobase@,
            }),
    {
        OverrideSelector { infobase_uuid, infobase: infobase.to_owned() }
    }

    pub fn by_uuid(uuid: Uuid) -> (result: Self)
        ensures
            result@ == (SelectorView { infobase_uuid: Some(uuid@), infobase: Seq::empty() }),
    {
        let result = OverrideSelector { infobase_uuid: Some(uuid), infobase: String::new() };
        assert(result@.infobase =~= Seq::<char>::empty());
        result
    }

    pub fn by_name(infobase: &str) -> (result: Self)
        ensures
            result@ == (SelectorView { infobase_uuid: None, infobase: infobase@ }),
    {
        OverrideSelector::new(None, infobase)
    }

    fn find_in(&self, overrides: &Vec<InfobaseAuthOverride>) -> (result: usize)
        ensures
            result == self@.position(model::entry_views(overrides@)),
            result <= overrides@.len(),
    {
        match self.infobase_uuid {
            Some(uuid) => {
                let at: usize = model::find_entry_by_uuid(overrides, uuid);
                if at < overrides.len() {
                    return at;
                }
            },
            None => {},
        }
        if self.infobase.as_str().is_empty() {
            return overrides.len();
        }
        model::find_entry_by_name(overrides, self.infobase.as_str())
    }

    fn label(&self) -> (result: String)
        ensures
            result@ == self@.label(),
    {
        match self.infobase_uuid {
            Some(uuid) => uuid.to_text(),
            None => self.infobase.as_str().to_owned(),
        }
    }
}

/// What a change does to the text of the configuration.
#[derive(Debug, PartialEq, Eq)]
pub enum CstEdit {
    AddCluster { alias: String },
    RemoveCluster { alias: String },
    AddOverride { cluster: String, index: usize },
    RemoveOverride { cluster: String, index: usize },
}

pub enum EditView {
    AddCluster { alias: Seq<char> },
    RemoveCluster { alias: Seq<char> },
    AddOverride { cluster: Seq<char>, index: nat },
    RemoveOverride { cluster: Seq<char>, index: nat },
}

impl View for CstEdit {
    type V = EditView;

    open spec fn view(&self) -> EditView {
        match self {
            CstEdit::AddCluster { alias } => EditView::AddCluster { alias: alias@ },
            CstEdit::RemoveCluster { alias } => EditView::RemoveCluster { alias: alias@ },
            CstEdit::AddOverride { cluster, index } => EditView::AddOverride {
                cluster: cluster@,
                index: *index as nat,
            },
            CstEdit::RemoveOverride { cluster, index } => EditView::RemoveOverride {
                cluster: cluster@,
                index: *index as nat,
            },
        }
    }
}

/// A change of the configuration.
pub enum ConfigChange {
    AddCluster { alias: String, cluster: ClusterConfig },
    RemoveCluster { alias: String },
    AddOverride { cluster: String, entry: InfobaseAuthOverride },
    RemoveOverride { cluster: String, selector: OverrideSelector },
}

pub enum ChangeView {
    AddCluster { alias: Seq<char>, cluster: ClusterView },
    RemoveCluster { alias: Seq<char> },
    AddOverride { cluster: Seq<char>, entry: EntryView },
    RemoveOverride { cluster: Seq<char>, selector: SelectorView },
}

impl View for ConfigChange {
    type V = ChangeView;

    open spec fn view(&self) -> ChangeView {
        match self {
            ConfigChange::AddCluster { alias, cluster } => ChangeView::AddCluster {
                alias: alias@,
                cluster: cluster@,
            },
            ConfigChange::RemoveCluster { alias } => ChangeView::RemoveCluster { alias: alias@ },
            ConfigChange::AddOverride { cluster, entry } => ChangeView::AddOverride {
                cluster: cluster@,
                entry: entry@,
            },
            ConfigChange::RemoveOverride { cluster, selector } => ChangeView::RemoveOverride {
                cluster: cluster@,
                selector: selector@,
            },
        }
    }
}

pub type ClusterEntries = Seq<(Seq<char>, ClusterView)>;

/// A cluster with other overrides.
pub open spec fn with_overrides(cluster: ClusterView, overrides: Seq<EntryView>) -> ClusterView {
    ClusterView {
        infobase_auth: InfobaseAuthView { default: cluster.infobase_auth.default, overrides },
        ..cluster
    }
}

/// What a change makes of the clusters, and of the text that holds them.
pub open spec fn changed(clusters: ClusterEntries, change: ChangeView) -> Result<
    (ClusterEntries, EditView),
    ConfigProblem,
> {
    match change {
        ChangeView::AddCluster { alias, cluster } => {
            let at = validation::alias_position(clusters, alias, 0);
            if at < clusters.len() {
                Err(
                    ConfigProblem::ClusterAlreadyExists {
                        requested: alias,
                        existing: clusters[at].0,
                    },
                )
            } else {
                Ok((entries::inserted(clusters, alias, cluster), EditView::AddCluster { alias }))
            }
        },
        ChangeView::RemoveCluster { alias } => {
            let at = validation::alias_position(clusters, alias, 0);
            if at < clusters.len() {
                Ok(
                    (
                        entries::removed(clusters, clusters[at].0),
                        EditView::RemoveCluster { alias: clusters[at].0 },
                    ),
                )
            } else {
                Err(ConfigProblem::ClusterNotFound { alias })
            }
        },
        ChangeView::AddOverride { cluster, entry } => {
            let at = validation::alias_position(clusters, cluster, 0);
            if at < clusters.len() {
                let overrides = clusters[at].1.infobase_auth.overrides;
                Ok(
                    (
                        entries::inserted(
                            clusters,
                            clusters[at].0,
                            with_overrides(clusters[at].1, overrides.push(entry)),
                        ),
                        EditView::AddOverride { cluster: clusters[at].0, index: overrides.len() },
                    ),
                )
            } else {
                Err(ConfigProblem::ClusterNotFound { alias: cluster })
            }
        },
        ChangeView::RemoveOverride { cluster, selector } => {
            let at = validation::alias_position(clusters, cluster, 0);
            if at < clusters.len() {
                let overrides = clusters[at].1.infobase_auth.overrides;
                let index = selector.position(overrides);
                if index < overrides.len() {
                    Ok(
                        (
                            entries::inserted(
                                clusters,
                                clusters[at].0,
                                with_overrides(clusters[at].1, overrides.remove(index)),
                            ),
                            EditView::RemoveOverride {
                                cluster: clusters[at].0,
                                index: index as nat,
                            },
                        ),
                    )
                } else {
                    Err(
                        ConfigProblem::OverrideNotFound {
                            cluster: clusters[at].0,
                            target: selector.label(),
                        },
                    )
                }
            } else {
                Err(ConfigProblem::ClusterNotFound { alias: cluster })
            }
        },
    }
}

/// The configuration after a change, if the change can be made and the result is valid.
pub open spec fn updated(config: ConfigView, change: ChangeView) -> Result<
    (ConfigView, EditView),
    ConfigProblem,
> {
    match changed(config.clusters, change) {
        Err(problem) => Err(problem),
        Ok((clusters, edit)) => {
            let after = ConfigView { clusters, ..config };
            match validation::config_problem(after) {
                Some(problem) => Err(ConfigProblem::Validation { problem }),
                None => Ok((after, edit)),
            }
        },
    }
}

/// The alias under which a cluster stands, found without regard to ASCII case, and the cluster.
fn find_cluster<'a>(config: &'a Config, alias: &str) -> (result: Option<(&'a str, &'a ClusterConfig)>)
    ensures
        ({
            let clusters = config@.clusters;
            let at = validation::alias_position(clusters, alias@, 0);
            match result {
                Some((key, cluster)) => 0 <= at < clusters.len() && clusters[at] == (
                    key@,
                    cluster@,
                ),
                None => at >= clusters.len(),
            }
        }),
{
    let count: usize = model::clusters_len(&config.clusters);
    let at: usize = validation::find_alias(&config.clusters, alias, count);
    assert(config@.clusters.take(count as int) =~= config@.clusters);
    match model::clusters_at(&config.clusters, at) {
        Some((key, cluster)) => Some((key.as_str(), cluster)),
        None => None,
    }
}

/// The alias under which a cluster stands, found without regard to ASCII case.
pub fn find_cluster_key<'a>(config: &'a Config, alias: &str) -> (result: Option<&'a str>)
    ensures
        ({
            let clusters = config@.clusters;
            let at = validation::alias_position(clusters, alias@, 0);
            outcome::option_view(result) == (if at < clusters.len() {
                Some(clusters[at].0)
            } else {
                None
            })
        }),
{
    match find_cluster(config, alias) {
        Some((key, _)) => Some(key),
        None => None,
    }
}

fn change_clusters(config: &mut Config, change: ConfigChange) -> (result: Result<
    CstEdit,
    ConfigError,
>)
    ensures
        match result {
            Ok(edit) => changed(old(config)@.clusters, change@) == Ok::<_, ConfigProblem>(
                (final(config)@.clusters, edit@),
            ),
            Err(error) => changed(old(config)@.clusters, change@) == Err::<
                (ClusterEntries, EditView),
                _,
            >(error@),
        },
        result is Err ==> final(config)@ == old(config)@,
        final(config)@.schema_version == old(config)@.schema_version,
        final(config)@.settings == old(config)@.settings,
{
    let ghost before = config@.clusters;
    match change {
        ConfigChange::AddCluster { alias, cluster } => {
            let existing = match find_cluster_key(config, alias.as_str()) {
                Some(key) => Some(key.to_owned()),
                None => None,
            };
            match existing {
                Some(existing) => Err(
                    ConfigError::ClusterAlreadyExists { requested: alias, existing },
                ),
                None => {
                    model::clusters_insert(&mut config.clusters, alias.clone(), cluster);
                    Ok(CstEdit::AddCluster { alias })
                },
            }
        },
        ConfigChange::RemoveCluster { alias } => {
            let known = match find_cluster_key(config, alias.as_str()) {
                Some(key) => Some(key.to_owned()),
                None => None,
            };
            match known {
                Some(exact) => {
                    model::clusters_remove(&mut config.clusters, exact.as_str());
                    Ok(CstEdit::RemoveCluster { alias: exact })
                },
                None => Err(ConfigError::ClusterNotFound { alias }),
            }
        },
        ConfigChange::AddOverride { cluster, entry } => {
            let known = match find_cluster(config, cluster.as_str()) {
                Some((key, value)) => Some((key.to_owned(), value.clone())),
                None => None,
            };
            match known {
                Some((exact, value)) => {
                    let mut value = value;
                    let ghost overrides = value@.infobase_auth.overrides;
                    let ghost added = entry@;
                    let ghost original = value@;
                    let index: usize = value.infobase_auth.overrides.len();
                    value.infobase_auth.overrides.push(entry);
                    assert(value@.infobase_auth.overrides =~= overrides.push(added));
                    assert(value@ == with_overrides(original, overrides.push(added)));
                    model::clusters_insert(&mut config.clusters, exact.clone(), value);
                    Ok(CstEdit::AddOverride { cluster: exact, index })
                },
                None => Err(ConfigError::ClusterNotFound { alias: cluster }),
            }
        },
        ConfigChange::RemoveOverride { cluster, selector } => {
            let known = match find_cluster(config, cluster.as_str()) {
                Some((key, value)) => Some((key.to_owned(), value.clone())),
                None => None,
            };
            match known {
                Some((exact, value)) => {
                    let mut value = value;
                    let ghost overrides = value@.infobase_auth.overrides;
                    let ghost original = value@;
                    let index: usize = selector.find_in(&value.infobase_auth.overrides);
                    if index >= value.infobase_auth.overrides.len() {
                        return Err(
                            ConfigError::OverrideNotFound {
                                cluster: exact,
                                target: selector.label(),
                            },
                        );
                    }
                    let _ = value.infobase_auth.overrides.remove(index);
                    assert(value@.infobase_auth.overrides =~= overrides.remove(index as int));
                    assert(value@ == with_overrides(original, overrides.remove(index as int)));
                    model::clusters_insert(&mut config.clusters, exact.clone(), value);
                    Ok(CstEdit::RemoveOverride { cluster: exact, index })
                },
                None => Err(ConfigError::ClusterNotFound { alias: cluster }),
            }
        },
    }
}

/// Makes a change and checks the result; the configuration itself stays as it is.
pub fn apply_change(config: &Config, change: ConfigChange) -> (result: Result<
    (Config, CstEdit),
    ConfigError,
>)
    ensures
        match result {
            Ok((after, edit)) => updated(config@, change@) == Ok::<_, ConfigProblem>(
                (after@, edit@),
            ),
            Err(error) => updated(config@, change@) == Err::<(ConfigView, EditView), _>(error@),
        },
{
    let mut desired = config.clone();
    match change_clusters(&mut desired, change) {
        Err(error) => Err(error),
        Ok(edit) => match desired.validate() {
            Err(problem) => Err(ConfigError::Validation { problem }),
            Ok(_) => Ok((desired, edit)),
        },
    }
}

/// A change that is refused, or that leaves an invalid configuration, is not made at all; one that
/// is made leaves a valid configuration with the same settings.
pub proof fn law_changes_leave_a_valid_configuration(config: ConfigView, change: ChangeView)
    ensures
        match updated(config, change) {
            Ok((after, _)) => validation::config_problem(after) is None && after.settings
                == config.settings && after.schema_version == config.schema_version,
            Err(_) => true,
        },
{
}

proof fn lemma_new_key(clusters: ClusterEntries, alias: Seq<char>)
    requires
        validation::alias_position(clusters, alias, 0) >= clusters.len(),
    ensures
        entries::position(clusters, alias, 0) == clusters.len(),
{
    validation::lemma_alias_position(clusters, alias, 0);
    entries::lemma_position(clusters, alias, 0);
    let at = entries::position(clusters, alias, 0);
    if at < clusters.len() {
        assert(clusters[at].0 == alias);
    }
}

/// A cluster that was added and removed again leaves the clusters as they were.
pub proof fn law_add_then_remove_cluster(
    clusters: ClusterEntries,
    alias: Seq<char>,
    cluster: ClusterView,
)
    requires
        changed(clusters, ChangeView::AddCluster { alias, cluster }) is Ok,
    ensures
        ({
            let added = changed(clusters, ChangeView::AddCluster { alias, cluster })->Ok_0.0;
            &&& added == clusters.push((alias, cluster))
            &&& changed(added, ChangeView::RemoveCluster { alias }) is Ok
            &&& changed(added, ChangeView::RemoveCluster { alias })->Ok_0.0 == clusters
        }),
{
    lemma_new_key(clusters, alias);
    let added = clusters.push((alias, cluster));
    validation::lemma_alias_position(clusters, alias, 0);
    validation::lemma_alias_position(added, alias, 0);
    let at = validation::alias_position(added, alias, 0);
    assert(added[clusters.len() as int] == (alias, cluster));
    if at < clusters.len() {
        assert(added[at] == clusters[at]);
    }
    assert(at == clusters.len());
    entries::lemma_position(added, alias, 0);
    let key = entries::position(added, alias, 0);
    if key < clusters.len() {
        entries::lemma_position(clusters, alias, 0);
        assert(added[key] == clusters[key]);
    }
    assert(added.remove(clusters.len() as int) =~= clusters);
}

/// A change of one cluster leaves every other cluster as it was.
pub proof fn law_other_clusters_stay(clusters: ClusterEntries, change: ChangeView, other: Seq<char>)
    requires
        entries::distinct(clusters),
        changed(clusters, change) is Ok,
        match changed(clusters, change)->Ok_0.1 {
            EditView::AddCluster { alias } => alias != other,
            EditView::RemoveCluster { alias } => alias != other,
            EditView::AddOverride { cluster, .. } => cluster != other,
            EditView::RemoveOverride { cluster, .. } => cluster != other,
        },
    ensures
        entries::distinct(changed(clusters, change)->Ok_0.0),
        entries::lookup(changed(clusters, change)->Ok_0.0, other) == entries::lookup(
            clusters,
            other,
        ),
{
    match change {
        ChangeView::AddCluster { alias, cluster } => {
            entries::law_insert(clusters, alias, cluster, other);
        },
        ChangeView::RemoveCluster { alias } => {
            let at = validation::alias_position(clusters, alias, 0);
            entries::law_remove(clusters, clusters[at].0, other);
        },
        ChangeView::AddOverride { cluster, entry } => {
            let at = validation::alias_position(clusters, cluster, 0);
            let overrides = clusters[at].1.infobase_auth.overrides;
            entries::law_insert(
                clusters,
                clusters[at].0,
                with_overrides(clusters[at].1, overrides.push(entry)),
                other,
            );
        },
        ChangeView::RemoveOverride { cluster, selector } => {
            let at = validation::alias_position(clusters, cluster, 0);
            let overrides = clusters[at].1.infobase_auth.overrides;
            entries::law_insert(
                clusters,
                clusters[at].0,
                with_overrides(
                    clusters[at].1,
                    overrides.remove(selector.position(overrides)),
                ),
                other,
            );
        },
    }
}


/// The name of the file beside the configuration that its readers and writers lock.
pub open spec fn lock_file_of(file_name: Option<Seq<char>>) -> Result<Seq<char>, ConfigProblem> {
    match file_name {
        Some(name) if name.len() > 0 => Ok(name + ".lock"@),
        _ => Err(ConfigProblem::EmptyConfigPath),
    }
}

/// Names the file that is locked, from the name of the configuration file where its path has one.
pub fn lock_file_name(file_name: Option<&str>) -> (result: Result<String, ConfigError>)
    ensures
        outcome::result_view(result) == lock_file_of(outcome::option_view(file_name)),
{
    match file_name {
        Some(name) => {
            if name.unicode_len() == 0 {
                return Err(ConfigError::EmptyConfigPath);
            }
            let mut result = name.to_owned();
            result.push_str(".lock");
            Ok(result)
        },
        None => Err(ConfigError::EmptyConfigPath),
    }
}

/// What restricts a new configuration file to its owner before it takes its place.
pub trait AclProtector {
    fn protect_current_user(&self, path: &str) -> (result: Result<AclProtection, AclError>);
}

/// Leaves files as they are.
#[derive(Clone, Copy, Debug)]
pub struct NoopAclProtector {}

impl AclProtector for NoopAclProtector {
    fn protect_current_user(&self, path: &str) -> (result: Result<AclProtection, AclError>)
        ensures
            result == Ok::<AclProtection, AclError>(AclProtection::NotConfigured),
    {
        Ok(AclProtection::NotConfigured)
    }
}

} // verus!
