//! Which text is written for a changed configuration: only one that reads back as that configuration.

use vstd::prelude::*;
use vstd::string::*;

use crate::domain::entries;
use crate::domain::identity::Uuid;
use crate::infrastructure::config::error::{ConfigError, ConfigProblem};
use crate::infrastructure::config::model;
use crate::infrastructure::config::model::{
    AuthConfig, ClusterConfig, Clusters, Config, ConfigView, InfobaseAuthOverride, LogLevel,
    RacVersion,
};
use crate::infrastructure::config::store::FormatPreservation;
use crate::infrastructure::config::validation;
use crate::outcome;
use crate::text;

verus! {

fn same_option(left: &Option<String>, right: &Option<String>) -> (result: bool)
    ensures
        result == (outcome::option_view(*left) == outcome::option_view(*right)),
{
    match (left, right) {
        (Some(left), Some(right)) => text::same(left.as_str(), right.as_str()),
        (None, None) => true,
        _ => false,
    }
}

fn same_uuid(left: Option<Uuid>, right: Option<Uuid>) -> (result: bool)
    ensures
        result == (outcome::option_view(left) == outcome::option_view(right)),
{
    match (left, right) {
        (Some(left), Some(right)) => left.as_u128() == right.as_u128(),
        (None, None) => true,
        _ => false,
    }
}

fn same_auth(left: &AuthConfig, right: &AuthConfig) -> (result: bool)
    ensures
        result == (left@ == right@),
{
    match (left, right) {
        (AuthConfig::Password(left), AuthConfig::Password(right)) => text::same(
            left.user.as_str(),
            right.user.as_str(),
        ) && text::same(left.password.expose_secret(), right.password.expose_secret()),
        (AuthConfig::Os(left), AuthConfig::Os(right)) => text::same(
            left.user.as_str(),
            right.user.as_str(),
        ) && same_option(&left.os_user, &right.os_user),
        (AuthConfig::NoAuth(_), AuthConfig::NoAuth(_)) => true,
        _ => false,
    }
}

fn same_entry(left: &InfobaseAuthOverride, right: &InfobaseAuthOverride) -> (result: bool)
    ensures
        result == (left@ == right@),
{
    if !text::same(left.infobase(), right.infobase()) || !same_uuid(
        left.infobase_uuid(),
        right.infobase_uuid(),
    ) {
        return false;
    }
    match (left, right) {
        (InfobaseAuthOverride::Password(left), InfobaseAuthOverride::Password(right)) => text::same(
            left.user.as_str(),
            right.user.as_str(),
        ) && text::same(left.password.expose_secret(), right.password.expose_secret()),
        (InfobaseAuthOverride::Os(left), InfobaseAuthOverride::Os(right)) => text::same(
            left.user.as_str(),
            right.user.as_str(),
        ) && same_option(&left.os_user, &right.os_user),
        (InfobaseAuthOverride::NoAuth(_), InfobaseAuthOverride::NoAuth(_)) => true,
        _ => false,
    }
}

fn same_entries(left: &Vec<InfobaseAuthOverride>, right: &Vec<InfobaseAuthOverride>) -> (result: bool)
    ensures
        result == (model::entry_views(left@) == model::entry_views(right@)),
{
    let ghost one = model::entry_views(left@);
    let ghost other = model::entry_views(right@);
    if left.len() != right.len() {
        assert(one.len() != other.len());
        return false;
    }
    let mut i: usize = 0;
    while i < left.len()
        invariant
            i <= left.len(),
            left.len() == right.len(),
            one == model::entry_views(left@),
            other == model::entry_views(right@),
            forall|j: int| 0 <= j < i ==> one[j] == other[j],
        decreases left.len() - i,
    {
        assert(one[i as int] == left@[i as int]@);
        assert(other[i as int] == right@[i as int]@);
        if !same_entry(&left[i], &right[i]) {
            return false;
        }
        i = i + 1;
    }
    assert(one =~= other);
    true
}

fn same_version(left: &RacVersion, right: &RacVersion) -> (result: bool)
    ensures
        result == (left@ == right@),
{
    match (left, right) {
        (RacVersion::Auto, RacVersion::Auto) => true,
        (RacVersion::Exact(left), RacVersion::Exact(right)) => text::same(
            left.as_str(),
            right.as_str(),
        ),
        _ => false,
    }
}

fn same_cluster(left: &ClusterConfig, right: &ClusterConfig) -> (result: bool)
    ensures
        result == (left@ == right@),
{
    text::same(left.ras.host.as_str(), right.ras.host.as_str()) && left.ras.port == right.ras.port
        && left.discovered_cluster.uuid.as_u128() == right.discovered_cluster.uuid.as_u128()
        && text::same(
        left.discovered_cluster.name.as_str(),
        right.discovered_cluster.name.as_str(),
    ) && text::same(
        left.discovered_cluster.host.as_str(),
        right.discovered_cluster.host.as_str(),
    ) && left.discovered_cluster.port == right.discovered_cluster.port && same_option(
        &left.rac.path,
        &right.rac.path,
    ) && same_version(&left.rac.version, &right.rac.version) && same_auth(
        &left.cluster_auth,
        &right.cluster_auth,
    ) && same_auth(&left.infobase_auth.default, &right.infobase_auth.default) && same_entries(
        &left.infobase_auth.overrides,
        &right.infobase_auth.overrides,
    )
}

fn same_level(left: &LogLevel, right: &LogLevel) -> (result: bool)
    ensures
        result == (left@ == right@),
{
    match (left, right) {
        (LogLevel::Trace, LogLevel::Trace) => true,
        (LogLevel::Debug, LogLevel::Debug) => true,
        (LogLevel::Info, LogLevel::Info) => true,
        (LogLevel::Warn, LogLevel::Warn) => true,
        (LogLevel::Error, LogLevel::Error) => true,
        (LogLevel::Unsupported(left), LogLevel::Unsupported(right)) => text::same(
            left.as_str(),
            right.as_str(),
        ),
        _ => false,
    }
}

/// The cluster under an alias.
fn cluster_named<'a>(clusters: &'a Clusters, alias: &str) -> (result: Option<&'a ClusterConfig>)
    ensures
        outcome::option_view(result) == entries::lookup(model::cluster_entries(*clusters), alias@),
{
    let ghost all = model::cluster_entries(*clusters);
    let count: usize = model::clusters_len(clusters);
    let mut i: usize = 0;
    while i < count
        invariant
            i <= count,
            count == all.len(),
            all == model::cluster_entries(*clusters),
            entries::position(all, alias@, 0) == entries::position(all, alias@, i as int),
        decreases count - i,
    {
        if let Some((name, cluster)) = model::clusters_at(clusters, i) {
            if text::same(name.as_str(), alias) {
                return Some(cluster);
            }
        }
        i = i + 1;
    }
    None
}

/// Whether two configurations say the same; the order of their clusters does not matter.
pub open spec fn agrees(left: ConfigView, right: ConfigView) -> bool {
    &&& left.schema_version == right.schema_version
    &&& left.settings == right.settings
    &&& left.clusters.len() == right.clusters.len()
    &&& forall|i: int|
        0 <= i < left.clusters.len() ==> entries::lookup(
            right.clusters,
            (#[trigger] left.clusters[i]).0,
        ) == Some(left.clusters[i].1)
}

/// Tells whether two configurations say the same.
pub fn same_config(left: &Config, right: &Config) -> (result: bool)
    ensures
        result == agrees(left@, right@),
{
    if left.schema_version != right.schema_version || left.settings.timeout_seconds
        != right.settings.timeout_seconds || !same_option(
        &left.settings.rac_path,
        &right.settings.rac_path,
    ) || !same_level(&left.settings.log_level, &right.settings.log_level) {
        return false;
    }
    let ghost one = left@.clusters;
    let ghost other = right@.clusters;
    let count: usize = model::clusters_len(&left.clusters);
    if count != model::clusters_len(&right.clusters) {
        return false;
    }
    let mut i: usize = 0;
    while i < count
        invariant
            i <= count,
            count == one.len(),
            one == model::cluster_entries(left.clusters),
            other == model::cluster_entries(right.clusters),
            one == left@.clusters,
            other == right@.clusters,
            forall|j: int|
                0 <= j < i ==> entries::lookup(other, (#[trigger] one[j]).0) == Some(one[j].1),
        decreases count - i,
    {
        if let Some((alias, cluster)) = model::clusters_at(&left.clusters, i) {
            assert(one[i as int] == (alias@, cluster@));
            match cluster_named(&right.clusters, alias.as_str()) {
                Some(found) => {
                    if !same_cluster(cluster, found) {
                        return false;
                    }
                },
                None => {
                    return false;
                },
            }
        }
        i = i + 1;
    }
    true
}

/// A configuration that was read, if it is valid.
pub open spec fn accepted(config: ConfigView) -> Result<ConfigView, ConfigProblem> {
    match validation::config_problem(config) {
        Some(problem) => Err(ConfigProblem::Validation { problem }),
        None => Ok(config),
    }
}

/// Takes a configuration that was read, if it is valid.
pub fn accept_config(config: Config) -> (result: Result<Config, ConfigError>)
    ensures
        outcome::result_view(result) == accepted(config@),
{
    match config.validate() {
        Ok(()) => Ok(config),
        Err(problem) => Err(ConfigError::Validation { problem }),
    }
}

/// Whether a text may be written: it reads back as the configuration that is wanted.
pub open spec fn read_back(
    parsed: Result<ConfigView, ConfigProblem>,
    expected: ConfigView,
) -> Option<ConfigProblem> {
    match parsed {
        Err(problem) => Some(problem),
        Ok(parsed) => if agrees(parsed, expected) {
            None
        } else {
            Some(ConfigProblem::SerializationInvariant)
        },
    }
}

/// Refuses a text that does not read back as the configuration that is wanted.
pub fn ensure_roundtrip(parsed: Result<Config, ConfigError>, expected: &Config) -> (result: Result<
    (),
    ConfigError,
>)
    ensures
        match read_back(outcome::result_view(parsed), expected@) {
            None => result is Ok,
            Some(problem) => result is Err && result->Err_0@ == problem,
        },
{
    match parsed {
        Err(error) => Err(error),
        Ok(parsed) => if same_config(&parsed, expected) {
            Ok(())
        } else {
            Err(ConfigError::SerializationInvariant)
        },
    }
}

/// The text for a changed configuration: the edited one where there is one that says what is wanted,
/// and one written anew otherwise.
pub open spec fn chosen_text(
    edited: Option<(Seq<char>, Result<ConfigView, ConfigProblem>)>,
    desired: ConfigView,
    anew: Result<Seq<char>, ConfigProblem>,
) -> Result<(Seq<char>, FormatPreservation), ConfigProblem> {
    match edited {
        Some((source, Ok(parsed))) if agrees(parsed, desired) => Ok(
            (source, FormatPreservation::TargetedCst),
        ),
        _ => match anew {
            Ok(source) => Ok((source, FormatPreservation::CanonicalFallback)),
            Err(problem) => Err(problem),
        },
    }
}

/// An edited text with what it reads as, by view.
pub open spec fn edited_view(edited: Option<(String, Result<Config, ConfigError>)>) -> Option<
    (Seq<char>, Result<ConfigView, ConfigProblem>),
> {
    match edited {
        Some((source, parsed)) => Some((source@, outcome::result_view(parsed))),
        None => None,
    }
}

/// Chooses the text for a changed configuration.
pub fn render_update(
    edited: Option<(String, Result<Config, ConfigError>)>,
    desired: &Config,
    anew: Result<String, ConfigError>,
) -> (result: Result<(String, FormatPreservation), ConfigError>)
    ensures
        match result {
            Ok((source, preservation)) => chosen_text(
                edited_view(edited),
                desired@,
                outcome::result_view(anew),
            ) == Ok::<_, ConfigProblem>((source@, preservation)),
            Err(error) => chosen_text(
                edited_view(edited),
                desired@,
                outcome::result_view(anew),
            ) == Err::<(Seq<char>, FormatPreservation), _>(error@),
        },
{
    if let Some((source, Ok(parsed))) = edited {
        if same_config(&parsed, desired) {
            return Ok((source, FormatPreservation::TargetedCst));
        }
    }
    match anew {
        Ok(source) => Ok((source, FormatPreservation::CanonicalFallback)),
        Err(error) => Err(error),
    }
}

/// An edited text is written only where it reads back as the configuration that is wanted.
pub proof fn law_edited_texts_read_back(
    edited: Option<(Seq<char>, Result<ConfigView, ConfigProblem>)>,
    desired: ConfigView,
    anew: Result<Seq<char>, ConfigProblem>,
)
    ensures
        match chosen_text(edited, desired, anew) {
            Ok((source, FormatPreservation::TargetedCst)) => match edited {
                Some((text, parsed)) => text == source && read_back(parsed, desired) is None,
                None => false,
            },
            _ => true,
        },
{
}

/// Every configuration says the same as itself.
pub proof fn law_a_configuration_agrees_with_itself(config: ConfigView)
    requires
        entries::distinct(config.clusters),
    ensures
        agrees(config, config),
{
    assert forall|i: int| 0 <= i < config.clusters.len() implies entries::lookup(
        config.clusters,
        (#[trigger] config.clusters[i]).0,
    ) == Some(config.clusters[i].1) by {
        entries::lemma_lookup(config.clusters, config.clusters[i].0);
    }
}

} // verus!
