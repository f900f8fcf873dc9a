//! What makes a configuration valid.

use vstd::prelude::*;
use vstd::string::*;

use crate::infrastructure::config::error::{ValidationError, ValidationProblem};
use crate::infrastructure::config::model;
use crate::infrastructure::config::model::{
    AuthConfig, ClusterConfig, ClusterView, Config, ConfigView, CredentialView, EntryView,
    InfobaseAuthOverride, LogLevel, LogLevelView, RacVersion, RacVersionView,
    CONFIG_SCHEMA_VERSION,
};
use crate::number;
use crate::outcome;
use crate::text;

verus! {

/// The first of two problems.
pub open spec fn first(a: Option<ValidationProblem>, b: Option<ValidationProblem>) -> Option<
    ValidationProblem,
> {
    if a is Some {
        a
    } else {
        b
    }
}

/// What a check returns: success where there is no problem.
pub open spec fn checked(problem: Option<ValidationProblem>) -> Result<(), ValidationProblem> {
    match problem {
        Some(problem) => Err(problem),
        None => Ok(()),
    }
}

pub open spec fn check_view(result: Result<(), ValidationError>) -> Result<(), ValidationProblem> {
    match result {
        Ok(_) => Ok(()),
        Err(error) => Err(error@),
    }
}

/// A text must hold more than whitespace.
pub open spec fn empty_problem(value: Seq<char>, field: Seq<char>) -> Option<ValidationProblem> {
    if text::trim(value).len() == 0 {
        Some(ValidationProblem::EmptyField { field })
    } else {
        None
    }
}

pub open spec fn port_problem(port: u16, field: Seq<char>) -> Option<ValidationProblem> {
    if port == 0 {
        Some(ValidationProblem::InvalidPort { field })
    } else {
        None
    }
}

/// A path must not be empty where it is given.
pub open spec fn path_problem(path: Option<Seq<char>>, field: Seq<char>) -> Option<
    ValidationProblem,
> {
    match path {
        Some(path) if path.len() == 0 => Some(ValidationProblem::EmptyPath { field }),
        _ => None,
    }
}

/// A character of an alias.
pub open spec fn is_alias_char(c: char) -> bool {
    text::is_ascii_alphanumeric(c) || c == '.' || c == '_' || c == '-' || c == ':'
}

/// An alias is not empty and holds ASCII letters, digits and `.`, `_`, `-`, `:` alone.
pub open spec fn is_valid_alias(alias: Seq<char>) -> bool {
    alias.len() > 0 && forall|i: int| 0 <= i < alias.len() ==> is_alias_char(#[trigger] alias[i])
}

/// A version that may be asked for: 8.3 with a third number of at least 20 and a fourth.
pub open spec fn is_supported_version(value: Seq<char>) -> bool {
    let parts = text::split(value, '.');
    let max = u32::MAX as nat;
    &&& parts.len() == 4
    &&& number::unsigned(parts[0], max) == Some(8nat)
    &&& number::unsigned(parts[1], max) == Some(3nat)
    &&& number::unsigned(parts[2], max) is Some
    &&& number::unsigned(parts[2], max)->0 >= 20
    &&& number::unsigned(parts[3], max) is Some
}

/// A field of a cluster: its path in the configuration.
pub open spec fn cluster_field(alias: Seq<char>, suffix: Seq<char>) -> Seq<char> {
    "clusters."@ + alias + suffix
}

/// What is wrong with credentials that stand at a path.
pub open spec fn auth_problem(auth: CredentialView, path: Seq<char>) -> Option<ValidationProblem> {
    match auth {
        CredentialView::Password { user, password } => first(
            empty_problem(user, path + ".user"@),
            empty_problem(password, path + ".password"@),
        ),
        CredentialView::Os { user, os_user } => first(
            empty_problem(user, path + ".user"@),
            match os_user {
                Some(os_user) => empty_problem(os_user, path + ".os_user"@),
                None => None,
            },
        ),
        CredentialView::NoAuth => None,
    }
}

/// The path of an override.
pub open spec fn override_path(alias: Seq<char>, index: nat) -> Seq<char> {
    "clusters."@ + alias + ".infobase_auth.overrides["@ + number::decimal(index) + "]"@
}

/// An earlier override of the same name.
pub open spec fn name_problem(alias: Seq<char>, overrides: Seq<EntryView>, index: int) -> Option<
    ValidationProblem,
> {
    let name = overrides[index].infobase;
    let earlier = model::entry_by_name(overrides.take(index), name, 0);
    if earlier < index {
        Some(
            ValidationProblem::DuplicateOverrideName {
                cluster: alias,
                infobase: name,
                first: earlier as nat,
                second: index as nat,
            },
        )
    } else {
        None
    }
}

/// An earlier override of the same identity.
pub open spec fn uuid_problem(alias: Seq<char>, overrides: Seq<EntryView>, index: int) -> Option<
    ValidationProblem,
> {
    match overrides[index].infobase_uuid {
        Some(uuid) => {
            let earlier = model::entry_by_uuid(overrides.take(index), uuid, 0);
            if earlier < index {
                Some(
                    ValidationProblem::DuplicateOverrideUuid {
                        cluster: alias,
                        uuid,
                        first: earlier as nat,
                        second: index as nat,
                    },
                )
            } else {
                None
            }
        },
        None => None,
    }
}

/// What is wrong with one override, those before it taken into account.
pub open spec fn override_problem(alias: Seq<char>, overrides: Seq<EntryView>, index: int) -> Option<
    ValidationProblem,
> {
    let path = override_path(alias, index as nat);
    first(
        empty_problem(overrides[index].infobase, path + ".infobase"@),
        first(
            auth_problem(overrides[index].auth, path),
            first(name_problem(alias, overrides, index), uuid_problem(alias, overrides, index)),
        ),
    )
}

/// The first problem among the first `count` overrides.
pub open spec fn overrides_problem(alias: Seq<char>, overrides: Seq<EntryView>, count: int) -> Option<
    ValidationProblem,
>
    decreases count,
{
    if count <= 0 {
        None
    } else {
        first(
            overrides_problem(alias, overrides, count - 1),
            override_problem(alias, overrides, count - 1),
        )
    }
}

pub open spec fn version_problem(alias: Seq<char>, version: RacVersionView) -> Option<
    ValidationProblem,
> {
    match version {
        RacVersionView::Exact(value) if !is_supported_version(value) => Some(
            ValidationProblem::InvalidRacVersion {
                field: cluster_field(alias, ".rac.version"@),
                value,
            },
        ),
        _ => None,
    }
}

/// What is wrong with a cluster.
pub open spec fn cluster_problem(alias: Seq<char>, cluster: ClusterView) -> Option<
    ValidationProblem,
> {
    first(
        empty_problem(cluster.ras_host, cluster_field(alias, ".ras.host"@)),
        first(
            port_problem(cluster.ras_port, cluster_field(alias, ".ras.port"@)),
            first(
                empty_problem(cluster.host, cluster_field(alias, ".discovered_cluster.host"@)),
                first(
                    port_problem(cluster.port, cluster_field(alias, ".discovered_cluster.port"@)),
                    first(
                        path_problem(cluster.rac_path, cluster_field(alias, ".rac.path"@)),
                        first(
                            version_problem(alias, cluster.rac_version),
                            first(
                                auth_problem(
                                    cluster.cluster_auth,
                                    cluster_field(alias, ".cluster_auth"@),
                                ),
                                first(
                                    auth_problem(
                                        cluster.infobase_auth.default,
                                        cluster_field(alias, ".infobase_auth.default"@),
                                    ),
                                    overrides_problem(
                                        alias,
                                        cluster.infobase_auth.overrides,
                                        cluster.infobase_auth.overrides.len() as int,
                                    ),
                                ),
                            ),
                        ),
                    ),
                ),
            ),
        ),
    )
}

/// The position of the first alias at or after `from` that is the same but for ASCII case, or the
/// length.
pub open spec fn alias_position(
    clusters: Seq<(Seq<char>, ClusterView)>,
    alias: Seq<char>,
    from: int,
) -> int
    decreases clusters.len() - from,
{
    if from >= clusters.len() {
        clusters.len() as int
    } else if text::same_ignoring_ascii_case(clusters[from].0, alias) {
        from
    } else {
        alias_position(clusters, alias, from + 1)
    }
}

pub open spec fn alias_problem(clusters: Seq<(Seq<char>, ClusterView)>, index: int) -> Option<
    ValidationProblem,
> {
    let alias = clusters[index].0;
    let earlier = alias_position(clusters.take(index), alias, 0);
    if !is_valid_alias(alias) {
        Some(ValidationProblem::InvalidAlias { alias })
    } else if earlier < index {
        Some(ValidationProblem::DuplicateAlias { first: clusters[earlier].0, second: alias })
    } else {
        None
    }
}

/// The first problem among the first `count` clusters.
pub open spec fn clusters_problem(clusters: Seq<(Seq<char>, ClusterView)>, count: int) -> Option<
    ValidationProblem,
>
    decreases count,
{
    if count <= 0 {
        None
    } else {
        first(
            clusters_problem(clusters, count - 1),
            first(
                alias_problem(clusters, count - 1),
                cluster_problem(clusters[count - 1].0, clusters[count - 1].1),
            ),
        )
    }
}

pub open spec fn level_problem(level: LogLevelView) -> Option<ValidationProblem> {
    match level {
        LogLevelView::Unsupported(value) => Some(ValidationProblem::InvalidLogLevel { value }),
        _ => None,
    }
}

/// The first problem of a configuration.
pub open spec fn config_problem(config: ConfigView) -> Option<ValidationProblem> {
    if config.schema_version != CONFIG_SCHEMA_VERSION {
        Some(
            ValidationProblem::UnsupportedSchemaVersion {
                expected: CONFIG_SCHEMA_VERSION,
                found: config.schema_version,
            },
        )
    } else if config.settings.timeout_seconds == 0 {
        Some(ValidationProblem::InvalidTimeout)
    } else {
        first(
            level_problem(config.settings.log_level),
            first(
                path_problem(config.settings.rac_path, "settings.rac_path"@),
                clusters_problem(config.clusters, config.clusters.len() as int),
            ),
        )
    }
}

fn validate_non_empty(value: &str, field: String) -> (result: Result<(), ValidationError>)
    ensures
        check_view(result) == checked(empty_problem(value@, field@)),
{
    if text::trim_text(value).as_str().is_empty() {
        Err(ValidationError::EmptyField { field })
    } else {
        Ok(())
    }
}

fn validate_port(port: u16, field: String) -> (result: Result<(), ValidationError>)
    ensures
        check_view(result) == checked(port_problem(port, field@)),
{
    if port == 0 {
        Err(ValidationError::InvalidPort { field })
    } else {
        Ok(())
    }
}

fn validate_optional_path(path: &Option<String>, field: &str) -> (result: Result<
    (),
    ValidationError,
>)
    ensures
        check_view(result) == checked(path_problem(outcome::option_view(*path), field@)),
{
    match path {
        Some(path) => {
            if path.as_str().is_empty() {
                return Err(ValidationError::EmptyPath { field: field.to_owned() });
            }
            Ok(())
        },
        None => Ok(()),
    }
}

fn validate_alias(alias: &str) -> (result: Result<(), ValidationError>)
    ensures
        check_view(result) == (if is_valid_alias(alias@) {
            Ok::<(), ValidationProblem>(())
        } else {
            Err(ValidationProblem::InvalidAlias { alias: alias@ })
        }),
{
    let source = text::chars(alias);
    let mut good = source.len() > 0;
    let mut i: usize = 0;
    while i < source.len()
        invariant
            source@ == alias@,
            i <= source.len(),
            good == (alias@.len() > 0 && forall|j: int|
                0 <= j < i ==> is_alias_char(#[trigger] alias@[j])),
        decreases source.len() - i,
    {
        let c = source[i];
        assert(alias@[i as int] == c);
        let fits = ('0' <= c && c <= '9') || ('a' <= c && c <= 'z') || ('A' <= c && c <= 'Z') || c
            == '.' || c == '_' || c == '-' || c == ':';
        if !fits {
            good = false;
        }
        i = i + 1;
    }
    if good {
        Ok(())
    } else {
        Err(ValidationError::InvalidAlias { alias: alias.to_owned() })
    }
}

/// Whether a version may be asked for.
pub fn is_supported_rac_version(value: &str) -> (result: bool)
    ensures
        result == is_supported_version(value@),
{
    let parts = text::split_text(value, '.');
    let ghost split = text::split(value@, '.');
    assert(text::views(parts@).len() == split.len());
    if parts.len() != 4 {
        return false;
    }
    assert(split[0] == parts@[0]@);
    assert(split[1] == parts@[1]@);
    assert(split[2] == parts@[2]@);
    assert(split[3] == parts@[3]@);
    let max: u64 = 0xffff_ffff;
    match (
        number::parse_unsigned(parts[0].as_str(), max),
        number::parse_unsigned(parts[1].as_str(), max),
        number::parse_unsigned(parts[2].as_str(), max),
        number::parse_unsigned(parts[3].as_str(), max),
    ) {
        (Some(major), Some(minor), Some(patch), Some(_)) => major == 8 && minor == 3 && patch >= 20,
        _ => false,
    }
}

fn make_cluster_field(alias: &str, suffix: &str) -> (result: String)
    ensures
        result@ == cluster_field(alias@, suffix@),
{
    let mut result = "clusters.".to_owned();
    result.push_str(alias);
    result.push_str(suffix);
    result
}

fn make_override_path(alias: &str, index: usize) -> (result: String)
    ensures
        result@ == override_path(alias@, index as nat),
{
    let mut result = make_cluster_field(alias, ".infobase_auth.overrides[");
    result.push_str(number::format_u64(index as u64).as_str());
    result.push_str("]");
    result
}

fn extend(path: &str, suffix: &str) -> (result: String)
    ensures
        result@ == path@ + suffix@,
{
    let mut result = path.to_owned();
    result.push_str(suffix);
    result
}

fn validate_password(user: &str, password: &str, path: &str) -> (result: Result<
    (),
    ValidationError,
>)
    ensures
        check_view(result) == checked(
            auth_problem(CredentialView::Password { user: user@, password: password@ }, path@),
        ),
{
    match validate_non_empty(user, extend(path, ".user")) {
        Ok(_) => validate_non_empty(password, extend(path, ".password")),
        Err(error) => Err(error),
    }
}

fn validate_os(user: &str, os_user: &Option<String>, path: &str) -> (result: Result<
    (),
    ValidationError,
>)
    ensures
        check_view(result) == checked(
            auth_problem(
                CredentialView::Os { user: user@, os_user: outcome::option_view(*os_user) },
                path@,
            ),
        ),
{
    match validate_non_empty(user, extend(path, ".user")) {
        Ok(_) => match os_user {
            Some(os_user) => validate_non_empty(os_user.as_str(), extend(path, ".os_user")),
            None => Ok(()),
        },
        Err(error) => Err(error),
    }
}

fn validate_auth(auth: &AuthConfig, path: &str) -> (result: Result<(), ValidationError>)
    ensures
        check_view(result) == checked(auth_problem(auth@, path@)),
{
    match auth {
        AuthConfig::Password(auth) => validate_password(
            auth.user.as_str(),
            auth.password.expose_secret(),
            path,
        ),
        AuthConfig::Os(auth) => validate_os(auth.user.as_str(), &auth.os_user, path),
        AuthConfig::NoAuth(_) => Ok(()),
    }
}

fn validate_entry_auth(entry: &InfobaseAuthOverride, path: &str) -> (result: Result<
    (),
    ValidationError,
>)
    ensures
        check_view(result) == checked(auth_problem(entry@.auth, path@)),
{
    match entry {
        InfobaseAuthOverride::Password(entry) => validate_password(
            entry.user.as_str(),
            entry.password.expose_secret(),
            path,
        ),
        InfobaseAuthOverride::Os(entry) => validate_os(entry.user.as_str(), &entry.os_user, path),
        InfobaseAuthOverride::NoAuth(_) => Ok(()),
    }
}

proof fn lemma_entry_by_name_take(entries: Seq<EntryView>, name: Seq<char>, from: int, end: int)
    requires
        0 <= from <= end <= entries.len(),
    ensures
        model::entry_by_name(entries.take(end), name, from) == (if model::entry_by_name(
            entries,
            name,
            from,
        ) < end {
            model::entry_by_name(entries, name, from)
        } else {
            end
        }),
        from <= model::entry_by_name(entries, name, from) <= entries.len(),
    decreases entries.len() - from,
{
    if from < entries.len() {
        if from < end {
            assert(entries.take(end)[from] == entries[from]);
            if text::lowercase(entries[from].infobase) != text::lowercase(name) {
                lemma_entry_by_name_take(entries, name, from + 1, end);
            }
        } else if text::lowercase(entries[from].infobase) != text::lowercase(name) {
            lemma_entry_by_name_bounds(entries, name, from + 1);
        }
    }
}

proof fn lemma_entry_by_name_bounds(entries: Seq<EntryView>, name: Seq<char>, from: int)
    requires
        0 <= from <= entries.len(),
    ensures
        from <= model::entry_by_name(entries, name, from) <= entries.len(),
    decreases entries.len() - from,
{
    if from < entries.len() && text::lowercase(entries[from].infobase) != text::lowercase(name) {
        lemma_entry_by_name_bounds(entries, name, from + 1);
    }
}

proof fn lemma_entry_by_uuid_bounds(entries: Seq<EntryView>, uuid: u128, from: int)
    requires
        0 <= from <= entries.len(),
    ensures
        from <= model::entry_by_uuid(entries, uuid, from) <= entries.len(),
    decreases entries.len() - from,
{
    if from < entries.len() && entries[from].infobase_uuid != Some(uuid) {
        lemma_entry_by_uuid_bounds(entries, uuid, from + 1);
    }
}

proof fn lemma_entry_by_uuid_take(entries: Seq<EntryView>, uuid: u128, from: int, end: int)
    requires
        0 <= from <= end <= entries.len(),
    ensures
        model::entry_by_uuid(entries.take(end), uuid, from) == (if model::entry_by_uuid(
            entries,
            uuid,
            from,
        ) < end {
            model::entry_by_uuid(entries, uuid, from)
        } else {
            end
        }),
    decreases entries.len() - from,
{
    if from < end {
        assert(entries.take(end)[from] == entries[from]);
        if entries[from].infobase_uuid != Some(uuid) {
            lemma_entry_by_uuid_take(entries, uuid, from + 1, end);
        }
    } else {
        lemma_entry_by_uuid_bounds(entries, uuid, from);
    }
}

fn validate_override(alias: &str, overrides: &Vec<InfobaseAuthOverride>, index: usize) -> (result:
    Result<(), ValidationError>)
    requires
        index < overrides@.len(),
    ensures
        check_view(result) == checked(
            override_problem(alias@, model::entry_views(overrides@), index as int),
        ),
{
    let ghost all = model::entry_views(overrides@);
    let entry = &overrides[index];
    assert(all[index as int] == entry@);
    let path = make_override_path(alias, index);
    match validate_non_empty(entry.infobase(), extend(path.as_str(), ".infobase")) {
        Ok(_) => {},
        Err(error) => {
            return Err(error);
        },
    }
    match validate_entry_auth(entry, path.as_str()) {
        Ok(_) => {},
        Err(error) => {
            return Err(error);
        },
    }
    let named: usize = model::find_entry_by_name(overrides, entry.infobase());
    proof {
        lemma_entry_by_name_take(all, entry@.infobase, 0, index as int);
    }
    if named < index {
        return Err(
            ValidationError::DuplicateOverrideName {
                cluster: alias.to_owned(),
                infobase: entry.infobase().to_owned(),
                first: named,
                second: index,
            },
        );
    }
    match entry.infobase_uuid() {
        Some(uuid) => {
            let known: usize = model::find_entry_by_uuid(overrides, uuid);
            proof {
                lemma_entry_by_uuid_take(all, uuid@, 0, index as int);
            }
            if known < index {
                return Err(
                    ValidationError::DuplicateOverrideUuid {
                        cluster: alias.to_owned(),
                        uuid,
                        first: known,
                        second: index,
                    },
                );
            }
            Ok(())
        },
        None => Ok(()),
    }
}

proof fn lemma_overrides_problem_stays(
    alias: Seq<char>,
    overrides: Seq<EntryView>,
    from: int,
    to: int,
)
    requires
        0 <= from <= to,
        overrides_problem(alias, overrides, from) is Some,
    ensures
        overrides_problem(alias, overrides, to) == overrides_problem(alias, overrides, from),
    decreases to - from,
{
    if from < to {
        lemma_overrides_problem_stays(alias, overrides, from, to - 1);
    }
}

fn validate_overrides(alias: &str, overrides: &Vec<InfobaseAuthOverride>) -> (result: Result<
    (),
    ValidationError,
>)
    ensures
        check_view(result) == checked(
            overrides_problem(
                alias@,
                model::entry_views(overrides@),
                overrides@.len() as int,
            ),
        ),
{
    let ghost all = model::entry_views(overrides@);
    let mut i: usize = 0;
    while i < overrides.len()
        invariant
            i <= overrides.len(),
            all == model::entry_views(overrides@),
            overrides_problem(alias@, all, i as int) is None,
        decreases overrides.len() - i,
    {
        match validate_override(alias, overrides, i) {
            Ok(_) => {},
            Err(error) => {
                proof {
                    lemma_overrides_problem_stays(alias@, all, i + 1, overrides@.len() as int);
                }
                return Err(error);
            },
        }
        i = i + 1;
    }
    Ok(())
}

fn validate_cluster(alias: &str, cluster: &ClusterConfig) -> (result: Result<(), ValidationError>)
    ensures
        check_view(result) == checked(cluster_problem(alias@, cluster@)),
{
    match validate_non_empty(cluster.ras.host.as_str(), make_cluster_field(alias, ".ras.host")) {
        Ok(_) => {},
        Err(error) => {
            return Err(error);
        },
    }
    match validate_port(cluster.ras.port, make_cluster_field(alias, ".ras.port")) {
        Ok(_) => {},
        Err(error) => {
            return Err(error);
        },
    }
    match validate_non_empty(
        cluster.discovered_cluster.host.as_str(),
        make_cluster_field(alias, ".discovered_cluster.host"),
    ) {
        Ok(_) => {},
        Err(error) => {
            return Err(error);
        },
    }
    match validate_port(
        cluster.discovered_cluster.port,
        make_cluster_field(alias, ".discovered_cluster.port"),
    ) {
        Ok(_) => {},
        Err(error) => {
            return Err(error);
        },
    }
    match validate_optional_path(
        &cluster.rac.path,
        make_cluster_field(alias, ".rac.path").as_str(),
    ) {
        Ok(_) => {},
        Err(error) => {
            return Err(error);
        },
    }
    match &cluster.rac.version {
        RacVersion::Exact(version) => {
            if !is_supported_rac_version(version.as_str()) {
                return Err(
                    ValidationError::InvalidRacVersion {
                        field: make_cluster_field(alias, ".rac.version"),
                        value: version.as_str().to_owned(),
                    },
                );
            }
        },
        RacVersion::Auto => {},
    }
    match validate_auth(&cluster.cluster_auth, make_cluster_field(alias, ".cluster_auth").as_str()) {
        Ok(_) => {},
        Err(error) => {
            return Err(error);
        },
    }
    match validate_auth(
        &cluster.infobase_auth.default,
        make_cluster_field(alias, ".infobase_auth.default").as_str(),
    ) {
        Ok(_) => {},
        Err(error) => {
            return Err(error);
        },
    }
    validate_overrides(alias, &cluster.infobase_auth.overrides)
}

/// Finds the first cluster whose alias is the same but for ASCII case, among the first `end`.
pub(crate) fn find_alias(clusters: &model::Clusters, alias: &str, end: usize) -> (result: usize)
    requires
        end <= model::cluster_entries(*clusters).len(),
    ensures
        result == alias_position(
            model::cluster_entries(*clusters).take(end as int),
            alias@,
            0,
        ),
        result <= end,
{
    let ghost all = model::cluster_entries(*clusters);
    let ghost head = all.take(end as int);
    let mut i: usize = 0;
    while i < end
        invariant
            i <= end <= all.len(),
            all == model::cluster_entries(*clusters),
            head == all.take(end as int),
            alias_position(head, alias@, 0) == alias_position(head, alias@, i as int),
        decreases end - i,
    {
        match model::clusters_at(clusters, i) {
            Some((known, _)) => {
                assert(head[i as int].0 == known@);
                if text::eq_ignore_ascii_case(known.as_str(), alias) {
                    return i;
                }
            },
            None => {},
        }
        i = i + 1;
    }
    i
}

proof fn lemma_clusters_problem_stays(clusters: Seq<(Seq<char>, ClusterView)>, from: int, to: int)
    requires
        0 <= from <= to,
        clusters_problem(clusters, from) is Some,
    ensures
        clusters_problem(clusters, to) == clusters_problem(clusters, from),
    decreases to - from,
{
    if from < to {
        lemma_clusters_problem_stays(clusters, from, to - 1);
    }
}

fn validate_entry(clusters: &model::Clusters, index: usize) -> (result: Result<(), ValidationError>)
    requires
        index < model::cluster_entries(*clusters).len(),
    ensures
        ({
            let all = model::cluster_entries(*clusters);
            check_view(result) == checked(
                first(
                    alias_problem(all, index as int),
                    cluster_problem(all[index as int].0, all[index as int].1),
                ),
            )
        }),
{
    let ghost all = model::cluster_entries(*clusters);
    match model::clusters_at(clusters, index) {
        Some((alias, cluster)) => {
            match validate_alias(alias.as_str()) {
                Ok(_) => {},
                Err(error) => {
                    return Err(error);
                },
            }
            let known: usize = find_alias(clusters, alias.as_str(), index);
            if known < index {
                match model::clusters_at(clusters, known) {
                    Some((earlier, _)) => {
                        return Err(
                            ValidationError::DuplicateAlias {
                                first: earlier.clone(),
                                second: alias.clone(),
                            },
                        );
                    },
                    None => {},
                }
            }
            validate_cluster(alias.as_str(), cluster)
        },
        None => Ok(()),
    }
}

fn validate_clusters(clusters: &model::Clusters) -> (result: Result<(), ValidationError>)
    ensures
        check_view(result) == checked(
            clusters_problem(
                model::cluster_entries(*clusters),
                model::cluster_entries(*clusters).len() as int,
            ),
        ),
{
    let ghost all = model::cluster_entries(*clusters);
    let count: usize = model::clusters_len(clusters);
    let mut i: usize = 0;
    while i < count
        invariant
            i <= count,
            all == model::cluster_entries(*clusters),
            count == all.len(),
            clusters_problem(all, i as int) is None,
        decreases count - i,
    {
        match validate_entry(clusters, i) {
            Ok(_) => {},
            Err(error) => {
                proof {
                    lemma_clusters_problem_stays(all, i + 1, all.len() as int);
                }
                return Err(error);
            },
        }
        i = i + 1;
    }
    Ok(())
}

impl Config {
    /// Checks the whole configuration and reports its first problem.
    pub fn validate(&self) -> (result: Result<(), ValidationError>)
        ensures
            check_view(result) == checked(config_problem(self@)),
    {
        if self.schema_version != CONFIG_SCHEMA_VERSION {
            return Err(
                ValidationError::UnsupportedSchemaVersion {
                    expected: CONFIG_SCHEMA_VERSION,
                    found: self.schema_version,
                },
            );
        }
        if self.settings.timeout_seconds == 0 {
            return Err(ValidationError::InvalidTimeout);
        }
        match &self.settings.log_level {
            LogLevel::Unsupported(value) => {
                return Err(ValidationError::InvalidLogLevel { value: value.as_str().to_owned() });
            },
            _ => {},
        }
        match validate_optional_path(&self.settings.rac_path, "settings.rac_path") {
            Ok(_) => {},
            Err(error) => {
                return Err(error);
            },
        }
        validate_clusters(&self.clusters)
    }
}

proof fn lemma_no_cluster_problem(clusters: Seq<(Seq<char>, ClusterView)>, count: int, i: int)
    requires
        clusters_problem(clusters, count) is None,
        0 <= i < count,
    ensures
        alias_problem(clusters, i) is None,
        cluster_problem(clusters[i].0, clusters[i].1) is None,
    decreases count,
{
    if i < count - 1 {
        lemma_no_cluster_problem(clusters, count - 1, i);
    }
}

proof fn lemma_no_override_problem(
    alias: Seq<char>,
    overrides: Seq<EntryView>,
    count: int,
    i: int,
)
    requires
        overrides_problem(alias, overrides, count) is None,
        0 <= i < count,
    ensures
        override_problem(alias, overrides, i) is None,
    decreases count,
{
    if i < count - 1 {
        lemma_no_override_problem(alias, overrides, count - 1, i);
    }
}

/// The position of an alias: what stands there is the alias, and nothing before it is.
pub proof fn lemma_alias_position(
    clusters: Seq<(Seq<char>, ClusterView)>,
    alias: Seq<char>,
    from: int,
)
    requires
        0 <= from <= clusters.len(),
    ensures
        from <= alias_position(clusters, alias, from) <= clusters.len(),
        alias_position(clusters, alias, from) < clusters.len() ==> text::same_ignoring_ascii_case(
            clusters[alias_position(clusters, alias, from)].0,
            alias,
        ),
        forall|k: int|
            from <= k < alias_position(clusters, alias, from) ==> !text::same_ignoring_ascii_case(
                (#[trigger] clusters[k]).0,
                alias,
            ),
    decreases clusters.len() - from,
{
    if from < clusters.len() && !text::same_ignoring_ascii_case(clusters[from].0, alias) {
        lemma_alias_position(clusters, alias, from + 1);
    }
}

/// In a valid configuration every alias is well formed, and no two are the same but for ASCII case.
pub proof fn law_valid_aliases_differ(config: ConfigView, i: int, j: int)
    requires
        config_problem(config) is None,
        0 <= i < j < config.clusters.len(),
    ensures
        is_valid_alias(config.clusters[i].0),
        is_valid_alias(config.clusters[j].0),
        !text::same_ignoring_ascii_case(config.clusters[i].0, config.clusters[j].0),
{
    let clusters = config.clusters;
    lemma_no_cluster_problem(clusters, clusters.len() as int, i);
    lemma_no_cluster_problem(clusters, clusters.len() as int, j);
    lemma_alias_position(clusters.take(j), clusters[j].0, 0);
    assert(clusters.take(j)[i] == clusters[i]);
}

proof fn lemma_entry_by_name_miss(entries: Seq<EntryView>, name: Seq<char>, from: int)
    requires
        0 <= from <= entries.len(),
        model::entry_by_name(entries, name, from) >= entries.len(),
    ensures
        forall|k: int|
            from <= k < entries.len() ==> text::lowercase((#[trigger] entries[k]).infobase)
                != text::lowercase(name),
    decreases entries.len() - from,
{
    if from < entries.len() {
        lemma_entry_by_name_miss(entries, name, from + 1);
    }
}

proof fn lemma_entry_by_uuid_miss(entries: Seq<EntryView>, uuid: u128, from: int)
    requires
        0 <= from <= entries.len(),
        model::entry_by_uuid(entries, uuid, from) >= entries.len(),
    ensures
        forall|k: int|
            from <= k < entries.len() ==> (#[trigger] entries[k]).infobase_uuid != Some(uuid),
    decreases entries.len() - from,
{
    if from < entries.len() {
        lemma_entry_by_uuid_miss(entries, uuid, from + 1);
    }
}

/// In a valid configuration no two overrides of a cluster have the same name, in lower case, or the
/// same identity.
pub proof fn law_valid_overrides_differ(config: ConfigView, cluster: int, i: int, j: int)
    requires
        config_problem(config) is None,
        0 <= cluster < config.clusters.len(),
        0 <= i < j < config.clusters[cluster].1.infobase_auth.overrides.len(),
    ensures
        ({
            let overrides = config.clusters[cluster].1.infobase_auth.overrides;
            &&& text::lowercase(overrides[i].infobase) != text::lowercase(overrides[j].infobase)
            &&& overrides[j].infobase_uuid is Some ==> overrides[i].infobase_uuid
                != overrides[j].infobase_uuid
        }),
{
    let alias = config.clusters[cluster].0;
    let overrides = config.clusters[cluster].1.infobase_auth.overrides;
    lemma_no_cluster_problem(config.clusters, config.clusters.len() as int, cluster);
    lemma_no_override_problem(alias, overrides, overrides.len() as int, j);
    let head = overrides.take(j);
    assert(head[i] == overrides[i]);
    lemma_entry_by_name_bounds(head, overrides[j].infobase, 0);
    lemma_entry_by_name_miss(head, overrides[j].infobase, 0);
    if overrides[j].infobase_uuid is Some {
        let uuid = overrides[j].infobase_uuid->0;
        lemma_entry_by_uuid_bounds(head, uuid, 0);
        lemma_entry_by_uuid_miss(head, uuid, 0);
    }
}

/// A valid configuration asks for no version of the utility that is not supported, and has neither an
/// empty host nor port 0.
pub proof fn law_valid_clusters_are_reachable(config: ConfigView, i: int)
    requires
        config_problem(config) is None,
        0 <= i < config.clusters.len(),
    ensures
        ({
            let cluster = config.clusters[i].1;
            &&& cluster.rac_version matches RacVersionView::Exact(version) ==> is_supported_version(
                version,
            )
            &&& text::trim(cluster.ras_host).len() > 0
            &&& cluster.ras_port != 0
            &&& text::trim(cluster.host).len() > 0
            &&& cluster.port != 0
        }),
{
    lemma_no_cluster_problem(config.clusters, config.clusters.len() as int, i);
}

/// The override of an identity is taken whatever the name says.
pub proof fn law_identity_override_wins(
    auth: model::InfobaseAuthView,
    uuid: u128,
    name: Seq<char>,
)
    requires
        exists|i: int| 0 <= i < auth.overrides.len() && #[trigger] auth.overrides[i].infobase_uuid
            == Some(uuid),
    ensures
        ({
            let at = model::entry_position(auth.overrides, Some(uuid), name);
            &&& 0 <= at < auth.overrides.len()
            &&& auth.overrides[at].infobase_uuid == Some(uuid)
            &&& auth.resolved(Some(uuid), name) == auth.overrides[at].auth
        }),
{
    lemma_entry_by_uuid_bounds(auth.overrides, uuid, 0);
    if model::entry_by_uuid(auth.overrides, uuid, 0) >= auth.overrides.len() {
        lemma_entry_by_uuid_miss(auth.overrides, uuid, 0);
    }
    lemma_entry_by_uuid_hit(auth.overrides, uuid, 0);
}

proof fn lemma_entry_by_uuid_hit(entries: Seq<EntryView>, uuid: u128, from: int)
    requires
        0 <= from <= entries.len(),
    ensures
        model::entry_by_uuid(entries, uuid, from) < entries.len() ==> entries[model::entry_by_uuid(
            entries,
            uuid,
            from,
        )].infobase_uuid == Some(uuid),
    decreases entries.len() - from,
{
    if from < entries.len() && entries[from].infobase_uuid != Some(uuid) {
        lemma_entry_by_uuid_hit(entries, uuid, from + 1);
    }
}

} // verus!
