//! What a valid configuration is, and what a change makes of it: exactly what it names, and nothing else.

use vstd::prelude::*;
use vstd::string::*;

use crate::domain::entries;
use crate::domain::version::VersionView;
use crate::infrastructure::config::error::ConfigError;
use crate::infrastructure::config::model;
use crate::infrastructure::config::model::{
    ClusterView, ConfigView, CredentialView, EntryView, LogLevel, RacVersionView,
};
use crate::infrastructure::config::path::select_config_path;
use crate::infrastructure::config::store;
use crate::infrastructure::config::store::{
    lock_file_name, ChangeView, ClusterEntries, SelectorView,
};
use crate::infrastructure::config::validation;
use crate::infrastructure::path;
use crate::number;
use crate::text;

verus! {

/// A text that holds more than whitespace.
pub open spec fn is_given(s: Seq<char>) -> bool {
    text::trim(s).len() > 0
}

/// Credentials are complete: a user and a password, or a user and, where it is there, an account.
pub open spec fn is_complete(auth: CredentialView) -> bool {
    match auth {
        CredentialView::NoAuth => true,
        CredentialView::Password { user, password } => is_given(user) && is_given(password),
        CredentialView::Os { user, os_user } => is_given(user) && (os_user is Some ==> is_given(
            os_user->0,
        )),
    }
}

/// Overrides are sound: each names its infobase and is complete, and no two are for one infobase.
pub open spec fn are_sound(overrides: Seq<EntryView>) -> bool {
    &&& forall|i: int|
        0 <= i < overrides.len() ==> is_given((#[trigger] overrides[i]).infobase) && is_complete(
            overrides[i].auth,
        )
    &&& forall|i: int, j: int|
        0 <= i < j < overrides.len() ==> text::lowercase((#[trigger] overrides[i]).infobase)
            != text::lowercase((#[trigger] overrides[j]).infobase) && (overrides[j].infobase_uuid is Some
            ==> overrides[i].infobase_uuid != overrides[j].infobase_uuid)
}

/// A cluster is sound: it can be reached, its credentials are complete, and it asks for a copy of the
/// utility that can be had.
pub open spec fn is_sound(cluster: ClusterView) -> bool {
    &&& is_given(cluster.ras_host)
    &&& cluster.ras_port > 0
    &&& is_given(cluster.host)
    &&& cluster.port > 0
    &&& cluster.rac_path is Some ==> cluster.rac_path->0.len() > 0
    &&& cluster.rac_version matches RacVersionView::Exact(asked)
        ==> validation::is_supported_version(asked)
    &&& is_complete(cluster.cluster_auth)
    &&& is_complete(cluster.infobase_auth.default)
    &&& are_sound(cluster.infobase_auth.overrides)
}

/// A configuration is sound: of the one known schema, with a timeout, with sound clusters under aliases
/// that differ by more than ASCII case.
pub open spec fn is_valid(config: ConfigView) -> bool {
    &&& config.schema_version == 1
    &&& config.settings.timeout_seconds > 0
    &&& !(config.settings.log_level is Unsupported)
    &&& config.settings.rac_path is Some ==> config.settings.rac_path->0.len() > 0
    &&& forall|i: int|
        0 <= i < config.clusters.len() ==> validation::is_valid_alias(
            (#[trigger] config.clusters[i]).0,
        ) && is_sound(config.clusters[i].1)
    &&& forall|i: int, j: int|
        0 <= i < j < config.clusters.len() ==> !text::same_ignoring_ascii_case(
            (#[trigger] config.clusters[i]).0,
            (#[trigger] config.clusters[j]).0,
        )
}

proof fn lemma_by_name(overrides: Seq<EntryView>, name: Seq<char>, from: int)
    requires
        0 <= from <= overrides.len(),
    ensures
        ({
            let at = model::entry_by_name(overrides, name, from);
            &&& from <= at <= overrides.len()
            &&& at < overrides.len() ==> text::lowercase(overrides[at].infobase) == text::lowercase(
                name,
            )
            &&& forall|i: int|
                from <= i < at ==> text::lowercase((#[trigger] overrides[i]).infobase)
                    != text::lowercase(name)
        }),
    decreases overrides.len() - from,
{
    if from < overrides.len() && text::lowercase(overrides[from].infobase) != text::lowercase(
        name,
    ) {
        lemma_by_name(overrides, name, from + 1);
    }
}

proof fn lemma_by_identity(overrides: Seq<EntryView>, uuid: u128, from: int)
    requires
        0 <= from <= overrides.len(),
    ensures
        ({
            let at = model::entry_by_uuid(overrides, uuid, from);
            &&& from <= at <= overrides.len()
            &&& at < overrides.len() ==> overrides[at].infobase_uuid == Some(uuid)
            &&& forall|i: int|
                from <= i < at ==> (#[trigger] overrides[i]).infobase_uuid != Some(uuid)
        }),
    decreases overrides.len() - from,
{
    if from < overrides.len() && overrides[from].infobase_uuid != Some(uuid) {
        lemma_by_identity(overrides, uuid, from + 1);
    }
}

proof fn lemma_overrides(alias: Seq<char>, overrides: Seq<EntryView>, count: int)
    requires
        0 <= count <= overrides.len(),
    ensures
        validation::overrides_problem(alias, overrides, count) is None <==> are_sound(
            overrides.take(count),
        ),
    decreases count,
{
    let head = overrides.take(count);
    if count > 0 {
        lemma_overrides(alias, overrides, count - 1);
        let before = overrides.take(count - 1);
        let last = overrides[count - 1];
        assert(head.drop_last() =~= before);
        assert(head[count - 1] == last);
        lemma_by_name(before, last.infobase, 0);
        if last.infobase_uuid is Some {
            lemma_by_identity(before, last.infobase_uuid->0, 0);
        }
        if validation::overrides_problem(alias, overrides, count) is None {
            assert forall|i: int| 0 <= i < head.len() implies is_given(
                (#[trigger] head[i]).infobase,
            ) && is_complete(head[i].auth) by {
                if i < count - 1 {
                    assert(head[i] == before[i]);
                }
            }
            assert forall|i: int, j: int| 0 <= i < j < head.len() implies text::lowercase(
                (#[trigger] head[i]).infobase,
            ) != text::lowercase((#[trigger] head[j]).infobase) && (head[j].infobase_uuid is Some
                ==> head[i].infobase_uuid != head[j].infobase_uuid) by {
                assert(head[i] == before[i]);
                if j < count - 1 {
                    assert(head[j] == before[j]);
                }
            }
        }
        if are_sound(head) {
            assert forall|i: int| 0 <= i < before.len() implies is_given(
                (#[trigger] before[i]).infobase,
            ) && is_complete(before[i].auth) by {
                assert(head[i] == before[i]);
            }
            assert forall|i: int, j: int| 0 <= i < j < before.len() implies text::lowercase(
                (#[trigger] before[i]).infobase,
            ) != text::lowercase((#[trigger] before[j]).infobase) && (
            before[j].infobase_uuid is Some ==> before[i].infobase_uuid
                != before[j].infobase_uuid) by {
                assert(head[i] == before[i]);
                assert(head[j] == before[j]);
            }
            let named = model::entry_by_name(before, last.infobase, 0);
            if named < count - 1 {
                assert(head[named] == before[named]);
            }
            if last.infobase_uuid is Some {
                let known = model::entry_by_uuid(before, last.infobase_uuid->0, 0);
                if known < count - 1 {
                    assert(head[known] == before[known]);
                }
            }
        }
    }
}

proof fn lemma_cluster(alias: Seq<char>, cluster: ClusterView)
    ensures
        validation::cluster_problem(alias, cluster) is None <==> is_sound(cluster),
{
    let overrides = cluster.infobase_auth.overrides;
    lemma_overrides(alias, overrides, overrides.len() as int);
    assert(overrides.take(overrides.len() as int) =~= overrides);
}

proof fn lemma_clusters(clusters: ClusterEntries, count: int)
    requires
        0 <= count <= clusters.len(),
    ensures
        validation::clusters_problem(clusters, count) is None <==> {
            &&& forall|i: int|
                0 <= i < count ==> validation::is_valid_alias((#[trigger] clusters[i]).0) && is_sound(
                    clusters[i].1,
                )
            &&& forall|i: int, j: int|
                0 <= i < j < count ==> !text::same_ignoring_ascii_case(
                    (#[trigger] clusters[i]).0,
                    (#[trigger] clusters[j]).0,
                )
        },
    decreases count,
{
    if count > 0 {
        lemma_clusters(clusters, count - 1);
        let last = clusters[count - 1];
        let before = clusters.take(count - 1);
        lemma_cluster(last.0, last.1);
        validation::lemma_alias_position(before, last.0, 0);
        let at = validation::alias_position(before, last.0, 0);
        if at < count - 1 {
            assert(before[at] == clusters[at]);
            assert(text::same_ignoring_ascii_case(clusters[at].0, clusters[count - 1].0));
        } else {
            assert forall|i: int| 0 <= i < count - 1 implies !text::same_ignoring_ascii_case(
                (#[trigger] clusters[i]).0,
                last.0,
            ) by {
                assert(before[i] == clusters[i]);
            }
        }
    }
}

/// A configuration is accepted exactly where it is valid: of the known schema, with a timeout and a known
/// level of the log, with complete and reachable clusters, and without two names for one thing.
pub proof fn law_valid_configurations_are_accepted(config: ConfigView)
    ensures
        validation::config_problem(config) is None <==> is_valid(config),
{
    lemma_clusters(config.clusters, config.clusters.len() as int);
}

proof fn lemma_no_dot(value: u32)
    ensures
        !number::decimal(value as nat).contains('.'),
{
    number::lemma_decimal_round_trip(value as nat);
    let digits = number::decimal(value as nat);
    if digits.contains('.') {
        let i = choose|i: int| 0 <= i < digits.len() && digits[i] == '.';
        assert(text::is_digit(digits[i]));
    }
}

/// A version may be asked for exactly where it is an 8.3 with a third number of twenty or more.
pub proof fn law_supported_versions(found: VersionView)
    ensures
        validation::is_supported_version(found.text()) <==> found.major == 8 && found.minor == 3
            && found.patch >= 20,
{
    let a = number::decimal(found.major as nat);
    let b = number::decimal(found.minor as nat);
    let c = number::decimal(found.patch as nat);
    let d = number::decimal(found.build as nat);
    lemma_no_dot(found.major);
    lemma_no_dot(found.minor);
    lemma_no_dot(found.patch);
    lemma_no_dot(found.build);
    let max = u32::MAX as nat;
    number::lemma_unsigned_round_trip(found.major as nat, max);
    number::lemma_unsigned_round_trip(found.minor as nat, max);
    number::lemma_unsigned_round_trip(found.patch as nat, max);
    number::lemma_unsigned_round_trip(found.build as nat, max);
    reveal_strlit(".");
    assert("."@ =~= seq!['.']);
    let cd = c + seq!['.'] + d;
    let bcd = b + seq!['.'] + cd;
    assert(found.text() =~= a + seq!['.'] + bcd);
    text::lemma_split_head(a, '.', bcd);
    text::lemma_split_head(b, '.', cd);
    text::lemma_split_head(c, '.', d);
    text::lemma_split_single(d, '.');
    assert(text::split(found.text(), '.') =~= seq![a, b, c, d]);
}

/// A selector means an override: by the identity of its infobase, or by its name but for case.
pub open spec fn is_meant(selector: SelectorView, entry: EntryView) -> bool {
    ||| selector.infobase_uuid is Some && entry.infobase_uuid == selector.infobase_uuid
    ||| selector.infobase.len() > 0 && text::lowercase(entry.infobase) == text::lowercase(
        selector.infobase,
    )
}

/// Two clusters are the same but for their overrides.
pub open spec fn differ_in_overrides_alone(left: ClusterView, right: ClusterView) -> bool {
    &&& left.ras_host == right.ras_host
    &&& left.ras_port == right.ras_port
    &&& left.uuid == right.uuid
    &&& left.name == right.name
    &&& left.host == right.host
    &&& left.port == right.port
    &&& left.rac_path == right.rac_path
    &&& left.rac_version == right.rac_version
    &&& left.cluster_auth == right.cluster_auth
    &&& left.infobase_auth.default == right.infobase_auth.default
}

proof fn lemma_own_key(clusters: ClusterEntries, at: int)
    requires
        entries::distinct(clusters),
        0 <= at < clusters.len(),
    ensures
        entries::position(clusters, clusters[at].0, 0) == at,
{
    entries::lemma_position(clusters, clusters[at].0, 0);
    let p = entries::position(clusters, clusters[at].0, 0);
    if p < at {
        assert(clusters[p].0 != clusters[at].0);
    }
}

/// An override is added behind the others of the cluster that is named, and nothing else changes.
pub proof fn law_overrides_are_added_to_their_cluster(
    clusters: ClusterEntries,
    alias: Seq<char>,
    entry: EntryView,
    at: int,
)
    requires
        entries::distinct(clusters),
        0 <= at < clusters.len(),
        text::same_ignoring_ascii_case(clusters[at].0, alias),
        forall|i: int|
            0 <= i < at ==> !text::same_ignoring_ascii_case((#[trigger] clusters[i]).0, alias),
    ensures
        ({
            let change = ChangeView::AddOverride { cluster: alias, entry };
            let after = store::changed(clusters, change)->Ok_0.0;
            &&& store::changed(clusters, change) is Ok
            &&& after.len() == clusters.len()
            &&& after[at].0 == clusters[at].0
            &&& after[at].1.infobase_auth.overrides
                == clusters[at].1.infobase_auth.overrides.push(entry)
            &&& differ_in_overrides_alone(after[at].1, clusters[at].1)
            &&& forall|i: int|
                0 <= i < clusters.len() && i != at ==> #[trigger] after[i] == clusters[i]
        }),
{
    validation::lemma_alias_position(clusters, alias, 0);
    assert(validation::alias_position(clusters, alias, 0) == at);
    lemma_own_key(clusters, at);
}

/// An override is removed from the cluster that is named, and it is one that the selector means; the other
/// overrides stay in their order, and nothing else changes. There is one to remove wherever one is meant.
pub proof fn law_overrides_are_removed_from_their_cluster(
    clusters: ClusterEntries,
    alias: Seq<char>,
    selector: SelectorView,
    at: int,
)
    requires
        entries::distinct(clusters),
        0 <= at < clusters.len(),
        text::same_ignoring_ascii_case(clusters[at].0, alias),
        forall|i: int|
            0 <= i < at ==> !text::same_ignoring_ascii_case((#[trigger] clusters[i]).0, alias),
    ensures
        ({
            let change = ChangeView::RemoveOverride { cluster: alias, selector };
            let overrides = clusters[at].1.infobase_auth.overrides;
            let result = store::changed(clusters, change);
            &&& result is Ok <==> exists|i: int|
                0 <= i < overrides.len() && is_meant(selector, #[trigger] overrides[i])
            &&& result is Ok ==> {
                let after = result->Ok_0.0;
                &&& after.len() == clusters.len()
                &&& after[at].0 == clusters[at].0
                &&& differ_in_overrides_alone(after[at].1, clusters[at].1)
                &&& exists|i: int|
                    0 <= i < overrides.len() && is_meant(selector, #[trigger] overrides[i])
                        && after[at].1.infobase_auth.overrides == overrides.remove(i)
                &&& forall|i: int|
                    0 <= i < clusters.len() && i != at ==> #[trigger] after[i] == clusters[i]
            }
        }),
{
    let overrides = clusters[at].1.infobase_auth.overrides;
    validation::lemma_alias_position(clusters, alias, 0);
    assert(validation::alias_position(clusters, alias, 0) == at);
    lemma_own_key(clusters, at);
    if selector.infobase_uuid is Some {
        lemma_by_identity(overrides, selector.infobase_uuid->0, 0);
    }
    lemma_by_name(overrides, selector.infobase, 0);
    let index = selector.position(overrides);
    if index < overrides.len() {
        assert(is_meant(selector, overrides[index]));
    }
}

/// A cluster is added where no other goes by its alias, and is removed where one does; a change of a cluster
/// that is not there is refused.
pub proof fn law_changes_need_their_cluster(
    clusters: ClusterEntries,
    alias: Seq<char>,
    cluster: ClusterView,
    entry: EntryView,
)
    ensures
        ({
            let known = exists|i: int|
                0 <= i < clusters.len() && text::same_ignoring_ascii_case(
                    (#[trigger] clusters[i]).0,
                    alias,
                );
            &&& store::changed(clusters, ChangeView::AddCluster { alias, cluster }) is Ok <==> !known
            &&& store::changed(clusters, ChangeView::RemoveCluster { alias }) is Ok <==> known
            &&& store::changed(clusters, ChangeView::AddOverride { cluster: alias, entry }) is Ok
                <==> known
        }),
{
    validation::lemma_alias_position(clusters, alias, 0);
}

/// The configuration that the operator names goes before the one of the environment, and that one before
/// the one of the profile; an empty name is refused.
pub proof fn law_the_named_configuration_wins(
    named: Option<String>,
    variable: Option<String>,
    profile: Option<String>,
    result: Result<String, ConfigError>,
)
    requires
        call_ensures(select_config_path, (named, variable, profile), result),
    ensures
        named is Some && named->0@.len() > 0 ==> result is Ok && result->Ok_0@ == named->0@,
        named is Some && named->0@.len() == 0 ==> result is Err,
        named is None && variable is Some && variable->0@.len() > 0 ==> result is Ok
            && result->Ok_0@ == variable->0@,
        named is None && (variable is None || variable->0@.len() == 0) ==> {
            &&& result is Ok <==> profile is Some && profile->0@.len() > 0
            &&& result is Ok ==> "config.yaml"@.is_suffix_of(result->Ok_0@)
        },
{
    if result is Ok && named is None && (variable is None || variable->0@.len() == 0) {
        let whole = result->Ok_0@;
        let root = profile->0@;
        let name = "config.yaml"@;
        let middle = choose|middle: Seq<char>|
            #[trigger] path::is_joined(middle, root, "onecadmin"@) && path::is_joined(
                whole,
                middle,
                name,
            );
        assert(path::is_joined(whole, middle, name));
        if whole == middle + seq!['/'] + name || whole == middle + seq!['\\'] + name || whole == middle
            + name {
            assert(whole.subrange(whole.len() - name.len(), whole.len() as int) =~= name);
        }
    }
}

/// The file that is locked has the name of the configuration file with an ending of its own, so that it is
/// never the configuration itself.
pub proof fn law_the_lock_is_another_file(name: Option<&str>, result: Result<String, ConfigError>)
    requires
        call_ensures(lock_file_name, (name,), result),
    ensures
        result is Ok <==> name is Some && name->0@.len() > 0,
        result is Ok ==> result->Ok_0@ == name->0@ + ".lock"@ && result->Ok_0@ != name->0@,
{
    reveal_strlit(".lock");
}

/// A level of the log goes by its name in any case, and is read back from its own text.
pub proof fn law_levels_go_by_their_names(text: &str, level: LogLevel)
    requires
        call_ensures(LogLevel::from_yaml, (text,), level),
    ensures
        text::same_ignoring_ascii_case(text@, "TRACE"@) <==> level is Trace,
        text::same_ignoring_ascii_case(text@, "DEBUG"@) <==> level is Debug,
        text::same_ignoring_ascii_case(text@, "INFO"@) <==> level is Info,
        text::same_ignoring_ascii_case(text@, "WARN"@) || text::same_ignoring_ascii_case(
            text@,
            "WARNING"@,
        ) <==> level is Warn,
        text::same_ignoring_ascii_case(text@, "ERROR"@) <==> level is Error,
        level is Unsupported ==> level->Unsupported_0@ == text@,
{
    reveal_strlit("TRACE");
    reveal_strlit("DEBUG");
    reveal_strlit("INFO");
    reveal_strlit("WARN");
    reveal_strlit("WARNING");
    reveal_strlit("ERROR");
    assert(text::lower("TRACE"@)[0] == 't');
    assert(text::lower("DEBUG"@)[0] == 'd');
    assert(text::lower("INFO"@)[0] == 'i');
    assert(text::lower("WARN"@)[0] == 'w');
    assert(text::lower("WARNING"@)[0] == 'w');
    assert(text::lower("ERROR"@)[0] == 'e');
}

/// A level is shown by its name.
pub proof fn law_levels_are_shown_by_their_names(level: LogLevel, text: &str)
    requires
        call_ensures(LogLevel::as_str, (&level,), text),
    ensures
        level is Trace ==> text@ == "TRACE"@,
        level is Debug ==> text@ == "DEBUG"@,
        level is Info ==> text@ == "INFO"@,
        level is Warn ==> text@ == "WARN"@,
        level is Error ==> text@ == "ERROR"@,
{
}

} // verus!
