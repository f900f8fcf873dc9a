//! What is settled before a command runs.

use vstd::prelude::*;
use vstd::string::*;

use crate::infrastructure::config::error::ConfigError;
use crate::infrastructure::config::model as config;
use crate::infrastructure::config::model::{
    AuthConfig, ClusterView, Config, CredentialView, EntryView, InfobaseAuthOverride,
};
use crate::infrastructure::telemetry::redaction;
use crate::infrastructure::telemetry::redaction::SecretRedactor;

verus! {

/// Secrets with the password of credentials, where they have one.
pub open spec fn with_password(secrets: Seq<Seq<char>>, auth: CredentialView) -> Seq<Seq<char>> {
    match auth {
        CredentialView::Password { password, .. } => redaction::registered(secrets, password),
        _ => secrets,
    }
}

/// Secrets with the passwords of the first `count` overrides.
pub open spec fn with_entries(
    secrets: Seq<Seq<char>>,
    overrides: Seq<EntryView>,
    count: int,
) -> Seq<Seq<char>>
    decreases count,
{
    if count <= 0 {
        secrets
    } else {
        with_password(with_entries(secrets, overrides, count - 1), overrides[count - 1].auth)
    }
}

/// Secrets with the passwords of a cluster.
pub open spec fn with_cluster(secrets: Seq<Seq<char>>, cluster: ClusterView) -> Seq<Seq<char>> {
    with_entries(
        with_password(
            with_password(secrets, cluster.cluster_auth),
            cluster.infobase_auth.default,
        ),
        cluster.infobase_auth.overrides,
        cluster.infobase_auth.overrides.len() as int,
    )
}

/// The passwords of the first `count` clusters.
pub open spec fn cluster_secrets(clusters: Seq<(Seq<char>, ClusterView)>, count: int) -> Seq<Seq<char>>
    decreases count,
{
    if count <= 0 {
        Seq::empty()
    } else {
        with_cluster(cluster_secrets(clusters, count - 1), clusters[count - 1].1)
    }
}

fn register_auth_secret(redactor: &mut SecretRedactor, auth: &AuthConfig)
    ensures
        final(redactor)@ == with_password(old(redactor)@, auth@),
{
    if let AuthConfig::Password(found) = auth {
        let _ = redactor.register_secret(found.password.expose_secret());
    }
}

fn register_override_secrets(redactor: &mut SecretRedactor, overrides: &Vec<InfobaseAuthOverride>)
    ensures
        final(redactor)@ == with_entries(
            old(redactor)@,
            config::entry_views(overrides@),
            overrides@.len() as int,
        ),
{
    let ghost before = redactor@;
    let ghost views = config::entry_views(overrides@);
    let mut i: usize = 0;
    while i < overrides.len()
        invariant
            i <= overrides.len(),
            views == config::entry_views(overrides@),
            redactor@ == with_entries(before, views, i as int),
        decreases overrides.len() - i,
    {
        assert(views[i as int] == overrides@[i as int]@);
        if let InfobaseAuthOverride::Password(found) = &overrides[i] {
            let _ = redactor.register_secret(found.password.expose_secret());
        }
        i = i + 1;
    }
}

/// A redactor that knows every password of a configuration.
pub fn redactor_from_config(config: &Config) -> (result: SecretRedactor)
    ensures
        result@ == cluster_secrets(config@.clusters, config@.clusters.len() as int),
{
    let mut redactor = SecretRedactor::new();
    let count: usize = config::clusters_len(&config.clusters);
    let ghost clusters = config@.clusters;
    let mut i: usize = 0;
    while i < count
        invariant
            i <= count,
            count == clusters.len(),
            clusters == config@.clusters,
            clusters == config::cluster_entries(config.clusters),
            redactor@ == cluster_secrets(clusters, i as int),
        decreases count - i,
    {
        if let Some((_, cluster)) = config::clusters_at(&config.clusters, i) {
            register_auth_secret(&mut redactor, &cluster.cluster_auth);
            register_auth_secret(&mut redactor, &cluster.infobase_auth.default);
            register_override_secrets(&mut redactor, &cluster.infobase_auth.overrides);
        }
        i = i + 1;
    }
    redactor
}

/// Whether credentials are known to secrets: their password is one of them, or they have none.
pub open spec fn is_known(secrets: Seq<Seq<char>>, auth: CredentialView) -> bool {
    auth matches CredentialView::Password { password, .. } ==> password.len() == 0
        || secrets.contains(password)
}

/// Whether all credentials of a cluster are known to secrets.
pub open spec fn knows_cluster(secrets: Seq<Seq<char>>, cluster: ClusterView) -> bool {
    &&& is_known(secrets, cluster.cluster_auth)
    &&& is_known(secrets, cluster.infobase_auth.default)
    &&& forall|i: int|
        0 <= i < cluster.infobase_auth.overrides.len() ==> is_known(
            secrets,
            (#[trigger] cluster.infobase_auth.overrides[i]).auth,
        )
}

proof fn lemma_with_password(secrets: Seq<Seq<char>>, auth: CredentialView, known: Seq<char>)
    requires
        redaction::longest_first(secrets),
    ensures
        redaction::longest_first(with_password(secrets, auth)),
        is_known(with_password(secrets, auth), auth),
        secrets.contains(known) ==> with_password(secrets, auth).contains(known),
{
    if let CredentialView::Password { password, .. } = auth {
        redaction::law_longest_secrets_come_first(secrets, password, known);
        redaction::law_longest_secrets_come_first(secrets, password, password);
    }
}

proof fn lemma_still_known(secrets: Seq<Seq<char>>, auth: CredentialView, earlier: CredentialView)
    requires
        redaction::longest_first(secrets),
        is_known(secrets, earlier),
    ensures
        is_known(with_password(secrets, auth), earlier),
{
    if let CredentialView::Password { password, .. } = earlier {
        lemma_with_password(secrets, auth, password);
    }
}

proof fn lemma_with_entries(
    secrets: Seq<Seq<char>>,
    overrides: Seq<EntryView>,
    count: int,
    earlier: CredentialView,
)
    requires
        redaction::longest_first(secrets),
        0 <= count <= overrides.len(),
    ensures
        redaction::longest_first(with_entries(secrets, overrides, count)),
        is_known(secrets, earlier) ==> is_known(with_entries(secrets, overrides, count), earlier),
        forall|i: int|
            0 <= i < count ==> is_known(
                with_entries(secrets, overrides, count),
                (#[trigger] overrides[i]).auth,
            ),
    decreases count,
{
    if count > 0 {
        let before = with_entries(secrets, overrides, count - 1);
        let last = overrides[count - 1].auth;
        lemma_with_entries(secrets, overrides, count - 1, earlier);
        lemma_with_password(before, last, Seq::empty());
        if is_known(before, earlier) {
            lemma_still_known(before, last, earlier);
        }
        assert forall|i: int| 0 <= i < count implies is_known(
            with_entries(secrets, overrides, count),
            (#[trigger] overrides[i]).auth,
        ) by {
            if i < count - 1 {
                lemma_still_known(before, last, overrides[i].auth);
            }
        }
    }
}

proof fn lemma_with_cluster(secrets: Seq<Seq<char>>, cluster: ClusterView, earlier: CredentialView)
    requires
        redaction::longest_first(secrets),
    ensures
        redaction::longest_first(with_cluster(secrets, cluster)),
        knows_cluster(with_cluster(secrets, cluster), cluster),
        is_known(secrets, earlier) ==> is_known(with_cluster(secrets, cluster), earlier),
{
    let first = cluster.cluster_auth;
    let second = cluster.infobase_auth.default;
    let overrides = cluster.infobase_auth.overrides;
    let one = with_password(secrets, first);
    let two = with_password(one, second);
    lemma_with_password(secrets, first, Seq::empty());
    lemma_with_password(one, second, Seq::empty());
    lemma_still_known(one, second, first);
    lemma_with_entries(two, overrides, overrides.len() as int, first);
    lemma_with_entries(two, overrides, overrides.len() as int, second);
    if is_known(secrets, earlier) {
        lemma_still_known(secrets, first, earlier);
        lemma_still_known(one, second, earlier);
        lemma_with_entries(two, overrides, overrides.len() as int, earlier);
    }
}

proof fn lemma_cluster_known(
    secrets: Seq<Seq<char>>,
    cluster: ClusterView,
    earlier: ClusterView,
)
    requires
        redaction::longest_first(secrets),
        knows_cluster(secrets, earlier),
    ensures
        knows_cluster(with_cluster(secrets, cluster), earlier),
{
    lemma_with_cluster(secrets, cluster, earlier.cluster_auth);
    lemma_with_cluster(secrets, cluster, earlier.infobase_auth.default);
    assert forall|i: int| 0 <= i < earlier.infobase_auth.overrides.len() implies is_known(
        with_cluster(secrets, cluster),
        (#[trigger] earlier.infobase_auth.overrides[i]).auth,
    ) by {
        lemma_with_cluster(secrets, cluster, earlier.infobase_auth.overrides[i].auth);
    }
}

/// Every password of a configuration is known to its redactor, which has the longest first.
pub proof fn law_every_password_is_known(clusters: Seq<(Seq<char>, ClusterView)>, count: int)
    requires
        0 <= count <= clusters.len(),
    ensures
        redaction::longest_first(cluster_secrets(clusters, count)),
        forall|i: int|
            0 <= i < count ==> knows_cluster(
                cluster_secrets(clusters, count),
                (#[trigger] clusters[i]).1,
            ),
    decreases count,
{
    if count > 0 {
        law_every_password_is_known(clusters, count - 1);
        let before = cluster_secrets(clusters, count - 1);
        lemma_with_cluster(before, clusters[count - 1].1, CredentialView::NoAuth);
        assert forall|i: int| 0 <= i < count implies knows_cluster(
            cluster_secrets(clusters, count),
            (#[trigger] clusters[i]).1,
        ) by {
            if i < count - 1 {
                lemma_cluster_known(before, clusters[count - 1].1, clusters[i].1);
            }
        }
    }
}

/// Whether a configuration that could not be read is to be made: only where there is none.
pub fn is_to_be_created(error: &ConfigError) -> (result: bool)
    ensures
        result == (*error is NotFound),
{
    match error {
        ConfigError::NotFound { .. } => true,
        _ => false,
    }
}

/// How long a command of the utility may take, in seconds: as the command line says, or as the
/// configuration does.
pub fn timeout_seconds(asked: Option<u64>, config: &Config) -> (result: u64)
    ensures
        result == (match asked {
            Some(seconds) => seconds,
            None => config@.settings.timeout_seconds,
        }),
{
    match asked {
        Some(seconds) => seconds,
        None => config.settings.timeout_seconds,
    }
}

} // verus!
