//! Overrides of credentials for single infobases.

use vstd::prelude::*;
use vstd::string::*;

use crate::application::clusters;
use crate::application::conversion;
use crate::application::conversion::{ApplicationConfigSnapshot, ApplicationView};
use crate::application::error::{AppError, AppProblem};
use crate::application::targets;
use crate::domain::auth::{AuthConfig, AuthView};
use crate::domain::identity::InfobaseUuid;
use crate::domain::model;
use crate::domain::model::{ClusterTarget, InfobaseAuthOverride, OverrideView};
use crate::domain::timestamp::Timestamp;
use crate::domain::value;
use crate::domain::value::ClusterAlias;
use crate::infrastructure::config::model as config;
use crate::infrastructure::config::model::EntryView;
use crate::infrastructure::config::store::{OverrideSelector, SelectorView};
use crate::infrastructure::telemetry::audit::{AuditContext, AuditEvent, ContextView};
use crate::infrastructure::telemetry::audit_actions;
use crate::outcome;
use crate::text;

verus! {

/// An override to be added.
pub struct CredentialOverrideAddRequest {
    pub cluster: ClusterAlias,
    pub entry: InfobaseAuthOverride,
}

/// Which override is to be removed.
#[derive(Debug, PartialEq, Eq)]
pub enum CredentialOverrideSelector {
    Uuid(InfobaseUuid),
    Name(String),
}

pub enum CredentialSelectorView {
    Uuid(u128),
    Name(Seq<char>),
}

impl View for CredentialOverrideSelector {
    type V = CredentialSelectorView;

    open spec fn view(&self) -> CredentialSelectorView {
        match self {
            CredentialOverrideSelector::Uuid(uuid) => CredentialSelectorView::Uuid(uuid@),
            CredentialOverrideSelector::Name(name) => CredentialSelectorView::Name(name@),
        }
    }
}

impl CredentialSelectorView {
    /// Whether an override is meant.
    pub open spec fn means(self, item: OverrideView) -> bool {
        match self {
            CredentialSelectorView::Uuid(uuid) => item.infobase_uuid == Some(uuid),
            CredentialSelectorView::Name(name) => item.infobase is Some && text::lowercase(
                item.infobase->0,
            ) == text::lowercase(name),
        }
    }

    /// The position of the first override that is meant, from `from` on, or the length.
    pub open spec fn position(self, overrides: Seq<OverrideView>, from: int) -> int
        decreases overrides.len() - from,
    {
        if from >= overrides.len() {
            overrides.len() as int
        } else if self.means(overrides[from]) {
            from
        } else {
            self.position(overrides, from + 1)
        }
    }

    /// The same selector as the configuration understands it.
    pub open spec fn stored(self) -> SelectorView {
        match self {
            CredentialSelectorView::Uuid(uuid) => SelectorView {
                infobase_uuid: Some(uuid),
                infobase: Seq::empty(),
            },
            CredentialSelectorView::Name(name) => SelectorView {
                infobase_uuid: None,
                infobase: name,
            },
        }
    }
}

impl CredentialOverrideSelector {
    pub fn by_name(name: &str) -> (result: Result<Self, AppError>)
        ensures
            outcome::result_view(result) == (if name@.len() == 0 {
                Err(
                    AppProblem::invalid(
                        "invalid_override_selector"@,
                        "Имя информационной базы для удаления переопределения учетных данных не может быть пустым"@,
                    ),
                )
            } else {
                Ok(CredentialSelectorView::Name(name@))
            }),
    {
        if name.is_empty() {
            return Err(
                AppError::invalid(
                    "invalid_override_selector",
                    "Имя информационной базы для удаления переопределения учетных данных не может быть пустым",
                ),
            );
        }
        Ok(CredentialOverrideSelector::Name(name.to_owned()))
    }

    pub fn by_uuid(uuid: InfobaseUuid) -> (result: Self)
        ensures
            result@ == CredentialSelectorView::Uuid(uuid@),
    {
        CredentialOverrideSelector::Uuid(uuid)
    }

    /// The same selector as the configuration understands it.
    pub fn infrastructure_selector(&self) -> (result: OverrideSelector)
        ensures
            result@ == self@.stored(),
    {
        match self {
            CredentialOverrideSelector::Uuid(uuid) => OverrideSelector::by_uuid(uuid.into_uuid()),
            CredentialOverrideSelector::Name(name) => OverrideSelector::by_name(name.as_str()),
        }
    }

    fn matches(&self, item: &InfobaseAuthOverride) -> (result: bool)
        ensures
            result == self@.means(item@),
    {
        match self {
            CredentialOverrideSelector::Uuid(uuid) => match item.infobase_uuid() {
                Some(candidate) => candidate.same(*uuid),
                None => false,
            },
            CredentialOverrideSelector::Name(name) => match item.infobase() {
                Some(candidate) => text::same(
                    text::to_lowercase(candidate).as_str(),
                    text::to_lowercase(name.as_str()).as_str(),
                ),
                None => false,
            },
        }
    }
}

/// An override to be removed.
pub struct CredentialOverrideRemoveRequest {
    pub cluster: ClusterAlias,
    pub selector: CredentialOverrideSelector,
}

#[derive(Clone, Copy, Debug, PartialEq, Eq, Structural)]
pub enum CredentialMutation {
    Added,
    Removed,
}

/// An override that was added or removed.
pub struct CredentialWriteOutcome {
    pub cluster: ClusterTarget,
    pub entry: InfobaseAuthOverride,
    pub mutation: CredentialMutation,
    pub config_path: String,
}

pub open spec fn unknown_cluster(alias: Seq<char>) -> AppProblem {
    AppProblem::invalid("cluster_not_found"@, "Кластер с alias `"@ + alias + "` не найден"@)
}

fn cluster_not_found(alias: &ClusterAlias) -> (result: AppError)
    ensures
        result@ == unknown_cluster(alias@),
{
    let mut message = "Кластер с alias `".to_owned();
    message.push_str(alias.as_str());
    message.push_str("` не найден");
    AppError::invalid("cluster_not_found", message.as_str())
}

/// The overrides of the cluster that an alias names.
pub open spec fn overrides_of(alias: Seq<char>, view: ApplicationView) -> Result<
    Seq<OverrideView>,
    AppProblem,
> {
    match value::alias_of(alias) {
        Err(error) => Err(AppProblem::of_domain(error)),
        Ok(alias) => match view.target(alias) {
            None => Err(unknown_cluster(alias)),
            Some(configured) => Ok(configured.target.infobase_auth.overrides),
        },
    }
}

/// The overrides of the cluster that an alias names.
pub fn credential_overrides<'a>(cluster: &str, snapshot: &'a ApplicationConfigSnapshot) -> (result:
    Result<&'a Vec<InfobaseAuthOverride>, AppError>)
    ensures
        match result {
            Ok(overrides) => overrides_of(cluster@, snapshot@) == Ok::<_, AppProblem>(
                model::override_views(overrides@),
            ),
            Err(error) => overrides_of(cluster@, snapshot@) == Err::<Seq<OverrideView>, _>(error@),
        },
{
    let alias = match ClusterAlias::new(cluster) {
        Ok(alias) => alias,
        Err(error) => {
            return Err(AppError::from_domain(&error));
        },
    };
    match snapshot.target(&alias) {
        Some(configured) => Ok(configured.target.infobase_auth.overrides()),
        None => Err(cluster_not_found(&alias)),
    }
}

/// Why an override cannot be added.
pub open spec fn add_problem(
    alias: Seq<char>,
    view: ApplicationView,
    cancelled: bool,
) -> Option<AppProblem> {
    if view.target(alias) is None {
        Some(unknown_cluster(alias))
    } else if cancelled {
        Some(AppProblem::cancelled())
    } else {
        None
    }
}

/// Checks that an override can be added.
pub fn check_override_add(
    request: &CredentialOverrideAddRequest,
    snapshot: &ApplicationConfigSnapshot,
    cancelled: bool,
) -> (result: Result<(), AppError>)
    ensures
        match add_problem(request.cluster@, snapshot@, cancelled) {
            Some(problem) => result is Err && result->Err_0@ == problem,
            None => result is Ok,
        },
{
    if snapshot.target(&request.cluster).is_none() {
        return Err(cluster_not_found(&request.cluster));
    }
    targets::ensure_not_cancelled(cancelled)
}

fn find_override(overrides: &Vec<InfobaseAuthOverride>, selector: &CredentialOverrideSelector) -> (result:
    usize)
    ensures
        result == selector@.position(model::override_views(overrides@), 0),
        result <= overrides@.len(),
{
    let ghost views = model::override_views(overrides@);
    let mut i: usize = 0;
    while i < overrides.len()
        invariant
            i <= overrides.len(),
            views == model::override_views(overrides@),
            selector@.position(views, 0) == selector@.position(views, i as int),
        decreases overrides.len() - i,
    {
        assert(views[i as int] == overrides@[i as int]@);
        if selector.matches(&overrides[i]) {
            return i;
        }
        i = i + 1;
    }
    i
}

/// The override that is to be removed, or why it cannot be.
pub open spec fn removed_entry(
    alias: Seq<char>,
    selector: CredentialSelectorView,
    view: ApplicationView,
    cancelled: bool,
) -> Result<OverrideView, AppProblem> {
    match view.target(alias) {
        None => Err(unknown_cluster(alias)),
        Some(configured) => {
            let overrides = configured.target.infobase_auth.overrides;
            let at = selector.position(overrides, 0);
            if at >= overrides.len() {
                Err(
                    AppProblem::invalid(
                        "credential_override_not_found"@,
                        "Переопределение учетных данных не найдено"@,
                    ),
                )
            } else if cancelled {
                Err(AppProblem::cancelled())
            } else {
                Ok(overrides[at])
            }
        },
    }
}

/// Finds the override that is to be removed.
pub fn check_override_remove(
    request: &CredentialOverrideRemoveRequest,
    snapshot: &ApplicationConfigSnapshot,
    cancelled: bool,
) -> (result: Result<InfobaseAuthOverride, AppError>)
    ensures
        outcome::result_view(result) == removed_entry(
            request.cluster@,
            request.selector@,
            snapshot@,
            cancelled,
        ),
{
    let target = match snapshot.target(&request.cluster) {
        Some(target) => target,
        None => {
            return Err(cluster_not_found(&request.cluster));
        },
    };
    let overrides = target.target.infobase_auth.overrides();
    let at: usize = find_override(overrides, &request.selector);
    if at >= overrides.len() {
        return Err(
            AppError::invalid(
                "credential_override_not_found",
                "Переопределение учетных данных не найдено",
            ),
        );
    }
    assert(model::override_views(overrides@)[at as int] == overrides@[at as int]@);
    if cancelled {
        return Err(AppError::cancelled());
    }
    Ok(overrides[at].clone())
}

/// What is told where a written configuration lacks the cluster that was changed.
pub open spec fn lost_cluster(mutation: CredentialMutation) -> AppProblem {
    AppProblem::internal(
        "config_write_invariant"@,
        match mutation {
            CredentialMutation::Added => {
                "Кластер отсутствует после записи переопределения учетных данных"@
            },
            CredentialMutation::Removed => {
                "Кластер отсутствует после удаления переопределения учетных данных"@
            },
        },
    )
}

/// What was changed, as the written configuration shows it.
pub fn finish_override(
    cluster: &ClusterAlias,
    entry: InfobaseAuthOverride,
    mutation: CredentialMutation,
    stored: Result<ApplicationConfigSnapshot, AppError>,
) -> (result: Result<CredentialWriteOutcome, AppError>)
    ensures
        match stored {
            Err(error) => result == Err::<CredentialWriteOutcome, AppError>(error),
            Ok(snapshot) => match snapshot@.target(cluster@) {
                None => result is Err && result->Err_0@ == lost_cluster(mutation),
                Some(configured) => {
                    &&& result is Ok
                    &&& result->Ok_0.cluster@ == configured.target
                    &&& result->Ok_0.entry == entry
                    &&& result->Ok_0.mutation == mutation
                    &&& result->Ok_0.config_path@ == snapshot@.path
                },
            },
        },
{
    let snapshot = match stored {
        Ok(snapshot) => snapshot,
        Err(error) => {
            return Err(error);
        },
    };
    match snapshot.target(cluster) {
        Some(configured) => Ok(
            CredentialWriteOutcome {
                cluster: configured.target.clone(),
                entry,
                mutation,
                config_path: snapshot.path.clone(),
            },
        ),
        None => Err(
            AppError::internal(
                "config_write_invariant",
                match mutation {
                    CredentialMutation::Added => {
                        "Кластер отсутствует после записи переопределения учетных данных"
                    },
                    CredentialMutation::Removed => {
                        "Кластер отсутствует после удаления переопределения учетных данных"
                    },
                },
            ),
        ),
    }
}

/// An override that stands for a selector in the records.
pub open spec fn placeholder(selector: CredentialSelectorView) -> Result<OverrideView, AppProblem> {
    conversion::told(
        match selector {
            CredentialSelectorView::Uuid(uuid) => model::override_of(
                None,
                Some(uuid),
                AuthView::NoAuth,
            ),
            CredentialSelectorView::Name(name) => model::override_of(
                Some(name),
                None,
                AuthView::NoAuth,
            ),
        },
    )
}

/// An override that stands for a selector in the records.
pub fn placeholder_entry(selector: &CredentialOverrideSelector) -> (result: Result<
    InfobaseAuthOverride,
    AppError,
>)
    ensures
        outcome::result_view(result) == placeholder(selector@),
{
    let made = match selector {
        CredentialOverrideSelector::Uuid(uuid) => InfobaseAuthOverride::new(
            None,
            Some(*uuid),
            AuthConfig::none(),
        ),
        CredentialOverrideSelector::Name(name) => InfobaseAuthOverride::new(
            Some(name.clone()),
            None,
            AuthConfig::none(),
        ),
    };
    match made {
        Ok(entry) => Ok(entry),
        Err(error) => Err(AppError::from_domain(&error)),
    }
}

/// The context in which a change of an override is recorded.
pub open spec fn override_context(
    alias: Seq<char>,
    cluster_uuid: Option<u128>,
    entry: OverrideView,
    mutation: CredentialMutation,
) -> ContextView {
    ContextView {
        cluster_alias: Some(alias),
        cluster_uuid,
        infobase_name: entry.infobase,
        infobase_uuid: entry.infobase_uuid,
        reason: Some(
            match mutation {
                CredentialMutation::Added => "add"@,
                CredentialMutation::Removed => "remove"@,
            },
        ),
        ..ContextView::nothing()
    }
}

/// The record of a change of an override.
pub fn audit_credential_change(
    timestamp: Timestamp,
    windows_user: &str,
    cluster: &ClusterAlias,
    entry: &InfobaseAuthOverride,
    mutation: CredentialMutation,
    result: &Result<CredentialWriteOutcome, AppError>,
) -> (event: AuditEvent)
    ensures
        event@ == clusters::action_event(
            timestamp,
            windows_user@,
            audit_actions::CREDENTIAL_OVERRIDE_CHANGE@,
            override_context(
                cluster@,
                match *result {
                    Ok(changed) => Some(changed.cluster.discovered_cluster.uuid@),
                    Err(_) => None,
                },
                entry@,
                mutation,
            ),
            (match *result {
                Ok(_) => None,
                Err(error) => Some(error@),
            }),
        ),
{
    let mut context = AuditContext::default();
    context.cluster_alias = Some(cluster.as_str().to_owned());
    context.infobase_name = match entry.infobase() {
        Some(name) => Some(name.to_owned()),
        None => None,
    };
    context.infobase_uuid = match entry.infobase_uuid() {
        Some(uuid) => Some(uuid.into_uuid()),
        None => None,
    };
    context.reason = Some(
        match mutation {
            CredentialMutation::Added => "add".to_owned(),
            CredentialMutation::Removed => "remove".to_owned(),
        },
    );
    match result {
        Ok(changed) => {
            context.cluster_uuid = Some(changed.cluster.discovered_cluster.uuid.into_uuid());
            clusters::audit_action(
                timestamp,
                windows_user,
                audit_actions::CREDENTIAL_OVERRIDE_CHANGE,
                context,
                None,
            )
        },
        Err(error) => clusters::audit_action(
            timestamp,
            windows_user,
            audit_actions::CREDENTIAL_OVERRIDE_CHANGE,
            context,
            Some(error),
        ),
    }
}

proof fn lemma_same_position(
    entries: Seq<EntryView>,
    overrides: Seq<OverrideView>,
    selector: CredentialSelectorView,
    from: int,
)
    requires
        entries.len() == overrides.len(),
        forall|i: int|
            0 <= i < entries.len() ==> (#[trigger] overrides[i]).infobase == Some(
                entries[i].infobase,
            ) && overrides[i].infobase_uuid == entries[i].infobase_uuid,
        0 <= from <= entries.len(),
    ensures
        selector.position(overrides, from) == (match selector {
            CredentialSelectorView::Uuid(uuid) => config::entry_by_uuid(entries, uuid, from),
            CredentialSelectorView::Name(name) => config::entry_by_name(entries, name, from),
        }),
    decreases entries.len() - from,
{
    if from < entries.len() {
        assert(overrides[from].infobase == Some(entries[from].infobase));
        lemma_same_position(entries, overrides, selector, from + 1);
    }
}

proof fn lemma_read_keeps_names(entries: Seq<EntryView>, count: int)
    requires
        0 <= count <= entries.len(),
        conversion::read_overrides(entries, count) is Ok,
    ensures
        ({
            let overrides = conversion::read_overrides(entries, count)->Ok_0;
            &&& overrides.len() == count
            &&& forall|i: int|
                0 <= i < count ==> (#[trigger] overrides[i]).infobase == Some(entries[i].infobase)
                    && overrides[i].infobase_uuid == entries[i].infobase_uuid
        }),
    decreases count,
{
    if count > 0 {
        lemma_read_keeps_names(entries, count - 1);
    }
}

/// The override that the operator is told of is the one that the configuration removes.
pub proof fn law_the_shown_override_is_removed(
    entries: Seq<EntryView>,
    selector: CredentialSelectorView,
)
    requires
        conversion::read_overrides(entries, entries.len() as int) is Ok,
        selector is Name ==> selector->Name_0.len() > 0,
    ensures
        selector.position(
            conversion::read_overrides(entries, entries.len() as int)->Ok_0,
            0,
        ) == selector.stored().position(entries),
{
    let overrides = conversion::read_overrides(entries, entries.len() as int)->Ok_0;
    lemma_read_keeps_names(entries, entries.len() as int);
    lemma_same_position(entries, overrides, selector, 0);
    match selector {
        CredentialSelectorView::Uuid(uuid) => {
            lemma_uuid_in_range(entries, uuid, 0);
        },
        CredentialSelectorView::Name(_) => {},
    }
}

proof fn lemma_uuid_in_range(entries: Seq<EntryView>, uuid: u128, from: int)
    requires
        0 <= from <= entries.len(),
    ensures
        config::entry_by_uuid(entries, uuid, from) <= entries.len(),
    decreases entries.len() - from,
{
    if from < entries.len() {
        lemma_uuid_in_range(entries, uuid, from + 1);
    }
}

} // verus!
