//! Which targets a request is for, what a target says of itself, and what is made of the answers of
//! several targets.


use vstd::prelude::*;
use vstd::string::*;

use crate::application::conversion;
use crate::application::conversion::{
    ApplicationConfigSnapshot, ConfiguredTarget, ConfiguredView, RacOptions,
};
use crate::application::error;
use crate::application::error::{AppError, AppProblem};
use crate::application::normalize;
use crate::application::normalize::Fields;
use crate::application::ports::{PortError, PortErrorKind, PortProblem};
use crate::domain::field_value::{FieldValue, ValueView};
use crate::domain::fields::{FieldRegistry, FilterOperator};
use crate::domain::identity;
use crate::domain::mask;
use crate::domain::mask::SqlMask;
use crate::domain::model::{
    ClusterSource, DiscoveredCluster, DiscoveredView, RecordKind, SourceView,
};
use crate::domain::outcome::{TargetError, TargetErrorKind, TargetProblem};
use crate::domain::query;
use crate::domain::query::{Filter, QuerySpec, QuerySpecView};
use crate::infrastructure::rac::error::{RacError, RacErrorView};
use crate::infrastructure::rac::locator::{SearchPolicy, SearchPolicyView};
use crate::infrastructure::rac::parser::RacRecord;
use crate::number;
use crate::outcome;
use crate::text;

verus! {

/// Which clusters a request is for: all of them, or those that an alias or a mask names.
pub struct ClusterSelector {
    source: Option<String>,
    mask: Option<SqlMask>,
}

impl View for ClusterSelector {
    type V = Option<Seq<char>>;

    closed spec fn view(&self) -> Option<Seq<char>> {
        outcome::option_view(self.source)
    }
}

/// The selector that a text gives.
pub open spec fn selector_of(value: Option<Seq<char>>) -> Result<Option<Seq<char>>, AppProblem> {
    match value {
        None => Ok(None),
        Some(value) => if value.len() == 0 {
            Err(
                AppProblem::invalid(
                    "invalid_cluster_selector"@,
                    "Маска или alias кластера не может быть пустой"@,
                ),
            )
        } else {
            match mask::mask_of(value) {
                Err(error) => Err(AppProblem::of_domain(error)),
                Ok(_) => Ok(Some(value)),
            }
        },
    }
}

impl ClusterSelector {
    #[verifier::type_invariant]
    spec fn well_formed(self) -> bool {
        outcome::option_view(self.source) == outcome::option_view(self.mask)
    }

    pub fn all() -> (result: Self)
        ensures
            result@ is None,
    {
        ClusterSelector { source: None, mask: None }
    }

    pub fn parse(value: Option<&str>) -> (result: Result<Self, AppError>)
        ensures
            outcome::result_view(result) == selector_of(outcome::option_view(value)),
    {
        match value {
            None => Ok(ClusterSelector::all()),
            Some(value) => {
                if value.is_empty() {
                    return Err(
                        AppError::invalid(
                            "invalid_cluster_selector",
                            "Маска или alias кластера не может быть пустой",
                        ),
                    );
                }
                match SqlMask::parse(value) {
                    Ok(found) => Ok(
                        ClusterSelector { source: Some(value.to_owned()), mask: Some(found) },
                    ),
                    Err(error) => Err(AppError::from_domain(&error)),
                }
            },
        }
    }

    pub fn source(&self) -> (result: Option<&str>)
        ensures
            outcome::option_view(result) == self@,
    {
        match &self.source {
            Some(source) => Some(source.as_str()),
            None => None,
        }
    }

    pub fn is_all(&self) -> (result: bool)
        ensures
            result == (self@ is None),
    {
        self.source.is_none()
    }
}

impl Default for ClusterSelector {
    fn default() -> (result: Self)
        ensures
            result@ is None,
    {
        ClusterSelector::all()
    }
}

impl Clone for ClusterSelector {
    fn clone(&self) -> (result: Self)
        ensures
            result@ == self@,
    {
        proof {
            use_type_invariant(self);
        }
        let source = match &self.source {
            Some(source) => Some(source.clone()),
            None => None,
        };
        let copied = match &self.mask {
            Some(found) => Some(found.clone()),
            None => None,
        };
        ClusterSelector { source, mask: copied }
    }
}

/// The targets that a mask covers, in order.
pub open spec fn covered(targets: Seq<ConfiguredView>, source: Seq<char>) -> Seq<ConfiguredView> {
    targets.filter(|target: ConfiguredView| mask::mask_matches(source, target.target.alias))
}

pub open spec fn unknown_cluster(source: Seq<char>) -> AppProblem {
    AppProblem::invalid(
        "cluster_not_found"@,
        if mask::wildcards(mask::mask_tokens(source)->Ok_0) {
            "Маска кластера `"@ + source + "` не выбрала ни одной цели"@
        } else {
            "Кластер с alias `"@ + source + "` не найден"@
        },
    )
}

/// The targets that a selector chooses. An alias that exists wins over the mask that its text is,
/// since `_` is a letter of aliases too.
pub open spec fn selection(targets: Seq<ConfiguredView>, selector: Option<Seq<char>>) -> Result<
    Seq<ConfiguredView>,
    AppProblem,
> {
    match selector {
        None => Ok(targets),
        Some(source) => {
            let at = conversion::target_position(targets, source, 0);
            if at < targets.len() {
                Ok(seq![targets[at]])
            } else if covered(targets, source).len() == 0 {
                Err(unknown_cluster(source))
            } else {
                Ok(covered(targets, source))
            }
        },
    }
}

fn clone_targets(targets: &Vec<ConfiguredTarget>) -> (result: Vec<ConfiguredTarget>)
    ensures
        conversion::configured_views(result@) == conversion::configured_views(targets@),
{
    let mut result: Vec<ConfiguredTarget> = Vec::new();
    let mut i: usize = 0;
    while i < targets.len()
        invariant
            i <= targets.len(),
            result@.len() == i,
            forall|j: int| 0 <= j < i ==> (#[trigger] result@[j])@ == targets@[j]@,
        decreases targets.len() - i,
    {
        result.push(targets[i].clone());
        i = i + 1;
    }
    assert(conversion::configured_views(result@) =~= conversion::configured_views(targets@));
    result
}

fn covered_targets(targets: &Vec<ConfiguredTarget>, found: &SqlMask) -> (result: Vec<
    ConfiguredTarget,
>)
    ensures
        conversion::configured_views(result@) == covered(conversion::configured_views(targets@), found@),
{
    let ghost views = conversion::configured_views(targets@);
    let ghost keep = |target: ConfiguredView| mask::mask_matches(found@, target.target.alias);
    let mut result: Vec<ConfiguredTarget> = Vec::new();
    let mut i: usize = 0;
    assert(views.take(0).filter(keep) =~= Seq::<ConfiguredView>::empty());
    assert(conversion::configured_views(result@) =~= Seq::<ConfiguredView>::empty());
    while i < targets.len()
        invariant
            i <= targets.len(),
            views == conversion::configured_views(targets@),
            keep == (|target: ConfiguredView| mask::mask_matches(found@, target.target.alias)),
            conversion::configured_views(result@) == views.take(i as int).filter(keep),
        decreases targets.len() - i,
    {
        proof {
            assert(views.take(i + 1) =~= views.take(i as int).push(views[i as int]));
            views.take(i as int).lemma_filter_push(views[i as int], keep);
            assert(views[i as int] == targets@[i as int]@);
        }
        if found.matches(targets[i].target.alias.as_str()) {
            let ghost before = conversion::configured_views(result@);
            result.push(targets[i].clone());
            assert(conversion::configured_views(result@) =~= before.push(views[i as int]));
        }
        i = i + 1;
    }
    assert(views.take(views.len() as int) =~= views);
    result
}

/// The targets that a selector chooses.
pub fn select_configured_targets(
    snapshot: &ApplicationConfigSnapshot,
    selector: &ClusterSelector,
) -> (result: Result<Vec<ConfiguredTarget>, AppError>)
    ensures
        match result {
            Ok(targets) => selection(snapshot@.targets, selector@) == Ok::<_, AppProblem>(
                conversion::configured_views(targets@),
            ),
            Err(error) => selection(snapshot@.targets, selector@) == Err::<
                Seq<ConfiguredView>,
                _,
            >(error@),
        },
{
    proof {
        use_type_invariant(selector);
    }
    let source = match &selector.source {
        Some(source) => source,
        None => {
            return Ok(clone_targets(&snapshot.targets));
        },
    };
    let at: usize = conversion::find_target(&snapshot.targets, source.as_str());
    if at < snapshot.targets.len() {
        let mut exact: Vec<ConfiguredTarget> = Vec::new();
        exact.push(snapshot.targets[at].clone());
        assert(conversion::configured_views(exact@) =~= seq![snapshot@.targets[at as int]]);
        return Ok(exact);
    }
    match &selector.mask {
        Some(found) => {
            let selected = covered_targets(&snapshot.targets, found);
            if selected.len() == 0 {
                let mut message = if found.has_wildcards() {
                    "Маска кластера `".to_owned()
                } else {
                    "Кластер с alias `".to_owned()
                };
                message.push_str(source.as_str());
                if found.has_wildcards() {
                    message.push_str("` не выбрала ни одной цели");
                } else {
                    message.push_str("` не найден");
                }
                Err(AppError::invalid("cluster_not_found", message.as_str()))
            } else {
                Ok(selected)
            }
        },
        None => Ok(clone_targets(&snapshot.targets)),
    }
}

/// An alias that exists chooses its own target alone, whatever its text would cover as a mask.
pub proof fn law_exact_alias_wins(targets: Seq<ConfiguredView>, at: int, source: Seq<char>)
    requires
        0 <= at < targets.len(),
        text::same_ignoring_ascii_case(targets[at].target.alias, source),
        forall|i: int|
            0 <= i < at ==> !text::same_ignoring_ascii_case(
                (#[trigger] targets[i]).target.alias,
                source,
            ),
    ensures
        selection(targets, Some(source)) == Ok::<_, AppProblem>(seq![targets[at]]),
{
    lemma_position_reaches(targets, source, 0, at);
}

proof fn lemma_position_reaches(
    targets: Seq<ConfiguredView>,
    source: Seq<char>,
    from: int,
    at: int,
)
    requires
        0 <= from <= at < targets.len(),
        text::same_ignoring_ascii_case(targets[at].target.alias, source),
        forall|i: int|
            0 <= i < at ==> !text::same_ignoring_ascii_case(
                (#[trigger] targets[i]).target.alias,
                source,
            ),
    ensures
        conversion::target_position(targets, source, from) == at,
    decreases at - from,
{
    if from < at {
        assert(!text::same_ignoring_ascii_case(targets[from].target.alias, source));
        lemma_position_reaches(targets, source, from + 1, at);
    }
}

/// A selector never chooses nothing where it succeeds on a configuration with targets.
pub proof fn law_selection_is_not_empty(targets: Seq<ConfiguredView>, selector: Option<Seq<char>>)
    requires
        targets.len() > 0,
    ensures
        selection(targets, selector) is Ok ==> selection(targets, selector)->Ok_0.len() > 0,
{
}

pub fn ensure_not_cancelled(cancelled: bool) -> (result: Result<(), AppError>)
    ensures
        match result {
            Ok(()) => !cancelled,
            Err(error) => cancelled && error@ == AppProblem::cancelled(),
        },
{
    if cancelled {
        Err(AppError::cancelled())
    } else {
        Ok(())
    }
}

/// The query of a request: its own, or the default one of the kind.
pub open spec fn query_for(kind: RecordKind, asked: Option<QuerySpecView>) -> Result<
    QuerySpecView,
    AppProblem,
> {
    match asked {
        None => Ok(query::default_query(kind)),
        Some(found) => if found.kind != kind {
            Err(
                AppProblem::invalid(
                    "query_kind_mismatch"@,
                    "Запрос типа `"@ + found.kind.text()
                        + "` нельзя применить к записям типа `"@ + kind.text() + "`"@,
                ),
            )
        } else {
            Ok(found)
        },
    }
}

/// The query of a request: its own, or the default one of the kind.
pub fn resolved_query_spec(
    kind: RecordKind,
    asked: &Option<QuerySpec>,
    registry: &FieldRegistry,
) -> (result: Result<QuerySpec, AppError>)
    ensures
        outcome::result_view(result) == query_for(kind, outcome::option_view(*asked)),
{
    match asked {
        None => match QuerySpec::new(kind, registry) {
            Ok(found) => Ok(found),
            Err(error) => Err(AppError::from_domain(&error)),
        },
        Some(found) => {
            if found.kind() != kind {
                let mut message = "Запрос типа `".to_owned();
                message.push_str(found.kind().as_str());
                message.push_str("` нельзя применить к записям типа `");
                message.push_str(kind.as_str());
                message.push_str("`");
                return Err(AppError::invalid("query_kind_mismatch", message.as_str()));
            }
            Ok(found.clone())
        },
    }
}

/// A query with one more condition, where there is a value for it.
pub open spec fn narrowed(
    asked: Result<QuerySpecView, AppProblem>,
    field: Seq<char>,
    operator: FilterOperator,
    value: Option<ValueView>,
) -> Result<QuerySpecView, AppProblem> {
    match (asked, value) {
        (Ok(found), Some(value)) => match query::typed_filter(found.kind, field, operator, value) {
            Err(error) => Err(AppProblem::of_domain(error)),
            Ok(filter) => Ok(QuerySpecView { filters: found.filters.push(filter), ..found }),
        },
        (unchanged, _) => unchanged,
    }
}

/// A query with one more condition, where there is a value for it.
pub(crate) fn narrow(
    asked: Result<QuerySpec, AppError>,
    field: &str,
    operator: FilterOperator,
    value: Option<FieldValue>,
    registry: &FieldRegistry,
) -> (result: Result<QuerySpec, AppError>)
    ensures
        outcome::result_view(result) == narrowed(
            outcome::result_view(asked),
            field@,
            operator,
            outcome::option_view(value),
        ),
{
    let mut found = match asked {
        Ok(found) => found,
        Err(error) => {
            return Err(error);
        },
    };
    let value = match value {
        Some(value) => value,
        None => {
            return Ok(found);
        },
    };
    let filter = match Filter::from_value(found.kind(), field, operator, value, registry) {
        Ok(filter) => filter,
        Err(error) => {
            return Err(AppError::from_domain(&error));
        },
    };
    match found.push_filter(filter) {
        Ok(()) => Ok(found),
        Err(error) => Err(AppError::from_domain(&error)),
    }
}

/// A condition on the text of a mask.
pub open spec fn mask_value(found: Option<Seq<char>>) -> Option<ValueView> {
    match found {
        Some(source) => Some(ValueView::Str(source)),
        None => None,
    }
}

pub(crate) fn mask_operand(found: &Option<SqlMask>) -> (result: Option<FieldValue>)
    ensures
        outcome::option_view(result) == mask_value(outcome::option_view(*found)),
{
    match found {
        Some(found) => Some(FieldValue::Str(found.source().to_owned())),
        None => None,
    }
}

/// Whether a request's own query narrows what it is for.
pub open spec fn query_narrows(asked: Option<QuerySpecView>) -> bool {
    asked is Some && (asked->0.filters.len() > 0 || asked->0.text_query is Some)
}

pub(crate) fn asked_query_narrows(asked: &Option<QuerySpec>) -> (result: bool)
    ensures
        result == query_narrows(outcome::option_view(*asked)),
{
    match asked {
        Some(found) => found.filters().len() > 0 || found.text_query().is_some(),
        None => false,
    }
}

/// What the operator is told of a problem behind the services.
pub open spec fn told_port(problem: PortProblem) -> AppProblem {
    match problem.kind {
        PortErrorKind::Conflict | PortErrorKind::NotFound | PortErrorKind::Configuration => {
            AppProblem::invalid(problem.code, problem.message)
        },
        PortErrorKind::Internal => AppProblem::internal(problem.code, problem.message),
    }
}

/// What the operator is told of a problem behind the services.
pub fn config_port_error(error: &PortError) -> (result: AppError)
    ensures
        result@ == told_port(error@),
{
    match error.kind {
        PortErrorKind::Conflict | PortErrorKind::NotFound | PortErrorKind::Configuration => {
            AppError::config(error.code, error.message.as_str())
        },
        PortErrorKind::Internal => AppError::internal(error.code, error.message.as_str()),
    }
}

/// A target that answered: its cluster, where its records come from, and how it is reached.
pub struct LiveCluster {
    pub cluster: DiscoveredCluster,
    pub source: ClusterSource,
    pub search_policy: SearchPolicy,
}

pub struct LiveView {
    pub cluster: DiscoveredView,
    pub source: SourceView,
    pub search_policy: SearchPolicyView,
}

impl View for LiveCluster {
    type V = LiveView;

    open spec fn view(&self) -> LiveView {
        LiveView {
            cluster: self.cluster@,
            source: self.source@,
            search_policy: self.search_policy@,
        }
    }
}

pub open spec fn record_views(records: Seq<RacRecord>) -> Seq<Fields> {
    records.map_values(|record: RacRecord| record@)
}

/// The records of an answer, or the failure of the command.
pub open spec fn reply_view(reply: Result<Vec<RacRecord>, RacError>) -> Result<
    Seq<Fields>,
    RacErrorView,
> {
    match reply {
        Ok(records) => Ok(record_views(records@)),
        Err(error) => Err(error@),
    }
}

/// A failure of a target.
pub open spec fn target_failure(
    configured: ConfiguredView,
    kind: TargetErrorKind,
    message: Seq<char>,
) -> TargetProblem {
    TargetProblem {
        cluster: configured.target.alias,
        ras_address: configured.target.ras,
        kind,
        message,
    }
}

/// A target whose command failed.
pub open spec fn command_failure(configured: ConfiguredView, error: RacErrorView) -> TargetProblem {
    target_failure(configured, error::target_kind(error.kind), error.text())
}

/// A target whose answer cannot be used.
pub open spec fn bad_answer(configured: ConfiguredView, message: Seq<char>) -> TargetProblem {
    target_failure(configured, TargetErrorKind::InvalidResponse, message)
}

pub(crate) fn fail_target(configured: &ConfiguredTarget, kind: TargetErrorKind, message: &str) -> (result:
    TargetError)
    ensures
        result@ == target_failure(configured@, kind, message@),
{
    TargetError::new(
        configured.target.alias.clone(),
        configured.target.ras.clone(),
        kind,
        message,
    )
}

pub(crate) fn fail_command(configured: &ConfiguredTarget, error: &RacError) -> (result: TargetError)
    ensures
        result@ == command_failure(configured@, error@),
{
    error::target_error_from_rac(
        configured.target.alias.clone(),
        configured.target.ras.clone(),
        error,
    )
}

/// How a target is asked for its cluster: with the search of the utility that the operator may have
/// named it to, unless the request was cancelled.
pub fn live_cluster_policy(configured: &ConfiguredTarget, options: &RacOptions, cancelled: bool) -> (result:
    Result<SearchPolicy, TargetError>)
    ensures
        outcome::result_view(result) == (if cancelled {
            Err(
                target_failure(configured@, TargetErrorKind::Cancelled, "Операция отменена"@),
            )
        } else {
            Ok(configured@.policy_with(outcome::option_view(options.explicit_path)))
        }),
{
    if cancelled {
        return Err(fail_target(configured, TargetErrorKind::Cancelled, "Операция отменена"));
    }
    Ok(configured.effective_search_policy(options))
}

/// What a target says of its cluster: exactly one, readable, and the one that was configured.
pub open spec fn live_of(
    configured: ConfiguredView,
    policy: SearchPolicyView,
    reply: Result<Seq<Fields>, RacErrorView>,
) -> Result<LiveView, TargetProblem> {
    match reply {
        Err(error) => Err(command_failure(configured, error)),
        Ok(records) => if records.len() != 1 {
            Err(
                bad_answer(
                    configured,
                    "RAS должен вернуть ровно один кластер, получено: "@ + number::decimal(
                        records.len(),
                    ),
                ),
            )
        } else {
            match normalize::cluster_of(records[0]) {
                Err(problem) => Err(
                    bad_answer(configured, problem.code + ": "@ + problem.message),
                ),
                Ok((uuid, name, host, port)) => {
                    let expected = configured.target.discovered_cluster.uuid;
                    if uuid != expected {
                        Err(
                            bad_answer(
                                configured,
                                "RAS вернул другой кластер: ожидался UUID "@
                                    + identity::uuid_text(expected) + ", получен "@
                                    + identity::uuid_text(uuid),
                            ),
                        )
                    } else {
                        Ok(
                            LiveView {
                                cluster: DiscoveredView {
                                    uuid,
                                    name,
                                    host,
                                    port,
                                    extra: normalize::cluster_reader(records[0]).finished(),
                                },
                                source: SourceView {
                                    cluster: configured.target.alias,
                                    cluster_uuid: uuid,
                                    cluster_name: name,
                                    ras_address: configured.target.ras,
                                },
                                search_policy: policy,
                            },
                        )
                    }
                },
            }
        },
    }
}

/// What a target says of its cluster.
pub fn live_cluster(
    configured: &ConfiguredTarget,
    policy: SearchPolicy,
    reply: &Result<Vec<RacRecord>, RacError>,
) -> (result: Result<LiveCluster, TargetError>)
    ensures
        outcome::result_view(result) == live_of(configured@, policy@, reply_view(*reply)),
{
    let records = match reply {
        Ok(records) => records,
        Err(error) => {
            return Err(fail_command(configured, error));
        },
    };
    if records.len() != 1 {
        let mut message = "RAS должен вернуть ровно один кластер, получено: ".to_owned();
        message.push_str(number::format_u64(records.len() as u64).as_str());
        return Err(
            fail_target(configured, TargetErrorKind::InvalidResponse, message.as_str()),
        );
    }
    assert(record_views(records@)[0] == records@[0]@);
    let cluster = match normalize::normalize_cluster(&records[0]) {
        Ok(cluster) => cluster,
        Err(error) => {
            return Err(
                fail_target(
                    configured,
                    TargetErrorKind::InvalidResponse,
                    error.to_text().as_str(),
                ),
            );
        },
    };
    let expected = configured.target.discovered_cluster.uuid;
    if !cluster.uuid.same(expected) {
        let mut message = "RAS вернул другой кластер: ожидался UUID ".to_owned();
        message.push_str(expected.to_text().as_str());
        message.push_str(", получен ");
        message.push_str(cluster.uuid.to_text().as_str());
        return Err(
            fail_target(configured, TargetErrorKind::InvalidResponse, message.as_str()),
        );
    }
    let source = ClusterSource::new(
        configured.target.alias.clone(),
        cluster.uuid,
        cluster.name.as_str(),
        configured.target.ras.clone(),
    );
    Ok(LiveCluster { cluster, source, search_policy: policy })
}

/// A target that answered is the cluster that was configured, and its records are told by its alias.
pub proof fn law_live_cluster_is_the_configured_one(
    configured: ConfiguredView,
    policy: SearchPolicyView,
    reply: Result<Seq<Fields>, RacErrorView>,
)
    requires
        live_of(configured, policy, reply) is Ok,
    ensures
        ({
            let live = live_of(configured, policy, reply)->Ok_0;
            &&& live.cluster.uuid == configured.target.discovered_cluster.uuid
            &&& live.source.cluster_uuid == live.cluster.uuid
            &&& live.source.cluster == configured.target.alias
            &&& live.source.ras_address == configured.target.ras
            &&& live.search_policy == policy
        }),
{
}

} // verus!
