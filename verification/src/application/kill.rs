//! Carrying out an action on many targets: target by target within a cluster, with an outcome for
//! each.

use vstd::prelude::*;
use vstd::string::*;

use crate::application::conversion;
use crate::application::conversion::{ConfiguredTarget, ConfiguredView};
use crate::application::outcome::{
    ActionError, ActionItemOutcome, ActionOutcome, ActionProblem, ActionStatus, ItemView,
};
use crate::application::targets;
use crate::domain::identity::ClusterUuid;
use crate::domain::kill::{ConnectionKillTarget, ProcessKillTarget, SessionKillTarget};
use crate::domain::outcome::TargetError;
use crate::domain::value::ClusterAlias;
use crate::infrastructure::rac::error::{RacError, RacErrorKind, RacErrorView};
use crate::infrastructure::rac::parser::RacRecord;
use crate::infrastructure::telemetry::audit::AuditResult;
use crate::order;
use crate::order::Order;
use crate::outcome;
use crate::text;

verus! {

/// Something in a cluster that an action is done to.
pub trait KillTarget: Sized {
    spec fn alias_view(&self) -> Seq<char>;

    spec fn cluster_view(&self) -> u128;

    fn alias(&self) -> (result: &ClusterAlias)
        ensures
            result@ == self.alias_view(),
    ;

    fn cluster(&self) -> (result: ClusterUuid)
        ensures
            result@ == self.cluster_view(),
    ;

    fn duplicate(&self) -> (result: Self)
        ensures
            result == *self,
    ;
}

impl KillTarget for SessionKillTarget {
    open spec fn alias_view(&self) -> Seq<char> {
        self.cluster@
    }

    open spec fn cluster_view(&self) -> u128 {
        self.cluster_uuid@
    }

    fn alias(&self) -> (result: &ClusterAlias) {
        &self.cluster
    }

    fn cluster(&self) -> (result: ClusterUuid) {
        self.cluster_uuid
    }

    fn duplicate(&self) -> (result: Self) {
        self.clone()
    }
}

impl KillTarget for ConnectionKillTarget {
    open spec fn alias_view(&self) -> Seq<char> {
        self.cluster@
    }

    open spec fn cluster_view(&self) -> u128 {
        self.cluster_uuid@
    }

    fn alias(&self) -> (result: &ClusterAlias) {
        &self.cluster
    }

    fn cluster(&self) -> (result: ClusterUuid) {
        self.cluster_uuid
    }

    fn duplicate(&self) -> (result: Self) {
        self.clone()
    }
}

impl KillTarget for ProcessKillTarget {
    open spec fn alias_view(&self) -> Seq<char> {
        self.cluster@
    }

    open spec fn cluster_view(&self) -> u128 {
        self.cluster_uuid@
    }

    fn alias(&self) -> (result: &ClusterAlias) {
        &self.cluster
    }

    fn cluster(&self) -> (result: ClusterUuid) {
        self.cluster_uuid
    }

    fn duplicate(&self) -> (result: Self) {
        self.clone()
    }
}

/// Targets in order of their clusters: by alias without regard to ASCII case, then by identity.
pub open spec fn cluster_order<T: KillTarget>(left: T, right: T) -> Order {
    let by_alias = order::compare_text(
        text::lower(left.alias_view()),
        text::lower(right.alias_view()),
    );
    if by_alias != Order::Equal {
        by_alias
    } else {
        order::compare_int(left.cluster_view() as int, right.cluster_view() as int)
    }
}

fn compare_clusters<T: KillTarget>(left: &T, right: &T) -> (result: Order)
    ensures
        result == cluster_order(*left, *right),
{
    let by_alias = left.alias().compare(right.alias());
    if by_alias != Order::Equal {
        return by_alias;
    }
    order::compare_u128(
        left.cluster().into_uuid().as_u128(),
        right.cluster().into_uuid().as_u128(),
    )
}

proof fn lemma_cluster_order<T: KillTarget>(a: T, b: T, c: T)
    ensures
        cluster_order(b, a) == cluster_order(a, b).flipped(),
        cluster_order(a, a) == Order::Equal,
        cluster_order(a, b) == Order::Equal && cluster_order(b, c) == Order::Equal ==> cluster_order(
            a,
            c,
        ) == Order::Equal,
        cluster_order(a, b) == Order::Less && cluster_order(b, c) != Order::Greater
            ==> cluster_order(a, c) == Order::Less,
        cluster_order(a, b) != Order::Greater && cluster_order(b, c) == Order::Less
            ==> cluster_order(a, c) == Order::Less,
{
    let x = text::lower(a.alias_view());
    let y = text::lower(b.alias_view());
    let z = text::lower(c.alias_view());
    order::lemma_compare_text_flips(x, y);
    order::lemma_compare_text_flips(x, x);
    order::lemma_compare_text_flips(y, z);
    order::lemma_compare_text_flips(x, z);
    if order::compare_text(x, y) != Order::Greater && order::compare_text(y, z) != Order::Greater {
        order::lemma_compare_text_transitive(x, y, z);
    }
}

pub type Groups = Seq<Seq<usize>>;

pub open spec fn group_views(groups: Seq<Vec<usize>>) -> Groups {
    groups.map_values(|group: Vec<usize>| group@)
}

/// Whether a position stands in a group.
pub open spec fn in_group(groups: Groups, g: int, at: int) -> bool {
    0 <= g < groups.len() && exists|k: int| 0 <= k < groups[g].len() && #[trigger] groups[g][k] == at
}

/// Whether a position stands in some group.
pub open spec fn is_placed(groups: Groups, at: int) -> bool {
    exists|g: int| #[trigger] in_group(groups, g, at)
}

/// Whether groups hold the first `count` targets, those of one cluster together and in their order,
/// the clusters in theirs.
pub open spec fn is_grouping<T: KillTarget>(groups: Groups, targets: Seq<T>, count: int) -> bool {
    &&& forall|g: int| 0 <= g < groups.len() ==> (#[trigger] groups[g]).len() > 0
    &&& forall|g: int, k: int|
        #![trigger groups[g][k]]
        0 <= g < groups.len() && 0 <= k < groups[g].len() ==> groups[g][k] < count && cluster_order(
            targets[groups[g][0] as int],
            targets[groups[g][k] as int],
        ) == Order::Equal
    &&& forall|g: int, k: int, l: int|
        #![trigger groups[g][k], groups[g][l]]
        0 <= g < groups.len() && 0 <= k < l < groups[g].len() ==> groups[g][k] < groups[g][l]
    &&& forall|g: int, h: int|
        #![trigger groups[g], groups[h]]
        0 <= g < h < groups.len() ==> cluster_order(
            targets[groups[g][0] as int],
            targets[groups[h][0] as int],
        ) == Order::Less
    &&& forall|at: int| 0 <= at < count ==> #[trigger] is_placed(groups, at)
}

/// A target whose cluster has a group joins it.
proof fn lemma_join<T: KillTarget>(groups: Groups, targets: Seq<T>, i: usize, p: int)
    requires
        i < targets.len(),
        is_grouping(groups, targets, i as int),
        0 <= p < groups.len(),
        cluster_order(targets[groups[p][0] as int], targets[i as int]) == Order::Equal,
    ensures
        is_grouping(groups.update(p, groups[p].push(i)), targets, i + 1),
{
    let after = groups.update(p, groups[p].push(i));
    assert forall|g: int| 0 <= g < after.len() implies (#[trigger] after[g]).len() > 0 by {
        assert(groups[g].len() > 0);
    }
    assert forall|g: int, k: int|
        #![trigger after[g][k]]
        0 <= g < after.len() && 0 <= k < after[g].len() implies after[g][k] < i + 1
        && cluster_order(targets[after[g][0] as int], targets[after[g][k] as int])
        == Order::Equal by {
        assert(groups[g].len() > 0);
        assert(after[g][0] == groups[g][0]);
        if k < groups[g].len() {
            assert(after[g][k] == groups[g][k]);
        }
    }
    assert forall|g: int, k: int, l: int|
        #![trigger after[g][k], after[g][l]]
        0 <= g < after.len() && 0 <= k < l < after[g].len() implies after[g][k] < after[g][l] by {
        assert(after[g][k] == groups[g][k]);
        assert(groups[g][k] < i);
        if l < groups[g].len() {
            assert(after[g][l] == groups[g][l]);
        }
    }
    assert forall|g: int, h: int|
        #![trigger after[g], after[h]]
        0 <= g < h < after.len() implies cluster_order(
        targets[after[g][0] as int],
        targets[after[h][0] as int],
    ) == Order::Less by {
        assert(groups[g].len() > 0 && groups[h].len() > 0);
        assert(after[g][0] == groups[g][0]);
        assert(after[h][0] == groups[h][0]);
    }
    assert forall|at: int| 0 <= at < i + 1 implies #[trigger] is_placed(after, at) by {
        if at < i {
            assert(is_placed(groups, at));
            let g = choose|g: int| #[trigger] in_group(groups, g, at);
            let k = choose|k: int| 0 <= k < groups[g].len() && #[trigger] groups[g][k] == at;
            assert(after[g][k] == at);
            assert(in_group(after, g, at));
        } else {
            assert(after[p][groups[p].len() as int] == at);
            assert(in_group(after, p, at));
        }
    }
}

/// A target whose cluster has no group opens one in its place.
proof fn lemma_open<T: KillTarget>(groups: Groups, targets: Seq<T>, i: usize, p: int)
    requires
        i < targets.len(),
        is_grouping(groups, targets, i as int),
        0 <= p <= groups.len(),
        forall|g: int|
            0 <= g < p ==> cluster_order(
                targets[(#[trigger] groups[g])[0] as int],
                targets[i as int],
            ) == Order::Less,
        forall|g: int|
            p <= g < groups.len() ==> cluster_order(
                targets[i as int],
                targets[(#[trigger] groups[g])[0] as int],
            ) == Order::Less,
    ensures
        is_grouping(groups.insert(p, seq![i]), targets, i + 1),
{
    let after = groups.insert(p, seq![i]);
    lemma_cluster_order(targets[i as int], targets[i as int], targets[i as int]);
    assert forall|g: int| 0 <= g < after.len() implies #[trigger] after[g] == (if g < p {
        groups[g]
    } else if g == p {
        seq![i]
    } else {
        groups[g - 1]
    }) by {}
    assert forall|g: int, k: int|
        #![trigger after[g][k]]
        0 <= g < after.len() && 0 <= k < after[g].len() implies after[g][k] < i + 1
        && cluster_order(targets[after[g][0] as int], targets[after[g][k] as int])
        == Order::Equal by {
        let old_g = if g < p { g } else { g - 1 };
        if g != p {
            assert(after[g] == groups[old_g]);
            assert(groups[old_g][k] < i);
        }
    }
    assert forall|g: int, k: int, l: int|
        #![trigger after[g][k], after[g][l]]
        0 <= g < after.len() && 0 <= k < l < after[g].len() implies after[g][k] < after[g][l] by {
        let old_g = if g < p { g } else { g - 1 };
        if g != p {
            assert(after[g] == groups[old_g]);
            assert(groups[old_g][k] < groups[old_g][l]);
        }
    }
    assert forall|g: int, h: int|
        #![trigger after[g], after[h]]
        0 <= g < h < after.len() implies cluster_order(
        targets[after[g][0] as int],
        targets[after[h][0] as int],
    ) == Order::Less by {
        let old_g = if g < p { g } else { g - 1 };
        let old_h = if h < p { h } else { h - 1 };
        if g != p && h != p {
            assert(after[g] == groups[old_g] && after[h] == groups[old_h]);
        } else if g == p {
            assert(after[h] == groups[old_h]);
        } else {
            assert(after[g] == groups[old_g]);
        }
    }
    assert forall|at: int| 0 <= at < i + 1 implies #[trigger] is_placed(after, at) by {
        if at < i {
            assert(is_placed(groups, at));
            let g = choose|g: int| #[trigger] in_group(groups, g, at);
            let k = choose|k: int| 0 <= k < groups[g].len() && #[trigger] groups[g][k] == at;
            let new_g = if g < p { g } else { g + 1 };
            assert(after[new_g] == groups[g]);
            assert(after[new_g][k] == at);
            assert(in_group(after, new_g, at));
        } else {
            assert(after[p][0] == at);
            assert(in_group(after, p, at));
        }
    }
}

/// The first group whose cluster does not come before that of a target.
fn group_place<T: KillTarget>(groups: &Vec<Vec<usize>>, targets: &Vec<T>, i: usize) -> (result: usize)
    requires
        i < targets@.len(),
        is_grouping(group_views(groups@), targets@, i as int),
    ensures
        result <= groups@.len(),
        forall|g: int|
            0 <= g < result ==> cluster_order(
                targets@[(#[trigger] group_views(groups@)[g])[0] as int],
                targets@[i as int],
            ) == Order::Less,
        result < groups@.len() ==> cluster_order(
            targets@[group_views(groups@)[result as int][0] as int],
            targets@[i as int],
        ) != Order::Less,
{
    let ghost views = group_views(groups@);
    let mut place: usize = 0;
    while place < groups.len()
        invariant
            place <= groups.len(),
            i < targets@.len(),
            views == group_views(groups@),
            is_grouping(views, targets@, i as int),
            forall|g: int|
                0 <= g < place ==> cluster_order(
                    targets@[(#[trigger] views[g])[0] as int],
                    targets@[i as int],
                ) == Order::Less,
        decreases groups.len() - place,
    {
        assert(views[place as int] == groups@[place as int]@);
        assert(views[place as int].len() > 0);
        assert(views[place as int][0] < i);
        let head: usize = groups[place][0];
        if compare_clusters(&targets[head], &targets[i]) != Order::Less {
            return place;
        }
        place = place + 1;
    }
    place
}

/// Parts targets by cluster. A group lists positions of targets.
pub fn group_targets<T: KillTarget>(targets: &Vec<T>) -> (result: Vec<Vec<usize>>)
    ensures
        is_grouping(group_views(result@), targets@, targets@.len() as int),
{
    let mut groups: Vec<Vec<usize>> = Vec::new();
    let mut i: usize = 0;
    while i < targets.len()
        invariant
            i <= targets.len(),
            is_grouping(group_views(groups@), targets@, i as int),
        decreases targets.len() - i,
    {
        let ghost before = group_views(groups@);
        let place: usize = group_place(&groups, targets, i);
        let mut joins = false;
        if place < groups.len() {
            assert(before[place as int] == groups@[place as int]@);
            assert(before[place as int].len() > 0);
            assert(before[place as int][0] < i);
            let head: usize = groups[place][0];
            joins = compare_clusters(&targets[head], &targets[i]) == Order::Equal;
        }
        if joins {
            let mut group = groups.remove(place);
            assert(group@ == before[place as int]);
            group.push(i);
            groups.insert(place, group);
            assert(group_views(groups@) =~= before.update(
                place as int,
                before[place as int].push(i),
            ));
            proof {
                lemma_join(before, targets@, i, place as int);
            }
        } else {
            let mut group: Vec<usize> = Vec::new();
            group.push(i);
            groups.insert(place, group);
            assert(group@ =~= seq![i]);
            assert(group_views(groups@) =~= before.insert(place as int, seq![i]));
            proof {
                lemma_behind(before, targets@, i, place as int);
                lemma_open(before, targets@, i, place as int);
            }
        }
        i = i + 1;
    }
    groups
}

/// Where a target comes before the cluster of one group, it comes before those of all behind it.
proof fn lemma_behind<T: KillTarget>(groups: Groups, targets: Seq<T>, i: usize, p: int)
    requires
        i < targets.len(),
        is_grouping(groups, targets, i as int),
        0 <= p <= groups.len(),
        p < groups.len() ==> cluster_order(targets[groups[p][0] as int], targets[i as int])
            == Order::Greater,
    ensures
        forall|g: int|
            p <= g < groups.len() ==> cluster_order(
                targets[i as int],
                targets[(#[trigger] groups[g])[0] as int],
            ) == Order::Less,
{
    assert forall|g: int| p <= g < groups.len() implies cluster_order(
        targets[i as int],
        targets[(#[trigger] groups[g])[0] as int],
    ) == Order::Less by {
        let target = targets[i as int];
        let here = targets[groups[p][0] as int];
        let there = targets[groups[g][0] as int];
        lemma_cluster_order(here, target, there);
        lemma_cluster_order(target, here, there);
        if p < g {
            assert(cluster_order(here, there) == Order::Less);
        }
    }
}

/// The position of the configured cluster that a target belongs to, from `from` on, or the length: the
/// alias and the identity must both be the same.
pub open spec fn home_position<T: KillTarget>(
    configured: Seq<ConfiguredView>,
    target: T,
    from: int,
) -> int
    decreases configured.len() - from,
{
    if from >= configured.len() {
        configured.len() as int
    } else if text::same_ignoring_ascii_case(
        configured[from].target.alias,
        target.alias_view(),
    ) && configured[from].target.discovered_cluster.uuid == target.cluster_view() {
        from
    } else {
        home_position(configured, target, from + 1)
    }
}

/// The configured cluster that a target belongs to.
pub fn home_cluster<'a, T: KillTarget>(configured: &'a Vec<ConfiguredTarget>, target: &T) -> (result:
    Option<&'a ConfiguredTarget>)
    ensures
        ({
            let views = conversion::configured_views(configured@);
            let at = home_position(views, *target, 0);
            outcome::option_view(result) == (if at < views.len() {
                Some(views[at])
            } else {
                None
            })
        }),
{
    let ghost views = conversion::configured_views(configured@);
    let mut i: usize = 0;
    while i < configured.len()
        invariant
            i <= configured.len(),
            views == conversion::configured_views(configured@),
            home_position(views, *target, 0) == home_position(views, *target, i as int),
        decreases configured.len() - i,
    {
        assert(views[i as int] == configured@[i as int]@);
        if text::eq_ignore_ascii_case(
            configured[i].target.alias.as_str(),
            target.alias().as_str(),
        ) && configured[i].target.discovered_cluster.uuid.same(target.cluster()) {
            return Some(&configured[i]);
        }
        i = i + 1;
    }
    None
}

pub open spec fn snapshot_mismatch() -> ActionProblem {
    ActionProblem {
        code: "cluster_snapshot_mismatch"@,
        message: "Кластер отсутствует или изменился после создания снимка"@,
    }
}

/// The failure of all targets whose cluster is not configured any more.
pub fn mismatch_error() -> (result: ActionError)
    ensures
        result@ == snapshot_mismatch(),
{
    ActionError::new(
        "cluster_snapshot_mismatch",
        "Кластер отсутствует или изменился после создания снимка",
    )
}

/// The failure of all targets whose cluster cannot be reached.
pub fn unreachable_error(error: &TargetError) -> (result: ActionError)
    ensures
        result@ == (ActionProblem { code: error@.kind.text(), message: error@.message }),
{
    ActionError::new(error.code(), error.message.as_str())
}

/// What a command did to a target.
pub open spec fn effect<T>(target: T, failure: Option<RacErrorView>) -> ItemView<T> {
    match failure {
        None => ItemView::succeeded(target),
        Some(error) => if error.kind == RacErrorKind::Cancelled {
            ItemView::cancelled(target)
        } else {
            ItemView::failed(
                target,
                ActionProblem { code: error.kind.text(), message: error.text() },
            )
        },
    }
}

/// The work on one group of targets, one target after the other. Each outcome is recorded before the
/// next target is taken up.
pub struct GroupRun<T> {
    targets: Vec<(usize, T)>,
    failure: Option<ActionError>,
    pending: Option<ActionItemOutcome<T>>,
    done: Vec<(usize, ActionItemOutcome<T>)>,
}

pub struct GroupView<T> {
    pub targets: Seq<(usize, T)>,
    /// Why none of the targets can be acted on, where that is so.
    pub failure: Option<ActionProblem>,
    /// The outcome that is not recorded yet.
    pub pending: Option<ItemView<T>>,
    pub done: Seq<(usize, ItemView<T>)>,
}

pub open spec fn done_views<T>(done: Seq<(usize, ActionItemOutcome<T>)>) -> Seq<(usize, ItemView<T>)> {
    done.map_values(|entry: (usize, ActionItemOutcome<T>)| (entry.0, entry.1@))
}

impl<T> View for GroupRun<T> {
    type V = GroupView<T>;

    closed spec fn view(&self) -> GroupView<T> {
        GroupView {
            targets: self.targets@,
            failure: outcome::option_view(self.failure),
            pending: outcome::option_view(self.pending),
            done: done_views(self.done@),
        }
    }
}

/// What is to be done next.
#[derive(Clone, Copy, Debug, PartialEq, Eq, Structural)]
pub enum GroupStep {
    /// The command for the current target is to be run.
    Run,
    /// The pending outcome is to be recorded.
    Record,
    /// Every target has its outcome.
    Finished,
}

impl<T> GroupView<T> {
    pub open spec fn start(
        targets: Seq<(usize, T)>,
        failure: Option<ActionProblem>,
    ) -> GroupView<T> {
        GroupView { targets, failure, pending: None, done: Seq::empty() }
    }

    /// Every outcome is that of its target, in order.
    pub open spec fn in_order(self) -> bool {
        &&& self.done.len() <= self.targets.len()
        &&& forall|i: int|
            0 <= i < self.done.len() ==> (#[trigger] self.done[i]).0 == self.targets[i].0
                && self.done[i].1.target == self.targets[i].1
        &&& self.pending is Some ==> self.done.len() < self.targets.len()
            && self.pending->0.target == self.targets[self.done.len() as int].1
    }

    pub open spec fn current(self) -> T {
        self.targets[self.done.len() as int].1
    }

    pub open spec fn decided(self, item: ItemView<T>) -> GroupView<T> {
        GroupView { pending: Some(item), ..self }
    }

    /// The next step. Where the group failed as a whole, or the request was cancelled, the outcome of
    /// the current target is known without a command.
    pub open spec fn begun(self, cancelled: bool) -> (GroupView<T>, GroupStep) {
        if self.pending is Some {
            (self, GroupStep::Record)
        } else if self.done.len() >= self.targets.len() {
            (self, GroupStep::Finished)
        } else {
            match self.failure {
                Some(error) => (
                    self.decided(ItemView::failed(self.current(), error)),
                    GroupStep::Record,
                ),
                None => if cancelled {
                    (self.decided(ItemView::cancelled(self.current())), GroupStep::Record)
                } else {
                    (self, GroupStep::Run)
                },
            }
        }
    }

    /// The command for the current target came to an end.
    pub open spec fn ran(self, failure: Option<RacErrorView>) -> GroupView<T> {
        if self.pending is Some || self.done.len() >= self.targets.len() {
            self
        } else {
            self.decided(effect(self.current(), failure))
        }
    }

    /// The command for the current target could not be run.
    pub open spec fn refused(self, error: ActionProblem) -> GroupView<T> {
        if self.pending is Some || self.done.len() >= self.targets.len() {
            self
        } else {
            self.decided(ItemView::failed(self.current(), error))
        }
    }

    /// The pending outcome was recorded, or could not be.
    pub open spec fn recorded(self, failure: Option<ActionProblem>) -> GroupView<T> {
        match self.pending {
            None => self,
            Some(item) => GroupView {
                pending: None,
                done: self.done.push(
                    (
                        self.targets[self.done.len() as int].0,
                        match failure {
                            Some(error) => item.unrecorded(error),
                            None => item,
                        },
                    ),
                ),
                ..self
            },
        }
    }
}

impl<T> GroupRun<T> {
    #[verifier::type_invariant]
    spec fn well_formed(self) -> bool {
        self@.in_order()
    }
}

impl<T: KillTarget> GroupRun<T> {
    pub fn new(targets: Vec<(usize, T)>, failure: Option<ActionError>) -> (result: Self)
        ensures
            result@ == GroupView::start(targets@, outcome::option_view(failure)),
    {
        let done: Vec<(usize, ActionItemOutcome<T>)> = Vec::new();
        assert(done_views(done@) =~= Seq::<(usize, ItemView<T>)>::empty());
        GroupRun { targets, failure, pending: None, done }
    }

    /// The target that is acted on.
    pub fn current(&self) -> (result: Option<&T>)
        ensures
            match result {
                Some(target) => self@.done.len() < self@.targets.len() && *target == self@.current(),
                None => self@.done.len() >= self@.targets.len(),
            },
    {
        if self.done.len() < self.targets.len() {
            Some(&self.targets[self.done.len()].1)
        } else {
            None
        }
    }

    /// The outcome that is to be recorded.
    pub fn pending(&self) -> (result: Option<&ActionItemOutcome<T>>)
        ensures
            outcome::option_view(result) == self@.pending,
    {
        match &self.pending {
            Some(item) => Some(item),
            None => None,
        }
    }

    fn decide(&mut self, item: ActionItemOutcome<T>)
        requires
            old(self)@.in_order(),
            old(self)@.done.len() < old(self)@.targets.len(),
            item@.target == old(self)@.current(),
        ensures
            final(self)@ == old(self)@.decided(item@),
    {
        self.pending = Some(item);
    }

    /// Tells what is to be done next.
    pub fn begin(&mut self, cancelled: bool) -> (result: GroupStep)
        ensures
            (final(self)@, result) == old(self)@.begun(cancelled),
    {
        proof {
            use_type_invariant(&*self);
        }
        if self.pending.is_some() {
            return GroupStep::Record;
        }
        if self.done.len() >= self.targets.len() {
            return GroupStep::Finished;
        }
        let target = self.targets[self.done.len()].1.duplicate();
        let item = match &self.failure {
            Some(error) => ActionItemOutcome::failed(target, error.clone()),
            None => {
                if !cancelled {
                    return GroupStep::Run;
                }
                ActionItemOutcome::cancelled(target)
            },
        };
        self.decide(item);
        GroupStep::Record
    }

    /// Takes in how the command for the current target ended.
    pub fn ran(&mut self, reply: &Result<Vec<RacRecord>, RacError>)
        ensures
            final(self)@ == old(self)@.ran(
                match *reply {
                    Ok(_) => None,
                    Err(error) => Some(error@),
                },
            ),
    {
        proof {
            use_type_invariant(&*self);
        }
        if self.pending.is_some() || self.done.len() >= self.targets.len() {
            return;
        }
        let target = self.targets[self.done.len()].1.duplicate();
        let item = match reply {
            Ok(_) => ActionItemOutcome::success(target),
            Err(error) => {
                if error.kind() == RacErrorKind::Cancelled {
                    ActionItemOutcome::cancelled(target)
                } else {
                    ActionItemOutcome::failed(
                        target,
                        ActionError::new(error.code(), error.to_text().as_str()),
                    )
                }
            },
        };
        self.decide(item);
    }

    /// Takes in why the command for the current target could not be run.
    pub fn refused(&mut self, error: ActionError)
        ensures
            final(self)@ == old(self)@.refused(error@),
    {
        proof {
            use_type_invariant(&*self);
        }
        if self.pending.is_some() || self.done.len() >= self.targets.len() {
            return;
        }
        let target = self.targets[self.done.len()].1.duplicate();
        self.decide(ActionItemOutcome::failed(target, error));
    }

    /// Takes in whether the pending outcome was recorded.
    pub fn recorded(&mut self, failure: Option<ActionError>)
        ensures
            final(self)@ == old(self)@.recorded(outcome::option_view(failure)),
    {
        proof {
            use_type_invariant(&*self);
        }
        let mut pending: Option<ActionItemOutcome<T>> = None;
        std::mem::swap(&mut pending, &mut self.pending);
        let item = match pending {
            Some(item) => item,
            None => {
                return;
            },
        };
        let item = match failure {
            Some(error) => item.with_audit_error(error),
            None => item,
        };
        let index: usize = self.targets[self.done.len()].0;
        let ghost before = done_views(self.done@);
        let ghost added = (index, item@);
        let mut done: Vec<(usize, ActionItemOutcome<T>)> = Vec::new();
        std::mem::swap(&mut done, &mut self.done);
        done.push((index, item));
        assert(done_views(done@) =~= before.push(added));
        self.done = done;
    }

    /// The outcomes, each with the position of its target. Every target that was reached has exactly
    /// one, and they stand in order.
    pub fn finish(self) -> (result: Vec<(usize, ActionItemOutcome<T>)>)
        ensures
            done_views(result@) == self@.done,
            self@.in_order(),
    {
        proof {
            use_type_invariant(&self);
        }
        self.done
    }
}

/// What an outcome counts as in the records.
pub open spec fn recorded_result(status: ActionStatus) -> AuditResult {
    match status {
        ActionStatus::Success => AuditResult::Success,
        ActionStatus::Failed => AuditResult::Failure,
        ActionStatus::Cancelled => AuditResult::Cancelled,
    }
}

pub(crate) fn audit_result_of(status: ActionStatus) -> (result: AuditResult)
    ensures
        result == recorded_result(status),
{
    match status {
        ActionStatus::Success => AuditResult::Success,
        ActionStatus::Failed => AuditResult::Failure,
        ActionStatus::Cancelled => AuditResult::Cancelled,
    }
}

/// The targets of a group, each with its position.
pub open spec fn members<T>(targets: Seq<T>, group: Seq<usize>) -> Seq<(usize, T)> {
    group.map_values(|at: usize| (at, targets[at as int]))
}

/// The targets of a group, each with its position.
pub fn group_members<T: KillTarget>(targets: &Vec<T>, group: &Vec<usize>) -> (result: Vec<(usize, T)>)
    requires
        forall|k: int| 0 <= k < group@.len() ==> #[trigger] group@[k] < targets@.len(),
    ensures
        result@ == members(targets@, group@),
{
    let mut result: Vec<(usize, T)> = Vec::new();
    let mut k: usize = 0;
    while k < group.len()
        invariant
            k <= group.len(),
            forall|k: int| 0 <= k < group@.len() ==> #[trigger] group@[k] < targets@.len(),
            result@ == members(targets@, group@.take(k as int)),
        decreases group.len() - k,
    {
        let at: usize = group[k];
        result.push((at, targets[at].duplicate()));
        assert(result@ =~= members(targets@, group@.take(k + 1)));
        k = k + 1;
    }
    assert(group@.take(group@.len() as int) =~= group@);
    result
}

/// The outcomes of the first `count` groups, one after the other.
pub open spec fn all_outcomes<T>(
    finished: Seq<Vec<(usize, ActionItemOutcome<T>)>>,
    count: int,
) -> Seq<(usize, ActionItemOutcome<T>)>
    decreases count,
{
    if count <= 0 {
        Seq::empty()
    } else {
        all_outcomes(finished, count - 1) + finished[count - 1]@
    }
}

pub open spec fn position_ranking<T>() -> spec_fn(
    (usize, ActionItemOutcome<T>),
    (usize, ActionItemOutcome<T>),
) -> Order {
    |left: (usize, ActionItemOutcome<T>), right: (usize, ActionItemOutcome<T>)|
        order::compare_int(left.0 as int, right.0 as int)
}

/// Whether items are outcomes in the order of the positions of their targets.
pub open spec fn is_in_plan_order<T>(
    items: Seq<ActionItemOutcome<T>>,
    outcomes: Seq<(usize, ActionItemOutcome<T>)>,
) -> bool {
    exists|sorted: Seq<(usize, ActionItemOutcome<T>)>| #[trigger]
        order::is_stable_sort(outcomes, sorted, position_ranking::<T>()) && items
            == sorted.map_values(|entry: (usize, ActionItemOutcome<T>)| entry.1)
}

fn flatten_outcomes<T>(finished: Vec<Vec<(usize, ActionItemOutcome<T>)>>) -> (result: Vec<
    (usize, ActionItemOutcome<T>),
>)
    ensures
        result@ == all_outcomes(finished@, finished@.len() as int),
{
    let ghost source = finished@;
    let mut result: Vec<(usize, ActionItemOutcome<T>)> = Vec::new();
    for group in it: finished
        invariant
            it.seq() == source,
            result@ == all_outcomes(source, it.index() as int),
    {
        let mut group = group;
        result.append(&mut group);
    }
    result
}

/// Puts the outcomes of all groups in the order of the plan.
pub fn collect_outcomes<T>(finished: Vec<Vec<(usize, ActionItemOutcome<T>)>>) -> (result:
    ActionOutcome<T>)
    ensures
        is_in_plan_order(
            result.items@,
            all_outcomes(finished@, finished@.len() as int),
        ),
        crate::application::outcome::describes(result.meta, result.items@),
{
    let ghost groups = finished@;
    let outcomes = flatten_outcomes(finished);
    let ghost before = outcomes@;
    let compare = |left: &(usize, ActionItemOutcome<T>), right: &(usize, ActionItemOutcome<T>)| -> (
        found: Order)
        ensures
            found == order::compare_int(left.0 as int, right.0 as int),
        {
            if left.0 < right.0 {
                Order::Less
            } else if left.0 == right.0 {
                Order::Equal
            } else {
                Order::Greater
            }
        };
    let sorted = order::stable_sort(outcomes, &compare, Ghost(position_ranking::<T>()));
    let ghost list = sorted@;
    let mut items: Vec<ActionItemOutcome<T>> = Vec::new();
    for entry in it: sorted
        invariant
            it.seq() == list,
            items@ == list.take(it.index() as int).map_values(
                |entry: (usize, ActionItemOutcome<T>)| entry.1,
            ),
    {
        items.push(entry.1);
        assert(items@ =~= list.take(it.index() + 1).map_values(
            |entry: (usize, ActionItemOutcome<T>)| entry.1,
        ));
    }
    assert(list.take(list.len() as int) =~= list);
    assert(order::is_stable_sort(before, list, position_ranking::<T>()));
    ActionOutcome::new(items)
}

/// Whether the groups of a plan were carried out to their ends: each of their targets has its
/// outcome.
pub open spec fn is_carried_out<T>(
    finished: Seq<Vec<(usize, ActionItemOutcome<T>)>>,
    groups: Groups,
    targets: Seq<T>,
) -> bool {
    &&& finished.len() == groups.len()
    &&& forall|g: int, k: int|
        #![trigger finished[g]@[k]]
        0 <= g < groups.len() && 0 <= k < finished[g]@.len() ==> finished[g]@[k].0 == groups[g][k]
            && finished[g]@[k].1.target == targets[groups[g][k] as int]
    &&& forall|g: int|
        0 <= g < groups.len() ==> (#[trigger] finished[g])@.len() == groups[g].len()
}

proof fn lemma_outcome_origin<T>(
    finished: Seq<Vec<(usize, ActionItemOutcome<T>)>>,
    count: int,
    at: int,
) -> (place: (int, int))
    requires
        0 <= count <= finished.len(),
        0 <= at < all_outcomes(finished, count).len(),
    ensures
        0 <= place.0 < count,
        0 <= place.1 < finished[place.0]@.len(),
        all_outcomes(finished, count)[at] == finished[place.0]@[place.1],
    decreases count,
{
    let before = all_outcomes(finished, count - 1);
    if at < before.len() {
        lemma_outcome_origin(finished, count - 1, at)
    } else {
        (count - 1, at - before.len())
    }
}

proof fn lemma_outcome_reached<T>(
    finished: Seq<Vec<(usize, ActionItemOutcome<T>)>>,
    count: int,
    g: int,
    k: int,
) -> (at: int)
    requires
        0 <= g < count <= finished.len(),
        0 <= k < finished[g]@.len(),
    ensures
        0 <= at < all_outcomes(finished, count).len(),
        all_outcomes(finished, count)[at] == finished[g]@[k],
    decreases count,
{
    if g < count - 1 {
        lemma_outcome_reached(finished, count - 1, g, k)
    } else {
        all_outcomes(finished, count - 1).len() + k
    }
}

proof fn lemma_positions_differ<T: KillTarget>(
    finished: Seq<Vec<(usize, ActionItemOutcome<T>)>>,
    groups: Groups,
    targets: Seq<T>,
    count: int,
    i: int,
    j: int,
)
    requires
        is_grouping(groups, targets, targets.len() as int),
        is_carried_out(finished, groups, targets),
        0 <= count <= groups.len(),
        0 <= i < j < all_outcomes(finished, count).len(),
    ensures
        all_outcomes(finished, count)[i].0 != all_outcomes(finished, count)[j].0,
    decreases count,
{
    let all = all_outcomes(finished, count);
    let before = all_outcomes(finished, count - 1);
    if j < before.len() {
        lemma_positions_differ(finished, groups, targets, count - 1, i, j);
    } else if i >= before.len() {
        let k = i - before.len();
        let l = j - before.len();
        assert(all[i] == finished[count - 1]@[k]);
        assert(all[j] == finished[count - 1]@[l]);
        assert(groups[count - 1][k] < groups[count - 1][l]);
    } else {
        let (g, k) = lemma_outcome_origin(finished, count - 1, i);
        let l = j - before.len();
        let h = count - 1;
        assert(all[i] == finished[g]@[k]);
        assert(all[j] == finished[h]@[l]);
        let a = groups[g][k];
        let b = groups[h][l];
        if a == b {
            let first = targets[groups[g][0] as int];
            let second = targets[groups[h][0] as int];
            let shared = targets[a as int];
            assert(cluster_order(first, shared) == Order::Equal);
            assert(cluster_order(second, shared) == Order::Equal);
            assert(groups[g].len() > 0 && groups[h].len() > 0);
            assert(cluster_order(first, second) == Order::Less);
            lemma_cluster_order(second, shared, first);
            lemma_cluster_order(first, shared, second);
        }
    }
}

/// Where every group of a plan was carried out, the outcomes are exactly those of the plan's targets,
/// one for each, in the order of the plan.
pub proof fn law_outcomes_follow_the_plan<T: KillTarget>(
    targets: Seq<T>,
    groups: Groups,
    finished: Seq<Vec<(usize, ActionItemOutcome<T>)>>,
    items: Seq<ActionItemOutcome<T>>,
)
    requires
        is_grouping(groups, targets, targets.len() as int),
        is_carried_out(finished, groups, targets),
        is_in_plan_order(items, all_outcomes(finished, finished.len() as int)),
    ensures
        items.len() == targets.len(),
        forall|i: int|
            0 <= i < targets.len() ==> (#[trigger] items[i]).target == targets[i],
{
    let all = all_outcomes(finished, finished.len() as int);
    let rank = position_ranking::<T>();
    let sorted = choose|sorted: Seq<(usize, ActionItemOutcome<T>)>| #[trigger]
        order::is_stable_sort(all, sorted, rank) && items == sorted.map_values(
            |entry: (usize, ActionItemOutcome<T>)| entry.1,
        );
    let places = choose|places: Seq<int>|
        #[trigger] order::is_rearranged(all, sorted, places) && order::is_ordered(
            sorted,
            places,
            rank,
        );
    assert forall|i: int, j: int| 0 <= i < j < sorted.len() implies (#[trigger] sorted[i]).0 < (
    #[trigger] sorted[j]).0 by {
        assert(sorted[i] == all[places[i]]);
        assert(sorted[j] == all[places[j]]);
        if places[i] < places[j] {
            lemma_positions_differ(finished, groups, targets, groups.len() as int, places[i], places[j]);
        } else {
            assert(places[i] != places[j]);
            lemma_positions_differ(finished, groups, targets, groups.len() as int, places[j], places[i]);
        }
        assert(rank(sorted[i], sorted[j]) == order::compare_int(
            sorted[i].0 as int,
            sorted[j].0 as int,
        ));
    }
    assert forall|i: int| 0 <= i < sorted.len() implies (#[trigger] sorted[i]).0 < targets.len()
        && sorted[i].1.target == targets[sorted[i].0 as int] by {
        assert(sorted[i] == all[places[i]]);
        let (g, k) = lemma_outcome_origin(finished, finished.len() as int, places[i]);
        assert(finished[g]@[k].0 == groups[g][k]);
    }
    assert forall|at: int| 0 <= at < targets.len() implies #[trigger] has_position(sorted, at) by {
        assert(is_placed(groups, at));
        let g = choose|g: int| #[trigger] in_group(groups, g, at);
        let k = choose|k: int| 0 <= k < groups[g].len() && #[trigger] groups[g][k] == at;
        assert(finished[g]@.len() == groups[g].len());
        let reached = lemma_outcome_reached(finished, finished.len() as int, g, k);
        assert(finished[g]@[k].0 == at);
        let i = order::lemma_arrangement_reaches(places, all.len(), reached);
        assert(sorted[i] == all[places[i]]);
        assert(sorted[i].0 == at);
    }
    lemma_ascending_is_identity(sorted, targets.len() as int, sorted.len() as int);
    if sorted.len() < targets.len() {
        assert(has_position(sorted, sorted.len() as int));
        let i = choose|i: int| 0 <= i < sorted.len() && (#[trigger] sorted[i]).0 == sorted.len();
        assert(sorted[i].0 == i);
    }
    if sorted.len() > targets.len() {
        assert(sorted[targets.len() as int].0 < targets.len());
    }
    assert forall|i: int| 0 <= i < targets.len() implies (#[trigger] items[i]).target == targets[i] by {
        assert(items[i] == sorted[i].1);
        assert(sorted[i].0 == i);
    }
}

spec fn has_position<T>(sorted: Seq<(usize, ActionItemOutcome<T>)>, at: int) -> bool {
    exists|i: int| 0 <= i < sorted.len() && (#[trigger] sorted[i]).0 == at
}

proof fn lemma_ascending_is_identity<T>(
    sorted: Seq<(usize, ActionItemOutcome<T>)>,
    len: int,
    count: int,
)
    requires
        0 <= count <= sorted.len(),
        forall|i: int, j: int|
            0 <= i < j < sorted.len() ==> (#[trigger] sorted[i]).0 < (#[trigger] sorted[j]).0,
        forall|i: int| 0 <= i < sorted.len() ==> (#[trigger] sorted[i]).0 < len,
        forall|at: int| 0 <= at < len ==> #[trigger] has_position(sorted, at),
    ensures
        forall|i: int| 0 <= i < count ==> (#[trigger] sorted[i]).0 == i,
    decreases count,
{
    if count > 0 {
        lemma_ascending_is_identity(sorted, len, count - 1);
        let last = count - 1;
        if last > 0 {
            assert(sorted[last - 1].0 == last - 1);
            assert(sorted[last - 1].0 < sorted[last].0);
        }
        assert(sorted[last].0 >= last);
        if sorted[last].0 > last {
            assert(has_position(sorted, last));
            let i = choose|i: int| 0 <= i < sorted.len() && (#[trigger] sorted[i]).0 == last;
            if i < last {
                assert(sorted[i].0 == i);
            } else if i > last {
                assert(sorted[last].0 < sorted[i].0);
            }
        }
    }
}


/// Whatever became of a target, its outcome is recorded before anything else is done, and the next
/// target is acted on after it.
pub proof fn law_a_failed_target_stops_nothing<T>(
    run: GroupView<T>,
    failure: Option<RacErrorView>,
    unrecorded: Option<ActionProblem>,
    cancelled: bool,
)
    requires
        run.in_order(),
        run.pending is None,
        run.done.len() < run.targets.len(),
    ensures
        run.ran(failure).begun(cancelled) == (run.ran(failure), GroupStep::Record),
        run.ran(failure).recorded(unrecorded).in_order(),
        run.ran(failure).recorded(unrecorded).done.len() == run.done.len() + 1,
        run.ran(failure).recorded(unrecorded).done.last().1.target == run.current(),
        run.failure is None && !cancelled && run.done.len() + 1 < run.targets.len() ==> run.ran(
            failure,
        ).recorded(unrecorded).begun(cancelled).1 == GroupStep::Run,
{
    let after = run.ran(failure).recorded(unrecorded);
    assert forall|i: int| 0 <= i < after.done.len() implies (#[trigger] after.done[i]).0
        == after.targets[i].0 && after.done[i].1.target == after.targets[i].1 by {
        if i < run.done.len() {
            assert(after.done[i] == run.done[i]);
        }
    }
}

} // verus!
