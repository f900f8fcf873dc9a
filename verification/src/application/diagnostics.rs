//! What the last request showed: which copies of the utility serve which targets, and which targets
//! failed.

use vstd::prelude::*;
use vstd::string::*;

use crate::application::conversion;
use crate::application::conversion::{ConfiguredTarget, ConfiguredView};
use crate::domain::outcome::{TargetError, TargetProblem};
use crate::domain::timestamp::Timestamp;
use crate::domain::value::{ClusterAlias, EndpointView, RasEndpoint};
use crate::domain::version::{PlatformVersion, VersionView};
use crate::infrastructure::rac::locator::{CandidateView, RacCandidate};
use crate::outcome;
use crate::text;

verus! {

/// The copy of the utility that serves a target.
#[derive(Debug, PartialEq, Eq)]
pub struct SelectedRac {
    pub cluster: ClusterAlias,
    pub ras_address: RasEndpoint,
    pub path: String,
    pub version: PlatformVersion,
    pub origin: String,
}

pub struct SelectedView {
    pub cluster: Seq<char>,
    pub ras_address: EndpointView,
    pub path: Seq<char>,
    pub version: VersionView,
    pub origin: Seq<char>,
}

impl View for SelectedRac {
    type V = SelectedView;

    open spec fn view(&self) -> SelectedView {
        SelectedView {
            cluster: self.cluster@,
            ras_address: self.ras_address@,
            path: self.path@,
            version: self.version@,
            origin: self.origin@,
        }
    }
}

impl Clone for SelectedRac {
    fn clone(&self) -> (result: Self)
        ensures
            result == *self,
    {
        SelectedRac {
            cluster: self.cluster.clone(),
            ras_address: self.ras_address.clone(),
            path: self.path.clone(),
            version: self.version,
            origin: self.origin.clone(),
        }
    }
}

pub open spec fn selected_views(selected: Seq<SelectedRac>) -> Seq<SelectedView> {
    selected.map_values(|item: SelectedRac| item@)
}

pub open spec fn candidate_options(candidates: Seq<Option<RacCandidate>>) -> Seq<
    Option<CandidateView>,
> {
    candidates.map_values(|candidate: Option<RacCandidate>| outcome::option_view(candidate))
}

/// The copy that serves a target.
pub open spec fn selected_for(configured: ConfiguredView, candidate: CandidateView) -> SelectedView {
    SelectedView {
        cluster: configured.target.alias,
        ras_address: configured.target.ras,
        path: candidate.path,
        version: candidate.version,
        origin: candidate.origin.text(),
    }
}

/// The copies that serve the first `count` targets; a target without one is left out.
pub open spec fn chosen(
    targets: Seq<ConfiguredView>,
    candidates: Seq<Option<CandidateView>>,
    count: int,
) -> Seq<SelectedView>
    decreases count,
{
    if count <= 0 {
        Seq::empty()
    } else {
        match candidates[count - 1] {
            Some(candidate) => chosen(targets, candidates, count - 1).push(
                selected_for(targets[count - 1], candidate),
            ),
            None => chosen(targets, candidates, count - 1),
        }
    }
}

/// What the last request showed.
#[derive(Debug, PartialEq, Eq)]
pub struct DiagnosticsSnapshot {
    pub selected_rac: Vec<SelectedRac>,
    pub target_errors: Vec<TargetError>,
    pub updated_at: Option<Timestamp>,
}

pub struct DiagnosticsView {
    pub selected_rac: Seq<SelectedView>,
    pub target_errors: Seq<TargetProblem>,
    pub updated_at: Option<Timestamp>,
}

impl View for DiagnosticsSnapshot {
    type V = DiagnosticsView;

    open spec fn view(&self) -> DiagnosticsView {
        DiagnosticsView {
            selected_rac: selected_views(self.selected_rac@),
            target_errors: TargetProblem::all(self.target_errors@),
            updated_at: self.updated_at,
        }
    }
}

impl Default for DiagnosticsSnapshot {
    fn default() -> (result: Self)
        ensures
            result@ == (DiagnosticsView {
                selected_rac: Seq::empty(),
                target_errors: Seq::empty(),
                updated_at: None,
            }),
    {
        let result = DiagnosticsSnapshot {
            selected_rac: Vec::new(),
            target_errors: Vec::new(),
            updated_at: None,
        };
        assert(result@.selected_rac =~= Seq::<SelectedView>::empty());
        assert(result@.target_errors =~= Seq::<TargetProblem>::empty());
        result
    }
}

fn clone_errors(errors: &Vec<TargetError>) -> (result: Vec<TargetError>)
    ensures
        result@ == errors@,
{
    let mut result: Vec<TargetError> = Vec::new();
    let mut i: usize = 0;
    while i < errors.len()
        invariant
            i <= errors.len(),
            result@ == errors@.take(i as int),
        decreases errors.len() - i,
    {
        result.push(errors[i].clone());
        assert(result@ =~= errors@.take(i + 1));
        i = i + 1;
    }
    assert(result@ =~= errors@);
    result
}

/// What a request showed: `candidates` holds, target by target, the copy that served it.
pub fn update_diagnostics(
    targets: &Vec<ConfiguredTarget>,
    candidates: &Vec<Option<RacCandidate>>,
    errors: &Vec<TargetError>,
    now: Timestamp,
) -> (result: DiagnosticsSnapshot)
    requires
        candidates@.len() == targets@.len(),
    ensures
        result@ == (DiagnosticsView {
            selected_rac: chosen(
                conversion::configured_views(targets@),
                candidate_options(candidates@),
                targets@.len() as int,
            ),
            target_errors: TargetProblem::all(errors@),
            updated_at: Some(now),
        }),
{
    let ghost views = conversion::configured_views(targets@);
    let ghost found = candidate_options(candidates@);
    let mut selected: Vec<SelectedRac> = Vec::new();
    let mut i: usize = 0;
    assert(selected_views(selected@) =~= Seq::<SelectedView>::empty());
    while i < targets.len()
        invariant
            i <= targets.len(),
            candidates@.len() == targets@.len(),
            views == conversion::configured_views(targets@),
            found == candidate_options(candidates@),
            selected_views(selected@) == chosen(views, found, i as int),
        decreases targets.len() - i,
    {
        assert(views[i as int] == targets@[i as int]@);
        assert(found[i as int] == outcome::option_view(candidates@[i as int]));
        if let Some(candidate) = &candidates[i] {
            let ghost before = selected_views(selected@);
            let version = PlatformVersion::new(
                candidate.version.major(),
                candidate.version.minor(),
                candidate.version.patch(),
                candidate.version.build(),
            );
            let item = SelectedRac {
                cluster: targets[i].target.alias.clone(),
                ras_address: targets[i].target.ras.clone(),
                path: candidate.path.clone(),
                version,
                origin: candidate.origin.code().to_owned(),
            };
            let ghost added = item@;
            selected.push(item);
            assert(selected_views(selected@) =~= before.push(added));
        }
        i = i + 1;
    }
    DiagnosticsSnapshot {
        selected_rac: selected,
        target_errors: clone_errors(errors),
        updated_at: Some(now),
    }
}

} // verus!
