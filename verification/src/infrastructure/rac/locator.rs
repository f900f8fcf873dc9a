//! Where the `rac` utility is looked for, and which of its copies is taken.

use vstd::prelude::*;
use vstd::string::*;

use crate::domain::version;
use crate::domain::version::VersionView;
use crate::infrastructure::path;
use crate::infrastructure::rac::error::{RacError, RacErrorKind, RacErrorView};
use crate::infrastructure::rac::process::clone_texts;
use crate::infrastructure::rac::version::PlatformVersion;
use crate::order;
use crate::order::Order;
use crate::outcome;
use crate::text;

verus! {

/// How a copy of the utility was found.
#[derive(Clone, Copy, Debug, PartialEq, Eq, Hash, Structural)]
pub enum RacOrigin {
    ExplicitArgument,
    Environment,
    ClusterConfig,
    GlobalConfig,
    Path,
    Registry,
    ProgramFiles,
    ProgramFilesX86,
}

impl RacOrigin {
    pub open spec fn text(self) -> Seq<char> {
        match self {
            RacOrigin::ExplicitArgument => "explicit_argument"@,
            RacOrigin::Environment => "environment"@,
            RacOrigin::ClusterConfig => "cluster_config"@,
            RacOrigin::GlobalConfig => "global_config"@,
            RacOrigin::Path => "path"@,
            RacOrigin::Registry => "registry"@,
            RacOrigin::ProgramFiles => "program_files"@,
            RacOrigin::ProgramFilesX86 => "program_files_x86"@,
        }
    }

    /// The rank among copies of the same version; the lower wins.
    pub open spec fn rank(self) -> int {
        match self {
            RacOrigin::ExplicitArgument => 0,
            RacOrigin::Environment => 1,
            RacOrigin::ClusterConfig => 2,
            RacOrigin::GlobalConfig => 3,
            RacOrigin::Path => 4,
            RacOrigin::Registry => 5,
            RacOrigin::ProgramFiles => 6,
            RacOrigin::ProgramFilesX86 => 7,
        }
    }

    pub fn code(self) -> (result: &'static str)
        ensures
            result@ == self.text(),
    {
        match self {
            RacOrigin::ExplicitArgument => "explicit_argument",
            RacOrigin::Environment => "environment",
            RacOrigin::ClusterConfig => "cluster_config",
            RacOrigin::GlobalConfig => "global_config",
            RacOrigin::Path => "path",
            RacOrigin::Registry => "registry",
            RacOrigin::ProgramFiles => "program_files",
            RacOrigin::ProgramFilesX86 => "program_files_x86",
        }
    }

    fn priority(self) -> (result: i64)
        ensures
            result == self.rank(),
    {
        match self {
            RacOrigin::ExplicitArgument => 0,
            RacOrigin::Environment => 1,
            RacOrigin::ClusterConfig => 2,
            RacOrigin::GlobalConfig => 3,
            RacOrigin::Path => 4,
            RacOrigin::Registry => 5,
            RacOrigin::ProgramFiles => 6,
            RacOrigin::ProgramFilesX86 => 7,
        }
    }
}

/// A copy of the utility that can be run.
#[derive(Debug, PartialEq, Eq)]
pub struct RacCandidate {
    pub path: String,
    pub version: PlatformVersion,
    pub origin: RacOrigin,
}

pub struct CandidateView {
    pub path: Seq<char>,
    pub version: VersionView,
    pub origin: RacOrigin,
}

impl View for RacCandidate {
    type V = CandidateView;

    open spec fn view(&self) -> CandidateView {
        CandidateView { path: self.path@, version: self.version@, origin: self.origin }
    }
}

impl Clone for RacCandidate {
    fn clone(&self) -> (result: Self)
        ensures
            result == *self,
    {
        RacCandidate { path: self.path.clone(), version: self.version, origin: self.origin }
    }
}

/// A path as it is compared: with backslashes, without the verbatim prefix, in lower case.
pub open spec fn path_key(path: Seq<char>) -> Seq<char> {
    let rendered = text::replaced(path, '/', '\\');
    text::lowercase(
        match text::without_prefix(rendered, "\\\\?\\"@) {
            Some(rest) => rest,
            None => rendered,
        },
    )
}

/// A path as it is compared.
pub fn canonical_path_key(path: &str) -> (result: String)
    ensures
        result@ == path_key(path@),
{
    let rendered = text::replace_char(path, '/', '\\');
    match text::strip_prefix(rendered.as_str(), "\\\\?\\") {
        Some(rest) => text::to_lowercase(rest.as_str()),
        None => text::to_lowercase(rendered.as_str()),
    }
}

/// The newest copy first; among the same version the better origin; then by path.
pub open spec fn candidate_order(left: CandidateView, right: CandidateView) -> Order {
    let by_version = right.version.compare(left.version);
    let by_origin = order::compare_int(left.origin.rank(), right.origin.rank());
    if by_version != Order::Equal {
        by_version
    } else if by_origin != Order::Equal {
        by_origin
    } else {
        order::compare_text(path_key(left.path), path_key(right.path))
    }
}

/// Which of two copies is tried first.
pub fn compare_candidates(left: &RacCandidate, right: &RacCandidate) -> (result: Order)
    ensures
        result == candidate_order(left@, right@),
{
    let by_version = right.version.compare(left.version);
    if by_version != Order::Equal {
        return by_version;
    }
    let by_origin = order::compare_i64(left.origin.priority(), right.origin.priority());
    if by_origin != Order::Equal {
        return by_origin;
    }
    order::compare_texts(
        canonical_path_key(left.path.as_str()).as_str(),
        canonical_path_key(right.path.as_str()).as_str(),
    )
}

pub open spec fn candidate_ranking() -> spec_fn(RacCandidate, RacCandidate) -> Order {
    |left: RacCandidate, right: RacCandidate| candidate_order(left@, right@)
}

/// The order in which copies are tried is an order: it is antisymmetric and transitive.
pub proof fn law_candidate_order_is_a_ranking()
    ensures
        order::is_ranking(candidate_ranking()),
{
    let rank = candidate_ranking();
    assert forall|a: RacCandidate, b: RacCandidate| #[trigger] rank(b, a) == rank(a, b).flipped() by {
        version::law_version_order(a@.version, b@.version, b@.version);
        order::lemma_compare_text_flips(path_key(a@.path), path_key(b@.path));
    }
    assert forall|a: RacCandidate, b: RacCandidate, c: RacCandidate|
        #![trigger rank(a, b), rank(b, c)]
        rank(a, b) != Order::Greater && rank(b, c) != Order::Greater implies rank(a, c)
        != Order::Greater by {
        version::law_version_order(a@.version, b@.version, c@.version);
        version::law_version_order(c@.version, b@.version, a@.version);
        let (x, y, z) = (path_key(a@.path), path_key(b@.path), path_key(c@.path));
        if order::compare_text(x, y) != Order::Greater && order::compare_text(y, z) != Order::Greater {
            order::lemma_compare_text_transitive(x, y, z);
        }
    }
}

/// A newer version comes before an older one, and of the same version the better origin comes first.
pub proof fn law_newest_then_best_origin(left: CandidateView, right: CandidateView)
    ensures
        left.version.compare(right.version) == Order::Greater ==> candidate_order(left, right)
            == Order::Less,
        left.version == right.version && left.origin.rank() < right.origin.rank()
            ==> candidate_order(left, right) == Order::Less,
{
}

/// Which versions of the utility are wanted.
#[derive(Clone, Copy, Debug, PartialEq, Eq, Structural)]
pub enum RacVersionSelection {
    Auto,
    Exact(PlatformVersion),
}

pub enum SelectionView {
    Auto,
    Exact(VersionView),
}

impl View for RacVersionSelection {
    type V = SelectionView;

    open spec fn view(&self) -> SelectionView {
        match self {
            RacVersionSelection::Auto => SelectionView::Auto,
            RacVersionSelection::Exact(version) => SelectionView::Exact(version@),
        }
    }
}

impl Default for RacVersionSelection {
    fn default() -> (result: Self)
        ensures
            result@ == SelectionView::Auto,
    {
        RacVersionSelection::Auto
    }
}

/// What the environment says of where programs are.
#[derive(Debug)]
pub struct SearchEnvironment {
    pub rac_path: Option<String>,
    pub path_entries: Vec<String>,
    pub program_files: Option<String>,
    pub program_files_x86: Option<String>,
}

pub struct EnvironmentView {
    pub rac_path: Option<Seq<char>>,
    pub path_entries: Seq<Seq<char>>,
    pub program_files: Option<Seq<char>>,
    pub program_files_x86: Option<Seq<char>>,
}

impl View for SearchEnvironment {
    type V = EnvironmentView;

    open spec fn view(&self) -> EnvironmentView {
        EnvironmentView {
            rac_path: outcome::option_view(self.rac_path),
            path_entries: text::views(self.path_entries@),
            program_files: outcome::option_view(self.program_files),
            program_files_x86: outcome::option_view(self.program_files_x86),
        }
    }
}

impl EnvironmentView {
    pub open spec fn nothing() -> EnvironmentView {
        EnvironmentView {
            rac_path: None,
            path_entries: Seq::empty(),
            program_files: None,
            program_files_x86: None,
        }
    }
}

/// Clones an optional text.
pub(crate) fn clone_text(value: &Option<String>) -> (result: Option<String>)
    ensures
        result == *value,
{
    match value {
        Some(value) => Some(value.clone()),
        None => None,
    }
}

impl SearchEnvironment {
    pub fn empty() -> (result: Self)
        ensures
            result@ == EnvironmentView::nothing(),
    {
        let result = SearchEnvironment {
            rac_path: None,
            path_entries: Vec::new(),
            program_files: None,
            program_files_x86: None,
        };
        assert(result@.path_entries =~= Seq::<Seq<char>>::empty());
        result
    }
}

impl Clone for SearchEnvironment {
    fn clone(&self) -> (result: Self)
        ensures
            result@ == self@,
    {
        SearchEnvironment {
            rac_path: clone_text(&self.rac_path),
            path_entries: clone_texts(&self.path_entries),
            program_files: clone_text(&self.program_files),
            program_files_x86: clone_text(&self.program_files_x86),
        }
    }
}

/// Where to look for the utility and which versions to accept.
#[derive(Debug)]
pub struct SearchPolicy {
    pub explicit_path: Option<String>,
    pub cluster_path: Option<String>,
    pub global_path: Option<String>,
    pub version: RacVersionSelection,
    pub minimum_version: PlatformVersion,
    pub environment: SearchEnvironment,
    pub search_registry: bool,
    /// Paths of the registry that are known already.
    pub registry_paths: Vec<String>,
    pub search_program_files: bool,
}

pub struct SearchPolicyView {
    pub explicit_path: Option<Seq<char>>,
    pub cluster_path: Option<Seq<char>>,
    pub global_path: Option<Seq<char>>,
    pub version: SelectionView,
    pub minimum_version: VersionView,
    pub environment: EnvironmentView,
    pub search_registry: bool,
    pub registry_paths: Seq<Seq<char>>,
    pub search_program_files: bool,
}

impl View for SearchPolicy {
    type V = SearchPolicyView;

    open spec fn view(&self) -> SearchPolicyView {
        SearchPolicyView {
            explicit_path: outcome::option_view(self.explicit_path),
            cluster_path: outcome::option_view(self.cluster_path),
            global_path: outcome::option_view(self.global_path),
            version: self.version@,
            minimum_version: self.minimum_version@,
            environment: self.environment@,
            search_registry: self.search_registry,
            registry_paths: text::views(self.registry_paths@),
            search_program_files: self.search_program_files,
        }
    }
}

impl SearchPolicyView {
    /// A search that looks nowhere by itself.
    pub open spec fn isolated() -> SearchPolicyView {
        SearchPolicyView {
            explicit_path: None,
            cluster_path: None,
            global_path: None,
            version: SelectionView::Auto,
            minimum_version: version::min_supported(),
            environment: EnvironmentView::nothing(),
            search_registry: false,
            registry_paths: Seq::empty(),
            search_program_files: false,
        }
    }

    /// A search in the environment, the registry and the directories of programs.
    pub open spec fn automatic(environment: EnvironmentView, search_registry: bool) -> SearchPolicyView {
        SearchPolicyView {
            environment,
            search_registry,
            search_program_files: true,
            ..SearchPolicyView::isolated()
        }
    }

    /// The oldest version that is accepted, never older than the oldest supported one.
    pub open spec fn effective_minimum(self) -> VersionView {
        if self.minimum_version.compare(version::min_supported()) == Order::Less {
            version::min_supported()
        } else {
            self.minimum_version
        }
    }

    pub open spec fn accepts(self, version: VersionView) -> bool {
        version.compare(self.effective_minimum()) != Order::Less && (match self.version {
            SelectionView::Auto => true,
            SelectionView::Exact(expected) => version == expected,
        })
    }

    /// Whether a copy that was chosen before may be used again.
    pub open spec fn accepts_again(self, candidate: CandidateView) -> bool {
        self.accepts(candidate.version) && (match self.explicit_path {
            Some(explicit) => path_key(explicit) == path_key(candidate.path),
            None => true,
        })
    }
}

impl SearchPolicy {
    pub fn isolated() -> (result: Self)
        ensures
            result@ == SearchPolicyView::isolated(),
    {
        let result = SearchPolicy {
            explicit_path: None,
            cluster_path: None,
            global_path: None,
            version: RacVersionSelection::Auto,
            minimum_version: PlatformVersion::min_supported(),
            environment: SearchEnvironment::empty(),
            search_registry: false,
            registry_paths: Vec::new(),
            search_program_files: false,
        };
        assert(result@.registry_paths =~= Seq::<Seq<char>>::empty());
        result
    }

    /// A search in the environment, in the directories of programs and, where there is one, in the
    /// registry.
    pub fn automatic(environment: SearchEnvironment, search_registry: bool) -> (result: Self)
        ensures
            result@ == SearchPolicyView::automatic(environment@, search_registry),
    {
        let mut result = SearchPolicy::isolated();
        result.environment = environment;
        result.search_registry = search_registry;
        result.search_program_files = true;
        result
    }

    pub fn with_explicit_path(self, path: &str) -> (result: Self)
        ensures
            result@ == (SearchPolicyView { explicit_path: Some(path@), ..self@ }),
    {
        let mut result = self;
        result.explicit_path = Some(path.to_owned());
        result
    }

    pub fn with_cluster_path(self, path: &str) -> (result: Self)
        ensures
            result@ == (SearchPolicyView { cluster_path: Some(path@), ..self@ }),
    {
        let mut result = self;
        result.cluster_path = Some(path.to_owned());
        result
    }

    pub fn with_global_path(self, path: &str) -> (result: Self)
        ensures
            result@ == (SearchPolicyView { global_path: Some(path@), ..self@ }),
    {
        let mut result = self;
        result.global_path = Some(path.to_owned());
        result
    }

    pub fn effective_minimum(&self) -> (result: PlatformVersion)
        ensures
            result@ == self@.effective_minimum(),
    {
        let supported = PlatformVersion::min_supported();
        if self.minimum_version.compare(supported) == Order::Less {
            supported
        } else {
            self.minimum_version
        }
    }

    pub fn accepts_version(&self, version: PlatformVersion) -> (result: bool)
        ensures
            result == self@.accepts(version@),
    {
        if version.compare(self.effective_minimum()) == Order::Less {
            return false;
        }
        match self.version {
            RacVersionSelection::Auto => true,
            RacVersionSelection::Exact(expected) => {
                proof {
                    version::law_version_order(version@, expected@, expected@);
                }
                version.compare(expected) == Order::Equal
            },
        }
    }

    /// Whether a copy that was chosen before may be used again.
    pub fn accepts_cached(&self, candidate: &RacCandidate) -> (result: bool)
        ensures
            result == self@.accepts_again(candidate@),
    {
        if !self.accepts_version(candidate.version) {
            return false;
        }
        match &self.explicit_path {
            Some(explicit) => text::same(
                canonical_path_key(explicit.as_str()).as_str(),
                canonical_path_key(candidate.path.as_str()).as_str(),
            ),
            None => true,
        }
    }
}

impl Clone for SearchPolicy {
    fn clone(&self) -> (result: Self)
        ensures
            result@ == self@,
    {
        SearchPolicy {
            explicit_path: clone_text(&self.explicit_path),
            cluster_path: clone_text(&self.cluster_path),
            global_path: clone_text(&self.global_path),
            version: self.version,
            minimum_version: self.minimum_version,
            environment: self.environment.clone(),
            search_registry: self.search_registry,
            registry_paths: clone_texts(&self.registry_paths),
            search_program_files: self.search_program_files,
        }
    }
}

/// No policy accepts a version older than the oldest supported one.
pub proof fn law_unsupported_versions_are_refused(policy: SearchPolicyView, version: VersionView)
    ensures
        version.compare(version::min_supported()) == Order::Less ==> !policy.accepts(version),
{
    version::law_version_order(version, version::min_supported(), policy.effective_minimum());
    version::law_version_order(version::min_supported(), policy.effective_minimum(), version);
}

/// A place where the utility may stand.
pub struct Place {
    pub path: String,
    pub origin: RacOrigin,
}

impl View for Place {
    type V = (Seq<char>, RacOrigin);

    open spec fn view(&self) -> (Seq<char>, RacOrigin) {
        (self.path@, self.origin)
    }
}

pub open spec fn place_views(places: Seq<Place>) -> Seq<(Seq<char>, RacOrigin)> {
    places.map_values(|place: Place| place@)
}

/// An optional path of an origin.
pub open spec fn optional_place(path: Option<Seq<char>>, origin: RacOrigin) -> Seq<
    (Seq<char>, RacOrigin),
> {
    match path {
        Some(path) => seq![(path, origin)],
        None => Seq::empty(),
    }
}

/// Paths of one origin.
pub open spec fn places_of(paths: Seq<Seq<char>>, origin: RacOrigin) -> Seq<(Seq<char>, RacOrigin)> {
    paths.map_values(|path: Seq<char>| (path, origin))
}

/// Whether paths name the utility in the directories, one for one.
pub open spec fn are_utilities(paths: Seq<Seq<char>>, directories: Seq<Seq<char>>) -> bool {
    paths.len() == directories.len() && forall|i: int|
        0 <= i < paths.len() ==> path::is_joined(#[trigger] paths[i], directories[i], "rac.exe"@)
}

/// The places where a search looks, in the order in which it does: what the environment names, the
/// configuration of the cluster, the global one, the directories of the search path, the registry,
/// and the directories of programs.
pub open spec fn search_places(
    policy: SearchPolicyView,
    on_path: Seq<Seq<char>>,
    registry: Seq<Seq<char>>,
    program_files: Seq<Seq<char>>,
    program_files_x86: Seq<Seq<char>>,
) -> Seq<(Seq<char>, RacOrigin)> {
    optional_place(policy.environment.rac_path, RacOrigin::Environment) + optional_place(
        policy.cluster_path,
        RacOrigin::ClusterConfig,
    ) + optional_place(policy.global_path, RacOrigin::GlobalConfig) + places_of(
        on_path,
        RacOrigin::Path,
    ) + places_of(policy.registry_paths, RacOrigin::Registry) + (if policy.search_registry {
        places_of(registry, RacOrigin::Registry)
    } else {
        Seq::empty()
    }) + (if policy.search_program_files && policy.environment.program_files is Some {
        places_of(program_files, RacOrigin::ProgramFiles)
    } else {
        Seq::empty()
    }) + (if policy.search_program_files && policy.environment.program_files_x86 is Some {
        places_of(program_files_x86, RacOrigin::ProgramFilesX86)
    } else {
        Seq::empty()
    })
}

fn add_place(places: &mut Vec<Place>, path: &Option<String>, origin: RacOrigin)
    ensures
        place_views(final(places)@) == place_views(old(places)@) + optional_place(
            outcome::option_view(*path),
            origin,
        ),
{
    let ghost before = place_views(places@);
    match path {
        Some(path) => {
            places.push(Place { path: path.clone(), origin });
            assert(place_views(places@) =~= before + seq![(path@, origin)]);
        },
        None => {
            assert(before + Seq::<(Seq<char>, RacOrigin)>::empty() =~= before);
        },
    }
}

fn add_places(places: &mut Vec<Place>, paths: &Vec<String>, origin: RacOrigin)
    ensures
        place_views(final(places)@) == place_views(old(places)@) + places_of(
            text::views(paths@),
            origin,
        ),
{
    let ghost before = place_views(places@);
    let ghost added = places_of(text::views(paths@), origin);
    let mut i: usize = 0;
    assert(before + added.take(0) =~= before);
    while i < paths.len()
        invariant
            i <= paths.len(),
            added == places_of(text::views(paths@), origin),
            place_views(places@) == before + added.take(i as int),
        decreases paths.len() - i,
    {
        let ghost now = place_views(places@);
        places.push(Place { path: paths[i].clone(), origin });
        assert(place_views(places@) =~= now.push((paths@[i as int]@, origin)));
        assert(added[i as int] == (paths@[i as int]@, origin));
        assert(before + added.take(i + 1) =~= (before + added.take(i as int)).push(
            added[i as int],
        ));
        i = i + 1;
    }
    assert(added.take(added.len() as int) =~= added);
}

/// The utility in each of the directories.
fn utilities_in(directories: &Vec<String>) -> (result: Vec<String>)
    ensures
        are_utilities(text::views(result@), text::views(directories@)),
{
    proof {
        reveal_strlit("rac.exe");
    }
    let mut result: Vec<String> = Vec::new();
    let mut i: usize = 0;
    while i < directories.len()
        invariant
            i <= directories.len(),
            result@.len() == i,
            path::is_component("rac.exe"@),
            forall|j: int|
                0 <= j < i ==> path::is_joined(
                    (#[trigger] result@[j])@,
                    directories@[j]@,
                    "rac.exe"@,
                ),
        decreases directories.len() - i,
    {
        result.push(path::join_path(directories[i].as_str(), "rac.exe"));
        i = i + 1;
    }
    proof {
        assert forall|j: int| 0 <= j < result@.len() implies path::is_joined(
            #[trigger] text::views(result@)[j],
            text::views(directories@)[j],
            "rac.exe"@,
        ) by {
            assert(text::views(result@)[j] == result@[j]@);
        }
    }
    result
}

/// The places where to look for the utility, given what the registry and the directories of programs
/// hold.
pub fn discover_paths(
    policy: &SearchPolicy,
    registry: &Vec<String>,
    program_files: &Vec<String>,
    program_files_x86: &Vec<String>,
) -> (result: Vec<Place>)
    ensures
        exists|on_path: Seq<Seq<char>>|
            #[trigger] are_utilities(on_path, policy@.environment.path_entries) && place_views(
                result@,
            ) == search_places(
                policy@,
                on_path,
                text::views(registry@),
                text::views(program_files@),
                text::views(program_files_x86@),
            ),
{
    let on_path = utilities_in(&policy.environment.path_entries);
    let ghost none = Seq::<(Seq<char>, RacOrigin)>::empty();
    let mut places: Vec<Place> = Vec::new();
    assert(place_views(places@) =~= none);
    add_place(&mut places, &policy.environment.rac_path, RacOrigin::Environment);
    assert(none + optional_place(policy@.environment.rac_path, RacOrigin::Environment)
        =~= optional_place(policy@.environment.rac_path, RacOrigin::Environment));
    add_place(&mut places, &policy.cluster_path, RacOrigin::ClusterConfig);
    add_place(&mut places, &policy.global_path, RacOrigin::GlobalConfig);
    add_places(&mut places, &on_path, RacOrigin::Path);
    add_places(&mut places, &policy.registry_paths, RacOrigin::Registry);
    let ghost now = place_views(places@);
    if policy.search_registry {
        add_places(&mut places, registry, RacOrigin::Registry);
    } else {
        assert(now + none =~= now);
    }
    let ghost now = place_views(places@);
    if policy.search_program_files && policy.environment.program_files.is_some() {
        add_places(&mut places, program_files, RacOrigin::ProgramFiles);
    } else {
        assert(now + none =~= now);
    }
    let ghost now = place_views(places@);
    if policy.search_program_files && policy.environment.program_files_x86.is_some() {
        add_places(&mut places, program_files_x86, RacOrigin::ProgramFilesX86);
    } else {
        assert(now + none =~= now);
    }
    assert(are_utilities(text::views(on_path@), policy@.environment.path_entries));
    places
}

/// The utility of an installed version.
pub fn installed_utility(directory: &str) -> (result: String)
    ensures
        exists|bin: Seq<char>| #[trigger]
            path::is_joined(bin, directory@, "bin"@) && path::is_joined(result@, bin, "rac.exe"@),
{
    proof {
        reveal_strlit("bin");
        reveal_strlit("rac.exe");
    }
    let bin = path::join_path(directory, "bin");
    path::join_path(bin.as_str(), "rac.exe")
}

/// Whether some place has the path, as paths are compared.
pub open spec fn is_known(places: Seq<(Seq<char>, RacOrigin)>, path: Seq<char>) -> bool {
    exists|i: int| 0 <= i < places.len() && path_key((#[trigger] places[i]).0) == path_key(path)
}

/// The first place of each file among the first `count` places; `None` stands for a place without a
/// file.
pub open spec fn first_places(
    found: Seq<(Option<Seq<char>>, RacOrigin)>,
    count: int,
) -> Seq<(Seq<char>, RacOrigin)>
    decreases count,
{
    if count <= 0 {
        Seq::empty()
    } else {
        let before = first_places(found, count - 1);
        match found[count - 1].0 {
            Some(path) if !is_known(before, path) => before.push((path, found[count - 1].1)),
            _ => before,
        }
    }
}

/// What stands at a place: the canonical path of a file, if there is one.
pub struct Finding {
    pub file: Option<String>,
    pub origin: RacOrigin,
}

pub open spec fn finding_views(findings: Seq<Finding>) -> Seq<(Option<Seq<char>>, RacOrigin)> {
    findings.map_values(|finding: Finding| (outcome::option_view(finding.file), finding.origin))
}

fn knows(places: &Vec<Place>, path: &str) -> (result: bool)
    ensures
        result == is_known(place_views(places@), path@),
{
    let key = canonical_path_key(path);
    let mut i: usize = 0;
    while i < places.len()
        invariant
            i <= places.len(),
            key@ == path_key(path@),
            forall|j: int|
                0 <= j < i ==> path_key((#[trigger] place_views(places@)[j]).0) != path_key(path@),
        decreases places.len() - i,
    {
        assert(place_views(places@)[i as int] == places@[i as int]@);
        if text::same(canonical_path_key(places[i].path.as_str()).as_str(), key.as_str()) {
            return true;
        }
        i = i + 1;
    }
    false
}

/// Keeps the first place of each file and drops the places without one.
pub fn canonical_deduplicate(findings: Vec<Finding>) -> (result: Vec<Place>)
    ensures
        place_views(result@) == first_places(
            finding_views(findings@),
            findings@.len() as int,
        ),
{
    let ghost all = finding_views(findings@);
    let mut result: Vec<Place> = Vec::new();
    let mut i: usize = 0;
    assert(place_views(result@) =~= first_places(all, 0));
    while i < findings.len()
        invariant
            i <= findings.len(),
            all == finding_views(findings@),
            place_views(result@) == first_places(all, i as int),
        decreases findings.len() - i,
    {
        assert(all[i as int] == (
            outcome::option_view(findings@[i as int].file),
            findings@[i as int].origin,
        ));
        match &findings[i].file {
            Some(file) => {
                if !knows(&result, file.as_str()) {
                    let ghost before = place_views(result@);
                    result.push(Place { path: file.clone(), origin: findings[i].origin });
                    assert(place_views(result@) =~= before.push((file@, findings@[i as int].origin)));
                }
            },
            None => {},
        }
        i = i + 1;
    }
    result
}

proof fn lemma_first_places(found: Seq<(Option<Seq<char>>, RacOrigin)>, count: int)
    requires
        0 <= count <= found.len(),
    ensures
        forall|i: int, j: int|
            #![trigger first_places(found, count)[i], first_places(found, count)[j]]
            0 <= i < j < first_places(found, count).len() ==> path_key(
                first_places(found, count)[i].0,
            ) != path_key(first_places(found, count)[j].0),
        forall|k: int|
            0 <= k < count && (#[trigger] found[k]).0 is Some ==> is_known(
                first_places(found, count),
                found[k].0->0,
            ),
    decreases count,
{
    if count > 0 {
        lemma_first_places(found, count - 1);
        let before = first_places(found, count - 1);
        let after = first_places(found, count);
        assert forall|k: int| 0 <= k < count && (#[trigger] found[k]).0 is Some implies is_known(
            after,
            found[k].0->0,
        ) by {
            if k < count - 1 {
                let i = choose|i: int|
                    0 <= i < before.len() && path_key((#[trigger] before[i]).0) == path_key(
                        found[k].0->0,
                    );
                assert(after[i] == before[i]);
            } else if !is_known(before, found[k].0->0) {
                assert(after[before.len() as int].0 == found[k].0->0);
            }
        }
    }
}

/// After the places were sorted out, no file stands twice, and every file that was found stands once.
pub proof fn law_every_file_once(found: Seq<(Option<Seq<char>>, RacOrigin)>)
    ensures
        ({
            let kept = first_places(found, found.len() as int);
            &&& forall|i: int, j: int|
                #![trigger kept[i], kept[j]]
                0 <= i < j < kept.len() ==> path_key(kept[i].0) != path_key(kept[j].0)
            &&& forall|k: int|
                0 <= k < found.len() && (#[trigger] found[k]).0 is Some ==> is_known(
                    kept,
                    found[k].0->0,
                )
        }),
{
    lemma_first_places(found, found.len() as int);
}

/// What a search has seen so far.
pub struct SearchView {
    pub candidates: Seq<CandidateView>,
    pub unsupported: bool,
}

impl SearchView {
    pub open spec fn start() -> SearchView {
        SearchView { candidates: Seq::empty(), unsupported: false }
    }

    /// After the utility at a place was asked for its version.
    pub open spec fn after(
        self,
        policy: SearchPolicyView,
        place: (Seq<char>, RacOrigin),
        answer: Result<VersionView, RacErrorView>,
    ) -> SearchView {
        match answer {
            Ok(version) if policy.accepts(version) => SearchView {
                candidates: self.candidates.push(
                    CandidateView { path: place.0, version, origin: place.1 },
                ),
                ..self
            },
            Ok(_) => SearchView { unsupported: true, ..self },
            Err(error) if error.kind == RacErrorKind::UnsupportedVersion => SearchView {
                unsupported: true,
                ..self
            },
            Err(_) => self,
        }
    }
}

pub open spec fn candidate_views(candidates: Seq<RacCandidate>) -> Seq<CandidateView> {
    candidates.map_values(|candidate: RacCandidate| candidate@)
}

/// A search for copies of the utility, place by place.
pub struct CandidateSearch {
    candidates: Vec<RacCandidate>,
    unsupported: bool,
}

impl View for CandidateSearch {
    type V = SearchView;

    closed spec fn view(&self) -> SearchView {
        SearchView {
            candidates: candidate_views(self.candidates@),
            unsupported: self.unsupported,
        }
    }
}

/// Whether the list is the copies that a search saw, in the order in which they are tried.
pub open spec fn is_trial_order(list: Seq<RacCandidate>, seen: Seq<CandidateView>) -> bool {
    exists|before: Seq<RacCandidate>|
        candidate_views(before) == seen && #[trigger] order::is_stable_sort(
            before,
            list,
            candidate_ranking(),
        )
}

impl CandidateSearch {
    pub fn new() -> (result: Self)
        ensures
            result@ == SearchView::start(),
    {
        let result = CandidateSearch { candidates: Vec::new(), unsupported: false };
        assert(result@.candidates =~= Seq::<CandidateView>::empty());
        result
    }

    /// Takes in what the utility at a place answered when it was asked for its version. A cancelled
    /// run ends the search.
    pub fn note(
        &mut self,
        policy: &SearchPolicy,
        place: Place,
        answer: Result<PlatformVersion, RacError>,
    ) -> (result: Result<(), RacError>)
        ensures
            match result {
                Ok(_) => final(self)@ == old(self)@.after(
                    policy@,
                    place@,
                    outcome::result_view(answer),
                ),
                Err(error) => final(self)@ == old(self)@ && outcome::result_view(answer) == Err::<
                    VersionView,
                    RacErrorView,
                >(error@),
            },
            result is Err <==> (answer is Err && answer->Err_0@.kind == RacErrorKind::Cancelled),
    {
        match answer {
            Ok(version) => {
                if policy.accepts_version(version) {
                    let candidate = RacCandidate { path: place.path, version, origin: place.origin };
                    let ghost added = candidate@;
                    self.candidates.push(candidate);
                    assert(self@.candidates =~= old(self)@.candidates.push(added));
                } else {
                    self.unsupported = true;
                }
                Ok(())
            },
            Err(error) => {
                match error.kind() {
                    RacErrorKind::Cancelled => Err(error),
                    RacErrorKind::UnsupportedVersion => {
                        self.unsupported = true;
                        Ok(())
                    },
                    _ => Ok(()),
                }
            },
        }
    }

    /// The copies in the order in which they are tried, or why there is none.
    pub fn finish(self) -> (result: Result<Vec<RacCandidate>, RacError>)
        ensures
            match result {
                Ok(list) => self@.candidates.len() > 0 && is_trial_order(list@, self@.candidates),
                Err(error) => self@.candidates.len() == 0 && error@ == RacErrorView::bare(
                    if self@.unsupported {
                        RacErrorKind::UnsupportedVersion
                    } else {
                        RacErrorKind::NotFound
                    },
                ),
            },
    {
        if self.candidates.len() > 0 {
            let compare = |left: &RacCandidate, right: &RacCandidate| -> (found: Order)
                ensures
                    found == candidate_order(left@, right@),
                { compare_candidates(left, right) };
            proof {
                law_candidate_order_is_a_ranking();
            }
            let ghost seen = self.candidates@;
            let list = order::stable_sort(self.candidates, &compare, Ghost(candidate_ranking()));
            assert(candidate_views(seen) == self@.candidates);
            assert(order::is_stable_sort(seen, list@, candidate_ranking()));
            Ok(list)
        } else if self.unsupported {
            Err(RacError::new(RacErrorKind::UnsupportedVersion))
        } else {
            Err(RacError::new(RacErrorKind::NotFound))
        }
    }
}

/// The copy at a path that was asked for by name; `None` stands for a path without a file.
pub open spec fn explicit_candidate(
    policy: SearchPolicyView,
    file: Option<Seq<char>>,
    answer: Result<VersionView, RacErrorView>,
) -> Result<CandidateView, RacErrorView> {
    match (file, answer) {
        (None, _) => Err(RacErrorView::bare(RacErrorKind::NotFound)),
        (Some(_), Err(error)) => Err(error),
        (Some(path), Ok(version)) => if policy.accepts(version) {
            Ok(CandidateView { path, version, origin: RacOrigin::ExplicitArgument })
        } else {
            Err(RacErrorView::bare(RacErrorKind::UnsupportedVersion))
        },
    }
}

/// Decides on the copy at a path that was asked for by name. The answer of the utility is looked at
/// only where the path names a file.
pub fn validate_explicit(
    policy: &SearchPolicy,
    file: Option<String>,
    answer: Result<PlatformVersion, RacError>,
) -> (result: Result<RacCandidate, RacError>)
    ensures
        outcome::result_view(result) == explicit_candidate(
            policy@,
            outcome::option_view(file),
            outcome::result_view(answer),
        ),
{
    match file {
        None => Err(RacError::new(RacErrorKind::NotFound)),
        Some(path) => match answer {
            Err(error) => Err(error),
            Ok(version) => if policy.accepts_version(version) {
                Ok(RacCandidate { path, version, origin: RacOrigin::ExplicitArgument })
            } else {
                Err(RacError::new(RacErrorKind::UnsupportedVersion))
            },
        },
    }
}

} // verus!
