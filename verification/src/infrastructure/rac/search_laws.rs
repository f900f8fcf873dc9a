//! Which copy of the utility is used, and what is made of its answer.

use vstd::prelude::*;
use vstd::string::*;

use crate::domain::entries;
use crate::domain::version;
use crate::domain::version::VersionView;
use crate::infrastructure::rac::error::{RacError, RacErrorKind, RacErrorView};
use crate::infrastructure::rac::gateway;
use crate::infrastructure::rac::gateway::{
    read_answer, CacheEffectView, ExecutionView, Records,
};
use crate::infrastructure::rac::locator;
use crate::infrastructure::rac::locator::{
    validate_explicit, CandidateSearch, CandidateView, RacCandidate, RacOrigin, SearchPolicy,
    SearchPolicyView, SearchView, SelectionView,
};
use crate::infrastructure::rac::parser;
use crate::infrastructure::rac::parser::RacRecord;
use crate::infrastructure::rac::process;
use crate::infrastructure::rac::process::{
    InvocationView, IoFailureView, ProcessErrorView, ProcessIoStage, ProcessStatus,
    RedactedInvocation, RunAction, RunEventView, RunStateView,
};
use crate::infrastructure::rac::version as found;
use crate::infrastructure::rac::version::PlatformVersion;
use crate::number;
use crate::order;
use crate::order::Order;
use crate::text;

verus! {

/// A version is older than another: the first of its four numbers that differs is smaller.
pub open spec fn is_older(left: VersionView, right: VersionView) -> bool {
    ||| left.major < right.major
    ||| left.major == right.major && left.minor < right.minor
    ||| left.major == right.major && left.minor == right.minor && left.patch < right.patch
    ||| left.major == right.major && left.minor == right.minor && left.patch == right.patch
        && left.build < right.build
}

/// Versions compare number by number: the major number first, the build last.
pub proof fn law_versions_compare_by_their_numbers(left: VersionView, right: VersionView)
    ensures
        left.compare(right) == Order::Less <==> is_older(left, right),
        left.compare(right) == Order::Greater <==> is_older(right, left),
        left.compare(right) == Order::Equal <==> left == right,
{
}

/// A copy is accepted exactly where it is no older than 8.3.20.0, no older than the minimum asked for, and
/// of the very version asked for where one is.
pub proof fn law_copies_are_accepted_by_version(policy: SearchPolicyView, found: VersionView)
    ensures
        policy.accepts(found) <==> {
            &&& !is_older(found, VersionView { major: 8, minor: 3, patch: 20, build: 0 })
            &&& !is_older(found, policy.minimum_version)
            &&& policy.version matches SelectionView::Exact(asked) ==> found == asked
        },
{
    law_versions_compare_by_their_numbers(policy.minimum_version, version::min_supported());
    law_versions_compare_by_their_numbers(found, policy.effective_minimum());
}

/// A copy that was used before is used again only where its version is accepted still and the operator
/// names no other path.
pub proof fn law_kept_copies_are_used_again(
    policy: SearchPolicyView,
    candidate: CandidateView,
)
    ensures
        gateway::begun(Some(candidate), policy) is Cached <==> policy.accepts(candidate.version) && (
        policy.explicit_path is Some ==> locator::path_key(policy.explicit_path->0)
            == locator::path_key(candidate.path)),
        gateway::begun(Some(candidate), policy) is Cached ==> gateway::begun(
            Some(candidate),
            policy,
        )->Cached_candidate == candidate,
        gateway::begun(None, policy) == (ExecutionView::Locating { failed: None }),
{
}

/// The copies are tried from the newest to the oldest; of the same version, the one that the operator
/// names, then those of the environment, of the cluster, of the settings, of the search path, of the
/// registry and of the directories of programs.
pub proof fn law_newer_copies_are_tried_first(
    search: CandidateSearch,
    list: Vec<RacCandidate>,
    i: int,
    j: int,
)
    requires
        call_ensures(CandidateSearch::finish, (search,), Ok::<Vec<RacCandidate>, RacError>(list)),
        0 <= i < j < list@.len(),
    ensures
        !is_older(list@[i]@.version, list@[j]@.version),
        list@[i]@.version == list@[j]@.version ==> precedence(list@[i]@.origin) <= precedence(
            list@[j]@.origin,
        ),
{
    let before = choose|before: Seq<RacCandidate>|
        locator::candidate_views(before) == search@.candidates && #[trigger] order::is_stable_sort(
            before,
            list@,
            locator::candidate_ranking(),
        );
    let rank = locator::candidate_ranking();
    assert(rank(list@[i], list@[j]) != Order::Greater);
    law_versions_compare_by_their_numbers(list@[j]@.version, list@[i]@.version);
}

/// The place of an origin among the others.
pub open spec fn precedence(origin: RacOrigin) -> int {
    match origin {
        RacOrigin::ExplicitArgument => 1,
        RacOrigin::Environment => 2,
        RacOrigin::ClusterConfig => 3,
        RacOrigin::GlobalConfig => 4,
        RacOrigin::Path => 5,
        RacOrigin::Registry => 6,
        RacOrigin::ProgramFiles => 7,
        RacOrigin::ProgramFilesX86 => 8,
    }
}

/// A place where the utility may stand is looked at under the origin that names it: the paths of the
/// environment, of the cluster and of the settings, and those of the search path and of the registry.
pub proof fn law_places_bear_their_origin(
    policy: SearchPolicyView,
    on_path: Seq<Seq<char>>,
    registry: Seq<Seq<char>>,
    program_files: Seq<Seq<char>>,
    program_files_x86: Seq<Seq<char>>,
    i: int,
)
    requires
        0 <= i < locator::search_places(
            policy,
            on_path,
            registry,
            program_files,
            program_files_x86,
        ).len(),
    ensures
        ({
            let place = locator::search_places(
                policy,
                on_path,
                registry,
                program_files,
                program_files_x86,
            )[i];
            match place.1 {
                RacOrigin::ExplicitArgument => false,
                RacOrigin::Environment => policy.environment.rac_path == Some(place.0),
                RacOrigin::ClusterConfig => policy.cluster_path == Some(place.0),
                RacOrigin::GlobalConfig => policy.global_path == Some(place.0),
                RacOrigin::Path => on_path.contains(place.0),
                RacOrigin::Registry => policy.registry_paths.contains(place.0)
                    || policy.search_registry && registry.contains(place.0),
                RacOrigin::ProgramFiles => policy.search_program_files && program_files.contains(
                    place.0,
                ),
                RacOrigin::ProgramFilesX86 => policy.search_program_files
                    && program_files_x86.contains(place.0),
            }
        }),
{
    let a = locator::optional_place(policy.environment.rac_path, RacOrigin::Environment);
    let b = locator::optional_place(policy.cluster_path, RacOrigin::ClusterConfig);
    let c = locator::optional_place(policy.global_path, RacOrigin::GlobalConfig);
    let d = locator::places_of(on_path, RacOrigin::Path);
    let e = locator::places_of(policy.registry_paths, RacOrigin::Registry);
    let f = if policy.search_registry {
        locator::places_of(registry, RacOrigin::Registry)
    } else {
        Seq::empty()
    };
    let g = if policy.search_program_files && policy.environment.program_files is Some {
        locator::places_of(program_files, RacOrigin::ProgramFiles)
    } else {
        Seq::empty()
    };
    let k1 = a.len() + b.len() + c.len();
    let k2 = k1 + d.len();
    let k3 = k2 + e.len();
    let k4 = k3 + f.len();
    let k5 = k4 + g.len();
    let place = locator::search_places(
        policy,
        on_path,
        registry,
        program_files,
        program_files_x86,
    )[i];
    if k1 <= i < k2 {
        assert(place.0 == on_path[i - k1]);
    } else if k2 <= i < k3 {
        assert(place.0 == policy.registry_paths[i - k2]);
    } else if k3 <= i < k4 {
        assert(place.0 == registry[i - k3]);
    } else if k4 <= i < k5 {
        assert(place.0 == program_files[i - k4]);
    } else if k5 <= i {
        assert(place.0 == program_files_x86[i - k5]);
    }
}

/// A path that the operator names is used where it is a file of an accepted version; otherwise the command
/// ends with the reason, and no other copy is tried.
pub proof fn law_named_copies_are_used_or_refused(
    policy: SearchPolicy,
    file: Option<String>,
    answer: Result<PlatformVersion, RacError>,
    result: Result<RacCandidate, RacError>,
)
    requires
        call_ensures(validate_explicit, (&policy, file, answer), result),
    ensures
        result is Ok <==> file is Some && answer is Ok && policy@.accepts(answer->Ok_0@),
        result is Ok ==> result->Ok_0@.path == file->0@ && result->Ok_0@.version == answer->Ok_0@
            && result->Ok_0@.origin == RacOrigin::ExplicitArgument,
        file is None ==> result->Err_0@.kind == RacErrorKind::NotFound,
        file is Some && answer is Ok && !policy@.accepts(answer->Ok_0@) ==> result->Err_0@.kind
            == RacErrorKind::UnsupportedVersion,
        file is Some && answer is Err ==> result->Err_0@ == answer->Err_0@,
{
}

/// A search takes in a copy with the version that it told and the place it stands at, where the version is
/// accepted; a copy of another version is only remembered as unsupported.
pub proof fn law_searches_take_in_accepted_copies(
    search: SearchView,
    policy: SearchPolicyView,
    place: (Seq<char>, RacOrigin),
    answer: Result<VersionView, RacErrorView>,
)
    ensures
        ({
            let after = search.after(policy, place, answer);
            &&& answer is Ok && policy.accepts(answer->Ok_0) ==> after.candidates
                == search.candidates.push(
                CandidateView { path: place.0, version: answer->Ok_0, origin: place.1 },
            ) && after.unsupported == search.unsupported
            &&& !(answer is Ok && policy.accepts(answer->Ok_0)) ==> after.candidates
                == search.candidates
            &&& answer is Ok && !policy.accepts(answer->Ok_0) ==> after.unsupported
        }),
{
}

/// A run answers with its records exactly where it exits with zero and its output is a list of records; a
/// run that exits otherwise is an error with that code, whatever it printed.
pub proof fn law_runs_answer_where_they_succeed(
    status: ProcessStatus,
    stdout: &str,
    stderr: &str,
    invocation: RedactedInvocation,
    result: Result<Vec<RacRecord>, RacError>,
)
    requires
        call_ensures(read_answer, (status, stdout, stderr, &invocation), result),
    ensures
        result is Ok <==> status.code == Some(0i32) && parser::records_of(stdout@) is Ok,
        result is Ok ==> parser::record_views(result->Ok_0@) == parser::records_of(stdout@)->Ok_0,
        status.code != Some(0i32) ==> result->Err_0@.exit_code == status.code,
        status.code == Some(0i32) && result is Err ==> result->Err_0@.kind == RacErrorKind::Parse,
{
    assert(result is Ok <==> gateway::answer_view(result) is Ok);
    if result is Err {
        assert(gateway::answer_view(result)->Err_0 == result->Err_0@);
    }
    if result is Ok {
        assert(gateway::answer_view(result)->Ok_0 == parser::record_views(result->Ok_0@));
    }
}

/// A command that is answered ends with that answer, and the copy that answered is kept for its server; the
/// kept copy is forgotten where its protocol does not fit any more.
pub proof fn law_answers_end_the_command(
    state: ExecutionView,
    records: Records,
    error: RacErrorView,
    found: Seq<CandidateView>,
)
    ensures
        state is Cached || state is Trying ==> gateway::answered_state(state, Ok(records)).0 == (
        ExecutionView::Done { answer: Ok(records) }),
        state is Trying ==> gateway::answered_state(state, Ok(records)).1
            == CacheEffectView::Remember(state->Trying_current),
        state is Cached ==> gateway::answered_state(state, Ok(records)).1 == CacheEffectView::Keep,
        state is Cached && error.kind == RacErrorKind::ProtocolIncompatible
            ==> gateway::answered_state(state, Err(error)) == (
            ExecutionView::Locating { failed: Some((state->Cached_candidate, error)) },
            CacheEffectView::Forget,
        ),
        found.len() > 0 ==> gateway::located(ExecutionView::Locating { failed: None }, Ok(found)) == (
        ExecutionView::Trying {
            current: found[0],
            rest: found.drop_first(),
            skipped: None,
            last: None,
        }),
        gateway::located(ExecutionView::Locating { failed: None }, Err(error)) == (
        ExecutionView::Done { answer: Err(error) }),
{
}

/// A run that is cancelled, that takes too long, or whose process cannot be started or waited for ends with
/// that very error; one that exits goes on to its output.
pub proof fn law_runs_end_as_they_went(
    state: RunStateView,
    failure: IoFailureView,
    status: ProcessStatus,
    invocation: InvocationView,
)
    ensures
        state is Waiting ==> process::next(state, RunEventView::Cancelled, invocation).0
            == RunStateView::Finished(Err(ProcessErrorView::Cancelled { invocation })),
        state is Waiting || state is ReadingStdout || state is ReadingStderr ==> process::next(
            state,
            RunEventView::DeadlinePassed,
            invocation,
        ).0 == RunStateView::Finished(Err(ProcessErrorView::Timeout { invocation })),
        state is Starting ==> process::next(
            state,
            RunEventView::SpawnFailed(failure),
            invocation,
        ).0 == RunStateView::Finished(
            Err(ProcessErrorView::Io { stage: ProcessIoStage::Spawn, failure, invocation }),
        ),
        state is Starting ==> process::next(state, RunEventView::Spawned, invocation) == (
            RunStateView::Waiting,
            RunAction::AwaitExit,
        ),
        state is Waiting ==> process::next(state, RunEventView::WaitFailed(failure), invocation).0
            == RunStateView::Finished(
            Err(ProcessErrorView::Io { stage: ProcessIoStage::Wait, failure, invocation }),
        ),
        state is Waiting ==> process::next(state, RunEventView::Exited(status), invocation) == (
            RunStateView::ReadingStdout { status },
            RunAction::AwaitStdout,
        ),
{
}

/// A run that took too long is a timeout, a cancelled one is cancelled, and a utility that is not there is
/// not found; the error keeps how the utility was called.
pub proof fn law_failed_runs_are_told_apart(error: ProcessErrorView)
    ensures
        ({
            let told = RacErrorView::of_process(error);
            &&& error is Timeout <==> told.kind == RacErrorKind::Timeout
            &&& error is Cancelled <==> told.kind == RacErrorKind::Cancelled
            &&& told.kind == RacErrorKind::NotFound <==> error is Io && error->failure.kind
                == "NotFound"@
            &&& told.invocation == Some(error.invocation())
            &&& told.exit_code is None
        }),
{
}

proof fn lemma_version_run(s: Seq<char>, from: int, end: int)
    requires
        0 <= from <= end <= s.len(),
        forall|i: int| from <= i < end ==> found::is_version_char(#[trigger] s[i]),
        end < s.len() ==> !found::is_version_char(s[end]),
    ensures
        found::run_end(s, from) == end,
    decreases end - from,
{
    if from < end {
        assert(found::is_version_char(s[from]));
        lemma_version_run(s, from + 1, end);
    }
}

proof fn lemma_no_version_of_nothing()
    ensures
        version::version_of(Seq::empty()) is None,
{
    text::lemma_split_single(Seq::empty(), '.');
}

proof fn lemma_version_is_found(s: Seq<char>, at: int, end: int, from: int)
    requires
        0 <= from <= at <= end <= s.len(),
        forall|i: int| 0 <= i < at ==> !found::is_version_char(#[trigger] s[i]),
        forall|i: int| at <= i < end ==> found::is_version_char(#[trigger] s[i]),
        end < s.len() ==> !found::is_version_char(s[end]),
        version::version_of(s.subrange(at, end)) is Some,
    ensures
        found::first_version(s, from) == version::version_of(s.subrange(at, end)),
    decreases at - from,
{
    if from < at {
        assert(!found::is_version_char(s[from]));
        lemma_version_run(s, from, from);
        assert(s.subrange(from, from) =~= Seq::<char>::empty());
        lemma_no_version_of_nothing();
        lemma_version_is_found(s, at, end, from + 1);
    } else {
        lemma_version_run(s, at, end);
    }
}

proof fn lemma_version_chars(told: VersionView)
    ensures
        forall|i: int| 0 <= i < told.text().len() ==> found::is_version_char(#[trigger] told.text()[i]),
{
    number::lemma_decimal_round_trip(told.major as nat);
    number::lemma_decimal_round_trip(told.minor as nat);
    number::lemma_decimal_round_trip(told.patch as nat);
    number::lemma_decimal_round_trip(told.build as nat);
    reveal_strlit(".");
    let a = number::decimal(told.major as nat);
    let b = number::decimal(told.minor as nat);
    let c = number::decimal(told.patch as nat);
    let d = number::decimal(told.build as nat);
    assert forall|i: int| 0 <= i < told.text().len() implies found::is_version_char(
        #[trigger] told.text()[i],
    ) by {
        let k1 = a.len() as int;
        let k2 = k1 + 1 + b.len();
        let k3 = k2 + 1 + c.len();
        if i < k1 {
            assert(told.text()[i] == a[i]);
        } else if i == k1 {
            assert(told.text()[i] == '.');
        } else if i < k2 {
            assert(told.text()[i] == b[i - k1 - 1]);
        } else if i == k2 {
            assert(told.text()[i] == '.');
        } else if i < k3 {
            assert(told.text()[i] == c[i - k2 - 1]);
        } else if i == k3 {
            assert(told.text()[i] == '.');
        } else {
            assert(told.text()[i] == d[i - k3 - 1]);
        }
    }
}

/// The version of a copy is the one that it prints, whatever words stand before it and after it; it counts
/// only where the run succeeded.
pub proof fn law_the_printed_version_is_told(
    before: Seq<char>,
    told: VersionView,
    after: Seq<char>,
    status: ProcessStatus,
    stderr: Seq<char>,
    invocation: InvocationView,
)
    requires
        forall|i: int| 0 <= i < before.len() ==> !found::is_version_char(#[trigger] before[i]),
        after.len() > 0 ==> !found::is_version_char(after[0]),
    ensures
        ({
            let stdout = before + told.text() + after;
            &&& status.code == Some(0i32) ==> found::probed(status, stdout, stderr, invocation) == Ok::<
                VersionView,
                RacErrorView,
            >(told)
            &&& status.code != Some(0i32) ==> found::probed(status, stdout, stderr, invocation) is Err
        }),
{
    let stdout = before + told.text() + after;
    let at = before.len() as int;
    let end = at + told.text().len();
    version::law_version_round_trip(told);
    lemma_version_chars(told);
    assert(stdout.subrange(at, end) =~= told.text());
    assert forall|i: int| 0 <= i < at implies !found::is_version_char(#[trigger] stdout[i]) by {
        assert(stdout[i] == before[i]);
    }
    assert forall|i: int| at <= i < end implies found::is_version_char(#[trigger] stdout[i]) by {
        assert(stdout[i] == told.text()[i - at]);
    }
    if end < stdout.len() {
        assert(stdout[end] == after[0]);
    }
    lemma_version_is_found(stdout, at, end, 0);
}

/// Two addresses are of one server: the same text but for case and the whitespace around it.
pub open spec fn is_same_server(left: Seq<char>, right: Seq<char>) -> bool {
    text::lowercase(text::trim(left)) == text::lowercase(text::trim(right))
}

/// The copy that is kept for a server is found for that server and for no other, and is gone once it is
/// dropped; what is kept for the others stays.
pub proof fn law_copies_are_kept_by_server(
    kept: Seq<(Seq<char>, CandidateView)>,
    server: Seq<char>,
    candidate: CandidateView,
    other: Seq<char>,
)
    requires
        entries::distinct(kept),
    ensures
        ({
            let known = entries::lookup(kept, gateway::cache_key(other));
            let after = entries::inserted(kept, gateway::cache_key(server), candidate);
            let dropped = entries::removed(kept, gateway::cache_key(server));
            &&& is_same_server(server, other) ==> entries::lookup(after, gateway::cache_key(other))
                == Some(candidate) && entries::lookup(dropped, gateway::cache_key(other)) is None
            &&& !is_same_server(server, other) ==> entries::lookup(after, gateway::cache_key(other))
                == known && entries::lookup(dropped, gateway::cache_key(other)) == known
        }),
{
    entries::law_insert(kept, gateway::cache_key(server), candidate, gateway::cache_key(other));
    entries::law_remove(kept, gateway::cache_key(server), gateway::cache_key(other));
}

} // verus!
