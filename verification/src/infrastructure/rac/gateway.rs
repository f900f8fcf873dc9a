//! One command of the utility: which copy runs it, what its answer means, and which copy is kept.

use vstd::prelude::*;
use vstd::string::*;

use crate::domain::entries;
use crate::infrastructure::rac::encoding;
use crate::infrastructure::rac::encoding::RacOutputDecoder;
use crate::infrastructure::rac::error;
use crate::infrastructure::rac::error::{RacError, RacErrorKind, RacErrorView};
use crate::infrastructure::rac::locator;
use crate::infrastructure::rac::locator::{CandidateView, RacCandidate, SearchPolicy};
use crate::infrastructure::rac::parser;
use crate::infrastructure::rac::parser::RacRecord;
use crate::infrastructure::rac::process::{
    InvocationView, ProcessStatus, RacProcessOutput, RedactedInvocation,
};
use crate::outcome;
use crate::text;

verus! {

/// The records of an answer as mathematical values.
pub type Records = Seq<Seq<(Seq<char>, Seq<char>)>>;

/// A result with its records taken by view.
pub open spec fn answer_view(answer: Result<Vec<RacRecord>, RacError>) -> Result<
    Records,
    RacErrorView,
> {
    match answer {
        Ok(records) => Ok(parser::record_views(records@)),
        Err(error) => Err(error@),
    }
}

/// What a failed run says of itself: on its error stream, or else on its output.
pub open spec fn diagnosed(stdout: Seq<char>, stderr: Seq<char>) -> RacErrorKind {
    let kind = error::kind_of(error::folded(stderr));
    if kind == RacErrorKind::Unknown {
        error::kind_of(error::folded(stdout))
    } else {
        kind
    }
}

/// What a finished run answers, its output taken as text.
pub open spec fn answered(
    status: ProcessStatus,
    stdout: Seq<char>,
    stderr: Seq<char>,
    invocation: InvocationView,
) -> Result<Records, RacErrorView> {
    if status.code != Some(0i32) {
        Err(
            RacErrorView {
                kind: diagnosed(stdout, stderr),
                invocation: Some(invocation),
                exit_code: status.code,
            },
        )
    } else {
        match parser::records_of(stdout) {
            Ok(records) => Ok(records),
            Err(_) => Err(RacErrorView::of_run(RacErrorKind::Parse, invocation)),
        }
    }
}

/// The records of a finished run, or why it has none.
pub fn read_answer(
    status: ProcessStatus,
    stdout: &str,
    stderr: &str,
    invocation: &RedactedInvocation,
) -> (result: Result<Vec<RacRecord>, RacError>)
    ensures
        answer_view(result) == answered(status, stdout@, stderr@, invocation@),
{
    if !status.success() {
        let mut kind = error::classify_diagnostic(stderr);
        if kind == RacErrorKind::Unknown {
            kind = error::classify_diagnostic(stdout);
        }
        return Err(RacError::command_failed(kind, status.code(), invocation.clone()));
    }
    match parser::parse_rac_records(stdout) {
        Ok(records) => Ok(records),
        Err(_) => Err(RacError::with_invocation(RacErrorKind::Parse, invocation.clone())),
    }
}

/// The records that a finished run printed, or why it printed none.
pub fn interpret_output(output: &RacProcessOutput) -> (result: Result<Vec<RacRecord>, RacError>)
    ensures
        answer_view(result) == answered(
            output@.status,
            encoding::decoded_output(output@.stdout).text,
            encoding::decoded_output(output@.stderr).text,
            output@.invocation,
        ),
{
    let stdout = RacOutputDecoder::decode(output.stdout());
    let stderr = RacOutputDecoder::decode(output.stderr());
    read_answer(output.status(), stdout.text(), stderr.text(), output.invocation())
}

/// The key under which the copy for a server is kept.
pub open spec fn cache_key(ras_address: Seq<char>) -> Seq<char> {
    text::lowercase(text::trim(ras_address))
}

/// The key under which the copy for a server is kept.
pub fn endpoint_cache_key(ras_address: &str) -> (result: String)
    ensures
        result@ == cache_key(ras_address@),
{
    text::to_lowercase(text::trim_text(ras_address).as_str())
}

/// A copy of the utility under the key of a server.
struct CachedCandidate {
    key: String,
    candidate: RacCandidate,
}

/// The copies that served a server last.
pub struct CandidateCache {
    entries: Vec<CachedCandidate>,
}

impl View for CandidateCache {
    type V = Seq<(Seq<char>, CandidateView)>;

    closed spec fn view(&self) -> Seq<(Seq<char>, CandidateView)> {
        cached_views(self.entries@)
    }
}

closed spec fn cached_views(items: Seq<CachedCandidate>) -> Seq<(Seq<char>, CandidateView)> {
    items.map_values(|item: CachedCandidate| (item.key@, item.candidate@))
}

impl CandidateCache {
    pub fn new() -> (result: Self)
        ensures
            result@ == Seq::<(Seq<char>, CandidateView)>::empty(),
    {
        let result = CandidateCache { entries: Vec::new() };
        assert(result@ =~= Seq::<(Seq<char>, CandidateView)>::empty());
        result
    }

    fn position(&self, key: &str) -> (result: usize)
        ensures
            result == entries::position(self@, key@, 0),
            result <= self.entries@.len(),
    {
        let mut i: usize = 0;
        while i < self.entries.len()
            invariant
                i <= self.entries.len(),
                entries::position(self@, key@, 0) == entries::position(self@, key@, i as int),
            decreases self.entries.len() - i,
        {
            assert(self@[i as int].0 == self.entries@[i as int].key@);
            if text::same(self.entries[i].key.as_str(), key) {
                return i;
            }
            i = i + 1;
        }
        i
    }

    /// The copy for a server.
    pub fn get(&self, ras_address: &str) -> (result: Option<RacCandidate>)
        ensures
            outcome::option_view(result) == entries::lookup(self@, cache_key(ras_address@)),
    {
        let key = endpoint_cache_key(ras_address);
        let at: usize = self.position(key.as_str());
        if at < self.entries.len() {
            assert(self@[at as int].1 == self.entries@[at as int].candidate@);
            Some(self.entries[at].candidate.clone())
        } else {
            None
        }
    }

    /// Keeps a copy for a server.
    pub fn insert(&mut self, ras_address: &str, candidate: RacCandidate)
        ensures
            final(self)@ == entries::inserted(
                old(self)@,
                cache_key(ras_address@),
                candidate@,
            ),
    {
        let ghost added = candidate@;
        let key = endpoint_cache_key(ras_address);
        let at: usize = self.position(key.as_str());
        let ghost name = key@;
        proof {
            entries::lemma_position(self@, name, 0);
        }
        if at < self.entries.len() {
            assert(self@[at as int].0 == name);
            self.entries.set(at, CachedCandidate { key, candidate });
            assert(self@ =~= old(self)@.update(at as int, (name, added)));
        } else {
            self.entries.push(CachedCandidate { key, candidate });
            assert(self@ =~= old(self)@.push((name, added)));
        }
    }

    /// Drops the copy for a server.
    pub fn remove(&mut self, ras_address: &str)
        ensures
            final(self)@ == entries::removed(old(self)@, cache_key(ras_address@)),
    {
        let key = endpoint_cache_key(ras_address);
        let at: usize = self.position(key.as_str());
        if at < self.entries.len() {
            let _ = self.entries.remove(at);
            assert(self@ =~= old(self)@.remove(at as int));
        }
    }

    pub fn clear(&mut self)
        ensures
            final(self)@ == Seq::<(Seq<char>, CandidateView)>::empty(),
    {
        self.entries.clear();
        assert(self@ =~= Seq::<(Seq<char>, CandidateView)>::empty());
    }
}

/// Where a command stands.
pub enum ExecutionState {
    /// The copy that was kept runs the command.
    Cached { candidate: RacCandidate },
    /// Copies are looked for; the kept one has failed, where there was one.
    Locating { failed: Option<(RacCandidate, RacError)> },
    /// A copy runs the command; the rest is tried after it.
    Trying {
        current: RacCandidate,
        rest: Vec<RacCandidate>,
        skipped: Option<String>,
        last: Option<RacError>,
    },
    Done { answer: Result<Vec<RacRecord>, RacError> },
}

pub enum ExecutionView {
    Cached { candidate: CandidateView },
    Locating { failed: Option<(CandidateView, RacErrorView)> },
    Trying {
        current: CandidateView,
        rest: Seq<CandidateView>,
        skipped: Option<Seq<char>>,
        last: Option<RacErrorView>,
    },
    Done { answer: Result<Records, RacErrorView> },
}

pub open spec fn failed_view(failed: Option<(RacCandidate, RacError)>) -> Option<
    (CandidateView, RacErrorView),
> {
    match failed {
        Some((candidate, error)) => Some((candidate@, error@)),
        None => None,
    }
}

impl View for ExecutionState {
    type V = ExecutionView;

    open spec fn view(&self) -> ExecutionView {
        match self {
            ExecutionState::Cached { candidate } => ExecutionView::Cached { candidate: candidate@ },
            ExecutionState::Locating { failed } => ExecutionView::Locating {
                failed: failed_view(*failed),
            },
            ExecutionState::Trying { current, rest, skipped, last } => ExecutionView::Trying {
                current: current@,
                rest: locator::candidate_views(rest@),
                skipped: outcome::option_view(*skipped),
                last: outcome::option_view(*last),
            },
            ExecutionState::Done { answer } => ExecutionView::Done { answer: answer_view(*answer) },
        }
    }
}

/// What a step does to the copy that is kept for the server.
pub enum CacheEffect {
    Keep,
    Forget,
    Remember(RacCandidate),
}

pub enum CacheEffectView {
    Keep,
    Forget,
    Remember(CandidateView),
}

impl View for CacheEffect {
    type V = CacheEffectView;

    open spec fn view(&self) -> CacheEffectView {
        match self {
            CacheEffect::Keep => CacheEffectView::Keep,
            CacheEffect::Forget => CacheEffectView::Forget,
            CacheEffect::Remember(candidate) => CacheEffectView::Remember(candidate@),
        }
    }
}

/// The first copy that is not the one that failed already; without any, the last mismatch of
/// protocols is the answer.
pub open spec fn settled(
    rest: Seq<CandidateView>,
    skipped: Option<Seq<char>>,
    last: Option<RacErrorView>,
) -> ExecutionView
    decreases rest.len(),
{
    if rest.len() == 0 {
        ExecutionView::Done {
            answer: Err(
                match last {
                    Some(error) => error,
                    None => RacErrorView::bare(RacErrorKind::ProtocolIncompatible),
                },
            ),
        }
    } else if skipped == Some(rest[0].path) {
        settled(rest.drop_first(), skipped, last)
    } else {
        ExecutionView::Trying { current: rest[0], rest: rest.drop_first(), skipped, last }
    }
}

/// The first state of a command.
pub open spec fn begun(
    cached: Option<CandidateView>,
    policy: locator::SearchPolicyView,
) -> ExecutionView {
    match cached {
        Some(candidate) if policy.accepts_again(candidate) => ExecutionView::Cached { candidate },
        _ => ExecutionView::Locating { failed: None },
    }
}

/// The state after the search for copies.
pub open spec fn located(
    state: ExecutionView,
    found: Result<Seq<CandidateView>, RacErrorView>,
) -> ExecutionView {
    match (state, found) {
        (ExecutionView::Locating { .. }, Err(error)) => ExecutionView::Done { answer: Err(error) },
        (ExecutionView::Locating { failed: Some((candidate, error)) }, Ok(list)) => settled(
            list,
            Some(candidate.path),
            Some(error),
        ),
        (ExecutionView::Locating { failed: None }, Ok(list)) => settled(list, None, None),
        _ => state,
    }
}

/// The state after a run, and what becomes of the kept copy.
pub open spec fn answered_state(
    state: ExecutionView,
    answer: Result<Records, RacErrorView>,
) -> (ExecutionView, CacheEffectView) {
    match (state, answer) {
        (ExecutionView::Cached { candidate }, Err(error)) if error.kind
            == RacErrorKind::ProtocolIncompatible => (
            ExecutionView::Locating { failed: Some((candidate, error)) },
            CacheEffectView::Forget,
        ),
        (ExecutionView::Cached { .. }, _) => (
            ExecutionView::Done { answer },
            CacheEffectView::Keep,
        ),
        (ExecutionView::Trying { current, .. }, Ok(_)) => (
            ExecutionView::Done { answer },
            CacheEffectView::Remember(current),
        ),
        (ExecutionView::Trying { rest, skipped, .. }, Err(error)) => if error.kind
            == RacErrorKind::ProtocolIncompatible {
            (settled(rest, skipped, Some(error)), CacheEffectView::Keep)
        } else {
            (ExecutionView::Done { answer }, CacheEffectView::Keep)
        },
        _ => (state, CacheEffectView::Keep),
    }
}

fn settle(
    rest: Vec<RacCandidate>,
    skipped: Option<String>,
    last: Option<RacError>,
) -> (result: ExecutionState)
    ensures
        result@ == settled(
            locator::candidate_views(rest@),
            outcome::option_view(skipped),
            outcome::option_view(last),
        ),
{
    let mut left = rest;
    let ghost all = locator::candidate_views(rest@);
    let ghost passed_over = outcome::option_view(skipped);
    let ghost mismatch = outcome::option_view(last);
    while left.len() > 0
        invariant
            all == locator::candidate_views(rest@),
            passed_over == outcome::option_view(skipped),
            mismatch == outcome::option_view(last),
            settled(all, passed_over, mismatch) == settled(
                locator::candidate_views(left@),
                passed_over,
                mismatch,
            ),
        decreases left.len(),
    {
        let ghost before = locator::candidate_views(left@);
        let current = left.remove(0);
        assert(before[0] == current@);
        assert(locator::candidate_views(left@) =~= before.drop_first());
        let again = match &skipped {
            Some(path) => text::same(path.as_str(), current.path.as_str()),
            None => false,
        };
        if !again {
            return ExecutionState::Trying { current, rest: left, skipped, last };
        }
    }
    match last {
        Some(error) => ExecutionState::Done { answer: Err(error) },
        None => ExecutionState::Done {
            answer: Err(RacError::new(RacErrorKind::ProtocolIncompatible)),
        },
    }
}

/// One command, driven by the runs of the utility.
pub struct RacExecution {
    state: ExecutionState,
}

impl View for RacExecution {
    type V = ExecutionView;

    closed spec fn view(&self) -> ExecutionView {
        self.state@
    }
}

impl RacExecution {
    /// Begins with the copy that was kept for the server, if the policy accepts it.
    pub fn begin(cached: Option<RacCandidate>, policy: &SearchPolicy) -> (result: Self)
        ensures
            result@ == begun(outcome::option_view(cached), policy@),
    {
        let state = match cached {
            Some(candidate) => if policy.accepts_cached(&candidate) {
                ExecutionState::Cached { candidate }
            } else {
                ExecutionState::Locating { failed: None }
            },
            None => ExecutionState::Locating { failed: None },
        };
        RacExecution { state }
    }

    /// Where the command stands.
    pub fn state(&self) -> (result: &ExecutionState)
        ensures
            result@ == self@,
    {
        &self.state
    }

    /// Takes in the copies that were found.
    pub fn candidates_found(self, found: Result<Vec<RacCandidate>, RacError>) -> (result: Self)
        ensures
            result@ == located(
                self@,
                match found {
                    Ok(list) => Ok(locator::candidate_views(list@)),
                    Err(error) => Err(error@),
                },
            ),
    {
        let state = match (self.state, found) {
            (ExecutionState::Locating { .. }, Err(error)) => ExecutionState::Done {
                answer: Err(error),
            },
            (ExecutionState::Locating { failed: Some((candidate, error)) }, Ok(list)) => settle(
                list,
                Some(candidate.path),
                Some(error),
            ),
            (ExecutionState::Locating { failed: None }, Ok(list)) => settle(list, None, None),
            (unchanged, _) => unchanged,
        };
        RacExecution { state }
    }

    /// Takes in the answer of the copy that ran the command.
    pub fn run_answered(self, answer: Result<Vec<RacRecord>, RacError>) -> (result: (
        Self,
        CacheEffect,
    ))
        ensures
            (result.0@, result.1@) == answered_state(self@, answer_view(answer)),
    {
        match (self.state, answer) {
            (ExecutionState::Cached { candidate }, Err(error)) => if error.allows_version_fallback() {
                (
                    RacExecution {
                        state: ExecutionState::Locating { failed: Some((candidate, error)) },
                    },
                    CacheEffect::Forget,
                )
            } else {
                (
                    RacExecution { state: ExecutionState::Done { answer: Err(error) } },
                    CacheEffect::Keep,
                )
            },
            (ExecutionState::Cached { .. }, Ok(records)) => (
                RacExecution { state: ExecutionState::Done { answer: Ok(records) } },
                CacheEffect::Keep,
            ),
            (ExecutionState::Trying { current, .. }, Ok(records)) => (
                RacExecution { state: ExecutionState::Done { answer: Ok(records) } },
                CacheEffect::Remember(current),
            ),
            (ExecutionState::Trying { rest, skipped, .. }, Err(error)) => {
                if error.allows_version_fallback() {
                    (
                        RacExecution { state: settle(rest, skipped, Some(error)) },
                        CacheEffect::Keep,
                    )
                } else {
                    (
                        RacExecution { state: ExecutionState::Done { answer: Err(error) } },
                        CacheEffect::Keep,
                    )
                }
            },
            (unchanged, _) => (RacExecution { state: unchanged }, CacheEffect::Keep),
        }
    }

    /// The answer to the command, once there is one.
    pub fn into_answer(self) -> (result: Option<Result<Vec<RacRecord>, RacError>>)
        ensures
            match result {
                Some(answer) => self@ == (ExecutionView::Done { answer: answer_view(answer) }),
                None => !(self@ is Done),
            },
    {
        match self.state {
            ExecutionState::Done { answer } => Some(answer),
            _ => None,
        }
    }
}

/// A run that fails with anything but a mismatch of protocols ends the command with its error.
pub proof fn law_other_errors_end_the_command(state: ExecutionView, error: RacErrorView)
    requires
        state is Cached || state is Trying,
        error.kind != RacErrorKind::ProtocolIncompatible,
    ensures
        answered_state(state, Err(error)) == (
            ExecutionView::Done { answer: Err(error) },
            CacheEffectView::Keep,
        ),
{
}

proof fn lemma_settled(
    rest: Seq<CandidateView>,
    skipped: Option<Seq<char>>,
    last: Option<RacErrorView>,
)
    ensures
        match settled(rest, skipped, last) {
            ExecutionView::Trying { current, rest: left, skipped: same, .. } => skipped != Some(
                current.path,
            ) && same == skipped && left.len() < rest.len(),
            ExecutionView::Done { answer } => answer is Err,
            _ => false,
        },
    decreases rest.len(),
{
    if rest.len() > 0 && skipped == Some(rest[0].path) {
        lemma_settled(rest.drop_first(), skipped, last);
    }
}

/// A mismatch of protocols leads on to another copy, never to the one that was kept and failed, and
/// each such step leaves fewer copies; where none is left the command ends with an error.
pub proof fn law_mismatch_tries_the_next_copy(state: ExecutionView, error: RacErrorView)
    requires
        state is Trying,
        error.kind == RacErrorKind::ProtocolIncompatible,
    ensures
        match (state, answered_state(state, Err(error)).0) {
            (
                ExecutionView::Trying { rest, skipped, .. },
                ExecutionView::Trying { current, rest: left, .. },
            ) => skipped != Some(current.path) && left.len() < rest.len(),
            (ExecutionView::Trying { .. }, ExecutionView::Done { answer }) => answer is Err,
            _ => false,
        },
{
    if let ExecutionView::Trying { rest, skipped, .. } = state {
        lemma_settled(rest, skipped, Some(error));
    }
}

/// A copy is kept only when it has answered a command.
pub proof fn law_only_answering_copies_are_kept(
    state: ExecutionView,
    answer: Result<Records, RacErrorView>,
)
    ensures
        answered_state(state, answer).1 is Remember ==> answer is Ok && state is Trying
            && answered_state(state, answer).1 == CacheEffectView::Remember(state->current),
{
}

} // verus!
