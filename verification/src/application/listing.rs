//! Lists of records: what is read from the answer of one target, and what is made of the answers of
//! several.

use std::collections::{HashMap, HashSet};

use vstd::prelude::*;
use vstd::string::*;

use crate::application::conversion::{ConfiguredTarget, ConfiguredView};
use crate::application::error::{AppError, AppProblem};
use crate::application::normalize;
use crate::application::normalize::{Fields, NormalizationProblem};
use crate::application::targets;
use crate::application::targets::{fail_command, fail_target, LiveCluster};
use crate::domain::error::DomainErrorView;
use crate::domain::identity;
use crate::domain::identity::{InfobaseUuid, Uuid};
use crate::domain::model::{FieldAccess, InfobaseRecord};
use crate::domain::outcome::{QueryOutcome, TargetError, TargetErrorKind, TargetProblem};
use crate::domain::query;
use crate::domain::query::{QueryEngine, QuerySpec, QuerySpecView};
use crate::infrastructure::rac::error::RacError;
use crate::infrastructure::rac::parser::RacRecord;
use crate::order;
use crate::outcome;
use crate::text;

verus! {

broadcast use vstd::std_specs::hash::group_hash_axioms;

/// What is known of the identity of a record.
pub type Identity = Result<u128, NormalizationProblem>;

/// Why the first `count` records of an answer cannot be used: one without an identity, or one whose
/// identity an earlier one has; `repeated` begins the text of the latter.
pub open spec fn first_unusable(ids: Seq<Identity>, repeated: Seq<char>, count: int) -> Option<
    Seq<char>,
>
    decreases count,
{
    if count <= 0 {
        None
    } else {
        match first_unusable(ids, repeated, count - 1) {
            Some(message) => Some(message),
            None => match ids[count - 1] {
                Err(problem) => Some(problem.code + ": "@ + problem.message),
                Ok(id) => if ids.take(count - 1).contains(Ok::<u128, NormalizationProblem>(id)) {
                    Some(repeated + identity::uuid_text(id))
                } else {
                    None
                },
            },
        }
    }
}

pub(crate) proof fn lemma_unusable_stays(
    ids: Seq<Identity>,
    repeated: Seq<char>,
    from: int,
    to: int,
)
    requires
        0 <= from <= to,
        first_unusable(ids, repeated, from) is Some,
    ensures
        first_unusable(ids, repeated, to) == first_unusable(ids, repeated, from),
    decreases to - from,
{
    if from < to {
        lemma_unusable_stays(ids, repeated, from, to - 1);
    }
}

/// In an answer that can be used every record has an identity of its own.
pub proof fn law_usable_records_differ(
    ids: Seq<Identity>,
    repeated: Seq<char>,
    count: int,
    i: int,
    j: int,
)
    requires
        0 <= i < j < count <= ids.len(),
        first_unusable(ids, repeated, count) is None,
    ensures
        ids[i] is Ok,
        ids[j] is Ok,
        ids[i] != ids[j],
    decreases count,
{
    if j < count - 1 {
        law_usable_records_differ(ids, repeated, count - 1, i, j);
    } else {
        lemma_usable_has_identity(ids, repeated, count - 1, i);
        assert(ids.take(j)[i] == ids[i]);
        if ids[i] == ids[j] {
            assert(ids.take(j).contains(ids[j]));
        }
    }
}

proof fn lemma_usable_has_identity(ids: Seq<Identity>, repeated: Seq<char>, count: int, i: int)
    requires
        0 <= i < count <= ids.len(),
        first_unusable(ids, repeated, count) is None,
    ensures
        ids[i] is Ok,
    decreases count,
{
    if i < count - 1 {
        lemma_usable_has_identity(ids, repeated, count - 1, i);
    }
}

/// The identities that were seen in an answer.
pub(crate) struct Identities {
    seen: HashSet<u128>,
}

impl View for Identities {
    type V = Set<u128>;

    closed spec fn view(&self) -> Set<u128> {
        self.seen@
    }
}

/// Whether a set holds the identities of the first `count` records.
pub open spec fn holds_identities(seen: Set<u128>, ids: Seq<Identity>, count: int) -> bool {
    forall|id: u128| #[trigger]
        seen.contains(id) <==> ids.take(count).contains(Ok::<u128, NormalizationProblem>(id))
}

pub(crate) proof fn lemma_holds_next(seen: Set<u128>, ids: Seq<Identity>, count: int, id: u128)
    requires
        0 <= count < ids.len(),
        holds_identities(seen, ids, count),
        ids[count] == Ok::<u128, NormalizationProblem>(id),
    ensures
        holds_identities(seen.insert(id), ids, count + 1),
{
    let before = ids.take(count);
    let after = ids.take(count + 1);
    assert(after =~= before.push(ids[count]));
    assert forall|other: u128| #[trigger]
        seen.insert(id).contains(other) <==> after.contains(
            Ok::<u128, NormalizationProblem>(other),
        ) by {
        let wanted = Ok::<u128, NormalizationProblem>(other);
        if before.contains(wanted) {
            let i = choose|i: int| 0 <= i < before.len() && before[i] == wanted;
            assert(after[i] == wanted);
        }
        if other == id {
            assert(after[count] == wanted);
        }
        if after.contains(wanted) && other != id {
            let i = choose|i: int| 0 <= i < after.len() && after[i] == wanted;
            assert(i < count);
            assert(before[i] == wanted);
        }
    }
}

impl Identities {
    pub(crate) fn new() -> (result: Self)
        ensures
            result@ == Set::<u128>::empty(),
    {
        Identities { seen: HashSet::new() }
    }

    /// Notes an identity and tells whether it is new.
    pub(crate) fn note(&mut self, id: Uuid) -> (result: bool)
        ensures
            result == !old(self)@.contains(id@),
            final(self)@ == old(self)@.insert(id@),
    {
        self.seen.insert(id.as_u128())
    }
}

/// A text with an identity behind it.
pub(crate) fn repeated_identity(prefix: &str, id: Uuid) -> (result: String)
    ensures
        result@ == prefix@ + identity::uuid_text(id@),
{
    let mut result = prefix.to_owned();
    result.push_str(id.to_text().as_str());
    result
}

/// All records of the first `count` targets that answered, target by target.
pub open spec fn gathered<T>(results: Seq<Result<Vec<T>, TargetError>>, count: int) -> Seq<T>
    decreases count,
{
    if count <= 0 {
        Seq::empty()
    } else {
        gathered(results, count - 1) + (match results[count - 1] {
            Ok(records) => records@,
            Err(_) => Seq::empty(),
        })
    }
}

/// The failures among the first `count` targets.
pub open spec fn failures<T>(results: Seq<Result<Vec<T>, TargetError>>, count: int) -> Seq<
    TargetError,
>
    decreases count,
{
    if count <= 0 {
        Seq::empty()
    } else {
        match results[count - 1] {
            Ok(_) => failures(results, count - 1),
            Err(error) => failures(results, count - 1).push(error),
        }
    }
}

/// How many of the first `count` targets answered.
pub open spec fn answered<T>(results: Seq<Result<Vec<T>, TargetError>>, count: int) -> nat
    decreases count,
{
    if count <= 0 {
        0
    } else {
        answered(results, count - 1) + (if results[count - 1] is Ok {
            1nat
        } else {
            0nat
        })
    }
}

/// Every target either answered or failed.
pub proof fn law_every_target_counts_once<T>(results: Seq<Result<Vec<T>, TargetError>>, count: int)
    requires
        0 <= count <= results.len(),
    ensures
        answered(results, count) + failures(results, count).len() == count,
    decreases count,
{
    if count > 0 {
        law_every_target_counts_once(results, count - 1);
    }
}

/// Parts the answers of targets from their failures.
pub fn gather<T>(results: Vec<Result<Vec<T>, TargetError>>) -> (result: (
    Vec<T>,
    Vec<TargetError>,
    usize,
))
    ensures
        result.0@ == gathered(results@, results@.len() as int),
        result.1@ == failures(results@, results@.len() as int),
        result.2 == answered(results@, results@.len() as int),
{
    let ghost source = results@;
    let total: usize = results.len();
    let mut data: Vec<T> = Vec::new();
    let mut errors: Vec<TargetError> = Vec::new();
    let mut successful: usize = 0;
    for item in it: results
        invariant
            it.seq() == source,
            source.len() == total,
            data@ == gathered(source, it.index() as int),
            errors@ == failures(source, it.index() as int),
            successful == answered(source, it.index() as int),
    {
        proof {
            law_every_target_counts_once(source, it.index() as int);
        }
        match item {
            Ok(records) => {
                let mut records = records;
                successful = successful + 1;
                data.append(&mut records);
            },
            Err(error) => {
                errors.push(error);
                assert(data@ + Seq::<T>::empty() =~= data@);
            },
        }
    }
    (data, errors, successful)
}

/// Why a request cannot be answered: it was cancelled, or all of its targets failed.
pub open spec fn request_problem(
    cancelled: bool,
    errors: Seq<TargetProblem>,
    successful: nat,
) -> Option<AppProblem> {
    if cancelled {
        Some(AppProblem::cancelled().with_targets(errors))
    } else if successful == 0 && errors.len() > 0 {
        Some(AppProblem::all_failed(errors))
    } else {
        None
    }
}

/// Passes on what targets gave, unless the request was cancelled or all of them failed.
pub fn finish_target_results<T>(
    cancelled: bool,
    data: Vec<T>,
    errors: Vec<TargetError>,
    successful_targets: usize,
) -> (result: Result<(Vec<T>, Vec<TargetError>, usize), AppError>)
    ensures
        match request_problem(cancelled, TargetProblem::all(errors@), successful_targets as nat) {
            Some(problem) => result is Err && result->Err_0@ == problem,
            None => result == Ok::<_, AppError>((data, errors, successful_targets)),
        },
{
    if cancelled {
        return Err(AppError::cancelled().with_target_errors(errors));
    }
    if successful_targets == 0 && errors.len() > 0 {
        Err(AppError::all_targets_failed(errors))
    } else {
        Ok((data, errors, successful_targets))
    }
}

/// Whether an outcome is what a query makes of records: selected, sorted and limited.
pub open spec fn is_answer<R: FieldAccess>(
    found: QueryOutcome<R>,
    asked: QuerySpecView,
    records: Seq<R>,
) -> bool {
    &&& exists|sorted: Seq<R>|
        order::is_stable_sort(
            query::selected(asked, records),
            sorted,
            query::ranking::<R>(asked.sort),
        ) && found.data@ == #[trigger] query::limited(sorted, asked.top)
    &&& found.meta.matched == query::selected(asked, records).len()
    &&& found.meta.returned == found.data@.len()
}

/// Answers a request from what its targets gave.
pub fn list_outcome<R: FieldAccess>(
    results: Vec<Result<Vec<R>, TargetError>>,
    cancelled: bool,
    asked: &QuerySpec,
) -> (result: Result<QueryOutcome<R>, AppError>)
    ensures
        ({
            let count = results@.len() as int;
            let records = gathered(results@, count);
            let errors = failures(results@, count);
            match request_problem(cancelled, TargetProblem::all(errors), answered(results@, count)) {
                Some(problem) => result is Err && result->Err_0@ == problem,
                None => match query::first_stranger(asked@.kind, records, 0) {
                    Some(actual) => result is Err && result->Err_0@ == AppProblem::of_domain(
                        DomainErrorView::RecordKindMismatch {
                            expected: asked@.kind.text(),
                            actual: actual.text(),
                        },
                    ),
                    None => {
                        &&& result is Ok
                        &&& is_answer(result->Ok_0, asked@, records)
                        &&& result->Ok_0.errors@ == errors
                        &&& result->Ok_0.meta.partial == (errors.len() > 0)
                    },
                },
            }
        }),
{
    let (data, errors, successful_targets) = gather(results);
    let (data, errors, successful_targets) = match finish_target_results(
        cancelled,
        data,
        errors,
        successful_targets,
    ) {
        Ok(parts) => parts,
        Err(error) => {
            return Err(error);
        },
    };
    match QueryEngine::new().execute(data, errors, successful_targets, asked) {
        Ok(found) => Ok(found),
        Err(error) => Err(AppError::from_domain(&error)),
    }
}

/// The identities of the infobases in an answer.
pub open spec fn infobase_ids(records: Seq<Fields>) -> Seq<Identity> {
    records.map_values(
        |record: Fields| match normalize::infobase_of(record) {
            Ok((uuid, _)) => Ok::<u128, NormalizationProblem>(uuid),
            Err(problem) => Err::<u128, NormalizationProblem>(problem),
        },
    )
}

/// Whether an infobase is the one that a record tells of.
pub open spec fn is_infobase_of(item: InfobaseRecord, record: Fields, live: LiveCluster) -> bool {
    &&& normalize::infobase_of(record) == Ok::<_, NormalizationProblem>(
        (item.infobase_uuid@, item.infobase@),
    )
    &&& item.source == live.source
    &&& item.connection_string@ == crate::domain::model::connection_text(
        live.cluster.host@,
        live.cluster.port,
        item.infobase@,
    )
    &&& crate::domain::field_value::extra_entries(item.extra) == normalize::infobase_reader(
        record,
    ).finished()
}

/// Why the answer of a target cannot be used: the command failed, or a record cannot be used.
pub open spec fn answer_problem(
    configured: ConfiguredView,
    reply: Result<Vec<RacRecord>, RacError>,
    ids: Seq<Identity>,
    repeated: Seq<char>,
) -> Option<TargetProblem> {
    match reply {
        Err(error) => Some(targets::command_failure(configured, error@)),
        Ok(records) => match first_unusable(ids, repeated, records@.len() as int) {
            Some(message) => Some(targets::bad_answer(configured, message)),
            None => None,
        },
    }
}

/// The records of an answer, or none.
pub open spec fn answer_records(reply: Result<Vec<RacRecord>, RacError>) -> Seq<Fields> {
    match reply {
        Ok(records) => targets::record_views(records@),
        Err(_) => Seq::empty(),
    }
}

/// Reads the infobases of a target.
pub fn infobases_for_live(
    configured: &ConfiguredTarget,
    live: &LiveCluster,
    reply: &Result<Vec<RacRecord>, RacError>,
) -> (result: Result<Vec<InfobaseRecord>, TargetError>)
    ensures
        ({
            let records = answer_records(*reply);
            match answer_problem(
                configured@,
                *reply,
                infobase_ids(records),
                "RAC вернул повторяющийся UUID информационной базы "@,
            ) {
                Some(problem) => result is Err && result->Err_0@ == problem,
                None => {
                    &&& result is Ok
                    &&& result->Ok_0@.len() == records.len()
                    &&& forall|i: int|
                        0 <= i < records.len() ==> is_infobase_of(
                            #[trigger] result->Ok_0@[i],
                            records[i],
                            *live,
                        )
                },
            }
        }),
{
    let records = match reply {
        Ok(records) => records,
        Err(error) => {
            return Err(fail_command(configured, error));
        },
    };
    let ghost views = targets::record_views(records@);
    let ghost ids = infobase_ids(views);
    let ghost repeated = "RAC вернул повторяющийся UUID информационной базы "@;
    let mut seen = Identities::new();
    let mut result: Vec<InfobaseRecord> = Vec::new();
    let mut i: usize = 0;
    assert(ids.take(0) =~= Seq::<Identity>::empty());
    while i < records.len()
        invariant
            i <= records.len(),
            views == targets::record_views(records@),
            ids == infobase_ids(views),
            repeated == "RAC вернул повторяющийся UUID информационной базы "@,
            *reply == Ok::<Vec<RacRecord>, RacError>(*records),
            first_unusable(ids, repeated, i as int) is None,
            holds_identities(seen@, ids, i as int),
            result@.len() == i,
            forall|j: int|
                0 <= j < i ==> is_infobase_of(#[trigger] result@[j], views[j], *live),
        decreases records.len() - i,
    {
        assert(views[i as int] == records@[i as int]@);
        let item = match normalize::normalize_infobase(
            &records[i],
            live.source.clone(),
            &live.cluster,
        ) {
            Ok(item) => item,
            Err(error) => {
                proof {
                    lemma_unusable_stays(ids, repeated, i + 1, records@.len() as int);
                }
                return Err(
                    fail_target(
                        configured,
                        TargetErrorKind::InvalidResponse,
                        error.to_text().as_str(),
                    ),
                );
            },
        };
        let ghost before = seen@;
        if !seen.note(item.infobase_uuid.into_uuid()) {
            proof {
                lemma_unusable_stays(ids, repeated, i + 1, records@.len() as int);
            }
            let message = repeated_identity(
                "RAC вернул повторяющийся UUID информационной базы ",
                item.infobase_uuid.into_uuid(),
            );
            return Err(
                fail_target(configured, TargetErrorKind::InvalidResponse, message.as_str()),
            );
        }
        proof {
            lemma_holds_next(before, ids, i as int, item.infobase_uuid@);
        }
        result.push(item);
        i = i + 1;
    }
    Ok(result)
}

/// The name that the last of the first `count` infobases with an identity has.
pub open spec fn infobase_name(infobases: Seq<InfobaseRecord>, uuid: u128, count: int) -> Option<
    Seq<char>,
>
    decreases count,
{
    if count <= 0 {
        None
    } else if infobases[count - 1].infobase_uuid@ == uuid {
        Some(infobases[count - 1].infobase@)
    } else {
        infobase_name(infobases, uuid, count - 1)
    }
}

/// The names of infobases by their identities.
pub struct InfobaseNames {
    names: HashMap<u128, String>,
}

impl InfobaseNames {
    /// The name of an infobase.
    pub closed spec fn name(self, uuid: u128) -> Option<Seq<char>> {
        if self.names@.contains_key(uuid) {
            Some(self.names@[uuid]@)
        } else {
            None
        }
    }

    pub fn new(infobases: &Vec<InfobaseRecord>) -> (result: Self)
        ensures
            forall|uuid: u128| #[trigger]
                result.name(uuid) == infobase_name(infobases@, uuid, infobases@.len() as int),
    {
        let mut names: HashMap<u128, String> = HashMap::new();
        let mut i: usize = 0;
        while i < infobases.len()
            invariant
                i <= infobases.len(),
                forall|uuid: u128| #[trigger]
                    names@.contains_key(uuid) <==> infobase_name(
                        infobases@,
                        uuid,
                        i as int,
                    ) is Some,
                forall|uuid: u128| #[trigger]
                    names@.contains_key(uuid) ==> infobase_name(infobases@, uuid, i as int) == Some(
                        names@[uuid]@,
                    ),
            decreases infobases.len() - i,
        {
            let uuid = infobases[i].infobase_uuid.into_uuid();
            names.insert(uuid.as_u128(), infobases[i].infobase.clone());
            i = i + 1;
        }
        InfobaseNames { names }
    }

    pub fn get(&self, uuid: InfobaseUuid) -> (result: Option<String>)
        ensures
            outcome::option_view(result) == self.name(uuid@),
    {
        match self.names.get(&uuid.into_uuid().as_u128()) {
            Some(name) => Some(name.clone()),
            None => None,
        }
    }
}

} // verus!
