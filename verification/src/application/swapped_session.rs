//! Sessions whose identity and number stand under each other's names.

use vstd::prelude::*;
use vstd::string::*;

use crate::application::normalize;
use crate::application::normalize::{Fields, NormalizationProblem, ReaderView};
use crate::domain::entries;
use crate::domain::identity;
use crate::domain::model::{ClusterSource, SessionRecord};
use crate::number;
use crate::text;

verus! {

/// A field of a record in which `session` and `session_id` have exchanged their values.
pub open spec fn swapped_field(record: Fields, field: (Seq<char>, Seq<char>)) -> (
    Seq<char>,
    Seq<char>,
) {
    match (entries::lookup(record, "session"@), entries::lookup(record, "session_id"@)) {
        (Some(session), Some(session_id)) => if field.0 == "session"@ {
            (field.0, session_id)
        } else if field.0 == "session_id"@ {
            (field.0, session)
        } else {
            field
        },
        _ => field,
    }
}

/// A record whose `session` and `session_id` have exchanged their values.
pub open spec fn swapped(record: Fields) -> Fields {
    record.map_values(|field: (Seq<char>, Seq<char>)| swapped_field(record, field))
}

proof fn lemma_same_position(record: Fields, key: Seq<char>, from: int)
    requires
        0 <= from <= record.len(),
    ensures
        entries::position(swapped(record), key, from) == entries::position(record, key, from),
    decreases record.len() - from,
{
    if from < record.len() && record[from].0 != key {
        lemma_same_position(record, key, from + 1);
    }
}

proof fn lemma_swapped_lookup(record: Fields, key: Seq<char>)
    ensures
        key != "session"@ && key != "session_id"@ ==> entries::lookup(swapped(record), key)
            == entries::lookup(record, key),
        entries::lookup(record, key) is Some ==> entries::lookup(swapped(record), key) == Some(
            swapped_field(record, (key, entries::lookup(record, key).unwrap())).1,
        ),
        entries::lookup(record, key) is None ==> entries::lookup(swapped(record), key) is None,
{
    lemma_same_position(record, key, 0);
    entries::lemma_position(record, key, 0);
}

/// Neither of the two names is among the given ones.
#[verifier::opaque]
spec fn avoids(names: Seq<Seq<char>>) -> bool {
    forall|i: int|
        0 <= i < names.len() ==> (#[trigger] names[i]) != "session"@ && names[i] != "session_id"@
}

proof fn lemma_same_taken(record: Fields, names: Seq<Seq<char>>, from: int)
    requires
        avoids(names),
        0 <= from <= names.len(),
    ensures
        normalize::taken(swapped(record), names, from) == normalize::taken(record, names, from),
    decreases names.len() - from,
{
    reveal(avoids);
    if from < names.len() {
        lemma_swapped_lookup(record, names[from]);
        lemma_same_taken(record, names, from + 1);
    }
}

proof fn lemma_same_raw(record: Fields, names: Seq<Seq<char>>)
    requires
        avoids(names),
    ensures
        normalize::raw(swapped(record), names) == normalize::raw(record, names),
{
    reveal(normalize::raw);
    lemma_same_taken(record, names, 0);
}

/// Two readers that have read the same of a record and of the swapped one, the two names among it.
#[verifier::opaque]
spec fn alike(left: ReaderView, right: ReaderView) -> bool {
    &&& right.record == swapped(left.record)
    &&& right.consumed == left.consumed
    &&& right.extra == left.extra
    &&& left.consumed.contains("session"@)
    &&& left.consumed.contains("session_id"@)
}

proof fn lemma_alike_take(left: ReaderView, right: ReaderView, names: Seq<Seq<char>>)
    requires
        alike(left, right),
    ensures
        alike(left.take(names), right.take(names)),
{
    reveal(alike);
    reveal(ReaderView::take);
    let i = choose|i: int| 0 <= i < left.consumed.len() && left.consumed[i] == "session"@;
    assert((left.consumed + names)[i] == "session"@);
    let j = choose|j: int| 0 <= j < left.consumed.len() && left.consumed[j] == "session_id"@;
    assert((left.consumed + names)[j] == "session_id"@);
}

proof fn lemma_alike_keep(
    left: ReaderView,
    right: ReaderView,
    canonical: Seq<char>,
    value: Seq<char>,
)
    requires
        alike(left, right),
    ensures
        alike(left.keep(canonical, value), right.keep(canonical, value)),
{
    reveal(alike);
    reveal(ReaderView::keep);
}

proof fn lemma_alike_read(
    left: ReaderView,
    right: ReaderView,
    canonical: Seq<char>,
    names: Seq<Seq<char>>,
    is_bad: spec_fn(Seq<char>) -> bool,
)
    requires
        alike(left, right),
        avoids(names),
    ensures
        alike(left.read(canonical, names, is_bad), right.read(canonical, names, is_bad)),
{
    reveal(ReaderView::read);
    assert(right.record == swapped(left.record)) by {
        reveal(alike);
    }
    lemma_same_raw(left.record, names);
    lemma_alike_take(left, right, names);
    match normalize::raw(left.record, names) {
        Some(value) => lemma_alike_keep(left.take(names), right.take(names), canonical, value),
        None => {},
    }
}

/// Every step that reads a field beside the two leaves the readers alike.
proof fn lemma_steps_stay_alike()
    ensures
        forall|left: ReaderView, right: ReaderView, names: Seq<Seq<char>>|
            alike(left, right) ==> #[trigger] alike(left.take(names), right.take(names)),
        forall|left: ReaderView, right: ReaderView, canonical: Seq<char>, names: Seq<Seq<char>>|
            alike(left, right) && avoids(names) ==> #[trigger] alike(
                left.read_uuid(canonical, names),
                right.read_uuid(canonical, names),
            ),
        forall|left: ReaderView, right: ReaderView, canonical: Seq<char>, names: Seq<Seq<char>>|
            alike(left, right) && avoids(names) ==> #[trigger] alike(
                left.read_int(canonical, names),
                right.read_int(canonical, names),
            ),
        forall|left: ReaderView, right: ReaderView, canonical: Seq<char>, names: Seq<Seq<char>>|
            alike(left, right) && avoids(names) ==> #[trigger] alike(
                left.read_bool(canonical, names),
                right.read_bool(canonical, names),
            ),
        forall|left: ReaderView, right: ReaderView, canonical: Seq<char>, names: Seq<Seq<char>>|
            alike(left, right) && avoids(names) ==> #[trigger] alike(
                left.read_time(canonical, names),
                right.read_time(canonical, names),
            ),
{
    assert forall|left: ReaderView, right: ReaderView, names: Seq<Seq<char>>| alike(
        left,
        right,
    ) implies #[trigger] alike(left.take(names), right.take(names)) by {
        lemma_alike_take(left, right, names);
    }
    assert forall|
        left: ReaderView,
        right: ReaderView,
        canonical: Seq<char>,
        names: Seq<Seq<char>>,
    | alike(left, right) && avoids(names) implies #[trigger] alike(
        left.read_uuid(canonical, names),
        right.read_uuid(canonical, names),
    ) by {
        reveal(ReaderView::read_uuid);
        lemma_alike_read(
            left,
            right,
            canonical,
            names,
            |value: Seq<char>| normalize::is_bad_uuid(value),
        );
    }
    assert forall|
        left: ReaderView,
        right: ReaderView,
        canonical: Seq<char>,
        names: Seq<Seq<char>>,
    | alike(left, right) && avoids(names) implies #[trigger] alike(
        left.read_int(canonical, names),
        right.read_int(canonical, names),
    ) by {
        reveal(ReaderView::read_int);
        lemma_alike_read(
            left,
            right,
            canonical,
            names,
            |value: Seq<char>| normalize::is_bad_int(value),
        );
    }
    assert forall|
        left: ReaderView,
        right: ReaderView,
        canonical: Seq<char>,
        names: Seq<Seq<char>>,
    | alike(left, right) && avoids(names) implies #[trigger] alike(
        left.read_bool(canonical, names),
        right.read_bool(canonical, names),
    ) by {
        reveal(ReaderView::read_bool);
        lemma_alike_read(
            left,
            right,
            canonical,
            names,
            |value: Seq<char>| normalize::is_bad_bool(value),
        );
    }
    assert forall|
        left: ReaderView,
        right: ReaderView,
        canonical: Seq<char>,
        names: Seq<Seq<char>>,
    | alike(left, right) && avoids(names) implies #[trigger] alike(
        left.read_time(canonical, names),
        right.read_time(canonical, names),
    ) by {
        reveal(ReaderView::read_time);
        lemma_alike_read(
            left,
            right,
            canonical,
            names,
            |value: Seq<char>| normalize::is_bad_time(value),
        );
    }
}

/// The two names begin with the same letters, which no other name begins with.
spec fn begins_otherwise(name: Seq<char>) -> bool {
    name.len() >= 2 && !(name[0] == 's' && name[1] == 'e')
}

proof fn lemma_avoids(names: Seq<Seq<char>>)
    requires
        forall|i: int| 0 <= i < names.len() ==> begins_otherwise(#[trigger] names[i]),
    ensures
        avoids(names),
{
    reveal(avoids);
    reveal_strlit("session");
    reveal_strlit("session_id");
}

proof fn lemma_avoids_identities()
    ensures
        avoids(seq!["infobase"@, "infobase_uuid"@, "infobase_id"@]),
        avoids(seq!["connection"@, "connection_uuid"@]),
        avoids(seq!["process"@, "process_uuid"@]),
{
    reveal_strlit("infobase");
    reveal_strlit("infobase_uuid");
    reveal_strlit("infobase_id");
    reveal_strlit("connection");
    reveal_strlit("connection_uuid");
    reveal_strlit("process");
    reveal_strlit("process_uuid");
    lemma_avoids(seq!["infobase"@, "infobase_uuid"@, "infobase_id"@]);
    lemma_avoids(seq!["connection"@, "connection_uuid"@]);
    lemma_avoids(seq!["process"@, "process_uuid"@]);
}

proof fn lemma_avoids_early()
    ensures
        avoids(seq!["user_name"@]),
        avoids(seq!["host"@]),
        avoids(seq!["app_id"@]),
        avoids(seq!["locale"@]),
        avoids(seq!["started_at"@]),
        avoids(seq!["last_active_at"@]),
        avoids(seq!["hibernate"@]),
        avoids(seq!["passive_session_hibernate_time"@]),
        avoids(seq!["hibernate_session_terminate_time"@]),
        avoids(seq!["blocked_by_dbms"@]),
        avoids(seq!["blocked_by_ls"@]),
{
    reveal_strlit("user_name");
    reveal_strlit("host");
    reveal_strlit("app_id");
    reveal_strlit("locale");
    reveal_strlit("started_at");
    reveal_strlit("last_active_at");
    reveal_strlit("hibernate");
    reveal_strlit("passive_session_hibernate_time");
    reveal_strlit("hibernate_session_terminate_time");
    reveal_strlit("blocked_by_dbms");
    reveal_strlit("blocked_by_ls");
    lemma_avoids(seq!["user_name"@]);
    lemma_avoids(seq!["host"@]);
    lemma_avoids(seq!["app_id"@]);
    lemma_avoids(seq!["locale"@]);
    lemma_avoids(seq!["started_at"@]);
    lemma_avoids(seq!["last_active_at"@]);
    lemma_avoids(seq!["hibernate"@]);
    lemma_avoids(seq!["passive_session_hibernate_time"@]);
    lemma_avoids(seq!["hibernate_session_terminate_time"@]);
    lemma_avoids(seq!["blocked_by_dbms"@]);
    lemma_avoids(seq!["blocked_by_ls"@]);
}

proof fn lemma_avoids_middle()
    ensures
        avoids(seq!["bytes_all"@]),
        avoids(seq!["bytes_last_5min"@]),
        avoids(seq!["calls_all"@]),
        avoids(seq!["calls_last_5min"@]),
        avoids(seq!["dbms_bytes_all"@]),
        avoids(seq!["dbms_bytes_last_5min"@]),
        avoids(seq!["db_proc_info"@]),
        avoids(seq!["db_proc_took"@]),
        avoids(seq!["db_proc_took_at"@]),
        avoids(seq!["duration_all"@]),
        avoids(seq!["duration_all_dbms"@]),
{
    reveal_strlit("bytes_all");
    reveal_strlit("bytes_last_5min");
    reveal_strlit("calls_all");
    reveal_strlit("calls_last_5min");
    reveal_strlit("dbms_bytes_all");
    reveal_strlit("dbms_bytes_last_5min");
    reveal_strlit("db_proc_info");
    reveal_strlit("db_proc_took");
    reveal_strlit("db_proc_took_at");
    reveal_strlit("duration_all");
    reveal_strlit("duration_all_dbms");
    lemma_avoids(seq!["bytes_all"@]);
    lemma_avoids(seq!["bytes_last_5min"@]);
    lemma_avoids(seq!["calls_all"@]);
    lemma_avoids(seq!["calls_last_5min"@]);
    lemma_avoids(seq!["dbms_bytes_all"@]);
    lemma_avoids(seq!["dbms_bytes_last_5min"@]);
    lemma_avoids(seq!["db_proc_info"@]);
    lemma_avoids(seq!["db_proc_took"@]);
    lemma_avoids(seq!["db_proc_took_at"@]);
    lemma_avoids(seq!["duration_all"@]);
    lemma_avoids(seq!["duration_all_dbms"@]);
}

proof fn lemma_avoids_later()
    ensures
        avoids(seq!["duration_current"@]),
        avoids(seq!["duration_current_dbms"@]),
        avoids(seq!["duration_last_5min"@]),
        avoids(seq!["duration_last_5min_dbms"@]),
        avoids(seq!["memory_current"@]),
        avoids(seq!["memory_last_5min"@]),
        avoids(seq!["memory_total"@]),
        avoids(seq!["read_current"@]),
        avoids(seq!["read_last_5min"@]),
        avoids(seq!["read_total"@]),
        avoids(seq!["write_current"@]),
{
    reveal_strlit("duration_current");
    reveal_strlit("duration_current_dbms");
    reveal_strlit("duration_last_5min");
    reveal_strlit("duration_last_5min_dbms");
    reveal_strlit("memory_current");
    reveal_strlit("memory_last_5min");
    reveal_strlit("memory_total");
    reveal_strlit("read_current");
    reveal_strlit("read_last_5min");
    reveal_strlit("read_total");
    reveal_strlit("write_current");
    lemma_avoids(seq!["duration_current"@]);
    lemma_avoids(seq!["duration_current_dbms"@]);
    lemma_avoids(seq!["duration_last_5min"@]);
    lemma_avoids(seq!["duration_last_5min_dbms"@]);
    lemma_avoids(seq!["memory_current"@]);
    lemma_avoids(seq!["memory_last_5min"@]);
    lemma_avoids(seq!["memory_total"@]);
    lemma_avoids(seq!["read_current"@]);
    lemma_avoids(seq!["read_last_5min"@]);
    lemma_avoids(seq!["read_total"@]);
    lemma_avoids(seq!["write_current"@]);
}

proof fn lemma_avoids_last()
    ensures
        avoids(seq!["write_last_5min"@]),
        avoids(seq!["write_total"@]),
        avoids(seq!["duration_current_service"@]),
        avoids(seq!["duration_last_5min_service"@]),
        avoids(seq!["duration_all_service"@]),
        avoids(seq!["current_service_name"@]),
        avoids(seq!["cpu_time_current"@]),
        avoids(seq!["cpu_time_last_5min"@]),
        avoids(seq!["cpu_time_total"@]),
        avoids(seq!["data_separation"@]),
        avoids(seq!["client_ip"@]),
{
    reveal_strlit("write_last_5min");
    reveal_strlit("write_total");
    reveal_strlit("duration_current_service");
    reveal_strlit("duration_last_5min_service");
    reveal_strlit("duration_all_service");
    reveal_strlit("current_service_name");
    reveal_strlit("cpu_time_current");
    reveal_strlit("cpu_time_last_5min");
    reveal_strlit("cpu_time_total");
    reveal_strlit("data_separation");
    reveal_strlit("client_ip");
    lemma_avoids(seq!["write_last_5min"@]);
    lemma_avoids(seq!["write_total"@]);
    lemma_avoids(seq!["duration_current_service"@]);
    lemma_avoids(seq!["duration_last_5min_service"@]);
    lemma_avoids(seq!["duration_all_service"@]);
    lemma_avoids(seq!["current_service_name"@]);
    lemma_avoids(seq!["cpu_time_current"@]);
    lemma_avoids(seq!["cpu_time_last_5min"@]);
    lemma_avoids(seq!["cpu_time_total"@]);
    lemma_avoids(seq!["data_separation"@]);
    lemma_avoids(seq!["client_ip"@]);
}

/// The names of all fields but the two are others.
proof fn lemma_other_names()
    ensures
        avoids(seq!["infobase"@, "infobase_uuid"@, "infobase_id"@]),
        avoids(seq!["connection"@, "connection_uuid"@]),
        avoids(seq!["process"@, "process_uuid"@]),
        avoids(seq!["user_name"@]),
        avoids(seq!["host"@]),
        avoids(seq!["app_id"@]),
        avoids(seq!["locale"@]),
        avoids(seq!["started_at"@]),
        avoids(seq!["last_active_at"@]),
        avoids(seq!["hibernate"@]),
        avoids(seq!["passive_session_hibernate_time"@]),
        avoids(seq!["hibernate_session_terminate_time"@]),
        avoids(seq!["blocked_by_dbms"@]),
        avoids(seq!["blocked_by_ls"@]),
        avoids(seq!["bytes_all"@]),
        avoids(seq!["bytes_last_5min"@]),
        avoids(seq!["calls_all"@]),
        avoids(seq!["calls_last_5min"@]),
        avoids(seq!["dbms_bytes_all"@]),
        avoids(seq!["dbms_bytes_last_5min"@]),
        avoids(seq!["db_proc_info"@]),
        avoids(seq!["db_proc_took"@]),
        avoids(seq!["db_proc_took_at"@]),
        avoids(seq!["duration_all"@]),
        avoids(seq!["duration_all_dbms"@]),
        avoids(seq!["duration_current"@]),
        avoids(seq!["duration_current_dbms"@]),
        avoids(seq!["duration_last_5min"@]),
        avoids(seq!["duration_last_5min_dbms"@]),
        avoids(seq!["memory_current"@]),
        avoids(seq!["memory_last_5min"@]),
        avoids(seq!["memory_total"@]),
        avoids(seq!["read_current"@]),
        avoids(seq!["read_last_5min"@]),
        avoids(seq!["read_total"@]),
        avoids(seq!["write_current"@]),
        avoids(seq!["write_last_5min"@]),
        avoids(seq!["write_total"@]),
        avoids(seq!["duration_current_service"@]),
        avoids(seq!["duration_last_5min_service"@]),
        avoids(seq!["duration_all_service"@]),
        avoids(seq!["current_service_name"@]),
        avoids(seq!["cpu_time_current"@]),
        avoids(seq!["cpu_time_last_5min"@]),
        avoids(seq!["cpu_time_total"@]),
        avoids(seq!["data_separation"@]),
        avoids(seq!["client_ip"@]),
{
    lemma_avoids_identities();
    lemma_avoids_early();
    lemma_avoids_middle();
    lemma_avoids_later();
    lemma_avoids_last();
}

proof fn lemma_same_leftovers(left: ReaderView, right: ReaderView, count: int)
    requires
        alike(left, right),
        count <= left.record.len(),
    ensures
        left.leftovers(count) == right.leftovers(count),
    decreases count,
{
    reveal(alike);
    if count > 0 {
        lemma_same_leftovers(left, right, count - 1);
    }
}

proof fn lemma_same_finished(left: ReaderView, right: ReaderView)
    requires
        alike(left, right),
    ensures
        left.finished() == right.finished(),
{
    reveal(ReaderView::finished);
    assert(left.record.len() == right.record.len()) by {
        reveal(alike);
    }
    lemma_same_leftovers(left, right, left.record.len() as int);
}

/// A record with an identity under `session` and a text that is none under `session_id`.
pub open spec fn tells_session(
    record: Fields,
    uuid: u128,
    session: Seq<char>,
    session_id: Seq<char>,
) -> bool {
    &&& entries::lookup(record, "session"@) == Some(session)
    &&& entries::lookup(record, "session_id"@) == Some(session_id)
    &&& identity::uuid_of(text::trim(session)) == Some(uuid)
    &&& identity::uuid_of(text::trim(session_id)) is None
}

proof fn lemma_two_values(record: Fields, uuid: u128, session: Seq<char>, session_id: Seq<char>)
    requires
        tells_session(record, uuid, session, session_id),
    ensures
        normalize::raw(record, normalize::session_aliases()) == Some(session),
        normalize::raw(record, seq!["session_id"@]) == Some(session_id),
        normalize::raw(swapped(record), normalize::session_aliases()) == Some(session_id),
        normalize::raw(swapped(record), seq!["session_id"@]) == Some(session),
{
    reveal(normalize::raw);
    reveal_strlit("session");
    reveal_strlit("session_id");
    assert("session"@ != "session_id"@);
    lemma_swapped_lookup(record, "session"@);
    lemma_swapped_lookup(record, "session_id"@);
    assert(normalize::session_aliases()[0] == "session"@);
    assert(seq!["session_id"@][0] == "session_id"@);
}

proof fn lemma_alike_readers(record: Fields, uuid: u128, session: Seq<char>, session_id: Seq<char>)
    requires
        tells_session(record, uuid, session, session_id),
    ensures
        alike(normalize::session_reader(record), normalize::session_reader(swapped(record))),
{
    lemma_two_values(record, uuid, session, session_id);
    let left = ReaderView::start(record).take(normalize::cluster_aliases()).take(
        normalize::session_aliases(),
    ).take(seq!["session_id"@]);
    let right = ReaderView::start(swapped(record)).take(normalize::cluster_aliases()).take(
        normalize::session_aliases(),
    ).take(seq!["session_id"@]);
    assert(alike(left, right)) by {
        reveal(alike);
        reveal(ReaderView::take);
        assert(left.consumed[3] == "session"@);
        assert(left.consumed[5] == "session_id"@);
    }
    assert(alike(left.keep_number(Some(session_id)), right.keep_number(Some(session_id)))) by {
        reveal(ReaderView::keep_number);
        lemma_alike_keep(left, right, "session"@, session_id);
    }
    lemma_steps_stay_alike();
    lemma_other_names();
}

proof fn lemma_same_fields(record: Fields)
    ensures
        forall|names: Seq<Seq<char>>|
            avoids(names) ==> #[trigger] normalize::raw(swapped(record), names) == normalize::raw(
                record,
                names,
            ),
{
    assert forall|names: Seq<Seq<char>>| avoids(names) implies #[trigger] normalize::raw(
        swapped(record),
        names,
    ) == normalize::raw(record, names) by {
        lemma_same_raw(record, names);
    }
}

/// `rac` may print the identity and the number of a session under each other's names: the record with
/// the two values swapped is read as the same session, with the same identity and the same number,
/// where the text of the number is no identity itself. The text of a number is too short for one:
/// `normalize_session` never takes a text of fewer than 32 characters for an identity.
pub proof fn law_swapped_session_is_the_same(
    record: Fields,
    uuid: u128,
    session: Seq<char>,
    session_id: Seq<char>,
)
    requires
        tells_session(record, uuid, session, session_id),
    ensures
        normalize::session_identity_of(
            normalize::raw(record, normalize::session_aliases()),
            normalize::raw(record, seq!["session_id"@]),
        ) == Ok::<_, NormalizationProblem>((uuid, normalize::int_in(Some(session_id)))),
        normalize::session_identity_of(
            normalize::raw(swapped(record), normalize::session_aliases()),
            normalize::raw(swapped(record), seq!["session_id"@]),
        ) == Ok::<_, NormalizationProblem>((uuid, normalize::int_in(Some(session_id)))),
        forall|number: i64|
            text::trim(session_id) == #[trigger] number::signed_decimal(number as int)
                ==> normalize::int_in(Some(session_id)) == Some(number) && text::trim(
                session_id,
            ).len() < 32,
        forall|result: SessionRecord, source: ClusterSource|
            normalize::is_session_of(result, record, source) <==> #[trigger] normalize::is_session_of(
                result,
                swapped(record),
                source,
            ),
{
    lemma_two_values(record, uuid, session, session_id);
    assert forall|number: i64|
        text::trim(session_id) == #[trigger] number::signed_decimal(number as int) implies
        normalize::int_in(Some(session_id)) == Some(number) && text::trim(session_id).len() < 32 by {
        reveal(normalize::int_in);
        number::lemma_signed_round_trip(number as int);
        number::lemma_signed_length(number);
    }
    lemma_alike_readers(record, uuid, session, session_id);
    lemma_same_finished(
        normalize::session_reader(record),
        normalize::session_reader(swapped(record)),
    );
    lemma_same_fields(record);
    lemma_other_names();
    assert forall|result: SessionRecord, source: ClusterSource|
        normalize::is_session_of(result, record, source) <==> #[trigger] normalize::is_session_of(
            result,
            swapped(record),
            source,
        ) by {
        assert(normalize::session_reader(record).finished() == normalize::session_reader(
            swapped(record),
        ).finished());
    }
}

} // verus!
