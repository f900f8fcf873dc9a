//! What a typed record holds of the record that `rac` printed: every field holds what is printed under
//! its own name.

use vstd::prelude::*;
use vstd::string::*;

use crate::application::normalize;
use crate::application::normalize::{
    normalize_cluster, normalize_connection, normalize_infobase, normalize_process,
    normalize_session, Fields, NormalizationError,
};
use crate::domain::entries;
use crate::domain::identity;
use crate::domain::model;
use crate::domain::model::{
    ClusterSource, ConnectionRecord, DiscoveredCluster, InfobaseRecord, ProcessRecord, SessionRecord,
};
use crate::domain::timestamp;
use crate::domain::timestamp::Timestamp;
use crate::infrastructure::rac::parser::RacRecord;
use crate::number;
use crate::outcome;
use crate::text;

verus! {

/// What is printed under a name, or under another name where the first is not there.
pub open spec fn either(record: Fields, first: Seq<char>, second: Seq<char>) -> Option<Seq<char>> {
    match entries::lookup(record, first) {
        Some(value) => Some(value),
        None => entries::lookup(record, second),
    }
}

/// What is printed under the first of three names that is there.
pub open spec fn any_of(record: Fields, first: Seq<char>, second: Seq<char>, third: Seq<char>) -> Option<
    Seq<char>,
> {
    match entries::lookup(record, first) {
        Some(value) => Some(value),
        None => either(record, second, third),
    }
}

/// A field holds the printed text; an empty text is none.
#[verifier::opaque]
pub open spec fn is_text_in(printed: Option<Seq<char>>, field: Option<String>) -> bool {
    match field {
        Some(value) => printed == Some(value@) && value@.len() > 0,
        None => printed is None || printed->0.len() == 0,
    }
}

/// A field holds the number whose decimal digits are printed, and no number where none is printed.
#[verifier::opaque]
pub open spec fn is_number_in(printed: Option<Seq<char>>, field: Option<i64>) -> bool {
    &&& forall|n: i64|
        printed is Some && text::trim(printed->0) == #[trigger] number::signed_decimal(n as int)
            ==> field == Some(n)
    &&& printed is None ==> field is None
    &&& field is Some ==> number::signed(text::trim(printed->0)) == Some(field->0 as int)
    &&& field is None && printed is Some ==> number::signed(text::trim(printed->0)) is None
}

/// A field holds the identity that is printed, and none where the nil identity or no identity is
/// printed.
#[verifier::opaque]
pub open spec fn is_identity_in<T: View<V = u128>>(printed: Option<Seq<char>>, field: Option<T>) -> bool {
    match field {
        Some(id) => {
            &&& printed is Some
            &&& identity::uuid_of(text::trim(printed->0)) == Some(id@)
            &&& id@ != 0
        },
        None => {
            ||| printed is None
            ||| text::trim(printed->0).len() == 0
            ||| identity::uuid_of(text::trim(printed->0)) is None
            ||| identity::uuid_of(text::trim(printed->0)) == Some(0u128)
        },
    }
}

/// A field holds true where a word for yes is printed and false where a word for no is printed, in
/// letters of any case.
#[verifier::opaque]
pub open spec fn is_flag_in(printed: Option<Seq<char>>, field: Option<bool>) -> bool {
    let word = text::lowercase(text::trim(printed->0));
    let yes = word == "true"@ || word == "yes"@ || word == "1"@ || word == "да"@;
    let no = word == "false"@ || word == "no"@ || word == "0"@ || word == "нет"@;
    let blank = printed is None || text::trim(printed->0).len() == 0;
    &&& blank ==> field is None
    &&& !blank && yes ==> field == Some(true)
    &&& !blank && no && !yes ==> field == Some(false)
    &&& !yes && !no ==> field is None
}

/// A field holds the time that is printed. A time without an offset is written as year, month and day,
/// then hour, minute and second, and is in UTC; so is a time of digits alone. Nothing and the zero date
/// are no time.
#[verifier::opaque]
pub open spec fn is_time_in(printed: Option<Seq<char>>, field: Option<Timestamp>) -> bool {
    let value = text::trim(printed->0);
    let absent = printed is None || value.len() == 0 || "0001-01-01"@.is_prefix_of(value);
    let standard = timestamp::rfc3339_of(value);
    let offset = timestamp::zoned_of(value, "%Y-%m-%dT%H:%M:%S%.f%z"@);
    let plain = timestamp::naive_of(value, "%Y-%m-%dT%H:%M:%S%.f"@);
    let spaced = timestamp::naive_of(value, "%Y-%m-%d %H:%M:%S%.f"@);
    let digits = timestamp::naive_of(value, "%Y%m%d%H%M%S"@);
    &&& absent ==> field is None
    &&& !absent ==> {
        &&& standard is Some ==> holds_moment(field, standard)
        &&& standard is None && offset is Some ==> holds_moment(field, offset)
        &&& standard is None && offset is None && plain is Some ==> holds_utc(field, plain)
        &&& standard is None && offset is None && plain is None && spaced is Some ==> holds_utc(
            field,
            spaced,
        )
        &&& standard is None && offset is None && plain is None && spaced is None ==> holds_utc(
            field,
            digits,
        )
    }
}

/// A field holds a moment as it was read: its second, its nanoseconds and its offset.
pub open spec fn holds_moment(field: Option<Timestamp>, read: Option<(i64, u32, i32)>) -> bool {
    match read {
        Some((seconds, nanos, offset)) => {
            &&& field is Some
            &&& field->0.seconds == seconds
            &&& field->0.nanos == nanos
            &&& field->0.offset == offset
        },
        None => field is None,
    }
}

/// A field holds a moment of UTC as it was read.
pub open spec fn holds_utc(field: Option<Timestamp>, read: Option<(i64, u32)>) -> bool {
    match read {
        Some((seconds, nanos)) => holds_moment(field, Some((seconds, nanos, 0i32))),
        None => field is None,
    }
}

proof fn lemma_one_name(record: Fields, first: Seq<char>)
    ensures
        normalize::raw(record, seq![first]) == entries::lookup(record, first),
{
    reveal(normalize::raw);
    reveal_with_fuel(normalize::taken, 2);
}

/// A field with two names is read under the first of them that is there.
pub proof fn lemma_two_names(record: Fields, first: Seq<char>, second: Seq<char>)
    ensures
        normalize::raw(record, seq![first, second]) == either(record, first, second),
{
    reveal(normalize::raw);
    reveal_with_fuel(normalize::taken, 3);
}

proof fn lemma_three_names(record: Fields, first: Seq<char>, second: Seq<char>, third: Seq<char>)
    ensures
        normalize::raw(record, seq![first, second, third]) == any_of(record, first, second, third),
{
    reveal(normalize::raw);
    reveal_with_fuel(normalize::taken, 4);
}

proof fn lemma_text(printed: Option<Seq<char>>, field: Option<String>)
    requires
        outcome::option_view(field) == normalize::text_in(printed),
    ensures
        is_text_in(printed, field),
{
    reveal(normalize::text_in);
    reveal(is_text_in);
}

proof fn lemma_number(printed: Option<Seq<char>>, field: Option<i64>)
    requires
        field == normalize::int_in(printed),
    ensures
        is_number_in(printed, field),
{
    reveal(normalize::int_in);
    reveal(is_number_in);
    assert forall|n: i64|
        printed is Some && text::trim(printed->0) == #[trigger] number::signed_decimal(
            n as int,
        ) implies field == Some(n) by {
        number::lemma_signed_round_trip(n as int);
    }
}

proof fn lemma_identity<T: View<V = u128>>(printed: Option<Seq<char>>, field: Option<T>)
    requires
        outcome::option_view(field) == normalize::uuid_in(printed),
    ensures
        is_identity_in(printed, field),
{
    reveal(normalize::uuid_in);
    reveal(is_identity_in);
}

proof fn lemma_flag(printed: Option<Seq<char>>, field: Option<bool>)
    requires
        field == normalize::bool_in(printed),
    ensures
        is_flag_in(printed, field),
{
    reveal(normalize::bool_in);
    reveal(is_flag_in);
}

proof fn lemma_time(printed: Option<Seq<char>>, field: Option<Timestamp>)
    requires
        field == normalize::time_in(printed),
    ensures
        is_time_in(printed, field),
{
    reveal(normalize::time_in);
    reveal(is_time_in);
}

/// A text that is no RFC 3339 time and has no numeric offset is read as year, month, day, hour, minute
/// and second of UTC, in this order: the moment is the one that this reading gives.
pub proof fn law_times_without_an_offset_are_utc(value: Seq<char>, seconds: i64, nanos: u32)
    requires
        timestamp::rfc3339_of(value) is None,
        timestamp::zoned_of(value, "%Y-%m-%dT%H:%M:%S%.f%z"@) is None,
        timestamp::naive_of(value, "%Y-%m-%dT%H:%M:%S%.f"@) == Some((seconds, nanos)),
    ensures
        normalize::time_of(value) == Some(Timestamp { seconds, nanos, offset: 0 }),
{
}

/// A text that only the form with a space, or only the form of digits alone, can read is read in that
/// form, year, month and day first, as a time of UTC; and what no form can read is no time.
pub proof fn law_other_times_without_an_offset_are_utc(value: Seq<char>)
    requires
        timestamp::rfc3339_of(value) is None,
        timestamp::zoned_of(value, "%Y-%m-%dT%H:%M:%S%.f%z"@) is None,
        timestamp::naive_of(value, "%Y-%m-%dT%H:%M:%S%.f"@) is None,
    ensures
        timestamp::naive_of(value, "%Y-%m-%d %H:%M:%S%.f"@) is Some ==> holds_utc(
            normalize::time_of(value),
            timestamp::naive_of(value, "%Y-%m-%d %H:%M:%S%.f"@),
        ),
        timestamp::naive_of(value, "%Y-%m-%d %H:%M:%S%.f"@) is None ==> holds_utc(
            normalize::time_of(value),
            timestamp::naive_of(value, "%Y%m%d%H%M%S"@),
        ),
{
}

/// A text with an offset keeps its moment and its offset: an RFC 3339 reading comes before the others,
/// and a reading with a numeric offset before those without one.
pub proof fn law_times_with_an_offset_keep_it(value: Seq<char>)
    ensures
        timestamp::rfc3339_of(value) is Some ==> holds_moment(
            normalize::time_of(value),
            timestamp::rfc3339_of(value),
        ),
        timestamp::rfc3339_of(value) is None && timestamp::zoned_of(
            value,
            "%Y-%m-%dT%H:%M:%S%.f%z"@,
        ) is Some ==> holds_moment(
            normalize::time_of(value),
            timestamp::zoned_of(value, "%Y-%m-%dT%H:%M:%S%.f%z"@),
        ),
{
}

/// Every field of a session holds what `rac` prints under the name of that field.
pub proof fn law_session_fields_are_what_rac_prints(
    record: RacRecord,
    source: ClusterSource,
    result: SessionRecord,
)
    requires
        call_ensures(
            normalize_session,
            (&record, source),
            Ok::<SessionRecord, NormalizationError>(result),
        ),
    ensures
        result.source == source,
        result.infobase is None,
        is_identity_in(any_of(record@, "infobase"@, "infobase_uuid"@, "infobase_id"@), result.infobase_uuid),
        is_identity_in(either(record@, "connection"@, "connection_uuid"@), result.connection),
        is_identity_in(either(record@, "process"@, "process_uuid"@), result.process),
        is_text_in(entries::lookup(record@, "user_name"@), result.user_name),
        is_text_in(entries::lookup(record@, "host"@), result.host),
        is_text_in(entries::lookup(record@, "app_id"@), result.app_id),
        is_text_in(entries::lookup(record@, "locale"@), result.locale),
        is_time_in(entries::lookup(record@, "started_at"@), result.started_at),
        is_time_in(entries::lookup(record@, "last_active_at"@), result.last_active_at),
        is_flag_in(entries::lookup(record@, "hibernate"@), result.hibernate),
        is_number_in(entries::lookup(record@, "passive_session_hibernate_time"@), result.passive_session_hibernate_time),
        is_number_in(entries::lookup(record@, "hibernate_session_terminate_time"@), result.hibernate_session_terminate_time),
        is_number_in(entries::lookup(record@, "blocked_by_dbms"@), result.blocked_by_dbms),
        is_number_in(entries::lookup(record@, "blocked_by_ls"@), result.blocked_by_ls),
        is_number_in(entries::lookup(record@, "bytes_all"@), result.bytes_all),
        is_number_in(entries::lookup(record@, "bytes_last_5min"@), result.bytes_last_5min),
        is_number_in(entries::lookup(record@, "calls_all"@), result.calls_all),
        is_number_in(entries::lookup(record@, "calls_last_5min"@), result.calls_last_5min),
        is_number_in(entries::lookup(record@, "dbms_bytes_all"@), result.dbms_bytes_all),
        is_number_in(entries::lookup(record@, "dbms_bytes_last_5min"@), result.dbms_bytes_last_5min),
        is_text_in(entries::lookup(record@, "db_proc_info"@), result.db_proc_info),
        is_number_in(entries::lookup(record@, "db_proc_took"@), result.db_proc_took),
        is_time_in(entries::lookup(record@, "db_proc_took_at"@), result.db_proc_took_at),
        is_number_in(entries::lookup(record@, "duration_all"@), result.duration_all),
        is_number_in(entries::lookup(record@, "duration_all_dbms"@), result.duration_all_dbms),
        is_number_in(entries::lookup(record@, "duration_current"@), result.duration_current),
        is_number_in(entries::lookup(record@, "duration_current_dbms"@), result.duration_current_dbms),
        is_number_in(entries::lookup(record@, "duration_last_5min"@), result.duration_last_5min),
        is_number_in(entries::lookup(record@, "duration_last_5min_dbms"@), result.duration_last_5min_dbms),
        is_number_in(entries::lookup(record@, "memory_current"@), result.memory_current),
        is_number_in(entries::lookup(record@, "memory_last_5min"@), result.memory_last_5min),
        is_number_in(entries::lookup(record@, "memory_total"@), result.memory_total),
        is_number_in(entries::lookup(record@, "read_current"@), result.read_current),
        is_number_in(entries::lookup(record@, "read_last_5min"@), result.read_last_5min),
        is_number_in(entries::lookup(record@, "read_total"@), result.read_total),
        is_number_in(entries::lookup(record@, "write_current"@), result.write_current),
        is_number_in(entries::lookup(record@, "write_last_5min"@), result.write_last_5min),
        is_number_in(entries::lookup(record@, "write_total"@), result.write_total),
        is_number_in(entries::lookup(record@, "duration_current_service"@), result.duration_current_service),
        is_number_in(entries::lookup(record@, "duration_last_5min_service"@), result.duration_last_5min_service),
        is_number_in(entries::lookup(record@, "duration_all_service"@), result.duration_all_service),
        is_text_in(entries::lookup(record@, "current_service_name"@), result.current_service_name),
        is_number_in(entries::lookup(record@, "cpu_time_current"@), result.cpu_time_current),
        is_number_in(entries::lookup(record@, "cpu_time_last_5min"@), result.cpu_time_last_5min),
        is_number_in(entries::lookup(record@, "cpu_time_total"@), result.cpu_time_total),
        is_text_in(entries::lookup(record@, "data_separation"@), result.data_separation),
        is_text_in(entries::lookup(record@, "client_ip"@), result.client_ip),
{
    lemma_three_names(record@, "infobase"@, "infobase_uuid"@, "infobase_id"@);
    lemma_identity(any_of(record@, "infobase"@, "infobase_uuid"@, "infobase_id"@), result.infobase_uuid);
    lemma_two_names(record@, "connection"@, "connection_uuid"@);
    lemma_identity(either(record@, "connection"@, "connection_uuid"@), result.connection);
    lemma_two_names(record@, "process"@, "process_uuid"@);
    lemma_identity(either(record@, "process"@, "process_uuid"@), result.process);
    lemma_one_name(record@, "user_name"@);
    lemma_text(entries::lookup(record@, "user_name"@), result.user_name);
    lemma_one_name(record@, "host"@);
    lemma_text(entries::lookup(record@, "host"@), result.host);
    lemma_one_name(record@, "app_id"@);
    lemma_text(entries::lookup(record@, "app_id"@), result.app_id);
    lemma_one_name(record@, "locale"@);
    lemma_text(entries::lookup(record@, "locale"@), result.locale);
    lemma_one_name(record@, "started_at"@);
    lemma_time(entries::lookup(record@, "started_at"@), result.started_at);
    lemma_one_name(record@, "last_active_at"@);
    lemma_time(entries::lookup(record@, "last_active_at"@), result.last_active_at);
    lemma_one_name(record@, "hibernate"@);
    lemma_flag(entries::lookup(record@, "hibernate"@), result.hibernate);
    lemma_one_name(record@, "passive_session_hibernate_time"@);
    lemma_number(entries::lookup(record@, "passive_session_hibernate_time"@), result.passive_session_hibernate_time);
    lemma_one_name(record@, "hibernate_session_terminate_time"@);
    lemma_number(entries::lookup(record@, "hibernate_session_terminate_time"@), result.hibernate_session_terminate_time);
    lemma_one_name(record@, "blocked_by_dbms"@);
    lemma_number(entries::lookup(record@, "blocked_by_dbms"@), result.blocked_by_dbms);
    lemma_one_name(record@, "blocked_by_ls"@);
    lemma_number(entries::lookup(record@, "blocked_by_ls"@), result.blocked_by_ls);
    lemma_one_name(record@, "bytes_all"@);
    lemma_number(entries::lookup(record@, "bytes_all"@), result.bytes_all);
    lemma_one_name(record@, "bytes_last_5min"@);
    lemma_number(entries::lookup(record@, "bytes_last_5min"@), result.bytes_last_5min);
    lemma_one_name(record@, "calls_all"@);
    lemma_number(entries::lookup(record@, "calls_all"@), result.calls_all);
    lemma_one_name(record@, "calls_last_5min"@);
    lemma_number(entries::lookup(record@, "calls_last_5min"@), result.calls_last_5min);
    lemma_one_name(record@, "dbms_bytes_all"@);
    lemma_number(entries::lookup(record@, "dbms_bytes_all"@), result.dbms_bytes_all);
    lemma_one_name(record@, "dbms_bytes_last_5min"@);
    lemma_number(entries::lookup(record@, "dbms_bytes_last_5min"@), result.dbms_bytes_last_5min);
    lemma_one_name(record@, "db_proc_info"@);
    lemma_text(entries::lookup(record@, "db_proc_info"@), result.db_proc_info);
    lemma_one_name(record@, "db_proc_took"@);
    lemma_number(entries::lookup(record@, "db_proc_took"@), result.db_proc_took);
    lemma_one_name(record@, "db_proc_took_at"@);
    lemma_time(entries::lookup(record@, "db_proc_took_at"@), result.db_proc_took_at);
    lemma_one_name(record@, "duration_all"@);
    lemma_number(entries::lookup(record@, "duration_all"@), result.duration_all);
    lemma_one_name(record@, "duration_all_dbms"@);
    lemma_number(entries::lookup(record@, "duration_all_dbms"@), result.duration_all_dbms);
    lemma_one_name(record@, "duration_current"@);
    lemma_number(entries::lookup(record@, "duration_current"@), result.duration_current);
    lemma_one_name(record@, "duration_current_dbms"@);
    lemma_number(entries::lookup(record@, "duration_current_dbms"@), result.duration_current_dbms);
    lemma_one_name(record@, "duration_last_5min"@);
    lemma_number(entries::lookup(record@, "duration_last_5min"@), result.duration_last_5min);
    lemma_one_name(record@, "duration_last_5min_dbms"@);
    lemma_number(entries::lookup(record@, "duration_last_5min_dbms"@), result.duration_last_5min_dbms);
    lemma_one_name(record@, "memory_current"@);
    lemma_number(entries::lookup(record@, "memory_current"@), result.memory_current);
    lemma_one_name(record@, "memory_last_5min"@);
    lemma_number(entries::lookup(record@, "memory_last_5min"@), result.memory_last_5min);
    lemma_one_name(record@, "memory_total"@);
    lemma_number(entries::lookup(record@, "memory_total"@), result.memory_total);
    lemma_one_name(record@, "read_current"@);
    lemma_number(entries::lookup(record@, "read_current"@), result.read_current);
    lemma_one_name(record@, "read_last_5min"@);
    lemma_number(entries::lookup(record@, "read_last_5min"@), result.read_last_5min);
    lemma_one_name(record@, "read_total"@);
    lemma_number(entries::lookup(record@, "read_total"@), result.read_total);
    lemma_one_name(record@, "write_current"@);
    lemma_number(entries::lookup(record@, "write_current"@), result.write_current);
    lemma_one_name(record@, "write_last_5min"@);
    lemma_number(entries::lookup(record@, "write_last_5min"@), result.write_last_5min);
    lemma_one_name(record@, "write_total"@);
    lemma_number(entries::lookup(record@, "write_total"@), result.write_total);
    lemma_one_name(record@, "duration_current_service"@);
    lemma_number(entries::lookup(record@, "duration_current_service"@), result.duration_current_service);
    lemma_one_name(record@, "duration_last_5min_service"@);
    lemma_number(entries::lookup(record@, "duration_last_5min_service"@), result.duration_last_5min_service);
    lemma_one_name(record@, "duration_all_service"@);
    lemma_number(entries::lookup(record@, "duration_all_service"@), result.duration_all_service);
    lemma_one_name(record@, "current_service_name"@);
    lemma_text(entries::lookup(record@, "current_service_name"@), result.current_service_name);
    lemma_one_name(record@, "cpu_time_current"@);
    lemma_number(entries::lookup(record@, "cpu_time_current"@), result.cpu_time_current);
    lemma_one_name(record@, "cpu_time_last_5min"@);
    lemma_number(entries::lookup(record@, "cpu_time_last_5min"@), result.cpu_time_last_5min);
    lemma_one_name(record@, "cpu_time_total"@);
    lemma_number(entries::lookup(record@, "cpu_time_total"@), result.cpu_time_total);
    lemma_one_name(record@, "data_separation"@);
    lemma_text(entries::lookup(record@, "data_separation"@), result.data_separation);
    lemma_one_name(record@, "client_ip"@);
    lemma_text(entries::lookup(record@, "client_ip"@), result.client_ip);
}

/// Every field of a connection holds what `rac` prints under the name of that field.
pub proof fn law_connection_fields_are_what_rac_prints(
    record: RacRecord,
    source: ClusterSource,
    result: ConnectionRecord,
)
    requires
        call_ensures(
            normalize_connection,
            (&record, source),
            Ok::<ConnectionRecord, NormalizationError>(result),
        ),
    ensures
        result.source == source,
        result.infobase is None,
        is_identity_in(either(record@, "connection"@, "connection_uuid"@), Some(result.connection)),
        is_identity_in(either(record@, "process"@, "process_uuid"@), Some(result.process)),
        is_identity_in(any_of(record@, "infobase"@, "infobase_uuid"@, "infobase_id"@), result.infobase_uuid),
        is_number_in(either(record@, "conn_id"@, "connection_id"@), result.conn_id),
        is_text_in(entries::lookup(record@, "host"@), result.host),
        is_text_in(either(record@, "application"@, "app_id"@), result.application),
        is_time_in(entries::lookup(record@, "connected_at"@), result.connected_at),
        is_number_in(either(record@, "session_number"@, "session_id"@), result.session_number),
        is_number_in(entries::lookup(record@, "blocked_by_ls"@), result.blocked_by_ls),
{
    reveal(is_identity_in);
    lemma_two_names(record@, "connection"@, "connection_uuid"@);
    lemma_two_names(record@, "process"@, "process_uuid"@);
    lemma_three_names(record@, "infobase"@, "infobase_uuid"@, "infobase_id"@);
    lemma_identity(any_of(record@, "infobase"@, "infobase_uuid"@, "infobase_id"@), result.infobase_uuid);
    lemma_two_names(record@, "conn_id"@, "connection_id"@);
    lemma_number(either(record@, "conn_id"@, "connection_id"@), result.conn_id);
    lemma_one_name(record@, "host"@);
    lemma_text(entries::lookup(record@, "host"@), result.host);
    lemma_two_names(record@, "application"@, "app_id"@);
    lemma_text(either(record@, "application"@, "app_id"@), result.application);
    lemma_one_name(record@, "connected_at"@);
    lemma_time(entries::lookup(record@, "connected_at"@), result.connected_at);
    lemma_two_names(record@, "session_number"@, "session_id"@);
    lemma_number(either(record@, "session_number"@, "session_id"@), result.session_number);
    lemma_one_name(record@, "blocked_by_ls"@);
    lemma_number(entries::lookup(record@, "blocked_by_ls"@), result.blocked_by_ls);
}

/// Every field of a working process holds what `rac` prints under the name of that field.
pub proof fn law_process_fields_are_what_rac_prints(
    record: RacRecord,
    source: ClusterSource,
    result: ProcessRecord,
)
    requires
        call_ensures(
            normalize_process,
            (&record, source),
            Ok::<ProcessRecord, NormalizationError>(result),
        ),
    ensures
        result.source == source,
        is_identity_in(either(record@, "process"@, "process_uuid"@), Some(result.process)),
        is_identity_in(either(record@, "server"@, "server_uuid"@), result.server),
        is_number_in(entries::lookup(record@, "pid"@), result.pid),
        is_time_in(entries::lookup(record@, "started_at"@), result.started_at),
{
    reveal(is_identity_in);
    lemma_two_names(record@, "process"@, "process_uuid"@);
    lemma_two_names(record@, "server"@, "server_uuid"@);
    lemma_identity(either(record@, "server"@, "server_uuid"@), result.server);
    lemma_one_name(record@, "pid"@);
    lemma_number(entries::lookup(record@, "pid"@), result.pid);
    lemma_one_name(record@, "started_at"@);
    lemma_time(entries::lookup(record@, "started_at"@), result.started_at);
}

/// A cluster has the identity, the name, the host and the port that `rac` prints under those names.
pub proof fn law_cluster_fields_are_what_rac_prints(record: RacRecord, result: DiscoveredCluster)
    requires
        call_ensures(
            normalize_cluster,
            (&record,),
            Ok::<DiscoveredCluster, NormalizationError>(result),
        ),
    ensures
        is_identity_in(any_of(record@, "cluster"@, "cluster_uuid"@, "cluster_id"@), Some(result.uuid)),
        either(record@, "name"@, "cluster_name"@) == Some(result.name@),
        either(record@, "host"@, "cluster_host"@) == Some(result.host@),
        result.port > 0,
        either(record@, "port"@, "cluster_port"@) is Some,
        number::unsigned(text::trim(either(record@, "port"@, "cluster_port"@)->0), 65535) == Some(
            result.port as nat,
        ),
{
    reveal(is_identity_in);
    lemma_three_names(record@, "cluster"@, "cluster_uuid"@, "cluster_id"@);
    lemma_two_names(record@, "name"@, "cluster_name"@);
    lemma_two_names(record@, "host"@, "cluster_host"@);
    lemma_two_names(record@, "port"@, "cluster_port"@);
}

/// An infobase has the identity and the name that `rac` prints under those names, and is reached
/// through the server and the port of its cluster.
pub proof fn law_infobase_fields_are_what_rac_prints(
    record: RacRecord,
    source: ClusterSource,
    cluster: DiscoveredCluster,
    result: InfobaseRecord,
)
    requires
        call_ensures(
            normalize_infobase,
            (&record, source, &cluster),
            Ok::<InfobaseRecord, NormalizationError>(result),
        ),
    ensures
        result.source == source,
        is_identity_in(
            any_of(record@, "infobase"@, "infobase_uuid"@, "infobase_id"@),
            Some(result.infobase_uuid),
        ),
        either(record@, "name"@, "infobase_name"@) == Some(result.infobase@),
{
    reveal(is_identity_in);
    lemma_three_names(record@, "infobase"@, "infobase_uuid"@, "infobase_id"@);
    lemma_two_names(record@, "name"@, "infobase_name"@);
}

/// A session whose identity `rac` prints under its own name is read, with that identity and with the
/// number that is printed as its number.
pub proof fn law_sessions_with_an_identity_are_read(
    record: RacRecord,
    source: ClusterSource,
    result: Result<SessionRecord, NormalizationError>,
    id: u128,
)
    requires
        call_ensures(normalize_session, (&record, source), result),
        either(record@, "session"@, "session_uuid"@) is Some,
        identity::uuid_of(text::trim(either(record@, "session"@, "session_uuid"@)->0)) == Some(id),
    ensures
        result is Ok,
        result->Ok_0.session@ == id,
        is_number_in(entries::lookup(record@, "session_id"@), result->Ok_0.session_id),
{
    lemma_two_names(record@, "session"@, "session_uuid"@);
    lemma_one_name(record@, "session_id"@);
    if result is Ok {
        lemma_number(entries::lookup(record@, "session_id"@), result->Ok_0.session_id);
    }
}

/// A record without any identity of a session is no session; one whose identities of a connection and
/// of its process are printed is a connection.
pub proof fn law_identities_decide_what_is_read(
    record: RacRecord,
    source: ClusterSource,
    session: Result<SessionRecord, NormalizationError>,
    connection: Result<ConnectionRecord, NormalizationError>,
    process: Result<ProcessRecord, NormalizationError>,
)
    requires
        call_ensures(normalize_session, (&record, source), session),
        call_ensures(normalize_connection, (&record, source), connection),
        call_ensures(normalize_process, (&record, source), process),
    ensures
        session is Ok <==> shows_identity(either(record@, "session"@, "session_uuid"@))
            || shows_identity(entries::lookup(record@, "session_id"@)),
        connection is Ok <==> shows_own_identity(either(record@, "connection"@, "connection_uuid"@))
            && shows_own_identity(either(record@, "process"@, "process_uuid"@)),
        process is Ok <==> shows_own_identity(either(record@, "process"@, "process_uuid"@)),
{
    lemma_two_names(record@, "session"@, "session_uuid"@);
    lemma_one_name(record@, "session_id"@);
    lemma_two_names(record@, "connection"@, "connection_uuid"@);
    lemma_two_names(record@, "process"@, "process_uuid"@);
}

/// An identity is printed.
pub open spec fn shows_identity(printed: Option<Seq<char>>) -> bool {
    printed is Some && identity::uuid_of(text::trim(printed->0)) is Some
}

/// An identity is printed that is not the nil identity.
pub open spec fn shows_own_identity(printed: Option<Seq<char>>) -> bool {
    shows_identity(printed) && identity::uuid_of(text::trim(printed->0)) != Some(0u128)
}

proof fn lemma_no_quotes(s: Seq<char>)
    requires
        forall|i: int| 0 <= i < s.len() ==> s[i] != '"',
    ensures
        model::doubled_quotes(s) == s,
    decreases s.len(),
{
    if s.len() > 0 {
        let head = s.drop_last();
        assert forall|i: int| 0 <= i < head.len() implies head[i] != '"' by {
            assert(head[i] == s[i]);
        }
        lemma_no_quotes(head);
        assert(s.last() == s[s.len() - 1]);
        assert(head.push(s.last()) =~= s);
    } else {
        assert(model::doubled_quotes(s) =~= s);
    }
}

/// The connection string of an infobase names the server and the port of its cluster, and the infobase
/// itself, each between quotes.
pub proof fn law_connection_strings_name_the_infobase(
    record: RacRecord,
    source: ClusterSource,
    cluster: DiscoveredCluster,
    result: InfobaseRecord,
)
    requires
        call_ensures(
            normalize_infobase,
            (&record, source, &cluster),
            Ok::<InfobaseRecord, NormalizationError>(result),
        ),
        forall|i: int| 0 <= i < cluster.host@.len() ==> cluster.host@[i] != '"',
        forall|i: int| 0 <= i < result.infobase@.len() ==> result.infobase@[i] != '"',
    ensures
        result.connection_string@ == "Srvr=\""@ + cluster.host@ + ":"@ + number::decimal(
            cluster.port as nat,
        ) + "\";Ref=\""@ + result.infobase@ + "\";"@,
{
    lemma_no_quotes(cluster.host@);
    lemma_no_quotes(result.infobase@);
}

/// Truth values are read in English and in Russian, in any case and with blanks around them; whatever else
/// is printed is none.
pub proof fn law_truth_is_read_in_both_languages(printed: Seq<char>)
    requires
        text::trim(printed).len() > 0,
    ensures
        ({
            let word = text::lowercase(text::trim(printed));
            let read = normalize::bool_in(Some(printed));
            &&& word == "true"@ || word == "yes"@ || word == "1"@ || word == "да"@ <==> read == Some(
                true,
            )
            &&& word == "false"@ || word == "no"@ || word == "0"@ || word == "нет"@ <==> read == Some(
                false,
            )
        }),
{
    reveal(normalize::bool_in);
    reveal_strlit("true");
    reveal_strlit("yes");
    reveal_strlit("1");
    reveal_strlit("да");
    reveal_strlit("false");
    reveal_strlit("no");
    reveal_strlit("0");
    reveal_strlit("нет");
    assert("true"@.len() == 4 && "yes"@.len() == 3 && "1"@.len() == 1 && "да"@.len() == 2);
    assert("false"@.len() == 5 && "no"@.len() == 2 && "0"@.len() == 1 && "нет"@.len() == 3);
    assert("yes"@[0] != "нет"@[0] && "1"@[0] != "0"@[0] && "да"@[0] != "no"@[0]);
}

} // verus!
