//! The fields of records by their names: each name gives the value of the field that it names.

use vstd::prelude::*;
use vstd::string::*;

use crate::domain::field_names;
use crate::domain::field_value::ValueView;
use crate::domain::model::{
    ConnectionRecord, FieldAccess, InfobaseRecord, ProcessRecord, SessionRecord,
};
use crate::domain::timestamp::Timestamp;
use crate::domain::value;

verus! {

/// A number as the value of a field; null where there is none.
pub open spec fn told_int(value: Option<i64>) -> ValueView {
    match value {
        Some(value) => ValueView::Int(value),
        None => ValueView::Null,
    }
}

/// A truth value as the value of a field; null where there is none.
pub open spec fn told_bool(value: Option<bool>) -> ValueView {
    match value {
        Some(value) => ValueView::Bool(value),
        None => ValueView::Null,
    }
}

/// A time as the value of a field; null where there is none.
pub open spec fn told_time(value: Option<Timestamp>) -> ValueView {
    match value {
        Some(value) => ValueView::DateTime(value),
        None => ValueView::Null,
    }
}

/// A text as the value of a field; null where there is none.
pub open spec fn told_text(value: Option<String>) -> ValueView {
    match value {
        Some(value) => ValueView::Str(value@),
        None => ValueView::Null,
    }
}

/// An identity as the value of a field; null where there is none.
pub open spec fn told_id<T: View<V = u128>>(value: Option<T>) -> ValueView {
    match value {
        Some(value) => ValueView::Uuid(value@),
        None => ValueView::Null,
    }
}

proof fn lemma_first_names()
    ensures
        field_names::mark("cluster"@) == field_names::code(7, 'c', 'r'),
        field_names::mark("cluster_uuid"@) == field_names::code(12, 'c', 'd'),
        field_names::mark("cluster_name"@) == field_names::code(12, 'c', 'e'),
        field_names::mark("ras_address"@) == field_names::code(11, 'r', 's'),
        field_names::mark("infobase"@) == field_names::code(8, 'i', 'e'),
        field_names::mark("infobase_uuid"@) == field_names::code(13, 'i', 'd'),
        field_names::mark("session"@) == field_names::code(7, 's', 'n'),
        field_names::mark("session_id"@) == field_names::code(10, 's', 'd'),
        field_names::mark("connection"@) == field_names::code(10, 'c', 'n'),
        field_names::mark("process"@) == field_names::code(7, 'p', 's'),
        field_names::mark("user_name"@) == field_names::code(9, 'u', 'e'),
        field_names::mark("host"@) == field_names::code(4, 'h', 't'),
        field_names::mark("app_id"@) == field_names::code(6, 'a', 'd'),
        field_names::mark("locale"@) == field_names::code(6, 'l', 'e'),
        field_names::mark("started_at"@) == field_names::code(10, 's', 't'),
        field_names::mark("last_active_at"@) == field_names::code(14, 'l', 't'),
{
    reveal_strlit("cluster");
    reveal_strlit("cluster_uuid");
    reveal_strlit("cluster_name");
    reveal_strlit("ras_address");
    reveal_strlit("infobase");
    reveal_strlit("infobase_uuid");
    reveal_strlit("session");
    reveal_strlit("session_id");
    reveal_strlit("connection");
    reveal_strlit("process");
    reveal_strlit("user_name");
    reveal_strlit("host");
    reveal_strlit("app_id");
    reveal_strlit("locale");
    reveal_strlit("started_at");
    reveal_strlit("last_active_at");
}

proof fn lemma_second_names()
    ensures
        field_names::mark("hibernate"@) == field_names::code(9, 'h', 'e'),
        field_names::mark("passive_session_hibernate_time"@) == field_names::code(30, 'p', 'e'),
        field_names::mark("hibernate_session_terminate_time"@) == field_names::code(32, 'h', 'e'),
        field_names::mark("blocked_by_dbms"@) == field_names::code(15, 'b', 's'),
        field_names::mark("blocked_by_ls"@) == field_names::code(13, 'b', 's'),
        field_names::mark("bytes_all"@) == field_names::code(9, 'b', 'l'),
        field_names::mark("bytes_last_5min"@) == field_names::code(15, 'b', 'n'),
        field_names::mark("calls_all"@) == field_names::code(9, 'c', 'l'),
        field_names::mark("calls_last_5min"@) == field_names::code(15, 'c', 'n'),
        field_names::mark("dbms_bytes_all"@) == field_names::code(14, 'd', 'l'),
        field_names::mark("dbms_bytes_last_5min"@) == field_names::code(20, 'd', 'n'),
        field_names::mark("db_proc_info"@) == field_names::code(12, 'd', 'o'),
        field_names::mark("db_proc_took"@) == field_names::code(12, 'd', 'k'),
        field_names::mark("db_proc_took_at"@) == field_names::code(15, 'd', 't'),
        field_names::mark("duration_all"@) == field_names::code(12, 'd', 'l'),
        field_names::mark("duration_all_dbms"@) == field_names::code(17, 'd', 's'),
{
    reveal_strlit("hibernate");
    reveal_strlit("passive_session_hibernate_time");
    reveal_strlit("hibernate_session_terminate_time");
    reveal_strlit("blocked_by_dbms");
    reveal_strlit("blocked_by_ls");
    reveal_strlit("bytes_all");
    reveal_strlit("bytes_last_5min");
    reveal_strlit("calls_all");
    reveal_strlit("calls_last_5min");
    reveal_strlit("dbms_bytes_all");
    reveal_strlit("dbms_bytes_last_5min");
    reveal_strlit("db_proc_info");
    reveal_strlit("db_proc_took");
    reveal_strlit("db_proc_took_at");
    reveal_strlit("duration_all");
    reveal_strlit("duration_all_dbms");
}

proof fn lemma_third_names()
    ensures
        field_names::mark("duration_current"@) == field_names::code(16, 'd', 't'),
        field_names::mark("duration_current_dbms"@) == field_names::code(21, 'd', 's'),
        field_names::mark("duration_last_5min"@) == field_names::code(18, 'd', 'n'),
        field_names::mark("duration_last_5min_dbms"@) == field_names::code(23, 'd', 's'),
        field_names::mark("memory_current"@) == field_names::code(14, 'm', 't'),
        field_names::mark("memory_last_5min"@) == field_names::code(16, 'm', 'n'),
        field_names::mark("memory_total"@) == field_names::code(12, 'm', 'l'),
        field_names::mark("read_current"@) == field_names::code(12, 'r', 't'),
        field_names::mark("read_last_5min"@) == field_names::code(14, 'r', 'n'),
        field_names::mark("read_total"@) == field_names::code(10, 'r', 'l'),
        field_names::mark("write_current"@) == field_names::code(13, 'w', 't'),
        field_names::mark("write_last_5min"@) == field_names::code(15, 'w', 'n'),
        field_names::mark("write_total"@) == field_names::code(11, 'w', 'l'),
        field_names::mark("duration_current_service"@) == field_names::code(24, 'd', 'e'),
        field_names::mark("duration_last_5min_service"@) == field_names::code(26, 'd', 'e'),
        field_names::mark("duration_all_service"@) == field_names::code(20, 'd', 'e'),
{
    reveal_strlit("duration_current");
    reveal_strlit("duration_current_dbms");
    reveal_strlit("duration_last_5min");
    reveal_strlit("duration_last_5min_dbms");
    reveal_strlit("memory_current");
    reveal_strlit("memory_last_5min");
    reveal_strlit("memory_total");
    reveal_strlit("read_current");
    reveal_strlit("read_last_5min");
    reveal_strlit("read_total");
    reveal_strlit("write_current");
    reveal_strlit("write_last_5min");
    reveal_strlit("write_total");
    reveal_strlit("duration_current_service");
    reveal_strlit("duration_last_5min_service");
    reveal_strlit("duration_all_service");
}

proof fn lemma_fourth_names()
    ensures
        field_names::mark("current_service_name"@) == field_names::code(20, 'c', 'e'),
        field_names::mark("cpu_time_current"@) == field_names::code(16, 'c', 't'),
        field_names::mark("cpu_time_last_5min"@) == field_names::code(18, 'c', 'n'),
        field_names::mark("cpu_time_total"@) == field_names::code(14, 'c', 'l'),
        field_names::mark("data_separation"@) == field_names::code(15, 'd', 'n'),
        field_names::mark("client_ip"@) == field_names::code(9, 'c', 'p'),
        field_names::mark("conn_id"@) == field_names::code(7, 'c', 'd'),
        field_names::mark("application"@) == field_names::code(11, 'a', 'n'),
        field_names::mark("connected_at"@) == field_names::code(12, 'c', 't'),
        field_names::mark("session_number"@) == field_names::code(14, 's', 'r'),
        field_names::mark("server"@) == field_names::code(6, 's', 'r'),
        field_names::mark("pid"@) == field_names::code(3, 'p', 'd'),
        field_names::mark("connection_string"@) == field_names::code(17, 'c', 'g'),
{
    reveal_strlit("current_service_name");
    reveal_strlit("cpu_time_current");
    reveal_strlit("cpu_time_last_5min");
    reveal_strlit("cpu_time_total");
    reveal_strlit("data_separation");
    reveal_strlit("client_ip");
    reveal_strlit("conn_id");
    reveal_strlit("application");
    reveal_strlit("connected_at");
    reveal_strlit("session_number");
    reveal_strlit("server");
    reveal_strlit("pid");
    reveal_strlit("connection_string");
}

/// The names of fields differ.
proof fn lemma_names_differ()
    ensures
        field_names::mark("cluster"@) == field_names::code(7, 'c', 'r'),
        field_names::mark("cluster_uuid"@) == field_names::code(12, 'c', 'd'),
        field_names::mark("cluster_name"@) == field_names::code(12, 'c', 'e'),
        field_names::mark("ras_address"@) == field_names::code(11, 'r', 's'),
        field_names::mark("infobase"@) == field_names::code(8, 'i', 'e'),
        field_names::mark("infobase_uuid"@) == field_names::code(13, 'i', 'd'),
        field_names::mark("session"@) == field_names::code(7, 's', 'n'),
        field_names::mark("session_id"@) == field_names::code(10, 's', 'd'),
        field_names::mark("connection"@) == field_names::code(10, 'c', 'n'),
        field_names::mark("process"@) == field_names::code(7, 'p', 's'),
        field_names::mark("user_name"@) == field_names::code(9, 'u', 'e'),
        field_names::mark("host"@) == field_names::code(4, 'h', 't'),
        field_names::mark("app_id"@) == field_names::code(6, 'a', 'd'),
        field_names::mark("locale"@) == field_names::code(6, 'l', 'e'),
        field_names::mark("started_at"@) == field_names::code(10, 's', 't'),
        field_names::mark("last_active_at"@) == field_names::code(14, 'l', 't'),
        field_names::mark("hibernate"@) == field_names::code(9, 'h', 'e'),
        field_names::mark("passive_session_hibernate_time"@) == field_names::code(30, 'p', 'e'),
        field_names::mark("hibernate_session_terminate_time"@) == field_names::code(32, 'h', 'e'),
        field_names::mark("blocked_by_dbms"@) == field_names::code(15, 'b', 's'),
        field_names::mark("blocked_by_ls"@) == field_names::code(13, 'b', 's'),
        field_names::mark("bytes_all"@) == field_names::code(9, 'b', 'l'),
        field_names::mark("bytes_last_5min"@) == field_names::code(15, 'b', 'n'),
        field_names::mark("calls_all"@) == field_names::code(9, 'c', 'l'),
        field_names::mark("calls_last_5min"@) == field_names::code(15, 'c', 'n'),
        field_names::mark("dbms_bytes_all"@) == field_names::code(14, 'd', 'l'),
        field_names::mark("dbms_bytes_last_5min"@) == field_names::code(20, 'd', 'n'),
        field_names::mark("db_proc_info"@) == field_names::code(12, 'd', 'o'),
        field_names::mark("db_proc_took"@) == field_names::code(12, 'd', 'k'),
        field_names::mark("db_proc_took_at"@) == field_names::code(15, 'd', 't'),
        field_names::mark("duration_all"@) == field_names::code(12, 'd', 'l'),
        field_names::mark("duration_all_dbms"@) == field_names::code(17, 'd', 's'),
        field_names::mark("duration_current"@) == field_names::code(16, 'd', 't'),
        field_names::mark("duration_current_dbms"@) == field_names::code(21, 'd', 's'),
        field_names::mark("duration_last_5min"@) == field_names::code(18, 'd', 'n'),
        field_names::mark("duration_last_5min_dbms"@) == field_names::code(23, 'd', 's'),
        field_names::mark("memory_current"@) == field_names::code(14, 'm', 't'),
        field_names::mark("memory_last_5min"@) == field_names::code(16, 'm', 'n'),
        field_names::mark("memory_total"@) == field_names::code(12, 'm', 'l'),
        field_names::mark("read_current"@) == field_names::code(12, 'r', 't'),
        field_names::mark("read_last_5min"@) == field_names::code(14, 'r', 'n'),
        field_names::mark("read_total"@) == field_names::code(10, 'r', 'l'),
        field_names::mark("write_current"@) == field_names::code(13, 'w', 't'),
        field_names::mark("write_last_5min"@) == field_names::code(15, 'w', 'n'),
        field_names::mark("write_total"@) == field_names::code(11, 'w', 'l'),
        field_names::mark("duration_current_service"@) == field_names::code(24, 'd', 'e'),
        field_names::mark("duration_last_5min_service"@) == field_names::code(26, 'd', 'e'),
        field_names::mark("duration_all_service"@) == field_names::code(20, 'd', 'e'),
        field_names::mark("current_service_name"@) == field_names::code(20, 'c', 'e'),
        field_names::mark("cpu_time_current"@) == field_names::code(16, 'c', 't'),
        field_names::mark("cpu_time_last_5min"@) == field_names::code(18, 'c', 'n'),
        field_names::mark("cpu_time_total"@) == field_names::code(14, 'c', 'l'),
        field_names::mark("data_separation"@) == field_names::code(15, 'd', 'n'),
        field_names::mark("client_ip"@) == field_names::code(9, 'c', 'p'),
        field_names::mark("conn_id"@) == field_names::code(7, 'c', 'd'),
        field_names::mark("application"@) == field_names::code(11, 'a', 'n'),
        field_names::mark("connected_at"@) == field_names::code(12, 'c', 't'),
        field_names::mark("session_number"@) == field_names::code(14, 's', 'r'),
        field_names::mark("server"@) == field_names::code(6, 's', 'r'),
        field_names::mark("pid"@) == field_names::code(3, 'p', 'd'),
        field_names::mark("connection_string"@) == field_names::code(17, 'c', 'g'),
{
    lemma_first_names();
    lemma_second_names();
    lemma_third_names();
    lemma_fourth_names();
}

proof fn lemma_session_infobase(record: SessionRecord)
    ensures
        record.field_view("infobase"@) == Some(told_text(record.infobase)),
        record.field_view("infobase_uuid"@) == Some(told_id(record.infobase_uuid)),
        record.field_view("session"@) == Some(ValueView::Uuid(record.session@)),
{
    lemma_names_differ();
}

proof fn lemma_session_session_id(record: SessionRecord)
    ensures
        record.field_view("session_id"@) == Some(told_int(record.session_id)),
        record.field_view("connection"@) == Some(told_id(record.connection)),
        record.field_view("process"@) == Some(told_id(record.process)),
{
    lemma_names_differ();
}

proof fn lemma_session_user_name(record: SessionRecord)
    ensures
        record.field_view("user_name"@) == Some(told_text(record.user_name)),
        record.field_view("host"@) == Some(told_text(record.host)),
        record.field_view("app_id"@) == Some(told_text(record.app_id)),
{
    lemma_names_differ();
}

proof fn lemma_session_locale(record: SessionRecord)
    ensures
        record.field_view("locale"@) == Some(told_text(record.locale)),
        record.field_view("started_at"@) == Some(told_time(record.started_at)),
        record.field_view("last_active_at"@) == Some(told_time(record.last_active_at)),
{
    lemma_names_differ();
}

proof fn lemma_session_hibernate(record: SessionRecord)
    ensures
        record.field_view("hibernate"@) == Some(told_bool(record.hibernate)),
        record.field_view("passive_session_hibernate_time"@) == Some(told_int(record.passive_session_hibernate_time)),
        record.field_view("hibernate_session_terminate_time"@) == Some(told_int(record.hibernate_session_terminate_time)),
{
    lemma_names_differ();
}

proof fn lemma_session_blocked_by_dbms(record: SessionRecord)
    ensures
        record.field_view("blocked_by_dbms"@) == Some(told_int(record.blocked_by_dbms)),
        record.field_view("blocked_by_ls"@) == Some(told_int(record.blocked_by_ls)),
        record.field_view("bytes_all"@) == Some(told_int(record.bytes_all)),
{
    lemma_names_differ();
}

proof fn lemma_session_bytes_last_5min(record: SessionRecord)
    ensures
        record.field_view("bytes_last_5min"@) == Some(told_int(record.bytes_last_5min)),
        record.field_view("calls_all"@) == Some(told_int(record.calls_all)),
        record.field_view("calls_last_5min"@) == Some(told_int(record.calls_last_5min)),
{
    lemma_names_differ();
}

proof fn lemma_session_dbms_bytes_all(record: SessionRecord)
    ensures
        record.field_view("dbms_bytes_all"@) == Some(told_int(record.dbms_bytes_all)),
        record.field_view("dbms_bytes_last_5min"@) == Some(told_int(record.dbms_bytes_last_5min)),
        record.field_view("db_proc_info"@) == Some(told_text(record.db_proc_info)),
{
    lemma_names_differ();
}

proof fn lemma_session_db_proc_took(record: SessionRecord)
    ensures
        record.field_view("db_proc_took"@) == Some(told_int(record.db_proc_took)),
        record.field_view("db_proc_took_at"@) == Some(told_time(record.db_proc_took_at)),
        record.field_view("duration_all"@) == Some(told_int(record.duration_all)),
{
    lemma_names_differ();
}

proof fn lemma_session_duration_all_dbms(record: SessionRecord)
    ensures
        record.field_view("duration_all_dbms"@) == Some(told_int(record.duration_all_dbms)),
        record.field_view("duration_current"@) == Some(told_int(record.duration_current)),
        record.field_view("duration_current_dbms"@) == Some(told_int(record.duration_current_dbms)),
{
    lemma_names_differ();
}

proof fn lemma_session_duration_last_5min(record: SessionRecord)
    ensures
        record.field_view("duration_last_5min"@) == Some(told_int(record.duration_last_5min)),
        record.field_view("duration_last_5min_dbms"@) == Some(told_int(record.duration_last_5min_dbms)),
        record.field_view("memory_current"@) == Some(told_int(record.memory_current)),
{
    lemma_names_differ();
}

proof fn lemma_session_memory_last_5min(record: SessionRecord)
    ensures
        record.field_view("memory_last_5min"@) == Some(told_int(record.memory_last_5min)),
        record.field_view("memory_total"@) == Some(told_int(record.memory_total)),
        record.field_view("read_current"@) == Some(told_int(record.read_current)),
{
    lemma_names_differ();
}

proof fn lemma_session_read_last_5min(record: SessionRecord)
    ensures
        record.field_view("read_last_5min"@) == Some(told_int(record.read_last_5min)),
        record.field_view("read_total"@) == Some(told_int(record.read_total)),
        record.field_view("write_current"@) == Some(told_int(record.write_current)),
{
    lemma_names_differ();
}

proof fn lemma_session_write_last_5min(record: SessionRecord)
    ensures
        record.field_view("write_last_5min"@) == Some(told_int(record.write_last_5min)),
        record.field_view("write_total"@) == Some(told_int(record.write_total)),
        record.field_view("duration_current_service"@) == Some(told_int(record.duration_current_service)),
{
    lemma_names_differ();
}

proof fn lemma_session_duration_last_5min_service(record: SessionRecord)
    ensures
        record.field_view("duration_last_5min_service"@) == Some(told_int(record.duration_last_5min_service)),
        record.field_view("duration_all_service"@) == Some(told_int(record.duration_all_service)),
        record.field_view("current_service_name"@) == Some(told_text(record.current_service_name)),
{
    lemma_names_differ();
}

proof fn lemma_session_cpu_time_current(record: SessionRecord)
    ensures
        record.field_view("cpu_time_current"@) == Some(told_int(record.cpu_time_current)),
        record.field_view("cpu_time_last_5min"@) == Some(told_int(record.cpu_time_last_5min)),
        record.field_view("cpu_time_total"@) == Some(told_int(record.cpu_time_total)),
{
    lemma_names_differ();
}

proof fn lemma_session_data_separation(record: SessionRecord)
    ensures
        record.field_view("data_separation"@) == Some(told_text(record.data_separation)),
        record.field_view("client_ip"@) == Some(told_text(record.client_ip)),
{
    lemma_names_differ();
}

/// By name, every field of a session is the one of that name in its record; what is not known is null.
pub proof fn law_session_fields_are_told(record: SessionRecord)
    ensures
        record.field_view("infobase"@) == Some(told_text(record.infobase)),
        record.field_view("infobase_uuid"@) == Some(told_id(record.infobase_uuid)),
        record.field_view("session"@) == Some(ValueView::Uuid(record.session@)),
        record.field_view("session_id"@) == Some(told_int(record.session_id)),
        record.field_view("connection"@) == Some(told_id(record.connection)),
        record.field_view("process"@) == Some(told_id(record.process)),
        record.field_view("user_name"@) == Some(told_text(record.user_name)),
        record.field_view("host"@) == Some(told_text(record.host)),
        record.field_view("app_id"@) == Some(told_text(record.app_id)),
        record.field_view("locale"@) == Some(told_text(record.locale)),
        record.field_view("started_at"@) == Some(told_time(record.started_at)),
        record.field_view("last_active_at"@) == Some(told_time(record.last_active_at)),
        record.field_view("hibernate"@) == Some(told_bool(record.hibernate)),
        record.field_view("passive_session_hibernate_time"@) == Some(told_int(record.passive_session_hibernate_time)),
        record.field_view("hibernate_session_terminate_time"@) == Some(told_int(record.hibernate_session_terminate_time)),
        record.field_view("blocked_by_dbms"@) == Some(told_int(record.blocked_by_dbms)),
        record.field_view("blocked_by_ls"@) == Some(told_int(record.blocked_by_ls)),
        record.field_view("bytes_all"@) == Some(told_int(record.bytes_all)),
        record.field_view("bytes_last_5min"@) == Some(told_int(record.bytes_last_5min)),
        record.field_view("calls_all"@) == Some(told_int(record.calls_all)),
        record.field_view("calls_last_5min"@) == Some(told_int(record.calls_last_5min)),
        record.field_view("dbms_bytes_all"@) == Some(told_int(record.dbms_bytes_all)),
        record.field_view("dbms_bytes_last_5min"@) == Some(told_int(record.dbms_bytes_last_5min)),
        record.field_view("db_proc_info"@) == Some(told_text(record.db_proc_info)),
        record.field_view("db_proc_took"@) == Some(told_int(record.db_proc_took)),
        record.field_view("db_proc_took_at"@) == Some(told_time(record.db_proc_took_at)),
        record.field_view("duration_all"@) == Some(told_int(record.duration_all)),
        record.field_view("duration_all_dbms"@) == Some(told_int(record.duration_all_dbms)),
        record.field_view("duration_current"@) == Some(told_int(record.duration_current)),
        record.field_view("duration_current_dbms"@) == Some(told_int(record.duration_current_dbms)),
        record.field_view("duration_last_5min"@) == Some(told_int(record.duration_last_5min)),
        record.field_view("duration_last_5min_dbms"@) == Some(told_int(record.duration_last_5min_dbms)),
        record.field_view("memory_current"@) == Some(told_int(record.memory_current)),
        record.field_view("memory_last_5min"@) == Some(told_int(record.memory_last_5min)),
        record.field_view("memory_total"@) == Some(told_int(record.memory_total)),
        record.field_view("read_current"@) == Some(told_int(record.read_current)),
        record.field_view("read_last_5min"@) == Some(told_int(record.read_last_5min)),
        record.field_view("read_total"@) == Some(told_int(record.read_total)),
        record.field_view("write_current"@) == Some(told_int(record.write_current)),
        record.field_view("write_last_5min"@) == Some(told_int(record.write_last_5min)),
        record.field_view("write_total"@) == Some(told_int(record.write_total)),
        record.field_view("duration_current_service"@) == Some(told_int(record.duration_current_service)),
        record.field_view("duration_last_5min_service"@) == Some(told_int(record.duration_last_5min_service)),
        record.field_view("duration_all_service"@) == Some(told_int(record.duration_all_service)),
        record.field_view("current_service_name"@) == Some(told_text(record.current_service_name)),
        record.field_view("cpu_time_current"@) == Some(told_int(record.cpu_time_current)),
        record.field_view("cpu_time_last_5min"@) == Some(told_int(record.cpu_time_last_5min)),
        record.field_view("cpu_time_total"@) == Some(told_int(record.cpu_time_total)),
        record.field_view("data_separation"@) == Some(told_text(record.data_separation)),
        record.field_view("client_ip"@) == Some(told_text(record.client_ip)),
{
    lemma_session_infobase(record);
    lemma_session_session_id(record);
    lemma_session_user_name(record);
    lemma_session_locale(record);
    lemma_session_hibernate(record);
    lemma_session_blocked_by_dbms(record);
    lemma_session_bytes_last_5min(record);
    lemma_session_dbms_bytes_all(record);
    lemma_session_db_proc_took(record);
    lemma_session_duration_all_dbms(record);
    lemma_session_duration_last_5min(record);
    lemma_session_memory_last_5min(record);
    lemma_session_read_last_5min(record);
    lemma_session_write_last_5min(record);
    lemma_session_duration_last_5min_service(record);
    lemma_session_cpu_time_current(record);
    lemma_session_data_separation(record);
}

/// By name, the fields of a session that tell its cluster are those of its source.
pub proof fn law_session_source_is_told(record: SessionRecord)
    ensures
        record.field_view("cluster"@) == Some(ValueView::Str(record.source.cluster@)),
        record.field_view("cluster_uuid"@) == Some(ValueView::Uuid(record.source.cluster_uuid@)),
        record.field_view("cluster_name"@) == Some(ValueView::Str(record.source.cluster_name@)),
        record.field_view("ras_address"@) == Some(
            ValueView::Str(
                value::endpoint_text(
                    record.source.ras_address@.host,
                    record.source.ras_address@.port as nat,
                ),
            ),
        ),
{
    lemma_names_differ();
}

/// By name, every field of a connection is the one of that name in its record; what is not known is null.
pub proof fn law_connection_fields_are_told(record: ConnectionRecord)
    ensures
        record.field_view("infobase"@) == Some(told_text(record.infobase)),
        record.field_view("infobase_uuid"@) == Some(told_id(record.infobase_uuid)),
        record.field_view("connection"@) == Some(ValueView::Uuid(record.connection@)),
        record.field_view("conn_id"@) == Some(told_int(record.conn_id)),
        record.field_view("host"@) == Some(told_text(record.host)),
        record.field_view("process"@) == Some(ValueView::Uuid(record.process@)),
        record.field_view("application"@) == Some(told_text(record.application)),
        record.field_view("connected_at"@) == Some(told_time(record.connected_at)),
        record.field_view("session_number"@) == Some(told_int(record.session_number)),
        record.field_view("blocked_by_ls"@) == Some(told_int(record.blocked_by_ls)),
{
    lemma_names_differ();
}

/// By name, the fields of a connection that tell its cluster are those of its source.
pub proof fn law_connection_source_is_told(record: ConnectionRecord)
    ensures
        record.field_view("cluster"@) == Some(ValueView::Str(record.source.cluster@)),
        record.field_view("cluster_uuid"@) == Some(ValueView::Uuid(record.source.cluster_uuid@)),
        record.field_view("cluster_name"@) == Some(ValueView::Str(record.source.cluster_name@)),
        record.field_view("ras_address"@) == Some(
            ValueView::Str(
                value::endpoint_text(
                    record.source.ras_address@.host,
                    record.source.ras_address@.port as nat,
                ),
            ),
        ),
{
    lemma_names_differ();
}

/// By name, every field of a working process is the one of that name in its record; what is not known is null.
pub proof fn law_process_fields_are_told(record: ProcessRecord)
    ensures
        record.field_view("process"@) == Some(ValueView::Uuid(record.process@)),
        record.field_view("server"@) == Some(told_id(record.server)),
        record.field_view("pid"@) == Some(told_int(record.pid)),
        record.field_view("started_at"@) == Some(told_time(record.started_at)),
{
    lemma_names_differ();
}

/// By name, the fields of a working process that tell its cluster are those of its source.
pub proof fn law_process_source_is_told(record: ProcessRecord)
    ensures
        record.field_view("cluster"@) == Some(ValueView::Str(record.source.cluster@)),
        record.field_view("cluster_uuid"@) == Some(ValueView::Uuid(record.source.cluster_uuid@)),
        record.field_view("cluster_name"@) == Some(ValueView::Str(record.source.cluster_name@)),
        record.field_view("ras_address"@) == Some(
            ValueView::Str(
                value::endpoint_text(
                    record.source.ras_address@.host,
                    record.source.ras_address@.port as nat,
                ),
            ),
        ),
{
    lemma_names_differ();
}

/// By name, every field of an infobase is the one of that name in its record; what is not known is null.
pub proof fn law_infobase_fields_are_told(record: InfobaseRecord)
    ensures
        record.field_view("infobase"@) == Some(ValueView::Str(record.infobase@)),
        record.field_view("infobase_uuid"@) == Some(ValueView::Uuid(record.infobase_uuid@)),
        record.field_view("connection_string"@) == Some(ValueView::Str(record.connection_string@)),
{
    lemma_names_differ();
}

/// By name, the fields of an infobase that tell its cluster are those of its source.
pub proof fn law_infobase_source_is_told(record: InfobaseRecord)
    ensures
        record.field_view("cluster"@) == Some(ValueView::Str(record.source.cluster@)),
        record.field_view("cluster_uuid"@) == Some(ValueView::Uuid(record.source.cluster_uuid@)),
        record.field_view("cluster_name"@) == Some(ValueView::Str(record.source.cluster_name@)),
        record.field_view("ras_address"@) == Some(
            ValueView::Str(
                value::endpoint_text(
                    record.source.ras_address@.host,
                    record.source.ras_address@.port as nat,
                ),
            ),
        ),
{
    lemma_names_differ();
}

} // verus!
