//! The registry of canonical fields: their types, units, scopes and operators.

use vstd::prelude::*;
use vstd::string::*;

use crate::domain::error::{DomainError, DomainErrorView};
use crate::domain::field_value::FieldType;
use crate::domain::model::RecordKind;
use crate::text;

verus! {

#[derive(Clone, Copy, Debug, PartialEq, Eq, Hash, Structural)]
pub enum FilterOperator {
    Eq,
    Ne,
    Like,
    Gt,
    Ge,
    Lt,
    Le,
}

impl FilterOperator {
    pub open spec fn text(self) -> Seq<char> {
        match self {
            FilterOperator::Eq => "eq"@,
            FilterOperator::Ne => "ne"@,
            FilterOperator::Like => "like"@,
            FilterOperator::Gt => "gt"@,
            FilterOperator::Ge => "ge"@,
            FilterOperator::Lt => "lt"@,
            FilterOperator::Le => "le"@,
        }
    }

    pub fn as_str(self) -> (result: &'static str)
        ensures
            result@ == self.text(),
    {
        match self {
            FilterOperator::Eq => "eq",
            FilterOperator::Ne => "ne",
            FilterOperator::Like => "like",
            FilterOperator::Gt => "gt",
            FilterOperator::Ge => "ge",
            FilterOperator::Lt => "lt",
            FilterOperator::Le => "le",
        }
    }

    /// Reads an operator by its name.
    pub fn parse(value: &str) -> (result: Result<Self, DomainError>)
        ensures
            match result {
                Ok(operator) => operator_of(value@) == Ok::<_, DomainErrorView>(operator),
                Err(error) => operator_of(value@) == Err::<FilterOperator, _>(error@),
            },
    {
        if text::same(value, "eq") {
            Ok(FilterOperator::Eq)
        } else if text::same(value, "ne") {
            Ok(FilterOperator::Ne)
        } else if text::same(value, "like") {
            Ok(FilterOperator::Like)
        } else if text::same(value, "gt") {
            Ok(FilterOperator::Gt)
        } else if text::same(value, "ge") {
            Ok(FilterOperator::Ge)
        } else if text::same(value, "lt") {
            Ok(FilterOperator::Lt)
        } else if text::same(value, "le") {
            Ok(FilterOperator::Le)
        } else {
            Err(DomainError::UnknownFilterOperator { operator: value.to_owned() })
        }
    }
}

/// The operator with a given name.
pub open spec fn operator_of(value: Seq<char>) -> Result<FilterOperator, DomainErrorView> {
    if value == "eq"@ {
        Ok(FilterOperator::Eq)
    } else if value == "ne"@ {
        Ok(FilterOperator::Ne)
    } else if value == "like"@ {
        Ok(FilterOperator::Like)
    } else if value == "gt"@ {
        Ok(FilterOperator::Gt)
    } else if value == "ge"@ {
        Ok(FilterOperator::Ge)
    } else if value == "lt"@ {
        Ok(FilterOperator::Lt)
    } else if value == "le"@ {
        Ok(FilterOperator::Le)
    } else {
        Err(DomainErrorView::UnknownFilterOperator { operator: value })
    }
}

#[derive(Clone, Copy, Debug, PartialEq, Eq, Hash, Structural)]
pub enum SortDirection {
    Asc,
    Desc,
}

impl SortDirection {
    pub open spec fn text(self) -> Seq<char> {
        match self {
            SortDirection::Asc => "asc"@,
            SortDirection::Desc => "desc"@,
        }
    }

    pub fn as_str(self) -> (result: &'static str)
        ensures
            result@ == self.text(),
    {
        match self {
            SortDirection::Asc => "asc",
            SortDirection::Desc => "desc",
        }
    }

    /// Reads a direction by its name.
    pub fn parse(value: &str) -> (result: Result<Self, DomainError>)
        ensures
            match result {
                Ok(direction) => direction_of(value@) == Some(direction),
                Err(error) => direction_of(value@) is None && error@
                    == (DomainErrorView::InvalidSortSyntax {
                    input: value@,
                    reason: "направление должно быть `asc` или `desc`"@,
                }),
            },
    {
        if text::same(value, "asc") {
            Ok(SortDirection::Asc)
        } else if text::same(value, "desc") {
            Ok(SortDirection::Desc)
        } else {
            Err(
                DomainError::InvalidSortSyntax {
                    input: value.to_owned(),
                    reason: "направление должно быть `asc` или `desc`",
                },
            )
        }
    }
}

pub open spec fn direction_of(value: Seq<char>) -> Option<SortDirection> {
    if value == "asc"@ {
        Some(SortDirection::Asc)
    } else if value == "desc"@ {
        Some(SortDirection::Desc)
    } else {
        None
    }
}

#[derive(Clone, Copy, Debug, PartialEq, Eq, Hash, Structural)]
pub enum FieldUnit {
    Bytes,
    Count,
    Milliseconds,
    Microseconds,
    Seconds,
}

impl FieldUnit {
    pub open spec fn text(self) -> Seq<char> {
        match self {
            FieldUnit::Bytes => "bytes"@,
            FieldUnit::Count => "count"@,
            FieldUnit::Milliseconds => "milliseconds"@,
            FieldUnit::Microseconds => "microseconds"@,
            FieldUnit::Seconds => "seconds"@,
        }
    }

    pub fn as_str(self) -> (result: &'static str)
        ensures
            result@ == self.text(),
    {
        match self {
            FieldUnit::Bytes => "bytes",
            FieldUnit::Count => "count",
            FieldUnit::Milliseconds => "milliseconds",
            FieldUnit::Microseconds => "microseconds",
            FieldUnit::Seconds => "seconds",
        }
    }
}

/// The kinds of records that have a field.
#[derive(Clone, Copy, Debug, PartialEq, Eq, Structural)]
pub enum FieldScope {
    /// Infobases, sessions, connections and processes.
    Every,
    /// Infobases, sessions and connections.
    Records,
    Infobase,
    Session,
    Connection,
    Process,
}

/// The operators that a field takes in a filter.
#[derive(Clone, Copy, Debug, PartialEq, Eq, Structural)]
pub enum OperatorSet {
    /// `eq`, `ne` and `like`.
    Text,
    /// `eq`, `ne`, `gt`, `ge`, `lt` and `le`.
    Ordered,
    /// `eq` and `ne`.
    Equality,
}

#[derive(Clone, Copy, Debug, PartialEq, Eq)]
pub struct FieldDefinition {
    pub name: &'static str,
    pub field_type: FieldType,
    pub scope: FieldScope,
    pub operators: OperatorSet,
    pub unit: Option<FieldUnit>,
    pub sortable: bool,
}

impl FieldDefinition {
    pub open spec fn in_scope(self, kind: RecordKind) -> bool {
        match self.scope {
            FieldScope::Every => true,
            FieldScope::Records => kind != RecordKind::Process,
            FieldScope::Infobase => kind == RecordKind::Infobase,
            FieldScope::Session => kind == RecordKind::Session,
            FieldScope::Connection => kind == RecordKind::Connection,
            FieldScope::Process => kind == RecordKind::Process,
        }
    }

    pub open spec fn takes(self, operator: FilterOperator) -> bool {
        match operator {
            FilterOperator::Eq | FilterOperator::Ne => true,
            FilterOperator::Like => self.operators == OperatorSet::Text,
            _ => self.operators == OperatorSet::Ordered,
        }
    }

    /// Whether records of a kind have the field.
    pub fn applies_to(&self, kind: RecordKind) -> (result: bool)
        ensures
            result == self.in_scope(kind),
    {
        match self.scope {
            FieldScope::Every => true,
            FieldScope::Records => kind != RecordKind::Process,
            FieldScope::Infobase => kind == RecordKind::Infobase,
            FieldScope::Session => kind == RecordKind::Session,
            FieldScope::Connection => kind == RecordKind::Connection,
            FieldScope::Process => kind == RecordKind::Process,
        }
    }

    /// Whether the field takes an operator.
    pub fn allows(&self, operator: FilterOperator) -> (result: bool)
        ensures
            result == self.takes(operator),
    {
        match operator {
            FilterOperator::Eq => true,
            FilterOperator::Ne => true,
            FilterOperator::Like => self.operators == OperatorSet::Text,
            _ => self.operators == OperatorSet::Ordered,
        }
    }
}

pub open spec fn field(
    name: &'static str,
    field_type: FieldType,
    scope: FieldScope,
    operators: OperatorSet,
    unit: Option<FieldUnit>,
) -> FieldDefinition {
    FieldDefinition { name, field_type, scope, operators, unit, sortable: true }
}

/// The fields of every record, and those of infobases.
pub open spec fn source_fields() -> Seq<FieldDefinition> {
    seq![
        field("cluster", FieldType::Str, FieldScope::Every, OperatorSet::Text, None),
        field("cluster_uuid", FieldType::Uuid, FieldScope::Every, OperatorSet::Equality, None),
        field("cluster_name", FieldType::Str, FieldScope::Every, OperatorSet::Text, None),
        field("ras_address", FieldType::Str, FieldScope::Every, OperatorSet::Text, None),
        field("infobase", FieldType::Str, FieldScope::Records, OperatorSet::Text, None),
        field("infobase_uuid", FieldType::Uuid, FieldScope::Records, OperatorSet::Equality, None),
        field("connection_string", FieldType::Str, FieldScope::Infobase, OperatorSet::Text, None),
    ]
}

/// Who runs a session and since when.
pub open spec fn session_fields() -> Seq<FieldDefinition> {
    seq![
        field("session", FieldType::Uuid, FieldScope::Session, OperatorSet::Equality, None),
        field("session_id", FieldType::Int, FieldScope::Session, OperatorSet::Ordered, None),
        field("connection", FieldType::Uuid, FieldScope::Session, OperatorSet::Equality, None),
        field("process", FieldType::Uuid, FieldScope::Session, OperatorSet::Equality, None),
        field("user_name", FieldType::Str, FieldScope::Session, OperatorSet::Text, None),
        field("host", FieldType::Str, FieldScope::Session, OperatorSet::Text, None),
        field("app_id", FieldType::Str, FieldScope::Session, OperatorSet::Text, None),
        field("locale", FieldType::Str, FieldScope::Session, OperatorSet::Text, None),
        field("started_at", FieldType::DateTime, FieldScope::Session, OperatorSet::Ordered, None),
        field("last_active_at", FieldType::DateTime, FieldScope::Session, OperatorSet::Ordered, None),
        field("hibernate", FieldType::Bool, FieldScope::Session, OperatorSet::Equality, None),
        field("passive_session_hibernate_time", FieldType::Int, FieldScope::Session, OperatorSet::Ordered, Some(FieldUnit::Seconds)),
        field("hibernate_session_terminate_time", FieldType::Int, FieldScope::Session, OperatorSet::Ordered, Some(FieldUnit::Seconds)),
        field("blocked_by_dbms", FieldType::Int, FieldScope::Session, OperatorSet::Ordered, None),
        field("blocked_by_ls", FieldType::Int, FieldScope::Session, OperatorSet::Ordered, None),
    ]
}

/// What a session sends and how long its calls take.
pub open spec fn traffic_fields() -> Seq<FieldDefinition> {
    seq![
        field("bytes_all", FieldType::Int, FieldScope::Session, OperatorSet::Ordered, Some(FieldUnit::Bytes)),
        field("bytes_last_5min", FieldType::Int, FieldScope::Session, OperatorSet::Ordered, Some(FieldUnit::Bytes)),
        field("calls_all", FieldType::Int, FieldScope::Session, OperatorSet::Ordered, Some(FieldUnit::Count)),
        field("calls_last_5min", FieldType::Int, FieldScope::Session, OperatorSet::Ordered, Some(FieldUnit::Count)),
        field("dbms_bytes_all", FieldType::Int, FieldScope::Session, OperatorSet::Ordered, Some(FieldUnit::Bytes)),
        field("dbms_bytes_last_5min", FieldType::Int, FieldScope::Session, OperatorSet::Ordered, Some(FieldUnit::Bytes)),
        field("db_proc_info", FieldType::Str, FieldScope::Session, OperatorSet::Text, None),
        field("db_proc_took", FieldType::Int, FieldScope::Session, OperatorSet::Ordered, Some(FieldUnit::Milliseconds)),
        field("db_proc_took_at", FieldType::DateTime, FieldScope::Session, OperatorSet::Ordered, None),
        field("duration_all", FieldType::Int, FieldScope::Session, OperatorSet::Ordered, Some(FieldUnit::Milliseconds)),
        field("duration_all_dbms", FieldType::Int, FieldScope::Session, OperatorSet::Ordered, Some(FieldUnit::Milliseconds)),
        field("duration_current", FieldType::Int, FieldScope::Session, OperatorSet::Ordered, Some(FieldUnit::Milliseconds)),
        field("duration_current_dbms", FieldType::Int, FieldScope::Session, OperatorSet::Ordered, Some(FieldUnit::Milliseconds)),
        field("duration_last_5min", FieldType::Int, FieldScope::Session, OperatorSet::Ordered, Some(FieldUnit::Milliseconds)),
        field("duration_last_5min_dbms", FieldType::Int, FieldScope::Session, OperatorSet::Ordered, Some(FieldUnit::Milliseconds)),
    ]
}

/// What a session uses.
pub open spec fn resource_fields() -> Seq<FieldDefinition> {
    seq![
        field("memory_current", FieldType::Int, FieldScope::Session, OperatorSet::Ordered, Some(FieldUnit::Bytes)),
        field("memory_last_5min", FieldType::Int, FieldScope::Session, OperatorSet::Ordered, Some(FieldUnit::Bytes)),
        field("memory_total", FieldType::Int, FieldScope::Session, OperatorSet::Ordered, Some(FieldUnit::Bytes)),
        field("read_current", FieldType::Int, FieldScope::Session, OperatorSet::Ordered, Some(FieldUnit::Bytes)),
        field("read_last_5min", FieldType::Int, FieldScope::Session, OperatorSet::Ordered, Some(FieldUnit::Bytes)),
        field("read_total", FieldType::Int, FieldScope::Session, OperatorSet::Ordered, Some(FieldUnit::Bytes)),
        field("write_current", FieldType::Int, FieldScope::Session, OperatorSet::Ordered, Some(FieldUnit::Bytes)),
        field("write_last_5min", FieldType::Int, FieldScope::Session, OperatorSet::Ordered, Some(FieldUnit::Bytes)),
        field("write_total", FieldType::Int, FieldScope::Session, OperatorSet::Ordered, Some(FieldUnit::Bytes)),
        field("duration_current_service", FieldType::Int, FieldScope::Session, OperatorSet::Ordered, Some(FieldUnit::Milliseconds)),
        field("duration_last_5min_service", FieldType::Int, FieldScope::Session, OperatorSet::Ordered, Some(FieldUnit::Milliseconds)),
        field("duration_all_service", FieldType::Int, FieldScope::Session, OperatorSet::Ordered, Some(FieldUnit::Milliseconds)),
        field("current_service_name", FieldType::Str, FieldScope::Session, OperatorSet::Text, None),
        field("cpu_time_current", FieldType::Int, FieldScope::Session, OperatorSet::Ordered, Some(FieldUnit::Milliseconds)),
        field("cpu_time_last_5min", FieldType::Int, FieldScope::Session, OperatorSet::Ordered, Some(FieldUnit::Milliseconds)),
        field("cpu_time_total", FieldType::Int, FieldScope::Session, OperatorSet::Ordered, Some(FieldUnit::Milliseconds)),
        field("data_separation", FieldType::Str, FieldScope::Session, OperatorSet::Text, None),
        field("client_ip", FieldType::Str, FieldScope::Session, OperatorSet::Text, None),
    ]
}

/// The fields of connections and processes.
pub open spec fn other_fields() -> Seq<FieldDefinition> {
    seq![
        field("connection", FieldType::Uuid, FieldScope::Connection, OperatorSet::Equality, None),
        field("conn_id", FieldType::Int, FieldScope::Connection, OperatorSet::Ordered, None),
        field("host", FieldType::Str, FieldScope::Connection, OperatorSet::Text, None),
        field("process", FieldType::Uuid, FieldScope::Connection, OperatorSet::Equality, None),
        field("application", FieldType::Str, FieldScope::Connection, OperatorSet::Text, None),
        field("connected_at", FieldType::DateTime, FieldScope::Connection, OperatorSet::Ordered, None),
        field("session_number", FieldType::Int, FieldScope::Connection, OperatorSet::Ordered, None),
        field("blocked_by_ls", FieldType::Int, FieldScope::Connection, OperatorSet::Ordered, None),
        field("process", FieldType::Uuid, FieldScope::Process, OperatorSet::Equality, None),
        field("server", FieldType::Uuid, FieldScope::Process, OperatorSet::Equality, None),
        field("pid", FieldType::Int, FieldScope::Process, OperatorSet::Ordered, None),
        field("started_at", FieldType::DateTime, FieldScope::Process, OperatorSet::Ordered, None),
    ]
}

/// Every canonical field, in the order in which columns are listed.
pub open spec fn field_table() -> Seq<FieldDefinition> {
    source_fields() + session_fields() + traffic_fields() + resource_fields() + other_fields()
}

fn define(
    name: &'static str,
    field_type: FieldType,
    scope: FieldScope,
    operators: OperatorSet,
    unit: Option<FieldUnit>,
) -> (result: FieldDefinition)
    ensures
        result == field(name, field_type, scope, operators, unit),
{
    FieldDefinition { name, field_type, scope, operators, unit, sortable: true }
}

fn add_source_fields(table: &mut Vec<FieldDefinition>)
    ensures
        final(table)@ == old(table)@ + source_fields(),
{
    table.push(define("cluster", FieldType::Str, FieldScope::Every, OperatorSet::Text, None));
    table.push(define("cluster_uuid", FieldType::Uuid, FieldScope::Every, OperatorSet::Equality, None));
    table.push(define("cluster_name", FieldType::Str, FieldScope::Every, OperatorSet::Text, None));
    table.push(define("ras_address", FieldType::Str, FieldScope::Every, OperatorSet::Text, None));
    table.push(define("infobase", FieldType::Str, FieldScope::Records, OperatorSet::Text, None));
    table.push(define("infobase_uuid", FieldType::Uuid, FieldScope::Records, OperatorSet::Equality, None));
    table.push(define("connection_string", FieldType::Str, FieldScope::Infobase, OperatorSet::Text, None));
    assert(table@ =~= old(table)@ + source_fields());
}

fn add_session_fields(table: &mut Vec<FieldDefinition>)
    ensures
        final(table)@ == old(table)@ + session_fields(),
{
    table.push(define("session", FieldType::Uuid, FieldScope::Session, OperatorSet::Equality, None));
    table.push(define("session_id", FieldType::Int, FieldScope::Session, OperatorSet::Ordered, None));
    table.push(define("connection", FieldType::Uuid, FieldScope::Session, OperatorSet::Equality, None));
    table.push(define("process", FieldType::Uuid, FieldScope::Session, OperatorSet::Equality, None));
    table.push(define("user_name", FieldType::Str, FieldScope::Session, OperatorSet::Text, None));
    table.push(define("host", FieldType::Str, FieldScope::Session, OperatorSet::Text, None));
    table.push(define("app_id", FieldType::Str, FieldScope::Session, OperatorSet::Text, None));
    table.push(define("locale", FieldType::Str, FieldScope::Session, OperatorSet::Text, None));
    table.push(define("started_at", FieldType::DateTime, FieldScope::Session, OperatorSet::Ordered, None));
    table.push(define("last_active_at", FieldType::DateTime, FieldScope::Session, OperatorSet::Ordered, None));
    table.push(define("hibernate", FieldType::Bool, FieldScope::Session, OperatorSet::Equality, None));
    table.push(define("passive_session_hibernate_time", FieldType::Int, FieldScope::Session, OperatorSet::Ordered, Some(FieldUnit::Seconds)));
    table.push(define("hibernate_session_terminate_time", FieldType::Int, FieldScope::Session, OperatorSet::Ordered, Some(FieldUnit::Seconds)));
    table.push(define("blocked_by_dbms", FieldType::Int, FieldScope::Session, OperatorSet::Ordered, None));
    table.push(define("blocked_by_ls", FieldType::Int, FieldScope::Session, OperatorSet::Ordered, None));
    assert(table@ =~= old(table)@ + session_fields());
}

fn add_traffic_fields(table: &mut Vec<FieldDefinition>)
    ensures
        final(table)@ == old(table)@ + traffic_fields(),
{
    table.push(define("bytes_all", FieldType::Int, FieldScope::Session, OperatorSet::Ordered, Some(FieldUnit::Bytes)));
    table.push(define("bytes_last_5min", FieldType::Int, FieldScope::Session, OperatorSet::Ordered, Some(FieldUnit::Bytes)));
    table.push(define("calls_all", FieldType::Int, FieldScope::Session, OperatorSet::Ordered, Some(FieldUnit::Count)));
    table.push(define("calls_last_5min", FieldType::Int, FieldScope::Session, OperatorSet::Ordered, Some(FieldUnit::Count)));
    table.push(define("dbms_bytes_all", FieldType::Int, FieldScope::Session, OperatorSet::Ordered, Some(FieldUnit::Bytes)));
    table.push(define("dbms_bytes_last_5min", FieldType::Int, FieldScope::Session, OperatorSet::Ordered, Some(FieldUnit::Bytes)));
    table.push(define("db_proc_info", FieldType::Str, FieldScope::Session, OperatorSet::Text, None));
    table.push(define("db_proc_took", FieldType::Int, FieldScope::Session, OperatorSet::Ordered, Some(FieldUnit::Milliseconds)));
    table.push(define("db_proc_took_at", FieldType::DateTime, FieldScope::Session, OperatorSet::Ordered, None));
    table.push(define("duration_all", FieldType::Int, FieldScope::Session, OperatorSet::Ordered, Some(FieldUnit::Milliseconds)));
    table.push(define("duration_all_dbms", FieldType::Int, FieldScope::Session, OperatorSet::Ordered, Some(FieldUnit::Milliseconds)));
    table.push(define("duration_current", FieldType::Int, FieldScope::Session, OperatorSet::Ordered, Some(FieldUnit::Milliseconds)));
    table.push(define("duration_current_dbms", FieldType::Int, FieldScope::Session, OperatorSet::Ordered, Some(FieldUnit::Milliseconds)));
    table.push(define("duration_last_5min", FieldType::Int, FieldScope::Session, OperatorSet::Ordered, Some(FieldUnit::Milliseconds)));
    table.push(define("duration_last_5min_dbms", FieldType::Int, FieldScope::Session, OperatorSet::Ordered, Some(FieldUnit::Milliseconds)));
    assert(table@ =~= old(table)@ + traffic_fields());
}

fn add_resource_fields(table: &mut Vec<FieldDefinition>)
    ensures
        final(table)@ == old(table)@ + resource_fields(),
{
    table.push(define("memory_current", FieldType::Int, FieldScope::Session, OperatorSet::Ordered, Some(FieldUnit::Bytes)));
    table.push(define("memory_last_5min", FieldType::Int, FieldScope::Session, OperatorSet::Ordered, Some(FieldUnit::Bytes)));
    table.push(define("memory_total", FieldType::Int, FieldScope::Session, OperatorSet::Ordered, Some(FieldUnit::Bytes)));
    table.push(define("read_current", FieldType::Int, FieldScope::Session, OperatorSet::Ordered, Some(FieldUnit::Bytes)));
    table.push(define("read_last_5min", FieldType::Int, FieldScope::Session, OperatorSet::Ordered, Some(FieldUnit::Bytes)));
    table.push(define("read_total", FieldType::Int, FieldScope::Session, OperatorSet::Ordered, Some(FieldUnit::Bytes)));
    table.push(define("write_current", FieldType::Int, FieldScope::Session, OperatorSet::Ordered, Some(FieldUnit::Bytes)));
    table.push(define("write_last_5min", FieldType::Int, FieldScope::Session, OperatorSet::Ordered, Some(FieldUnit::Bytes)));
    table.push(define("write_total", FieldType::Int, FieldScope::Session, OperatorSet::Ordered, Some(FieldUnit::Bytes)));
    table.push(define("duration_current_service", FieldType::Int, FieldScope::Session, OperatorSet::Ordered, Some(FieldUnit::Milliseconds)));
    table.push(define("duration_last_5min_service", FieldType::Int, FieldScope::Session, OperatorSet::Ordered, Some(FieldUnit::Milliseconds)));
    table.push(define("duration_all_service", FieldType::Int, FieldScope::Session, OperatorSet::Ordered, Some(FieldUnit::Milliseconds)));
    table.push(define("current_service_name", FieldType::Str, FieldScope::Session, OperatorSet::Text, None));
    table.push(define("cpu_time_current", FieldType::Int, FieldScope::Session, OperatorSet::Ordered, Some(FieldUnit::Milliseconds)));
    table.push(define("cpu_time_last_5min", FieldType::Int, FieldScope::Session, OperatorSet::Ordered, Some(FieldUnit::Milliseconds)));
    table.push(define("cpu_time_total", FieldType::Int, FieldScope::Session, OperatorSet::Ordered, Some(FieldUnit::Milliseconds)));
    table.push(define("data_separation", FieldType::Str, FieldScope::Session, OperatorSet::Text, None));
    table.push(define("client_ip", FieldType::Str, FieldScope::Session, OperatorSet::Text, None));
    assert(table@ =~= old(table)@ + resource_fields());
}

fn add_other_fields(table: &mut Vec<FieldDefinition>)
    ensures
        final(table)@ == old(table)@ + other_fields(),
{
    table.push(define("connection", FieldType::Uuid, FieldScope::Connection, OperatorSet::Equality, None));
    table.push(define("conn_id", FieldType::Int, FieldScope::Connection, OperatorSet::Ordered, None));
    table.push(define("host", FieldType::Str, FieldScope::Connection, OperatorSet::Text, None));
    table.push(define("process", FieldType::Uuid, FieldScope::Connection, OperatorSet::Equality, None));
    table.push(define("application", FieldType::Str, FieldScope::Connection, OperatorSet::Text, None));
    table.push(define("connected_at", FieldType::DateTime, FieldScope::Connection, OperatorSet::Ordered, None));
    table.push(define("session_number", FieldType::Int, FieldScope::Connection, OperatorSet::Ordered, None));
    table.push(define("blocked_by_ls", FieldType::Int, FieldScope::Connection, OperatorSet::Ordered, None));
    table.push(define("process", FieldType::Uuid, FieldScope::Process, OperatorSet::Equality, None));
    table.push(define("server", FieldType::Uuid, FieldScope::Process, OperatorSet::Equality, None));
    table.push(define("pid", FieldType::Int, FieldScope::Process, OperatorSet::Ordered, None));
    table.push(define("started_at", FieldType::DateTime, FieldScope::Process, OperatorSet::Ordered, None));
    assert(table@ =~= old(table)@ + other_fields());
}

fn definitions_table() -> (result: Vec<FieldDefinition>)
    ensures
        result@ == field_table(),
{
    let mut table: Vec<FieldDefinition> = Vec::new();
    add_source_fields(&mut table);
    add_session_fields(&mut table);
    add_traffic_fields(&mut table);
    add_resource_fields(&mut table);
    add_other_fields(&mut table);
    assert(table@ =~= field_table());
    table
}

/// The first position at or after `from` of a field with the given name that a kind has.
pub open spec fn definition_index(kind: RecordKind, name: Seq<char>, from: int) -> int
    decreases field_table().len() - from,
{
    if from >= field_table().len() {
        field_table().len() as int
    } else if field_table()[from].name@ == name && field_table()[from].in_scope(kind) {
        from
    } else {
        definition_index(kind, name, from + 1)
    }
}

pub open spec fn is_canonical(name: Seq<char>) -> bool {
    exists|i: int| 0 <= i < field_table().len() && (#[trigger] field_table()[i]).name@ == name
}

/// The definition of a field of a kind, or why there is none.
pub open spec fn definition_of(kind: RecordKind, name: Seq<char>) -> Result<
    FieldDefinition,
    DomainErrorView,
> {
    let at = definition_index(kind, name, 0);
    if at < field_table().len() {
        Ok(field_table()[at])
    } else if is_canonical(name) {
        Err(DomainErrorView::FieldNotApplicable { field: name, record_kind: kind.text() })
    } else {
        Err(DomainErrorView::UnknownField { field: name })
    }
}

/// A result that holds a plain value, with its error taken by view.
pub open spec fn plain_view<T>(result: Result<T, DomainError>) -> Result<T, DomainErrorView> {
    match result {
        Ok(value) => Ok(value),
        Err(error) => Err(error@),
    }
}

/// The definition of a field that takes an operator, or why there is none.
pub open spec fn operator_definition(
    kind: RecordKind,
    name: Seq<char>,
    operator: FilterOperator,
) -> Result<FieldDefinition, DomainErrorView> {
    match definition_of(kind, name) {
        Err(error) => Err(error),
        Ok(definition) => if definition.takes(operator) {
            Ok(definition)
        } else {
            Err(DomainErrorView::OperatorNotAllowed { field: name, operator: operator.text() })
        },
    }
}

/// The columns shown where none are asked for.
pub open spec fn default_columns_of(kind: RecordKind) -> Seq<&'static str> {
    match kind {
        RecordKind::Infobase => seq!["cluster", "cluster_name", "ras_address", "infobase", "infobase_uuid", "description"],
        RecordKind::Session => seq!["cluster", "infobase", "session_id", "user_name", "host", "app_id", "started_at", "last_active_at", "cpu_time_total", "memory_current"],
        RecordKind::Connection => seq!["cluster", "infobase", "conn_id", "host", "application", "connected_at", "session_number", "process"],
        RecordKind::Process => seq!["cluster", "ras_address", "pid", "started_at", "connections", "memory", "on", "running", "use"],
    }
}

/// The order in which records are shown where none is asked for.
pub open spec fn default_sort_of(kind: RecordKind) -> Seq<SortKey> {
    match kind {
        RecordKind::Infobase => seq![
            sort_key("cluster", SortDirection::Asc, FieldType::Str),
            sort_key("infobase", SortDirection::Asc, FieldType::Str),
            sort_key("infobase_uuid", SortDirection::Asc, FieldType::Uuid),
        ],
        RecordKind::Session => seq![
            sort_key("cluster", SortDirection::Asc, FieldType::Str),
            sort_key("infobase", SortDirection::Asc, FieldType::Str),
            sort_key("session_id", SortDirection::Asc, FieldType::Int),
        ],
        RecordKind::Connection => seq![
            sort_key("cluster", SortDirection::Asc, FieldType::Str),
            sort_key("infobase", SortDirection::Asc, FieldType::Str),
            sort_key("conn_id", SortDirection::Asc, FieldType::Int),
        ],
        RecordKind::Process => seq![
            sort_key("cluster", SortDirection::Asc, FieldType::Str),
            sort_key("pid", SortDirection::Asc, FieldType::Int),
        ],
    }
}

/// One field to sort by, and in which direction.
#[derive(Clone, Copy, Debug, PartialEq, Eq)]
pub struct SortKey {
    pub(crate) field: &'static str,
    pub(crate) direction: SortDirection,
    pub(crate) field_type: FieldType,
}

pub closed spec fn sort_key(
    field: &'static str,
    direction: SortDirection,
    field_type: FieldType,
) -> SortKey {
    SortKey { field, direction, field_type }
}

/// The parts of a sort key.
pub proof fn lemma_sort_key(field: &'static str, direction: SortDirection, field_type: FieldType)
    ensures
        sort_key(field, direction, field_type).name() == field,
        sort_key(field, direction, field_type).way() == direction,
        sort_key(field, direction, field_type).value_type() == field_type,
{
}

/// The sort key that a text `field:asc` or `field:desc` denotes, or why there is none.
pub open spec fn sort_key_of(input: Seq<char>, kind: RecordKind) -> Result<
    (FieldDefinition, SortDirection),
    DomainErrorView,
> {
    let at = text::first_index(input, ':', 0);
    let field = input.take(at);
    let direction = input.skip(at + 1);
    if at >= input.len() {
        Err(
            DomainErrorView::InvalidSortSyntax {
                input,
                reason: "ожидается формат field:asc или field:desc"@,
            },
        )
    } else if field.len() == 0 || direction.len() == 0 || direction.contains(':') {
        Err(
            DomainErrorView::InvalidSortSyntax {
                input,
                reason: "ожидается ровно одно поле и одно направление"@,
            },
        )
    } else {
        match definition_of(kind, field) {
            Err(error) => Err(error),
            Ok(definition) => if !definition.sortable {
                Err(DomainErrorView::FieldNotSortable { field })
            } else {
                match direction_of(direction) {
                    Some(direction) => Ok((definition, direction)),
                    None => Err(
                        DomainErrorView::InvalidSortSyntax {
                            input,
                            reason: "направление должно быть `asc` или `desc`"@,
                        },
                    ),
                }
            },
        }
    }
}

impl SortKey {
    pub closed spec fn name(self) -> &'static str {
        self.field
    }

    pub closed spec fn way(self) -> SortDirection {
        self.direction
    }

    pub closed spec fn value_type(self) -> FieldType {
        self.field_type
    }

    pub(crate) fn make(field: &'static str, direction: SortDirection, field_type: FieldType) -> (result:
        Self)
        ensures
            result == sort_key(field, direction, field_type),
            result.name() == field,
            result.way() == direction,
            result.value_type() == field_type,
    {
        SortKey { field, direction, field_type }
    }

    /// Reads `field:asc` or `field:desc`.
    pub fn parse(input: &str, kind: RecordKind, registry: &FieldRegistry) -> (result: Result<
        Self,
        DomainError,
    >)
        ensures
            match result {
                Ok(key) => sort_key_of(input@, kind) matches Ok((definition, direction))
                    && key == sort_key(definition.name, direction, definition.field_type),
                Err(error) => sort_key_of(input@, kind) == Err::<(FieldDefinition, SortDirection), _>(
                    error@,
                ),
            },
    {
        let source = text::chars(input);
        let at: usize = text::find_char(&source, ':', 0);
        if at >= source.len() {
            return Err(
                DomainError::InvalidSortSyntax {
                    input: input.to_owned(),
                    reason: "ожидается формат field:asc или field:desc",
                },
            );
        }
        let field = text::text_of(&source, 0, at);
        let direction = text::text_of(&source, at + 1, source.len());
        assert(field@ =~= input@.take(at as int));
        assert(direction@ =~= input@.skip(at + 1));
        if field.as_str().is_empty() || direction.as_str().is_empty() || text::contains_char(
            direction.as_str(),
            ':',
        ) {
            return Err(
                DomainError::InvalidSortSyntax {
                    input: input.to_owned(),
                    reason: "ожидается ровно одно поле и одно направление",
                },
            );
        }
        let definition = match registry.definition(kind, field.as_str()) {
            Ok(definition) => definition,
            Err(error) => {
                return Err(error);
            },
        };
        if !definition.sortable {
            return Err(DomainError::FieldNotSortable { field });
        }
        if text::same(direction.as_str(), "asc") {
            Ok(SortKey::make(definition.name, SortDirection::Asc, definition.field_type))
        } else if text::same(direction.as_str(), "desc") {
            Ok(SortKey::make(definition.name, SortDirection::Desc, definition.field_type))
        } else {
            Err(
                DomainError::InvalidSortSyntax {
                    input: input.to_owned(),
                    reason: "направление должно быть `asc` или `desc`",
                },
            )
        }
    }

    pub fn field(self) -> (result: &'static str)
        ensures
            result == self.name(),
    {
        self.field
    }

    pub fn direction(self) -> (result: SortDirection)
        ensures
            result == self.way(),
    {
        self.direction
    }

    pub fn field_type(self) -> (result: FieldType)
        ensures
            result == self.value_type(),
    {
        self.field_type
    }
}

/// Access to the canonical fields.
#[derive(Clone, Copy, Debug)]
pub struct FieldRegistry {}

impl FieldRegistry {
    pub fn new() -> (result: Self) {
        FieldRegistry {  }
    }

    /// The definition of a field of a kind.
    pub fn definition(&self, kind: RecordKind, name: &str) -> (result: Result<
        FieldDefinition,
        DomainError,
    >)
        ensures
            plain_view(result) == definition_of(kind, name@),
    {
        let table = definitions_table();
        let mut known = false;
        let mut i: usize = 0;
        while i < table.len()
            invariant
                table@ == field_table(),
                i <= table@.len(),
                definition_index(kind, name@, 0) == definition_index(kind, name@, i as int),
                known == exists|j: int| 0 <= j < i && (#[trigger] field_table()[j]).name@ == name@,
            decreases table.len() - i,
        {
            if text::same(table[i].name, name) {
                known = true;
                if table[i].applies_to(kind) {
                    return Ok(table[i]);
                }
            }
            i = i + 1;
        }
        if known {
            Err(
                DomainError::FieldNotApplicable {
                    field: name.to_owned(),
                    record_kind: kind.as_str(),
                },
            )
        } else {
            Err(DomainError::UnknownField { field: name.to_owned() })
        }
    }

    /// The fields of a kind, in the order of the table.
    pub fn definitions(&self, kind: RecordKind) -> (result: Vec<FieldDefinition>)
        ensures
            result@ == field_table().filter(|definition: FieldDefinition| definition.in_scope(kind)),
    {
        let table = definitions_table();
        let ghost keep = |definition: FieldDefinition| definition.in_scope(kind);
        let mut result: Vec<FieldDefinition> = Vec::new();
        let mut i: usize = 0;
        assert(field_table().take(0).filter(keep) =~= Seq::<FieldDefinition>::empty());
        while i < table.len()
            invariant
                table@ == field_table(),
                i <= table@.len(),
                keep == (|definition: FieldDefinition| definition.in_scope(kind)),
                result@ == field_table().take(i as int).filter(keep),
            decreases table.len() - i,
        {
            proof {
                assert(field_table().take(i + 1) =~= field_table().take(i as int).push(
                    field_table()[i as int],
                ));
                field_table().take(i as int).lemma_filter_push(field_table()[i as int], keep);
            }
            if table[i].applies_to(kind) {
                result.push(table[i]);
            }
            i = i + 1;
        }
        assert(field_table().take(table@.len() as int) =~= field_table());
        result
    }

    /// The columns shown where none are asked for.
    pub fn default_columns(&self, kind: RecordKind) -> (result: Vec<&'static str>)
        ensures
            result@ == default_columns_of(kind),
    {
        let mut columns: Vec<&'static str> = Vec::new();
        match kind {
            RecordKind::Infobase => {
                columns.push("cluster");
                columns.push("cluster_name");
                columns.push("ras_address");
                columns.push("infobase");
                columns.push("infobase_uuid");
                columns.push("description");
            },
            RecordKind::Session => {
                columns.push("cluster");
                columns.push("infobase");
                columns.push("session_id");
                columns.push("user_name");
                columns.push("host");
                columns.push("app_id");
                columns.push("started_at");
                columns.push("last_active_at");
                columns.push("cpu_time_total");
                columns.push("memory_current");
            },
            RecordKind::Connection => {
                columns.push("cluster");
                columns.push("infobase");
                columns.push("conn_id");
                columns.push("host");
                columns.push("application");
                columns.push("connected_at");
                columns.push("session_number");
                columns.push("process");
            },
            RecordKind::Process => {
                columns.push("cluster");
                columns.push("ras_address");
                columns.push("pid");
                columns.push("started_at");
                columns.push("connections");
                columns.push("memory");
                columns.push("on");
                columns.push("running");
                columns.push("use");
            },
        }
        assert(columns@ =~= default_columns_of(kind));
        columns
    }

    /// The order in which records are shown where none is asked for.
    pub fn default_sort(&self, kind: RecordKind) -> (result: Vec<SortKey>)
        ensures
            result@ == default_sort_of(kind),
    {
        let mut keys: Vec<SortKey> = Vec::new();
        match kind {
            RecordKind::Infobase => {
                keys.push(SortKey::make("cluster", SortDirection::Asc, FieldType::Str));
                keys.push(SortKey::make("infobase", SortDirection::Asc, FieldType::Str));
                keys.push(SortKey::make("infobase_uuid", SortDirection::Asc, FieldType::Uuid));
            },
            RecordKind::Session => {
                keys.push(SortKey::make("cluster", SortDirection::Asc, FieldType::Str));
                keys.push(SortKey::make("infobase", SortDirection::Asc, FieldType::Str));
                keys.push(SortKey::make("session_id", SortDirection::Asc, FieldType::Int));
            },
            RecordKind::Connection => {
                keys.push(SortKey::make("cluster", SortDirection::Asc, FieldType::Str));
                keys.push(SortKey::make("infobase", SortDirection::Asc, FieldType::Str));
                keys.push(SortKey::make("conn_id", SortDirection::Asc, FieldType::Int));
            },
            RecordKind::Process => {
                keys.push(SortKey::make("cluster", SortDirection::Asc, FieldType::Str));
                keys.push(SortKey::make("pid", SortDirection::Asc, FieldType::Int));
            },
        }
        assert(keys@ =~= default_sort_of(kind));
        keys
    }

    /// The definition of a field that takes an operator.
    pub fn validate_operator(
        &self,
        kind: RecordKind,
        field: &str,
        operator: FilterOperator,
    ) -> (result: Result<FieldDefinition, DomainError>)
        ensures
            plain_view(result) == operator_definition(kind, field@, operator),
    {
        match self.definition(kind, field) {
            Err(error) => Err(error),
            Ok(definition) => if definition.allows(operator) {
                Ok(definition)
            } else {
                Err(
                    DomainError::OperatorNotAllowed {
                        field: field.to_owned(),
                        operator: operator.as_str(),
                    },
                )
            },
        }
    }
}

/// Operators follow types: text fields take masks, numbers and times take order comparisons, and
/// every field can be sorted by.
pub proof fn law_operators_follow_types(i: int)
    requires
        0 <= i < field_table().len(),
    ensures
        field_table()[i].takes(FilterOperator::Like) <==> field_table()[i].field_type
            == FieldType::Str,
        field_table()[i].takes(FilterOperator::Gt) <==> field_table()[i].field_type
            == FieldType::Int || field_table()[i].field_type == FieldType::DateTime,
        field_table()[i].sortable,
{
    let a = source_fields();
    let b = session_fields();
    let c = traffic_fields();
    let d = resource_fields();
    let e = other_fields();
    if i < a.len() {
        assert(field_table()[i] == a[i]);
    } else if i < a.len() + b.len() {
        assert(field_table()[i] == b[i - a.len()]);
    } else if i < a.len() + b.len() + c.len() {
        assert(field_table()[i] == c[i - a.len() - b.len()]);
    } else if i < a.len() + b.len() + c.len() + d.len() {
        assert(field_table()[i] == d[i - a.len() - b.len() - c.len()]);
    } else {
        assert(field_table()[i] == e[i - a.len() - b.len() - c.len() - d.len()]);
    }
}

pub proof fn lemma_definition_index(kind: RecordKind, name: Seq<char>, from: int)
    requires
        0 <= from <= field_table().len(),
    ensures
        from <= definition_index(kind, name, from) <= field_table().len(),
        definition_index(kind, name, from) < field_table().len() ==> field_table()[definition_index(
            kind,
            name,
            from,
        )].name@ == name && field_table()[definition_index(kind, name, from)].in_scope(kind),
    decreases field_table().len() - from,
{
    if from < field_table().len() && !(field_table()[from].name@ == name
        && field_table()[from].in_scope(kind)) {
        lemma_definition_index(kind, name, from + 1);
    }
}

/// A definition that the registry gives out carries the name and the kind that were asked for.
pub proof fn law_definition_is_the_asked_one(kind: RecordKind, name: Seq<char>)
    ensures
        definition_of(kind, name) matches Ok(definition) ==> definition.name@ == name
            && definition.in_scope(kind),
{
    lemma_definition_index(kind, name, 0);
}

} // verus!
