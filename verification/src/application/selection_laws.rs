//! What requests select, told by the records themselves.

use vstd::prelude::*;
use vstd::string::*;

use crate::application::connections::{connection_query, ConnectionListRequest};
use crate::application::error::{AppError, AppProblem};
use crate::application::infobases::{infobase_query, InfobaseSearchRequest};
use crate::application::processes::{process_query, ProcessListRequest};
use crate::application::sessions::{session_query, SessionListRequest};
use crate::application::targets;
use crate::domain::field_names;
use crate::domain::field_value::ValueView;
use crate::domain::fields;
use crate::domain::fields::{FieldRegistry, FilterOperator};
use crate::domain::mask;
use crate::domain::mask::SqlMask;
use crate::domain::model::{
    ConnectionRecord, FieldAccess, InfobaseRecord, ProcessRecord, RecordKind, SessionRecord,
};
use crate::domain::query;
use crate::domain::query::{QuerySpec, QuerySpecView};
use crate::domain::record_laws;
use crate::outcome;

verus! {

/// Whether a text that may be missing is one that a mask covers; without a mask anything is.
pub open spec fn is_covered(found: Option<SqlMask>, value: Option<String>) -> bool {
    match found {
        None => true,
        Some(found) => value is Some && mask::mask_matches(found@, value->0@),
    }
}

/// Whether a number is the one asked for; anything is where none is asked for.
pub open spec fn is_number(asked: Option<i64>, value: Option<i64>) -> bool {
    asked is Some ==> value == asked
}

/// Whether an identity is the one asked for; anything is where none is asked for.
pub open spec fn is_id<T: View<V = u128>>(asked: Option<T>, value: u128) -> bool {
    asked is Some ==> value == asked->0@
}

/// Whether a record passes the query that a request brings itself; anything does where it brings none.
pub open spec fn passes_own<R: FieldAccess>(own: Option<QuerySpec>, record: R) -> bool {
    own is Some ==> query::selects(own->0@, record)
}

/// Whether a mask, where there is one, can be used in a condition.
pub open spec fn is_sound(found: Option<SqlMask>) -> bool {
    found is Some ==> mask::mask_of(found->0@) is Ok
}

/// Whether the query that a request brings itself, where it brings one, is for the given kind.
pub open spec fn is_for(own: Option<QuerySpec>, kind: RecordKind) -> bool {
    own is Some ==> own->0@.kind == kind
}

/// Whether a value is as a condition of one of the two kinds asks.
pub open spec fn is_as_asked(operator: FilterOperator, asked: ValueView, value: Option<ValueView>) -> bool {
    match (operator, asked) {
        (FilterOperator::Like, ValueView::Str(source)) => match value {
            Some(ValueView::Str(text)) => mask::mask_matches(source, text),
            _ => false,
        },
        (_, ValueView::Uuid(id)) => value == Some(ValueView::Uuid(id)),
        (_, ValueView::Int(number)) => value == Some(ValueView::Int(number)),
        _ => false,
    }
}

/// A query with one more condition selects what it selected before and the condition allows.
pub proof fn lemma_narrowed<R: FieldAccess>(
    asked: Result<QuerySpecView, AppProblem>,
    field: Seq<char>,
    operator: FilterOperator,
    value: Option<ValueView>,
    record: R,
)
    requires
        operator == FilterOperator::Eq || operator == FilterOperator::Like,
        value is Some ==> (operator == FilterOperator::Like <==> value->0 is Str),
        value is Some ==> value->0 is Str || value->0 is Int || value->0 is Uuid,
        targets::narrowed(asked, field, operator, value) is Ok,
    ensures
        asked is Ok,
        targets::narrowed(asked, field, operator, value)->Ok_0.kind == asked->Ok_0.kind,
        query::selects(targets::narrowed(asked, field, operator, value)->Ok_0, record) <==> (
        query::selects(asked->Ok_0, record) && (value is Some ==> is_as_asked(
            operator,
            value->0,
            record.field_view(field),
        ))),
{
    if let (Ok(found), Some(wanted)) = (asked, value) {
        let filter = query::typed_filter(found.kind, field, operator, wanted)->Ok_0;
        let after = targets::narrowed(asked, field, operator, value)->Ok_0;
        fields::law_definition_is_the_asked_one(found.kind, field);
        assert(filter.field@ == field);
        assert(after.filters == found.filters.push(filter));
        assert(query::accepts(filter, record.field_view(field)) == is_as_asked(
            operator,
            wanted,
            record.field_view(field),
        ));
        let n = found.filters.len() as int;
        if query::selects(after, record) {
            assert(query::accepts(after.filters[n], record.field_view(after.filters[n].field@)));
            assert forall|i: int| 0 <= i < n implies query::accepts(
                #[trigger] found.filters[i],
                record.field_view(found.filters[i].field@),
            ) by {
                assert(after.filters[i] == found.filters[i]);
            }
        }
        if query::selects(found, record) && query::accepts(filter, record.field_view(field)) {
            assert forall|i: int| 0 <= i < after.filters.len() implies query::accepts(
                #[trigger] after.filters[i],
                record.field_view(after.filters[i].field@),
            ) by {
                if i < n {
                    assert(after.filters[i] == found.filters[i]);
                }
            }
        }
    }
}

/// A condition on a field of a kind can be added where its value is of the field's type.
proof fn lemma_narrows(
    asked: Result<QuerySpecView, AppProblem>,
    kind: RecordKind,
    field: Seq<char>,
    operator: FilterOperator,
    value: Option<ValueView>,
    i: int,
)
    requires
        asked is Ok,
        asked->Ok_0.kind == kind,
        0 <= i < fields::field_table().len(),
        fields::field_table()[i].in_scope(kind),
        fields::field_table()[i].name@ == field,
        fields::field_table()[i].takes(operator),
        operator == FilterOperator::Eq || operator == FilterOperator::Like,
        value is Some ==> value->0.field_type() == Some(fields::field_table()[i].field_type),
        value is Some && operator == FilterOperator::Like ==> (value->0 matches ValueView::Str(
            source,
        ) && mask::mask_of(source) is Ok),
    ensures
        targets::narrowed(asked, field, operator, value) is Ok,
        targets::narrowed(asked, field, operator, value)->Ok_0.kind == kind,
{
    field_names::lemma_table_field(kind, i);
}

proof fn lemma_own_query<R: FieldAccess>(kind: RecordKind, own: Option<QuerySpec>, record: R)
    ensures
        is_for(own, kind) <==> targets::query_for(kind, outcome::option_view(own)) is Ok,
        is_for(own, kind) ==> {
            let base = targets::query_for(kind, outcome::option_view(own))->Ok_0;
            base.kind == kind && (query::selects(base, record) <==> passes_own(own, record))
        },
{
}

/// A request for connections selects exactly the connections that pass its own query and have, each in
/// the field of that name, the identity, the number and the process asked for, and an infobase, a host
/// and an application that the masks cover.
pub proof fn law_connection_requests_select_by_their_fields(
    request: ConnectionListRequest,
    registry: FieldRegistry,
    result: Result<QuerySpec, AppError>,
    record: ConnectionRecord,
)
    requires
        call_ensures(connection_query, (&request, &registry), result),
    ensures
        result matches Ok(found) ==> (query::selects(found@, record) <==> {
            &&& passes_own(request.query, record)
            &&& is_id(request.id, record.connection@)
            &&& is_number(request.number, record.conn_id)
            &&& is_id(request.process, record.process@)
            &&& is_covered(request.infobase, record.infobase)
            &&& is_covered(request.host, record.host)
            &&& is_covered(request.application, record.application)
        }),
        is_for(request.query, RecordKind::Connection) && is_sound(request.infobase) && is_sound(
            request.host,
        ) && is_sound(request.application) ==> result is Ok,
{
    let kind = RecordKind::Connection;
    let id = match request.id {
        Some(id) => Some(ValueView::Uuid(id@)),
        None => None,
    };
    let number = match request.number {
        Some(number) => Some(ValueView::Int(number)),
        None => None,
    };
    let process = match request.process {
        Some(process) => Some(ValueView::Uuid(process@)),
        None => None,
    };
    let infobase = asked_mask(request.infobase);
    let host = asked_mask(request.host);
    let application = asked_mask(request.application);
    lemma_own_query(kind, request.query, record);
    record_laws::law_connection_fields_are_told(record);
    let q0 = targets::query_for(kind, outcome::option_view(request.query));
    let q1 = targets::narrowed(q0, "connection"@, FilterOperator::Eq, id);
    let q2 = targets::narrowed(q1, "conn_id"@, FilterOperator::Eq, number);
    let q3 = targets::narrowed(q2, "process"@, FilterOperator::Eq, process);
    let q4 = targets::narrowed(q3, "infobase"@, FilterOperator::Like, infobase);
    let q5 = targets::narrowed(q4, "host"@, FilterOperator::Like, host);
    let q6 = targets::narrowed(q5, "application"@, FilterOperator::Like, application);
    assert(request.query_view() == q6);
    if result is Ok {
        lemma_narrowed(q5, "application"@, FilterOperator::Like, application, record);
        lemma_narrowed(q4, "host"@, FilterOperator::Like, host, record);
        lemma_narrowed(q3, "infobase"@, FilterOperator::Like, infobase, record);
        lemma_narrowed(q2, "process"@, FilterOperator::Eq, process, record);
        lemma_narrowed(q1, "conn_id"@, FilterOperator::Eq, number, record);
        lemma_narrowed(q0, "connection"@, FilterOperator::Eq, id, record);
    }
    if is_for(request.query, kind) && is_sound(request.infobase) && is_sound(request.host)
        && is_sound(request.application) {
        let table = fields::field_table();
        assert(table[4] == fields::source_fields()[4]);
        assert(table[55] == fields::other_fields()[0]);
        assert(table[56] == fields::other_fields()[1]);
        assert(table[57] == fields::other_fields()[2]);
        assert(table[58] == fields::other_fields()[3]);
        assert(table[59] == fields::other_fields()[4]);
        lemma_narrows(q0, kind, "connection"@, FilterOperator::Eq, id, 55);
        lemma_narrows(q1, kind, "conn_id"@, FilterOperator::Eq, number, 56);
        lemma_narrows(q2, kind, "process"@, FilterOperator::Eq, process, 58);
        lemma_narrows(q3, kind, "infobase"@, FilterOperator::Like, infobase, 4);
        lemma_narrows(q4, kind, "host"@, FilterOperator::Like, host, 57);
        lemma_narrows(q5, kind, "application"@, FilterOperator::Like, application, 59);
    }
}

spec fn asked_mask(found: Option<SqlMask>) -> Option<ValueView> {
    match found {
        Some(found) => Some(ValueView::Str(found@)),
        None => None,
    }
}

proof fn lemma_session_selection<R: FieldAccess>(request: SessionListRequest, record: R)
    ensures
        request.query_view() is Ok ==> (query::selects(request.query_view()->Ok_0, record) <==> {
            &&& passes_own(request.query, record)
            &&& request.id is Some ==> record.field_view("session"@) == Some(
                ValueView::Uuid(request.id->0@),
            )
            &&& request.number is Some ==> record.field_view("session_id"@) == Some(
                ValueView::Int(request.number->0),
            )
            &&& request.infobase is Some ==> is_as_asked(
                FilterOperator::Like,
                ValueView::Str(request.infobase->0@),
                record.field_view("infobase"@),
            )
            &&& request.user is Some ==> is_as_asked(
                FilterOperator::Like,
                ValueView::Str(request.user->0@),
                record.field_view("user_name"@),
            )
            &&& request.host is Some ==> is_as_asked(
                FilterOperator::Like,
                ValueView::Str(request.host->0@),
                record.field_view("host"@),
            )
            &&& request.app is Some ==> is_as_asked(
                FilterOperator::Like,
                ValueView::Str(request.app->0@),
                record.field_view("app_id"@),
            )
        }),
        is_for(request.query, RecordKind::Session) && is_sound(request.infobase) && is_sound(
            request.user,
        ) && is_sound(request.host) && is_sound(request.app) ==> request.query_view() is Ok,
{
    let kind = RecordKind::Session;
    let id = match request.id {
        Some(id) => Some(ValueView::Uuid(id@)),
        None => None,
    };
    let number = match request.number {
        Some(number) => Some(ValueView::Int(number)),
        None => None,
    };
    let infobase = asked_mask(request.infobase);
    let user = asked_mask(request.user);
    let host = asked_mask(request.host);
    let app = asked_mask(request.app);
    lemma_own_query(kind, request.query, record);
    let q0 = targets::query_for(kind, outcome::option_view(request.query));
    let q1 = targets::narrowed(q0, "session"@, FilterOperator::Eq, id);
    let q2 = targets::narrowed(q1, "session_id"@, FilterOperator::Eq, number);
    let q3 = targets::narrowed(q2, "infobase"@, FilterOperator::Like, infobase);
    let q4 = targets::narrowed(q3, "user_name"@, FilterOperator::Like, user);
    let q5 = targets::narrowed(q4, "host"@, FilterOperator::Like, host);
    let q6 = targets::narrowed(q5, "app_id"@, FilterOperator::Like, app);
    assert(request.query_view() == q6);
    if q6 is Ok {
        lemma_narrowed(q5, "app_id"@, FilterOperator::Like, app, record);
        lemma_narrowed(q4, "host"@, FilterOperator::Like, host, record);
        lemma_narrowed(q3, "user_name"@, FilterOperator::Like, user, record);
        lemma_narrowed(q2, "infobase"@, FilterOperator::Like, infobase, record);
        lemma_narrowed(q1, "session_id"@, FilterOperator::Eq, number, record);
        lemma_narrowed(q0, "session"@, FilterOperator::Eq, id, record);
    }
    if is_for(request.query, kind) && is_sound(request.infobase) && is_sound(request.user) && is_sound(request.host) && is_sound(request.app) {
        let table = fields::field_table();
        assert(table[7] == fields::session_fields()[0]);
        assert(table[8] == fields::session_fields()[1]);
        assert(table[4] == fields::source_fields()[4]);
        assert(table[11] == fields::session_fields()[4]);
        assert(table[12] == fields::session_fields()[5]);
        assert(table[13] == fields::session_fields()[6]);
        lemma_narrows(q0, kind, "session"@, FilterOperator::Eq, id, 7);
        lemma_narrows(q1, kind, "session_id"@, FilterOperator::Eq, number, 8);
        lemma_narrows(q2, kind, "infobase"@, FilterOperator::Like, infobase, 4);
        lemma_narrows(q3, kind, "user_name"@, FilterOperator::Like, user, 11);
        lemma_narrows(q4, kind, "host"@, FilterOperator::Like, host, 12);
        lemma_narrows(q5, kind, "app_id"@, FilterOperator::Like, app, 13);
    }
}

proof fn lemma_session_selectors(record: SessionRecord)
    ensures
        record.field_view("session"@) == Some(ValueView::Uuid(record.session@)),
        record.field_view("session_id"@) == Some(record_laws::told_int(record.session_id)),
        record.field_view("infobase"@) == Some(record_laws::told_text(record.infobase)),
        record.field_view("user_name"@) == Some(record_laws::told_text(record.user_name)),
        record.field_view("host"@) == Some(record_laws::told_text(record.host)),
        record.field_view("app_id"@) == Some(record_laws::told_text(record.app_id)),
{
    record_laws::law_session_fields_are_told(record);
}

/// A request for sessions selects exactly the sessions that pass its own query and have, each in the field
/// of that name, the identity and the number asked for, and an infobase, a user, a host and an
/// application that the masks cover.
pub proof fn law_session_requests_select_by_their_fields(
    request: SessionListRequest,
    registry: FieldRegistry,
    result: Result<QuerySpec, AppError>,
    record: SessionRecord,
)
    requires
        call_ensures(session_query, (&request, &registry), result),
    ensures
        result matches Ok(found) ==> (query::selects(found@, record) <==> {
            &&& passes_own(request.query, record)
            &&& is_id(request.id, record.session@)
            &&& is_number(request.number, record.session_id)
            &&& is_covered(request.infobase, record.infobase)
            &&& is_covered(request.user, record.user_name)
            &&& is_covered(request.host, record.host)
            &&& is_covered(request.app, record.app_id)
        }),
        is_for(request.query, RecordKind::Session) && is_sound(request.infobase) && is_sound(request.user) && is_sound(request.host) && is_sound(request.app) ==> result is Ok,
{
    lemma_session_selection(request, record);
    lemma_session_selectors(record);
}

/// A request for working processes selects exactly the processes that pass its own query and have, each in
/// the field of that name, the identity, the number and the server asked for.
pub proof fn law_process_requests_select_by_their_fields(
    request: ProcessListRequest,
    registry: FieldRegistry,
    result: Result<QuerySpec, AppError>,
    record: ProcessRecord,
)
    requires
        call_ensures(process_query, (&request, &registry), result),
    ensures
        result matches Ok(found) ==> (query::selects(found@, record) <==> {
            &&& passes_own(request.query, record)
            &&& is_id(request.id, record.process@)
            &&& is_number(request.pid, record.pid)
            &&& (request.server is Some ==> record.server is Some && record.server->0@ == request.server->0@)
        }),
        is_for(request.query, RecordKind::Process) ==> result is Ok,
{
    let kind = RecordKind::Process;
    let id = match request.id {
        Some(id) => Some(ValueView::Uuid(id@)),
        None => None,
    };
    let pid = match request.pid {
        Some(pid) => Some(ValueView::Int(pid)),
        None => None,
    };
    let server = match request.server {
        Some(server) => Some(ValueView::Uuid(server@)),
        None => None,
    };
    lemma_own_query(kind, request.query, record);
    record_laws::law_process_fields_are_told(record);
    let q0 = targets::query_for(kind, outcome::option_view(request.query));
    let q1 = targets::narrowed(q0, "process"@, FilterOperator::Eq, id);
    let q2 = targets::narrowed(q1, "pid"@, FilterOperator::Eq, pid);
    let q3 = targets::narrowed(q2, "server"@, FilterOperator::Eq, server);
    assert(request.query_view() == q3);
    if result is Ok {
        lemma_narrowed(q2, "server"@, FilterOperator::Eq, server, record);
        lemma_narrowed(q1, "pid"@, FilterOperator::Eq, pid, record);
        lemma_narrowed(q0, "process"@, FilterOperator::Eq, id, record);
    }
    if is_for(request.query, kind) {
        let table = fields::field_table();
        assert(table[63] == fields::other_fields()[8]);
        assert(table[65] == fields::other_fields()[10]);
        assert(table[64] == fields::other_fields()[9]);
        lemma_narrows(q0, kind, "process"@, FilterOperator::Eq, id, 63);
        lemma_narrows(q1, kind, "pid"@, FilterOperator::Eq, pid, 65);
        lemma_narrows(q2, kind, "server"@, FilterOperator::Eq, server, 64);
    }
}

/// A search for infobases selects exactly the infobases that pass its own query and whose name the mask
/// covers.
pub proof fn law_infobase_searches_select_by_name(
    request: InfobaseSearchRequest,
    registry: FieldRegistry,
    result: Result<QuerySpec, AppError>,
    record: InfobaseRecord,
)
    requires
        call_ensures(infobase_query, (&request, &registry), result),
    ensures
        result matches Ok(found) ==> (query::selects(found@, record) <==> {
            &&& passes_own(request.query, record)
            &&& mask::mask_matches(request.name@, record.infobase@)
        }),
        is_for(request.query, RecordKind::Infobase) && mask::mask_of(request.name@) is Ok
            ==> result is Ok,
{
    let kind = RecordKind::Infobase;
    let name = Some(ValueView::Str(request.name@));
    lemma_own_query(kind, request.query, record);
    record_laws::law_infobase_fields_are_told(record);
    let q0 = targets::query_for(kind, outcome::option_view(request.query));
    let q1 = targets::narrowed(q0, "infobase"@, FilterOperator::Like, name);
    assert(request.query_view() == q1);
    if result is Ok {
        lemma_narrowed(q0, "infobase"@, FilterOperator::Like, name, record);
    }
    if is_for(request.query, kind) && mask::mask_of(request.name@) is Ok {
        assert(fields::field_table()[4] == fields::source_fields()[4]);
        lemma_narrows(q0, kind, "infobase"@, FilterOperator::Like, name, 4);
    }
}

} // verus!
