//! What the arguments of commands stand for: every argument goes into the field of the request that bears
//! its name, and selects by the field of the records that bears its name.

use vstd::prelude::*;
use vstd::string::*;

use crate::application::clusters::ClusterAddRequest;
use crate::application::connections::{ConnectionKillRequest, ConnectionListRequest};
use crate::application::error::{AppError, AppProblem};
use crate::application::infobases::InfobaseSearchRequest;
use crate::application::processes::{ProcessKillRequest, ProcessListRequest};
use crate::application::selection_laws;
use crate::application::sessions::{SessionKillRequest, SessionListRequest};
use crate::application::targets;
use crate::bootstrap::timeout_seconds;
use crate::cli::args;
use crate::cli::args::{
    parse_timeout, parse_top, AuthModeArg, ClusterAddArgs, ConnectionKillArgs, ConnectionListArgs,
    ConnectionSelectors, InfobaseSearchArgs, ProcessKillArgs, ProcessListArgs, ProcessSelectors,
    QueryOptions, SessionKillArgs, SessionListArgs, SessionSelectors,
};
use crate::cli::requests::{
    build_cluster_add_request, build_connection_kill_request, build_connection_list_request,
    build_infobase_request, build_process_kill_request, build_process_list_request,
    build_session_kill_request, build_session_list_request,
};
use crate::domain::auth::AuthView;
use crate::domain::error::{DomainError, DomainErrorView};
use crate::domain::field_value::ValueView;
use crate::domain::fields::{FieldRegistry, FilterOperator};
use crate::domain::mask;
use crate::domain::model::{
    ConnectionRecord, FieldAccess, ProcessRecord, RecordKind, SessionRecord,
};
use crate::domain::query;
use crate::domain::query::{Projection, QuerySpec, QuerySpecView, Top};
use crate::domain::record_laws;
use crate::infrastructure::config::model::Config;
use crate::number;
use crate::outcome;
use crate::text;

verus! {

/// A request for sessions holds what the arguments say, each in the field of its name.
pub open spec fn is_asked_for_sessions(
    request: SessionListRequest,
    rac_path: Option<String>,
    selectors: SessionSelectors,
    options: QueryOptions,
) -> bool {
    &&& request.clusters@ == outcome::option_view(selectors.cluster)
    &&& outcome::option_view(request.infobase) == outcome::option_view(selectors.infobase)
    &&& outcome::option_view(request.id) == outcome::option_view(selectors.id)
    &&& request.number == selectors.number
    &&& outcome::option_view(request.user) == outcome::option_view(selectors.user)
    &&& outcome::option_view(request.host) == outcome::option_view(selectors.host)
    &&& outcome::option_view(request.app) == outcome::option_view(selectors.app)
    &&& outcome::option_view(request.rac_options.explicit_path) == outcome::option_view(rac_path)
    &&& request.query is Some
    &&& options.query_view(RecordKind::Session, outcome::option_view(selectors.query)) == Ok::<
        QuerySpecView,
        DomainErrorView,
    >(request.query->0@)
}

/// A request for connections holds what the arguments say, each in the field of its name.
pub open spec fn is_asked_for_connections(
    request: ConnectionListRequest,
    rac_path: Option<String>,
    selectors: ConnectionSelectors,
    options: QueryOptions,
) -> bool {
    &&& request.clusters@ == outcome::option_view(selectors.cluster)
    &&& outcome::option_view(request.infobase) == outcome::option_view(selectors.infobase)
    &&& outcome::option_view(request.id) == outcome::option_view(selectors.id)
    &&& request.number == selectors.number
    &&& outcome::option_view(request.host) == outcome::option_view(selectors.host)
    &&& outcome::option_view(request.application) == outcome::option_view(selectors.application)
    &&& outcome::option_view(request.process) == outcome::option_view(selectors.process)
    &&& outcome::option_view(request.rac_options.explicit_path) == outcome::option_view(rac_path)
    &&& request.query is Some
    &&& options.query_view(RecordKind::Connection, outcome::option_view(selectors.query)) == Ok::<
        QuerySpecView,
        DomainErrorView,
    >(request.query->0@)
}

/// A request for working processes holds what the arguments say, each in the field of its name.
pub open spec fn is_asked_for_processes(
    request: ProcessListRequest,
    rac_path: Option<String>,
    selectors: ProcessSelectors,
    options: QueryOptions,
) -> bool {
    &&& request.clusters@ == outcome::option_view(selectors.cluster)
    &&& outcome::option_view(request.id) == outcome::option_view(selectors.id)
    &&& request.pid == selectors.pid
    &&& outcome::option_view(request.server) == outcome::option_view(selectors.server)
    &&& outcome::option_view(request.rac_options.explicit_path) == outcome::option_view(rac_path)
    &&& request.query is Some
    &&& options.query_view(RecordKind::Process, None) == Ok::<QuerySpecView, DomainErrorView>(
        request.query->0@,
    )
}

/// The commands on sessions ask for what their arguments say, and show the columns asked for.
pub proof fn law_session_arguments_are_asked_for(
    rac_path: Option<String>,
    list: SessionListArgs,
    kill: SessionKillArgs,
    registry: FieldRegistry,
    request: SessionListRequest,
    columns: Projection,
    action: SessionKillRequest,
)
    requires
        call_ensures(
            build_session_list_request,
            (&rac_path, &list.selectors, &list.query, &registry),
            Ok::<(SessionListRequest, Projection), AppError>((request, columns)),
        ),
        call_ensures(
            build_session_kill_request,
            (&rac_path, &kill, &registry),
            Ok::<SessionKillRequest, AppError>(action),
        ),
    ensures
        is_asked_for_sessions(request, rac_path, list.selectors, list.query),
        columns@ == request.query->0@.projection,
        is_asked_for_sessions(action.selection, rac_path, kill.selectors, kill.query),
        outcome::option_view(action.message) == outcome::option_view(kill.message),
{
    assert(request@.id == outcome::option_view(list.selectors.id));
    assert(action.selection@.id == outcome::option_view(kill.selectors.id));
    assert(request@.query is Some);
    assert(action.selection@.query is Some);
}

/// The commands on connections ask for what their arguments say, and show the columns asked for.
pub proof fn law_connection_arguments_are_asked_for(
    rac_path: Option<String>,
    list: ConnectionListArgs,
    kill: ConnectionKillArgs,
    registry: FieldRegistry,
    request: ConnectionListRequest,
    columns: Projection,
    action: ConnectionKillRequest,
)
    requires
        call_ensures(
            build_connection_list_request,
            (&rac_path, &list.selectors, &list.query, &registry),
            Ok::<(ConnectionListRequest, Projection), AppError>((request, columns)),
        ),
        call_ensures(
            build_connection_kill_request,
            (&rac_path, &kill, &registry),
            Ok::<ConnectionKillRequest, AppError>(action),
        ),
    ensures
        is_asked_for_connections(request, rac_path, list.selectors, list.query),
        columns@ == request.query->0@.projection,
        is_asked_for_connections(action.selection, rac_path, kill.selectors, kill.query),
{
    assert(request@.id == outcome::option_view(list.selectors.id));
    assert(action.selection@.id == outcome::option_view(kill.selectors.id));
    assert(request@.query is Some);
    assert(action.selection@.query is Some);
}

/// The commands on working processes ask for what their arguments say, and show the columns asked for.
pub proof fn law_process_arguments_are_asked_for(
    rac_path: Option<String>,
    list: ProcessListArgs,
    kill: ProcessKillArgs,
    registry: FieldRegistry,
    request: ProcessListRequest,
    columns: Projection,
    action: ProcessKillRequest,
)
    requires
        call_ensures(
            build_process_list_request,
            (&rac_path, &list.selectors, &list.query, &registry),
            Ok::<(ProcessListRequest, Projection), AppError>((request, columns)),
        ),
        call_ensures(
            build_process_kill_request,
            (&rac_path, &kill, &registry),
            Ok::<ProcessKillRequest, AppError>(action),
        ),
    ensures
        is_asked_for_processes(request, rac_path, list.selectors, list.query),
        columns@ == request.query->0@.projection,
        is_asked_for_processes(action.selection, rac_path, kill.selectors, kill.query),
{
    assert(request@.id == outcome::option_view(list.selectors.id));
    assert(action.selection@.id == outcome::option_view(kill.selectors.id));
    assert(request@.query is Some);
    assert(action.selection@.query is Some);
}

/// A search for infobases asks for the names that its pattern covers in the clusters that it names, with
/// no other condition, and shows the columns asked for.
pub proof fn law_infobase_arguments_are_asked_for(
    rac_path: Option<String>,
    search: InfobaseSearchArgs,
    registry: FieldRegistry,
    request: InfobaseSearchRequest,
    columns: Projection,
)
    requires
        call_ensures(
            build_infobase_request,
            (&rac_path, &search, &registry),
            Ok::<(InfobaseSearchRequest, Projection), AppError>((request, columns)),
        ),
    ensures
        request.name@ == search.pattern@,
        request.clusters@ == outcome::option_view(search.cluster),
        outcome::option_view(request.rac_options.explicit_path) == outcome::option_view(rac_path),
        request.query is Some,
        request.query->0@.filters.len() == 0,
        request.query->0@.text_query is None,
        request.query->0@.top is None,
        request.query->0@.projection == columns@,
        query::projection_of(outcome::option_view(search.columns), RecordKind::Infobase) == Ok::<
            query::ProjectionView,
            DomainErrorView,
        >(columns@),
{
    assert(request@.query is Some);
}

/// Whether the credentials are those that options give: the user and the password together, or none.
pub open spec fn is_given(
    found: AuthView,
    mode: AuthModeArg,
    user: Option<Seq<char>>,
    password: Option<Seq<char>>,
) -> bool {
    match mode {
        AuthModeArg::NoAuth => found == AuthView::NoAuth && user is None && password is None,
        AuthModeArg::Password => user is Some && password is Some && found == (AuthView::Password {
            user: user->0,
            password: password->0,
        }),
    }
}

/// A cluster is added under the name given, at the server given, with the credentials given for the
/// cluster and those given for its infobases, each for its own.
pub proof fn law_cluster_arguments_are_asked_for(
    rac_path: Option<String>,
    add: ClusterAddArgs,
    request: ClusterAddRequest,
)
    requires
        call_ensures(
            build_cluster_add_request,
            (&rac_path, &add),
            Ok::<ClusterAddRequest, AppError>(request),
        ),
    ensures
        request@.alias == add.name@,
        request@.ras == add.ras@,
        request@.explicit_path == outcome::option_view(rac_path),
        request@.infobase_auth.overrides.len() == 0,
        is_given(
            request@.cluster_auth,
            add.auth,
            outcome::option_view(add.user),
            outcome::option_view(add.password),
        ),
        add.infobase_auth is Some ==> is_given(
            request@.infobase_auth.default,
            add.infobase_auth->0,
            outcome::option_view(add.infobase_user),
            outcome::option_view(add.infobase_password),
        ),
        add.infobase_auth is None ==> request@.infobase_auth.default == AuthView::NoAuth,
{
}

proof fn lemma_pushed<R: FieldAccess>(
    asked: Result<QuerySpecView, DomainErrorView>,
    field: Seq<char>,
    operator: FilterOperator,
    value: Option<ValueView>,
    record: R,
)
    requires
        operator == FilterOperator::Eq || operator == FilterOperator::Like,
        value is Some ==> (operator == FilterOperator::Like <==> value->0 is Str),
        value is Some ==> value->0 is Str || value->0 is Int || value->0 is Uuid,
        args::pushed(asked, field, operator, value) is Ok,
    ensures
        asked is Ok,
        query::selects(args::pushed(asked, field, operator, value)->Ok_0, record) <==> (
        query::selects(asked->Ok_0, record) && (value is Some ==> selection_laws::is_as_asked(
            operator,
            value->0,
            record.field_view(field),
        ))),
{
    let base = Ok::<QuerySpecView, AppProblem>(asked->Ok_0);
    if asked is Ok {
        assert(targets::narrowed(base, field, operator, value) == Ok::<QuerySpecView, AppProblem>(
            args::pushed(asked, field, operator, value)->Ok_0,
        ));
        selection_laws::lemma_narrowed(base, field, operator, value, record);
    }
}

/// Whether a text that may be missing is one that a mask covers; without a mask anything is.
pub open spec fn is_covered(found: Option<String>, value: Option<String>) -> bool {
    found is Some ==> value is Some && mask::mask_matches(found->0@, value->0@)
}

proof fn lemma_session_arguments<R: FieldAccess>(
    selectors: SessionSelectors,
    asked: Result<QuerySpecView, DomainErrorView>,
    record: R,
)
    requires
        selectors.applied(asked) is Ok,
    ensures
        asked is Ok,
        query::selects(selectors.applied(asked)->Ok_0, record) <==> {
            &&& query::selects(asked->Ok_0, record)
            &&& is_text_asked(selectors.cluster, record.field_view("cluster"@))
            &&& is_text_asked(selectors.infobase, record.field_view("infobase"@))
            &&& selectors.id is Some ==> record.field_view("session"@) == Some(
                ValueView::Uuid(selectors.id->0@),
            )
            &&& selectors.number is Some ==> record.field_view("session_id"@) == Some(
                ValueView::Int(selectors.number->0),
            )
            &&& is_text_asked(selectors.user, record.field_view("user_name"@))
            &&& is_text_asked(selectors.host, record.field_view("host"@))
            &&& is_text_asked(selectors.app, record.field_view("app_id"@))
        },
{
    let q1 = args::pushed(asked, "cluster"@, FilterOperator::Like, text_value(selectors.cluster));
    let q2 = args::pushed(q1, "infobase"@, FilterOperator::Like, text_value(selectors.infobase));
    let id = args::uuid_operand(outcome::option_view(selectors.id));
    let q3 = args::pushed(q2, "session"@, FilterOperator::Eq, id);
    let number = args::int_operand(selectors.number);
    let q4 = args::pushed(q3, "session_id"@, FilterOperator::Eq, number);
    let q5 = args::pushed(q4, "user_name"@, FilterOperator::Like, text_value(selectors.user));
    let q6 = args::pushed(q5, "host"@, FilterOperator::Like, text_value(selectors.host));
    assert(selectors.applied(asked) == args::pushed(
        q6,
        "app_id"@,
        FilterOperator::Like,
        text_value(selectors.app),
    ));
    lemma_pushed(q6, "app_id"@, FilterOperator::Like, text_value(selectors.app), record);
    lemma_pushed(q5, "host"@, FilterOperator::Like, text_value(selectors.host), record);
    lemma_pushed(q4, "user_name"@, FilterOperator::Like, text_value(selectors.user), record);
    lemma_pushed(q3, "session_id"@, FilterOperator::Eq, number, record);
    lemma_pushed(q2, "session"@, FilterOperator::Eq, id, record);
    lemma_pushed(q1, "infobase"@, FilterOperator::Like, text_value(selectors.infobase), record);
    lemma_pushed(asked, "cluster"@, FilterOperator::Like, text_value(selectors.cluster), record);
}

spec fn text_value(value: Option<String>) -> Option<ValueView> {
    args::mask_operand(outcome::option_view(value))
}

spec fn is_text_asked(found: Option<String>, value: Option<ValueView>) -> bool {
    found is Some ==> selection_laws::is_as_asked(
        FilterOperator::Like,
        ValueView::Str(found->0@),
        value,
    )
}

proof fn lemma_session_selectors(record: SessionRecord)
    ensures
        record.field_view("cluster"@) == Some(ValueView::Str(record.source.cluster@)),
        record.field_view("session"@) == Some(ValueView::Uuid(record.session@)),
        record.field_view("session_id"@) == Some(record_laws::told_int(record.session_id)),
        record.field_view("infobase"@) == Some(record_laws::told_text(record.infobase)),
        record.field_view("user_name"@) == Some(record_laws::told_text(record.user_name)),
        record.field_view("host"@) == Some(record_laws::told_text(record.host)),
        record.field_view("app_id"@) == Some(record_laws::told_text(record.app_id)),
{
    record_laws::law_session_fields_are_told(record);
    record_laws::law_session_source_is_told(record);
}

/// The arguments of a session command select exactly the sessions that pass the other conditions and
/// have, each in the field of that name, the identity and the number asked for, and a cluster, an
/// infobase, a user, a host and an application that the masks cover.
pub proof fn law_session_arguments_select_by_their_fields(
    list: SessionListArgs,
    registry: FieldRegistry,
    found: QuerySpec,
    record: SessionRecord,
)
    requires
        call_ensures(
            SessionListArgs::query_spec,
            (&list, &registry),
            Ok::<QuerySpec, DomainError>(found),
        ),
    ensures
        ({
            let asked = list.query.query_view(
                RecordKind::Session,
                outcome::option_view(list.selectors.query),
            );
            &&& asked is Ok
            &&& query::selects(found@, record) <==> {
                &&& query::selects(asked->Ok_0, record)
                &&& list.selectors.cluster is Some ==> mask::mask_matches(
                    list.selectors.cluster->0@,
                    record.source.cluster@,
                )
                &&& list.selectors.id is Some ==> record.session@ == list.selectors.id->0@
                &&& list.selectors.number is Some ==> record.session_id == list.selectors.number
                &&& is_covered(list.selectors.infobase, record.infobase)
                &&& is_covered(list.selectors.user, record.user_name)
                &&& is_covered(list.selectors.host, record.host)
                &&& is_covered(list.selectors.app, record.app_id)
            }
        }),
{
    let asked = list.query.query_view(
        RecordKind::Session,
        outcome::option_view(list.selectors.query),
    );
    lemma_session_arguments(list.selectors, asked, record);
    lemma_session_selectors(record);
}

/// The arguments of a connection command select exactly the connections that pass the other conditions
/// and have, each in the field of that name, the identity, the number and the process asked for, and a
/// cluster, an infobase, a host and an application that the masks cover.
pub proof fn law_connection_arguments_select_by_their_fields(
    list: ConnectionListArgs,
    registry: FieldRegistry,
    found: QuerySpec,
    record: ConnectionRecord,
)
    requires
        call_ensures(
            ConnectionListArgs::query_spec,
            (&list, &registry),
            Ok::<QuerySpec, DomainError>(found),
        ),
    ensures
        ({
            let asked = list.query.query_view(
                RecordKind::Connection,
                outcome::option_view(list.selectors.query),
            );
            &&& asked is Ok
            &&& query::selects(found@, record) <==> {
                &&& query::selects(asked->Ok_0, record)
                &&& list.selectors.cluster is Some ==> mask::mask_matches(
                    list.selectors.cluster->0@,
                    record.source.cluster@,
                )
                &&& list.selectors.id is Some ==> record.connection@ == list.selectors.id->0@
                &&& list.selectors.number is Some ==> record.conn_id == list.selectors.number
                &&& list.selectors.process is Some ==> record.process@
                    == list.selectors.process->0@
                &&& is_covered(list.selectors.infobase, record.infobase)
                &&& is_covered(list.selectors.host, record.host)
                &&& is_covered(list.selectors.application, record.application)
            }
        }),
{
    let selectors = list.selectors;
    let asked = list.query.query_view(
        RecordKind::Connection,
        outcome::option_view(selectors.query),
    );
    let id = args::uuid_operand(outcome::option_view(selectors.id));
    let number = args::int_operand(selectors.number);
    let process = args::uuid_operand(outcome::option_view(selectors.process));
    let q1 = args::pushed(asked, "cluster"@, FilterOperator::Like, text_value(selectors.cluster));
    let q2 = args::pushed(q1, "infobase"@, FilterOperator::Like, text_value(selectors.infobase));
    let q3 = args::pushed(q2, "connection"@, FilterOperator::Eq, id);
    let q4 = args::pushed(q3, "conn_id"@, FilterOperator::Eq, number);
    let q5 = args::pushed(q4, "host"@, FilterOperator::Like, text_value(selectors.host));
    let application = text_value(selectors.application);
    let q6 = args::pushed(q5, "application"@, FilterOperator::Like, application);
    assert(selectors.applied(asked) == args::pushed(q6, "process"@, FilterOperator::Eq, process));
    lemma_pushed(q6, "process"@, FilterOperator::Eq, process, record);
    lemma_pushed(q5, "application"@, FilterOperator::Like, application, record);
    lemma_pushed(q4, "host"@, FilterOperator::Like, text_value(selectors.host), record);
    lemma_pushed(q3, "conn_id"@, FilterOperator::Eq, number, record);
    lemma_pushed(q2, "connection"@, FilterOperator::Eq, id, record);
    lemma_pushed(q1, "infobase"@, FilterOperator::Like, text_value(selectors.infobase), record);
    lemma_pushed(asked, "cluster"@, FilterOperator::Like, text_value(selectors.cluster), record);
    record_laws::law_connection_fields_are_told(record);
    record_laws::law_connection_source_is_told(record);
}

/// The arguments of a process command select exactly the working processes that pass the other conditions
/// and have, each in the field of that name, the identity, the number and the server asked for, and a
/// cluster that the mask covers.
pub proof fn law_process_arguments_select_by_their_fields(
    list: ProcessListArgs,
    registry: FieldRegistry,
    found: QuerySpec,
    record: ProcessRecord,
)
    requires
        call_ensures(
            ProcessListArgs::query_spec,
            (&list, &registry),
            Ok::<QuerySpec, DomainError>(found),
        ),
    ensures
        ({
            let asked = list.query.query_view(RecordKind::Process, None);
            &&& asked is Ok
            &&& query::selects(found@, record) <==> {
                &&& query::selects(asked->Ok_0, record)
                &&& list.selectors.cluster is Some ==> mask::mask_matches(
                    list.selectors.cluster->0@,
                    record.source.cluster@,
                )
                &&& list.selectors.id is Some ==> record.process@ == list.selectors.id->0@
                &&& list.selectors.pid is Some ==> record.pid == list.selectors.pid
                &&& list.selectors.server is Some ==> record.server is Some && record.server->0@
                    == list.selectors.server->0@
            }
        }),
{
    let selectors = list.selectors;
    let asked = list.query.query_view(RecordKind::Process, None);
    let id = args::uuid_operand(outcome::option_view(selectors.id));
    let pid = args::int_operand(selectors.pid);
    let server = args::uuid_operand(outcome::option_view(selectors.server));
    let q1 = args::pushed(asked, "cluster"@, FilterOperator::Like, text_value(selectors.cluster));
    let q2 = args::pushed(q1, "process"@, FilterOperator::Eq, id);
    let q3 = args::pushed(q2, "pid"@, FilterOperator::Eq, pid);
    assert(selectors.applied(asked) == args::pushed(q3, "server"@, FilterOperator::Eq, server));
    lemma_pushed(q3, "server"@, FilterOperator::Eq, server, record);
    lemma_pushed(q2, "pid"@, FilterOperator::Eq, pid, record);
    lemma_pushed(q1, "process"@, FilterOperator::Eq, id, record);
    lemma_pushed(asked, "cluster"@, FilterOperator::Like, text_value(selectors.cluster), record);
    record_laws::law_process_fields_are_told(record);
    record_laws::law_process_source_is_told(record);
}

/// A positive number is read as that many seconds, and as that limit on rows; zero is neither.
pub proof fn law_numbers_are_read_as_they_are_written(
    text: &str,
    number: nat,
    seconds: Result<u64, &'static str>,
    limit: Result<Top, &'static str>,
)
    requires
        call_ensures(parse_timeout, (text,), seconds),
        call_ensures(parse_top, (text,), limit),
        text@ == number::decimal(number),
    ensures
        seconds is Ok <==> 1 <= number <= u64::MAX,
        seconds is Ok ==> seconds->Ok_0 == number,
        limit is Ok <==> 1 <= number <= usize::MAX,
        limit is Ok ==> limit->Ok_0@ == number,
{
    number::lemma_decimal_round_trip(number);
    assert(text::is_digit(text@[0]));
}

/// A waiting time of the command line goes before the one of the configuration.
pub proof fn law_asked_waiting_times_win(asked: Option<u64>, config: Config, seconds: u64)
    requires
        call_ensures(timeout_seconds, (asked, &config), seconds),
    ensures
        asked is Some ==> seconds == asked->0,
        asked is None ==> seconds == config@.settings.timeout_seconds,
{
}

} // verus!
