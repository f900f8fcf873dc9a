//! The requests that the arguments of commands stand for.

use vstd::prelude::*;
use vstd::string::*;

use crate::application::clusters::{AddRequestView, ClusterAddRequest};
use crate::application::connections::{ConnectionKillRequest, ConnectionListRequest};
use crate::application::conversion::RacOptions;
use crate::application::error::{AppError, AppProblem};
use crate::application::infobases::InfobaseSearchRequest;
use crate::application::processes::{ProcessKillRequest, ProcessListRequest};
use crate::application::sessions::{SessionKillRequest, SessionListRequest};
use crate::application::targets::{self, ClusterSelector};
use crate::cli::args::{
    ClusterAddArgs, ConnectionKillArgs, ConnectionSelectors, InfobaseSearchArgs, ProcessKillArgs,
    ProcessSelectors, QueryOptions, SessionKillArgs, SessionSelectors,
};
use crate::domain::error::DomainErrorView;
use crate::domain::fields::FieldRegistry;
use crate::domain::mask;
use crate::domain::mask::SqlMask;
use crate::domain::model;
use crate::domain::model::{
    InfobaseAuthOverride, InfobaseAuthPolicy, PolicyView, RacPolicyView, RecordKind,
};
use crate::domain::query;
use crate::domain::query::{Projection, ProjectionView, QuerySpec, QuerySpecView};
use crate::outcome;
use crate::text;

verus! {

/// A query as the operator is told of it where it is wrong.
pub open spec fn told_query(asked: Result<QuerySpecView, DomainErrorView>) -> Result<
    QuerySpecView,
    AppProblem,
> {
    match asked {
        Ok(found) => Ok(found),
        Err(error) => Err(AppProblem::of_domain(error)),
    }
}

/// The query of options and a text, without the selectors.
pub fn base_query_spec(
    kind: RecordKind,
    options: &QueryOptions,
    asked: Option<&str>,
    registry: &FieldRegistry,
) -> (result: Result<QuerySpec, AppError>)
    ensures
        outcome::result_view(result) == told_query(
            options.query_view(kind, outcome::option_view(asked)),
        ),
{
    match options.query_spec(kind, asked, registry) {
        Ok(found) => Ok(found),
        Err(error) => Err(AppError::from_domain(&error)),
    }
}

/// A mask that may be missing.
pub open spec fn mask_asked(value: Option<Seq<char>>) -> Result<Option<Seq<char>>, AppProblem> {
    match value {
        None => Ok(None),
        Some(value) => match mask::mask_of(value) {
            Ok(source) => Ok(Some(source)),
            Err(error) => Err(AppProblem::of_domain(error)),
        },
    }
}

/// Reads a mask that may be missing.
pub fn optional_mask(value: &Option<String>) -> (result: Result<Option<SqlMask>, AppError>)
    ensures
        match mask_asked(outcome::option_view(*value)) {
            Ok(found) => result is Ok && outcome::option_view(result->Ok_0) == found,
            Err(problem) => result is Err && result->Err_0@ == problem,
        },
{
    match value {
        None => Ok(None),
        Some(value) => match SqlMask::parse(value.as_str()) {
            Ok(found) => Ok(Some(found)),
            Err(error) => Err(AppError::from_domain(&error)),
        },
    }
}

/// The utility that the command line names.
pub fn rac_options(rac_path: &Option<String>) -> (result: RacOptions)
    ensures
        outcome::option_view(result.explicit_path) == outcome::option_view(*rac_path),
{
    let explicit_path = match rac_path {
        Some(path) => Some(path.clone()),
        None => None,
    };
    RacOptions { explicit_path }
}

fn text_ref(value: &Option<String>) -> (result: Option<&str>)
    ensures
        outcome::option_view(result) == outcome::option_view(*value),
{
    match value {
        Some(value) => Some(value.as_str()),
        None => None,
    }
}

/// A search for infobases, by view.
pub struct InfobaseRequestView {
    pub name: Seq<char>,
    pub clusters: Option<Seq<char>>,
    pub query: Option<QuerySpecView>,
    pub rac_path: Option<Seq<char>>,
}

impl View for InfobaseSearchRequest {
    type V = InfobaseRequestView;

    open spec fn view(&self) -> InfobaseRequestView {
        InfobaseRequestView {
            name: self.name@,
            clusters: self.clusters@,
            query: outcome::option_view(self.query),
            rac_path: outcome::option_view(self.rac_options.explicit_path),
        }
    }
}

/// The query of `infobase search`, which only chooses columns: the name is a condition of the request.
pub open spec fn search_columns(args: InfobaseSearchArgs) -> Result<QuerySpecView, AppProblem> {
    told_query(
        query::query_of(
            RecordKind::Infobase,
            Seq::empty(),
            None,
            Seq::empty(),
            None,
            outcome::option_view(args.columns),
        ),
    )
}

/// The request that `infobase search` stands for.
pub open spec fn infobase_request(rac_path: Option<Seq<char>>, args: InfobaseSearchArgs) -> Result<
    InfobaseRequestView,
    AppProblem,
> {
    match search_columns(args) {
        Err(problem) => Err(problem),
        Ok(asked) => match mask::mask_of(args.pattern@) {
            Err(error) => Err(AppProblem::of_domain(error)),
            Ok(name) => match targets::selector_of(outcome::option_view(args.cluster)) {
                Err(problem) => Err(problem),
                Ok(clusters) => Ok(
                    InfobaseRequestView { name, clusters, query: Some(asked), rac_path },
                ),
            },
        },
    }
}

/// The columns that the answer to a request is shown with.
pub open spec fn shown_columns(query: Option<QuerySpecView>) -> ProjectionView {
    query->0.projection
}

/// Reads the request that `infobase search` stands for, and the columns of its answer.
pub fn build_infobase_request(
    rac_path: &Option<String>,
    args: &InfobaseSearchArgs,
    registry: &FieldRegistry,
) -> (result: Result<(InfobaseSearchRequest, Projection), AppError>)
    ensures
        match infobase_request(outcome::option_view(*rac_path), *args) {
            Err(problem) => result is Err && result->Err_0@ == problem,
            Ok(request) => result is Ok && result->Ok_0.0@ == request && result->Ok_0.1@
                == shown_columns(request.query),
        },
{
    let nothing: Vec<&str> = Vec::new();
    assert(query::texts(nothing@) =~= Seq::<Seq<char>>::empty());
    let asked = match QuerySpec::parse(
        RecordKind::Infobase,
        nothing.as_slice(),
        None,
        nothing.as_slice(),
        None,
        text_ref(&args.columns),
        registry,
    ) {
        Ok(asked) => asked,
        Err(error) => {
            return Err(AppError::from_domain(&error));
        },
    };
    let projection = asked.projection().clone();
    let mut request = match InfobaseSearchRequest::new(args.pattern.as_str()) {
        Ok(request) => request,
        Err(error) => {
            return Err(error);
        },
    };
    request.clusters = match ClusterSelector::parse(text_ref(&args.cluster)) {
        Ok(clusters) => clusters,
        Err(error) => {
            return Err(error);
        },
    };
    request.query = Some(asked);
    request.rac_options = rac_options(rac_path);
    Ok((request, projection))
}

/// A request for sessions, by view.
pub struct SessionRequestView {
    pub clusters: Option<Seq<char>>,
    pub infobase: Option<Seq<char>>,
    pub id: Option<u128>,
    pub number: Option<i64>,
    pub user: Option<Seq<char>>,
    pub host: Option<Seq<char>>,
    pub app: Option<Seq<char>>,
    pub query: Option<QuerySpecView>,
    pub rac_path: Option<Seq<char>>,
}

impl View for SessionListRequest {
    type V = SessionRequestView;

    open spec fn view(&self) -> SessionRequestView {
        SessionRequestView {
            clusters: self.clusters@,
            infobase: outcome::option_view(self.infobase),
            id: outcome::option_view(self.id),
            number: self.number,
            user: outcome::option_view(self.user),
            host: outcome::option_view(self.host),
            app: outcome::option_view(self.app),
            query: outcome::option_view(self.query),
            rac_path: outcome::option_view(self.rac_options.explicit_path),
        }
    }
}

/// The request that the arguments of a session command stand for. What is wrong is told in the order
/// query, clusters, infobase, user, host, application.
pub open spec fn session_request(
    rac_path: Option<Seq<char>>,
    selectors: SessionSelectors,
    options: QueryOptions,
) -> Result<SessionRequestView, AppProblem> {
    let asked = told_query(
        options.query_view(RecordKind::Session, outcome::option_view(selectors.query)),
    );
    let clusters = targets::selector_of(outcome::option_view(selectors.cluster));
    let infobase = mask_asked(outcome::option_view(selectors.infobase));
    let user = mask_asked(outcome::option_view(selectors.user));
    let host = mask_asked(outcome::option_view(selectors.host));
    let app = mask_asked(outcome::option_view(selectors.app));
    if asked is Err {
        Err(asked->Err_0)
    } else if clusters is Err {
        Err(clusters->Err_0)
    } else if infobase is Err {
        Err(infobase->Err_0)
    } else if user is Err {
        Err(user->Err_0)
    } else if host is Err {
        Err(host->Err_0)
    } else if app is Err {
        Err(app->Err_0)
    } else {
        Ok(
            SessionRequestView {
                clusters: clusters->Ok_0,
                infobase: infobase->Ok_0,
                id: outcome::option_view(selectors.id),
                number: selectors.number,
                user: user->Ok_0,
                host: host->Ok_0,
                app: app->Ok_0,
                query: Some(asked->Ok_0),
                rac_path,
            },
        )
    }
}

/// Reads the request that the arguments of a session command stand for, and the columns of its answer.
pub fn build_session_list_request(
    rac_path: &Option<String>,
    selectors: &SessionSelectors,
    options: &QueryOptions,
    registry: &FieldRegistry,
) -> (result: Result<(SessionListRequest, Projection), AppError>)
    ensures
        match session_request(outcome::option_view(*rac_path), *selectors, *options) {
            Err(problem) => result is Err && result->Err_0@ == problem,
            Ok(request) => result is Ok && result->Ok_0.0@ == request && result->Ok_0.1@
                == shown_columns(request.query),
        },
{
    let asked = match base_query_spec(
        RecordKind::Session,
        options,
        text_ref(&selectors.query),
        registry,
    ) {
        Ok(asked) => asked,
        Err(error) => {
            return Err(error);
        },
    };
    let projection = asked.projection().clone();
    let clusters = match ClusterSelector::parse(text_ref(&selectors.cluster)) {
        Ok(clusters) => clusters,
        Err(error) => {
            return Err(error);
        },
    };
    let infobase = match optional_mask(&selectors.infobase) {
        Ok(found) => found,
        Err(error) => {
            return Err(error);
        },
    };
    let user = match optional_mask(&selectors.user) {
        Ok(found) => found,
        Err(error) => {
            return Err(error);
        },
    };
    let host = match optional_mask(&selectors.host) {
        Ok(found) => found,
        Err(error) => {
            return Err(error);
        },
    };
    let app = match optional_mask(&selectors.app) {
        Ok(found) => found,
        Err(error) => {
            return Err(error);
        },
    };
    let request = SessionListRequest {
        clusters,
        infobase,
        id: selectors.id,
        number: selectors.number,
        user,
        host,
        app,
        query: Some(asked),
        rac_options: rac_options(rac_path),
    };
    Ok((request, projection))
}

/// A request for connections, by view.
pub struct ConnectionRequestView {
    pub clusters: Option<Seq<char>>,
    pub infobase: Option<Seq<char>>,
    pub id: Option<u128>,
    pub number: Option<i64>,
    pub host: Option<Seq<char>>,
    pub application: Option<Seq<char>>,
    pub process: Option<u128>,
    pub query: Option<QuerySpecView>,
    pub rac_path: Option<Seq<char>>,
}

impl View for ConnectionListRequest {
    type V = ConnectionRequestView;

    open spec fn view(&self) -> ConnectionRequestView {
        ConnectionRequestView {
            clusters: self.clusters@,
            infobase: outcome::option_view(self.infobase),
            id: outcome::option_view(self.id),
            number: self.number,
            host: outcome::option_view(self.host),
            application: outcome::option_view(self.application),
            process: outcome::option_view(self.process),
            query: outcome::option_view(self.query),
            rac_path: outcome::option_view(self.rac_options.explicit_path),
        }
    }
}

/// The request that the arguments of a connection command stand for. What is wrong is told in the
/// order query, clusters, infobase, host, application.
pub open spec fn connection_request(
    rac_path: Option<Seq<char>>,
    selectors: ConnectionSelectors,
    options: QueryOptions,
) -> Result<ConnectionRequestView, AppProblem> {
    let asked = told_query(
        options.query_view(RecordKind::Connection, outcome::option_view(selectors.query)),
    );
    let clusters = targets::selector_of(outcome::option_view(selectors.cluster));
    let infobase = mask_asked(outcome::option_view(selectors.infobase));
    let host = mask_asked(outcome::option_view(selectors.host));
    let application = mask_asked(outcome::option_view(selectors.application));
    if asked is Err {
        Err(asked->Err_0)
    } else if clusters is Err {
        Err(clusters->Err_0)
    } else if infobase is Err {
        Err(infobase->Err_0)
    } else if host is Err {
        Err(host->Err_0)
    } else if application is Err {
        Err(application->Err_0)
    } else {
        Ok(
            ConnectionRequestView {
                clusters: clusters->Ok_0,
                infobase: infobase->Ok_0,
                id: outcome::option_view(selectors.id),
                number: selectors.number,
                host: host->Ok_0,
                application: application->Ok_0,
                process: outcome::option_view(selectors.process),
                query: Some(asked->Ok_0),
                rac_path,
            },
        )
    }
}

/// Reads the request that the arguments of a connection command stand for, and the columns of its
/// answer.
pub fn build_connection_list_request(
    rac_path: &Option<String>,
    selectors: &ConnectionSelectors,
    options: &QueryOptions,
    registry: &FieldRegistry,
) -> (result: Result<(ConnectionListRequest, Projection), AppError>)
    ensures
        match connection_request(outcome::option_view(*rac_path), *selectors, *options) {
            Err(problem) => result is Err && result->Err_0@ == problem,
            Ok(request) => result is Ok && result->Ok_0.0@ == request && result->Ok_0.1@
                == shown_columns(request.query),
        },
{
    let asked = match base_query_spec(
        RecordKind::Connection,
        options,
        text_ref(&selectors.query),
        registry,
    ) {
        Ok(asked) => asked,
        Err(error) => {
            return Err(error);
        },
    };
    let projection = asked.projection().clone();
    let clusters = match ClusterSelector::parse(text_ref(&selectors.cluster)) {
        Ok(clusters) => clusters,
        Err(error) => {
            return Err(error);
        },
    };
    let infobase = match optional_mask(&selectors.infobase) {
        Ok(found) => found,
        Err(error) => {
            return Err(error);
        },
    };
    let host = match optional_mask(&selectors.host) {
        Ok(found) => found,
        Err(error) => {
            return Err(error);
        },
    };
    let application = match optional_mask(&selectors.application) {
        Ok(found) => found,
        Err(error) => {
            return Err(error);
        },
    };
    let request = ConnectionListRequest {
        clusters,
        infobase,
        id: selectors.id,
        number: selectors.number,
        host,
        application,
        process: selectors.process,
        query: Some(asked),
        rac_options: rac_options(rac_path),
    };
    Ok((request, projection))
}

proof fn lemma_filters_counted(kind: RecordKind, inputs: Seq<Seq<char>>, count: int)
    requires
        0 <= count,
        query::filters_of(kind, inputs, count) is Ok,
    ensures
        query::filters_of(kind, inputs, count)->Ok_0.len() == count,
    decreases count,
{
    if count > 0 {
        lemma_filters_counted(kind, inputs, count - 1);
    }
}

proof fn lemma_narrowing_options(options: QueryOptions, kind: RecordKind, asked: Option<Seq<char>>)
    requires
        options.query_view(kind, asked) is Ok,
    ensures
        targets::query_narrows(Some(options.query_view(kind, asked)->Ok_0)) == (
        options.filter@.len() > 0 || asked is Some),
{
    lemma_filters_counted(kind, text::views(options.filter@), options.filter@.len() as int);
}

/// Reads the request that `session kill` stands for. It is for certain sessions exactly where the
/// arguments are.
pub fn build_session_kill_request(
    rac_path: &Option<String>,
    args: &SessionKillArgs,
    registry: &FieldRegistry,
) -> (result: Result<SessionKillRequest, AppError>)
    ensures
        match session_request(outcome::option_view(*rac_path), args.selectors, args.query) {
            Err(problem) => result is Err && result->Err_0@ == problem,
            Ok(request) => {
                &&& result is Ok
                &&& result->Ok_0.selection@ == request
                &&& outcome::option_view(result->Ok_0.message) == outcome::option_view(args.message)
                &&& result->Ok_0.selection.is_narrow() == args.is_narrow()
            },
        },
{
    let selection = match build_session_list_request(
        rac_path,
        &args.selectors,
        &args.query,
        registry,
    ) {
        Ok((selection, _)) => selection,
        Err(error) => {
            return Err(error);
        },
    };
    proof {
        lemma_narrowing_options(
            args.query,
            RecordKind::Session,
            outcome::option_view(args.selectors.query),
        );
        assert(outcome::option_view(selection.query) is Some);
    }
    let message = match &args.message {
        Some(message) => Some(message.clone()),
        None => None,
    };
    Ok(SessionKillRequest { selection, message })
}

/// Reads the request that `connection kill` stands for. It is for certain connections exactly where
/// the arguments are.
pub fn build_connection_kill_request(
    rac_path: &Option<String>,
    args: &ConnectionKillArgs,
    registry: &FieldRegistry,
) -> (result: Result<ConnectionKillRequest, AppError>)
    ensures
        match connection_request(outcome::option_view(*rac_path), args.selectors, args.query) {
            Err(problem) => result is Err && result->Err_0@ == problem,
            Ok(request) => {
                &&& result is Ok
                &&& result->Ok_0.selection@ == request
                &&& result->Ok_0.selection.is_narrow() == args.is_narrow()
            },
        },
{
    let selection = match build_connection_list_request(
        rac_path,
        &args.selectors,
        &args.query,
        registry,
    ) {
        Ok((selection, _)) => selection,
        Err(error) => {
            return Err(error);
        },
    };
    proof {
        lemma_narrowing_options(
            args.query,
            RecordKind::Connection,
            outcome::option_view(args.selectors.query),
        );
        assert(outcome::option_view(selection.query) is Some);
    }
    Ok(ConnectionKillRequest { selection })
}

/// A request for working processes, by view.
pub struct ProcessRequestView {
    pub clusters: Option<Seq<char>>,
    pub id: Option<u128>,
    pub pid: Option<i64>,
    pub server: Option<u128>,
    pub query: Option<QuerySpecView>,
    pub rac_path: Option<Seq<char>>,
}

impl View for ProcessListRequest {
    type V = ProcessRequestView;

    open spec fn view(&self) -> ProcessRequestView {
        ProcessRequestView {
            clusters: self.clusters@,
            id: outcome::option_view(self.id),
            pid: self.pid,
            server: outcome::option_view(self.server),
            query: outcome::option_view(self.query),
            rac_path: outcome::option_view(self.rac_options.explicit_path),
        }
    }
}

/// The request that the arguments of a process command stand for. What is wrong is told in the order
/// query, clusters.
pub open spec fn process_request(
    rac_path: Option<Seq<char>>,
    selectors: ProcessSelectors,
    options: QueryOptions,
) -> Result<ProcessRequestView, AppProblem> {
    let asked = told_query(options.query_view(RecordKind::Process, None));
    let clusters = targets::selector_of(outcome::option_view(selectors.cluster));
    if asked is Err {
        Err(asked->Err_0)
    } else if clusters is Err {
        Err(clusters->Err_0)
    } else {
        Ok(
            ProcessRequestView {
                clusters: clusters->Ok_0,
                id: outcome::option_view(selectors.id),
                pid: selectors.pid,
                server: outcome::option_view(selectors.server),
                query: Some(asked->Ok_0),
                rac_path,
            },
        )
    }
}

/// Reads the request that the arguments of a process command stand for, and the columns of its answer.
pub fn build_process_list_request(
    rac_path: &Option<String>,
    selectors: &ProcessSelectors,
    options: &QueryOptions,
    registry: &FieldRegistry,
) -> (result: Result<(ProcessListRequest, Projection), AppError>)
    ensures
        match process_request(outcome::option_view(*rac_path), *selectors, *options) {
            Err(problem) => result is Err && result->Err_0@ == problem,
            Ok(request) => result is Ok && result->Ok_0.0@ == request && result->Ok_0.1@
                == shown_columns(request.query),
        },
{
    let asked = match base_query_spec(RecordKind::Process, options, None, registry) {
        Ok(asked) => asked,
        Err(error) => {
            return Err(error);
        },
    };
    let projection = asked.projection().clone();
    let clusters = match ClusterSelector::parse(text_ref(&selectors.cluster)) {
        Ok(clusters) => clusters,
        Err(error) => {
            return Err(error);
        },
    };
    let request = ProcessListRequest {
        clusters,
        id: selectors.id,
        pid: selectors.pid,
        server: selectors.server,
        query: Some(asked),
        rac_options: rac_options(rac_path),
    };
    Ok((request, projection))
}

/// Reads the request that `process kill` stands for. It is for certain working processes exactly where
/// the arguments are.
pub fn build_process_kill_request(
    rac_path: &Option<String>,
    args: &ProcessKillArgs,
    registry: &FieldRegistry,
) -> (result: Result<ProcessKillRequest, AppError>)
    ensures
        match process_request(outcome::option_view(*rac_path), args.selectors, args.query) {
            Err(problem) => result is Err && result->Err_0@ == problem,
            Ok(request) => {
                &&& result is Ok
                &&& result->Ok_0.selection@ == request
                &&& result->Ok_0.selection.is_narrow() == args.is_narrow()
            },
        },
{
    let selection = match build_process_list_request(
        rac_path,
        &args.selectors,
        &args.query,
        registry,
    ) {
        Ok((selection, _)) => selection,
        Err(error) => {
            return Err(error);
        },
    };
    proof {
        lemma_narrowing_options(args.query, RecordKind::Process, None);
        assert(outcome::option_view(selection.query) is Some);
    }
    Ok(ProcessKillRequest { selection })
}

/// The request that `cluster add` stands for.
pub open spec fn cluster_add_request(rac_path: Option<Seq<char>>, args: ClusterAddArgs) -> Result<
    AddRequestView,
    AppProblem,
> {
    match (args.cluster_auth_view(), args.infobase_auth_view()) {
        (Err(problem), _) => Err(AppProblem::invalid(problem.code, problem.message)),
        (Ok(_), Err(problem)) => Err(AppProblem::invalid(problem.code, problem.message)),
        (Ok(cluster_auth), Ok(default)) => Ok(
            AddRequestView {
                alias: args.name@,
                ras: args.ras@,
                cluster_auth,
                infobase_auth: PolicyView { default, overrides: Seq::empty() },
                rac_policy: RacPolicyView::Auto,
                explicit_path: rac_path,
            },
        ),
    }
}

/// Reads the request that `cluster add` stands for.
pub fn build_cluster_add_request(rac_path: &Option<String>, args: &ClusterAddArgs) -> (result: Result<
    ClusterAddRequest,
    AppError,
>)
    ensures
        outcome::result_view(result) == cluster_add_request(outcome::option_view(*rac_path), *args),
{
    let cluster_auth = match args.cluster_auth() {
        Ok(found) => found,
        Err(error) => {
            return Err(AppError::invalid(error.code(), error.message()));
        },
    };
    let default = match args.infobase_auth() {
        Ok(found) => found,
        Err(error) => {
            return Err(AppError::invalid(error.code(), error.message()));
        },
    };
    let overrides: Vec<InfobaseAuthOverride> = Vec::new();
    assert(model::override_views(overrides@) =~= Seq::empty());
    let infobase_auth = match InfobaseAuthPolicy::new(default, overrides) {
        Ok(policy) => policy,
        Err(error) => {
            return Err(AppError::from_domain(&error));
        },
    };
    let mut request = ClusterAddRequest::new(args.name.clone(), args.ras.clone(), cluster_auth);
    request.infobase_auth = infobase_auth;
    request.rac_options = rac_options(rac_path);
    Ok(request)
}

} // verus!
