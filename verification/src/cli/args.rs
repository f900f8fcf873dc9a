//! The arguments of the commands, and what is checked of them before anything is read or asked.

use vstd::prelude::*;
use vstd::string::*;

use crate::domain::auth;
use crate::domain::auth::{AuthConfig, AuthView, SecretString};
use crate::domain::error::{DomainError, DomainErrorView};
use crate::domain::field_value::{FieldValue, ValueView};
use crate::domain::fields::{FieldRegistry, FilterOperator};
use crate::domain::identity::{ConnectionUuid, ProcessUuid, SessionUuid, Uuid};
use crate::domain::model::RecordKind;
use crate::domain::query;
use crate::domain::query::{Filter, QuerySpec, QuerySpecView, Top};
use crate::domain::value::{ClusterAlias, RasEndpoint};
use crate::number;
use crate::outcome;
use crate::text;

verus! {

/// How results are printed.
#[derive(Clone, Copy, Debug, PartialEq, Eq, Structural)]
pub enum OutputFormat {
    Table,
    Json,
    Csv,
}

impl OutputFormat {
    pub open spec fn text(self) -> Seq<char> {
        match self {
            OutputFormat::Table => "table"@,
            OutputFormat::Json => "json"@,
            OutputFormat::Csv => "csv"@,
        }
    }

    pub fn as_str(self) -> (result: &'static str)
        ensures
            result@ == self.text(),
    {
        match self {
            OutputFormat::Table => "table",
            OutputFormat::Json => "json",
            OutputFormat::Csv => "csv",
        }
    }
}

impl Default for OutputFormat {
    fn default() -> (result: Self)
        ensures
            result == OutputFormat::Table,
    {
        OutputFormat::Table
    }
}

/// How a cluster is added: without credentials or with a password.
#[derive(Clone, Copy, Debug, PartialEq, Eq, Structural)]
pub enum AuthModeArg {
    NoAuth,
    Password,
}

/// What is wrong with arguments. The text never holds a secret.
#[derive(Debug, PartialEq, Eq)]
pub struct CliValidationError {
    code: &'static str,
    message: String,
}

pub struct ArgsProblem {
    pub code: Seq<char>,
    pub message: Seq<char>,
}

impl View for CliValidationError {
    type V = ArgsProblem;

    closed spec fn view(&self) -> ArgsProblem {
        ArgsProblem { code: self.code@, message: self.message@ }
    }
}

impl ArgsProblem {
    pub open spec fn of_domain(error: DomainErrorView) -> ArgsProblem {
        ArgsProblem { code: error.code(), message: error.message() }
    }
}

impl CliValidationError {
    pub fn new(code: &'static str, message: &str) -> (result: Self)
        ensures
            result@ == (ArgsProblem { code: code@, message: message@ }),
    {
        CliValidationError { code, message: message.to_owned() }
    }

    pub fn from_domain(error: &DomainError) -> (result: Self)
        ensures
            result@ == ArgsProblem::of_domain(error@),
    {
        CliValidationError { code: error.code(), message: error.message() }
    }

    pub fn code(&self) -> (result: &'static str)
        ensures
            result@ == self@.code,
    {
        self.code
    }

    pub fn message(&self) -> (result: &str)
        ensures
            result@ == self@.message,
    {
        self.message.as_str()
    }
}

/// A check of arguments by view.
pub open spec fn checked_view(result: Result<(), CliValidationError>) -> Result<(), ArgsProblem> {
    match result {
        Ok(()) => Ok(()),
        Err(error) => Err(error@),
    }
}

/// The arguments of `cluster add`.
pub struct ClusterAddArgs {
    pub name: ClusterAlias,
    pub ras: RasEndpoint,
    pub auth: AuthModeArg,
    pub user: Option<String>,
    pub password: Option<SecretString>,
    pub infobase_auth: Option<AuthModeArg>,
    pub infobase_user: Option<String>,
    pub infobase_password: Option<SecretString>,
}

pub open spec fn missing_option(option: Seq<char>, scope: Seq<char>) -> ArgsProblem {
    ArgsProblem {
        code: "invalid_auth"@,
        message: "Для "@ + "password"@ + "-аутентификации "@ + scope + " требуется `"@ + option
            + "`"@,
    }
}

pub open spec fn forbidden_option(option: Seq<char>) -> ArgsProblem {
    ArgsProblem {
        code: "invalid_auth"@,
        message: "Параметр `"@ + option + "` недопустим при режиме аутентификации `"@ + "none"@
            + "`"@,
    }
}

fn missing_auth_option(option: &str, scope: &str) -> (result: CliValidationError)
    ensures
        result@ == missing_option(option@, scope@),
{
    let mut message = "Для ".to_owned();
    message.push_str("password");
    message.push_str("-аутентификации ");
    message.push_str(scope);
    message.push_str(" требуется `");
    message.push_str(option);
    message.push_str("`");
    CliValidationError { code: "invalid_auth", message }
}

fn rejected_option(option: &str) -> (result: CliValidationError)
    ensures
        result@ == forbidden_option(option@),
{
    let mut message = "Параметр `".to_owned();
    message.push_str(option);
    message.push_str("` недопустим при режиме аутентификации `");
    message.push_str("none");
    message.push_str("`");
    CliValidationError { code: "invalid_auth", message }
}

/// The credentials that options give: none without options, or a user and a password.
pub open spec fn options_auth(
    mode: AuthModeArg,
    user: Option<Seq<char>>,
    password: Option<Seq<char>>,
    user_option: Seq<char>,
    password_option: Seq<char>,
    scope: Seq<char>,
) -> Result<AuthView, ArgsProblem> {
    match mode {
        AuthModeArg::NoAuth => if user is Some {
            Err(forbidden_option(user_option))
        } else if password is Some {
            Err(forbidden_option(password_option))
        } else {
            Ok(AuthView::NoAuth)
        },
        AuthModeArg::Password => match (user, password) {
            (None, _) => Err(missing_option(user_option, scope)),
            (Some(_), None) => Err(missing_option(password_option, scope)),
            (Some(user), Some(password)) => match auth::password_auth(user, password) {
                Ok(found) => Ok(found),
                Err(error) => Err(ArgsProblem::of_domain(error)),
            },
        },
    }
}

fn auth_from_options(
    mode: AuthModeArg,
    user: &Option<String>,
    password: &Option<SecretString>,
    user_option: &str,
    password_option: &str,
    scope: &str,
) -> (result: Result<AuthConfig, CliValidationError>)
    ensures
        outcome::result_view(result) == options_auth(
            mode,
            outcome::option_view(*user),
            outcome::option_view(*password),
            user_option@,
            password_option@,
            scope@,
        ),
{
    match mode {
        AuthModeArg::NoAuth => {
            if user.is_some() {
                return Err(rejected_option(user_option));
            }
            if password.is_some() {
                return Err(rejected_option(password_option));
            }
            Ok(AuthConfig::none())
        },
        AuthModeArg::Password => {
            let user = match user {
                Some(user) => user,
                None => {
                    return Err(missing_auth_option(user_option, scope));
                },
            };
            let password = match password {
                Some(password) => password.clone(),
                None => {
                    return Err(missing_auth_option(password_option, scope));
                },
            };
            match AuthConfig::password(user.as_str(), password) {
                Ok(found) => Ok(found),
                Err(error) => Err(CliValidationError::from_domain(&error)),
            }
        },
    }
}

impl ClusterAddArgs {
    pub open spec fn cluster_auth_view(self) -> Result<AuthView, ArgsProblem> {
        options_auth(
            self.auth,
            outcome::option_view(self.user),
            outcome::option_view(self.password),
            "--user"@,
            "--password"@,
            "кластера"@,
        )
    }

    pub open spec fn infobase_auth_view(self) -> Result<AuthView, ArgsProblem> {
        options_auth(
            match self.infobase_auth {
                Some(mode) => mode,
                None => AuthModeArg::NoAuth,
            },
            outcome::option_view(self.infobase_user),
            outcome::option_view(self.infobase_password),
            "--infobase-user"@,
            "--infobase-password"@,
            "информационных баз"@,
        )
    }

    pub open spec fn problem(self) -> Option<ArgsProblem> {
        match (self.cluster_auth_view(), self.infobase_auth_view()) {
            (Err(problem), _) => Some(problem),
            (Ok(_), Err(problem)) => Some(problem),
            (Ok(_), Ok(_)) => None,
        }
    }

    pub fn validate(&self) -> (result: Result<(), CliValidationError>)
        ensures
            checked_view(result) == checked(self.problem()),
    {
        match self.cluster_auth() {
            Ok(_) => {},
            Err(error) => {
                return Err(error);
            },
        }
        match self.infobase_auth() {
            Ok(_) => Ok(()),
            Err(error) => Err(error),
        }
    }

    pub fn cluster_auth(&self) -> (result: Result<AuthConfig, CliValidationError>)
        ensures
            outcome::result_view(result) == self.cluster_auth_view(),
    {
        auth_from_options(
            self.auth,
            &self.user,
            &self.password,
            "--user",
            "--password",
            "кластера",
        )
    }

    pub fn infobase_auth(&self) -> (result: Result<AuthConfig, CliValidationError>)
        ensures
            outcome::result_view(result) == self.infobase_auth_view(),
    {
        let mode = match self.infobase_auth {
            Some(mode) => mode,
            None => AuthModeArg::NoAuth,
        };
        auth_from_options(
            mode,
            &self.infobase_user,
            &self.infobase_password,
            "--infobase-user",
            "--infobase-password",
            "информационных баз",
        )
    }
}

/// Arguments are fine where nothing is wrong with them.
pub open spec fn checked(problem: Option<ArgsProblem>) -> Result<(), ArgsProblem> {
    match problem {
        Some(problem) => Err(problem),
        None => Ok(()),
    }
}

/// The arguments of `cluster remove`.
pub struct ClusterRemoveArgs {
    pub name: ClusterAlias,
    pub force: bool,
}

/// A query with one more condition, where there is a value for it.
pub open spec fn pushed(
    asked: Result<QuerySpecView, DomainErrorView>,
    field: Seq<char>,
    operator: FilterOperator,
    value: Option<ValueView>,
) -> Result<QuerySpecView, DomainErrorView> {
    match (asked, value) {
        (Ok(found), Some(value)) => match query::typed_filter(found.kind, field, operator, value) {
            Err(error) => Err(error),
            Ok(filter) => Ok(QuerySpecView { filters: found.filters.push(filter), ..found }),
        },
        (unchanged, _) => unchanged,
    }
}

/// A mask as the value of a condition.
pub open spec fn mask_operand(value: Option<Seq<char>>) -> Option<ValueView> {
    match value {
        Some(value) => Some(ValueView::Str(value)),
        None => None,
    }
}

fn push_filter(
    asked: Result<QuerySpec, DomainError>,
    field: &str,
    operator: FilterOperator,
    value: Option<FieldValue>,
    registry: &FieldRegistry,
) -> (result: Result<QuerySpec, DomainError>)
    ensures
        outcome::result_view(result) == pushed(
            outcome::result_view(asked),
            field@,
            operator,
            outcome::option_view(value),
        ),
{
    let mut found = match asked {
        Ok(found) => found,
        Err(error) => {
            return Err(error);
        },
    };
    let value = match value {
        Some(value) => value,
        None => {
            return Ok(found);
        },
    };
    let filter = match Filter::from_value(found.kind(), field, operator, value, registry) {
        Ok(filter) => filter,
        Err(error) => {
            return Err(error);
        },
    };
    match found.push_filter(filter) {
        Ok(()) => Ok(found),
        Err(error) => Err(error),
    }
}

fn push_mask(
    asked: Result<QuerySpec, DomainError>,
    field: &str,
    value: &Option<String>,
    registry: &FieldRegistry,
) -> (result: Result<QuerySpec, DomainError>)
    ensures
        outcome::result_view(result) == pushed(
            outcome::result_view(asked),
            field@,
            FilterOperator::Like,
            mask_operand(outcome::option_view(*value)),
        ),
{
    let operand = match value {
        Some(value) => Some(FieldValue::Str(value.clone())),
        None => None,
    };
    push_filter(asked, field, FilterOperator::Like, operand, registry)
}

fn borrowed(values: &Vec<String>) -> (result: Vec<&str>)
    ensures
        query::texts(result@) == text::views(values@),
{
    let mut result: Vec<&str> = Vec::new();
    let mut i: usize = 0;
    while i < values.len()
        invariant
            i <= values.len(),
            result@.len() == i,
            forall|j: int| 0 <= j < i ==> (#[trigger] result@[j])@ == values@[j]@,
        decreases values.len() - i,
    {
        result.push(values[i].as_str());
        i = i + 1;
    }
    assert(query::texts(result@) =~= text::views(values@));
    result
}

fn borrowed_text(value: &Option<String>) -> (result: Option<&str>)
    ensures
        outcome::option_view(result) == outcome::option_view(*value),
{
    match value {
        Some(value) => Some(value.as_str()),
        None => None,
    }
}

/// What shapes the list that a command prints.
pub struct QueryOptions {
    pub filter: Vec<String>,
    pub sort: Vec<String>,
    pub top: Option<Top>,
    pub columns: Option<String>,
}

/// The text of a limit.
pub open spec fn top_text(top: Option<usize>) -> Option<Seq<char>> {
    match top {
        Some(top) => Some(number::decimal(top as nat)),
        None => None,
    }
}

impl QueryOptions {
    pub open spec fn query_view(self, kind: RecordKind, asked: Option<Seq<char>>) -> Result<
        QuerySpecView,
        DomainErrorView,
    > {
        query::query_of(
            kind,
            text::views(self.filter@),
            asked,
            text::views(self.sort@),
            top_text(outcome::option_view(self.top)),
            outcome::option_view(self.columns),
        )
    }

    /// The query that the options give, with a text query.
    pub fn query_spec(
        &self,
        kind: RecordKind,
        asked: Option<&str>,
        registry: &FieldRegistry,
    ) -> (result: Result<QuerySpec, DomainError>)
        ensures
            outcome::result_view(result) == self.query_view(kind, outcome::option_view(asked)),
    {
        let filter = borrowed(&self.filter);
        let sort = borrowed(&self.sort);
        match self.top {
            Some(top) => {
                let limit = number::format_u64(top.get() as u64);
                QuerySpec::parse(
                    kind,
                    filter.as_slice(),
                    asked,
                    sort.as_slice(),
                    Some(limit.as_str()),
                    borrowed_text(&self.columns),
                    registry,
                )
            },
            None => QuerySpec::parse(
                kind,
                filter.as_slice(),
                asked,
                sort.as_slice(),
                None,
                borrowed_text(&self.columns),
                registry,
            ),
        }
    }
}

/// The arguments of `infobase search`.
pub struct InfobaseSearchArgs {
    pub pattern: String,
    pub cluster: Option<String>,
    pub columns: Option<String>,
}

impl InfobaseSearchArgs {
    pub open spec fn query_view(self) -> Result<QuerySpecView, DomainErrorView> {
        pushed(
            query::query_of(
                RecordKind::Infobase,
                Seq::empty(),
                Some(self.pattern@),
                Seq::empty(),
                None,
                outcome::option_view(self.columns),
            ),
            "cluster"@,
            FilterOperator::Like,
            mask_operand(outcome::option_view(self.cluster)),
        )
    }

    pub fn query_spec(&self, registry: &FieldRegistry) -> (result: Result<QuerySpec, DomainError>)
        ensures
            outcome::result_view(result) == self.query_view(),
    {
        let nothing: Vec<&str> = Vec::new();
        assert(query::texts(nothing@) =~= Seq::<Seq<char>>::empty());
        let asked = QuerySpec::parse(
            RecordKind::Infobase,
            nothing.as_slice(),
            Some(self.pattern.as_str()),
            nothing.as_slice(),
            None,
            borrowed_text(&self.columns),
            registry,
        );
        push_mask(asked, "cluster", &self.cluster, registry)
    }
}

/// Which sessions a command is for.
pub struct SessionSelectors {
    pub cluster: Option<String>,
    pub infobase: Option<String>,
    pub query: Option<String>,
    pub id: Option<SessionUuid>,
    pub number: Option<i64>,
    pub user: Option<String>,
    pub host: Option<String>,
    pub app: Option<String>,
}

/// A number as the value of a condition.
pub open spec fn int_operand(number: Option<i64>) -> Option<ValueView> {
    match number {
        Some(number) => Some(ValueView::Int(number)),
        None => None,
    }
}

/// An identity as the value of a condition.
pub open spec fn uuid_operand(id: Option<u128>) -> Option<ValueView> {
    match id {
        Some(id) => Some(ValueView::Uuid(id)),
        None => None,
    }
}

fn int_value(number: Option<i64>) -> (result: Option<FieldValue>)
    ensures
        outcome::option_view(result) == int_operand(number),
{
    match number {
        Some(number) => Some(FieldValue::Int(number)),
        None => None,
    }
}

fn uuid_value(id: Option<Uuid>) -> (result: Option<FieldValue>)
    ensures
        outcome::option_view(result) == uuid_operand(outcome::option_view(id)),
{
    match id {
        Some(id) => Some(FieldValue::Uuid(id)),
        None => None,
    }
}

impl SessionSelectors {
    /// Whether certain sessions are meant. A cluster alone means none in particular.
    pub open spec fn is_narrow(self) -> bool {
        ||| self.infobase is Some
        ||| self.query is Some
        ||| self.id is Some
        ||| self.number is Some
        ||| self.user is Some
        ||| self.host is Some
        ||| self.app is Some
    }

    pub fn has_selector(&self) -> (result: bool)
        ensures
            result == self.is_narrow(),
    {
        self.infobase.is_some() || self.query.is_some() || self.id.is_some()
            || self.number.is_some() || self.user.is_some() || self.host.is_some()
            || self.app.is_some()
    }

    /// A query with the conditions of the selectors.
    pub open spec fn applied(self, asked: Result<QuerySpecView, DomainErrorView>) -> Result<
        QuerySpecView,
        DomainErrorView,
    > {
        let by_cluster = pushed(
            asked,
            "cluster"@,
            FilterOperator::Like,
            mask_operand(outcome::option_view(self.cluster)),
        );
        let by_infobase = pushed(
            by_cluster,
            "infobase"@,
            FilterOperator::Like,
            mask_operand(outcome::option_view(self.infobase)),
        );
        let by_id = pushed(
            by_infobase,
            "session"@,
            FilterOperator::Eq,
            uuid_operand(outcome::option_view(self.id)),
        );
        let by_number = pushed(by_id, "session_id"@, FilterOperator::Eq, int_operand(self.number));
        let by_user = pushed(
            by_number,
            "user_name"@,
            FilterOperator::Like,
            mask_operand(outcome::option_view(self.user)),
        );
        let by_host = pushed(
            by_user,
            "host"@,
            FilterOperator::Like,
            mask_operand(outcome::option_view(self.host)),
        );
        pushed(
            by_host,
            "app_id"@,
            FilterOperator::Like,
            mask_operand(outcome::option_view(self.app)),
        )
    }

    fn apply(&self, asked: Result<QuerySpec, DomainError>, registry: &FieldRegistry) -> (result: Result<
        QuerySpec,
        DomainError,
    >)
        ensures
            outcome::result_view(result) == self.applied(outcome::result_view(asked)),
    {
        let id = match self.id {
            Some(id) => Some(id.into_uuid()),
            None => None,
        };
        let asked = push_mask(asked, "cluster", &self.cluster, registry);
        let asked = push_mask(asked, "infobase", &self.infobase, registry);
        let asked = push_filter(asked, "session", FilterOperator::Eq, uuid_value(id), registry);
        let asked = push_filter(
            asked,
            "session_id",
            FilterOperator::Eq,
            int_value(self.number),
            registry,
        );
        let asked = push_mask(asked, "user_name", &self.user, registry);
        let asked = push_mask(asked, "host", &self.host, registry);
        push_mask(asked, "app_id", &self.app, registry)
    }
}

/// The arguments of `session list`.
pub struct SessionListArgs {
    pub selectors: SessionSelectors,
    pub query: QueryOptions,
}

/// The query of selectors and options.
pub open spec fn session_query_view(selectors: SessionSelectors, options: QueryOptions) -> Result<
    QuerySpecView,
    DomainErrorView,
> {
    selectors.applied(
        options.query_view(RecordKind::Session, outcome::option_view(selectors.query)),
    )
}

fn session_query_spec(
    selectors: &SessionSelectors,
    options: &QueryOptions,
    registry: &FieldRegistry,
) -> (result: Result<QuerySpec, DomainError>)
    ensures
        outcome::result_view(result) == session_query_view(*selectors, *options),
{
    let asked = options.query_spec(RecordKind::Session, borrowed_text(&selectors.query), registry);
    selectors.apply(asked, registry)
}

impl SessionListArgs {
    pub fn query_spec(&self, registry: &FieldRegistry) -> (result: Result<QuerySpec, DomainError>)
        ensures
            outcome::result_view(result) == session_query_view(self.selectors, self.query),
    {
        session_query_spec(&self.selectors, &self.query, registry)
    }
}

/// The arguments of `session kill`.
pub struct SessionKillArgs {
    pub selectors: SessionSelectors,
    pub query: QueryOptions,
    pub message: Option<String>,
    pub force: bool,
}

/// What is wrong with a query.
pub open spec fn query_problem(asked: Result<QuerySpecView, DomainErrorView>) -> Option<ArgsProblem> {
    match asked {
        Err(error) => Some(ArgsProblem::of_domain(error)),
        Ok(_) => None,
    }
}

fn check_query(asked: Result<QuerySpec, DomainError>) -> (result: Result<(), CliValidationError>)
    ensures
        checked_view(result) == checked(query_problem(outcome::result_view(asked))),
{
    match asked {
        Ok(_) => Ok(()),
        Err(error) => Err(CliValidationError::from_domain(&error)),
    }
}

impl SessionKillArgs {
    pub open spec fn is_narrow(self) -> bool {
        self.selectors.is_narrow() || self.query.filter@.len() > 0
    }

    pub fn has_selector(&self) -> (result: bool)
        ensures
            result == self.is_narrow(),
    {
        self.selectors.has_selector() || self.query.filter.len() > 0
    }

    pub fn query_spec(&self, registry: &FieldRegistry) -> (result: Result<QuerySpec, DomainError>)
        ensures
            outcome::result_view(result) == session_query_view(self.selectors, self.query),
    {
        session_query_spec(&self.selectors, &self.query, registry)
    }

    /// What is wrong with the arguments: they name no sessions in particular, or their query is wrong.
    pub open spec fn problem(self) -> Option<ArgsProblem> {
        if !self.is_narrow() {
            Some(
                ArgsProblem {
                    code: "selector_required"@,
                    message: "Для завершения сеансов требуется хотя бы один предметный селектор; одного `--cluster` недостаточно"@,
                },
            )
        } else {
            query_problem(session_query_view(self.selectors, self.query))
        }
    }

    pub fn validate(&self, registry: &FieldRegistry) -> (result: Result<(), CliValidationError>)
        ensures
            checked_view(result) == checked(self.problem()),
    {
        if !self.has_selector() {
            return Err(
                CliValidationError::new(
                    "selector_required",
                    "Для завершения сеансов требуется хотя бы один предметный селектор; одного `--cluster` недостаточно",
                ),
            );
        }
        check_query(self.query_spec(registry))
    }
}

/// Which connections a command is for.
pub struct ConnectionSelectors {
    pub cluster: Option<String>,
    pub infobase: Option<String>,
    pub query: Option<String>,
    pub id: Option<ConnectionUuid>,
    pub number: Option<i64>,
    pub host: Option<String>,
    pub application: Option<String>,
    pub process: Option<ProcessUuid>,
}

impl ConnectionSelectors {
    /// Whether certain connections are meant. A cluster alone means none in particular.
    pub open spec fn is_narrow(self) -> bool {
        ||| self.infobase is Some
        ||| self.query is Some
        ||| self.id is Some
        ||| self.number is Some
        ||| self.host is Some
        ||| self.application is Some
        ||| self.process is Some
    }

    pub fn has_selector(&self) -> (result: bool)
        ensures
            result == self.is_narrow(),
    {
        self.infobase.is_some() || self.query.is_some() || self.id.is_some()
            || self.number.is_some() || self.host.is_some() || self.application.is_some()
            || self.process.is_some()
    }

    /// A query with the conditions of the selectors.
    pub open spec fn applied(self, asked: Result<QuerySpecView, DomainErrorView>) -> Result<
        QuerySpecView,
        DomainErrorView,
    > {
        let by_cluster = pushed(
            asked,
            "cluster"@,
            FilterOperator::Like,
            mask_operand(outcome::option_view(self.cluster)),
        );
        let by_infobase = pushed(
            by_cluster,
            "infobase"@,
            FilterOperator::Like,
            mask_operand(outcome::option_view(self.infobase)),
        );
        let by_id = pushed(
            by_infobase,
            "connection"@,
            FilterOperator::Eq,
            uuid_operand(outcome::option_view(self.id)),
        );
        let by_number = pushed(
            by_id,
            "conn_id"@,
            FilterOperator::Eq,
            int_operand(self.number),
        );
        let by_host = pushed(
            by_number,
            "host"@,
            FilterOperator::Like,
            mask_operand(outcome::option_view(self.host)),
        );
        let by_application = pushed(
            by_host,
            "application"@,
            FilterOperator::Like,
            mask_operand(outcome::option_view(self.application)),
        );
        pushed(
            by_application,
            "process"@,
            FilterOperator::Eq,
            uuid_operand(outcome::option_view(self.process)),
        )
    }

    fn apply(&self, asked: Result<QuerySpec, DomainError>, registry: &FieldRegistry) -> (result: Result<
        QuerySpec,
        DomainError,
    >)
        ensures
            outcome::result_view(result) == self.applied(outcome::result_view(asked)),
    {
        let id = match self.id {
            Some(id) => Some(id.into_uuid()),
            None => None,
        };
        let process = match self.process {
            Some(id) => Some(id.into_uuid()),
            None => None,
        };
        let asked = push_mask(asked, "cluster", &self.cluster, registry);
        let asked = push_mask(asked, "infobase", &self.infobase, registry);
        let asked = push_filter(asked, "connection", FilterOperator::Eq, uuid_value(id), registry);
        let asked = push_filter(asked, "conn_id", FilterOperator::Eq, int_value(self.number), registry);
        let asked = push_mask(asked, "host", &self.host, registry);
        let asked = push_mask(asked, "application", &self.application, registry);
        push_filter(asked, "process", FilterOperator::Eq, uuid_value(process), registry)
    }
}

/// The arguments of `connection list`.
pub struct ConnectionListArgs {
    pub selectors: ConnectionSelectors,
    pub query: QueryOptions,
}

/// The query of selectors and options.
pub open spec fn connection_query_view(selectors: ConnectionSelectors, options: QueryOptions) -> Result<
    QuerySpecView,
    DomainErrorView,
> {
    selectors.applied(options.query_view(RecordKind::Connection, outcome::option_view(selectors.query)))
}

fn connection_query_spec(
    selectors: &ConnectionSelectors,
    options: &QueryOptions,
    registry: &FieldRegistry,
) -> (result: Result<QuerySpec, DomainError>)
    ensures
        outcome::result_view(result) == connection_query_view(*selectors, *options),
{
    let asked = options.query_spec(RecordKind::Connection, borrowed_text(&selectors.query), registry);
    selectors.apply(asked, registry)
}

impl ConnectionListArgs {
    pub fn query_spec(&self, registry: &FieldRegistry) -> (result: Result<QuerySpec, DomainError>)
        ensures
            outcome::result_view(result) == connection_query_view(self.selectors, self.query),
    {
        connection_query_spec(&self.selectors, &self.query, registry)
    }
}

/// The arguments of `connection kill`.
pub struct ConnectionKillArgs {
    pub selectors: ConnectionSelectors,
    pub query: QueryOptions,
    pub force: bool,
}

impl ConnectionKillArgs {
    pub open spec fn is_narrow(self) -> bool {
        self.selectors.is_narrow() || self.query.filter@.len() > 0
    }

    pub fn has_selector(&self) -> (result: bool)
        ensures
            result == self.is_narrow(),
    {
        self.selectors.has_selector() || self.query.filter.len() > 0
    }

    pub fn query_spec(&self, registry: &FieldRegistry) -> (result: Result<QuerySpec, DomainError>)
        ensures
            outcome::result_view(result) == connection_query_view(self.selectors, self.query),
    {
        connection_query_spec(&self.selectors, &self.query, registry)
    }

    /// What is wrong with the arguments: they name no connections in particular, or their query is
    /// wrong.
    pub open spec fn problem(self) -> Option<ArgsProblem> {
        if !self.is_narrow() {
            Some(
                ArgsProblem {
                    code: "selector_required"@,
                    message: "Для разрыва соединений требуется хотя бы один предметный селектор; одного `--cluster` недостаточно"@,
                },
            )
        } else {
            query_problem(connection_query_view(self.selectors, self.query))
        }
    }

    pub fn validate(&self, registry: &FieldRegistry) -> (result: Result<(), CliValidationError>)
        ensures
            checked_view(result) == checked(self.problem()),
    {
        if !self.has_selector() {
            return Err(
                CliValidationError::new(
                    "selector_required",
                    "Для разрыва соединений требуется хотя бы один предметный селектор; одного `--cluster` недостаточно",
                ),
            );
        }
        check_query(self.query_spec(registry))
    }
}

/// Which working processes a command is for.
pub struct ProcessSelectors {
    pub cluster: Option<String>,
    pub id: Option<ProcessUuid>,
    pub pid: Option<i64>,
    pub server: Option<Uuid>,
}

impl ProcessSelectors {
    /// Whether certain working processes are meant. A cluster alone means none in particular.
    pub open spec fn is_narrow(self) -> bool {
        ||| self.id is Some
        ||| self.pid is Some
        ||| self.server is Some
    }

    pub fn has_selector(&self) -> (result: bool)
        ensures
            result == self.is_narrow(),
    {
        self.id.is_some() || self.pid.is_some() || self.server.is_some()
    }

    /// A query with the conditions of the selectors.
    pub open spec fn applied(self, asked: Result<QuerySpecView, DomainErrorView>) -> Result<
        QuerySpecView,
        DomainErrorView,
    > {
        let by_cluster = pushed(
            asked,
            "cluster"@,
            FilterOperator::Like,
            mask_operand(outcome::option_view(self.cluster)),
        );
        let by_id = pushed(
            by_cluster,
            "process"@,
            FilterOperator::Eq,
            uuid_operand(outcome::option_view(self.id)),
        );
        let by_pid = pushed(
            by_id,
            "pid"@,
            FilterOperator::Eq,
            int_operand(self.pid),
        );
        pushed(
            by_pid,
            "server"@,
            FilterOperator::Eq,
            uuid_operand(outcome::option_view(self.server)),
        )
    }

    fn apply(&self, asked: Result<QuerySpec, DomainError>, registry: &FieldRegistry) -> (result: Result<
        QuerySpec,
        DomainError,
    >)
        ensures
            outcome::result_view(result) == self.applied(outcome::result_view(asked)),
    {
        let id = match self.id {
            Some(id) => Some(id.into_uuid()),
            None => None,
        };
        let asked = push_mask(asked, "cluster", &self.cluster, registry);
        let asked = push_filter(asked, "process", FilterOperator::Eq, uuid_value(id), registry);
        let asked = push_filter(asked, "pid", FilterOperator::Eq, int_value(self.pid), registry);
        push_filter(asked, "server", FilterOperator::Eq, uuid_value(self.server), registry)
    }
}

/// The arguments of `process list`.
pub struct ProcessListArgs {
    pub selectors: ProcessSelectors,
    pub query: QueryOptions,
}

/// The query of selectors and options.
pub open spec fn process_query_view(selectors: ProcessSelectors, options: QueryOptions) -> Result<
    QuerySpecView,
    DomainErrorView,
> {
    selectors.applied(options.query_view(RecordKind::Process, None))
}

fn process_query_spec(
    selectors: &ProcessSelectors,
    options: &QueryOptions,
    registry: &FieldRegistry,
) -> (result: Result<QuerySpec, DomainError>)
    ensures
        outcome::result_view(result) == process_query_view(*selectors, *options),
{
    let asked = options.query_spec(RecordKind::Process, None, registry);
    selectors.apply(asked, registry)
}

impl ProcessListArgs {
    pub fn query_spec(&self, registry: &FieldRegistry) -> (result: Result<QuerySpec, DomainError>)
        ensures
            outcome::result_view(result) == process_query_view(self.selectors, self.query),
    {
        process_query_spec(&self.selectors, &self.query, registry)
    }
}

/// The arguments of `process kill`.
pub struct ProcessKillArgs {
    pub selectors: ProcessSelectors,
    pub query: QueryOptions,
    pub force: bool,
}

impl ProcessKillArgs {
    pub open spec fn is_narrow(self) -> bool {
        self.selectors.is_narrow() || self.query.filter@.len() > 0
    }

    pub fn has_selector(&self) -> (result: bool)
        ensures
            result == self.is_narrow(),
    {
        self.selectors.has_selector() || self.query.filter.len() > 0
    }

    pub fn query_spec(&self, registry: &FieldRegistry) -> (result: Result<QuerySpec, DomainError>)
        ensures
            outcome::result_view(result) == process_query_view(self.selectors, self.query),
    {
        process_query_spec(&self.selectors, &self.query, registry)
    }

    /// What is wrong with the arguments: they name no working processes in particular, or their query is
    /// wrong.
    pub open spec fn problem(self) -> Option<ArgsProblem> {
        if !self.is_narrow() {
            Some(
                ArgsProblem {
                    code: "selector_required"@,
                    message: "Для выключения процессов требуется хотя бы один предметный селектор; одного `--cluster` недостаточно"@,
                },
            )
        } else {
            query_problem(process_query_view(self.selectors, self.query))
        }
    }

    pub fn validate(&self, registry: &FieldRegistry) -> (result: Result<(), CliValidationError>)
        ensures
            checked_view(result) == checked(self.problem()),
    {
        if !self.has_selector() {
            return Err(
                CliValidationError::new(
                    "selector_required",
                    "Для выключения процессов требуется хотя бы один предметный селектор; одного `--cluster` недостаточно",
                ),
            );
        }
        check_query(self.query_spec(registry))
    }
}

pub enum ClusterCommand {
    Add(ClusterAddArgs),
    Remove(ClusterRemoveArgs),
}

pub enum InfobaseCommand {
    Search(InfobaseSearchArgs),
}

pub enum SessionCommand {
    List(SessionListArgs),
    Kill(SessionKillArgs),
}

pub enum ConnectionCommand {
    List(ConnectionListArgs),
    Kill(ConnectionKillArgs),
}

pub enum ProcessCommand {
    List(ProcessListArgs),
    Kill(ProcessKillArgs),
}

pub enum CliCommand {
    Cluster { command: ClusterCommand },
    Infobase { command: InfobaseCommand },
    Session { command: SessionCommand },
    Connection { command: ConnectionCommand },
    Process { command: ProcessCommand },
}

/// The whole command line. Without a command the interactive interface is meant.
pub struct Cli {
    pub config: Option<String>,
    pub rac_path: Option<String>,
    /// How long a command of the utility may take, in seconds.
    pub timeout: Option<u64>,
    pub format: OutputFormat,
    pub no_color: bool,
    pub command: Option<CliCommand>,
}

impl CliCommand {
    /// What is wrong with the arguments of a command.
    pub open spec fn problem(self) -> Option<ArgsProblem> {
        match self {
            CliCommand::Cluster { command: ClusterCommand::Add(args) } => args.problem(),
            CliCommand::Cluster { command: ClusterCommand::Remove(_) } => None,
            CliCommand::Infobase { command: InfobaseCommand::Search(args) } => query_problem(
                args.query_view(),
            ),
            CliCommand::Session { command: SessionCommand::List(args) } => query_problem(
                session_query_view(args.selectors, args.query),
            ),
            CliCommand::Session { command: SessionCommand::Kill(args) } => args.problem(),
            CliCommand::Connection { command: ConnectionCommand::List(args) } => query_problem(
                connection_query_view(args.selectors, args.query),
            ),
            CliCommand::Connection { command: ConnectionCommand::Kill(args) } => args.problem(),
            CliCommand::Process { command: ProcessCommand::List(args) } => query_problem(
                process_query_view(args.selectors, args.query),
            ),
            CliCommand::Process { command: ProcessCommand::Kill(args) } => args.problem(),
        }
    }
}

impl Cli {
    pub fn is_tui_mode(&self) -> (result: bool)
        ensures
            result == (self.command is None),
    {
        self.command.is_none()
    }

    /// Checks everything that can be checked before a file is read or a server is asked.
    pub fn validate(&self) -> (result: Result<(), CliValidationError>)
        ensures
            checked_view(result) == checked(
                match self.command {
                    Some(command) => command.problem(),
                    None => None,
                },
            ),
    {
        let registry = FieldRegistry::new();
        match &self.command {
            None => Ok(()),
            Some(CliCommand::Cluster { command }) => match command {
                ClusterCommand::Add(args) => args.validate(),
                ClusterCommand::Remove(_) => Ok(()),
            },
            Some(CliCommand::Infobase { command }) => match command {
                InfobaseCommand::Search(args) => check_query(args.query_spec(&registry)),
            },
            Some(CliCommand::Session { command }) => match command {
                SessionCommand::List(args) => check_query(args.query_spec(&registry)),
                SessionCommand::Kill(args) => args.validate(&registry),
            },
            Some(CliCommand::Connection { command }) => match command {
                ConnectionCommand::List(args) => check_query(args.query_spec(&registry)),
                ConnectionCommand::Kill(args) => args.validate(&registry),
            },
            Some(CliCommand::Process { command }) => match command {
                ProcessCommand::List(args) => check_query(args.query_spec(&registry)),
                ProcessCommand::Kill(args) => args.validate(&registry),
            },
        }
    }
}

/// A command that acts on sessions, connections or processes passes its checks only where it names
/// some of them; a cluster alone is not enough.
pub proof fn law_actions_need_a_selector(
    sessions: SessionKillArgs,
    connections: ConnectionKillArgs,
    processes: ProcessKillArgs,
)
    ensures
        sessions.problem() is None ==> sessions.is_narrow(),
        connections.problem() is None ==> connections.is_narrow(),
        processes.problem() is None ==> processes.is_narrow(),
{
}

/// The diagnostics of the parser of arguments with its fixed phrases in Russian.
pub open spec fn localized(message: Seq<char>) -> Seq<char> {
    let a = text::substituted(message, "error:"@, "ошибка:"@, 0);
    let b = text::substituted(a, "Usage:"@, "Использование:"@, 0);
    let c = text::substituted(b, "unexpected argument"@, "неожиданный аргумент"@, 0);
    let d = text::substituted(
        c,
        "the following required arguments were not provided:"@,
        "не указаны обязательные аргументы:"@,
        0,
    );
    let e = text::substituted(d, "invalid value"@, "некорректное значение"@, 0);
    let f = text::substituted(e, "unrecognized subcommand"@, "неизвестная команда"@, 0);
    text::substituted(
        f,
        "For more information, try '--help'."@,
        "Для дополнительной информации используйте '--help'."@,
        0,
    )
}

/// The diagnostics of the parser of arguments with its fixed phrases in Russian.
pub fn render_parse_error(message: &str) -> (result: String)
    ensures
        result@ == localized(message@),
{
    proof {
        reveal_strlit("error:");
        reveal_strlit("Usage:");
        reveal_strlit("unexpected argument");
        reveal_strlit("the following required arguments were not provided:");
        reveal_strlit("invalid value");
        reveal_strlit("unrecognized subcommand");
        reveal_strlit("For more information, try '--help'.");
    }
    let a = text::replace_text(message, "error:", "ошибка:");
    let b = text::replace_text(a.as_str(), "Usage:", "Использование:");
    let c = text::replace_text(b.as_str(), "unexpected argument", "неожиданный аргумент");
    let d = text::replace_text(
        c.as_str(),
        "the following required arguments were not provided:",
        "не указаны обязательные аргументы:",
    );
    let e = text::replace_text(d.as_str(), "invalid value", "некорректное значение");
    let f = text::replace_text(e.as_str(), "unrecognized subcommand", "неизвестная команда");
    text::replace_text(
        f.as_str(),
        "For more information, try '--help'.",
        "Для дополнительной информации используйте '--help'.",
    )
}

pub fn parse_secret(value: &str) -> (result: SecretString)
    ensures
        result@ == value@,
{
    SecretString::new(value)
}

/// A time limit: a positive number of seconds.
pub open spec fn timeout_of(value: Seq<char>) -> Option<nat> {
    match number::unsigned(value, u64::MAX as nat) {
        Some(seconds) if seconds > 0 => Some(seconds),
        _ => None,
    }
}

pub fn parse_timeout(value: &str) -> (result: Result<u64, &'static str>)
    ensures
        match timeout_of(value@) {
            Some(seconds) => result is Ok && result->Ok_0 == seconds,
            None => result is Err && result->Err_0@
                == "ожидается положительное целое число секунд"@,
        },
{
    match number::parse_unsigned(value, u64::MAX) {
        Some(seconds) => if seconds > 0 {
            return Ok(seconds);
        },
        None => {},
    }
    Err("ожидается положительное целое число секунд")
}

/// A limit on rows: a positive number.
pub open spec fn limit_of(value: Seq<char>) -> Option<nat> {
    match number::unsigned(value, usize::MAX as nat) {
        Some(limit) if limit > 0 => Some(limit),
        _ => None,
    }
}

pub fn parse_top(value: &str) -> (result: Result<Top, &'static str>)
    ensures
        match limit_of(value@) {
            Some(limit) => result is Ok && result->Ok_0@ == limit,
            None => result is Err && result->Err_0@ == "ожидается положительное целое число"@,
        },
{
    match number::parse_unsigned(value, usize::MAX as u64) {
        Some(limit) => match Top::new(limit as usize) {
            Ok(top) => Ok(top),
            Err(_) => Err("ожидается положительное целое число"),
        },
        None => Err("ожидается положительное целое число"),
    }
}

} // verus!
