//! Records of the actions that change something.

use vstd::prelude::*;
use vstd::string::*;

use crate::domain::identity;
use crate::domain::identity::Uuid;
use crate::domain::timestamp;
use crate::domain::timestamp::Timestamp;
use crate::infrastructure::rac::locator::clone_text;
use crate::infrastructure::telemetry::redaction;
use crate::infrastructure::telemetry::redaction::SecretRedactor;
use crate::infrastructure::windows::identity::{
    AccountView, IdentityError, IdentityProblem, WindowsIdentity, WindowsIdentityProvider,
};
use crate::infrastructure::windows::paths::{PathProblem, WindowsPathError};
use crate::json;
use crate::json::{
    optional_text_member, text_member, JsonRow, JsonScalar, JsonView, RowView,
};
use crate::outcome;
use crate::text;

verus! {

#[derive(Clone, Copy, Debug, PartialEq, Eq, Structural)]
pub enum AuditResult {
    Success,
    Failure,
    Partial,
    Cancelled,
}

impl AuditResult {
    pub open spec fn text(self) -> Seq<char> {
        match self {
            AuditResult::Success => "success"@,
            AuditResult::Failure => "failure"@,
            AuditResult::Partial => "partial"@,
            AuditResult::Cancelled => "cancelled"@,
        }
    }

    /// The name of a result in a log.
    pub open spec fn name(self) -> Seq<char> {
        match self {
            AuditResult::Success => "Success"@,
            AuditResult::Failure => "Failure"@,
            AuditResult::Partial => "Partial"@,
            AuditResult::Cancelled => "Cancelled"@,
        }
    }

    fn log_name(self) -> (result: &'static str)
        ensures
            result@ == self.name(),
    {
        match self {
            AuditResult::Success => "Success",
            AuditResult::Failure => "Failure",
            AuditResult::Partial => "Partial",
            AuditResult::Cancelled => "Cancelled",
        }
    }

    /// The name under which a result is recorded.
    pub fn as_str(self) -> (result: &'static str)
        ensures
            result@ == self.text(),
    {
        match self {
            AuditResult::Success => "success",
            AuditResult::Failure => "failure",
            AuditResult::Partial => "partial",
            AuditResult::Cancelled => "cancelled",
        }
    }
}

/// What an action was done to.
#[derive(PartialEq, Eq)]
pub struct AuditContext {
    pub cluster_alias: Option<String>,
    pub cluster_uuid: Option<Uuid>,
    pub infobase_name: Option<String>,
    pub infobase_uuid: Option<Uuid>,
    pub session_uuid: Option<Uuid>,
    pub connection_uuid: Option<Uuid>,
    pub numeric_id: Option<u64>,
    pub message: Option<String>,
    pub reason: Option<String>,
}

pub struct ContextView {
    pub cluster_alias: Option<Seq<char>>,
    pub cluster_uuid: Option<u128>,
    pub infobase_name: Option<Seq<char>>,
    pub infobase_uuid: Option<u128>,
    pub session_uuid: Option<u128>,
    pub connection_uuid: Option<u128>,
    pub numeric_id: Option<u64>,
    pub message: Option<Seq<char>>,
    pub reason: Option<Seq<char>>,
}

impl View for AuditContext {
    type V = ContextView;

    open spec fn view(&self) -> ContextView {
        ContextView {
            cluster_alias: outcome::option_view(self.cluster_alias),
            cluster_uuid: outcome::option_view(self.cluster_uuid),
            infobase_name: outcome::option_view(self.infobase_name),
            infobase_uuid: outcome::option_view(self.infobase_uuid),
            session_uuid: outcome::option_view(self.session_uuid),
            connection_uuid: outcome::option_view(self.connection_uuid),
            numeric_id: self.numeric_id,
            message: outcome::option_view(self.message),
            reason: outcome::option_view(self.reason),
        }
    }
}

impl ContextView {
    pub open spec fn nothing() -> ContextView {
        ContextView {
            cluster_alias: None,
            cluster_uuid: None,
            infobase_name: None,
            infobase_uuid: None,
            session_uuid: None,
            connection_uuid: None,
            numeric_id: None,
            message: None,
            reason: None,
        }
    }

    /// What a log may show: free texts are left out.
    pub open spec fn debug_text(self) -> Seq<char> {
        "AuditContext { cluster_alias: "@ + shown_text(self.cluster_alias) + ", cluster_uuid: "@
            + shown_id(self.cluster_uuid) + ", infobase_name: "@ + shown_text(self.infobase_name)
            + ", infobase_uuid: "@ + shown_id(self.infobase_uuid) + ", session_uuid: "@ + shown_id(
            self.session_uuid,
        ) + ", connection_uuid: "@ + shown_id(self.connection_uuid) + ", numeric_id: "@
            + shown_number(self.numeric_id) + ", message: "@ + shown_presence(self.message)
            + ", reason: "@ + shown_presence(self.reason) + " }"@
    }
}

pub open spec fn shown_text(value: Option<Seq<char>>) -> Seq<char> {
    match value {
        Some(value) => "Some("@ + text::shown(value) + ")"@,
        None => "None"@,
    }
}

pub open spec fn shown_id(value: Option<u128>) -> Seq<char> {
    match value {
        Some(value) => "Some("@ + identity::uuid_text(value) + ")"@,
        None => "None"@,
    }
}

pub open spec fn shown_number(value: Option<u64>) -> Seq<char> {
    match value {
        Some(value) => "Some("@ + crate::number::decimal(value as nat) + ")"@,
        None => "None"@,
    }
}

/// Whether there is a text, and nothing of what it says.
pub open spec fn shown_presence(value: Option<Seq<char>>) -> Seq<char> {
    match value {
        Some(_) => "Some(\"[REDACTED]\")"@,
        None => "None"@,
    }
}

fn show_text(value: &Option<String>) -> (result: String)
    ensures
        result@ == shown_text(outcome::option_view(*value)),
{
    match value {
        Some(value) => {
            let mut result = "Some(".to_owned();
            result.push_str(text::show(value.as_str()).as_str());
            result.push_str(")");
            result
        },
        None => "None".to_owned(),
    }
}

fn show_id(value: Option<Uuid>) -> (result: String)
    ensures
        result@ == shown_id(outcome::option_view(value)),
{
    match value {
        Some(value) => {
            let mut result = "Some(".to_owned();
            result.push_str(value.to_text().as_str());
            result.push_str(")");
            result
        },
        None => "None".to_owned(),
    }
}

fn show_number(value: Option<u64>) -> (result: String)
    ensures
        result@ == shown_number(value),
{
    match value {
        Some(value) => {
            let mut result = "Some(".to_owned();
            result.push_str(crate::number::format_u64(value).as_str());
            result.push_str(")");
            result
        },
        None => "None".to_owned(),
    }
}

fn show_presence(value: &Option<String>) -> (result: String)
    ensures
        result@ == shown_presence(outcome::option_view(*value)),
{
    match value {
        Some(_) => "Some(\"[REDACTED]\")".to_owned(),
        None => "None".to_owned(),
    }
}

impl AuditContext {
    /// What a log may show of the context.
    pub fn debug_text(&self) -> (result: String)
        ensures
            result@ == self@.debug_text(),
    {
        let mut result = "AuditContext { cluster_alias: ".to_owned();
        result.push_str(show_text(&self.cluster_alias).as_str());
        result.push_str(", cluster_uuid: ");
        result.push_str(show_id(self.cluster_uuid).as_str());
        result.push_str(", infobase_name: ");
        result.push_str(show_text(&self.infobase_name).as_str());
        result.push_str(", infobase_uuid: ");
        result.push_str(show_id(self.infobase_uuid).as_str());
        result.push_str(", session_uuid: ");
        result.push_str(show_id(self.session_uuid).as_str());
        result.push_str(", connection_uuid: ");
        result.push_str(show_id(self.connection_uuid).as_str());
        result.push_str(", numeric_id: ");
        result.push_str(show_number(self.numeric_id).as_str());
        result.push_str(", message: ");
        result.push_str(show_presence(&self.message).as_str());
        result.push_str(", reason: ");
        result.push_str(show_presence(&self.reason).as_str());
        result.push_str(" }");
        result
    }
}

impl Clone for AuditContext {
    fn clone(&self) -> (result: Self)
        ensures
            result == *self,
    {
        AuditContext {
            cluster_alias: clone_text(&self.cluster_alias),
            cluster_uuid: self.cluster_uuid,
            infobase_name: clone_text(&self.infobase_name),
            infobase_uuid: self.infobase_uuid,
            session_uuid: self.session_uuid,
            connection_uuid: self.connection_uuid,
            numeric_id: self.numeric_id,
            message: clone_text(&self.message),
            reason: clone_text(&self.reason),
        }
    }
}

impl Default for AuditContext {
    fn default() -> (result: Self)
        ensures
            result@ == ContextView::nothing(),
    {
        AuditContext {
            cluster_alias: None,
            cluster_uuid: None,
            infobase_name: None,
            infobase_uuid: None,
            session_uuid: None,
            connection_uuid: None,
            numeric_id: None,
            message: None,
            reason: None,
        }
    }
}

/// One record: who did what to what, when, and with which result.
#[derive(PartialEq, Eq)]
pub struct AuditEvent {
    pub timestamp: Timestamp,
    pub windows_user: String,
    pub action: String,
    pub context: AuditContext,
    pub result: AuditResult,
    pub error_code: Option<String>,
    pub error: Option<String>,
}

pub struct EventView {
    pub timestamp: Timestamp,
    pub windows_user: Seq<char>,
    pub action: Seq<char>,
    pub context: ContextView,
    pub result: AuditResult,
    pub error_code: Option<Seq<char>>,
    pub error: Option<Seq<char>>,
}

impl View for AuditEvent {
    type V = EventView;

    open spec fn view(&self) -> EventView {
        EventView {
            timestamp: self.timestamp,
            windows_user: self.windows_user@,
            action: self.action@,
            context: self.context@,
            result: self.result,
            error_code: outcome::option_view(self.error_code),
            error: outcome::option_view(self.error),
        }
    }
}

impl EventView {
    pub open spec fn bare(
        timestamp: Timestamp,
        windows_user: Seq<char>,
        action: Seq<char>,
        result: AuditResult,
    ) -> EventView {
        EventView {
            timestamp,
            windows_user,
            action,
            context: ContextView::nothing(),
            result,
            error_code: None,
            error: None,
        }
    }

    /// A record under the name of an account that may not have been found.
    pub open spec fn by_account(
        timestamp: Timestamp,
        account: Result<AccountView, IdentityProblem>,
        action: Seq<char>,
        result: AuditResult,
    ) -> Result<EventView, IdentityProblem> {
        match account {
            Ok(account) => Ok(EventView::bare(timestamp, account.account_name, action, result)),
            Err(problem) => Err(problem),
        }
    }

    pub open spec fn with_context(self, context: ContextView) -> EventView {
        EventView { context, ..self }
    }

    pub open spec fn with_error(self, code: Seq<char>, error: Seq<char>) -> EventView {
        EventView { error_code: Some(code), error: Some(error), ..self }
    }

    /// What a log may show of the record: free texts are left out.
    pub open spec fn debug_text(self) -> Seq<char> {
        "AuditEvent { timestamp: "@ + self.timestamp.text(true) + ", windows_user: "@ + text::shown(
            self.windows_user,
        ) + ", action: "@ + text::shown(self.action) + ", context: "@ + self.context.debug_text()
            + ", result: "@ + self.result.name() + ", error_code: "@ + shown_text(self.error_code)
            + ", error: "@ + shown_presence(self.error) + " }"@
    }
}

impl AuditEvent {
    /// A record of an action at a moment under the name of an account, or why there is no account.
    pub fn by_account(
        timestamp: Timestamp,
        account: Result<WindowsIdentity, IdentityError>,
        action: &str,
        result: AuditResult,
    ) -> (event: Result<Self, IdentityError>)
        ensures
            outcome::result_view(event) == EventView::by_account(
                timestamp,
                outcome::result_view(account),
                action@,
                result,
            ),
    {
        match account {
            Ok(account) => Ok(
                AuditEvent::new(timestamp, account.to_string_lossy().as_str(), action, result),
            ),
            Err(error) => Err(error),
        }
    }

    /// A record of an action at a moment under the name of the account that the process runs as.
    pub fn for_current_user<P: WindowsIdentityProvider>(
        timestamp: Timestamp,
        identity_provider: &P,
        action: &str,
        result: AuditResult,
    ) -> (event: Result<Self, IdentityError>)
        ensures
            exists|account: Result<WindowsIdentity, IdentityError>|
                #[trigger] call_ensures(P::current_identity, (identity_provider,), account)
                    && outcome::result_view(event) == EventView::by_account(
                    timestamp,
                    outcome::result_view(account),
                    action@,
                    result,
                ),
    {
        let account = identity_provider.current_identity();
        AuditEvent::by_account(timestamp, account, action, result)
    }

    /// A record of an action at a moment.
    pub fn new(timestamp: Timestamp, windows_user: &str, action: &str, result: AuditResult) -> (event:
        Self)
        ensures
            event@ == EventView::bare(timestamp, windows_user@, action@, result),
    {
        AuditEvent {
            timestamp,
            windows_user: windows_user.to_owned(),
            action: action.to_owned(),
            context: AuditContext::default(),
            result,
            error_code: None,
            error: None,
        }
    }

    pub fn with_context(self, context: AuditContext) -> (event: Self)
        ensures
            event@ == self@.with_context(context@),
    {
        let mut event = self;
        event.context = context;
        event
    }

    pub fn with_error(self, code: &str, error: &str) -> (event: Self)
        ensures
            event@ == self@.with_error(code@, error@),
    {
        let mut event = self;
        event.error_code = Some(code.to_owned());
        event.error = Some(error.to_owned());
        event
    }

    /// What a log may show of the record.
    pub fn debug_text(&self) -> (result: String)
        ensures
            result@ == self@.debug_text(),
    {
        let mut result = "AuditEvent { timestamp: ".to_owned();
        result.push_str(self.timestamp.to_text(true).as_str());
        result.push_str(", windows_user: ");
        result.push_str(text::show(self.windows_user.as_str()).as_str());
        result.push_str(", action: ");
        result.push_str(text::show(self.action.as_str()).as_str());
        result.push_str(", context: ");
        result.push_str(self.context.debug_text().as_str());
        result.push_str(", result: ");
        result.push_str(self.result.log_name());
        result.push_str(", error_code: ");
        result.push_str(show_text(&self.error_code).as_str());
        result.push_str(", error: ");
        result.push_str(show_presence(&self.error).as_str());
        result.push_str(" }");
        result
    }
}

pub open spec fn redacted_option(secrets: Seq<Seq<char>>, value: Option<Seq<char>>) -> Option<
    Seq<char>,
> {
    match value {
        Some(value) => Some(redaction::redacted(secrets, value)),
        None => None,
    }
}

/// A record as it is written: every text redacted, everything else as it is.
pub open spec fn sanitized(secrets: Seq<Seq<char>>, event: EventView) -> EventView {
    EventView {
        timestamp: event.timestamp,
        windows_user: redaction::redacted(secrets, event.windows_user),
        action: redaction::redacted(secrets, event.action),
        context: ContextView {
            cluster_alias: redacted_option(secrets, event.context.cluster_alias),
            infobase_name: redacted_option(secrets, event.context.infobase_name),
            message: redacted_option(secrets, event.context.message),
            reason: redacted_option(secrets, event.context.reason),
            ..event.context
        },
        result: event.result,
        error_code: redacted_option(secrets, event.error_code),
        error: redacted_option(secrets, event.error),
    }
}

fn redact_option(redactor: &SecretRedactor, value: &Option<String>) -> (result: Option<String>)
    ensures
        outcome::option_view(result) == redacted_option(
            redactor@,
            outcome::option_view(*value),
        ),
{
    match value {
        Some(value) => Some(redactor.redact(value.as_str())),
        None => None,
    }
}

/// A record as it is written.
pub fn sanitize_event(event: &AuditEvent, redactor: &SecretRedactor) -> (result: AuditEvent)
    ensures
        result@ == sanitized(redactor@, event@),
{
    let context = AuditContext {
        cluster_alias: redact_option(redactor, &event.context.cluster_alias),
        cluster_uuid: event.context.cluster_uuid,
        infobase_name: redact_option(redactor, &event.context.infobase_name),
        infobase_uuid: event.context.infobase_uuid,
        session_uuid: event.context.session_uuid,
        connection_uuid: event.context.connection_uuid,
        numeric_id: event.context.numeric_id,
        message: redact_option(redactor, &event.context.message),
        reason: redact_option(redactor, &event.context.reason),
    };
    AuditEvent {
        timestamp: event.timestamp,
        windows_user: redactor.redact(event.windows_user.as_str()),
        action: redactor.redact(event.action.as_str()),
        context,
        result: event.result,
        error_code: redact_option(redactor, &event.error_code),
        error: redact_option(redactor, &event.error),
    }
}

/// What a log shows of a record says nothing of its free texts but whether there are any.
pub proof fn law_free_texts_are_not_shown(
    event: EventView,
    message: Seq<char>,
    reason: Seq<char>,
    error: Seq<char>,
)
    requires
        event.context.message is Some,
        event.context.reason is Some,
        event.error is Some,
    ensures
        event.debug_text() == (EventView {
            context: ContextView {
                message: Some(message),
                reason: Some(reason),
                ..event.context
            },
            error: Some(error),
            ..event
        }).debug_text(),
{
}

/// An identity that may be missing, in a document.
pub open spec fn optional_id(value: Option<u128>) -> JsonView {
    match value {
        Some(value) => JsonView::Text(identity::uuid_text(value)),
        None => JsonView::Null,
    }
}

/// A number that may be missing, in a document.
pub open spec fn optional_count(value: Option<u64>) -> JsonView {
    match value {
        Some(value) => JsonView::Int(value as int),
        None => JsonView::Null,
    }
}

/// A record as an object.
pub open spec fn event_row(event: EventView) -> RowView {
    seq![
        ("timestamp"@, JsonView::Text(event.timestamp.text(true))),
        ("windows_user"@, JsonView::Text(event.windows_user)),
        ("action"@, JsonView::Text(event.action)),
        ("cluster_alias"@, json::optional_text(event.context.cluster_alias)),
        ("cluster_uuid"@, optional_id(event.context.cluster_uuid)),
        ("infobase_name"@, json::optional_text(event.context.infobase_name)),
        ("infobase_uuid"@, optional_id(event.context.infobase_uuid)),
        ("session_uuid"@, optional_id(event.context.session_uuid)),
        ("connection_uuid"@, optional_id(event.context.connection_uuid)),
        ("numeric_id"@, optional_count(event.context.numeric_id)),
        ("message"@, json::optional_text(event.context.message)),
        ("reason"@, json::optional_text(event.context.reason)),
        ("result"@, JsonView::Text(event.result.text())),
        ("error_code"@, json::optional_text(event.error_code)),
        ("error"@, json::optional_text(event.error)),
    ]
}

fn id_member(name: &str, value: Option<Uuid>) -> (result: (String, JsonScalar))
    ensures
        result.0@ == name@,
        result.1@ == optional_id(outcome::option_view(value)),
{
    let shown = match value {
        Some(value) => JsonScalar::Text(Some(value.to_text())),
        None => JsonScalar::Text(None),
    };
    (name.to_owned(), shown)
}

fn count_member(name: &str, value: Option<u64>) -> (result: (String, JsonScalar))
    ensures
        result.0@ == name@,
        result.1@ == optional_count(value),
{
    let shown = match value {
        Some(value) => JsonScalar::Count(value),
        None => JsonScalar::Text(None),
    };
    (name.to_owned(), shown)
}

fn event_members(event: &AuditEvent) -> (result: JsonRow)
    ensures
        json::row_view(result@) == event_row(event@),
{
    let context = &event.context;
    let mut row: JsonRow = Vec::new();
    row.push(text_member("timestamp", event.timestamp.to_text(true).as_str()));
    row.push(text_member("windows_user", event.windows_user.as_str()));
    row.push(text_member("action", event.action.as_str()));
    row.push(optional_text_member("cluster_alias", &context.cluster_alias));
    row.push(id_member("cluster_uuid", context.cluster_uuid));
    row.push(optional_text_member("infobase_name", &context.infobase_name));
    row.push(id_member("infobase_uuid", context.infobase_uuid));
    row.push(id_member("session_uuid", context.session_uuid));
    row.push(id_member("connection_uuid", context.connection_uuid));
    row.push(count_member("numeric_id", context.numeric_id));
    row.push(optional_text_member("message", &context.message));
    row.push(optional_text_member("reason", &context.reason));
    row.push(text_member("result", event.result.as_str()));
    row.push(optional_text_member("error_code", &event.error_code));
    row.push(optional_text_member("error", &event.error));
    assert(json::row_view(row@) =~= event_row(event@));
    row
}

/// A record as it is appended to the journal: its object without secrets, and a line feed.
pub open spec fn journal_line(secrets: Seq<Seq<char>>, event: EventView) -> Result<
    Seq<u8>,
    Seq<char>,
> {
    match json::json_line_of(event_row(sanitized(secrets, event))) {
        Ok(bytes) => Ok(bytes.push(0x0a)),
        Err(reason) => Err(reason),
    }
}

/// Writes a record for the journal, on a line of its own.
pub fn audit_line(event: &AuditEvent, redactor: &SecretRedactor) -> (result: Result<Vec<u8>, String>)
    ensures
        outcome::result_view(result) == journal_line(redactor@, event@),
        result matches Ok(line) ==> {
            &&& line@.len() > 0
            &&& forall|i: int|
                0 <= i < line@.len() ==> (#[trigger] line@[i] == 0x0a <==> i == line@.len() - 1)
        },
{
    match json::write_json_line(event_members(&sanitize_event(event, redactor))) {
        Ok(line) => {
            let mut line = line;
            line.push(0x0a);
            Ok(line)
        },
        Err(reason) => Err(reason),
    }
}


/// Why a record is not in the journal.
#[derive(Debug, PartialEq, Eq)]
pub enum AuditWriteError {
    WindowsPath { error: WindowsPathError },
    InvalidPath { path: String },
    Serialize { reason: String },
    Io { operation: &'static str, path: String, source: String },
}

pub enum AuditProblem {
    WindowsPath { error: PathProblem },
    InvalidPath { path: Seq<char> },
    Serialize { reason: Seq<char> },
    Io { operation: Seq<char>, path: Seq<char>, source: Seq<char> },
}

impl View for AuditWriteError {
    type V = AuditProblem;

    open spec fn view(&self) -> AuditProblem {
        match self {
            AuditWriteError::WindowsPath { error } => AuditProblem::WindowsPath { error: error@ },
            AuditWriteError::InvalidPath { path } => AuditProblem::InvalidPath { path: path@ },
            AuditWriteError::Serialize { reason } => AuditProblem::Serialize { reason: reason@ },
            AuditWriteError::Io { operation, path, source } => AuditProblem::Io {
                operation: operation@,
                path: path@,
                source: source@,
            },
        }
    }
}

impl AuditProblem {
    pub open spec fn message(self) -> Seq<char> {
        match self {
            AuditProblem::WindowsPath { error } => "не удалось определить путь аудита: "@
                + error.message(),
            AuditProblem::InvalidPath { path } => "путь файла аудита не содержит каталога: "@
                + text::shown(path),
            AuditProblem::Serialize { reason } => "не удалось сериализовать событие аудита: "@
                + reason,
            AuditProblem::Io { operation, path, source } => "не удалось "@ + operation
                + " файл аудита "@ + text::shown(path) + ": "@ + source,
        }
    }
}

impl AuditWriteError {
    /// The text shown to the operator.
    pub fn message(&self) -> (result: String)
        ensures
            result@ == self@.message(),
    {
        match self {
            AuditWriteError::WindowsPath { error } => {
                let mut result = "не удалось определить путь аудита: ".to_owned();
                result.push_str(error.message().as_str());
                result
            },
            AuditWriteError::InvalidPath { path } => {
                let mut result = "путь файла аудита не содержит каталога: ".to_owned();
                result.push_str(text::show(path.as_str()).as_str());
                result
            },
            AuditWriteError::Serialize { reason } => {
                let mut result = "не удалось сериализовать событие аудита: ".to_owned();
                result.push_str(reason.as_str());
                result
            },
            AuditWriteError::Io { operation, path, source } => {
                let mut result = "не удалось ".to_owned();
                result.push_str(operation);
                result.push_str(" файл аудита ");
                result.push_str(text::show(path.as_str()).as_str());
                result.push_str(": ");
                result.push_str(source.as_str());
                result
            },
        }
    }
}

} // verus!
