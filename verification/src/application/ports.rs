//! What the services see of the world behind them.

use vstd::prelude::*;
use vstd::string::*;

use crate::infrastructure::config::error::{ConfigError, ConfigProblem};
use crate::infrastructure::config::model::{Config, ConfigView};
use crate::infrastructure::config::store::ConfigSnapshot;

verus! {

#[derive(Clone, Copy, Debug, PartialEq, Eq, Structural)]
pub enum PortErrorKind {
    Configuration,
    Conflict,
    NotFound,
    Internal,
}

impl PortErrorKind {
    pub open spec fn text(self) -> Seq<char> {
        match self {
            PortErrorKind::Configuration => "configuration_error"@,
            PortErrorKind::Conflict => "conflict"@,
            PortErrorKind::NotFound => "not_found"@,
            PortErrorKind::Internal => "internal_port_error"@,
        }
    }

    pub fn code(self) -> (result: &'static str)
        ensures
            result@ == self.text(),
    {
        match self {
            PortErrorKind::Configuration => "configuration_error",
            PortErrorKind::Conflict => "conflict",
            PortErrorKind::NotFound => "not_found",
            PortErrorKind::Internal => "internal_port_error",
        }
    }
}

#[derive(Debug, PartialEq, Eq)]
pub struct PortError {
    pub kind: PortErrorKind,
    pub code: &'static str,
    pub message: String,
}

pub struct PortProblem {
    pub kind: PortErrorKind,
    pub code: Seq<char>,
    pub message: Seq<char>,
}

impl View for PortError {
    type V = PortProblem;

    open spec fn view(&self) -> PortProblem {
        PortProblem { kind: self.kind, code: self.code@, message: self.message@ }
    }
}

impl PortError {
    pub fn new(kind: PortErrorKind, code: &'static str, message: &str) -> (result: Self)
        ensures
            result@ == (PortProblem { kind, code: code@, message: message@ }),
    {
        PortError { kind, code, message: message.to_owned() }
    }

    /// The code and the text in one line.
    pub fn to_text(&self) -> (result: String)
        ensures
            result@ == self@.code + ": "@ + self@.message,
    {
        let mut result = self.code.to_owned();
        result.push_str(": ");
        result.push_str(self.message.as_str());
        result
    }
}

/// A configuration and the file that it was read from.
pub struct RawConfigSnapshot {
    pub path: String,
    pub config: Config,
}

pub struct RawSnapshotView {
    pub path: Seq<char>,
    pub config: ConfigView,
}

impl View for RawConfigSnapshot {
    type V = RawSnapshotView;

    open spec fn view(&self) -> RawSnapshotView {
        RawSnapshotView { path: self.path@, config: self.config@ }
    }
}

pub fn snapshot_from_config(snapshot: ConfigSnapshot) -> (result: RawConfigSnapshot)
    ensures
        result@ == (RawSnapshotView { path: snapshot@.path, config: snapshot@.config }),
{
    RawConfigSnapshot { path: snapshot.path().to_owned(), config: snapshot.into_config() }
}

/// A task that did not come to an end.
pub fn join_error(reason: &str) -> (result: PortError)
    ensures
        result@ == (PortProblem {
            kind: PortErrorKind::Internal,
            code: "blocking_task_failed"@,
            message: "Внутренняя задача ввода-вывода завершилась ошибкой: "@ + reason@,
        }),
{
    let mut message = "Внутренняя задача ввода-вывода завершилась ошибкой: ".to_owned();
    message.push_str(reason);
    PortError { kind: PortErrorKind::Internal, code: "blocking_task_failed", message }
}

/// How the services see a problem with the configuration: its kind, its code, and the text before
/// the text of the problem.
pub open spec fn port_class(problem: ConfigProblem) -> (PortErrorKind, Seq<char>, Seq<char>) {
    match problem {
        ConfigProblem::ClusterAlreadyExists { .. } => (
            PortErrorKind::Conflict,
            "cluster_already_exists"@,
            "Подключение с таким alias уже существует"@,
        ),
        ConfigProblem::ClusterNotFound { .. } => (
            PortErrorKind::NotFound,
            "cluster_not_found"@,
            "Подключение к кластеру не найдено"@,
        ),
        ConfigProblem::OverrideNotFound { .. } => (
            PortErrorKind::NotFound,
            "credential_override_not_found"@,
            "Переопределение учетных данных не найдено"@,
        ),
        ConfigProblem::NotFound { .. } => (
            PortErrorKind::Configuration,
            "config_not_found"@,
            "Файл конфигурации не найден"@,
        ),
        ConfigProblem::Validation { .. } | ConfigProblem::Yaml { .. } => (
            PortErrorKind::Configuration,
            "invalid_config"@,
            "Файл конфигурации не прошел проверку"@,
        ),
        _ => (
            PortErrorKind::Configuration,
            "config_io_failed"@,
            "Не удалось прочитать или атомарно изменить конфигурацию"@,
        ),
    }
}

pub open spec fn port_problem(problem: ConfigProblem) -> PortProblem {
    let (kind, code, prefix) = port_class(problem);
    PortProblem { kind, code, message: prefix + ": "@ + problem.message() }
}

/// How the services see a problem with the configuration.
pub fn config_error(error: &ConfigError) -> (result: PortError)
    ensures
        result@ == port_problem(error@),
{
    let (kind, code, prefix) = match error {
        ConfigError::ClusterAlreadyExists { .. } => (
            PortErrorKind::Conflict,
            "cluster_already_exists",
            "Подключение с таким alias уже существует",
        ),
        ConfigError::ClusterNotFound { .. } => (
            PortErrorKind::NotFound,
            "cluster_not_found",
            "Подключение к кластеру не найдено",
        ),
        ConfigError::OverrideNotFound { .. } => (
            PortErrorKind::NotFound,
            "credential_override_not_found",
            "Переопределение учетных данных не найдено",
        ),
        ConfigError::NotFound { .. } => (
            PortErrorKind::Configuration,
            "config_not_found",
            "Файл конфигурации не найден",
        ),
        ConfigError::Validation { .. } | ConfigError::Yaml { .. } => (
            PortErrorKind::Configuration,
            "invalid_config",
            "Файл конфигурации не прошел проверку",
        ),
        _ => (
            PortErrorKind::Configuration,
            "config_io_failed",
            "Не удалось прочитать или атомарно изменить конфигурацию",
        ),
    };
    let mut message = prefix.to_owned();
    message.push_str(": ");
    message.push_str(error.message().as_str());
    PortError { kind, code, message }
}

} // verus!
