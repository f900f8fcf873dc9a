//! What the operator is told when something fails, and the exit code of the process.

use vstd::prelude::*;
use vstd::string::*;

use crate::domain::error::{DomainError, DomainErrorView};
use crate::domain::outcome::{QueryOutcome, TargetError, TargetErrorKind, TargetProblem};
use crate::domain::value::{ClusterAlias, RasEndpoint};
use crate::infrastructure::rac::error::{RacError, RacErrorKind, RacErrorView};
use crate::outcome;
use crate::text;

verus! {

/// The exit codes of the process.
#[derive(Clone, Copy, Debug, PartialEq, Eq, Structural)]
pub enum AppExitCode {
    Success,
    Internal,
    InvalidInput,
    RacNotFound,
    AllTargetsFailed,
    PartialSuccess,
    Cancelled,
    NoObjects,
    Interrupted,
}

impl AppExitCode {
    pub open spec fn number(self) -> u8 {
        match self {
            AppExitCode::Success => 0,
            AppExitCode::Internal => 1,
            AppExitCode::InvalidInput => 2,
            AppExitCode::RacNotFound => 3,
            AppExitCode::AllTargetsFailed => 4,
            AppExitCode::PartialSuccess => 5,
            AppExitCode::Cancelled => 6,
            AppExitCode::NoObjects => 7,
            AppExitCode::Interrupted => 130,
        }
    }

    pub fn value(self) -> (result: u8)
        ensures
            result == self.number(),
    {
        match self {
            AppExitCode::Success => 0,
            AppExitCode::Internal => 1,
            AppExitCode::InvalidInput => 2,
            AppExitCode::RacNotFound => 3,
            AppExitCode::AllTargetsFailed => 4,
            AppExitCode::PartialSuccess => 5,
            AppExitCode::Cancelled => 6,
            AppExitCode::NoObjects => 7,
            AppExitCode::Interrupted => 130,
        }
    }
}

/// Different outcomes have different exit codes.
pub proof fn law_exit_codes_differ(left: AppExitCode, right: AppExitCode)
    ensures
        left.number() == right.number() <==> left == right,
{
}

/// What decides the exit code of the process.
pub trait ExitCodePolicy {
    spec fn exit_code_of(&self) -> AppExitCode;

    fn app_exit_code(&self) -> (result: AppExitCode)
        ensures
            result == self.exit_code_of(),
    ;
}

#[derive(Clone, Copy, Debug, PartialEq, Eq, Structural)]
pub enum AppErrorCategory {
    Internal,
    InvalidInput,
    RacNotFound,
    AllTargetsFailed,
    Cancelled,
    NoObjects,
    Interrupted,
}

impl AppErrorCategory {
    pub open spec fn code_of(self) -> AppExitCode {
        match self {
            AppErrorCategory::Internal => AppExitCode::Internal,
            AppErrorCategory::InvalidInput => AppExitCode::InvalidInput,
            AppErrorCategory::RacNotFound => AppExitCode::RacNotFound,
            AppErrorCategory::AllTargetsFailed => AppExitCode::AllTargetsFailed,
            AppErrorCategory::Cancelled => AppExitCode::Cancelled,
            AppErrorCategory::NoObjects => AppExitCode::NoObjects,
            AppErrorCategory::Interrupted => AppExitCode::Interrupted,
        }
    }

    pub fn exit_code(self) -> (result: AppExitCode)
        ensures
            result == self.code_of(),
    {
        match self {
            AppErrorCategory::Internal => AppExitCode::Internal,
            AppErrorCategory::InvalidInput => AppExitCode::InvalidInput,
            AppErrorCategory::RacNotFound => AppExitCode::RacNotFound,
            AppErrorCategory::AllTargetsFailed => AppExitCode::AllTargetsFailed,
            AppErrorCategory::Cancelled => AppExitCode::Cancelled,
            AppErrorCategory::NoObjects => AppExitCode::NoObjects,
            AppErrorCategory::Interrupted => AppExitCode::Interrupted,
        }
    }
}

/// What the operator is told: a stable code, a text, and the targets that failed. Where the failure
/// could not be recorded either, the reason is kept.
#[derive(Debug, PartialEq, Eq)]
pub struct AppError {
    category: AppErrorCategory,
    code: &'static str,
    message: String,
    target_errors: Vec<TargetError>,
    audit_error: Option<String>,
}

pub struct AppProblem {
    pub category: AppErrorCategory,
    pub code: Seq<char>,
    pub message: Seq<char>,
    pub target_errors: Seq<TargetProblem>,
    pub audit_error: Option<Seq<char>>,
}

impl View for AppError {
    type V = AppProblem;

    closed spec fn view(&self) -> AppProblem {
        AppProblem {
            category: self.category,
            code: self.code@,
            message: self.message@,
            target_errors: TargetProblem::all(self.target_errors@),
            audit_error: outcome::option_view(self.audit_error),
        }
    }
}

/// Whether there are targets and all of them failed in one way.
pub open spec fn all_of_kind(errors: Seq<TargetProblem>, kind: TargetErrorKind) -> bool {
    errors.len() > 0 && forall|i: int| 0 <= i < errors.len() ==> (#[trigger] errors[i]).kind == kind
}

/// The text for an action that found nothing to act on.
pub open spec fn nothing_found(entity: Seq<char>) -> Seq<char> {
    if entity == "session"@ {
        "Не найдено сеансов для завершения"@
    } else if entity == "connection"@ {
        "Не найдено соединений для разрыва"@
    } else if entity == "cluster"@ {
        "Не найдено подключений к кластеру для удаления"@
    } else {
        "Разрушающая операция не нашла объектов"@
    }
}

impl AppProblem {
    pub open spec fn plain(
        category: AppErrorCategory,
        code: Seq<char>,
        message: Seq<char>,
    ) -> AppProblem {
        AppProblem { category, code, message, target_errors: Seq::empty(), audit_error: None }
    }

    pub open spec fn invalid(code: Seq<char>, message: Seq<char>) -> AppProblem {
        AppProblem::plain(AppErrorCategory::InvalidInput, code, message)
    }

    pub open spec fn internal(code: Seq<char>, message: Seq<char>) -> AppProblem {
        AppProblem::plain(AppErrorCategory::Internal, code, message)
    }

    pub open spec fn of_domain(error: DomainErrorView) -> AppProblem {
        AppProblem::invalid(error.code(), error.message())
    }

    /// A command that failed, where the command is all there was to do.
    pub open spec fn of_rac(error: RacErrorView) -> AppProblem {
        match error.kind {
            RacErrorKind::NotFound | RacErrorKind::UnsupportedVersion => AppProblem::plain(
                AppErrorCategory::RacNotFound,
                "rac_not_found"@,
                error.text(),
            ),
            RacErrorKind::Cancelled => AppProblem::plain(
                AppErrorCategory::Cancelled,
                "cancelled"@,
                error.text(),
            ),
            kind => AppProblem::plain(
                AppErrorCategory::AllTargetsFailed,
                kind.text(),
                error.text(),
            ),
        }
    }

    pub open spec fn cancelled() -> AppProblem {
        AppProblem::plain(AppErrorCategory::Cancelled, "cancelled"@, "Операция отменена"@)
    }

    pub open spec fn no_objects(entity: Seq<char>) -> AppProblem {
        AppProblem::plain(AppErrorCategory::NoObjects, "no_objects"@, nothing_found(entity))
    }

    pub open spec fn confirmation_required() -> AppProblem {
        AppProblem::plain(
            AppErrorCategory::Cancelled,
            "confirmation_required"@,
            "Для разрушающей операции требуется подтверждение или признак force"@,
        )
    }

    pub open spec fn interrupted() -> AppProblem {
        AppProblem::plain(
            AppErrorCategory::Interrupted,
            "interrupted"@,
            "Операция прервана пользователем"@,
        )
    }

    pub open spec fn with_targets(self, target_errors: Seq<TargetProblem>) -> AppProblem {
        AppProblem { target_errors, ..self }
    }

    pub open spec fn with_audit(self, reason: Seq<char>) -> AppProblem {
        AppProblem { audit_error: Some(reason), ..self }
    }

    /// Every target failed: all in the same way, or not.
    pub open spec fn all_failed(errors: Seq<TargetProblem>) -> AppProblem {
        (if all_of_kind(errors, TargetErrorKind::Cancelled) {
            AppProblem::cancelled()
        } else if all_of_kind(errors, TargetErrorKind::RacNotFound) {
            AppProblem::plain(
                AppErrorCategory::RacNotFound,
                "rac_not_found"@,
                "Не найден совместимый исполняемый файл rac.exe ни для одной цели"@,
            )
        } else {
            AppProblem::plain(
                AppErrorCategory::AllTargetsFailed,
                "all_targets_failed"@,
                "Операция завершилась ошибкой для всех выбранных кластеров"@,
            )
        }).with_targets(errors)
    }

    pub open spec fn text(self) -> Seq<char> {
        self.code + ": "@ + self.message
    }
}

fn all_have_kind(errors: &Vec<TargetError>, kind: TargetErrorKind) -> (result: bool)
    ensures
        result == all_of_kind(TargetProblem::all(errors@), kind),
{
    let ghost problems = TargetProblem::all(errors@);
    if errors.len() == 0 {
        return false;
    }
    let mut i: usize = 0;
    while i < errors.len()
        invariant
            0 <= i <= errors.len(),
            errors.len() > 0,
            problems == TargetProblem::all(errors@),
            forall|j: int| 0 <= j < i ==> (#[trigger] problems[j]).kind == kind,
        decreases errors.len() - i,
    {
        if errors[i].kind != kind {
            assert(problems[i as int].kind != kind);
            return false;
        }
        i = i + 1;
    }
    true
}

impl AppError {
    pub fn new(category: AppErrorCategory, code: &'static str, message: &str) -> (result: Self)
        ensures
            result@ == AppProblem::plain(category, code@, message@),
    {
        let result = AppError {
            category,
            code,
            message: message.to_owned(),
            target_errors: Vec::new(),
            audit_error: None,
        };
        assert(result@.target_errors =~= Seq::empty());
        result
    }

    pub fn from_domain(error: &DomainError) -> (result: Self)
        ensures
            result@ == AppProblem::of_domain(error@),
    {
        AppError::new(AppErrorCategory::InvalidInput, error.code(), error.message().as_str())
    }

    pub fn invalid(code: &'static str, message: &str) -> (result: Self)
        ensures
            result@ == AppProblem::invalid(code@, message@),
    {
        AppError::new(AppErrorCategory::InvalidInput, code, message)
    }

    pub fn config(code: &'static str, message: &str) -> (result: Self)
        ensures
            result@ == AppProblem::invalid(code@, message@),
    {
        AppError::new(AppErrorCategory::InvalidInput, code, message)
    }

    pub fn internal(code: &'static str, message: &str) -> (result: Self)
        ensures
            result@ == AppProblem::internal(code@, message@),
    {
        AppError::new(AppErrorCategory::Internal, code, message)
    }

    pub fn target_operation(error: &RacError) -> (result: Self)
        ensures
            result@ == AppProblem::of_rac(error@),
    {
        let message = error.to_text();
        match error.kind() {
            RacErrorKind::NotFound | RacErrorKind::UnsupportedVersion => AppError::new(
                AppErrorCategory::RacNotFound,
                "rac_not_found",
                message.as_str(),
            ),
            RacErrorKind::Cancelled => AppError::new(
                AppErrorCategory::Cancelled,
                "cancelled",
                message.as_str(),
            ),
            _ => AppError::new(AppErrorCategory::AllTargetsFailed, error.code(), message.as_str()),
        }
    }

    pub fn all_targets_failed(target_errors: Vec<TargetError>) -> (result: Self)
        ensures
            result@ == AppProblem::all_failed(TargetProblem::all(target_errors@)),
    {
        let error = if all_have_kind(&target_errors, TargetErrorKind::Cancelled) {
            AppError::cancelled()
        } else if all_have_kind(&target_errors, TargetErrorKind::RacNotFound) {
            AppError::new(
                AppErrorCategory::RacNotFound,
                "rac_not_found",
                "Не найден совместимый исполняемый файл rac.exe ни для одной цели",
            )
        } else {
            AppError::new(
                AppErrorCategory::AllTargetsFailed,
                "all_targets_failed",
                "Операция завершилась ошибкой для всех выбранных кластеров",
            )
        };
        error.with_target_errors(target_errors)
    }

    pub fn cancelled() -> (result: Self)
        ensures
            result@ == AppProblem::cancelled(),
    {
        AppError::new(AppErrorCategory::Cancelled, "cancelled", "Операция отменена")
    }

    pub fn confirmation_required() -> (result: Self)
        ensures
            result@ == AppProblem::confirmation_required(),
    {
        AppError::new(
            AppErrorCategory::Cancelled,
            "confirmation_required",
            "Для разрушающей операции требуется подтверждение или признак force",
        )
    }

    pub fn no_objects(entity: &str) -> (result: Self)
        ensures
            result@ == AppProblem::no_objects(entity@),
    {
        let message = if text::same(entity, "session") {
            "Не найдено сеансов для завершения"
        } else if text::same(entity, "connection") {
            "Не найдено соединений для разрыва"
        } else if text::same(entity, "cluster") {
            "Не найдено подключений к кластеру для удаления"
        } else {
            "Разрушающая операция не нашла объектов"
        };
        AppError::new(AppErrorCategory::NoObjects, "no_objects", message)
    }

    pub fn interrupted() -> (result: Self)
        ensures
            result@ == AppProblem::interrupted(),
    {
        AppError::new(
            AppErrorCategory::Interrupted,
            "interrupted",
            "Операция прервана пользователем",
        )
    }

    pub fn with_target_errors(self, target_errors: Vec<TargetError>) -> (result: Self)
        ensures
            result@ == self@.with_targets(TargetProblem::all(target_errors@)),
    {
        let mut result = self;
        result.target_errors = target_errors;
        result
    }

    /// The same error, which could not be recorded for a reason.
    pub fn with_audit_error(self, reason: &str) -> (result: Self)
        ensures
            result@ == self@.with_audit(reason@),
    {
        let mut result = self;
        result.audit_error = Some(reason.to_owned());
        result
    }

    pub fn category(&self) -> (result: AppErrorCategory)
        ensures
            result == self@.category,
    {
        self.category
    }

    pub fn app_exit_code(&self) -> (result: AppExitCode)
        ensures
            result == self@.category.code_of(),
    {
        self.category.exit_code()
    }

    pub fn code(&self) -> (result: &'static str)
        ensures
            result@ == self@.code,
    {
        self.code
    }

    pub fn message(&self) -> (result: &str)
        ensures
            result@ == self@.message,
    {
        self.message.as_str()
    }

    pub fn target_errors(&self) -> (result: &Vec<TargetError>)
        ensures
            TargetProblem::all(result@) == self@.target_errors,
    {
        &self.target_errors
    }

    pub fn audit_error(&self) -> (result: Option<&str>)
        ensures
            outcome::option_view(result) == self@.audit_error,
    {
        match &self.audit_error {
            Some(reason) => Some(reason.as_str()),
            None => None,
        }
    }

    /// The code and the text in one line.
    pub fn to_text(&self) -> (result: String)
        ensures
            result@ == self@.text(),
    {
        let mut result = self.code.to_owned();
        result.push_str(": ");
        result.push_str(self.message.as_str());
        result
    }
}

impl ExitCodePolicy for AppError {
    open spec fn exit_code_of(&self) -> AppExitCode {
        self@.category.code_of()
    }

    fn app_exit_code(&self) -> (result: AppExitCode) {
        self.category.exit_code()
    }
}

impl<T: ExitCodePolicy> ExitCodePolicy for Result<T, AppError> {
    open spec fn exit_code_of(&self) -> AppExitCode {
        match self {
            Ok(outcome) => outcome.exit_code_of(),
            Err(error) => error@.category.code_of(),
        }
    }

    fn app_exit_code(&self) -> (result: AppExitCode) {
        match self {
            Ok(outcome) => outcome.app_exit_code(),
            Err(error) => error.category.exit_code(),
        }
    }
}

impl<T> ExitCodePolicy for QueryOutcome<T> {
    open spec fn exit_code_of(&self) -> AppExitCode {
        if self.meta.partial {
            AppExitCode::PartialSuccess
        } else if self.errors@.len() > 0 && self.data@.len() == 0 {
            AppExitCode::AllTargetsFailed
        } else {
            AppExitCode::Success
        }
    }

    fn app_exit_code(&self) -> (result: AppExitCode) {
        if self.meta.partial {
            AppExitCode::PartialSuccess
        } else if self.is_all_failed() {
            AppExitCode::AllTargetsFailed
        } else {
            AppExitCode::Success
        }
    }
}

/// How a failed command counts for its target.
pub open spec fn target_kind(kind: RacErrorKind) -> TargetErrorKind {
    match kind {
        RacErrorKind::Dns | RacErrorKind::ConnectionRefused => TargetErrorKind::Unavailable,
        RacErrorKind::Timeout => TargetErrorKind::Timeout,
        RacErrorKind::Auth => TargetErrorKind::Authentication,
        RacErrorKind::ProtocolIncompatible | RacErrorKind::CommandSyntax => {
            TargetErrorKind::Protocol
        },
        RacErrorKind::Parse => TargetErrorKind::InvalidResponse,
        RacErrorKind::NotFound | RacErrorKind::UnsupportedVersion => TargetErrorKind::RacNotFound,
        RacErrorKind::Cancelled => TargetErrorKind::Cancelled,
        RacErrorKind::Unknown => TargetErrorKind::Internal,
    }
}

/// How a failed command counts for its target.
pub fn target_kind_from_rac(kind: RacErrorKind) -> (result: TargetErrorKind)
    ensures
        result == target_kind(kind),
{
    match kind {
        RacErrorKind::Dns | RacErrorKind::ConnectionRefused => TargetErrorKind::Unavailable,
        RacErrorKind::Timeout => TargetErrorKind::Timeout,
        RacErrorKind::Auth => TargetErrorKind::Authentication,
        RacErrorKind::ProtocolIncompatible | RacErrorKind::CommandSyntax => {
            TargetErrorKind::Protocol
        },
        RacErrorKind::Parse => TargetErrorKind::InvalidResponse,
        RacErrorKind::NotFound | RacErrorKind::UnsupportedVersion => TargetErrorKind::RacNotFound,
        RacErrorKind::Cancelled => TargetErrorKind::Cancelled,
        RacErrorKind::Unknown => TargetErrorKind::Internal,
    }
}

/// The failure of a target whose command failed.
pub fn target_error_from_rac(
    cluster: ClusterAlias,
    ras_address: RasEndpoint,
    error: &RacError,
) -> (result: TargetError)
    ensures
        result@ == (TargetProblem {
            cluster: cluster@,
            ras_address: ras_address@,
            kind: target_kind(error@.kind),
            message: error@.text(),
        }),
{
    TargetError::new(
        cluster,
        ras_address,
        target_kind_from_rac(error.kind()),
        error.to_text().as_str(),
    )
}

/// Where every target was cancelled, or lacked the utility, the process says so with its own exit
/// code; every other mixture of failures has the common one.
pub proof fn law_common_failure_decides(errors: Seq<TargetProblem>)
    ensures
        AppProblem::all_failed(errors).target_errors == errors,
        AppProblem::all_failed(errors).category.code_of() == (if all_of_kind(
            errors,
            TargetErrorKind::Cancelled,
        ) {
            AppExitCode::Cancelled
        } else if all_of_kind(errors, TargetErrorKind::RacNotFound) {
            AppExitCode::RacNotFound
        } else {
            AppExitCode::AllTargetsFailed
        }),
{
}

} // verus!
