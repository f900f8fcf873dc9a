//! Errors of the `rac` utility and what its diagnostics mean.

use vstd::prelude::*;
use vstd::string::*;

use crate::infrastructure::rac::process::{
    InvocationView, ProcessErrorView, RacProcessError, RedactedInvocation,
};
use crate::number;
use crate::outcome;
use crate::text;

verus! {

#[derive(Clone, Copy, Debug, PartialEq, Eq, Hash, Structural)]
pub enum RacErrorKind {
    ProtocolIncompatible,
    NotFound,
    UnsupportedVersion,
    Dns,
    ConnectionRefused,
    Timeout,
    Auth,
    CommandSyntax,
    Parse,
    Cancelled,
    Unknown,
}

impl RacErrorKind {
    /// The stable machine-readable code.
    pub open spec fn text(self) -> Seq<char> {
        match self {
            RacErrorKind::ProtocolIncompatible => "protocol_incompatible"@,
            RacErrorKind::NotFound => "not_found"@,
            RacErrorKind::UnsupportedVersion => "unsupported_version"@,
            RacErrorKind::Dns => "dns"@,
            RacErrorKind::ConnectionRefused => "connection_refused"@,
            RacErrorKind::Timeout => "timeout"@,
            RacErrorKind::Auth => "auth"@,
            RacErrorKind::CommandSyntax => "command_syntax"@,
            RacErrorKind::Parse => "parse"@,
            RacErrorKind::Cancelled => "cancelled"@,
            RacErrorKind::Unknown => "unknown"@,
        }
    }

    /// The text shown to the operator.
    pub open spec fn message(self) -> Seq<char> {
        match self {
            RacErrorKind::ProtocolIncompatible => "версия RAC несовместима с протоколом RAS"@,
            RacErrorKind::NotFound => "исполняемый файл rac.exe не найден"@,
            RacErrorKind::UnsupportedVersion => "версия RAC не поддерживается"@,
            RacErrorKind::Dns => "не удалось разрешить имя сервера RAS"@,
            RacErrorKind::ConnectionRefused => "сервер RAS отклонил подключение"@,
            RacErrorKind::Timeout => "превышено время ожидания ответа RAC"@,
            RacErrorKind::Auth => "ошибка аутентификации RAC"@,
            RacErrorKind::CommandSyntax => "RAC отклонил синтаксис команды"@,
            RacErrorKind::Parse => "не удалось разобрать ответ RAC"@,
            RacErrorKind::Cancelled => "операция RAC отменена"@,
            RacErrorKind::Unknown => "неизвестная ошибка RAC"@,
        }
    }

    pub fn code(self) -> (result: &'static str)
        ensures
            result@ == self.text(),
    {
        match self {
            RacErrorKind::ProtocolIncompatible => "protocol_incompatible",
            RacErrorKind::NotFound => "not_found",
            RacErrorKind::UnsupportedVersion => "unsupported_version",
            RacErrorKind::Dns => "dns",
            RacErrorKind::ConnectionRefused => "connection_refused",
            RacErrorKind::Timeout => "timeout",
            RacErrorKind::Auth => "auth",
            RacErrorKind::CommandSyntax => "command_syntax",
            RacErrorKind::Parse => "parse",
            RacErrorKind::Cancelled => "cancelled",
            RacErrorKind::Unknown => "unknown",
        }
    }

    /// Whether another version of the utility may succeed.
    pub fn allows_version_fallback(self) -> (result: bool)
        ensures
            result == (self == RacErrorKind::ProtocolIncompatible),
    {
        matches!(self, RacErrorKind::ProtocolIncompatible)
    }

    pub fn user_message(self) -> (result: &'static str)
        ensures
            result@ == self.message(),
    {
        match self {
            RacErrorKind::ProtocolIncompatible => "версия RAC несовместима с протоколом RAS",
            RacErrorKind::NotFound => "исполняемый файл rac.exe не найден",
            RacErrorKind::UnsupportedVersion => "версия RAC не поддерживается",
            RacErrorKind::Dns => "не удалось разрешить имя сервера RAS",
            RacErrorKind::ConnectionRefused => "сервер RAS отклонил подключение",
            RacErrorKind::Timeout => "превышено время ожидания ответа RAC",
            RacErrorKind::Auth => "ошибка аутентификации RAC",
            RacErrorKind::CommandSyntax => "RAC отклонил синтаксис команды",
            RacErrorKind::Parse => "не удалось разобрать ответ RAC",
            RacErrorKind::Cancelled => "операция RAC отменена",
            RacErrorKind::Unknown => "неизвестная ошибка RAC",
        }
    }
}

pub struct RacErrorView {
    pub kind: RacErrorKind,
    pub invocation: Option<InvocationView>,
    pub exit_code: Option<i32>,
}

/// The kind of error that a failed run of a process is.
pub open spec fn process_kind(error: ProcessErrorView) -> RacErrorKind {
    match error {
        ProcessErrorView::Timeout { .. } => RacErrorKind::Timeout,
        ProcessErrorView::Cancelled { .. } => RacErrorKind::Cancelled,
        ProcessErrorView::Io { failure, .. } => if failure.kind == "NotFound"@ {
            RacErrorKind::NotFound
        } else {
            RacErrorKind::Unknown
        },
    }
}

impl RacErrorView {
    pub open spec fn bare(kind: RacErrorKind) -> RacErrorView {
        RacErrorView { kind, invocation: None, exit_code: None }
    }

    pub open spec fn of_run(kind: RacErrorKind, invocation: InvocationView) -> RacErrorView {
        RacErrorView { kind, invocation: Some(invocation), exit_code: None }
    }

    pub open spec fn of_process(error: ProcessErrorView) -> RacErrorView {
        RacErrorView::of_run(process_kind(error), error.invocation())
    }

    /// The text shown to the operator.
    pub open spec fn text(self) -> Seq<char> {
        self.kind.text() + ": "@ + self.kind.message() + (match self.exit_code {
            Some(code) => " (код RAC: "@ + number::signed_decimal(code as int) + ")"@,
            None => Seq::empty(),
        }) + (match self.invocation {
            Some(invocation) => ": "@ + invocation.text(),
            None => Seq::empty(),
        })
    }
}

/// A failed run of the utility.
pub struct RacError {
    kind: RacErrorKind,
    invocation: Option<RedactedInvocation>,
    exit_code: Option<i32>,
}

impl View for RacError {
    type V = RacErrorView;

    closed spec fn view(&self) -> RacErrorView {
        RacErrorView {
            kind: self.kind,
            invocation: outcome::option_view(self.invocation),
            exit_code: self.exit_code,
        }
    }
}

impl RacError {
    pub fn new(kind: RacErrorKind) -> (result: Self)
        ensures
            result@ == RacErrorView::bare(kind),
    {
        RacError { kind, invocation: None, exit_code: None }
    }

    pub fn kind(&self) -> (result: RacErrorKind)
        ensures
            result == self@.kind,
    {
        self.kind
    }

    pub fn code(&self) -> (result: &'static str)
        ensures
            result@ == self@.kind.text(),
    {
        self.kind.code()
    }

    pub fn exit_code(&self) -> (result: Option<i32>)
        ensures
            result == self@.exit_code,
    {
        self.exit_code
    }

    pub fn invocation(&self) -> (result: Option<&RedactedInvocation>)
        ensures
            outcome::option_view(result) == self@.invocation,
    {
        match &self.invocation {
            Some(invocation) => Some(invocation),
            None => None,
        }
    }

    /// Whether another version of the utility may succeed.
    pub fn allows_version_fallback(&self) -> (result: bool)
        ensures
            result == (self@.kind == RacErrorKind::ProtocolIncompatible),
    {
        self.kind.allows_version_fallback()
    }

    pub(crate) fn with_invocation(kind: RacErrorKind, invocation: RedactedInvocation) -> (result:
        Self)
        ensures
            result@ == RacErrorView::of_run(kind, invocation@),
    {
        RacError { kind, invocation: Some(invocation), exit_code: None }
    }

    pub(crate) fn command_failed(
        kind: RacErrorKind,
        exit_code: Option<i32>,
        invocation: RedactedInvocation,
    ) -> (result: Self)
        ensures
            result@ == (RacErrorView { kind, invocation: Some(invocation@), exit_code }),
    {
        RacError { kind, invocation: Some(invocation), exit_code }
    }

    /// The error of a run that gave no output.
    pub fn from_process(error: &RacProcessError) -> (result: Self)
        ensures
            result@ == RacErrorView::of_process(error@),
    {
        let kind = match error {
            RacProcessError::Timeout { .. } => RacErrorKind::Timeout,
            RacProcessError::Cancelled { .. } => RacErrorKind::Cancelled,
            RacProcessError::Io { failure, .. } => if text::same(failure.kind.as_str(), "NotFound") {
                RacErrorKind::NotFound
            } else {
                RacErrorKind::Unknown
            },
        };
        RacError::with_invocation(kind, error.invocation().clone())
    }

    /// The text shown to the operator.
    pub fn to_text(&self) -> (result: String)
        ensures
            result@ == self@.text(),
    {
        let mut result = self.kind.code().to_owned();
        result.push_str(": ");
        result.push_str(self.kind.user_message());
        let ghost head = result@;
        match self.exit_code {
            Some(code) => {
                let mut shown = " (код RAC: ".to_owned();
                shown.push_str(number::format_i64(code as i64).as_str());
                shown.push_str(")");
                result.push_str(shown.as_str());
            },
            None => {
                assert(head + Seq::<char>::empty() =~= head);
            },
        }
        let ghost head = result@;
        match &self.invocation {
            Some(invocation) => {
                let mut shown = ": ".to_owned();
                shown.push_str(invocation.to_text().as_str());
                result.push_str(shown.as_str());
            },
            None => {
                assert(head + Seq::<char>::empty() =~= head);
            },
        }
        result
    }
}

impl Clone for RacError {
    fn clone(&self) -> (result: Self)
        ensures
            result@ == self@,
    {
        let invocation = match &self.invocation {
            Some(invocation) => Some(invocation.clone()),
            None => None,
        };
        RacError { kind: self.kind, invocation, exit_code: self.exit_code }
    }
}

/// What a diagnostic of the kind `ProtocolIncompatible` holds.
pub open spec fn protocol_needles() -> Seq<Seq<char>> {
    seq![
        "incompatible protocol"@,
        "protocol version mismatch"@,
        "unsupported protocol version"@,
        "server protocol version is not supported"@,
        "administration server version is not supported"@,
        "version of administration server is not supported"@,
        "protocol is incompatible"@,
        "несовместимая версия протокола"@,
        "несовместим с протоколом"@,
        "версия протокола не поддерживается"@,
        "версия сервера администрирования не поддерживается"@,
        "несовместимые версии rac и ras"@,
        "ошибка протокола взаимодействия"@,
    ]
}

/// What a diagnostic of the kind `Timeout` holds.
pub open spec fn timeout_needles() -> Seq<Seq<char>> {
    seq![
        "timed out"@,
        "timeout"@,
        "time-out"@,
        "operation has timed out"@,
        "истекло время ожидания"@,
        "превышено время ожидания"@,
        "тайм-аут"@,
        "таймаут"@,
    ]
}

/// What a diagnostic of the kind `Dns` holds.
pub open spec fn dns_needles() -> Seq<Seq<char>> {
    seq![
        "no such host is known"@,
        "name or service not known"@,
        "temporary failure in name resolution"@,
        "getaddrinfo failed"@,
        "host not found"@,
        "could not resolve host"@,
        "неизвестен такой узел"@,
        "не удается разрешить имя"@,
        "не удалось разрешить имя"@,
        "узел не найден"@,
        "хост не найден"@,
    ]
}

/// What a diagnostic of the kind `ConnectionRefused` holds.
pub open spec fn refusal_needles() -> Seq<Seq<char>> {
    seq![
        "connection refused"@,
        "actively refused"@,
        "target machine refused"@,
        "could not connect because the target machine actively refused"@,
        "подключение не установлено, т.к. конечный компьютер отверг"@,
        "целевой компьютер активно отверг"@,
        "соединение отклонено"@,
        "отказано в подключении"@,
    ]
}

/// What a diagnostic of the kind `Auth` holds.
pub open spec fn auth_needles() -> Seq<Seq<char>> {
    seq![
        "authentication failed"@,
        "authorization failed"@,
        "invalid user or password"@,
        "invalid username or password"@,
        "wrong password"@,
        "access denied"@,
        "administrator is not authenticated"@,
        "ошибка аутентификации"@,
        "ошибка авторизации"@,
        "неверный пароль"@,
        "неверное имя пользователя"@,
        "пользователь не аутентифицирован"@,
        "администратор не аутентифицирован"@,
        "доступ запрещен"@,
        "недостаточно прав"@,
    ]
}

/// What a diagnostic of the kind `CommandSyntax` holds.
pub open spec fn syntax_needles() -> Seq<Seq<char>> {
    seq![
        "unknown command"@,
        "unknown option"@,
        "unknown argument"@,
        "unrecognized option"@,
        "invalid command"@,
        "invalid option"@,
        "error parsing parameter"@,
        "parameter parsing error"@,
        "usage:"@,
        "неизвестная команда"@,
        "неизвестный параметр"@,
        "неверный параметр"@,
        "недопустимый параметр"@,
        "ошибка синтаксиса команды"@,
        "ошибка разбора параметра"@,
    ]
}

/// What a diagnostic of the kind `UnsupportedVersion` holds.
pub open spec fn version_needles() -> Seq<Seq<char>> {
    seq![
        "unsupported rac version"@,
        "rac version is not supported"@,
        "version is too old"@,
        "версия rac не поддерживается"@,
        "устаревшая версия rac"@,
        "версия rac слишком старая"@,
    ]
}

/// What a diagnostic of the kind `NotFound` holds.
pub open spec fn missing_needles() -> Seq<Seq<char>> {
    seq![
        "rac.exe is not recognized"@,
        "rac.exe: not found"@,
        "the system cannot find the file"@,
        "системе не удается найти указанный файл"@,
        "rac.exe не найден"@,
    ]
}

/// A diagnostic in lower case, with `ё` written as `е`.
pub open spec fn folded(diagnostic: Seq<char>) -> Seq<char> {
    text::replaced(text::lowercase(diagnostic), 'ё', 'е')
}

/// The kind of error that a folded diagnostic tells of: the first whose needles it holds.
pub open spec fn kind_of(diagnostic: Seq<char>) -> RacErrorKind {
    if text::contains_some(diagnostic, protocol_needles()) {
        RacErrorKind::ProtocolIncompatible
    } else if text::contains_some(diagnostic, timeout_needles()) {
        RacErrorKind::Timeout
    } else if text::contains_some(diagnostic, dns_needles()) {
        RacErrorKind::Dns
    } else if text::contains_some(diagnostic, refusal_needles()) {
        RacErrorKind::ConnectionRefused
    } else if text::contains_some(diagnostic, auth_needles()) {
        RacErrorKind::Auth
    } else if text::contains_some(diagnostic, syntax_needles()) {
        RacErrorKind::CommandSyntax
    } else if text::contains_some(diagnostic, version_needles()) {
        RacErrorKind::UnsupportedVersion
    } else if text::contains_some(diagnostic, missing_needles()) {
        RacErrorKind::NotFound
    } else {
        RacErrorKind::Unknown
    }
}

/// Whether a folded diagnostic holds no needle of any kind.
pub open spec fn tells_nothing(diagnostic: Seq<char>) -> bool {
    &&& !text::contains_some(diagnostic, protocol_needles())
    &&& !text::contains_some(diagnostic, timeout_needles())
    &&& !text::contains_some(diagnostic, dns_needles())
    &&& !text::contains_some(diagnostic, refusal_needles())
    &&& !text::contains_some(diagnostic, auth_needles())
    &&& !text::contains_some(diagnostic, syntax_needles())
    &&& !text::contains_some(diagnostic, version_needles())
    &&& !text::contains_some(diagnostic, missing_needles())
}

/// What a diagnostic of the utility means, in Russian or English. Neither letter case nor `ё` for `е`
/// matters: folded first, a diagnostic is of the same kind.
pub fn classify_diagnostic(diagnostic: &str) -> (result: RacErrorKind)
    ensures
        result == kind_of(folded(diagnostic@)),
        folded(folded(diagnostic@)) == folded(diagnostic@),
        result == kind_of(folded(folded(diagnostic@))),
        result != RacErrorKind::Parse,
        result != RacErrorKind::Cancelled,
        result == RacErrorKind::Unknown <==> tells_nothing(folded(diagnostic@)),
{
    let lowered = text::to_lowercase(diagnostic);
    let folded_text = text::replace_char(lowered.as_str(), 'ё', 'е');
    proof {
        let once = folded(diagnostic@);
        assert forall|i: int| 0 <= i < once.len() implies lowered@.contains(#[trigger] once[i])
            || text::is_small_letter(once[i]) by {
            assert(lowered@.contains(lowered@[i]));
        }
        assert(text::made_of(once, lowered@));
        assert(text::lowercase(once) == once);
        assert(text::replaced(once, 'ё', 'е') =~= once);
    }
    classify_folded(folded_text.as_str())
}

fn holds_protocol(diagnostic: &str) -> (result: bool)
    ensures
        result == text::contains_some(diagnostic@, protocol_needles()),
{
    let needles = [
        "incompatible protocol",
        "protocol version mismatch",
        "unsupported protocol version",
        "server protocol version is not supported",
        "administration server version is not supported",
        "version of administration server is not supported",
        "protocol is incompatible",
        "несовместимая версия протокола",
        "несовместим с протоколом",
        "версия протокола не поддерживается",
        "версия сервера администрирования не поддерживается",
        "несовместимые версии rac и ras",
        "ошибка протокола взаимодействия",
    ];
    assert(text::str_views(needles@) =~= protocol_needles());
    text::contains_any(diagnostic, &needles)
}

fn holds_timeout(diagnostic: &str) -> (result: bool)
    ensures
        result == text::contains_some(diagnostic@, timeout_needles()),
{
    let needles = [
        "timed out",
        "timeout",
        "time-out",
        "operation has timed out",
        "истекло время ожидания",
        "превышено время ожидания",
        "тайм-аут",
        "таймаут",
    ];
    assert(text::str_views(needles@) =~= timeout_needles());
    text::contains_any(diagnostic, &needles)
}

fn holds_dns(diagnostic: &str) -> (result: bool)
    ensures
        result == text::contains_some(diagnostic@, dns_needles()),
{
    let needles = [
        "no such host is known",
        "name or service not known",
        "temporary failure in name resolution",
        "getaddrinfo failed",
        "host not found",
        "could not resolve host",
        "неизвестен такой узел",
        "не удается разрешить имя",
        "не удалось разрешить имя",
        "узел не найден",
        "хост не найден",
    ];
    assert(text::str_views(needles@) =~= dns_needles());
    text::contains_any(diagnostic, &needles)
}

fn holds_refusal(diagnostic: &str) -> (result: bool)
    ensures
        result == text::contains_some(diagnostic@, refusal_needles()),
{
    let needles = [
        "connection refused",
        "actively refused",
        "target machine refused",
        "could not connect because the target machine actively refused",
        "подключение не установлено, т.к. конечный компьютер отверг",
        "целевой компьютер активно отверг",
        "соединение отклонено",
        "отказано в подключении",
    ];
    assert(text::str_views(needles@) =~= refusal_needles());
    text::contains_any(diagnostic, &needles)
}

fn holds_auth(diagnostic: &str) -> (result: bool)
    ensures
        result == text::contains_some(diagnostic@, auth_needles()),
{
    let needles = [
        "authentication failed",
        "authorization failed",
        "invalid user or password",
        "invalid username or password",
        "wrong password",
        "access denied",
        "administrator is not authenticated",
        "ошибка аутентификации",
        "ошибка авторизации",
        "неверный пароль",
        "неверное имя пользователя",
        "пользователь не аутентифицирован",
        "администратор не аутентифицирован",
        "доступ запрещен",
        "недостаточно прав",
    ];
    assert(text::str_views(needles@) =~= auth_needles());
    text::contains_any(diagnostic, &needles)
}

fn holds_syntax(diagnostic: &str) -> (result: bool)
    ensures
        result == text::contains_some(diagnostic@, syntax_needles()),
{
    let needles = [
        "unknown command",
        "unknown option",
        "unknown argument",
        "unrecognized option",
        "invalid command",
        "invalid option",
        "error parsing parameter",
        "parameter parsing error",
        "usage:",
        "неизвестная команда",
        "неизвестный параметр",
        "неверный параметр",
        "недопустимый параметр",
        "ошибка синтаксиса команды",
        "ошибка разбора параметра",
    ];
    assert(text::str_views(needles@) =~= syntax_needles());
    text::contains_any(diagnostic, &needles)
}

fn holds_version(diagnostic: &str) -> (result: bool)
    ensures
        result == text::contains_some(diagnostic@, version_needles()),
{
    let needles = [
        "unsupported rac version",
        "rac version is not supported",
        "version is too old",
        "версия rac не поддерживается",
        "устаревшая версия rac",
        "версия rac слишком старая",
    ];
    assert(text::str_views(needles@) =~= version_needles());
    text::contains_any(diagnostic, &needles)
}

fn holds_missing(diagnostic: &str) -> (result: bool)
    ensures
        result == text::contains_some(diagnostic@, missing_needles()),
{
    let needles = [
        "rac.exe is not recognized",
        "rac.exe: not found",
        "the system cannot find the file",
        "системе не удается найти указанный файл",
        "rac.exe не найден",
    ];
    assert(text::str_views(needles@) =~= missing_needles());
    text::contains_any(diagnostic, &needles)
}

/// What a diagnostic means that is already in lower case and without `ё`.
pub fn classify_folded(diagnostic: &str) -> (result: RacErrorKind)
    ensures
        result == kind_of(diagnostic@),
{
    if holds_protocol(diagnostic) {
        RacErrorKind::ProtocolIncompatible
    } else if holds_timeout(diagnostic) {
        RacErrorKind::Timeout
    } else if holds_dns(diagnostic) {
        RacErrorKind::Dns
    } else if holds_refusal(diagnostic) {
        RacErrorKind::ConnectionRefused
    } else if holds_auth(diagnostic) {
        RacErrorKind::Auth
    } else if holds_syntax(diagnostic) {
        RacErrorKind::CommandSyntax
    } else if holds_version(diagnostic) {
        RacErrorKind::UnsupportedVersion
    } else if holds_missing(diagnostic) {
        RacErrorKind::NotFound
    } else {
        RacErrorKind::Unknown
    }
}

/// Another version of the utility is tried after a protocol mismatch alone.
pub proof fn law_fallback_needs_protocol_mismatch(diagnostic: Seq<char>)
    ensures
        kind_of(diagnostic) == RacErrorKind::ProtocolIncompatible <==> text::contains_some(
            diagnostic,
            protocol_needles(),
        ),
{
}

} // verus!
