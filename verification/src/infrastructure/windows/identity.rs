//! The account that the process runs as.

use vstd::prelude::*;
use vstd::string::*;

use crate::outcome;
use crate::text;

verus! {

/// Where an account name was found.
#[derive(Clone, Copy, Debug, PartialEq, Eq, Structural)]
pub enum IdentitySource {
    Environment,
    WindowsApi,
}

/// An account and where its name was found.
#[derive(PartialEq, Eq, Debug)]
pub struct WindowsIdentity {
    account_name: String,
    source: IdentitySource,
}

pub struct AccountView {
    pub account_name: Seq<char>,
    pub source: IdentitySource,
}

impl View for WindowsIdentity {
    type V = AccountView;

    closed spec fn view(&self) -> AccountView {
        AccountView { account_name: self.account_name@, source: self.source }
    }
}

impl WindowsIdentity {
    pub fn new(account_name: &str, source: IdentitySource) -> (result: Self)
        ensures
            result@ == (AccountView { account_name: account_name@, source }),
    {
        WindowsIdentity { account_name: account_name.to_owned(), source }
    }

    pub fn as_os_str(&self) -> (result: &str)
        ensures
            result@ == self@.account_name,
    {
        self.account_name.as_str()
    }

    pub fn into_os_string(self) -> (result: String)
        ensures
            result@ == self@.account_name,
    {
        self.account_name
    }

    pub fn source(&self) -> (result: IdentitySource)
        ensures
            result == self@.source,
    {
        self.source
    }

    pub fn to_string_lossy(&self) -> (result: String)
        ensures
            result@ == self@.account_name,
    {
        self.account_name.clone()
    }
}

impl Clone for WindowsIdentity {
    fn clone(&self) -> (result: Self)
        ensures
            result == *self,
    {
        WindowsIdentity { account_name: self.account_name.clone(), source: self.source }
    }
}

/// Why an account was not confirmed.
#[derive(Debug, PartialEq, Eq)]
pub enum IdentityError {
    EmptyExpectedIdentity,
    IdentityMismatch { expected: String, actual: String },
    IdentityUnavailable { details: String },
}

pub enum IdentityProblem {
    EmptyExpectedIdentity,
    IdentityMismatch { expected: Seq<char>, actual: Seq<char> },
    IdentityUnavailable { details: Seq<char> },
}

impl View for IdentityError {
    type V = IdentityProblem;

    open spec fn view(&self) -> IdentityProblem {
        match self {
            IdentityError::EmptyExpectedIdentity => IdentityProblem::EmptyExpectedIdentity,
            IdentityError::IdentityMismatch { expected, actual } => {
                IdentityProblem::IdentityMismatch { expected: expected@, actual: actual@ }
            },
            IdentityError::IdentityUnavailable { details } => {
                IdentityProblem::IdentityUnavailable { details: details@ }
            },
        }
    }
}

impl IdentityProblem {
    pub open spec fn message(self) -> Seq<char> {
        match self {
            IdentityProblem::EmptyExpectedIdentity => {
                "ожидаемая учетная запись Windows (os_user) не может быть пустой"@
            },
            IdentityProblem::IdentityMismatch { expected, actual } => {
                "текущая учетная запись Windows не совпадает с ожидаемой: ожидалась "@ + expected
                    + ", процесс запущен от "@ + actual
            },
            IdentityProblem::IdentityUnavailable { details } => {
                "не удалось определить текущую учетную запись Windows: USERDOMAIN/USERNAME отсутствуют или неполны; "@
                    + details
            },
        }
    }
}

impl IdentityError {
    /// The text shown to the operator.
    pub fn message(&self) -> (result: String)
        ensures
            result@ == self@.message(),
    {
        match self {
            IdentityError::EmptyExpectedIdentity => {
                "ожидаемая учетная запись Windows (os_user) не может быть пустой".to_owned()
            },
            IdentityError::IdentityMismatch { expected, actual } => {
                let mut result =
                    "текущая учетная запись Windows не совпадает с ожидаемой: ожидалась ".to_owned();
                result.push_str(expected.as_str());
                result.push_str(", процесс запущен от ");
                result.push_str(actual.as_str());
                result
            },
            IdentityError::IdentityUnavailable { details } => {
                let mut result =
                    "не удалось определить текущую учетную запись Windows: USERDOMAIN/USERNAME отсутствуют или неполны; ".to_owned();
                result.push_str(details.as_str());
                result
            },
        }
    }
}

/// Whether two account names are the same: as the system compares them where it has a comparison of its
/// own, else in lower case.
pub open spec fn is_same_account(
    actual: Seq<char>,
    expected: Seq<char>,
    by_system: Option<bool>,
) -> bool {
    match by_system {
        Some(equal) => equal,
        None => text::lowercase(actual) == text::lowercase(expected),
    }
}

/// Whether two account names are the same. `by_system` is the answer of the system where it compares
/// account names itself, as Windows does without regard to case.
pub fn identities_equal(actual: &str, expected: &str, by_system: Option<bool>) -> (result: bool)
    ensures
        result == is_same_account(actual@, expected@, by_system),
{
    match by_system {
        Some(equal) => equal,
        None => {
            let left = text::to_lowercase(actual);
            let right = text::to_lowercase(expected);
            text::same(left.as_str(), right.as_str())
        },
    }
}

/// What is made of the current account where another is expected; `equal` says whether the two names
/// are the same.
pub open spec fn confirmed(
    expected: Seq<char>,
    current: Result<AccountView, IdentityProblem>,
    equal: bool,
) -> Result<AccountView, IdentityProblem> {
    if expected.len() == 0 {
        Err(IdentityProblem::EmptyExpectedIdentity)
    } else {
        match current {
            Err(problem) => Err(problem),
            Ok(account) => if equal {
                Ok(account)
            } else {
                Err(
                    IdentityProblem::IdentityMismatch { expected, actual: account.account_name },
                )
            },
        }
    }
}

/// Whether an account that may not have been found has a name.
pub open spec fn is_named(
    current: Result<AccountView, IdentityProblem>,
    expected: Seq<char>,
    by_system: Option<bool>,
) -> bool {
    current is Ok && is_same_account(current->Ok_0.account_name, expected, by_system)
}

/// Holds the current account against the one that is expected. `by_system` is what the system says of
/// the two names where it compares account names itself.
pub fn confirm_identity(
    expected: &str,
    current: Result<WindowsIdentity, IdentityError>,
    by_system: Option<bool>,
) -> (result: Result<WindowsIdentity, IdentityError>)
    ensures
        outcome::result_view(result) == confirmed(
            expected@,
            outcome::result_view(current),
            is_named(outcome::result_view(current), expected@, by_system),
        ),
{
    if expected.unicode_len() == 0 {
        return Err(IdentityError::EmptyExpectedIdentity);
    }
    let account = match current {
        Ok(account) => account,
        Err(error) => {
            return Err(error);
        },
    };
    if identities_equal(account.as_os_str(), expected, by_system) {
        return Ok(account);
    }
    Err(
        IdentityError::IdentityMismatch {
            expected: expected.to_owned(),
            actual: account.to_string_lossy(),
        },
    )
}

/// Tells the account that the process runs as.
pub trait WindowsIdentityProvider {
    fn current_identity(&self) -> (result: Result<WindowsIdentity, IdentityError>);

    /// Whether the system takes two account names for the same; nothing where it has no comparison of
    /// its own.
    fn compare_by_system(&self, actual: &str, expected: &str) -> (result: Option<bool>)
        default_ensures
            result is None,
    {
        None
    }

    /// The current account, where it is the expected one. An empty name is never the expected one.
    fn verify_expected(&self, expected: &str) -> (result: Result<WindowsIdentity, IdentityError>)
        ensures
            expected@.len() == 0 ==> outcome::result_view(result) == Err::<
                AccountView,
                IdentityProblem,
            >(IdentityProblem::EmptyExpectedIdentity),
            expected@.len() > 0 ==> exists|current: Result<WindowsIdentity, IdentityError>| {
                &&& #[trigger] call_ensures(Self::current_identity, (self,), current)
                &&& match current {
                    Err(error) => outcome::result_view(result) == Err::<
                        AccountView,
                        IdentityProblem,
                    >(error@),
                    Ok(account) => exists|actual: &str, by_system: Option<bool>| {
                        &&& actual@ == account@.account_name
                        &&& #[trigger] call_ensures(
                            Self::compare_by_system,
                            (self, actual, expected),
                            by_system,
                        )
                        &&& outcome::result_view(result) == confirmed(
                            expected@,
                            Ok(account@),
                            is_same_account(account@.account_name, expected@, by_system),
                        )
                    },
                }
            },
    {
        if expected.unicode_len() == 0 {
            return Err(IdentityError::EmptyExpectedIdentity);
        }
        let current = self.current_identity();
        let by_system = match &current {
            Ok(account) => self.compare_by_system(account.as_os_str(), expected),
            Err(_) => None,
        };
        confirm_identity(expected, current, by_system)
    }
}

/// The account that the system and the environment tell: the system first, then domain and user
/// name, then the user name alone.
pub open spec fn system_account(
    from_api: Option<Seq<char>>,
    domain: Option<Seq<char>>,
    username: Option<Seq<char>>,
) -> Result<AccountView, IdentityProblem> {
    match (from_api, domain, username) {
        (Some(account_name), _, _) => Ok(
            AccountView { account_name, source: IdentitySource::WindowsApi },
        ),
        (None, Some(domain), Some(username)) if domain.len() > 0 && username.len() > 0 => Ok(
            AccountView {
                account_name: domain + "\\"@ + username,
                source: IdentitySource::Environment,
            },
        ),
        (None, _, Some(username)) if username.len() > 0 => Ok(
            AccountView { account_name: username, source: IdentitySource::Environment },
        ),
        _ => Err(
            IdentityProblem::IdentityUnavailable {
                details: "Windows API и переменные окружения не вернули имя пользователя"@,
            },
        ),
    }
}

/// The account that the system and the environment tell.
pub fn system_identity(
    from_api: Option<String>,
    domain: Option<String>,
    username: Option<String>,
) -> (result: Result<WindowsIdentity, IdentityError>)
    ensures
        outcome::result_view(result) == system_account(
            outcome::option_view(from_api),
            outcome::option_view(domain),
            outcome::option_view(username),
        ),
{
    match from_api {
        Some(account_name) => {
            return Ok(WindowsIdentity { account_name, source: IdentitySource::WindowsApi });
        },
        None => {},
    }
    match username {
        Some(username) => {
            if username.as_str().unicode_len() > 0 {
                match domain {
                    Some(domain) => {
                        if domain.as_str().unicode_len() > 0 {
                            let mut account_name = domain;
                            account_name.push_str("\\");
                            account_name.push_str(username.as_str());
                            return Ok(
                                WindowsIdentity {
                                    account_name,
                                    source: IdentitySource::Environment,
                                },
                            );
                        }
                    },
                    None => {},
                }
                return Ok(
                    WindowsIdentity {
                        account_name: username,
                        source: IdentitySource::Environment,
                    },
                );
            }
        },
        None => {},
    }
    Err(
        IdentityError::IdentityUnavailable {
            details: "Windows API и переменные окружения не вернули имя пользователя".to_owned(),
        },
    )
}

} // verus!
