//! Credentials: a user with a secret, or none.

use vstd::prelude::*;
use vstd::string::*;

use crate::domain::error::{DomainError, DomainErrorView};
use crate::outcome;
use crate::text;

verus! {

/// Calls `zeroize::Zeroize::zeroize` of `String`, which overwrites the text and leaves it empty.
#[verifier::external_body]
pub(crate) fn wipe(secret: &mut String)
    ensures
        final(secret)@ == Seq::<char>::empty(),
    opens_invariants none
    no_unwind
{
    zeroize::Zeroize::zeroize(secret)
}

/// A text that is never shown.
#[derive(PartialEq, Eq)]
pub struct SecretString {
    value: String,
}

impl View for SecretString {
    type V = Seq<char>;

    closed spec fn view(&self) -> Seq<char> {
        self.value@
    }
}

impl SecretString {
    pub fn new(value: &str) -> (result: Self)
        ensures
            result@ == value@,
    {
        SecretString { value: value.to_owned() }
    }

    pub fn expose_secret(&self) -> (result: &str)
        ensures
            result@ == self@,
    {
        self.value.as_str()
    }

    pub fn is_empty(&self) -> (result: bool)
        ensures
            result == (self@.len() == 0),
    {
        self.value.as_str().is_empty()
    }

    /// The length in bytes.
    pub fn len(&self) -> (result: usize)
        ensures
            result == text::byte_len(self@),
    {
        self.value.as_str().as_bytes().len()
    }

    /// Overwrites the secret.
    pub fn zeroize(&mut self)
        ensures
            final(self)@ == Seq::<char>::empty(),
    {
        wipe(&mut self.value);
    }

    /// What a log may show of the secret.
    pub fn debug_text(&self) -> (result: String)
        ensures
            result@ == "SecretString([REDACTED])"@,
    {
        "SecretString([REDACTED])".to_owned()
    }
}

/// A secret that is no longer used is overwritten.
impl Drop for SecretString {
    fn drop(&mut self)
        opens_invariants none
        no_unwind
    {
        wipe(&mut self.value);
    }
}

impl Clone for SecretString {
    fn clone(&self) -> (result: Self)
        ensures
            result == *self,
    {
        SecretString { value: self.value.clone() }
    }
}

#[derive(Clone, Copy, Debug, PartialEq, Eq, Structural)]
pub enum AuthMode {
    NoAuth,
    Password,
    Os,
}

#[derive(PartialEq, Eq)]
pub struct PasswordAuth {
    user: String,
    password: SecretString,
}

impl PasswordAuth {
    pub closed spec fn user_view(self) -> Seq<char> {
        self.user@
    }

    pub closed spec fn password_view(self) -> Seq<char> {
        self.password@
    }

    pub fn user(&self) -> (result: &str)
        ensures
            result@ == self.user_view(),
    {
        self.user.as_str()
    }

    pub fn password(&self) -> (result: &SecretString)
        ensures
            result@ == self.password_view(),
    {
        &self.password
    }

    /// What a log may show of the credentials: the user alone.
    pub fn debug_text(&self) -> (result: String)
        ensures
            result@ == password_auth_text(self.user_view()),
    {
        let mut result = "PasswordAuth { user: ".to_owned();
        result.push_str(text::show(self.user.as_str()).as_str());
        result.push_str(", password: \"[REDACTED]\" }");
        result
    }
}

pub open spec fn password_auth_text(user: Seq<char>) -> Seq<char> {
    "PasswordAuth { user: "@ + text::shown(user) + ", password: \"[REDACTED]\" }"@
}

impl Clone for PasswordAuth {
    fn clone(&self) -> (result: Self)
        ensures
            result == *self,
    {
        PasswordAuth { user: self.user.clone(), password: self.password.clone() }
    }
}

/// A user whom the operating system vouches for, and the account that it is expected to name.
#[derive(PartialEq, Eq)]
pub struct OsAuth {
    user: Option<String>,
    os_user: Option<String>,
}

impl OsAuth {
    pub closed spec fn user_view(self) -> Option<Seq<char>> {
        outcome::option_view(self.user)
    }

    pub closed spec fn os_user_view(self) -> Option<Seq<char>> {
        outcome::option_view(self.os_user)
    }

    pub fn user(&self) -> (result: Option<&str>)
        ensures
            outcome::option_view(result) == self.user_view(),
    {
        match &self.user {
            Some(user) => Some(user.as_str()),
            None => None,
        }
    }

    pub fn os_user(&self) -> (result: Option<&str>)
        ensures
            outcome::option_view(result) == self.os_user_view(),
    {
        match &self.os_user {
            Some(os_user) => Some(os_user.as_str()),
            None => None,
        }
    }
}

impl Clone for OsAuth {
    fn clone(&self) -> (result: Self)
        ensures
            result == *self,
    {
        let user = match &self.user {
            Some(user) => Some(user.clone()),
            None => None,
        };
        let os_user = match &self.os_user {
            Some(os_user) => Some(os_user.clone()),
            None => None,
        };
        OsAuth { user, os_user }
    }
}

/// How to authenticate: not at all, with a user and a password, or by the operating system.
#[derive(PartialEq, Eq)]
pub enum AuthConfig {
    NoAuth,
    Password(PasswordAuth),
    Os(OsAuth),
}

pub enum AuthView {
    NoAuth,
    Password { user: Seq<char>, password: Seq<char> },
    Os { user: Option<Seq<char>>, os_user: Option<Seq<char>> },
}

impl View for AuthConfig {
    type V = AuthView;

    open spec fn view(&self) -> AuthView {
        match self {
            AuthConfig::NoAuth => AuthView::NoAuth,
            AuthConfig::Password(auth) => AuthView::Password {
                user: auth.user_view(),
                password: auth.password_view(),
            },
            AuthConfig::Os(auth) => AuthView::Os {
                user: auth.user_view(),
                os_user: auth.os_user_view(),
            },
        }
    }
}

/// Credentials of the operating system, whose texts are not empty where they are given, or what is
/// wrong with them.
pub open spec fn os_auth(user: Option<Seq<char>>, os_user: Option<Seq<char>>) -> Result<
    AuthView,
    DomainErrorView,
> {
    if user is Some && user->0.len() == 0 {
        Err(DomainErrorView::InvalidAuth { reason: "в os-режиме user не может быть пустым"@ })
    } else if os_user is Some && os_user->0.len() == 0 {
        Err(DomainErrorView::InvalidAuth { reason: "в os-режиме os_user не может быть пустым"@ })
    } else {
        Ok(AuthView::Os { user, os_user })
    }
}

/// Password credentials, which need a user and a password, or what they lack.
pub open spec fn password_auth(user: Seq<char>, password: Seq<char>) -> Result<
    AuthView,
    DomainErrorView,
> {
    if user.len() == 0 {
        Err(
            DomainErrorView::InvalidAuth {
                reason: "в password-режиме требуется непустой user"@,
            },
        )
    } else if password.len() == 0 {
        Err(
            DomainErrorView::InvalidAuth {
                reason: "в password-режиме требуется непустой password"@,
            },
        )
    } else {
        Ok(AuthView::Password { user, password })
    }
}

impl AuthConfig {
    pub fn none() -> (result: Self)
        ensures
            result@ == AuthView::NoAuth,
            result == AuthConfig::NoAuth,
    {
        AuthConfig::NoAuth
    }

    pub fn password(user: &str, password: SecretString) -> (result: Result<Self, DomainError>)
        ensures
            outcome::result_view(result) == password_auth(user@, password@),
    {
        if user.is_empty() {
            return Err(
                DomainError::InvalidAuth { reason: "в password-режиме требуется непустой user" },
            );
        }
        if password.is_empty() {
            return Err(
                DomainError::InvalidAuth {
                    reason: "в password-режиме требуется непустой password",
                },
            );
        }
        Ok(AuthConfig::Password(PasswordAuth { user: user.to_owned(), password }))
    }

    /// Credentials of the operating system.
    pub fn os(user: Option<&str>, os_user: Option<&str>) -> (result: Result<Self, DomainError>)
        ensures
            outcome::result_view(result) == os_auth(
                outcome::option_view(user),
                outcome::option_view(os_user),
            ),
    {
        let user = match user {
            Some(user) => {
                if user.is_empty() {
                    return Err(
                        DomainError::InvalidAuth { reason: "в os-режиме user не может быть пустым" },
                    );
                }
                Some(user.to_owned())
            },
            None => None,
        };
        let os_user = match os_user {
            Some(os_user) => {
                if os_user.is_empty() {
                    return Err(
                        DomainError::InvalidAuth {
                            reason: "в os-режиме os_user не может быть пустым",
                        },
                    );
                }
                Some(os_user.to_owned())
            },
            None => None,
        };
        Ok(AuthConfig::Os(OsAuth { user, os_user }))
    }

    pub fn mode(&self) -> (result: AuthMode)
        ensures
            result == (match self@ {
                AuthView::NoAuth => AuthMode::NoAuth,
                AuthView::Password { .. } => AuthMode::Password,
                AuthView::Os { .. } => AuthMode::Os,
            }),
    {
        match self {
            AuthConfig::NoAuth => AuthMode::NoAuth,
            AuthConfig::Password(_) => AuthMode::Password,
            AuthConfig::Os(_) => AuthMode::Os,
        }
    }

    pub fn user(&self) -> (result: Option<&str>)
        ensures
            outcome::option_view(result) == (match self@ {
                AuthView::NoAuth => None,
                AuthView::Password { user, .. } => Some(user),
                AuthView::Os { user, .. } => user,
            }),
    {
        match self {
            AuthConfig::NoAuth => None,
            AuthConfig::Password(auth) => Some(auth.user()),
            AuthConfig::Os(auth) => auth.user(),
        }
    }

    /// The account that the operating system is expected to name.
    pub fn expected_os_user(&self) -> (result: Option<&str>)
        ensures
            outcome::option_view(result) == (match self@ {
                AuthView::Os { os_user, .. } => os_user,
                _ => None,
            }),
    {
        match self {
            AuthConfig::Os(auth) => auth.os_user(),
            AuthConfig::NoAuth => None,
            AuthConfig::Password(_) => None,
        }
    }

    pub fn password_secret(&self) -> (result: Option<&SecretString>)
        ensures
            outcome::option_view(result) == (match self@ {
                AuthView::Password { password, .. } => Some(password),
                _ => None,
            }),
    {
        match self {
            AuthConfig::Password(auth) => Some(auth.password()),
            AuthConfig::NoAuth => None,
            AuthConfig::Os(_) => None,
        }
    }

    /// Overwrites the user and the password; credentials without a password stay.
    pub fn zeroize(&mut self)
        ensures
            final(self)@ == (match old(self)@ {
                AuthView::Password { .. } => AuthView::Password {
                    user: Seq::empty(),
                    password: Seq::empty(),
                },
                other => other,
            }),
    {
        match self {
            AuthConfig::NoAuth => {},
            AuthConfig::Os(_) => {},
            AuthConfig::Password(auth) => {
                wipe(&mut auth.user);
                auth.password.zeroize();
            },
        }
    }

    /// What a log may show of the credentials: never the password.
    pub fn debug_text(&self) -> (result: String)
        ensures
            result@ == auth_text(self@),
    {
        match self {
            AuthConfig::NoAuth => "AuthConfig::None".to_owned(),
            AuthConfig::Password(auth) => {
                let mut result = "AuthConfig::Password(".to_owned();
                result.push_str(auth.debug_text().as_str());
                result.push_str(")");
                result
            },
            AuthConfig::Os(_) => "AuthConfig::Os".to_owned(),
        }
    }
}

pub open spec fn auth_text(auth: AuthView) -> Seq<char> {
    match auth {
        AuthView::NoAuth => "AuthConfig::None"@,
        AuthView::Password { user, .. } => "AuthConfig::Password("@ + password_auth_text(user)
            + ")"@,
        AuthView::Os { .. } => "AuthConfig::Os"@,
    }
}

/// What a log shows of credentials does not depend on the password.
pub proof fn law_log_hides_password(user: Seq<char>, password: Seq<char>, other: Seq<char>)
    ensures
        auth_text(AuthView::Password { user, password }) == auth_text(
            AuthView::Password { user, password: other },
        ),
{
}

/// Credentials that are no longer used are overwritten.
impl Drop for AuthConfig {
    fn drop(&mut self)
        opens_invariants none
        no_unwind
    {
        match self {
            AuthConfig::NoAuth => {},
            AuthConfig::Os(_) => {},
            AuthConfig::Password(auth) => {
                wipe(&mut auth.user);
                wipe(&mut auth.password.value);
            },
        }
    }
}

impl Clone for AuthConfig {
    fn clone(&self) -> (result: Self)
        ensures
            result == *self,
    {
        match self {
            AuthConfig::NoAuth => AuthConfig::NoAuth,
            AuthConfig::Password(auth) => AuthConfig::Password(auth.clone()),
            AuthConfig::Os(auth) => AuthConfig::Os(auth.clone()),
        }
    }
}

} // verus!
