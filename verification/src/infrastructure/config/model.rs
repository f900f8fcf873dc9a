//! The model of the configuration and its validation.

use std::str::FromStr;

use indexmap::IndexMap;
use vstd::prelude::*;
use vstd::string::*;

use crate::domain::auth;
use crate::domain::entries;
use crate::domain::identity::Uuid;
use crate::infrastructure::rac::locator::clone_text;
use crate::outcome;
use crate::text;

verus! {

pub const CONFIG_SCHEMA_VERSION: u32 = 1;

/// A password of the configuration, which is written to its file and shown nowhere else.
#[derive(PartialEq, Eq)]
pub struct Password {
    value: String,
}

impl View for Password {
    type V = Seq<char>;

    closed spec fn view(&self) -> Seq<char> {
        self.value@
    }
}

impl Password {
    pub fn new(value: &str) -> (result: Self)
        ensures
            result@ == value@,
    {
        Password { value: value.to_owned() }
    }

    pub fn expose_secret(&self) -> (result: &str)
        ensures
            result@ == self@,
    {
        self.value.as_str()
    }

    /// Overwrites the password.
    pub fn zeroize(&mut self)
        ensures
            final(self)@ == Seq::<char>::empty(),
    {
        auth::wipe(&mut self.value);
    }

    /// What a log may show of the password.
    pub fn debug_text(&self) -> (result: String)
        ensures
            result@ == "Password([REDACTED])"@,
    {
        "Password([REDACTED])".to_owned()
    }

    /// What the operator may see of the password.
    pub fn to_text(&self) -> (result: String)
        ensures
            result@ == "[REDACTED]"@,
    {
        "[REDACTED]".to_owned()
    }
}

/// A password that is no longer used is overwritten.
impl Drop for Password {
    fn drop(&mut self)
        opens_invariants none
        no_unwind
    {
        auth::wipe(&mut self.value);
    }
}

impl Clone for Password {
    fn clone(&self) -> (result: Self)
        ensures
            result == *self,
    {
        Password { value: self.value.clone() }
    }
}

#[derive(Debug, PartialEq, Eq)]
pub enum LogLevel {
    Trace,
    Debug,
    Info,
    Warn,
    Error,
    Unsupported(String),
}

pub enum LogLevelView {
    Trace,
    Debug,
    Info,
    Warn,
    Error,
    Unsupported(Seq<char>),
}

impl View for LogLevel {
    type V = LogLevelView;

    open spec fn view(&self) -> LogLevelView {
        match self {
            LogLevel::Trace => LogLevelView::Trace,
            LogLevel::Debug => LogLevelView::Debug,
            LogLevel::Info => LogLevelView::Info,
            LogLevel::Warn => LogLevelView::Warn,
            LogLevel::Error => LogLevelView::Error,
            LogLevel::Unsupported(value) => LogLevelView::Unsupported(value@),
        }
    }
}

impl LogLevelView {
    pub open spec fn text(self) -> Seq<char> {
        match self {
            LogLevelView::Trace => "TRACE"@,
            LogLevelView::Debug => "DEBUG"@,
            LogLevelView::Info => "INFO"@,
            LogLevelView::Warn => "WARN"@,
            LogLevelView::Error => "ERROR"@,
            LogLevelView::Unsupported(value) => value,
        }
    }
}

/// The level that a text names, without regard to ASCII case.
pub open spec fn log_level_of(value: Seq<char>) -> LogLevelView {
    if text::same_ignoring_ascii_case(value, "TRACE"@) {
        LogLevelView::Trace
    } else if text::same_ignoring_ascii_case(value, "DEBUG"@) {
        LogLevelView::Debug
    } else if text::same_ignoring_ascii_case(value, "INFO"@) {
        LogLevelView::Info
    } else if text::same_ignoring_ascii_case(value, "WARN"@) || text::same_ignoring_ascii_case(
        value,
        "WARNING"@,
    ) {
        LogLevelView::Warn
    } else if text::same_ignoring_ascii_case(value, "ERROR"@) {
        LogLevelView::Error
    } else {
        LogLevelView::Unsupported(value)
    }
}

impl LogLevel {
    pub fn as_str(&self) -> (result: &str)
        ensures
            result@ == self@.text(),
    {
        match self {
            LogLevel::Trace => "TRACE",
            LogLevel::Debug => "DEBUG",
            LogLevel::Info => "INFO",
            LogLevel::Warn => "WARN",
            LogLevel::Error => "ERROR",
            LogLevel::Unsupported(value) => value.as_str(),
        }
    }

    pub fn is_supported(&self) -> (result: bool)
        ensures
            result == !(self@ is Unsupported),
    {
        !matches!(self, LogLevel::Unsupported(_))
    }

    /// The level that a text of the configuration names.
    pub fn from_yaml(value: &str) -> (result: Self)
        ensures
            result@ == log_level_of(value@),
    {
        if text::eq_ignore_ascii_case(value, "TRACE") {
            LogLevel::Trace
        } else if text::eq_ignore_ascii_case(value, "DEBUG") {
            LogLevel::Debug
        } else if text::eq_ignore_ascii_case(value, "INFO") {
            LogLevel::Info
        } else if text::eq_ignore_ascii_case(value, "WARN") || text::eq_ignore_ascii_case(
            value,
            "WARNING",
        ) {
            LogLevel::Warn
        } else if text::eq_ignore_ascii_case(value, "ERROR") {
            LogLevel::Error
        } else {
            LogLevel::Unsupported(value.to_owned())
        }
    }

    /// The supported level that a text names.
    pub fn parse(value: &str) -> (result: Result<Self, &'static str>)
        ensures
            match result {
                Ok(level) => level@ == log_level_of(value@) && !(log_level_of(value@) is Unsupported),
                Err(reason) => log_level_of(value@) is Unsupported && reason@
                    == "unsupported log level"@,
            },
    {
        let level = LogLevel::from_yaml(value);
        if level.is_supported() {
            Ok(level)
        } else {
            Err("unsupported log level")
        }
    }
}

impl FromStr for LogLevel {
    type Err = &'static str;

    fn from_str(value: &str) -> (result: Result<Self, &'static str>)
        ensures
            match result {
                Ok(level) => level@ == log_level_of(value@) && !(log_level_of(value@) is Unsupported),
                Err(reason) => log_level_of(value@) is Unsupported && reason@
                    == "unsupported log level"@,
            },
    {
        LogLevel::parse(value)
    }
}

impl Clone for LogLevel {
    fn clone(&self) -> (result: Self)
        ensures
            result == *self,
    {
        match self {
            LogLevel::Trace => LogLevel::Trace,
            LogLevel::Debug => LogLevel::Debug,
            LogLevel::Info => LogLevel::Info,
            LogLevel::Warn => LogLevel::Warn,
            LogLevel::Error => LogLevel::Error,
            LogLevel::Unsupported(value) => LogLevel::Unsupported(value.clone()),
        }
    }
}

impl Default for LogLevel {
    fn default() -> (result: Self)
        ensures
            result@ == LogLevelView::Info,
    {
        LogLevel::Info
    }
}

/// Which version of the utility the configuration asks for.
#[derive(Debug, PartialEq, Eq)]
pub enum RacVersion {
    Auto,
    Exact(String),
}

pub enum RacVersionView {
    Auto,
    Exact(Seq<char>),
}

impl View for RacVersion {
    type V = RacVersionView;

    open spec fn view(&self) -> RacVersionView {
        match self {
            RacVersion::Auto => RacVersionView::Auto,
            RacVersion::Exact(version) => RacVersionView::Exact(version@),
        }
    }
}

impl RacVersion {
    pub fn as_str(&self) -> (result: &str)
        ensures
            result@ == (match self@ {
                RacVersionView::Auto => "auto"@,
                RacVersionView::Exact(version) => version,
            }),
    {
        match self {
            RacVersion::Auto => "auto",
            RacVersion::Exact(version) => version.as_str(),
        }
    }

    /// The version that a text of the configuration asks for.
    pub fn from_yaml(value: &str) -> (result: Self)
        ensures
            result@ == (if text::same_ignoring_ascii_case(value@, "auto"@) {
                RacVersionView::Auto
            } else {
                RacVersionView::Exact(value@)
            }),
    {
        if text::eq_ignore_ascii_case(value, "auto") {
            RacVersion::Auto
        } else {
            RacVersion::Exact(value.to_owned())
        }
    }
}

impl Clone for RacVersion {
    fn clone(&self) -> (result: Self)
        ensures
            result == *self,
    {
        match self {
            RacVersion::Auto => RacVersion::Auto,
            RacVersion::Exact(version) => RacVersion::Exact(version.clone()),
        }
    }
}

impl Default for RacVersion {
    fn default() -> (result: Self)
        ensures
            result@ == RacVersionView::Auto,
    {
        RacVersion::Auto
    }
}

#[derive(Debug, PartialEq, Eq)]
pub struct Settings {
    pub timeout_seconds: u64,
    pub rac_path: Option<String>,
    pub log_level: LogLevel,
}

pub struct SettingsView {
    pub timeout_seconds: u64,
    pub rac_path: Option<Seq<char>>,
    pub log_level: LogLevelView,
}

impl View for Settings {
    type V = SettingsView;

    open spec fn view(&self) -> SettingsView {
        SettingsView {
            timeout_seconds: self.timeout_seconds,
            rac_path: outcome::option_view(self.rac_path),
            log_level: self.log_level@,
        }
    }
}

impl Clone for Settings {
    fn clone(&self) -> (result: Self)
        ensures
            result == *self,
    {
        Settings {
            timeout_seconds: self.timeout_seconds,
            rac_path: clone_text(&self.rac_path),
            log_level: self.log_level.clone(),
        }
    }
}

impl Default for Settings {
    fn default() -> (result: Self)
        ensures
            result@ == (SettingsView {
                timeout_seconds: 30,
                rac_path: None,
                log_level: LogLevelView::Info,
            }),
    {
        Settings { timeout_seconds: 30, rac_path: None, log_level: LogLevel::Info }
    }
}

#[derive(Debug, PartialEq, Eq)]
pub struct RasConfig {
    pub host: String,
    pub port: u16,
}

impl Clone for RasConfig {
    fn clone(&self) -> (result: Self)
        ensures
            result == *self,
    {
        RasConfig { host: self.host.clone(), port: self.port }
    }
}

/// The cluster that a server had when it was added.
#[derive(Debug, PartialEq, Eq)]
pub struct DiscoveredCluster {
    pub uuid: Uuid,
    pub name: String,
    pub host: String,
    pub port: u16,
}

impl Clone for DiscoveredCluster {
    fn clone(&self) -> (result: Self)
        ensures
            result == *self,
    {
        DiscoveredCluster {
            uuid: self.uuid,
            name: self.name.clone(),
            host: self.host.clone(),
            port: self.port,
        }
    }
}

#[derive(Debug, PartialEq, Eq)]
pub struct RacConfig {
    pub path: Option<String>,
    pub version: RacVersion,
}

impl Clone for RacConfig {
    fn clone(&self) -> (result: Self)
        ensures
            result == *self,
    {
        RacConfig { path: clone_text(&self.path), version: self.version.clone() }
    }
}

impl Default for RacConfig {
    fn default() -> (result: Self)
        ensures
            result.path is None,
            result.version@ == RacVersionView::Auto,
    {
        RacConfig { path: None, version: RacVersion::Auto }
    }
}

#[derive(Clone, Copy, Debug, PartialEq, Eq, Structural)]
pub enum AuthMode {
    Password,
    Os,
    NoAuth,
}

#[derive(PartialEq, Eq)]
pub struct PasswordAuth {
    pub user: String,
    pub password: Password,
}

#[derive(PartialEq, Eq)]
pub struct OsAuth {
    pub user: String,
    pub os_user: Option<String>,
}

#[derive(PartialEq, Eq)]
pub struct NoAuth {}

/// Credentials of the configuration.
#[derive(PartialEq, Eq)]
pub enum AuthConfig {
    Password(PasswordAuth),
    Os(OsAuth),
    NoAuth(NoAuth),
}

/// Credentials as a mathematical value.
pub enum CredentialView {
    Password { user: Seq<char>, password: Seq<char> },
    Os { user: Seq<char>, os_user: Option<Seq<char>> },
    NoAuth,
}

impl CredentialView {
    pub open spec fn mode(self) -> AuthMode {
        match self {
            CredentialView::Password { .. } => AuthMode::Password,
            CredentialView::Os { .. } => AuthMode::Os,
            CredentialView::NoAuth => AuthMode::NoAuth,
        }
    }
}

impl View for AuthConfig {
    type V = CredentialView;

    open spec fn view(&self) -> CredentialView {
        match self {
            AuthConfig::Password(auth) => CredentialView::Password {
                user: auth.user@,
                password: auth.password@,
            },
            AuthConfig::Os(auth) => CredentialView::Os {
                user: auth.user@,
                os_user: outcome::option_view(auth.os_user),
            },
            AuthConfig::NoAuth(_) => CredentialView::NoAuth,
        }
    }
}

/// Borrowed credentials.
#[derive(Clone, Copy)]
pub enum AuthRef<'a> {
    Password { user: &'a str, password: &'a Password },
    Os { user: &'a str, os_user: Option<&'a str> },
    NoAuth,
}

impl<'a> View for AuthRef<'a> {
    type V = CredentialView;

    open spec fn view(&self) -> CredentialView {
        match self {
            AuthRef::Password { user, password } => CredentialView::Password {
                user: user@,
                password: password@,
            },
            AuthRef::Os { user, os_user } => CredentialView::Os {
                user: user@,
                os_user: outcome::option_view(*os_user),
            },
            AuthRef::NoAuth => CredentialView::NoAuth,
        }
    }
}

fn borrow_text(value: &Option<String>) -> (result: Option<&str>)
    ensures
        outcome::option_view(result) == outcome::option_view(*value),
{
    match value {
        Some(value) => Some(value.as_str()),
        None => None,
    }
}

impl AuthConfig {
    pub fn password(user: &str, password: Password) -> (result: Self)
        ensures
            result@ == (CredentialView::Password { user: user@, password: password@ }),
    {
        AuthConfig::Password(PasswordAuth { user: user.to_owned(), password })
    }

    pub fn os(user: &str, os_user: Option<String>) -> (result: Self)
        ensures
            result@ == (CredentialView::Os { user: user@, os_user: outcome::option_view(os_user) }),
    {
        AuthConfig::Os(OsAuth { user: user.to_owned(), os_user })
    }

    pub fn none() -> (result: Self)
        ensures
            result@ == CredentialView::NoAuth,
    {
        AuthConfig::NoAuth(NoAuth {  })
    }

    pub fn mode(&self) -> (result: AuthMode)
        ensures
            result == self@.mode(),
    {
        match self {
            AuthConfig::Password(_) => AuthMode::Password,
            AuthConfig::Os(_) => AuthMode::Os,
            AuthConfig::NoAuth(_) => AuthMode::NoAuth,
        }
    }

    pub fn as_ref(&self) -> (result: AuthRef<'_>)
        ensures
            result@ == self@,
    {
        match self {
            AuthConfig::Password(auth) => AuthRef::Password {
                user: auth.user.as_str(),
                password: &auth.password,
            },
            AuthConfig::Os(auth) => AuthRef::Os {
                user: auth.user.as_str(),
                os_user: borrow_text(&auth.os_user),
            },
            AuthConfig::NoAuth(_) => AuthRef::NoAuth,
        }
    }
}

impl Clone for AuthConfig {
    fn clone(&self) -> (result: Self)
        ensures
            result == *self,
    {
        match self {
            AuthConfig::Password(auth) => AuthConfig::Password(
                PasswordAuth { user: auth.user.clone(), password: auth.password.clone() },
            ),
            AuthConfig::Os(auth) => AuthConfig::Os(
                OsAuth { user: auth.user.clone(), os_user: clone_text(&auth.os_user) },
            ),
            AuthConfig::NoAuth(_) => AuthConfig::NoAuth(NoAuth {  }),
        }
    }
}

impl Default for AuthConfig {
    fn default() -> (result: Self)
        ensures
            result@ == CredentialView::NoAuth,
    {
        AuthConfig::none()
    }
}

#[derive(PartialEq, Eq)]
pub struct PasswordInfobaseAuthOverride {
    pub infobase: String,
    pub infobase_uuid: Option<Uuid>,
    pub user: String,
    pub password: Password,
}

#[derive(PartialEq, Eq)]
pub struct OsInfobaseAuthOverride {
    pub infobase: String,
    pub infobase_uuid: Option<Uuid>,
    pub user: String,
    pub os_user: Option<String>,
}

#[derive(PartialEq, Eq)]
pub struct NoneInfobaseAuthOverride {
    pub infobase: String,
    pub infobase_uuid: Option<Uuid>,
}

/// Credentials for one infobase.
#[derive(PartialEq, Eq)]
pub enum InfobaseAuthOverride {
    Password(PasswordInfobaseAuthOverride),
    Os(OsInfobaseAuthOverride),
    NoAuth(NoneInfobaseAuthOverride),
}

pub struct EntryView {
    pub infobase: Seq<char>,
    pub infobase_uuid: Option<u128>,
    pub auth: CredentialView,
}

impl View for InfobaseAuthOverride {
    type V = EntryView;

    open spec fn view(&self) -> EntryView {
        match self {
            InfobaseAuthOverride::Password(entry) => EntryView {
                infobase: entry.infobase@,
                infobase_uuid: outcome::option_view(entry.infobase_uuid),
                auth: CredentialView::Password { user: entry.user@, password: entry.password@ },
            },
            InfobaseAuthOverride::Os(entry) => EntryView {
                infobase: entry.infobase@,
                infobase_uuid: outcome::option_view(entry.infobase_uuid),
                auth: CredentialView::Os {
                    user: entry.user@,
                    os_user: outcome::option_view(entry.os_user),
                },
            },
            InfobaseAuthOverride::NoAuth(entry) => EntryView {
                infobase: entry.infobase@,
                infobase_uuid: outcome::option_view(entry.infobase_uuid),
                auth: CredentialView::NoAuth,
            },
        }
    }
}

impl InfobaseAuthOverride {
    pub fn password(
        infobase: &str,
        infobase_uuid: Option<Uuid>,
        user: &str,
        password: Password,
    ) -> (result: Self)
        ensures
            result@ == (EntryView {
                infobase: infobase@,
                infobase_uuid: outcome::option_view(infobase_uuid),
                auth: CredentialView::Password { user: user@, password: password@ },
            }),
    {
        InfobaseAuthOverride::Password(
            PasswordInfobaseAuthOverride {
                infobase: infobase.to_owned(),
                infobase_uuid,
                user: user.to_owned(),
                password,
            },
        )
    }

    pub fn os(
        infobase: &str,
        infobase_uuid: Option<Uuid>,
        user: &str,
        os_user: Option<String>,
    ) -> (result: Self)
        ensures
            result@ == (EntryView {
                infobase: infobase@,
                infobase_uuid: outcome::option_view(infobase_uuid),
                auth: CredentialView::Os { user: user@, os_user: outcome::option_view(os_user) },
            }),
    {
        InfobaseAuthOverride::Os(
            OsInfobaseAuthOverride {
                infobase: infobase.to_owned(),
                infobase_uuid,
                user: user.to_owned(),
                os_user,
            },
        )
    }

    pub fn none(infobase: &str, infobase_uuid: Option<Uuid>) -> (result: Self)
        ensures
            result@ == (EntryView {
                infobase: infobase@,
                infobase_uuid: outcome::option_view(infobase_uuid),
                auth: CredentialView::NoAuth,
            }),
    {
        InfobaseAuthOverride::NoAuth(
            NoneInfobaseAuthOverride { infobase: infobase.to_owned(), infobase_uuid },
        )
    }

    pub fn infobase(&self) -> (result: &str)
        ensures
            result@ == self@.infobase,
    {
        match self {
            InfobaseAuthOverride::Password(entry) => entry.infobase.as_str(),
            InfobaseAuthOverride::Os(entry) => entry.infobase.as_str(),
            InfobaseAuthOverride::NoAuth(entry) => entry.infobase.as_str(),
        }
    }

    pub fn infobase_uuid(&self) -> (result: Option<Uuid>)
        ensures
            outcome::option_view(result) == self@.infobase_uuid,
    {
        match self {
            InfobaseAuthOverride::Password(entry) => entry.infobase_uuid,
            InfobaseAuthOverride::Os(entry) => entry.infobase_uuid,
            InfobaseAuthOverride::NoAuth(entry) => entry.infobase_uuid,
        }
    }

    pub fn mode(&self) -> (result: AuthMode)
        ensures
            result == self@.auth.mode(),
    {
        match self {
            InfobaseAuthOverride::Password(_) => AuthMode::Password,
            InfobaseAuthOverride::Os(_) => AuthMode::Os,
            InfobaseAuthOverride::NoAuth(_) => AuthMode::NoAuth,
        }
    }

    pub fn as_ref(&self) -> (result: AuthRef<'_>)
        ensures
            result@ == self@.auth,
    {
        match self {
            InfobaseAuthOverride::Password(entry) => AuthRef::Password {
                user: entry.user.as_str(),
                password: &entry.password,
            },
            InfobaseAuthOverride::Os(entry) => AuthRef::Os {
                user: entry.user.as_str(),
                os_user: borrow_text(&entry.os_user),
            },
            InfobaseAuthOverride::NoAuth(_) => AuthRef::NoAuth,
        }
    }
}

impl Clone for InfobaseAuthOverride {
    fn clone(&self) -> (result: Self)
        ensures
            result == *self,
    {
        match self {
            InfobaseAuthOverride::Password(entry) => InfobaseAuthOverride::Password(
                PasswordInfobaseAuthOverride {
                    infobase: entry.infobase.clone(),
                    infobase_uuid: entry.infobase_uuid,
                    user: entry.user.clone(),
                    password: entry.password.clone(),
                },
            ),
            InfobaseAuthOverride::Os(entry) => InfobaseAuthOverride::Os(
                OsInfobaseAuthOverride {
                    infobase: entry.infobase.clone(),
                    infobase_uuid: entry.infobase_uuid,
                    user: entry.user.clone(),
                    os_user: clone_text(&entry.os_user),
                },
            ),
            InfobaseAuthOverride::NoAuth(entry) => InfobaseAuthOverride::NoAuth(
                NoneInfobaseAuthOverride {
                    infobase: entry.infobase.clone(),
                    infobase_uuid: entry.infobase_uuid,
                },
            ),
        }
    }
}

pub open spec fn entry_views(entries: Seq<InfobaseAuthOverride>) -> Seq<EntryView> {
    entries.map_values(|entry: InfobaseAuthOverride| entry@)
}

/// Credentials for infobases: the usual ones, and those of single infobases.
#[derive(PartialEq, Eq)]
pub struct InfobaseAuthConfig {
    pub default: AuthConfig,
    pub overrides: Vec<InfobaseAuthOverride>,
}

pub struct InfobaseAuthView {
    pub default: CredentialView,
    pub overrides: Seq<EntryView>,
}

impl View for InfobaseAuthConfig {
    type V = InfobaseAuthView;

    open spec fn view(&self) -> InfobaseAuthView {
        InfobaseAuthView { default: self.default@, overrides: entry_views(self.overrides@) }
    }
}

/// The position of the first entry of an identity at or after `from`, or the length.
pub open spec fn entry_by_uuid(entries: Seq<EntryView>, uuid: u128, from: int) -> int
    decreases entries.len() - from,
{
    if from >= entries.len() {
        entries.len() as int
    } else if entries[from].infobase_uuid == Some(uuid) {
        from
    } else {
        entry_by_uuid(entries, uuid, from + 1)
    }
}

/// The position of the first entry of a name at or after `from`, in lower case, or the length.
pub open spec fn entry_by_name(entries: Seq<EntryView>, name: Seq<char>, from: int) -> int
    decreases entries.len() - from,
{
    if from >= entries.len() {
        entries.len() as int
    } else if text::lowercase(entries[from].infobase) == text::lowercase(name) {
        from
    } else {
        entry_by_name(entries, name, from + 1)
    }
}

/// The position of the entry for an infobase: by its identity, else by its name; the length where
/// there is none.
pub open spec fn entry_position(
    entries: Seq<EntryView>,
    uuid: Option<u128>,
    name: Seq<char>,
) -> int {
    match uuid {
        Some(uuid) if entry_by_uuid(entries, uuid, 0) < entries.len() => entry_by_uuid(
            entries,
            uuid,
            0,
        ),
        _ => entry_by_name(entries, name, 0),
    }
}

impl InfobaseAuthView {
    /// The credentials for an infobase.
    pub open spec fn resolved(self, uuid: Option<u128>, name: Seq<char>) -> CredentialView {
        let at = entry_position(self.overrides, uuid, name);
        if at < self.overrides.len() {
            self.overrides[at].auth
        } else {
            self.default
        }
    }
}

/// Finds the entry of an identity.
pub(crate) fn find_entry_by_uuid(entries: &Vec<InfobaseAuthOverride>, uuid: Uuid) -> (result: usize)
    ensures
        result == entry_by_uuid(entry_views(entries@), uuid@, 0),
        result <= entries@.len(),
{
    let ghost all = entry_views(entries@);
    let mut i: usize = 0;
    while i < entries.len()
        invariant
            i <= entries.len(),
            all == entry_views(entries@),
            entry_by_uuid(all, uuid@, 0) == entry_by_uuid(all, uuid@, i as int),
        decreases entries.len() - i,
    {
        assert(all[i as int] == entries@[i as int]@);
        match entries[i].infobase_uuid() {
            Some(found) => {
                if found.as_u128() == uuid.as_u128() {
                    return i;
                }
            },
            None => {},
        }
        i = i + 1;
    }
    i
}

/// Finds the entry of a name.
pub(crate) fn find_entry_by_name(entries: &Vec<InfobaseAuthOverride>, name: &str) -> (result: usize)
    ensures
        result == entry_by_name(entry_views(entries@), name@, 0),
        result <= entries@.len(),
{
    let ghost all = entry_views(entries@);
    let folded = text::to_lowercase(name);
    let mut i: usize = 0;
    while i < entries.len()
        invariant
            i <= entries.len(),
            all == entry_views(entries@),
            folded@ == text::lowercase(name@),
            entry_by_name(all, name@, 0) == entry_by_name(all, name@, i as int),
        decreases entries.len() - i,
    {
        assert(all[i as int] == entries@[i as int]@);
        if text::same(text::to_lowercase(entries[i].infobase()).as_str(), folded.as_str()) {
            return i;
        }
        i = i + 1;
    }
    i
}

impl InfobaseAuthConfig {
    /// The entry for an infobase: by its identity, else by its name.
    pub fn find_override(&self, infobase_uuid: Option<Uuid>, infobase: &str) -> (result: Option<
        &InfobaseAuthOverride,
    >)
        ensures
            ({
                let at = entry_position(
                    self@.overrides,
                    outcome::option_view(infobase_uuid),
                    infobase@,
                );
                match result {
                    Some(entry) => at < self@.overrides.len() && entry@ == self@.overrides[at],
                    None => at >= self@.overrides.len(),
                }
            }),
    {
        match infobase_uuid {
            Some(uuid) => {
                let at: usize = find_entry_by_uuid(&self.overrides, uuid);
                if at < self.overrides.len() {
                    assert(self@.overrides[at as int] == self.overrides@[at as int]@);
                    return Some(&self.overrides[at]);
                }
            },
            None => {},
        }
        let at: usize = find_entry_by_name(&self.overrides, infobase);
        if at < self.overrides.len() {
            assert(self@.overrides[at as int] == self.overrides@[at as int]@);
            Some(&self.overrides[at])
        } else {
            None
        }
    }

    /// The credentials for an infobase.
    pub fn resolve(&self, infobase_uuid: Option<Uuid>, infobase: &str) -> (result: AuthRef<'_>)
        ensures
            result@ == self@.resolved(outcome::option_view(infobase_uuid), infobase@),
    {
        match self.find_override(infobase_uuid, infobase) {
            Some(entry) => entry.as_ref(),
            None => self.default.as_ref(),
        }
    }
}

/// Clones a list of entries.
pub(crate) fn clone_entries(entries: &Vec<InfobaseAuthOverride>) -> (result: Vec<
    InfobaseAuthOverride,
>)
    ensures
        result@ == entries@,
{
    let mut result: Vec<InfobaseAuthOverride> = Vec::new();
    let mut i: usize = 0;
    while i < entries.len()
        invariant
            i <= entries.len(),
            result@ == entries@.take(i as int),
        decreases entries.len() - i,
    {
        assert(entries@.take(i as int).push(entries@[i as int]) =~= entries@.take(i + 1));
        result.push(entries[i].clone());
        i = i + 1;
    }
    assert(entries@.take(entries@.len() as int) =~= entries@);
    result
}

impl Clone for InfobaseAuthConfig {
    fn clone(&self) -> (result: Self)
        ensures
            result@ == self@,
    {
        InfobaseAuthConfig {
            default: self.default.clone(),
            overrides: clone_entries(&self.overrides),
        }
    }
}

impl Default for InfobaseAuthConfig {
    fn default() -> (result: Self)
        ensures
            result@ == (InfobaseAuthView {
                default: CredentialView::NoAuth,
                overrides: Seq::empty(),
            }),
    {
        let result = InfobaseAuthConfig { default: AuthConfig::none(), overrides: Vec::new() };
        assert(result@.overrides =~= Seq::<EntryView>::empty());
        result
    }
}

/// A server and its cluster.
#[derive(PartialEq, Eq)]
pub struct ClusterConfig {
    pub ras: RasConfig,
    pub discovered_cluster: DiscoveredCluster,
    pub rac: RacConfig,
    pub cluster_auth: AuthConfig,
    pub infobase_auth: InfobaseAuthConfig,
}

pub struct ClusterView {
    pub ras_host: Seq<char>,
    pub ras_port: u16,
    pub uuid: u128,
    pub name: Seq<char>,
    pub host: Seq<char>,
    pub port: u16,
    pub rac_path: Option<Seq<char>>,
    pub rac_version: RacVersionView,
    pub cluster_auth: CredentialView,
    pub infobase_auth: InfobaseAuthView,
}

impl View for ClusterConfig {
    type V = ClusterView;

    open spec fn view(&self) -> ClusterView {
        ClusterView {
            ras_host: self.ras.host@,
            ras_port: self.ras.port,
            uuid: self.discovered_cluster.uuid@,
            name: self.discovered_cluster.name@,
            host: self.discovered_cluster.host@,
            port: self.discovered_cluster.port,
            rac_path: outcome::option_view(self.rac.path),
            rac_version: self.rac.version@,
            cluster_auth: self.cluster_auth@,
            infobase_auth: self.infobase_auth@,
        }
    }
}

impl Clone for ClusterConfig {
    fn clone(&self) -> (result: Self)
        ensures
            result@ == self@,
    {
        ClusterConfig {
            ras: self.ras.clone(),
            discovered_cluster: self.discovered_cluster.clone(),
            rac: self.rac.clone(),
            cluster_auth: self.cluster_auth.clone(),
            infobase_auth: self.infobase_auth.clone(),
        }
    }
}

/// The clusters of a configuration under their aliases, in order.
pub type Clusters = IndexMap<String, ClusterConfig>;

/// The entries of a map of clusters, in order.
pub uninterp spec fn cluster_entries(clusters: IndexMap<String, ClusterConfig>) -> Seq<
    (Seq<char>, ClusterView),
>;

/// Calls `IndexMap::new`: the map is empty.
#[verifier::external_body]
pub(crate) fn new_clusters() -> (result: Clusters)
    ensures
        cluster_entries(result) == Seq::<(Seq<char>, ClusterView)>::empty(),
{
    IndexMap::new()
}

/// Calls `IndexMap::clone`: the copy holds the same entries, since a `String` and a `ClusterConfig`
/// are cloned to equal ones.
#[verifier::external_body]
pub(crate) fn clone_clusters(clusters: &Clusters) -> (result: Clusters)
    ensures
        cluster_entries(result) == cluster_entries(*clusters),
{
    clusters.clone()
}

/// Calls `IndexMap::len`: the number of entries. No key occurs twice in a map.
#[verifier::external_body]
pub(crate) fn clusters_len(clusters: &Clusters) -> (result: usize)
    ensures
        entries::counts(result, cluster_entries(*clusters)),
{
    clusters.len()
}

/// Calls `IndexMap::get_index`: the entry at a position, in insertion order.
#[verifier::external_body]
pub(crate) fn clusters_at(clusters: &Clusters, index: usize) -> (result: Option<
    (&String, &ClusterConfig),
>)
    ensures
        match result {
            Some((alias, cluster)) => index < cluster_entries(*clusters).len() && cluster_entries(
                *clusters,
            )[index as int] == (alias@, cluster@),
            None => index >= cluster_entries(*clusters).len(),
        },
{
    clusters.get_index(index)
}

/// Calls `IndexMap::insert`: a known key keeps its place and gets the new value, a new key goes
/// last.
#[verifier::external_body]
pub(crate) fn clusters_insert(clusters: &mut Clusters, alias: String, cluster: ClusterConfig)
    ensures
        cluster_entries(*final(clusters)) == entries::inserted(
            cluster_entries(*old(clusters)),
            alias@,
            cluster@,
        ),
{
    clusters.insert(alias, cluster);
}

/// Calls `IndexMap::shift_remove`: the key goes, and the entries behind it move up in order.
#[verifier::external_body]
pub(crate) fn clusters_remove(clusters: &mut Clusters, alias: &str)
    ensures
        cluster_entries(*final(clusters)) == entries::removed(
            cluster_entries(*old(clusters)),
            alias@,
        ),
{
    clusters.shift_remove(alias);
}

/// The whole configuration.
pub struct Config {
    pub schema_version: u32,
    pub settings: Settings,
    pub clusters: Clusters,
}

pub struct ConfigView {
    pub schema_version: u32,
    pub settings: SettingsView,
    pub clusters: Seq<(Seq<char>, ClusterView)>,
}

impl View for Config {
    type V = ConfigView;

    open spec fn view(&self) -> ConfigView {
        ConfigView {
            schema_version: self.schema_version,
            settings: self.settings@,
            clusters: cluster_entries(self.clusters),
        }
    }
}

impl Clone for Config {
    fn clone(&self) -> (result: Self)
        ensures
            result@ == self@,
    {
        Config {
            schema_version: self.schema_version,
            settings: self.settings.clone(),
            clusters: clone_clusters(&self.clusters),
        }
    }
}

impl Default for Config {
    fn default() -> (result: Self)
        ensures
            result@ == (ConfigView {
                schema_version: CONFIG_SCHEMA_VERSION,
                settings: SettingsView {
                    timeout_seconds: 30,
                    rac_path: None,
                    log_level: LogLevelView::Info,
                },
                clusters: Seq::empty(),
            }),
    {
        Config {
            schema_version: CONFIG_SCHEMA_VERSION,
            settings: Settings::default(),
            clusters: new_clusters(),
        }
    }
}

} // verus!
