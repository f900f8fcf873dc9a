//! Errors of the configuration: what is wrong with it, and what went wrong with its file.

use vstd::prelude::*;
use vstd::string::*;

use crate::domain::identity;
use crate::domain::identity::Uuid;
use crate::number;
use crate::text;

verus! {

/// What is wrong with a configuration.
#[derive(Debug, PartialEq, Eq)]
#[allow(inconsistent_fields)]
pub enum ValidationError {
    UnsupportedSchemaVersion { expected: u32, found: u32 },
    InvalidTimeout,
    InvalidLogLevel { value: String },
    InvalidAlias { alias: String },
    DuplicateAlias { first: String, second: String },
    InvalidPort { field: String },
    EmptyField { field: String },
    EmptyPath { field: String },
    InvalidRacVersion { field: String, value: String },
    DuplicateOverrideName { cluster: String, infobase: String, first: usize, second: usize },
    DuplicateOverrideUuid { cluster: String, uuid: Uuid, first: usize, second: usize },
}

/// What is wrong with a configuration, as a mathematical value.
#[allow(inconsistent_fields)]
pub enum ValidationProblem {
    UnsupportedSchemaVersion { expected: u32, found: u32 },
    InvalidTimeout,
    InvalidLogLevel { value: Seq<char> },
    InvalidAlias { alias: Seq<char> },
    DuplicateAlias { first: Seq<char>, second: Seq<char> },
    InvalidPort { field: Seq<char> },
    EmptyField { field: Seq<char> },
    EmptyPath { field: Seq<char> },
    InvalidRacVersion { field: Seq<char>, value: Seq<char> },
    DuplicateOverrideName { cluster: Seq<char>, infobase: Seq<char>, first: nat, second: nat },
    DuplicateOverrideUuid { cluster: Seq<char>, uuid: u128, first: nat, second: nat },
}

impl View for ValidationError {
    type V = ValidationProblem;

    open spec fn view(&self) -> ValidationProblem {
        match self {
            ValidationError::UnsupportedSchemaVersion { expected, found } => ValidationProblem::UnsupportedSchemaVersion {
                expected: *expected,
                found: *found,
            },
            ValidationError::InvalidTimeout => ValidationProblem::InvalidTimeout,
            ValidationError::InvalidLogLevel { value } => ValidationProblem::InvalidLogLevel {
                value: value@,
            },
            ValidationError::InvalidAlias { alias } => ValidationProblem::InvalidAlias {
                alias: alias@,
            },
            ValidationError::DuplicateAlias { first, second } => ValidationProblem::DuplicateAlias {
                first: first@,
                second: second@,
            },
            ValidationError::InvalidPort { field } => ValidationProblem::InvalidPort {
                field: field@,
            },
            ValidationError::EmptyField { field } => ValidationProblem::EmptyField {
                field: field@,
            },
            ValidationError::EmptyPath { field } => ValidationProblem::EmptyPath {
                field: field@,
            },
            ValidationError::InvalidRacVersion { field, value } => ValidationProblem::InvalidRacVersion {
                field: field@,
                value: value@,
            },
            ValidationError::DuplicateOverrideName { cluster, infobase, first, second } => ValidationProblem::DuplicateOverrideName {
                cluster: cluster@,
                infobase: infobase@,
                first: *first as nat,
                second: *second as nat,
            },
            ValidationError::DuplicateOverrideUuid { cluster, uuid, first, second } => ValidationProblem::DuplicateOverrideUuid {
                cluster: cluster@,
                uuid: uuid@,
                first: *first as nat,
                second: *second as nat,
            },
        }
    }
}

impl ValidationProblem {
    /// The text shown to the operator.
    pub open spec fn message(self) -> Seq<char> {
        match self {
            ValidationProblem::UnsupportedSchemaVersion { expected, found } => "unsupported schema_version "@
                + number::decimal(found as nat)
                + "; expected "@
                + number::decimal(expected as nat),
            ValidationProblem::InvalidTimeout => "settings.timeout_seconds must be greater than zero"@,
            ValidationProblem::InvalidLogLevel { value } => "unsupported settings.log_level `"@
                + value
                + "`; use TRACE, DEBUG, INFO, WARN, or ERROR"@,
            ValidationProblem::InvalidAlias { alias } => "invalid cluster alias `"@
                + alias
                + "`; allowed characters are ASCII letters, digits, '.', '_', '-', and ':'"@,
            ValidationProblem::DuplicateAlias { first, second } => "cluster aliases `"@
                + first
                + "` and `"@
                + second
                + "` are equal ignoring ASCII case"@,
            ValidationProblem::InvalidPort { field } => field
                + " must be in the range 1..=65535"@,
            ValidationProblem::EmptyField { field } => field
                + " must not be empty"@,
            ValidationProblem::EmptyPath { field } => field
                + " must not be an empty path"@,
            ValidationProblem::InvalidRacVersion { field, value } => "invalid RAC version `"@
                + value
                + "` in "@
                + field
                + "; expected `auto` or 8.3.20+"@,
            ValidationProblem::DuplicateOverrideName { cluster, infobase, first, second } => "duplicate infobase override name `"@
                + infobase
                + "` in cluster `"@
                + cluster
                + "` at indexes "@
                + number::decimal(first)
                + " and "@
                + number::decimal(second),
            ValidationProblem::DuplicateOverrideUuid { cluster, uuid, first, second } => "duplicate infobase override UUID `"@
                + identity::uuid_text(uuid)
                + "` in cluster `"@
                + cluster
                + "` at indexes "@
                + number::decimal(first)
                + " and "@
                + number::decimal(second),
        }
    }
}

impl ValidationError {
    /// The text shown to the operator.
    pub fn message(&self) -> (result: String)
        ensures
            result@ == self@.message(),
    {
        match self {
            ValidationError::UnsupportedSchemaVersion { expected, found } => {
                let mut result = "unsupported schema_version ".to_owned();
                result.push_str(number::format_u64(*found as u64).as_str());
                result.push_str("; expected ");
                result.push_str(number::format_u64(*expected as u64).as_str());
                result
            },
            ValidationError::InvalidTimeout => "settings.timeout_seconds must be greater than zero".to_owned(),
            ValidationError::InvalidLogLevel { value } => {
                let mut result = "unsupported settings.log_level `".to_owned();
                result.push_str(value.as_str());
                result.push_str("`; use TRACE, DEBUG, INFO, WARN, or ERROR");
                result
            },
            ValidationError::InvalidAlias { alias } => {
                let mut result = "invalid cluster alias `".to_owned();
                result.push_str(alias.as_str());
                result.push_str("`; allowed characters are ASCII letters, digits, '.', '_', '-', and ':'");
                result
            },
            ValidationError::DuplicateAlias { first, second } => {
                let mut result = "cluster aliases `".to_owned();
                result.push_str(first.as_str());
                result.push_str("` and `");
                result.push_str(second.as_str());
                result.push_str("` are equal ignoring ASCII case");
                result
            },
            ValidationError::InvalidPort { field } => {
                let mut result = field.as_str().to_owned();
                result.push_str(" must be in the range 1..=65535");
                result
            },
            ValidationError::EmptyField { field } => {
                let mut result = field.as_str().to_owned();
                result.push_str(" must not be empty");
                result
            },
            ValidationError::EmptyPath { field } => {
                let mut result = field.as_str().to_owned();
                result.push_str(" must not be an empty path");
                result
            },
            ValidationError::InvalidRacVersion { field, value } => {
                let mut result = "invalid RAC version `".to_owned();
                result.push_str(value.as_str());
                result.push_str("` in ");
                result.push_str(field.as_str());
                result.push_str("; expected `auto` or 8.3.20+");
                result
            },
            ValidationError::DuplicateOverrideName { cluster, infobase, first, second } => {
                let mut result = "duplicate infobase override name `".to_owned();
                result.push_str(infobase.as_str());
                result.push_str("` in cluster `");
                result.push_str(cluster.as_str());
                result.push_str("` at indexes ");
                result.push_str(number::format_u64(*first as u64).as_str());
                result.push_str(" and ");
                result.push_str(number::format_u64(*second as u64).as_str());
                result
            },
            ValidationError::DuplicateOverrideUuid { cluster, uuid, first, second } => {
                let mut result = "duplicate infobase override UUID `".to_owned();
                result.push_str(uuid.to_text().as_str());
                result.push_str("` in cluster `");
                result.push_str(cluster.as_str());
                result.push_str("` at indexes ");
                result.push_str(number::format_u64(*first as u64).as_str());
                result.push_str(" and ");
                result.push_str(number::format_u64(*second as u64).as_str());
                result
            },
        }
    }
}

/// Where a text is no configuration, and why. It never carries the text itself.
#[derive(Debug, PartialEq, Eq)]
pub struct SafeYamlError {
    detail: String,
    line: Option<usize>,
    column: Option<usize>,
}

pub struct YamlProblem {
    pub detail: Seq<char>,
    pub line: Option<usize>,
    pub column: Option<usize>,
}

impl View for SafeYamlError {
    type V = YamlProblem;

    closed spec fn view(&self) -> YamlProblem {
        YamlProblem { detail: self.detail@, line: self.line, column: self.column }
    }
}

impl YamlProblem {
    pub open spec fn of(detail: Seq<char>, location: Option<(usize, usize)>) -> YamlProblem {
        match location {
            Some((line, column)) => YamlProblem { detail, line: Some(line), column: Some(column) },
            None => YamlProblem { detail, line: None, column: None },
        }
    }

    /// The text shown to the operator.
    pub open spec fn text(self) -> Seq<char> {
        match (self.line, self.column) {
            (Some(line), Some(column)) => self.detail + " at line "@ + number::decimal(line as nat)
                + ", column "@ + number::decimal(column as nat),
            _ => self.detail,
        }
    }
}

impl SafeYamlError {
    pub fn new(detail: &str, location: Option<(usize, usize)>) -> (result: Self)
        ensures
            result@ == YamlProblem::of(detail@, location),
    {
        match location {
            Some((line, column)) => SafeYamlError {
                detail: detail.to_owned(),
                line: Some(line),
                column: Some(column),
            },
            None => SafeYamlError { detail: detail.to_owned(), line: None, column: None },
        }
    }

    pub fn detail(&self) -> (result: &str)
        ensures
            result@ == self@.detail,
    {
        self.detail.as_str()
    }

    pub fn line(&self) -> (result: Option<usize>)
        ensures
            result == self@.line,
    {
        self.line
    }

    pub fn column(&self) -> (result: Option<usize>)
        ensures
            result == self@.column,
    {
        self.column
    }

    /// The text shown to the operator.
    pub fn to_text(&self) -> (result: String)
        ensures
            result@ == self@.text(),
    {
        match (self.line, self.column) {
            (Some(line), Some(column)) => {
                let mut result = self.detail.as_str().to_owned();
                result.push_str(" at line ");
                result.push_str(number::format_u64(line as u64).as_str());
                result.push_str(", column ");
                result.push_str(number::format_u64(column as u64).as_str());
                result
            },
            _ => self.detail.as_str().to_owned(),
        }
    }
}

/// A file could not be restricted to its owner.
#[derive(Debug, PartialEq, Eq)]
pub struct AclError {
    message: String,
}

impl View for AclError {
    type V = Seq<char>;

    closed spec fn view(&self) -> Seq<char> {
        self.message@
    }
}

impl AclError {
    pub fn new(message: &str) -> (result: Self)
        ensures
            result@ == message@,
    {
        AclError { message: message.to_owned() }
    }

    pub fn message(&self) -> (result: &str)
        ensures
            result@ == self@,
    {
        self.message.as_str()
    }
}

/// What went wrong with the configuration or its file.
#[derive(Debug, PartialEq, Eq)]
#[allow(inconsistent_fields)]
pub enum ConfigError {
    EmptyConfigPath,
    AppDataUnavailable,
    NotFound { path: String },
    AlreadyExists { path: String },
    Io { action: &'static str, path: String, source: String },
    Lock { mode: &'static str, path: String, source: String },
    Yaml { path: String, diagnostic: SafeYamlError },
    Validation { problem: ValidationError },
    ClusterAlreadyExists { requested: String, existing: String },
    ClusterNotFound { alias: String },
    OverrideNotFound { cluster: String, target: String },
    Serialization,
    SerializationInvariant,
    Acl { path: String, source: AclError },
    AtomicReplace { path: String, source: String },
}

/// What went wrong with the configuration or its file, as a mathematical value.
#[allow(inconsistent_fields)]
pub enum ConfigProblem {
    EmptyConfigPath,
    AppDataUnavailable,
    NotFound { path: Seq<char> },
    AlreadyExists { path: Seq<char> },
    Io { action: Seq<char>, path: Seq<char>, source: Seq<char> },
    Lock { mode: Seq<char>, path: Seq<char>, source: Seq<char> },
    Yaml { path: Seq<char>, diagnostic: YamlProblem },
    Validation { problem: ValidationProblem },
    ClusterAlreadyExists { requested: Seq<char>, existing: Seq<char> },
    ClusterNotFound { alias: Seq<char> },
    OverrideNotFound { cluster: Seq<char>, target: Seq<char> },
    Serialization,
    SerializationInvariant,
    Acl { path: Seq<char>, source: Seq<char> },
    AtomicReplace { path: Seq<char>, source: Seq<char> },
}

impl View for ConfigError {
    type V = ConfigProblem;

    open spec fn view(&self) -> ConfigProblem {
        match self {
            ConfigError::EmptyConfigPath => ConfigProblem::EmptyConfigPath,
            ConfigError::AppDataUnavailable => ConfigProblem::AppDataUnavailable,
            ConfigError::NotFound { path } => ConfigProblem::NotFound {
                path: path@,
            },
            ConfigError::AlreadyExists { path } => ConfigProblem::AlreadyExists {
                path: path@,
            },
            ConfigError::Io { action, path, source } => ConfigProblem::Io {
                action: action@,
                path: path@,
                source: source@,
            },
            ConfigError::Lock { mode, path, source } => ConfigProblem::Lock {
                mode: mode@,
                path: path@,
                source: source@,
            },
            ConfigError::Yaml { path, diagnostic } => ConfigProblem::Yaml {
                path: path@,
                diagnostic: diagnostic@,
            },
            ConfigError::Validation { problem } => ConfigProblem::Validation {
                problem: problem@,
            },
            ConfigError::ClusterAlreadyExists { requested, existing } => ConfigProblem::ClusterAlreadyExists {
                requested: requested@,
                existing: existing@,
            },
            ConfigError::ClusterNotFound { alias } => ConfigProblem::ClusterNotFound {
                alias: alias@,
            },
            ConfigError::OverrideNotFound { cluster, target } => ConfigProblem::OverrideNotFound {
                cluster: cluster@,
                target: target@,
            },
            ConfigError::Serialization => ConfigProblem::Serialization,
            ConfigError::SerializationInvariant => ConfigProblem::SerializationInvariant,
            ConfigError::Acl { path, source } => ConfigProblem::Acl {
                path: path@,
                source: source@,
            },
            ConfigError::AtomicReplace { path, source } => ConfigProblem::AtomicReplace {
                path: path@,
                source: source@,
            },
        }
    }
}

impl ConfigProblem {
    /// The text shown to the operator.
    pub open spec fn message(self) -> Seq<char> {
        match self {
            ConfigProblem::EmptyConfigPath => "configuration path is empty"@,
            ConfigProblem::AppDataUnavailable => "APPDATA is not set; pass --config or set ONECADMIN_CONFIG"@,
            ConfigProblem::NotFound { path } => "configuration file does not exist: "@
                + text::shown(path),
            ConfigProblem::AlreadyExists { path } => "configuration file already exists: "@
                + text::shown(path),
            ConfigProblem::Io { action, path, source } => "cannot "@
                + action
                + " "@
                + text::shown(path)
                + ": "@
                + source,
            ConfigProblem::Lock { mode, path, source } => "cannot acquire "@
                + mode
                + " configuration lock "@
                + text::shown(path)
                + ": "@
                + source,
            ConfigProblem::Yaml { path, diagnostic } => "invalid YAML configuration "@
                + text::shown(path)
                + ": "@
                + diagnostic.text(),
            ConfigProblem::Validation { problem } => problem.message(),
            ConfigProblem::ClusterAlreadyExists { requested, existing } => "cluster `"@
                + requested
                + "` already exists as `"@
                + existing
                + "`"@,
            ConfigProblem::ClusterNotFound { alias } => "cluster `"@
                + alias
                + "` was not found"@,
            ConfigProblem::OverrideNotFound { cluster, target } => "infobase override `"@
                + target
                + "` was not found in cluster `"@
                + cluster
                + "`"@,
            ConfigProblem::Serialization => "cannot serialize validated configuration"@,
            ConfigProblem::SerializationInvariant => "serialized configuration did not pass its own schema validation"@,
            ConfigProblem::Acl { path, source } => "cannot protect temporary configuration "@
                + text::shown(path)
                + " for the current user: "@
                + source,
            ConfigProblem::AtomicReplace { path, source } => "cannot atomically replace configuration "@
                + text::shown(path)
                + ": "@
                + source,
        }
    }
}

impl ConfigError {
    /// The text shown to the operator.
    pub fn message(&self) -> (result: String)
        ensures
            result@ == self@.message(),
    {
        match self {
            ConfigError::EmptyConfigPath => "configuration path is empty".to_owned(),
            ConfigError::AppDataUnavailable => "APPDATA is not set; pass --config or set ONECADMIN_CONFIG".to_owned(),
            ConfigError::NotFound { path } => {
                let mut result = "configuration file does not exist: ".to_owned();
                result.push_str(text::show(path.as_str()).as_str());
                result
            },
            ConfigError::AlreadyExists { path } => {
                let mut result = "configuration file already exists: ".to_owned();
                result.push_str(text::show(path.as_str()).as_str());
                result
            },
            ConfigError::Io { action, path, source } => {
                let mut result = "cannot ".to_owned();
                result.push_str(action);
                result.push_str(" ");
                result.push_str(text::show(path.as_str()).as_str());
                result.push_str(": ");
                result.push_str(source.as_str());
                result
            },
            ConfigError::Lock { mode, path, source } => {
                let mut result = "cannot acquire ".to_owned();
                result.push_str(mode);
                result.push_str(" configuration lock ");
                result.push_str(text::show(path.as_str()).as_str());
                result.push_str(": ");
                result.push_str(source.as_str());
                result
            },
            ConfigError::Yaml { path, diagnostic } => {
                let mut result = "invalid YAML configuration ".to_owned();
                result.push_str(text::show(path.as_str()).as_str());
                result.push_str(": ");
                result.push_str(diagnostic.to_text().as_str());
                result
            },
            ConfigError::Validation { problem } => problem.message().as_str().to_owned(),
            ConfigError::ClusterAlreadyExists { requested, existing } => {
                let mut result = "cluster `".to_owned();
                result.push_str(requested.as_str());
                result.push_str("` already exists as `");
                result.push_str(existing.as_str());
                result.push_str("`");
                result
            },
            ConfigError::ClusterNotFound { alias } => {
                let mut result = "cluster `".to_owned();
                result.push_str(alias.as_str());
                result.push_str("` was not found");
                result
            },
            ConfigError::OverrideNotFound { cluster, target } => {
                let mut result = "infobase override `".to_owned();
                result.push_str(target.as_str());
                result.push_str("` was not found in cluster `");
                result.push_str(cluster.as_str());
                result.push_str("`");
                result
            },
            ConfigError::Serialization => "cannot serialize validated configuration".to_owned(),
            ConfigError::SerializationInvariant => "serialized configuration did not pass its own schema validation".to_owned(),
            ConfigError::Acl { path, source } => {
                let mut result = "cannot protect temporary configuration ".to_owned();
                result.push_str(text::show(path.as_str()).as_str());
                result.push_str(" for the current user: ");
                result.push_str(source.message());
                result
            },
            ConfigError::AtomicReplace { path, source } => {
                let mut result = "cannot atomically replace configuration ".to_owned();
                result.push_str(text::show(path.as_str()).as_str());
                result.push_str(": ");
                result.push_str(source.as_str());
                result
            },
        }
    }
}

} // verus!
