//! Where the user's configuration and logs are.

use vstd::prelude::*;
use vstd::string::*;

use crate::infrastructure::path;
use crate::outcome;

verus! {

pub const APPDATA_ENV: &'static str = "APPDATA";

pub const LOCALAPPDATA_ENV: &'static str = "LOCALAPPDATA";

pub const APP_DIRECTORY_NAME: &'static str = "onecadmin";

pub const LOG_DIRECTORY_NAME: &'static str = "logs";

pub const CONFIG_FILE_NAME: &'static str = "config.yaml";

pub const TECHNICAL_LOG_FILE_NAME: &'static str = "onecadmin.log";

/// Why the user's paths are unknown.
#[derive(Clone, Copy, Debug, PartialEq, Eq)]
pub enum WindowsPathError {
    MissingEnvironmentVariable { variable: &'static str },
    EmptyEnvironmentVariable { variable: &'static str },
}

pub enum PathProblem {
    MissingEnvironmentVariable { variable: Seq<char> },
    EmptyEnvironmentVariable { variable: Seq<char> },
}

impl View for WindowsPathError {
    type V = PathProblem;

    open spec fn view(&self) -> PathProblem {
        match self {
            WindowsPathError::MissingEnvironmentVariable { variable } => {
                PathProblem::MissingEnvironmentVariable { variable: variable@ }
            },
            WindowsPathError::EmptyEnvironmentVariable { variable } => {
                PathProblem::EmptyEnvironmentVariable { variable: variable@ }
            },
        }
    }
}

impl PathProblem {
    pub open spec fn message(self) -> Seq<char> {
        match self {
            PathProblem::MissingEnvironmentVariable { variable } => "переменная окружения Windows "@
                + variable + " не задана"@,
            PathProblem::EmptyEnvironmentVariable { variable } => "переменная окружения Windows "@
                + variable + " содержит пустой путь"@,
        }
    }
}

impl WindowsPathError {
    /// The text shown to the operator.
    pub fn message(&self) -> (result: String)
        ensures
            result@ == self@.message(),
    {
        let mut result = "переменная окружения Windows ".to_owned();
        match self {
            WindowsPathError::MissingEnvironmentVariable { variable } => {
                result.push_str(variable);
                result.push_str(" не задана");
            },
            WindowsPathError::EmptyEnvironmentVariable { variable } => {
                result.push_str(variable);
                result.push_str(" содержит пустой путь");
            },
        }
        result
    }
}

/// The user's paths.
#[derive(Debug, PartialEq, Eq)]
pub struct WindowsPaths {
    config_file: String,
    logs_directory: String,
}

pub struct PathsView {
    pub config_file: Seq<char>,
    pub logs_directory: Seq<char>,
}

impl View for WindowsPaths {
    type V = PathsView;

    closed spec fn view(&self) -> PathsView {
        PathsView { config_file: self.config_file@, logs_directory: self.logs_directory@ }
    }
}

impl PathsView {
    /// The paths lie below the roots of the roaming and the local profile.
    pub open spec fn below(self, app_data: Seq<char>, local_app_data: Seq<char>) -> bool {
        &&& path::is_nested(self.config_file, app_data, APP_DIRECTORY_NAME@, CONFIG_FILE_NAME@)
        &&& path::is_nested(
            self.logs_directory,
            local_app_data,
            APP_DIRECTORY_NAME@,
            LOG_DIRECTORY_NAME@,
        )
    }
}

/// A root that the environment must give.
pub open spec fn root_of(value: Option<Seq<char>>, variable: Seq<char>) -> Result<
    Seq<char>,
    PathProblem,
> {
    match value {
        Some(value) => if value.len() == 0 {
            Err(PathProblem::EmptyEnvironmentVariable { variable })
        } else {
            Ok(value)
        },
        None => Err(PathProblem::MissingEnvironmentVariable { variable }),
    }
}

fn required_root(value: Option<String>, variable: &'static str) -> (result: Result<
    String,
    WindowsPathError,
>)
    ensures
        outcome::result_view(result) == root_of(outcome::option_view(value), variable@),
{
    match value {
        Some(value) => if value.as_str().unicode_len() == 0 {
            Err(WindowsPathError::EmptyEnvironmentVariable { variable })
        } else {
            Ok(value)
        },
        None => Err(WindowsPathError::MissingEnvironmentVariable { variable }),
    }
}

impl WindowsPaths {
    /// Finds the paths from what the environment holds of the two roots. The roaming root is asked
    /// for first.
    pub fn from_environment_values(
        app_data: Option<String>,
        local_app_data: Option<String>,
    ) -> (result: Result<Self, WindowsPathError>)
        ensures
            match (
                root_of(outcome::option_view(app_data), APPDATA_ENV@),
                root_of(outcome::option_view(local_app_data), LOCALAPPDATA_ENV@),
            ) {
                (Ok(app_data), Ok(local_app_data)) => result is Ok && result->Ok_0@.below(
                    app_data,
                    local_app_data,
                ),
                (Err(problem), _) => result is Err && result->Err_0@ == problem,
                (Ok(_), Err(problem)) => result is Err && result->Err_0@ == problem,
            },
    {
        let app_data = match required_root(app_data, APPDATA_ENV) {
            Ok(value) => value,
            Err(error) => {
                return Err(error);
            },
        };
        let local_app_data = match required_root(local_app_data, LOCALAPPDATA_ENV) {
            Ok(value) => value,
            Err(error) => {
                return Err(error);
            },
        };
        Ok(WindowsPaths::from_roots(app_data.as_str(), local_app_data.as_str()))
    }

    pub fn from_roots(app_data: &str, local_app_data: &str) -> (result: Self)
        ensures
            result@.below(app_data@, local_app_data@),
    {
        proof {
            reveal_strlit("onecadmin");
            reveal_strlit("config.yaml");
            reveal_strlit("logs");
        }
        let roaming = path::join_path(app_data, APP_DIRECTORY_NAME);
        let config_file = path::join_path(roaming.as_str(), CONFIG_FILE_NAME);
        let local = path::join_path(local_app_data, APP_DIRECTORY_NAME);
        let logs_directory = path::join_path(local.as_str(), LOG_DIRECTORY_NAME);
        assert(path::is_joined(roaming@, app_data@, APP_DIRECTORY_NAME@));
        assert(path::is_joined(local@, local_app_data@, APP_DIRECTORY_NAME@));
        WindowsPaths { config_file, logs_directory }
    }

    pub fn config_file(&self) -> (result: &str)
        ensures
            result@ == self@.config_file,
    {
        self.config_file.as_str()
    }

    pub fn logs_directory(&self) -> (result: &str)
        ensures
            result@ == self@.logs_directory,
    {
        self.logs_directory.as_str()
    }

    pub fn technical_log_file(&self) -> (result: String)
        ensures
            path::is_joined(result@, self@.logs_directory, TECHNICAL_LOG_FILE_NAME@),
    {
        proof {
            reveal_strlit("onecadmin.log");
        }
        path::join_path(self.logs_directory.as_str(), TECHNICAL_LOG_FILE_NAME)
    }
}

impl Clone for WindowsPaths {
    fn clone(&self) -> (result: Self)
        ensures
            result == *self,
    {
        WindowsPaths {
            config_file: self.config_file.clone(),
            logs_directory: self.logs_directory.clone(),
        }
    }
}


/// The path of the user's configuration, from what the environment holds of the two roots.
pub fn default_config_path(app_data: Option<String>, local_app_data: Option<String>) -> (result: Result<
    String,
    WindowsPathError,
>)
    ensures
        match (
            root_of(outcome::option_view(app_data), APPDATA_ENV@),
            root_of(outcome::option_view(local_app_data), LOCALAPPDATA_ENV@),
        ) {
            (Ok(app_data), Ok(_)) => result is Ok && path::is_nested(
                result->Ok_0@,
                app_data,
                APP_DIRECTORY_NAME@,
                CONFIG_FILE_NAME@,
            ),
            (Err(problem), _) => result is Err && result->Err_0@ == problem,
            (Ok(_), Err(problem)) => result is Err && result->Err_0@ == problem,
        },
{
    match WindowsPaths::from_environment_values(app_data, local_app_data) {
        Ok(paths) => Ok(paths.config_file),
        Err(error) => Err(error),
    }
}

/// The directory of the user's logs, from what the environment holds of the two roots.
pub fn default_logs_directory(app_data: Option<String>, local_app_data: Option<String>) -> (result: Result<
    String,
    WindowsPathError,
>)
    ensures
        match (
            root_of(outcome::option_view(app_data), APPDATA_ENV@),
            root_of(outcome::option_view(local_app_data), LOCALAPPDATA_ENV@),
        ) {
            (Ok(_), Ok(local_app_data)) => result is Ok && path::is_nested(
                result->Ok_0@,
                local_app_data,
                APP_DIRECTORY_NAME@,
                LOG_DIRECTORY_NAME@,
            ),
            (Err(problem), _) => result is Err && result->Err_0@ == problem,
            (Ok(_), Err(problem)) => result is Err && result->Err_0@ == problem,
        },
{
    match WindowsPaths::from_environment_values(app_data, local_app_data) {
        Ok(paths) => Ok(paths.logs_directory),
        Err(error) => Err(error),
    }
}

} // verus!
