//! Which file holds the configuration.

use vstd::prelude::*;
use vstd::string::*;

use crate::infrastructure::config::error::{ConfigError, ConfigProblem};
use crate::infrastructure::path;
use crate::outcome;

verus! {

pub const CONFIG_ENV: &'static str = "ONECADMIN_CONFIG";

/// A value of the environment that is set and not empty.
pub open spec fn given(value: Option<Seq<char>>) -> Option<Seq<char>> {
    match value {
        Some(value) if value.len() > 0 => Some(value),
        _ => None,
    }
}

fn non_empty(value: Option<String>) -> (result: Option<String>)
    ensures
        outcome::option_view(result) == given(outcome::option_view(value)),
{
    match value {
        Some(value) => if value.as_str().unicode_len() > 0 {
            Some(value)
        } else {
            None
        },
        None => None,
    }
}

/// Whether a path is the default one: below the roaming profile, which must be known.
pub open spec fn is_default(
    result: Result<Seq<char>, ConfigProblem>,
    appdata: Option<Seq<char>>,
) -> bool {
    match given(appdata) {
        Some(root) => result is Ok && path::is_nested(
            result->Ok_0,
            root,
            "onecadmin"@,
            "config.yaml"@,
        ),
        None => result == Err::<Seq<char>, ConfigProblem>(ConfigProblem::AppDataUnavailable),
    }
}

/// The path below the roaming profile.
pub fn default_config_path(appdata: Option<String>) -> (result: Result<String, ConfigError>)
    ensures
        is_default(outcome::result_view(result), outcome::option_view(appdata)),
{
    match non_empty(appdata) {
        Some(root) => {
            proof {
                reveal_strlit("onecadmin");
                reveal_strlit("config.yaml");
            }
            let directory = path::join_path(root.as_str(), "onecadmin");
            assert(path::is_joined(directory@, root@, "onecadmin"@));
            Ok(path::join_path(directory.as_str(), "config.yaml"))
        },
        None => Err(ConfigError::AppDataUnavailable),
    }
}

/// The path that the operator named, else the one of the environment, else the default one.
pub fn select_config_path(
    cli_path: Option<String>,
    env_path: Option<String>,
    appdata: Option<String>,
) -> (result: Result<String, ConfigError>)
    ensures
        match (outcome::option_view(cli_path), given(outcome::option_view(env_path))) {
            (Some(chosen), _) => outcome::result_view(result) == (if chosen.len() == 0 {
                Err::<Seq<char>, ConfigProblem>(ConfigProblem::EmptyConfigPath)
            } else {
                Ok::<Seq<char>, ConfigProblem>(chosen)
            }),
            (None, Some(chosen)) => outcome::result_view(result) == Ok::<Seq<char>, ConfigProblem>(
                chosen,
            ),
            (None, None) => is_default(
                outcome::result_view(result),
                outcome::option_view(appdata),
            ),
        },
{
    match cli_path {
        Some(chosen) => {
            if chosen.as_str().unicode_len() == 0 {
                return Err(ConfigError::EmptyConfigPath);
            }
            return Ok(chosen);
        },
        None => {},
    }
    match non_empty(env_path) {
        Some(chosen) => Ok(chosen),
        None => default_config_path(appdata),
    }
}

} // verus!
