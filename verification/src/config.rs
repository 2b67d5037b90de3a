//! Configuration from two environment variables, as values that the caller
//! has read.

use crate::environment::FiaasEnv;
use crate::level::Level;
use vstd::prelude::*;

verus! {

/// The variable that selects the minimum severity.
pub const LEVEL_VARIABLE: &'static str = "RUST_LOG";

/// The variable that selects the deployment environment.
pub const ENVIRONMENT_VARIABLE: &'static str = "FIAAS_ENVIRONMENT";

/// Why the two variables give no configuration.
#[derive(Clone, Copy, PartialEq, Eq, Structural, Debug)]
pub enum ConfigError {
    LevelMissing,
    LevelInvalid,
    EnvironmentMissing,
    EnvironmentInvalid,
}

/// What the two variables select.
#[derive(Clone, Copy, PartialEq, Eq, Structural, Debug)]
pub struct Settings {
    pub env: FiaasEnv,
    pub level: Level,
}

/// The characters of a variable's value, where it has one.
pub open spec fn value_text(value: Option<&str>) -> Option<Seq<char>> {
    match value {
        Some(text) => Some(text@),
        None => None,
    }
}

/// The severity variable is judged first, then the environment variable;
/// the first one that is unset or holds no known token decides the error.
pub open spec fn settings_of(
    level_value: Option<Seq<char>>,
    env_value: Option<Seq<char>>,
) -> Result<Settings, ConfigError> {
    match level_value {
        None => Err(ConfigError::LevelMissing),
        Some(level_token) => match Level::from_token(level_token) {
            None => Err(ConfigError::LevelInvalid),
            Some(level) => match env_value {
                None => Err(ConfigError::EnvironmentMissing),
                Some(env_token) => match FiaasEnv::from_token(env_token) {
                    None => Err(ConfigError::EnvironmentInvalid),
                    Some(env) => Ok(Settings { env, level }),
                },
            },
        },
    }
}

impl ConfigError {
    /// The diagnostic for this error.
    pub open spec fn text(self) -> Seq<char> {
        match self {
            ConfigError::LevelMissing => "RUST_LOG must be set"@,
            ConfigError::LevelInvalid => "RUST_LOG must be one of error, warn, info, debug and trace"@,
            ConfigError::EnvironmentMissing => "FIAAS_ENVIRONMENT must be set"@,
            ConfigError::EnvironmentInvalid => "FIAAS_ENVIRONMENT must be one of local, dev and prod"@,
        }
    }

    pub fn message(self) -> (r: &'static str)
        ensures
            r@ == self.text(),
    {
        match self {
            ConfigError::LevelMissing => "RUST_LOG must be set",
            ConfigError::LevelInvalid => "RUST_LOG must be one of error, warn, info, debug and trace",
            ConfigError::EnvironmentMissing => "FIAAS_ENVIRONMENT must be set",
            ConfigError::EnvironmentInvalid => "FIAAS_ENVIRONMENT must be one of local, dev and prod",
        }
    }
}

/// Judges the values of `LEVEL_VARIABLE` and `ENVIRONMENT_VARIABLE`; `None`
/// stands for a variable that is not set.
pub fn read_settings(
    level_value: Option<&str>,
    env_value: Option<&str>,
) -> (r: Result<Settings, ConfigError>)
    ensures
        r == settings_of(value_text(level_value), value_text(env_value)),
{
    let level = match level_value {
        None => {
            return Err(ConfigError::LevelMissing);
        },
        Some(token) => match Level::parse(token) {
            None => {
                return Err(ConfigError::LevelInvalid);
            },
            Some(level) => level,
        },
    };
    let env = match env_value {
        None => {
            return Err(ConfigError::EnvironmentMissing);
        },
        Some(token) => match FiaasEnv::parse(token) {
            None => {
                return Err(ConfigError::EnvironmentInvalid);
            },
            Some(env) => env,
        },
    };
    Ok(Settings { env, level })
}

} // verus!
