//! The configuration of a workspace, as far as the commands need it.

use vstd::prelude::*;

verus! {

/// Why a command that needs the configuration of a workspace cannot run.
#[derive(Clone, Copy, Debug, PartialEq, Eq, Structural)]
pub enum ConfigError {
    /// The working directory holds no configuration file.
    Missing,
}

/// The name of the file that holds the configuration of a workspace.
pub fn config_file_name() -> (name: &'static str)
    ensures
        name@ == "blue.toml"@,
{
    "blue.toml"
}

/// Hands out the configuration for a command that cannot do without it,
/// or says that it is missing.
pub fn require_config<C>(config: &Option<C>) -> (result: Result<&C, ConfigError>)
    ensures
        match result {
            Ok(found) => *config == Some(*found),
            Err(error) => *config is None && error == ConfigError::Missing,
        },
{
    match config {
        Some(found) => Ok(found),
        None => Err(ConfigError::Missing),
    }
}

} // verus!
