//! Choice of the configuration file.
use vstd::prelude::*;

verus! {

/// Where the configuration is read from.
#[derive(Debug, Clone, Copy, PartialEq, Eq, Structural)]
pub enum ConfigLocation {
    /// The path given on the command line.
    CommandLine,
    /// The system-wide file `/etc/rusty_lights.conf`.
    System,
    /// `./rusty_lights.toml` in the working directory.
    Local,
}

/// Path of the system-wide configuration file.
pub const SYSTEM_CONFIG_PATH: &'static str = "/etc/rusty_lights.conf";

/// Path of the configuration file in the working directory.
pub const LOCAL_CONFIG_PATH: &'static str = "rusty_lights.toml";

/// Resolve the configuration file by the fallback chain: an explicit
/// command-line path, else the system-wide file if it exists, else the file
/// in the working directory.
pub fn resolve_config(has_cli_path: bool, system_config_exists: bool) -> (loc: ConfigLocation)
    ensures
        has_cli_path ==> loc == ConfigLocation::CommandLine,
        !has_cli_path && system_config_exists ==> loc == ConfigLocation::System,
        !has_cli_path && !system_config_exists ==> loc == ConfigLocation::Local,
{
    if has_cli_path {
        ConfigLocation::CommandLine
    } else if system_config_exists {
        ConfigLocation::System
    } else {
        ConfigLocation::Local
    }
}

} // verus!
