//! Subcommands of the node program.

pub mod init;
pub mod start;
pub mod version;

use crate::commands::init::InitCmd;
use crate::commands::start::StartCmd;
use crate::commands::version::VersionCmd;
use vstd::prelude::*;
use vstd::string::*;

verus! {

/// Name of the program's configuration file.
pub const CONFIG_FILE: &'static str = "synchronicity.toml";

/// The subcommands.
#[derive(Clone, Debug, PartialEq, Eq)]
pub enum SynchronicityCmd {
    /// Prints how the program is used.
    Help,
    /// Prints the program's version.
    Version(VersionCmd),
    /// Provisions a node in a base directory.
    Init(InitCmd),
    /// Launches the node.
    Start(StartCmd),
}

impl SynchronicityCmd {
    /// Location of the configuration file to load: `synchronicity.toml` in
    /// the working directory where such a file exists, none where it does
    /// not. `exists` says which.
    pub fn config_path(&self, exists: bool) -> (path: Option<String>)
        ensures
            exists ==> path is Some && path->0@ == "synchronicity.toml"@,
            !exists ==> path is None,
    {
        if exists {
            Some(String::from_str(CONFIG_FILE))
        } else {
            None
        }
    }
}

} // verus!
