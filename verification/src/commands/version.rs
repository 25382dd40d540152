//! `version` subcommand.

use vstd::prelude::*;
use vstd::string::*;

verus! {

/// `version` subcommand.
#[derive(Clone, Copy, Debug, Default, PartialEq, Eq)]
pub struct VersionCmd {}

impl VersionCmd {
    /// The version message: the program's name, a blank, and its version.
    pub fn message(&self, name: &str, version: &str) -> (message: String)
        ensures
            message@ == name@ + " "@ + version@,
    {
        let mut message = String::from_str(name);
        message.append(" ");
        message.append(version);
        message
    }
}

} // verus!
