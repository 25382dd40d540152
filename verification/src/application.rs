//! State of the running program: its configuration, once loaded.

use crate::error::NodeError;
use vstd::prelude::*;

verus! {

/// Configuration of the program.
#[derive(Clone, Debug, Default, PartialEq, Eq)]
pub struct SynchronicityConfig {
    /// Location of the node config.
    pub node_config: String,
    /// Location of the scratch directory.
    pub scratch_dir: String,
}

/// The program's state. It is made empty when the program starts, and
/// takes the configuration once that is loaded.
#[derive(Debug)]
pub struct SynchronicityApp {
    config: Option<SynchronicityConfig>,
}

impl View for SynchronicityApp {
    type V = Option<SynchronicityConfig>;

    closed spec fn view(&self) -> Option<SynchronicityConfig> {
        self.config
    }
}

impl Default for SynchronicityApp {
    /// The state of a program that has loaded no configuration yet.
    fn default() -> (app: SynchronicityApp)
        ensures
            app@ is None,
    {
        SynchronicityApp { config: None }
    }
}

impl SynchronicityApp {
    /// The configuration. Before one is loaded the call fails with
    /// `NodeError::ConfigNotLoaded`.
    pub fn config(&self) -> (config: Result<&SynchronicityConfig, NodeError>)
        ensures
            match config {
                Ok(c) => self@ == Some(*c),
                Err(e) => e == NodeError::ConfigNotLoaded && self@ is None,
            },
    {
        match &self.config {
            Some(config) => Ok(config),
            None => Err(NodeError::ConfigNotLoaded),
        }
    }

    /// Takes the configuration that was loaded.
    pub fn after_config(&mut self, config: SynchronicityConfig)
        ensures
            final(self)@ == Some(config),
    {
        self.config = Some(config);
    }
}

} // verus!
