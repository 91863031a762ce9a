//! Interpreter resolution and launch-command synthesis for the Serena
//! context server: discovering a compatible Python runtime, validating
//! each candidate against security and version-compatibility rules,
//! choosing between the companion-script and module-invocation launch
//! strategies, and merging user configuration with the results into a
//! final command descriptor.
//!
//! The host application owns everything around this core — process
//! supervision, protocol framing, settings storage — and performs the
//! few outside probes (child-process spawns, one filesystem check) that
//! the resolution logic asks for through `discovery`'s state machine and
//! `command`'s launcher flag.

pub mod command;
pub mod discovery;
pub mod paths;
pub mod text;
pub mod version;

use vstd::prelude::*;

verus! {

/// Name of the Python package that provides the agent.
pub const PACKAGE_NAME: &'static str = "serena-agent";

/// Factory object handed to the host; it holds no state, so every
/// resolution re-enumerates candidates from scratch.
pub struct SerenaContextServerExtension;

impl SerenaContextServerExtension {
    pub fn new() -> SerenaContextServerExtension {
        SerenaContextServerExtension
    }
}

} // verus!
