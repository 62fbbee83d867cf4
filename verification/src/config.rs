//! The configuration of the agent.

use crate::llm::LlmConfig;
use vstd::prelude::*;

verus! {

/// A program configuration.
#[derive(Debug)]
pub struct Config {
    /// Whether a tool is picked by name first and its parameters are derived
    /// in a second request.
    pub double_pass_derive: bool,
    pub llm: LlmConfig,
    /// How many times a derivation is tried before it is given up.
    pub num_derive_tries: u32,
}

} // verus!
