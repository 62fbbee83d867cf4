//! Tool-calling orchestration for a local agent: a registry of typed tools,
//! provider-specific request shaping, the derive-and-execute state machine and
//! the filtering engines of the built-in tools.

pub mod config;
pub mod expand;
pub mod ieee;
pub mod llm;
pub mod orchestrator;
pub mod pattern;
pub mod text;
pub mod time;
pub mod tool;
pub mod util;
