//! Helpers that no module owns.

pub mod fmt;
