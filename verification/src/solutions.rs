//! The four behaviorally-equivalent robot implementations, one module per
//! design pattern.

pub mod command_pattern;
pub mod no_pattern;
pub mod state_pattern;
pub mod type_state_pattern;
