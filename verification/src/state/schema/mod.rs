//! The description of guests in the testbed state.

pub mod guest;
pub mod machines;
