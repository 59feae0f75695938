//! Helpers.

pub mod into_result;
pub mod signal;
