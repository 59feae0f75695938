//! The commands of the program.

pub mod alert;
pub mod ping;
pub mod run;
