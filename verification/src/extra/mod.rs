//! Commands and environment substitution.
pub mod command;
pub mod env;
