//! Outdated dependency checks and the summary they print.
pub mod fields;
pub mod check;
pub mod summary;
pub mod table;
pub mod laws;
