//! Text output.

pub mod table;
