//! In-memory form of a SELECT statement and its canonical text.

pub mod common;
pub mod text;
pub mod select;
