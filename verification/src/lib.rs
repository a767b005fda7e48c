//! Rendering of table-level schema statements (CREATE, DROP, TRUNCATE,
//! ALTER, RENAME) into SQL text.
//!
//! Statements are immutable value trees built by the caller; a dialect
//! implementing [`table_builder::TableBuilder`] walks the tree once and
//! appends the SQL tokens to a [`writer::SqlWriter`]. The exact character
//! sequence that each operation appends is stated by the spec functions in
//! [`render`], and every renderer is proved to produce it.

pub mod dialect;
pub mod laws;
pub mod render;
pub mod table_builder;
pub mod types;
pub mod writer;
