//! The statement value trees that the renderers walk.
//!
//! Every entity here is an immutable, caller-constructed value: rendering
//! borrows it, reads it once from left to right, and never mutates it.
//! Identifiers are carried as plain strings; the active dialect's quoting
//! policy wraps them at every insertion point.

use vstd::prelude::*;

verus! {

/// A column's data type. `Custom` carries dialect text inserted verbatim.
pub enum ColumnType {
    Integer,
    Text,
    Boolean,
    Custom(String),
}

/// One constraint attached to a column definition.
///
/// The `Default` payload is inserted verbatim: the caller is responsible
/// for supplying a syntactically valid default expression.
pub enum ColumnSpec {
    Null,
    NotNull,
    AutoIncrement,
    UniqueKey,
    PrimaryKey,
    Default(String),
}

/// A column definition: identifier, type, and an ordered list of
/// constraints, rendered in exactly that order.
pub struct ColumnDef {
    pub name: String,
    pub types: ColumnType,
    pub constraints: Vec<ColumnSpec>,
}

/// An index expression as it appears inside a CREATE TABLE body.
pub struct TableIndex {
    pub name: String,
    pub columns: Vec<String>,
}

/// A foreign-key clause. Rendered either inline (inside a CREATE TABLE
/// column list) or standalone (as an ALTER TABLE .. ADD CONSTRAINT).
pub struct ForeignKeyCreateStatement {
    pub name: String,
    pub table: String,
    pub columns: Vec<String>,
    pub ref_table: String,
    pub ref_columns: Vec<String>,
}

/// A table-level option attached after the CREATE TABLE body.
///
/// Closed variant set; the value strings are inserted verbatim, with no
/// quoting or escaping.
pub enum TableOpt {
    Engine(String),
    Collate(String),
    CharacterSet(String),
}

/// A partitioning clause; its expression text is dialect-supplied and
/// inserted verbatim by the dialect's partition renderer.
pub struct TablePartition {
    pub expr: String,
}

/// CREATE TABLE: optional table identifier, then columns, indexes,
/// foreign keys and options, each rendered in input order.
///
/// Rendering order across the lists is fixed as columns, then indexes,
/// then foreign keys, then options: callers wanting another order must
/// reorder the input themselves.
pub struct TableCreateStatement {
    pub table: Option<String>,
    pub columns: Vec<ColumnDef>,
    pub indexes: Vec<TableIndex>,
    pub foreign_keys: Vec<ForeignKeyCreateStatement>,
    pub options: Vec<TableOpt>,
    pub if_not_exists: bool,
}

/// A DROP TABLE option: closed variant set, each a literal keyword.
pub enum TableDropOpt {
    Restrict,
    Cascade,
}

/// DROP TABLE: the table identifiers joined by `, `, then the options.
pub struct TableDropStatement {
    pub tables: Vec<String>,
    pub options: Vec<TableDropOpt>,
    pub if_exists: bool,
}

/// TRUNCATE TABLE: a single optional table identifier. An absent
/// identifier is rendered as nothing, not reported as an error.
pub struct TableTruncateStatement {
    pub table: Option<String>,
}

/// The one alteration an ALTER TABLE statement carries.
pub enum TableAlterOption {
    AddColumn(ColumnDef),
    ModifyColumn(ColumnDef),
    RenameColumn(String, String),
    DropColumn(String),
}

/// ALTER TABLE: rendering is fully delegated to the dialect.
pub struct TableAlterStatement {
    pub table: Option<String>,
    pub option: Option<TableAlterOption>,
}

/// RENAME TABLE: rendering is fully delegated to the dialect.
pub struct TableRenameStatement {
    pub from_name: Option<String>,
    pub to_name: Option<String>,
}

} // verus!
