//! The data model: raw catalog rows in, strictly-typed column descriptors
//! out, and the two error kinds the engine can report.

use vstd::prelude::*;

verus! {

/// The closed vocabulary of logical column types.  A declared type string
/// only ever maps into one of these; an unrecognized string is an error,
/// never a new variant.
#[derive(Clone, Copy, Debug, PartialEq, Eq, Structural)]
pub enum LogicalType {
    Boolean,
    SmallInteger,
    Integer,
    BigInteger,
    Text,
    Binary,
    Float,
    Double,
}

/// One row of raw per-column metadata exactly as the catalog reports it:
/// loosely typed, the declared type an arbitrary (possibly empty) string.
#[derive(Debug)]
pub struct CatalogColumnRow {
    /// Position of the column within its table, in catalog order.
    pub ordinal: i32,
    /// Column name, unique within a table.
    pub name: String,
    /// Free-form declared type string; may be empty.
    pub declared_type: String,
    /// True when the catalog marks the column NOT NULL.
    pub not_null: bool,
    /// Default value text, when one is declared.
    pub default_value: Option<String>,
    /// True when the column is part of the table's primary key.
    pub is_primary_key: bool,
}

impl CatalogColumnRow {
    /// Builds a row from the plain tuple shape in which a catalog client
    /// hands column metadata back.
    pub fn build(row: (i32, String, String, bool, Option<String>, bool)) -> (r: Self)
        ensures
            r.ordinal == row.0,
            r.name == row.1,
            r.declared_type == row.2,
            r.not_null == row.3,
            r.default_value == row.4,
            r.is_primary_key == row.5,
    {
        CatalogColumnRow {
            ordinal: row.0,
            name: row.1,
            declared_type: row.2,
            not_null: row.3,
            default_value: row.4,
            is_primary_key: row.5,
        }
    }
}

/// The engine's output unit for one column: name, a logical type drawn from
/// the closed vocabulary, and nullability.
#[derive(Debug)]
pub struct ColumnDescriptor {
    pub name: String,
    pub logical_type: LogicalType,
    /// True unless the catalog marked the column NOT NULL.
    pub nullable: bool,
}

/// A declared type string matched none of the classifier's rules.  Carries
/// the offending raw string and, once known, the owning column and table.
#[derive(Debug)]
pub struct UnsupportedTypeError {
    pub declared_type: String,
    pub column_name: Option<String>,
    pub table_name: Option<String>,
}

/// A catalog query failed (connection loss, missing table, malformed query).
/// Carries the query that was run, the table it concerned when there was
/// one, and the client's own report, verbatim.
#[derive(Debug)]
pub struct CatalogQueryError {
    pub query: String,
    pub table_name: Option<String>,
    pub message: String,
}

impl CatalogQueryError {
    /// Records a failed query together with the client's verbatim report.
    pub fn new(query: String, table_name: Option<String>, message: String) -> (r: Self)
        ensures
            r.query == query,
            r.table_name == table_name,
            r.message == message,
    {
        CatalogQueryError { query, table_name, message }
    }
}

} // verus!
