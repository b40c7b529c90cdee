//! The column descriptor builder: turns one raw catalog row into a
//! strictly-typed descriptor, and a whole table's rows into its schema
//! description, aborting on the first unclassifiable column.

use vstd::prelude::*;
use crate::classify::{classify, spec_classify};
use crate::keys::{extract_primary_keys, spec_primary_keys};
use crate::types::{CatalogColumnRow, ColumnDescriptor, UnsupportedTypeError};

verus! {

/// `d` is the descriptor that `row` maps to: same name, the classifier's
/// logical type, and nullable exactly when the catalog did not mark the
/// column NOT NULL.
pub open spec fn descriptor_matches(d: ColumnDescriptor, row: CatalogColumnRow) -> bool {
    &&& d.name@ == row.name@
    &&& Some(d.logical_type) == spec_classify(row.declared_type@)
    &&& d.nullable == !row.not_null
}

/// Every row of the table classifies into the closed vocabulary.
pub open spec fn all_rows_classifiable(rows: Seq<CatalogColumnRow>) -> bool {
    forall|i: int|
        0 <= i < rows.len() ==> #[trigger] spec_classify(rows[i].declared_type@) is Some
}

/// Builds the descriptor for one raw catalog row.  Succeeds exactly when the
/// declared type classifies; a failure carries the raw string annotated with
/// the column's name, never a guessed logical type.
pub fn build_descriptor(row: &CatalogColumnRow) -> (r: Result<
    ColumnDescriptor,
    UnsupportedTypeError,
>)
    ensures
        match r {
            Ok(d) => spec_classify(row.declared_type@) is Some && descriptor_matches(d, *row),
            Err(e) => {
                &&& spec_classify(row.declared_type@) is None
                &&& e.declared_type@ == row.declared_type@
                &&& e.column_name matches Some(c) && c@ == row.name@
                &&& e.table_name is None
            },
        },
{
    match classify(row.declared_type.as_str()) {
        Ok(t) => Ok(ColumnDescriptor {
            name: row.name.clone(),
            logical_type: t,
            nullable: !row.not_null,
        }),
        Err(e) => Err(UnsupportedTypeError {
            declared_type: e.declared_type,
            column_name: Some(row.name.clone()),
            table_name: None,
        }),
    }
}

/// Nullability mirrors the catalog's NOT NULL flag exactly, for both values
/// of the flag: a built descriptor is non-nullable precisely when the
/// catalog marked its column NOT NULL.
pub proof fn lemma_nullability_mirrors_not_null(d: ColumnDescriptor, row: CatalogColumnRow)
    requires
        descriptor_matches(d, row),
    ensures
        row.not_null ==> !d.nullable,
        !row.not_null ==> d.nullable,
{
}

/// A whole table's schema as the engine reports it: the table's name, one
/// descriptor per catalog row in catalog order, and the primary-key column
/// names in catalog order.  Both derivations come from the same row
/// snapshot, so they cannot skew against each other.
#[derive(Debug)]
pub struct TableDescription {
    pub name: String,
    pub columns: Vec<ColumnDescriptor>,
    pub primary_keys: Vec<String>,
}

/// Describes one table from a single snapshot of its catalog rows.
/// Succeeds exactly when every row classifies, with one descriptor per row;
/// otherwise reports the first unclassifiable column, annotated with column
/// and table name, and produces no partial descriptor list.
pub fn introspect_table(table_name: &str, rows: &Vec<CatalogColumnRow>) -> (r: Result<
    TableDescription,
    UnsupportedTypeError,
>)
    ensures
        match r {
            Ok(t) => {
                &&& all_rows_classifiable(rows@)
                &&& t.name@ == table_name@
                &&& t.columns@.len() == rows@.len()
                &&& forall|i: int|
                    0 <= i < rows@.len() ==> descriptor_matches(#[trigger] t.columns@[i], rows@[i])
                &&& t.primary_keys.deep_view() == spec_primary_keys(rows@)
            },
            Err(e) => exists|i: int|
                {
                    &&& 0 <= i < rows@.len()
                    &&& #[trigger] spec_classify(rows@[i].declared_type@) is None
                    &&& forall|j: int|
                        0 <= j < i ==> #[trigger] spec_classify(rows@[j].declared_type@) is Some
                    &&& e.declared_type@ == rows@[i].declared_type@
                    &&& e.column_name matches Some(c) && c@ == rows@[i].name@
                    &&& e.table_name matches Some(t) && t@ == table_name@
                },
        },
{
    let mut columns: Vec<ColumnDescriptor> = Vec::new();
    let mut i: usize = 0;
    while i < rows.len()
        invariant
            i <= rows.len(),
            columns@.len() == i,
            forall|k: int|
                0 <= k < i ==> descriptor_matches(#[trigger] columns@[k], rows@[k]),
            forall|k: int|
                0 <= k < i ==> #[trigger] spec_classify(rows@[k].declared_type@) is Some,
        decreases rows.len() - i,
    {
        match build_descriptor(&rows[i]) {
            Ok(d) => {
                columns.push(d);
            },
            Err(e) => {
                return Err(UnsupportedTypeError {
                    declared_type: e.declared_type,
                    column_name: e.column_name,
                    table_name: Some(table_name.to_owned()),
                });
            },
        }
        i += 1;
    }
    let primary_keys = extract_primary_keys(rows);
    Ok(TableDescription { name: table_name.to_owned(), columns, primary_keys })
}

} // verus!
