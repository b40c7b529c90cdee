//! Tests for the row-to-descriptor pipeline, the system-table filter, the
//! primary-key extractor and the catalog query text.

use schema_inference::descriptor::{build_descriptor, introspect_table};
use schema_inference::filter::filter_user_tables;
use schema_inference::keys::extract_primary_keys;
use schema_inference::query::{table_info_query, table_names_query};
use schema_inference::types::{CatalogColumnRow, LogicalType};

fn row(
    ordinal: i32,
    name: &str,
    declared_type: &str,
    not_null: bool,
    is_primary_key: bool,
) -> CatalogColumnRow {
    CatalogColumnRow::build((
        ordinal,
        name.to_string(),
        declared_type.to_string(),
        not_null,
        None,
        is_primary_key,
    ))
}

#[test]
fn build_row_keeps_every_field() {
    let r = CatalogColumnRow::build((
        3,
        "price".to_string(),
        "NUMERIC(10,2)".to_string(),
        true,
        Some("0".to_string()),
        false,
    ));
    assert_eq!(r.ordinal, 3);
    assert_eq!(r.name, "price");
    assert_eq!(r.declared_type, "NUMERIC(10,2)");
    assert!(r.not_null);
    assert_eq!(r.default_value, Some("0".to_string()));
    assert!(!r.is_primary_key);
}

#[test]
fn descriptor_of_not_null_column_is_not_nullable() {
    let d = build_descriptor(&row(0, "id", "INTEGER", true, true)).unwrap();
    assert_eq!(d.name, "id");
    assert_eq!(d.logical_type, LogicalType::Integer);
    assert!(!d.nullable);
}

#[test]
fn descriptor_of_nullable_column_is_nullable() {
    let d = build_descriptor(&row(1, "note", "TEXT", false, false)).unwrap();
    assert_eq!(d.name, "note");
    assert_eq!(d.logical_type, LogicalType::Text);
    assert!(d.nullable);
}

#[test]
fn descriptor_failure_names_the_column() {
    let err = build_descriptor(&row(2, "shape", "geometry", false, false)).unwrap_err();
    assert_eq!(err.declared_type, "geometry");
    assert_eq!(err.column_name, Some("shape".to_string()));
    assert!(err.table_name.is_none());
}

#[test]
fn primary_keys_preserve_catalog_order() {
    let rows = vec![
        row(0, "region", "TEXT", true, true),
        row(1, "note", "TEXT", false, false),
        row(2, "id", "INTEGER", true, true),
        row(3, "code", "TEXT", true, true),
    ];
    assert_eq!(
        extract_primary_keys(&rows),
        vec!["region".to_string(), "id".to_string(), "code".to_string()]
    );
}

#[test]
fn no_primary_key_yields_empty_list() {
    let rows = vec![row(0, "a", "TEXT", false, false), row(1, "b", "TEXT", false, false)];
    assert_eq!(extract_primary_keys(&rows), Vec::<String>::new());
}

#[test]
fn filter_returns_nothing_when_no_tables_exist() {
    let names: Vec<String> = vec![];
    assert_eq!(filter_user_tables(&names), Vec::<String>::new());
}

#[test]
fn filter_includes_tables_that_exist() {
    let names = vec!["users".to_string()];
    assert!(filter_user_tables(&names).contains(&"users".to_string()));
}

#[test]
fn filter_excludes_internal_metadata_tables() {
    let names = vec!["__diesel_metadata".to_string()];
    assert!(!filter_user_tables(&names).contains(&"__diesel_metadata".to_string()));
}

#[test]
fn filter_excludes_engine_metadata_tables() {
    let names = vec![
        "__diesel_metadata".to_string(),
        "sqlite_sequence".to_string(),
        "users".to_string(),
    ];
    assert_eq!(filter_user_tables(&names), vec!["users".to_string()]);
}

#[test]
fn filter_checks_prefixes_not_substrings() {
    // A reserved string in the middle of a name does not exclude it.
    let names = vec!["my__diesel_metadata".to_string(), "not_sqlite".to_string()];
    assert_eq!(filter_user_tables(&names), names);
}

#[test]
fn introspect_single_autoincrement_table() {
    // users(id INTEGER PRIMARY KEY AUTOINCREMENT): the catalog reports the
    // key column as NOT NULL.
    let names = vec!["users".to_string()];
    assert_eq!(filter_user_tables(&names), vec!["users".to_string()]);
    let rows = vec![row(0, "id", "INTEGER", true, true)];
    let t = introspect_table("users", &rows).unwrap();
    assert_eq!(t.name, "users");
    assert_eq!(t.columns.len(), 1);
    assert_eq!(t.columns[0].name, "id");
    assert_eq!(t.columns[0].logical_type, LogicalType::Integer);
    assert!(!t.columns[0].nullable);
    assert_eq!(t.primary_keys, vec!["id".to_string()]);
}

#[test]
fn introspect_failure_names_table_and_column_and_keeps_no_partial_result() {
    let rows = vec![
        row(0, "id", "INTEGER", true, true),
        row(1, "shape", "geometry", false, false),
    ];
    let err = introspect_table("places", &rows).unwrap_err();
    assert_eq!(err.declared_type, "geometry");
    assert_eq!(err.column_name, Some("shape".to_string()));
    assert_eq!(err.table_name, Some("places".to_string()));
}

#[test]
fn table_info_query_quotes_the_name() {
    assert_eq!(table_info_query("users"), "PRAGMA TABLE_INFO('users')");
}

#[test]
fn table_info_query_escapes_embedded_quotes() {
    assert_eq!(table_info_query("it's"), "PRAGMA TABLE_INFO('it''s')");
    assert_eq!(
        table_info_query("a'); DROP TABLE users; --"),
        "PRAGMA TABLE_INFO('a''); DROP TABLE users; --')"
    );
}

#[test]
fn table_names_query_targets_catalog_tables() {
    assert_eq!(
        table_names_query(),
        "SELECT name FROM sqlite_master WHERE type='table'"
    );
}
