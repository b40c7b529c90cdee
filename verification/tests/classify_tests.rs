//! Tests for the column type classifier: one exact expected value per rule,
//! the priority of overlapping rules, and the unsupported-type error.

use schema_inference::classify::classify;
use schema_inference::types::LogicalType;

#[test]
fn classify_is_deterministic_across_calls() {
    let first = classify("VARCHAR(255)");
    let second = classify("VARCHAR(255)");
    assert_eq!(first.unwrap(), second.unwrap());
    let first_err = classify("geometry");
    let second_err = classify("geometry");
    assert!(first_err.is_err());
    assert!(second_err.is_err());
}

#[test]
fn classify_exact_boolean() {
    assert_eq!(classify("boolean").unwrap(), LogicalType::Boolean);
    assert_eq!(classify("BOOLEAN").unwrap(), LogicalType::Boolean);
}

#[test]
fn classify_tinyint_is_boolean() {
    assert_eq!(classify("TINYINT").unwrap(), LogicalType::Boolean);
    assert_eq!(classify("tinyint(1)").unwrap(), LogicalType::Boolean);
}

#[test]
fn classify_int2_is_small_integer() {
    assert_eq!(classify("int2").unwrap(), LogicalType::SmallInteger);
    assert_eq!(classify("INT2").unwrap(), LogicalType::SmallInteger);
}

#[test]
fn classify_smallint_is_small_integer() {
    assert_eq!(classify("SMALLINT").unwrap(), LogicalType::SmallInteger);
}

#[test]
fn classify_int8_is_big_integer() {
    assert_eq!(classify("int8").unwrap(), LogicalType::BigInteger);
}

#[test]
fn classify_bigint_is_big_integer_not_generic_integer() {
    // "bigint" also contains "int"; the big-integer rule must win.
    assert_eq!(classify("bigint").unwrap(), LogicalType::BigInteger);
    assert_eq!(classify("BIGINT").unwrap(), LogicalType::BigInteger);
}

#[test]
fn classify_plain_integer() {
    assert_eq!(classify("INTEGER").unwrap(), LogicalType::Integer);
    assert_eq!(classify("int").unwrap(), LogicalType::Integer);
    assert_eq!(classify("MEDIUMINT").unwrap(), LogicalType::Integer);
}

#[test]
fn classify_varchar_is_text() {
    assert_eq!(classify("VARCHAR(255)").unwrap(), LogicalType::Text);
    assert_eq!(classify("character(20)").unwrap(), LogicalType::Text);
}

#[test]
fn classify_clob_and_text_are_text() {
    assert_eq!(classify("CLOB").unwrap(), LogicalType::Text);
    assert_eq!(classify("text").unwrap(), LogicalType::Text);
}

#[test]
fn classify_blob_is_binary() {
    assert_eq!(classify("BLOB").unwrap(), LogicalType::Binary);
}

#[test]
fn classify_empty_string_is_binary() {
    assert_eq!(classify("").unwrap(), LogicalType::Binary);
}

#[test]
fn classify_float_and_real_are_float() {
    assert_eq!(classify("FLOAT").unwrap(), LogicalType::Float);
    assert_eq!(classify("real").unwrap(), LogicalType::Float);
}

#[test]
fn classify_numeric_is_double() {
    assert_eq!(classify("NUMERIC(10,2)").unwrap(), LogicalType::Double);
}

#[test]
fn classify_double_and_decimal_are_double() {
    assert_eq!(classify("DOUBLE PRECISION").unwrap(), LogicalType::Double);
    assert_eq!(classify("decimal(8,3)").unwrap(), LogicalType::Double);
}

#[test]
fn classify_unrecognized_type_fails_with_raw_string() {
    let err = classify("geometry").unwrap_err();
    assert_eq!(err.declared_type, "geometry");
    assert!(err.column_name.is_none());
    assert!(err.table_name.is_none());
}
