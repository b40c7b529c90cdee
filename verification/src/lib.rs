//! Schema introspection for an untyped SQL catalog.
//!
//! The catalog reports each column's declared type as free-form text, yet a
//! schema consumer needs a deterministic mapping into a small closed set of
//! logical types, together with correct nullability, primary-key order and
//! the exclusion of the engine's own bookkeeping tables.  Every rule of that
//! mapping lives here as verified code; running the catalog queries against a
//! live connection is left to a thin unverified shell around this crate.

pub mod classify;
pub mod descriptor;
pub mod filter;
pub mod keys;
pub mod query;
pub mod text;
pub mod types;
