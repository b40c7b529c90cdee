//! The column type classifier: a pure, total mapping from a free-form
//! declared type string into the closed vocabulary of logical types.
//!
//! The rules are an ordered list of predicates tried top to bottom; the
//! order matters because the predicates overlap (`"bigint"` also contains
//! `"int"`, so the big-integer rule must run before the generic integer
//! rule).  All matching is done against the ASCII-lowercased input.

use vstd::prelude::*;
use crate::text::{
    contains_lowered, eq_lowered, matches_at, lemma_no_match_at, contains_lowered_exec,
    eq_lowered_exec,
};
use crate::types::{LogicalType, UnsupportedTypeError};

verus! {

/// Exactly `"boolean"`, or both `"tiny"` and `"int"` somewhere in the name.
pub open spec fn is_boolean_type(s: Seq<char>) -> bool {
    ||| eq_lowered(s, "boolean"@)
    ||| (contains_lowered(s, "tiny"@) && contains_lowered(s, "int"@))
}

/// Exactly `"int2"`, or both `"small"` and `"int"` somewhere in the name.
pub open spec fn is_small_integer_type(s: Seq<char>) -> bool {
    ||| eq_lowered(s, "int2"@)
    ||| (contains_lowered(s, "small"@) && contains_lowered(s, "int"@))
}

/// Exactly `"int8"`, or both `"big"` and `"int"` somewhere in the name.
pub open spec fn is_big_integer_type(s: Seq<char>) -> bool {
    ||| eq_lowered(s, "int8"@)
    ||| (contains_lowered(s, "big"@) && contains_lowered(s, "int"@))
}

/// Any of `"char"`, `"clob"` or `"text"` somewhere in the name.
pub open spec fn is_text_type(s: Seq<char>) -> bool {
    ||| contains_lowered(s, "char"@)
    ||| contains_lowered(s, "clob"@)
    ||| contains_lowered(s, "text"@)
}

/// `"blob"` somewhere in the name, or no declared type at all: untyped
/// storage defaults to binary.
pub open spec fn is_binary_type(s: Seq<char>) -> bool {
    contains_lowered(s, "blob"@) || s.len() == 0
}

/// `"float"` or `"real"` somewhere in the name.
pub open spec fn is_float_type(s: Seq<char>) -> bool {
    contains_lowered(s, "float"@) || contains_lowered(s, "real"@)
}

/// `"double"`, `"num"` or `"dec"` somewhere in the name (covers the
/// `"numeric"` and `"decimal"` spellings).
pub open spec fn is_double_type(s: Seq<char>) -> bool {
    ||| contains_lowered(s, "double"@)
    ||| contains_lowered(s, "num"@)
    ||| contains_lowered(s, "dec"@)
}

/// The classification rules in priority order, first match wins; `None`
/// when no rule matches.
pub open spec fn spec_classify(s: Seq<char>) -> Option<LogicalType> {
    if is_boolean_type(s) {
        Some(LogicalType::Boolean)
    } else if is_small_integer_type(s) {
        Some(LogicalType::SmallInteger)
    } else if is_big_integer_type(s) {
        Some(LogicalType::BigInteger)
    } else if contains_lowered(s, "int"@) {
        Some(LogicalType::Integer)
    } else if is_text_type(s) {
        Some(LogicalType::Text)
    } else if is_binary_type(s) {
        Some(LogicalType::Binary)
    } else if is_float_type(s) {
        Some(LogicalType::Float)
    } else if is_double_type(s) {
        Some(LogicalType::Double)
    } else {
        None
    }
}

/// Maps a raw declared type string into the closed vocabulary, or reports
/// it as unsupported.  Total: every string is either classified by the
/// first rule (in priority order) that matches it, or returned inside the
/// error, never silently defaulted.
pub fn classify(declared_type: &str) -> (r: Result<LogicalType, UnsupportedTypeError>)
    ensures
        match r {
            Ok(t) => spec_classify(declared_type@) == Some(t),
            Err(e) => {
                &&& spec_classify(declared_type@) is None
                &&& e.declared_type@ == declared_type@
                &&& e.column_name is None
                &&& e.table_name is None
            },
        },
{
    let t = if eq_lowered_exec(declared_type, "boolean")
        || (contains_lowered_exec(declared_type, "tiny") && contains_lowered_exec(declared_type, "int")) {
        LogicalType::Boolean
    } else if eq_lowered_exec(declared_type, "int2")
        || (contains_lowered_exec(declared_type, "small") && contains_lowered_exec(declared_type, "int")) {
        LogicalType::SmallInteger
    } else if eq_lowered_exec(declared_type, "int8")
        || (contains_lowered_exec(declared_type, "big") && contains_lowered_exec(declared_type, "int")) {
        LogicalType::BigInteger
    } else if contains_lowered_exec(declared_type, "int") {
        LogicalType::Integer
    } else if contains_lowered_exec(declared_type, "char")
        || contains_lowered_exec(declared_type, "clob")
        || contains_lowered_exec(declared_type, "text") {
        LogicalType::Text
    } else if contains_lowered_exec(declared_type, "blob") || declared_type.unicode_len() == 0 {
        LogicalType::Binary
    } else if contains_lowered_exec(declared_type, "float") || contains_lowered_exec(declared_type, "real") {
        LogicalType::Float
    } else if contains_lowered_exec(declared_type, "double")
        || contains_lowered_exec(declared_type, "num")
        || contains_lowered_exec(declared_type, "dec") {
        LogicalType::Double
    } else {
        return Err(UnsupportedTypeError {
            declared_type: declared_type.to_owned(),
            column_name: None,
            table_name: None,
        });
    };
    Ok(t)
}

/// The classifier is a pure function of the declared type string: equal
/// inputs always classify the same way, successfully or not.
pub proof fn lemma_classify_is_function(s1: Seq<char>, s2: Seq<char>)
    requires
        s1 == s2,
    ensures
        spec_classify(s1) == spec_classify(s2),
{
}

/// An empty declared type string classifies as binary: untyped storage,
/// reached only after every keyword rule has failed for want of characters.
pub proof fn lemma_empty_classifies_binary()
    ensures
        spec_classify(Seq::<char>::empty()) == Some(LogicalType::Binary),
{
    reveal_strlit("boolean");
    reveal_strlit("tiny");
    reveal_strlit("int");
    reveal_strlit("int2");
    reveal_strlit("small");
    reveal_strlit("int8");
    reveal_strlit("big");
    reveal_strlit("char");
    reveal_strlit("clob");
    reveal_strlit("text");
    reveal_strlit("blob");
}

/// The priority of the rules is visible on `"bigint"`: the name contains
/// `"int"`, yet the big-integer rule runs first, so the result is
/// `BigInteger` and never the generic `Integer`.
pub proof fn lemma_bigint_beats_generic_integer()
    ensures
        spec_classify("bigint"@) == Some(LogicalType::BigInteger),
{
    let s = "bigint"@;
    reveal_strlit("bigint");
    reveal_strlit("boolean");
    reveal_strlit("tiny");
    reveal_strlit("int");
    reveal_strlit("int2");
    reveal_strlit("small");
    reveal_strlit("int8");
    reveal_strlit("big");
    assert forall|k: int| !matches_at(s, "tiny"@, k) by {
        if 0 <= k && k + 4 <= 6 {
            if k == 0 {
                lemma_no_match_at(s, "tiny"@, 0, 0);
            } else if k == 1 {
                lemma_no_match_at(s, "tiny"@, 1, 0);
            } else {
                lemma_no_match_at(s, "tiny"@, 2, 0);
            }
        }
    }
    assert forall|k: int| !matches_at(s, "small"@, k) by {
        if 0 <= k && k + 5 <= 6 {
            if k == 0 {
                lemma_no_match_at(s, "small"@, 0, 0);
            } else {
                lemma_no_match_at(s, "small"@, 1, 0);
            }
        }
    }
    assert(!is_boolean_type(s));
    assert(!is_small_integer_type(s));
    assert(matches_at(s, "big"@, 0));
    assert(matches_at(s, "int"@, 3));
    assert(is_big_integer_type(s));
}

} // verus!
