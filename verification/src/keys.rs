//! The primary-key extractor: collects the names of the columns the catalog
//! flags as primary-key members, in catalog order.

use vstd::prelude::*;
use crate::types::CatalogColumnRow;

verus! {

/// The names of the primary-key columns among `rows`, in input (catalog
/// ordinal) order.
pub open spec fn spec_primary_keys(rows: Seq<CatalogColumnRow>) -> Seq<Seq<char>>
    decreases rows.len(),
{
    if rows.len() == 0 {
        Seq::empty()
    } else {
        let rest = spec_primary_keys(rows.drop_last());
        if rows.last().is_primary_key {
            rest.push(rows.last().name@)
        } else {
            rest
        }
    }
}

/// Collects the names of the columns flagged as primary key, preserving the
/// input order.  An empty result is legal: a table without an explicit
/// primary key reports no names, not an error.
pub fn extract_primary_keys(rows: &Vec<CatalogColumnRow>) -> (r: Vec<String>)
    ensures
        r.deep_view() == spec_primary_keys(rows@),
{
    let mut out: Vec<String> = Vec::new();
    let mut i: usize = 0;
    while i < rows.len()
        invariant
            i <= rows.len(),
            out.deep_view() == spec_primary_keys(rows@.subrange(0, i as int)),
        decreases rows.len() - i,
    {
        proof {
            assert(rows@.subrange(0, i + 1).drop_last() =~= rows@.subrange(0, i as int));
            assert(rows@.subrange(0, i + 1).last() == rows@[i as int]);
        }
        if rows[i].is_primary_key {
            out.push(rows[i].name.clone());
            proof {
                assert(out.deep_view() =~= spec_primary_keys(rows@.subrange(0, i + 1)));
            }
        } else {
            proof {
                assert(out.deep_view() =~= spec_primary_keys(rows@.subrange(0, i + 1)));
            }
        }
        i += 1;
    }
    proof {
        assert(rows@.subrange(0, rows@.len() as int) =~= rows@);
    }
    out
}

/// The extractor is exactly "keep the flagged rows, in order, and take their
/// names": filtering on the primary-key flag and then mapping to the name
/// gives the same sequence.
pub proof fn lemma_primary_keys_in_catalog_order(rows: Seq<CatalogColumnRow>)
    ensures
        spec_primary_keys(rows) == rows.filter(|r: CatalogColumnRow| r.is_primary_key).map_values(
            |r: CatalogColumnRow| r.name@,
        ),
    decreases rows.len(),
{
    reveal(Seq::filter);
    let pred = |r: CatalogColumnRow| r.is_primary_key;
    let to_name = |r: CatalogColumnRow| r.name@;
    if rows.len() == 0 {
        assert(spec_primary_keys(rows) =~= rows.filter(pred).map_values(to_name));
    } else {
        lemma_primary_keys_in_catalog_order(rows.drop_last());
        if pred(rows.last()) {
            assert(rows.filter(pred).map_values(to_name) =~= rows.drop_last().filter(
                pred,
            ).map_values(to_name).push(rows.last().name@));
        }
        assert(spec_primary_keys(rows) =~= rows.filter(pred).map_values(to_name));
    }
}

} // verus!
