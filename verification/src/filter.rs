//! The system-table filter: drops catalog entries whose names mark them as
//! internal bookkeeping tables, by prefix and case-sensitively, and keeps
//! every other name in its input order.

use vstd::prelude::*;
use crate::text::{starts_with, starts_with_exec};

verus! {

/// A name is a user table unless it starts with the engine's reserved
/// double-underscore prefix (internal metadata tables) or with the database
/// implementation's own `sqlite` prefix (its catalog and sequence tables).
/// Both checks are prefix checks, not substring checks.
pub open spec fn is_user_table(name: Seq<char>) -> bool {
    !starts_with(name, "__"@) && !starts_with(name, "sqlite"@)
}

/// The user tables among `names`, in input order.
pub open spec fn spec_user_tables(names: Seq<Seq<char>>) -> Seq<Seq<char>>
    decreases names.len(),
{
    if names.len() == 0 {
        Seq::empty()
    } else {
        let rest = spec_user_tables(names.drop_last());
        if is_user_table(names.last()) {
            rest.push(names.last())
        } else {
            rest
        }
    }
}

/// Is this raw catalog name a user table rather than internal bookkeeping?
pub fn is_user_table_exec(name: &str) -> (b: bool)
    ensures
        b == is_user_table(name@),
{
    !starts_with_exec(name, "__") && !starts_with_exec(name, "sqlite")
}

/// Removes internal bookkeeping tables from a raw list of catalog names.
/// Only the two prefix rules apply; surviving names keep their input order.
pub fn filter_user_tables(raw_names: &Vec<String>) -> (r: Vec<String>)
    ensures
        r.deep_view() == spec_user_tables(raw_names.deep_view()),
{
    let ghost all: Seq<Seq<char>> = raw_names.deep_view();
    let mut out: Vec<String> = Vec::new();
    let mut i: usize = 0;
    while i < raw_names.len()
        invariant
            all == raw_names.deep_view(),
            all.len() == raw_names@.len(),
            forall|k: int| 0 <= k < all.len() ==> all[k] == #[trigger] raw_names@[k]@,
            i <= raw_names.len(),
            out.deep_view() == spec_user_tables(all.subrange(0, i as int)),
        decreases raw_names.len() - i,
    {
        proof {
            assert(all.subrange(0, i + 1).drop_last() =~= all.subrange(0, i as int));
            assert(all.subrange(0, i + 1).last() == all[i as int]);
        }
        if is_user_table_exec(&raw_names[i]) {
            out.push(raw_names[i].clone());
            proof {
                assert(out.deep_view() =~= spec_user_tables(all.subrange(0, i + 1)));
            }
        } else {
            proof {
                assert(out.deep_view() =~= spec_user_tables(all.subrange(0, i + 1)));
            }
        }
        i += 1;
    }
    proof {
        assert(all.subrange(0, all.len() as int) =~= all);
    }
    out
}

/// A name that starts with the internal reserved prefix is always excluded.
pub proof fn lemma_filter_excludes_internal(names: Seq<Seq<char>>, n: Seq<char>)
    requires
        starts_with(n, "__"@),
    ensures
        !spec_user_tables(names).contains(n),
    decreases names.len(),
{
    if names.len() > 0 {
        lemma_filter_excludes_internal(names.drop_last(), n);
    }
}

/// A name that starts with the database implementation's reserved prefix is
/// always excluded.
pub proof fn lemma_filter_excludes_engine(names: Seq<Seq<char>>, n: Seq<char>)
    requires
        starts_with(n, "sqlite"@),
    ensures
        !spec_user_tables(names).contains(n),
    decreases names.len(),
{
    if names.len() > 0 {
        lemma_filter_excludes_engine(names.drop_last(), n);
    }
}

/// A name with neither reserved prefix is always retained.
pub proof fn lemma_filter_retains(names: Seq<Seq<char>>, i: int)
    requires
        0 <= i < names.len(),
        is_user_table(names[i]),
    ensures
        spec_user_tables(names).contains(names[i]),
    decreases names.len(),
{
    if i == names.len() - 1 {
        assert(spec_user_tables(names).last() == names[i]);
    } else {
        lemma_filter_retains(names.drop_last(), i);
        let rest = spec_user_tables(names.drop_last());
        let j = choose|j: int| 0 <= j < rest.len() && rest[j] == names[i];
        assert(spec_user_tables(names)[j] == names[i]);
    }
}

} // verus!
