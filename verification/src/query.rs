//! The catalog query layer's text: the two queries the engine issues.  The
//! table enumeration query is fixed; the per-table metadata query embeds the
//! table name inside a quoted literal, so every quote character of the name
//! is escaped by doubling — a raw name can never break out of the literal.

use vstd::prelude::*;

verus! {

/// `name` as it stands inside a single-quoted literal: each `'` doubled,
/// every other character unchanged.
pub open spec fn escaped(name: Seq<char>) -> Seq<char>
    decreases name.len(),
{
    if name.len() == 0 {
        Seq::empty()
    } else {
        escaped(name.drop_last()) + (if name.last() == '\'' {
            seq!['\'', '\'']
        } else {
            seq![name.last()]
        })
    }
}

/// The per-table column metadata query for `name`.
pub open spec fn spec_table_info_query(name: Seq<char>) -> Seq<char> {
    "PRAGMA TABLE_INFO('"@ + escaped(name) + "')"@
}

/// Builds the column metadata query for one table, quoting the table name
/// so that catalog-query metacharacters in it stay inside the literal.
pub fn table_info_query(table_name: &str) -> (r: String)
    ensures
        r@ == spec_table_info_query(table_name@),
{
    let mut q = String::from_str("PRAGMA TABLE_INFO('");
    let n = table_name.unicode_len();
    let mut i: usize = 0;
    while i < n
        invariant
            n == table_name@.len(),
            i <= n,
            q@ == "PRAGMA TABLE_INFO('"@ + escaped(table_name@.subrange(0, i as int)),
        decreases n - i,
    {
        proof {
            assert(table_name@.subrange(0, i + 1).drop_last() =~= table_name@.subrange(
                0,
                i as int,
            ));
            assert(table_name@.subrange(0, i + 1).last() == table_name@[i as int]);
        }
        if table_name.get_char(i) == '\'' {
            q.append("''");
            proof {
                reveal_strlit("''");
                assert(q@ =~= "PRAGMA TABLE_INFO('"@ + escaped(table_name@.subrange(0, i + 1)));
            }
        } else {
            let piece = table_name.substring_char(i, i + 1);
            q.append(piece);
            proof {
                assert(piece@ =~= seq![table_name@[i as int]]);
                assert(q@ =~= "PRAGMA TABLE_INFO('"@ + escaped(table_name@.subrange(0, i + 1)));
            }
        }
        i += 1;
    }
    proof {
        assert(table_name@.subrange(0, table_name@.len() as int) =~= table_name@);
    }
    let r = q.concat("')");
    proof {
        assert(r@ =~= spec_table_info_query(table_name@));
    }
    r
}

/// Builds the catalog-wide table enumeration query.  It restricts the
/// catalog to table entries; the name-prefix filtering is applied afterwards
/// by the system-table filter.
pub fn table_names_query() -> (r: String)
    ensures
        r@ == "SELECT name FROM sqlite_master WHERE type='table'"@,
{
    String::from_str("SELECT name FROM sqlite_master WHERE type='table'")
}

/// A name without quote characters stands in the query literally: escaping
/// changes nothing about it.
pub proof fn lemma_escape_leaves_plain_names(name: Seq<char>)
    requires
        forall|i: int| 0 <= i < name.len() ==> name[i] != '\'',
    ensures
        escaped(name) == name,
    decreases name.len(),
{
    if name.len() == 0 {
        assert(escaped(name) =~= name);
    } else {
        lemma_escape_leaves_plain_names(name.drop_last());
        assert(escaped(name) =~= name);
    }
}

} // verus!
