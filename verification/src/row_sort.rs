use vstd::prelude::*;

verus! {

use crate::lexord::{lex_le, lemma_lex_le_total, lemma_lex_le_trans};

/// A display row as the contracts see it: the four rendered cells of one
/// table line, each a sequence of characters.
#[verifier::ext_equal]
pub struct TableRowV {
    pub id: Seq<char>,
    pub name: Seq<char>,
    pub image: Seq<char>,
    pub state: Seq<char>,
}

/// Row order: ascending by container id. Ids are unique on the backend, so
/// this determines the on-screen order of a snapshot completely.
pub open spec fn row_le(a: TableRowV, b: TableRowV) -> bool {
    lex_le(a.id, b.id)
}

/// Every row sorts at or before every later row.
pub open spec fn sorted_rows(s: Seq<TableRowV>) -> bool {
    forall|i: int, j: int| 0 <= i < j < s.len() ==> #[trigger] row_le(s[i], s[j])
}

/// Insert one row into a sorted sequence, after every row that sorts at or
/// before it: the insertion step of the sort.
pub open spec fn insert_row_spec(s: Seq<TableRowV>, x: TableRowV) -> Seq<TableRowV>
    decreases s.len(),
{
    if s.len() == 0 {
        seq![x]
    } else if row_le(s.last(), x) {
        s.push(x)
    } else {
        insert_row_spec(s.drop_last(), x).push(s.last())
    }
}

/// Sort a sequence of rows ascending by id, by repeated insertion. The result
/// is a function of the input alone, so one snapshot always renders as one
/// row sequence.
pub open spec fn sort_rows_spec(s: Seq<TableRowV>) -> Seq<TableRowV>
    decreases s.len(),
{
    if s.len() == 0 {
        Seq::empty()
    } else {
        insert_row_spec(sort_rows_spec(s.drop_last()), s.last())
    }
}

/// `insert_row_spec` places the new row exactly at the boundary position:
/// after every row that sorts at or before it, before the rest.
pub proof fn lemma_insert_position(s: Seq<TableRowV>, x: TableRowV, j: int)
    requires
        0 <= j <= s.len(),
        forall|k: int| j <= k < s.len() ==> !row_le(#[trigger] s[k], x),
        j > 0 ==> row_le(s[j - 1], x),
    ensures
        insert_row_spec(s, x) == s.insert(j, x),
    decreases s.len(),
{
    if s.len() == 0 {
        assert(insert_row_spec(s, x) =~= s.insert(0, x));
    } else if j == s.len() {
        assert(row_le(s.last(), x));
        assert(s.push(x) =~= s.insert(j, x));
    } else {
        assert(!row_le(s[s.len() - 1], x));
        let d = s.drop_last();
        assert forall|k: int| j <= k < d.len() implies !row_le(#[trigger] d[k], x) by {
            assert(d[k] == s[k]);
        }
        if j > 0 {
            assert(d[j - 1] == s[j - 1]);
        }
        lemma_insert_position(d, x, j);
        s.insert_ensures(j, x);
        d.insert_ensures(j, x);
        assert(insert_row_spec(s, x) =~= s.insert(j, x)) by {
            assert(insert_row_spec(s, x) == d.insert(j, x).push(s.last()));
            assert(d.insert(j, x).len() == s.len());
            assert forall|i: int| 0 <= i < s.len() + 1 implies d.insert(j, x).push(s.last())[i]
                == s.insert(j, x)[i] by {
                if i < j {
                } else if i == j {
                } else if i < s.len() {
                    assert(d.insert(j, x)[i] == d[i - 1]);
                    assert(d[i - 1] == s[i - 1]);
                    assert(s.insert(j, x)[i] == s[i - 1]);
                } else {
                    assert(d.insert(j, x).push(s.last())[i] == s[s.len() - 1]);
                    assert(s.insert(j, x)[i] == s[i - 1]);
                }
            }
        }
    }
}

/// Inserting into a sorted sequence keeps it sorted.
proof fn lemma_insert_sorted(s: Seq<TableRowV>, x: TableRowV)
    requires
        sorted_rows(s),
    ensures
        sorted_rows(insert_row_spec(s, x)),
    decreases s.len(),
{
    if s.len() == 0 {
    } else if row_le(s.last(), x) {
        let t = s.push(x);
        assert forall|i: int, j: int| 0 <= i < j < t.len() implies row_le(t[i], t[j]) by {
            if j == s.len() {
                assert(t[j] == x);
                if i < s.len() - 1 {
                    assert(row_le(s[i], s[s.len() - 1]));
                    lemma_lex_le_trans(s[i].id, s[s.len() - 1].id, x.id);
                }
            }
        }
    } else {
        let d = s.drop_last();
        let last = s.last();
        assert forall|i: int, j: int| 0 <= i < j < d.len() implies row_le(d[i], d[j]) by {
            assert(d[i] == s[i]);
            assert(d[j] == s[j]);
        }
        lemma_insert_sorted(d, x);
        let u = insert_row_spec(d, x);
        let t = u.push(last);
        lemma_insert_members(d, x);
        assert forall|i: int, j: int| 0 <= i < j < t.len() implies row_le(t[i], t[j]) by {
            if j < u.len() {
                assert(row_le(u[i], u[j]));
            } else {
                assert(t[j] == last);
                // every member of u is either x or a member of d, and both
                // sort at or before the removed last row
                assert(u.contains(u[i]));
                if u[i] == x {
                    lemma_lex_le_total(last.id, x.id);
                    assert(row_le(x, last));
                } else {
                    assert(d.contains(u[i]));
                    let k = choose|k: int| 0 <= k < d.len() && d[k] == u[i];
                    assert(row_le(s[k], s[s.len() - 1]));
                }
            }
        }
    }
}

/// Every row of the inserted sequence is the new row or one of the old rows.
proof fn lemma_insert_members(s: Seq<TableRowV>, x: TableRowV)
    ensures
        forall|i: int| 0 <= i < insert_row_spec(s, x).len()
            ==> insert_row_spec(s, x)[i] == x || s.contains(#[trigger] insert_row_spec(s, x)[i]),
    decreases s.len(),
{
    if s.len() == 0 {
    } else if row_le(s.last(), x) {
    } else {
        let d = s.drop_last();
        lemma_insert_members(d, x);
        let u = insert_row_spec(d, x);
        let t = u.push(s.last());
        assert forall|i: int| 0 <= i < t.len() implies t[i] == x || s.contains(#[trigger] t[i]) by {
            if i < u.len() {
                assert(t[i] == u[i]);
                if u[i] != x {
                    assert(d.contains(u[i]));
                    let k = choose|k: int| 0 <= k < d.len() && d[k] == u[i];
                    assert(s[k] == u[i]);
                }
            } else {
                assert(t[i] == s[s.len() - 1]);
            }
        }
    }
}

/// Insertion adds exactly the new row to the sequence's contents.
proof fn lemma_insert_multiset(s: Seq<TableRowV>, x: TableRowV)
    ensures
        insert_row_spec(s, x).to_multiset() =~= s.to_multiset().insert(x),
        insert_row_spec(s, x).len() == s.len() + 1,
    decreases s.len(),
{
    broadcast use vstd::seq_lib::group_to_multiset_ensures;

    if s.len() == 0 {
        assert(seq![x] =~= Seq::<TableRowV>::empty().push(x));
        assert(Seq::<TableRowV>::empty().push(x).to_multiset()
            =~= Seq::<TableRowV>::empty().to_multiset().insert(x));
    } else if row_le(s.last(), x) {
    } else {
        let d = s.drop_last();
        lemma_insert_multiset(d, x);
        assert(s =~= d.push(s.last()));
        assert(s.to_multiset() =~= d.to_multiset().insert(s.last()));
        assert(insert_row_spec(d, x).push(s.last()).to_multiset()
            =~= insert_row_spec(d, x).to_multiset().insert(s.last()));
        assert(d.to_multiset().insert(x).insert(s.last())
            =~= d.to_multiset().insert(s.last()).insert(x));
    }
}

/// The sorted snapshot is ascending by id: the table's row order after every
/// replace.
pub proof fn lemma_sort_sorted(s: Seq<TableRowV>)
    ensures
        sorted_rows(sort_rows_spec(s)),
    decreases s.len(),
{
    if s.len() == 0 {
    } else {
        lemma_sort_sorted(s.drop_last());
        lemma_insert_sorted(sort_rows_spec(s.drop_last()), s.last());
    }
}

/// Sorting keeps exactly the rows it was given: no row is dropped or
/// invented, so a snapshot of N containers always renders N rows.
pub proof fn lemma_sort_multiset(s: Seq<TableRowV>)
    ensures
        sort_rows_spec(s).to_multiset() =~= s.to_multiset(),
        sort_rows_spec(s).len() == s.len(),
    decreases s.len(),
{
    broadcast use vstd::seq_lib::group_to_multiset_ensures;

    if s.len() == 0 {
        assert(sort_rows_spec(s).to_multiset() =~= s.to_multiset());
    } else {
        let d = s.drop_last();
        lemma_sort_multiset(d);
        lemma_insert_multiset(sort_rows_spec(d), s.last());
        assert(s =~= d.push(s.last()));
        assert(s.to_multiset() =~= d.to_multiset().insert(s.last()));
    }
}

} // verus!
