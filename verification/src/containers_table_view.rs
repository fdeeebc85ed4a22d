use vstd::prelude::*;

verus! {

use core::cmp::Ordering;
use crate::containers::{Container, ContainerV, State, container_views};
use crate::lexord::lex_cmp;
use crate::row_sort::{
    TableRowV, row_le, sorted_rows, insert_row_spec, sort_rows_spec, lemma_insert_position,
    lemma_sort_sorted, lemma_sort_multiset,
};

/// The four columns of the container table.
#[derive(Copy, Clone, PartialEq, Eq, Hash)]
pub enum ContainerColumn {
    ID,
    Name,
    Image,
    State,
}

/// One rendered table row: a flattened, display-oriented projection of a
/// container. Recomputed on every listing; never mutated in place.
#[derive(Clone, Eq, Hash, PartialEq, Debug)]
pub struct ContainersTable {
    pub id: String,
    pub name: String,
    pub image: String,
    pub state: String,
}

impl View for ContainersTable {
    type V = TableRowV;

    open spec fn view(&self) -> TableRowV {
        TableRowV { id: self.id@, name: self.name@, image: self.image@, state: self.state@ }
    }
}

/// The rows of a table, as the contracts see them.
pub open spec fn row_views(s: Seq<ContainersTable>) -> Seq<TableRowV> {
    s.map_values(|r: ContainersTable| r@)
}

/// The text rendered for an optional sub-field: the text itself, or the
/// placeholder that marks a malformed record's missing field.
pub open spec fn text_or_placeholder(t: Option<Seq<char>>) -> Seq<char> {
    match t {
        Option::Some(s) => s,
        Option::None => "Unknown?"@,
    }
}

/// The state cell of an optional lifecycle state.
pub open spec fn state_view(state: Option<State>) -> Option<Seq<char>> {
    match state {
        Option::Some(st) => Option::Some(st.status@),
        Option::None => Option::None,
    }
}

/// The display row of one container record: id and name verbatim, the
/// optional sub-fields rendered or replaced by the placeholder.
pub open spec fn row_view_of(c: ContainerV) -> TableRowV {
    TableRowV {
        id: c.id,
        name: c.name,
        image: text_or_placeholder(c.image),
        state: text_or_placeholder(c.state),
    }
}

/// The table contents produced by one listing: every record projected to a
/// row, the rows sorted ascending by id.
pub open spec fn table_rows_of(items: Seq<ContainerV>) -> Seq<TableRowV> {
    sort_rows_spec(items.map_values(|c: ContainerV| row_view_of(c)))
}

/// Render the status cell of an optional lifecycle state. A missing state is
/// reported as a placeholder rather than failing the row.
pub fn state_to_string(state: &Option<State>) -> (r: String)
    ensures
        r@ == text_or_placeholder(state_view(*state)),
{
    match state {
        Option::Some(st) => st.status.clone(),
        Option::None => "Unknown?".to_owned(),
    }
}

/// Project one container record to its display row. A malformed record (an
/// absent optional sub-field) renders with placeholder cells instead of being
/// dropped, so one bad record never blanks the whole table.
pub fn container_to_row(c: Container) -> (r: ContainersTable)
    ensures
        r@ == row_view_of(c@),
{
    let state = state_to_string(&c.state);
    let image = match c.image {
        Option::Some(img) => img.name,
        Option::None => "Unknown?".to_owned(),
    };
    ContainersTable { id: c.id, name: c.name, image, state }
}

/// Inserting a row into a vector matches inserting its view into the views.
proof fn lemma_row_views_insert(s: Seq<ContainersTable>, x: ContainersTable, j: int)
    requires
        0 <= j <= s.len(),
    ensures
        row_views(s.insert(j, x)) =~= row_views(s).insert(j, x@),
{
    s.insert_ensures(j, x);
    row_views(s).insert_ensures(j, x@);
    assert forall|i: int| 0 <= i < s.len() + 1 implies row_views(s.insert(j, x))[i]
        == row_views(s).insert(j, x@)[i] by {
        if i < j {
        } else if i == j {
        } else {
            assert(s.insert(j, x)[i] == s[i - 1]);
            assert(row_views(s).insert(j, x@)[i] == row_views(s)[i - 1]);
        }
    }
}

/// Insert one row into a vector sorted ascending by id, keeping it sorted and
/// placing the new row exactly where the sort specification puts it.
fn insert_row(v: &mut Vec<ContainersTable>, x: ContainersTable)
    ensures
        row_views(final(v)@) == insert_row_spec(row_views(old(v)@), x@),
{
    let ghost orig: Seq<ContainersTable> = v@;
    let ghost xv: TableRowV = x@;
    let mut j: usize = v.len();
    loop
        invariant
            j <= v@.len(),
            v@ == orig,
            xv == x@,
            forall|k: int| j <= k < v@.len() ==> !row_le(#[trigger] row_views(v@)[k], xv),
        ensures
            j <= v@.len(),
            v@ == orig,
            forall|k: int| j <= k < v@.len() ==> !row_le(#[trigger] row_views(v@)[k], xv),
            j > 0 ==> row_le(row_views(v@)[j - 1], xv),
        decreases j,
    {
        if j == 0 {
            break;
        }
        let le = crate::lexord::str_le(v[j - 1].id.as_str(), x.id.as_str());
        proof {
            assert(row_views(v@)[j - 1] == v@[j - 1]@);
        }
        if le {
            break;
        }
        j = j - 1;
    }
    proof {
        lemma_insert_position(row_views(v@), xv, j as int);
        lemma_row_views_insert(v@, x, j as int);
    }
    v.insert(j, x);
}

/// Build the table rows for one listing: project each record and sort the
/// rows ascending by id. The result is a function of the records alone, so an
/// unchanged backend always yields an identical row sequence, row order is
/// ascending after every refresh, and no record is dropped: a listing of N
/// records renders exactly N rows.
pub fn items_to_columns(req_items: Vec<Container>) -> (out: Vec<ContainersTable>)
    ensures
        row_views(out@) == table_rows_of(container_views(req_items@)),
        sorted_rows(row_views(out@)),
        out@.len() == req_items@.len(),
{
    let ghost all: Seq<ContainerV> = container_views(req_items@);
    let ghost proj: Seq<TableRowV> = all.map_values(|c: ContainerV| row_view_of(c));
    let mut items = req_items;
    let mut out: Vec<ContainersTable> = Vec::new();
    proof {
        assert(container_views(items@) =~= all.skip(0));
        assert(row_views(out@) =~= sort_rows_spec(proj.take(0)));
    }
    while items.len() > 0
        invariant
            items@.len() <= all.len(),
            container_views(items@) =~= all.skip(all.len() - items@.len()),
            row_views(out@) == sort_rows_spec(proj.take(all.len() - items@.len())),
            proj == all.map_values(|c: ContainerV| row_view_of(c)),
            all.len() == proj.len(),
        decreases items@.len(),
    {
        let ghost k: int = all.len() - items@.len();
        let ghost before: Seq<Container> = items@;
        let c = items.remove(0);
        proof {
            assert(container_views(before)[0] == before[0]@);
            assert(c@ == all[k]);
            before.remove_ensures(0);
            assert(container_views(items@) =~= all.skip(k + 1)) by {
                assert forall|i: int| 0 <= i < items@.len() implies container_views(items@)[i]
                    == all.skip(k + 1)[i] by {
                    assert(container_views(items@)[i] == items@[i]@);
                    assert(items@[i] == before[i + 1]);
                    assert(before[i + 1]@ == container_views(before)[i + 1]);
                    assert(container_views(before)[i + 1] == all.skip(k)[i + 1]);
                    assert(all.skip(k)[i + 1] == all[k + 1 + i]);
                    assert(all.skip(k + 1)[i] == all[k + 1 + i]);
                }
            }
        }
        let row = container_to_row(c);
        proof {
            assert(row@ == proj[k]);
        }
        insert_row(&mut out, row);
        proof {
            assert(proj.take(k + 1).drop_last() =~= proj.take(k));
            assert(proj.take(k + 1).last() == proj[k]);
            assert(row_views(out@) == insert_row_spec(sort_rows_spec(proj.take(k)), proj[k]));
            assert(sort_rows_spec(proj.take(k + 1)) == insert_row_spec(
                sort_rows_spec(proj.take(k + 1).drop_last()),
                proj.take(k + 1).last(),
            ));
        }
    }
    proof {
        assert(proj.take(all.len() as int) =~= proj);
        lemma_sort_sorted(proj);
        lemma_sort_multiset(proj);
    }
    out
}

/// Row-order law: after every replace, the table's rows stand in ascending
/// order by container id, whatever order the backend listed them in.
pub proof fn lemma_rows_sorted(items: Seq<ContainerV>)
    ensures
        sorted_rows(table_rows_of(items)),
{
    lemma_sort_sorted(items.map_values(|c: ContainerV| row_view_of(c)));
}

/// No-drop law: a listing of N records always renders exactly N rows — a
/// malformed record renders with placeholder cells instead of disappearing,
/// so one bad record never shrinks or blanks the table.
pub proof fn lemma_no_record_dropped(items: Seq<ContainerV>)
    ensures
        table_rows_of(items).len() == items.len(),
{
    lemma_sort_multiset(items.map_values(|c: ContainerV| row_view_of(c)));
}

/// Idempotence law: refreshing against an unchanged backend renders an
/// identical row sequence every time — the table rows are a function of the
/// listing alone, with no dependence on earlier state or arrival order of the
/// refreshes.
pub proof fn lemma_refresh_idempotent(
    items: Seq<ContainerV>,
    rows1: Seq<TableRowV>,
    rows2: Seq<TableRowV>,
)
    requires
        rows1 == table_rows_of(items),
        rows2 == table_rows_of(items),
    ensures
        rows1 == rows2,
{
}

impl ContainersTable {
    /// The text of one cell of this row.
    pub fn to_column(&self, column: ContainerColumn) -> (r: String)
        ensures
            r@ == match column {
                ContainerColumn::ID => self@.id,
                ContainerColumn::Name => self@.name,
                ContainerColumn::Image => self@.image,
                ContainerColumn::State => self@.state,
            },
    {
        match column {
            ContainerColumn::ID => self.id.clone(),
            ContainerColumn::Name => self.name.clone(),
            ContainerColumn::Image => self.image.clone(),
            ContainerColumn::State => self.state.clone(),
        }
    }

    /// Compare two rows in one column, lexicographically by code point: the
    /// comparator the table widget sorts a column with.
    pub fn cmp(&self, other: &Self, column: ContainerColumn) -> (r: Ordering)
        ensures
            r == match column {
                ContainerColumn::ID => lex_cmp(self@.id, other@.id),
                ContainerColumn::Name => lex_cmp(self@.name, other@.name),
                ContainerColumn::Image => lex_cmp(self@.image, other@.image),
                ContainerColumn::State => lex_cmp(self@.state, other@.state),
            },
    {
        match column {
            ContainerColumn::ID => crate::lexord::str_cmp(self.id.as_str(), other.id.as_str()),
            ContainerColumn::Name => crate::lexord::str_cmp(
                self.name.as_str(),
                other.name.as_str(),
            ),
            ContainerColumn::Image => crate::lexord::str_cmp(
                self.image.as_str(),
                other.image.as_str(),
            ),
            ContainerColumn::State => crate::lexord::str_cmp(
                self.state.as_str(),
                other.state.as_str(),
            ),
        }
    }
}

} // verus!
