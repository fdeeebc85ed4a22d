use vstd::prelude::*;

verus! {

use crate::containers::{Container, container_views};
use crate::containers_table_view::{ContainersTable, items_to_columns, row_views, table_rows_of};
use crate::row_sort::sorted_rows;

/// The table state model: the last-known rows, sorted ascending by id, and
/// the operator's current selection. The row set is replaced wholesale on
/// each listing; the selection is preserved by position across the
/// replacement.
pub struct TableState {
    pub rows: Vec<ContainersTable>,
    pub selected: Option<usize>,
}

impl TableState {
    /// The selection, when present, points at a row.
    pub open spec fn wf(self) -> bool {
        match self.selected {
            Option::Some(k) => (k as int) < self.rows@.len(),
            Option::None => true,
        }
    }

    /// An empty table with no selection: the state at UI start.
    pub fn new() -> (t: TableState)
        ensures
            t.wf(),
            t.rows@.len() == 0,
            t.selected is None,
    {
        TableState { rows: Vec::new(), selected: Option::None }
    }

    /// Replace the whole row set with the rows of one listing, and preserve
    /// the operator's selection by position: a previously selected index that
    /// still lies within the new row count is kept, any other selection is
    /// cleared. An empty listing therefore clears all rows and the selection.
    /// The new rows are sorted ascending by id, one row per record.
    pub fn apply_container_list(&mut self, items: Vec<Container>)
        ensures
            final(self).wf(),
            row_views(final(self).rows@) == table_rows_of(container_views(items@)),
            sorted_rows(row_views(final(self).rows@)),
            final(self).rows@.len() == items@.len(),
            final(self).selected == match old(self).selected {
                Option::Some(k) => if (k as int) < items@.len() {
                    Option::Some(k)
                } else {
                    Option::<usize>::None
                },
                Option::None => Option::<usize>::None,
            },
    {
        let new_rows = items_to_columns(items);
        let new_sel = match self.selected {
            Option::Some(k) => if k < new_rows.len() {
                Option::Some(k)
            } else {
                Option::None
            },
            Option::None => Option::None,
        };
        self.rows = new_rows;
        self.selected = new_sel;
    }

    /// Point the selection at row `i`, as the operator moves it. An index
    /// that names no row leaves the state unchanged.
    pub fn select(&mut self, i: usize) -> (ok: bool)
        ensures
            final(self).rows == old(self).rows,
            ok == ((i as int) < old(self).rows@.len()),
            final(self).selected == if ok {
                Option::Some(i)
            } else {
                old(self).selected
            },
            old(self).wf() ==> final(self).wf(),
    {
        if i < self.rows.len() {
            self.selected = Option::Some(i);
            true
        } else {
            false
        }
    }

    /// The id of the currently selected row: the stable key that every
    /// operation on the selected container is issued with.
    pub fn selected_id(&self) -> (r: Option<String>)
        requires
            self.wf(),
        ensures
            r is Some <==> self.selected is Some,
            self.selected is Some ==> r->0@ == self.rows@[self.selected->0 as int]@.id,
    {
        match self.selected {
            Option::Some(k) => Option::Some(self.rows[k].id.clone()),
            Option::None => Option::None,
        }
    }
}

} // verus!
