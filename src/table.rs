//! The selectable table that a command fills: header, rows, width hints, cursor
//! and selected rows.

use vstd::prelude::*;

verus! {

/// One cell of text; numbers are aligned to the right.
#[derive(Debug, Clone, PartialEq, Eq)]
pub struct Cell {
    pub text: String,
    pub right_aligned: bool,
}

/// One row of cells; a muted row is drawn dim.
#[derive(Debug, Clone, PartialEq, Eq)]
pub struct Row {
    pub cells: Vec<Cell>,
    pub muted: bool,
}

/// How wide a column should be drawn.
#[derive(Debug, Clone, Copy, PartialEq, Eq)]
pub enum WidthHint {
    /// Takes the room left over, shared by weight.
    Fill(u16),
    /// At least this many columns.
    Min(u16),
}

/// The text of a cell and whether it is aligned to the right.
pub open spec fn cell_view(c: Cell) -> (Seq<char>, bool) {
    (c.text@, c.right_aligned)
}

/// The cells of a row and whether it is muted.
pub open spec fn row_view(r: Row) -> (Seq<(Seq<char>, bool)>, bool) {
    (r.cells@.map_values(|c: Cell| cell_view(c)), r.muted)
}

/// Column headers, and whether rows may be selected.
#[derive(Debug, Clone, PartialEq, Eq)]
pub struct TableDefinition {
    pub header: Vec<Cell>,
    pub selectable: bool,
}

impl TableDefinition {
    /// A definition with these headers whose rows cannot be selected.
    pub fn new(header: Vec<Cell>) -> (r: Self)
        ensures
            r.header == header,
            !r.selectable,
    {
        TableDefinition { header, selectable: false }
    }

    /// No columns.
    pub fn empty() -> (r: Self)
        ensures
            r.header@.len() == 0,
            !r.selectable,
    {
        TableDefinition { header: Vec::new(), selectable: false }
    }

    /// The same definition, with rows selectable or not.
    pub fn selectable(self, selectable: bool) -> (r: Self)
        ensures
            r.header == self.header,
            r.selectable == selectable,
    {
        TableDefinition { header: self.header, selectable }
    }
}

/// Rows to show and a width hint per column.
#[derive(Debug, Clone, PartialEq, Eq)]
pub struct TableData {
    pub rows: Vec<Row>,
    pub widths: Vec<WidthHint>,
}

impl TableData {
    pub fn new(rows: Vec<Row>, widths: Vec<WidthHint>) -> (r: Self)
        ensures
            r.rows == rows,
            r.widths == widths,
    {
        TableData { rows, widths }
    }

    /// No rows and no columns.
    pub fn empty() -> (r: Self)
        ensures
            r.rows@.len() == 0,
            r.widths@.len() == 0,
    {
        TableData { rows: Vec::new(), widths: Vec::new() }
    }
}

/// A table on screen: what it shows, the row under the cursor, and which rows
/// are selected (one flag per row).
#[derive(Debug, Clone, PartialEq, Eq)]
pub struct LocalTable {
    pub definition: TableDefinition,
    pub data: TableData,
    pub cursor: Option<usize>,
    pub selected: Vec<bool>,
}

/// The cursor one row up: stays on the first row, and goes to the last row when
/// there was none.
pub open spec fn cursor_up(cursor: Option<usize>, rows: nat) -> Option<usize> {
    if rows == 0 {
        None
    } else {
        match cursor {
            Some(i) => Some(if i == 0 { 0 } else { (i - 1) as usize }),
            None => Some((rows - 1) as usize),
        }
    }
}

/// The cursor one row down: stays on the last row, and goes to the first row
/// when there was none.
pub open spec fn cursor_down(cursor: Option<usize>, rows: nat) -> Option<usize> {
    if rows == 0 {
        None
    } else {
        match cursor {
            Some(i) => Some(if i + 1 >= rows { (rows - 1) as usize } else { (i + 1) as usize }),
            None => Some(0),
        }
    }
}

impl LocalTable {
    /// The cursor is on a row, and there is one flag per row.
    pub open spec fn wf(&self) -> bool {
        &&& self.selected@.len() == self.data.rows@.len()
        &&& match self.cursor {
            Some(i) => i < self.data.rows@.len(),
            None => true,
        }
    }

    /// The rows that are selected.
    pub open spec fn selection(&self) -> Set<int> {
        Set::new(|i: int| 0 <= i < self.selected@.len() && self.selected@[i])
    }

    pub open spec fn row_count(&self) -> nat {
        self.data.rows@.len()
    }

    /// An empty table with no columns.
    pub fn new() -> (r: Self)
        ensures
            r.wf(),
            r.definition.header@.len() == 0,
            r.data.rows@.len() == 0,
            r.data.widths@.len() == 0,
            r.cursor is None,
    {
        LocalTable {
            definition: TableDefinition::empty(),
            data: TableData::empty(),
            cursor: None,
            selected: Vec::new(),
        }
    }

    /// Shows new content: the cursor leaves and nothing is selected.
    pub fn set_content(&mut self, definition: TableDefinition, data: TableData)
        ensures
            final(self).wf(),
            final(self).definition == definition,
            final(self).data == data,
            final(self).cursor is None,
            final(self).selection() == Set::<int>::empty(),
    {
        let mut selected: Vec<bool> = Vec::new();
        let n = data.rows.len();
        while selected.len() < n
            invariant
                n == data.rows@.len(),
                selected@.len() <= n,
                forall|k: int| 0 <= k < selected@.len() ==> !#[trigger] selected@[k],
            decreases n - selected@.len(),
        {
            selected.push(false);
        }
        self.definition = definition;
        self.data = data;
        self.cursor = None;
        self.selected = selected;
        assert(self.selection() =~= Set::<int>::empty());
    }

    /// Moves the cursor one row up.
    pub fn select_previous(&mut self)
        requires
            old(self).wf(),
        ensures
            final(self).wf(),
            *final(self) == (LocalTable { cursor: cursor_up(old(self).cursor, old(self).row_count()), ..*old(self) }),
    {
        let n = self.data.rows.len();
        if n == 0 {
            self.cursor = None;
        } else {
            self.cursor = match self.cursor {
                Some(i) => Some(if i == 0 { 0 } else { i - 1 }),
                None => Some(n - 1),
            };
        }
    }

    /// Moves the cursor one row down.
    pub fn select_next(&mut self)
        requires
            old(self).wf(),
        ensures
            final(self).wf(),
            *final(self) == (LocalTable { cursor: cursor_down(old(self).cursor, old(self).row_count()), ..*old(self) }),
    {
        let n = self.data.rows.len();
        if n == 0 {
            self.cursor = None;
        } else {
            self.cursor = match self.cursor {
                Some(i) => Some(if i + 1 >= n { n - 1 } else { i + 1 }),
                None => Some(0),
            };
        }
    }

    /// Selects the row under the cursor, or unselects it when it was selected.
    pub fn toggle_selected(&mut self)
        requires
            old(self).wf(),
        ensures
            final(self).wf(),
            final(self).definition == old(self).definition,
            final(self).data == old(self).data,
            final(self).cursor == old(self).cursor,
            match old(self).cursor {
                Some(i) => final(self).selected@ == old(self).selected@.update(i as int, !old(self).selected@[i as int]),
                None => final(self).selected@ == old(self).selected@,
            },
            match old(self).cursor {
                Some(i) => final(self).selection() == if old(self).selection().contains(i as int) {
                    old(self).selection().remove(i as int)
                } else {
                    old(self).selection().insert(i as int)
                },
                None => final(self).selection() == old(self).selection(),
            },
    {
        match self.cursor {
            Some(i) => {
                let was = self.selected[i];
                self.selected.set(i, !was);
                proof {
                    let before = old(self).selection();
                    if was {
                        assert(self.selection() =~= before.remove(i as int));
                    } else {
                        assert(self.selection() =~= before.insert(i as int));
                    }
                }
            },
            None => {},
        }
    }

    /// Every selected row is a row of the table.
    pub proof fn lemma_selection_in_rows(&self)
        requires
            self.wf(),
        ensures
            forall|i: int| #[trigger] self.selection().contains(i) ==> 0 <= i < self.row_count(),
    {
    }

    pub fn definition(&self) -> (r: &TableDefinition)
        ensures
            *r == self.definition,
    {
        &self.definition
    }

    pub fn data(&self) -> (r: &TableData)
        ensures
            *r == self.data,
    {
        &self.data
    }

    /// The row under the cursor, if any.
    pub fn cursor(&self) -> (r: Option<usize>)
        ensures
            r == self.cursor,
    {
        self.cursor
    }

    /// Whether row `i` is selected.
    pub fn is_selected(&self, i: usize) -> (r: bool)
        requires
            self.wf(),
        ensures
            r == self.selection().contains(i as int),
    {
        i < self.selected.len() && self.selected[i]
    }
}

} // verus!
