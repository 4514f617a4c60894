//! The whole state of the grid, the three values that come in from the
//! controls, and what the grid shows for a given state.

use crate::display::{DisplayIcon, DisplayIconKind};
use crate::rows::{ids_of, Item, Rows};
use crate::sync::CollectionSynchronizer;
use vstd::prelude::*;

verus! {

/// The number of rows that a new grid starts with.
pub const INIT_NUM_ITEMS: usize = 10;

/// The number of columns that a new grid starts with.
pub const INIT_NUM_COLS: usize = 1;

/// What one cell shows: the identity of its row, its column, and the way
/// its icon is drawn.
#[derive(Clone, Copy, Debug, PartialEq, Eq, Structural)]
pub struct Cell {
    pub row: usize,
    pub col: usize,
    pub icon: DisplayIconKind,
}

/// Mathematical state of the grid.
pub struct GridState {
    pub rows: Rows,
    pub num_cols: nat,
    pub display: DisplayIconKind,
}

impl GridState {
    /// The state of a new grid: the rows `0` up to `INIT_NUM_ITEMS`, the
    /// counter at `INIT_NUM_ITEMS`, `INIT_NUM_COLS` columns and no icon drawn.
    pub open spec fn initial() -> GridState {
        GridState {
            rows: Rows {
                ids: Seq::new(INIT_NUM_ITEMS as nat, |i: int| i as nat),
                next_id: INIT_NUM_ITEMS as nat,
            },
            num_cols: INIT_NUM_COLS as nat,
            display: DisplayIconKind::Off,
        }
    }

    /// Whether `shown` is what the grid shows in this state: one line of
    /// cells for each row, in the rows' order, and in each line one cell for
    /// each column, in the columns' order, all drawn in the current mode.
    pub open spec fn shows(self, shown: Seq<Vec<Cell>>) -> bool {
        &&& shown.len() == self.rows.ids.len()
        &&& forall|i: int| 0 <= i < shown.len() ==> (#[trigger] shown[i])@.len() == self.num_cols
        &&& forall|i: int, j: int|
            0 <= i < shown.len() && 0 <= j < self.num_cols ==> {
                &&& (#[trigger] shown[i]@[j]).row == self.rows.ids[i]
                &&& shown[i]@[j].col == j
                &&& shown[i]@[j].icon == self.display
            }
    }
}

/// A count that came in as a signed number, held to the floor of zero.
pub fn clamp_count(raw: isize) -> (count: usize)
    ensures
        count == if raw < 0 { 0 } else { raw as int },
{
    if raw < 0 {
        0
    } else {
        raw as usize
    }
}

/// The cells of one row: one for each column from `0` up to `num_cols`, in
/// that order. Cells are told apart by position only.
pub fn render_row(item: Item, num_cols: usize, icon: DisplayIconKind) -> (cells: Vec<Cell>)
    ensures
        cells@.len() == num_cols,
        forall|j: int|
            0 <= j < num_cols ==> #[trigger] cells@[j] == (Cell {
                row: item.id,
                col: j as usize,
                icon,
            }),
{
    let mut cells: Vec<Cell> = Vec::new();
    let mut col: usize = 0;
    while col < num_cols
        invariant
            col <= num_cols,
            cells@.len() == col,
            forall|j: int|
                0 <= j < col ==> #[trigger] cells@[j] == (Cell {
                    row: item.id,
                    col: j as usize,
                    icon,
                }),
        decreases num_cols - col,
    {
        cells.push(Cell { row: item.id, col, icon });
        col = col + 1;
    }
    cells
}

/// The grid: its rows, the desired number of columns, and the display
/// mode. The desired number of rows is not kept apart from the rows: each new
/// value is reconciled at once, so it is always the number of rows.
pub struct Grid {
    rows: CollectionSynchronizer,
    num_cols: usize,
    display: DisplayIcon,
}

impl View for Grid {
    type V = GridState;

    closed spec fn view(&self) -> GridState {
        GridState {
            rows: self.rows@,
            num_cols: self.num_cols as nat,
            display: self.display@,
        }
    }
}

impl Grid {
    /// A grid of ten rows with the identities `0` to `9`, one column, and no
    /// icon drawn.
    pub fn new() -> (grid: Self)
        ensures
            grid@ == GridState::initial(),
            grid@.rows.wf(),
    {
        let mut rows = CollectionSynchronizer::new();
        rows.reconcile(INIT_NUM_ITEMS);
        assert(rows@.ids =~= GridState::initial().rows.ids);
        Grid {
            rows,
            num_cols: INIT_NUM_COLS,
            display: DisplayIcon::new(),
        }
    }

    /// The rows, in creation order.
    pub fn items(&self) -> (items: &Vec<Item>)
        ensures
            ids_of(items@) == self@.rows.ids,
            self@.rows.wf(),
    {
        self.rows.items()
    }

    /// The identity that the next new row will get.
    pub fn next_id(&self) -> (id: usize)
        ensures
            id == self@.rows.next_id,
            self@.rows.wf(),
    {
        self.rows.next_id()
    }

    /// The desired number of rows, which is also the number of rows.
    pub fn num_items(&self) -> (n: usize)
        ensures
            n == self@.rows.ids.len(),
    {
        self.rows.len()
    }

    /// The desired number of columns.
    pub fn num_cols(&self) -> (n: usize)
        ensures
            n == self@.num_cols,
    {
        self.num_cols
    }

    /// The current display mode.
    pub fn display(&self) -> (kind: DisplayIconKind)
        ensures
            kind == self@.display,
    {
        self.display.get()
    }

    /// Whether the identity counter has room for `set_num_items(n)`.
    pub fn can_set_num_items(&self, n: usize) -> (ok: bool)
        ensures
            ok == self@.rows.fits(n as nat),
    {
        self.rows.has_ids_for(n)
    }

    /// Takes a new desired number of rows and reconciles the rows with it.
    /// Nothing else changes.
    pub fn set_num_items(&mut self, n: usize)
        requires
            old(self)@.rows.fits(n as nat),
        ensures
            final(self)@ == (GridState {
                rows: old(self)@.rows.reconcile(n as nat),
                ..old(self)@
            }),
            final(self)@.rows.ids.len() == n,
            final(self)@.rows.wf(),
    {
        self.rows.reconcile(n);
    }

    /// Takes a new desired number of columns. The rows do not change.
    pub fn set_num_cols(&mut self, n: usize)
        ensures
            final(self)@ == (GridState { num_cols: n as nat, ..old(self)@ }),
    {
        self.num_cols = n;
    }

    /// Takes a new display mode. Every cell shown from now on is drawn in it.
    pub fn set_display(&mut self, kind: DisplayIconKind)
        ensures
            final(self)@ == (GridState { display: kind, ..old(self)@ }),
    {
        self.display.set(kind);
    }

    /// What the grid shows: for each row a line of cells.
    pub fn render(&self) -> (shown: Vec<Vec<Cell>>)
        ensures
            self@.shows(shown@),
    {
        let items = self.rows.items();
        let icon = self.display.get();
        let mut shown: Vec<Vec<Cell>> = Vec::new();
        let mut i: usize = 0;
        while i < items.len()
            invariant
                i <= items@.len(),
                ids_of(items@) == self@.rows.ids,
                icon == self@.display,
                shown@.len() == i,
                forall|r: int| 0 <= r < i ==> (#[trigger] shown@[r])@.len() == self@.num_cols,
                forall|r: int, j: int|
                    0 <= r < i && 0 <= j < self@.num_cols ==> {
                        &&& (#[trigger] shown@[r]@[j]).row == self@.rows.ids[r]
                        &&& shown@[r]@[j].col == j
                        &&& shown@[r]@[j].icon == self@.display
                    },
            decreases items@.len() - i,
        {
            let cells = render_row(items[i], self.num_cols, icon);
            assert(ids_of(items@)[i as int] == items@[i as int].id);
            shown.push(cells);
            i = i + 1;
        }
        shown
    }
}

} // verus!
