//! The sweep over a grid of fixed size: row after row from the top, each row from left to
//! right. After the last cell of a row the row ends, and that is the one moment at which the
//! time coordinate of the noise field moves on.

use vstd::prelude::*;

verus! {

/// What a sweep comes to next.
#[derive(Clone, Copy, Debug, PartialEq, Eq, Structural)]
pub enum SweepEvent {
    /// A cell is to be sampled. `index` is its place in row-major order.
    Cell { index: usize, column: usize, row: usize },
    /// The last cell of the row `row` has been sampled: the offset along the rows and the
    /// time coordinate move on by one step each.
    RowEnd { row: usize },
    /// Every row has ended.
    Done,
}

/// The mathematical value of a [`GridSweep`]: the size of the grid and a position in it.
pub struct SweepState {
    pub columns: nat,
    pub rows: nat,
    pub column: nat,
    pub row: nat,
}

impl SweepState {
    /// The state before the first cell.
    pub open spec fn start(columns: nat, rows: nat) -> SweepState {
        SweepState { columns, rows, column: 0, row: 0 }
    }

    /// The position lies in the grid or just behind a row, and once all rows have ended it
    /// stays where it is.
    pub open spec fn valid(self) -> bool {
        &&& self.column <= self.columns
        &&& self.row <= self.rows
        &&& self.row == self.rows ==> self.column == 0
    }

    /// Every row has ended.
    pub open spec fn finished(self) -> bool {
        self.row >= self.rows
    }

    /// What the sweep comes to in this state.
    pub open spec fn event(self) -> SweepEvent {
        if self.finished() {
            SweepEvent::Done
        } else if self.column < self.columns {
            SweepEvent::Cell {
                index: (self.row * self.columns + self.column) as usize,
                column: self.column as usize,
                row: self.row as usize,
            }
        } else {
            SweepEvent::RowEnd { row: self.row as usize }
        }
    }

    /// The state after that event.
    pub open spec fn advanced(self) -> SweepState {
        if self.finished() {
            self
        } else if self.column < self.columns {
            SweepState { column: self.column + 1, ..self }
        } else {
            SweepState { column: 0, row: self.row + 1, ..self }
        }
    }

    /// The state after `n` events.
    pub open spec fn advanced_by(self, n: nat) -> SweepState
        decreases n,
    {
        if n == 0 {
            self
        } else {
            self.advanced_by((n - 1) as nat).advanced()
        }
    }

    /// The next `n` events, in order.
    pub open spec fn events(self, n: nat) -> Seq<SweepEvent>
        decreases n,
    {
        if n == 0 {
            Seq::empty()
        } else {
            self.events((n - 1) as nat).push(self.advanced_by((n - 1) as nat).event())
        }
    }
}

/// How many rows end among `events`: the number of steps by which the time coordinate has
/// moved on once they have all happened.
pub open spec fn row_ends(events: Seq<SweepEvent>) -> nat
    decreases events.len(),
{
    if events.len() == 0 {
        0
    } else {
        row_ends(events.drop_last()) + if events.last() is RowEnd {
            1nat
        } else {
            0nat
        }
    }
}

/// The time coordinate after `events`, in exact arithmetic, when it starts at `start` and
/// moves on by `step` at every row end.
pub open spec fn time_after(events: Seq<SweepEvent>, start: int, step: int) -> int
    decreases events.len(),
{
    if events.len() == 0 {
        start
    } else {
        time_after(events.drop_last(), start, step) + if events.last() is RowEnd {
            step
        } else {
            0
        }
    }
}

/// How many events lie before the cell, or the row end, at `column` of `row`.
pub open spec fn events_before(columns: nat, column: nat, row: nat) -> nat {
    row * (columns + 1) + column
}

/// A sweep over a grid of `columns` by `rows` cells.
pub struct GridSweep {
    columns: usize,
    rows: usize,
    column: usize,
    row: usize,
}

impl View for GridSweep {
    type V = SweepState;

    closed spec fn view(&self) -> SweepState {
        SweepState {
            columns: self.columns as nat,
            rows: self.rows as nat,
            column: self.column as nat,
            row: self.row as nat,
        }
    }
}

impl GridSweep {
    #[verifier::type_invariant]
    spec fn well_formed(self) -> bool {
        &&& self.column <= self.columns
        &&& self.row <= self.rows
        &&& self.row == self.rows ==> self.column == 0
        &&& self.columns * self.rows <= usize::MAX
    }

    /// A sweep that stands before the first cell of the first row.
    pub fn new(columns: usize, rows: usize) -> (sweep: Self)
        requires
            columns * rows <= usize::MAX,
        ensures
            sweep@ == SweepState::start(columns as nat, rows as nat),
    {
        GridSweep { columns, rows, column: 0, row: 0 }
    }

    /// The number of cells in the grid.
    pub fn cell_count(&self) -> (count: usize)
        ensures
            count == self@.columns * self@.rows,
    {
        proof {
            use_type_invariant(self);
        }
        self.columns * self.rows
    }

    /// Whether every row has ended.
    pub fn is_finished(&self) -> (finished: bool)
        ensures
            finished == self@.finished(),
            self@.valid(),
    {
        proof {
            use_type_invariant(self);
        }
        self.row >= self.rows
    }

    /// Says what the sweep comes to next, and moves past it.
    pub fn advance(&mut self) -> (event: SweepEvent)
        ensures
            event == old(self)@.event(),
            final(self)@ == old(self)@.advanced(),
            final(self)@.valid(),
            event matches SweepEvent::Cell { index, column, row } ==> {
                &&& index == row * old(self)@.columns + column
                &&& index < old(self)@.columns * old(self)@.rows
            },
    {
        proof {
            use_type_invariant(&*self);
        }
        if self.row >= self.rows {
            SweepEvent::Done
        } else if self.column < self.columns {
            let column = self.column;
            let row = self.row;
            proof {
                lemma_index_in_grid(
                    self.columns as nat,
                    self.rows as nat,
                    column as nat,
                    row as nat,
                );
            }
            let index = row * self.columns + column;
            self.column = column + 1;
            SweepEvent::Cell { index, column, row }
        } else {
            let row = self.row;
            self.column = 0;
            self.row = row + 1;
            SweepEvent::RowEnd { row }
        }
    }
}

/// The row-major index of a cell of the grid is smaller than the number of cells.
pub proof fn lemma_index_in_grid(columns: nat, rows: nat, column: nat, row: nat)
    requires
        column < columns,
        row < rows,
    ensures
        row * columns + column < columns * rows,
        row * columns <= columns * rows,
{
    assert(row * columns + columns <= columns * rows) by (nonlinear_arith)
        requires
            row + 1 <= rows,
    ;
}

/// Cells with different places in the grid have different row-major indices.
pub proof fn lemma_index_is_injective(columns: nat, c1: nat, r1: nat, c2: nat, r2: nat)
    requires
        c1 < columns,
        c2 < columns,
        r1 * columns + c1 == r2 * columns + c2,
    ensures
        c1 == c2,
        r1 == r2,
{
    if r1 < r2 {
        assert(r1 * columns + columns <= r2 * columns) by (nonlinear_arith)
            requires
                r1 + 1 <= r2,
        ;
    } else if r2 < r1 {
        assert(r2 * columns + columns <= r1 * columns) by (nonlinear_arith)
            requires
                r2 + 1 <= r1,
        ;
    }
}

/// From the start, the sweep stands at `column` of `row` after as many events as there are
/// cells and row ends before that place, and exactly `row` rows have ended by then.
pub proof fn lemma_sweep_reaches(columns: nat, rows: nat, column: nat, row: nat)
    requires
        (row < rows && column <= columns) || (row == rows && column == 0),
    ensures
        SweepState::start(columns, rows).advanced_by(events_before(columns, column, row)) == (
        SweepState { columns, rows, column, row }),
        SweepState::start(columns, rows).events(events_before(columns, column, row)).len()
            == events_before(columns, column, row),
        row_ends(SweepState::start(columns, rows).events(events_before(columns, column, row)))
            == row,
    decreases row, column,
{
    let start = SweepState::start(columns, rows);
    let n = events_before(columns, column, row);
    if column > 0 {
        let before = events_before(columns, (column - 1) as nat, row);
        lemma_sweep_reaches(columns, rows, (column - 1) as nat, row);
        assert(start.events(n).drop_last() =~= start.events(before));
    } else if row > 0 {
        let before = events_before(columns, columns, (row - 1) as nat);
        lemma_sweep_reaches(columns, rows, columns, (row - 1) as nat);
        assert(n == before + 1) by (nonlinear_arith)
            requires
                n == row * (columns + 1),
                before == (row - 1) * (columns + 1) + columns,
                row > 0,
        ;
        assert(start.events(n).drop_last() =~= start.events(before));
    } else {
        assert(n == 0) by (nonlinear_arith)
            requires
                n == row * (columns + 1) + column,
                row == 0,
                column == 0,
        ;
    }
}

/// Every cell of the grid is sampled, at its row-major index, and all cells of one row are
/// sampled after the same number of row ends: the number of the row. Whatever moves on only
/// when a row ends is therefore the same for two cells of the same row.
pub proof fn lemma_sweep_visits_cell(columns: nat, rows: nat, column: nat, row: nat)
    requires
        column < columns,
        row < rows,
        columns * rows <= usize::MAX,
    ensures
        SweepState::start(columns, rows).advanced_by(events_before(columns, column, row)).event()
            == (SweepEvent::Cell {
            index: (row * columns + column) as usize,
            column: column as usize,
            row: row as usize,
        }),
        row * columns + column < columns * rows,
        row_ends(SweepState::start(columns, rows).events(events_before(columns, column, row)))
            == row,
{
    lemma_sweep_reaches(columns, rows, column, row);
    lemma_index_in_grid(columns, rows, column, row);
}

/// A whole sweep takes one event for every cell and one for every row; exactly as many rows
/// end in it as the grid has, the last of them after the last cell; and then it is finished.
pub proof fn lemma_sweep_completes(columns: nat, rows: nat)
    ensures
        SweepState::start(columns, rows).advanced_by(events_before(columns, 0, rows)).finished(),
        SweepState::start(columns, rows).advanced_by(events_before(columns, 0, rows)).valid(),
        events_before(columns, 0, rows) == columns * rows + rows,
        row_ends(SweepState::start(columns, rows).events(events_before(columns, 0, rows)))
            == rows,
        rows > 0 ==> SweepState::start(columns, rows).events(
            events_before(columns, 0, rows),
        ).last() == (SweepEvent::RowEnd { row: (rows - 1) as usize }),
{
    lemma_sweep_reaches(columns, rows, 0, rows);
    assert(rows * (columns + 1) == columns * rows + rows) by (nonlinear_arith);
    if rows > 0 {
        lemma_sweep_reaches(columns, rows, columns, (rows - 1) as nat);
        let n = events_before(columns, 0, rows);
        let before = events_before(columns, columns, (rows - 1) as nat);
        assert(n == before + 1) by (nonlinear_arith)
            requires
                n == rows * (columns + 1) + 0,
                before == (rows - 1) * (columns + 1) + columns,
                rows > 0,
        ;
    }
}

/// The time coordinate has moved on by one step for every row that has ended.
pub proof fn lemma_time_after_counts_row_ends(events: Seq<SweepEvent>, start: int, step: int)
    ensures
        time_after(events, start, step) == start + row_ends(events) * step,
    decreases events.len(),
{
    if events.len() > 0 {
        let before = row_ends(events.drop_last());
        lemma_time_after_counts_row_ends(events.drop_last(), start, step);
        assert((before + 1) * step == before * step + step) by (nonlinear_arith);
    } else {
        assert(row_ends(events) * step == 0) by (nonlinear_arith)
            requires
                row_ends(events) == 0,
        ;
    }
}

/// In exact arithmetic, every cell of the row `row` is sampled at the time `start + row *
/// step`, whatever its column, and after the whole sweep the time is `start + rows * step`.
pub proof fn lemma_time_over_sweep(
    columns: nat,
    rows: nat,
    column: nat,
    row: nat,
    start: int,
    step: int,
)
    requires
        column < columns,
        row < rows,
    ensures
        time_after(
            SweepState::start(columns, rows).events(events_before(columns, column, row)),
            start,
            step,
        ) == start + row * step,
        time_after(
            SweepState::start(columns, rows).events(events_before(columns, 0, rows)),
            start,
            step,
        ) == start + rows * step,
{
    let begin = SweepState::start(columns, rows);
    lemma_sweep_reaches(columns, rows, column, row);
    lemma_sweep_reaches(columns, rows, 0, rows);
    lemma_time_after_counts_row_ends(
        begin.events(events_before(columns, column, row)),
        start,
        step,
    );
    lemma_time_after_counts_row_ends(begin.events(events_before(columns, 0, rows)), start, step);
}

/// Once a sweep is finished it stays finished: nothing but `Done` comes, and no row ends.
pub proof fn lemma_finished_sweep_stays(state: SweepState, n: nat)
    requires
        state.finished(),
    ensures
        state.advanced_by(n) == state,
        row_ends(state.events(n)) == 0,
        forall|i: int| 0 <= i < n ==> state.events(n)[i] == SweepEvent::Done,
        state.events(n).len() == n,
    decreases n,
{
    if n > 0 {
        lemma_finished_sweep_stays(state, (n - 1) as nat);
        assert(state.events(n).drop_last() =~= state.events((n - 1) as nat));
    }
}

} // verus!
