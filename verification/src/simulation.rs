//! Bookkeeping of the fluid simulation that demonstrates the bridge: the checkerboard on which the
//! pressure is relaxed, and how many steps are taken.

use vstd::prelude::*;

verus! {

/// The most relaxation passes over the pressure in a step.
pub const PRESSURE_ITERS: usize = 8;

/// The fewest relaxation passes over the pressure in a step.
pub const MIN_PRESSURE_ITERS: usize = 2;

/// The most steps taken in a frame.
pub const MAX_SUBSTEPS: usize = 8;

/// The number of steps after which the length of a step is worked out anew.
pub const CFL_INTERVAL: usize = 4;

/// Whether a cell of the checkerboard has the colour: the cell in the first row and column is red.
pub open spec fn has_colour(row: int, column: int, red: bool) -> bool {
    ((row + column) % 2 == 0) == red
}

/// Where a cell stands when the rows follow one another.
pub open spec fn cell(row: int, column: int, columns: int) -> int {
    row * columns + column
}

/// A cell stands within its row.
proof fn lemma_cell(row: int, column: int, rows: int, columns: int)
    requires
        0 <= row < rows,
        0 <= column < columns,
    ensures
        0 <= cell(row, column, columns) < rows * columns,
        cell(row, column, columns) / columns == row,
        cell(row, column, columns) % columns == column,
{
    let i = cell(row, column, columns);
    assert(0 <= i < rows * columns) by (nonlinear_arith)
        requires
            0 <= row <= rows - 1,
            0 <= column < columns,
            i == row * columns + column,
    ;
    vstd::arithmetic::div_mod::lemma_fundamental_div_mod_converse(i, columns, row, column);
}

/// Marks the cells of one colour on a checkerboard, row by row.
pub fn colour_mask(rows: usize, columns: usize, red: bool) -> (mask: Vec<bool>)
    requires
        rows * columns <= usize::MAX,
    ensures
        mask@.len() == rows * columns,
        forall|i: int|
            0 <= i < mask@.len() ==> #[trigger] mask@[i] == has_colour(
                i / columns as int,
                i % columns as int,
                red,
            ),
        forall|row: int, column: int|
            0 <= row < rows && 0 <= column < columns ==> mask@[#[trigger] cell(
                row,
                column,
                columns as int,
            )] == (((row + column) % 2 == 0) == red),
{
    assert(rows * columns >= 0) by (nonlinear_arith);
    let cells: usize = rows * columns;
    let mut mask: Vec<bool> = Vec::with_capacity(cells);
    for i in 0..cells
        invariant
            cells == rows * columns,
            mask@.len() == i,
            forall|j: int|
                0 <= j < i ==> #[trigger] mask@[j] == has_colour(
                    j / columns as int,
                    j % columns as int,
                    red,
                ),
    {
        assert(columns > 0) by (nonlinear_arith)
            requires
                0 <= i < cells,
                cells == rows * columns,
                rows >= 0,
                columns >= 0,
        ;
        let row_is_even: bool = (i / columns) % 2 == 0;
        let column_is_even: bool = (i % columns) % 2 == 0;
        mask.push((row_is_even == column_is_even) == red);
    }
    proof {
        assert forall|row: int, column: int|
            0 <= row < rows && 0 <= column < columns implies mask@[#[trigger] cell(
            row,
            column,
            columns as int,
        )] == (((row + column) % 2 == 0) == red) by {
            lemma_cell(row, column, rows as int, columns as int);
        }
    }
    mask
}

/// The number of relaxation passes, given the number that the length of the step suggests.
pub fn pressure_iterations(scaled: usize) -> (iterations: usize)
    ensures
        iterations == if scaled < MIN_PRESSURE_ITERS {
            MIN_PRESSURE_ITERS
        } else if scaled > PRESSURE_ITERS {
            PRESSURE_ITERS
        } else {
            scaled
        },
        2 <= iterations <= 8,
        2 <= scaled <= 8 ==> iterations == scaled,
        scaled < 2 ==> iterations == 2,
        scaled > 8 ==> iterations == 8,
{
    if scaled < MIN_PRESSURE_ITERS {
        MIN_PRESSURE_ITERS
    } else if scaled > PRESSURE_ITERS {
        PRESSURE_ITERS
    } else {
        scaled
    }
}

/// The steps taken in a frame.
pub struct Substeps {
    taken: usize,
}

impl View for Substeps {
    type V = nat;

    /// The number of steps taken.
    closed spec fn view(&self) -> nat {
        self.taken as nat
    }
}

impl Substeps {
    /// No steps yet.
    pub fn new() -> (steps: Self)
        ensures
            steps@ == 0,
    {
        Substeps { taken: 0 }
    }

    /// Whether to take another step, given whether enough time has gathered for one.
    pub fn goes_on(&self, time_left: bool) -> (goes_on: bool)
        ensures
            goes_on == (time_left && self@ < MAX_SUBSTEPS),
            goes_on <==> time_left && self@ < 8,
    {
        time_left && self.taken < MAX_SUBSTEPS
    }

    /// Counts a step, and tells whether the length of a step is to be worked out anew.
    pub fn advance(&mut self) -> (recompute: bool)
        requires
            old(self)@ < MAX_SUBSTEPS,
        ensures
            final(self)@ == old(self)@ + 1,
            recompute == (final(self)@ % CFL_INTERVAL as nat == 0),
            recompute <==> final(self)@ % 4 == 0,
    {
        self.taken = self.taken + 1;
        self.taken % CFL_INTERVAL == 0
    }
}

/// The cell in the first row and column is red, and the colours take turns along rows and columns.
pub proof fn law_colours_take_turns(row: int, column: int, red: bool)
    ensures
        has_colour(0, 0, true),
        has_colour(row + 1, column, red) != has_colour(row, column, red),
        has_colour(row, column + 1, red) != has_colour(row, column, red),
        has_colour(row, column, red) != has_colour(row, column, !red),
{
}

/// The two colours share out the checkerboard: every cell has exactly one of them.
pub proof fn law_colours_share_out_cells(row: int, column: int)
    ensures
        has_colour(row, column, true) != has_colour(row, column, false),
{
}

/// On a board that wraps around and has an even number of rows and columns, the four neighbours of
/// a cell have the other colour.
pub proof fn law_neighbours_have_other_colour(
    rows: int,
    columns: int,
    row: int,
    column: int,
    red: bool,
)
    requires
        rows % 2 == 0,
        columns % 2 == 0,
        0 <= row < rows,
        0 <= column < columns,
    ensures
        has_colour((row + 1) % rows, column, red) != has_colour(row, column, red),
        has_colour((row + rows - 1) % rows, column, red) != has_colour(row, column, red),
        has_colour(row, (column + 1) % columns, red) != has_colour(row, column, red),
        has_colour(row, (column + columns - 1) % columns, red) != has_colour(row, column, red),
{
    lemma_wrap(row + 1, rows);
    lemma_wrap(row + rows - 1, rows);
    lemma_wrap(column + 1, columns);
    lemma_wrap(column + columns - 1, columns);
}

/// Wrapping around once takes off the extent or nothing.
proof fn lemma_wrap(n: int, extent: int)
    requires
        0 <= n < 2 * extent,
    ensures
        n % extent == if n < extent {
            n
        } else {
            n - extent
        },
{
    if n < extent {
        vstd::arithmetic::div_mod::lemma_small_mod(n as nat, extent as nat);
    } else {
        vstd::arithmetic::div_mod::lemma_fundamental_div_mod_converse(n, extent, 1, n - extent);
    }
}

} // verus!
