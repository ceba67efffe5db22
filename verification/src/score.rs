//! Win detection by line counters.
//!
//! A score is eight four-bit counters packed into a `u32`, one for each of the
//! three rows, three columns and two diagonals. Every counter starts at one,
//! and claiming a cell adds one to the counter of each line through that cell.
//! A counter therefore reaches four, setting its bit two, exactly when its
//! line is complete.

use crate::board::{placed, Cell};
use vstd::prelude::*;

verus! {

/// Side length of the grid that the line counters are laid out for.
pub const DIM: u8 = 3;

/// Score of a player who owns no cell: every line counter stands at one.
pub const INIT: u32 = 0x11111111;

/// Bit two of every line counter.
pub const WIN_MASK: u32 = 0x44444444;

/// For each cell, a one in the counter of every line through it.
/// The cell in column `x` and row `y` has the entry `y + x * DIM`.
pub const MAGIC: [u32; 9] = [
    0x10010010, 0x01010000, 0x00110001,
    0x10001000, 0x01001011, 0x00101000,
    0x10000101, 0x01000100, 0x00100110,
];

/// Position in `MAGIC` of the cell in column `x` and row `y`.
pub open spec fn cell_index(x: int, y: int) -> int {
    y + x * DIM
}

/// What the cell in column `x` and row `y` adds to the score of `mark`.
pub open spec fn share(grid: Seq<Seq<Cell>>, mark: Cell, x: int, y: int) -> int {
    if grid[y][x] == mark {
        MAGIC[cell_index(x, y)] as int
    } else {
        0
    }
}

/// The score of the player who owns exactly the cells of `grid` that hold `mark`.
pub open spec fn tally(grid: Seq<Seq<Cell>>, mark: Cell) -> int {
    INIT + share(grid, mark, 0, 0) + share(grid, mark, 0, 1) + share(grid, mark, 0, 2)
        + share(grid, mark, 1, 0) + share(grid, mark, 1, 1) + share(grid, mark, 1, 2)
        + share(grid, mark, 2, 0) + share(grid, mark, 2, 1) + share(grid, mark, 2, 2)
}

/// Number of cells of the three-by-three grid that hold `mark`.
pub open spec fn marks(grid: Seq<Seq<Cell>>, mark: Cell) -> int {
    let one = |x: int, y: int| if grid[y][x] == mark { 1int } else { 0int };
    one(0, 0) + one(0, 1) + one(0, 2) + one(1, 0) + one(1, 1) + one(1, 2) + one(2, 0) + one(2, 1)
        + one(2, 2)
}

/// `mark` fills the whole of row `y`.
pub open spec fn fills_row(grid: Seq<Seq<Cell>>, mark: Cell, y: int) -> bool {
    grid[y][0] == mark && grid[y][1] == mark && grid[y][2] == mark
}

/// `mark` fills the whole of column `x`.
pub open spec fn fills_column(grid: Seq<Seq<Cell>>, mark: Cell, x: int) -> bool {
    grid[0][x] == mark && grid[1][x] == mark && grid[2][x] == mark
}

/// `mark` fills one of the eight lines: a row, a column or a diagonal.
pub open spec fn has_line(grid: Seq<Seq<Cell>>, mark: Cell) -> bool {
    ||| fills_row(grid, mark, 0)
    ||| fills_row(grid, mark, 1)
    ||| fills_row(grid, mark, 2)
    ||| fills_column(grid, mark, 0)
    ||| fills_column(grid, mark, 1)
    ||| fills_column(grid, mark, 2)
    ||| grid[0][0] == mark && grid[1][1] == mark && grid[2][2] == mark
    ||| grid[2][0] == mark && grid[1][1] == mark && grid[0][2] == mark
}

/// A score shows a win when some line counter has its bit two set.
pub open spec fn wins(score: u32) -> bool {
    score & WIN_MASK != 0
}

/// The entry of `MAGIC` at `index`.
pub fn magic(index: usize) -> (m: u32)
    requires
        index < 9,
    ensures
        m == MAGIC[index as int],
{
    MAGIC[index]
}

/// Nine weights in the order of `MAGIC`, each either zero or its entry of
/// `MAGIC`, never carry from one counter into the next, and a counter reaches
/// four exactly when the three weights of its line are all there.
proof fn lemma_counters(
    w0: u32,
    w1: u32,
    w2: u32,
    w3: u32,
    w4: u32,
    w5: u32,
    w6: u32,
    w7: u32,
    w8: u32,
)
    by (bit_vector)
    requires
        w0 == 0 || w0 == 0x10010010,
        w1 == 0 || w1 == 0x01010000,
        w2 == 0 || w2 == 0x00110001,
        w3 == 0 || w3 == 0x10001000,
        w4 == 0 || w4 == 0x01001011,
        w5 == 0 || w5 == 0x00101000,
        w6 == 0 || w6 == 0x10000101,
        w7 == 0 || w7 == 0x01000100,
        w8 == 0 || w8 == 0x00100110,
    ensures
        0x11111111u32 + w0 + w1 + w2 + w3 + w4 + w5 + w6 + w7 + w8 <= 0x44444444,
        (((0x11111111u32 + w0 + w1 + w2 + w3 + w4 + w5 + w6 + w7 + w8) as u32) & 0x44444444u32 != 0)
            <==> ((w0 != 0 && w3 != 0 && w6 != 0) || (w1 != 0 && w4 != 0 && w7 != 0) || (w2 != 0
            && w5 != 0 && w8 != 0) || (w0 != 0 && w1 != 0 && w2 != 0) || (w3 != 0 && w4 != 0 && w5
            != 0) || (w6 != 0 && w7 != 0 && w8 != 0) || (w0 != 0 && w4 != 0 && w8 != 0) || (w2 != 0
            && w4 != 0 && w6 != 0)),
{
}

/// A tally always fits in a `u32`, and it shows a win exactly when the
/// player's marks fill a row, a column or a diagonal.
pub proof fn lemma_win_iff_line(grid: Seq<Seq<Cell>>, mark: Cell)
    ensures
        INIT <= tally(grid, mark) <= WIN_MASK,
        wins(tally(grid, mark) as u32) <==> has_line(grid, mark),
{
    let w0 = share(grid, mark, 0, 0) as u32;
    let w1 = share(grid, mark, 0, 1) as u32;
    let w2 = share(grid, mark, 0, 2) as u32;
    let w3 = share(grid, mark, 1, 0) as u32;
    let w4 = share(grid, mark, 1, 1) as u32;
    let w5 = share(grid, mark, 1, 2) as u32;
    let w6 = share(grid, mark, 2, 0) as u32;
    let w7 = share(grid, mark, 2, 1) as u32;
    let w8 = share(grid, mark, 2, 2) as u32;
    lemma_counters(w0, w1, w2, w3, w4, w5, w6, w7, w8);
    assert(tally(grid, mark) == INIT + w0 + w1 + w2 + w3 + w4 + w5 + w6 + w7 + w8);
}

/// A player with fewer than three marks on the grid has not won.
pub proof fn lemma_no_win_before_third_mark(grid: Seq<Seq<Cell>>, mark: Cell)
    requires
        marks(grid, mark) < 3,
    ensures
        !wins(tally(grid, mark) as u32),
{
    lemma_win_iff_line(grid, mark);
}

/// Placing `mark` on a cell of the three-by-three grid that did not hold it
/// adds that cell's entry of `MAGIC` to the tally of `mark`, and leaves the
/// tally and the lines of any other mark that the cell did not hold as they were.
pub proof fn lemma_tally_after_mark(grid: Seq<Seq<Cell>>, x: int, y: int, mark: Cell, other: Cell)
    requires
        grid.len() == DIM,
        forall|row: int| 0 <= row < DIM ==> (#[trigger] grid[row]).len() == DIM,
        0 <= x < DIM,
        0 <= y < DIM,
        grid[y][x] != mark,
        grid[y][x] != other,
        other != mark,
    ensures
        tally(placed(grid, x, y, mark), mark) == tally(grid, mark) + MAGIC[cell_index(x, y)],
        tally(placed(grid, x, y, mark), other) == tally(grid, other),
        has_line(placed(grid, x, y, mark), other) == has_line(grid, other),
{
    let after = placed(grid, x, y, mark);
    assert(grid[0].len() == DIM && grid[1].len() == DIM && grid[2].len() == DIM);
    assert forall|c: int, r: int| 0 <= c < DIM && 0 <= r < DIM implies #[trigger] after[r][c] == (if c
        == x && r == y {
        mark
    } else {
        grid[r][c]
    }) by {
    }
}

} // verus!
