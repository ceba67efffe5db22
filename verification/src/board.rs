//! The grid and its cells.

use crate::score::{wins, WIN_MASK};
use vstd::prelude::*;
use vstd::string::*;

verus! {

/// What a cell of the grid holds.
#[derive(Clone, Copy, Debug, PartialEq, Eq, Structural)]
pub enum Cell {
    Empty,
    X,
    O,
}

/// The mark that a turn places: `O` while the turn indicator is `true`
/// (player one), `X` while it is `false` (player two).
pub open spec fn mark_of(turn: bool) -> Cell {
    if turn {
        Cell::O
    } else {
        Cell::X
    }
}

/// The grid with `mark` in column `x` of row `y` and every other cell as it was.
pub open spec fn placed(grid: Seq<Seq<Cell>>, x: int, y: int, mark: Cell) -> Seq<Seq<Cell>> {
    grid.update(y, grid[y].update(x, mark))
}

/// The character that stands for a cell in the rendering.
pub open spec fn glyph(cell: Cell) -> char {
    match cell {
        Cell::Empty => '-',
        Cell::X => 'x',
        Cell::O => 'o',
    }
}

/// The first `cells` cells of a row as text: each cell is a bar, a space, its
/// glyph and a space.
pub open spec fn cells_text(row: Seq<Cell>, cells: nat) -> Seq<char> {
    Seq::new(
        4 * cells,
        |i: int|
            if i % 4 == 0 {
                '|'
            } else if i % 4 == 2 {
                glyph(row[i / 4])
            } else {
                ' '
            },
    )
}

/// A row as one line of text: its cells, then a closing bar.
pub open spec fn row_text(row: Seq<Cell>) -> Seq<char> {
    cells_text(row, row.len()).push('|')
}

/// A cell as it stands in a rendered line: a bar, a space, its glyph and a space.
pub open spec fn framed_text(cell: Cell) -> Seq<char> {
    seq!['|', ' ', glyph(cell), ' ']
}

/// The text that frames `cell` in a rendered line.
fn framed(cell: Cell) -> (text: &'static str)
    ensures
        text@ == framed_text(cell),
{
    proof {
        reveal_strlit("| - ");
        reveal_strlit("| x ");
        reveal_strlit("| o ");
    }
    let text = match cell {
        Cell::Empty => "| - ",
        Cell::X => "| x ",
        Cell::O => "| o ",
    };
    assert(text@ =~= framed_text(cell));
    text
}

/// A rectangular grid of cells, stored row by row.
#[derive(Debug)]
pub struct Board {
    width: u8,
    height: u8,
    data: Vec<Vec<Cell>>,
}

impl View for Board {
    type V = Seq<Seq<Cell>>;

    /// The rows from top to bottom, each from left to right: the cell in
    /// column `x` of row `y` is `self@[y][x]`.
    closed spec fn view(&self) -> Seq<Seq<Cell>> {
        Seq::new(
            self.height as nat,
            |y: int| Seq::new(self.width as nat, |x: int| self.data[y][x]),
        )
    }
}

/// A board of the given size with every cell empty.
pub fn create_board(width: u8, height: u8) -> (board: Board)
    ensures
        board.wf(),
        board.width() == width,
        board.height() == height,
        board@ == Seq::new(height as nat, |y: int| Seq::new(width as nat, |x: int| Cell::Empty)),
{
    let mut res = Board { width, height, data: Vec::new() };
    let mut rows: u8 = 0;
    while rows < height
        invariant
            rows <= height,
            res.width == width,
            res.height == height,
            res.data.len() == rows,
            forall|y: int| 0 <= y < rows ==> (#[trigger] res.data[y]).len() == width,
            forall|y: int, x: int| 0 <= y < rows && 0 <= x < width ==> res.data[y][x] == Cell::Empty,
        decreases height - rows,
    {
        let mut temp: Vec<Cell> = Vec::new();
        let mut cells: u8 = 0;
        while cells < width
            invariant
                cells <= width,
                temp.len() == cells,
                forall|x: int| 0 <= x < cells ==> temp[x] == Cell::Empty,
            decreases width - cells,
        {
            temp.push(Cell::Empty);
            cells = cells + 1;
        }
        res.data.push(temp);
        rows = rows + 1;
    }
    assert(res@ =~~= Seq::new(height as nat, |y: int| Seq::new(width as nat, |x: int| Cell::Empty)));
    res
}

impl Board {
    /// The stored rows agree with the recorded dimensions. Every board that
    /// `create_board` returns is well formed, and `update` keeps it so.
    pub closed spec fn wf(&self) -> bool {
        &&& self.data.len() == self.height
        &&& forall|y: int| 0 <= y < self.height ==> (#[trigger] self.data[y]).len() == self.width
    }

    /// Number of columns.
    pub closed spec fn spec_width(&self) -> u8 {
        self.width
    }

    /// Number of rows.
    pub closed spec fn spec_height(&self) -> u8 {
        self.height
    }

    /// The view has `height` rows of `width` cells each.
    pub proof fn lemma_view_shape(&self)
        ensures
            self@.len() == self.height(),
            forall|y: int|
                0 <= y < self.height() ==> (#[trigger] self@[y]).len() == self.width(),
    {
    }

    /// `lines` is the board as text: one line for each row, from top to bottom.
    pub open spec fn is_rendering(&self, lines: Vec<String>) -> bool {
        &&& lines.len() == self.height()
        &&& forall|y: int|
            0 <= y < self.height() ==> (#[trigger] lines[y])@ == row_text(self@[y])
    }

    /// Whether `score` shows three in a row: some line counter has reached four.
    pub fn check(&self, score: u32) -> (won: bool)
        ensures
            won == wins(score),
    {
        score & WIN_MASK > 0
    }

    /// Places the mark of `turn` in column `x` of row `y` if that cell is
    /// empty. On an occupied cell it fails and changes nothing.
    pub fn update(&mut self, x: u8, y: u8, turn: bool) -> (done: Result<(), ()>)
        requires
            old(self).wf(),
            x < old(self).width(),
            y < old(self).height(),
        ensures
            final(self).wf(),
            final(self).width() == old(self).width(),
            final(self).height() == old(self).height(),
            done.is_ok() <==> old(self)@[y as int][x as int] == Cell::Empty,
            done.is_ok() ==> final(self)@ == placed(old(self)@, x as int, y as int, mark_of(turn)),
            done.is_err() ==> *final(self) == *old(self),
    {
        let sym = if turn { Cell::O } else { Cell::X };
        if self.data[y as usize][x as usize] == Cell::Empty {
            self.data[y as usize][x as usize] = sym;
            proof {
                let after = old(self)@.update(y as int, old(self)@[y as int].update(x as int, sym));
                assert forall|j: int| 0 <= j < self@.len() implies self@[j] =~= after[j] by {
                }
                assert(self@ =~= after);
            }
            Ok(())
        } else {
            Err(())
        }
    }

    /// Number of columns.
    #[verifier::when_used_as_spec(spec_width)]
    pub fn width(&self) -> (w: u8)
        ensures
            w == self.spec_width(),
    {
        self.width
    }

    /// Number of rows.
    #[verifier::when_used_as_spec(spec_height)]
    pub fn height(&self) -> (h: u8)
        ensures
            h == self.spec_height(),
    {
        self.height
    }

    /// What column `x` of row `y` holds.
    pub fn cell(&self, x: u8, y: u8) -> (c: Cell)
        requires
            self.wf(),
            x < self.width(),
            y < self.height(),
        ensures
            c == self@[y as int][x as int],
    {
        self.data[y as usize][x as usize]
    }

    /// Row `y` as a line of text: every cell framed as a bar, a space, its
    /// glyph and a space, and a closing bar at the end.
    pub fn render_row(&self, y: u8) -> (line: String)
        requires
            self.wf(),
            y < self.height(),
        ensures
            line@ == row_text(self@[y as int]),
    {
        let row = &self.data[y as usize];
        let mut line = String::new();
        let mut x: usize = 0;
        while x < row.len()
            invariant
                x <= row.len(),
                row.len() == self.width,
                self.wf(),
                y < self.height,
                row@ == self@[y as int],
                line@ == cells_text(row@, x as nat),
            decreases row.len() - x,
        {
            let ghost before = line@;
            line.append(framed(row[x]));
            assert(line@ =~= cells_text(row@, (x + 1) as nat)) by {
                assert(line@ == before + framed_text(row@[x as int]));
            }
            x = x + 1;
        }
        proof {
            reveal_strlit("|");
        }
        line.append("|");
        assert(line@ =~= row_text(row@));
        line
    }

    /// The board as text, one line for each row from top to bottom.
    pub fn render(&self) -> (lines: Vec<String>)
        requires
            self.wf(),
        ensures
            self.is_rendering(lines),
    {
        let mut lines: Vec<String> = Vec::new();
        let mut y: u8 = 0;
        while y < self.height
            invariant
                self.wf(),
                y <= self.height,
                lines.len() == y,
                forall|j: int| 0 <= j < y ==> (#[trigger] lines[j])@ == row_text(self@[j]),
            decreases self.height - y,
        {
            let line = self.render_row(y);
            lines.push(line);
            y = y + 1;
        }
        lines
    }

    /// Rendering only reads the board: two renderings of one board with no
    /// change in between hold the same text, line for line.
    pub proof fn lemma_render_repeats(&self, first: Vec<String>, second: Vec<String>)
        requires
            self.is_rendering(first),
            self.is_rendering(second),
        ensures
            first.len() == second.len(),
            forall|y: int| 0 <= y < first.len() ==> (#[trigger] first[y])@ == second[y]@,
    {
    }
}

} // verus!
