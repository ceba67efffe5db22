//! Turns, scores and the end of the game.

use crate::board::{create_board, mark_of, placed, Board, Cell};
use crate::input::{coordinate, index_of};
use crate::score::{
    cell_index, has_line, lemma_tally_after_mark, lemma_win_iff_line, magic, tally, wins, DIM, INIT,
    MAGIC,
};
use vstd::prelude::*;

verus! {

/// How a turn ended.
#[derive(Clone, Copy, Debug, PartialEq, Eq, Structural)]
pub enum Outcome {
    /// The cell was taken: nothing changed and the same player moves again.
    Rejected,
    /// The mark was placed and the other player is next.
    Continue,
    /// The mark was placed and completed a line for the player of this number.
    Won(u8),
}

/// The number by which a player is addressed: one while the turn indicator
/// is `true`, two while it is `false`.
pub open spec fn player_number(turn: bool) -> u8 {
    if turn {
        1
    } else {
        2
    }
}

/// A game in progress: the board, one score for each player, and whose turn it is.
#[derive(Debug)]
pub struct Game {
    board: Board,
    scores: [u32; 2],
    turn: bool,
}

impl Game {
    /// The board is three by three, each score is the tally of its player's
    /// marks, and the player who is not on turn has no complete line.
    pub closed spec fn wf(&self) -> bool {
        &&& self.board.wf()
        &&& self.board.width() == DIM
        &&& self.board.height() == DIM
        &&& self.scores[0] == tally(self.board@, Cell::O)
        &&& self.scores[1] == tally(self.board@, Cell::X)
        &&& !has_line(self.board@, mark_of(!self.turn))
    }

    /// The cells of the board, row by row.
    pub closed spec fn grid(&self) -> Seq<Seq<Cell>> {
        self.board@
    }

    /// The turn indicator: `true` while player one is to move.
    pub closed spec fn spec_turn(&self) -> bool {
        self.turn
    }

    /// The score of the player who moves while the turn indicator is `turn`.
    pub closed spec fn spec_score(&self, turn: bool) -> u32 {
        if turn {
            self.scores[0]
        } else {
            self.scores[1]
        }
    }

    /// A new game: an empty board, both scores at `INIT`, player one to move.
    pub fn new() -> (game: Game)
        ensures
            game.wf(),
            game.grid() == Seq::new(DIM as nat, |y: int| Seq::new(DIM as nat, |x: int| Cell::Empty)),
            game.turn(),
            game.score(true) == INIT,
            game.score(false) == INIT,
    {
        Game { board: create_board(DIM, DIM), scores: [INIT, INIT], turn: true }
    }

    /// One turn of the player who is to move, on the cell that the one-based
    /// entries `raw_x` and `raw_y` name once they are clamped into the grid.
    ///
    /// On a taken cell the turn is rejected and nothing changes. Otherwise
    /// the player's mark is placed and the cell's entry of `MAGIC` is added
    /// to the player's score. If the mark completes a line the player has
    /// won and stays on turn; if not, the turn passes to the other player.
    pub fn play(&mut self, raw_x: i8, raw_y: i8) -> (outcome: Outcome)
        requires
            old(self).wf(),
        ensures
            final(self).wf(),
            ({
                let x = index_of(raw_x as int);
                let y = index_of(raw_y as int);
                let mover = old(self).turn();
                if old(self).grid()[y][x] != Cell::Empty {
                    &&& outcome == Outcome::Rejected
                    &&& *final(self) == *old(self)
                } else {
                    &&& final(self).grid() == placed(old(self).grid(), x, y, mark_of(mover))
                    &&& final(self).score(mover) == old(self).score(mover)
                        + MAGIC[cell_index(x, y)]
                    &&& final(self).score(!mover) == old(self).score(!mover)
                    &&& if has_line(final(self).grid(), mark_of(mover)) {
                        &&& outcome == Outcome::Won(player_number(mover))
                        &&& final(self).turn() == mover
                    } else {
                        &&& outcome == Outcome::Continue
                        &&& final(self).turn() == !mover
                    }
                }
            }),
    {
        let player: usize = if self.turn { 0 } else { 1 };
        let xinput = coordinate(raw_x);
        let yinput = coordinate(raw_y);
        proof {
            let grid = self.board@;
            let mark = mark_of(self.turn);
            if grid[yinput as int][xinput as int] == Cell::Empty {
                self.board.lemma_view_shape();
                lemma_tally_after_mark(grid, xinput as int, yinput as int, mark, mark_of(!self.turn));
                lemma_win_iff_line(placed(grid, xinput as int, yinput as int, mark), mark);
            }
        }
        match self.board.update(xinput, yinput, self.turn) {
            Ok(_) => {
                self.scores[player] = self.scores[player] + magic((yinput + xinput * DIM) as usize);
            },
            Err(_) => {
                return Outcome::Rejected;
            },
        }
        if self.board.check(self.scores[player]) {
            return Outcome::Won(self.player());
        }
        self.turn = !self.turn;
        Outcome::Continue
    }

    /// The player who would be declared the winner now: the player on turn,
    /// once that player's marks fill a line.
    pub fn winner(&self) -> (won: Option<u8>)
        requires
            self.wf(),
        ensures
            won == if has_line(self.grid(), mark_of(self.turn())) {
                Some(player_number(self.turn()))
            } else {
                None
            },
    {
        proof {
            lemma_win_iff_line(self.board@, mark_of(self.turn));
        }
        if self.board.check(self.score(self.turn)) {
            Some(self.player())
        } else {
            None
        }
    }

    /// The board as it stands.
    pub fn board(&self) -> (board: &Board)
        requires
            self.wf(),
        ensures
            board.wf(),
            board.width() == DIM,
            board.height() == DIM,
            board@ == self.grid(),
    {
        &self.board
    }

    /// The turn indicator: `true` while player one is to move.
    #[verifier::when_used_as_spec(spec_turn)]
    pub fn turn(&self) -> (turn: bool)
        ensures
            turn == self.spec_turn(),
    {
        self.turn
    }

    /// The number of the player who is to move.
    pub fn player(&self) -> (number: u8)
        ensures
            number == player_number(self.turn()),
    {
        if self.turn {
            1
        } else {
            2
        }
    }

    /// The score of the player who moves while the turn indicator is `turn`.
    #[verifier::when_used_as_spec(spec_score)]
    pub fn score(&self, turn: bool) -> (score: u32)
        ensures
            score == self.spec_score(turn),
    {
        if turn {
            self.scores[0]
        } else {
            self.scores[1]
        }
    }

    /// In every game the score of a player is the tally of that player's
    /// marks on the board, so it shows a win exactly when those marks fill
    /// a line; and the player who is not on turn has no such line.
    pub proof fn lemma_scores_follow_board(&self, turn: bool)
        requires
            self.wf(),
        ensures
            self.score(turn) == tally(self.grid(), mark_of(turn)),
            wins(self.score(turn)) <==> has_line(self.grid(), mark_of(turn)),
            !has_line(self.grid(), mark_of(!self.turn())),
    {
        lemma_win_iff_line(self.board@, mark_of(turn));
    }
}

} // verus!
