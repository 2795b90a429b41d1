//! The game-state engine: the board, the player and the score, and the
//! turn transition that applies one key event under the collision and
//! scroll rules.

use vstd::prelude::*;
use crate::row::Row;
use crate::input::Key;
use crate::{LANE_WIDTH, BOARD_DEPTH, VISIBLE_DEPTH};

verus! {

/// Glyph displayed for an obstacle cell on a freshly generated board.
pub const OBSTACLE_GLYPH: char = '🌲';

/// Glyph displayed for an empty cell on a freshly generated board.
pub const EMPTY_GLYPH: char = '🟩';

/// Glyph displayed at the player's position.
pub const PLAYER_GLYPH: char = '🐸';

/// A successful climb within the visible window: the player steps one row
/// up, the score counts it, the board stays.
pub open spec fn moved_up(pre: GameState, post: GameState) -> bool {
    &&& post.rows() == pre.rows()
    &&& post.col() == pre.col()
    &&& post.row() == pre.row() + 1
    &&& post.score() == pre.score() + 1
}

/// A successful scroll at the threshold row: the nearest row is discarded,
/// one fresh full-width row with the engine's lane glyphs is appended at
/// the far end, the player stays put and the score counts the step.
pub open spec fn scrolled(pre: GameState, post: GameState) -> bool {
    &&& post.rows().len() == pre.rows().len()
    &&& forall|i: int| 0 <= i < pre.rows().len() - 1 ==> post.rows()[i] == pre.rows()[i + 1]
    &&& post.rows()[post.rows().len() - 1].well_formed()
    &&& post.rows()[post.rows().len() - 1].obstacle_glyph() == OBSTACLE_GLYPH
    &&& post.rows()[post.rows().len() - 1].empty_glyph() == EMPTY_GLYPH
    &&& post.col() == pre.col()
    &&& post.row() == pre.row()
    &&& post.score() == pre.score() + 1
}

/// A sideways or downward step to column `c`, row `r`: board and score stay.
pub open spec fn moved_to(pre: GameState, post: GameState, c: int, r: int) -> bool {
    &&& post.rows() == pre.rows()
    &&& post.col() == c
    &&& post.row() == r
    &&& post.score() == pre.score()
}

/// The effect of the up key: climb when the cell above is free, scroll when
/// the player stands at the threshold row and the lookahead row is free at
/// the player's column, and otherwise reject the move and change nothing.
pub open spec fn step_up(pre: GameState, post: GameState) -> bool {
    if pre.row() < VISIBLE_DEPTH - 1 {
        if pre.occupied(pre.row() + 1, pre.col()) {
            post == pre
        } else {
            moved_up(pre, post)
        }
    } else if pre.row() == VISIBLE_DEPTH - 1 {
        if pre.occupied(VISIBLE_DEPTH as int, pre.col()) {
            post == pre
        } else {
            scrolled(pre, post)
        }
    } else {
        post == pre
    }
}

/// The effect of the left key: step left when not at the lane edge and the
/// destination cell is free; otherwise change nothing.
pub open spec fn step_left(pre: GameState, post: GameState) -> bool {
    if pre.col() > 0 && !pre.occupied(pre.row(), pre.col() - 1) {
        moved_to(pre, post, pre.col() - 1, pre.row())
    } else {
        post == pre
    }
}

/// The effect of the right key: step right when not at the lane edge and
/// the destination cell is free; otherwise change nothing.
pub open spec fn step_right(pre: GameState, post: GameState) -> bool {
    if pre.col() < LANE_WIDTH - 1 && !pre.occupied(pre.row(), pre.col() + 1) {
        moved_to(pre, post, pre.col() + 1, pre.row())
    } else {
        post == pre
    }
}

/// The effect of the down key: step down when not on the nearest row and
/// the destination cell is free; otherwise change nothing.
pub open spec fn step_down(pre: GameState, post: GameState) -> bool {
    if pre.row() > 0 && !pre.occupied(pre.row() - 1, pre.col()) {
        moved_to(pre, post, pre.col(), pre.row() - 1)
    } else {
        post == pre
    }
}

/// One turn of the engine: how the state after applying `key` relates to
/// the state before. Quit and unrecognised keys change nothing.
pub open spec fn step(pre: GameState, key: Key, post: GameState) -> bool {
    match key {
        Key::Up => step_up(pre, post),
        Key::Left => step_left(pre, post),
        Key::Right => step_right(pre, post),
        Key::Down => step_down(pre, post),
        Key::Quit => post == pre,
        Key::Other => post == pre,
    }
}

/// The whole game state: the board as an ordered stack of rows, indexed 0
/// (nearest) to `BOARD_DEPTH - 1` (farthest, the scroll lookahead buffer),
/// the player position and the score.
pub struct GameState {
    gameboard: Vec<Row>,
    player: (usize, usize),
    player_score: u32,
}

impl GameState {
    /// The rows of the board, nearest first.
    pub closed spec fn rows(self) -> Seq<Row> {
        self.gameboard@
    }

    /// The player's column.
    pub closed spec fn col(self) -> int {
        self.player.0 as int
    }

    /// The player's row index within the visible window.
    pub closed spec fn row(self) -> int {
        self.player.1 as int
    }

    /// The score.
    pub closed spec fn score(self) -> int {
        self.player_score as int
    }

    /// Whether the board cell at row `r`, column `c` holds an obstacle.
    pub open spec fn occupied(self, r: int, c: int) -> bool {
        self.rows()[r].cells()[c]
    }

    /// The structural invariant: a full board of full-width rows, the player
    /// inside the lane and inside the visible window.
    pub open spec fn well_formed(self) -> bool {
        &&& self.rows().len() == BOARD_DEPTH
        &&& forall|i: int| 0 <= i < BOARD_DEPTH ==> (#[trigger] self.rows()[i]).well_formed()
        &&& 0 <= self.col() < LANE_WIDTH
        &&& 0 <= self.row() < VISIBLE_DEPTH
    }

    /// A fresh game: a board of freshly generated random rows, the player
    /// centred on the nearest row, score zero.
    pub fn new() -> (r: GameState)
        ensures
            r.well_formed(),
            r.col() == LANE_WIDTH as int / 2,
            r.row() == 0,
            r.score() == 0,
            forall|i: int|
                0 <= i < BOARD_DEPTH ==> (#[trigger] r.rows()[i]).obstacle_glyph()
                    == OBSTACLE_GLYPH && r.rows()[i].empty_glyph() == EMPTY_GLYPH,
    {
        let mut gameboard: Vec<Row> = Vec::new();
        for _i in 0..BOARD_DEPTH
            invariant
                gameboard@.len() == _i,
                forall|j: int| 0 <= j < _i ==> (#[trigger] gameboard@[j]).well_formed(),
                forall|j: int|
                    0 <= j < _i ==> (#[trigger] gameboard@[j]).obstacle_glyph()
                        == OBSTACLE_GLYPH && gameboard@[j].empty_glyph() == EMPTY_GLYPH,
        {
            gameboard.push(Row::new_random_row(OBSTACLE_GLYPH, EMPTY_GLYPH));
        }
        GameState { gameboard, player: (LANE_WIDTH / 2, 0), player_score: 0 }
    }

    /// A game built from given parts, for callers that choose the board and
    /// the starting position themselves.
    pub fn from_parts(gameboard: Vec<Row>, column: usize, row: usize, score: u32) -> (r: GameState)
        requires
            gameboard@.len() == BOARD_DEPTH,
            forall|i: int| 0 <= i < BOARD_DEPTH ==> (#[trigger] gameboard@[i]).well_formed(),
            column < LANE_WIDTH,
            row < VISIBLE_DEPTH,
        ensures
            r.well_formed(),
            r.rows() == gameboard@,
            r.col() == column as int,
            r.row() == row as int,
            r.score() == score as int,
    {
        GameState { gameboard, player: (column, row), player_score: score }
    }

    /// The player's column.
    pub fn player_column(&self) -> (r: usize)
        ensures
            r as int == self.col(),
    {
        self.player.0
    }

    /// The player's row.
    pub fn player_row(&self) -> (r: usize)
        ensures
            r as int == self.row(),
    {
        self.player.1
    }

    /// The score.
    pub fn player_score(&self) -> (r: u32)
        ensures
            r as int == self.score(),
    {
        self.player_score
    }

    /// The number of rows the board currently holds.
    pub fn board_depth(&self) -> (r: usize)
        ensures
            r == self.rows().len(),
    {
        self.gameboard.len()
    }

    /// The board row at index `r`.
    pub fn row_at(&self, r: usize) -> (row: &Row)
        requires
            (r as int) < self.rows().len(),
        ensures
            *row == self.rows()[r as int],
    {
        &self.gameboard[r]
    }

    /// Whether the board cell at row `r`, column `c` holds an obstacle.
    pub fn occupied_at(&self, r: usize, c: usize) -> (b: bool)
        requires
            (r as int) < self.rows().len(),
            (c as int) < self.rows()[r as int].cells().len(),
        ensures
            b == self.occupied(r as int, c as int),
    {
        self.gameboard[r].occupied_at(c)
    }

    /// Applies one key event: a directional key moves the player under the
    /// collision and scroll rules, the quit key asks the caller to stop, and
    /// any other key changes nothing. Returns whether the caller should quit.
    pub fn update_player(&mut self, key: Key) -> (quit: bool)
        requires
            old(self).well_formed(),
            old(self).score() < u32::MAX,
        ensures
            final(self).well_formed(),
            step(*old(self), key, *final(self)),
            quit <==> key == Key::Quit,
    {
        let mut quit = false;
        match key {
            Key::Up => {
                if self.player.1 < VISIBLE_DEPTH - 1 {
                    let new_y = self.player.1 + 1;
                    let is_tree = self.gameboard[new_y].occupied_at(self.player.0);
                    if !is_tree {
                        self.player.1 = new_y;
                        self.player_score = self.player_score + 1;
                    }
                } else {
                    let next_row_tree = self.gameboard[VISIBLE_DEPTH].occupied_at(self.player.0);
                    if !next_row_tree {
                        let new_row = Row::new_random_row(OBSTACLE_GLYPH, EMPTY_GLYPH);
                        let _discarded = self.gameboard.remove(0);
                        self.gameboard.push(new_row);
                        self.player_score = self.player_score + 1;
                    }
                }
            },
            Key::Left => {
                if self.player.0 > 0 {
                    let new_x = self.player.0 - 1;
                    let is_tree = self.gameboard[self.player.1].occupied_at(new_x);
                    if !is_tree {
                        self.player.0 = new_x;
                    }
                }
            },
            Key::Right => {
                if self.player.0 < LANE_WIDTH - 1 {
                    let new_x = self.player.0 + 1;
                    let is_tree = self.gameboard[self.player.1].occupied_at(new_x);
                    if !is_tree {
                        self.player.0 = new_x;
                    }
                }
            },
            Key::Down => {
                if self.player.1 > 0 {
                    let new_y = self.player.1 - 1;
                    let is_tree = self.gameboard[new_y].occupied_at(self.player.0);
                    if !is_tree {
                        self.player.1 = new_y;
                    }
                }
            },
            Key::Quit => {
                quit = true;
            },
            Key::Other => {},
        }
        quit
    }
}

} // verus!
