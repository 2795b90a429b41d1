//! Frame production: the glyph grid for one turn and the score line.
//!
//! Frames are produced farthest row first, so the lookahead terrain appears
//! above the player's window; the player's cell shows the player glyph in
//! place of the lane glyph. The surrounding program only writes the lines to
//! the display.

use vstd::prelude::*;
use crate::engine::{GameState, PLAYER_GLYPH};
use crate::{LANE_WIDTH, BOARD_DEPTH};

verus! {

/// The character for one decimal digit.
pub open spec fn digit_char(d: int) -> char {
    if d == 0 {
        '0'
    } else if d == 1 {
        '1'
    } else if d == 2 {
        '2'
    } else if d == 3 {
        '3'
    } else if d == 4 {
        '4'
    } else if d == 5 {
        '5'
    } else if d == 6 {
        '6'
    } else if d == 7 {
        '7'
    } else if d == 8 {
        '8'
    } else {
        '9'
    }
}

/// The decimal digits of a non-negative number, most significant first,
/// without leading zeros (a single zero for zero itself).
pub open spec fn decimal_digits(n: int) -> Seq<char>
    decreases n,
{
    if n < 10 {
        seq![digit_char(n)]
    } else {
        decimal_digits(n / 10).push(digit_char(n % 10))
    }
}

fn digit_char_of(d: u32) -> (c: char)
    requires
        d < 10,
    ensures
        c == digit_char(d as int),
{
    match d {
        0 => '0',
        1 => '1',
        2 => '2',
        3 => '3',
        4 => '4',
        5 => '5',
        6 => '6',
        7 => '7',
        8 => '8',
        _ => '9',
    }
}

fn push_decimal_digits(n: u32, out: &mut Vec<char>)
    ensures
        final(out)@ == old(out)@ + decimal_digits(n as int),
    decreases n,
{
    if n >= 10 {
        push_decimal_digits(n / 10, out);
    }
    let d = n % 10;
    out.push(digit_char_of(d));
    assert(out@ =~= old(out)@ + decimal_digits(n as int));
}

impl GameState {
    /// The glyph shown at board row `r`, column `c`: the player glyph at the
    /// player's cell, the row's obstacle or empty glyph everywhere else.
    pub open spec fn glyph_at(self, r: int, c: int) -> char {
        if r == self.row() && c == self.col() {
            PLAYER_GLYPH
        } else if self.occupied(r, c) {
            self.rows()[r].obstacle_glyph()
        } else {
            self.rows()[r].empty_glyph()
        }
    }

    /// One frame of the game: `BOARD_DEPTH` lines of `LANE_WIDTH` glyphs
    /// each, farthest row first.
    pub fn render(&self) -> (lines: Vec<Vec<char>>)
        requires
            self.well_formed(),
        ensures
            lines@.len() == BOARD_DEPTH,
            forall|i: int| 0 <= i < BOARD_DEPTH ==> (#[trigger] lines@[i])@.len() == LANE_WIDTH,
            forall|i: int, j: int|
                0 <= i < BOARD_DEPTH && 0 <= j < LANE_WIDTH ==> #[trigger] lines@[i]@[j]
                    == self.glyph_at(BOARD_DEPTH - 1 - i, j),
    {
        let mut lines: Vec<Vec<char>> = Vec::new();
        let mut i: usize = 0;
        while i < BOARD_DEPTH
            invariant
                self.well_formed(),
                i <= BOARD_DEPTH,
                lines@.len() == i,
                forall|k: int| 0 <= k < i ==> (#[trigger] lines@[k])@.len() == LANE_WIDTH,
                forall|k: int, j: int|
                    0 <= k < i && 0 <= j < LANE_WIDTH ==> #[trigger] lines@[k]@[j]
                        == self.glyph_at(BOARD_DEPTH - 1 - k, j),
            decreases BOARD_DEPTH - i,
        {
            let row_index = BOARD_DEPTH - 1 - i;
            let mut line: Vec<char> = Vec::new();
            let mut j: usize = 0;
            while j < LANE_WIDTH
                invariant
                    self.well_formed(),
                    row_index == BOARD_DEPTH - 1 - i,
                    i < BOARD_DEPTH,
                    j <= LANE_WIDTH,
                    line@.len() == j,
                    forall|m: int| 0 <= m < j ==> #[trigger] line@[m]
                        == self.glyph_at(row_index as int, m),
                decreases LANE_WIDTH - j,
            {
                let here = row_index == self.player_row() && j == self.player_column();
                let c = if here {
                    PLAYER_GLYPH
                } else {
                    let occ = self.occupied_at(row_index, j);
                    self.row_at(row_index).glyph(occ)
                };
                line.push(c);
                j = j + 1;
            }
            lines.push(line);
            i = i + 1;
        }
        lines
    }

    /// The trailing status line of a frame: the word `Score:` and the score
    /// in decimal.
    pub fn score_line(&self) -> (line: Vec<char>)
        ensures
            line@ == seq!['S', 'c', 'o', 'r', 'e', ':', ' '] + decimal_digits(self.score()),
    {
        let mut line: Vec<char> = Vec::new();
        line.push('S');
        line.push('c');
        line.push('o');
        line.push('r');
        line.push('e');
        line.push(':');
        line.push(' ');
        assert(line@ =~= seq!['S', 'c', 'o', 'r', 'e', ':', ' ']);
        push_decimal_digits(self.player_score(), &mut line);
        line
    }
}

} // verus!
