//! One horizontal strip of the board: a fixed-width sequence of occupancy
//! cells plus the two glyphs used to display them.

use vstd::prelude::*;
use crate::LANE_WIDTH;

verus! {

/// A row of the board. Each cell is `true` when an obstacle occupies it.
/// All cells of a row share one obstacle glyph and one empty-cell glyph.
pub struct Row {
    objects: Vec<bool>,
    object_label: char,
    environment_label: char,
}

/// Number of equally likely outcomes of one obstacle draw; outcome 0 marks
/// an obstacle, so each cell is occupied with probability 1/5.
pub const OBSTACLE_DIE: u32 = 5;

/// Relies on `rand::thread_rng` and `rand::Rng::gen_range`: a uniform draw
/// from `0..OBSTACLE_DIE`, always strictly below the bound.
#[verifier::external_body]
fn draw_die() -> (r: u32)
    ensures
        r < OBSTACLE_DIE,
{
    rand::Rng::gen_range(&mut rand::thread_rng(), 0..OBSTACLE_DIE)
}

impl Row {
    /// The occupancy cells of this row, nearest column first.
    pub closed spec fn cells(self) -> Seq<bool> {
        self.objects@
    }

    /// The glyph displayed for an occupied cell.
    pub closed spec fn obstacle_glyph(self) -> char {
        self.object_label
    }

    /// The glyph displayed for an empty cell.
    pub closed spec fn empty_glyph(self) -> char {
        self.environment_label
    }

    /// A row is well formed when it spans the whole lane.
    pub open spec fn well_formed(self) -> bool {
        self.cells().len() == LANE_WIDTH
    }

    pub fn new(objects: Vec<bool>, object_label: char, environment_label: char) -> (r: Self)
        ensures
            r.cells() == objects@,
            r.obstacle_glyph() == object_label,
            r.empty_glyph() == environment_label,
    {
        Self { objects, object_label, environment_label }
    }

    /// Generates a full-width row whose cells are independent random draws,
    /// each occupied with probability 1/5.
    pub fn new_random_row(object_label: char, environment_label: char) -> (r: Self)
        ensures
            r.well_formed(),
            r.obstacle_glyph() == object_label,
            r.empty_glyph() == environment_label,
    {
        let mut objects: Vec<bool> = Vec::new();
        for _i in 0..LANE_WIDTH
            invariant
                objects@.len() == _i,
        {
            let d = draw_die();
            objects.push(d == 0);
        }
        Self::new(objects, object_label, environment_label)
    }

    /// Whether the cell at `col` holds an obstacle.
    pub fn occupied_at(&self, col: usize) -> (r: bool)
        requires
            col < self.cells().len(),
        ensures
            r == self.cells()[col as int],
    {
        self.objects[col]
    }

    /// The glyph this row displays for a cell of the given occupancy.
    pub fn glyph(&self, occupied: bool) -> (c: char)
        ensures
            c == if occupied {
                self.obstacle_glyph()
            } else {
                self.empty_glyph()
            },
    {
        if occupied {
            self.object_label
        } else {
            self.environment_label
        }
    }

    /// The number of cells in this row.
    pub fn width(&self) -> (r: usize)
        ensures
            r == self.cells().len(),
    {
        self.objects.len()
    }
}

} // verus!
