//! The bounded grid the game is played on.

use crate::models::Coordinate;
use vstd::arithmetic::div_mod::lemma_fundamental_div_mod;
use vstd::prelude::*;
use vstd::relations::injective_on;
use vstd::seq_lib::seq_to_set_is_finite;
use vstd::set_lib::{lemma_int_range, lemma_len_subset, lemma_map_size, set_int_range};

verus! {

/// The smallest width an arena may have: the snake starts in column 3.
pub const MIN_WIDTH: i32 = 4;

/// The smallest height an arena may have: the snake starts in row 1.
pub const MIN_HEIGHT: i32 = 2;

/// The dimensions of the grid, in cells. They are chosen once, when a game
/// is made, and never change afterwards.
#[derive(Clone, Copy, Debug, PartialEq, Eq, Structural)]
pub struct Arena {
    pub width: i32,
    pub height: i32,
}

impl Arena {
    /// The number of cells of a `width` by `height` grid.
    pub open spec fn area(width: int, height: int) -> int {
        width * height
    }

    /// Whether a grid of these dimensions can host a game: the starting
    /// snake fits in it and its cells can be counted in an `i32`.
    pub open spec fn valid_size(width: int, height: int) -> bool {
        &&& MIN_WIDTH <= width
        &&& MIN_HEIGHT <= height
        &&& Self::area(width, height) <= i32::MAX
    }

    /// The arena can host a game.
    pub open spec fn wf(self) -> bool {
        Self::valid_size(self.width as int, self.height as int)
    }

    /// The number of cells of the arena.
    pub open spec fn cells(self) -> int {
        Self::area(self.width as int, self.height as int)
    }

    /// The length at which the snake has won: one less than the number of
    /// cells.
    pub open spec fn spec_win_length(self) -> int {
        self.cells() - 1
    }

    /// Whether `c` lies inside `[0, width) x [0, height)`.
    pub open spec fn spec_contains(self, c: Coordinate) -> bool {
        &&& 0 <= c.0 < self.width
        &&& 0 <= c.1 < self.height
    }

    /// The cell with number `i` when the cells are counted row by row,
    /// each row from left to right, starting at 0.
    pub open spec fn cell_at(self, i: int) -> Coordinate {
        Coordinate((i % (self.width as int)) as i32, (i / (self.width as int)) as i32)
    }

    /// Makes an arena of `width` by `height` cells, or `None` where such a
    /// grid cannot host a game.
    pub fn new(width: i32, height: i32) -> (arena: Option<Arena>)
        ensures
            arena.is_some() <==> Self::valid_size(width as int, height as int),
            arena matches Some(a) ==> a.width == width && a.height == height,
    {
        let arena = Arena { width, height };
        if arena.is_valid() {
            Some(arena)
        } else {
            None
        }
    }

    /// Whether the arena can host a game.
    pub fn is_valid(self) -> (valid: bool)
        ensures
            valid == self.wf(),
    {
        if self.width < MIN_WIDTH || self.height < MIN_HEIGHT {
            return false;
        }
        assert(0 <= self.width * self.height <= 0x7fff_ffff * 0x7fff_ffff) by (nonlinear_arith)
            requires
                0 <= self.width <= 0x7fff_ffff,
                0 <= self.height <= 0x7fff_ffff,
        ;
        let cells: i64 = (self.width as i64) * (self.height as i64);
        cells <= i32::MAX as i64
    }

    /// Whether `c` lies inside the arena.
    #[verifier::when_used_as_spec(spec_contains)]
    pub fn contains(self, c: Coordinate) -> (inside: bool)
        ensures
            inside == self.spec_contains(c),
    {
        0 <= c.0 && c.0 < self.width && 0 <= c.1 && c.1 < self.height
    }

    /// The length at which the snake has won.
    pub fn win_length(self) -> (length: usize)
        requires
            self.wf(),
        ensures
            length == self.spec_win_length(),
    {
        proof {
            lemma_arena_has_room(self);
        }
        let cells: i32 = self.width * self.height;
        (cells - 1) as usize
    }
}

/// A valid arena has at least eight cells, so a snake of three cells is
/// always shorter than the winning length.
pub proof fn lemma_arena_has_room(arena: Arena)
    requires
        arena.wf(),
    ensures
        arena.cells() >= MIN_WIDTH * MIN_HEIGHT,
        3 < arena.spec_win_length(),
{
    let w = arena.width as int;
    let h = arena.height as int;
    assert(w * h >= 4 * 2) by (nonlinear_arith)
        requires
            w >= 4,
            h >= 2,
    ;
}

/// Counting the cells row by row reaches only cells of the arena, and no
/// cell twice: a cell's number is its row times the width plus its column.
pub proof fn lemma_cell_at(arena: Arena, i: int)
    requires
        arena.wf(),
        0 <= i < arena.cells(),
    ensures
        arena.spec_contains(arena.cell_at(i)),
        i == arena.cell_at(i).1 * arena.width + arena.cell_at(i).0,
{
    let w = arena.width as int;
    let h = arena.height as int;
    lemma_fundamental_div_mod(i, w);
    assert(0 <= i % w < w && 0 <= i / w < h) by (nonlinear_arith)
        requires
            0 < w,
            0 <= i < w * h,
            i == w * (i / w) + (i % w),
    ;
    assert(w * (i / w) == (i / w) * w) by (nonlinear_arith);
}

/// A sequence that holds every cell of the arena has at least as many
/// entries as the arena has cells.
pub proof fn lemma_cover_needs_all_cells(arena: Arena, cells: Seq<Coordinate>)
    requires
        arena.wf(),
        forall|c: Coordinate| arena.spec_contains(c) ==> cells.contains(c),
    ensures
        arena.cells() <= cells.len(),
{
    let n = arena.cells();
    lemma_arena_has_room(arena);
    let numbers = set_int_range(0, n);
    let number_to_cell = |i: int| arena.cell_at(i);
    lemma_int_range(0, n);
    assert(injective_on(number_to_cell, numbers)) by {
        assert forall|i: int, j: int|
            numbers.contains(i) && numbers.contains(j) && #[trigger] number_to_cell(i)
                == #[trigger] number_to_cell(j) implies i == j by {
            lemma_cell_at(arena, i);
            lemma_cell_at(arena, j);
        }
    }
    let reached = numbers.map(number_to_cell);
    lemma_map_size(numbers, reached, number_to_cell);
    assert(reached.subset_of(cells.to_set())) by {
        assert forall|c: Coordinate| reached.contains(c) implies cells.to_set().contains(c) by {
            let i = choose|i: int| numbers.contains(i) && c == number_to_cell(i);
            lemma_cell_at(arena, i);
        }
    }
    seq_to_set_is_finite(cells);
    lemma_len_subset(reached, cells.to_set());
    cells.lemma_cardinality_of_set();
}

} // verus!
