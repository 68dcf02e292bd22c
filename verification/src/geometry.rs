//! Squares and the geometry of moves on the grid.

use vstd::prelude::*;
use crate::error::ChessError;
use crate::piece::{Color, Piece};

verus! {

/// The mathematical model of a board: eight rows of eight squares each.
pub type Grid = Seq<Seq<Option<Piece>>>;

/// A grid has the shape of a chess board.
pub open spec fn grid_wf(grid: Grid) -> bool {
    &&& grid.len() == 8
    &&& forall|r: int| 0 <= r < 8 ==> (#[trigger] grid[r]).len() == 8
}

/// A square is a (rank, file) pair of grid indices.
pub type Square = (usize, usize);

/// Both indices of the square lie in `0..8`.
pub open spec fn on_board(sq: Square) -> bool {
    sq.0 < 8 && sq.1 < 8
}

/// What the grid holds on a square.
pub open spec fn content(grid: Grid, sq: Square) -> Option<Piece> {
    grid[sq.0 as int][sq.1 as int]
}

/// The grid with the content of one square replaced.
pub open spec fn place(grid: Grid, sq: Square, c: Option<Piece>) -> Grid {
    grid.update(sq.0 as int, grid[sq.0 as int].update(sq.1 as int, c))
}

/// What `place` does to the content of each square.
pub proof fn lemma_place_content(grid: Grid, sq: Square, c: Option<Piece>, other: Square)
    requires
        grid_wf(grid),
        on_board(sq),
        on_board(other),
    ensures
        grid_wf(place(grid, sq, c)),
        content(place(grid, sq, c), other) == if other == sq {
            c
        } else {
            content(grid, other)
        },
{
}

/// The grid after `piece` has been put on `to` and `from` has been cleared.
pub open spec fn relocate(grid: Grid, piece: Piece, from: Square, to: Square) -> Grid {
    place(place(grid, to, Some(piece)), from, None)
}

/// How far apart two indices are.
pub open spec fn distance(a: usize, b: usize) -> int {
    if a >= b {
        a - b
    } else {
        b - a
    }
}

/// The number of steps a straight move from `start` to `end` takes.
pub open spec fn span(start: Square, end: Square) -> int {
    if distance(start.0, end.0) >= distance(start.1, end.1) {
        distance(start.0, end.0)
    } else {
        distance(start.1, end.1)
    }
}

/// The index reached from `a` after `k` unit steps in the direction of `b`.
pub open spec fn toward(a: usize, b: usize, k: int) -> int {
    if a < b {
        a + k
    } else if a > b {
        a - k
    } else {
        a as int
    }
}

/// What stands `k` steps along the straight way from `start` to `end`.
pub open spec fn content_along(grid: Grid, start: Square, end: Square, k: int) -> Option<Piece> {
    grid[toward(start.0, end.0, k)][toward(start.1, end.1, k)]
}

/// Every square strictly between `start` and `end` is empty.
pub open spec fn path_clear(grid: Grid, start: Square, end: Square) -> bool {
    forall|k: int|
        0 < k < span(start, end) ==> #[trigger] content_along(grid, start, end, k) is None
}

/// `start` and `end` share a rank or a file.
pub open spec fn along_line(start: Square, end: Square) -> bool {
    start.0 == end.0 || start.1 == end.1
}

/// `start` and `end` lie on a common diagonal.
pub open spec fn along_diagonal(start: Square, end: Square) -> bool {
    distance(start.0, end.0) == distance(start.1, end.1)
}

/// `end` is a knight's jump away from `start`.
pub open spec fn knight_jump(start: Square, end: Square) -> bool {
    ||| distance(start.0, end.0) == 2 && distance(start.1, end.1) == 1
    ||| distance(start.0, end.0) == 1 && distance(start.1, end.1) == 2
}

/// `end` is one of the up to eight neighbours of `start`.
pub open spec fn king_step(start: Square, end: Square) -> bool {
    &&& distance(start.0, end.0) <= 1
    &&& distance(start.1, end.1) <= 1
    &&& start != end
}

/// The square is empty or holds a piece of the other color.
pub open spec fn free_or_enemy(grid: Grid, color: Color, sq: Square) -> bool {
    match content(grid, sq) {
        None => true,
        Some(p) => p.color != color,
    }
}

/// The square holds a piece of the other color.
pub open spec fn holds_enemy(grid: Grid, color: Color, sq: Square) -> bool {
    match content(grid, sq) {
        None => false,
        Some(p) => p.color != color,
    }
}

/// How far apart two indices are.
pub fn index_distance(a: usize, b: usize) -> (d: usize)
    ensures
        d == distance(a, b),
{
    if a >= b {
        a - b
    } else {
        b - a
    }
}

/// Accepts a square of the board and refuses any other pair of indices.
pub fn check_square(sq: (usize, usize)) -> (result: Result<(), ChessError>)
    ensures
        match result {
            Ok(_) => on_board(sq),
            Err(e) => e == ChessError::OutOfBoundsSquare && !on_board(sq),
        },
{
    if sq.0 < 8 && sq.1 < 8 {
        Ok(())
    } else {
        Err(ChessError::OutOfBoundsSquare)
    }
}

} // verus!
