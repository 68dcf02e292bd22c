//! Pseudo-legal move generation: the squares a piece reaches by its movement
//! geometry, with the board consulted for blocking only.

use vstd::prelude::*;
use crate::board::Board;
use crate::geometry::{
    along_diagonal, along_line, content, content_along, distance, holds_enemy, index_distance,
    king_step, knight_jump, on_board, path_clear, span, toward, Grid, Square,
};
use crate::moves::pawn_ahead;
use crate::piece::{Color, Piece, PieceType};

verus! {

/// A sliding piece on `start` gets as far as `end`: a different square of the
/// board with nothing standing strictly between the two.
pub open spec fn slides_to(grid: Grid, start: Square, end: Square) -> bool {
    &&& on_board(end)
    &&& end != start
    &&& path_clear(grid, start, end)
}

/// A rook on `start` reaches `end`, which may itself be occupied.
pub open spec fn rook_reaches(grid: Grid, start: Square, end: Square) -> bool {
    along_line(start, end) && slides_to(grid, start, end)
}

/// A bishop on `start` reaches `end`, which may itself be occupied.
pub open spec fn bishop_reaches(grid: Grid, start: Square, end: Square) -> bool {
    along_diagonal(start, end) && slides_to(grid, start, end)
}

/// A queen reaches what a rook or a bishop reaches.
pub open spec fn queen_reaches(grid: Grid, start: Square, end: Square) -> bool {
    rook_reaches(grid, start, end) || bishop_reaches(grid, start, end)
}

/// A knight reaches every square of the board a jump away.
pub open spec fn knight_reaches(start: Square, end: Square) -> bool {
    on_board(end) && knight_jump(start, end)
}

/// A king reaches every neighbouring square of the board.
pub open spec fn king_reaches(start: Square, end: Square) -> bool {
    on_board(end) && king_step(start, end)
}

/// A pawn of `color` reaches the square straight ahead if it is empty, and a
/// square diagonally ahead if an enemy piece stands there.
pub open spec fn pawn_reaches(grid: Grid, color: Color, start: Square, end: Square) -> bool {
    &&& on_board(end)
    &&& end.0 == pawn_ahead(color, start.0, 1)
    &&& {
        ||| end.1 == start.1 && content(grid, end) is None
        ||| distance(start.1, end.1) == 1 && holds_enemy(grid, color, end)
    }
}

/// What the piece reaches, by the geometry of its kind.
pub open spec fn reaches(grid: Grid, piece: Piece, start: Square, end: Square) -> bool {
    match piece.piece_type {
        PieceType::Pawn => pawn_reaches(grid, piece.color, start, end),
        PieceType::Rook => rook_reaches(grid, start, end),
        PieceType::Knight => knight_reaches(start, end),
        PieceType::Bishop => bishop_reaches(grid, start, end),
        PieceType::Queen => queen_reaches(grid, start, end),
        PieceType::King => king_reaches(start, end),
    }
}

/// The direction from index `a` to index `b`: 1, -1 or 0.
spec fn heading(a: usize, b: usize) -> int {
    if a < b {
        1
    } else if a > b {
        -1
    } else {
        0
    }
}

/// `sq` lies on the straight way from `start` to `target`, `target` included
/// and `start` excluded.
spec fn on_way(start: Square, target: Square, sq: Square) -> bool {
    &&& heading(start.0, sq.0) == heading(start.0, target.0)
    &&& heading(start.1, sq.1) == heading(start.1, target.1)
    &&& (along_line(start, sq) || along_diagonal(start, sq))
    &&& 0 < span(start, sq) <= span(start, target)
}

/// What pushing one more element does to membership and to distinctness.
proof fn lemma_push_square(s: Seq<Square>, x: Square)
    ensures
        forall|y: Square| #[trigger] s.push(x).contains(y) <==> s.contains(y) || y == x,
        s.no_duplicates() && !s.contains(x) ==> s.push(x).no_duplicates(),
{
    assert forall|y: Square| #[trigger] s.push(x).contains(y) <==> s.contains(y) || y == x by {
        vstd::seq_lib::lemma_seq_contains_after_push(s, x, y);
    }
}

/// Walks from `start` toward `target` and appends each square on the way, up
/// to and including the first occupied one.
fn push_ray(board: &Board, start: Square, target: Square, moves: &mut Vec<Square>)
    requires
        on_board(start),
        on_board(target),
        along_line(start, target) || along_diagonal(start, target),
        old(moves)@.no_duplicates(),
        forall|sq: Square| old(moves)@.contains(sq) ==> !on_way(start, target, sq),
    ensures
        final(moves)@.no_duplicates(),
        forall|sq: Square| #[trigger]
            final(moves)@.contains(sq) <==> old(moves)@.contains(sq) || (on_way(start, target, sq)
                && path_clear(board@, start, sq)),
{
    let ghost before = moves@;
    let dr = index_distance(start.0, target.0);
    let df = index_distance(start.1, target.1);
    let steps = if dr >= df { dr } else { df };
    let mut rank = start.0;
    let mut file = start.1;
    let mut k: usize = 0;
    let mut blocked = false;
    while k < steps && !blocked
        invariant
            on_board(start),
            on_board(target),
            along_line(start, target) || along_diagonal(start, target),
            steps == span(start, target),
            k <= steps,
            rank == toward(start.0, target.0, k as int),
            file == toward(start.1, target.1, k as int),
            blocked ==> k >= 1 && content_along(board@, start, target, k as int) is Some,
            forall|j: int|
                0 < j <= k && !(blocked && j == k) ==> #[trigger] content_along(
                    board@,
                    start,
                    target,
                    j,
                ) is None,
            forall|sq: Square| before.contains(sq) ==> !on_way(start, target, sq),
            moves@.no_duplicates(),
            forall|sq: Square| #[trigger]
                moves@.contains(sq) <==> before.contains(sq) || (on_way(start, target, sq) && span(
                    start,
                    sq,
                ) <= k && path_clear(board@, start, sq)),
        decreases steps - k,
    {
        if start.0 < target.0 {
            rank += 1;
        } else if start.0 > target.0 {
            rank -= 1;
        }
        if start.1 < target.1 {
            file += 1;
        } else if start.1 > target.1 {
            file -= 1;
        }
        k += 1;
        let here: Square = (rank, file);
        proof {
            assert forall|j: int| 0 < j < span(start, here) implies #[trigger] content_along(
                board@,
                start,
                here,
                j,
            ) is None by {
                assert(content_along(board@, start, target, j) is None);
            }
            lemma_push_square(moves@, here);
        }
        moves.push(here);
        blocked = board.get(rank, file).is_some();
    }
    proof {
        assert forall|sq: Square|
            on_way(start, target, sq) && path_clear(board@, start, sq) implies span(start, sq)
            <= k by {
            if span(start, sq) > k {
                assert(content_along(board@, start, sq, k as int) is None);
            }
        }
    }
}

/// Returns the squares a rook at (x, y) reaches. They come in no particular
/// order; there is none if the square is empty.
pub fn get_rook_moves(board: &Board, x: usize, y: usize) -> (moves: Vec<(usize, usize)>)
    requires
        x < 8,
        y < 8,
    ensures
        moves@.no_duplicates(),
        content(board@, (x, y)) is None ==> moves@.len() == 0,
        forall|sq: Square| #[trigger]
            moves@.contains(sq) <==> content(board@, (x, y)) is Some && rook_reaches(
                board@,
                (x, y),
                sq,
            ),
{
    let mut moves: Vec<(usize, usize)> = Vec::new();
    if board.get(x, y).is_none() {
        return moves;
    }
    let start: Square = (x, y);
    push_ray(board, start, (0, y), &mut moves);
    push_ray(board, start, (7, y), &mut moves);
    push_ray(board, start, (x, 0), &mut moves);
    push_ray(board, start, (x, 7), &mut moves);
    moves
}

/// The last square of the board on the diagonal that leaves `start` toward
/// higher ranks if `down`, and toward higher files if `right`.
fn diagonal_end(start: Square, down: bool, right: bool) -> (end: Square)
    requires
        on_board(start),
    ensures
        on_board(end),
        along_diagonal(start, end),
        end.0 == start.0 || (end.0 > start.0) == down,
        end.1 == start.1 || (end.1 > start.1) == right,
        span(start, end) == if room(start.0, down) <= room(start.1, right) {
            room(start.0, down)
        } else {
            room(start.1, right)
        },
{
    let room_rank = if down { 7 - start.0 } else { start.0 };
    let room_file = if right { 7 - start.1 } else { start.1 };
    let n = if room_rank <= room_file { room_rank } else { room_file };
    let rank = if down { start.0 + n } else { start.0 - n };
    let file = if right { start.1 + n } else { start.1 - n };
    (rank, file)
}

/// How many squares lie beyond index `a` toward the edge of the board.
spec fn room(a: usize, forth: bool) -> int {
    if forth {
        7 - a
    } else {
        a as int
    }
}

/// Returns the squares a bishop at (x, y) reaches. They come in no particular
/// order; there is none if the square is empty.
pub fn get_bishop_moves(board: &Board, x: usize, y: usize) -> (moves: Vec<(usize, usize)>)
    requires
        x < 8,
        y < 8,
    ensures
        moves@.no_duplicates(),
        content(board@, (x, y)) is None ==> moves@.len() == 0,
        forall|sq: Square| #[trigger]
            moves@.contains(sq) <==> content(board@, (x, y)) is Some && bishop_reaches(
                board@,
                (x, y),
                sq,
            ),
{
    let mut moves: Vec<(usize, usize)> = Vec::new();
    if board.get(x, y).is_none() {
        return moves;
    }
    let start: Square = (x, y);
    push_ray(board, start, diagonal_end(start, true, true), &mut moves);
    push_ray(board, start, diagonal_end(start, true, false), &mut moves);
    push_ray(board, start, diagonal_end(start, false, true), &mut moves);
    push_ray(board, start, diagonal_end(start, false, false), &mut moves);
    moves
}

/// Returns the squares a queen at (x, y) reaches: those of a rook and those
/// of a bishop. They come in no particular order; there is none if the
/// square is empty.
pub fn get_queen_moves(board: &Board, x: usize, y: usize) -> (moves: Vec<(usize, usize)>)
    requires
        x < 8,
        y < 8,
    ensures
        moves@.no_duplicates(),
        content(board@, (x, y)) is None ==> moves@.len() == 0,
        forall|sq: Square| #[trigger]
            moves@.contains(sq) <==> content(board@, (x, y)) is Some && queen_reaches(
                board@,
                (x, y),
                sq,
            ),
{
    let mut moves = get_rook_moves(board, x, y);
    let mut diagonal = get_bishop_moves(board, x, y);
    proof {
        let a = moves@;
        let b = diagonal@;
        assert forall|i: int, j: int| 0 <= i < a.len() && 0 <= j < b.len() implies a[i] != b[j] by {
            assert(a.contains(a[i]));
            assert(b.contains(b[j]));
        }
        vstd::seq_lib::lemma_no_dup_in_concat(a, b);
        assert forall|sq: Square| #[trigger]
            (a + b).contains(sq) <==> a.contains(sq) || b.contains(sq) by {
            if a.contains(sq) {
                let i = choose|i: int| 0 <= i < a.len() && a[i] == sq;
                assert((a + b)[i] == sq);
            }
            if b.contains(sq) {
                let j = choose|j: int| 0 <= j < b.len() && b[j] == sq;
                assert((a + b)[a.len() + j] == sq);
            }
            if (a + b).contains(sq) {
                let i = choose|i: int| 0 <= i < (a + b).len() && (a + b)[i] == sq;
                assert(i < a.len() ==> a[i] == sq);
                assert(i >= a.len() ==> b[i - a.len()] == sq);
            }
        }
    }
    moves.append(&mut diagonal);
    moves
}

/// Appends the square `dr` ranks and `df` files away from `start`, if the
/// board has such a square.
fn push_shifted(moves: &mut Vec<Square>, start: Square, dr: i32, df: i32)
    requires
        on_board(start),
        -2 <= dr <= 2,
        -2 <= df <= 2,
        old(moves)@.no_duplicates(),
        forall|sq: Square| old(moves)@.contains(sq) ==> !shifted(start, dr, df, sq),
    ensures
        final(moves)@.no_duplicates(),
        forall|sq: Square| #[trigger]
            final(moves)@.contains(sq) <==> old(moves)@.contains(sq) || (on_board(sq) && shifted(
                start,
                dr,
                df,
                sq,
            )),
{
    let rank = start.0 as i32 + dr;
    let file = start.1 as i32 + df;
    if 0 <= rank && rank < 8 && 0 <= file && file < 8 {
        let here: Square = (rank as usize, file as usize);
        proof {
            lemma_push_square(moves@, here);
        }
        moves.push(here);
    }
}

/// `sq` lies `dr` ranks and `df` files away from `start`.
spec fn shifted(start: Square, dr: i32, df: i32, sq: Square) -> bool {
    sq.0 == start.0 + dr && sq.1 == start.1 + df
}

/// Returns the squares a knight at (x, y) reaches, whatever stands on them.
/// They come in no particular order; there is none if the square is empty.
pub fn get_knight_moves(board: &Board, x: usize, y: usize) -> (moves: Vec<(usize, usize)>)
    requires
        x < 8,
        y < 8,
    ensures
        moves@.no_duplicates(),
        content(board@, (x, y)) is None ==> moves@.len() == 0,
        forall|sq: Square| #[trigger]
            moves@.contains(sq) <==> content(board@, (x, y)) is Some && knight_reaches((x, y), sq),
{
    let mut moves: Vec<(usize, usize)> = Vec::new();
    if board.get(x, y).is_none() {
        return moves;
    }
    let start: Square = (x, y);
    push_shifted(&mut moves, start, -2, -1);
    push_shifted(&mut moves, start, -2, 1);
    push_shifted(&mut moves, start, -1, -2);
    push_shifted(&mut moves, start, -1, 2);
    push_shifted(&mut moves, start, 1, -2);
    push_shifted(&mut moves, start, 1, 2);
    push_shifted(&mut moves, start, 2, -1);
    push_shifted(&mut moves, start, 2, 1);
    moves
}

/// Returns the squares a king at (x, y) reaches, whatever stands on them.
/// They come in no particular order; there is none if the square is empty.
pub fn get_king_moves(board: &Board, x: usize, y: usize) -> (moves: Vec<(usize, usize)>)
    requires
        x < 8,
        y < 8,
    ensures
        moves@.no_duplicates(),
        content(board@, (x, y)) is None ==> moves@.len() == 0,
        forall|sq: Square| #[trigger]
            moves@.contains(sq) <==> content(board@, (x, y)) is Some && king_reaches((x, y), sq),
{
    let mut moves: Vec<(usize, usize)> = Vec::new();
    if board.get(x, y).is_none() {
        return moves;
    }
    let start: Square = (x, y);
    push_shifted(&mut moves, start, -1, -1);
    push_shifted(&mut moves, start, -1, 0);
    push_shifted(&mut moves, start, -1, 1);
    push_shifted(&mut moves, start, 0, -1);
    push_shifted(&mut moves, start, 0, 1);
    push_shifted(&mut moves, start, 1, -1);
    push_shifted(&mut moves, start, 1, 0);
    push_shifted(&mut moves, start, 1, 1);
    moves
}

/// Returns the squares a pawn at (x, y) reaches by a single step: straight
/// ahead onto an empty square, diagonally ahead onto an enemy piece. They
/// come in no particular order; there is none if the square is empty.
pub fn get_pawn_moves(board: &Board, x: usize, y: usize) -> (moves: Vec<(usize, usize)>)
    requires
        x < 8,
        y < 8,
    ensures
        moves@.no_duplicates(),
        content(board@, (x, y)) is None ==> moves@.len() == 0,
        forall|sq: Square| #[trigger]
            moves@.contains(sq) <==> (content(board@, (x, y)) matches Some(p) && pawn_reaches(
                board@,
                p.color,
                (x, y),
                sq,
            )),
{
    let mut moves: Vec<(usize, usize)> = Vec::new();
    let piece = match board.get(x, y) {
        Some(piece) => piece,
        None => {
            return moves;
        },
    };
    let ahead = match piece.color {
        Color::White => {
            if x == 0 {
                return moves;
            }
            x - 1
        },
        Color::Black => {
            if x == 7 {
                return moves;
            }
            x + 1
        },
    };
    if board.get(ahead, y).is_none() {
        proof {
            lemma_push_square(moves@, (ahead, y));
        }
        moves.push((ahead, y));
    }
    if y < 7 && stands_enemy(board, piece.color, (ahead, y + 1)) {
        proof {
            lemma_push_square(moves@, (ahead, (y + 1) as usize));
        }
        moves.push((ahead, y + 1));
    }
    if y > 0 && stands_enemy(board, piece.color, (ahead, y - 1)) {
        proof {
            lemma_push_square(moves@, (ahead, (y - 1) as usize));
        }
        moves.push((ahead, y - 1));
    }
    moves
}

/// Whether a piece of the other color stands on `sq`.
fn stands_enemy(board: &Board, color: Color, sq: Square) -> (enemy: bool)
    requires
        on_board(sq),
    ensures
        enemy == holds_enemy(board@, color, sq),
{
    match board.get(sq.0, sq.1) {
        None => false,
        Some(p) => p.color != color,
    }
}

} // verus!
