//! Move validation per piece kind: movement pattern, blocking, and what may
//! stand on the destination. Nothing here looks at check.

use vstd::prelude::*;
use crate::board::Board;
use crate::error::ChessError;
use crate::geometry::{
    along_diagonal, along_line, check_square, content, content_along, distance, free_or_enemy,
    holds_enemy, index_distance, king_step, knight_jump, on_board, path_clear, span, toward, Grid,
    Square,
};
use crate::piece::{Color, Piece, PieceType};

verus! {

/// The rank on which the pawns of a color start.
pub open spec fn pawn_home_rank(color: Color) -> int {
    match color {
        Color::White => 6,
        Color::Black => 1,
    }
}

/// The rank `steps` ahead of `rank`, as a pawn of the color moves.
pub open spec fn pawn_ahead(color: Color, rank: usize, steps: int) -> int {
    match color {
        Color::White => rank - steps,
        Color::Black => rank + steps,
    }
}

/// A pawn advances one square onto an empty square, two from its home rank
/// onto an empty square, or captures an enemy piece one step diagonally ahead.
/// The square that a double step passes is not examined, and there is no en
/// passant here.
pub open spec fn valid_pawn_move(grid: Grid, piece: Piece, start: Square, end: Square) -> bool {
    ||| {
        &&& start.0 == pawn_home_rank(piece.color)
        &&& end.0 == pawn_ahead(piece.color, start.0, 2)
        &&& end.1 == start.1
        &&& content(grid, end) is None
    }
    ||| {
        &&& end.0 == pawn_ahead(piece.color, start.0, 1)
        &&& end.1 == start.1
        &&& content(grid, end) is None
    }
    ||| {
        &&& end.0 == pawn_ahead(piece.color, start.0, 1)
        &&& distance(start.1, end.1) == 1
        &&& holds_enemy(grid, piece.color, end)
    }
}

/// A rook moves along a rank or file over empty squares, onto an empty square
/// or an enemy piece.
pub open spec fn valid_rook_move(grid: Grid, piece: Piece, start: Square, end: Square) -> bool {
    &&& along_line(start, end)
    &&& path_clear(grid, start, end)
    &&& free_or_enemy(grid, piece.color, end)
}

/// A bishop moves along a diagonal over empty squares, onto an empty square
/// or an enemy piece.
pub open spec fn valid_bishop_move(grid: Grid, piece: Piece, start: Square, end: Square) -> bool {
    &&& along_diagonal(start, end)
    &&& path_clear(grid, start, end)
    &&& free_or_enemy(grid, piece.color, end)
}

/// A queen moves as a rook or as a bishop.
pub open spec fn valid_queen_move(grid: Grid, piece: Piece, start: Square, end: Square) -> bool {
    valid_rook_move(grid, piece, start, end) || valid_bishop_move(grid, piece, start, end)
}

/// A knight jumps onto an empty square or an enemy piece; nothing in between
/// matters.
pub open spec fn valid_knight_move(grid: Grid, piece: Piece, start: Square, end: Square) -> bool {
    knight_jump(start, end) && free_or_enemy(grid, piece.color, end)
}

/// A king steps to a neighbouring square that is empty or holds an enemy
/// piece. Castling is not a king's move in this sense.
pub open spec fn valid_king_move(grid: Grid, piece: Piece, start: Square, end: Square) -> bool {
    king_step(start, end) && free_or_enemy(grid, piece.color, end)
}

/// The rule of the piece's own kind. Whether `piece` is what stands on
/// `start`, and whose turn it is, are not part of the rule.
pub open spec fn valid_move(grid: Grid, piece: Piece, start: Square, end: Square) -> bool {
    match piece.piece_type {
        PieceType::Pawn => valid_pawn_move(grid, piece, start, end),
        PieceType::Rook => valid_rook_move(grid, piece, start, end),
        PieceType::Knight => valid_knight_move(grid, piece, start, end),
        PieceType::Bishop => valid_bishop_move(grid, piece, start, end),
        PieceType::Queen => valid_queen_move(grid, piece, start, end),
        PieceType::King => valid_king_move(grid, piece, start, end),
    }
}

/// Whether a piece of `color` may land on `sq`: the square is empty or holds
/// an enemy piece.
fn may_land(board: &Board, color: Color, sq: Square) -> (ok: bool)
    requires
        on_board(sq),
    ensures
        ok == free_or_enemy(board@, color, sq),
{
    match board.get(sq.0, sq.1) {
        None => true,
        Some(p) => p.color != color,
    }
}

/// Check if the move is valid for a pawn.
pub fn is_valid_pawn_move(
    board: &Board,
    piece: &Piece,
    start: (usize, usize),
    end: (usize, usize),
) -> (ok: bool)
    requires
        on_board(start),
        on_board(end),
    ensures
        ok == valid_pawn_move(board@, *piece, start, end),
{
    let target = board.get(end.0, end.1);
    let (one_ahead, two_ahead_from_home) = match piece.color {
        Color::White => (start.0 >= 1 && end.0 == start.0 - 1, start.0 == 6 && end.0 == 4),
        Color::Black => (end.0 == start.0 + 1, start.0 == 1 && end.0 == 3),
    };
    if end.1 == start.1 {
        (one_ahead || two_ahead_from_home) && target.is_none()
    } else if one_ahead && index_distance(start.1, end.1) == 1 {
        match target {
            None => false,
            Some(p) => p.color != piece.color,
        }
    } else {
        false
    }
}

/// Check if the move is valid for a knight.
pub fn is_valid_knight_move(
    board: &Board,
    piece: &Piece,
    start: (usize, usize),
    end: (usize, usize),
) -> (ok: bool)
    requires
        on_board(start),
        on_board(end),
    ensures
        ok == valid_knight_move(board@, *piece, start, end),
{
    let dr = index_distance(start.0, end.0);
    let df = index_distance(start.1, end.1);
    if (dr == 2 && df == 1) || (dr == 1 && df == 2) {
        may_land(board, piece.color, end)
    } else {
        false
    }
}

/// Check if the move is valid for a king.
pub fn is_valid_king_move(
    board: &Board,
    piece: &Piece,
    start: (usize, usize),
    end: (usize, usize),
) -> (ok: bool)
    requires
        on_board(start),
        on_board(end),
    ensures
        ok == valid_king_move(board@, *piece, start, end),
{
    let dr = index_distance(start.0, end.0);
    let df = index_distance(start.1, end.1);
    if dr <= 1 && df <= 1 && (dr != 0 || df != 0) {
        may_land(board, piece.color, end)
    } else {
        false
    }
}

/// Whether every square strictly between `start` and `end` is empty, for two
/// squares on a common rank, file or diagonal.
pub(crate) fn path_is_clear(board: &Board, start: Square, end: Square) -> (clear: bool)
    requires
        on_board(start),
        on_board(end),
        along_line(start, end) || along_diagonal(start, end),
    ensures
        clear == path_clear(board@, start, end),
{
    let dr = index_distance(start.0, end.0);
    let df = index_distance(start.1, end.1);
    let steps = if dr >= df { dr } else { df };
    let mut rank = start.0;
    let mut file = start.1;
    let mut k: usize = 1;
    while k < steps
        invariant
            on_board(start),
            on_board(end),
            along_line(start, end) || along_diagonal(start, end),
            steps == span(start, end),
            1 <= k,
            k <= steps || steps == 0,
            rank == toward(start.0, end.0, k - 1),
            file == toward(start.1, end.1, k - 1),
            forall|j: int| 0 < j < k ==> #[trigger] content_along(board@, start, end, j) is None,
        decreases steps - k,
    {
        if start.0 < end.0 {
            rank += 1;
        } else if start.0 > end.0 {
            rank -= 1;
        }
        if start.1 < end.1 {
            file += 1;
        } else if start.1 > end.1 {
            file -= 1;
        }
        if board.get(rank, file).is_some() {
            assert(content_along(board@, start, end, k as int) is Some);
            return false;
        }
        k += 1;
    }
    true
}

/// Check if the move is valid for a rook.
pub fn is_valid_rook_move(
    board: &Board,
    piece: &Piece,
    start: (usize, usize),
    end: (usize, usize),
) -> (ok: bool)
    requires
        on_board(start),
        on_board(end),
    ensures
        ok == valid_rook_move(board@, *piece, start, end),
{
    if start.0 == end.0 || start.1 == end.1 {
        path_is_clear(board, start, end) && may_land(board, piece.color, end)
    } else {
        false
    }
}

/// Check if the move is valid for a bishop.
pub fn is_valid_bishop_move(
    board: &Board,
    piece: &Piece,
    start: (usize, usize),
    end: (usize, usize),
) -> (ok: bool)
    requires
        on_board(start),
        on_board(end),
    ensures
        ok == valid_bishop_move(board@, *piece, start, end),
{
    if index_distance(start.0, end.0) == index_distance(start.1, end.1) {
        path_is_clear(board, start, end) && may_land(board, piece.color, end)
    } else {
        false
    }
}

/// Check if the move is valid for a queen.
pub fn is_valid_queen_move(
    board: &Board,
    piece: &Piece,
    start: (usize, usize),
    end: (usize, usize),
) -> (ok: bool)
    requires
        on_board(start),
        on_board(end),
    ensures
        ok == valid_queen_move(board@, *piece, start, end),
{
    is_valid_rook_move(board, piece, start, end) || is_valid_bishop_move(board, piece, start, end)
}

/// Check if the move is valid for the piece. The board is only read; that
/// `piece` stands on `start`, and that it is its side's turn, is for the
/// caller to see to.
pub fn is_valid_move(
    board: &Board,
    piece: &Piece,
    start: (usize, usize),
    end: (usize, usize),
) -> (ok: bool)
    requires
        on_board(start),
        on_board(end),
    ensures
        ok == valid_move(board@, *piece, start, end),
{
    match piece.piece_type {
        PieceType::Pawn => is_valid_pawn_move(board, piece, start, end),
        PieceType::Rook => is_valid_rook_move(board, piece, start, end),
        PieceType::Knight => is_valid_knight_move(board, piece, start, end),
        PieceType::Bishop => is_valid_bishop_move(board, piece, start, end),
        PieceType::Queen => is_valid_queen_move(board, piece, start, end),
        PieceType::King => is_valid_king_move(board, piece, start, end),
    }
}

/// Check if the move is valid for the piece, for any two pairs of indices:
/// pairs that are no squares of the board are refused as such.
pub fn validate_move(
    board: &Board,
    piece: &Piece,
    start: (usize, usize),
    end: (usize, usize),
) -> (result: Result<bool, ChessError>)
    ensures
        match result {
            Ok(ok) => {
                &&& on_board(start) && on_board(end)
                &&& ok == valid_move(board@, *piece, start, end)
            },
            Err(e) => e == ChessError::OutOfBoundsSquare && !(on_board(start) && on_board(end)),
        },
{
    match check_square(start) {
        Err(e) => {
            return Err(e);
        },
        Ok(_) => {},
    }
    match check_square(end) {
        Err(e) => {
            return Err(e);
        },
        Ok(_) => {},
    }
    Ok(is_valid_move(board, piece, start, end))
}

} // verus!
