//! The special moves: en passant, castling and pawn promotion.

use vstd::prelude::*;
use crate::board::Board;
use crate::check::{in_check, is_in_check, is_king_of};
use crate::geometry::{
    content, grid_wf, lemma_place_content, on_board, path_clear, place, relocate, Grid, Square,
};
use crate::moves::{is_valid_pawn_move, path_is_clear, valid_pawn_move};
use crate::piece::{Color, Piece, PieceType};

verus! {

/// The rank from which a pawn of the color captures en passant.
pub open spec fn en_passant_rank(color: Color) -> int {
    match color {
        Color::White => 3,
        Color::Black => 4,
    }
}

/// A pawn on its fifth rank moves onto the en passant target square.
pub open spec fn valid_en_passant(
    piece: Piece,
    start: Square,
    end: Square,
    en_passant_square: Option<Square>,
) -> bool {
    &&& piece.piece_type == PieceType::Pawn
    &&& start.0 == en_passant_rank(piece.color)
    &&& en_passant_square == Some(end)
}

/// The square on which the king of the color starts.
pub open spec fn king_home(color: Color) -> Square {
    match color {
        Color::White => (7, 4),
        Color::Black => (0, 4),
    }
}

/// The corner where the rook stands with which a king castles, for a king
/// that goes to `king_file` on `rank`.
pub open spec fn rook_corner(rank: usize, king_file: usize) -> Square {
    if king_file == 2 {
        (rank, 0)
    } else {
        (rank, 7)
    }
}

/// A king on its home square goes two files toward a rook, on file 2 with the
/// queenside right `can_castle.0` or on file 6 with the kingside right
/// `can_castle.1`, nothing stands between king and rook, and on its new
/// square the king is not in check. Squares that the king passes are not
/// examined for attacks.
pub open spec fn valid_castling(
    grid: Grid,
    piece: Piece,
    start: Square,
    end: Square,
    can_castle: (bool, bool),
) -> bool {
    &&& piece.piece_type == PieceType::King
    &&& start == king_home(piece.color)
    &&& end.0 == start.0
    &&& end.1 == 2 || end.1 == 6
    &&& end.1 == 2 ==> can_castle.0
    &&& end.1 == 6 ==> can_castle.1
    &&& path_clear(grid, start, rook_corner(start.0, end.1))
    &&& !in_check(relocate(grid, piece, start, end), piece.color)
}

/// The rank from which a pawn of the color is promoted.
pub open spec fn promotion_start_rank(color: Color) -> int {
    match color {
        Color::White => 1,
        Color::Black => 6,
    }
}

/// The rank on which a pawn of the color is promoted.
pub open spec fn promotion_end_rank(color: Color) -> int {
    match color {
        Color::White => 0,
        Color::Black => 7,
    }
}

/// A pawn may become a queen, a rook, a bishop or a knight.
pub open spec fn promotable(kind: PieceType) -> bool {
    kind == PieceType::Queen || kind == PieceType::Rook || kind == PieceType::Bishop || kind
        == PieceType::Knight
}

/// A pawn makes a valid pawn move from its seventh rank onto the enemy's back
/// rank and asks for a kind that a pawn may become.
pub open spec fn valid_pawn_promotion(
    grid: Grid,
    piece: Piece,
    start: Square,
    end: Square,
    promotion: PieceType,
) -> bool {
    &&& piece.piece_type == PieceType::Pawn
    &&& start.0 == promotion_start_rank(piece.color)
    &&& end.0 == promotion_end_rank(piece.color)
    &&& valid_pawn_move(grid, piece, start, end)
    &&& promotable(promotion)
}

/// The grid after a promotion: `start` cleared, then a piece of the promoted
/// kind and of the pawn's color put on `end`.
pub open spec fn promoted(
    grid: Grid,
    piece: Piece,
    start: Square,
    end: Square,
    promotion: PieceType,
) -> Grid {
    place(place(grid, start, None), end, Some(Piece { piece_type: promotion, color: piece.color }))
}

/// Check if the move is a valid en passant capture. Only the pawn's rank and
/// the target square decide; the board is not looked at.
pub fn is_valid_en_passant(
    _board: &Board,
    piece: &Piece,
    start: (usize, usize),
    end: (usize, usize),
    en_passant_square: Option<(usize, usize)>,
) -> (ok: bool)
    ensures
        ok == valid_en_passant(*piece, start, end, en_passant_square),
{
    if piece.piece_type != PieceType::Pawn {
        return false;
    }
    let fifth: usize = match piece.color {
        Color::White => 3,
        Color::Black => 4,
    };
    if start.0 != fifth {
        return false;
    }
    match en_passant_square {
        Some(target) => target.0 == end.0 && target.1 == end.1,
        None => false,
    }
}

/// Check if the move is a valid castling move.
pub fn is_valid_castling(
    board: &Board,
    piece: &Piece,
    start: (usize, usize),
    end: (usize, usize),
    can_castle: (bool, bool),
) -> (ok: bool)
    ensures
        ok == valid_castling(board@, *piece, start, end, can_castle),
{
    if piece.piece_type != PieceType::King {
        return false;
    }
    let home_rank: usize = match piece.color {
        Color::White => 7,
        Color::Black => 0,
    };
    if start.0 != home_rank || start.1 != 4 {
        return false;
    }
    if end.0 != start.0 {
        return false;
    }
    if end.1 != 2 && end.1 != 6 {
        return false;
    }
    if (end.1 == 2 && !can_castle.0) || (end.1 == 6 && !can_castle.1) {
        return false;
    }
    let corner: Square = if end.1 == 2 { (start.0, 0) } else { (start.0, 7) };
    if !path_is_clear(board, start, corner) {
        return false;
    }
    let next = board.moved(*piece, start, end);
    proof {
        board.lemma_shape();
        lemma_place_content(board@, end, Some(*piece), end);
        lemma_place_content(place(board@, end, Some(*piece)), start, None, end);
        assert(is_king_of(next@, piece.color, end));
    }
    match is_in_check(&next, piece.color) {
        Ok(check) => !check,
        // The king has just been put on the board.
        Err(_) => false,
    }
}

/// Check if the move is a valid pawn promotion.
pub fn is_valid_pawn_promotion(
    board: &Board,
    piece: &Piece,
    start: (usize, usize),
    end: (usize, usize),
    promotion: PieceType,
) -> (ok: bool)
    requires
        on_board(start),
        on_board(end),
    ensures
        ok == valid_pawn_promotion(board@, *piece, start, end, promotion),
{
    if piece.piece_type != PieceType::Pawn {
        return false;
    }
    let (seventh, last): (usize, usize) = match piece.color {
        Color::White => (1, 0),
        Color::Black => (6, 7),
    };
    if start.0 != seventh || end.0 != last {
        return false;
    }
    if !is_valid_pawn_move(board, piece, start, end) {
        return false;
    }
    match promotion {
        PieceType::Queen | PieceType::Rook | PieceType::Bishop | PieceType::Knight => true,
        _ => false,
    }
}

/// Perform a pawn promotion: clears `start` and puts a piece of the promoted
/// kind, in the pawn's color, on `end`. Whether the promotion is valid is not
/// asked here.
pub fn perform_pawn_promotion(
    board: &mut Board,
    piece: &Piece,
    start: (usize, usize),
    end: (usize, usize),
    promotion: PieceType,
)
    requires
        on_board(start),
        on_board(end),
    ensures
        grid_wf(final(board)@),
        final(board)@ == promoted(old(board)@, *piece, start, end, promotion),
        content(final(board)@, end) == Some(Piece { piece_type: promotion, color: piece.color }),
        start != end ==> content(final(board)@, start) is None,
        forall|sq: Square|
            on_board(sq) && sq != start && sq != end ==> #[trigger] content(final(board)@, sq)
                == content(old(board)@, sq),
{
    board.set(start.0, start.1, None);
    board.set(end.0, end.1, Some(Piece { piece_type: promotion, color: piece.color }));
    proof {
        old(board).lemma_shape();
        let mid = place(old(board)@, start, None);
        let arrived = Some(Piece { piece_type: promotion, color: piece.color });
        assert forall|sq: Square| on_board(sq) implies content(board@, sq) == if sq == end {
            arrived
        } else if sq == start {
            None
        } else {
            content(old(board)@, sq)
        } by {
            lemma_place_content(old(board)@, start, None, sq);
            lemma_place_content(mid, end, arrived, sq);
        }
    }
}

} // verus!
