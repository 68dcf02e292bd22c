//! Check detection and the two terminal states, checkmate and stalemate.

use vstd::prelude::*;
use crate::board::Board;
use crate::error::ChessError;
use crate::geometry::{content, on_board, Grid, Square};
use crate::moves::{is_valid_move, valid_move};
use crate::piece::{Color, Piece, PieceType};

verus! {

/// The king of `color` stands on `sq`.
pub open spec fn is_king_of(grid: Grid, color: Color, sq: Square) -> bool {
    content(grid, sq) == Some(Piece { piece_type: PieceType::King, color })
}

/// Some square of the board holds a king of `color`.
pub open spec fn has_king(grid: Grid, color: Color) -> bool {
    exists|sq: Square| on_board(sq) && #[trigger] is_king_of(grid, color, sq)
}

/// `a` comes before `b` when the board is read row after row.
pub open spec fn precedes(a: Square, b: Square) -> bool {
    a.0 < b.0 || (a.0 == b.0 && a.1 < b.1)
}

/// `sq` holds a king of `color`, and no square before it does.
pub open spec fn is_first_king(grid: Grid, color: Color, sq: Square) -> bool {
    &&& on_board(sq)
    &&& is_king_of(grid, color, sq)
    &&& forall|other: Square|
        on_board(other) && precedes(other, sq) ==> !#[trigger] is_king_of(grid, color, other)
}

/// Where the king of `color` stands: the first such square when the board is
/// read row after row, if there is one.
pub open spec fn king_square(grid: Grid, color: Color) -> Option<Square> {
    if has_king(grid, color) {
        Some(choose|sq: Square| is_first_king(grid, color, sq))
    } else {
        None
    }
}

/// An enemy of `color` stands on `from` and has a valid move to `target`.
pub open spec fn enemy_attacks(grid: Grid, color: Color, from: Square, target: Square) -> bool {
    match content(grid, from) {
        Some(p) => p.color != color && valid_move(grid, p, from, target),
        None => false,
    }
}

/// Some enemy piece of `color` on the board has a valid move to `target`.
pub open spec fn attacked(grid: Grid, color: Color, target: Square) -> bool {
    exists|from: Square| on_board(from) && #[trigger] enemy_attacks(grid, color, from, target)
}

/// The king of `color` is on the board and attacked.
pub open spec fn in_check(grid: Grid, color: Color) -> bool {
    match king_square(grid, color) {
        Some(king) => attacked(grid, color, king),
        None => false,
    }
}

/// The first king is the king square.
proof fn lemma_first_king_is_king_square(grid: Grid, color: Color, sq: Square)
    requires
        is_first_king(grid, color, sq),
    ensures
        has_king(grid, color),
        king_square(grid, color) == Some(sq),
{
    // Of two first kings neither comes before the other.
    let chosen = choose|s: Square| is_first_king(grid, color, s);
    assert(!precedes(chosen, sq) && !precedes(sq, chosen));
}

/// Finds the king of `color`: the first one met when the board is read row
/// after row.
pub fn find_king(board: &Board, color: Color) -> (found: Result<(usize, usize), ChessError>)
    ensures
        match found {
            Ok(sq) => king_square(board@, color) == Some(sq) && is_first_king(board@, color, sq),
            Err(e) => e == ChessError::KingNotFound && !has_king(board@, color),
        },
{
    let mut r: usize = 0;
    while r < 8
        invariant
            r <= 8,
            forall|sq: Square|
                on_board(sq) && precedes(sq, (r, 0)) ==> !#[trigger] is_king_of(board@, color, sq),
        decreases 8 - r,
    {
        let mut f: usize = 0;
        while f < 8
            invariant
                r < 8,
                f <= 8,
                forall|sq: Square|
                    on_board(sq) && precedes(sq, (r, f)) ==> !#[trigger] is_king_of(
                        board@,
                        color,
                        sq,
                    ),
            decreases 8 - f,
        {
            match board.get(r, f) {
                Some(p) => {
                    if p.piece_type == PieceType::King && p.color == color {
                        proof {
                            lemma_first_king_is_king_square(board@, color, (r, f));
                        }
                        return Ok((r, f));
                    }
                },
                None => {},
            }
            f += 1;
        }
        r += 1;
    }
    Err(ChessError::KingNotFound)
}

/// Check if the king of `color` is in check: whether some enemy piece has a
/// valid move onto the king's square.
pub fn is_in_check(board: &Board, color: Color) -> (result: Result<bool, ChessError>)
    ensures
        match result {
            Ok(check) => has_king(board@, color) && check == in_check(board@, color),
            Err(e) => e == ChessError::KingNotFound && !has_king(board@, color),
        },
{
    let king = match find_king(board, color) {
        Ok(sq) => sq,
        Err(e) => {
            return Err(e);
        },
    };
    let mut r: usize = 0;
    while r < 8
        invariant
            r <= 8,
            on_board(king),
            has_king(board@, color),
            king_square(board@, color) == Some(king),
            forall|sq: Square|
                on_board(sq) && precedes(sq, (r, 0)) ==> !#[trigger] enemy_attacks(
                    board@,
                    color,
                    sq,
                    king,
                ),
        decreases 8 - r,
    {
        let mut f: usize = 0;
        while f < 8
            invariant
                r < 8,
                f <= 8,
                on_board(king),
                has_king(board@, color),
                king_square(board@, color) == Some(king),
                forall|sq: Square|
                    on_board(sq) && precedes(sq, (r, f)) ==> !#[trigger] enemy_attacks(
                        board@,
                        color,
                        sq,
                        king,
                    ),
            decreases 8 - f,
        {
            match board.get(r, f) {
                Some(p) => {
                    if p.color != color && is_valid_move(board, &p, (r, f), king) {
                        assert(enemy_attacks(board@, color, (r, f), king));
                        return Ok(true);
                    }
                },
                None => {},
            }
            f += 1;
        }
        r += 1;
    }
    Ok(false)
}

} // verus!
