//! The two terminal states: checkmate and stalemate.

use vstd::prelude::*;
use crate::board::Board;
use crate::check::{has_king, in_check, is_in_check, is_king_of, precedes};
use crate::error::ChessError;
use crate::geometry::{
    content, free_or_enemy, grid_wf, lemma_place_content, on_board, place, Grid, Square,
};
use crate::moves::{is_valid_move, valid_move};
use crate::piece::{Color, Piece};

verus! {

/// A piece of `color` stands on `from` and has a valid move to `to`.
pub open spec fn own_move(grid: Grid, color: Color, from: Square, to: Square) -> bool {
    &&& on_board(from)
    &&& on_board(to)
    &&& match content(grid, from) {
        Some(p) => p.color == color && valid_move(grid, p, from, to),
        None => false,
    }
}

/// The grid after the piece on `from` has gone to `to`.
pub open spec fn after_move(grid: Grid, from: Square, to: Square) -> Grid {
    place(place(grid, to, content(grid, from)), from, None)
}

/// A piece of `color` has a valid move from `from` to `to` after which
/// `color` is not in check.
pub open spec fn escapes(grid: Grid, color: Color, from: Square, to: Square) -> bool {
    own_move(grid, color, from, to) && !in_check(after_move(grid, from, to), color)
}

/// `color` is in check, and no valid move of one of its pieces ends it.
pub open spec fn checkmate(grid: Grid, color: Color) -> bool {
    &&& in_check(grid, color)
    &&& forall|from: Square, to: Square| !#[trigger] escapes(grid, color, from, to)
}

/// `color` is not in check, and none of its pieces has a valid move. A move
/// counts here even if it would leave the mover's own king attacked.
pub open spec fn stalemate(grid: Grid, color: Color) -> bool {
    &&& !in_check(grid, color)
    &&& forall|from: Square, to: Square| !#[trigger] own_move(grid, color, from, to)
}

/// A valid move never lands on a piece of the mover's own color.
pub proof fn lemma_valid_move_lands_on_free_or_enemy(
    grid: Grid,
    piece: Piece,
    start: Square,
    end: Square,
)
    requires
        valid_move(grid, piece, start, end),
    ensures
        free_or_enemy(grid, piece.color, end),
{
}

/// A side that has a king still has one after any valid move of its own.
pub proof fn lemma_own_move_keeps_king(grid: Grid, color: Color, from: Square, to: Square)
    requires
        grid_wf(grid),
        has_king(grid, color),
        own_move(grid, color, from, to),
    ensures
        has_king(after_move(grid, from, to), color),
{
    let king = choose|sq: Square| on_board(sq) && is_king_of(grid, color, sq);
    let piece = content(grid, from)->Some_0;
    lemma_valid_move_lands_on_free_or_enemy(grid, piece, from, to);
    let mid = place(grid, to, content(grid, from));
    let after = after_move(grid, from, to);
    let stands = if king == from { to } else { king };
    lemma_place_content(grid, to, content(grid, from), stands);
    lemma_place_content(mid, from, None, stands);
    assert(is_king_of(after, color, stands));
}

/// Whether the piece of `color` on `from` has a valid move after which
/// `color` is not in check.
fn can_escape_from(board: &Board, color: Color, piece: Piece, from: Square) -> (found: bool)
    requires
        on_board(from),
        has_king(board@, color),
        content(board@, from) == Some(piece),
        piece.color == color,
    ensures
        found == exists|to: Square| #[trigger] escapes(board@, color, from, to),
{
    let mut r: usize = 0;
    while r < 8
        invariant
            r <= 8,
            on_board(from),
            has_king(board@, color),
            content(board@, from) == Some(piece),
            piece.color == color,
            forall|to: Square|
                on_board(to) && precedes(to, (r, 0)) ==> !#[trigger] escapes(
                    board@,
                    color,
                    from,
                    to,
                ),
        decreases 8 - r,
    {
        let mut f: usize = 0;
        while f < 8
            invariant
                r < 8,
                f <= 8,
                on_board(from),
                has_king(board@, color),
                content(board@, from) == Some(piece),
                piece.color == color,
                forall|to: Square|
                    on_board(to) && precedes(to, (r, f)) ==> !#[trigger] escapes(
                        board@,
                        color,
                        from,
                        to,
                    ),
            decreases 8 - f,
        {
            if is_valid_move(board, &piece, from, (r, f)) {
                let next = board.moved(piece, from, (r, f));
                proof {
                    board.lemma_shape();
                    lemma_own_move_keeps_king(board@, color, from, (r, f));
                }
                match is_in_check(&next, color) {
                    Ok(check) => {
                        if !check {
                            assert(escapes(board@, color, from, (r, f)));
                            return true;
                        }
                    },
                    // A valid move of one's own never takes one's own king.
                    Err(_) => {},
                }
            }
            f += 1;
        }
        r += 1;
    }
    false
}

/// Whether the piece on `from` has any valid move at all.
fn can_move_from(board: &Board, piece: Piece, from: Square) -> (found: bool)
    requires
        on_board(from),
    ensures
        found == exists|to: Square| on_board(to) && #[trigger] valid_move(board@, piece, from, to),
{
    let mut r: usize = 0;
    while r < 8
        invariant
            r <= 8,
            on_board(from),
            forall|to: Square|
                on_board(to) && precedes(to, (r, 0)) ==> !#[trigger] valid_move(
                    board@,
                    piece,
                    from,
                    to,
                ),
        decreases 8 - r,
    {
        let mut f: usize = 0;
        while f < 8
            invariant
                r < 8,
                f <= 8,
                on_board(from),
                forall|to: Square|
                    on_board(to) && precedes(to, (r, f)) ==> !#[trigger] valid_move(
                        board@,
                        piece,
                        from,
                        to,
                    ),
            decreases 8 - f,
        {
            if is_valid_move(board, &piece, from, (r, f)) {
                return true;
            }
            f += 1;
        }
        r += 1;
    }
    false
}

/// Check if `color` is checkmated: in check, with no valid move of any of
/// its pieces that ends the check.
pub fn is_checkmate(board: &Board, color: Color) -> (result: Result<bool, ChessError>)
    ensures
        match result {
            Ok(mate) => has_king(board@, color) && mate == checkmate(board@, color),
            Err(e) => e == ChessError::KingNotFound && !has_king(board@, color),
        },
{
    match is_in_check(board, color) {
        Ok(check) => {
            if !check {
                return Ok(false);
            }
        },
        Err(e) => {
            return Err(e);
        },
    }
    let mut r: usize = 0;
    while r < 8
        invariant
            r <= 8,
            has_king(board@, color),
            in_check(board@, color),
            forall|from: Square, to: Square|
                on_board(from) && precedes(from, (r, 0)) ==> !#[trigger] escapes(
                    board@,
                    color,
                    from,
                    to,
                ),
        decreases 8 - r,
    {
        let mut f: usize = 0;
        while f < 8
            invariant
                r < 8,
                f <= 8,
                has_king(board@, color),
                in_check(board@, color),
                forall|from: Square, to: Square|
                    on_board(from) && precedes(from, (r, f)) ==> !#[trigger] escapes(
                        board@,
                        color,
                        from,
                        to,
                    ),
            decreases 8 - f,
        {
            match board.get(r, f) {
                Some(piece) => {
                    if piece.color == color && can_escape_from(board, color, piece, (r, f)) {
                        return Ok(false);
                    }
                },
                None => {},
            }
            f += 1;
        }
        r += 1;
    }
    Ok(true)
}

/// Check if `color` is stalemated: not in check, with no valid move of any
/// of its pieces.
pub fn is_stalemate(board: &Board, color: Color) -> (result: Result<bool, ChessError>)
    ensures
        match result {
            Ok(stale) => has_king(board@, color) && stale == stalemate(board@, color),
            Err(e) => e == ChessError::KingNotFound && !has_king(board@, color),
        },
{
    match is_in_check(board, color) {
        Ok(check) => {
            if check {
                return Ok(false);
            }
        },
        Err(e) => {
            return Err(e);
        },
    }
    let mut r: usize = 0;
    while r < 8
        invariant
            r <= 8,
            has_king(board@, color),
            !in_check(board@, color),
            forall|from: Square, to: Square|
                on_board(from) && precedes(from, (r, 0)) ==> !#[trigger] own_move(
                    board@,
                    color,
                    from,
                    to,
                ),
        decreases 8 - r,
    {
        let mut f: usize = 0;
        while f < 8
            invariant
                r < 8,
                f <= 8,
                has_king(board@, color),
                !in_check(board@, color),
                forall|from: Square, to: Square|
                    on_board(from) && precedes(from, (r, f)) ==> !#[trigger] own_move(
                        board@,
                        color,
                        from,
                        to,
                    ),
            decreases 8 - f,
        {
            match board.get(r, f) {
                Some(piece) => {
                    if piece.color == color && can_move_from(board, piece, (r, f)) {
                        let ghost to = choose|to: Square|
                            on_board(to) && valid_move(board@, piece, (r, f), to);
                        assert(own_move(board@, color, (r, f), to));
                        return Ok(false);
                    }
                },
                None => {},
            }
            f += 1;
        }
        r += 1;
    }
    Ok(true)
}

} // verus!
