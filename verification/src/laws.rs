//! What holds of the rules in general, proved once for every position.

use vstd::prelude::*;
use crate::generate::reaches;
use crate::geometry::{
    along_diagonal, along_line, content, content_along, distance, free_or_enemy, grid_wf, king_step,
    knight_jump, lemma_place_content, on_board, path_clear, place, span, toward, Grid, Square,
};
use crate::moves::{pawn_ahead, pawn_home_rank, valid_move};
use crate::piece::{Piece, PieceType};
use crate::special::{promoted, valid_pawn_promotion};

verus! {

/// The piece slides: it is a rook, a bishop or a queen.
pub open spec fn slides(kind: PieceType) -> bool {
    kind == PieceType::Rook || kind == PieceType::Bishop || kind == PieceType::Queen
}

/// The piece leaps: it is a knight or a king.
pub open spec fn leaps(kind: PieceType) -> bool {
    kind == PieceType::Knight || kind == PieceType::King
}

/// The lines along which a sliding piece of the kind moves.
pub open spec fn sliding_pattern(kind: PieceType, start: Square, end: Square) -> bool {
    match kind {
        PieceType::Rook => along_line(start, end),
        PieceType::Bishop => along_diagonal(start, end),
        PieceType::Queen => along_line(start, end) || along_diagonal(start, end),
        _ => false,
    }
}

/// The offsets by which a leaping piece of the kind moves.
pub open spec fn leaping_pattern(kind: PieceType, start: Square, end: Square) -> bool {
    match kind {
        PieceType::Knight => knight_jump(start, end),
        PieceType::King => king_step(start, end),
        _ => false,
    }
}

/// `x` is one of `a` and `b` or lies between them.
pub open spec fn within(a: usize, b: usize, x: usize) -> bool {
    a <= x <= b || b <= x <= a
}

/// `sq` lies on the straight segment from `start` to `end` and is neither of
/// its two ends.
pub open spec fn strictly_between(start: Square, end: Square, sq: Square) -> bool {
    &&& sq != start
    &&& sq != end
    &&& within(start.0, end.0, sq.0)
    &&& within(start.1, end.1, sq.1)
    &&& along_line(start, end) || (along_diagonal(start, sq) && along_diagonal(sq, end))
}

/// Between two squares of the board on a common rank, file or diagonal, the
/// path is clear exactly when every square strictly between them is empty.
pub proof fn lemma_path_clear_is_between_empty(grid: Grid, start: Square, end: Square)
    requires
        on_board(start),
        on_board(end),
        along_line(start, end) || along_diagonal(start, end),
    ensures
        path_clear(grid, start, end) <==> forall|sq: Square| #[trigger]
            strictly_between(start, end, sq) ==> content(grid, sq) is None,
{
    if path_clear(grid, start, end) {
        assert forall|sq: Square| #[trigger] strictly_between(start, end, sq) implies content(
            grid,
            sq,
        ) is None by {
            let k = span(start, sq);
            assert(content_along(grid, start, end, k) is None);
        }
    }
    if forall|sq: Square| #[trigger]
        strictly_between(start, end, sq) ==> content(grid, sq) is None {
        assert forall|k: int| 0 < k < span(start, end) implies #[trigger] content_along(
            grid,
            start,
            end,
            k,
        ) is None by {
            let sq: Square = (
                toward(start.0, end.0, k) as usize,
                toward(start.1, end.1, k) as usize,
            );
            assert(strictly_between(start, end, sq));
        }
    }
}

/// For a rook, a bishop or a queen, a move between two squares of the board
/// is valid exactly when the squares match the piece's pattern, every square
/// strictly between them is empty, and the destination is empty or holds an
/// enemy piece.
pub proof fn lemma_sliding_move_rule(grid: Grid, piece: Piece, start: Square, end: Square)
    requires
        slides(piece.piece_type),
        on_board(start),
        on_board(end),
    ensures
        valid_move(grid, piece, start, end) <==> {
            &&& sliding_pattern(piece.piece_type, start, end)
            &&& forall|sq: Square| #[trigger]
                strictly_between(start, end, sq) ==> content(grid, sq) is None
            &&& free_or_enemy(grid, piece.color, end)
        },
{
    if along_line(start, end) || along_diagonal(start, end) {
        lemma_path_clear_is_between_empty(grid, start, end);
    }
}

/// For a knight or a king, a move is valid exactly when the squares match the
/// piece's pattern and the destination is empty or holds an enemy piece.
pub proof fn lemma_leaping_move_rule(grid: Grid, piece: Piece, start: Square, end: Square)
    requires
        leaps(piece.piece_type),
    ensures
        valid_move(grid, piece, start, end) <==> leaping_pattern(piece.piece_type, start, end)
            && free_or_enemy(grid, piece.color, end),
{
}

/// For a knight or a king, two positions that hold the same on the
/// destination give the same verdict, whatever stands anywhere else: no
/// square on the way can block the move.
pub proof fn lemma_leaping_move_ignores_path(
    first: Grid,
    second: Grid,
    piece: Piece,
    start: Square,
    end: Square,
)
    requires
        leaps(piece.piece_type),
        content(first, end) == content(second, end),
    ensures
        valid_move(first, piece, start, end) == valid_move(second, piece, start, end),
{
}

/// The verdict on a move is a function of what the 64 squares hold, of the
/// piece and of the two squares: two boards that hold the same on every
/// square give the same verdict, so asking twice gives the same answer.
pub proof fn lemma_validation_depends_on_position_only(
    first: Grid,
    second: Grid,
    piece: Piece,
    start: Square,
    end: Square,
)
    requires
        grid_wf(first),
        grid_wf(second),
        forall|sq: Square| on_board(sq) ==> #[trigger] content(first, sq) == content(second, sq),
    ensures
        valid_move(first, piece, start, end) == valid_move(second, piece, start, end),
{
    assert forall|r: int| 0 <= r < 8 implies #[trigger] first[r] == second[r] by {
        assert forall|f: int| 0 <= f < 8 implies first[r][f] == second[r][f] by {
            let sq: Square = (r as usize, f as usize);
            assert(content(first, sq) == content(second, sq));
        }
    }
    assert(first =~= second);
}

/// After a valid promotion has been applied, the square the pawn left is
/// empty and the square it reached holds a piece of the requested kind in
/// the pawn's color.
pub proof fn lemma_promotion_round_trip(
    grid: Grid,
    piece: Piece,
    start: Square,
    end: Square,
    promotion: PieceType,
)
    requires
        grid_wf(grid),
        on_board(start),
        on_board(end),
        valid_pawn_promotion(grid, piece, start, end, promotion),
    ensures
        content(promoted(grid, piece, start, end, promotion), start) is None,
        content(promoted(grid, piece, start, end, promotion), end) == Some(
            Piece { piece_type: promotion, color: piece.color },
        ),
{
    let cleared = place(grid, start, None);
    let arrived = Some(Piece { piece_type: promotion, color: piece.color });
    lemma_place_content(grid, start, None, start);
    lemma_place_content(grid, start, None, end);
    lemma_place_content(cleared, end, arrived, start);
    lemma_place_content(cleared, end, arrived, end);
}

/// A pawn on its home rank cannot advance one square if the square straight
/// ahead is occupied.
pub proof fn lemma_blocked_pawn_cannot_step_once(
    grid: Grid,
    piece: Piece,
    start: Square,
    end: Square,
)
    requires
        piece.piece_type == PieceType::Pawn,
        start.0 == pawn_home_rank(piece.color),
        end.0 == pawn_ahead(piece.color, start.0, 1),
        end.1 == start.1,
        content(grid, end) is Some,
    ensures
        !valid_move(grid, piece, start, end),
{
}

/// A pawn on its home rank cannot advance two squares if the square straight
/// ahead and the square behind that are both occupied. Only the destination
/// decides: the square that the pawn passes is not examined.
pub proof fn lemma_blocked_pawn_cannot_step_twice(
    grid: Grid,
    piece: Piece,
    start: Square,
    passed: Square,
    end: Square,
)
    requires
        piece.piece_type == PieceType::Pawn,
        start.0 == pawn_home_rank(piece.color),
        passed.0 == pawn_ahead(piece.color, start.0, 1),
        passed.1 == start.1,
        content(grid, passed) is Some,
        end.0 == pawn_ahead(piece.color, start.0, 2),
        end.1 == start.1,
        content(grid, end) is Some,
    ensures
        !valid_move(grid, piece, start, end),
{
}

/// A pawn that is not on its home rank cannot advance two squares, whatever
/// the squares ahead of it hold.
pub proof fn lemma_pawn_off_home_rank_cannot_double_step(
    grid: Grid,
    piece: Piece,
    start: Square,
    end: Square,
)
    requires
        piece.piece_type == PieceType::Pawn,
        start.0 != pawn_home_rank(piece.color),
        end.0 == pawn_ahead(piece.color, start.0, 2),
        end.1 == start.1,
    ensures
        !valid_move(grid, piece, start, end),
{
}

/// What a piece reaches on the board and what it may move to differ only in
/// the squares that hold a piece of its own color, in not moving at all, and,
/// for a pawn, in the double step: a move to another square of the board is
/// valid exactly when the piece reaches the square and may land there, and a
/// pawn reaches exactly its valid moves of one rank.
pub proof fn lemma_reach_and_validity(grid: Grid, piece: Piece, start: Square, end: Square)
    requires
        on_board(end),
        end != start,
    ensures
        piece.piece_type != PieceType::Pawn ==> (valid_move(grid, piece, start, end) <==> reaches(
            grid,
            piece,
            start,
            end,
        ) && free_or_enemy(grid, piece.color, end)),
        piece.piece_type == PieceType::Pawn ==> (reaches(grid, piece, start, end) <==> valid_move(
            grid,
            piece,
            start,
            end,
        ) && distance(start.0, end.0) == 1),
{
}

} // verus!
