use chess_rules::{
    empty_board, find_king, is_checkmate, is_in_check, is_stalemate, starting_position, Board,
    ChessError, Color, Piece, PieceType,
};

fn position(pieces: &[(usize, usize, PieceType, Color)]) -> Board {
    let mut board = empty_board();
    for &(rank, file, piece_type, color) in pieces {
        board.set(rank, file, Some(Piece { piece_type, color }));
    }
    board
}

#[test]
fn king_not_found() {
    let board = empty_board();
    assert_eq!(find_king(&board, Color::White), Err(ChessError::KingNotFound));
    assert_eq!(is_in_check(&board, Color::White), Err(ChessError::KingNotFound));
    assert_eq!(is_checkmate(&board, Color::White), Err(ChessError::KingNotFound));
    assert_eq!(is_stalemate(&board, Color::White), Err(ChessError::KingNotFound));

    let board = position(&[(0, 4, PieceType::King, Color::Black)]);
    assert_eq!(find_king(&board, Color::Black), Ok((0, 4)));
    assert_eq!(is_in_check(&board, Color::Black), Ok(false));
    assert_eq!(find_king(&board, Color::White), Err(ChessError::KingNotFound));
    assert_eq!(is_in_check(&board, Color::White), Err(ChessError::KingNotFound));
    assert_eq!(is_checkmate(&board, Color::White), Err(ChessError::KingNotFound));
    assert_eq!(is_stalemate(&board, Color::White), Err(ChessError::KingNotFound));
}

#[test]
fn kings_of_the_starting_position() {
    let board = starting_position();
    assert_eq!(find_king(&board, Color::Black), Ok((0, 4)));
    assert_eq!(find_king(&board, Color::White), Ok((7, 4)));
}

#[test]
fn first_king_in_reading_order_counts() {
    let board = position(&[
        (2, 5, PieceType::King, Color::White),
        (2, 1, PieceType::King, Color::White),
        (6, 0, PieceType::King, Color::White),
        (7, 1, PieceType::Rook, Color::Black),
    ]);
    assert_eq!(find_king(&board, Color::White), Ok((2, 1)));
    // The rook attacks the king on (2, 1) along the file.
    assert_eq!(is_in_check(&board, Color::White), Ok(true));
    let board = position(&[
        (2, 5, PieceType::King, Color::White),
        (6, 1, PieceType::King, Color::White),
        (7, 1, PieceType::Rook, Color::Black),
    ]);
    // The rook attacks only the second king.
    assert_eq!(find_king(&board, Color::White), Ok((2, 5)));
    assert_eq!(is_in_check(&board, Color::White), Ok(false));
}

#[test]
fn check_by_each_kind_of_piece() {
    let king = (4, 4, PieceType::King, Color::White);
    let attackers = [
        (0, 4, PieceType::Rook),
        (1, 1, PieceType::Bishop),
        (4, 0, PieceType::Queen),
        (7, 7, PieceType::Queen),
        (2, 3, PieceType::Knight),
        (3, 3, PieceType::Pawn),
        (3, 5, PieceType::Pawn),
        (5, 5, PieceType::King),
    ];
    for (rank, file, kind) in attackers {
        let board = position(&[king, (rank, file, kind, Color::Black)]);
        assert_eq!(is_in_check(&board, Color::White), Ok(true));
        // The same piece in the king's own color attacks nothing.
        let board = position(&[king, (rank, file, kind, Color::White)]);
        assert_eq!(is_in_check(&board, Color::White), Ok(false));
    }
    let harmless = [
        (0, 5, PieceType::Rook),
        (1, 2, PieceType::Bishop),
        (2, 2, PieceType::Knight),
        (5, 3, PieceType::Pawn),
        (3, 4, PieceType::Pawn),
        (6, 6, PieceType::King),
    ];
    for (rank, file, kind) in harmless {
        let board = position(&[king, (rank, file, kind, Color::Black)]);
        assert_eq!(is_in_check(&board, Color::White), Ok(false));
    }
}

#[test]
fn check_is_blocked_by_a_piece_in_between() {
    let board = position(&[
        (7, 4, PieceType::King, Color::White),
        (0, 4, PieceType::Rook, Color::Black),
        (3, 4, PieceType::Pawn, Color::Black),
    ]);
    assert_eq!(is_in_check(&board, Color::White), Ok(false));
    let board = position(&[
        (7, 4, PieceType::King, Color::White),
        (0, 4, PieceType::Rook, Color::Black),
    ]);
    assert_eq!(is_in_check(&board, Color::White), Ok(true));
}

#[test]
fn back_rank_mate() {
    let board = position(&[
        (7, 6, PieceType::King, Color::White),
        (6, 5, PieceType::Pawn, Color::White),
        (6, 6, PieceType::Pawn, Color::White),
        (6, 7, PieceType::Pawn, Color::White),
        (7, 0, PieceType::Rook, Color::Black),
        (0, 4, PieceType::King, Color::Black),
    ]);
    assert_eq!(is_in_check(&board, Color::White), Ok(true));
    assert_eq!(is_checkmate(&board, Color::White), Ok(true));
    assert_eq!(is_stalemate(&board, Color::White), Ok(false));
    assert_eq!(is_checkmate(&board, Color::Black), Ok(false));
}

#[test]
fn check_that_can_be_answered_is_not_mate() {
    // The king can step off the back rank.
    let board = position(&[
        (7, 6, PieceType::King, Color::White),
        (6, 5, PieceType::Pawn, Color::White),
        (6, 6, PieceType::Pawn, Color::White),
        (7, 0, PieceType::Rook, Color::Black),
        (0, 4, PieceType::King, Color::Black),
    ]);
    assert_eq!(is_in_check(&board, Color::White), Ok(true));
    assert_eq!(is_checkmate(&board, Color::White), Ok(false));

    // A rook can interpose.
    let board = position(&[
        (7, 6, PieceType::King, Color::White),
        (6, 5, PieceType::Pawn, Color::White),
        (6, 6, PieceType::Pawn, Color::White),
        (6, 7, PieceType::Pawn, Color::White),
        (0, 3, PieceType::Rook, Color::White),
        (7, 0, PieceType::Rook, Color::Black),
        (0, 4, PieceType::King, Color::Black),
    ]);
    assert_eq!(is_checkmate(&board, Color::White), Ok(false));

    // The attacker can be taken.
    let board = position(&[
        (7, 6, PieceType::King, Color::White),
        (6, 5, PieceType::Pawn, Color::White),
        (6, 6, PieceType::Pawn, Color::White),
        (6, 7, PieceType::Pawn, Color::White),
        (3, 4, PieceType::Bishop, Color::White),
        (7, 0, PieceType::Rook, Color::Black),
        (0, 4, PieceType::King, Color::Black),
    ]);
    assert_eq!(is_checkmate(&board, Color::White), Ok(false));
}

#[test]
fn not_in_check_is_not_mate() {
    let board = position(&[
        (7, 6, PieceType::King, Color::White),
        (0, 4, PieceType::King, Color::Black),
    ]);
    assert_eq!(is_checkmate(&board, Color::White), Ok(false));
    assert_eq!(is_checkmate(&board, Color::Black), Ok(false));
}

#[test]
fn in_check_is_not_stalemate() {
    let board = position(&[
        (7, 6, PieceType::King, Color::White),
        (7, 0, PieceType::Rook, Color::Black),
        (0, 4, PieceType::King, Color::Black),
    ]);
    assert_eq!(is_stalemate(&board, Color::White), Ok(false));
}

#[test]
fn side_without_any_move_is_stalemated() {
    // Black: king on a8, pawns on every other square of the a and b files.
    let mut board = empty_board();
    for rank in 0..8 {
        board.set(rank, 0, Some(Piece { piece_type: PieceType::Pawn, color: Color::Black }));
        board.set(rank, 1, Some(Piece { piece_type: PieceType::Pawn, color: Color::Black }));
    }
    board.set(0, 0, Some(Piece { piece_type: PieceType::King, color: Color::Black }));
    board.set(7, 7, Some(Piece { piece_type: PieceType::King, color: Color::White }));
    assert_eq!(is_in_check(&board, Color::Black), Ok(false));
    assert_eq!(is_stalemate(&board, Color::Black), Ok(true));
    assert_eq!(is_stalemate(&board, Color::White), Ok(false));
    // One free square ahead of a pawn gives Black a move.
    board.set(3, 1, None);
    assert_eq!(is_stalemate(&board, Color::Black), Ok(false));
}

#[test]
fn detection_leaves_the_board_alone() {
    let board = position(&[
        (7, 6, PieceType::King, Color::White),
        (6, 5, PieceType::Pawn, Color::White),
        (6, 6, PieceType::Pawn, Color::White),
        (6, 7, PieceType::Pawn, Color::White),
        (7, 0, PieceType::Rook, Color::Black),
        (0, 4, PieceType::King, Color::Black),
    ]);
    let before = board.clone();
    let _ = is_checkmate(&board, Color::White);
    let _ = is_stalemate(&board, Color::Black);
    for rank in 0..8 {
        for file in 0..8 {
            assert_eq!(board.get(rank, file), before.get(rank, file));
        }
    }
}
