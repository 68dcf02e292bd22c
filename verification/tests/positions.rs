use chess_rules::{
    empty_board, is_checkmate, is_in_check, is_stalemate, is_valid_en_passant, is_valid_move,
    starting_position, Board, Color, Game, Piece, PieceType, TurnOutcome,
};

fn named(square: &str) -> (usize, usize) {
    let bytes = square.as_bytes();
    (8 - (bytes[1] - b'0') as usize, (bytes[0] - b'a') as usize)
}

fn put(board: &mut Board, square: &str, piece_type: PieceType, color: Color) {
    let (rank, file) = named(square);
    board.set(rank, file, Some(Piece { piece_type, color }));
}

#[test]
fn fools_mate() {
    let mut game = Game::new();
    assert_eq!(game.play(named("f2"), named("f3")), Ok(TurnOutcome::Moved));
    assert_eq!(game.play(named("e7"), named("e5")), Ok(TurnOutcome::Moved));
    assert_eq!(game.play(named("g2"), named("g4")), Ok(TurnOutcome::Moved));
    assert_eq!(game.play(named("d8"), named("h4")), Ok(TurnOutcome::Moved));
    assert_eq!(game.turn, Color::White);
    assert_eq!(is_in_check(&game.board, Color::White), Ok(true));
    assert_eq!(is_checkmate(&game.board, Color::White), Ok(true));
    assert_eq!(is_in_check(&game.board, Color::Black), Ok(false));
    assert_eq!(is_checkmate(&game.board, Color::Black), Ok(false));
    assert_eq!(is_stalemate(&game.board, Color::White), Ok(false));
}

#[test]
fn fools_mate_set_up_square_by_square() {
    let mut board = starting_position();
    let white_pawn = Piece { piece_type: PieceType::Pawn, color: Color::White };
    let black_pawn = Piece { piece_type: PieceType::Pawn, color: Color::Black };
    let black_queen = Piece { piece_type: PieceType::Queen, color: Color::Black };
    board.set(6, 5, None);
    board.set(5, 5, Some(white_pawn));
    board.set(6, 6, None);
    board.set(4, 6, Some(white_pawn));
    board.set(1, 4, None);
    board.set(3, 4, Some(black_pawn));
    board.set(0, 3, None);
    board.set(4, 7, Some(black_queen));
    assert_eq!(is_in_check(&board, Color::White), Ok(true));
    assert_eq!(is_checkmate(&board, Color::White), Ok(true));
}

#[test]
fn starting_position_is_neither_check_nor_mate() {
    let board = starting_position();
    assert_eq!(is_in_check(&board, Color::White), Ok(false));
    assert_eq!(is_in_check(&board, Color::Black), Ok(false));
    assert_eq!(is_checkmate(&board, Color::White), Ok(false));
    assert_eq!(is_stalemate(&board, Color::White), Ok(false));
    assert_eq!(is_stalemate(&board, Color::Black), Ok(false));
}

#[test]
fn blocked_rook() {
    let mut board = empty_board();
    let rook = Piece { piece_type: PieceType::Rook, color: Color::White };
    put(&mut board, "a1", PieceType::Rook, Color::White);
    put(&mut board, "a2", PieceType::Pawn, Color::White);
    assert!(!is_valid_move(&board, &rook, named("a1"), named("a8")));
    assert!(!is_valid_move(&board, &rook, named("a1"), named("a3")));
    assert!(!is_valid_move(&board, &rook, named("a1"), named("a2")));
    assert!(is_valid_move(&board, &rook, named("a1"), named("h1")));
}

#[test]
fn rook_along_first_rank_depends_on_that_rank_only() {
    let rook = Piece { piece_type: PieceType::Rook, color: Color::White };
    let mut board = empty_board();
    put(&mut board, "a1", PieceType::Rook, Color::White);
    put(&mut board, "a2", PieceType::Pawn, Color::White);
    // Pieces off the first rank change nothing.
    put(&mut board, "b2", PieceType::Queen, Color::Black);
    put(&mut board, "h2", PieceType::Pawn, Color::White);
    put(&mut board, "d5", PieceType::Knight, Color::Black);
    assert!(is_valid_move(&board, &rook, named("a1"), named("h1")));
    // An enemy on the destination is captured.
    put(&mut board, "h1", PieceType::Rook, Color::Black);
    assert!(is_valid_move(&board, &rook, named("a1"), named("h1")));
    // A friend on the destination is not.
    put(&mut board, "h1", PieceType::Rook, Color::White);
    assert!(!is_valid_move(&board, &rook, named("a1"), named("h1")));
    // Anything in between on the rank blocks.
    put(&mut board, "h1", PieceType::Rook, Color::Black);
    put(&mut board, "e1", PieceType::King, Color::White);
    assert!(!is_valid_move(&board, &rook, named("a1"), named("h1")));
    assert!(is_valid_move(&board, &rook, named("a1"), named("d1")));
    put(&mut board, "e1", PieceType::Bishop, Color::Black);
    assert!(!is_valid_move(&board, &rook, named("a1"), named("h1")));
    assert!(is_valid_move(&board, &rook, named("a1"), named("e1")));
}

#[test]
fn basic_stalemate_position() {
    let mut board = empty_board();
    put(&mut board, "a1", PieceType::King, Color::White);
    put(&mut board, "c2", PieceType::King, Color::Black);
    put(&mut board, "b3", PieceType::Queen, Color::Black);
    let king = Piece { piece_type: PieceType::King, color: Color::White };
    assert_eq!(is_in_check(&board, Color::White), Ok(false));
    assert_eq!(is_checkmate(&board, Color::White), Ok(false));
    // Each square next to the king is attacked...
    for target in ["a2", "b1", "b2"] {
        let next = board.moved(king, named("a1"), named(target));
        assert_eq!(is_in_check(&next, Color::White), Ok(true));
    }
    // ...but the king's own rule allows the step, and stalemate asks no more
    // of a move than that.
    assert!(is_valid_move(&board, &king, named("a1"), named("a2")));
    assert_eq!(is_stalemate(&board, Color::White), Ok(false));
}

#[test]
fn walled_in_side_is_stalemated() {
    // White: king on h1, pawns on every other square of the g and h files.
    let mut board = empty_board();
    for rank in 0..8 {
        board.set(rank, 6, Some(Piece { piece_type: PieceType::Pawn, color: Color::White }));
        board.set(rank, 7, Some(Piece { piece_type: PieceType::Pawn, color: Color::White }));
    }
    put(&mut board, "h1", PieceType::King, Color::White);
    put(&mut board, "a8", PieceType::King, Color::Black);
    assert_eq!(is_in_check(&board, Color::White), Ok(false));
    assert_eq!(is_stalemate(&board, Color::White), Ok(true));
    assert_eq!(is_checkmate(&board, Color::White), Ok(false));
    // Black's king can step aside, so Black is not stalemated.
    assert_eq!(is_stalemate(&board, Color::Black), Ok(false));
    // One enemy piece within a pawn's reach gives White a move.
    put(&mut board, "f3", PieceType::Knight, Color::Black);
    assert_eq!(is_stalemate(&board, Color::White), Ok(false));
}

#[test]
fn en_passant_eligibility() {
    let mut board = empty_board();
    put(&mut board, "e5", PieceType::Pawn, Color::White);
    put(&mut board, "d5", PieceType::Pawn, Color::Black);
    let pawn = Piece { piece_type: PieceType::Pawn, color: Color::White };
    let target = Some(named("d6"));
    assert_eq!(named("e5"), (3, 4));
    assert_eq!(named("d6"), (2, 3));
    assert!(is_valid_en_passant(&board, &pawn, named("e5"), named("d6"), target));
    assert!(!is_valid_en_passant(&board, &pawn, named("e5"), named("f6"), target));
    assert!(!is_valid_en_passant(&board, &pawn, named("e5"), named("f6"), None));
    assert!(!is_valid_en_passant(&board, &pawn, named("e5"), named("d6"), None));
}
