//! Chess rules: move legality per piece kind, check detection, checkmate and
//! stalemate classification, and the special moves (en passant, castling,
//! promotion), each with a machine-checked contract.

pub mod board;
pub mod check;
pub mod error;
pub mod game;
pub mod generate;
pub mod geometry;
pub mod laws;
pub mod moves;
pub mod notation;
pub mod piece;
pub mod special;
pub mod terminal;

pub use board::{empty_board, starting_position, Board};
pub use check::{find_king, is_in_check};
pub use error::ChessError;
pub use game::{Game, TurnOutcome};
pub use generate::{
    get_bishop_moves, get_king_moves, get_knight_moves, get_pawn_moves, get_queen_moves,
    get_rook_moves,
};
pub use geometry::{check_square, Grid, Square};
pub use moves::{
    is_valid_bishop_move, is_valid_king_move, is_valid_knight_move, is_valid_move,
    is_valid_pawn_move, is_valid_queen_move, is_valid_rook_move, validate_move,
};
pub use notation::{parse_move, piece_symbol};
pub use piece::{Color, Piece, PieceType};
pub use special::{
    is_valid_castling, is_valid_en_passant, is_valid_pawn_promotion, perform_pawn_promotion,
};
pub use terminal::{is_checkmate, is_stalemate};
