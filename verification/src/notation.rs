//! Text at the edge of the rules: the letter that stands for a piece, and a
//! move typed as two squares such as `e2 e4`.

use vstd::prelude::*;
use crate::geometry::Square;
use crate::piece::{Color, Piece, PieceType};

verus! {

/// The letter that stands for a piece: upper case for White, lower case for
/// Black.
pub open spec fn symbol_of(piece: Piece) -> char {
    match piece.color {
        Color::White => match piece.piece_type {
            PieceType::Pawn => 'P',
            PieceType::Rook => 'R',
            PieceType::Knight => 'N',
            PieceType::Bishop => 'B',
            PieceType::Queen => 'Q',
            PieceType::King => 'K',
        },
        Color::Black => match piece.piece_type {
            PieceType::Pawn => 'p',
            PieceType::Rook => 'r',
            PieceType::Knight => 'n',
            PieceType::Bishop => 'b',
            PieceType::Queen => 'q',
            PieceType::King => 'k',
        },
    }
}

/// The file index that a letter names: `a` is 0, `b` is 1 and so on through
/// the alphabet, in either case. Letters beyond `h` name no file of the
/// board.
pub open spec fn file_of(c: char) -> Option<usize> {
    if 'a' <= c <= 'z' {
        Some((c as u32 - 'a' as u32) as usize)
    } else if 'A' <= c <= 'Z' {
        Some((c as u32 - 'A' as u32) as usize)
    } else {
        None
    }
}

/// The rank index that a digit names: `8` is row 0 and `1` is row 7. The
/// digit `0` names row 8, which is no rank of the board; `9` names nothing.
pub open spec fn rank_of(c: char) -> Option<usize> {
    if '0' <= c <= '8' {
        Some((8 - (c as u32 - '0' as u32)) as usize)
    } else {
        None
    }
}

/// The square that a letter and a digit name.
pub open spec fn square_of(file: char, rank: char) -> Option<Square> {
    match (rank_of(rank), file_of(file)) {
        (Some(r), Some(f)) => Some((r, f)),
        _ => None,
    }
}

/// The move that a line of text names: a square, a blank, a square, and
/// whatever follows from the sixth character on.
pub open spec fn move_of(text: Seq<char>) -> Option<(Square, Square)> {
    if text.len() >= 5 && text[2] == ' ' {
        match (square_of(text[0], text[1]), square_of(text[3], text[4])) {
            (Some(start), Some(end)) => Some((start, end)),
            _ => None,
        }
    } else {
        None
    }
}

/// The letter that stands for a piece.
pub fn piece_symbol(piece: &Piece) -> (c: char)
    ensures
        c == symbol_of(*piece),
{
    match piece.color {
        Color::White => match piece.piece_type {
            PieceType::Pawn => 'P',
            PieceType::Rook => 'R',
            PieceType::Knight => 'N',
            PieceType::Bishop => 'B',
            PieceType::Queen => 'Q',
            PieceType::King => 'K',
        },
        Color::Black => match piece.piece_type {
            PieceType::Pawn => 'p',
            PieceType::Rook => 'r',
            PieceType::Knight => 'n',
            PieceType::Bishop => 'b',
            PieceType::Queen => 'q',
            PieceType::King => 'k',
        },
    }
}

/// Reads the file that a letter names.
fn parse_file(c: char) -> (file: Option<usize>)
    ensures
        file == file_of(c),
{
    if 'a' <= c && c <= 'z' {
        Some((c as u32 - 'a' as u32) as usize)
    } else if 'A' <= c && c <= 'Z' {
        Some((c as u32 - 'A' as u32) as usize)
    } else {
        None
    }
}

/// Reads the rank that a digit names.
fn parse_rank(c: char) -> (rank: Option<usize>)
    ensures
        rank == rank_of(c),
{
    if '0' <= c && c <= '8' {
        Some((8 - (c as u32 - '0' as u32)) as usize)
    } else {
        None
    }
}

/// Reads the square that a letter and a digit name.
fn parse_square(file: char, rank: char) -> (sq: Option<Square>)
    ensures
        sq == square_of(file, rank),
{
    match (parse_rank(rank), parse_file(file)) {
        (Some(r), Some(f)) => Some((r, f)),
        _ => None,
    }
}

/// Reads a move typed as `e2 e4`. The squares it names need not lie on the
/// board: `z0 a1` is read, and names a start square that no board has.
pub fn parse_move(text: &Vec<char>) -> (parsed: Option<((usize, usize), (usize, usize))>)
    ensures
        parsed == move_of(text@),
{
    if text.len() < 5 || text[2] != ' ' {
        return None;
    }
    match (parse_square(text[0], text[1]), parse_square(text[3], text[4])) {
        (Some(start), Some(end)) => Some((start, end)),
        _ => None,
    }
}

} // verus!
