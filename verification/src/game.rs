//! A game in progress: the board, whose turn it is, and what a proposed move
//! does to both.

use vstd::prelude::*;
use crate::board::{starting_content, starting_position, Board};
use crate::error::ChessError;
use crate::geometry::{check_square, content, grid_wf, on_board, Grid, Square};
use crate::moves::{is_valid_move, valid_move};
use crate::piece::Color;
use crate::terminal::after_move;

verus! {

/// What became of a proposed move.
#[derive(Debug, Clone, Copy, PartialEq, Eq, Structural)]
pub enum TurnOutcome {
    /// The piece was moved and the turn passed to the other side.
    Moved,
    /// The start square is empty.
    NoPiece,
    /// The piece on the start square belongs to the side that is not to move.
    NotYourPiece,
    /// The piece's rule does not allow the move.
    InvalidMove,
}

/// A board and the side to move.
pub struct Game {
    pub board: Board,
    pub turn: Color,
}

/// What a move proposed by `turn` from `start` to `end` comes to.
pub open spec fn turn_outcome(grid: Grid, turn: Color, start: Square, end: Square) -> TurnOutcome {
    match content(grid, start) {
        None => TurnOutcome::NoPiece,
        Some(p) => if p.color != turn {
            TurnOutcome::NotYourPiece
        } else if !valid_move(grid, p, start, end) {
            TurnOutcome::InvalidMove
        } else {
            TurnOutcome::Moved
        },
    }
}

impl Game {
    /// A new game: the starting position, White to move.
    pub fn new() -> (game: Game)
        ensures
            game.turn == Color::White,
            grid_wf(game.board@),
            forall|r: int, f: int|
                0 <= r < 8 && 0 <= f < 8 ==> #[trigger] game.board@[r][f] == starting_content(r, f),
    {
        Game { board: starting_position(), turn: Color::White }
    }

    /// Plays the move from `start` to `end` for the side to move, if the
    /// piece's rule allows it. Only then do the board and the turn change.
    /// Check is not looked at.
    pub fn play(&mut self, start: (usize, usize), end: (usize, usize)) -> (result: Result<
        TurnOutcome,
        ChessError,
    >)
        ensures
            grid_wf(final(self).board@),
            match result {
                Err(e) => {
                    &&& e == ChessError::OutOfBoundsSquare
                    &&& !(on_board(start) && on_board(end))
                },
                Ok(outcome) => {
                    &&& on_board(start) && on_board(end)
                    &&& outcome == turn_outcome(old(self).board@, old(self).turn, start, end)
                },
            },
            result == Ok::<TurnOutcome, ChessError>(TurnOutcome::Moved) ==> {
                &&& final(self).board@ == after_move(old(self).board@, start, end)
                &&& final(self).turn == old(self).turn.other()
            },
            result != Ok::<TurnOutcome, ChessError>(TurnOutcome::Moved) ==> {
                &&& final(self).board@ == old(self).board@
                &&& final(self).turn == old(self).turn
            },
    {
        proof {
            self.board.lemma_shape();
        }
        match check_square(start) {
            Err(e) => {
                return Err(e);
            },
            Ok(_) => {},
        }
        match check_square(end) {
            Err(e) => {
                return Err(e);
            },
            Ok(_) => {},
        }
        let piece = match self.board.get(start.0, start.1) {
            Some(piece) => piece,
            None => {
                return Ok(TurnOutcome::NoPiece);
            },
        };
        if piece.color != self.turn {
            return Ok(TurnOutcome::NotYourPiece);
        }
        if !is_valid_move(&self.board, &piece, start, end) {
            return Ok(TurnOutcome::InvalidMove);
        }
        self.board.set(end.0, end.1, Some(piece));
        self.board.set(start.0, start.1, None);
        self.turn = self.turn.opponent();
        Ok(TurnOutcome::Moved)
    }
}

} // verus!
