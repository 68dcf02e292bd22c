//! The 8x8 board: a grid of optional pieces.

use vstd::prelude::*;
use crate::geometry::{grid_wf, on_board, place, relocate, Grid, Square};
use crate::piece::{Color, Piece, PieceType};

verus! {

/// An 8x8 board. Row 0 is Black's back row, row 7 is White's.
#[derive(Debug)]
pub struct Board {
    /// The 64 squares, row after row.
    squares: Vec<Option<Piece>>,
}

impl View for Board {
    type V = Grid;

    closed spec fn view(&self) -> Grid {
        Seq::new(8, |r: int| Seq::new(8, |f: int| self.squares@[r * 8 + f]))
    }
}

impl Board {
    /// The storage holds exactly the 64 squares.
    #[verifier::type_invariant]
    closed spec fn inv(&self) -> bool {
        self.squares@.len() == 64
    }

    /// Every board is a grid of eight rows of eight squares.
    pub proof fn lemma_shape(&self)
        ensures
            grid_wf(self@),
    {
    }

    /// What stands on the square in row `rank`, column `file`.
    pub fn get(&self, rank: usize, file: usize) -> (content: Option<Piece>)
        requires
            rank < 8,
            file < 8,
        ensures
            content == self@[rank as int][file as int],
    {
        proof {
            use_type_invariant(self);
        }
        self.squares[rank * 8 + file]
    }

    /// Replaces the content of one square.
    pub fn set(&mut self, rank: usize, file: usize, content: Option<Piece>)
        requires
            rank < 8,
            file < 8,
        ensures
            grid_wf(final(self)@),
            final(self)@ == place(old(self)@, (rank, file), content),
    {
        proof {
            use_type_invariant(&*self);
        }
        self.squares[rank * 8 + file] = content;
        assert(self@ =~~= place(old(self)@, (rank, file), content));
    }

    /// A copy of the board on which `piece` has been put on `to` and `from`
    /// has been cleared; the board itself is left as it is.
    pub fn moved(&self, piece: Piece, from: Square, to: Square) -> (next: Board)
        requires
            on_board(from),
            on_board(to),
        ensures
            grid_wf(next@),
            next@ == relocate(self@, piece, from, to),
    {
        let mut next = self.clone();
        next.set(to.0, to.1, Some(piece));
        next.set(from.0, from.1, None);
        next
    }
}

/// A board with no piece on it.
pub fn empty_board() -> (board: Board)
    ensures
        grid_wf(board@),
        forall|r: int, f: int| 0 <= r < 8 && 0 <= f < 8 ==> #[trigger] board@[r][f] is None,
{
    let mut squares: Vec<Option<Piece>> = Vec::new();
    let mut i: usize = 0;
    while i < 64
        invariant
            i <= 64,
            squares@.len() == i,
            forall|j: int| 0 <= j < i ==> squares@[j] is None,
        decreases 64 - i,
    {
        squares.push(None);
        i += 1;
    }
    Board { squares }
}

impl Clone for Board {
    /// A copy that holds the same pieces on the same squares.
    fn clone(&self) -> (copy: Self)
        ensures
            grid_wf(copy@),
            copy@ == self@,
    {
        proof {
            use_type_invariant(self);
        }
        let mut squares: Vec<Option<Piece>> = Vec::new();
        let mut i: usize = 0;
        while i < 64
            invariant
                i <= 64,
                self.squares@.len() == 64,
                squares@.len() == i,
                forall|j: int| 0 <= j < i ==> squares@[j] == self.squares@[j],
            decreases 64 - i,
        {
            squares.push(self.squares[i]);
            i += 1;
        }
        let copy = Board { squares };
        assert(copy@ =~~= self@);
        copy
    }
}

/// The kind of piece that starts on a file of a back row.
pub open spec fn back_row_kind(file: int) -> PieceType {
    if file == 0 || file == 7 {
        PieceType::Rook
    } else if file == 1 || file == 6 {
        PieceType::Knight
    } else if file == 2 || file == 5 {
        PieceType::Bishop
    } else if file == 3 {
        PieceType::Queen
    } else {
        PieceType::King
    }
}

/// What stands on a square when a game begins.
pub open spec fn starting_content(rank: int, file: int) -> Option<Piece> {
    if rank == 0 {
        Some(Piece { piece_type: back_row_kind(file), color: Color::Black })
    } else if rank == 1 {
        Some(Piece { piece_type: PieceType::Pawn, color: Color::Black })
    } else if rank == 6 {
        Some(Piece { piece_type: PieceType::Pawn, color: Color::White })
    } else if rank == 7 {
        Some(Piece { piece_type: back_row_kind(file), color: Color::White })
    } else {
        None
    }
}

/// The kind of piece that starts on a file of a back row.
fn back_row_piece(file: usize) -> (kind: PieceType)
    requires
        file < 8,
    ensures
        kind == back_row_kind(file as int),
{
    if file == 0 || file == 7 {
        PieceType::Rook
    } else if file == 1 || file == 6 {
        PieceType::Knight
    } else if file == 2 || file == 5 {
        PieceType::Bishop
    } else if file == 3 {
        PieceType::Queen
    } else {
        PieceType::King
    }
}

/// The board as it stands when a game begins.
pub fn starting_position() -> (board: Board)
    ensures
        grid_wf(board@),
        forall|r: int, f: int|
            0 <= r < 8 && 0 <= f < 8 ==> #[trigger] board@[r][f] == starting_content(r, f),
{
    let mut board = empty_board();
    let mut f: usize = 0;
    while f < 8
        invariant
            f <= 8,
            forall|r: int, j: int|
                0 <= r < 8 && 0 <= j < 8 ==> #[trigger] board@[r][j] == if j < f {
                    starting_content(r, j)
                } else {
                    None
                },
        decreases 8 - f,
    {
        let kind = back_row_piece(f);
        board.set(0, f, Some(Piece { piece_type: kind, color: Color::Black }));
        board.set(1, f, Some(Piece { piece_type: PieceType::Pawn, color: Color::Black }));
        board.set(6, f, Some(Piece { piece_type: PieceType::Pawn, color: Color::White }));
        board.set(7, f, Some(Piece { piece_type: kind, color: Color::White }));
        f += 1;
    }
    board
}

} // verus!
