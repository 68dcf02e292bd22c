//! What the rules can fail with.

use vstd::prelude::*;

verus! {

/// The failures that are not simply "this move is not legal".
#[derive(Debug, Clone, Copy, PartialEq, Eq, Structural)]
pub enum ChessError {
    /// The board holds no king of the color whose king was looked for.
    KingNotFound,
    /// A rank or file index lies outside `0..8`.
    OutOfBoundsSquare,
}

} // verus!
