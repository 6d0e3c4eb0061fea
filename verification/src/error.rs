//! The recoverable failures of the position tracker. Every core operation
//! returns success or one of these; none panics.

use vstd::prelude::*;

use crate::moves::Move;
use crate::pieces::Color;

verus! {

#[derive(Debug)]
pub enum Error {
    /// The notation string is structurally malformed: wrong field count,
    /// wrong board-field separator count, a board field that starts with the
    /// separator or would overrun the board, or an unrecognized active-color
    /// token. Carries the offending text.
    InvalidFen(String),
    /// A pop, remove or move origin targeted an empty cell. Carries the
    /// cell index.
    PieceNotFoundAtCell(usize),
    /// An unrecognized piece letter was met during decoding. Carries the
    /// offending text.
    InvalidPieceStr(String),
    /// A coordinate-move text does not match the four-character
    /// file-rank-file-rank pattern. Carries the offending text.
    InvalidMoveStr(String),
    /// The acting player tried to move a piece of the other color. Carries
    /// the move, the acting color and the piece's actual color.
    InvalidMove(Move, Color, Color),
}

} // verus!
