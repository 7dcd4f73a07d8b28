use vstd::prelude::*;

verus! {

/// Which part of a notation was found invalid.
#[derive(PartialEq, Eq, Structural, Copy, Clone, Debug)]
pub enum Fault {
    /// The board description has fewer than four space-separated fields.
    MissingFields,
    /// A placement character is neither a separator, a run length nor a piece letter.
    UnknownPiece,
    /// A piece letter falls outside the eight ranks and files.
    OffBoard,
    /// The side-to-move field is not one of `w`, `W`, `b`, `B`.
    UnknownSide,
    /// A square is not a file letter `a`..`h` followed by a rank digit `1`..`8`.
    MalformedSquare,
}

/// The error of every parser of this library.
#[derive(PartialEq, Eq, Structural, Copy, Clone, Debug)]
pub enum ChessError {
    InvalidNotation { reason: Fault },
}

/// The error for a given fault.
pub open spec fn invalid(reason: Fault) -> ChessError {
    ChessError::InvalidNotation { reason }
}

impl ChessError {
    /// A short description of the error.
    pub fn message(&self) -> (r: &'static str) {
        match self {
            ChessError::InvalidNotation { reason: Fault::MissingFields } => "Fen has too few fields",
            ChessError::InvalidNotation { reason: Fault::UnknownPiece } => "Fen contains an unknown piece",
            ChessError::InvalidNotation { reason: Fault::OffBoard } => "Fen places a piece off the board",
            ChessError::InvalidNotation { reason: Fault::UnknownSide } => "Fen has an unknown side to move",
            ChessError::InvalidNotation { reason: Fault::MalformedSquare } => "Fen contains a malformed square",
        }
    }
}

} // verus!
