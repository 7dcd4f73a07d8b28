use vstd::prelude::*;
use crate::error::{ChessError, Fault, invalid};
use crate::square::{Position, PositionColumn, PositionRow};

verus! {

/// The kind of a chess piece.
#[derive(PartialEq, Eq, Structural, Copy, Clone, Debug)]
pub enum PieceType {
    Pawn,
    Knight,
    Bishop,
    Rook,
    Queen,
    King,
}

/// The colour of a side.
#[derive(PartialEq, Eq, Structural, Copy, Clone, Debug)]
pub enum Color {
    White,
    Black,
}

/// A piece of a given kind and colour on a square.
#[derive(PartialEq, Eq, Structural, Copy, Clone, Debug)]
pub struct Piece {
    pub piece_type: PieceType,
    pub color: Color,
    pub position: Position,
}

impl PieceType {
    /// The kind named by a placement letter of either case.
    pub open spec fn of_fen_char(ch: char) -> Option<PieceType> {
        match ch {
            'p' | 'P' => Some(PieceType::Pawn),
            'n' | 'N' => Some(PieceType::Knight),
            'b' | 'B' => Some(PieceType::Bishop),
            'r' | 'R' => Some(PieceType::Rook),
            'q' | 'Q' => Some(PieceType::Queen),
            'k' | 'K' => Some(PieceType::King),
            _ => None,
        }
    }

    /// The letter of the kind in a sprite name; every kind not listed reads as a queen.
    pub open spec fn sprite_letter(self) -> char {
        match self {
            PieceType::Pawn => 'p',
            PieceType::Knight => 'n',
            PieceType::King => 'k',
            PieceType::Bishop => 'b',
            PieceType::Rook => 'r',
            _ => 'q',
        }
    }

    /// Reads the kind of a placement letter.
    pub fn from_fen_char(ch: &char) -> (r: Result<PieceType, ChessError>)
        ensures
            r == (match PieceType::of_fen_char(*ch) {
                Some(t) => Ok(t),
                None => Err(invalid(Fault::UnknownPiece)),
            }),
    {
        match *ch {
            'p' | 'P' => Ok(PieceType::Pawn),
            'n' | 'N' => Ok(PieceType::Knight),
            'b' | 'B' => Ok(PieceType::Bishop),
            'r' | 'R' => Ok(PieceType::Rook),
            'q' | 'Q' => Ok(PieceType::Queen),
            'k' | 'K' => Ok(PieceType::King),
            _ => Err(ChessError::InvalidNotation { reason: Fault::UnknownPiece }),
        }
    }
}

impl Color {
    /// The other side.
    pub open spec fn opponent(self) -> Color {
        match self {
            Color::White => Color::Black,
            Color::Black => Color::White,
        }
    }

    /// The colour of a placement letter: lowercase letters are black, all others white.
    pub open spec fn of_fen_char(ch: char) -> Color {
        match ch {
            'p' | 'n' | 'b' | 'r' | 'q' | 'k' => Color::Black,
            _ => Color::White,
        }
    }

    /// The first letter of a sprite name.
    pub open spec fn sprite_letter(self) -> char {
        match self {
            Color::White => 'w',
            Color::Black => 'b',
        }
    }

    /// The other side.
    pub fn next(self) -> (r: Color)
        ensures
            r == self.opponent(),
    {
        if self == Color::White {
            Color::Black
        } else {
            Color::White
        }
    }
}

impl Piece {
    /// The piece that a placement letter puts on a square, if the letter names one.
    pub open spec fn of_fen_char(ch: char, position: Position) -> Option<Piece> {
        match PieceType::of_fen_char(ch) {
            Some(t) => Some(Piece { piece_type: t, color: Color::of_fen_char(ch), position }),
            None => None,
        }
    }

    /// The two-letter sprite name: colour, then kind.
    pub open spec fn sprite_name(self) -> Seq<char> {
        seq![self.color.sprite_letter(), self.piece_type.sprite_letter()]
    }

    /// The two-letter sprite name, such as `wp` or `bq`.
    pub fn name(&self) -> (r: String)
        ensures
            r@ == self.sprite_name(),
    {
        let first = if self.color == Color::White {
            "w"
        } else {
            "b"
        };
        let letters = "pnkbrq";
        proof {
            reveal_strlit("w");
            reveal_strlit("b");
            reveal_strlit("pnkbrq");
        }
        let k: usize = match self.piece_type {
            PieceType::Pawn => 0,
            PieceType::Knight => 1,
            PieceType::King => 2,
            PieceType::Bishop => 3,
            PieceType::Rook => 4,
            _ => 5,
        };
        let mut r = String::from_str(first);
        r.append(letters.substring_char(k, k + 1));
        proof {
            assert(r@ =~= self.sprite_name());
        }
        r
    }

    /// Reads a placement letter into a piece on the given square.
    pub fn from_fen_char(ch: &char, row: PositionRow, column: PositionColumn) -> (r: Result<
        Piece,
        ChessError,
    >)
        ensures
            r == (match Piece::of_fen_char(*ch, Position { row, column }) {
                Some(p) => Ok(p),
                None => Err(invalid(Fault::UnknownPiece)),
            }),
    {
        let piece_type = match PieceType::from_fen_char(ch) {
            Ok(t) => t,
            Err(e) => return Err(e),
        };
        let color = match *ch {
            'p' | 'n' | 'b' | 'r' | 'q' | 'k' => Color::Black,
            _ => Color::White,
        };
        Ok(Piece { piece_type, color, position: Position { row, column } })
    }
}

} // verus!
