use vstd::prelude::*;
use crate::error::{ChessError, Fault, invalid};
use crate::fields::{fields, split_fields};
use crate::pieces::{Color, Piece, PieceType};
use crate::square::{Position, PositionColumn, PositionRow};

verus! {

/// The pieces on the board, in the order in which they were placed. A piece's place
/// in this sequence is how moves refer to it.
#[derive(Clone, Debug)]
pub struct ViewBoard {
    pub pieces: Vec<Piece>,
}

/// Another name for the board.
pub type Board = ViewBoard;

impl View for ViewBoard {
    type V = Seq<Piece>;

    open spec fn view(&self) -> Seq<Piece> {
        self.pieces@
    }
}

/// The number of empty squares that a placement digit stands for.
pub open spec fn run_length(ch: char) -> Option<int> {
    match ch {
        '1' => Some(1),
        '2' => Some(2),
        '3' => Some(3),
        '4' => Some(4),
        '5' => Some(5),
        '6' => Some(6),
        '7' => Some(7),
        '8' => Some(8),
        _ => None,
    }
}

/// The (row, column) at which the next character of a placement field lands after
/// reading `s`: reading starts at row 7, column 0; `/` moves one row down to column 0,
/// a digit skips that many columns, any other character one column. Nothing keeps
/// the pair within the board.
pub open spec fn cursor(s: Seq<char>) -> (int, int)
    decreases s.len(),
{
    if s.len() == 0 {
        (7, 0)
    } else {
        let at = cursor(s.drop_last());
        let ch = s.last();
        if ch == '/' {
            (at.0 - 1, 0)
        } else if run_length(ch) is Some {
            (at.0, at.1 + run_length(ch)->Some_0)
        } else {
            (at.0, at.1 + 1)
        }
    }
}

/// The pieces that a placement field describes, left to right, or the first fault:
/// a character that is not `/`, a digit `1`..`8` or a piece letter, or a piece letter
/// that lands off the board.
pub open spec fn decode_placement(s: Seq<char>) -> Result<Seq<Piece>, ChessError>
    decreases s.len(),
{
    if s.len() == 0 {
        Ok(Seq::empty())
    } else {
        match decode_placement(s.drop_last()) {
            Err(e) => Err(e),
            Ok(placed) => {
                let ch = s.last();
                let at = cursor(s.drop_last());
                if ch == '/' || run_length(ch) is Some {
                    Ok(placed)
                } else if PieceType::of_fen_char(ch) is None {
                    Err(invalid(Fault::UnknownPiece))
                } else if !(0 <= at.0 < 8 && 0 <= at.1 < 8) {
                    Err(invalid(Fault::OffBoard))
                } else {
                    let position = Position {
                        row: PositionRow::at(at.0),
                        column: PositionColumn::at(at.1),
                    };
                    Ok(placed.push(Piece::of_fen_char(ch, position)->Some_0))
                }
            },
        }
    }
}

/// The board of a board description: its first field decoded, once the description
/// has at least four fields.
pub open spec fn parse_board(s: Seq<char>) -> Result<Seq<Piece>, ChessError> {
    if fields(s).len() < 4 {
        Err(invalid(Fault::MissingFields))
    } else {
        decode_placement(fields(s)[0])
    }
}

/// The value of a decoded piece list, or its error.
pub open spec fn pieces_result(r: Result<Vec<Piece>, ChessError>) -> Result<Seq<Piece>, ChessError> {
    match r {
        Ok(v) => Ok(v@),
        Err(e) => Err(e),
    }
}

/// The value of a decoded board, or its error.
pub open spec fn board_result(r: Result<ViewBoard, ChessError>) -> Result<Seq<Piece>, ChessError> {
    match r {
        Ok(b) => Ok(b@),
        Err(e) => Err(e),
    }
}

/// Once a prefix of a placement field fails, the whole field fails the same way.
proof fn lemma_fault_persists(s: Seq<char>, i: int)
    requires
        0 <= i <= s.len(),
        decode_placement(s.take(i)) is Err,
    ensures
        decode_placement(s) == decode_placement(s.take(i)),
    decreases s.len(),
{
    if i == s.len() {
        assert(s.take(i) =~= s);
    } else {
        assert(s.drop_last().take(i) =~= s.take(i));
        lemma_fault_persists(s.drop_last(), i);
    }
}

/// The kind of piece that starts on file `c` of a back rank.
pub open spec fn back_rank_kind(c: int) -> PieceType {
    if c == 0 || c == 7 {
        PieceType::Rook
    } else if c == 1 || c == 6 {
        PieceType::Knight
    } else if c == 2 || c == 5 {
        PieceType::Bishop
    } else if c == 3 {
        PieceType::Queen
    } else {
        PieceType::King
    }
}

/// The `i`-th piece of the starting position, in the order the placement field of
/// the standard start lists them: black's back rank and pawns from the top, then
/// white's pawns and back rank, each rank from file `a` to `h`.
pub open spec fn standard_piece(i: int) -> Piece {
    if i < 8 {
        Piece {
            piece_type: back_rank_kind(i),
            color: Color::Black,
            position: Position { row: PositionRow::Eight, column: PositionColumn::at(i) },
        }
    } else if i < 16 {
        Piece {
            piece_type: PieceType::Pawn,
            color: Color::Black,
            position: Position { row: PositionRow::Seven, column: PositionColumn::at(i - 8) },
        }
    } else if i < 24 {
        Piece {
            piece_type: PieceType::Pawn,
            color: Color::White,
            position: Position { row: PositionRow::Two, column: PositionColumn::at(i - 16) },
        }
    } else {
        Piece {
            piece_type: back_rank_kind(i - 24),
            color: Color::White,
            position: Position { row: PositionRow::One, column: PositionColumn::at(i - 24) },
        }
    }
}

/// The 32 pieces of the standard starting position.
pub open spec fn standard_pieces() -> Seq<Piece> {
    Seq::new(32, |i: int| standard_piece(i))
}

fn standard_piece_at(i: usize) -> (r: Piece)
    requires
        i < 32,
    ensures
        r == standard_piece(i as int),
{
    let c: u8 = (i % 8) as u8;
    let column = match PositionColumn::from_i32(c as i32) {
        Some(col) => col,
        None => PositionColumn::A,
    };
    let back = if c == 0 || c == 7 {
        PieceType::Rook
    } else if c == 1 || c == 6 {
        PieceType::Knight
    } else if c == 2 || c == 5 {
        PieceType::Bishop
    } else if c == 3 {
        PieceType::Queen
    } else {
        PieceType::King
    };
    if i < 8 {
        Piece { piece_type: back, color: Color::Black, position: Position { row: PositionRow::Eight, column } }
    } else if i < 16 {
        Piece {
            piece_type: PieceType::Pawn,
            color: Color::Black,
            position: Position { row: PositionRow::Seven, column },
        }
    } else if i < 24 {
        Piece {
            piece_type: PieceType::Pawn,
            color: Color::White,
            position: Position { row: PositionRow::Two, column },
        }
    } else {
        Piece { piece_type: back, color: Color::White, position: Position { row: PositionRow::One, column } }
    }
}

/// The pieces of the standard starting position.
pub fn standard_setup() -> (r: Vec<Piece>)
    ensures
        r@ == standard_pieces(),
{
    let mut pieces: Vec<Piece> = Vec::new();
    let mut i: usize = 0;
    while i < 32
        invariant
            i <= 32,
            pieces@ == standard_pieces().take(i as int),
        decreases 32 - i,
    {
        pieces.push(standard_piece_at(i));
        proof {
            assert(pieces@ =~= standard_pieces().take(i + 1));
        }
        i = i + 1;
    }
    proof {
        assert(pieces@ =~= standard_pieces());
    }
    pieces
}

fn run_length_of(ch: char) -> (r: Option<i32>)
    ensures
        match r {
            Some(k) => run_length(ch) == Some(k as int),
            None => run_length(ch) is None,
        },
{
    match ch {
        '1' => Some(1),
        '2' => Some(2),
        '3' => Some(3),
        '4' => Some(4),
        '5' => Some(5),
        '6' => Some(6),
        '7' => Some(7),
        '8' => Some(8),
        _ => None,
    }
}

/// Decodes a placement field such as `rnbqkbnr/pppppppp/8/8/8/8/PPPPPPPP/RNBQKBNR`.
pub fn decode_placement_field(field: &str) -> (r: Result<Vec<Piece>, ChessError>)
    ensures
        pieces_result(r) == decode_placement(field@),
{
    let n = field.unicode_len();
    let mut pieces: Vec<Piece> = Vec::new();
    // The cursor, with the row kept no lower than -1 and the column no higher than 8:
    // past those bounds every further piece is off the board anyway.
    let mut row: i32 = 7;
    let mut column: i32 = 0;
    let mut i: usize = 0;
    while i < n
        invariant
            n == field@.len(),
            i <= n,
            decode_placement(field@.take(i as int)) == Ok::<Seq<Piece>, ChessError>(pieces@),
            cursor(field@.take(i as int)).0 <= 7,
            cursor(field@.take(i as int)).1 >= 0,
            row == (if cursor(field@.take(i as int)).0 < -1 {
                -1
            } else {
                cursor(field@.take(i as int)).0
            }),
            column == (if cursor(field@.take(i as int)).1 > 8 {
                8
            } else {
                cursor(field@.take(i as int)).1
            }),
        decreases n - i,
    {
        let ch = field.get_char(i);
        proof {
            assert(field@.take(i + 1).drop_last() =~= field@.take(i as int));
            assert(field@.take(i + 1).last() == ch);
        }
        if ch == '/' {
            if row >= 0 {
                row = row - 1;
            }
            column = 0;
        } else {
            match run_length_of(ch) {
                Some(k) => {
                    column = if column + k > 8 {
                        8
                    } else {
                        column + k
                    };
                },
                None => {
                    match (PositionRow::from_i32(row), PositionColumn::from_i32(column)) {
                        (Some(r), Some(c)) => {
                            match Piece::from_fen_char(&ch, r, c) {
                                Ok(p) => pieces.push(p),
                                Err(e) => {
                                    proof {
                                        lemma_fault_persists(field@, i + 1);
                                    }
                                    return Err(e);
                                },
                            }
                        },
                        _ => {
                            proof {
                                lemma_fault_persists(field@, i + 1);
                            }
                            return match PieceType::from_fen_char(&ch) {
                                Ok(_) => Err(ChessError::InvalidNotation { reason: Fault::OffBoard }),
                                Err(e) => Err(e),
                            };
                        },
                    }
                    column = if column + 1 > 8 {
                        8
                    } else {
                        column + 1
                    };
                },
            }
        }
        i = i + 1;
    }
    proof {
        assert(field@.take(n as int) =~= field@);
    }
    Ok(pieces)
}

impl Default for ViewBoard {
    /// The standard starting position.
    fn default() -> (r: ViewBoard)
        ensures
            r@ == standard_pieces(),
    {
        ViewBoard { pieces: standard_setup() }
    }
}

impl ViewBoard {
    /// A small fixed board: a white pawn on c7 and a white rook on h1.
    pub fn new() -> (r: ViewBoard)
        ensures
            r@ == seq![
                Piece {
                    color: Color::White,
                    piece_type: PieceType::Pawn,
                    position: Position { row: PositionRow::Seven, column: PositionColumn::C },
                },
                Piece {
                    color: Color::White,
                    piece_type: PieceType::Rook,
                    position: Position { row: PositionRow::One, column: PositionColumn::H },
                },
            ],
    {
        let mut pieces: Vec<Piece> = Vec::new();
        pieces.push(
            Piece {
                color: Color::White,
                piece_type: PieceType::Pawn,
                position: Position { row: PositionRow::Seven, column: PositionColumn::C },
            },
        );
        pieces.push(
            Piece {
                color: Color::White,
                piece_type: PieceType::Rook,
                position: Position { row: PositionRow::One, column: PositionColumn::H },
            },
        );
        ViewBoard { pieces }
    }

    /// Reads the board of a board description such as
    /// `rnbqkbnr/pppppppp/8/8/8/8/PPPPPPPP/RNBQKBNR w KQkq - 0 1`.
    pub fn from_fen(value: &str) -> (r: Result<ViewBoard, ChessError>)
        ensures
            board_result(r) == parse_board(value@),
    {
        let tokens = split_fields(value);
        if tokens.len() < 4 {
            return Err(ChessError::InvalidNotation { reason: Fault::MissingFields });
        }
        match decode_placement_field(tokens[0]) {
            Ok(pieces) => Ok(ViewBoard { pieces }),
            Err(e) => Err(e),
        }
    }
}

impl std::str::FromStr for ViewBoard {
    type Err = ChessError;

    fn from_str(value: &str) -> (r: Result<ViewBoard, ChessError>)
        ensures
            board_result(r) == parse_board(value@),
    {
        ViewBoard::from_fen(value)
    }
}

} // verus!
