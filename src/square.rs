use vstd::prelude::*;
use crate::error::{ChessError, Fault, invalid};

verus! {

/// A file of the board, `a` to `h`.
#[derive(PartialEq, Eq, Structural, PartialOrd, Ord, Copy, Clone, Debug, Hash)]
pub enum PositionColumn {
    A,
    B,
    C,
    D,
    E,
    F,
    G,
    H,
}

/// A rank of the board, `1` to `8`.
#[derive(PartialEq, Eq, Structural, PartialOrd, Ord, Copy, Clone, Debug, Hash)]
pub enum PositionRow {
    One,
    Two,
    Three,
    Four,
    Five,
    Six,
    Seven,
    Eight,
}

impl PositionColumn {
    /// The ordinal of the file, 0 for `a` up to 7 for `h`.
    pub open spec fn index(self) -> int {
        match self {
            PositionColumn::A => 0,
            PositionColumn::B => 1,
            PositionColumn::C => 2,
            PositionColumn::D => 3,
            PositionColumn::E => 4,
            PositionColumn::F => 5,
            PositionColumn::G => 6,
            PositionColumn::H => 7,
        }
    }

    /// The file with ordinal `i`, meaningful for `0 <= i < 8`.
    pub open spec fn at(i: int) -> PositionColumn {
        if i <= 0 {
            PositionColumn::A
        } else if i == 1 {
            PositionColumn::B
        } else if i == 2 {
            PositionColumn::C
        } else if i == 3 {
            PositionColumn::D
        } else if i == 4 {
            PositionColumn::E
        } else if i == 5 {
            PositionColumn::F
        } else if i == 6 {
            PositionColumn::G
        } else {
            PositionColumn::H
        }
    }

    /// The letter that names the file.
    pub open spec fn letter(self) -> char {
        match self {
            PositionColumn::A => 'a',
            PositionColumn::B => 'b',
            PositionColumn::C => 'c',
            PositionColumn::D => 'd',
            PositionColumn::E => 'e',
            PositionColumn::F => 'f',
            PositionColumn::G => 'g',
            PositionColumn::H => 'h',
        }
    }

    /// The file named by a lowercase letter.
    pub open spec fn of_letter(ch: char) -> Option<PositionColumn> {
        match ch {
            'a' => Some(PositionColumn::A),
            'b' => Some(PositionColumn::B),
            'c' => Some(PositionColumn::C),
            'd' => Some(PositionColumn::D),
            'e' => Some(PositionColumn::E),
            'f' => Some(PositionColumn::F),
            'g' => Some(PositionColumn::G),
            'h' => Some(PositionColumn::H),
            _ => None,
        }
    }

    pub fn to_index(self) -> (r: u8)
        ensures
            r as int == self.index(),
    {
        match self {
            PositionColumn::A => 0,
            PositionColumn::B => 1,
            PositionColumn::C => 2,
            PositionColumn::D => 3,
            PositionColumn::E => 4,
            PositionColumn::F => 5,
            PositionColumn::G => 6,
            PositionColumn::H => 7,
        }
    }

    /// The file with ordinal `v`, if `v` is in `0..8`.
    pub fn from_i32(v: i32) -> (r: Option<PositionColumn>)
        ensures
            r == (if 0 <= v < 8 { Some(PositionColumn::at(v as int)) } else { None }),
    {
        match v {
            0 => Some(PositionColumn::A),
            1 => Some(PositionColumn::B),
            2 => Some(PositionColumn::C),
            3 => Some(PositionColumn::D),
            4 => Some(PositionColumn::E),
            5 => Some(PositionColumn::F),
            6 => Some(PositionColumn::G),
            7 => Some(PositionColumn::H),
            _ => None,
        }
    }

    fn from_letter(ch: char) -> (r: Option<PositionColumn>)
        ensures
            r == PositionColumn::of_letter(ch),
    {
        match ch {
            'a' => Some(PositionColumn::A),
            'b' => Some(PositionColumn::B),
            'c' => Some(PositionColumn::C),
            'd' => Some(PositionColumn::D),
            'e' => Some(PositionColumn::E),
            'f' => Some(PositionColumn::F),
            'g' => Some(PositionColumn::G),
            'h' => Some(PositionColumn::H),
            _ => None,
        }
    }
}

impl PositionRow {
    /// The ordinal of the rank, 0 for rank `1` up to 7 for rank `8`.
    pub open spec fn index(self) -> int {
        match self {
            PositionRow::One => 0,
            PositionRow::Two => 1,
            PositionRow::Three => 2,
            PositionRow::Four => 3,
            PositionRow::Five => 4,
            PositionRow::Six => 5,
            PositionRow::Seven => 6,
            PositionRow::Eight => 7,
        }
    }

    /// The rank with ordinal `i`, meaningful for `0 <= i < 8`.
    pub open spec fn at(i: int) -> PositionRow {
        if i <= 0 {
            PositionRow::One
        } else if i == 1 {
            PositionRow::Two
        } else if i == 2 {
            PositionRow::Three
        } else if i == 3 {
            PositionRow::Four
        } else if i == 4 {
            PositionRow::Five
        } else if i == 5 {
            PositionRow::Six
        } else if i == 6 {
            PositionRow::Seven
        } else {
            PositionRow::Eight
        }
    }

    /// The digit that names the rank.
    pub open spec fn digit(self) -> char {
        match self {
            PositionRow::One => '1',
            PositionRow::Two => '2',
            PositionRow::Three => '3',
            PositionRow::Four => '4',
            PositionRow::Five => '5',
            PositionRow::Six => '6',
            PositionRow::Seven => '7',
            PositionRow::Eight => '8',
        }
    }

    /// The rank named by a digit.
    pub open spec fn of_digit(ch: char) -> Option<PositionRow> {
        match ch {
            '1' => Some(PositionRow::One),
            '2' => Some(PositionRow::Two),
            '3' => Some(PositionRow::Three),
            '4' => Some(PositionRow::Four),
            '5' => Some(PositionRow::Five),
            '6' => Some(PositionRow::Six),
            '7' => Some(PositionRow::Seven),
            '8' => Some(PositionRow::Eight),
            _ => None,
        }
    }

    pub fn to_index(self) -> (r: u8)
        ensures
            r as int == self.index(),
    {
        match self {
            PositionRow::One => 0,
            PositionRow::Two => 1,
            PositionRow::Three => 2,
            PositionRow::Four => 3,
            PositionRow::Five => 4,
            PositionRow::Six => 5,
            PositionRow::Seven => 6,
            PositionRow::Eight => 7,
        }
    }

    /// The rank with ordinal `v`, if `v` is in `0..8`.
    pub fn from_i32(v: i32) -> (r: Option<PositionRow>)
        ensures
            r == (if 0 <= v < 8 { Some(PositionRow::at(v as int)) } else { None }),
    {
        match v {
            0 => Some(PositionRow::One),
            1 => Some(PositionRow::Two),
            2 => Some(PositionRow::Three),
            3 => Some(PositionRow::Four),
            4 => Some(PositionRow::Five),
            5 => Some(PositionRow::Six),
            6 => Some(PositionRow::Seven),
            7 => Some(PositionRow::Eight),
            _ => None,
        }
    }

    fn from_digit(ch: char) -> (r: Option<PositionRow>)
        ensures
            r == PositionRow::of_digit(ch),
    {
        match ch {
            '1' => Some(PositionRow::One),
            '2' => Some(PositionRow::Two),
            '3' => Some(PositionRow::Three),
            '4' => Some(PositionRow::Four),
            '5' => Some(PositionRow::Five),
            '6' => Some(PositionRow::Six),
            '7' => Some(PositionRow::Seven),
            '8' => Some(PositionRow::Eight),
            _ => None,
        }
    }
}

/// A square of the board as a rank and a file.
#[derive(PartialEq, Eq, Structural, PartialOrd, Ord, Copy, Clone, Debug, Hash)]
pub struct Position {
    pub row: PositionRow,
    pub column: PositionColumn,
}

/// A square of the board as its flat index `row * 8 + column`.
#[derive(PartialEq, Eq, Structural, PartialOrd, Ord, Copy, Clone, Debug, Hash)]
pub struct Square(pub u8);

impl Position {
    /// The flat index of the square.
    pub open spec fn index(self) -> int {
        self.row.index() * 8 + self.column.index()
    }

    /// The square with flat index `k`, meaningful for `0 <= k < 64`.
    pub open spec fn at_index(k: int) -> Position {
        Position { row: PositionRow::at(k / 8), column: PositionColumn::at(k % 8) }
    }

    /// The two-character algebraic name of the square, file then rank.
    pub open spec fn notation(self) -> Seq<char> {
        seq![self.column.letter(), self.row.digit()]
    }

    /// Reading a square's name: exactly a file letter and a rank digit.
    pub open spec fn parse_spec(s: Seq<char>) -> Result<Position, ChessError> {
        if s.len() == 2 && PositionColumn::of_letter(s[0]) is Some && PositionRow::of_digit(
            s[1],
        ) is Some {
            Ok(
                Position {
                    row: PositionRow::of_digit(s[1])->Some_0,
                    column: PositionColumn::of_letter(s[0])->Some_0,
                },
            )
        } else {
            Err(invalid(Fault::MalformedSquare))
        }
    }

    /// Reads a square's name, such as `e3`.
    pub fn parse(s: &str) -> (r: Result<Position, ChessError>)
        ensures
            r == Position::parse_spec(s@),
    {
        let n = s.unicode_len();
        if n != 2 {
            return Err(ChessError::InvalidNotation { reason: Fault::MalformedSquare });
        }
        let file = PositionColumn::from_letter(s.get_char(0));
        let rank = PositionRow::from_digit(s.get_char(1));
        match (file, rank) {
            (Some(column), Some(row)) => Ok(Position { row, column }),
            _ => Err(ChessError::InvalidNotation { reason: Fault::MalformedSquare }),
        }
    }

    /// Writes the square's name, such as `e3`.
    pub fn to_notation(&self) -> (r: String)
        ensures
            r@ == self.notation(),
    {
        let files = "abcdefgh";
        let ranks = "12345678";
        proof {
            reveal_strlit("abcdefgh");
            reveal_strlit("12345678");
        }
        let c = self.column.to_index() as usize;
        let w = self.row.to_index() as usize;
        let mut r = String::from_str(files.substring_char(c, c + 1));
        r.append(ranks.substring_char(w, w + 1));
        proof {
            assert(r@ =~= self.notation());
        }
        r
    }
}

impl From<Position> for Square {
    fn from(value: Position) -> (r: Square) {
        Square(value.row.to_index() * 8 + value.column.to_index())
    }
}

impl vstd::std_specs::convert::FromSpecImpl<Position> for Square {
    open spec fn obeys_from_spec() -> bool {
        true
    }

    open spec fn from_spec(v: Position) -> Square {
        Square(v.index() as u8)
    }
}

impl std::str::FromStr for Position {
    type Err = ChessError;

    fn from_str(s: &str) -> (r: Result<Position, ChessError>)
        ensures
            r == Position::parse_spec(s@),
    {
        Position::parse(s)
    }
}

/// Every square's name reads back as that square.
pub proof fn lemma_notation_round_trip(p: Position)
    ensures
        Position::parse_spec(p.notation()) == Ok::<Position, ChessError>(p),
{
}

/// The flat index maps the 64 squares one to one onto `0..64`: every square has an
/// index in range, two squares with one index are the same square, and every index
/// in range belongs to a square.
pub proof fn lemma_index_bijection(p: Position, q: Position, k: int)
    ensures
        0 <= p.index() < 64,
        p.index() == q.index() ==> p == q,
        0 <= k < 64 ==> Position::at_index(k).index() == k,
        Position::at_index(p.index()) == p,
{
}

} // verus!
