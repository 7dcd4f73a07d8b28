use vstd::prelude::*;
use crate::error::{ChessError, Fault, invalid};
use crate::fields::{contains_char, fields, split_fields};
use crate::pieces::{Color, Piece};
use crate::square::{Position, Square};
use crate::view_board::{parse_board, standard_pieces, ViewBoard};

verus! {

/// Which castling moves a side may still make. Only recorded, never played.
#[derive(PartialEq, Eq, Structural, PartialOrd, Ord, Copy, Clone, Debug, Hash)]
pub enum CastleRights {
    NoRights,
    KingSide,
    QueenSide,
    Both,
}

/// A move, with pieces named by their place in the board's sequence.
#[derive(PartialEq, Eq, Structural, Copy, Clone, Debug)]
pub enum Move {
    /// The first piece takes the second: it moves to the second's square and the
    /// second leaves the board, which shifts every later piece down by one place.
    Capture(usize, usize),
    /// The piece moves to the square.
    Move(usize, Position),
}

/// A game position: the board, the side to move, the castling rights of white (first)
/// and black (second), and the en-passant square.
#[derive(Clone, Debug)]
pub struct Game {
    pub board: ViewBoard,
    pub cur_color: Color,
    pub castle_rights: [CastleRights; 2],
    pub en_passant: Option<Square>,
}

/// The value of a game position.
pub struct GameView {
    pub pieces: Seq<Piece>,
    pub cur_color: Color,
    pub castle_rights: Seq<CastleRights>,
    pub en_passant: Option<Square>,
}

impl View for Game {
    type V = GameView;

    open spec fn view(&self) -> GameView {
        GameView {
            pieces: self.board@,
            cur_color: self.cur_color,
            castle_rights: self.castle_rights@,
            en_passant: self.en_passant,
        }
    }
}

/// The rights of one side from the castling field, given the letters of its king
/// side and queen side.
pub open spec fn castle_rights_of(s: Seq<char>, king: char, queen: char) -> CastleRights {
    if s.contains(king) && s.contains(queen) {
        CastleRights::Both
    } else if s.contains(king) {
        CastleRights::KingSide
    } else if s.contains(queen) {
        CastleRights::QueenSide
    } else {
        CastleRights::NoRights
    }
}

/// The side named by the side-to-move field.
pub open spec fn side_of(s: Seq<char>) -> Option<Color> {
    if s == seq!['w'] || s == seq!['W'] {
        Some(Color::White)
    } else if s == seq!['b'] || s == seq!['B'] {
        Some(Color::Black)
    } else {
        None
    }
}

/// The en-passant square of its field: the square if the field names one, else none.
pub open spec fn en_passant_of(s: Seq<char>) -> Option<Square> {
    match Position::parse_spec(s) {
        Ok(p) => Some(Square(p.index() as u8)),
        Err(_) => None,
    }
}

/// The position that a board description gives: the board from the first field,
/// then the side to move, the castling rights and the en-passant square from the
/// next three. Fields after the fourth are ignored.
pub open spec fn parse_game(s: Seq<char>) -> Result<GameView, ChessError> {
    match parse_board(s) {
        Err(e) => Err(e),
        Ok(pieces) => {
            let f = fields(s);
            match side_of(f[1]) {
                None => Err(invalid(Fault::UnknownSide)),
                Some(side) => Ok(
                    GameView {
                        pieces,
                        cur_color: side,
                        castle_rights: seq![
                            castle_rights_of(f[2], 'K', 'Q'),
                            castle_rights_of(f[2], 'k', 'q'),
                        ],
                        en_passant: en_passant_of(f[3]),
                    },
                ),
            }
        },
    }
}

/// The value of a decoded game, or its error.
pub open spec fn game_result(r: Result<Game, ChessError>) -> Result<GameView, ChessError> {
    match r {
        Ok(g) => Ok(g@),
        Err(e) => Err(e),
    }
}

impl GameView {
    /// Whether the pieces that a move names are on the board.
    pub open spec fn move_ok(self, m: Move) -> bool {
        match m {
            Move::Capture(i, j) => i < self.pieces.len() && j < self.pieces.len(),
            Move::Move(i, _) => i < self.pieces.len(),
        }
    }

    /// The pieces after a move.
    pub open spec fn moved_pieces(self, m: Move) -> Seq<Piece> {
        match m {
            Move::Capture(i, j) => self.pieces.update(
                i as int,
                Piece { position: self.pieces[j as int].position, ..self.pieces[i as int] },
            ).remove(j as int),
            Move::Move(i, to) => self.pieces.update(
                i as int,
                Piece { position: to, ..self.pieces[i as int] },
            ),
        }
    }

    /// The position after a move: the pieces moved, the other side to move, all else kept.
    pub open spec fn apply(self, m: Move) -> GameView {
        GameView {
            pieces: self.moved_pieces(m),
            cur_color: self.cur_color.opponent(),
            castle_rights: self.castle_rights,
            en_passant: self.en_passant,
        }
    }
}

/// A move keeps the number of pieces, a capture takes one away, and either way the
/// other side is to move next.
pub proof fn lemma_move_counts(g: GameView, m: Move)
    requires
        g.move_ok(m),
    ensures
        g.apply(m).pieces.len() == g.pieces.len() - (if m is Capture { 1int } else { 0int }),
        g.apply(m).cur_color == g.cur_color.opponent(),
        g.apply(m).cur_color != g.cur_color,
{
}

fn side_from(s: &str) -> (r: Option<Color>)
    ensures
        r == side_of(s@),
{
    if s.unicode_len() != 1 {
        proof {
            assert(s@.len() != seq!['w'].len());
        }
        return None;
    }
    let c = s.get_char(0);
    proof {
        assert(s@ =~= seq![c]);
    }
    if c == 'w' || c == 'W' {
        Some(Color::White)
    } else if c == 'b' || c == 'B' {
        Some(Color::Black)
    } else {
        None
    }
}

fn castle_rights_from(s: &str, king: char, queen: char) -> (r: CastleRights)
    ensures
        r == castle_rights_of(s@, king, queen),
{
    let k = contains_char(s, king);
    let q = contains_char(s, queen);
    if k && q {
        CastleRights::Both
    } else if k {
        CastleRights::KingSide
    } else if q {
        CastleRights::QueenSide
    } else {
        CastleRights::NoRights
    }
}

fn en_passant_from(s: &str) -> (r: Option<Square>)
    ensures
        r == en_passant_of(s@),
{
    match Position::parse(s) {
        Ok(p) => Some(Square::from(p)),
        Err(_) => None,
    }
}

fn copy_pieces(v: &Vec<Piece>) -> (r: Vec<Piece>)
    ensures
        r@ == v@,
{
    let mut r: Vec<Piece> = Vec::new();
    let mut i: usize = 0;
    while i < v.len()
        invariant
            i <= v@.len(),
            r@ == v@.take(i as int),
        decreases v@.len() - i,
    {
        r.push(v[i]);
        proof {
            assert(r@ =~= v@.take(i + 1));
        }
        i = i + 1;
    }
    proof {
        assert(r@ =~= v@);
    }
    r
}

impl Default for Game {
    /// The standard starting position, white to move, all castling rights, no
    /// en-passant square.
    fn default() -> (r: Game)
        ensures
            r@ == (GameView {
                pieces: standard_pieces(),
                cur_color: Color::White,
                castle_rights: seq![CastleRights::Both, CastleRights::Both],
                en_passant: None,
            }),
    {
        let g = Game {
            board: ViewBoard::default(),
            cur_color: Color::White,
            castle_rights: [CastleRights::Both, CastleRights::Both],
            en_passant: None,
        };
        proof {
            assert(g@.castle_rights =~= seq![CastleRights::Both, CastleRights::Both]);
        }
        g
    }
}

impl Game {
    /// Reads a board description such as
    /// `rnbqkbnr/pppppppp/8/8/8/8/PPPPPPPP/RNBQKBNR w KQkq - 0 1`.
    pub fn from_fen(value: &str) -> (r: Result<Game, ChessError>)
        ensures
            game_result(r) == parse_game(value@),
    {
        let board = match ViewBoard::from_fen(value) {
            Ok(b) => b,
            Err(e) => return Err(e),
        };
        let tokens = split_fields(value);
        let cur_color = match side_from(tokens[1]) {
            Some(c) => c,
            None => return Err(ChessError::InvalidNotation { reason: Fault::UnknownSide }),
        };
        let castles = tokens[2];
        let white = castle_rights_from(castles, 'K', 'Q');
        let black = castle_rights_from(castles, 'k', 'q');
        let en_passant = en_passant_from(tokens[3]);
        let g = Game { board, cur_color, castle_rights: [white, black], en_passant };
        proof {
            assert(g@.castle_rights =~= seq![white, black]);
        }
        Ok(g)
    }

    /// The position after a move; the side to move passes to the other side. No rule
    /// of chess is checked.
    pub fn perfome_move(&self, m: Move) -> (r: Game)
        requires
            self@.move_ok(m),
        ensures
            r@ == self@.apply(m),
    {
        let mut pieces = copy_pieces(&self.board.pieces);
        match m {
            Move::Capture(p1, p2) => {
                let mut moved = pieces[p1];
                moved.position = self.board.pieces[p2].position;
                pieces.set(p1, moved);
                pieces.remove(p2);
            },
            Move::Move(p1, pos) => {
                let mut moved = pieces[p1];
                moved.position = pos;
                pieces.set(p1, moved);
            },
        }
        Game {
            board: ViewBoard { pieces },
            cur_color: self.cur_color.next(),
            castle_rights: self.castle_rights,
            en_passant: self.en_passant,
        }
    }
}

impl std::str::FromStr for Game {
    type Err = ChessError;

    fn from_str(value: &str) -> (r: Result<Game, ChessError>)
        ensures
            game_result(r) == parse_game(value@),
    {
        Game::from_fen(value)
    }
}

} // verus!
