use vstd::prelude::*;
use crate::game::{Game, GameView, Move};
use crate::pieces::Piece;
use crate::square::{Position, PositionColumn, PositionRow};

verus! {

/// The place of the first piece on a square, if any piece is there.
pub open spec fn first_at(pieces: Seq<Piece>, at: Position) -> Option<int>
    decreases pieces.len(),
{
    if pieces.len() == 0 {
        None
    } else {
        match first_at(pieces.drop_last(), at) {
            Some(k) => Some(k),
            None => if pieces.last().position == at {
                Some(pieces.len() - 1)
            } else {
                None
            },
        }
    }
}

/// The state of a board that a user plays by clicking: the game, and the piece
/// selected by a first click, if any.
pub struct Model {
    pub game: Game,
    pub drag_start: Option<usize>,
}

/// The value of a `Model`.
pub struct ModelView {
    pub game: GameView,
    pub drag_start: Option<usize>,
}

impl View for Model {
    type V = ModelView;

    open spec fn view(&self) -> ModelView {
        ModelView { game: self.game@, drag_start: self.drag_start }
    }
}

impl ModelView {
    /// The selected piece, if any, is on the board.
    pub open spec fn wf(self) -> bool {
        match self.drag_start {
            Some(i) => i < self.game.pieces.len(),
            None => true,
        }
    }

    /// A click on a square: with a piece selected, that piece moves there and the
    /// selection ends; with none, nothing happens.
    pub open spec fn after_click_board(self, at: Position) -> ModelView {
        match self.drag_start {
            Some(i) => ModelView { game: self.game.apply(Move::Move(i, at)), drag_start: None },
            None => self,
        }
    }

    /// A click on the piece on a square: a piece of the side to move becomes the
    /// selection; another piece is captured by the selected piece, if there is one.
    pub open spec fn after_click_piece(self, at: Position) -> ModelView {
        match first_at(self.game.pieces, at) {
            None => self,
            Some(k) => if self.game.pieces[k].color == self.game.cur_color {
                ModelView { drag_start: Some(k as usize), ..self }
            } else {
                match self.drag_start {
                    Some(i) => ModelView {
                        game: self.game.apply(Move::Capture(i, k as usize)),
                        drag_start: None,
                    },
                    None => self,
                }
            },
        }
    }
}

/// Finds the first piece on a square.
pub fn index_of(pieces: &Vec<Piece>, at: Position) -> (r: Option<usize>)
    ensures
        match r {
            Some(k) => first_at(pieces@, at) == Some(k as int) && k < pieces@.len(),
            None => first_at(pieces@, at) is None,
        },
{
    let mut found: Option<usize> = None;
    let mut i: usize = 0;
    while i < pieces.len()
        invariant
            i <= pieces@.len(),
            match found {
                Some(k) => first_at(pieces@.take(i as int), at) == Some(k as int) && k < i,
                None => first_at(pieces@.take(i as int), at) is None,
            },
        decreases pieces@.len() - i,
    {
        proof {
            assert(pieces@.take(i + 1).drop_last() =~= pieces@.take(i as int));
        }
        if found.is_none() && pieces[i].position == at {
            found = Some(i);
        }
        i = i + 1;
    }
    proof {
        assert(pieces@.take(i as int) =~= pieces@);
    }
    found
}

impl Model {
    /// A game with nothing selected.
    pub fn new(game: Game) -> (r: Model)
        ensures
            r@ == (ModelView { game: game@, drag_start: None }),
            r@.wf(),
    {
        Model { game, drag_start: None }
    }

    /// Handles a click on the square at `row` and `column`.
    pub fn click_board(&mut self, row: PositionRow, column: PositionColumn)
        requires
            old(self)@.wf(),
        ensures
            final(self)@ == old(self)@.after_click_board(Position { row, column }),
            final(self)@.wf(),
    {
        if let Some(pos) = self.drag_start {
            self.game = self.game.perfome_move(Move::Move(pos, Position { row, column }));
            self.drag_start = None;
        }
    }

    /// Handles a click on the piece standing at `at`.
    pub fn click_piece(&mut self, at: Position)
        requires
            old(self)@.wf(),
        ensures
            final(self)@ == old(self)@.after_click_piece(at),
            final(self)@.wf(),
    {
        let clicked = match index_of(&self.game.board.pieces, at) {
            Some(k) => k,
            None => return ,
        };
        if self.game.board.pieces[clicked].color == self.game.cur_color {
            self.drag_start = Some(clicked);
        } else if let Some(pos) = self.drag_start {
            self.game = self.game.perfome_move(Move::Capture(pos, clicked));
            self.drag_start = None;
        }
    }
}

} // verus!
