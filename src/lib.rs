//! The position model under an interactive chessboard: squares and their names,
//! pieces, a decoder for the piece-placement notation, game positions read from a
//! board description, and moves that produce new positions.

pub mod error;
pub mod fields;
pub mod game;
pub mod interaction;
pub mod pieces;
pub mod square;
pub mod view_board;

pub use crate::error::{ChessError, Fault};
pub use crate::game::{CastleRights, Game, Move};
pub use crate::interaction::Model;
pub use crate::pieces::{Color, Piece, PieceType};
pub use crate::square::{Position, PositionColumn, PositionRow, Square};
pub use crate::view_board::{Board, ViewBoard};
