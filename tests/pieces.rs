use chessboard::{
    ChessError, Color, Fault, Piece, PieceType, Position, PositionColumn, PositionRow,
};

fn at(row: PositionRow, column: PositionColumn) -> Position {
    Position { row, column }
}

#[test]
fn next_color_alternates() {
    assert_eq!(Color::White.next(), Color::Black);
    assert_eq!(Color::Black.next(), Color::White);
}

#[test]
fn piece_from_placement_letters() {
    let pos = at(PositionRow::Two, PositionColumn::D);
    let p = Piece::from_fen_char(&'N', PositionRow::Two, PositionColumn::D).unwrap();
    assert_eq!(
        p,
        Piece {
            piece_type: PieceType::Knight,
            color: Color::White,
            position: pos
        }
    );
    let p = Piece::from_fen_char(&'q', PositionRow::Two, PositionColumn::D).unwrap();
    assert_eq!(p.piece_type, PieceType::Queen);
    assert_eq!(p.color, Color::Black);
    for (ch, t) in [
        ('p', PieceType::Pawn),
        ('b', PieceType::Bishop),
        ('r', PieceType::Rook),
        ('k', PieceType::King),
        ('K', PieceType::King),
    ] {
        assert_eq!(PieceType::from_fen_char(&ch), Ok(t));
    }
}

#[test]
fn unknown_placement_letter_fails() {
    let bad = Err(ChessError::InvalidNotation {
        reason: Fault::UnknownPiece,
    });
    assert_eq!(
        Piece::from_fen_char(&'x', PositionRow::One, PositionColumn::A),
        bad
    );
    assert_eq!(
        PieceType::from_fen_char(&'1').map(|_| ()),
        Err(ChessError::InvalidNotation {
            reason: Fault::UnknownPiece
        })
    );
}

#[test]
fn sprite_names() {
    let pos = at(PositionRow::One, PositionColumn::A);
    let mk = |piece_type, color| Piece {
        piece_type,
        color,
        position: pos,
    };
    assert_eq!(mk(PieceType::Pawn, Color::White).name(), "wp");
    assert_eq!(mk(PieceType::Knight, Color::Black).name(), "bn");
    assert_eq!(mk(PieceType::Bishop, Color::White).name(), "wb");
    assert_eq!(mk(PieceType::Rook, Color::Black).name(), "br");
    assert_eq!(mk(PieceType::Queen, Color::White).name(), "wq");
    assert_eq!(mk(PieceType::King, Color::Black).name(), "bk");
}
