use chessboard::{Color, Game, Model, Position, PositionColumn, PositionRow};

fn at(row: PositionRow, column: PositionColumn) -> Position {
    Position { row, column }
}

#[test]
fn select_then_move() {
    let mut m = Model::new(Game::default());
    // Clicking an empty square with nothing selected does nothing.
    m.click_board(PositionRow::Four, PositionColumn::E);
    assert_eq!(m.drag_start, None);
    assert_eq!(m.game.cur_color, Color::White);
    // A black piece cannot be selected while white is to move.
    m.click_piece(at(PositionRow::Seven, PositionColumn::E));
    assert_eq!(m.drag_start, None);
    m.click_piece(at(PositionRow::Two, PositionColumn::E));
    assert_eq!(m.drag_start, Some(20));
    m.click_board(PositionRow::Four, PositionColumn::E);
    assert_eq!(m.drag_start, None);
    assert_eq!(m.game.cur_color, Color::Black);
    assert_eq!(
        m.game.board.pieces[20].position,
        at(PositionRow::Four, PositionColumn::E)
    );
}

#[test]
fn select_then_capture() {
    let g = Game::from_fen("4k3/8/8/3p4/4P3/8/8/4K3 w - - 0 1").unwrap();
    let mut m = Model::new(g);
    m.click_piece(at(PositionRow::Four, PositionColumn::E));
    assert_eq!(m.drag_start, Some(2));
    m.click_piece(at(PositionRow::Five, PositionColumn::D));
    assert_eq!(m.drag_start, None);
    assert_eq!(m.game.board.pieces.len(), 3);
    assert_eq!(m.game.cur_color, Color::Black);
    assert_eq!(
        m.game.board.pieces[1].position,
        at(PositionRow::Five, PositionColumn::D)
    );
    assert_eq!(m.game.board.pieces[1].color, Color::White);
}

#[test]
fn reselect_own_piece_and_click_nowhere() {
    let mut m = Model::new(Game::default());
    m.click_piece(at(PositionRow::Two, PositionColumn::A));
    assert_eq!(m.drag_start, Some(16));
    m.click_piece(at(PositionRow::One, PositionColumn::B));
    assert_eq!(m.drag_start, Some(25));
    // No piece stands on e4: nothing changes.
    m.click_piece(at(PositionRow::Four, PositionColumn::E));
    assert_eq!(m.drag_start, Some(25));
    assert_eq!(m.game.cur_color, Color::White);
}
