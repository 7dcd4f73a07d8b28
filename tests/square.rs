use chessboard::{ChessError, Fault, Position, PositionColumn, PositionRow, Square};

fn all_positions() -> Vec<Position> {
    let mut out = Vec::new();
    for r in 0..8 {
        for c in 0..8 {
            out.push(Position {
                row: PositionRow::from_i32(r).unwrap(),
                column: PositionColumn::from_i32(c).unwrap(),
            });
        }
    }
    out
}

#[test]
fn position_to_square() {
    let p = Position {
        row: PositionRow::Two,
        column: PositionColumn::E,
    };
    let s = p.into();
    assert_eq!(Square(12u8), s);

    let p = Position {
        row: PositionRow::Eight,
        column: PositionColumn::H,
    };
    let s = p.into();

    assert_eq!(Square(63u8), s);
}

#[test]
fn notation_round_trips_for_every_square() {
    for p in all_positions() {
        let name = p.to_notation();
        assert_eq!(name.chars().count(), 2);
        assert_eq!(Position::parse(&name), Ok(p));
    }
}

#[test]
fn notation_of_e3() {
    let p = Position {
        row: PositionRow::Three,
        column: PositionColumn::E,
    };
    assert_eq!(p.to_notation(), "e3");
    let corner = Position {
        row: PositionRow::One,
        column: PositionColumn::A,
    };
    assert_eq!(corner.to_notation(), "a1");
}

#[test]
fn index_covers_each_of_64_once() {
    let mut seen = [false; 64];
    for p in all_positions() {
        let Square(k) = Square::from(p);
        assert!(k < 64);
        assert!(!seen[k as usize]);
        seen[k as usize] = true;
    }
    assert!(seen.iter().all(|b| *b));
}

#[test]
fn index_is_row_times_eight_plus_column() {
    let p = Position {
        row: PositionRow::Four,
        column: PositionColumn::C,
    };
    assert_eq!(Square::from(p), Square(26));
    assert_eq!(p.row.to_index(), 3);
    assert_eq!(p.column.to_index(), 2);
}

#[test]
fn parse_square_accepts_file_and_rank() {
    assert_eq!(
        Position::parse("e3"),
        Ok(Position {
            row: PositionRow::Three,
            column: PositionColumn::E
        })
    );
    assert_eq!(
        "h8".parse::<Position>(),
        Ok(Position {
            row: PositionRow::Eight,
            column: PositionColumn::H
        })
    );
}

#[test]
fn parse_square_rejects_malformed() {
    let bad = ChessError::InvalidNotation {
        reason: Fault::MalformedSquare,
    };
    for s in ["", "e", "-", "i1", "e9", "e0", "E3", "3e", "e3x"] {
        assert_eq!(Position::parse(s), Err(bad), "{}", s);
    }
}

#[test]
fn rows_and_columns_from_integers() {
    assert_eq!(PositionRow::from_i32(0), Some(PositionRow::One));
    assert_eq!(PositionRow::from_i32(7), Some(PositionRow::Eight));
    assert_eq!(PositionRow::from_i32(8), None);
    assert_eq!(PositionRow::from_i32(-1), None);
    assert_eq!(PositionColumn::from_i32(4), Some(PositionColumn::E));
    assert_eq!(PositionColumn::from_i32(8), None);
}
