use tictactoe::{Board, Opponent, OpponentSpot, Position};

fn pos(row: usize, col: usize) -> Position {
    Position::new(row, col).unwrap()
}

#[test]
fn new_accepts_exactly_the_grid() {
    for row in 0..6usize {
        for col in 0..6usize {
            let p = Position::new(row, col);
            assert_eq!(p.is_some(), row < 3 && col < 3, "({}, {})", row, col);
            if let Some(p) = p {
                assert_eq!(p.row(), row);
                assert_eq!(p.col(), col);
            }
        }
    }
    assert!(Position::new(usize::MAX, 0).is_none());
    assert!(Position::new(0, usize::MAX).is_none());
}

#[test]
fn new_out_of_range_is_none() {
    assert!(Position::new(10, 0).is_none());
}

#[test]
fn from_num_is_row_major() {
    for n in 1..=9u8 {
        let k = (n - 1) as usize;
        assert_eq!(Position::from_num(n), Position::new(k / 3, k % 3), "{}", n);
    }
    assert_eq!(Position::from_num(1), Position::new(0, 0));
    assert_eq!(Position::from_num(2), Position::new(0, 1));
    assert_eq!(Position::from_num(4), Position::new(1, 0));
    assert_eq!(Position::from_num(9), Position::new(2, 2));
}

#[test]
fn from_num_outside_one_to_nine_is_none() {
    assert!(Position::from_num(0).is_none());
    assert!(Position::from_num(10).is_none());
    assert!(Position::from_num(255).is_none());
}

#[test]
fn position_renders_row_then_column() {
    assert_eq!(pos(1, 2).render(), "(1, 2)");
    assert_eq!(pos(0, 0).render(), "(0, 0)");
    assert_eq!(pos(2, 1).render(), "(2, 1)");
}

#[test]
fn symbols_of_cells() {
    assert_eq!(OpponentSpot(None).symbol(), "_");
    assert_eq!(OpponentSpot(Some(Opponent::X)).symbol(), "X");
    assert_eq!(OpponentSpot(Some(Opponent::O)).symbol(), "O");
}

#[test]
fn fresh_board_renders_empty() {
    assert_eq!(Board::new().render(), "[[_, _, _],\n [_, _, _],\n [_, _, _]]");
}

#[test]
fn fresh_board_cells_are_empty() {
    let b = Board::new();
    for n in 1..=9u8 {
        assert_eq!(b.get(Position::from_num(n).unwrap()), OpponentSpot(None));
    }
}

#[test]
fn claim_empty_then_again() {
    let mut b = Board::new();
    let p = pos(0, 2);
    assert!(b.set(p, Opponent::X).is_ok());
    assert_eq!(b.get(p), OpponentSpot(Some(Opponent::X)));
    let before = b.render();
    let e = b.set(p, Opponent::X).unwrap_err();
    assert_eq!(e.pos(), p);
    assert_eq!(e.opponent(), OpponentSpot(Some(Opponent::X)));
    assert_eq!(b.render(), before);
    assert_eq!(b.get(p), OpponentSpot(Some(Opponent::X)));
}

#[test]
fn claim_is_local() {
    let mut b = Board::new();
    b.set(pos(1, 2), Opponent::O).unwrap();
    assert_eq!(b.render(), "[[_, _, _],\n [_, _, O],\n [_, _, _]]");
    assert_eq!(b.get(pos(2, 1)), OpponentSpot(None));
}

#[test]
fn rejected_claim_keeps_first() {
    let mut b = Board::new();
    let p = pos(2, 2);
    b.set(p, Opponent::X).unwrap();
    let e = b.set(p, Opponent::O).unwrap_err();
    assert_eq!(e.opponent(), OpponentSpot(Some(Opponent::X)));
    assert_eq!(b.get(p), OpponentSpot(Some(Opponent::X)));
}

#[test]
fn two_claims_render() {
    let mut b = Board::new();
    b.set(pos(2, 0), Opponent::X).unwrap();
    b.set(pos(1, 1), Opponent::O).unwrap();
    assert_eq!(b.render(), "[[_, _, _],\n [_, O, _],\n [X, _, _]]");
}

#[test]
fn taken_message() {
    let mut b = Board::new();
    b.set(pos(1, 1), Opponent::O).unwrap();
    let e = b.set(pos(1, 1), Opponent::O).unwrap_err();
    assert_eq!(e.message(), "Position (1, 1) is already taken by 'O'");
}

#[test]
fn taken_message_other_cell() {
    let mut b = Board::new();
    b.set(pos(2, 0), Opponent::X).unwrap();
    let e = b.set(pos(2, 0), Opponent::O).unwrap_err();
    assert_eq!(e.message(), "Position (2, 0) is already taken by 'X'");
}

#[test]
fn original_walkthrough() {
    let mut x = Board::new();
    assert_eq!(x.get(pos(2, 0)), OpponentSpot(None));
    x.set(pos(2, 0), Opponent::X).unwrap();
    x.set(pos(1, 1), Opponent::O).unwrap();
    let e = x.set(pos(1, 1), Opponent::X).unwrap_err();
    assert_eq!(e.message(), "Position (1, 1) is already taken by 'O'");
    assert!(Position::new(10, 0).is_none());
    assert_eq!(x.get(Position::new(2, 0).unwrap()), OpponentSpot(Some(Opponent::X)));
    assert_eq!(x.render(), "[[_, _, _],\n [_, O, _],\n [X, _, _]]");
}

#[test]
fn legend_text() {
    assert_eq!(Board::positions_legend(), "[[1, 2, 3],\n [4, 5, 6],\n [7, 8, 9]]");
}

#[test]
fn legend_matches_numbers() {
    for n in 1..=9u8 {
        let mut b = Board::new();
        b.set(Position::from_num(n).unwrap(), Opponent::X).unwrap();
        let board = b.render();
        let legend = Board::positions_legend();
        let at = legend.find(char::from(b'0' + n)).unwrap();
        assert_eq!(board.find('X'), Some(at), "{}", n);
    }
}

#[test]
fn claim_changes_one_character_of_the_text() {
    for n in 1..=9u8 {
        let mut b = Board::new();
        b.set(pos(0, 1), Opponent::O).unwrap();
        let p = Position::from_num(n).unwrap();
        let before: Vec<char> = b.render().chars().collect();
        let ok = b.set(p, Opponent::X).is_ok();
        let after: Vec<char> = b.render().chars().collect();
        assert_eq!(before.len(), after.len());
        let at = 2 + 12 * p.row() + 3 * p.col();
        for i in 0..before.len() {
            if ok && i == at {
                assert_eq!(before[i], '_');
                assert_eq!(after[i], 'X');
            } else {
                assert_eq!(before[i], after[i], "{} {}", n, i);
            }
        }
    }
}

#[test]
fn taken_cells_count_up_by_one_per_success() {
    let mut b = Board::new();
    let taken = |b: &Board| {
        (1..=9u8)
            .filter(|n| b.get(Position::from_num(*n).unwrap()).0.is_some())
            .count()
    };
    let moves = [(5u8, Opponent::X), (5, Opponent::O), (1, Opponent::O), (9, Opponent::X), (1, Opponent::X)];
    let mut count = 0;
    for (n, o) in moves {
        let ok = b.set(Position::from_num(n).unwrap(), o).is_ok();
        if ok {
            count += 1;
        }
        assert_eq!(taken(&b), count);
    }
    assert_eq!(count, 3);
}
