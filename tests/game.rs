use tic_tac_toe::{FieldName, FieldState, Game, Hor, Side, State, Vert};

fn at(v: Vert, h: Hor) -> FieldName {
    FieldName { v, h }
}

fn occupied(g: &Game) -> usize {
    let mut n: usize = 0;
    for row in g.board().iter() {
        for f in row.iter() {
            if !f.is_empty() {
                n += 1;
            }
        }
    }
    n
}

#[test]
fn next_alternates() {
    assert_eq!(Side::X.next(), Side::O);
    assert_eq!(Side::O.next(), Side::X);
}

#[test]
fn field_state_is_empty() {
    assert!(FieldState(None).is_empty());
    assert!(!FieldState(Some(Side::O)).is_empty());
}

#[test]
fn new_game_is_empty_with_x_to_move() {
    let g = Game::new();
    assert_eq!(g.state(), State::Play(Side::X));
    assert!(g.playing());
    assert_eq!(occupied(&g), 0);
    assert_eq!(g.get(at(Vert::Mid, Hor::Mid)), FieldState(None));
    let d = Game::default();
    assert_eq!(d.state(), State::Play(Side::X));
    assert_eq!(occupied(&d), 0);
}

#[test]
fn field_name_from_row_col() {
    assert_eq!(FieldName::from_row_col(0, 2), Some(at(Vert::Top, Hor::Right)));
    assert_eq!(FieldName::from_row_col(2, 0), Some(at(Vert::Bottom, Hor::Left)));
    assert_eq!(FieldName::from_row_col(3, 0), None);
    assert_eq!(FieldName::from_row_col(1, 7), None);
    assert_eq!(Vert::Bottom.index(), 2);
    assert_eq!(Hor::Mid.index(), 1);
}

#[test]
fn move_marks_field_of_side_to_move() {
    let mut g = Game::new();
    assert!(g.act(at(Vert::Top, Hor::Left)));
    assert_eq!(g.get(at(Vert::Top, Hor::Left)), FieldState(Some(Side::X)));
    assert_eq!(g.state(), State::Play(Side::O));
    assert!(g.act(at(Vert::Bottom, Hor::Right)));
    assert_eq!(g.get(at(Vert::Bottom, Hor::Right)), FieldState(Some(Side::O)));
    assert_eq!(g.board()[2][2], FieldState(Some(Side::O)));
    assert_eq!(g.state(), State::Play(Side::X));
}

#[test]
fn occupied_count_grows_by_one_per_move() {
    let mut g = Game::new();
    let moves = [(1, 1), (1, 1), (0, 0), (9, 9), (2, 1)];
    let mut before = occupied(&g);
    for (r, c) in moves {
        let ok = g.attempt_move(r, c);
        let after = occupied(&g);
        assert_eq!(after, before + if ok { 1 } else { 0 });
        before = after;
    }
    assert_eq!(before, 3);
}

#[test]
fn top_row_win_for_x() {
    let mut g = Game::new();
    for (r, c) in [(0, 0), (1, 1), (0, 1), (2, 2)] {
        assert!(g.attempt_move(r, c));
        assert!(g.playing());
    }
    assert!(g.attempt_move(0, 2));
    assert_eq!(g.state(), State::Win(Side::X));
    assert!(!g.playing());
}

#[test]
fn full_board_without_line_is_draw() {
    let mut g = Game::new();
    // X X O / O O X / X O X, the middle column open until the last move
    let moves = [(0, 0), (1, 1), (2, 2), (0, 2), (2, 0), (1, 0), (1, 2), (2, 1), (0, 1)];
    for (k, (r, c)) in moves.into_iter().enumerate() {
        assert!(g.playing());
        assert!(g.attempt_move(r, c));
        if k < 8 {
            assert!(g.playing());
        }
    }
    assert_eq!(g.state(), State::Draw);
    assert_eq!(occupied(&g), 9);
    assert!(!g.attempt_move(0, 0));
    assert_eq!(g.state(), State::Draw);
}

#[test]
fn draw_detected_before_board_is_full() {
    let mut g = Game::new();
    // X X O / O O X / X . .  with X to move: the last two fields cannot
    // complete any line for either side.
    let moves = [(0, 0), (0, 2), (0, 1), (1, 0), (1, 2), (1, 1), (2, 0)];
    for (r, c) in moves {
        assert!(g.attempt_move(r, c));
    }
    assert_eq!(g.state(), State::Play(Side::O));
    assert!(g.attempt_move(2, 1));
    assert_eq!(g.state(), State::Draw);
    assert!(!g.attempt_move(2, 2));
    assert_eq!(occupied(&g), 8);
}

#[test]
fn out_of_range_move_is_refused() {
    let mut g = Game::new();
    assert!(g.attempt_move(1, 1));
    let board = *g.board();
    let state = g.state();
    assert!(!g.attempt_move(5, 0));
    assert!(!g.attempt_move(0, 3));
    assert_eq!(*g.board(), board);
    assert_eq!(g.state(), state);
}

#[test]
fn occupied_field_is_refused() {
    let mut g = Game::new();
    assert!(g.act(at(Vert::Mid, Hor::Left)));
    assert!(!g.is_legal_move(at(Vert::Mid, Hor::Left)));
    assert!(!g.act(at(Vert::Mid, Hor::Left)));
    assert_eq!(g.get(at(Vert::Mid, Hor::Left)), FieldState(Some(Side::X)));
    assert_eq!(g.state(), State::Play(Side::O));
    assert_eq!(occupied(&g), 1);
}

#[test]
fn finished_game_refuses_every_move() {
    let mut g = Game::new();
    for (r, c) in [(0, 0), (0, 1), (1, 1), (0, 2), (2, 2)] {
        assert!(g.attempt_move(r, c));
    }
    assert_eq!(g.state(), State::Win(Side::X));
    let board = *g.board();
    for r in 0..3 {
        for c in 0..3 {
            assert!(!g.is_legal_move(FieldName::from_row_col(r, c).unwrap()));
            assert!(!g.attempt_move(r, c));
        }
    }
    assert_eq!(*g.board(), board);
    assert_eq!(g.state(), State::Win(Side::X));
}

#[test]
fn line_wins_whatever_the_order() {
    // O fills the right column in three different orders.
    let orders = [[(0, 2), (1, 2), (2, 2)], [(2, 2), (0, 2), (1, 2)], [(1, 2), (2, 2), (0, 2)]];
    for order in orders {
        let mut g = Game::new();
        let x_moves = [(0, 0), (1, 1), (2, 0)];
        for k in 0..3 {
            assert!(g.attempt_move(x_moves[k].0, x_moves[k].1));
            if k == 2 {
                // X has no line yet: (0,0), (1,1), (2,0)
                assert!(g.playing());
            }
            assert!(g.attempt_move(order[k].0, order[k].1));
        }
        assert_eq!(g.state(), State::Win(Side::O));
    }
}

#[test]
fn diagonal_wins() {
    let mut g = Game::new();
    for (r, c) in [(0, 2), (0, 0), (1, 1), (0, 1), (2, 0)] {
        assert!(g.attempt_move(r, c));
    }
    assert_eq!(g.state(), State::Win(Side::X));
}

#[test]
fn column_wins_for_second_side() {
    let mut g = Game::new();
    for (r, c) in [(0, 0), (0, 1), (0, 2), (1, 1), (1, 0)] {
        assert!(g.attempt_move(r, c));
    }
    assert!(g.playing());
    assert!(g.attempt_move(2, 1));
    assert_eq!(g.state(), State::Win(Side::O));
}

#[test]
fn second_move_on_first_field_is_refused() {
    let mut g = Game::new();
    assert!(g.attempt_move(0, 0));
    assert!(!g.attempt_move(0, 0));
    assert_eq!(g.state(), State::Play(Side::O));
}

#[test]
fn sides_alternate() {
    let mut g = Game::new();
    let moves = [(0, 0), (1, 1), (2, 2), (0, 2), (2, 0)];
    let mut expected = Side::X;
    for (r, c) in moves {
        assert_eq!(g.state(), State::Play(expected));
        assert!(g.attempt_move(r, c));
        assert_eq!(g.board()[r][c], FieldState(Some(expected)));
        expected = expected.next();
    }
}

#[test]
fn parse_move_notation() {
    let tl = Some(at(Vert::Top, Hor::Left));
    for code in ["tl", "nw", "7", "wn", "lt"] {
        assert_eq!(FieldName::parse(code.as_bytes()), tl);
    }
    for code in ["t", "n", "8"] {
        assert_eq!(FieldName::parse(code.as_bytes()), Some(at(Vert::Top, Hor::Mid)));
    }
    for code in ["tr", "ne", "9", "en", "rt"] {
        assert_eq!(FieldName::parse(code.as_bytes()), Some(at(Vert::Top, Hor::Right)));
    }
    for code in ["l", "w", "4"] {
        assert_eq!(FieldName::parse(code.as_bytes()), Some(at(Vert::Mid, Hor::Left)));
    }
    for code in ["m", "c", "5"] {
        assert_eq!(FieldName::parse(code.as_bytes()), Some(at(Vert::Mid, Hor::Mid)));
    }
    for code in ["r", "e", "6"] {
        assert_eq!(FieldName::parse(code.as_bytes()), Some(at(Vert::Mid, Hor::Right)));
    }
    for code in ["bl", "sw", "1", "ws", "lb"] {
        assert_eq!(FieldName::parse(code.as_bytes()), Some(at(Vert::Bottom, Hor::Left)));
    }
    for code in ["b", "s", "2"] {
        assert_eq!(FieldName::parse(code.as_bytes()), Some(at(Vert::Bottom, Hor::Mid)));
    }
    for code in ["br", "se", "3", "es", "rb"] {
        assert_eq!(FieldName::parse(code.as_bytes()), Some(at(Vert::Bottom, Hor::Right)));
    }
}

#[test]
fn parse_rejects_unknown_notation() {
    for code in ["", "0", "x", "tw", "nl", "tt", "lr", "mt", "cn", "tl ", "tlr", "T", "77"] {
        assert_eq!(FieldName::parse(code.as_bytes()), None, "{code}");
    }
}
