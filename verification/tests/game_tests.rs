use tictactoe::board::Cell;
use tictactoe::game::{Game, Outcome};
use tictactoe::score::INIT;

#[test]
fn new_game_is_empty_with_player_one_to_move() {
    let game = Game::new();
    assert!(game.turn());
    assert_eq!(game.player(), 1);
    assert_eq!(game.score(true), INIT);
    assert_eq!(game.score(false), INIT);
    assert_eq!(game.winner(), None);
    assert_eq!(game.board().width(), 3);
    assert_eq!(game.board().height(), 3);
    let line = "| - | - | - |".to_string();
    assert_eq!(game.board().render(), vec![line.clone(), line.clone(), line]);
}

#[test]
fn accepted_move_places_the_mark_and_adds_to_the_score() {
    let mut game = Game::new();
    assert_eq!(game.play(2, 3), Outcome::Continue);
    assert_eq!(game.board().cell(1, 2), Cell::O);
    assert_eq!(game.score(true), 0x11111111 + 0x00101000);
    assert_eq!(game.score(false), INIT);
    assert_eq!(game.play(1, 1), Outcome::Continue);
    assert_eq!(game.board().cell(0, 0), Cell::X);
    assert_eq!(game.score(true), 0x11111111 + 0x00101000);
    assert_eq!(game.score(false), 0x11111111 + 0x10010010);
}

#[test]
fn turn_flips_after_an_accepted_move() {
    let mut game = Game::new();
    assert_eq!(game.play(1, 1), Outcome::Continue);
    assert!(!game.turn());
    assert_eq!(game.player(), 2);
    assert_eq!(game.play(2, 2), Outcome::Continue);
    assert!(game.turn());
    assert_eq!(game.player(), 1);
}

#[test]
fn occupied_cell_is_rejected_and_changes_nothing() {
    let mut game = Game::new();
    assert_eq!(game.play(2, 2), Outcome::Continue);
    let text = game.board().render();
    let one = game.score(true);
    let two = game.score(false);
    assert_eq!(game.play(2, 2), Outcome::Rejected);
    assert!(!game.turn());
    assert_eq!(game.player(), 2);
    assert_eq!(game.score(true), one);
    assert_eq!(game.score(false), two);
    assert_eq!(game.board().render(), text);
    assert_eq!(game.board().cell(1, 1), Cell::O);
    assert_eq!(game.play(2, 2), Outcome::Rejected);
    assert_eq!(game.play(1, 2), Outcome::Continue);
    assert_eq!(game.board().cell(0, 1), Cell::X);
    assert_eq!(game.play(1, 2), Outcome::Rejected);
    assert!(game.turn());
}

#[test]
fn entries_outside_the_grid_are_clamped() {
    let mut game = Game::new();
    assert_eq!(game.play(5, -3), Outcome::Continue);
    assert_eq!(game.board().cell(2, 0), Cell::O);
    assert_eq!(game.play(0, 4), Outcome::Continue);
    assert_eq!(game.board().cell(0, 2), Cell::X);
    assert_eq!(game.play(i8::MAX, i8::MAX), Outcome::Continue);
    assert_eq!(game.board().cell(2, 2), Cell::O);
    assert_eq!(game.play(i8::MIN, i8::MIN), Outcome::Continue);
    assert_eq!(game.board().cell(0, 0), Cell::X);
    assert_eq!(game.play(3, 1), Outcome::Rejected);
    assert_eq!(game.play(100, 0), Outcome::Rejected);
}

#[test]
fn four_moves_with_two_marks_each_leave_the_game_open() {
    let mut game = Game::new();
    assert_eq!(game.play(1, 1), Outcome::Continue);
    assert_eq!(game.play(2, 1), Outcome::Continue);
    assert_eq!(game.play(2, 2), Outcome::Continue);
    assert_eq!(game.play(3, 1), Outcome::Continue);
    assert_eq!(game.winner(), None);
    assert!(game.turn());
    assert_eq!(
        game.board().render(),
        vec!["| o | x | x |".to_string(), "| - | o | - |".to_string(), "| - | - | - |".to_string()]
    );
    assert_eq!(game.score(false), 0x11111111 + 0x10001000 + 0x10000101);
    assert!(!game.board().check(game.score(false)));
}

#[test]
fn player_two_wins_with_the_first_row() {
    let mut game = Game::new();
    assert_eq!(game.play(1, 2), Outcome::Continue);
    assert_eq!(game.play(1, 1), Outcome::Continue);
    assert_eq!(game.play(2, 2), Outcome::Continue);
    assert_eq!(game.play(2, 1), Outcome::Continue);
    assert_eq!(game.play(3, 3), Outcome::Continue);
    assert_eq!(game.winner(), None);
    assert_eq!(game.play(3, 1), Outcome::Won(2));
    assert_eq!(game.winner(), Some(2));
    assert!(!game.turn());
    assert_eq!(game.player(), 2);
    assert_eq!(game.score(false), 0x41122222);
    assert!(game.board().check(game.score(false)));
    assert!(!game.board().check(game.score(true)));
    assert_eq!(
        game.board().render(),
        vec!["| x | x | x |".to_string(), "| o | o | - |".to_string(), "| - | - | o |".to_string()]
    );
}

#[test]
fn player_one_wins_with_a_diagonal() {
    let mut game = Game::new();
    assert_eq!(game.play(1, 1), Outcome::Continue);
    assert_eq!(game.play(2, 1), Outcome::Continue);
    assert_eq!(game.play(2, 2), Outcome::Continue);
    assert_eq!(game.play(3, 1), Outcome::Continue);
    assert_eq!(game.play(3, 3), Outcome::Won(1));
    assert_eq!(game.winner(), Some(1));
    assert!(game.turn());
    assert_eq!(game.score(true), 0x11111111 + 0x10010010 + 0x01001011 + 0x00100110);
}

#[test]
fn every_line_wins_on_its_third_mark_and_not_before() {
    let lines: [[(i8, i8); 3]; 8] = [
        [(1, 1), (2, 1), (3, 1)],
        [(1, 2), (2, 2), (3, 2)],
        [(1, 3), (2, 3), (3, 3)],
        [(1, 1), (1, 2), (1, 3)],
        [(2, 1), (2, 2), (2, 3)],
        [(3, 1), (3, 2), (3, 3)],
        [(1, 1), (2, 2), (3, 3)],
        [(3, 1), (2, 2), (1, 3)],
    ];
    for line in lines {
        let mut others = Vec::new();
        for y in 1..=3i8 {
            for x in 1..=3i8 {
                if !line.contains(&(x, y)) {
                    others.push((x, y));
                }
            }
        }
        let mut game = Game::new();
        assert_eq!(game.play(line[0].0, line[0].1), Outcome::Continue);
        assert_eq!(game.play(others[0].0, others[0].1), Outcome::Continue);
        assert_eq!(game.play(line[1].0, line[1].1), Outcome::Continue);
        assert!(!game.board().check(game.score(true)));
        assert_eq!(game.play(others[3].0, others[3].1), Outcome::Continue);
        assert_eq!(game.play(line[2].0, line[2].1), Outcome::Won(1));
        assert!(game.board().check(game.score(true)));
        assert_eq!(game.winner(), Some(1));
    }
}

#[test]
fn rejected_move_after_a_win_keeps_the_winner() {
    let mut game = Game::new();
    assert_eq!(game.play(1, 1), Outcome::Continue);
    assert_eq!(game.play(1, 2), Outcome::Continue);
    assert_eq!(game.play(2, 1), Outcome::Continue);
    assert_eq!(game.play(2, 2), Outcome::Continue);
    assert_eq!(game.play(3, 1), Outcome::Won(1));
    assert_eq!(game.play(3, 1), Outcome::Rejected);
    assert_eq!(game.winner(), Some(1));
    assert!(game.turn());
}

#[test]
fn full_board_without_a_line_rejects_every_move() {
    let mut game = Game::new();
    let moves: [(i8, i8); 9] =
        [(1, 1), (2, 1), (3, 1), (2, 2), (1, 2), (3, 2), (2, 3), (1, 3), (3, 3)];
    for (x, y) in moves {
        assert_eq!(game.play(x, y), Outcome::Continue);
    }
    assert_eq!(game.winner(), None);
    assert_eq!(
        game.board().render(),
        vec!["| o | x | o |".to_string(), "| o | x | x |".to_string(), "| x | o | o |".to_string()]
    );
    let one = game.score(true);
    let two = game.score(false);
    for y in -1..=5i8 {
        for x in -1..=5i8 {
            assert_eq!(game.play(x, y), Outcome::Rejected);
        }
    }
    assert_eq!(game.score(true), one);
    assert_eq!(game.score(false), two);
    assert!(!game.turn());
    assert_eq!(game.winner(), None);
}
