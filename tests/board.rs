use tic_tac_toe::board::{PLAYER_A, PLAYER_B};
use tic_tac_toe::{check_draw, check_win, Board};

fn play(board: &mut Board, positions: &[u8]) {
    for &p in positions {
        board.change_element(p);
        board.change_player();
    }
}

#[test]
fn fresh_board_every_position_empty() {
    let mut board = Board::default();
    for p in 1..=9u8 {
        assert!(board.check_element_is_empty(p));
    }
    assert_eq!(board.get_current_player(), PLAYER_A);
}

#[test]
fn change_element_marks_only_that_cell() {
    let mut board = Board::default();
    board.change_element(5);
    assert!(!board.check_element_is_empty(5));
    assert_eq!(board.player_symbol(4), "X");
    for p in [1u8, 2, 3, 4, 6, 7, 8, 9] {
        assert!(board.check_element_is_empty(p));
    }
    assert_eq!(board.get_current_player(), PLAYER_A);
}

#[test]
fn change_element_uses_current_player_mark() {
    let mut board = Board::default();
    board.change_player();
    board.change_element(9);
    assert_eq!(board.player_symbol(8), "O");
    assert_eq!(board.player_symbol(0), " ");
}

#[test]
fn change_element_on_occupied_cell_is_no_op() {
    let mut board = Board::default();
    board.change_element(3);
    board.change_player();
    board.change_element(3);
    assert_eq!(board.player_symbol(2), "X");
    assert_eq!(board.get_current_player(), PLAYER_B);
    for i in [0usize, 1, 3, 4, 5, 6, 7, 8] {
        assert_eq!(board.player_symbol(i), " ");
    }
}

#[test]
fn change_player_twice_restores_player() {
    let mut board = Board::default();
    board.change_player();
    assert_eq!(board.get_current_player(), PLAYER_B);
    board.change_player();
    assert_eq!(board.get_current_player(), PLAYER_A);
}

#[test]
fn player_symbol_of_each_cell_state() {
    let mut board = Board::default();
    play(&mut board, &[1, 2]);
    assert_eq!(board.player_symbol(0), "X");
    assert_eq!(board.player_symbol(1), "O");
    assert_eq!(board.player_symbol(2), " ");
}

#[test]
fn top_row_wins_for_first_player_only() {
    let mut board = Board::default();
    play(&mut board, &[1, 4, 2, 5]);
    board.change_element(3);
    assert_eq!(board.get_current_player(), PLAYER_A);
    assert!(check_win(&board));
    board.change_player();
    assert_eq!(board.get_current_player(), PLAYER_B);
    assert!(!check_win(&board));
}

#[test]
fn each_winning_line_is_detected() {
    let lines: [[u8; 3]; 8] = [
        [1, 2, 3],
        [4, 5, 6],
        [7, 8, 9],
        [1, 4, 7],
        [2, 5, 8],
        [3, 6, 9],
        [1, 5, 9],
        [3, 5, 7],
    ];
    for line in lines {
        let mut board = Board::default();
        for p in line {
            board.change_element(p);
        }
        assert!(check_win(&board));
        board.change_player();
        assert!(!check_win(&board));
    }
}

#[test]
fn two_marks_in_a_line_do_not_win() {
    let mut board = Board::default();
    board.change_element(1);
    board.change_element(2);
    board.change_element(5);
    assert!(!check_win(&board));
}

#[test]
fn empty_board_has_no_win_and_no_draw() {
    let board = Board::default();
    assert!(!check_win(&board));
    assert!(!check_draw(&board));
}

#[test]
fn draw_only_when_every_cell_is_filled() {
    let mut board = Board::default();
    play(&mut board, &[1, 2, 3, 5, 4, 6, 8, 7]);
    assert!(!check_draw(&board));
    board.change_element(9);
    assert!(check_draw(&board));
    assert!(!check_win(&board));
}

#[test]
fn draw_on_full_board_even_with_a_line() {
    let mut board = Board::default();
    play(&mut board, &[1, 4, 2, 5, 6, 8, 7, 9]);
    board.change_element(3);
    assert!(check_draw(&board));
    assert!(check_win(&board));
}

#[test]
fn top_row_scenario_wins_on_fifth_move() {
    let mut board = Board::default();
    play(&mut board, &[1, 4, 2, 5]);
    board.change_element(3);
    assert!(check_win(&board));
    assert!(!check_draw(&board));
}

#[test]
fn full_board_scenario_is_a_draw() {
    let mut board = Board::default();
    play(&mut board, &[1, 2, 3, 4, 5, 6, 7, 9]);
    board.change_element(8);
    assert!(check_draw(&board));
    // The first player holds 3, 5 and 7, a diagonal.
    assert!(check_win(&board));
}
