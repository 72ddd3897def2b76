use tetris::{
    Color, Command, GameState, KeyCode, KeyEvent, MoveDirection, Rect, SleepPlan, Tetris,
    TetrisBlock, Tick,
};

const RED: Color = Color::Indexed(9);
const GREEN: Color = Color::Indexed(10);
const BLUE: Color = Color::Indexed(12);

fn screen() -> Rect {
    Rect { x: 0, y: 0, width: 80, height: 24 }
}

fn piece(rows: &[&str], color: Color, pos: (i32, i32)) -> TetrisBlock {
    let pattern = rows.iter().map(|row| row.chars().map(|c| c == 'X').collect()).collect();
    TetrisBlock { color, pos, pattern }
}

fn square(color: Color, pos: (i32, i32)) -> TetrisBlock {
    piece(&["XX", "XX"], color, pos)
}

/// A board from rows of text: `.` is empty, `r` red, `g` green, `b` blue.
fn board(rows: &[&str]) -> Vec<Vec<Color>> {
    rows.iter()
        .map(|row| {
            row.chars()
                .map(|c| match c {
                    '.' => Color::Black,
                    'r' => RED,
                    'g' => GREEN,
                    _ => BLUE,
                })
                .collect()
        })
        .collect()
}

fn game(rows: &[&str], current: TetrisBlock, next: TetrisBlock) -> Tetris {
    Tetris::from_parts(screen(), board(rows), current, next).expect("the parts are valid")
}

fn key(code: KeyCode) -> KeyEvent {
    KeyEvent { code, control: false }
}

/// What a finished game must keep: cells, counters, state and both pieces.
fn snapshot(game: &Tetris) -> (Vec<Vec<Color>>, u64, u64, GameState, (i32, i32), Vec<Vec<bool>>, Color) {
    (
        game.filled_area().clone(),
        game.points(),
        game.rounds(),
        game.game_state(),
        game.current_block().pos,
        game.current_block().pattern.clone(),
        game.next_block().color,
    )
}

fn lost_game() -> Tetris {
    // The single cell is blocked at once; the square that follows would cover it.
    let rows = ["....", "r...", "....", "....", "....", "...."];
    let mut game = game(&rows, piece(&["X"], GREEN, (0, 0)), square(BLUE, (0, 0)));
    game.move_forward();
    game
}

#[test]
fn a_square_dropped_on_an_empty_board_lands_at_the_end() {
    let rows = ["....", "....", "....", "...."];
    let mut game = game(&rows, square(RED, (0, 0)), square(BLUE, (0, 0)));
    assert_eq!(game.get_end_move_pos(), (2, 0));
    game.move_till_end();
    assert_eq!(game.filled_area(), &board(&["....", "....", "rr..", "rr.."]));
    assert_eq!(game.rounds(), 1);
    assert_eq!(game.points(), 0);
    assert_eq!(game.game_state(), GameState::Playing);
    assert_eq!(game.current_block().color, BLUE);
    assert_eq!(game.current_block().pos, (0, 0));
}

#[test]
fn a_second_square_locks_atop_the_first() {
    let rows = ["....", "....", "....", "...."];
    let mut game = game(&rows, square(RED, (0, 0)), square(BLUE, (0, 0)));
    game.move_till_end();
    assert_eq!(game.get_end_move_pos(), (0, 0));
    game.move_till_end();
    // The second square lies on the first: no cell of the first was overwritten.
    assert_eq!(game.filled_area(), &board(&["bb..", "bb..", "rr..", "rr.."]));
    assert_eq!(game.rounds(), 2);
    assert_eq!(game.points(), 0);
    // Whatever piece was staged, it has no room at the start of the board.
    assert_eq!(game.game_state(), GameState::Finished);
}

#[test]
fn a_square_as_broad_as_the_board_clears_its_rows() {
    // Here every row that the square reaches is full with it.
    let rows = ["..", "..", "..", ".."];
    assert!(Tetris::from_parts(screen(), board(&rows), square(RED, (0, 0)), square(BLUE, (0, 0))).is_none());
    let rows = ["....", "....", "..gg", "..gg"];
    let mut game = game(&rows, square(RED, (0, 0)), square(BLUE, (0, 0)));
    game.move_till_end();
    assert_eq!(game.filled_area(), &board(&["....", "....", "....", "...."]));
    assert_eq!(game.points(), 100);
    assert_eq!(game.rounds(), 1);
}

#[test]
fn filling_the_last_cell_of_a_row_clears_it() {
    let rows = ["....", "....", "....", "b...", ".b..", "rrr."];
    let mut game = game(&rows, piece(&["X"], GREEN, (0, 3)), square(BLUE, (0, 0)));
    game.move_till_end();
    // The cleared row is the topmost now; every row above it went down by one.
    assert_eq!(game.filled_area(), &board(&["....", "....", "....", "....", "b...", ".b.."]));
    assert_eq!(game.points(), 40);
    assert_eq!(game.rounds(), 1);
    assert_eq!(game.game_state(), GameState::Playing);
    assert_eq!(game.current_block().color, BLUE);
    assert_eq!(game.current_block().pos, (0, 2));
}

#[test]
fn a_cleared_row_in_the_middle_leaves_the_rows_below_alone() {
    let rows = ["....", "g...", "rrr.", "....", ".bb.", "b..b"];
    let mut game = game(&rows, piece(&["X"], GREEN, (0, 3)), square(BLUE, (0, 0)));
    // The cell falls to row 4: the place below it is taken.
    game.move_forward();
    game.move_forward();
    assert_eq!(game.current_block().pos, (2, 3));
    game.finish_round_with(square(RED, (0, 0)));
    assert_eq!(game.filled_area(), &board(&["....", "....", "g...", "....", ".bb.", "b..b"]));
    assert_eq!(game.points(), 40);
}

#[test]
fn a_blocked_spawn_finishes_the_game() {
    let game = lost_game();
    assert_eq!(game.game_state(), GameState::Finished);
    assert_eq!(game.rounds(), 1);
    assert_eq!(game.points(), 0);
    assert_eq!(game.filled_area(), &board(&["g...", "r...", "....", "....", "....", "...."]));
    // The spawn was given up: both pieces are the old ones.
    assert_eq!(game.current_block().color, GREEN);
    assert_eq!(game.current_block().pos, (0, 0));
    assert_eq!(game.next_block().color, BLUE);
}

#[test]
fn a_finished_game_takes_no_more_moves() {
    let mut game = lost_game();
    let before = snapshot(&game);
    game.move_forward();
    assert_eq!(snapshot(&game), before);
    game.move_side(MoveDirection::Up);
    assert_eq!(snapshot(&game), before);
    game.move_side(MoveDirection::Down);
    assert_eq!(snapshot(&game), before);
    game.rotate90();
    assert_eq!(snapshot(&game), before);
    game.move_till_end();
    assert_eq!(snapshot(&game), before);
    game.pause();
    assert_eq!(snapshot(&game), before);
    for command in [
        Command::Rotate,
        Command::MoveForward,
        Command::ShiftUp,
        Command::ShiftDown,
        Command::Drop,
        Command::Pause,
    ] {
        game.apply(command);
        assert_eq!(snapshot(&game), before);
    }
    assert_eq!(game.gravity_tick(), Tick::Stop);
    assert_eq!(snapshot(&game), before);
}

#[test]
fn a_finished_game_can_still_be_left() {
    let mut game = lost_game();
    let before = snapshot(&game);
    game.apply(Command::Quit);
    assert!(game.exit_requested());
    assert_eq!(snapshot(&game), before);
}

#[test]
fn pause_toggles_between_playing_and_paused() {
    let rows = ["....", "....", "....", "...."];
    let mut game = game(&rows, square(RED, (0, 1)), square(BLUE, (0, 0)));
    assert_eq!(game.game_state(), GameState::Playing);
    game.pause();
    assert_eq!(game.game_state(), GameState::Paused);
    assert_eq!(game.current_block().pos, (0, 1));
    game.pause();
    assert_eq!(game.game_state(), GameState::Playing);
    assert_eq!(game.current_block().pos, (0, 1));
    assert_eq!(game.filled_area(), &board(&rows));
}

#[test]
fn a_move_resumes_a_paused_game_and_is_made() {
    let rows = ["....", "....", "....", "....", "....", "...."];
    let mut game = game(&rows, square(RED, (0, 1)), square(BLUE, (0, 0)));
    game.pause();
    game.move_forward();
    assert_eq!(game.game_state(), GameState::Playing);
    assert_eq!(game.current_block().pos, (1, 1));
    game.pause();
    game.move_side(MoveDirection::Up);
    assert_eq!(game.game_state(), GameState::Playing);
    assert_eq!(game.current_block().pos, (1, 2));
    game.pause();
    game.move_side(MoveDirection::Down);
    assert_eq!(game.game_state(), GameState::Playing);
    assert_eq!(game.current_block().pos, (1, 1));
    game.pause();
    game.rotate90();
    assert_eq!(game.game_state(), GameState::Playing);
    game.pause();
    game.move_till_end();
    assert_eq!(game.game_state(), GameState::Playing);
    assert_eq!(game.rounds(), 1);
    assert_eq!(game.filled_area(), &board(&["....", "....", "....", "....", ".rr.", ".rr."]));
}

#[test]
fn a_refused_move_still_resumes_a_paused_game() {
    let rows = ["....", "....", "....", "...."];
    let mut game = game(&rows, square(RED, (0, 0)), square(BLUE, (0, 0)));
    game.pause();
    game.move_side(MoveDirection::Down);
    assert_eq!(game.game_state(), GameState::Playing);
    assert_eq!(game.current_block().pos, (0, 0));
}

#[test]
fn gravity_moves_a_game_that_is_played() {
    let rows = ["....", "....", "....", "....", "....", "...."];
    let mut game = game(&rows, square(RED, (0, 1)), square(BLUE, (0, 0)));
    assert_eq!(game.gravity_tick(), Tick::Redraw);
    assert_eq!(game.current_block().pos, (1, 1));
    for _ in 0..3 {
        assert_eq!(game.gravity_tick(), Tick::Redraw);
    }
    assert_eq!(game.current_block().pos, (4, 1));
    assert_eq!(game.rounds(), 0);
    // At the end of the board gravity locks the piece in.
    assert_eq!(game.gravity_tick(), Tick::Redraw);
    assert_eq!(game.rounds(), 1);
    assert_eq!(game.filled_area(), &board(&["....", "....", "....", "....", ".rr.", ".rr."]));
    assert_eq!(game.current_block().color, BLUE);
}

#[test]
fn gravity_rests_while_the_game_is_paused() {
    let rows = ["....", "....", "....", "...."];
    let mut game = game(&rows, square(RED, (0, 1)), square(BLUE, (0, 0)));
    game.pause();
    assert_eq!(game.gravity_tick(), Tick::Idle);
    assert_eq!(game.gravity_tick(), Tick::Idle);
    assert_eq!(game.game_state(), GameState::Paused);
    assert_eq!(game.current_block().pos, (0, 1));
    assert_eq!(game.rounds(), 0);
}

#[test]
fn gravity_stops_on_a_request_to_leave() {
    let rows = ["....", "....", "....", "...."];
    let mut game = game(&rows, square(RED, (0, 1)), square(BLUE, (0, 0)));
    game.exit();
    assert!(game.exit_requested());
    assert_eq!(game.gravity_tick(), Tick::Stop);
    assert_eq!(game.current_block().pos, (0, 1));
    assert_eq!(game.game_state(), GameState::Playing);
    game.pause();
    assert_eq!(game.gravity_tick(), Tick::Stop);
}

#[test]
fn the_counters_of_a_new_game_have_room_for_every_command() {
    let rows = ["....", "....", "....", "...."];
    let mut game = game(&rows, square(RED, (2, 1)), square(BLUE, (0, 0)));
    assert!(game.has_room());
    for command in [
        Command::Rotate,
        Command::MoveForward,
        Command::ShiftUp,
        Command::ShiftDown,
        Command::Drop,
        Command::Pause,
        Command::Quit,
    ] {
        assert!(game.can_take(command));
    }
    assert!(game.can_tick());
    game.pause();
    assert!(game.can_tick());
    let lost = lost_game();
    assert!(lost.can_take(Command::Drop));
    assert!(lost.can_tick());
}

#[test]
fn gravity_sleeps_in_one_slice_of_a_tenth_of_a_second() {
    let game = Tetris::new(screen());
    assert_eq!(game.sleep_plan(), SleepPlan { parts: 1, slice_nanos: 100_000_000 });
}

#[test]
fn a_drawn_frame_flips_the_cursor_switch() {
    let mut game = Tetris::new(screen());
    game.begin_frame(true);
    assert!(game.cursor_state());
    assert_eq!(game.game_state(), GameState::Playing);
    game.begin_frame(true);
    assert!(!game.cursor_state());
    game.pause();
    game.begin_frame(true);
    assert!(game.cursor_state());
    assert_eq!(game.game_state(), GameState::Paused);
}

#[test]
fn a_screen_too_small_pauses_the_game() {
    let mut game = Tetris::new(screen());
    game.begin_frame(false);
    assert_eq!(game.game_state(), GameState::Paused);
    assert!(!game.cursor_state());
    game.begin_frame(false);
    assert_eq!(game.game_state(), GameState::Paused);
    let mut game = lost_game();
    game.begin_frame(false);
    assert_eq!(game.game_state(), GameState::Finished);
}

#[test]
fn key_presses_carry_out_their_commands() {
    let rows = ["......", "......", "......", "......", "......", "......"];
    let mut game = game(&rows, piece(&["XXX", "OXO"], RED, (0, 2)), square(BLUE, (0, 0)));
    game.handle_key_event(key(KeyCode::Right));
    assert_eq!(game.current_block().pos, (1, 2));
    game.handle_key_event(key(KeyCode::Char('d')));
    assert_eq!(game.current_block().pos, (2, 2));
    game.handle_key_event(key(KeyCode::Up));
    assert_eq!(game.current_block().pos, (2, 3));
    game.handle_key_event(key(KeyCode::Char('w')));
    assert_eq!(game.current_block().pos, (2, 3));
    game.handle_key_event(key(KeyCode::Down));
    game.handle_key_event(key(KeyCode::Char('s')));
    assert_eq!(game.current_block().pos, (2, 1));
    game.handle_key_event(key(KeyCode::Left));
    assert_eq!(game.current_block().pattern.len(), 3);
    game.handle_key_event(key(KeyCode::Char('a')));
    assert_eq!(game.current_block().pattern.len(), 2);
    game.handle_key_event(key(KeyCode::Char('p')));
    assert_eq!(game.game_state(), GameState::Paused);
    game.handle_key_event(key(KeyCode::Char('p')));
    assert_eq!(game.game_state(), GameState::Playing);
    game.handle_key_event(key(KeyCode::Char(' ')));
    assert_eq!(game.rounds(), 1);
    assert!(!game.exit_requested());
    game.handle_key_event(KeyEvent { code: KeyCode::Char('c'), control: true });
    assert!(game.exit_requested());
}

#[test]
fn unbound_key_presses_change_nothing() {
    let rows = ["....", "....", "....", "...."];
    let mut game = game(&rows, square(RED, (0, 1)), square(BLUE, (0, 0)));
    game.pause();
    let before = snapshot(&game);
    game.handle_key_event(key(KeyCode::Char('c')));
    game.handle_key_event(key(KeyCode::Char('x')));
    game.handle_key_event(key(KeyCode::Other));
    assert_eq!(snapshot(&game), before);
    assert!(!game.exit_requested());
}

#[test]
fn counters_never_go_down() {
    let mut game = Tetris::new(screen());
    let mut points = 0;
    let mut rounds = 0;
    let commands = [
        Command::Drop,
        Command::ShiftUp,
        Command::Rotate,
        Command::MoveForward,
        Command::Drop,
        Command::ShiftDown,
        Command::Pause,
        Command::MoveForward,
    ];
    for step in 0..400 {
        assert!(game.has_room());
        game.apply(commands[step % commands.len()]);
        assert!(game.points() >= points);
        assert!(game.rounds() >= rounds);
        assert!(game.rounds() <= rounds + 1);
        points = game.points();
        rounds = game.rounds();
        assert!(game.current_block().is_well_formed());
        assert_eq!(game.filled_area().len(), 78);
    }
    assert!(rounds > 0);
}
