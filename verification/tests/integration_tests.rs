use fallingblocks::game::{BOARD_HEIGHT, BOARD_WIDTH};
use fallingblocks::{input_system, spawn_tetromino, GameSimulation, TetrominoType};

fn new_app() -> GameSimulation {
    let mut app = GameSimulation::new(BOARD_WIDTH, BOARD_HEIGHT);
    spawn_tetromino(&mut app);
    app
}

#[test]
fn test_game_over_state() {
    let mut app = new_app();

    {
        let board = &mut app.board;
        for x in 0..board.width {
            for y in 1..board.height {
                board.cells[x][y] = Some(TetrominoType::I);
            }
        }
    }

    app.game_state.game_over = true;

    let game_state = &app.game_state;
    assert!(game_state.game_over, "Game should be in game over state");
}

#[test]
fn test_pause_resume() {
    let mut app = new_app();

    let has_tetromino = app.active.iter().count() > 0;

    if !has_tetromino {
        spawn_tetromino(&mut app);
    }

    app.paused_for_resize = true;

    let initial_position = app.active.unwrap().position;

    app.input.left = true;

    let screen_shake_active = app.screen_shake_active;
    let is_paused = app.paused_for_resize;

    assert!(is_paused, "Game should be paused");
    assert!(!screen_shake_active, "Screen shake should not be active");

    input_system(&mut app);

    let paused_position = app.active.unwrap().position;

    assert_eq!(initial_position.x, paused_position.x, "Position should not change while paused");

    app.paused_for_resize = false;

    app.input.left = true;

    input_system(&mut app);

    let resumed_position = app.active.unwrap().position;

    assert!(resumed_position.x != initial_position.x, "Position should change after resuming");
}
