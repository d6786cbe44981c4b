use fallingblocks::game::{BOARD_HEIGHT, BOARD_WIDTH};
use fallingblocks::{
    game_tick_system, input_system, spawn_tetromino, GameSimulation, Position, TetrominoType,
};

fn setup_test_world() -> GameSimulation {
    let mut world = GameSimulation::new(BOARD_WIDTH, BOARD_HEIGHT);
    world.board.clear();
    world
}

#[test]
fn test_spawn_tetromino() {
    let mut world = setup_test_world();

    spawn_tetromino(&mut world);

    let tetromino_count = world.active.iter().count();

    assert_eq!(tetromino_count, 1);

    let position_count = world.active.iter().map(|piece| piece.position).count();

    assert_eq!(position_count, 1);
}

#[test]
fn test_input_system() {
    let mut world = setup_test_world();

    spawn_tetromino(&mut world);

    let initial_position = world.active.unwrap().position;

    world.input.left = true;

    input_system(&mut world);

    let new_position = world.active.unwrap().position;

    assert_eq!(new_position.x, initial_position.x - 1);
    assert_eq!(new_position.y, initial_position.y);
}

#[test]
fn test_rotation_system() {
    let mut world = setup_test_world();

    // A shape that fits in its next rotation state at the top of the board.
    world.next_tetromino = Some(TetrominoType::T);
    spawn_tetromino(&mut world);

    let initial_rotation = world.active.unwrap().tetromino.rotation;

    world.input.rotate = true;

    input_system(&mut world);

    let new_rotation = world.active.unwrap().tetromino.rotation;

    assert_ne!(new_rotation, initial_rotation);
}

#[test]
fn spawn_puts_the_queued_shape_at_the_top_centre() {
    let mut world = setup_test_world();
    world.next_tetromino = Some(TetrominoType::S);
    world.input.left = true;
    world.input.hard_drop_released = true;

    spawn_tetromino(&mut world);

    let piece = world.active.unwrap();
    assert_eq!(piece.tetromino.tetromino_type, TetrominoType::S);
    assert_eq!(piece.tetromino.rotation, 0);
    assert_eq!(piece.position, Position { x: 5, y: 0 });
    assert_eq!(piece.ghost_piece.position, Position { x: 5, y: 0 });
    assert!(world.next_tetromino.is_some());
    assert!(!world.input.left);
    assert!(world.input.hard_drop_released);
    assert!(!world.game_state.game_over);
}

#[test]
fn place_piece_fills_the_queue_with_the_given_shape() {
    let mut world = setup_test_world();
    world.place_piece(TetrominoType::Z, TetrominoType::O);
    assert_eq!(world.active.unwrap().tetromino.tetromino_type, TetrominoType::Z);
    assert_eq!(world.next_tetromino, Some(TetrominoType::O));
    world.place_piece(TetrominoType::L, TetrominoType::I);
    assert_eq!(world.active.unwrap().tetromino.tetromino_type, TetrominoType::L);
    assert_eq!(world.next_tetromino, Some(TetrominoType::I));
}

#[test]
fn spawn_on_a_blocked_cell_ends_the_game() {
    let mut world = setup_test_world();
    world.board.cells[5][1] = Some(TetrominoType::J);
    world.next_tetromino = Some(TetrominoType::I);

    spawn_tetromino(&mut world);

    assert!(world.game_state.game_over);
    assert!(world.active.is_none());
    assert!(world.next_tetromino.is_some());
}

#[test]
fn nothing_moves_once_the_game_is_over() {
    let mut world = setup_test_world();
    world.place_piece(TetrominoType::I, TetrominoType::O);
    world.game_state.game_over = true;
    let before = world.active;
    let report = game_tick_system(&mut world, 10_000_000);
    assert_eq!(world.active, before);
    assert!(report.events.is_empty());
    assert_eq!(world.drop_timer, 0);
}

#[test]
fn a_tick_without_a_piece_spawns_one_when_the_drop_is_due() {
    let mut world = setup_test_world();
    let report = game_tick_system(&mut world, 800_000);
    assert!(report.needs_spawn);
    assert!(world.active.is_some());
    assert_eq!(world.drop_timer, 0);
}

#[test]
fn gravity_takes_the_piece_down_when_the_delay_has_passed() {
    let mut world = setup_test_world();
    world.place_piece(TetrominoType::O, TetrominoType::I);
    let report = game_tick_system(&mut world, 799_999);
    assert!(report.events.is_empty());
    assert_eq!(world.active.unwrap().position, Position { x: 5, y: 0 });
    assert_eq!(world.drop_timer, 799_999);
    game_tick_system(&mut world, 1);
    assert_eq!(world.active.unwrap().position, Position { x: 5, y: 1 });
    assert_eq!(world.drop_timer, 0);
}

#[test]
fn input_is_ignored_while_the_screen_shakes() {
    let mut world = setup_test_world();
    world.place_piece(TetrominoType::O, TetrominoType::I);
    world.screen_shake_active = true;
    world.input.right = true;
    world.input.hard_drop = true;
    let report = input_system(&mut world);
    assert!(report.events.is_empty());
    assert_eq!(world.active.unwrap().position, Position { x: 5, y: 0 });
}

#[test]
fn left_wins_over_right() {
    let mut world = setup_test_world();
    world.place_piece(TetrominoType::O, TetrominoType::I);
    world.input.left = true;
    world.input.right = true;
    input_system(&mut world);
    assert_eq!(world.active.unwrap().position, Position { x: 4, y: 0 });
    assert_eq!(world.active.unwrap().ghost_piece.position.x, 4);
}

#[test]
fn a_move_into_the_wall_changes_nothing() {
    let mut world = setup_test_world();
    world.place_piece(TetrominoType::I, TetrominoType::O);
    for _ in 0..5 {
        world.input.left = true;
        input_system(&mut world);
    }
    assert_eq!(world.active.unwrap().position, Position { x: 0, y: 0 });
    world.input.left = true;
    let report = input_system(&mut world);
    assert_eq!(world.active.unwrap().position, Position { x: 0, y: 0 });
    assert!(report.events.is_empty());
}

#[test]
fn move_soft_drop_and_rotate_apply_one_after_the_other() {
    let mut world = setup_test_world();
    world.place_piece(TetrominoType::T, TetrominoType::O);
    world.input.right = true;
    world.input.down = true;
    world.input.rotate = true;
    let report = input_system(&mut world);
    let piece = world.active.unwrap();
    assert_eq!(piece.position, Position { x: 6, y: 1 });
    assert_eq!(piece.tetromino.rotation, 1);
    assert_eq!(world.game_state.soft_drop_distance, 1);
    assert_eq!(report.events.len(), 1);
    assert!(!report.needs_spawn);
}

#[test]
fn reset_starts_the_game_over_on_the_same_board() {
    let mut world = GameSimulation::new(6, 9);
    world.place_piece(TetrominoType::O, TetrominoType::I);
    world.board.cells[0][8] = Some(TetrominoType::L);
    world.game_state.score = 500;
    world.game_state.game_over = true;
    world.drop_timer = 9;
    world.input.down = true;
    world.screen_shake_active = true;

    world.reset();

    assert_eq!(world.board.width, 6);
    assert_eq!(world.board.height, 9);
    assert!(world.board.cells.iter().flatten().all(|cell| cell.is_none()));
    assert_eq!(world.game_state, fallingblocks::GameState::default());
    assert!(world.active.is_none());
    assert!(world.next_tetromino.is_none());
    assert_eq!(world.drop_timer, 0);
    assert!(!world.input.down);
    assert!(!world.screen_shake_active);
}

#[test]
fn checked_steps_refuse_a_state_without_room() {
    let mut world = setup_test_world();
    world.place_piece(TetrominoType::O, TetrominoType::I);
    world.game_state.hard_drop_distance = u32::MAX;
    world.input.left = true;
    let before = world.clone();
    assert!(fallingblocks::checked_input_system(&mut world).is_none());
    assert!(fallingblocks::checked_game_tick_system(&mut world, 900_000).is_none());
    assert_eq!(world.active, before.active);
    assert_eq!(world.game_state, before.game_state);
    assert_eq!(world.drop_timer, before.drop_timer);
    assert_eq!(world.input, before.input);

    world.game_state.hard_drop_distance = 0;
    let report = fallingblocks::checked_input_system(&mut world).unwrap();
    assert!(report.events.is_empty());
    assert_eq!(world.active.unwrap().position, Position { x: 4, y: 0 });
    let report = fallingblocks::checked_game_tick_system(&mut world, 900_000).unwrap();
    assert!(report.events.is_empty());
    assert_eq!(world.active.unwrap().position, Position { x: 4, y: 1 });
}
