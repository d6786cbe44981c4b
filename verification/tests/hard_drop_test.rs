use fallingblocks::{
    game_tick_system, input_system, spawn_tetromino, GameEvent, GameSimulation, Position,
    TetrominoType,
};

#[test]
fn test_hard_drop() {
    let mut world = GameSimulation::new(10, 20);

    world.input.hard_drop_released = true;

    spawn_tetromino(&mut world);

    let has_tetromino = world.active.is_some();
    assert!(has_tetromino, "Tetromino should be spawned");

    let initial_position = world.active.unwrap().position;

    game_tick_system(&mut world, 16_000);

    let ghost_position = world.active.unwrap().ghost_piece.position;

    assert_eq!(
        ghost_position.x, initial_position.x,
        "Ghost X position should match tetromino X position"
    );
    assert!(ghost_position.y > initial_position.y, "Ghost Y position should be lower than tetromino");

    world.input.hard_drop = true;

    input_system(&mut world);

    let has_new_tetromino = world.active.is_some();
    assert!(has_new_tetromino, "A new tetromino should be spawned after hard drop");

    let board = &world.board;
    let has_blocks =
        (0..board.width).any(|x| (0..board.height).any(|y| board.cells[x][y].is_some()));
    assert!(has_blocks, "Board should have blocks after hard drop");

    let game_state = &world.game_state;
    assert!(game_state.hard_drop_distance > 0, "Hard drop distance should be recorded");
}

#[test]
fn test_ghost_position_update() {
    let mut world = GameSimulation::new(10, 20);

    spawn_tetromino(&mut world);

    game_tick_system(&mut world, 16_000);

    let (tetromino_pos, ghost_pos) = {
        let piece = world.active.unwrap();
        (piece.position, piece.ghost_piece.position)
    };

    assert_eq!(ghost_pos.x, tetromino_pos.x, "Ghost X position should match tetromino X position");
    assert!(ghost_pos.y > tetromino_pos.y, "Ghost Y position should be lower than tetromino");

    {
        let piece = world.active.as_mut().unwrap();
        piece.position = Position { x: tetromino_pos.x + 1, y: tetromino_pos.y };
    }

    game_tick_system(&mut world, 16_000);

    let (updated_tetromino_pos, updated_ghost_pos) = {
        let piece = world.active.unwrap();
        (piece.position, piece.ghost_piece.position)
    };

    assert_eq!(
        updated_ghost_pos.x, updated_tetromino_pos.x,
        "Ghost X should move with tetromino X"
    );
    assert!(
        updated_ghost_pos.y > updated_tetromino_pos.y,
        "Ghost Y position should still be lower than tetromino"
    );
}

#[test]
fn hard_drop_of_an_i_piece_on_an_empty_board() {
    let mut world = GameSimulation::new(10, 20);
    world.place_piece(TetrominoType::I, TetrominoType::O);
    assert_eq!(world.active.unwrap().position, Position { x: 5, y: 0 });

    world.input.hard_drop = true;
    let report = input_system(&mut world);

    for y in 0..20 {
        for x in 0..10 {
            let expected = if x == 5 && y >= 16 { Some(TetrominoType::I) } else { None };
            assert_eq!(world.board.cells[x][y], expected, "cell ({}, {})", x, y);
        }
    }
    assert_eq!(world.game_state.hard_drop_distance, 16);
    assert_eq!(world.game_state.lines_cleared, 0);
    assert!(report.cleared_rows.is_empty());
    assert_eq!(world.game_state.score, 0);
    assert_eq!(
        report.events,
        vec![
            GameEvent::Lock {
                position: Position { x: 5, y: 16 },
                tetromino: fallingblocks::Tetromino::new(TetrominoType::I),
            },
            GameEvent::HardDrop { distance: 16 },
        ]
    );
    assert!(report.needs_spawn);
    assert_eq!(world.active.unwrap().tetromino.tetromino_type, TetrominoType::O);

    // The distance is paid out, two points a row, with the next clear that scores.
    world.game_state.update_score(1, false, false);
    assert_eq!(world.game_state.score, 40 + 32);
    assert_eq!(world.game_state.hard_drop_distance, 0);
}

#[test]
fn the_ghost_rests_on_the_stack() {
    let mut world = GameSimulation::new(10, 20);
    world.board.cells[5][10] = Some(TetrominoType::Z);
    world.place_piece(TetrominoType::I, TetrominoType::O);
    game_tick_system(&mut world, 1);
    assert_eq!(world.active.unwrap().ghost_piece.position, Position { x: 5, y: 6 });
    assert_eq!(world.drop_distance(Position { x: 5, y: 0 }, &world.active.unwrap().tetromino), 6);
    assert_eq!(world.drop_distance(Position { x: 4, y: 0 }, &world.active.unwrap().tetromino), 16);
}

#[test]
fn hard_drop_of_a_resting_piece_locks_it_in_place() {
    let mut world = GameSimulation::new(10, 20);
    world.place_piece(TetrominoType::O, TetrominoType::I);
    world.active.as_mut().unwrap().position = Position { x: 0, y: 18 };
    world.input.hard_drop = true;
    let report = input_system(&mut world);
    assert_eq!(world.board.cells[0][18], Some(TetrominoType::O));
    assert_eq!(world.board.cells[1][19], Some(TetrominoType::O));
    assert_eq!(world.game_state.hard_drop_distance, 0);
    assert_eq!(report.events.len(), 2);
    assert_eq!(report.events[1], GameEvent::HardDrop { distance: 0 });
}

#[test]
fn hard_drop_that_completes_a_line_clears_and_scores_it() {
    let mut world = GameSimulation::new(10, 20);
    for x in 0..10 {
        if x != 5 {
            world.board.cells[x][19] = Some(TetrominoType::I);
        }
    }
    world.place_piece(TetrominoType::I, TetrominoType::O);
    world.input.hard_drop = true;
    let report = input_system(&mut world);

    assert_eq!(report.cleared_rows, vec![19]);
    assert_eq!(
        report.events,
        vec![
            GameEvent::Lock {
                position: Position { x: 5, y: 16 },
                tetromino: fallingblocks::Tetromino::new(TetrominoType::I),
            },
            GameEvent::LineClear { board_width: 10, lines: 1, is_t_spin: false },
            GameEvent::HardDrop { distance: 16 },
        ]
    );
    for y in 0..20 {
        for x in 0..10 {
            let expected = if x == 5 && y >= 17 { Some(TetrominoType::I) } else { None };
            assert_eq!(world.board.cells[x][y], expected, "cell ({}, {})", x, y);
        }
    }
    assert_eq!(world.game_state.lines_cleared, 1);
    assert_eq!(world.game_state.score, 72);
    assert_eq!(world.game_state.hard_drop_distance, 0);
    assert_eq!(world.game_state.combo_count, 1);
    assert_eq!(world.active.unwrap().tetromino.tetromino_type, TetrominoType::O);
}

#[test]
fn hard_drop_without_a_line_resets_the_combo() {
    let mut world = GameSimulation::new(10, 20);
    world.place_piece(TetrominoType::O, TetrominoType::I);
    world.game_state.combo_count = 4;
    world.game_state.score = 300;
    let report = world.hard_drop();
    assert!(report.needs_spawn);
    assert!(report.cleared_rows.is_empty());
    assert!(world.active.is_none());
    assert_eq!(world.game_state.combo_count, 0);
    assert_eq!(world.game_state.score, 300);
    assert_eq!(world.game_state.hard_drop_distance, 18);
}
