use fallingblocks::{
    game_tick_system, input_system, CoyoteTime, GameEvent, GameSimulation, Position, Tetromino,
    TetrominoType,
};

fn resting_o_piece() -> GameSimulation {
    let mut sim = GameSimulation::new(10, 20);
    sim.place_piece(TetrominoType::O, TetrominoType::I);
    sim.active.as_mut().unwrap().position = Position { x: 4, y: 18 };
    sim
}

#[test]
fn a_blocked_piece_enters_grace_and_locks_after_the_period() {
    let mut sim = resting_o_piece();
    let piece = Tetromino::new(TetrominoType::O);
    let position = Position { x: 4, y: 18 };

    let report = game_tick_system(&mut sim, 800_000);
    assert_eq!(report.events, vec![GameEvent::CoyoteEnter { position, tetromino: piece }]);
    assert_eq!(sim.coyote_time, CoyoteTime { active: true, timer: 0 });
    assert_eq!(sim.active.unwrap().position, position);
    assert_eq!(sim.drop_timer, 0);

    for elapsed in [16_000u64, 32_000, 48_000] {
        let report = game_tick_system(&mut sim, 16_000);
        assert!(report.events.is_empty());
        assert_eq!(sim.coyote_time, CoyoteTime { active: true, timer: elapsed });
        assert_eq!(sim.active.unwrap().position, position);
        assert_eq!(sim.drop_timer, 0);
        assert!(sim.board.cells[4][18].is_none());
    }

    let report = game_tick_system(&mut sim, 16_000);
    assert_eq!(report.events, vec![GameEvent::Lock { position, tetromino: piece }]);
    assert!(report.needs_spawn);
    assert_eq!(sim.coyote_time, CoyoteTime { active: false, timer: 0 });
    for (x, y) in [(4usize, 18usize), (5, 18), (4, 19), (5, 19)] {
        assert_eq!(sim.board.cells[x][y], Some(TetrominoType::O));
    }
    let next = sim.active.unwrap();
    assert_eq!(next.tetromino.tetromino_type, TetrominoType::I);
    assert_eq!(next.position, Position { x: 5, y: 0 });
}

#[test]
fn grace_ends_exactly_at_its_length() {
    let mut sim = resting_o_piece();
    sim.coyote_time = CoyoteTime { active: true, timer: 0 };
    game_tick_system(&mut sim, 49_999);
    assert!(sim.coyote_time.active);
    assert!(sim.board.cells[4][18].is_none());

    let mut sim = resting_o_piece();
    sim.coyote_time = CoyoteTime { active: true, timer: 0 };
    game_tick_system(&mut sim, 50_000);
    assert!(!sim.coyote_time.active);
    assert!(sim.board.cells[4][18].is_some());
}

#[test]
fn the_drop_timer_rests_while_grace_runs() {
    let mut sim = resting_o_piece();
    sim.drop_timer = 123;
    sim.coyote_time = CoyoteTime { active: true, timer: 10 };
    game_tick_system(&mut sim, 1_000);
    assert_eq!(sim.drop_timer, 123);
    assert_eq!(sim.coyote_time.timer, 1_010);
}

#[test]
fn a_piece_that_can_fall_after_grace_goes_down_instead_of_locking() {
    let mut sim = GameSimulation::new(10, 20);
    sim.board.cells[4][10] = Some(TetrominoType::J);
    sim.place_piece(TetrominoType::O, TetrominoType::I);
    sim.active.as_mut().unwrap().position = Position { x: 4, y: 8 };
    game_tick_system(&mut sim, 800_000);
    assert!(sim.coyote_time.active);

    sim.input.right = true;
    sim.input.hard_drop = false;
    let report = input_system(&mut sim);
    assert_eq!(sim.active.unwrap().position, Position { x: 5, y: 8 });
    assert!(report.events.is_empty());

    sim.drop_timer = 77;
    let report = game_tick_system(&mut sim, 50_000);
    assert!(report.events.is_empty());
    assert!(!report.needs_spawn);
    assert_eq!(sim.active.unwrap().position, Position { x: 5, y: 9 });
    assert_eq!(sim.drop_timer, 0);
    assert_eq!(sim.coyote_time, CoyoteTime { active: false, timer: 0 });
}

#[test]
fn a_move_during_grace_fires_the_hook_while_the_piece_stays_blocked() {
    let mut sim = resting_o_piece();
    game_tick_system(&mut sim, 800_000);
    sim.input.left = true;
    let report = input_system(&mut sim);
    let position = Position { x: 3, y: 18 };
    assert_eq!(sim.active.unwrap().position, position);
    assert_eq!(
        report.events,
        vec![GameEvent::CoyoteEnter { position, tetromino: Tetromino::new(TetrominoType::O) }]
    );
}

#[test]
fn a_rotation_during_grace_fires_both_hooks() {
    let mut sim = GameSimulation::new(10, 20);
    sim.place_piece(TetrominoType::T, TetrominoType::I);
    sim.active.as_mut().unwrap().position = Position { x: 4, y: 17 };
    game_tick_system(&mut sim, 800_000);
    assert!(sim.coyote_time.active);
    sim.input.rotate = true;
    let report = input_system(&mut sim);
    let turned = Tetromino { tetromino_type: TetrominoType::T, rotation: 1 };
    let position = Position { x: 4, y: 17 };
    assert_eq!(sim.active.unwrap().tetromino, turned);
    // (0,0), (-1,0), (-2,0), (-1,1): the turned piece can fall again
    assert_eq!(report.events, vec![GameEvent::Rotate { position, tetromino: turned }]);

    sim.active.as_mut().unwrap().tetromino.rotation = 3;
    sim.input.rotate = true;
    let report = input_system(&mut sim);
    let turned = Tetromino { tetromino_type: TetrominoType::T, rotation: 0 };
    // (0,0), (0,1), (0,2), (1,1): the piece stands on the floor
    assert_eq!(sim.active.unwrap().tetromino, turned);
    assert_eq!(
        report.events,
        vec![
            GameEvent::Rotate { position, tetromino: turned },
            GameEvent::CoyoteEnter { position, tetromino: turned },
        ]
    );
}

#[test]
fn a_rotation_that_does_not_fit_leaves_the_rotation() {
    let mut sim = GameSimulation::new(10, 20);
    sim.place_piece(TetrominoType::J, TetrominoType::I);
    // turned once, a J reaches one row above its origin
    sim.input.rotate = true;
    let report = input_system(&mut sim);
    assert_eq!(sim.active.unwrap().tetromino.rotation, 0);
    assert_eq!(sim.active.unwrap().position, Position { x: 5, y: 0 });
    assert!(report.events.is_empty());

    let report = sim.rotate();
    assert_eq!(sim.active.unwrap().tetromino.rotation, 0);
    assert!(report.events.is_empty());
}

#[test]
fn soft_drop_goes_down_counts_and_ends_grace() {
    let mut sim = GameSimulation::new(10, 20);
    sim.place_piece(TetrominoType::O, TetrominoType::I);
    sim.drop_timer = 500;
    sim.coyote_time = CoyoteTime { active: true, timer: 20 };
    sim.input.down = true;
    let report = input_system(&mut sim);
    assert!(report.events.is_empty());
    assert_eq!(sim.active.unwrap().position, Position { x: 5, y: 1 });
    assert_eq!(sim.game_state.soft_drop_distance, 1);
    assert_eq!(sim.drop_timer, 0);
    assert_eq!(sim.coyote_time, CoyoteTime { active: false, timer: 0 });
}

#[test]
fn soft_drop_of_a_resting_piece_locks_at_once() {
    let mut sim = resting_o_piece();
    sim.input.down = true;
    sim.input.rotate = true;
    let report = input_system(&mut sim);
    assert!(report.needs_spawn);
    assert_eq!(
        report.events,
        vec![GameEvent::Lock {
            position: Position { x: 4, y: 18 },
            tetromino: Tetromino::new(TetrominoType::O),
        }]
    );
    assert_eq!(sim.board.cells[4][18], Some(TetrominoType::O));
    assert!(!sim.coyote_time.active);
    let next = sim.active.unwrap();
    assert_eq!(next.tetromino.rotation, 0);
    assert_eq!(next.position, Position { x: 5, y: 0 });
}

#[test]
fn a_lock_that_completes_a_line_scores_it() {
    let mut sim = GameSimulation::new(10, 20);
    for x in 0..10 {
        if x != 4 && x != 5 {
            sim.board.cells[x][19] = Some(TetrominoType::J);
            sim.board.cells[x][18] = Some(TetrominoType::J);
        }
    }
    sim.board.cells[0][18] = None;
    sim.place_piece(TetrominoType::O, TetrominoType::I);
    sim.active.as_mut().unwrap().position = Position { x: 4, y: 18 };
    sim.game_state.soft_drop_distance = 5;

    let report = sim.lock_piece(Position { x: 4, y: 18 }, &Tetromino::new(TetrominoType::O));

    assert_eq!(report.cleared_rows, vec![19]);
    assert_eq!(
        report.events,
        vec![
            GameEvent::Lock {
                position: Position { x: 4, y: 18 },
                tetromino: Tetromino::new(TetrominoType::O),
            },
            GameEvent::LineClear { board_width: 10, lines: 1, is_t_spin: false },
        ]
    );
    assert!(report.needs_spawn);
    assert!(sim.active.is_none());
    assert_eq!(sim.game_state.score, 40 + 5);
    assert_eq!(sim.game_state.lines_cleared, 1);
    assert_eq!(sim.game_state.combo_count, 1);
    assert_eq!(sim.board.cells[0][19], None);
    assert_eq!(sim.board.cells[1][19], Some(TetrominoType::J));
    assert_eq!(sim.board.cells[4][19], Some(TetrominoType::O));
}

#[test]
fn a_lock_that_empties_the_board_is_a_perfect_clear() {
    let mut sim = GameSimulation::new(4, 6);
    for x in 0..3 {
        sim.board.cells[x][5] = Some(TetrominoType::J);
    }
    // Only the first cell of an I piece at the bottom row lies on the board.
    let piece = Tetromino::new(TetrominoType::I);
    let report = sim.lock_piece(Position { x: 3, y: 5 }, &piece);
    assert_eq!(report.cleared_rows, vec![5]);
    assert_eq!(
        report.events,
        vec![
            GameEvent::Lock { position: Position { x: 3, y: 5 }, tetromino: piece },
            GameEvent::LineClear { board_width: 4, lines: 1, is_t_spin: false },
            GameEvent::PerfectClear { width: 4, height: 6 },
        ]
    );
    assert_eq!(sim.game_state.score, 40 + 3000);
    assert_eq!(sim.game_state.perfect_clear_count, 1);
}

#[test]
fn a_lock_without_a_line_resets_the_combo() {
    let mut sim = resting_o_piece();
    sim.game_state.combo_count = 3;
    sim.game_state.hard_drop_distance = 9;
    let report = sim.lock_piece(Position { x: 4, y: 18 }, &Tetromino::new(TetrominoType::O));
    assert!(report.cleared_rows.is_empty());
    assert_eq!(sim.game_state.combo_count, 0);
    assert_eq!(sim.game_state.score, 0);
    assert_eq!(sim.game_state.hard_drop_distance, 9);
}

fn board_for_a_t_spin(corner_filled: bool) -> GameSimulation {
    let mut sim = GameSimulation::new(10, 20);
    for x in 0..10 {
        if x != 3 {
            sim.board.cells[x][19] = Some(TetrominoType::J);
        }
    }
    if corner_filled {
        sim.board.cells[6][18] = Some(TetrominoType::L);
    }
    sim
}

#[test]
fn a_t_spin_that_clears_a_line_is_reported_and_scored() {
    // Turned once, a T at (4, 18) covers (4,18), (3,18), (2,18), (3,19). The
    // corners around (5, 19) are (4,18), (6,18), (4,20) and (6,20); the last
    // two lie below the board.
    let piece = Tetromino { tetromino_type: TetrominoType::T, rotation: 1 };
    let position = Position { x: 4, y: 18 };

    let mut sim = board_for_a_t_spin(false);
    assert!(sim.board.is_valid_position(position, &piece));
    assert!(!fallingblocks::GameState::is_t_spin(&sim.board, position, &piece));
    let report = sim.lock_piece(position, &piece);
    assert_eq!(report.cleared_rows, vec![19]);
    assert_eq!(
        report.events,
        vec![
            GameEvent::Lock { position, tetromino: piece },
            GameEvent::LineClear { board_width: 10, lines: 1, is_t_spin: false },
        ]
    );
    assert_eq!(sim.game_state.score, 40);
    assert_eq!(sim.game_state.t_spin_count, 0);
    assert!(!sim.game_state.back_to_back);

    let mut sim = board_for_a_t_spin(true);
    assert!(sim.board.is_valid_position(position, &piece));
    assert!(fallingblocks::GameState::is_t_spin(&sim.board, position, &piece));
    let report = sim.lock_piece(position, &piece);
    assert_eq!(report.cleared_rows, vec![19]);
    assert_eq!(
        report.events,
        vec![
            GameEvent::Lock { position, tetromino: piece },
            GameEvent::LineClear { board_width: 10, lines: 1, is_t_spin: true },
        ]
    );
    assert_eq!(sim.game_state.score, 800);
    assert_eq!(sim.game_state.t_spin_count, 1);
    assert!(sim.game_state.back_to_back);
}
