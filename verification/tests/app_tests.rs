use fallingblocks::game::{BOARD_HEIGHT, BOARD_WIDTH};
use fallingblocks::{
    spawn_tetromino, ActivePiece, GameSimulation, GhostPiece, Position, Tetromino, TetrominoType,
};

fn new_app() -> GameSimulation {
    let mut app = GameSimulation::new(BOARD_WIDTH, BOARD_HEIGHT);
    spawn_tetromino(&mut app);
    app
}

#[test]
fn app_tests_test_board_dimensions() {
    let app = new_app();
    let board = &app.board;

    assert_eq!(board.width, BOARD_WIDTH);
    assert_eq!(board.height, BOARD_HEIGHT);

    for x in 0..board.width {
        for y in 0..board.height {
            assert_eq!(board.cells[x][y], None);
        }
    }
}

#[test]
fn test_get_render_blocks() {
    let mut app = new_app();

    let initial_blocks = app.get_render_blocks();
    assert!(!initial_blocks.is_empty(), "Should have initial tetromino blocks");

    let tetromino = Tetromino::new(TetrominoType::I);
    let position = Position { x: 5, y: 5 };
    app.active = Some(ActivePiece { tetromino, position, ghost_piece: GhostPiece { position } });

    app.board.cells[2][3] = Some(TetrominoType::O);

    let blocks = app.get_render_blocks();

    assert!(blocks.len() >= 5, "Should have board block + tetromino blocks");

    app.active = None;
}

#[test]
fn test_game_state_resource() {
    let app = new_app();
    let game_state = &app.game_state;

    assert_eq!(game_state.score, 0);
    assert_eq!(game_state.level, 1);
    assert_eq!(game_state.lines_cleared, 0);
    assert_eq!(game_state.game_over, false);
    assert_eq!(game_state.tetris_count, 0);
    assert_eq!(game_state.t_spin_count, 0);
    assert_eq!(game_state.perfect_clear_count, 0);
    assert_eq!(game_state.combo_count, 0);
    assert_eq!(game_state.back_to_back, false);
}

#[test]
fn render_blocks_list_the_board_then_the_piece() {
    let mut app = GameSimulation::new(BOARD_WIDTH, BOARD_HEIGHT);
    app.board.cells[2][3] = Some(TetrominoType::O);
    app.board.cells[2][1] = Some(TetrominoType::S);
    app.board.cells[0][19] = Some(TetrominoType::Z);
    app.place_piece(TetrominoType::T, TetrominoType::I);

    let blocks = app.get_render_blocks();

    assert_eq!(
        blocks,
        vec![
            (Position { x: 0, y: 19 }, TetrominoType::Z),
            (Position { x: 2, y: 1 }, TetrominoType::S),
            (Position { x: 2, y: 3 }, TetrominoType::O),
            (Position { x: 5, y: 0 }, TetrominoType::T),
            (Position { x: 5, y: 1 }, TetrominoType::T),
            (Position { x: 5, y: 2 }, TetrominoType::T),
            (Position { x: 6, y: 1 }, TetrominoType::T),
        ]
    );
}

#[test]
fn a_fresh_simulation_is_well_formed_and_has_headroom() {
    let app = new_app();
    assert!(app.is_well_formed());
    assert!(app.has_headroom());
}

#[test]
fn a_piece_on_an_occupied_cell_is_not_well_formed() {
    let mut app = new_app();
    app.board.cells[5][0] = Some(TetrominoType::O);
    assert!(!app.is_well_formed());
}

#[test]
fn a_full_score_has_no_headroom() {
    let mut app = new_app();
    app.game_state.score = u32::MAX - 100;
    assert!(!app.has_headroom());
}
