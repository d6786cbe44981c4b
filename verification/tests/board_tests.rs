use fallingblocks::{Board, Position, Tetromino, TetrominoType};

fn fill_row(board: &mut Board, y: usize, shape: TetrominoType) {
    for x in 0..board.width {
        board.cells[x][y] = Some(shape);
    }
}

fn row(board: &Board, y: usize) -> Vec<Option<TetrominoType>> {
    (0..board.width).map(|x| board.cells[x][y]).collect()
}

#[test]
fn locking_an_o_piece_completes_and_clears_the_bottom_row() {
    let mut board = Board::new(10, 20);
    for x in 0..10 {
        if x != 3 {
            board.cells[x][19] = Some(TetrominoType::J);
        }
    }
    let piece = Tetromino::new(TetrominoType::O);
    board.lock_tetromino(Position { x: 3, y: 18 }, &piece);
    assert_eq!(board.cells[3][18], Some(TetrominoType::O));
    assert_eq!(board.cells[4][18], Some(TetrominoType::O));
    assert_eq!(board.cells[3][19], Some(TetrominoType::O));
    assert_eq!(board.cells[4][19], Some(TetrominoType::O));

    let (lines_cleared, rows) = board.clear_lines_with_indices();

    assert_eq!(lines_cleared, 1);
    assert_eq!(rows, vec![19]);
    for x in 0..10 {
        let expected = if x == 3 || x == 4 { Some(TetrominoType::O) } else { None };
        assert_eq!(board.cells[x][19], expected);
        assert_eq!(board.cells[x][18], None);
        assert_eq!(board.cells[x][0], None);
    }
}

#[test]
fn a_clear_moves_the_rows_above_down_and_leaves_the_rows_below() {
    let mut board = Board::new(4, 6);
    board.cells[0][1] = Some(TetrominoType::S);
    board.cells[2][2] = Some(TetrominoType::T);
    fill_row(&mut board, 3, TetrominoType::I);
    board.cells[1][4] = Some(TetrominoType::Z);
    board.cells[3][5] = Some(TetrominoType::L);

    let (lines_cleared, rows) = board.clear_lines_with_indices();

    assert_eq!(lines_cleared, 1);
    assert_eq!(rows, vec![3]);
    assert_eq!(row(&board, 0), vec![None, None, None, None]);
    assert_eq!(row(&board, 1), vec![None, None, None, None]);
    assert_eq!(row(&board, 2), vec![Some(TetrominoType::S), None, None, None]);
    assert_eq!(row(&board, 3), vec![None, None, Some(TetrominoType::T), None]);
    assert_eq!(row(&board, 4), vec![None, Some(TetrominoType::Z), None, None]);
    assert_eq!(row(&board, 5), vec![None, None, None, Some(TetrominoType::L)]);
}

#[test]
fn a_board_without_a_full_row_stays_as_it_is() {
    let mut board = Board::new(4, 6);
    board.cells[0][5] = Some(TetrominoType::S);
    board.cells[1][5] = Some(TetrominoType::S);
    board.cells[2][5] = Some(TetrominoType::S);
    let before = board.cells.clone();
    let (lines_cleared, rows) = board.clear_lines_with_indices();
    assert_eq!(lines_cleared, 0);
    assert!(rows.is_empty());
    assert_eq!(board.cells, before);
}

#[test]
fn rows_are_taken_out_lowest_first_by_their_first_indices() {
    let mut board = Board::new(3, 6);
    board.cells[0][3] = Some(TetrominoType::S);
    fill_row(&mut board, 4, TetrominoType::I);
    fill_row(&mut board, 5, TetrominoType::J);

    let (lines_cleared, rows) = board.clear_lines_with_indices();

    assert_eq!(lines_cleared, 2);
    assert_eq!(rows, vec![4, 5]);
    // Row 5 goes first and the former row 4 takes its place; index 4 then
    // names the former row 3, which goes next.
    assert_eq!(row(&board, 5), vec![Some(TetrominoType::I); 3]);
    for y in 0..5 {
        assert_eq!(row(&board, y), vec![None; 3], "row {}", y);
    }
}

#[test]
fn lock_skips_the_cells_outside_the_board() {
    let mut board = Board::new(10, 20);
    let piece = Tetromino::new(TetrominoType::I);
    board.lock_tetromino(Position { x: 0, y: 18 }, &piece);
    assert_eq!(board.cells[0][18], Some(TetrominoType::I));
    assert_eq!(board.cells[0][19], Some(TetrominoType::I));
    let filled = board.cells.iter().flatten().filter(|cell| cell.is_some()).count();
    assert_eq!(filled, 2);

    board.lock_tetromino(Position { x: -1, y: -7 }, &piece);
    let filled = board.cells.iter().flatten().filter(|cell| cell.is_some()).count();
    assert_eq!(filled, 2);
}

#[test]
fn lock_writes_the_rotated_cells() {
    let mut board = Board::new(10, 20);
    let mut piece = Tetromino::new(TetrominoType::T);
    piece.rotation = 3;
    board.lock_tetromino(Position { x: 2, y: 5 }, &piece);
    // (0,0), (1,0), (2,0), (1,-1)
    let expected = [(2usize, 5usize), (3, 5), (4, 5), (3, 4)];
    for x in 0..10 {
        for y in 0..20 {
            let filled = expected.contains(&(x, y));
            assert_eq!(board.cells[x][y].is_some(), filled, "cell ({}, {})", x, y);
        }
    }
}

#[test]
fn a_piece_is_valid_only_on_free_cells_of_the_board() {
    let mut board = Board::new(10, 20);
    let piece = Tetromino::new(TetrominoType::J);
    // cells (0,0), (0,1), (0,2), (-1,2)
    assert!(board.is_valid_position(Position { x: 1, y: 0 }, &piece));
    assert!(!board.is_valid_position(Position { x: 0, y: 0 }, &piece));
    assert!(board.is_valid_position(Position { x: 9, y: 17 }, &piece));
    assert!(!board.is_valid_position(Position { x: 9, y: 18 }, &piece));
    assert!(!board.is_valid_position(Position { x: i32::MAX, y: i32::MAX }, &piece));
    assert!(!board.is_valid_position(Position { x: i32::MIN, y: i32::MIN }, &piece));
    board.cells[0][2] = Some(TetrominoType::O);
    assert!(!board.is_valid_position(Position { x: 1, y: 0 }, &piece));
    assert!(board.is_valid_position(Position { x: 2, y: 0 }, &piece));
}

#[test]
fn a_board_without_columns_or_rows_holds_no_piece() {
    let piece = Tetromino::new(TetrominoType::O);
    let board = Board::new(0, 5);
    assert!(!board.is_valid_position(Position { x: 0, y: 0 }, &piece));
    let mut board = Board::new(5, 0);
    assert!(!board.is_valid_position(Position { x: 0, y: 0 }, &piece));
    let (lines_cleared, rows) = board.clear_lines_with_indices();
    assert_eq!(lines_cleared, 0);
    assert!(rows.is_empty());
}
