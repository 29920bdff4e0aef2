use tetris_clone::grid::{is_on_grid, BrickGrid, PlacedBrick, GRID_HEIGHT, GRID_WIDTH};
use tetris_clone::pieces::{GridVec, TetrominoOrientation, TetrominoType};

fn v(x: i32, y: i32) -> GridVec {
    GridVec::new(x, y)
}

fn filled(grid: &BrickGrid) -> Vec<(usize, usize)> {
    let mut cells = Vec::new();
    for y in 0..GRID_HEIGHT {
        for x in 0..GRID_WIDTH {
            if grid.get(x, y).is_some() {
                cells.push((x, y));
            }
        }
    }
    cells
}

#[test]
fn default_grid_is_empty() {
    let grid = BrickGrid::default();
    assert!(filled(&grid).is_empty());
    for y in 0..GRID_HEIGHT {
        assert!(!grid.is_row_cleared(y));
    }
}

#[test]
fn spawn_position_is_clear_on_empty_grid() {
    let grid = BrickGrid::new();
    for kind in [
        TetrominoType::I,
        TetrominoType::J,
        TetrominoType::L,
        TetrominoType::O,
        TetrominoType::S,
        TetrominoType::T,
        TetrominoType::Z,
    ] {
        assert!(grid.is_clear(v(5, 20), kind, TetrominoOrientation::Zero));
        assert!(is_on_grid(v(5, 20), kind, TetrominoOrientation::Zero));
    }
}

#[test]
fn is_clear_rejects_cells_off_the_grid() {
    let grid = BrickGrid::new();
    // the I piece lying flat covers columns offset.x - 3 ..= offset.x
    assert!(grid.is_clear(v(3, 1), TetrominoType::I, TetrominoOrientation::Zero));
    assert!(!grid.is_clear(v(2, 1), TetrominoType::I, TetrominoOrientation::Zero));
    assert!(!grid.is_clear(v(10, 1), TetrominoType::I, TetrominoOrientation::Zero));
    assert!(grid.is_clear(v(9, 1), TetrominoType::I, TetrominoOrientation::Zero));
    // its bricks lie in row offset.y - 1
    assert!(!grid.is_clear(v(3, 0), TetrominoType::I, TetrominoOrientation::Zero));
    assert!(!grid.is_clear(v(3, 21), TetrominoType::I, TetrominoOrientation::Zero));
    assert!(grid.is_clear(v(3, 20), TetrominoType::I, TetrominoOrientation::Zero));
    // far away, without overflow
    assert!(!grid.is_clear(v(i32::MIN, i32::MIN), TetrominoType::T, TetrominoOrientation::Zero));
    assert!(!grid.is_clear(v(i32::MAX, i32::MAX), TetrominoType::T, TetrominoOrientation::Zero));
    assert!(!is_on_grid(v(i32::MIN, 5), TetrominoType::T, TetrominoOrientation::Zero));
}

#[test]
fn is_clear_rejects_occupied_cells() {
    let mut grid = BrickGrid::new();
    assert_eq!(grid.place(v(3, 1), TetrominoType::I, TetrominoOrientation::Zero), 0);
    assert!(!grid.is_clear(v(3, 1), TetrominoType::I, TetrominoOrientation::Zero));
    assert!(!grid.is_clear(v(6, 1), TetrominoType::I, TetrominoOrientation::Zero));
    assert!(grid.is_clear(v(7, 1), TetrominoType::I, TetrominoOrientation::Zero));
    assert!(grid.is_clear(v(3, 2), TetrominoType::I, TetrominoOrientation::Zero));
}

#[test]
fn place_writes_the_bricks() {
    let mut grid = BrickGrid::new();
    let rows = grid.place(v(5, 3), TetrominoType::T, TetrominoOrientation::Zero);
    assert_eq!(rows, 0);
    // T at Zero: offsets (1,2), (0,1), (1,1), (2,1)
    assert_eq!(filled(&grid), vec![(4, 1), (3, 2), (4, 2), (5, 2)]);
    assert_eq!(grid.get(4, 1), Some(TetrominoType::T));
}

#[test]
fn place_clears_a_completed_row() {
    let mut grid = BrickGrid::new();
    assert_eq!(grid.place(v(3, 1), TetrominoType::I, TetrominoOrientation::Zero), 0);
    assert_eq!(grid.place(v(7, 1), TetrominoType::I, TetrominoOrientation::Zero), 0);
    assert!(!grid.is_row_cleared(0));
    // the O piece fills columns 8 and 9 of rows 0 and 1, completing row 0
    assert_eq!(grid.place(v(9, 2), TetrominoType::O, TetrominoOrientation::Zero), 1);
    // row 1 moved down to row 0
    assert_eq!(filled(&grid), vec![(8, 0), (9, 0)]);
    assert_eq!(grid.get(8, 0), Some(TetrominoType::O));
}

#[test]
fn place_clears_four_rows_at_once() {
    let mut grid = BrickGrid::new();
    // columns 0..=8 of rows 0..=3, left by three flat I pieces and vertical I pieces
    for x in [3, 7] {
        for y in 1..=4 {
            assert_eq!(grid.place(v(x, y), TetrominoType::I, TetrominoOrientation::Zero), 0);
        }
    }
    // column 8 of rows 0..=3: I standing up (offsets (1, 0..=3)) at (9, 3)
    assert_eq!(grid.place(v(9, 3), TetrominoType::I, TetrominoOrientation::Ninety), 0);
    // a brick higher up, in row 5
    assert_eq!(grid.place(v(3, 6), TetrominoType::I, TetrominoOrientation::Zero), 0);
    // column 9 of rows 0..=3
    assert_eq!(grid.place(v(10, 3), TetrominoType::I, TetrominoOrientation::Ninety), 4);
    assert_eq!(filled(&grid), vec![(0, 1), (1, 1), (2, 1), (3, 1)]);
}

#[test]
fn place_matches_completed_rows_in_the_order_recorded() {
    let mut grid = BrickGrid::new();
    assert_eq!(grid.place(v(4, 2), TetrominoType::I, TetrominoOrientation::Zero), 0);
    assert_eq!(grid.place(v(8, 2), TetrominoType::I, TetrominoOrientation::Zero), 0);
    assert_eq!(grid.place(v(6, 1), TetrominoType::I, TetrominoOrientation::Zero), 0);
    assert_eq!(grid.place(v(9, 1), TetrominoType::J, TetrominoOrientation::OneEighty), 0);
    // row 0 holds columns 3..=9, row 1 columns 1..=9; the L turned twice completes both,
    // row 1 first and then row 0
    assert_eq!(grid.place(v(2, 1), TetrominoType::L, TetrominoOrientation::OneEighty), 2);
    // the rows are matched against the recorded order [1, 0]: row 1 goes, row 0 stays
    assert!(grid.is_row_cleared(0));
    let cells = filled(&grid);
    assert_eq!(cells.len(), GRID_WIDTH);
    assert!(cells.iter().all(|&(_, y)| y == 0));
}

#[test]
fn place_drops_the_top_rows_it_does_not_scan() {
    let mut grid = BrickGrid::new();
    // a brick in the top row
    assert_eq!(grid.place(v(3, 20), TetrominoType::I, TetrominoOrientation::Zero), 0);
    assert_eq!(grid.place(v(3, 1), TetrominoType::I, TetrominoOrientation::Zero), 0);
    assert_eq!(grid.place(v(7, 1), TetrominoType::I, TetrominoOrientation::Zero), 0);
    assert_eq!(grid.place(v(10, 3), TetrominoType::I, TetrominoOrientation::Ninety), 0);
    assert_eq!(grid.place(v(9, 3), TetrominoType::I, TetrominoOrientation::Ninety), 1);
    // only the rows below GRID_HEIGHT - 1 are moved down; the top row is emptied
    let cells = filled(&grid);
    assert_eq!(cells, vec![(8, 0), (9, 0), (8, 1), (9, 1), (8, 2), (9, 2)]);
}

#[test]
fn inactive_bricks_lists_cells_row_by_row() {
    let mut grid = BrickGrid::new();
    assert_eq!(grid.place(v(5, 3), TetrominoType::S, TetrominoOrientation::Zero), 0);
    // S at Zero: offsets (0,2), (1,2), (1,1), (2,1)
    let bricks = grid.inactive_bricks();
    let expected = vec![
        PlacedBrick { x: 4, y: 1, kind: TetrominoType::S },
        PlacedBrick { x: 5, y: 1, kind: TetrominoType::S },
        PlacedBrick { x: 3, y: 2, kind: TetrominoType::S },
        PlacedBrick { x: 4, y: 2, kind: TetrominoType::S },
    ];
    assert_eq!(bricks, expected);
    assert!(BrickGrid::new().inactive_bricks().is_empty());
}

#[test]
fn placing_leaves_no_full_row() {
    let mut grid = BrickGrid::new();
    assert_eq!(grid.place(v(3, 1), TetrominoType::I, TetrominoOrientation::Zero), 0);
    assert_eq!(grid.place(v(7, 1), TetrominoType::I, TetrominoOrientation::Zero), 0);
    assert_eq!(grid.place(v(9, 2), TetrominoType::O, TetrominoOrientation::Zero), 1);
    for y in 0..GRID_HEIGHT {
        assert!(!grid.is_row_cleared(y));
    }
}
