use tetris_clone::game::{PieceEvent, Scoreboard, Tetromino};
use tetris_clone::grid::BrickGrid;
use tetris_clone::input::{InputFlags, LogicalInputs, Rotation, Shift};
use tetris_clone::pieces::{GridVec, TetrominoData, TetrominoOrientation, TetrominoType};
use tetris_clone::random::RngRes;

fn piece(kind: TetrominoType, x: i32, y: i32, orient: TetrominoOrientation) -> Tetromino {
    Tetromino { offset: GridVec::new(x, y), kind, orient }
}

fn inputs(shift: Shift, rotation: Rotation, drop: bool, fast_fall: bool) -> LogicalInputs {
    LogicalInputs { shift, rotation, flags: InputFlags { drop, fast_fall } }
}

#[test]
fn rotations_cycle_and_cancel() {
    let (zero, ninety, one_eighty, two_seventy) = (
        TetrominoOrientation::Zero,
        TetrominoOrientation::Ninety,
        TetrominoOrientation::OneEighty,
        TetrominoOrientation::TwoSeventy,
    );
    assert_eq!(zero.rot_cw(), ninety);
    assert_eq!(ninety.rot_cw(), one_eighty);
    assert_eq!(one_eighty.rot_cw(), two_seventy);
    assert_eq!(two_seventy.rot_cw(), zero);
    for o in [zero, ninety, one_eighty, two_seventy] {
        assert_eq!(o.rot_cw().rot_ccw(), o);
        assert_eq!(o.rot_ccw().rot_cw(), o);
        assert_eq!(o.rot_cw().rot_cw().rot_cw().rot_cw(), o);
        assert_ne!(o.rot_cw(), o);
    }
    assert_eq!(TetrominoOrientation::default(), zero);
}

#[test]
fn shape_table_entries() {
    let i = TetrominoData::get_data(TetrominoType::I, TetrominoOrientation::Ninety);
    assert_eq!(i, [GridVec::new(1, 3), GridVec::new(1, 2), GridVec::new(1, 1), GridVec::new(1, 0)]);
    let z = TetrominoData::get_data(TetrominoType::Z, TetrominoOrientation::TwoSeventy);
    assert_eq!(z, [GridVec::new(0, 2), GridVec::new(1, 1), GridVec::new(0, 1), GridVec::new(1, 0)]);
}

#[test]
fn shape_index_round_trip() {
    for i in 0..7u8 {
        assert_eq!(TetrominoType::from_index(i).index(), i);
    }
    assert_eq!(TetrominoType::from_index(3), TetrominoType::O);
}

#[test]
fn spawned_tetromino_data() {
    let data = TetrominoData::spawn(TetrominoType::S);
    assert_eq!(data.offset, GridVec::new(5, 20));
    assert_eq!(data.orient, TetrominoOrientation::Zero);
    assert_eq!(data.kind, TetrominoType::S);
}

#[test]
fn random_tetrominoes_follow_the_seed_and_cover_all_shapes() {
    let mut a = RngRes::from_seed(1126541);
    let mut b = RngRes::from_seed(1126541);
    let mut seen = [false; 7];
    for _ in 0..300 {
        let da = TetrominoData::new(&mut a);
        let db = TetrominoData::new(&mut b);
        assert_eq!(da.kind, db.kind);
        assert_eq!(da.offset, GridVec::new(5, 20));
        assert_eq!(da.orient, TetrominoOrientation::Zero);
        seen[da.kind.index() as usize] = true;
    }
    assert!(seen.iter().all(|&s| s));
}

#[test]
fn check_move_needs_a_request() {
    let grid = BrickGrid::new();
    let mut t = piece(TetrominoType::T, 5, 10, TetrominoOrientation::Zero);
    assert!(!t.check_move(&grid, None, None));
    assert_eq!(t, piece(TetrominoType::T, 5, 10, TetrominoOrientation::Zero));
}

#[test]
fn check_move_moves_only_where_the_piece_fits() {
    let grid = BrickGrid::new();
    let mut t = piece(TetrominoType::I, 3, 5, TetrominoOrientation::Zero);
    assert!(!t.check_move(&grid, Some(GridVec::new(2, 5)), None));
    assert_eq!(t.offset, GridVec::new(3, 5));
    assert!(t.check_move(&grid, Some(GridVec::new(4, 5)), Some(TetrominoOrientation::Ninety)));
    assert_eq!(t, piece(TetrominoType::I, 4, 5, TetrominoOrientation::Ninety));
    assert!(t.check_move(&grid, None, Some(TetrominoOrientation::Zero)));
    assert_eq!(t, piece(TetrominoType::I, 4, 5, TetrominoOrientation::Zero));
}

#[test]
fn offsets_for_moves() {
    let mut t = piece(TetrominoType::L, 4, 7, TetrominoOrientation::Ninety);
    assert_eq!(t.fall_offset(), GridVec::new(4, 6));
    assert_eq!(t.shift_left_offset(), GridVec::new(3, 7));
    assert_eq!(t.shift_right_offset(), GridVec::new(5, 7));
    assert_eq!(t.rot_cw(), TetrominoOrientation::OneEighty);
    assert_eq!(t.rot_ccw(), TetrominoOrientation::Zero);
    assert_eq!(t, piece(TetrominoType::L, 4, 7, TetrominoOrientation::Ninety));
    assert_eq!(t.get_brick_data(), TetrominoData::get_data(TetrominoType::L, TetrominoOrientation::Ninety));
}

#[test]
fn gravity_moves_down_until_the_floor() {
    let grid = BrickGrid::new();
    // the O piece's bricks have row offsets 1 and 2, so it rests at offset row 2
    let mut t = piece(TetrominoType::O, 5, 3, TetrominoOrientation::Zero);
    assert_eq!(t.gravity_step(&grid), PieceEvent::Moved);
    assert_eq!(t.offset, GridVec::new(5, 2));
    assert_eq!(t.gravity_step(&grid), PieceEvent::Placed);
    assert_eq!(t.offset, GridVec::new(5, 2));
}

#[test]
fn hard_drop_lands_on_the_floor() {
    let grid = BrickGrid::new();
    let mut t = piece(TetrominoType::O, 5, 20, TetrominoOrientation::Zero);
    let r = t.handle_input(&grid, &inputs(Shift::NoShift, Rotation::NoRotation, true, false));
    assert_eq!(r.event, Some(PieceEvent::Placed));
    assert!(!r.fast_fall);
    assert_eq!(t, piece(TetrominoType::O, 5, 2, TetrominoOrientation::Zero));
}

#[test]
fn hard_drop_lands_on_bricks_and_keeps_shift() {
    let mut grid = BrickGrid::new();
    assert_eq!(grid.place(GridVec::new(3, 1), TetrominoType::I, TetrominoOrientation::Zero), 0);
    let mut t = piece(TetrominoType::O, 4, 20, TetrominoOrientation::Zero);
    let r = t.handle_input(&grid, &inputs(Shift::Left, Rotation::NoRotation, true, true));
    assert_eq!(r.event, Some(PieceEvent::Placed));
    assert!(r.fast_fall);
    // shifted to column offset 3, resting on the I piece in row 0
    assert_eq!(t, piece(TetrominoType::O, 3, 3, TetrominoOrientation::Zero));
}

#[test]
fn hard_drop_from_a_resting_place_does_not_move() {
    let grid = BrickGrid::new();
    let mut t = piece(TetrominoType::O, 5, 2, TetrominoOrientation::Zero);
    let r = t.handle_input(&grid, &inputs(Shift::NoShift, Rotation::NoRotation, true, false));
    assert_eq!(r.event, Some(PieceEvent::Placed));
    assert_eq!(t, piece(TetrominoType::O, 5, 2, TetrominoOrientation::Zero));
}

#[test]
fn input_against_the_wall_is_ignored() {
    let grid = BrickGrid::new();
    let mut t = piece(TetrominoType::I, 3, 10, TetrominoOrientation::Zero);
    let r = t.handle_input(&grid, &inputs(Shift::Left, Rotation::NoRotation, false, false));
    assert_eq!(r.event, None);
    assert_eq!(t, piece(TetrominoType::I, 3, 10, TetrominoOrientation::Zero));
    let r = t.handle_input(&grid, &inputs(Shift::Right, Rotation::CW, false, true));
    assert_eq!(r.event, Some(PieceEvent::Moved));
    assert!(r.fast_fall);
    assert_eq!(t, piece(TetrominoType::I, 4, 10, TetrominoOrientation::Ninety));
    let r = t.handle_input(&grid, &inputs(Shift::NoShift, Rotation::NoRotation, false, false));
    assert_eq!(r.event, None);
}

#[test]
fn keys_become_inputs() {
    let both = LogicalInputs::from_keys(true, true, true, true, false, false);
    assert_eq!(both.shift(), Shift::NoShift);
    assert_eq!(both.rotation(), Rotation::NoRotation);
    let left = LogicalInputs::from_keys(true, false, false, true, true, false);
    assert_eq!(left.shift(), Shift::Left);
    assert_eq!(left.rotation(), Rotation::CCW);
    assert!(left.flags().contains(InputFlags::drop()));
    assert!(!left.flags().contains(InputFlags::fast_fall()));
    let right = LogicalInputs::from_keys(false, true, true, false, false, true);
    assert_eq!(right.shift(), Shift::Right);
    assert_eq!(right.rotation(), Rotation::CW);
    assert!(right.flags().contains(InputFlags::fast_fall()));
    assert!(right.flags().contains(InputFlags::none()));
    let idle = LogicalInputs::default();
    assert_eq!(idle, LogicalInputs::from_keys(false, false, false, false, false, false));
    assert_eq!(InputFlags::drop().union(InputFlags::fast_fall()), InputFlags { drop: true, fast_fall: true });
}

#[test]
fn score_per_clear() {
    let mut score = Scoreboard::default();
    score.record_row_clear(1);
    assert_eq!((score.cleared_rows, score.score), (1, 100));
    score.record_row_clear(2);
    assert_eq!((score.cleared_rows, score.score), (3, 400));
    score.record_row_clear(3);
    assert_eq!((score.cleared_rows, score.score), (6, 900));
    score.record_row_clear(4);
    assert_eq!((score.cleared_rows, score.score), (10, 1700));
    score.record_row_clear(5);
    assert_eq!((score.cleared_rows, score.score), (15, 1700));
    score.record_row_clear(0);
    assert_eq!((score.cleared_rows, score.score, score.time), (15, 1700, 0));
}

#[test]
fn points_for_rows() {
    assert_eq!(Scoreboard::points_for(0), 0);
    assert_eq!(Scoreboard::points_for(1), 100);
    assert_eq!(Scoreboard::points_for(2), 300);
    assert_eq!(Scoreboard::points_for(3), 500);
    assert_eq!(Scoreboard::points_for(4), 800);
    assert_eq!(Scoreboard::points_for(5), 0);
}

#[test]
fn clockwise_turn_turns_the_shape() {
    // offsets (x, y) turned clockwise become (y, -x); the next orientation is that, moved
    let kinds = [
        TetrominoType::I,
        TetrominoType::J,
        TetrominoType::L,
        TetrominoType::O,
        TetrominoType::S,
        TetrominoType::T,
        TetrominoType::Z,
    ];
    let orients = [
        TetrominoOrientation::Zero,
        TetrominoOrientation::Ninety,
        TetrominoOrientation::OneEighty,
        TetrominoOrientation::TwoSeventy,
    ];
    for kind in kinds {
        for o in orients {
            let cur = TetrominoData::get_data(kind, o);
            let mut next: Vec<(i32, i32)> =
                TetrominoData::get_data(kind, o.rot_cw()).iter().map(|a| (a.x, a.y)).collect();
            next.sort();
            let mut found = false;
            for tx in -4..=4 {
                for ty in -4..=4 {
                    let mut turned: Vec<(i32, i32)> =
                        cur.iter().map(|a| (a.y + tx, -a.x + ty)).collect();
                    turned.sort();
                    if turned == next {
                        found = true;
                    }
                }
            }
            assert!(found);
        }
    }
}

#[test]
fn same_seed_same_generator() {
    let a = RngRes::from_seed(42);
    let b = RngRes::from_seed(42);
    assert!(a.gener == b.gener);
    let c = RngRes::from_seed(43);
    assert!(a.gener != c.gener);
}
