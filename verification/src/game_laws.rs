use vstd::prelude::*;

use crate::game::{after_input_move, after_move, move_allowed, Tetromino};
use crate::grid::piece_fits;
use crate::input::{InputFlags, LogicalInputs, Rotation, Shift};
use crate::pieces::{GridVec, TetrominoOrientation, TetrominoType};

verus! {

/// The inputs of a frame that asks only for the given shift and rotation.
pub open spec fn plain_inputs(shift: Shift, rotation: Rotation) -> LogicalInputs {
    LogicalInputs { shift, rotation, flags: InputFlags { drop: false, fast_fall: false } }
}

/// A move that is allowed ends exactly at the offset and orientation asked for (each, when
/// not asked for, left as it was), keeping the shape; a move that is not allowed changes
/// nothing.
pub proof fn lemma_move_ends_where_asked(
    t: Tetromino,
    g: Seq<Seq<Option<TetrominoType>>>,
    new_offset: Option<GridVec>,
    new_orient: Option<TetrominoOrientation>,
)
    ensures
        move_allowed(t, g, new_offset, new_orient) ==> after_move(t, g, new_offset, new_orient)
            == (Tetromino {
            offset: match new_offset {
                Some(o) => o,
                None => t.offset,
            },
            kind: t.kind,
            orient: match new_orient {
                Some(o) => o,
                None => t.orient,
            },
        }),
        !move_allowed(t, g, new_offset, new_orient) ==> after_move(t, g, new_offset, new_orient)
            == t,
{
}

/// A tick of gravity moves the tetromino exactly one row down, and nothing else, when it fits
/// there; otherwise it stays where it is.
pub proof fn lemma_gravity_moves_one_row(t: Tetromino, g: Seq<Seq<Option<TetrominoType>>>)
    requires
        t.offset.y > i32::MIN,
    ensures
        ({
            let down = GridVec { x: t.offset.x, y: (t.offset.y - 1) as i32 };
            let u = after_move(t, g, Some(down), None);
            &&& piece_fits(g, down, t.kind, t.orient) ==> u.offset.x == t.offset.x && u.offset.y
                == t.offset.y - 1 && u.kind == t.kind && u.orient == t.orient
            &&& !piece_fits(g, down, t.kind, t.orient) ==> u == t
        }),
{
}

/// A frame that asks only for a shift moves the tetromino exactly one column that way when it
/// fits there, keeping its row, shape and orientation; otherwise it stays where it is.
pub proof fn lemma_shift_moves_one_column(
    t: Tetromino,
    g: Seq<Seq<Option<TetrominoType>>>,
    shift: Shift,
)
    requires
        t.offset.x > i32::MIN,
        t.offset.x < i32::MAX,
        shift != Shift::NoShift,
    ensures
        ({
            let dx: int = if shift == Shift::Left {
                -1
            } else {
                1
            };
            let target = GridVec { x: (t.offset.x + dx) as i32, y: t.offset.y };
            let u = after_input_move(t, g, plain_inputs(shift, Rotation::NoRotation));
            &&& piece_fits(g, target, t.kind, t.orient) ==> u.offset.x == t.offset.x + dx
                && u.offset.y == t.offset.y && u.kind == t.kind && u.orient == t.orient
            &&& !piece_fits(g, target, t.kind, t.orient) ==> u == t
        }),
{
}

/// A shift to the right that goes through, followed by a shift to the left, brings a tetromino
/// that fitted back to where it was; and the same the other way round.
pub proof fn lemma_shifts_cancel(t: Tetromino, g: Seq<Seq<Option<TetrominoType>>>, shift: Shift)
    requires
        piece_fits(g, t.offset, t.kind, t.orient),
        t.offset.x > i32::MIN,
        t.offset.x < i32::MAX,
        shift != Shift::NoShift,
        after_input_move(t, g, plain_inputs(shift, Rotation::NoRotation)) != t,
    ensures
        after_input_move(
            after_input_move(t, g, plain_inputs(shift, Rotation::NoRotation)),
            g,
            plain_inputs(
                if shift == Shift::Left {
                    Shift::Right
                } else {
                    Shift::Left
                },
                Rotation::NoRotation,
            ),
        ) == t,
{
}

/// Quarter turns asked for by a rotation: one for clockwise, three for counter-clockwise.
pub open spec fn turns_asked(rotation: Rotation) -> int {
    match rotation {
        Rotation::NoRotation => 0,
        Rotation::CW => 1,
        Rotation::CCW => 3,
    }
}

/// A frame that asks only for a rotation turns the tetromino in place by a quarter turn
/// clockwise (CW) or counter-clockwise (CCW, three clockwise quarter turns) when it fits in the
/// turned orientation, keeping its offset and shape; otherwise it stays as it is.
pub proof fn lemma_rotation_turns_in_place(
    t: Tetromino,
    g: Seq<Seq<Option<TetrominoType>>>,
    rotation: Rotation,
)
    ensures
        ({
            let turned = TetrominoOrientation::from_quarter_turns(
                t.orient.quarter_turns() + turns_asked(rotation),
            );
            let u = after_input_move(t, g, plain_inputs(Shift::NoShift, rotation));
            &&& (rotation != Rotation::NoRotation && piece_fits(g, t.offset, t.kind, turned))
                ==> u.offset == t.offset && u.kind == t.kind && u.orient.quarter_turns() == (
            t.orient.quarter_turns() + turns_asked(rotation)) % 4
            &&& !(rotation != Rotation::NoRotation && piece_fits(g, t.offset, t.kind, turned))
                ==> u == t
        }),
{
}

/// A counter-clockwise turn that goes through, followed by a clockwise one, brings a tetromino
/// that fitted back to where it was; and the same the other way round.
pub proof fn lemma_rotations_undo(
    t: Tetromino,
    g: Seq<Seq<Option<TetrominoType>>>,
    rotation: Rotation,
)
    requires
        piece_fits(g, t.offset, t.kind, t.orient),
        rotation != Rotation::NoRotation,
        after_input_move(t, g, plain_inputs(Shift::NoShift, rotation)) != t,
    ensures
        after_input_move(
            after_input_move(t, g, plain_inputs(Shift::NoShift, rotation)),
            g,
            plain_inputs(
                Shift::NoShift,
                if rotation == Rotation::CW {
                    Rotation::CCW
                } else {
                    Rotation::CW
                },
            ),
        ) == t,
{
}

} // verus!
