use vstd::prelude::*;

use crate::grid::{piece_cell, piece_fits, BrickGrid};
use crate::input::{InputFlags, LogicalInputs, Rotation, Shift};
use crate::pieces::{lemma_shape_bounds, shape, GridVec, TetrominoData, TetrominoOrientation, TetrominoType};

verus! {

/// The falling tetromino.
#[derive(Clone, Copy, Debug, PartialEq, Eq, Structural)]
pub struct Tetromino {
    pub offset: GridVec,
    pub kind: TetrominoType,
    pub orient: TetrominoOrientation,
}

/// What the game does with the falling tetromino after a step.
#[derive(Clone, Copy, Debug, PartialEq, Eq, Structural)]
pub enum PieceEvent {
    /// It moved or turned: its bricks are redrawn.
    Moved,
    /// It comes to rest: it is written into the grid and a new one spawns.
    Placed,
}

/// The outcome of handling one frame of input.
#[derive(Clone, Copy, Debug, PartialEq, Eq, Structural)]
pub struct InputResponse {
    /// Whether the gravity timer runs at its fast rate.
    pub fast_fall: bool,
    /// What happens to the tetromino, if anything.
    pub event: Option<PieceEvent>,
}

/// The offset asked for by a sideways move, if any.
pub open spec fn shifted_offset(offset: GridVec, shift: Shift) -> Option<GridVec> {
    match shift {
        Shift::NoShift => None,
        Shift::Left => Some(GridVec { x: (offset.x - 1) as i32, y: offset.y }),
        Shift::Right => Some(GridVec { x: (offset.x + 1) as i32, y: offset.y }),
    }
}

/// The orientation asked for by a rotation, if any.
pub open spec fn rotated_orientation(
    orient: TetrominoOrientation,
    rotation: Rotation,
) -> Option<TetrominoOrientation> {
    match rotation {
        Rotation::NoRotation => None,
        Rotation::CW => Some(orient.spec_rot_cw()),
        Rotation::CCW => Some(orient.spec_rot_ccw()),
    }
}

/// The tetromino after an attempted move to `new_offset` and `new_orient` (each, when absent,
/// left as it is): it moves when something was asked and it fits there, and stays otherwise.
pub open spec fn after_move(
    t: Tetromino,
    g: Seq<Seq<Option<TetrominoType>>>,
    new_offset: Option<GridVec>,
    new_orient: Option<TetrominoOrientation>,
) -> Tetromino {
    let offset = match new_offset {
        Some(o) => o,
        None => t.offset,
    };
    let orient = match new_orient {
        Some(o) => o,
        None => t.orient,
    };
    if (new_offset is Some || new_orient is Some) && piece_fits(g, offset, t.kind, orient) {
        Tetromino { offset, kind: t.kind, orient }
    } else {
        t
    }
}

/// `end` is where a hard drop that starts from `start` and keeps the orientation `orient`
/// comes to rest on `g`: it moves straight down `k` rows, every row on the way down fits, and
/// one row further down does not. Without a single step down, `end` is `start`.
pub open spec fn drop_lands(
    g: Seq<Seq<Option<TetrominoType>>>,
    start: Tetromino,
    orient: TetrominoOrientation,
    end: Tetromino,
    k: int,
) -> bool {
    &&& 0 <= k
    &&& forall|j: int|
        1 <= j <= k ==> #[trigger] piece_fits(
            g,
            GridVec { x: start.offset.x, y: (start.offset.y - j) as i32 },
            start.kind,
            orient,
        )
    &&& start.offset.y - k - 1 >= i32::MIN
    &&& !piece_fits(
        g,
        GridVec { x: start.offset.x, y: (start.offset.y - k - 1) as i32 },
        start.kind,
        orient,
    )
    &&& end == if k == 0 {
        start
    } else {
        Tetromino {
            offset: GridVec { x: start.offset.x, y: (start.offset.y - k) as i32 },
            kind: start.kind,
            orient,
        }
    }
}

/// The tetromino after the shift and rotation that `inputs` ask for, if it fits there.
pub open spec fn after_input_move(
    t: Tetromino,
    g: Seq<Seq<Option<TetrominoType>>>,
    inputs: LogicalInputs,
) -> Tetromino {
    after_move(
        t,
        g,
        shifted_offset(t.offset, inputs.shift),
        rotated_orientation(t.orient, inputs.rotation),
    )
}

/// The orientation a hard drop keeps: the one `inputs` ask for, or the tetromino's own.
pub open spec fn drop_orientation(t: Tetromino, inputs: LogicalInputs) -> TetrominoOrientation {
    match rotated_orientation(t.orient, inputs.rotation) {
        Some(o) => o,
        None => t.orient,
    }
}

/// The attempted move asks for something and the tetromino fits where it asks.
pub open spec fn move_allowed(
    t: Tetromino,
    g: Seq<Seq<Option<TetrominoType>>>,
    new_offset: Option<GridVec>,
    new_orient: Option<TetrominoOrientation>,
) -> bool {
    let offset = match new_offset {
        Some(o) => o,
        None => t.offset,
    };
    let orient = match new_orient {
        Some(o) => o,
        None => t.orient,
    };
    (new_offset is Some || new_orient is Some) && piece_fits(g, offset, t.kind, orient)
}

/// A tetromino that fits on the grid has a non-negative row offset.
pub proof fn lemma_fits_row_non_negative(
    g: Seq<Seq<Option<TetrominoType>>>,
    offset: GridVec,
    kind: TetrominoType,
    orient: TetrominoOrientation,
)
    requires
        piece_fits(g, offset, kind, orient),
    ensures
        offset.y >= 0,
{
    lemma_shape_bounds(kind, orient);
    assert(crate::grid::on_grid(piece_cell(offset, kind, orient, 0)));
}

impl Tetromino {
    /// The falling tetromino of the given spawn data.
    pub fn from_data(data: &TetrominoData) -> (r: Tetromino)
        ensures
            r.offset == data.offset,
            r.kind == data.kind,
            r.orient == data.orient,
    {
        Tetromino { offset: data.offset, kind: data.kind, orient: data.orient }
    }

    /// Moves to `new_offset` and turns to `new_orient` (each, when absent, left as it is) if
    /// something was asked and the tetromino fits there; returns whether it moved.
    pub fn check_move(
        &mut self,
        brick_grid: &BrickGrid,
        new_offset: Option<GridVec>,
        new_orient: Option<TetrominoOrientation>,
    ) -> (moved: bool)
        ensures
            *final(self) == after_move(*old(self), brick_grid@, new_offset, new_orient),
            moved <==> ((new_offset is Some || new_orient is Some) && piece_fits(
                brick_grid@,
                match new_offset {
                    Some(o) => o,
                    None => old(self).offset,
                },
                old(self).kind,
                match new_orient {
                    Some(o) => o,
                    None => old(self).orient,
                },
            )),
    {
        if new_offset.is_none() && new_orient.is_none() {
            return false;
        }
        let new_offset = match new_offset {
            Some(o) => o,
            None => self.offset,
        };
        let new_orient = match new_orient {
            Some(o) => o,
            None => self.orient,
        };
        if brick_grid.is_clear(new_offset, self.kind, new_orient) {
            self.offset = new_offset;
            self.orient = new_orient;
            true
        } else {
            false
        }
    }

    /// The brick offsets of the tetromino as it stands.
    pub fn get_brick_data(&self) -> (r: [GridVec; 4])
        ensures
            r@ == crate::pieces::shape(self.kind, self.orient),
    {
        TetrominoData::get_data(self.kind, self.orient)
    }

    /// The offset one row down.
    pub fn fall_offset(&mut self) -> (r: GridVec)
        requires
            old(self).offset.y > i32::MIN,
        ensures
            *final(self) == *old(self),
            r == (GridVec { x: old(self).offset.x, y: (old(self).offset.y - 1) as i32 }),
    {
        self.offset.with_y(self.offset.y - 1)
    }

    /// The offset one column to the left.
    pub fn shift_left_offset(&mut self) -> (r: GridVec)
        requires
            old(self).offset.x > i32::MIN,
        ensures
            *final(self) == *old(self),
            r == (GridVec { x: (old(self).offset.x - 1) as i32, y: old(self).offset.y }),
    {
        self.offset.with_x(self.offset.x - 1)
    }

    /// The offset one column to the right.
    pub fn shift_right_offset(&mut self) -> (r: GridVec)
        requires
            old(self).offset.x < i32::MAX,
        ensures
            *final(self) == *old(self),
            r == (GridVec { x: (old(self).offset.x + 1) as i32, y: old(self).offset.y }),
    {
        self.offset.with_x(self.offset.x + 1)
    }

    /// The orientation a quarter turn clockwise.
    pub fn rot_cw(&mut self) -> (r: TetrominoOrientation)
        ensures
            *final(self) == *old(self),
            r == old(self).orient.spec_rot_cw(),
    {
        self.orient.rot_cw()
    }

    /// The orientation a quarter turn counter-clockwise.
    pub fn rot_ccw(&mut self) -> (r: TetrominoOrientation)
        ensures
            *final(self) == *old(self),
            r == old(self).orient.spec_rot_ccw(),
    {
        self.orient.rot_ccw()
    }

    /// One tick of gravity: the tetromino moves one row down if it fits there, and otherwise
    /// comes to rest.
    pub fn gravity_step(&mut self, brick_grid: &BrickGrid) -> (r: PieceEvent)
        requires
            old(self).offset.y > i32::MIN,
        ensures
            ({
                let down = GridVec { x: old(self).offset.x, y: (old(self).offset.y - 1) as i32 };
                &&& *final(self) == after_move(*old(self), brick_grid@, Some(down), None)
                &&& r == if piece_fits(brick_grid@, down, old(self).kind, old(self).orient) {
                    PieceEvent::Moved
                } else {
                    PieceEvent::Placed
                }
            }),
    {
        let new_offset = Some(self.fall_offset());
        let orient = None;
        if self.check_move(brick_grid, new_offset, orient) {
            PieceEvent::Moved
        } else {
            PieceEvent::Placed
        }
    }

    /// One frame of input: the tetromino shifts and turns as asked if it fits there; with the
    /// drop flag it then falls as far as it fits, keeping the orientation asked for (or its
    /// own), and comes to rest; otherwise it is redrawn if it moved.
    pub fn handle_input(&mut self, brick_grid: &BrickGrid, inputs: &LogicalInputs) -> (r:
        InputResponse)
        requires
            inputs.shift == Shift::Left ==> old(self).offset.x > i32::MIN,
            inputs.shift == Shift::Right ==> old(self).offset.x < i32::MAX,
            inputs.flags.drop ==> old(self).offset.y > i32::MIN,
        ensures
            r.fast_fall == inputs.flags.fast_fall,
            inputs.flags.drop ==> r.event == Some(PieceEvent::Placed),
            inputs.flags.drop ==> exists|k: int|
                drop_lands(
                    brick_grid@,
                    after_input_move(*old(self), brick_grid@, *inputs),
                    drop_orientation(*old(self), *inputs),
                    *final(self),
                    k,
                ),
            !inputs.flags.drop ==> *final(self) == after_input_move(
                *old(self),
                brick_grid@,
                *inputs,
            ),
            !inputs.flags.drop ==> r.event == if move_allowed(
                *old(self),
                brick_grid@,
                shifted_offset(old(self).offset, inputs.shift),
                rotated_orientation(old(self).orient, inputs.rotation),
            ) {
                Some(PieceEvent::Moved)
            } else {
                None
            },
    {
        let new_offset = match inputs.shift() {
            Shift::NoShift => None,
            Shift::Left => Some(self.shift_left_offset()),
            Shift::Right => Some(self.shift_right_offset()),
        };
        let new_orient = match inputs.rotation() {
            Rotation::NoRotation => None,
            Rotation::CW => Some(self.rot_cw()),
            Rotation::CCW => Some(self.rot_ccw()),
        };
        let fast_fall = inputs.flags().contains(InputFlags::fast_fall());
        let moved = self.check_move(brick_grid, new_offset, new_orient);
        if inputs.flags().contains(InputFlags::drop()) {
            let ghost g = brick_grid@;
            let ghost start = *self;
            let ghost keep = match new_orient {
                Some(o) => o,
                None => start.orient,
            };
            assert(start.offset.y == old(self).offset.y);
            let mut drop_offset = self.fall_offset();
            let ghost mut k: int = 0;
            loop
                invariant
                    g == brick_grid@,
                    keep == match new_orient {
                        Some(o) => o,
                        None => start.orient,
                    },
                    0 <= k,
                    start.offset.y - k - 1 >= i32::MIN,
                    drop_offset == (GridVec {
                        x: start.offset.x,
                        y: (start.offset.y - k - 1) as i32,
                    }),
                    forall|j: int|
                        1 <= j <= k ==> #[trigger] piece_fits(
                            g,
                            GridVec { x: start.offset.x, y: (start.offset.y - j) as i32 },
                            start.kind,
                            keep,
                        ),
                    k > 0 ==> start.offset.y - k >= 0,
                    *self == if k == 0 {
                        start
                    } else {
                        Tetromino {
                            offset: GridVec { x: start.offset.x, y: (start.offset.y - k) as i32 },
                            kind: start.kind,
                            orient: keep,
                        }
                    },
                ensures
                    drop_lands(g, start, keep, *self, k),
                decreases drop_offset.y + 1,
            {
                if !self.check_move(brick_grid, Some(drop_offset), new_orient) {
                    break;
                }
                proof {
                    lemma_fits_row_non_negative(g, drop_offset, start.kind, keep);
                    k = k + 1;
                }
                drop_offset = self.fall_offset();
            }
            assert(new_orient == rotated_orientation(old(self).orient, inputs.rotation));
            assert(start == after_move(*old(self), g, new_offset, new_orient));
            assert(drop_lands(
                g,
                after_input_move(*old(self), g, *inputs),
                drop_orientation(*old(self), *inputs),
                *self,
                k,
            ));
            InputResponse { fast_fall, event: Some(PieceEvent::Placed) }
        } else if moved {
            InputResponse { fast_fall, event: Some(PieceEvent::Moved) }
        } else {
            InputResponse { fast_fall, event: None }
        }
    }
}

/// Points scored for clearing `rows` rows with one tetromino.
pub open spec fn row_clear_points(rows: int) -> int {
    if rows == 1 {
        100
    } else if rows == 2 {
        300
    } else if rows == 3 {
        500
    } else if rows == 4 {
        800
    } else {
        0
    }
}

/// The player's score and count of cleared rows.
#[derive(Clone, Copy, Debug, PartialEq, Eq, Structural)]
pub struct Scoreboard {
    pub time: usize,
    pub cleared_rows: usize,
    pub score: usize,
}

impl Scoreboard {
    /// Points scored for clearing `rows` rows with one tetromino.
    pub fn points_for(rows: usize) -> (r: usize)
        ensures
            r == row_clear_points(rows as int),
    {
        match rows {
            1 => 100,
            2 => 300,
            3 => 500,
            4 => 800,
            _ => 0,
        }
    }

    /// Adds the rows that one tetromino cleared, and their points.
    pub fn record_row_clear(&mut self, rows: usize)
        requires
            old(self).cleared_rows + rows <= usize::MAX,
            old(self).score + row_clear_points(rows as int) <= usize::MAX,
        ensures
            final(self).cleared_rows == old(self).cleared_rows + rows,
            final(self).score == old(self).score + row_clear_points(rows as int),
            final(self).time == old(self).time,
    {
        self.cleared_rows = self.cleared_rows + rows;
        let points = Scoreboard::points_for(rows);
        self.score = self.score + points;
    }
}

impl Default for Scoreboard {
    fn default() -> (r: Scoreboard)
        ensures
            r.time == 0,
            r.cleared_rows == 0,
            r.score == 0,
    {
        Scoreboard { time: 0, cleared_rows: 0, score: 0 }
    }
}

/// A move that is allowed leaves the tetromino where it fits, and one that is not leaves it
/// where it was.
pub proof fn lemma_move_lands_on_fit(
    t: Tetromino,
    g: Seq<Seq<Option<TetrominoType>>>,
    new_offset: Option<GridVec>,
    new_orient: Option<TetrominoOrientation>,
)
    ensures
        move_allowed(t, g, new_offset, new_orient) ==> piece_fits(
            g,
            after_move(t, g, new_offset, new_orient).offset,
            t.kind,
            after_move(t, g, new_offset, new_orient).orient,
        ),
        !move_allowed(t, g, new_offset, new_orient) ==> after_move(t, g, new_offset, new_orient)
            == t,
        after_move(t, g, new_offset, new_orient).kind == t.kind,
{
}

/// A tetromino that fits stays fitting through any attempted move.
pub proof fn lemma_fit_is_kept(
    t: Tetromino,
    g: Seq<Seq<Option<TetrominoType>>>,
    new_offset: Option<GridVec>,
    new_orient: Option<TetrominoOrientation>,
)
    requires
        piece_fits(g, t.offset, t.kind, t.orient),
    ensures
        ({
            let u = after_move(t, g, new_offset, new_orient);
            piece_fits(g, u.offset, u.kind, u.orient)
        }),
{
}

/// A hard drop that starts where the tetromino fits ends where it fits, and the row below
/// its resting place, in the orientation it kept, does not fit.
pub proof fn lemma_drop_rests_on_fit(
    g: Seq<Seq<Option<TetrominoType>>>,
    start: Tetromino,
    orient: TetrominoOrientation,
    end: Tetromino,
    k: int,
)
    requires
        drop_lands(g, start, orient, end, k),
        piece_fits(g, start.offset, start.kind, start.orient),
    ensures
        piece_fits(g, end.offset, end.kind, end.orient),
        end.offset.x == start.offset.x,
        end.offset.y - 1 >= i32::MIN,
        k > 0 ==> !piece_fits(
            g,
            GridVec { x: end.offset.x, y: (end.offset.y - 1) as i32 },
            end.kind,
            end.orient,
        ),
{
    if k > 0 {
        assert(piece_fits(
            g,
            GridVec { x: start.offset.x, y: (start.offset.y - k) as i32 },
            start.kind,
            orient,
        ));
    }
}

} // verus!
