use vstd::prelude::*;

use crate::random::{random_below, RngRes};

verus! {

/// A point or offset on the brick grid, in whole cells.
#[derive(Clone, Copy, Debug, PartialEq, Eq, Structural)]
pub struct GridVec {
    pub x: i32,
    pub y: i32,
}

impl GridVec {
    pub fn new(x: i32, y: i32) -> (r: GridVec)
        ensures
            r.x == x,
            r.y == y,
    {
        GridVec { x, y }
    }

    /// The same vector with its column replaced.
    pub fn with_x(self, x: i32) -> (r: GridVec)
        ensures
            r.x == x,
            r.y == self.y,
    {
        GridVec { x, y: self.y }
    }

    /// The same vector with its row replaced.
    pub fn with_y(self, y: i32) -> (r: GridVec)
        ensures
            r.x == self.x,
            r.y == y,
    {
        GridVec { x: self.x, y }
    }
}

/// The seven tetromino shapes.
#[derive(Clone, Copy, Debug, PartialEq, Eq, Structural)]
pub enum TetrominoType {
    I,
    J,
    L,
    O,
    S,
    T,
    Z,
}

/// Number of tetromino shapes.
pub const TETROMINO_KINDS: u8 = 7;

impl TetrominoType {
    /// Position of the shape in declaration order.
    pub open spec fn spec_index(self) -> nat {
        match self {
            TetrominoType::I => 0,
            TetrominoType::J => 1,
            TetrominoType::L => 2,
            TetrominoType::O => 3,
            TetrominoType::S => 4,
            TetrominoType::T => 5,
            TetrominoType::Z => 6,
        }
    }

    /// The shape at position `i` in declaration order.
    pub open spec fn spec_from_index(i: nat) -> TetrominoType {
        if i == 0 {
            TetrominoType::I
        } else if i == 1 {
            TetrominoType::J
        } else if i == 2 {
            TetrominoType::L
        } else if i == 3 {
            TetrominoType::O
        } else if i == 4 {
            TetrominoType::S
        } else if i == 5 {
            TetrominoType::T
        } else {
            TetrominoType::Z
        }
    }

    pub fn index(self) -> (r: u8)
        ensures
            r == self.spec_index(),
            r < TETROMINO_KINDS,
    {
        match self {
            TetrominoType::I => 0,
            TetrominoType::J => 1,
            TetrominoType::L => 2,
            TetrominoType::O => 3,
            TetrominoType::S => 4,
            TetrominoType::T => 5,
            TetrominoType::Z => 6,
        }
    }

    /// The shape whose position in declaration order is `i`.
    pub fn from_index(i: u8) -> (r: TetrominoType)
        requires
            i < TETROMINO_KINDS,
        ensures
            r == Self::spec_from_index(i as nat),
            r.spec_index() == i,
    {
        if i == 0 {
            TetrominoType::I
        } else if i == 1 {
            TetrominoType::J
        } else if i == 2 {
            TetrominoType::L
        } else if i == 3 {
            TetrominoType::O
        } else if i == 4 {
            TetrominoType::S
        } else if i == 5 {
            TetrominoType::T
        } else {
            TetrominoType::Z
        }
    }
}

/// Rotation of a tetromino, in quarter turns clockwise from its spawn position.
#[derive(Clone, Copy, Debug, PartialEq, Eq, Structural)]
pub enum TetrominoOrientation {
    Zero,
    Ninety,
    OneEighty,
    TwoSeventy,
}

impl TetrominoOrientation {
    /// Number of clockwise quarter turns from `Zero`.
    pub open spec fn quarter_turns(self) -> int {
        match self {
            TetrominoOrientation::Zero => 0,
            TetrominoOrientation::Ninety => 1,
            TetrominoOrientation::OneEighty => 2,
            TetrominoOrientation::TwoSeventy => 3,
        }
    }

    /// The orientation that lies `n` clockwise quarter turns from `Zero`.
    pub open spec fn from_quarter_turns(n: int) -> TetrominoOrientation {
        let m = n % 4;
        if m == 0 {
            TetrominoOrientation::Zero
        } else if m == 1 {
            TetrominoOrientation::Ninety
        } else if m == 2 {
            TetrominoOrientation::OneEighty
        } else {
            TetrominoOrientation::TwoSeventy
        }
    }

    pub open spec fn spec_rot_cw(self) -> TetrominoOrientation {
        Self::from_quarter_turns(self.quarter_turns() + 1)
    }

    pub open spec fn spec_rot_ccw(self) -> TetrominoOrientation {
        Self::from_quarter_turns(self.quarter_turns() + 3)
    }

    /// Turns a quarter turn clockwise.
    pub fn rot_cw(self) -> (r: TetrominoOrientation)
        ensures
            r == self.spec_rot_cw(),
    {
        match self {
            TetrominoOrientation::Zero => TetrominoOrientation::Ninety,
            TetrominoOrientation::Ninety => TetrominoOrientation::OneEighty,
            TetrominoOrientation::OneEighty => TetrominoOrientation::TwoSeventy,
            TetrominoOrientation::TwoSeventy => TetrominoOrientation::Zero,
        }
    }

    /// Turns a quarter turn counter-clockwise.
    pub fn rot_ccw(self) -> (r: TetrominoOrientation)
        ensures
            r == self.spec_rot_ccw(),
    {
        match self {
            TetrominoOrientation::Zero => TetrominoOrientation::TwoSeventy,
            TetrominoOrientation::Ninety => TetrominoOrientation::Zero,
            TetrominoOrientation::OneEighty => TetrominoOrientation::Ninety,
            TetrominoOrientation::TwoSeventy => TetrominoOrientation::OneEighty,
        }
    }
}

impl Default for TetrominoOrientation {
    fn default() -> (r: TetrominoOrientation)
        ensures
            r == TetrominoOrientation::Zero,
    {
        TetrominoOrientation::Zero
    }
}

/// A clockwise quarter turn followed by a counter-clockwise one, or the other way round,
/// gives back the orientation one started with.
pub proof fn lemma_rotations_cancel(o: TetrominoOrientation)
    ensures
        o.spec_rot_cw().spec_rot_ccw() == o,
        o.spec_rot_ccw().spec_rot_cw() == o,
{
}

/// Four clockwise (or four counter-clockwise) quarter turns give back the orientation one
/// started with, and no fewer do.
pub proof fn lemma_four_turns_are_identity(o: TetrominoOrientation)
    ensures
        o.spec_rot_cw().spec_rot_cw().spec_rot_cw().spec_rot_cw() == o,
        o.spec_rot_ccw().spec_rot_ccw().spec_rot_ccw().spec_rot_ccw() == o,
        o.spec_rot_cw() != o,
        o.spec_rot_cw().spec_rot_cw() != o,
        o.spec_rot_cw().spec_rot_cw().spec_rot_cw() != o,
{
}

/// Four brick offsets.
pub open spec fn cells4(ax: i32, ay: i32, bx: i32, by: i32, cx: i32, cy: i32, dx: i32, dy: i32) -> Seq<GridVec> {
    seq![
        GridVec { x: ax, y: ay },
        GridVec { x: bx, y: by },
        GridVec { x: cx, y: cy },
        GridVec { x: dx, y: dy },
    ]
}

fn make_cells(ax: i32, ay: i32, bx: i32, by: i32, cx: i32, cy: i32, dx: i32, dy: i32) -> (r: [GridVec; 4])
    ensures
        r@ == cells4(ax, ay, bx, by, cx, cy, dx, dy),
{
    let r = [
        GridVec { x: ax, y: ay },
        GridVec { x: bx, y: by },
        GridVec { x: cx, y: cy },
        GridVec { x: dx, y: dy },
    ];
    assert(r@ =~= cells4(ax, ay, bx, by, cx, cy, dx, dy));
    r
}

/// The offsets of the four bricks of a tetromino of the given shape and orientation.
/// A brick with offset `b` of a tetromino at `offset` lies in column `offset.x - b.x`
/// and row `offset.y - b.y`.
pub open spec fn shape(kind: TetrominoType, orient: TetrominoOrientation) -> Seq<GridVec> {
    match (kind, orient) {
        (TetrominoType::I, TetrominoOrientation::Zero) => cells4(0, 1, 1, 1, 2, 1, 3, 1),
        (TetrominoType::I, TetrominoOrientation::Ninety) => cells4(1, 3, 1, 2, 1, 1, 1, 0),
        (TetrominoType::I, TetrominoOrientation::OneEighty) => cells4(0, 1, 1, 1, 2, 1, 3, 1),
        (TetrominoType::I, TetrominoOrientation::TwoSeventy) => cells4(1, 3, 1, 2, 1, 1, 1, 0),
        (TetrominoType::J, TetrominoOrientation::Zero) => cells4(2, 2, 0, 1, 1, 1, 2, 1),
        (TetrominoType::J, TetrominoOrientation::Ninety) => cells4(1, 2, 1, 1, 1, 0, 2, 0),
        (TetrominoType::J, TetrominoOrientation::OneEighty) => cells4(0, 1, 1, 1, 2, 1, 0, 0),
        (TetrominoType::J, TetrominoOrientation::TwoSeventy) => cells4(1, 2, 0, 2, 1, 1, 1, 0),
        (TetrominoType::L, TetrominoOrientation::Zero) => cells4(0, 2, 0, 1, 1, 1, 2, 1),
        (TetrominoType::L, TetrominoOrientation::Ninety) => cells4(1, 2, 2, 2, 1, 1, 1, 0),
        (TetrominoType::L, TetrominoOrientation::OneEighty) => cells4(2, 0, 0, 1, 1, 1, 2, 1),
        (TetrominoType::L, TetrominoOrientation::TwoSeventy) => cells4(1, 2, 1, 1, 0, 0, 1, 0),
        (TetrominoType::O, TetrominoOrientation::Zero) => cells4(0, 2, 1, 2, 0, 1, 1, 1),
        (TetrominoType::O, TetrominoOrientation::Ninety) => cells4(0, 2, 1, 2, 0, 1, 1, 1),
        (TetrominoType::O, TetrominoOrientation::OneEighty) => cells4(0, 2, 1, 2, 0, 1, 1, 1),
        (TetrominoType::O, TetrominoOrientation::TwoSeventy) => cells4(0, 2, 1, 2, 0, 1, 1, 1),
        (TetrominoType::S, TetrominoOrientation::Zero) => cells4(0, 2, 1, 2, 1, 1, 2, 1),
        (TetrominoType::S, TetrominoOrientation::Ninety) => cells4(1, 2, 0, 1, 1, 1, 0, 0),
        (TetrominoType::S, TetrominoOrientation::OneEighty) => cells4(0, 2, 1, 2, 1, 1, 2, 1),
        (TetrominoType::S, TetrominoOrientation::TwoSeventy) => cells4(1, 2, 0, 1, 1, 1, 0, 0),
        (TetrominoType::T, TetrominoOrientation::Zero) => cells4(1, 2, 0, 1, 1, 1, 2, 1),
        (TetrominoType::T, TetrominoOrientation::Ninety) => cells4(1, 2, 1, 1, 2, 1, 1, 0),
        (TetrominoType::T, TetrominoOrientation::OneEighty) => cells4(0, 1, 1, 1, 2, 1, 1, 0),
        (TetrominoType::T, TetrominoOrientation::TwoSeventy) => cells4(1, 2, 1, 1, 0, 1, 1, 0),
        (TetrominoType::Z, TetrominoOrientation::Zero) => cells4(1, 2, 2, 2, 0, 1, 1, 1),
        (TetrominoType::Z, TetrominoOrientation::Ninety) => cells4(0, 2, 1, 1, 0, 1, 1, 0),
        (TetrominoType::Z, TetrominoOrientation::OneEighty) => cells4(1, 2, 2, 2, 0, 1, 1, 1),
        (TetrominoType::Z, TetrominoOrientation::TwoSeventy) => cells4(0, 2, 1, 1, 0, 1, 1, 0),
    }
}

/// Every brick offset of every shape lies in `0..4` in both directions.
pub proof fn lemma_shape_bounds(kind: TetrominoType, orient: TetrominoOrientation)
    ensures
        shape(kind, orient).len() == 4,
        forall|i: int|
            0 <= i < 4 ==> 0 <= (#[trigger] shape(kind, orient)[i]).x < 4 && 0 <= shape(
                kind,
                orient,
            )[i].y < 4,
{
    let s = shape(kind, orient);
    assert(0 <= s[0].x < 4 && 0 <= s[0].y < 4);
    assert(0 <= s[1].x < 4 && 0 <= s[1].y < 4);
    assert(0 <= s[2].x < 4 && 0 <= s[2].y < 4);
    assert(0 <= s[3].x < 4 && 0 <= s[3].y < 4);
}

/// The offset `a` turned a quarter turn clockwise (with y up) about the origin, then moved by
/// `t`.
pub open spec fn turned(a: GridVec, t: (int, int)) -> (int, int) {
    (a.y + t.0, -a.x + t.1)
}

/// The set of brick offsets, as pairs.
pub open spec fn offset_set(s: Seq<GridVec>) -> Set<(int, int)> {
    s.map_values(|a: GridVec| (a.x as int, a.y as int)).to_set()
}

/// The set of brick offsets turned a quarter turn clockwise and moved by `t`.
pub open spec fn turned_set(s: Seq<GridVec>, t: (int, int)) -> Set<(int, int)> {
    s.map_values(|a: GridVec| turned(a, t)).to_set()
}

/// How far the turned offsets of a shape are moved to give the offsets of the next
/// orientation.
pub open spec fn turn_shift(kind: TetrominoType, orient: TetrominoOrientation) -> (int, int) {
    match (kind, orient) {
        (TetrominoType::I, TetrominoOrientation::Zero) => (0, 3),
        (TetrominoType::I, TetrominoOrientation::Ninety) => (0, 2),
        (TetrominoType::I, TetrominoOrientation::OneEighty) => (0, 3),
        (TetrominoType::I, TetrominoOrientation::TwoSeventy) => (0, 2),
        (TetrominoType::J, TetrominoOrientation::Zero) => (0, 2),
        (TetrominoType::J, TetrominoOrientation::Ninety) => (0, 2),
        (TetrominoType::J, TetrominoOrientation::OneEighty) => (0, 2),
        (TetrominoType::J, TetrominoOrientation::TwoSeventy) => (0, 2),
        (TetrominoType::L, TetrominoOrientation::Zero) => (0, 2),
        (TetrominoType::L, TetrominoOrientation::Ninety) => (0, 2),
        (TetrominoType::L, TetrominoOrientation::OneEighty) => (0, 2),
        (TetrominoType::L, TetrominoOrientation::TwoSeventy) => (0, 2),
        (TetrominoType::O, TetrominoOrientation::Zero) => (-1, 2),
        (TetrominoType::O, TetrominoOrientation::Ninety) => (-1, 2),
        (TetrominoType::O, TetrominoOrientation::OneEighty) => (-1, 2),
        (TetrominoType::O, TetrominoOrientation::TwoSeventy) => (-1, 2),
        (TetrominoType::S, TetrominoOrientation::Zero) => (-1, 2),
        (TetrominoType::S, TetrominoOrientation::Ninety) => (0, 2),
        (TetrominoType::S, TetrominoOrientation::OneEighty) => (-1, 2),
        (TetrominoType::S, TetrominoOrientation::TwoSeventy) => (0, 2),
        (TetrominoType::T, TetrominoOrientation::Zero) => (0, 2),
        (TetrominoType::T, TetrominoOrientation::Ninety) => (0, 2),
        (TetrominoType::T, TetrominoOrientation::OneEighty) => (0, 2),
        (TetrominoType::T, TetrominoOrientation::TwoSeventy) => (0, 2),
        (TetrominoType::Z, TetrominoOrientation::Zero) => (-1, 2),
        (TetrominoType::Z, TetrominoOrientation::Ninety) => (0, 2),
        (TetrominoType::Z, TetrominoOrientation::OneEighty) => (-1, 2),
        (TetrominoType::Z, TetrominoOrientation::TwoSeventy) => (0, 2),
    }
}

proof fn lemma_set_of_four<A>(s: Seq<A>)
    requires
        s.len() == 4,
    ensures
        s.to_set() == set![s[0], s[1], s[2], s[3]],
{
    assert forall|x: A| s.to_set().contains(x) implies set![s[0], s[1], s[2], s[3]].contains(x) by {
        let i = choose|i: int| 0 <= i < s.len() && s[i] == x;
        assert(i == 0 || i == 1 || i == 2 || i == 3);
    }
    assert forall|x: A| set![s[0], s[1], s[2], s[3]].contains(x) implies s.to_set().contains(x) by {
        if x == s[0] {
            assert(s.contains(s[0]));
        } else if x == s[1] {
            assert(s.contains(s[1]));
        } else if x == s[2] {
            assert(s.contains(s[2]));
        } else {
            assert(s.contains(s[3]));
        }
    }
    assert(s.to_set() =~= set![s[0], s[1], s[2], s[3]]);
}

/// A clockwise quarter turn turns the shape: the brick offsets of the next orientation are
/// those of the current one turned a quarter turn clockwise (with y up) and moved, so the
/// shape keeps its form and handedness.
pub proof fn lemma_rot_cw_turns_shape(kind: TetrominoType, orient: TetrominoOrientation)
    ensures
        exists|t: (int, int)|
            offset_set(shape(kind, orient.spec_rot_cw())) == turned_set(shape(kind, orient), t),
{
    let t = turn_shift(kind, orient);
    let cur = shape(kind, orient);
    let next = shape(kind, orient.spec_rot_cw());
    let a = next.map_values(|a: GridVec| (a.x as int, a.y as int));
    let b = cur.map_values(|a: GridVec| turned(a, t));
    lemma_set_of_four(a);
    lemma_set_of_four(b);
    assert(a.to_set() =~= b.to_set());
    assert(offset_set(next) == turned_set(cur, t));
}

/// Where tetrominoes spawn, and what they are.
pub struct TetrominoData {
    pub offset: GridVec,
    pub kind: TetrominoType,
    pub orient: TetrominoOrientation,
}

/// Column of the offset at which tetrominoes spawn.
pub const SPAWN_X: i32 = 5;

/// Row of the offset at which tetrominoes spawn: the grid's height.
pub const SPAWN_Y: i32 = 20;

impl TetrominoData {
    /// A tetromino of shape `kind` at the spawn offset, unrotated.
    pub fn spawn(kind: TetrominoType) -> (r: TetrominoData)
        ensures
            r.offset == (GridVec { x: SPAWN_X, y: SPAWN_Y }),
            r.kind == kind,
            r.orient == TetrominoOrientation::Zero,
    {
        TetrominoData {
            offset: GridVec::new(SPAWN_X, SPAWN_Y),
            orient: TetrominoOrientation::default(),
            kind,
        }
    }

    /// A tetromino of a shape drawn from `rng`, at the spawn offset, unrotated.
    pub fn new(rng: &mut RngRes) -> (r: TetrominoData)
        ensures
            r.offset == (GridVec { x: SPAWN_X, y: SPAWN_Y }),
            r.orient == TetrominoOrientation::Zero,
    {
        let index = random_below(&mut rng.gener, TETROMINO_KINDS);
        TetrominoData::spawn(TetrominoType::from_index(index))
    }

    /// The brick offsets of a tetromino of the given shape and orientation.
    pub fn get_data(kind: TetrominoType, orientation: TetrominoOrientation) -> (r: [GridVec; 4])
        ensures
            r@ == shape(kind, orientation),
    {
        match (kind, orientation) {
            (TetrominoType::I, TetrominoOrientation::Zero) => make_cells(0, 1, 1, 1, 2, 1, 3, 1),
            (TetrominoType::I, TetrominoOrientation::Ninety) => make_cells(1, 3, 1, 2, 1, 1, 1, 0),
            (TetrominoType::I, TetrominoOrientation::OneEighty) => make_cells(0, 1, 1, 1, 2, 1, 3, 1),
            (TetrominoType::I, TetrominoOrientation::TwoSeventy) => make_cells(1, 3, 1, 2, 1, 1, 1, 0),
            (TetrominoType::J, TetrominoOrientation::Zero) => make_cells(2, 2, 0, 1, 1, 1, 2, 1),
            (TetrominoType::J, TetrominoOrientation::Ninety) => make_cells(1, 2, 1, 1, 1, 0, 2, 0),
            (TetrominoType::J, TetrominoOrientation::OneEighty) => make_cells(0, 1, 1, 1, 2, 1, 0, 0),
            (TetrominoType::J, TetrominoOrientation::TwoSeventy) => make_cells(1, 2, 0, 2, 1, 1, 1, 0),
            (TetrominoType::L, TetrominoOrientation::Zero) => make_cells(0, 2, 0, 1, 1, 1, 2, 1),
            (TetrominoType::L, TetrominoOrientation::Ninety) => make_cells(1, 2, 2, 2, 1, 1, 1, 0),
            (TetrominoType::L, TetrominoOrientation::OneEighty) => make_cells(2, 0, 0, 1, 1, 1, 2, 1),
            (TetrominoType::L, TetrominoOrientation::TwoSeventy) => make_cells(1, 2, 1, 1, 0, 0, 1, 0),
            (TetrominoType::O, TetrominoOrientation::Zero) => make_cells(0, 2, 1, 2, 0, 1, 1, 1),
            (TetrominoType::O, TetrominoOrientation::Ninety) => make_cells(0, 2, 1, 2, 0, 1, 1, 1),
            (TetrominoType::O, TetrominoOrientation::OneEighty) => make_cells(0, 2, 1, 2, 0, 1, 1, 1),
            (TetrominoType::O, TetrominoOrientation::TwoSeventy) => make_cells(0, 2, 1, 2, 0, 1, 1, 1),
            (TetrominoType::S, TetrominoOrientation::Zero) => make_cells(0, 2, 1, 2, 1, 1, 2, 1),
            (TetrominoType::S, TetrominoOrientation::Ninety) => make_cells(1, 2, 0, 1, 1, 1, 0, 0),
            (TetrominoType::S, TetrominoOrientation::OneEighty) => make_cells(0, 2, 1, 2, 1, 1, 2, 1),
            (TetrominoType::S, TetrominoOrientation::TwoSeventy) => make_cells(1, 2, 0, 1, 1, 1, 0, 0),
            (TetrominoType::T, TetrominoOrientation::Zero) => make_cells(1, 2, 0, 1, 1, 1, 2, 1),
            (TetrominoType::T, TetrominoOrientation::Ninety) => make_cells(1, 2, 1, 1, 2, 1, 1, 0),
            (TetrominoType::T, TetrominoOrientation::OneEighty) => make_cells(0, 1, 1, 1, 2, 1, 1, 0),
            (TetrominoType::T, TetrominoOrientation::TwoSeventy) => make_cells(1, 2, 1, 1, 0, 1, 1, 0),
            (TetrominoType::Z, TetrominoOrientation::Zero) => make_cells(1, 2, 2, 2, 0, 1, 1, 1),
            (TetrominoType::Z, TetrominoOrientation::Ninety) => make_cells(0, 2, 1, 1, 0, 1, 1, 0),
            (TetrominoType::Z, TetrominoOrientation::OneEighty) => make_cells(1, 2, 2, 2, 0, 1, 1, 1),
            (TetrominoType::Z, TetrominoOrientation::TwoSeventy) => make_cells(0, 2, 1, 1, 0, 1, 1, 0),
        }
    }
}

} // verus!
