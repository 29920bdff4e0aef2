use vstd::prelude::*;

use crate::pieces::{shape, GridVec, TetrominoData, TetrominoOrientation, TetrominoType};

verus! {

/// Number of columns of the brick grid.
pub const GRID_WIDTH: usize = 10;

/// Number of rows of the brick grid.
pub const GRID_HEIGHT: usize = 20;

/// Collision and colour data of the bricks that have come to rest.
///
/// Row 0 is the bottom row; column 0 the leftmost column.
pub struct BrickGrid {
    data: [[Option<TetrominoType>; GRID_WIDTH]; GRID_HEIGHT],
}

/// A row with no brick in it.
pub open spec fn empty_row() -> Seq<Option<TetrominoType>> {
    Seq::new(GRID_WIDTH as nat, |x: int| None::<TetrominoType>)
}

/// A grid with no brick in it.
pub open spec fn empty_grid() -> Seq<Seq<Option<TetrominoType>>> {
    Seq::new(GRID_HEIGHT as nat, |y: int| empty_row())
}

/// `g` has `GRID_HEIGHT` rows of `GRID_WIDTH` cells each.
pub open spec fn well_sized(g: Seq<Seq<Option<TetrominoType>>>) -> bool {
    &&& g.len() == GRID_HEIGHT
    &&& forall|y: int| 0 <= y < GRID_HEIGHT ==> (#[trigger] g[y]).len() == GRID_WIDTH
}

/// Every cell of the row holds a brick.
pub open spec fn row_full(row: Seq<Option<TetrominoType>>) -> bool {
    forall|x: int| 0 <= x < row.len() ==> (#[trigger] row[x]) is Some
}

/// The cell (column, row) that a brick with offset `brick` of a tetromino at `offset` covers.
pub open spec fn brick_cell(offset: GridVec, brick: GridVec) -> (int, int) {
    (offset.x - brick.x, offset.y - brick.y)
}

/// The cell lies on the grid.
pub open spec fn on_grid(c: (int, int)) -> bool {
    0 <= c.0 < GRID_WIDTH && 0 <= c.1 < GRID_HEIGHT
}

/// The cell covered by brick `i` of a tetromino.
pub open spec fn piece_cell(
    offset: GridVec,
    kind: TetrominoType,
    orient: TetrominoOrientation,
    i: int,
) -> (int, int) {
    brick_cell(offset, shape(kind, orient)[i])
}

/// Every brick of the tetromino lies on the grid.
pub open spec fn piece_on_grid(
    offset: GridVec,
    kind: TetrominoType,
    orient: TetrominoOrientation,
) -> bool {
    forall|i: int| 0 <= i < 4 ==> on_grid(#[trigger] piece_cell(offset, kind, orient, i))
}

/// Every brick of the tetromino lies on the grid, on an empty cell.
pub open spec fn piece_fits(
    g: Seq<Seq<Option<TetrominoType>>>,
    offset: GridVec,
    kind: TetrominoType,
    orient: TetrominoOrientation,
) -> bool {
    forall|i: int|
        0 <= i < 4 ==> {
            let c = #[trigger] piece_cell(offset, kind, orient, i);
            on_grid(c) && g[c.1][c.0] is None
        }
}

/// `g` with the cell `c` set to `v`.
pub open spec fn set_cell(
    g: Seq<Seq<Option<TetrominoType>>>,
    c: (int, int),
    v: Option<TetrominoType>,
) -> Seq<Seq<Option<TetrominoType>>> {
    g.update(c.1, g[c.1].update(c.0, v))
}

/// `g` after the first `n` bricks of the tetromino have been written into it.
pub open spec fn place_first(
    g: Seq<Seq<Option<TetrominoType>>>,
    offset: GridVec,
    kind: TetrominoType,
    orient: TetrominoOrientation,
    n: nat,
) -> Seq<Seq<Option<TetrominoType>>>
    decreases n,
{
    if n == 0 {
        g
    } else {
        set_cell(
            place_first(g, offset, kind, orient, (n - 1) as nat),
            piece_cell(offset, kind, orient, n - 1),
            Some(kind),
        )
    }
}

/// The rows recorded as completed while the first `n` bricks are written: after brick `i` is
/// written, its row is recorded when that row is full.
pub open spec fn cleared_first(
    g: Seq<Seq<Option<TetrominoType>>>,
    offset: GridVec,
    kind: TetrominoType,
    orient: TetrominoOrientation,
    n: nat,
) -> Seq<int>
    decreases n,
{
    if n == 0 {
        Seq::empty()
    } else {
        let prev = cleared_first(g, offset, kind, orient, (n - 1) as nat);
        let y = piece_cell(offset, kind, orient, n - 1).1;
        if row_full(place_first(g, offset, kind, orient, n)[y]) {
            prev.push(y)
        } else {
            prev
        }
    }
}

/// The rows kept, in order, when the rows `0..n` of `rows` are scanned against the recorded
/// rows `cleared`: a row is dropped when it equals the next recorded row not yet matched, which
/// then counts as matched. The second component is the number of recorded rows matched.
pub open spec fn kept_rows(
    rows: Seq<Seq<Option<TetrominoType>>>,
    cleared: Seq<int>,
    n: nat,
) -> (Seq<Seq<Option<TetrominoType>>>, nat)
    decreases n,
{
    if n == 0 {
        (Seq::empty(), 0)
    } else {
        let (kept, matched) = kept_rows(rows, cleared, (n - 1) as nat);
        if matched < cleared.len() && cleared[matched as int] == n - 1 {
            (kept, matched + 1)
        } else {
            (kept.push(rows[n - 1]), matched)
        }
    }
}

/// The grid after the recorded rows are taken out: the rows kept from the lowest
/// `GRID_HEIGHT - cleared.len()` rows move down to the bottom, and empty rows fill the rest.
pub open spec fn compacted(
    rows: Seq<Seq<Option<TetrominoType>>>,
    cleared: Seq<int>,
) -> Seq<Seq<Option<TetrominoType>>> {
    let kept = kept_rows(rows, cleared, (GRID_HEIGHT - cleared.len()) as nat).0;
    kept + Seq::new((GRID_HEIGHT - kept.len()) as nat, |i: int| empty_row())
}

/// The rows that placing the tetromino records as completed.
pub open spec fn completed_rows(
    g: Seq<Seq<Option<TetrominoType>>>,
    offset: GridVec,
    kind: TetrominoType,
    orient: TetrominoOrientation,
) -> Seq<int> {
    cleared_first(g, offset, kind, orient, 4)
}

/// The grid after the tetromino is placed and the completed rows are taken out.
pub open spec fn after_place(
    g: Seq<Seq<Option<TetrominoType>>>,
    offset: GridVec,
    kind: TetrominoType,
    orient: TetrominoOrientation,
) -> Seq<Seq<Option<TetrominoType>>> {
    compacted(place_first(g, offset, kind, orient, 4), completed_rows(g, offset, kind, orient))
}

/// A brick at rest on the grid.
#[derive(Clone, Copy, Debug, PartialEq, Eq, Structural)]
pub struct PlacedBrick {
    pub x: usize,
    pub y: usize,
    pub kind: TetrominoType,
}

impl PlacedBrick {
    /// Position of the brick's cell when the grid is read row by row from the bottom, each row
    /// from left to right.
    pub open spec fn cell_order(self) -> int {
        self.y * GRID_WIDTH + self.x
    }
}

impl Default for BrickGrid {
    fn default() -> (r: BrickGrid)
        ensures
            r@ == empty_grid(),
    {
        BrickGrid::new()
    }
}

/// A row with no brick in it.
fn empty_row_array() -> (r: [Option<TetrominoType>; GRID_WIDTH])
    ensures
        r@ == empty_row(),
{
    let r = [None, None, None, None, None, None, None, None, None, None];
    assert(r@ =~= empty_row());
    r
}

/// Whether every brick of the tetromino lies on the grid.
pub fn is_on_grid(offset: GridVec, kind: TetrominoType, orient: TetrominoOrientation) -> (r: bool)
    ensures
        r == piece_on_grid(offset, kind, orient),
{
    let bricks = TetrominoData::get_data(kind, orient);
    let mut i: usize = 0;
    while i < 4
        invariant
            i <= 4,
            bricks@ == shape(kind, orient),
            forall|j: int| 0 <= j < i ==> on_grid(#[trigger] piece_cell(offset, kind, orient, j)),
        decreases 4 - i,
    {
        let brick = bricks[i];
        let cx: i64 = offset.x as i64 - brick.x as i64;
        let cy: i64 = offset.y as i64 - brick.y as i64;
        assert(piece_cell(offset, kind, orient, i as int) == (cx as int, cy as int));
        if cx < 0 || cx >= GRID_WIDTH as i64 || cy < 0 || cy >= GRID_HEIGHT as i64 {
            return false;
        }
        i = i + 1;
    }
    true
}

impl View for BrickGrid {
    type V = Seq<Seq<Option<TetrominoType>>>;

    /// The grid as rows, bottom row first, each a sequence of cells from left to right.
    closed spec fn view(&self) -> Seq<Seq<Option<TetrominoType>>> {
        self.data@.map_values(|row: [Option<TetrominoType>; GRID_WIDTH]| row@)
    }
}

impl BrickGrid {
    /// The view always has `GRID_HEIGHT` rows of `GRID_WIDTH` cells.
    pub proof fn lemma_well_sized(&self)
        ensures
            well_sized(self@),
    {
        assert forall|y: int| 0 <= y < GRID_HEIGHT implies (#[trigger] self@[y]).len()
            == GRID_WIDTH by {
            assert(self@[y] == self.data@[y]@);
        }
    }

    /// An empty grid.
    pub fn new() -> (r: BrickGrid)
        ensures
            r@ == empty_grid(),
    {
        let row = empty_row_array();
        let r = BrickGrid {
            data: [
                row, row, row, row, row, row, row, row, row, row, row, row, row, row, row, row,
                row, row, row, row,
            ],
        };
        assert(r.data@.len() == GRID_HEIGHT);
        assert forall|y: int| 0 <= y < GRID_HEIGHT implies #[trigger] r@[y] == empty_row() by {
            assert(r.data@[y] == row);
        }
        assert(r@ =~= empty_grid());
        r
    }

    /// The cell at column `x` and row `y`.
    pub fn get(&self, x: usize, y: usize) -> (r: Option<TetrominoType>)
        requires
            x < GRID_WIDTH,
            y < GRID_HEIGHT,
        ensures
            r == self@[y as int][x as int],
    {
        self.data[y][x]
    }

    /// Whether every cell of row `y` holds a brick.
    pub fn is_row_cleared(&self, y: usize) -> (r: bool)
        requires
            y < GRID_HEIGHT,
        ensures
            r == row_full(self@[y as int]),
    {
        proof {
            self.lemma_well_sized();
        }
        let row = self.data[y];
        assert(self@[y as int] == row@);
        let mut x: usize = 0;
        while x < GRID_WIDTH
            invariant
                x <= GRID_WIDTH,
                self@[y as int] == row@,
                row@.len() == GRID_WIDTH,
                forall|j: int| 0 <= j < x ==> (#[trigger] row@[j]) is Some,
            decreases GRID_WIDTH - x,
        {
            if row[x].is_none() {
                return false;
            }
            x = x + 1;
        }
        true
    }

    /// Writes a whole row.
    fn set_row(&mut self, y: usize, row: [Option<TetrominoType>; GRID_WIDTH])
        requires
            y < GRID_HEIGHT,
        ensures
            final(self)@ == old(self)@.update(y as int, row@),
    {
        self.data[y] = row;
        assert(self@ =~= old(self)@.update(y as int, row@));
    }

    /// Writes one cell.
    fn set(&mut self, x: usize, y: usize, v: Option<TetrominoType>)
        requires
            x < GRID_WIDTH,
            y < GRID_HEIGHT,
        ensures
            final(self)@ == set_cell(old(self)@, (x as int, y as int), v),
    {
        let mut row = self.data[y];
        row[x] = v;
        assert(row@ == old(self)@[y as int].update(x as int, v));
        self.set_row(y, row);
    }

    /// Places a tetromino and takes out the rows it completes; returns the number of
    /// completed rows.
    ///
    /// The bricks are written one after the other; each time a brick's row is then full, that
    /// row is recorded. The rows below `GRID_HEIGHT` minus the number recorded are then scanned
    /// from the bottom up and moved down over the recorded ones, matched in the order they were
    /// recorded (see `compacted`), and empty rows fill the grid up.
    pub fn place(
        &mut self,
        offset: GridVec,
        kind: TetrominoType,
        orient: TetrominoOrientation,
    ) -> (rows: usize)
        requires
            piece_on_grid(offset, kind, orient),
        ensures
            rows == completed_rows(old(self)@, offset, kind, orient).len(),
            final(self)@ == after_place(old(self)@, offset, kind, orient),
    {
        let ghost g0 = self@;
        let bricks = TetrominoData::get_data(kind, orient);
        let mut rows: usize = 0;
        let mut cleared_rows: [usize; 5] = [usize::MAX; 5];
        let mut i: usize = 0;
        while i < 4
            invariant
                i <= 4,
                bricks@ == shape(kind, orient),
                piece_on_grid(offset, kind, orient),
                self@ == place_first(g0, offset, kind, orient, i as nat),
                rows == cleared_first(g0, offset, kind, orient, i as nat).len(),
                rows <= i,
                forall|j: int| 0 <= j < rows ==> cleared_rows@[j] as int
                    == #[trigger] cleared_first(g0, offset, kind, orient, i as nat)[j],
                forall|j: int| rows <= j < 5 ==> #[trigger] cleared_rows@[j] == usize::MAX,
            decreases 4 - i,
        {
            let brick = bricks[i];
            assert(on_grid(piece_cell(offset, kind, orient, i as int)));
            let x = (offset.x - brick.x) as usize;
            let y = (offset.y - brick.y) as usize;
            assert(piece_cell(offset, kind, orient, i as int) == (x as int, y as int));
            self.set(x, y, Some(kind));
            if self.is_row_cleared(y) {
                cleared_rows[rows] = y;
                rows = rows + 1;
            }
            i = i + 1;
        }
        let ghost placed = self@;
        let ghost cleared = cleared_first(g0, offset, kind, orient, 4);
        proof {
            self.lemma_well_sized();
        }
        let end = GRID_HEIGHT - rows;
        let mut target: usize = 0;
        let mut row_offset: usize = 0;
        let mut y: usize = 0;
        while y < end
            invariant
                end == GRID_HEIGHT - rows,
                rows == cleared.len(),
                rows <= 4,
                y <= end,
                well_sized(placed),
                well_sized(self@),
                forall|j: int| 0 <= j < rows ==> cleared_rows@[j] as int == #[trigger] cleared[j],
                forall|j: int| rows <= j < 5 ==> #[trigger] cleared_rows@[j] == usize::MAX,
                kept_rows(placed, cleared, y as nat).0.len() == target,
                kept_rows(placed, cleared, y as nat).1 == row_offset,
                target <= y,
                row_offset <= rows,
                forall|j: int| 0 <= j < target ==> #[trigger] self@[j]
                    == kept_rows(placed, cleared, y as nat).0[j],
                forall|j: int| y <= j < GRID_HEIGHT ==> #[trigger] self@[j] == placed[j],
            decreases end - y,
        {
            if y == cleared_rows[row_offset] {
                row_offset = row_offset + 1;
                y = y + 1;
                continue;
            }
            let row = self.data[y];
            assert(self@[y as int] == row@);
            self.set_row(target, row);
            target = target + 1;
            y = y + 1;
        }
        let ghost kept = kept_rows(placed, cleared, end as nat).0;
        let mut y: usize = target;
        while y < GRID_HEIGHT
            invariant
                target == kept.len(),
                target <= y <= GRID_HEIGHT,
                well_sized(self@),
                forall|j: int| 0 <= j < target ==> #[trigger] self@[j] == kept[j],
                forall|j: int| target <= j < y ==> #[trigger] self@[j] == empty_row(),
            decreases GRID_HEIGHT - y,
        {
            let empty = empty_row_array();
            self.set_row(y, empty);
            y = y + 1;
        }
        assert(self@ =~= compacted(placed, cleared));
        rows
    }

    /// The bricks at rest, row by row from the bottom, each row from left to right.
    pub fn inactive_bricks(&self) -> (r: Vec<PlacedBrick>)
        ensures
            forall|i: int|
                0 <= i < r.len() ==> {
                    let b = #[trigger] r@[i];
                    b.x < GRID_WIDTH && b.y < GRID_HEIGHT && self@[b.y as int][b.x as int]
                        == Some(b.kind)
                },
            forall|x: int, y: int|
                0 <= x < GRID_WIDTH && 0 <= y < GRID_HEIGHT && (#[trigger] self@[y][x]) is Some
                    ==> exists|i: int| 0 <= i < r.len() && r@[i].x == x && r@[i].y == y,
            forall|i: int, j: int|
                0 <= i < j < r.len() ==> (#[trigger] r@[i]).cell_order() < (
                #[trigger] r@[j]).cell_order(),
    {
        proof {
            self.lemma_well_sized();
        }
        let mut r: Vec<PlacedBrick> = Vec::new();
        let mut y: usize = 0;
        while y < GRID_HEIGHT
            invariant
                y <= GRID_HEIGHT,
                well_sized(self@),
                forall|i: int|
                    0 <= i < r.len() ==> {
                        let b = #[trigger] r@[i];
                        b.x < GRID_WIDTH && b.y < y && self@[b.y as int][b.x as int] == Some(b.kind)
                    },
                forall|cx: int, cy: int|
                    0 <= cx < GRID_WIDTH && 0 <= cy < y && (#[trigger] self@[cy][cx]) is Some
                        ==> exists|i: int| 0 <= i < r.len() && r@[i].x == cx && r@[i].y == cy,
                forall|i: int, j: int|
                    0 <= i < j < r.len() ==> (#[trigger] r@[i]).cell_order() < (
                    #[trigger] r@[j]).cell_order(),
            decreases GRID_HEIGHT - y,
        {
            let mut x: usize = 0;
            while x < GRID_WIDTH
                invariant
                    x <= GRID_WIDTH,
                    y < GRID_HEIGHT,
                    well_sized(self@),
                    forall|i: int|
                        0 <= i < r.len() ==> {
                            let b = #[trigger] r@[i];
                            b.x < GRID_WIDTH && b.y <= y && (b.y == y ==> b.x < x)
                                && self@[b.y as int][b.x as int] == Some(b.kind)
                        },
                    forall|cx: int, cy: int|
                        0 <= cx < GRID_WIDTH && 0 <= cy <= y && (cy < y || cx < x)
                            && (#[trigger] self@[cy][cx]) is Some ==> exists|i: int|
                            0 <= i < r.len() && r@[i].x == cx && r@[i].y == cy,
                    forall|i: int, j: int|
                        0 <= i < j < r.len() ==> (#[trigger] r@[i]).cell_order() < (
                        #[trigger] r@[j]).cell_order(),
                decreases GRID_WIDTH - x,
            {
                if let Some(kind) = self.get(x, y) {
                    let ghost old_r = r@;
                    r.push(PlacedBrick { x, y, kind });
                    assert forall|cx: int, cy: int|
                        0 <= cx < GRID_WIDTH && 0 <= cy <= y && (cy < y || cx < x + 1)
                            && (#[trigger] self@[cy][cx]) is Some implies exists|i: int|
                        0 <= i < r.len() && r@[i].x == cx && r@[i].y == cy by {
                        if cy == y && cx == x {
                            assert(r@[r.len() - 1].x == cx);
                        } else {
                            let i = choose|i: int|
                                0 <= i < old_r.len() && old_r[i].x == cx && old_r[i].y == cy;
                            assert(r@[i] == old_r[i]);
                        }
                    }
                }
                x = x + 1;
            }
            y = y + 1;
        }
        r
    }

    /// Whether a tetromino of the given shape and orientation at `offset` lies wholly on the
    /// grid, on empty cells.
    pub fn is_clear(
        &self,
        offset: GridVec,
        kind: TetrominoType,
        orient: TetrominoOrientation,
    ) -> (r: bool)
        ensures
            r == piece_fits(self@, offset, kind, orient),
    {
        proof {
            self.lemma_well_sized();
        }
        let bricks = TetrominoData::get_data(kind, orient);
        let mut i: usize = 0;
        while i < 4
            invariant
                i <= 4,
                bricks@ == shape(kind, orient),
                well_sized(self@),
                forall|j: int|
                    0 <= j < i ==> {
                        let c = #[trigger] piece_cell(offset, kind, orient, j);
                        on_grid(c) && self@[c.1][c.0] is None
                    },
            decreases 4 - i,
        {
            let brick = bricks[i];
            let cx: i64 = offset.x as i64 - brick.x as i64;
            let cy: i64 = offset.y as i64 - brick.y as i64;
            assert(piece_cell(offset, kind, orient, i as int) == (cx as int, cy as int));
            if cx < 0 || cx >= GRID_WIDTH as i64 || cy < 0 || cy >= GRID_HEIGHT as i64 {
                return false;
            }
            let x = cx as usize;
            let y = cy as usize;
            if self.get(x, y).is_some() {
                return false;
            }
            i = i + 1;
        }
        true
    }
}

} // verus!
