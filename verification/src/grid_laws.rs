use vstd::prelude::*;

use crate::grid::{
    after_place, compacted, completed_rows, cleared_first, empty_row, kept_rows, on_grid, piece_cell, piece_fits, piece_on_grid, place_first, row_full,
    set_cell, well_sized, empty_grid, GRID_HEIGHT, GRID_WIDTH,
};
use crate::pieces::{shape, GridVec, SPAWN_X, SPAWN_Y, TetrominoOrientation, TetrominoType};

verus! {

/// The four bricks of every shape, in every orientation, have distinct offsets.
pub proof fn lemma_shape_cells_distinct(kind: TetrominoType, orient: TetrominoOrientation)
    ensures
        shape(kind, orient).len() == 4,
        forall|i: int, j: int|
            0 <= i < 4 && 0 <= j < 4 && i != j ==> shape(kind, orient)[i] != shape(kind, orient)[j],
{
    let s = shape(kind, orient);
    assert(s.len() == 4);
    assert(s[0] != s[1] && s[0] != s[2] && s[0] != s[3] && s[1] != s[2] && s[1] != s[3] && s[2]
        != s[3]);
}

/// The four bricks of a tetromino cover four distinct cells.
pub proof fn lemma_piece_cells_distinct(
    offset: GridVec,
    kind: TetrominoType,
    orient: TetrominoOrientation,
)
    ensures
        forall|i: int, j: int|
            0 <= i < 4 && 0 <= j < 4 && i != j ==> #[trigger] piece_cell(offset, kind, orient, i)
                != #[trigger] piece_cell(offset, kind, orient, j),
{
    lemma_shape_cells_distinct(kind, orient);
}

/// After the first `n` bricks are written, a cell holds the tetromino's shape if one of them
/// covers it, and what it held before otherwise.
proof fn lemma_place_first_cells(
    g: Seq<Seq<Option<TetrominoType>>>,
    offset: GridVec,
    kind: TetrominoType,
    orient: TetrominoOrientation,
    n: nat,
)
    requires
        well_sized(g),
        piece_on_grid(offset, kind, orient),
        n <= 4,
    ensures
        well_sized(place_first(g, offset, kind, orient, n)),
        forall|x: int, y: int|
            #![trigger place_first(g, offset, kind, orient, n)[y][x]]
            0 <= x < GRID_WIDTH && 0 <= y < GRID_HEIGHT ==> place_first(
                g,
                offset,
                kind,
                orient,
                n,
            )[y][x] == if (exists|i: int| 0 <= i < n && piece_cell(offset, kind, orient, i) == (x, y)) {
                Some(kind)
            } else {
                g[y][x]
            },
    decreases n,
{
    if n > 0 {
        lemma_place_first_cells(g, offset, kind, orient, (n - 1) as nat);
        let prev = place_first(g, offset, kind, orient, (n - 1) as nat);
        let c = piece_cell(offset, kind, orient, n - 1);
        assert(on_grid(c));
        let cur = place_first(g, offset, kind, orient, n);
        assert(cur == set_cell(prev, c, Some(kind)));
        assert forall|y: int| 0 <= y < GRID_HEIGHT implies (#[trigger] cur[y]).len()
            == GRID_WIDTH by {
            assert(prev[y].len() == GRID_WIDTH);
        }
        assert forall|x: int, y: int|
            0 <= x < GRID_WIDTH && 0 <= y < GRID_HEIGHT implies #[trigger] cur[y][x] == if (exists|
                i: int,
            | 0 <= i < n && piece_cell(offset, kind, orient, i) == (x, y)) {
            Some(kind)
        } else {
            g[y][x]
        } by {
            assert(prev[y][x] == if (exists|i: int|
                0 <= i < n - 1 && piece_cell(offset, kind, orient, i) == (x, y)) {
                Some(kind)
            } else {
                g[y][x]
            });
            if (x, y) == c {
                assert(piece_cell(offset, kind, orient, n - 1) == (x, y));
            } else {
                if exists|i: int| 0 <= i < n && piece_cell(offset, kind, orient, i) == (x, y) {
                    let i = choose|i: int|
                        0 <= i < n && piece_cell(offset, kind, orient, i) == (x, y);
                    assert(i < n - 1);
                }
            }
        }
    }
}

/// Whether brick `i`'s row is full right after brick `i` is written.
pub open spec fn recorded_at(
    g: Seq<Seq<Option<TetrominoType>>>,
    offset: GridVec,
    kind: TetrominoType,
    orient: TetrominoOrientation,
    i: int,
) -> bool {
    row_full(
        place_first(g, offset, kind, orient, (i + 1) as nat)[piece_cell(offset, kind, orient, i).1],
    )
}

/// For a placement on empty cells, brick `i`'s row is full right after it is written exactly
/// when no later brick lies in the same row and the row is full once all bricks are written.
proof fn lemma_recorded_at(
    g: Seq<Seq<Option<TetrominoType>>>,
    offset: GridVec,
    kind: TetrominoType,
    orient: TetrominoOrientation,
    i: int,
)
    requires
        well_sized(g),
        piece_fits(g, offset, kind, orient),
        0 <= i < 4,
    ensures
        recorded_at(g, offset, kind, orient, i) <==> (row_full(
            place_first(g, offset, kind, orient, 4)[piece_cell(offset, kind, orient, i).1],
        ) && forall|j: int|
            i < j < 4 ==> (#[trigger] piece_cell(offset, kind, orient, j)).1 != piece_cell(
                offset,
                kind,
                orient,
                i,
            ).1),
{
    assert(piece_on_grid(offset, kind, orient)) by {
        assert forall|k: int| 0 <= k < 4 implies on_grid(
            #[trigger] piece_cell(offset, kind, orient, k),
        ) by {}
    }
    lemma_piece_cells_distinct(offset, kind, orient);
    lemma_place_first_cells(g, offset, kind, orient, (i + 1) as nat);
    lemma_place_first_cells(g, offset, kind, orient, 4);
    let y = piece_cell(offset, kind, orient, i).1;
    let early = place_first(g, offset, kind, orient, (i + 1) as nat)[y];
    let late = place_first(g, offset, kind, orient, 4)[y];
    assert(0 <= y < GRID_HEIGHT);
    if recorded_at(g, offset, kind, orient, i) {
        assert forall|j: int| i < j < 4 implies (#[trigger] piece_cell(
            offset,
            kind,
            orient,
            j,
        )).1 != y by {
            let cj = piece_cell(offset, kind, orient, j);
            if cj.1 == y {
                assert(on_grid(cj));
                assert(g[cj.1][cj.0] is None);
                assert(early.len() == GRID_WIDTH);
                assert(early[cj.0] is Some);
                if exists|k: int| 0 <= k < i + 1 && piece_cell(offset, kind, orient, k) == cj {
                    let k = choose|k: int| 0 <= k < i + 1 && piece_cell(offset, kind, orient, k) == cj;
                    assert(k != j);
                }
                assert(early[cj.0] == g[cj.1][cj.0]);
            }
        }
    }
    if forall|j: int| i < j < 4 ==> (#[trigger] piece_cell(offset, kind, orient, j)).1 != y {
        assert(early =~= late) by {
            assert(early.len() == GRID_WIDTH);
            assert(late.len() == GRID_WIDTH);
            assert forall|x: int| 0 <= x < GRID_WIDTH implies early[x] == late[x] by {
                if exists|k: int| 0 <= k < 4 && piece_cell(offset, kind, orient, k) == (x, y) {
                    let k = choose|k: int| 0 <= k < 4 && piece_cell(offset, kind, orient, k) == (x, y);
                    assert(k < i + 1);
                }
            }
        }
    }
}

/// The rows recorded while the first `n` bricks are written are those of the bricks whose row
/// was full right after they were written, each once.
proof fn lemma_cleared_first(
    g: Seq<Seq<Option<TetrominoType>>>,
    offset: GridVec,
    kind: TetrominoType,
    orient: TetrominoOrientation,
    n: nat,
)
    requires
        well_sized(g),
        piece_fits(g, offset, kind, orient),
        n <= 4,
    ensures
        cleared_first(g, offset, kind, orient, n).no_duplicates(),
        forall|y: int|
            cleared_first(g, offset, kind, orient, n).contains(y) <==> exists|i: int|
                0 <= i < n && #[trigger] piece_cell(offset, kind, orient, i).1 == y && recorded_at(
                    g,
                    offset,
                    kind,
                    orient,
                    i,
                ),
    decreases n,
{
    if n > 0 {
        lemma_cleared_first(g, offset, kind, orient, (n - 1) as nat);
        let prev = cleared_first(g, offset, kind, orient, (n - 1) as nat);
        let cur = cleared_first(g, offset, kind, orient, n);
        let y = piece_cell(offset, kind, orient, n - 1).1;
        if recorded_at(g, offset, kind, orient, n - 1) {
            assert(cur == prev.push(y));
            if prev.contains(y) {
                let i = choose|i: int|
                    0 <= i < n - 1 && #[trigger] piece_cell(offset, kind, orient, i).1 == y
                        && recorded_at(g, offset, kind, orient, i);
                lemma_recorded_at(g, offset, kind, orient, i);
                assert(piece_cell(offset, kind, orient, n - 1).1 == y);
                assert(false);
            }
            assert forall|a: int, b: int|
                0 <= a < cur.len() && 0 <= b < cur.len() && a != b implies cur[a] != cur[b] by {
                if a == cur.len() - 1 {
                    assert(prev.contains(cur[b]));
                } else if b == cur.len() - 1 {
                    assert(prev.contains(cur[a]));
                }
            }
            assert forall|z: int| cur.contains(z) <==> exists|i: int|
                0 <= i < n && #[trigger] piece_cell(offset, kind, orient, i).1 == z && recorded_at(
                    g,
                    offset,
                    kind,
                    orient,
                    i,
                ) by {
                if cur.contains(z) && z != y {
                    let k = choose|k: int| 0 <= k < cur.len() && cur[k] == z;
                    assert(prev[k] == z);
                }
                if z == y {
                    assert(cur[cur.len() - 1] == y);
                }
                if prev.contains(z) {
                    let k = choose|k: int| 0 <= k < prev.len() && prev[k] == z;
                    assert(cur[k] == z);
                }
            }
        } else {
            assert(cur == prev);
        }
    }
}

/// For a placement on empty cells, `place` reports every completed row exactly once: the rows
/// it records have no repeats, and they are the rows holding a brick of the tetromino that are
/// full once the tetromino is written. So the count that `place` returns is the number of
/// distinct such rows.
pub proof fn lemma_place_reports_completed_rows(
    g: Seq<Seq<Option<TetrominoType>>>,
    offset: GridVec,
    kind: TetrominoType,
    orient: TetrominoOrientation,
)
    requires
        well_sized(g),
        piece_fits(g, offset, kind, orient),
    ensures
        completed_rows(g, offset, kind, orient).no_duplicates(),
        forall|y: int|
            completed_rows(g, offset, kind, orient).contains(y) <==> ((exists|i: int|
                0 <= i < 4 && #[trigger] piece_cell(offset, kind, orient, i).1 == y) && row_full(
                place_first(g, offset, kind, orient, 4)[y],
            )),
{
    lemma_cleared_first(g, offset, kind, orient, 4);
    assert forall|y: int|
        completed_rows(g, offset, kind, orient).contains(y) <==> ((exists|i: int|
            0 <= i < 4 && #[trigger] piece_cell(offset, kind, orient, i).1 == y) && row_full(
            place_first(g, offset, kind, orient, 4)[y],
        )) by {
        if completed_rows(g, offset, kind, orient).contains(y) {
            let i = choose|i: int|
                0 <= i < 4 && #[trigger] piece_cell(offset, kind, orient, i).1 == y && recorded_at(
                    g,
                    offset,
                    kind,
                    orient,
                    i,
                );
            lemma_recorded_at(g, offset, kind, orient, i);
        }
        if (exists|i: int| 0 <= i < 4 && #[trigger] piece_cell(offset, kind, orient, i).1 == y)
            && row_full(place_first(g, offset, kind, orient, 4)[y]) {
            // the last brick in row y records it
            let i0 = choose|i: int| 0 <= i < 4 && #[trigger] piece_cell(offset, kind, orient, i).1 == y;
            let last = if piece_cell(offset, kind, orient, 3).1 == y {
                3
            } else if piece_cell(offset, kind, orient, 2).1 == y {
                2
            } else if piece_cell(offset, kind, orient, 1).1 == y {
                1
            } else {
                0int
            };
            assert(last >= i0);
            assert(piece_cell(offset, kind, orient, last).1 == y);
            lemma_recorded_at(g, offset, kind, orient, last);
            assert(recorded_at(g, offset, kind, orient, last));
        }
    }
}

/// Rows `0..n` of `rows`, in order, except those whose index is in `gone`.
pub open spec fn rows_except(
    rows: Seq<Seq<Option<TetrominoType>>>,
    gone: Set<int>,
    n: nat,
) -> Seq<Seq<Option<TetrominoType>>>
    decreases n,
{
    if n == 0 {
        Seq::empty()
    } else {
        let prev = rows_except(rows, gone, (n - 1) as nat);
        if gone.contains(n - 1) {
            prev
        } else {
            prev.push(rows[n - 1])
        }
    }
}

/// The grid with the rows whose index is in `gone` taken out: every other row keeps its order
/// and moves down over the gaps, and empty rows fill the top.
pub open spec fn without_rows(
    rows: Seq<Seq<Option<TetrominoType>>>,
    gone: Seq<int>,
) -> Seq<Seq<Option<TetrominoType>>> {
    let kept = rows_except(rows, gone.to_set(), GRID_HEIGHT as nat);
    kept + Seq::new((GRID_HEIGHT - kept.len()) as nat, |i: int| empty_row())
}

/// Every entry below `bound` is larger than every entry before it: the entries that a scan of
/// the rows below `bound` can reach come first, from the bottom up.
pub open spec fn increasing_below(s: Seq<int>, bound: int) -> bool {
    forall|a: int, b: int| 0 <= a < b < s.len() ==> s[a] < s[b] || s[b] >= bound
}

proof fn lemma_rows_except_len(rows: Seq<Seq<Option<TetrominoType>>>, gone: Set<int>, n: nat)
    ensures
        rows_except(rows, gone, n).len() <= n,
    decreases n,
{
    if n > 0 {
        lemma_rows_except_len(rows, gone, (n - 1) as nat);
    }
}

/// With the recorded rows below `bound` recorded from the bottom up, scanning the first `n`
/// rows (`n <= bound`) drops exactly the recorded ones, and matches the recorded rows below
/// `n`.
proof fn lemma_kept_rows_sorted(
    rows: Seq<Seq<Option<TetrominoType>>>,
    cleared: Seq<int>,
    n: nat,
    bound: int,
)
    requires
        increasing_below(cleared, bound),
        n <= bound,
        forall|a: int| 0 <= a < cleared.len() ==> 0 <= #[trigger] cleared[a],
    ensures
        kept_rows(rows, cleared, n).0 == rows_except(rows, cleared.to_set(), n),
        kept_rows(rows, cleared, n).1 <= cleared.len(),
        forall|a: int| 0 <= a < kept_rows(rows, cleared, n).1 ==> #[trigger] cleared[a] < n,
        kept_rows(rows, cleared, n).1 < cleared.len() ==> cleared[kept_rows(
            rows,
            cleared,
            n,
        ).1 as int] >= n,
    decreases n,
{
    if n > 0 {
        lemma_kept_rows_sorted(rows, cleared, (n - 1) as nat, bound);
        let (kept, matched) = kept_rows(rows, cleared, (n - 1) as nat);
        let y = n - 1;
        let hit = matched < cleared.len() && cleared[matched as int] == y;
        if hit {
            assert(cleared.to_set().contains(y));
            if matched + 1 < cleared.len() {
                assert(cleared[matched as int] < cleared[matched + 1int]);
            }
        } else {
            if cleared.to_set().contains(y) {
                let k = choose|k: int| 0 <= k < cleared.len() && cleared[k] == y;
                if k < matched {
                    assert(cleared[k] < n - 1);
                } else if k > matched {
                    assert(cleared[matched as int] < cleared[k]);
                }
            }
        }
    }
}

/// The rows from `start` up to `n` that are not in `gone` are all empty, so scanning them
/// only adds empty rows.
proof fn lemma_rows_except_tail(
    rows: Seq<Seq<Option<TetrominoType>>>,
    gone: Set<int>,
    start: nat,
    n: nat,
)
    requires
        start <= n,
        forall|y: int| start <= y < n && !gone.contains(y) ==> #[trigger] rows[y] == empty_row(),
    ensures
        rows_except(rows, gone, start).len() <= rows_except(rows, gone, n).len(),
        rows_except(rows, gone, n) == rows_except(rows, gone, start) + Seq::new(
            (rows_except(rows, gone, n).len() - rows_except(rows, gone, start).len()) as nat,
            |i: int| empty_row(),
        ),
    decreases n,
{
    if n > start {
        lemma_rows_except_tail(rows, gone, start, (n - 1) as nat);
        let base = rows_except(rows, gone, start);
        let prev = rows_except(rows, gone, (n - 1) as nat);
        let cur = rows_except(rows, gone, n);
        if !gone.contains(n - 1) {
            assert(rows[n - 1] == empty_row());
            assert(cur =~= base + Seq::new((cur.len() - base.len()) as nat, |i: int| empty_row()));
        }
    } else {
        assert(rows_except(rows, gone, n) =~= rows_except(rows, gone, start) + Seq::new(
            0,
            |i: int| empty_row(),
        ));
    }
}

/// When the completed rows that the scan reaches were recorded from the bottom up, and the top
/// rows that the scan never reaches hold no brick outside the completed rows, placing a tetromino takes its completed rows out of the grid:
/// the other rows keep their order and move down, and empty rows fill the top.
pub proof fn lemma_place_takes_out_completed_rows(
    g: Seq<Seq<Option<TetrominoType>>>,
    offset: GridVec,
    kind: TetrominoType,
    orient: TetrominoOrientation,
)
    requires
        well_sized(g),
        piece_fits(g, offset, kind, orient),
        increasing_below(
            completed_rows(g, offset, kind, orient),
            GRID_HEIGHT - completed_rows(g, offset, kind, orient).len(),
        ),
        forall|y: int|
            GRID_HEIGHT - completed_rows(g, offset, kind, orient).len() <= y < GRID_HEIGHT
                && !completed_rows(g, offset, kind, orient).contains(y) ==> #[trigger] place_first(
                g,
                offset,
                kind,
                orient,
                4,
            )[y] == empty_row(),
    ensures
        after_place(g, offset, kind, orient) == without_rows(
            place_first(g, offset, kind, orient, 4),
            completed_rows(g, offset, kind, orient),
        ),
{
    let placed = place_first(g, offset, kind, orient, 4);
    let cleared = completed_rows(g, offset, kind, orient);
    let gone = cleared.to_set();
    lemma_place_reports_completed_rows(g, offset, kind, orient);
    assert(cleared.len() <= 4) by {
        lemma_cleared_first_len(g, offset, kind, orient, 4);
    }
    let start = (GRID_HEIGHT - cleared.len()) as nat;
    assert forall|a: int| 0 <= a < cleared.len() implies 0 <= #[trigger] cleared[a] by {
        assert(cleared.contains(cleared[a]));
        let i = choose|i: int| 0 <= i < 4 && #[trigger] piece_cell(offset, kind, orient, i).1 == cleared[a];
        assert(on_grid(piece_cell(offset, kind, orient, i)));
    }
    lemma_kept_rows_sorted(placed, cleared, start, start as int);
    assert forall|y: int| start <= y < GRID_HEIGHT && !gone.contains(y) implies #[trigger] placed[y]
        == empty_row() by {
        assert(!cleared.contains(y));
    }
    lemma_rows_except_tail(placed, gone, start, GRID_HEIGHT as nat);
    lemma_rows_except_len(placed, gone, GRID_HEIGHT as nat);
    let kept = rows_except(placed, gone, start);
    let all = rows_except(placed, gone, GRID_HEIGHT as nat);
    assert(compacted(placed, cleared) =~= without_rows(placed, cleared));
}

proof fn lemma_cleared_first_len(
    g: Seq<Seq<Option<TetrominoType>>>,
    offset: GridVec,
    kind: TetrominoType,
    orient: TetrominoOrientation,
    n: nat,
)
    ensures
        cleared_first(g, offset, kind, orient, n).len() <= n,
    decreases n,
{
    if n > 0 {
        lemma_cleared_first_len(g, offset, kind, orient, (n - 1) as nat);
    }
}

/// A tetromino that fits lies on the grid, so it can be placed.
pub proof fn lemma_fits_is_on_grid(
    g: Seq<Seq<Option<TetrominoType>>>,
    offset: GridVec,
    kind: TetrominoType,
    orient: TetrominoOrientation,
)
    requires
        piece_fits(g, offset, kind, orient),
    ensures
        piece_on_grid(offset, kind, orient),
{
    assert forall|i: int| 0 <= i < 4 implies on_grid(#[trigger] piece_cell(offset, kind, orient, i)) by {}
}

/// On the empty grid a tetromino fits exactly where it lies on the grid.
pub proof fn lemma_empty_grid_fits(
    offset: GridVec,
    kind: TetrominoType,
    orient: TetrominoOrientation,
)
    ensures
        piece_fits(empty_grid(), offset, kind, orient) <==> piece_on_grid(offset, kind, orient),
{
    if piece_on_grid(offset, kind, orient) {
        assert forall|i: int| 0 <= i < 4 implies {
            let c = #[trigger] piece_cell(offset, kind, orient, i);
            on_grid(c) && empty_grid()[c.1][c.0] is None
        } by {
            let c = piece_cell(offset, kind, orient, i);
            assert(on_grid(c));
        }
    }
    if piece_fits(empty_grid(), offset, kind, orient) {
        lemma_fits_is_on_grid(empty_grid(), offset, kind, orient);
    }
}

/// A freshly spawned tetromino, of any shape, lies on the grid, in its top rows.
pub proof fn lemma_spawn_on_grid(kind: TetrominoType)
    ensures
        piece_on_grid(GridVec { x: SPAWN_X, y: SPAWN_Y }, kind, TetrominoOrientation::Zero),
        SPAWN_Y == GRID_HEIGHT,
{
    let offset = GridVec { x: SPAWN_X, y: SPAWN_Y };
    let s = shape(kind, TetrominoOrientation::Zero);
    assert(on_grid(piece_cell(offset, kind, TetrominoOrientation::Zero, 0)));
    assert(on_grid(piece_cell(offset, kind, TetrominoOrientation::Zero, 1)));
    assert(on_grid(piece_cell(offset, kind, TetrominoOrientation::Zero, 2)));
    assert(on_grid(piece_cell(offset, kind, TetrominoOrientation::Zero, 3)));
    assert forall|i: int| 0 <= i < 4 implies on_grid(
        #[trigger] piece_cell(offset, kind, TetrominoOrientation::Zero, i),
    ) by {}
}

/// Every row that scanning keeps is a row below `n` whose index is not in `gone`.
proof fn lemma_rows_except_members(
    rows: Seq<Seq<Option<TetrominoType>>>,
    gone: Set<int>,
    n: nat,
)
    ensures
        forall|i: int|
            0 <= i < rows_except(rows, gone, n).len() ==> exists|y: int|
                0 <= y < n && !gone.contains(y) && #[trigger] rows_except(rows, gone, n)[i]
                    == rows[y],
    decreases n,
{
    if n > 0 {
        lemma_rows_except_members(rows, gone, (n - 1) as nat);
        let prev = rows_except(rows, gone, (n - 1) as nat);
        let cur = rows_except(rows, gone, n);
        assert forall|i: int| 0 <= i < cur.len() implies exists|y: int|
            0 <= y < n && !gone.contains(y) && #[trigger] cur[i] == rows[y] by {
            if i < prev.len() {
                assert(cur[i] == prev[i]);
                let y = choose|y: int| 0 <= y < n - 1 && !gone.contains(y) && prev[i] == rows[y];
                assert(0 <= y < n && !gone.contains(y) && cur[i] == rows[y]);
            } else {
                assert(!gone.contains(n - 1) && cur[i] == rows[n - 1]);
            }
        }
    }
}

/// Placing a tetromino on empty cells, into a grid where no row is full, leaves no row full,
/// as long as the completed rows that the scan reaches were recorded from the bottom up. (An L
/// turned twice that completes two rows low in the grid records the upper row first, and the
/// lower row then stays full.)
pub proof fn lemma_place_leaves_no_full_row(
    g: Seq<Seq<Option<TetrominoType>>>,
    offset: GridVec,
    kind: TetrominoType,
    orient: TetrominoOrientation,
)
    requires
        well_sized(g),
        piece_fits(g, offset, kind, orient),
        forall|y: int| 0 <= y < GRID_HEIGHT ==> !row_full(#[trigger] g[y]),
        increasing_below(
            completed_rows(g, offset, kind, orient),
            GRID_HEIGHT - completed_rows(g, offset, kind, orient).len(),
        ),
    ensures
        forall|y: int| 0 <= y < GRID_HEIGHT ==> !row_full(#[trigger] after_place(g, offset, kind, orient)[y]),
{
    let placed = place_first(g, offset, kind, orient, 4);
    let cleared = completed_rows(g, offset, kind, orient);
    let gone = cleared.to_set();
    lemma_place_reports_completed_rows(g, offset, kind, orient);
    lemma_fits_is_on_grid(g, offset, kind, orient);
    lemma_place_first_cells(g, offset, kind, orient, 4);
    assert(cleared.len() <= 4) by {
        lemma_cleared_first_len(g, offset, kind, orient, 4);
    }
    let start = (GRID_HEIGHT - cleared.len()) as nat;
    assert forall|a: int| 0 <= a < cleared.len() implies 0 <= #[trigger] cleared[a] by {
        assert(cleared.contains(cleared[a]));
        let i = choose|i: int| 0 <= i < 4 && #[trigger] piece_cell(offset, kind, orient, i).1 == cleared[a];
        assert(on_grid(piece_cell(offset, kind, orient, i)));
    }
    lemma_kept_rows_sorted(placed, cleared, start, start as int);
    lemma_rows_except_members(placed, gone, start);
    lemma_rows_except_len(placed, gone, start);
    let kept = rows_except(placed, gone, start);
    // a full row of the placed grid is a completed row
    assert forall|y: int| 0 <= y < GRID_HEIGHT && row_full(#[trigger] placed[y]) implies gone.contains(
        y,
    ) by {
        if !(exists|i: int| 0 <= i < 4 && #[trigger] piece_cell(offset, kind, orient, i).1 == y) {
            assert(row_full(g[y])) by {
                assert(g[y].len() == GRID_WIDTH);
                assert(placed[y].len() == GRID_WIDTH);
                assert forall|x: int| 0 <= x < g[y].len() implies (#[trigger] g[y][x]) is Some by {
                    assert(placed[y][x] is Some);
                    if exists|i: int| 0 <= i < 4 && piece_cell(offset, kind, orient, i) == (x, y) {
                        let i = choose|i: int| 0 <= i < 4 && piece_cell(offset, kind, orient, i) == (x, y);
                        assert(piece_cell(offset, kind, orient, i).1 == y);
                    }
                }
            }
        }
        assert(cleared.contains(y));
    }
    let result = after_place(g, offset, kind, orient);
    assert(result == compacted(placed, cleared));
    assert forall|y: int| 0 <= y < GRID_HEIGHT implies !row_full(#[trigger] result[y]) by {
        if y < kept.len() {
            assert(result[y] == kept[y]);
            let z = choose|z: int| 0 <= z < start && !gone.contains(z) && kept[y] == placed[z];
            assert(!row_full(placed[z]));
        } else {
            assert(result[y] == empty_row());
            assert(empty_row()[0] is None);
        }
    }
}

/// Brick `i` is the last of the listed bricks in its row.
pub open spec fn last_in_row(s: Seq<GridVec>, i: int) -> bool {
    forall|m: int| i < m < s.len() ==> (#[trigger] s[m]).y != s[i].y
}

/// The last brick listed in each row comes before every brick of a higher row, so rows are
/// completed from the bottom up.
pub open spec fn rows_listed_bottom_up(s: Seq<GridVec>) -> bool {
    forall|i: int, j: int|
        0 <= i < j < s.len() && last_in_row(s, i) ==> (#[trigger] s[i]).y > (#[trigger] s[j]).y
}

/// Every shape in every orientation, except the L turned twice, lists its rows bottom-up.
pub proof fn lemma_rows_listed_bottom_up(kind: TetrominoType, orient: TetrominoOrientation)
    requires
        !(kind == TetrominoType::L && orient == TetrominoOrientation::OneEighty),
    ensures
        rows_listed_bottom_up(shape(kind, orient)),
{
    let s = shape(kind, orient);
    assert(s.len() == 4);
    assert forall|i: int, j: int|
        0 <= i < j < s.len() && last_in_row(s, i) implies (#[trigger] s[i]).y > (
        #[trigger] s[j]).y by {
        assert(i == 0 || i == 1 || i == 2);
        if i == 0 {
            assert(s[1].y != s[0].y && s[2].y != s[0].y && s[3].y != s[0].y);
        } else if i == 1 {
            assert(s[2].y != s[1].y && s[3].y != s[1].y);
        } else {
            assert(s[3].y != s[2].y);
        }
    }
}

/// For a placement on empty cells, a brick whose row is recorded is the last listed brick in
/// its row.
proof fn lemma_recorded_is_last_in_row(
    g: Seq<Seq<Option<TetrominoType>>>,
    offset: GridVec,
    kind: TetrominoType,
    orient: TetrominoOrientation,
    i: int,
)
    requires
        well_sized(g),
        piece_fits(g, offset, kind, orient),
        0 <= i < 4,
        recorded_at(g, offset, kind, orient, i),
    ensures
        last_in_row(shape(kind, orient), i),
{
    lemma_recorded_at(g, offset, kind, orient, i);
    let sh = shape(kind, orient);
    assert(sh.len() == 4) by {
        lemma_shape_cells_distinct(kind, orient);
    }
    assert forall|k: int| i < k < sh.len() implies (#[trigger] sh[k]).y != sh[i].y by {
        assert(piece_cell(offset, kind, orient, k).1 != piece_cell(offset, kind, orient, i).1);
    }
}

/// For a placement on empty cells of a shape that lists its rows bottom-up, the rows recorded
/// while the first `n` bricks are written increase strictly.
proof fn lemma_cleared_first_increasing(
    g: Seq<Seq<Option<TetrominoType>>>,
    offset: GridVec,
    kind: TetrominoType,
    orient: TetrominoOrientation,
    n: nat,
)
    requires
        well_sized(g),
        piece_fits(g, offset, kind, orient),
        rows_listed_bottom_up(shape(kind, orient)),
        n <= 4,
    ensures
        forall|a: int, b: int|
            0 <= a < b < cleared_first(g, offset, kind, orient, n).len() ==> cleared_first(
                g,
                offset,
                kind,
                orient,
                n,
            )[a] < cleared_first(g, offset, kind, orient, n)[b],
    decreases n,
{
    if n > 0 {
        lemma_cleared_first_increasing(g, offset, kind, orient, (n - 1) as nat);
        lemma_cleared_first(g, offset, kind, orient, (n - 1) as nat);
        let prev = cleared_first(g, offset, kind, orient, (n - 1) as nat);
        let cur = cleared_first(g, offset, kind, orient, n);
        let m = n - 1;
        let sh = shape(kind, orient);
        if recorded_at(g, offset, kind, orient, m) {
            assert(cur == prev.push(piece_cell(offset, kind, orient, m).1));
            assert forall|a: int| 0 <= a < prev.len() implies prev[a] < piece_cell(
                offset,
                kind,
                orient,
                m,
            ).1 by {
                assert(prev.contains(prev[a]));
                let i = choose|i: int|
                    0 <= i < n - 1 && #[trigger] piece_cell(offset, kind, orient, i).1 == prev[a]
                        && recorded_at(g, offset, kind, orient, i);
                lemma_recorded_is_last_in_row(g, offset, kind, orient, i);
                assert(sh[i].y > sh[m].y);
            }
            assert forall|a: int, b: int| 0 <= a < b < cur.len() implies cur[a] < cur[b] by {
                if b == cur.len() - 1 {
                    assert(cur[a] == prev[a]);
                } else {
                    assert(cur[a] == prev[a] && cur[b] == prev[b]);
                }
            }
        } else {
            assert(cur == prev);
        }
    }
}

/// For a placement on empty cells of any shape in any orientation except the L turned twice,
/// the completed rows are recorded from the bottom up.
pub proof fn lemma_place_records_rows_bottom_up(
    g: Seq<Seq<Option<TetrominoType>>>,
    offset: GridVec,
    kind: TetrominoType,
    orient: TetrominoOrientation,
)
    requires
        well_sized(g),
        piece_fits(g, offset, kind, orient),
        !(kind == TetrominoType::L && orient == TetrominoOrientation::OneEighty),
    ensures
        forall|a: int, b: int|
            0 <= a < b < completed_rows(g, offset, kind, orient).len() ==> completed_rows(
                g,
                offset,
                kind,
                orient,
            )[a] < completed_rows(g, offset, kind, orient)[b],
{
    lemma_rows_listed_bottom_up(kind, orient);
    lemma_cleared_first_increasing(g, offset, kind, orient, 4);
}

/// Placing any shape in any orientation except the L turned twice on empty cells takes the
/// completed rows out of the grid, the other rows keeping their order and moving down, as long
/// as the top rows that the scan never reaches hold no brick outside the completed rows.
pub proof fn lemma_place_takes_out_completed_rows_of_shape(
    g: Seq<Seq<Option<TetrominoType>>>,
    offset: GridVec,
    kind: TetrominoType,
    orient: TetrominoOrientation,
)
    requires
        well_sized(g),
        piece_fits(g, offset, kind, orient),
        !(kind == TetrominoType::L && orient == TetrominoOrientation::OneEighty),
        forall|y: int|
            GRID_HEIGHT - completed_rows(g, offset, kind, orient).len() <= y < GRID_HEIGHT
                && !completed_rows(g, offset, kind, orient).contains(y) ==> #[trigger] place_first(
                g,
                offset,
                kind,
                orient,
                4,
            )[y] == empty_row(),
    ensures
        after_place(g, offset, kind, orient) == without_rows(
            place_first(g, offset, kind, orient, 4),
            completed_rows(g, offset, kind, orient),
        ),
{
    lemma_place_records_rows_bottom_up(g, offset, kind, orient);
    lemma_place_takes_out_completed_rows(g, offset, kind, orient);
}

/// Placing any shape in any orientation except the L turned twice on empty cells, into a grid
/// where no row is full, leaves no row full.
pub proof fn lemma_place_of_shape_leaves_no_full_row(
    g: Seq<Seq<Option<TetrominoType>>>,
    offset: GridVec,
    kind: TetrominoType,
    orient: TetrominoOrientation,
)
    requires
        well_sized(g),
        piece_fits(g, offset, kind, orient),
        forall|y: int| 0 <= y < GRID_HEIGHT ==> !row_full(#[trigger] g[y]),
        !(kind == TetrominoType::L && orient == TetrominoOrientation::OneEighty),
    ensures
        forall|y: int| 0 <= y < GRID_HEIGHT ==> !row_full(#[trigger] after_place(g, offset, kind, orient)[y]),
{
    lemma_place_records_rows_bottom_up(g, offset, kind, orient);
    lemma_place_leaves_no_full_row(g, offset, kind, orient);
}

/// Whether a tetromino fits depends only on the cells it covers: writing any other cell of the
/// grid does not change it.
pub proof fn lemma_fit_depends_only_on_covered_cells(
    g: Seq<Seq<Option<TetrominoType>>>,
    offset: GridVec,
    kind: TetrominoType,
    orient: TetrominoOrientation,
    c: (int, int),
    v: Option<TetrominoType>,
)
    requires
        well_sized(g),
        on_grid(c),
        forall|i: int| 0 <= i < 4 ==> #[trigger] piece_cell(offset, kind, orient, i) != c,
    ensures
        piece_fits(set_cell(g, c, v), offset, kind, orient) == piece_fits(g, offset, kind, orient),
{
    let h = set_cell(g, c, v);
    assert forall|i: int| 0 <= i < 4 && on_grid(#[trigger] piece_cell(offset, kind, orient, i)) implies h[piece_cell(offset, kind, orient, i).1][piece_cell(offset, kind, orient, i).0]
        == g[piece_cell(offset, kind, orient, i).1][piece_cell(offset, kind, orient, i).0] by {
        let p = piece_cell(offset, kind, orient, i);
        assert(g[c.1].len() == GRID_WIDTH);
        assert(p != c);
    }
    if piece_fits(g, offset, kind, orient) {
        assert forall|i: int| 0 <= i < 4 implies {
            let p = #[trigger] piece_cell(offset, kind, orient, i);
            on_grid(p) && h[p.1][p.0] is None
        } by {}
    }
    if piece_fits(h, offset, kind, orient) {
        assert forall|i: int| 0 <= i < 4 implies {
            let p = #[trigger] piece_cell(offset, kind, orient, i);
            on_grid(p) && g[p.1][p.0] is None
        } by {}
    }
}

/// A tetromino whose four covered cells lie on the grid and are empty fits, whatever the other
/// cells hold; one with a covered cell off the grid or holding a brick does not.
pub proof fn lemma_fit_by_covered_cells(
    g: Seq<Seq<Option<TetrominoType>>>,
    offset: GridVec,
    kind: TetrominoType,
    orient: TetrominoOrientation,
)
    ensures
        piece_fits(g, offset, kind, orient) <==> forall|i: int|
            0 <= i < 4 ==> 0 <= offset.x - (#[trigger] shape(kind, orient)[i]).x < GRID_WIDTH && 0
                <= offset.y - shape(kind, orient)[i].y < GRID_HEIGHT && g[offset.y - shape(
                kind,
                orient,
            )[i].y][offset.x - shape(kind, orient)[i].x] is None,
{
    if piece_fits(g, offset, kind, orient) {
        assert forall|i: int| 0 <= i < 4 implies 0 <= offset.x - (#[trigger] shape(kind, orient)[i]).x
            < GRID_WIDTH && 0 <= offset.y - shape(kind, orient)[i].y < GRID_HEIGHT && g[offset.y
            - shape(kind, orient)[i].y][offset.x - shape(kind, orient)[i].x] is None by {
            let p = piece_cell(offset, kind, orient, i);
        }
    }
    if forall|i: int|
        0 <= i < 4 ==> 0 <= offset.x - (#[trigger] shape(kind, orient)[i]).x < GRID_WIDTH && 0
            <= offset.y - shape(kind, orient)[i].y < GRID_HEIGHT && g[offset.y - shape(
            kind,
            orient,
        )[i].y][offset.x - shape(kind, orient)[i].x] is None {
        assert forall|i: int| 0 <= i < 4 implies {
            let p = #[trigger] piece_cell(offset, kind, orient, i);
            on_grid(p) && g[p.1][p.0] is None
        } by {
            let s = shape(kind, orient)[i];
        }
    }
}

} // verus!
