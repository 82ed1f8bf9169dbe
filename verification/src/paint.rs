//! The paint engine: turns pointer world positions into cell edits, but only
//! while the simulation is in its editing state.

use vstd::prelude::*;

use crate::control::RunState;
use crate::grid::{lemma_grid_area_bound, CellState, Grid, MAX_GRID_SIDE};
use crate::rules::lemma_index_split;

verus! {

/// A pointer position in world coordinates, in the same space as cell
/// centers. The cell at `(x, y)` is centered at `(x * size, y * size)`,
/// where `size` is the cell footprint's side length in world units.
#[derive(Clone, Copy, Debug, PartialEq, Eq, Structural)]
pub struct WorldPoint {
    pub x: i64,
    pub y: i64,
}

/// Largest accepted cell footprint size, so that every cell center
/// coordinate fits comfortably in a machine integer.
pub const MAX_CELL_SIZE: i64 = 1_000_000_000;

/// Absolute value.
pub open spec fn abs_of(v: int) -> int {
    if v < 0 {
        -v
    } else {
        v
    }
}

/// A point lies inside the cell footprint centered at `(cx, cy)` with side
/// length `size` when each coordinate is within half the side length of the
/// center, inclusive on both bounds. A point exactly on a shared edge
/// therefore lies inside both adjacent cells; written with a doubling
/// instead of a halving so that an odd `size` loses nothing.
pub open spec fn point_in_footprint(px: int, py: int, cx: int, cy: int, size: int) -> bool {
    2 * abs_of(px - cx) <= size && 2 * abs_of(py - cy) <= size
}

/// The pointer position hits the footprint of the cell at `(x, y)`.
pub open spec fn hits_cell(p: WorldPoint, x: int, y: int, size: int) -> bool {
    point_in_footprint(p.x as int, p.y as int, x * size, y * size, size)
}

/// An optional pointer position hits the footprint of the cell at `(x, y)`.
pub open spec fn opt_hits_cell(p: Option<WorldPoint>, x: int, y: int, size: int) -> bool {
    match p {
        Some(q) => hits_cell(q, x, y, size),
        None => false,
    }
}

/// The state of a cell after one editing pass: a draw hit sets it alive, an
/// erase hit clears it back to `Empty`, and erase is applied after draw, so
/// when both hit the same cell the erase wins. A cell hit by neither keeps
/// its state; a pointer outside the grid therefore edits nothing.
pub open spec fn painted_cell(
    cur: CellState,
    x: int,
    y: int,
    size: int,
    draw: Option<WorldPoint>,
    erase: Option<WorldPoint>,
) -> CellState {
    if opt_hits_cell(erase, x, y, size) {
        CellState::Empty
    } else if opt_hits_cell(draw, x, y, size) {
        CellState::Alive
    } else {
        cur
    }
}

/// The whole grid after one editing pass.
pub open spec fn painted_grid(
    g: Seq<CellState>,
    side: int,
    size: int,
    draw: Option<WorldPoint>,
    erase: Option<WorldPoint>,
) -> Seq<CellState> {
    Seq::new(g.len(), |i: int| painted_cell(g[i], i % side, i / side, size, draw, erase))
}

/// An editing pass with no pointer position changes nothing.
pub proof fn lemma_paint_without_pointer_is_fixed(g: Seq<CellState>, side: int, size: int)
    ensures
        painted_grid(g, side, size, None, None) =~= g,
{
}

/// Inclusive hit test of a pointer position against the cell footprint
/// centered at `(cx, cy)` with side length `size`.
pub fn is_inside_cell(px: i64, py: i64, cx: i64, cy: i64, size: i64) -> (b: bool)
    requires
        0 <= size,
    ensures
        b == point_in_footprint(px as int, py as int, cx as int, cy as int, size as int),
{
    let dx = px as i128 - cx as i128;
    let dy = py as i128 - cy as i128;
    let adx = if dx < 0 {
        -dx
    } else {
        dx
    };
    let ady = if dy < 0 {
        -dy
    } else {
        dy
    };
    2 * adx <= size as i128 && 2 * ady <= size as i128
}

/// The center coordinates fit in `i64` for every in-range cell.
proof fn lemma_center_fits(x: int, y: int, side: int, size: int)
    by (nonlinear_arith)
    requires
        0 <= x < side,
        0 <= y < side,
        side <= MAX_GRID_SIDE,
        1 <= size <= MAX_CELL_SIZE,
    ensures
        0 <= x * size <= MAX_GRID_SIDE as int * MAX_CELL_SIZE as int,
        0 <= y * size <= MAX_GRID_SIDE as int * MAX_CELL_SIZE as int,
{
}

/// Applies at most one draw edit and one erase edit to the grid, gated by
/// the run state: while the simulation runs, pointer activity is ignored
/// outright and the grid does not change. While editing, every cell whose
/// footprint contains the draw position becomes `Alive`, then every cell
/// whose footprint contains the erase position becomes `Empty`.
pub fn apply_edits(
    grid: &mut Grid,
    run_state: RunState,
    cell_size: i64,
    draw: Option<WorldPoint>,
    erase: Option<WorldPoint>,
)
    requires
        old(grid).wf(),
        1 <= cell_size <= MAX_CELL_SIZE,
    ensures
        final(grid).wf(),
        final(grid).side_spec() == old(grid).side_spec(),
        run_state == RunState::Running ==> final(grid)@ == old(grid)@,
        run_state == RunState::Editing ==> final(grid)@ =~= painted_grid(
            old(grid)@,
            old(grid).side_spec(),
            cell_size as int,
            draw,
            erase,
        ),
{
    if run_state == RunState::Running {
        return ;
    }
    let ghost g0 = grid@;
    let side = grid.side();
    proof {
        lemma_grid_area_bound(side as int);
    }
    let total: usize = side * side;
    let mut i: usize = 0;
    while i < total
        invariant
            grid.wf(),
            grid.side_spec() == side as int,
            1 <= side <= MAX_GRID_SIDE,
            1 <= cell_size <= MAX_CELL_SIZE,
            total == side * side,
            i <= total,
            g0.len() == total,
            grid@.len() == total,
            forall|j: int|
                0 <= j < i ==> grid@[j] == painted_grid(g0, side as int, cell_size as int, draw,
                erase)[j],
            forall|j: int| i <= j < total ==> grid@[j] == g0[j],
        decreases total - i,
    {
        proof {
            lemma_index_split(i as int, side as int);
            lemma_center_fits(i as int % side as int, i as int / side as int, side as int,
                cell_size as int);
        }
        let x = i % side;
        let y = i / side;
        let cx = x as i64 * cell_size;
        let cy = y as i64 * cell_size;
        if let Some(p) = draw {
            if is_inside_cell(p.x, p.y, cx, cy, cell_size) {
                grid.set(x, y, CellState::Alive);
            }
        }
        if let Some(p) = erase {
            if is_inside_cell(p.x, p.y, cx, cy, cell_size) {
                grid.set(x, y, CellState::Empty);
            }
        }
        i = i + 1;
    }
}

} // verus!
