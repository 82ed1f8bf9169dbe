//! The life rule engine: advances the grid one generation at a time. Every
//! neighbor count is taken from a snapshot of the previous generation, so a
//! pass never reads its own writes, and the result is a pure function of the
//! grid it started from.

use vstd::prelude::*;

use crate::grid::{index_of, lemma_grid_area_bound, lemma_index_of_in_range, CellState, Grid,
    MAX_GRID_SIDE};

verus! {

/// True when `(x, y)` is inside the grid and that cell is `Alive`.
/// Out-of-range positions never count: the neighborhood does not wrap.
pub open spec fn alive_at(g: Seq<CellState>, side: int, x: int, y: int) -> bool {
    &&& 0 <= x < side
    &&& 0 <= y < side
    &&& g[index_of(x, y, side)] == CellState::Alive
}

/// 1 for a live in-range cell at `(x, y)`, 0 otherwise.
pub open spec fn one_if_alive(g: Seq<CellState>, side: int, x: int, y: int) -> int {
    if alive_at(g, side, x, y) {
        1int
    } else {
        0int
    }
}

/// Number of live cells among the eight Moore neighbors of `(x, y)`.
/// Positions outside `[0, side)` in either axis contribute nothing.
pub open spec fn neighbor_count(g: Seq<CellState>, side: int, x: int, y: int) -> int {
    one_if_alive(g, side, x - 1, y - 1) + one_if_alive(g, side, x, y - 1) + one_if_alive(
        g,
        side,
        x + 1,
        y - 1,
    ) + one_if_alive(g, side, x - 1, y) + one_if_alive(g, side, x + 1, y) + one_if_alive(
        g,
        side,
        x - 1,
        y + 1,
    ) + one_if_alive(g, side, x, y + 1) + one_if_alive(g, side, x + 1, y + 1)
}

/// The state of `(x, y)` after one generation. A live cell without exactly
/// two or three live neighbors dies; any cell with exactly three live
/// neighbors lives; every other cell keeps its state (in particular `Empty`
/// never turns into `Dead`, and `Dead` only revives through a birth).
pub open spec fn next_cell(g: Seq<CellState>, side: int, x: int, y: int) -> CellState {
    let n = neighbor_count(g, side, x, y);
    let cur = g[index_of(x, y, side)];
    if n == 3 {
        CellState::Alive
    } else if cur == CellState::Alive && n != 2 {
        CellState::Dead
    } else {
        cur
    }
}

/// The whole grid after one generation, every cell judged against the same
/// previous generation.
pub open spec fn next_generation(g: Seq<CellState>, side: int) -> Seq<CellState> {
    Seq::new(g.len(), |i: int| next_cell(g, side, i % side, i / side))
}

/// Splitting a linear index back into row-major coordinates is exact.
pub proof fn lemma_index_split(i: int, side: int)
    requires
        0 < side,
        0 <= i < side * side,
    ensures
        0 <= i % side < side,
        0 <= i / side < side,
        index_of(i % side, i / side, side) == i,
{
    vstd::arithmetic::div_mod::lemma_fundamental_div_mod(i, side);
    vstd::arithmetic::div_mod::lemma_mod_division_less_than_divisor(i, side);
    vstd::arithmetic::div_mod::lemma_multiply_divide_lt(i, side, side);
    vstd::arithmetic::div_mod::lemma_div_pos_is_pos(i, side);
    vstd::arithmetic::mul::lemma_mul_is_commutative(side, i / side);
}

/// Reads the snapshot at `(x, y)`, treating every out-of-range position as
/// not alive. Coordinates arrive as signed values so that the offsets of a
/// border cell's neighborhood need no special casing.
fn probe(snapshot: &Vec<bool>, side: usize, x: i64, y: i64, prev: Ghost<Seq<CellState>>) -> (b:
    bool)
    requires
        1 <= side <= MAX_GRID_SIDE,
        snapshot@.len() == side * side,
        prev@.len() == side * side,
        forall|j: int| 0 <= j < side * side ==> snapshot@[j] == (prev@[j] == CellState::Alive),
    ensures
        b == alive_at(prev@, side as int, x as int, y as int),
{
    if x >= 0 && y >= 0 && x < side as i64 && y < side as i64 {
        proof {
            lemma_grid_area_bound(side as int);
            lemma_index_of_in_range(x as int, y as int, side as int);
        }
        let ux = x as usize;
        let uy = y as usize;
        snapshot[ux + uy * side]
    } else {
        false
    }
}

/// Counts the live Moore neighbors of `(x, y)` in the snapshot.
fn count_alive_neighbors(
    snapshot: &Vec<bool>,
    side: usize,
    x: usize,
    y: usize,
    prev: Ghost<Seq<CellState>>,
) -> (n: u32)
    requires
        1 <= side <= MAX_GRID_SIDE,
        x < side,
        y < side,
        snapshot@.len() == side * side,
        prev@.len() == side * side,
        forall|j: int| 0 <= j < side * side ==> snapshot@[j] == (prev@[j] == CellState::Alive),
    ensures
        n == neighbor_count(prev@, side as int, x as int, y as int),
{
    let xi = x as i64;
    let yi = y as i64;
    let nw: u32 = if probe(snapshot, side, xi - 1, yi - 1, prev) {
        1
    } else {
        0
    };
    let nn: u32 = if probe(snapshot, side, xi, yi - 1, prev) {
        1
    } else {
        0
    };
    let ne: u32 = if probe(snapshot, side, xi + 1, yi - 1, prev) {
        1
    } else {
        0
    };
    let ww: u32 = if probe(snapshot, side, xi - 1, yi, prev) {
        1
    } else {
        0
    };
    let ee: u32 = if probe(snapshot, side, xi + 1, yi, prev) {
        1
    } else {
        0
    };
    let sw: u32 = if probe(snapshot, side, xi - 1, yi + 1, prev) {
        1
    } else {
        0
    };
    let ss: u32 = if probe(snapshot, side, xi, yi + 1, prev) {
        1
    } else {
        0
    };
    let se: u32 = if probe(snapshot, side, xi + 1, yi + 1, prev) {
        1
    } else {
        0
    };
    nw + nn + ne + ww + ee + sw + ss + se
}

/// Advances the grid one generation in place, using Conway's rule over the
/// bounded (non-wrapping) Moore neighborhood. The snapshot pass completes
/// before any cell mutates, so every count reflects the previous generation.
pub fn step_generation(grid: &mut Grid)
    requires
        old(grid).wf(),
    ensures
        final(grid).wf(),
        final(grid).side_spec() == old(grid).side_spec(),
        final(grid)@ =~= next_generation(old(grid)@, old(grid).side_spec()),
{
    let ghost g0 = grid@;
    let side = grid.side();
    proof {
        lemma_grid_area_bound(side as int);
    }
    let total: usize = side * side;

    let mut snapshot: Vec<bool> = Vec::new();
    let mut i: usize = 0;
    while i < total
        invariant
            grid.wf(),
            grid@ == g0,
            grid.side_spec() == side as int,
            1 <= side <= MAX_GRID_SIDE,
            total == side * side,
            i <= total,
            snapshot@.len() == i,
            forall|j: int| 0 <= j < i ==> snapshot@[j] == (g0[j] == CellState::Alive),
        decreases total - i,
    {
        proof {
            lemma_index_split(i as int, side as int);
        }
        let x = i % side;
        let y = i / side;
        let alive = grid.get(x, y) == CellState::Alive;
        snapshot.push(alive);
        i = i + 1;
    }

    let mut i: usize = 0;
    while i < total
        invariant
            grid.wf(),
            grid.side_spec() == side as int,
            1 <= side <= MAX_GRID_SIDE,
            total == side * side,
            i <= total,
            g0.len() == total,
            grid@.len() == total,
            snapshot@.len() == total,
            forall|j: int| 0 <= j < total ==> snapshot@[j] == (g0[j] == CellState::Alive),
            forall|j: int| 0 <= j < i ==> grid@[j] == next_generation(g0, side as int)[j],
            forall|j: int| i <= j < total ==> grid@[j] == g0[j],
        decreases total - i,
    {
        proof {
            lemma_index_split(i as int, side as int);
        }
        let x = i % side;
        let y = i / side;
        let n = count_alive_neighbors(&snapshot, side, x, y, Ghost(g0));
        let cur = grid.get(x, y);
        let next = if n == 3 {
            CellState::Alive
        } else if cur == CellState::Alive && n != 2 {
            CellState::Dead
        } else {
            cur
        };
        grid.set(x, y, next);
        i = i + 1;
    }
}

} // verus!
