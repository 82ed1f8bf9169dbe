//! Properties of the simulation core that hold for every grid, stated and
//! proved once rather than checked on samples.

use vstd::prelude::*;

use crate::grid::{index_of, lemma_index_of_in_range, CellState};
use crate::rules::{alive_at, lemma_index_split, neighbor_count, next_cell, next_generation,
    one_if_alive};

verus! {

/// Every cell is in exactly one of the three states; no other value is
/// reachable.
pub proof fn lemma_cell_states_closed(g: Seq<CellState>)
    ensures
        forall|i: int|
            0 <= i < g.len() ==> (#[trigger] g[i] == CellState::Alive || g[i] == CellState::Dead
                || g[i] == CellState::Empty),
{
    assert forall|i: int| 0 <= i < g.len() implies (#[trigger] g[i] == CellState::Alive || g[i]
        == CellState::Dead || g[i] == CellState::Empty) by {
        match g[i] {
            CellState::Alive => {},
            CellState::Dead => {},
            CellState::Empty => {},
        }
    }
}

/// A neighbor count is always between 0 and 8.
pub proof fn lemma_neighbor_count_bounds(g: Seq<CellState>, side: int, x: int, y: int)
    ensures
        0 <= neighbor_count(g, side, x, y) <= 8,
{
}

/// The corner cell `(0, 0)` draws its count from its three in-range
/// neighbors alone; the five positions outside the grid contribute nothing.
pub proof fn lemma_corner_neighbor_count(g: Seq<CellState>, side: int)
    requires
        1 <= side,
    ensures
        neighbor_count(g, side, 0, 0) == one_if_alive(g, side, 1, 0) + one_if_alive(g, side, 0, 1)
            + one_if_alive(g, side, 1, 1),
{
}

/// A cell on the bottom edge draws its count from its five in-range
/// neighbors alone; the row below the grid contributes nothing.
pub proof fn lemma_bottom_edge_neighbor_count(g: Seq<CellState>, side: int, x: int)
    requires
        1 <= side,
        0 <= x < side,
    ensures
        neighbor_count(g, side, x, 0) == one_if_alive(g, side, x - 1, 0) + one_if_alive(
            g,
            side,
            x + 1,
            0,
        ) + one_if_alive(g, side, x - 1, 1) + one_if_alive(g, side, x, 1) + one_if_alive(
            g,
            side,
            x + 1,
            1,
        ),
{
}

/// In a grid with no live cell, nothing is alive anywhere.
proof fn lemma_lifeless_not_alive_at(g: Seq<CellState>, side: int, x: int, y: int)
    requires
        1 <= side,
        g.len() == side * side,
        forall|i: int| 0 <= i < g.len() ==> g[i] != CellState::Alive,
    ensures
        !alive_at(g, side, x, y),
{
    if 0 <= x < side && 0 <= y < side {
        lemma_index_of_in_range(x, y, side);
        assert(g[index_of(x, y, side)] != CellState::Alive);
    }
}

/// One generation applied to a grid with no live cell changes nothing:
/// every count is zero, so nothing is born and nothing can die.
pub proof fn lemma_lifeless_grid_is_fixed(g: Seq<CellState>, side: int)
    requires
        1 <= side,
        g.len() == side * side,
        forall|i: int| 0 <= i < g.len() ==> g[i] != CellState::Alive,
    ensures
        next_generation(g, side) =~= g,
{
    assert forall|i: int| 0 <= i < g.len() implies next_generation(g, side)[i] == g[i] by {
        lemma_index_split(i, side);
        let x = i % side;
        let y = i / side;
        lemma_lifeless_not_alive_at(g, side, x - 1, y - 1);
        lemma_lifeless_not_alive_at(g, side, x, y - 1);
        lemma_lifeless_not_alive_at(g, side, x + 1, y - 1);
        lemma_lifeless_not_alive_at(g, side, x - 1, y);
        lemma_lifeless_not_alive_at(g, side, x + 1, y);
        lemma_lifeless_not_alive_at(g, side, x - 1, y + 1);
        lemma_lifeless_not_alive_at(g, side, x, y + 1);
        lemma_lifeless_not_alive_at(g, side, x + 1, y + 1);
        assert(neighbor_count(g, side, x, y) == 0);
        assert(g[index_of(x, y, side)] != CellState::Alive);
    }
}

/// One generation is a pure function of the grid it starts from: equal grids
/// step to equal grids. Together with the exact postcondition of
/// `step_generation`, two independent runs from the same start produce the
/// same result.
pub proof fn lemma_next_generation_deterministic(g1: Seq<CellState>, g2: Seq<CellState>, side: int)
    requires
        g1 == g2,
    ensures
        next_generation(g1, side) == next_generation(g2, side),
{
}

/// Membership in the 2x2 block of cells anchored at `(bx, by)`.
pub open spec fn in_block(bx: int, by: int, x: int, y: int) -> bool {
    bx <= x <= bx + 1 && by <= y <= by + 1
}

/// A 2x2 block of live cells whose surrounding ring holds no live cell keeps
/// all four cells alive for another generation: each block cell sees exactly
/// three live neighbors, and three neighbors always mean life.
pub proof fn lemma_block_is_stable(g: Seq<CellState>, side: int, bx: int, by: int)
    requires
        1 <= side,
        g.len() == side * side,
        0 <= bx,
        bx + 1 < side,
        0 <= by,
        by + 1 < side,
        forall|x: int, y: int| in_block(bx, by, x, y) ==> #[trigger] alive_at(g, side, x, y),
        forall|x: int, y: int|
            bx - 1 <= x <= bx + 2 && by - 1 <= y <= by + 2 && !in_block(bx, by, x, y)
                ==> !#[trigger] alive_at(g, side, x, y),
    ensures
        forall|x: int, y: int|
            in_block(bx, by, x, y) ==> #[trigger] next_cell(g, side, x, y) == CellState::Alive,
{
    assert forall|x: int, y: int| in_block(bx, by, x, y) implies #[trigger] next_cell(g, side, x, y)
        == CellState::Alive by {
        assert(neighbor_count(g, side, x, y) == 3);
    }
}

/// A grid whose only live cells form one 2x2 block is a still life: the
/// block cells each see three live neighbors and stay alive, and every other
/// cell sees at most two, so nothing is born and nothing changes.
pub proof fn lemma_block_world_is_fixed(g: Seq<CellState>, side: int, bx: int, by: int)
    requires
        1 <= side,
        g.len() == side * side,
        0 <= bx,
        bx + 1 < side,
        0 <= by,
        by + 1 < side,
        forall|x: int, y: int| #[trigger] alive_at(g, side, x, y) <==> in_block(bx, by, x, y),
    ensures
        next_generation(g, side) =~= g,
{
    assert forall|i: int| 0 <= i < g.len() implies next_generation(g, side)[i] == g[i] by {
        lemma_index_split(i, side);
        let x = i % side;
        let y = i / side;
        if in_block(bx, by, x, y) {
            assert(neighbor_count(g, side, x, y) == 3);
            assert(alive_at(g, side, x, y));
        } else {
            assert(neighbor_count(g, side, x, y) <= 2);
            assert(!alive_at(g, side, x, y));
        }
    }
}

} // verus!
