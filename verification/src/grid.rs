//! The grid store: a fixed `side x side` square of cells, addressed in
//! row-major order by the linear index `x + y * side`.

use vstd::prelude::*;

verus! {

/// The state of a single cell. `Empty` and `Dead` are both "not alive" for
/// the life rule; they differ only in how a renderer shows them (`Empty` was
/// never touched, `Dead` died during a run).
#[derive(Clone, Copy, Debug, PartialEq, Eq, Structural)]
pub enum CellState {
    Alive,
    Dead,
    Empty,
}

/// Largest accepted grid side length. Keeps every linear index and every
/// cell-center coordinate comfortably inside the machine integer ranges.
pub const MAX_GRID_SIDE: usize = 10_000;

/// Row-major linear index of the cell at `(x, y)`.
pub open spec fn index_of(x: int, y: int, side: int) -> int {
    x + y * side
}

/// The cell count of a bounded grid fits comfortably in a machine word.
pub proof fn lemma_grid_area_bound(side: int)
    by (nonlinear_arith)
    requires
        0 <= side <= MAX_GRID_SIDE,
    ensures
        side * side <= MAX_GRID_SIDE * MAX_GRID_SIDE,
{
}

/// A linear index built from in-range coordinates is itself in range.
pub proof fn lemma_index_of_in_range(x: int, y: int, side: int)
    by (nonlinear_arith)
    requires
        0 <= x < side,
        0 <= y < side,
    ensures
        0 <= index_of(x, y, side) < side * side,
{
}

/// A fixed square grid of cells. The side length never changes after
/// construction; only cell states mutate.
pub struct Grid {
    side: usize,
    cells: Vec<CellState>,
}

impl View for Grid {
    type V = Seq<CellState>;

    closed spec fn view(&self) -> Seq<CellState> {
        self.cells@
    }
}

impl Grid {
    /// The side length, as a mathematical integer.
    pub closed spec fn side_spec(&self) -> int {
        self.side as int
    }

    /// Well-formedness: a positive, bounded side length and exactly
    /// `side * side` cells.
    pub open spec fn wf(&self) -> bool {
        &&& 1 <= self.side_spec() <= MAX_GRID_SIDE
        &&& self@.len() == self.side_spec() * self.side_spec()
    }

    /// Builds a grid with every cell `Empty`.
    pub fn new(side: usize) -> (g: Grid)
        requires
            1 <= side <= MAX_GRID_SIDE,
        ensures
            g.wf(),
            g.side_spec() == side,
            g@ =~= Seq::new((side * side) as nat, |i: int| CellState::Empty),
    {
        proof {
            lemma_grid_area_bound(side as int);
        }
        let total: usize = side * side;
        let mut cells: Vec<CellState> = Vec::new();
        let mut i: usize = 0;
        while i < total
            invariant
                i <= total,
                cells@.len() == i,
                forall|j: int| 0 <= j < i ==> cells@[j] == CellState::Empty,
            decreases total - i,
        {
            cells.push(CellState::Empty);
            i = i + 1;
        }
        Grid { side, cells }
    }

    /// The side length.
    pub fn side(&self) -> (s: usize)
        ensures
            s == self.side_spec(),
    {
        self.side
    }

    /// Reads the cell at `(x, y)`. Callers bounds-check first: there is no
    /// in-band error value.
    pub fn get(&self, x: usize, y: usize) -> (c: CellState)
        requires
            self.wf(),
            x < self.side_spec(),
            y < self.side_spec(),
        ensures
            c == self@[index_of(x as int, y as int, self.side_spec())],
    {
        proof {
            lemma_grid_area_bound(self.side_spec());
            lemma_index_of_in_range(x as int, y as int, self.side_spec());
        }
        self.cells[x + y * self.side]
    }

    /// Writes the cell at `(x, y)`; every other cell keeps its state.
    pub fn set(&mut self, x: usize, y: usize, c: CellState)
        requires
            old(self).wf(),
            x < old(self).side_spec(),
            y < old(self).side_spec(),
        ensures
            final(self).wf(),
            final(self).side_spec() == old(self).side_spec(),
            final(self)@ =~= old(self)@.update(
                index_of(x as int, y as int, old(self).side_spec()),
                c,
            ),
    {
        proof {
            lemma_grid_area_bound(self.side_spec());
            lemma_index_of_in_range(x as int, y as int, self.side_spec());
        }
        let i: usize = x + y * self.side;
        self.cells.set(i, c);
    }
}

} // verus!
