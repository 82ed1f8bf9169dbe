//! The simulation context: one explicit struct owning the grid, the run
//! state, and the tick timer, stepped once per host frame in a fixed order.

use vstd::prelude::*;

use crate::control::{apply_signal, exit_requested, state_after_opt, RunState, Signal};
use crate::grid::{CellState, Grid, MAX_GRID_SIDE};
use crate::paint::{apply_edits, painted_grid, WorldPoint, MAX_CELL_SIZE};
use crate::rules::{next_generation, step_generation};
use crate::timer::TickTimer;

verus! {

/// The whole simulation core, owned by the top-level driver and passed by
/// reference into each frame: no hidden global state.
pub struct Simulation {
    pub grid: Grid,
    pub run_state: RunState,
    pub timer: TickTimer,
    /// The cell footprint's side length in world units, fixed at startup.
    pub cell_size: i64,
}

/// The grid contents after one frame, given the run state that this frame's
/// signal settled and whether the tick timer fired: painting acts only while
/// editing, the life rule only while running and only on a fired tick.
pub open spec fn grid_after_frame(
    g: Seq<CellState>,
    side: int,
    size: int,
    rs: RunState,
    fired: bool,
    draw: Option<WorldPoint>,
    erase: Option<WorldPoint>,
) -> Seq<CellState> {
    if rs == RunState::Editing {
        painted_grid(g, side, size, draw, erase)
    } else if fired {
        next_generation(g, side)
    } else {
        g
    }
}

impl Simulation {
    /// Well-formedness of the whole context.
    pub open spec fn wf(&self) -> bool {
        &&& self.grid.wf()
        &&& self.timer.wf()
        &&& 1 <= self.cell_size <= MAX_CELL_SIZE
    }

    /// Builds a fresh simulation: an all-`Empty` square grid, the editing
    /// state, and a timer that has just started counting. The grid side
    /// length, the cell footprint size and the tick interval are fixed here
    /// and never change afterwards.
    pub fn new(side: usize, cell_size: i64, tick_interval_ms: u64) -> (s: Simulation)
        requires
            1 <= side <= MAX_GRID_SIDE,
            1 <= cell_size <= MAX_CELL_SIZE,
            1 <= tick_interval_ms,
        ensures
            s.wf(),
            s.grid.side_spec() == side,
            s.grid@ =~= Seq::new((side * side) as nat, |i: int| CellState::Empty),
            s.run_state == RunState::Editing,
            s.timer.interval() == tick_interval_ms,
            s.timer.accumulated() == 0,
            s.cell_size == cell_size,
    {
        Simulation {
            grid: Grid::new(side),
            run_state: RunState::Editing,
            timer: TickTimer::new(tick_interval_ms),
            cell_size,
        }
    }

    /// Runs one host frame, in this fixed order: the timer advances by the
    /// frame's elapsed time, the lifecycle signal settles the run state,
    /// then exactly one of the engines may act against the settled state —
    /// the paint engine while editing, the life rule engine while running
    /// and only when the timer fired. Returns whether the host should
    /// terminate; an `Exit` signal only asks for that and changes nothing
    /// else.
    pub fn step(
        &mut self,
        elapsed_ms: u64,
        signal: Option<Signal>,
        draw: Option<WorldPoint>,
        erase: Option<WorldPoint>,
    ) -> (exit: bool)
        requires
            old(self).wf(),
        ensures
            final(self).wf(),
            final(self).grid.side_spec() == old(self).grid.side_spec(),
            final(self).cell_size == old(self).cell_size,
            exit == exit_requested(signal),
            final(self).run_state == state_after_opt(old(self).run_state, signal),
            TickTimer::advanced_by(old(self).timer, final(self).timer, elapsed_ms as int),
            final(self).grid@ == grid_after_frame(
                old(self).grid@,
                old(self).grid.side_spec(),
                old(self).cell_size as int,
                state_after_opt(old(self).run_state, signal),
                old(self).timer.fires(elapsed_ms as int),
                draw,
                erase,
            ),
    {
        let fired = self.timer.advance(elapsed_ms);
        let (settled, exit) = apply_signal(self.run_state, signal);
        self.run_state = settled;
        if settled == RunState::Editing {
            apply_edits(&mut self.grid, settled, self.cell_size, draw, erase);
        } else if fired {
            step_generation(&mut self.grid);
        }
        exit
    }
}

} // verus!
