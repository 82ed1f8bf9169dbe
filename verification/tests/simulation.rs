use life_core::control::{apply_signal, RunState, Signal};
use life_core::grid::{CellState, Grid};
use life_core::paint::{apply_edits, is_inside_cell, WorldPoint};
use life_core::rules::step_generation;
use life_core::sim::Simulation;
use life_core::timer::TickTimer;

fn collect_states(g: &Grid) -> Vec<CellState> {
    let side: usize = g.side();
    let mut out: Vec<CellState> = Vec::new();
    for y in 0..side {
        for x in 0..side {
            out.push(g.get(x, y));
        }
    }
    out
}

#[test]
fn new_grid_is_all_empty() {
    let g = Grid::new(4);
    assert_eq!(g.side(), 4);
    for y in 0..4 {
        for x in 0..4 {
            assert_eq!(g.get(x, y), CellState::Empty);
        }
    }
}

#[test]
fn get_returns_what_set_wrote() {
    let mut g = Grid::new(3);
    g.set(2, 1, CellState::Alive);
    g.set(0, 2, CellState::Dead);
    assert_eq!(g.get(2, 1), CellState::Alive);
    assert_eq!(g.get(0, 2), CellState::Dead);
    assert_eq!(g.get(1, 1), CellState::Empty);
}

#[test]
fn every_cell_is_one_of_three_states() {
    let mut g = Grid::new(3);
    g.set(1, 1, CellState::Alive);
    g.set(2, 2, CellState::Dead);
    step_generation(&mut g);
    for y in 0..3 {
        for x in 0..3 {
            let c = g.get(x, y);
            assert!(c == CellState::Alive || c == CellState::Dead || c == CellState::Empty);
        }
    }
}

#[test]
fn lifeless_grid_is_unchanged_by_a_generation() {
    let mut g = Grid::new(4);
    g.set(1, 1, CellState::Dead);
    g.set(2, 3, CellState::Dead);
    let before = collect_states(&g);
    step_generation(&mut g);
    assert_eq!(collect_states(&g), before);
}

#[test]
fn generation_step_is_deterministic() {
    let mut g1 = Grid::new(5);
    let mut g2 = Grid::new(5);
    let pattern: Vec<(usize, usize)> = vec![(1, 1), (2, 1), (3, 1), (2, 2), (3, 3)];
    for (x, y) in pattern {
        g1.set(x, y, CellState::Alive);
        g2.set(x, y, CellState::Alive);
    }
    step_generation(&mut g1);
    step_generation(&mut g2);
    assert_eq!(collect_states(&g1), collect_states(&g2));
}

#[test]
fn corner_cell_counts_only_in_range_neighbors() {
    // Three live neighbors around the corner (0, 0): it is born. The five
    // positions outside the grid contribute nothing, or the count would
    // exceed three and the corner would stay empty.
    let mut g = Grid::new(3);
    g.set(1, 0, CellState::Alive);
    g.set(0, 1, CellState::Alive);
    g.set(1, 1, CellState::Alive);
    step_generation(&mut g);
    assert_eq!(g.get(0, 0), CellState::Alive);
}

#[test]
fn edge_column_does_not_wrap_around() {
    // A vertical line on the right edge: with a wrapping neighborhood the
    // opposite edge would see three live neighbors and give birth at (0, 1).
    let mut g = Grid::new(3);
    g.set(2, 0, CellState::Alive);
    g.set(2, 1, CellState::Alive);
    g.set(2, 2, CellState::Alive);
    step_generation(&mut g);
    assert_eq!(g.get(0, 0), CellState::Empty);
    assert_eq!(g.get(0, 1), CellState::Empty);
    assert_eq!(g.get(0, 2), CellState::Empty);
    assert_eq!(g.get(1, 1), CellState::Alive);
    assert_eq!(g.get(2, 1), CellState::Alive);
}

#[test]
fn block_pattern_is_stable() {
    let mut g = Grid::new(4);
    g.set(1, 1, CellState::Alive);
    g.set(2, 1, CellState::Alive);
    g.set(1, 2, CellState::Alive);
    g.set(2, 2, CellState::Alive);
    let before = collect_states(&g);
    step_generation(&mut g);
    assert_eq!(collect_states(&g), before);
}

#[test]
fn hit_test_is_inclusive_on_the_boundary() {
    // Cell footprints are 32 wide around the center, so 16 away is still in.
    assert!(is_inside_cell(16, 0, 0, 0, 32));
    assert!(is_inside_cell(-16, -16, 0, 0, 32));
    assert!(!is_inside_cell(17, 0, 0, 0, 32));
    assert!(!is_inside_cell(0, -17, 0, 0, 32));
}

#[test]
fn draw_sets_the_hit_cell_alive() {
    let mut g = Grid::new(3);
    let p = WorldPoint { x: 32, y: 64 };
    apply_edits(&mut g, RunState::Editing, 32, Some(p), None);
    assert_eq!(g.get(1, 2), CellState::Alive);
    assert_eq!(g.get(1, 1), CellState::Empty);
    assert_eq!(g.get(0, 0), CellState::Empty);
}

#[test]
fn point_on_a_shared_edge_edits_both_cells() {
    let mut g = Grid::new(3);
    let p = WorldPoint { x: 16, y: 0 };
    apply_edits(&mut g, RunState::Editing, 32, Some(p), None);
    assert_eq!(g.get(0, 0), CellState::Alive);
    assert_eq!(g.get(1, 0), CellState::Alive);
    assert_eq!(g.get(2, 0), CellState::Empty);
}

#[test]
fn erase_wins_over_draw_in_the_same_frame() {
    let mut g = Grid::new(3);
    g.set(1, 1, CellState::Dead);
    let p = WorldPoint { x: 32, y: 32 };
    apply_edits(&mut g, RunState::Editing, 32, Some(p), Some(p));
    assert_eq!(g.get(1, 1), CellState::Empty);
}

#[test]
fn erase_clears_back_to_empty() {
    let mut g = Grid::new(3);
    g.set(0, 0, CellState::Alive);
    let p = WorldPoint { x: 0, y: 0 };
    apply_edits(&mut g, RunState::Editing, 32, None, Some(p));
    assert_eq!(g.get(0, 0), CellState::Empty);
}

#[test]
fn out_of_grid_point_edits_nothing() {
    let mut g = Grid::new(3);
    let before = collect_states(&g);
    let p = WorldPoint { x: 1_000_000, y: -1_000_000 };
    apply_edits(&mut g, RunState::Editing, 32, Some(p), None);
    assert_eq!(collect_states(&g), before);
}

#[test]
fn painting_is_ignored_while_running() {
    let mut g = Grid::new(3);
    g.set(1, 1, CellState::Alive);
    let before = collect_states(&g);
    let p = WorldPoint { x: 0, y: 0 };
    apply_edits(&mut g, RunState::Running, 32, Some(p), Some(WorldPoint { x: 32, y: 32 }));
    assert_eq!(collect_states(&g), before);
}

#[test]
fn signals_follow_the_two_state_machine() {
    assert_eq!(apply_signal(RunState::Editing, Some(Signal::Start)), (RunState::Running, false));
    assert_eq!(apply_signal(RunState::Running, Some(Signal::Stop)), (RunState::Editing, false));
    // A signal that matches no valid transition is a silent no-op.
    assert_eq!(apply_signal(RunState::Running, Some(Signal::Start)), (RunState::Running, false));
    assert_eq!(apply_signal(RunState::Editing, Some(Signal::Stop)), (RunState::Editing, false));
    // Exit asks for termination without touching the run state.
    assert_eq!(apply_signal(RunState::Running, Some(Signal::Exit)), (RunState::Running, true));
    assert_eq!(apply_signal(RunState::Editing, None), (RunState::Editing, false));
}

#[test]
fn timer_fires_exactly_at_the_interval() {
    let mut t = TickTimer::new(500);
    assert!(!t.advance(499));
    assert!(t.advance(1));
    assert!(!t.advance(499));
    assert!(t.advance(500));
}

#[test]
fn oversized_frame_coalesces_to_one_fire_and_wraps() {
    let mut t = TickTimer::new(500);
    // 1200 ms in one frame: one fire, accumulator wraps to 200.
    assert!(t.advance(1200));
    assert!(!t.advance(299));
    assert!(t.advance(1));
}

#[test]
fn fresh_simulation_starts_editing_and_empty() {
    let sim = Simulation::new(3, 32, 500);
    assert_eq!(sim.run_state, RunState::Editing);
    assert_eq!(sim.grid.side(), 3);
    for y in 0..3 {
        for x in 0..3 {
            assert_eq!(sim.grid.get(x, y), CellState::Empty);
        }
    }
}

#[test]
fn life_engine_never_runs_while_editing() {
    let mut sim = Simulation::new(3, 32, 500);
    sim.grid.set(1, 0, CellState::Alive);
    sim.grid.set(1, 1, CellState::Alive);
    sim.grid.set(1, 2, CellState::Alive);
    let before = collect_states(&sim.grid);
    // The tick interval elapses, but the run state is still Editing.
    let exit = sim.step(500, None, None, None);
    assert!(!exit);
    assert_eq!(sim.run_state, RunState::Editing);
    assert_eq!(collect_states(&sim.grid), before);
}

#[test]
fn exit_signal_terminates_without_changing_state() {
    let mut sim = Simulation::new(3, 32, 500);
    sim.grid.set(1, 1, CellState::Alive);
    let before = collect_states(&sim.grid);
    let exit = sim.step(0, Some(Signal::Exit), None, None);
    assert!(exit);
    assert_eq!(sim.run_state, RunState::Editing);
    assert_eq!(collect_states(&sim.grid), before);
}

#[test]
fn blinker_rotates_after_one_running_tick() {
    let mut sim = Simulation::new(3, 32, 500);
    sim.grid.set(1, 0, CellState::Alive);
    sim.grid.set(1, 1, CellState::Alive);
    sim.grid.set(1, 2, CellState::Alive);
    let exit = sim.step(0, Some(Signal::Start), None, None);
    assert!(!exit);
    assert_eq!(sim.run_state, RunState::Running);
    // One full interval elapses: the vertical blinker becomes horizontal.
    sim.step(500, None, None, None);
    assert_eq!(sim.grid.get(0, 1), CellState::Alive);
    assert_eq!(sim.grid.get(1, 1), CellState::Alive);
    assert_eq!(sim.grid.get(2, 1), CellState::Alive);
    assert_eq!(sim.grid.get(1, 0), CellState::Dead);
    assert_eq!(sim.grid.get(1, 2), CellState::Dead);
    assert_eq!(sim.grid.get(0, 0), CellState::Empty);
    assert_eq!(sim.grid.get(2, 0), CellState::Empty);
    assert_eq!(sim.grid.get(0, 2), CellState::Empty);
    assert_eq!(sim.grid.get(2, 2), CellState::Empty);
}

#[test]
fn pointer_input_through_step_paints_only_while_editing() {
    let mut sim = Simulation::new(3, 32, 500);
    let p = WorldPoint { x: 32, y: 32 };
    sim.step(0, None, Some(p), None);
    assert_eq!(sim.grid.get(1, 1), CellState::Alive);
    sim.step(0, Some(Signal::Start), None, None);
    // While running, a pointer position changes nothing.
    sim.step(0, None, None, Some(p));
    assert_eq!(sim.grid.get(1, 1), CellState::Alive);
}

#[test]
fn no_tick_means_no_generation_while_running() {
    let mut sim = Simulation::new(3, 32, 500);
    sim.grid.set(1, 0, CellState::Alive);
    sim.grid.set(1, 1, CellState::Alive);
    sim.grid.set(1, 2, CellState::Alive);
    sim.step(0, Some(Signal::Start), None, None);
    let before = collect_states(&sim.grid);
    sim.step(499, None, None, None);
    assert_eq!(collect_states(&sim.grid), before);
    // The last missing millisecond arrives: the generation advances.
    sim.step(1, None, None, None);
    assert_ne!(collect_states(&sim.grid), before);
}

#[test]
fn lone_cell_in_smallest_grid_dies() {
    let mut g = Grid::new(1);
    g.set(0, 0, CellState::Alive);
    step_generation(&mut g);
    assert_eq!(g.get(0, 0), CellState::Dead);
}

#[test]
fn draw_and_erase_can_hit_different_cells_in_one_frame() {
    let mut g = Grid::new(3);
    g.set(2, 2, CellState::Alive);
    let draw = WorldPoint { x: 0, y: 0 };
    let erase = WorldPoint { x: 64, y: 64 };
    apply_edits(&mut g, RunState::Editing, 32, Some(draw), Some(erase));
    assert_eq!(g.get(0, 0), CellState::Alive);
    assert_eq!(g.get(2, 2), CellState::Empty);
}
