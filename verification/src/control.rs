//! The run-state controller: a two-state machine, driven by external
//! lifecycle signals, that gates both the paint engine and the life rule
//! engine.

use vstd::prelude::*;

verus! {

/// Whether the simulation is being edited or is running. A fresh simulation
/// starts in `Editing`.
#[derive(Clone, Copy, Debug, PartialEq, Eq, Structural)]
pub enum RunState {
    Editing,
    Running,
}

/// A lifecycle signal raised by the surrounding user interface. `Exit` asks
/// the host process to terminate; it never changes the run state.
#[derive(Clone, Copy, Debug, PartialEq, Eq, Structural)]
pub enum Signal {
    Start,
    Stop,
    Exit,
}

/// The run state after one signal. `Start` leaves the machine running,
/// `Stop` leaves it editing, whatever it did before: a signal that matches
/// no valid transition is a silent no-op, never an error. `Exit` is handled
/// outside the state machine and changes nothing here.
pub open spec fn state_after(s: RunState, signal: Signal) -> RunState {
    match signal {
        Signal::Start => RunState::Running,
        Signal::Stop => RunState::Editing,
        Signal::Exit => s,
    }
}

/// The run state after this frame's signal, if one arrived at all.
pub open spec fn state_after_opt(s: RunState, signal: Option<Signal>) -> RunState {
    match signal {
        Some(sig) => state_after(s, sig),
        None => s,
    }
}

/// Whether this frame's signal asks the host process to terminate.
pub open spec fn exit_requested(signal: Option<Signal>) -> bool {
    signal == Some(Signal::Exit)
}

/// Applies one frame's lifecycle signal to the run state and reports whether
/// the host should terminate.
pub fn apply_signal(s: RunState, signal: Option<Signal>) -> (r: (RunState, bool))
    ensures
        r.0 == state_after_opt(s, signal),
        r.1 == exit_requested(signal),
{
    match signal {
        Some(Signal::Start) => (RunState::Running, false),
        Some(Signal::Stop) => (RunState::Editing, false),
        Some(Signal::Exit) => (s, true),
        None => (s, false),
    }
}

} // verus!
