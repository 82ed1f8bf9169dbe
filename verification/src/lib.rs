//! Core of an interactive Game-of-Life sandbox.
//!
//! The library owns the simulation state and its rules: a fixed square grid
//! of cells, the paint engine that turns pointer positions into cell edits,
//! the life rule that advances the grid one generation at a time, the tick
//! timer that gates how often a generation may advance, and the two-state
//! run controller that decides whether painting or simulation is active.
//! A host program feeds it plain values (pointer positions, elapsed time,
//! lifecycle signals) and reads cell states back for rendering.

pub mod control;
pub mod grid;
pub mod laws;
pub mod paint;
pub mod rules;
pub mod sim;
pub mod timer;
