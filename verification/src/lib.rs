//! Core logic of a side-scrolling obstacle-avoidance game: the screen state
//! machine, the level data model and its validation, player motion with
//! input-buffered jumping, collision-outcome classification, and the
//! per-date best-percentage progress ledger.
//!
//! Geometry and time are measured in fixed-point integers so that every rule
//! can be stated and proved exactly: positions and velocities are in
//! thousandths of a world unit (see [`units`]), durations in milliseconds,
//! and completion percentages in thousandths of a percent.
//!
//! Rendering, audio, window management and the physics integrator are outside
//! collaborators: they feed this crate plain values (positions, contact
//! events, key states) and carry out the spawn and transition decisions it
//! returns.

pub mod units;

mod clock;

pub mod collision;

pub mod ledger;

pub mod level;

pub mod player;

pub mod progress;

pub mod state;
