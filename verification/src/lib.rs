//! Core of a battery-pack monitor: a verified telemetry store for a
//! multi-module pack, a liveness tracker that marks silent entities
//! absent, a mode arbiter that enforces the sleep-safety transmit rule,
//! and the decision logic of a priority-ordered event loop.
//!
//! Bus frame coding and the terminal front end are external
//! collaborators: the library consumes decoded telemetry events and
//! hands back plain effects (what to transmit, whether to redraw).

pub mod liveness;
pub mod mode;
pub mod sched;
pub mod telemetry;

pub use mode::Mode;
