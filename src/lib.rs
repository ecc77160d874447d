//! Terminal interval timer: session state machine, derived timing values,
//! key handling and request outcomes, with all durations held as whole
//! milliseconds.

pub mod duration;
pub mod api;
pub mod session;
pub mod laws;
