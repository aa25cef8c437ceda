//! Bounded-duration microphone capture: device-session configuration,
//! a sample sink over a WAVE container, and the capture-pipeline state
//! machine, with contracts on every step.

pub mod error;
pub mod format;
pub mod session;
pub mod sink;
