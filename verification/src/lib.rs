//! The core of a double-pendulum animation: validated physical parameters,
//! the run/pause state machine that decides what each frame does, and the
//! bounded, fading trail of the pendulum's tip.

pub mod error;
pub mod link;
pub mod scalar;
pub mod sim;
pub mod state;
pub mod trail;
