//! Control core for a family of USB input modules: an RGB LED matrix, a
//! low-power bistable display and a minimal single-LED indicator.
//!
//! The crate covers the command protocol (frame decoding and per-module
//! parsing with a generic fallback), the per-module state machines, the
//! sleep/wake arbiter and the power state machine. Hardware drivers and the
//! transport are collaborators: handlers return the action the caller must
//! perform on the hardware instead of touching it themselves.

pub mod control;
pub mod matrix;
pub mod patterns;
pub mod scheduler;
