//! Offscreen rendering of a time-animated full-screen effect.
//!
//! The library decides everything the host's GPU calls are made from: the
//! byte layout of the shader's uniform block (`uniform`, with the float bit
//! patterns computed in `float_bits`), the fixed pipeline and render-target
//! state (`pipeline`), and a session's startup sequence and per-frame steps
//! (`session`). The host performs the GPU work and reports each outcome.
pub mod float_bits;
pub mod pipeline;
pub mod session;
pub mod uniform;
