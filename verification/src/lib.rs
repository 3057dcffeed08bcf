//! Core logic of a pointer-speed overlay: a sampler that turns raw pointer
//! positions into a speed estimate, a threshold-based trigger decision, and a
//! decay timer that hides the overlay after a quiet period. Platform window
//! plumbing lives outside this crate; everything here is plain state and
//! arithmetic, verified.

pub mod config;
pub mod math;
pub mod detector;
pub mod laws;
pub mod overlay;
