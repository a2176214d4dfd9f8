//! Decisions and drawing geometry of a splash screen that stays up while a
//! program starts.
//!
//! - `cli`: the command line.
//! - `scene`: what one frame of the animation draws.
//! - `supervisor`: when the splash loop redraws, polls the child, and ends.
pub mod cli;
pub mod scene;
pub mod supervisor;
