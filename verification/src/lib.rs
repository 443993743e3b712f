//! Engine for an interactive coding-challenge game: a player edits a source
//! file on disk, an external toolchain compiles it, and the engine judges the
//! resulting artifact's output against reference computations to drive
//! mission progression.
//!
//! Everything that runs child processes or touches the terminal lives in the
//! surrounding (unverified) shell; this crate holds the decisions: which
//! process to launch, and what every possible outcome means for the game
//! state.

pub mod app;
pub mod fixed;
pub mod gameplay;
pub mod interface;
pub mod mission_01;
pub mod mission_02;
pub mod oracle;
mod rng;
pub mod scenarios;
pub mod text;
pub mod util;
