//! The vocabulary spoken between the verified engine and the unverified
//! shell around it: decoded key events come in, launch requests go out, and
//! process outcomes are reported back.

use vstd::prelude::*;

verus! {

/// A key event, as the shell decodes it from the terminal.
#[derive(Clone, Copy, PartialEq, Eq, Structural, Debug)]
pub enum Key {
    Up,
    Down,
    Left,
    Right,
    Enter,
    Esc,
    Tab,
    PageUp,
    PageDown,
    Char(char),
    Other,
}

/// A request to launch the toolchain on the mission's source file.
#[derive(Clone, Copy, Debug)]
pub struct CompileLaunch {
    pub source_path: &'static str,
    pub output_name: &'static str,
}

/// A request to execute the compiled artifact, with the decimal arguments to
/// pass it. Fixed-point readings are in hundredths of a unit.
#[derive(Clone, Copy, PartialEq, Eq, Structural, Debug)]
pub enum ArtifactRun {
    /// Probe the navigation artifact with the fixed sanity coordinates; the
    /// outcome goes to `App::resolve_sanity`.
    Sanity { x1: i32, y1: i32, x2: i32, y2: i32 },
    /// Run the navigation artifact on live coordinates; the outcome goes to
    /// `App::resolve_gps`.
    Gps { x1: i32, y1: i32, x2: i32, y2: i32 },
    /// Run the purification artifact on the sensor readings; the outcome
    /// goes to `App::resolve_water`.
    Water { turbidity_centi: u64, ph_centi: u64 },
}

/// What the shell must do after an input event.
#[derive(Clone, Copy, PartialEq, Eq, Structural, Debug)]
pub enum Effect {
    /// Nothing: the state change was internal.
    Idle,
    /// Drive the compile protocol: check that the mission's source file
    /// exists, call `App::compile_mission_code`, and follow its requests.
    Compile,
    /// Execute the artifact as asked and report the outcome.
    Run(ArtifactRun),
}

/// What became of a toolchain launch.
#[derive(Clone, PartialEq, Debug)]
pub enum ToolchainOutcome {
    /// The toolchain ran: its exit status, its captured error stream, and
    /// the artifact file's size where the toolchain succeeded and the
    /// file's metadata could be read.
    Ran { exit_ok: bool, stderr: String, artifact_size: Option<u64> },
    /// The toolchain could not be launched at all; a description of the
    /// error.
    LaunchFailed(String),
}

/// What became of an artifact execution.
#[derive(Clone, PartialEq, Debug)]
pub enum ExecOutcome {
    /// The artifact ran: its exit status and its decoded standard output.
    Ran { exit_ok: bool, stdout: String },
    /// The artifact could not be launched.
    LaunchFailed(String),
}

} // verus!
