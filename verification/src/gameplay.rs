//! Missions and their compilation lifecycle: the status a mission shows, and
//! how a toolchain launch's outcome decides it.

use vstd::prelude::*;

use crate::interface::ToolchainOutcome;
use crate::mission_01::Mission01State;
use crate::mission_02::Mission02State;

verus! {

/// Where a mission stands with the toolchain and the sanity check.
#[derive(Clone, PartialEq, Debug)]
pub enum MissionStatus {
    Locked,
    Active,
    Success,
    /// Carries the diagnostic to display: a compiler log, a sanity-check
    /// verdict, or an environment error.
    Failed(String),
}

/// The diagnostic for a source file that is not on disk; distinguishable
/// from a compiler log by its prefix.
pub open spec fn missing_source_msg(path: Seq<char>) -> Seq<char> {
    "ERROR: File not found: "@ + path + "\n\nDid you delete it? Run --init to restore."@
}

/// The diagnostic for a toolchain that could not be launched at all;
/// distinguishable from a compiler log by its prefix.
pub open spec fn toolchain_unavailable_msg(detail: Seq<char>) -> Seq<char> {
    "CRITICAL ERROR: Could not run 'rustc'.\nIs Rust installed?\nDetails: "@ + detail
}

/// One coding challenge: identity, display strings, the on-disk source file
/// the player edits, and what the last compile made of it.
pub struct Mission {
    pub id: u32,
    pub title: &'static str,
    pub description: &'static str,
    pub path: &'static str,
    pub status: MissionStatus,
    pub binary_size: Option<u64>,
}

/// The fields a compile never touches.
pub open spec fn same_mission_identity(a: Mission, b: Mission) -> bool {
    &&& a.id == b.id
    &&& a.title == b.title
    &&& a.description == b.description
    &&& a.path == b.path
}

impl Mission {
    pub fn new(id: u32, title: &'static str, description: &'static str, path: &'static str) -> (m:
        Mission)
        ensures
            m.id == id,
            m.title == title,
            m.description == description,
            m.path == path,
            m.status == MissionStatus::Active,
            m.binary_size is None,
    {
        Mission { id, title, description, path, status: MissionStatus::Active, binary_size: None }
    }

    /// Checked before any toolchain launch: when the source file is not on
    /// disk the mission fails at once with the missing-file diagnostic, and
    /// no process is to be started.
    pub fn check_source(&mut self, source_exists: bool) -> (ok: bool)
        ensures
            ok == source_exists,
            same_mission_identity(*old(self), *final(self)),
            source_exists ==> *final(self) == *old(self),
            !source_exists ==> final(self).binary_size is None && (final(self).status matches
                MissionStatus::Failed(m) && m@ == missing_source_msg(old(self).path@)),
    {
        if source_exists {
            return true;
        }
        let mut msg = String::from_str("ERROR: File not found: ");
        msg.append(self.path);
        msg.append("\n\nDid you delete it? Run --init to restore.");
        self.status = MissionStatus::Failed(msg);
        self.binary_size = None;
        false
    }

    /// Applies what the toolchain reported: success marks the mission
    /// `Success` and records the artifact size where one was read; a
    /// non-zero exit marks it `Failed` with the captured error stream,
    /// verbatim; a launch error marks it `Failed` with the
    /// environment-error diagnostic. This is reached only after
    /// `check_source` granted a launch: a mission whose source file is
    /// missing never gets this far, and no process is started for it.
    pub fn compile_binary(&mut self, outcome: ToolchainOutcome) -> (ok: bool)
        ensures
            same_mission_identity(*old(self), *final(self)),
            match outcome {
                ToolchainOutcome::Ran { exit_ok, stderr, artifact_size } => {
                    if exit_ok {
                        &&& ok
                        &&& final(self).status == MissionStatus::Success
                        &&& final(self).binary_size == (if artifact_size is Some {
                            artifact_size
                        } else {
                            old(self).binary_size
                        })
                    } else {
                        &&& !ok
                        &&& final(self).status == MissionStatus::Failed(stderr)
                        &&& final(self).binary_size is None
                    }
                },
                ToolchainOutcome::LaunchFailed(detail) => {
                    &&& !ok
                    &&& (final(self).status matches MissionStatus::Failed(m) && m@
                        == toolchain_unavailable_msg(detail@))
                    &&& final(self).binary_size is None
                },
            },
    {
        match outcome {
            ToolchainOutcome::Ran { exit_ok, stderr, artifact_size } => {
                if exit_ok {
                    self.status = MissionStatus::Success;
                    if let Some(size) = artifact_size {
                        self.binary_size = Some(size);
                    }
                    true
                } else {
                    self.status = MissionStatus::Failed(stderr);
                    self.binary_size = None;
                    false
                }
            },
            ToolchainOutcome::LaunchFailed(detail) => {
                let mut msg = String::from_str(
                    "CRITICAL ERROR: Could not run 'rustc'.\nIs Rust installed?\nDetails: ",
                );
                msg.append(detail.as_str());
                self.status = MissionStatus::Failed(msg);
                self.binary_size = None;
                false
            },
        }
    }
}

/// Which mission's gameplay is live.
pub enum GameState {
    MainMenu,
    Mission01(Mission01State),
    Mission02(Mission02State),
}

} // verus!
