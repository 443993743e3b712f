//! The navigation mission: a player on a randomly generated terrain grid,
//! a GPS whose readings come from the compiled artifact, and the fixed
//! sanity probe that validates the artifact's distance logic before the
//! gameplay trusts it.

use vstd::prelude::*;

use crate::interface::ArtifactRun;
use crate::interface::ExecOutcome;
use crate::rng::rand_in_range;
use crate::text::trim_str;
use crate::text::trimmed;
use crate::util::clamp_add_i32;
use crate::util::clamp_i;

verus! {

/// What a terrain cell holds.
#[derive(Clone, Copy, PartialEq, Eq, Structural, Debug)]
pub enum TileType {
    Ground,
    Tree,
    Rock,
    Ruin,
}

/// State of the navigation mission.
#[derive(Clone)]
pub struct Mission01State {
    pub player_x: i32,
    pub player_y: i32,
    pub target_x: i32,
    pub target_y: i32,
    pub grid_width: i32,
    pub grid_height: i32,
    pub terrain: Vec<Vec<TileType>>,
    pub gps_output: String,
    pub is_gps_compiled: bool,
    pub is_finished: bool,
    /// Wall-clock duration of the last artifact run, in milliseconds; `None`
    /// until a first run was measured.
    pub last_runtime_ms: Option<u64>,
}

impl Mission01State {
    /// The grid is coherent: positive dimensions matched by the terrain
    /// rows, and player and target on the grid.
    pub open spec fn wf(self) -> bool {
        &&& 1 <= self.grid_width
        &&& 1 <= self.grid_height
        &&& self.terrain@.len() == self.grid_height
        &&& forall|y: int|
            0 <= y < self.grid_height ==> (#[trigger] self.terrain@[y])@.len() == self.grid_width
        &&& 0 <= self.player_x < self.grid_width
        &&& 0 <= self.player_y < self.grid_height
        &&& 0 <= self.target_x < self.grid_width
        &&& 0 <= self.target_y < self.grid_height
    }

    /// The player stands on the target cell.
    pub open spec fn at_target(self) -> bool {
        self.player_x == self.target_x && self.player_y == self.target_y
    }

    /// What a freshly created navigation mission guarantees: a 100 by 100
    /// grid, the player at (5, 5), the target somewhere in [50, 95) on both
    /// axes, clear ground under both, and no compile or reading yet.
    pub open spec fn initial(s: Mission01State) -> bool {
        &&& s.wf()
        &&& s.grid_width == 100
        &&& s.grid_height == 100
        &&& s.player_x == 5
        &&& s.player_y == 5
        &&& 50 <= s.target_x < 95
        &&& 50 <= s.target_y < 95
        &&& (s.terrain@[5])@[5] == TileType::Ground
        &&& (s.terrain@[s.target_y as int])@[s.target_x as int] == TileType::Ground
        &&& s.gps_output@ == "NO_SIGNAL"@
        &&& !s.is_gps_compiled
        &&& !s.is_finished
        &&& s.last_runtime_ms is None
    }

    /// Generates a fresh mission: random terrain (mostly ground, with trees,
    /// rocks and ruins), a random far-away target, clear cells under the
    /// start and the target.
    pub fn new() -> (s: Mission01State)
        ensures
            Mission01State::initial(s),
    {
        let width: i32 = 100;
        let height: i32 = 100;
        let target_x = rand_in_range(50, 95);
        let target_y = rand_in_range(50, 95);
        let mut terrain: Vec<Vec<TileType>> = Vec::new();
        let mut y: usize = 0;
        while y < 100
            invariant
                y <= 100,
                terrain@.len() == y,
                forall|j: int| 0 <= j < y ==> (#[trigger] terrain@[j])@.len() == 100,
                50 <= target_x < 95,
                50 <= target_y < 95,
                forall|j: int|
                    0 <= j < y && j == 5 ==> (#[trigger] terrain@[j])@[5] == TileType::Ground,
                forall|j: int|
                    0 <= j < y && j == target_y as int ==> (#[trigger] terrain@[j])@[target_x as int]
                        == TileType::Ground,
            decreases 100 - y,
        {
            let mut row: Vec<TileType> = Vec::new();
            let mut x: usize = 0;
            while x < 100
                invariant
                    x <= 100,
                    row@.len() == x,
                    50 <= target_x < 95,
                    50 <= target_y < 95,
                    y == 5 && x > 5 ==> row@[5] == TileType::Ground,
                    y == target_y as usize && x > target_x as usize ==> row@[target_x as int]
                        == TileType::Ground,
                decreases 100 - x,
            {
                let clear = (y == 5 && x == 5) || (x == target_x as usize && y
                    == target_y as usize);
                let tile = if clear {
                    TileType::Ground
                } else {
                    let roll = rand_in_range(0, 100);
                    if roll <= 15 {
                        TileType::Tree
                    } else if roll <= 18 {
                        TileType::Rock
                    } else if roll <= 20 {
                        TileType::Ruin
                    } else {
                        TileType::Ground
                    }
                };
                row.push(tile);
                x = x + 1;
            }
            terrain.push(row);
            y = y + 1;
        }
        Mission01State {
            player_x: 5,
            player_y: 5,
            target_x,
            target_y,
            grid_width: width,
            grid_height: height,
            terrain,
            gps_output: String::from_str("NO_SIGNAL"),
            is_gps_compiled: false,
            is_finished: false,
            last_runtime_ms: None,
        }
    }
}

/// The state after `pre` refreshed its GPS reading locally, and the run
/// request that came of it: on the target the mission completes; without
/// firmware the reading is the fixed missing-firmware sentinel and nothing
/// is executed; otherwise the artifact must be run on the live coordinates.
pub open spec fn gps_refresh_post(
    pre: Mission01State,
    post: Mission01State,
    req: Option<ArtifactRun>,
) -> bool {
    if pre.at_target() {
        &&& post == (Mission01State { gps_output: post.gps_output, is_finished: true, ..pre })
        &&& post.gps_output@ == "TARGET_ACQUIRED! SHELTER FOUND."@
        &&& req is None
    } else if !pre.is_gps_compiled {
        &&& post == (Mission01State { gps_output: post.gps_output, ..pre })
        &&& post.gps_output@ == "ERR: FIRMWARE MISSING"@
        &&& req is None
    } else {
        &&& post == pre
        &&& req == Some(
            ArtifactRun::Gps {
                x1: pre.player_x,
                y1: pre.player_y,
                x2: pre.target_x,
                y2: pre.target_y,
            },
        )
    }
}

/// The verdict of the sanity probe on what the artifact did: `None` passes;
/// otherwise the diagnostic, which on a value mismatch names the expected
/// and the actual output. The probe passes exactly when the artifact exited
/// cleanly and printed "5.00" up to surrounding whitespace.
pub open spec fn sanity_verdict(outcome: ExecOutcome) -> Option<Seq<char>> {
    match outcome {
        ExecOutcome::Ran { exit_ok, stdout } => {
            if !exit_ok {
                Some("Runtime Error"@)
            } else if trimmed(stdout@) == "5.00"@ {
                None
            } else {
                Some("Logic Error: expected '5.00', actual '"@ + trimmed(stdout@) + "'"@)
            }
        },
        ExecOutcome::LaunchFailed(d) => Some("System Error: "@ + d@),
    }
}

/// The state after a live GPS run's outcome was applied to `pre`: the
/// reading reflects the outcome and the measured duration is recorded;
/// nothing else moves.
pub open spec fn gps_outcome_post(
    pre: Mission01State,
    post: Mission01State,
    outcome: ExecOutcome,
    runtime_ms: u64,
) -> bool {
    &&& post == (Mission01State {
        gps_output: post.gps_output,
        last_runtime_ms: Some(runtime_ms),
        ..pre
    })
    &&& match outcome {
        ExecOutcome::Ran { exit_ok, stdout } => {
            if exit_ok {
                post.gps_output@ == "DIST: "@ + trimmed(stdout@) + "m"@
            } else {
                post.gps_output@ == "CRASH"@
            }
        },
        ExecOutcome::LaunchFailed(_) => post.gps_output@ == "EXEC_ERR"@,
    }
}

/// `s` with the player moved by `(dx, dy)` and clamped onto the grid.
pub open spec fn moved(s: Mission01State, dx: int, dy: int) -> Mission01State {
    Mission01State {
        player_x: clamp_i(s.player_x + dx, 0, s.grid_width - 1) as i32,
        player_y: clamp_i(s.player_y + dy, 0, s.grid_height - 1) as i32,
        ..s
    }
}

impl Mission01State {
    /// Refreshes the GPS reading from the current position: completion and
    /// missing firmware are decided here; a live reading needs the artifact,
    /// so the returned request must be executed and reported to
    /// `apply_gps_outcome`. Before a successful compile this never asks for
    /// an execution.
    pub fn update_gps(&mut self) -> (req: Option<ArtifactRun>)
        ensures
            gps_refresh_post(*old(self), *final(self), req),
            !old(self).is_gps_compiled ==> req is None,
    {
        if self.player_x == self.target_x && self.player_y == self.target_y {
            self.gps_output = String::from_str("TARGET_ACQUIRED! SHELTER FOUND.");
            self.is_finished = true;
            return None;
        }
        if self.is_gps_compiled {
            Some(
                ArtifactRun::Gps {
                    x1: self.player_x,
                    y1: self.player_y,
                    x2: self.target_x,
                    y2: self.target_y,
                },
            )
        } else {
            self.gps_output = String::from_str("ERR: FIRMWARE MISSING");
            None
        }
    }

    /// Moves the player one step, clamped onto the grid, and refreshes the
    /// GPS reading; a finished mission ignores movement entirely.
    pub fn move_player(&mut self, dx: i32, dy: i32) -> (req: Option<ArtifactRun>)
        requires
            old(self).wf(),
        ensures
            final(self).wf(),
            old(self).is_finished ==> *final(self) == *old(self) && req is None,
            !old(self).is_finished ==> gps_refresh_post(
                moved(*old(self), dx as int, dy as int),
                *final(self),
                req,
            ),
            !old(self).is_gps_compiled ==> req is None,
    {
        if self.is_finished {
            return None;
        }
        let new_x = clamp_add_i32(self.player_x, dx, 0, self.grid_width - 1);
        let new_y = clamp_add_i32(self.player_y, dy, 0, self.grid_height - 1);
        self.player_x = new_x;
        self.player_y = new_y;
        self.update_gps()
    }

    /// Applies what a live GPS run produced: a reading on success, "CRASH"
    /// on a non-zero exit, "EXEC_ERR" when the artifact could not be
    /// launched; the measured duration is recorded in every case.
    pub fn apply_gps_outcome(&mut self, outcome: &ExecOutcome, runtime_ms: u64)
        ensures
            gps_outcome_post(*old(self), *final(self), *outcome, runtime_ms),
    {
        self.last_runtime_ms = Some(runtime_ms);
        match outcome {
            ExecOutcome::Ran { exit_ok, stdout } => {
                if *exit_ok {
                    let mut reading = String::from_str("DIST: ");
                    let t = trim_str(stdout.as_str());
                    reading.append(t.as_str());
                    reading.append("m");
                    self.gps_output = reading;
                } else {
                    self.gps_output = String::from_str("CRASH");
                }
            },
            ExecOutcome::LaunchFailed(_) => {
                self.gps_output = String::from_str("EXEC_ERR");
            },
        }
    }

    /// Judges the sanity probe: the artifact, run from the origin to (3, 4),
    /// must exit cleanly and print exactly "5.00" (up to surrounding
    /// whitespace). A non-zero exit is a runtime error, wrong output a logic
    /// error naming the expected and the actual value, and a launch failure
    /// a system error.
    pub fn verify_integrity(outcome: &ExecOutcome) -> (r: Result<(), String>)
        ensures
            match sanity_verdict(*outcome) {
                Option::None => r is Ok,
                Option::Some(m) => r matches Err(e) && e@ == m,
            },
    {
        match outcome {
            ExecOutcome::Ran { exit_ok, stdout } => {
                if !*exit_ok {
                    return Err(String::from_str("Runtime Error"));
                }
                let t = trim_str(stdout.as_str());
                let expected = String::from_str("5.00");
                if t == expected {
                    Ok(())
                } else {
                    let mut msg = String::from_str("Logic Error: expected '5.00', actual '");
                    msg.append(t.as_str());
                    msg.append("'");
                    Err(msg)
                }
            },
            ExecOutcome::LaunchFailed(d) => {
                let mut msg = String::from_str("System Error: ");
                msg.append(d.as_str());
                Err(msg)
            },
        }
    }
}

} // verus!
