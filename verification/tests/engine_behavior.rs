//! The mission engines: compilation lifecycle, the navigation mission's
//! movement and GPS readings, the purification mission's judgement, and the
//! smaller scenario module.

use rust_survival::gameplay::{Mission, MissionStatus};
use rust_survival::interface::{ArtifactRun, ExecOutcome, ToolchainOutcome};
use rust_survival::mission_01::{Mission01State, TileType};
use rust_survival::mission_02::Mission02State;
use rust_survival::scenarios::{NavState, Scenario};

fn ran(exit_ok: bool, stdout: &str) -> ExecOutcome {
    ExecOutcome::Ran { exit_ok, stdout: stdout.to_string() }
}

#[test]
fn mission_new_is_active_without_artifact() {
    let m = Mission::new(1, "FOG NAVIGATOR", "Fix GPS.", "missions/01_shelter.rs");
    assert_eq!(m.id, 1);
    assert_eq!(m.title, "FOG NAVIGATOR");
    assert_eq!(m.description, "Fix GPS.");
    assert_eq!(m.path, "missions/01_shelter.rs");
    assert_eq!(m.status, MissionStatus::Active);
    assert_eq!(m.binary_size, None);
}

#[test]
fn missing_source_fails_without_launching() {
    let mut m = Mission::new(1, "FOG NAVIGATOR", "Fix GPS.", "missions/01_shelter.rs");
    let ok = m.check_source(false);
    assert!(!ok);
    assert_eq!(
        m.status,
        MissionStatus::Failed(
            "ERROR: File not found: missions/01_shelter.rs\n\nDid you delete it? Run --init to restore."
                .to_string()
        )
    );
    assert_eq!(m.binary_size, None);
}

#[test]
fn present_source_passes_untouched() {
    let mut m = Mission::new(1, "FOG NAVIGATOR", "Fix GPS.", "missions/01_shelter.rs");
    assert!(m.check_source(true));
    assert_eq!(m.status, MissionStatus::Active);
}

#[test]
fn toolchain_failure_carries_stderr_verbatim() {
    let mut m = Mission::new(1, "FOG NAVIGATOR", "Fix GPS.", "missions/01_shelter.rs");
    let ok = m.compile_binary(ToolchainOutcome::Ran {
        exit_ok: false,
        stderr: "error[E0308]: mismatched types".to_string(),
        artifact_size: None,
    });
    assert!(!ok);
    assert_eq!(
        m.status,
        MissionStatus::Failed("error[E0308]: mismatched types".to_string())
    );
    assert_eq!(m.binary_size, None);
}

#[test]
fn toolchain_success_records_artifact_size() {
    let mut m = Mission::new(1, "FOG NAVIGATOR", "Fix GPS.", "missions/01_shelter.rs");
    let ok = m.compile_binary(ToolchainOutcome::Ran {
        exit_ok: true,
        stderr: String::new(),
        artifact_size: Some(4096),
    });
    assert!(ok);
    assert_eq!(m.status, MissionStatus::Success);
    assert_eq!(m.binary_size, Some(4096));
}

#[test]
fn toolchain_success_tolerates_missing_metadata() {
    let mut m = Mission::new(1, "FOG NAVIGATOR", "Fix GPS.", "missions/01_shelter.rs");
    let ok = m.compile_binary(ToolchainOutcome::Ran {
        exit_ok: true,
        stderr: String::new(),
        artifact_size: None,
    });
    assert!(ok);
    assert_eq!(m.status, MissionStatus::Success);
    assert_eq!(m.binary_size, None);
}

#[test]
fn toolchain_launch_failure_is_distinguishable() {
    let mut m = Mission::new(1, "FOG NAVIGATOR", "Fix GPS.", "missions/01_shelter.rs");
    let ok = m.compile_binary(ToolchainOutcome::LaunchFailed("No such file".to_string()));
    assert!(!ok);
    assert_eq!(
        m.status,
        MissionStatus::Failed(
            "CRITICAL ERROR: Could not run 'rustc'.\nIs Rust installed?\nDetails: No such file"
                .to_string()
        )
    );
}

#[test]
fn fresh_navigation_mission_layout() {
    let s = Mission01State::new();
    assert_eq!((s.grid_width, s.grid_height), (100, 100));
    assert_eq!((s.player_x, s.player_y), (5, 5));
    assert!((50..95).contains(&s.target_x));
    assert!((50..95).contains(&s.target_y));
    assert_eq!(s.terrain.len(), 100);
    assert!(s.terrain.iter().all(|row| row.len() == 100));
    assert_eq!(s.terrain[5][5], TileType::Ground);
    assert_eq!(s.terrain[s.target_y as usize][s.target_x as usize], TileType::Ground);
    assert_eq!(s.gps_output, "NO_SIGNAL");
    assert!(!s.is_gps_compiled);
    assert!(!s.is_finished);
    assert_eq!(s.last_runtime_ms, None);
}

#[test]
fn gps_before_compile_reads_firmware_missing() {
    let mut s = Mission01State::new();
    let req = s.update_gps();
    assert!(req.is_none());
    assert_eq!(s.gps_output, "ERR: FIRMWARE MISSING");
    assert!(!s.is_finished);
}

#[test]
fn movement_before_compile_never_executes() {
    let mut s = Mission01State::new();
    let req = s.move_player(1, 0);
    assert!(req.is_none());
    assert_eq!((s.player_x, s.player_y), (6, 5));
    assert_eq!(s.gps_output, "ERR: FIRMWARE MISSING");
}

#[test]
fn movement_clamps_to_grid() {
    let mut s = Mission01State::new();
    s.player_x = 0;
    s.player_y = 0;
    s.move_player(-1, -1);
    assert_eq!((s.player_x, s.player_y), (0, 0));
    s.player_x = 99;
    s.move_player(1, 0);
    assert_eq!(s.player_x, 99);
}

#[test]
fn movement_on_finished_mission_is_ignored() {
    let mut s = Mission01State::new();
    s.is_finished = true;
    let req = s.move_player(1, 0);
    assert!(req.is_none());
    assert_eq!((s.player_x, s.player_y), (5, 5));
    assert_eq!(s.gps_output, "NO_SIGNAL");
}

#[test]
fn compiled_gps_asks_for_live_run() {
    let mut s = Mission01State::new();
    s.is_gps_compiled = true;
    let req = s.update_gps();
    assert_eq!(
        req,
        Some(ArtifactRun::Gps { x1: 5, y1: 5, x2: s.target_x, y2: s.target_y })
    );
}

#[test]
fn reaching_the_target_finishes_the_mission() {
    let mut s = Mission01State::new();
    s.player_x = s.target_x;
    s.player_y = s.target_y;
    let req = s.update_gps();
    assert!(req.is_none());
    assert!(s.is_finished);
    assert_eq!(s.gps_output, "TARGET_ACQUIRED! SHELTER FOUND.");
}

#[test]
fn gps_outcome_sets_reading_and_runtime() {
    let mut s = Mission01State::new();
    s.apply_gps_outcome(&ran(true, "  63.25 \n"), 12);
    assert_eq!(s.gps_output, "DIST: 63.25m");
    assert_eq!(s.last_runtime_ms, Some(12));
}

#[test]
fn gps_crash_and_exec_error_readings() {
    let mut s = Mission01State::new();
    s.apply_gps_outcome(&ran(false, ""), 3);
    assert_eq!(s.gps_output, "CRASH");
    s.apply_gps_outcome(&ExecOutcome::LaunchFailed("gone".to_string()), 4);
    assert_eq!(s.gps_output, "EXEC_ERR");
    assert_eq!(s.last_runtime_ms, Some(4));
}

#[test]
fn sanity_passes_on_exact_output() {
    assert_eq!(Mission01State::verify_integrity(&ran(true, "5.00\n")), Ok(()));
    assert_eq!(Mission01State::verify_integrity(&ran(true, "  5.00  ")), Ok(()));
}

#[test]
fn sanity_rejects_wrong_output_naming_both_values() {
    assert_eq!(
        Mission01State::verify_integrity(&ran(true, "0.00\n")),
        Err("Logic Error: expected '5.00', actual '0.00'".to_string())
    );
    assert_eq!(
        Mission01State::verify_integrity(&ran(true, "5.0")),
        Err("Logic Error: expected '5.00', actual '5.0'".to_string())
    );
}

#[test]
fn sanity_rejects_crash_and_launch_failure() {
    assert_eq!(
        Mission01State::verify_integrity(&ran(false, "5.00")),
        Err("Runtime Error".to_string())
    );
    assert_eq!(
        Mission01State::verify_integrity(&ExecOutcome::LaunchFailed("boom".to_string())),
        Err("System Error: boom".to_string())
    );
}

#[test]
fn fresh_water_mission_readings() {
    let s = Mission02State::new();
    assert_eq!(s.turbidity_centi, 2500);
    assert_eq!(s.ph_centi, 650);
    assert_eq!(s.output_log, "AWAITING FIRMWARE UPDATE...");
    assert!(!s.is_compiled);
    assert!(!s.is_finished);
}

#[test]
fn water_check_needs_firmware() {
    let mut s = Mission02State::new();
    assert_eq!(s.check_water(), None);
    s.is_compiled = true;
    assert_eq!(
        s.check_water(),
        Some(ArtifactRun::Water { turbidity_centi: 2500, ph_centi: 650 })
    );
}

#[test]
fn water_dose_within_tolerance_purifies() {
    let mut s = Mission02State::new();
    s.is_compiled = true;
    s.apply_water_outcome(&ran(true, "4.50\n"));
    assert_eq!(s.output_log, "INJECTION: 4.50 mg/L [TARGET MATCHED] -> WATER PURIFIED");
    assert!(s.is_finished);
}

#[test]
fn water_dose_just_inside_tolerance_purifies() {
    let mut s = Mission02State::new();
    s.is_compiled = true;
    s.apply_water_outcome(&ran(true, "4.41"));
    assert_eq!(s.output_log, "INJECTION: 4.41 mg/L [TARGET MATCHED] -> WATER PURIFIED");
    assert!(s.is_finished);
}

#[test]
fn water_dose_off_by_a_tenth_is_unsafe() {
    let mut s = Mission02State::new();
    s.is_compiled = true;
    s.apply_water_outcome(&ran(true, "4.60"));
    assert_eq!(s.output_log, "INJECTION: 4.60 mg/L [UNSAFE] (Expected 4.50)");
    assert!(!s.is_finished);
}

#[test]
fn water_unparsable_output_is_reported() {
    let mut s = Mission02State::new();
    s.is_compiled = true;
    s.apply_water_outcome(&ran(true, "  flow rate: high  "));
    assert_eq!(s.output_log, "ERROR: Invalid Sensor Output 'flow rate: high'");
    assert!(!s.is_finished);
}

#[test]
fn water_crash_is_reported_not_judged() {
    let mut s = Mission02State::new();
    s.is_compiled = true;
    // even a plausible dose on stdout is not judged when the artifact crashed
    s.apply_water_outcome(&ran(false, "4.50\n"));
    assert_eq!(s.output_log, "CRASH");
    assert!(!s.is_finished);
}

#[test]
fn water_launch_failure_is_hardware_failure() {
    let mut s = Mission02State::new();
    s.is_compiled = true;
    s.apply_water_outcome(&ExecOutcome::LaunchFailed("gone".to_string()));
    assert_eq!(s.output_log, "HARDWARE FAILURE: PUMP CONNECTION LOST");
    assert!(!s.is_finished);
}

#[test]
fn nav_state_starts_inside_the_grid() {
    let s = NavState::new();
    assert_eq!(s.player, (2, 2));
    assert_eq!(s.grid_size, (30, 18));
    assert!((10..28).contains(&s.target.0));
    assert!((5..15).contains(&s.target.1));
}

#[test]
fn nav_state_movement_stays_off_the_border() {
    let mut s = NavState::new();
    for _ in 0..40 {
        s.move_player(-1, -1);
    }
    assert_eq!(s.player, (1, 1));
    for _ in 0..40 {
        s.move_player(1, 1);
    }
    assert_eq!(s.player, (28, 16));
}

#[test]
fn nav_state_detects_target() {
    let mut s = NavState::new();
    assert!(!s.is_at_target());
    s.player = s.target;
    assert!(s.is_at_target());
}

#[test]
fn scenario_exposes_navigation_state() {
    let s = Scenario::Navigation(NavState::new());
    assert!(s.as_nav().is_some());
    assert!(Scenario::Booting.as_nav().is_none());
}
