//! The session controller: menus, the compile protocol, the freeze on
//! finished missions, and the full first-mission walkthrough.

use rust_survival::app::{App, CurrentScreen, MenuItem};
use rust_survival::gameplay::{GameState, MissionStatus};
use rust_survival::interface::{ArtifactRun, Effect, ExecOutcome, Key, ToolchainOutcome};

fn ran(exit_ok: bool, stdout: &str) -> ExecOutcome {
    ExecOutcome::Ran { exit_ok, stdout: stdout.to_string() }
}

fn toolchain_ok(size: u64) -> ToolchainOutcome {
    ToolchainOutcome::Ran { exit_ok: true, stderr: String::new(), artifact_size: Some(size) }
}

#[test]
fn fresh_session_defaults() {
    let a = App::new();
    assert_eq!(a.current_screen, CurrentScreen::MainMenu);
    assert_eq!(a.selected_item_index, 0);
    assert_eq!(a.mission_selection_index, 0);
    assert_eq!(a.active_mission.id, 1);
    assert_eq!(a.active_mission.title, "FOG NAVIGATOR");
    assert_eq!(a.active_mission.status, MissionStatus::Active);
    assert!(matches!(a.state, GameState::MainMenu));
    assert_eq!(a.current_tab, 0);
}

#[test]
fn menu_items_and_labels() {
    let all = MenuItem::all();
    assert_eq!(all, vec![MenuItem::Start, MenuItem::SelectLevel, MenuItem::Quit]);
    assert_eq!(MenuItem::Start.label(), " > INITIATE_SURVIVAL");
    assert_eq!(MenuItem::SelectLevel.label(), " > MISSION_SELECT");
    assert_eq!(MenuItem::Quit.label(), " > POWER_DOWN");
}

#[test]
fn mission_list_entries() {
    let list = App::get_mission_list();
    assert_eq!(
        list,
        vec![
            (1, "FOG NAVIGATOR", "Repair GPS to find shelter."),
            (2, "TOXIC FLOW", "Program the water purification unit."),
        ]
    );
}

#[test]
fn menu_navigation_wraps() {
    let mut a = App::new();
    a.menu_next();
    a.menu_next();
    assert_eq!(a.selected_item_index, 2);
    a.menu_next();
    assert_eq!(a.selected_item_index, 0);
    a.menu_previous();
    assert_eq!(a.selected_item_index, 2);
    a.menu_previous();
    assert_eq!(a.selected_item_index, 1);
}

#[test]
fn level_selection_wraps() {
    let mut a = App::new();
    a.level_select_next();
    assert_eq!(a.mission_selection_index, 1);
    a.level_select_next();
    assert_eq!(a.mission_selection_index, 0);
    a.level_select_previous();
    assert_eq!(a.mission_selection_index, 1);
}

#[test]
fn tab_toggles_and_scroll_stays_in_bounds() {
    let mut a = App::new();
    a.toggle_tab();
    assert_eq!(a.current_tab, 1);
    a.toggle_tab();
    assert_eq!(a.current_tab, 0);
    a.log_line_count = 3;
    a.scroll_text(false);
    a.scroll_text(false);
    a.scroll_text(false);
    assert_eq!(a.vertical_scroll, 2);
    a.scroll_text(true);
    a.scroll_text(true);
    a.scroll_text(true);
    assert_eq!(a.vertical_scroll, 0);
}

#[test]
fn log_content_reflects_status() {
    let mut a = App::new();
    assert_eq!(a.get_log_content(), "NO LOGS.");
    a.active_mission.status = MissionStatus::Success;
    assert_eq!(
        a.get_log_content(),
        "COMPILATION SUCCESSFUL.\n\nTESTS PASSED.\nSYSTEM READY."
    );
    a.active_mission.status = MissionStatus::Failed("diagnostic".to_string());
    assert_eq!(a.get_log_content(), "diagnostic");
}

#[test]
fn start_selected_level_loads_missions() {
    let mut a = App::new();
    a.mission_selection_index = 1;
    a.start_selected_level();
    assert_eq!(a.active_mission.id, 2);
    assert!(matches!(a.state, GameState::Mission02(_)));
    assert_eq!(a.current_screen, CurrentScreen::Gameplay);
}

#[test]
fn compile_with_missing_source_never_launches() {
    let mut a = App::new();
    a.load_mission_01();
    let launch = a.compile_mission_code(false);
    assert!(launch.is_none());
    assert_eq!(
        a.active_mission.status,
        MissionStatus::Failed(
            "ERROR: File not found: missions/01_shelter.rs\n\nDid you delete it? Run --init to restore."
                .to_string()
        )
    );
    assert_eq!(a.current_tab, 1);
    match &a.state {
        GameState::Mission01(s) => assert!(!s.is_gps_compiled),
        _ => panic!("navigation mission expected"),
    }
}

#[test]
fn compile_failure_clears_compiled_flag() {
    let mut a = App::new();
    a.load_mission_01();
    if let GameState::Mission01(s) = &mut a.state {
        s.is_gps_compiled = true;
    }
    let launch = a.compile_mission_code(true).expect("launch expected");
    assert_eq!(launch.source_path, "missions/01_shelter.rs");
    assert_eq!(launch.output_name, "user_gps_bin");
    let req = a.resolve_compile(ToolchainOutcome::Ran {
        exit_ok: false,
        stderr: "error: expected `;`".to_string(),
        artifact_size: None,
    });
    assert!(req.is_none());
    assert_eq!(
        a.active_mission.status,
        MissionStatus::Failed("error: expected `;`".to_string())
    );
    assert_eq!(a.active_mission.binary_size, None);
    assert_eq!(a.current_tab, 1);
    match &a.state {
        GameState::Mission01(s) => assert!(!s.is_gps_compiled),
        _ => panic!("navigation mission expected"),
    }
}

#[test]
fn water_mission_compile_names_its_artifact() {
    let mut a = App::new();
    a.load_mission_02();
    let launch = a.compile_mission_code(true).expect("launch expected");
    assert_eq!(launch.source_path, "missions/02_water.rs");
    assert_eq!(launch.output_name, "user_water_bin");
    let req = a.resolve_compile(toolchain_ok(2048));
    assert_eq!(req, Some(ArtifactRun::Water { turbidity_centi: 2500, ph_centi: 650 }));
    assert_eq!(a.active_mission.status, MissionStatus::Success);
    a.resolve_water(&ran(true, "4.50\n"));
    match &a.state {
        GameState::Mission02(s) => {
            assert!(s.is_finished);
            assert_eq!(s.output_log, "INJECTION: 4.50 mg/L [TARGET MATCHED] -> WATER PURIFIED");
        },
        _ => panic!("water mission expected"),
    }
    // the advance signal on the last mission leaves the game
    let eff = a.handle_input(Key::Enter);
    assert_eq!(eff, Effect::Idle);
    assert_eq!(a.current_screen, CurrentScreen::Exiting);
}

#[test]
fn finished_mission_ignores_compile_and_movement() {
    let mut a = App::new();
    a.load_mission_01();
    let (tx, ty) = match &mut a.state {
        GameState::Mission01(s) => {
            s.is_finished = true;
            s.gps_output = "TARGET_ACQUIRED! SHELTER FOUND.".to_string();
            (s.player_x, s.player_y)
        },
        _ => panic!("navigation mission expected"),
    };
    let status_before = a.active_mission.status.clone();
    assert_eq!(a.handle_input(Key::Char('c')), Effect::Idle);
    assert_eq!(a.handle_input(Key::Right), Effect::Idle);
    assert_eq!(a.handle_input(Key::Down), Effect::Idle);
    assert_eq!(a.active_mission.status, status_before);
    match &a.state {
        GameState::Mission01(s) => {
            assert_eq!((s.player_x, s.player_y), (tx, ty));
            assert!(s.is_finished);
            assert_eq!(s.gps_output, "TARGET_ACQUIRED! SHELTER FOUND.");
        },
        _ => panic!("navigation mission expected"),
    }
    assert!(a.compile_mission_code(true).is_none());
    // only the advance signal changes the mission
    assert_eq!(a.handle_input(Key::Enter), Effect::Idle);
    assert_eq!(a.active_mission.id, 2);
    assert!(matches!(a.state, GameState::Mission02(_)));
}

#[test]
fn walkthrough_first_mission() {
    let mut a = App::new();
    a.load_mission_01();

    // a stub that always prints 0.0 compiles, but the sanity probe fails
    let launch = a.compile_mission_code(true).expect("launch expected");
    assert_eq!(launch.output_name, "user_gps_bin");
    let req = a.resolve_compile(toolchain_ok(4096));
    assert_eq!(req, Some(ArtifactRun::Sanity { x1: 0, y1: 0, x2: 3, y2: 4 }));
    let req = a.resolve_sanity(&ran(true, "0.00\n"));
    assert!(req.is_none());
    assert_eq!(
        a.active_mission.status,
        MissionStatus::Failed("Logic Error: expected '5.00', actual '0.00'".to_string())
    );
    match &a.state {
        GameState::Mission01(s) => assert!(!s.is_gps_compiled),
        _ => panic!("navigation mission expected"),
    }

    // with the formula fixed the probe passes and a live reading is owed
    a.compile_mission_code(true).expect("launch expected");
    let req = a.resolve_compile(toolchain_ok(4096));
    assert_eq!(req, Some(ArtifactRun::Sanity { x1: 0, y1: 0, x2: 3, y2: 4 }));
    let req = a.resolve_sanity(&ran(true, "5.00\n"));
    let (tx, ty) = match &a.state {
        GameState::Mission01(s) => {
            assert!(s.is_gps_compiled);
            (s.target_x, s.target_y)
        },
        _ => panic!("navigation mission expected"),
    };
    assert_eq!(req, Some(ArtifactRun::Gps { x1: 5, y1: 5, x2: tx, y2: ty }));
    assert_eq!(a.active_mission.status, MissionStatus::Success);
    assert_eq!(a.active_mission.binary_size, Some(4096));
    a.resolve_gps(&ran(true, "63.25\n"), 17);
    match &a.state {
        GameState::Mission01(s) => {
            assert_eq!(s.gps_output, "DIST: 63.25m");
            assert_eq!(s.last_runtime_ms, Some(17));
        },
        _ => panic!("navigation mission expected"),
    }

    // walk onto the target cell; intermediate moves ask for live readings
    for _ in 0..(tx - 5) {
        a.handle_input(Key::Right);
    }
    for _ in 0..(ty - 5) {
        a.handle_input(Key::Down);
    }
    match &a.state {
        GameState::Mission01(s) => {
            assert_eq!((s.player_x, s.player_y), (tx, ty));
            assert!(s.is_finished);
            assert_eq!(s.gps_output, "TARGET_ACQUIRED! SHELTER FOUND.");
        },
        _ => panic!("navigation mission expected"),
    }

    // the advance signal brings up the water mission
    assert_eq!(a.handle_input(Key::Enter), Effect::Idle);
    assert_eq!(a.active_mission.id, 2);
    assert_eq!(a.active_mission.title, "TOXIC FLOW");
    assert!(matches!(a.state, GameState::Mission02(_)));
}
