//! The session controller: one active mission and its gameplay state,
//! driven by key events, with the compile-and-verify protocol spoken with
//! the unverified shell as a sequence of requests and reported outcomes.

use vstd::prelude::*;

use crate::gameplay::GameState;
use crate::gameplay::Mission;
use crate::gameplay::MissionStatus;
use crate::gameplay::missing_source_msg;
use crate::gameplay::same_mission_identity;
use crate::interface::ArtifactRun;
use crate::interface::CompileLaunch;
use crate::interface::Effect;
use crate::interface::ExecOutcome;
use crate::interface::Key;
use crate::interface::ToolchainOutcome;
use crate::gameplay::toolchain_unavailable_msg;
use crate::mission_01::Mission01State;
use crate::mission_01::gps_outcome_post;
use crate::mission_01::gps_refresh_post;
use crate::mission_01::sanity_verdict;
use crate::mission_02::Mission02State;
use crate::mission_02::water_outcome_post;

verus! {

/// Which screen the session shows.
#[derive(Clone, Copy, PartialEq, Eq, Structural, Debug)]
pub enum CurrentScreen {
    MainMenu,
    LevelSelection,
    Gameplay,
    Exiting,
}

/// An entry of the main menu.
#[derive(Clone, Copy, PartialEq, Eq, Structural, Debug)]
pub enum MenuItem {
    Start,
    SelectLevel,
    Quit,
}

impl MenuItem {
    /// The menu's entries, in display order.
    pub fn all() -> (r: Vec<MenuItem>)
        ensures
            r@ == seq![MenuItem::Start, MenuItem::SelectLevel, MenuItem::Quit],
    {
        let r = vec![MenuItem::Start, MenuItem::SelectLevel, MenuItem::Quit];
        proof {
            assert(r@ =~= seq![MenuItem::Start, MenuItem::SelectLevel, MenuItem::Quit]);
        }
        r
    }

    /// The entry's display label.
    pub fn label(&self) -> (r: &str)
        ensures
            self is Start ==> r@ == " > INITIATE_SURVIVAL"@,
            self is SelectLevel ==> r@ == " > MISSION_SELECT"@,
            self is Quit ==> r@ == " > POWER_DOWN"@,
    {
        match self {
            MenuItem::Start => " > INITIATE_SURVIVAL",
            MenuItem::SelectLevel => " > MISSION_SELECT",
            MenuItem::Quit => " > POWER_DOWN",
        }
    }
}

/// Whether the live gameplay state has completed its mission.
pub open spec fn gameplay_finished(st: GameState) -> bool {
    match st {
        GameState::Mission01(s) => s.is_finished,
        GameState::Mission02(s) => s.is_finished,
        GameState::MainMenu => false,
    }
}

/// The artifact name the toolchain is asked to produce for the live mission.
pub open spec fn binary_name_seq(st: GameState) -> Seq<char> {
    match st {
        GameState::Mission01(_) => "user_gps_bin"@,
        GameState::Mission02(_) => "user_water_bin"@,
        GameState::MainMenu => "temp_bin"@,
    }
}

/// `post` is `pre` with its compiled flag cleared and nothing else touched.
pub open spec fn compiled_flag_cleared(pre: GameState, post: GameState) -> bool {
    match pre {
        GameState::Mission01(s) => post == GameState::Mission01(
            Mission01State { is_gps_compiled: false, ..s },
        ),
        GameState::Mission02(s) => post == GameState::Mission02(
            Mission02State { is_compiled: false, ..s },
        ),
        GameState::MainMenu => post is MainMenu,
    }
}

/// The session: one screen, one active mission with its gameplay state, and
/// the log view's scroll position.
pub struct App {
    pub current_screen: CurrentScreen,
    pub selected_item_index: usize,
    pub mission_selection_index: usize,
    pub active_mission: Mission,
    pub state: GameState,
    pub current_tab: usize,
    pub vertical_scroll: u16,
    pub log_line_count: u16,
}

/// `post` is the session after loading the navigation mission from `pre`:
/// mission and gameplay state replaced together, consistently.
pub open spec fn loaded_mission_01(pre: App, post: App) -> bool {
    &&& post.current_screen == CurrentScreen::Gameplay
    &&& post.current_tab == 0
    &&& (post.state matches GameState::Mission01(s) && Mission01State::initial(s))
    &&& post.active_mission.id == 1
    &&& post.active_mission.title@ == "FOG NAVIGATOR"@
    &&& post.active_mission.description@ == "Fix GPS."@
    &&& post.active_mission.path@ == "missions/01_shelter.rs"@
    &&& post.active_mission.status == MissionStatus::Active
    &&& post.active_mission.binary_size is None
    &&& post.selected_item_index == pre.selected_item_index
    &&& post.mission_selection_index == pre.mission_selection_index
    &&& post.vertical_scroll == pre.vertical_scroll
    &&& post.log_line_count == pre.log_line_count
}

/// `post` is the session after loading the purification mission from `pre`.
pub open spec fn loaded_mission_02(pre: App, post: App) -> bool {
    &&& post.current_screen == CurrentScreen::Gameplay
    &&& post.current_tab == 0
    &&& (post.state matches GameState::Mission02(s) && Mission02State::initial(s))
    &&& post.active_mission.id == 2
    &&& post.active_mission.title@ == "TOXIC FLOW"@
    &&& post.active_mission.description@ == "Water supply contaminated. Program the purification unit."@
    &&& post.active_mission.path@ == "missions/02_water.rs"@
    &&& post.active_mission.status == MissionStatus::Active
    &&& post.active_mission.binary_size is None
    &&& post.selected_item_index == pre.selected_item_index
    &&& post.mission_selection_index == pre.mission_selection_index
    &&& post.vertical_scroll == pre.vertical_scroll
    &&& post.log_line_count == pre.log_line_count
}

impl App {
    /// A fresh session: main menu, the navigation mission staged.
    pub fn new() -> (a: App)
        ensures
            a.current_screen == CurrentScreen::MainMenu,
            a.selected_item_index == 0,
            a.mission_selection_index == 0,
            a.active_mission.id == 1,
            a.active_mission.title@ == "FOG NAVIGATOR"@,
            a.active_mission.description@ == "Fix the GPS."@,
            a.active_mission.path@ == "missions/01_shelter.rs"@,
            a.active_mission.status == MissionStatus::Active,
            a.active_mission.binary_size is None,
            a.state is MainMenu,
            a.current_tab == 0,
            a.vertical_scroll == 0,
            a.log_line_count == 0,
    {
        App {
            current_screen: CurrentScreen::MainMenu,
            selected_item_index: 0,
            mission_selection_index: 0,
            active_mission: Mission::new(
                1,
                "FOG NAVIGATOR",
                "Fix the GPS.",
                "missions/01_shelter.rs",
            ),
            state: GameState::MainMenu,
            current_tab: 0,
            vertical_scroll: 0,
            log_line_count: 0,
        }
    }

    /// The text of the logs tab: the diagnostic after a failure, a fixed
    /// success banner after a success, a placeholder otherwise.
    pub fn get_log_content(&self) -> (r: String)
        ensures
            match self.active_mission.status {
                MissionStatus::Failed(e) => r@ == e@,
                MissionStatus::Success => r@
                    == "COMPILATION SUCCESSFUL.\n\nTESTS PASSED.\nSYSTEM READY."@,
                _ => r@ == "NO LOGS."@,
            },
    {
        match &self.active_mission.status {
            MissionStatus::Failed(err) => err.clone(),
            MissionStatus::Success => String::from_str(
                "COMPILATION SUCCESSFUL.\n\nTESTS PASSED.\nSYSTEM READY.",
            ),
            _ => String::from_str("NO LOGS."),
        }
    }

    /// The selectable missions: id, title, blurb.
    pub fn get_mission_list() -> (r: Vec<(u32, &'static str, &'static str)>)
        ensures
            r@.len() == 2,
            r@[0].0 == 1 && r@[0].1@ == "FOG NAVIGATOR"@ && r@[0].2@
                == "Repair GPS to find shelter."@,
            r@[1].0 == 2 && r@[1].1@ == "TOXIC FLOW"@ && r@[1].2@
                == "Program the water purification unit."@,
    {
        let r = vec![
            (1u32, "FOG NAVIGATOR", "Repair GPS to find shelter."),
            (2u32, "TOXIC FLOW", "Program the water purification unit."),
        ];
        proof {
            assert(r@[0].0 == 1);
            assert(r@[1].0 == 2);
        }
        r
    }

    /// Starts play from the menu: loads the navigation mission.
    pub fn start_game(&mut self)
        ensures
            loaded_mission_01(*old(self), *final(self)),
    {
        self.load_mission_01();
    }

    /// Loads the navigation mission: mission record and gameplay state are
    /// replaced together.
    pub fn load_mission_01(&mut self)
        ensures
            loaded_mission_01(*old(self), *final(self)),
    {
        self.current_screen = CurrentScreen::Gameplay;
        self.state = GameState::Mission01(Mission01State::new());
        self.active_mission = Mission::new(1, "FOG NAVIGATOR", "Fix GPS.", "missions/01_shelter.rs");
        self.current_tab = 0;
    }

    /// Loads the purification mission: mission record and gameplay state are
    /// replaced together.
    pub fn load_mission_02(&mut self)
        ensures
            loaded_mission_02(*old(self), *final(self)),
    {
        self.current_screen = CurrentScreen::Gameplay;
        self.state = GameState::Mission02(Mission02State::new());
        self.active_mission = Mission::new(
            2,
            "TOXIC FLOW",
            "Water supply contaminated. Program the purification unit.",
            "missions/02_water.rs",
        );
        self.current_tab = 0;
    }

    /// Loads whichever mission the level-selection cursor points at.
    pub fn start_selected_level(&mut self)
        ensures
            old(self).mission_selection_index == 0 ==> loaded_mission_01(*old(self), *final(self)),
            old(self).mission_selection_index == 1 ==> loaded_mission_02(*old(self), *final(self)),
            old(self).mission_selection_index >= 2 ==> *final(self) == *old(self),
    {
        match self.mission_selection_index {
            0 => self.load_mission_01(),
            1 => self.load_mission_02(),
            _ => {},
        }
    }

    /// Moves the menu cursor down, wrapping at the end.
    pub fn menu_next(&mut self)
        ensures
            *final(self) == (App {
                selected_item_index: (if old(self).selected_item_index < 2 {
                    old(self).selected_item_index + 1
                } else {
                    0
                }) as usize,
                ..*old(self)
            }),
    {
        let max = MenuItem::all().len() - 1;
        if self.selected_item_index < max {
            self.selected_item_index = self.selected_item_index + 1;
        } else {
            self.selected_item_index = 0;
        }
    }

    /// Moves the menu cursor up, wrapping at the start.
    pub fn menu_previous(&mut self)
        ensures
            *final(self) == (App {
                selected_item_index: (if old(self).selected_item_index > 0 {
                    old(self).selected_item_index - 1
                } else {
                    2
                }) as usize,
                ..*old(self)
            }),
    {
        if self.selected_item_index > 0 {
            self.selected_item_index = self.selected_item_index - 1;
        } else {
            self.selected_item_index = MenuItem::all().len() - 1;
        }
    }

    /// Moves the level-selection cursor down, wrapping at the end.
    pub fn level_select_next(&mut self)
        ensures
            *final(self) == (App {
                mission_selection_index: (if old(self).mission_selection_index < 1 {
                    old(self).mission_selection_index + 1
                } else {
                    0
                }) as usize,
                ..*old(self)
            }),
    {
        let max = Self::get_mission_list().len() - 1;
        if self.mission_selection_index < max {
            self.mission_selection_index = self.mission_selection_index + 1;
        } else {
            self.mission_selection_index = 0;
        }
    }

    /// Moves the level-selection cursor up, wrapping at the start.
    pub fn level_select_previous(&mut self)
        ensures
            *final(self) == (App {
                mission_selection_index: (if old(self).mission_selection_index > 0 {
                    old(self).mission_selection_index - 1
                } else {
                    1
                }) as usize,
                ..*old(self)
            }),
    {
        let max = Self::get_mission_list().len() - 1;
        if self.mission_selection_index > 0 {
            self.mission_selection_index = self.mission_selection_index - 1;
        } else {
            self.mission_selection_index = max;
        }
    }

    /// Switches between the mission view and the logs view.
    pub fn toggle_tab(&mut self)
        ensures
            *final(self) == (App {
                current_tab: (if old(self).current_tab == 0 {
                    1int
                } else {
                    0int
                }) as usize,
                ..*old(self)
            }),
    {
        self.current_tab = if self.current_tab == 0 {
            1
        } else {
            0
        };
    }

    /// Scrolls the logs view one line, staying within the text.
    pub fn scroll_text(&mut self, up: bool)
        ensures
            *final(self) == (App {
                vertical_scroll: (if up {
                    if old(self).vertical_scroll >= 1 {
                        old(self).vertical_scroll - 1
                    } else {
                        0int
                    }
                } else {
                    if old(self).log_line_count >= 1 && old(self).vertical_scroll < old(self).log_line_count - 1 {
                        old(self).vertical_scroll + 1
                    } else {
                        old(self).vertical_scroll as int
                    }
                }) as u16,
                ..*old(self)
            }),
    {
        if up {
            if self.vertical_scroll >= 1 {
                self.vertical_scroll = self.vertical_scroll - 1;
            }
        } else {
            let limit = if self.log_line_count >= 1 {
                self.log_line_count - 1
            } else {
                0
            };
            if self.vertical_scroll < limit {
                self.vertical_scroll = self.vertical_scroll + 1;
            }
        }
    }

    /// Whether the live mission has completed.
    pub fn is_gameplay_finished(&self) -> (b: bool)
        ensures
            b == gameplay_finished(self.state),
    {
        match &self.state {
            GameState::Mission01(s) => s.is_finished,
            GameState::Mission02(s) => s.is_finished,
            GameState::MainMenu => false,
        }
    }

    /// The artifact name for the live mission.
    fn binary_name(&self) -> (r: &'static str)
        ensures
            r@ == binary_name_seq(self.state),
    {
        match &self.state {
            GameState::Mission01(_) => "user_gps_bin",
            GameState::Mission02(_) => "user_water_bin",
            GameState::MainMenu => "temp_bin",
        }
    }

    /// After a failed compile: the compiled flag is cleared and the logs tab
    /// is brought to the front, scrolled to the top.
    fn handle_fail(&mut self)
        ensures
            compiled_flag_cleared(old(self).state, final(self).state),
            final(self).active_mission == old(self).active_mission,
            same_shell(*old(self), *final(self)),
            final(self).current_tab == 1,
            final(self).vertical_scroll == 0,
    {
        match &mut self.state {
            GameState::Mission01(s) => {
                s.is_gps_compiled = false;
            },
            GameState::Mission02(s) => {
                s.is_compiled = false;
            },
            GameState::MainMenu => {},
        }
        self.current_tab = 1;
        self.vertical_scroll = 0;
    }

    /// Starts a compile: on a finished mission nothing happens; on a missing
    /// source file the mission fails at once, with no process to launch;
    /// otherwise the returned launch request names the source file and the
    /// artifact, and its outcome goes to `resolve_compile`.
    pub fn compile_mission_code(&mut self, source_exists: bool) -> (launch: Option<CompileLaunch>)
        ensures
            gameplay_finished(old(self).state) ==> launch is None && *final(self) == *old(self),
            !gameplay_finished(old(self).state) && source_exists ==> *final(self) == *old(self) && (
            launch matches Some(l) && l.source_path == old(self).active_mission.path
                && l.output_name@ == binary_name_seq(old(self).state)),
            !gameplay_finished(old(self).state) && !source_exists ==> launch is None
                && compile_failed_post(*old(self), *final(self)) && (final(self).active_mission.status matches MissionStatus::Failed(m) && m@ == missing_source_msg(
                old(self).active_mission.path@,
            )),
    {
        if self.is_gameplay_finished() {
            return None;
        }
        let binary_name = self.binary_name();
        let ok = self.active_mission.check_source(source_exists);
        if !ok {
            self.handle_fail();
            return None;
        }
        Some(CompileLaunch { source_path: self.active_mission.path, output_name: binary_name })
    }

    /// Applies what the toolchain reported. A failure (non-zero exit or no
    /// launch) fails the mission with its diagnostic, clears the compiled
    /// flag and brings up the logs. A success marks the mission `Success`
    /// and asks for the next run: the sanity probe for the navigation
    /// mission, the purification check for the water mission.
    pub fn resolve_compile(&mut self, outcome: ToolchainOutcome) -> (req: Option<ArtifactRun>)
        ensures
            same_mission_identity(old(self).active_mission, final(self).active_mission),
            match outcome {
                ToolchainOutcome::Ran { exit_ok, stderr, artifact_size } => {
                    if exit_ok {
                        &&& same_shell(*old(self), *final(self))
                        &&& final(self).vertical_scroll == old(self).vertical_scroll
                        &&& final(self).active_mission.status == MissionStatus::Success
                        &&& final(self).active_mission.binary_size == (if artifact_size is Some {
                            artifact_size
                        } else {
                            old(self).active_mission.binary_size
                        })
                        &&& match old(self).state {
                            GameState::Mission01(_) => final(self).state == old(self).state
                                && final(self).current_tab == old(self).current_tab && req == Some(
                                ArtifactRun::Sanity { x1: 0, y1: 0, x2: 3, y2: 4 },
                            ),
                            GameState::Mission02(s) => final(self).state == GameState::Mission02(
                                Mission02State { is_compiled: true, ..s },
                            ) && final(self).current_tab == 0 && req == Some(
                                ArtifactRun::Water {
                                    turbidity_centi: s.turbidity_centi,
                                    ph_centi: s.ph_centi,
                                },
                            ),
                            GameState::MainMenu => final(self).state is MainMenu && final(self).current_tab == 0 && req is None,
                        }
                    } else {
                        &&& req is None
                        &&& compile_failed_post(*old(self), *final(self))
                        &&& final(self).active_mission.status == MissionStatus::Failed(stderr)
                    }
                },
                ToolchainOutcome::LaunchFailed(detail) => {
                    &&& req is None
                    &&& compile_failed_post(*old(self), *final(self))
                    &&& (final(self).active_mission.status matches MissionStatus::Failed(m) && m@
                        == toolchain_unavailable_msg(detail@))
                },
            },
    {
        let ok = self.active_mission.compile_binary(outcome);
        if !ok {
            self.handle_fail();
            return None;
        }
        match &mut self.state {
            GameState::Mission01(_) => Some(ArtifactRun::Sanity { x1: 0, y1: 0, x2: 3, y2: 4 }),
            GameState::Mission02(s) => {
                s.is_compiled = true;
                self.current_tab = 0;
                s.check_water()
            },
            GameState::MainMenu => {
                self.current_tab = 0;
                None
            },
        }
    }

    /// Applies what the sanity probe produced. A failed probe fails the
    /// mission with its verdict and clears the compiled flag; a passed probe
    /// sets the compiled flag and refreshes the GPS reading, possibly asking
    /// for a live run.
    pub fn resolve_sanity(&mut self, outcome: &ExecOutcome) -> (req: Option<ArtifactRun>)
        ensures
            !(old(self).state is Mission01) ==> *final(self) == *old(self) && req is None,
            old(self).state matches GameState::Mission01(s) ==> match sanity_verdict(*outcome) {
                Option::Some(msg) => {
                    &&& req is None
                    &&& same_shell(*old(self), *final(self))
                    &&& same_mission_identity(old(self).active_mission, final(self).active_mission)
                    &&& (final(self).active_mission.status matches MissionStatus::Failed(m) && m@
                        == msg)
                    &&& final(self).active_mission.binary_size == old(self).active_mission.binary_size
                    &&& final(self).state == GameState::Mission01(
                        Mission01State { is_gps_compiled: false, ..s },
                    )
                    &&& final(self).current_tab == 1
                    &&& final(self).vertical_scroll == 0
                },
                Option::None => {
                    &&& final(self).active_mission == old(self).active_mission
                    &&& same_shell(*old(self), *final(self))
                    &&& final(self).vertical_scroll == old(self).vertical_scroll
                    &&& final(self).current_tab == 0
                    &&& (final(self).state matches GameState::Mission01(s2) && gps_refresh_post(
                        (Mission01State { is_gps_compiled: true, ..s }),
                        s2,
                        req,
                    ))
                },
            },
    {
        match &mut self.state {
            GameState::Mission01(s) => {
                match Mission01State::verify_integrity(outcome) {
                    Err(e) => {
                        self.active_mission.status = MissionStatus::Failed(e);
                        s.is_gps_compiled = false;
                        self.current_tab = 1;
                        self.vertical_scroll = 0;
                        None
                    },
                    Ok(()) => {
                        s.is_gps_compiled = true;
                        let req = s.update_gps();
                        self.current_tab = 0;
                        req
                    },
                }
            },
            _ => None,
        }
    }

    /// Applies what a live GPS run produced to the navigation mission's
    /// reading; anywhere else it does nothing.
    pub fn resolve_gps(&mut self, outcome: &ExecOutcome, runtime_ms: u64)
        ensures
            !(old(self).state is Mission01) ==> *final(self) == *old(self),
            old(self).state matches GameState::Mission01(s) ==> *final(self) == (App {
                state: final(self).state,
                ..*old(self)
            }) && (final(self).state matches GameState::Mission01(s2) && gps_outcome_post(
                s,
                s2,
                *outcome,
                runtime_ms,
            )),
    {
        if let GameState::Mission01(s) = &mut self.state {
            s.apply_gps_outcome(outcome, runtime_ms);
        }
    }

    /// Applies what a purification run produced to the water mission's log;
    /// anywhere else it does nothing.
    pub fn resolve_water(&mut self, outcome: &ExecOutcome)
        ensures
            !(old(self).state is Mission02) ==> *final(self) == *old(self),
            old(self).state matches GameState::Mission02(s) ==> *final(self) == (App {
                state: final(self).state,
                ..*old(self)
            }) && (final(self).state matches GameState::Mission02(s2) && water_outcome_post(
                s,
                s2,
                *outcome,
            )),
    {
        if let GameState::Mission02(s) = &mut self.state {
            s.apply_water_outcome(outcome);
        }
    }
}

/// The scroll position after `n` single-line scrolls up.
pub open spec fn scrolled_up(vs: int, n: int) -> int {
    if vs >= n {
        vs - n
    } else {
        0
    }
}

/// The scroll position after `n` single-line scrolls down through a text of
/// `llc` lines.
pub open spec fn scrolled_down(vs: int, llc: int, n: int) -> int {
    let limit = if llc >= 1 {
        llc - 1
    } else {
        0
    };
    if vs >= limit {
        vs
    } else if vs + n <= limit {
        vs + n
    } else {
        limit
    }
}

/// The navigation state and effect after a one-step move was routed to it:
/// a finished mission ignores it; otherwise the player moves and the GPS
/// refresh decides whether an execution is owed.
pub open spec fn move_effect_post(
    s: Mission01State,
    s2: Mission01State,
    dx: int,
    dy: int,
    eff: Effect,
) -> bool {
    if s.is_finished {
        s2 == s && eff is Idle
    } else {
        match eff {
            Effect::Run(run) => gps_refresh_post(crate::mission_01::moved(s, dx, dy), s2, Some(run)),
            Effect::Idle => gps_refresh_post(crate::mission_01::moved(s, dx, dy), s2, None),
            Effect::Compile => false,
        }
    }
}

/// What an input event does on the gameplay screen. A finished mission
/// accepts only the advance signal (Enter) and view-only keys: neither
/// movement nor a compile request may touch it.
pub open spec fn gameplay_input_post(pre: App, post: App, key: Key, eff: Effect) -> bool {
    if gameplay_finished(pre.state) && key is Enter {
        match pre.state {
            GameState::Mission01(_) => loaded_mission_02(pre, post) && eff is Idle,
            GameState::Mission02(_) => post == (App {
                current_screen: CurrentScreen::Exiting,
                ..pre
            }) && eff is Idle,
            GameState::MainMenu => true,
        }
    } else if key == Key::Char('c') || key == Key::Char('C') {
        if gameplay_finished(pre.state) {
            post == pre && eff is Idle
        } else {
            post == pre && eff is Compile
        }
    } else if key is Tab {
        post == (App {
            current_tab: (if pre.current_tab == 0 {
                1int
            } else {
                0int
            }) as usize,
            ..pre
        }) && eff is Idle
    } else if key is Esc {
        post == (App { current_screen: CurrentScreen::MainMenu, ..pre }) && eff is Idle
    } else if pre.current_tab == 1 {
        eff is Idle && match key {
            Key::Up => post == (App {
                vertical_scroll: scrolled_up(pre.vertical_scroll as int, 1) as u16,
                ..pre
            }),
            Key::Down => post == (App {
                vertical_scroll: scrolled_down(
                    pre.vertical_scroll as int,
                    pre.log_line_count as int,
                    1,
                ) as u16,
                ..pre
            }),
            Key::PageUp => post == (App {
                vertical_scroll: scrolled_up(pre.vertical_scroll as int, 5) as u16,
                ..pre
            }),
            Key::PageDown => post == (App {
                vertical_scroll: scrolled_down(
                    pre.vertical_scroll as int,
                    pre.log_line_count as int,
                    5,
                ) as u16,
                ..pre
            }),
            _ => post == pre,
        }
    } else {
        match pre.state {
            GameState::Mission01(s) => match key {
                Key::Up => post == (App { state: post.state, ..pre }) && (post.state matches
                    GameState::Mission01(s2) && move_effect_post(s, s2, 0, -1, eff)),
                Key::Down => post == (App { state: post.state, ..pre }) && (post.state matches
                    GameState::Mission01(s2) && move_effect_post(s, s2, 0, 1, eff)),
                Key::Left => post == (App { state: post.state, ..pre }) && (post.state matches
                    GameState::Mission01(s2) && move_effect_post(s, s2, -1, 0, eff)),
                Key::Right => post == (App { state: post.state, ..pre }) && (post.state matches
                    GameState::Mission01(s2) && move_effect_post(s, s2, 1, 0, eff)),
                _ => post == pre && eff is Idle,
            },
            _ => post == pre && eff is Idle,
        }
    }
}

impl App {
    /// Routes an input event on the gameplay screen: mission transitions
    /// first, then compile and view keys, then scrolling or movement. On a
    /// finished mission every key but the advance signal (Enter) leaves the
    /// gameplay state and the mission untouched — movement and compile
    /// requests included.
    #[verifier::loop_isolation(false)]
    fn handle_gameplay_input(&mut self, key: Key) -> (eff: Effect)
        requires
            (match old(self).state {
                GameState::Mission01(s) => s.wf(),
                _ => true,
            }),
        ensures
            gameplay_input_post(*old(self), *final(self), key, eff),
            gameplay_finished(old(self).state) && !(key is Enter) ==> final(self).state == old(
                self,
            ).state && final(self).active_mission == old(self).active_mission,
    {
        let finished = self.is_gameplay_finished();
        if finished {
            if let Key::Enter = key {
                match &self.state {
                    GameState::Mission01(_) => {
                        self.load_mission_02();
                        return Effect::Idle;
                    },
                    GameState::Mission02(_) => {
                        self.current_screen = CurrentScreen::Exiting;
                        return Effect::Idle;
                    },
                    GameState::MainMenu => {},
                }
            }
        }
        match key {
            Key::Char(c) => {
                if c == 'c' || c == 'C' {
                    if finished {
                        return Effect::Idle;
                    }
                    return Effect::Compile;
                }
            },
            Key::Tab => {
                self.toggle_tab();
                return Effect::Idle;
            },
            Key::Esc => {
                self.current_screen = CurrentScreen::MainMenu;
                return Effect::Idle;
            },
            _ => {},
        }
        if self.current_tab == 1 {
            let ghost pre = *self;
            match key {
                Key::Up => {
                    self.scroll_text(true);
                },
                Key::Down => {
                    self.scroll_text(false);
                },
                Key::PageUp => {
                    let mut i: usize = 0;
                    while i < 5
                        invariant
                            i <= 5,
                            *self == (App {
                                vertical_scroll: scrolled_up(
                                    pre.vertical_scroll as int,
                                    i as int,
                                ) as u16,
                                ..pre
                            }),
                        decreases 5 - i,
                    {
                        self.scroll_text(true);
                        i = i + 1;
                    }
                },
                Key::PageDown => {
                    let mut i: usize = 0;
                    while i < 5
                        invariant
                            i <= 5,
                            *self == (App {
                                vertical_scroll: scrolled_down(
                                    pre.vertical_scroll as int,
                                    pre.log_line_count as int,
                                    i as int,
                                ) as u16,
                                ..pre
                            }),
                        decreases 5 - i,
                    {
                        self.scroll_text(false);
                        i = i + 1;
                    }
                },
                _ => {},
            }
            return Effect::Idle;
        }
        if let GameState::Mission01(s) = &mut self.state {
            let req = match key {
                Key::Up => s.move_player(0, -1),
                Key::Down => s.move_player(0, 1),
                Key::Left => s.move_player(-1, 0),
                Key::Right => s.move_player(1, 0),
                _ => {
                    return Effect::Idle;
                },
            };
            match req {
                Some(run) => Effect::Run(run),
                None => Effect::Idle,
            }
        } else {
            Effect::Idle
        }
    }

    /// Routes an input event by screen. On a finished mission only the
    /// advance signal changes the mission: movement and compile requests
    /// leave gameplay state and mission status untouched.
    pub fn handle_input(&mut self, key: Key) -> (eff: Effect)
        requires
            old(self).current_screen is MainMenu && key is Enter ==> old(
                self,
            ).selected_item_index < 3,
            (match old(self).state {
                GameState::Mission01(s) => s.wf(),
                _ => true,
            }),
        ensures
            old(self).current_screen is Gameplay && gameplay_finished(old(self).state) && !(key
                is Enter) ==> final(self).state == old(self).state && final(self).active_mission
                == old(self).active_mission,
            match old(self).current_screen {
                CurrentScreen::MainMenu => eff is Idle && match key {
                    Key::Up => *final(self) == (App {
                        selected_item_index: (if old(self).selected_item_index > 0 {
                            old(self).selected_item_index - 1
                        } else {
                            2
                        }) as usize,
                        ..*old(self)
                    }),
                    Key::Down => *final(self) == (App {
                        selected_item_index: (if old(self).selected_item_index < 2 {
                            old(self).selected_item_index + 1
                        } else {
                            0
                        }) as usize,
                        ..*old(self)
                    }),
                    Key::Enter => {
                        if old(self).selected_item_index == 0 {
                            loaded_mission_01(*old(self), *final(self))
                        } else if old(self).selected_item_index == 1 {
                            *final(self) == (App {
                                current_screen: CurrentScreen::LevelSelection,
                                ..*old(self)
                            })
                        } else {
                            *final(self) == (App {
                                current_screen: CurrentScreen::Exiting,
                                ..*old(self)
                            })
                        }
                    },
                    _ => *final(self) == *old(self),
                },
                CurrentScreen::LevelSelection => eff is Idle && match key {
                    Key::Up => *final(self) == (App {
                        mission_selection_index: (if old(self).mission_selection_index > 0 {
                            old(self).mission_selection_index - 1
                        } else {
                            1
                        }) as usize,
                        ..*old(self)
                    }),
                    Key::Down => *final(self) == (App {
                        mission_selection_index: (if old(self).mission_selection_index < 1 {
                            old(self).mission_selection_index + 1
                        } else {
                            0
                        }) as usize,
                        ..*old(self)
                    }),
                    Key::Enter => {
                        if old(self).mission_selection_index == 0 {
                            loaded_mission_01(*old(self), *final(self))
                        } else if old(self).mission_selection_index == 1 {
                            loaded_mission_02(*old(self), *final(self))
                        } else {
                            *final(self) == *old(self)
                        }
                    },
                    Key::Esc => *final(self) == (App {
                        current_screen: CurrentScreen::MainMenu,
                        ..*old(self)
                    }),
                    _ => *final(self) == *old(self),
                },
                CurrentScreen::Gameplay => gameplay_input_post(*old(self), *final(self), key, eff),
                CurrentScreen::Exiting => *final(self) == *old(self) && eff is Idle,
            },
    {
        match self.current_screen {
            CurrentScreen::MainMenu => {
                match key {
                    Key::Up => self.menu_previous(),
                    Key::Down => self.menu_next(),
                    Key::Enter => {
                        let items = MenuItem::all();
                        let item = items[self.selected_item_index];
                        match item {
                            MenuItem::Start => self.start_game(),
                            MenuItem::SelectLevel => {
                                self.current_screen = CurrentScreen::LevelSelection;
                            },
                            MenuItem::Quit => {
                                self.current_screen = CurrentScreen::Exiting;
                            },
                        }
                    },
                    _ => {},
                }
                Effect::Idle
            },
            CurrentScreen::LevelSelection => {
                match key {
                    Key::Up => self.level_select_previous(),
                    Key::Down => self.level_select_next(),
                    Key::Enter => self.start_selected_level(),
                    Key::Esc => {
                        self.current_screen = CurrentScreen::MainMenu;
                    },
                    _ => {},
                }
                Effect::Idle
            },
            CurrentScreen::Gameplay => self.handle_gameplay_input(key),
            CurrentScreen::Exiting => Effect::Idle,
        }
    }
}

/// The fields no compile step touches: screen, menu cursors, log length.
pub open spec fn same_shell(a: App, b: App) -> bool {
    &&& a.current_screen == b.current_screen
    &&& a.selected_item_index == b.selected_item_index
    &&& a.mission_selection_index == b.mission_selection_index
    &&& a.log_line_count == b.log_line_count
}

/// The session after a compile step failed: the mission carries no artifact
/// size, the compiled flag is cleared, and the logs tab is up, scrolled to
/// the top.
pub open spec fn compile_failed_post(pre: App, post: App) -> bool {
    &&& same_shell(pre, post)
    &&& same_mission_identity(pre.active_mission, post.active_mission)
    &&& post.active_mission.binary_size is None
    &&& compiled_flag_cleared(pre.state, post.state)
    &&& post.current_tab == 1
    &&& post.vertical_scroll == 0
}

} // verus!
