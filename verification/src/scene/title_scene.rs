//! The title screen: a main menu, an option menu, and the short wait before
//! a game starts or loads. The menus themselves, and what the player does
//! with them, belong to the user interface; what reaches this state machine
//! is the entry that was picked.

use vstd::prelude::*;
use crate::shared_game_state::{SharedGameState, SharedGameStateView, TimingMode};

verus! {

/// Which part of the title screen is shown.
#[derive(Clone, Copy, Debug, PartialEq, Eq, Structural)]
pub enum CurrentMenu {
    MainMenu,
    OptionMenu,
    SaveSelectMenu,
    ChallengesMenu,
    StartGame,
    LoadGame,
}

/// What the menu on screen reports for one tick.
#[derive(Clone, Copy, Debug, PartialEq, Eq, Structural)]
pub enum MenuSelectionResult {
    Nothing,
    /// The entry at this position was picked.
    Selected(usize),
    Canceled,
}

/// What a tick of the title screen asks of its surroundings, beyond what it
/// files with the shared state.
#[derive(Clone, Copy, Debug, PartialEq, Eq, Structural)]
pub enum TitleAction {
    Nothing,
    /// Music was switched on or off.
    SetMusic(bool),
    /// Sound effects were switched on or off.
    SetSfx(bool),
    /// The choice of textures changed.
    ReloadTextures,
    /// The community link is to be opened.
    OpenLink,
    /// A new game is to be set up.
    StartNewGame,
    /// The saved game is to be loaded, or a new one set up.
    LoadOrStartGame,
}

/// Ticks between picking a game and its start.
pub const START_DELAY: usize = 10;

/// Position of each entry of the main menu.
pub const MAIN_NEW_GAME: usize = 0;

pub const MAIN_LOAD_GAME: usize = 1;

pub const MAIN_OPTIONS: usize = 2;

pub const MAIN_QUIT: usize = 4;

pub struct TitleScene {
    pub tick: usize,
    pub current_menu: CurrentMenu,
}

/// The timing mode after the toggle between the two fixed rates.
pub open spec fn toggled_timing(mode: TimingMode) -> TimingMode {
    match mode {
        TimingMode::_50Hz => TimingMode::_60Hz,
        TimingMode::_60Hz => TimingMode::_50Hz,
        TimingMode::FrameSynchronized => TimingMode::FrameSynchronized,
    }
}

/// The menu that is shown after the tick.
pub open spec fn next_menu(menu: CurrentMenu, picked: MenuSelectionResult) -> CurrentMenu {
    match (menu, picked) {
        (CurrentMenu::MainMenu, MenuSelectionResult::Selected(0)) => CurrentMenu::StartGame,
        (CurrentMenu::MainMenu, MenuSelectionResult::Selected(1)) => CurrentMenu::LoadGame,
        (CurrentMenu::MainMenu, MenuSelectionResult::Selected(2)) => CurrentMenu::OptionMenu,
        (CurrentMenu::OptionMenu, MenuSelectionResult::Selected(7)) => CurrentMenu::MainMenu,
        (CurrentMenu::OptionMenu, MenuSelectionResult::Canceled) => CurrentMenu::MainMenu,
        _ => menu,
    }
}

/// Whether the tick picks a game to start or to load.
pub open spec fn picks_game(menu: CurrentMenu, picked: MenuSelectionResult) -> bool {
    menu == CurrentMenu::MainMenu && (picked == MenuSelectionResult::Selected(0) || picked
        == MenuSelectionResult::Selected(1))
}

/// The tick counter after the tick: picking a game restarts the count.
pub open spec fn next_tick(tick: usize, menu: CurrentMenu, picked: MenuSelectionResult) -> usize {
    (if picks_game(menu, picked) {
        1usize
    } else {
        tick
    }).wrapping_add(1)
}

/// Whether entry `n` of the option menu is a switch. The first four always
/// are; the choice of original textures is one where the data has them, and
/// the choice of seasonal textures where the data is of the extended
/// edition.
pub open spec fn is_switch(s: SharedGameStateView, n: usize) -> bool {
    n < 4 || (n == 4 && s.constants.supports_og_textures) || (n == 5 && s.constants.is_cs_plus)
}

/// The shared state after the tick. Picking a new game resets the state of
/// the playthrough; picking either game stops the music (track 0); the
/// option menu flips the switch that was picked; quitting asks the session
/// to end.
pub open spec fn title_state(s: SharedGameStateView, menu: CurrentMenu, picked: MenuSelectionResult)
    -> SharedGameStateView {
    let option = |n: usize|
        menu == CurrentMenu::OptionMenu && picked == MenuSelectionResult::Selected(n) && is_switch(
            s,
            n,
        );
    let base = if menu == CurrentMenu::MainMenu && picked == MenuSelectionResult::Selected(0) {
        s.reset()
    } else {
        s
    };
    SharedGameStateView {
        songs: if picks_game(menu, picked) {
            base.songs.push(0)
        } else {
            base.songs
        },
        shutdown: base.shutdown || (menu == CurrentMenu::MainMenu && picked
            == MenuSelectionResult::Selected(4)),
        timing_mode: if option(2) {
            toggled_timing(base.timing_mode)
        } else {
            base.timing_mode
        },
        settings: crate::settings::Settings {
            music: base.settings.music != option(0),
            sfx: base.settings.sfx != option(1),
            shader_effects: base.settings.shader_effects != option(3),
            original_textures: base.settings.original_textures != option(4),
            seasonal_textures: base.settings.seasonal_textures != option(5),
            ..base.settings
        },
        ..base
    }
}

/// What the tick asks of its surroundings.
pub open spec fn title_action(
    s: SharedGameStateView,
    tick: usize,
    menu: CurrentMenu,
    picked: MenuSelectionResult,
) -> TitleAction {
    match (menu, picked) {
        (CurrentMenu::OptionMenu, MenuSelectionResult::Selected(0)) => TitleAction::SetMusic(
            !s.settings.music,
        ),
        (CurrentMenu::OptionMenu, MenuSelectionResult::Selected(1)) => TitleAction::SetSfx(
            !s.settings.sfx,
        ),
        (CurrentMenu::OptionMenu, MenuSelectionResult::Selected(4)) => if is_switch(s, 4) {
            TitleAction::ReloadTextures
        } else {
            TitleAction::Nothing
        },
        (CurrentMenu::OptionMenu, MenuSelectionResult::Selected(5)) => if is_switch(s, 5) {
            TitleAction::ReloadTextures
        } else {
            TitleAction::Nothing
        },
        (CurrentMenu::OptionMenu, MenuSelectionResult::Selected(6)) => TitleAction::OpenLink,
        (CurrentMenu::StartGame, _) => if tick == START_DELAY {
            TitleAction::StartNewGame
        } else {
            TitleAction::Nothing
        },
        (CurrentMenu::LoadGame, _) => if tick == START_DELAY {
            TitleAction::LoadOrStartGame
        } else {
            TitleAction::Nothing
        },
        _ => TitleAction::Nothing,
    }
}

impl TitleScene {
    pub fn new() -> (r: Self)
        ensures
            r.tick == 0,
            r.current_menu == CurrentMenu::MainMenu,
    {
        TitleScene { tick: 0, current_menu: CurrentMenu::MainMenu }
    }

    fn flip_setting(state: &mut SharedGameState, n: usize)
        ensures
            final(state)@ == title_state(
                old(state)@,
                CurrentMenu::OptionMenu,
                MenuSelectionResult::Selected(n),
            ),
    {
        let s = state.settings;
        let timing_mode = if n == 2 {
            match state.timing_mode {
                TimingMode::_50Hz => TimingMode::_60Hz,
                TimingMode::_60Hz => TimingMode::_50Hz,
                TimingMode::FrameSynchronized => TimingMode::FrameSynchronized,
            }
        } else {
            state.timing_mode
        };
        let settings = crate::settings::Settings {
            music: s.music != (n == 0),
            sfx: s.sfx != (n == 1),
            shader_effects: s.shader_effects != (n == 3),
            original_textures: s.original_textures != (n == 4
                && state.constants.supports_og_textures),
            seasonal_textures: s.seasonal_textures != (n == 5 && state.constants.is_cs_plus),
            ..s
        };
        state.timing_mode = timing_mode;
        state.settings = settings;
        assert(state@ =~= title_state(
            old(state)@,
            CurrentMenu::OptionMenu,
            MenuSelectionResult::Selected(n),
        ));
    }

    fn pick_game(state: &mut SharedGameState, fresh: bool)
        ensures
            final(state)@ == title_state(
                old(state)@,
                CurrentMenu::MainMenu,
                MenuSelectionResult::Selected(
                    if fresh {
                        0usize
                    } else {
                        1usize
                    },
                ),
            ),
    {
        if fresh {
            state.reset();
        }
        state.sound_manager.play_song(0);
        assert(state@ =~= title_state(
            old(state)@,
            CurrentMenu::MainMenu,
            MenuSelectionResult::Selected(
                if fresh {
                    0usize
                } else {
                    1usize
                },
            ),
        ));
    }

    fn quit(state: &mut SharedGameState)
        ensures
            final(state)@ == title_state(
                old(state)@,
                CurrentMenu::MainMenu,
                MenuSelectionResult::Selected(4),
            ),
    {
        state.shutdown();
        assert(state@ =~= title_state(
            old(state)@,
            CurrentMenu::MainMenu,
            MenuSelectionResult::Selected(4),
        ));
    }

    fn advance(&mut self, picked: MenuSelectionResult)
        ensures
            final(self).current_menu == next_menu(old(self).current_menu, picked),
            final(self).tick == next_tick(old(self).tick, old(self).current_menu, picked),
    {
        let menu = self.current_menu;
        let mut tick = self.tick;
        let next = match (menu, picked) {
            (CurrentMenu::MainMenu, MenuSelectionResult::Selected(0)) => {
                tick = 1;
                CurrentMenu::StartGame
            },
            (CurrentMenu::MainMenu, MenuSelectionResult::Selected(1)) => {
                tick = 1;
                CurrentMenu::LoadGame
            },
            (CurrentMenu::MainMenu, MenuSelectionResult::Selected(2)) => CurrentMenu::OptionMenu,
            (CurrentMenu::OptionMenu, MenuSelectionResult::Selected(7)) => CurrentMenu::MainMenu,
            (CurrentMenu::OptionMenu, MenuSelectionResult::Canceled) => CurrentMenu::MainMenu,
            _ => menu,
        };
        self.current_menu = next;
        self.tick = tick.wrapping_add(1);
    }

    fn action(&self, state: &SharedGameState, picked: MenuSelectionResult) -> (r: TitleAction)
        ensures
            r == title_action(state@, self.tick, self.current_menu, picked),
    {
        match (self.current_menu, picked) {
            (CurrentMenu::OptionMenu, MenuSelectionResult::Selected(0)) => TitleAction::SetMusic(
                !state.settings.music,
            ),
            (CurrentMenu::OptionMenu, MenuSelectionResult::Selected(1)) => TitleAction::SetSfx(
                !state.settings.sfx,
            ),
            (CurrentMenu::OptionMenu, MenuSelectionResult::Selected(4)) => if state.constants.supports_og_textures {
                TitleAction::ReloadTextures
            } else {
                TitleAction::Nothing
            },
            (CurrentMenu::OptionMenu, MenuSelectionResult::Selected(5)) => if state.constants.is_cs_plus {
                TitleAction::ReloadTextures
            } else {
                TitleAction::Nothing
            },
            (CurrentMenu::OptionMenu, MenuSelectionResult::Selected(6)) => TitleAction::OpenLink,
            (CurrentMenu::StartGame, _) => if self.tick == START_DELAY {
                TitleAction::StartNewGame
            } else {
                TitleAction::Nothing
            },
            (CurrentMenu::LoadGame, _) => if self.tick == START_DELAY {
                TitleAction::LoadOrStartGame
            } else {
                TitleAction::Nothing
            },
            _ => TitleAction::Nothing,
        }
    }

    fn keep(state: &mut SharedGameState, menu: CurrentMenu, picked: MenuSelectionResult)
        requires
            !(menu == CurrentMenu::MainMenu && (picked == MenuSelectionResult::Selected(0) || picked
                == MenuSelectionResult::Selected(1) || picked == MenuSelectionResult::Selected(4))),
            !(menu == CurrentMenu::OptionMenu && picked matches MenuSelectionResult::Selected(_)),
        ensures
            final(state)@ == title_state(old(state)@, menu, picked),
    {
        assert(state@ =~= title_state(state@, menu, picked));
    }

    /// One tick of the title screen on what the menu on screen reports.
    pub fn tick(&mut self, state: &mut SharedGameState, picked: MenuSelectionResult) -> (r:
        TitleAction)
        ensures
            r == title_action(old(state)@, old(self).tick, old(self).current_menu, picked),
            final(state)@ == title_state(old(state)@, old(self).current_menu, picked),
            final(self).current_menu == next_menu(old(self).current_menu, picked),
            final(self).tick == next_tick(old(self).tick, old(self).current_menu, picked),
    {
        let action = self.action(state, picked);
        let menu = self.current_menu;
        self.advance(picked);
        match (menu, picked) {
            (CurrentMenu::MainMenu, MenuSelectionResult::Selected(0)) => {
                Self::pick_game(state, true);
                return action;
            },
            (CurrentMenu::MainMenu, MenuSelectionResult::Selected(1)) => {
                Self::pick_game(state, false);
                return action;
            },
            (CurrentMenu::MainMenu, MenuSelectionResult::Selected(4)) => {
                Self::quit(state);
                return action;
            },
            (CurrentMenu::OptionMenu, MenuSelectionResult::Selected(n)) => {
                Self::flip_setting(state, n);
                return action;
            },
            _ => {
                Self::keep(state, menu, picked);
                return action;
            },
        }
    }
}

} // verus!
