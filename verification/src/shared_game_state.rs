//! State shared by every entity of a running game: the switches, the two
//! random streams, the tuning data, and the queues in which the requests of
//! the behaviours wait (audio cues, visual effects, the screen shake).

use vstd::prelude::*;
use chrono::Datelike;
use crate::caret::{Caret, CaretType};
use crate::common::{ControlFlags, Direction, FadeState};
use crate::engine_constants::EngineConstants;
use crate::flags::GameFlags;
use crate::npc::{NPCTable, NPCTableEntry};
use crate::rng::{xorshift_seeded, XorShift};
use crate::settings::Settings;
use crate::sound::SoundManager;
use crate::text_script::{ScriptMode, TextScriptVM};

verus! {

/// Logical rate of the simulation.
#[derive(Clone, Copy, Debug, PartialEq, Eq, Structural)]
pub enum TimingMode {
    _50Hz,
    _60Hz,
    FrameSynchronized,
}

impl TimingMode {
    /// Nanoseconds per tick, rounded down; 0 where the rate is the display's.
    pub open spec fn delta(self) -> usize {
        match self {
            TimingMode::_50Hz => 20_000_000,
            TimingMode::_60Hz => 16_666_666,
            TimingMode::FrameSynchronized => 0,
        }
    }

    /// Ticks per second; 0 where the rate is the display's.
    pub open spec fn tps(self) -> usize {
        match self {
            TimingMode::_50Hz => 50,
            TimingMode::_60Hz => 60,
            TimingMode::FrameSynchronized => 0,
        }
    }

    #[verifier::when_used_as_spec(delta)]
    pub fn get_delta(self) -> (r: usize)
        ensures
            r == self.delta(),
            self.tps() != 0 ==> r == 1_000_000_000int / (self.tps() as int),
    {
        match self {
            TimingMode::_50Hz => 1000000000 / 50,
            TimingMode::_60Hz => 1000000000 / 60,
            TimingMode::FrameSynchronized => 0,
        }
    }

    #[verifier::when_used_as_spec(tps)]
    pub fn get_tps(self) -> (r: usize)
        ensures
            r == self.tps(),
    {
        match self {
            TimingMode::_50Hz => 50,
            TimingMode::_60Hz => 60,
            TimingMode::FrameSynchronized => 0,
        }
    }
}

/// Time of the year that seasonal content goes by.
#[derive(Clone, Copy, Debug, PartialEq, Eq, Structural)]
pub enum Season {
    Ordinary,
    Halloween,
    Christmas,
}

/// Season of a calendar day, by month number and day of the month.
pub open spec fn season_of(month: u32, day: u32) -> Season {
    if (month == 10 && day > 25) || (month == 11 && day < 3) {
        Season::Halloween
    } else if (month == 12 && day > 23) || (month == 0 && day < 7) {
        Season::Christmas
    } else {
        Season::Ordinary
    }
}

/// Trusted: `chrono::Local::now()`, then `Datelike::month` and
/// `Datelike::day` of it. The crate documents the month as ranging from 1 to
/// 12 and the day of the month from 1 to 31; which day it is depends on the
/// clock and the time zone of the machine.
#[verifier::external_body]
fn local_month_and_day() -> (r: (u32, u32))
    ensures
        1 <= r.0 <= 12,
        1 <= r.1 <= 31,
{
    let now = chrono::Local::now();
    (now.month(), now.day())
}

impl Season {
    /// Season of the day `day` of month `month`.
    pub fn from_date(month: u32, day: u32) -> (r: Season)
        ensures
            r == season_of(month, day),
    {
        if (month == 10 && day > 25) || (month == 11 && day < 3) {
            Season::Halloween
        } else if (month == 12 && day > 23) || (month == 0 && day < 7) {
            Season::Christmas
        } else {
            Season::Ordinary
        }
    }

    /// Season of today, by the machine's local calendar.
    pub fn current() -> (r: Season)
        ensures
            exists|month: u32, day: u32|
                1 <= month <= 12 && 1 <= day <= 31 && r == season_of(month, day),
    {
        let (month, day) = local_month_and_day();
        Season::from_date(month, day)
    }
}

/// Number of game flags of a playthrough.
pub const GAME_FLAG_COUNT: usize = 8000;

pub struct SharedGameState {
    pub timing_mode: TimingMode,
    pub control_flags: ControlFlags,
    pub game_flags: GameFlags,
    pub fade_state: FadeState,
    /// Stream behind every draw that the course of the game depends on.
    pub game_rng: XorShift,
    /// Stream for visual effects that the course of the game ignores.
    pub effect_rng: XorShift,
    pub quake_counter: u16,
    pub teleporter_slots: Vec<(u16, u16)>,
    pub carets: Vec<Caret>,
    pub npc_table: NPCTable,
    pub npc_super_pos: (i32, i32),
    pub textscript_vm: TextScriptVM,
    pub season: Season,
    pub constants: EngineConstants,
    pub sound_manager: SoundManager,
    pub settings: Settings,
    pub shutdown: bool,
}

/// The shared state as a value.
pub struct SharedGameStateView {
    pub timing_mode: TimingMode,
    pub control_flags: ControlFlags,
    pub game_flags: Seq<bool>,
    pub fade_state: FadeState,
    pub game_rng: XorShift,
    pub effect_rng: XorShift,
    pub quake_counter: u16,
    pub teleporter_slots: Seq<(u16, u16)>,
    pub carets: Seq<Caret>,
    pub npc_table: Seq<NPCTableEntry>,
    pub npc_super_pos: (i32, i32),
    pub textscript_vm: TextScriptVM,
    pub season: Season,
    pub constants: EngineConstants,
    pub effects: Seq<u8>,
    pub songs: Seq<usize>,
    pub settings: Settings,
    pub shutdown: bool,
}

impl View for SharedGameState {
    type V = SharedGameStateView;

    open spec fn view(&self) -> SharedGameStateView {
        SharedGameStateView {
            timing_mode: self.timing_mode,
            control_flags: self.control_flags,
            game_flags: self.game_flags@,
            fade_state: self.fade_state,
            game_rng: self.game_rng,
            effect_rng: self.effect_rng,
            quake_counter: self.quake_counter,
            teleporter_slots: self.teleporter_slots@,
            carets: self.carets@,
            npc_table: self.npc_table@,
            npc_super_pos: self.npc_super_pos,
            textscript_vm: self.textscript_vm,
            season: self.season,
            constants: self.constants,
            effects: self.sound_manager.effects@,
            songs: self.sound_manager.songs@,
            settings: self.settings,
            shutdown: self.shutdown,
        }
    }
}

impl SharedGameStateView {
    /// The state with one more audio cue asked for.
    pub open spec fn with_sfx(self, id: u8) -> SharedGameStateView {
        SharedGameStateView { effects: self.effects.push(id), ..self }
    }

    /// The state with one more visual effect asked for.
    pub open spec fn with_caret(self, x: i32, y: i32, ctype: CaretType, direct: Direction)
        -> SharedGameStateView {
        SharedGameStateView {
            carets: self.carets.push(Caret { x, y, ctype, direction: direct }),
            ..self
        }
    }

    /// The state with the screen shake armed for `ticks` ticks.
    pub open spec fn with_quake(self, ticks: u16) -> SharedGameStateView {
        SharedGameStateView { quake_counter: ticks, ..self }
    }

    /// The state with the script event `event_num` started.
    pub open spec fn with_script(self, event_num: u16) -> SharedGameStateView {
        SharedGameStateView {
            textscript_vm: TextScriptVM {
                state: crate::text_script::TextScriptExecutionState::Running(event_num, 0),
                ..self.textscript_vm
            },
            ..self
        }
    }

    /// `with_sfx` where `wanted`, else the state as it is.
    pub open spec fn with_sfx_if(self, wanted: bool, id: u8) -> SharedGameStateView {
        SharedGameStateView {
            effects: if wanted {
                self.effects.push(id)
            } else {
                self.effects
            },
            ..self
        }
    }

    /// `with_caret` where `wanted`, else the state as it is.
    pub open spec fn with_caret_if(
        self,
        wanted: bool,
        x: i32,
        y: i32,
        ctype: CaretType,
        direct: Direction,
    ) -> SharedGameStateView {
        SharedGameStateView {
            carets: if wanted {
                self.carets.push(Caret { x, y, ctype, direction: direct })
            } else {
                self.carets
            },
            ..self
        }
    }

    /// `with_quake` where `wanted`, else the state as it is.
    pub open spec fn with_quake_if(self, wanted: bool, ticks: u16) -> SharedGameStateView {
        SharedGameStateView {
            quake_counter: if wanted {
                ticks
            } else {
                self.quake_counter
            },
            ..self
        }
    }

    /// `with_script` where `wanted`, else the state as it is.
    pub open spec fn with_script_if(self, wanted: bool, event_num: u16) -> SharedGameStateView {
        SharedGameStateView {
            textscript_vm: if wanted {
                TextScriptVM {
                    state: crate::text_script::TextScriptExecutionState::Running(event_num, 0),
                    ..self.textscript_vm
                }
            } else {
                self.textscript_vm
            },
            ..self
        }
    }

    /// The state at the start of a playthrough: see `SharedGameState::reset`.
    pub open spec fn reset(self) -> SharedGameStateView {
        SharedGameStateView {
            control_flags: ControlFlags::empty(),
            game_flags: Seq::new(GAME_FLAG_COUNT as nat, |i: int| false),
            fade_state: FadeState::Hidden,
            game_rng: XorShift(xorshift_seeded(0)),
            teleporter_slots: Seq::empty(),
            quake_counter: 0,
            carets: Seq::empty(),
            textscript_vm: TextScriptVM { mode: ScriptMode::MapScript, suspend: true, ..self.textscript_vm },
            ..self
        }
    }
}

impl SharedGameState {
    /// The state that a session starts with. `effect_seed` seeds the stream
    /// of the visual effects; the game stream always starts from seed 0.
    pub fn new(
        constants: EngineConstants,
        settings: Settings,
        season: Season,
        npc_table: NPCTable,
        effect_seed: i32,
    ) -> (r: SharedGameState)
        ensures
            r@ == (SharedGameStateView {
                timing_mode: TimingMode::_50Hz,
                control_flags: ControlFlags::empty(),
                game_flags: Seq::new(GAME_FLAG_COUNT as nat, |i: int| false),
                fade_state: FadeState::Hidden,
                game_rng: XorShift(xorshift_seeded(0)),
                effect_rng: XorShift(xorshift_seeded(effect_seed)),
                quake_counter: 0,
                teleporter_slots: Seq::empty(),
                carets: Seq::empty(),
                npc_table: npc_table@,
                npc_super_pos: (0i32, 0i32),
                textscript_vm: TextScriptVM {
                    state: crate::text_script::TextScriptExecutionState::Ended,
                    mode: ScriptMode::MapScript,
                    suspend: true,
                },
                season,
                constants,
                effects: Seq::empty(),
                songs: Seq::empty(),
                settings,
                shutdown: false,
            }),
    {
        let r = SharedGameState {
            timing_mode: TimingMode::_50Hz,
            control_flags: ControlFlags::empty(),
            game_flags: GameFlags::new(GAME_FLAG_COUNT),
            fade_state: FadeState::Hidden,
            game_rng: XorShift::new(0),
            effect_rng: XorShift::new(effect_seed),
            quake_counter: 0,
            teleporter_slots: Vec::new(),
            carets: Vec::new(),
            npc_table,
            npc_super_pos: (0, 0),
            textscript_vm: TextScriptVM::new(),
            season,
            constants,
            sound_manager: SoundManager::new(),
            settings,
            shutdown: false,
        };
        assert(r@.game_flags =~= Seq::new(GAME_FLAG_COUNT as nat, |i: int| false));
        r
    }

    /// Back to the start of a playthrough: switches off, every game flag
    /// off, the game stream reseeded with 0, no teleporter slot, no pending
    /// visual effect or shake, the script machine suspended in map mode.
    /// The effect stream, the audio queue and the tuning data stay.
    pub fn reset(&mut self)
        ensures
            final(self)@ == old(self)@.reset(),
    {
        self.control_flags = ControlFlags::empty();
        self.game_flags = GameFlags::new(GAME_FLAG_COUNT);
        self.fade_state = FadeState::Hidden;
        self.game_rng = XorShift::new(0);
        self.teleporter_slots.clear();
        self.quake_counter = 0;
        self.carets.clear();
        self.textscript_vm.set_mode(ScriptMode::MapScript);
        self.textscript_vm.suspend = true;
        assert(self@.game_flags =~= Seq::new(GAME_FLAG_COUNT as nat, |i: int| false));
    }

    /// Asks for a visual effect of kind `ctype` at `(x, y)`.
    pub fn create_caret(&mut self, x: i32, y: i32, ctype: CaretType, direct: Direction)
        ensures
            final(self)@ == old(self)@.with_caret(x, y, ctype, direct),
    {
        self.carets.push(Caret::new(x, y, ctype, direct));
    }

    /// Asks for the audio cue `id`.
    pub fn play_sfx(&mut self, id: u8)
        ensures
            final(self)@ == old(self)@.with_sfx(id),
    {
        self.sound_manager.play_sfx(id);
    }

    /// Arms the screen shake for `ticks` ticks.
    pub fn set_quake(&mut self, ticks: u16)
        ensures
            final(self)@ == old(self)@.with_quake(ticks),
    {
        self.quake_counter = ticks;
    }

    /// Starts the script event `event_num`.
    pub fn start_script(&mut self, event_num: u16)
        ensures
            final(self)@ == old(self)@.with_script(event_num),
    {
        self.textscript_vm.start_script(event_num);
    }

    /// Asks for the audio cue `id` where `wanted`.
    pub fn play_sfx_if(&mut self, wanted: bool, id: u8)
        ensures
            final(self)@ == old(self)@.with_sfx_if(wanted, id),
    {
        if wanted {
            self.sound_manager.play_sfx(id);
        }
    }

    /// Asks for a visual effect where `wanted`.
    pub fn create_caret_if(
        &mut self,
        wanted: bool,
        x: i32,
        y: i32,
        ctype: CaretType,
        direct: Direction,
    )
        ensures
            final(self)@ == old(self)@.with_caret_if(wanted, x, y, ctype, direct),
    {
        if wanted {
            self.carets.push(Caret::new(x, y, ctype, direct));
        }
    }

    /// Arms the screen shake where `wanted`.
    pub fn set_quake_if(&mut self, wanted: bool, ticks: u16)
        ensures
            final(self)@ == old(self)@.with_quake_if(wanted, ticks),
    {
        if wanted {
            self.quake_counter = ticks;
        }
    }

    /// Starts the script event `event_num` where `wanted`.
    pub fn start_script_if(&mut self, wanted: bool, event_num: u16)
        ensures
            final(self)@ == old(self)@.with_script_if(wanted, event_num),
    {
        if wanted {
            self.textscript_vm.start_script(event_num);
        }
    }

    /// Sets a new game up: the player stands alive at its starting place,
    /// the screen is faded out and script event 200 runs. Gives the number of
    /// the stage that the game starts in.
    pub fn start_new_game(&mut self, player: &mut crate::player::Player) -> (stage: usize)
        ensures
            stage == 13,
            final(self)@ == (SharedGameStateView {
                fade_state: FadeState::Hidden,
                ..old(self)@.with_script(200)
            }),
            *final(player) == (crate::player::Player {
                cond: crate::common::Condition { alive: true, ..old(player).cond },
                x: 0x14000,
                y: 0x10000,
                ..*old(player)
            }),
    {
        *player = crate::player::Player {
            cond: crate::common::Condition { alive: true, ..player.cond },
            x: 10 * 16 * 0x200,
            y: 8 * 16 * 0x200,
            ..*player
        };
        self.start_script(200);
        self.fade_state = FadeState::Hidden;
        13
    }

    /// Sets the introduction up: the player is hidden at its place, the
    /// screen is faded out and script event 100 runs. Gives the number of
    /// the stage that the introduction plays in.
    pub fn start_intro(&mut self, player: &mut crate::player::Player) -> (stage: usize)
        ensures
            stage == 72,
            final(self)@ == (SharedGameStateView {
                fade_state: FadeState::Hidden,
                ..old(self)@.with_script(100)
            }),
            *final(player) == (crate::player::Player {
                cond: crate::common::Condition { hidden: true, ..old(player).cond },
                x: 0x6000,
                y: 0x6000,
                ..*old(player)
            }),
    {
        *player = crate::player::Player {
            cond: crate::common::Condition { hidden: true, ..player.cond },
            x: 3 * 16 * 0x200,
            y: 3 * 16 * 0x200,
            ..*player
        };
        self.start_script(100);
        self.fade_state = FadeState::Hidden;
        72
    }

    /// Hands the queued visual effects out, oldest first, and empties their
    /// queue: whoever shows them takes them over, and nothing else of the
    /// state changes.
    pub fn take_carets(&mut self) -> (r: Vec<Caret>)
        ensures
            r@ == old(self)@.carets,
            final(self)@ == (SharedGameStateView { carets: Seq::empty(), ..old(self)@ }),
    {
        let mut out: Vec<Caret> = Vec::new();
        std::mem::swap(&mut self.carets, &mut out);
        out
    }

    /// Hands the queued audio cues out, oldest first, and empties their
    /// queue.
    pub fn take_effects(&mut self) -> (r: Vec<u8>)
        ensures
            r@ == old(self)@.effects,
            final(self)@ == (SharedGameStateView { effects: Seq::empty(), ..old(self)@ }),
    {
        self.sound_manager.take_effects()
    }

    /// Hands the queued tracks out, oldest first, and empties their queue.
    pub fn take_songs(&mut self) -> (r: Vec<usize>)
        ensures
            r@ == old(self)@.songs,
            final(self)@ == (SharedGameStateView { songs: Seq::empty(), ..old(self)@ }),
    {
        self.sound_manager.take_songs()
    }

    /// Asks the session to end.
    pub fn shutdown(&mut self)
        ensures
            final(self)@ == (SharedGameStateView { shutdown: true, ..old(self)@ }),
    {
        self.shutdown = true;
    }
}

} // verus!
