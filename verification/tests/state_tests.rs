use doukutsu_rs::caret::CaretType;
use doukutsu_rs::common::{Direction, FadeState, Rect};
use doukutsu_rs::engine_constants::{BoosterConsts, EngineConstants, PhysicsConsts};
use doukutsu_rs::fix9::{abs, half, neg, scale, signum, FIX9_ONE};
use doukutsu_rs::flags::{script_flag, GameFlags};
use doukutsu_rs::npc::NPCTable;
use doukutsu_rs::settings::Settings;
use doukutsu_rs::shared_game_state::{Season, SharedGameState, TimingMode};
use doukutsu_rs::text_script::{ScriptMode, TextScriptExecutionState};

fn settings() -> Settings {
    Settings {
        god_mode: false,
        infinite_booster: false,
        noclip: false,
        music: true,
        sfx: true,
        shader_effects: true,
        original_textures: false,
        seasonal_textures: true,
    }
}

fn state() -> SharedGameState {
    SharedGameState::new(
        EngineConstants::with_frames(Rect::new(0, 0, 16, 16)),
        settings(),
        Season::Ordinary,
        NPCTable::new(),
        7,
    )
}

#[test]
fn fixed_point_unit_is_512() {
    assert_eq!(FIX9_ONE, 512);
}

#[test]
fn fixed_point_helpers() {
    assert_eq!(half(7), 3);
    assert_eq!(half(-7), -3);
    assert_eq!(neg(5), -5);
    assert_eq!(neg(i32::MIN), i32::MIN);
    assert_eq!(abs(-9), 9);
    assert_eq!(abs(9), 9);
    assert_eq!(abs(i32::MIN), i32::MIN);
    assert_eq!(signum(-3), -1);
    assert_eq!(signum(0), 0);
    assert_eq!(signum(12), 1);
    assert_eq!(scale(2100, 20, 21), 2000);
    assert_eq!(scale(-2100, 20, 21), -2000);
    assert_eq!(scale(-5, 8, 9), -4);
}

#[test]
fn direction_vectors_and_opposites() {
    assert_eq!(Direction::Left.vector_x(), -1);
    assert_eq!(Direction::Right.vector_x(), 1);
    assert_eq!(Direction::Up.vector_x(), 0);
    assert_eq!(Direction::Up.vector_y(), -1);
    assert_eq!(Direction::Bottom.vector_y(), 1);
    assert_eq!(Direction::FacingPlayer.vector_y(), 0);
    assert_eq!(Direction::Left.opposite(), Direction::Right);
    assert_eq!(Direction::Bottom.opposite(), Direction::Up);
    assert_eq!(Direction::FacingPlayer.opposite(), Direction::FacingPlayer);
    assert_eq!(Direction::Bottom.index(), 3);
}

#[test]
fn timing_modes() {
    assert_eq!(TimingMode::_50Hz.get_delta(), 20_000_000);
    assert_eq!(TimingMode::_60Hz.get_delta(), 16_666_666);
    assert_eq!(TimingMode::FrameSynchronized.get_delta(), 0);
    assert_eq!(TimingMode::_50Hz.get_tps(), 50);
    assert_eq!(TimingMode::_60Hz.get_tps(), 60);
    assert_eq!(TimingMode::FrameSynchronized.get_tps(), 0);
}

#[test]
fn seasons_of_the_calendar() {
    assert!(Season::from_date(10, 26) == Season::Halloween);
    assert!(Season::from_date(10, 25) == Season::Ordinary);
    assert!(Season::from_date(11, 2) == Season::Halloween);
    assert!(Season::from_date(11, 3) == Season::Ordinary);
    assert!(Season::from_date(12, 24) == Season::Christmas);
    assert!(Season::from_date(12, 23) == Season::Ordinary);
    assert!(Season::from_date(1, 3) == Season::Ordinary);
    assert!(Season::from_date(0, 3) == Season::Christmas);
    assert!(Season::from_date(6, 15) == Season::Ordinary);
}

#[test]
fn season_of_today_is_a_season() {
    let today = Season::current();
    assert!(
        today == Season::Ordinary || today == Season::Halloween || today == Season::Christmas
    );
}

#[test]
fn physics_tables() {
    let air = PhysicsConsts::air();
    let water = PhysicsConsts::water();
    assert_eq!(air.max_move, 0x5ff);
    assert_eq!(air.jump, 0x500);
    assert_eq!(water.max_move, 0x2ff);
    assert_eq!(water.gravity_ground, 0x28);
    let booster = BoosterConsts::standard();
    assert_eq!(booster.fuel, 50);
    assert_eq!(booster.b2_0_up_nokey, -0x5ff);
    assert_eq!(booster.b2_0_right, 0x5ff);
}

#[test]
fn game_flags_start_cleared_and_can_be_set() {
    let mut flags = GameFlags::new(8000);
    assert_eq!(flags.get(0), Some(false));
    assert_eq!(flags.get(7999), Some(false));
    assert_eq!(flags.get(8000), None);
    assert!(flags.set(4000, true));
    assert_eq!(flags.get(4000), Some(true));
    assert_eq!(flags.get(3999), Some(false));
    assert_eq!(flags.get(4001), Some(false));
    assert!(flags.is_set(4000));
    assert!(!flags.is_set(4001));
    assert!(!flags.is_set(9000));
    assert!(!flags.set(8000, true));
    assert!(flags.set(4000, false));
    assert_eq!(flags.get(4000), Some(false));
}

#[test]
fn scripts_read_flags_by_signed_number() {
    let mut flags = GameFlags::new(16);
    flags.set(0, true);
    flags.set(5, true);
    assert_eq!(script_flag(&flags, None), None);
    assert_eq!(script_flag(&flags, Some(5)), Some(true));
    assert_eq!(script_flag(&flags, Some(4)), Some(false));
    assert_eq!(script_flag(&flags, Some(-3)), Some(true));
    assert_eq!(script_flag(&flags, Some(16)), Some(false));
}

#[test]
fn new_state_is_quiet() {
    let state = state();
    assert!(state.timing_mode == TimingMode::_50Hz);
    assert_eq!(state.quake_counter, 0);
    assert!(state.carets.is_empty());
    assert!(state.sound_manager.effects.is_empty());
    assert!(state.fade_state == FadeState::Hidden);
    assert_eq!(state.game_flags.get(7999), Some(false));
    assert_eq!(state.game_flags.get(8000), None);
    assert_eq!(state.game_rng.dump_state().0, 0);
    assert_eq!(state.effect_rng.dump_state().0, 7);
    assert!(!state.shutdown);
}

#[test]
fn requests_queue_in_order() {
    let mut state = state();
    state.play_sfx(16);
    state.play_sfx(17);
    state.play_sfx_if(false, 99);
    state.play_sfx_if(true, 26);
    assert_eq!(state.sound_manager.effects, vec![16, 17, 26]);
    state.create_caret(5, 6, CaretType::Zzz, Direction::Left);
    state.create_caret_if(false, 0, 0, CaretType::Exhaust, Direction::Up);
    assert_eq!(state.carets.len(), 1);
    assert_eq!(state.carets[0].x, 5);
    assert!(state.carets[0].ctype == CaretType::Zzz);
    state.set_quake(10);
    state.set_quake_if(false, 20);
    assert_eq!(state.quake_counter, 10);
    state.start_script(40);
    assert!(state.textscript_vm.state == TextScriptExecutionState::Running(40, 0));
    state.start_script_if(false, 41);
    assert!(state.textscript_vm.state == TextScriptExecutionState::Running(40, 0));
    state.sound_manager.play_song(24);
    assert_eq!(state.sound_manager.songs, vec![24]);
}

#[test]
fn reset_goes_back_to_the_start_of_a_playthrough() {
    let mut state = state();
    state.control_flags.control_enabled = true;
    state.game_flags.set(12, true);
    state.game_rng.next_u64();
    state.effect_rng.next_u64();
    let effect = state.effect_rng.dump_state();
    state.teleporter_slots.push((1, 2));
    state.set_quake(9);
    state.create_caret(1, 1, CaretType::Shoot, Direction::Left);
    state.play_sfx(1);
    state.textscript_vm.set_mode(ScriptMode::Inventory);
    state.textscript_vm.suspend = false;
    state.reset();
    assert!(!state.control_flags.control_enabled);
    assert_eq!(state.game_flags.get(12), Some(false));
    assert_eq!(state.game_rng.dump_state(), doukutsu_rs::rng::XorShift::new(0).dump_state());
    assert_eq!(state.effect_rng.dump_state(), effect);
    assert!(state.teleporter_slots.is_empty());
    assert_eq!(state.quake_counter, 0);
    assert!(state.carets.is_empty());
    assert_eq!(state.sound_manager.effects, vec![1]);
    assert!(state.textscript_vm.mode == ScriptMode::MapScript);
    assert!(state.textscript_vm.suspend);
}

#[test]
fn shutdown_is_asked_for() {
    let mut state = state();
    state.shutdown();
    assert!(state.shutdown);
}

#[test]
fn queues_are_handed_out_and_emptied() {
    let mut state = state();
    state.play_sfx(16);
    state.play_sfx(26);
    state.sound_manager.play_song(24);
    state.create_caret(1, 2, CaretType::Zzz, Direction::Left);
    state.create_caret(3, 4, CaretType::Exhaust, Direction::Up);
    state.set_quake(7);
    let carets = state.take_carets();
    assert_eq!(carets.len(), 2);
    assert_eq!((carets[0].x, carets[0].y), (1, 2));
    assert!(carets[1].ctype == CaretType::Exhaust);
    assert!(state.carets.is_empty());
    assert_eq!(state.sound_manager.effects, vec![16, 26]);
    assert_eq!(state.take_effects(), vec![16, 26]);
    assert!(state.sound_manager.effects.is_empty());
    assert_eq!(state.sound_manager.songs, vec![24]);
    assert_eq!(state.take_songs(), vec![24]);
    assert!(state.sound_manager.songs.is_empty());
    assert_eq!(state.quake_counter, 7);
    assert!(state.take_carets().is_empty());
    assert!(state.take_effects().is_empty());
    state.play_sfx(1);
    assert_eq!(state.sound_manager.take_effects(), vec![1]);
    state.sound_manager.play_song(2);
    assert_eq!(state.sound_manager.take_songs(), vec![2]);
}
