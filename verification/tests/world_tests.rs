use doukutsu_rs::bullet::BulletManager;
use doukutsu_rs::common::{Direction, Rect};
use doukutsu_rs::engine_constants::EngineConstants;
use doukutsu_rs::game::{replay_world, tick_world};
use doukutsu_rs::player::tick::TickInput;
use doukutsu_rs::npc::list::NPCList;
use doukutsu_rs::npc::{NPCTable, NPC};
use doukutsu_rs::player::Player;
use doukutsu_rs::rng::Xoroshiro32PlusPlus;
use doukutsu_rs::scene::title_scene::{CurrentMenu, MenuSelectionResult, TitleAction, TitleScene};
use doukutsu_rs::settings::Settings;
use doukutsu_rs::shared_game_state::{Season, SharedGameState, TimingMode};
use doukutsu_rs::stage::{Stage, StageMap};
use doukutsu_rs::text_script::TextScriptExecutionState;

fn state() -> SharedGameState {
    SharedGameState::new(
        EngineConstants::with_frames(Rect::new(0, 0, 16, 16)),
        Settings {
            god_mode: false,
            infinite_booster: false,
            noclip: false,
            music: true,
            sfx: true,
            shader_effects: true,
            original_textures: false,
            seasonal_textures: true,
        },
        Season::Ordinary,
        NPCTable::new(),
        7,
    )
}

fn players() -> [Player; 2] {
    let constants = EngineConstants::with_frames(Rect::new(0, 0, 0, 0));
    let mut a = Player::new(&constants);
    let b = Player::new(&constants);
    a.cond.alive = true;
    [a, b]
}

fn npc(npc_type: u16, seed: u32) -> NPC {
    let mut n = NPC::empty();
    n.npc_type = npc_type;
    n.cond.alive = true;
    n.rng = Xoroshiro32PlusPlus::new(seed);
    n
}

fn stage() -> Stage {
    Stage { map: StageMap { width: 40, height: 30 } }
}

fn alive_count(list: &NPCList) -> usize {
    list.npcs.iter().filter(|n| n.cond.alive).count()
}

#[test]
fn every_living_entity_is_ticked_once() {
    let mut state = state();
    let mut ps = players();
    let mut list = NPCList::new();
    let bullets = BulletManager::new();
    list.npcs[3] = npc(0, 1);
    list.npcs[7] = npc(3, 1);
    list.npcs[9] = npc(0, 1);
    list.npcs[9].cond.alive = false;
    let thrown = list.tick_all(&mut state, &mut ps, &stage(), &bullets);
    assert!(thrown.is_empty());
    assert_eq!(list.npcs[3].action_num, 1);
    assert_eq!(list.npcs[7].action_counter2, 1);
    assert_eq!(list.npcs[9].action_num, 0);
    list.tick_all(&mut state, &mut ps, &stage(), &bullets);
    assert_eq!(list.npcs[7].action_counter2, 2);
}

#[test]
fn spawned_entities_wait_for_the_next_tick() {
    let mut state = state();
    let mut ps = players();
    let mut list = NPCList::new();
    let bullets = BulletManager::new();
    let mut door = npc(18, 1);
    door.action_num = 1;
    list.npcs[5] = door;
    let thrown = list.tick_all(&mut state, &mut ps, &stage(), &bullets);
    assert!(thrown.is_empty());
    assert_eq!(alive_count(&list), 5);
    for slot in 0x100..0x104 {
        assert_eq!(list.npcs[slot].npc_type, 4);
        assert_eq!(list.npcs[slot].action_num, 0);
        assert_eq!((list.npcs[slot].x, list.npcs[slot].y), (0, 0));
    }
    let thrown = list.tick_all(&mut state, &mut ps, &stage(), &bullets);
    for slot in 0x100..0x104 {
        assert_eq!(list.npcs[slot].action_num, 1);
    }
    assert_eq!(thrown.len(), 4);
    assert_eq!(thrown[0].slot, 0x100);
    assert_eq!(thrown[3].slot, 0x103);
}

#[test]
fn an_entity_without_a_frame_to_show_is_passed_over() {
    let mut state = state();
    let mut ps = players();
    let mut list = NPCList::new();
    let bullets = BulletManager::new();
    let mut bubble = npc(105, 1);
    bubble.anim_num = 2;
    list.npcs[1] = bubble;
    let mut shot = npc(123, 1);
    shot.direction = Direction::FacingPlayer;
    list.npcs[2] = shot;
    list.npcs[4] = npc(105, 1);
    assert!(!list.npcs[1].is_ready(&state, &ps, &list, &bullets));
    assert!(!list.npcs[2].is_ready(&state, &ps, &list, &bullets));
    assert!(list.npcs[4].is_ready(&state, &ps, &list, &bullets));
    list.tick_all(&mut state, &mut ps, &stage(), &bullets);
    assert_eq!(list.npcs[1].action_counter, 0);
    assert_eq!(list.npcs[2].action_num, 0);
    assert_eq!(list.npcs[4].action_counter, 1);
    assert!(state.sound_manager.effects.is_empty());
}

fn busy_arena() -> NPCList {
    let mut list = NPCList::new();
    for (slot, (npc_type, seed)) in [
        (0, 1u32),
        (4, 2),
        (15, 3),
        (17, 4),
        (44, 5),
        (45, 6),
        (61, 7),
        (62, 8),
        (73, 9),
        (74, 10),
        (96, 11),
        (114, 12),
        (117, 13),
        (118, 14),
        (122, 15),
        (149, 16),
        (199, 17),
        (278, 18),
        (359, 19),
    ]
    .iter()
    .enumerate()
    {
        let mut n = npc(*npc_type, *seed);
        n.x = 0x2000 * slot as i32;
        n.y = 0x1000;
        n.life = 1000;
        n.event_num = 200;
        list.npcs[slot * 3] = n;
    }
    list
}

#[test]
fn ticking_the_same_arena_twice_gives_the_same_trajectory() {
    let mut finals = Vec::new();
    for _ in 0..2 {
        let mut state = state();
        let mut ps = players();
        ps[0].x = 0x8000;
        let mut list = busy_arena();
        let bullets = BulletManager::new();
        let mut thrown_total = 0;
        for tick in 0..300 {
            for n in list.npcs.iter_mut() {
                n.flags.hit_bottom_wall = tick % 3 == 0;
                n.flags.hit_left_wall = tick % 50 == 49;
            }
            thrown_total += list.tick_all(&mut state, &mut ps, &stage(), &bullets).len();
        }
        let trace: Vec<(u16, bool, i32, i32, u16, u16, u16, (u16, u16))> = list
            .npcs
            .iter()
            .map(|n| {
                (n.npc_type, n.cond.alive, n.x, n.y, n.action_num, n.anim_num, n.action_counter, n.rng.0)
            })
            .collect();
        finals.push((
            trace,
            thrown_total,
            state.sound_manager.effects.clone(),
            state.quake_counter,
            state.carets.len(),
            ps[0].vel_x,
        ));
    }
    assert!(finals[0] == finals[1]);
    assert!(finals[0].0.iter().any(|t| t.1));
    assert!(!finals[0].2.is_empty());
}

#[test]
fn new_game_and_introduction_are_set_up() {
    let mut state = state();
    let mut ps = players();
    ps[0].cond.alive = false;
    assert_eq!(state.start_new_game(&mut ps[0]), 13);
    assert!(ps[0].cond.alive);
    assert_eq!((ps[0].x, ps[0].y), (10 * 16 * 0x200, 8 * 16 * 0x200));
    assert!(state.textscript_vm.state == TextScriptExecutionState::Running(200, 0));
    assert_eq!(state.start_intro(&mut ps[1]), 72);
    assert!(ps[1].cond.hidden);
    assert_eq!((ps[1].x, ps[1].y), (3 * 16 * 0x200, 3 * 16 * 0x200));
    assert!(state.textscript_vm.state == TextScriptExecutionState::Running(100, 0));
}

#[test]
fn title_screen_starts_a_new_game_after_ten_ticks() {
    let mut state = state();
    state.game_flags.set(3, true);
    let mut title = TitleScene::new();
    assert!(title.current_menu == CurrentMenu::MainMenu);
    assert!(title.tick(&mut state, MenuSelectionResult::Nothing) == TitleAction::Nothing);
    assert_eq!(title.tick, 1);
    let action = title.tick(&mut state, MenuSelectionResult::Selected(0));
    assert!(action == TitleAction::Nothing);
    assert!(title.current_menu == CurrentMenu::StartGame);
    assert_eq!(title.tick, 2);
    assert_eq!(state.sound_manager.songs, vec![0]);
    assert_eq!(state.game_flags.get(3), Some(false));
    let mut actions = Vec::new();
    for _ in 0..10 {
        actions.push(title.tick(&mut state, MenuSelectionResult::Nothing));
    }
    assert_eq!(actions.iter().filter(|a| **a == TitleAction::StartNewGame).count(), 1);
    assert!(actions[8] == TitleAction::StartNewGame);
}

#[test]
fn title_screen_loads_a_game_and_quits() {
    let mut state = state();
    state.game_flags.set(3, true);
    let mut title = TitleScene::new();
    title.tick(&mut state, MenuSelectionResult::Selected(1));
    assert!(title.current_menu == CurrentMenu::LoadGame);
    assert_eq!(state.game_flags.get(3), Some(true));
    title.tick = 10;
    assert!(title.tick(&mut state, MenuSelectionResult::Canceled) == TitleAction::LoadOrStartGame);
    let mut title = TitleScene::new();
    assert!(!state.shutdown);
    title.tick(&mut state, MenuSelectionResult::Selected(4));
    assert!(state.shutdown);
    assert!(title.current_menu == CurrentMenu::MainMenu);
    title.tick(&mut state, MenuSelectionResult::Selected(3));
    assert!(title.current_menu == CurrentMenu::MainMenu);
}

#[test]
fn option_menu_flips_its_switches() {
    let mut state = state();
    let mut title = TitleScene::new();
    title.tick(&mut state, MenuSelectionResult::Selected(2));
    assert!(title.current_menu == CurrentMenu::OptionMenu);
    assert!(title.tick(&mut state, MenuSelectionResult::Selected(0)) == TitleAction::SetMusic(false));
    assert!(!state.settings.music);
    assert!(title.tick(&mut state, MenuSelectionResult::Selected(0)) == TitleAction::SetMusic(true));
    assert!(state.settings.music);
    assert!(title.tick(&mut state, MenuSelectionResult::Selected(1)) == TitleAction::SetSfx(false));
    assert!(!state.settings.sfx);
    title.tick(&mut state, MenuSelectionResult::Selected(2));
    assert!(state.timing_mode == TimingMode::_60Hz);
    title.tick(&mut state, MenuSelectionResult::Selected(2));
    assert!(state.timing_mode == TimingMode::_50Hz);
    title.tick(&mut state, MenuSelectionResult::Selected(3));
    assert!(!state.settings.shader_effects);
    assert!(title.tick(&mut state, MenuSelectionResult::Selected(4)) == TitleAction::Nothing);
    assert!(!state.settings.original_textures);
    state.constants.supports_og_textures = true;
    assert!(
        title.tick(&mut state, MenuSelectionResult::Selected(4)) == TitleAction::ReloadTextures
    );
    assert!(state.settings.original_textures);
    assert!(title.tick(&mut state, MenuSelectionResult::Selected(5)) == TitleAction::Nothing);
    assert!(state.settings.seasonal_textures);
    state.constants.is_cs_plus = true;
    assert!(
        title.tick(&mut state, MenuSelectionResult::Selected(5)) == TitleAction::ReloadTextures
    );
    assert!(!state.settings.seasonal_textures);
    assert!(title.tick(&mut state, MenuSelectionResult::Selected(6)) == TitleAction::OpenLink);
    assert!(title.current_menu == CurrentMenu::OptionMenu);
    title.tick(&mut state, MenuSelectionResult::Selected(7));
    assert!(title.current_menu == CurrentMenu::MainMenu);
    title.tick(&mut state, MenuSelectionResult::Selected(2));
    title.tick(&mut state, MenuSelectionResult::Canceled);
    assert!(title.current_menu == CurrentMenu::MainMenu);
}

#[test]
fn world_tick_runs_players_before_the_arena() {
    let mut state = state();
    state.control_flags.control_enabled = true;
    let mut ps = players();
    ps[0].life = 1;
    ps[0].flags.hit_by_spike = true;
    let mut list = NPCList::new();
    list.npcs[0] = npc(0, 1);
    let bullets = BulletManager::new();
    let thrown = tick_world(&mut state, &mut ps, &mut list, &stage(), &bullets);
    assert!(thrown.is_empty());
    assert_eq!(ps[0].life, 0);
    assert!(!ps[0].cond.alive);
    assert_eq!(list.npcs[0].action_num, 1);
    assert_eq!(alive_count(&list), 1 + 64);
    assert_eq!(list.npcs[0x100].action_num, 0);
    let thrown = tick_world(&mut state, &mut ps, &mut list, &stage(), &bullets);
    assert_eq!(list.npcs[0x100].action_num, 1);
    assert_eq!(thrown.len(), 64);
    assert_eq!(ps[1].x, 0);
}

#[test]
fn replaying_a_recording_twice_gives_the_same_world() {
    let idle = players();
    let mut record = Vec::new();
    for i in 0..200 {
        let mut a = TickInput { controller: idle[0].controller, flags: idle[0].flags };
        let b = TickInput { controller: idle[1].controller, flags: idle[1].flags };
        a.controller.move_right = i % 3 != 0;
        a.controller.jump = i % 4 < 2;
        a.controller.trigger_jump = i % 4 == 0;
        a.flags.hit_bottom_wall = i % 10 < 3;
        a.flags.in_water = i % 50 > 40;
        record.push([a, b]);
    }
    let mut finals = Vec::new();
    for _ in 0..2 {
        let mut state = state();
        state.control_flags.control_enabled = true;
        let mut ps = players();
        ps[0].life = 50;
        ps[0].air = 1000;
        let mut list = busy_arena();
        let bullets = BulletManager::new();
        replay_world(&mut state, &mut ps, &mut list, &stage(), &bullets, &record);
        let trace: Vec<(bool, i32, i32, u16, (u16, u16))> = list
            .npcs
            .iter()
            .map(|n| (n.cond.alive, n.x, n.y, n.action_num, n.rng.0))
            .collect();
        finals.push((
            trace,
            (ps[0].x, ps[0].y, ps[0].vel_x, ps[0].vel_y, ps[0].life, ps[0].anim_num),
            state.game_rng.dump_state(),
            state.sound_manager.effects.clone(),
        ));
    }
    assert!(finals[0] == finals[1]);
    assert!(finals[0].1 .0 != 0);
}
