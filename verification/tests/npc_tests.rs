use doukutsu_rs::bullet::{Bullet, BulletManager};
use doukutsu_rs::caret::CaretType;
use doukutsu_rs::common::{Condition, Direction, Rect};
use doukutsu_rs::engine_constants::EngineConstants;
use doukutsu_rs::npc::ai::misc::SmokeBurst;
use doukutsu_rs::npc::list::NPCList;
use doukutsu_rs::npc::{NPCTable, NPC};
use doukutsu_rs::player::Player;
use doukutsu_rs::rng::Xoroshiro32PlusPlus;
use doukutsu_rs::settings::Settings;
use doukutsu_rs::shared_game_state::{Season, SharedGameState};
use doukutsu_rs::stage::{Stage, StageMap};

fn state() -> SharedGameState {
    let mut constants = EngineConstants::with_frames(Rect::new(0, 0, 16, 16));
    for (i, rect) in constants.npc.n118_curly_boss.iter_mut().enumerate() {
        *rect = Rect::new(i as u16, 0, i as u16 + 1, 1);
    }
    for (i, rect) in constants.npc.n004_smoke.iter_mut().enumerate() {
        *rect = Rect::new(i as u16, 4, i as u16 + 1, 5);
    }
    for (i, rect) in constants.npc.n061_king.iter_mut().enumerate() {
        *rect = Rect::new(i as u16, 61, i as u16 + 1, 62);
    }
    for (i, rect) in constants.npc.n073_water_droplet.iter_mut().enumerate() {
        *rect = Rect::new(i as u16, 73, i as u16 + 1, 74);
    }
    SharedGameState::new(
        constants,
        Settings {
            god_mode: false,
            infinite_booster: false,
            noclip: false,
            music: true,
            sfx: true,
            shader_effects: true,
            original_textures: false,
            seasonal_textures: true,
        },
        Season::Ordinary,
        NPCTable::new(),
        7,
    )
}

fn players() -> [Player; 2] {
    let constants = EngineConstants::with_frames(Rect::new(0, 0, 0, 0));
    let mut a = Player::new(&constants);
    let mut b = Player::new(&constants);
    a.cond.alive = true;
    b.cond.alive = true;
    a.x = 0x100000;
    b.x = 0x100000;
    [a, b]
}

fn npc(npc_type: u16, seed: u32) -> NPC {
    let mut n = NPC::empty();
    n.npc_type = npc_type;
    n.cond.alive = true;
    n.rng = Xoroshiro32PlusPlus::new(seed);
    n
}

fn alive_count(list: &NPCList) -> usize {
    list.npcs.iter().filter(|n| n.cond.alive).count()
}

fn stage() -> Stage {
    Stage { map: StageMap { width: 40, height: 30 } }
}

#[test]
fn marker_settles_on_its_first_tick() {
    let mut n = npc(0, 1);
    n.direction = Direction::Right;
    n.y = 0x4000;
    n.tick_n000_null();
    assert_eq!(n.action_num, 1);
    assert_eq!(n.y, 0x4000 + 16 * 0x200);
    assert_eq!(n.anim_rect, Rect::new(0, 0, 16, 16));
    n.tick_n000_null();
    assert_eq!(n.y, 0x4000 + 16 * 0x200);
    let mut n = npc(0, 1);
    n.tick_n000_null();
    assert_eq!(n.y, 0);
}

#[test]
fn remains_are_gone_on_their_hundredth_tick() {
    let mut n = npc(3, 1);
    n.anim_rect = Rect::new(1, 2, 3, 4);
    for _ in 0..99 {
        n.tick_n003_dead_enemy();
        assert!(n.cond.alive);
    }
    assert_eq!(n.anim_rect, Rect::new(0, 0, 0, 0));
    n.tick_n003_dead_enemy();
    assert!(!n.cond.alive);
    assert_eq!(n.action_num, 0xffff);
}

#[test]
fn fresh_smoke_draws_its_frame_and_its_throw() {
    let state = state();
    let mut n = npc(4, 1);
    n.direction = Direction::Left;
    let burst = n.tick_n004_smoke(&state);
    assert!(burst == Some(SmokeBurst { angle: 8337, radius_x: 900, radius_y: 1347 }));
    assert_eq!(n.action_num, 1);
    assert_eq!(n.anim_num, 2);
    assert_eq!(n.anim_counter, 3);
    assert_eq!(n.anim_rect, Rect::new(2, 4, 3, 5));
    assert_eq!((n.x, n.y), (0, 0));
    n.throw_smoke(-300, 420);
    assert_eq!((n.vel_x, n.vel_y), (-300, 420));
    let mut m = npc(4, 1);
    m.direction = Direction::Right;
    assert!(m.tick_n004_smoke(&state).is_none());
    assert_eq!(m.anim_num, 2);
}

#[test]
fn smoke_drifts_and_fades() {
    let state = state();
    let mut n = npc(4, 1);
    n.direction = Direction::Up;
    n.action_num = 1;
    n.vel_x = 2100;
    n.vel_y = -2100;
    assert!(n.tick_n004_smoke(&state).is_none());
    assert_eq!((n.vel_x, n.vel_y), (2000, -2000));
    assert_eq!((n.x, n.y), (2000, -2000));
    assert_eq!(n.anim_rect, Rect::new(8, 4, 9, 5));
    n.direction = Direction::Left;
    n.anim_num = 7;
    n.anim_counter = 4;
    assert!(n.tick_n004_smoke(&state).is_none());
    assert_eq!(n.anim_num, 8);
    assert!(!n.cond.alive);
}

#[test]
fn key_hops_glints_and_falls() {
    let state = state();
    let mut n = npc(14, 1);
    n.direction = Direction::Right;
    n.tick_n014_key(&state);
    assert_eq!(n.action_num, 1);
    assert_eq!(n.vel_y, -0x200 + 0x40);
    assert_eq!(n.y, -0x1c0);
    assert!(!n.npc_flags.interactable);
    assert_eq!((n.anim_num, n.anim_counter), (0, 1));
    n.flags.hit_bottom_wall = true;
    n.tick_n014_key(&state);
    assert!(n.npc_flags.interactable);
    assert_eq!((n.anim_num, n.anim_counter), (1, 0));
    n.vel_y = 0x5f0;
    n.tick_n014_key(&state);
    assert_eq!(n.vel_y, 0x5ff);
}

#[test]
fn closed_chest_pops_with_four_puffs() {
    let state = state();
    let mut list = NPCList::new();
    let mut n = npc(15, 1);
    n.direction = Direction::Right;
    n.x = 0x8000;
    n.y = 0x9000;
    n.tick_n015_chest_closed(&state, &mut list);
    assert_eq!(alive_count(&list), 4);
    let first = list.npcs[0x100];
    assert_eq!(first.npc_type, 4);
    assert_eq!((first.x, first.y), (0x8000 + 10 * 0x200, 0x9000 - 3 * 0x200));
    assert_eq!((first.vel_x, first.vel_y), (264, -338));
    let second = list.npcs[0x101];
    assert_eq!((second.x, second.y), (0x8000 + 12 * 0x200, 0x9000 + 12 * 0x200));
    assert_eq!((second.vel_x, second.vel_y), (-234, -539));
    assert!(n.npc_flags.interactable);
    assert_eq!(n.vel_y, -0x200 + 0x40);
    assert_eq!(n.y, 0x9000 - 0x1c0);
    assert!(n.action_num == 1 || n.action_num == 2);
    n.tick_n015_chest_closed(&state, &mut list);
    assert_eq!(alive_count(&list), 4);
}

#[test]
fn closed_chest_glints_through_three_frames() {
    let state = state();
    let mut list = NPCList::new();
    let mut n = npc(15, 1);
    n.action_num = 2;
    let mut frames = Vec::new();
    for _ in 0..6 {
        n.tick_n015_chest_closed(&state, &mut list);
        frames.push((n.action_num, n.anim_num, n.anim_counter));
    }
    assert_eq!(
        frames,
        vec![(2, 0, 1), (2, 1, 0), (2, 1, 1), (2, 2, 0), (2, 2, 1), (1, 0, 0)]
    );
}

#[test]
fn save_point_turns_through_eight_frames() {
    let state = state();
    let mut n = npc(16, 1);
    n.direction = Direction::Right;
    n.npc_flags.interactable = true;
    n.tick_n016_save_point(&state);
    assert!(!n.npc_flags.interactable);
    assert_eq!(n.vel_y, -0x1c0);
    let mut frames = vec![n.anim_num];
    for _ in 0..24 {
        n.tick_n016_save_point(&state);
        frames.push(n.anim_num);
    }
    assert_eq!(frames[0], 0);
    assert_eq!(frames[2], 1);
    assert_eq!(frames[22], 7);
    assert_eq!(frames[23], 0);
    n.flags.hit_bottom_wall = true;
    n.tick_n016_save_point(&state);
    assert!(n.npc_flags.interactable);
}

#[test]
fn health_refill_picks_its_next_state_by_a_draw() {
    let state = state();
    let mut n = npc(17, 2);
    n.tick_n017_health_refill(&state);
    assert_eq!(n.action_num, 4);
    assert_eq!(n.action_counter, 38);
    assert_eq!(n.vel_y, 0x40);
    n.tick_n017_health_refill(&state);
    assert_eq!(n.anim_num, 1);
    assert_eq!(n.action_counter, 37);
    n.action_counter = 0;
    n.tick_n017_health_refill(&state);
    assert_eq!(n.action_num, 1);
}

#[test]
fn opened_door_throws_four_puffs() {
    let state = state();
    let mut list = NPCList::new();
    let mut n = npc(18, 1);
    n.action_num = 1;
    n.x = 0x400;
    n.y = 0x600;
    n.tick_n018_door(&state, &mut list);
    assert_eq!(n.action_num, 0);
    assert_eq!(alive_count(&list), 4);
    for (slot, (vx, vy)) in [(207, -707), (264, -338), (-152, -1407), (-234, -539)]
        .iter()
        .enumerate()
    {
        let puff = list.npcs[0x100 + slot];
        assert_eq!((puff.x, puff.y), (0x400, 0x600));
        assert_eq!((puff.vel_x, puff.vel_y), (*vx, *vy));
    }
    assert_eq!(n.rng.0, Xoroshiro32PlusPlus::new(2930582047).0);
    n.tick_n018_door(&state, &mut list);
    assert_eq!(alive_count(&list), 4);
}

#[test]
fn small_fixtures_show_their_frames() {
    let mut state = state();
    state.constants.npc.n034_bed[1] = Rect::new(9, 9, 9, 9);
    state.constants.npc.n043_chalkboard[0] = Rect::new(4, 3, 2, 1);
    state.constants.npc.n021_chest_open = Rect::new(21, 0, 22, 1);
    state.constants.npc.n211_small_spikes[3] = Rect::new(3, 3, 3, 3);
    let mut bed = npc(34, 1);
    bed.direction = Direction::Right;
    bed.tick_n034_bed(&state);
    assert_eq!(bed.anim_rect, Rect::new(9, 9, 9, 9));
    assert_eq!(bed.action_num, 1);
    let mut board = npc(43, 1);
    board.y = 0x4000;
    board.tick_n043_chalkboard(&state);
    assert_eq!(board.y, 0x2000);
    assert_eq!(board.anim_rect, Rect::new(4, 3, 2, 1));
    board.tick_n043_chalkboard(&state);
    assert_eq!(board.y, 0x2000);
    let mut chest = npc(21, 1);
    chest.direction = Direction::Right;
    chest.tick_n021_chest_open(&state);
    assert_eq!(chest.y, 0x2000);
    assert_eq!(chest.anim_rect, Rect::new(21, 0, 22, 1));
    let mut door = npc(41, 1);
    door.tick_n041_busted_door(&state);
    assert_eq!(door.y, -0x2000);
    let mut spikes = npc(211, 1);
    spikes.event_num = 7;
    spikes.tick_n211_small_spikes(&state);
    assert_eq!(spikes.anim_rect, Rect::new(3, 3, 3, 3));
    let mut flowers = npc(76, 1);
    flowers.event_num = 3;
    flowers.tick_n076_flowers();
    assert_eq!(flowers.anim_rect, Rect::new(48, 0, 64, 16));
    let mut robot = npc(194, 1);
    robot.tick_n194_broken_blue_robot(&state);
    assert_eq!(robot.y, 0x800);
    let mut picked = npc(234, 1);
    picked.direction = Direction::Up;
    picked.tick_n234_red_flowers_picked(&state);
    assert_eq!(picked.y, 0x2000);
}

#[test]
fn looping_fixtures_cycle() {
    let state = state();
    let mut capsule = npc(32, 1);
    let mut frames = Vec::new();
    for _ in 0..8 {
        capsule.tick_n032_life_capsule(&state);
        frames.push(capsule.anim_num);
    }
    assert_eq!(frames, vec![0, 1, 1, 0, 0, 1, 1, 0]);
    let mut sparkle = npc(70, 1);
    for _ in 0..15 {
        sparkle.tick_n070_sparkle(&state);
    }
    assert_eq!(sparkle.anim_num, 3);
    sparkle.tick_n070_sparkle(&state);
    assert_eq!(sparkle.anim_num, 0);
    let mut field = npc(13, 1);
    field.tick_n013_forcefield(&state);
    assert_eq!((field.anim_counter, field.anim_num), (1, 1));
    field.tick_n013_forcefield(&state);
    assert_eq!((field.anim_counter, field.anim_num), (0, 1));
    let mut lights = npc(23, 1);
    for _ in 0..16 {
        lights.tick_n023_teleporter_lights(&state);
    }
    assert_eq!(lights.anim_num, 0);
    let mut teleporter = npc(22, 1);
    teleporter.action_num = 1;
    teleporter.tick_n022_teleporter(&state);
    assert_eq!(teleporter.anim_num, 1);
    teleporter.tick_n022_teleporter(&state);
    assert_eq!(teleporter.anim_num, 0);
    let mut computer = npc(20, 1);
    computer.direction = Direction::Right;
    for _ in 0..5 {
        computer.tick_n020_computer(&state);
    }
    assert_eq!(computer.anim_num, 1);
    let mut fire = npc(38, 1);
    fire.action_num = 10;
    fire.anim_rect = Rect::new(5, 6, 7, 8);
    fire.tick_n038_fireplace(&state);
    assert_eq!(fire.action_num, 11);
    assert_eq!(fire.anim_rect, Rect::new(0, 6, 0, 8));
}

#[test]
fn sleeping_gunsmith_snores_every_101_ticks() {
    let mut state = state();
    let mut n = npc(30, 1);
    n.direction = Direction::Right;
    n.x = 0x1000;
    n.y = 0x2000;
    for _ in 0..100 {
        n.tick_n030_gunsmith(&mut state);
    }
    assert!(state.carets.is_empty());
    assert_eq!(n.y, 0x2000 + 16 * 0x200);
    n.tick_n030_gunsmith(&mut state);
    assert_eq!(state.carets.len(), 1);
    assert!(state.carets[0].ctype == CaretType::Zzz);
    assert_eq!((state.carets[0].x, state.carets[0].y), (0x1000, 0x4000 - 0x400));
    assert_eq!(n.action_counter, 0);
}

#[test]
fn standing_gunsmith_blinks_on_a_draw_of_ten() {
    let mut state = state();
    let mut n = npc(30, 192);
    n.direction = Direction::Left;
    n.tick_n030_gunsmith(&mut state);
    assert_eq!(n.action_num, 1);
    n.tick_n030_gunsmith(&mut state);
    assert_eq!(n.action_num, 2);
    assert_eq!(n.action_counter, 8);
    n.tick_n030_gunsmith(&mut state);
    assert_eq!(n.action_counter, 7);
    let mut m = npc(30, 7);
    m.direction = Direction::Left;
    m.action_num = 1;
    m.tick_n030_gunsmith(&mut state);
    assert_eq!(m.action_num, 1);
}

#[test]
fn king_blinks_walks_and_jumps() {
    let state = state();
    let mut n = npc(61, 192);
    n.vel_x = 0x999;
    n.tick_n061_king(&state);
    assert_eq!((n.action_num, n.anim_num, n.action_counter), (2, 1, 0));
    assert_eq!(n.vel_x, 0);
    assert_eq!(n.vel_y, 0x40);
    assert_eq!(n.anim_rect, Rect::new(1, 61, 2, 62));
    for _ in 0..8 {
        n.tick_n061_king(&state);
        assert_eq!(n.action_num, 2);
    }
    n.tick_n061_king(&state);
    assert_eq!((n.action_num, n.anim_num), (1, 0));

    let mut n = npc(61, 1);
    n.action_num = 8;
    n.direction = Direction::Right;
    n.anim_num = 0;
    n.anim_counter = 3;
    n.tick_n061_king(&state);
    assert_eq!((n.action_num, n.anim_num, n.anim_counter), (9, 4, 1));
    assert_eq!(n.vel_x, 0x200);
    assert_eq!(n.x, 0x200);
    assert_eq!(n.anim_rect, Rect::new(14, 61, 15, 62));
    for _ in 0..4 {
        n.tick_n061_king(&state);
    }
    assert_eq!((n.action_num, n.anim_num, n.anim_counter), (9, 5, 0));

    let mut n = npc(61, 1);
    n.action_num = 6;
    n.flags.hit_bottom_wall = true;
    n.tick_n061_king(&state);
    assert_eq!((n.action_num, n.action_counter), (7, 1));
    assert_eq!(n.vel_y, -0x400 + 0x40);
    assert_eq!(n.vel_x, -0x200);
    n.tick_n061_king(&state);
    assert_eq!(n.action_num, 5);
    n.tick_n061_king(&state);
    assert_eq!((n.anim_num, n.vel_x), (3, 0));
}

#[test]
fn boss_sets_up_once_when_she_enters_the_waiting_state() {
    let mut state = state();
    let mut list = NPCList::new();
    let bullets = BulletManager::new();
    let ps = players();
    let mut n = npc(118, 0xdead_beef);
    n.action_num = 10;
    n.direction = Direction::Left;
    n.x = 0x200000;
    n.tick_n118_curly_boss(&mut state, &ps, &mut list, &bullets);
    assert_eq!(n.action_num, 11);
    assert_eq!(n.action_counter, 74 - 1);
    assert_eq!(n.anim_num, 0);
    assert!(n.direction == Direction::Left);
    assert!(n.npc_flags.shootable);
    assert!(!n.npc_flags.invulnerable);
    assert_eq!(n.rng.0, Xoroshiro32PlusPlus::new(2052697701).0);
    assert_eq!((n.vel_x, n.vel_y), (0, 0x20));
    assert_eq!(n.anim_rect, Rect::new(0, 0, 1, 1));
    let stream = n.rng;
    n.npc_flags.shootable = false;
    n.tick_n118_curly_boss(&mut state, &ps, &mut list, &bullets);
    assert_eq!(n.action_num, 11);
    assert_eq!(n.action_counter, 72);
    assert_eq!(n.rng.0, stream.0);
    assert!(!n.npc_flags.shootable);
}

#[test]
fn boss_fires_on_every_fourth_tick() {
    let mut state = state();
    let mut list = NPCList::new();
    let bullets = BulletManager::new();
    let ps = players();
    let mut n = npc(118, 1);
    n.action_num = 21;
    n.direction = Direction::Right;
    n.x = 0x200000;
    n.y = 0x10000;
    n.tick_n118_curly_boss(&mut state, &ps, &mut list, &bullets);
    assert_eq!(alive_count(&list), 1);
    let shot = list.npcs[0x100];
    assert_eq!(shot.npc_type, 123);
    assert!(shot.direction == Direction::Up);
    assert_eq!((shot.x, shot.y), (0x200000, 0x10000 - 8 * 0x200));
    assert_eq!(n.anim_num, 2);
    for _ in 0..3 {
        n.tick_n118_curly_boss(&mut state, &ps, &mut list, &bullets);
    }
    assert_eq!(alive_count(&list), 1);
    n.tick_n118_curly_boss(&mut state, &ps, &mut list, &bullets);
    assert_eq!(alive_count(&list), 2);
}

#[test]
fn boss_shields_herself_from_missiles() {
    let mut state = state();
    let mut list = NPCList::new();
    let mut bullets = BulletManager::new();
    bullets.bullets.push(Bullet {
        btype: 21,
        x: 0,
        y: 0,
        vel_x: 0,
        vel_y: 0,
        life: 1,
        damage: 1,
        cond: Condition::empty(),
        direction: Direction::Left,
    });
    let ps = players();
    let mut n = npc(118, 1);
    n.action_num = 14;
    n.action_counter = 20;
    n.vel_x = 0x100;
    n.direction = Direction::Right;
    n.tick_n118_curly_boss(&mut state, &ps, &mut list, &bullets);
    assert_eq!((n.action_num, n.action_counter, n.anim_num), (30, 0, 7));
    assert!(n.npc_flags.invulnerable);
    assert!(!n.npc_flags.shootable);
    assert_eq!(n.vel_x, 0);
    assert_eq!(n.anim_rect, Rect::new(16, 0, 17, 1));
}

#[test]
fn boss_roars_when_her_charge_ends() {
    let mut state = state();
    let mut list = NPCList::new();
    let bullets = BulletManager::new();
    let ps = players();
    let mut n = npc(118, 1);
    n.action_num = 14;
    n.action_counter = 0;
    n.vel_x = 0x300;
    n.direction = Direction::Right;
    n.anim_num = 3;
    n.tick_n118_curly_boss(&mut state, &ps, &mut list, &bullets);
    assert_eq!(n.action_num, 20);
    assert_eq!(state.sound_manager.effects, vec![103]);
    assert_eq!(n.vel_x, 0x1ff);
    n.vel_y = 0x5f0;
    n.tick_n118_curly_boss(&mut state, &ps, &mut list, &bullets);
    assert_eq!(n.vel_x, 0x1ff * 8 / 9);
    assert_eq!(n.vel_y, 0x5ff);
}

#[test]
fn crawler_bursts_into_its_young() {
    let mut state = state();
    let mut list = NPCList::new();
    let mut n = npc(44, 3);
    n.life = 50;
    n.action_num = 2;
    n.x = 0x10000;
    n.y = 0x20000;
    n.display_bounds.right = 8 * 0x200;
    n.tick_n044_polish(&mut state, &mut list);
    assert!(!n.cond.alive);
    assert_eq!(alive_count(&list), 8 + 9);
    assert_eq!(state.sound_manager.effects, vec![25]);
    assert_eq!(state.carets.len(), 1);
    assert!(state.carets[0].ctype == CaretType::Explosion);
    let cloud = list.npcs[0x100];
    assert_eq!(cloud.npc_type, 4);
    assert_eq!((cloud.x, cloud.y), (0x10000 - 2 * 0x200, 0x20000 - 0x200));
    let young = list.npcs[0x108];
    assert_eq!(young.npc_type, 45);
    assert_eq!((young.x, young.y), (0x10000, 0x20000));
    assert!(list.npcs[0x110].cond.alive);
    assert!(!list.npcs[0x111].cond.alive);
}

#[test]
fn crawler_creeps_round_the_walls() {
    let mut state = state();
    let mut list = NPCList::new();
    let mut n = npc(44, 3);
    n.life = 200;
    n.direction = Direction::Right;
    n.tick_n044_polish(&mut state, &mut list);
    assert_eq!(n.action_num, 2);
    assert_eq!(n.anim_num, 1);
    n.flags.hit_bottom_wall = true;
    n.tick_n044_polish(&mut state, &mut list);
    assert_eq!((n.vel_x, n.vel_y), (0x100, -0x100));
    assert_eq!((n.x, n.y), (0x100, -0x100));
    n.shock = 3;
    n.flags.hit_bottom_wall = false;
    n.flags.hit_right_wall = true;
    n.tick_n044_polish(&mut state, &mut list);
    assert_eq!(n.action_num, 3);
    assert_eq!((n.vel_x, n.vel_y), (0x100, -0xe0));
    assert_eq!((n.x, n.y), (0x100 + 0x80, -0x100 - 0x70));
    assert_eq!(alive_count(&list), 0);
}

#[test]
fn young_crawler_draws_its_speed_and_bounces() {
    let state = state();
    let mut n = npc(45, 9);
    n.tick_n045_baby(&state);
    assert_eq!(n.action_num, 2);
    assert_eq!((n.vel_x, n.vel_y), (-433, -429));
    assert_eq!((n.vel_x2, n.vel_y2), (-433, -429));
    assert_eq!((n.x, n.y), (-433, -429));
    assert_eq!(n.anim_num, 1);
    n.flags.hit_left_wall = true;
    n.tick_n045_baby(&state);
    assert_eq!(n.vel_x2, 433);
    assert_eq!(n.vel_x, -433);
    assert_eq!(n.x, 0);
    n.flags.hit_left_wall = false;
    n.shock = 1;
    n.tick_n045_baby(&state);
    assert_eq!(n.x, 216);
    assert_eq!(n.y, -429 * 2 - 214);
}

#[test]
fn beast_in_the_sand_snaps_at_a_player_above_it() {
    let mut state = state();
    let mut ps = players();
    let mut n = npc(47, 1);
    n.x = 0x100000 - 0x400;
    n.y = 0x5000;
    n.npc_flags.shootable = true;
    ps[0].y = 0x5000 + 0x200;
    n.tick_n047_sandcroc(&mut state, &ps);
    assert_eq!(n.action_num, 2);
    assert_eq!(n.target_y, 0x5000);
    assert!(!n.npc_flags.shootable);
    assert_eq!(n.x, 0x100000);
    assert_eq!(state.sound_manager.effects, vec![102]);
    for _ in 0..16 {
        n.tick_n047_sandcroc(&mut state, &ps);
    }
    assert_eq!((n.action_num, n.anim_num, n.damage), (3, 4, 10));
    assert!(n.npc_flags.shootable);
    n.shock = 5;
    n.tick_n047_sandcroc(&mut state, &ps);
    assert_eq!((n.action_num, n.damage), (4, 0));
    assert!(n.npc_flags.solid_soft);
    for _ in 0..32 {
        n.tick_n047_sandcroc(&mut state, &ps);
    }
    assert_eq!(n.action_num, 5);
    assert_eq!(n.y, 0x5000 + 32 * 0x200);
    for _ in 0..101 {
        n.tick_n047_sandcroc(&mut state, &ps);
    }
    assert_eq!((n.action_num, n.y), (0, 0x5000));
    assert_eq!(state.sound_manager.effects, vec![102]);
}

#[test]
fn projectile_of_the_boss_flies_and_breaks() {
    let mut state = state();
    let mut n = npc(123, 5);
    n.direction = Direction::Right;
    n.x = 0x1000;
    n.tick_n123_curly_boss_bullet(&mut state);
    assert_eq!(n.action_num, 1);
    assert_eq!((n.vel_x, n.vel_y), (0x1000, -127));
    assert_eq!(state.sound_manager.effects, vec![32]);
    assert!(state.carets[0].ctype == CaretType::Shoot);
    n.tick_n123_curly_boss_bullet(&mut state);
    assert_eq!((n.x, n.y), (0x2000, -127));
    assert!(n.cond.alive);
    n.flags.hit_right_wall = true;
    n.tick_n123_curly_boss_bullet(&mut state);
    assert!(!n.cond.alive);
    assert_eq!(state.sound_manager.effects, vec![32, 28]);
    assert!(state.carets[1].ctype == CaretType::ProjectileDissipation);
    assert_eq!((state.carets[1].x, state.carets[1].y), (0x3000, -254));
}

#[test]
fn stone_block_slides_and_rumbles() {
    let mut state = state();
    let mut n = npc(124, 1);
    n.tick_n124_sunstone(&mut state);
    assert_eq!((n.action_num, n.x, n.y), (1, 0x1000, 0x1000));
    assert_eq!(state.quake_counter, 0);
    n.action_num = 10;
    n.direction = Direction::Up;
    n.tick_n124_sunstone(&mut state);
    assert_eq!((n.action_num, n.anim_num, n.y), (11, 1, 0x1000 - 0x80));
    assert!(n.npc_flags.ignore_solidity);
    assert_eq!(state.quake_counter, 20);
    assert_eq!(state.sound_manager.effects, vec![26]);
    n.action_counter = 3;
    state.quake_counter = 0;
    n.tick_n124_sunstone(&mut state);
    assert_eq!(state.quake_counter, 20);
    assert_eq!(state.sound_manager.effects, vec![26]);
}

#[test]
fn guards_idle_sleep_and_rage() {
    let mut state = state();
    let mut sleeper = npc(121, 1);
    sleeper.direction = Direction::Right;
    sleeper.x = 5;
    sleeper.y = 6;
    for _ in 0..101 {
        sleeper.tick_n121_colon_b(&mut state);
    }
    assert_eq!(state.carets.len(), 1);
    assert_eq!((state.carets[0].x, state.carets[0].y), (5, 6));
    let mut guard = npc(120, 1);
    guard.direction = Direction::Right;
    state.constants.npc.n120_colon_a[1] = Rect::new(1, 1, 1, 1);
    guard.tick_n120_colon_a(&state);
    assert_eq!(guard.anim_rect, Rect::new(1, 1, 1, 1));

    let ps = players();
    let mut n = npc(122, 0xdead_beef);
    n.action_num = 10;
    n.life = 3;
    n.damage = 9;
    n.x = 0x200000;
    n.tick_n122_colon_enraged(&state, &ps);
    assert_eq!(n.life, 1000);
    assert_eq!(n.damage, 0);
    assert_eq!(n.action_num, 11);
    n.life = 999;
    n.tick_n122_colon_enraged(&state, &ps);
    assert_eq!(n.action_num, 20);
    assert_eq!(n.vel_y, -0x200 + 0x20);
    assert!(n.anim_num == 6 || n.anim_num == 7);
    assert!(!n.npc_flags.shootable);
    n.flags.hit_bottom_wall = true;
    let frame = n.anim_num;
    n.tick_n122_colon_enraged(&state, &ps);
    assert_eq!(n.action_num, 21);
    assert_eq!(n.anim_num, if frame == 6 { 8 } else { 9 });
    assert!(300 <= n.action_counter && n.action_counter <= 400);
}

#[test]
fn companion_faces_the_player_and_walks() {
    let state = state();
    let ps = players();
    let mut n = npc(117, 1);
    n.direction = Direction::FacingPlayer;
    n.x = 0x200000;
    n.tick_n117_curly(&state, &ps);
    assert!(n.direction == Direction::Left);
    assert_eq!(n.action_num, 1);
    n.action_num = 3;
    n.tick_n117_curly(&state, &ps);
    assert_eq!((n.action_num, n.anim_num, n.anim_counter), (4, 1, 1));
    assert_eq!(n.vel_x, -0x200);
    assert_eq!(n.x, 0x200000 - 0x200);
    n.action_num = 5;
    n.tick_n117_curly(&state, &ps);
    assert!(!n.cond.alive);
    assert_eq!(n.action_num, 6);
    let mut m = npc(117, 1);
    m.action_num = 10;
    m.direction = Direction::Right;
    m.x = 0x100000 - 0x1000;
    m.tick_n117_curly(&state, &ps);
    assert_eq!(m.action_num, 0);
    assert_eq!(m.vel_x, 0x200);
}

#[test]
fn people_of_the_story() {
    let state = state();
    let mut ps = players();
    ps[1].cond.alive = false;
    let mut watcher = npc(29, 1);
    watcher.x = 0x100000;
    watcher.y = 0x1000;
    ps[0].y = 0x1000;
    watcher.tick_n029_cthulhu(&state, &ps);
    assert_eq!(watcher.anim_num, 1);
    ps[0].y = 0x1000 + 16 * 0x200;
    watcher.tick_n029_cthulhu(&state, &ps);
    assert_eq!(watcher.anim_num, 0);
    let mut robot = npc(52, 1);
    robot.tick_n052_sitting_blue_robot(&state);
    assert_eq!(robot.action_num, 1);
    let mut kazuma = npc(55, 1);
    kazuma.action_num = 3;
    kazuma.direction = Direction::Right;
    kazuma.tick_n055_kazuma(&state);
    assert_eq!((kazuma.action_num, kazuma.anim_num, kazuma.x), (4, 1, 0x200));
    assert_eq!(kazuma.vel_y, 0x20);
    assert_eq!(kazuma.y, 0);
    let mut typing = npc(62, 7);
    typing.tick_n062_kazuma_computer(&state);
    assert_eq!((typing.x, typing.y), (-0x800, 0x2000));
    assert_eq!(typing.action_num, 1);
    let mut jack = npc(74, 192);
    jack.tick_n074_jack(&state);
    assert_eq!((jack.action_num, jack.anim_num), (2, 1));
    let mut standing = npc(151, 7);
    standing.direction = Direction::Right;
    standing.tick_n151_blue_robot_standing(&state);
    assert_eq!(standing.action_num, 1);
    let mut member = npc(278, 7);
    member.event_num = 210;
    member.vel_y = -0x100;
    member.tick_n278_little_family(&state);
    assert_eq!(member.action_num, 1);
    assert_eq!(member.vel_y, 0);
}
