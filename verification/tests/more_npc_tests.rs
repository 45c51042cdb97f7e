use doukutsu_rs::caret::CaretType;
use doukutsu_rs::common::{Direction, Rect};
use doukutsu_rs::engine_constants::EngineConstants;
use doukutsu_rs::npc::ai::spawn_puffs;
use doukutsu_rs::npc::list::NPCList;
use doukutsu_rs::npc::{NPCTable, NPC};
use doukutsu_rs::rng::Xoroshiro32PlusPlus;
use doukutsu_rs::settings::Settings;
use doukutsu_rs::shared_game_state::{Season, SharedGameState};

fn state() -> SharedGameState {
    let mut constants = EngineConstants::with_frames(Rect::new(0, 0, 16, 16));
    for (i, rect) in constants.npc.n074_jack.iter_mut().enumerate() {
        *rect = Rect::new(i as u16, 74, i as u16 + 1, 75);
    }
    for (i, rect) in constants.npc.n278_little_family.iter_mut().enumerate() {
        *rect = Rect::new(i as u16, 27, i as u16 + 1, 28);
    }
    for (i, rect) in constants.npc.n062_kazuma_computer.iter_mut().enumerate() {
        *rect = Rect::new(i as u16, 62, i as u16 + 1, 63);
    }
    constants.npc.n027_death_trap = Rect::new(27, 0, 28, 1);
    constants.npc.n116_red_petals = Rect::new(116, 0, 117, 1);
    constants.npc.n119_table_chair = Rect::new(119, 0, 120, 1);
    constants.npc.n039_save_sign[0] = Rect::new(39, 0, 40, 1);
    constants.npc.n078_pot[1] = Rect::new(78, 0, 79, 1);
    constants.npc.n037_sign[1] = Rect::new(37, 0, 38, 1);
    SharedGameState::new(
        constants,
        Settings {
            god_mode: false,
            infinite_booster: false,
            noclip: false,
            music: true,
            sfx: true,
            shader_effects: true,
            original_textures: false,
            seasonal_textures: true,
        },
        Season::Ordinary,
        NPCTable::new(),
        7,
    )
}

fn npc(npc_type: u16, seed: u32) -> NPC {
    let mut n = NPC::empty();
    n.npc_type = npc_type;
    n.cond.alive = true;
    n.rng = Xoroshiro32PlusPlus::new(seed);
    n
}

fn alive_count(list: &NPCList) -> usize {
    list.npcs.iter().filter(|n| n.cond.alive).count()
}

#[test]
fn fixtures_with_one_frame() {
    let state = state();
    let mut trap = npc(27, 1);
    trap.tick_n027_death_trap(&state);
    assert_eq!(trap.anim_rect, Rect::new(27, 0, 28, 1));
    assert_eq!(trap.action_num, 1);
    let mut petals = npc(116, 1);
    petals.tick_n116_red_petals(&state);
    assert_eq!(petals.anim_rect, Rect::new(116, 0, 117, 1));
    let mut table = npc(119, 1);
    table.tick_n119_table_chair(&state);
    assert_eq!(table.anim_rect, Rect::new(119, 0, 120, 1));
    let mut sign = npc(39, 1);
    sign.tick_n039_save_sign(&state);
    assert_eq!(sign.anim_rect, Rect::new(39, 0, 40, 1));
    let mut pot = npc(78, 1);
    pot.direction = Direction::Right;
    pot.tick_n078_pot(&state);
    assert_eq!(pot.anim_rect, Rect::new(78, 0, 79, 1));
    let mut turning = npc(37, 1);
    turning.anim_counter = 1;
    turning.tick_n037_sign(&state);
    assert_eq!(turning.anim_num, 1);
    assert_eq!(turning.anim_rect, Rect::new(37, 0, 38, 1));
    let mut facing_up = npc(39, 1);
    facing_up.direction = Direction::Up;
    facing_up.anim_rect = Rect::new(1, 1, 1, 1);
    facing_up.tick_n039_save_sign(&state);
    assert_eq!(facing_up.anim_rect, Rect::new(1, 1, 1, 1));
    assert_eq!(facing_up.action_num, 1);
}

#[test]
fn skull_does_nothing_of_its_own() {
    let state = state();
    let list = NPCList::new();
    let mut skull = npc(49, 1);
    skull.x = 5;
    skull.action_counter = 9;
    skull.tick_n049_skullhead(&state, &list);
    assert_eq!((skull.x, skull.action_counter, skull.action_num), (5, 9, 0));
}

#[test]
fn standing_robot_blinks_on_a_draw_of_zero() {
    let state = state();
    let mut robot = npc(151, 235);
    robot.tick_n151_blue_robot_standing(&state);
    assert_eq!((robot.action_num, robot.anim_num, robot.action_counter), (2, 1, 0));
    for _ in 0..16 {
        robot.tick_n151_blue_robot_standing(&state);
        assert_eq!(robot.action_num, 2);
    }
    robot.tick_n151_blue_robot_standing(&state);
    assert_eq!((robot.action_num, robot.anim_num), (1, 0));
}

#[test]
fn guard_blinks_when_he_faces_left() {
    let mut state = state();
    let mut guard = npc(121, 192);
    guard.direction = Direction::Left;
    guard.tick_n121_colon_b(&mut state);
    assert_eq!((guard.action_num, guard.anim_num), (2, 1));
    for _ in 0..9 {
        guard.tick_n121_colon_b(&mut state);
    }
    assert_eq!((guard.action_num, guard.anim_num), (1, 0));
    assert!(state.carets.is_empty());
}

#[test]
fn engineer_types_and_pauses() {
    let state = state();
    let mut typing = npc(62, 10);
    typing.action_num = 1;
    typing.anim_counter = 2;
    typing.tick_n062_kazuma_computer(&state);
    assert_eq!((typing.action_num, typing.anim_num, typing.action_counter), (2, 1, 0));
    assert_eq!(typing.anim_rect, Rect::new(1, 62, 2, 63));
    for _ in 0..40 {
        typing.tick_n062_kazuma_computer(&state);
        assert_eq!(typing.action_num, 2);
    }
    typing.tick_n062_kazuma_computer(&state);
    assert_eq!((typing.action_num, typing.anim_num, typing.action_counter), (3, 2, 0));
    for _ in 0..81 {
        typing.tick_n062_kazuma_computer(&state);
    }
    assert_eq!((typing.action_num, typing.anim_num), (1, 0));
    let mut steady = npc(62, 7);
    steady.action_num = 1;
    let mut frames = Vec::new();
    for _ in 0..6 {
        steady.tick_n062_kazuma_computer(&state);
        if steady.action_num != 1 {
            break;
        }
        frames.push((steady.anim_num, steady.anim_counter));
    }
    assert_eq!(frames[..3], [(0, 1), (0, 2), (1, 0)]);
}

#[test]
fn engineer_sits() {
    let state = state();
    let mut kazuma = npc(55, 1);
    kazuma.action_num = 5;
    kazuma.vel_y = 0x5f0;
    kazuma.tick_n055_kazuma(&state);
    assert_eq!(kazuma.anim_num, 5);
    assert_eq!(kazuma.vel_y, 0x5ff);
    assert_eq!(kazuma.y, 0);
}

#[test]
fn villager_sets_his_walk_up_once() {
    let state = state();
    let mut jack = npc(74, 1);
    jack.action_num = 8;
    jack.anim_num = 8;
    jack.direction = Direction::Right;
    jack.tick_n074_jack(&state);
    assert_eq!((jack.action_num, jack.anim_num, jack.anim_counter), (9, 2, 1));
    assert_eq!(jack.vel_x, 0x200);
    assert_eq!((jack.x, jack.y), (0x200, 0x40));
    assert_eq!(jack.anim_rect, Rect::new(8, 74, 9, 75));
    let mut entering = npc(74, 1);
    entering.action_num = 8;
    entering.anim_num = 0;
    entering.anim_counter = 3;
    entering.tick_n074_jack(&state);
    assert_eq!((entering.action_num, entering.anim_num, entering.anim_counter), (9, 2, 1));
    assert_eq!(entering.vel_x, -0x200);
    entering.anim_num = 4;
    entering.anim_counter = 3;
    entering.tick_n074_jack(&state);
    assert_eq!((entering.action_num, entering.anim_num, entering.anim_counter), (9, 4, 4));
    entering.tick_n074_jack(&state);
    assert_eq!((entering.action_num, entering.anim_num, entering.anim_counter), (9, 5, 0));
    for _ in 0..5 {
        entering.tick_n074_jack(&state);
    }
    assert_eq!((entering.action_num, entering.anim_num, entering.anim_counter), (9, 2, 0));
}

#[test]
fn little_family_sets_off_and_turns_on_walls() {
    let state = state();
    let mut member = npc(278, 5);
    member.event_num = 200;
    member.tick_n278_little_family(&state);
    assert_eq!((member.action_num, member.anim_num), (10, 1));
    member.tick_n278_little_family(&state);
    assert_eq!(member.action_num, 11);
    assert_eq!(member.action_counter, 9);
    assert!(member.direction == Direction::Left);
    assert_eq!(member.vel_x, -0x100);
    assert_eq!(member.anim_counter, 2);
    member.flags.hit_left_wall = true;
    member.tick_n278_little_family(&state);
    assert!(member.direction == Direction::Right);
    assert_eq!(member.vel_x, 0x100);
    for _ in 0..100 {
        member.tick_n278_little_family(&state);
        assert_eq!(member.action_num, 11);
        assert!(member.anim_counter <= 5);
        assert!(member.anim_num <= 1);
    }
    member.anim_counter = 0x20;
    member.tick_n278_little_family(&state);
    assert_eq!((member.action_num, member.anim_counter), (11, 1));
    let mut other = npc(278, 7);
    other.event_num = 3;
    other.anim_num = 1;
    other.action_num = 2;
    other.tick_n278_little_family(&state);
    assert_eq!(other.anim_rect, Rect::new(5, 27, 6, 28));
}

#[test]
fn death_smoke_is_placed_within_the_width_of_the_entity() {
    let mut state = state();
    let mut list = NPCList::new();
    let mut rng = Xoroshiro32PlusPlus::new(3);
    list.create_death_smoke(0x10000, 0x20000, 4 * 0x200 + 0x1ff, 2, &mut state, &mut rng);
    assert_eq!(alive_count(&list), 2);
    assert_eq!(
        (list.npcs[0x100].x, list.npcs[0x100].y),
        (0x10000 + 2 * 0x200, 0x20000 + 0x200)
    );
    assert_eq!(
        (list.npcs[0x101].x, list.npcs[0x101].y),
        (0x10000 - 4 * 0x200, 0x20000 - 4 * 0x200)
    );
    assert_eq!(state.carets.len(), 1);
    assert!(state.carets[0].ctype == CaretType::Explosion);
    assert_eq!((state.carets[0].x, state.carets[0].y), (0x10000, 0x20000));
    list.create_death_smoke_if(false, 0, 0, 0x800, 5, &mut state, &mut rng);
    assert_eq!(alive_count(&list), 2);
    assert_eq!(state.carets.len(), 1);
    list.create_death_smoke(7, 9, 0, 1, &mut state, &mut rng);
    assert_eq!((list.npcs[0x102].x, list.npcs[0x102].y), (7, 9));
}

#[test]
fn puffs_are_dropped_when_the_arena_is_full() {
    let state = state();
    let mut list = NPCList::new();
    for slot in 0x100..512 {
        list.npcs[slot].cond.alive = true;
        list.npcs[slot].npc_type = 1;
    }
    list.npcs[0x150].cond.alive = false;
    let mut rng = Xoroshiro32PlusPlus::new(1);
    spawn_puffs(0, 0, false, 4, &mut rng, &state, &mut list);
    assert_eq!(list.npcs[0x150].npc_type, 4);
    assert_eq!((list.npcs[0x150].vel_x, list.npcs[0x150].vel_y), (207, -707));
    assert_eq!(list.npcs.iter().filter(|n| n.npc_type == 4).count(), 1);
    assert_eq!(rng.0, Xoroshiro32PlusPlus::new(2930582047).0);
}
