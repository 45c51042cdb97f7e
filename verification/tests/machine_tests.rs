use doukutsu_rs::bullet::BulletManager;
use doukutsu_rs::caret::CaretType;
use doukutsu_rs::common::{Direction, Rect};
use doukutsu_rs::engine_constants::EngineConstants;
use doukutsu_rs::npc::list::NPCList;
use doukutsu_rs::npc::{NPCTable, NPC};
use doukutsu_rs::player::Player;
use doukutsu_rs::rng::Xoroshiro32PlusPlus;
use doukutsu_rs::settings::Settings;
use doukutsu_rs::shared_game_state::{Season, SharedGameState};
use doukutsu_rs::stage::{Stage, StageMap};

fn state() -> SharedGameState {
    let mut constants = EngineConstants::with_frames(Rect::new(0, 0, 16, 16));
    for (i, rect) in constants.npc.n073_water_droplet.iter_mut().enumerate() {
        *rect = Rect::new(i as u16, 73, i as u16 + 1, 74);
    }
    for (i, rect) in constants.npc.n098_fan_right.iter_mut().enumerate() {
        *rect = Rect::new(i as u16, 98, i as u16 + 1, 99);
    }
    for (i, rect) in constants.npc.n097_fan_up.iter_mut().enumerate() {
        *rect = Rect::new(i as u16, 97, i as u16 + 1, 98);
    }
    constants.npc.n149_horizontal_moving_block = Rect::new(16, 0, 48, 32);
    SharedGameState::new(
        constants,
        Settings {
            god_mode: false,
            infinite_booster: false,
            noclip: false,
            music: true,
            sfx: true,
            shader_effects: true,
            original_textures: false,
            seasonal_textures: true,
        },
        Season::Ordinary,
        NPCTable::new(),
        7,
    )
}

fn players() -> [Player; 2] {
    let constants = EngineConstants::with_frames(Rect::new(0, 0, 0, 0));
    let mut a = Player::new(&constants);
    let mut b = Player::new(&constants);
    a.cond.alive = true;
    b.cond.alive = true;
    b.cond.hidden = true;
    [a, b]
}

fn npc(npc_type: u16, seed: u32) -> NPC {
    let mut n = NPC::empty();
    n.npc_type = npc_type;
    n.cond.alive = true;
    n.rng = Xoroshiro32PlusPlus::new(seed);
    n
}

fn alive_count(list: &NPCList) -> usize {
    list.npcs.iter().filter(|n| n.cond.alive).count()
}

fn stage() -> Stage {
    Stage { map: StageMap { width: 40, height: 30 } }
}

#[test]
fn trigger_follows_the_player_along_one_axis() {
    let mut ps = players();
    ps[0].x = 0x9000;
    ps[0].y = -0x9000;
    let mut n = npc(46, 1);
    n.direction = Direction::Left;
    n.tick_n046_hv_trigger(&ps);
    assert_eq!((n.x, n.y), (0x5ff, 0));
    assert!(n.npc_flags.event_when_touched);
    n.direction = Direction::Right;
    n.tick_n046_hv_trigger(&ps);
    assert_eq!((n.x, n.y), (0x5ff, -0x5ff));
}

#[test]
fn sprinkler_sprays_while_a_player_is_near() {
    let state = state();
    let mut list = NPCList::new();
    let ps = players();
    let mut n = npc(72, 1);
    n.anim_counter = 3;
    n.x = 0x1000;
    n.y = 0x2000;
    n.tick_n072_sprinkler(&state, &ps, &mut list);
    assert_eq!((n.anim_counter, n.anim_num), (0, 0));
    assert_eq!(n.action_counter, 1);
    assert_eq!(alive_count(&list), 1);
    let drop = list.npcs[0x100];
    assert_eq!(drop.npc_type, 73);
    assert_eq!((drop.x, drop.y), (0x1000, 0x2000));
    assert!(drop.direction == Direction::Left);
    n.tick_n072_sprinkler(&state, &ps, &mut list);
    assert_eq!(n.action_counter, 2);
    assert_eq!(alive_count(&list), 3);
    n.tick_n072_sprinkler(&state, &ps, &mut list);
    assert_eq!(n.anim_num, 1);
    assert_eq!(alive_count(&list), 3);
    let mut far = npc(72, 1);
    far.x = 481 * 0x200;
    far.anim_counter = 3;
    far.tick_n072_sprinkler(&state, &ps, &mut list);
    assert_eq!(alive_count(&list), 3);
    let mut off = npc(72, 1);
    off.direction = Direction::Right;
    off.tick_n072_sprinkler(&state, &ps, &mut list);
    assert_eq!(off.anim_counter, 0);
}

#[test]
fn water_droplet_falls_and_ends() {
    let state = state();
    let stage = stage();
    let mut n = npc(73, 6);
    n.direction = Direction::Right;
    n.vel_x = 0x10;
    n.tick_n073_water_droplet(&state, &stage);
    assert_eq!(n.vel_y, 0x20);
    assert_eq!((n.x, n.y), (0x10, 0x20));
    assert_eq!(n.anim_rect, Rect::new(3, 75, 4, 76));
    n.flags.hit_bottom_wall = true;
    for _ in 0..9 {
        n.tick_n073_water_droplet(&state, &stage);
        assert!(n.cond.alive);
    }
    n.tick_n073_water_droplet(&state, &stage);
    assert!(!n.cond.alive);
    let mut low = npc(73, 6);
    low.y = 30 * 16 * 0x200;
    low.tick_n073_water_droplet(&state, &stage);
    assert!(!low.cond.alive);
    let mut edge = npc(73, 6);
    edge.y = 30 * 16 * 0x200 - 0x20;
    edge.tick_n073_water_droplet(&state, &stage);
    assert!(edge.cond.alive);
}

#[test]
fn terminal_wakes_when_a_player_stands_at_it() {
    let mut state = state();
    let mut ps = players();
    let mut n = npc(85, 1);
    n.direction = Direction::Right;
    n.anim_num = 2;
    ps[0].x = 0x2000;
    n.tick_n085_terminal(&mut state, &ps);
    assert_eq!((n.action_num, n.anim_num), (0, 0));
    assert!(state.sound_manager.effects.is_empty());
    ps[0].x = 0x800;
    ps[0].y = -0x800;
    n.tick_n085_terminal(&mut state, &ps);
    assert_eq!(n.action_num, 1);
    assert_eq!(state.sound_manager.effects, vec![43]);
    let mut frames = Vec::new();
    for _ in 0..4 {
        n.tick_n085_terminal(&mut state, &ps);
        frames.push(n.anim_num);
    }
    assert_eq!(frames, vec![1, 2, 1, 2]);
    assert_eq!(state.sound_manager.effects, vec![43]);
}

#[test]
fn fan_blows_a_player_in_its_stream() {
    let state = state();
    let mut list = NPCList::new();
    let mut ps = players();
    let mut n = npc(96, 7);
    n.direction = Direction::Right;
    n.x = 0x20000;
    n.y = 0x8000;
    ps[0].x = 0x20000 - 0x4000;
    ps[0].y = 0x8000 + 0x400;
    ps[1].x = 0x20000 - 0x4000;
    ps[1].y = 0x8000;
    n.tick_n096_fan_left(&state, &mut ps, &mut list);
    assert_eq!(n.action_num, 2);
    assert_eq!(n.anim_num, 1);
    assert_eq!(ps[0].vel_x, 0);
    n.tick_n096_fan_left(&state, &mut ps, &mut list);
    assert_eq!(ps[0].vel_x, -0x88);
    assert!(ps[0].cond.increase_acceleration);
    assert_eq!(ps[1].vel_x, 0);
    assert_eq!((n.anim_num, n.anim_counter), (2, 0));
    assert_eq!(n.anim_rect, Rect::new(2, 98, 3, 99));
    ps[0].y = 0x8000 + 0x1000;
    n.tick_n096_fan_left(&state, &mut ps, &mut list);
    assert_eq!(ps[0].vel_x, -0x88);
    assert_eq!(n.anim_num, 0);
}

#[test]
fn fans_push_along_their_wind() {
    let state = state();
    let mut list = NPCList::new();
    let mut ps = players();
    ps[0].x = 0x20000;
    ps[0].y = 0x8000 - 0x2000;
    ps[1].x = 0x20000 + 0x2000;
    ps[1].y = 0x8000;
    let mut up = npc(97, 7);
    up.action_num = 2;
    up.x = 0x20000;
    up.y = 0x8000;
    up.tick_n097_fan_up(&state, &mut ps, &mut list);
    assert_eq!(ps[0].vel_y, -0x88);
    assert_eq!(ps[1].vel_y, 0);
    assert_eq!(up.anim_rect, Rect::new(1, 97, 2, 98));
    let mut right = up;
    right.npc_type = 98;
    right.tick_n098_fan_right(&state, &mut ps, &mut list);
    assert_eq!(ps[1].vel_x, 0x88);
    assert!(ps[1].cond.increase_acceleration);
    assert_eq!(ps[0].vel_x, 0);
    let mut down = up;
    down.npc_type = 99;
    ps[0].y = 0x8000 + 0x2000;
    down.tick_n099_fan_down(&state, &mut ps, &mut list);
    assert_eq!(ps[0].vel_y, -0x88 - 0x88);
}

#[test]
fn fan_lets_a_wind_particle_go_on_a_draw_of_one() {
    let state = state();
    let mut list = NPCList::new();
    let mut ps = players();
    let mut n = npc(96, 6);
    n.action_num = 2;
    n.x = 0x1000;
    n.y = 0x2000;
    n.tick_n096_fan_left(&state, &mut ps, &mut list);
    assert_eq!(alive_count(&list), 1);
    let particle = list.npcs[0x100];
    assert_eq!(particle.npc_type, 199);
    assert!(particle.direction == Direction::Left);
    assert_eq!((particle.x, particle.y), (0x1000, 0x2000 + 6 * 0x200));
    let mut far = npc(98, 6);
    far.action_num = 2;
    far.x = 0x1000 + 480 * 0x200;
    let stream = far.rng;
    far.tick_n098_fan_right(&state, &mut ps, &mut list);
    assert_eq!(alive_count(&list), 1);
    assert_eq!(far.rng.0, stream.0);
}

#[test]
fn press_falls_and_crashes() {
    let mut state = state();
    let mut list = NPCList::new();
    let mut ps = players();
    ps[1].y = 0x9000;
    let mut n = npc(114, 1);
    n.x = 0x3000;
    n.y = 0x4000;
    n.tick_n114_press(&mut state, &ps, &mut list);
    assert_eq!((n.action_num, n.anim_num), (10, 1));
    assert_eq!(n.y, 0x4000 - 0x800 + 0x20);
    n.tick_n114_press(&mut state, &ps, &mut list);
    assert_eq!(n.damage, 127);
    assert!(!n.npc_flags.solid_hard);
    for _ in 0..5 {
        n.tick_n114_press(&mut state, &ps, &mut list);
    }
    assert_eq!(n.anim_num, 2);
    let (x, y) = (n.x, n.y);
    n.flags.hit_bottom_wall = true;
    n.tick_n114_press(&mut state, &ps, &mut list);
    assert_eq!((n.action_num, n.anim_num, n.damage), (1, 0, 0));
    assert!(n.npc_flags.solid_hard);
    assert_eq!(state.quake_counter, 10);
    assert_eq!(state.sound_manager.effects, vec![26]);
    assert_eq!(alive_count(&list), 4);
    assert_eq!((list.npcs[0x100].x, list.npcs[0x100].y), (x, y));
    assert_eq!((list.npcs[0x100].vel_x, list.npcs[0x100].vel_y), (207, -707));
    n.tick_n114_press(&mut state, &ps, &mut list);
    assert_eq!(n.action_num, 1);
    assert_eq!(alive_count(&list), 4);
}

#[test]
fn block_rushes_at_a_player_who_crosses_its_path() {
    let mut state = state();
    let mut list = NPCList::new();
    let mut ps = players();
    let mut n = npc(149, 1);
    n.tick_n149_horizontal_moving_block(&mut state, &ps, &mut list);
    assert_eq!((n.action_num, n.x, n.y), (10, 0x1000, 0x1000));
    assert!(n.npc_flags.solid_hard);
    assert_eq!(n.anim_num, 149);
    assert_eq!(n.anim_rect, Rect::new(16, 0, 48, 32));
    ps[0].x = 0x1000 - 100 * 0x200;
    ps[0].y = 0x1000 + 30 * 0x200;
    n.tick_n149_horizontal_moving_block(&mut state, &ps, &mut list);
    assert_eq!(n.action_num, 10);
    ps[0].y = 0x1000 + 24 * 0x200;
    n.tick_n149_horizontal_moving_block(&mut state, &ps, &mut list);
    assert_eq!((n.action_num, n.action_counter), (11, 0));
    for _ in 0..5 {
        n.tick_n149_horizontal_moving_block(&mut state, &ps, &mut list);
    }
    assert_eq!(n.vel_x, -0xa0);
    assert!(state.sound_manager.effects.is_empty());
    n.tick_n149_horizontal_moving_block(&mut state, &ps, &mut list);
    assert_eq!(state.sound_manager.effects, vec![107]);
    for _ in 0..20 {
        n.tick_n149_horizontal_moving_block(&mut state, &ps, &mut list);
    }
    assert_eq!(n.vel_x, -0x200);
    ps[0].flags.hit_left_wall = true;
    n.tick_n149_horizontal_moving_block(&mut state, &ps, &mut list);
    assert_eq!(n.damage, 100);
    assert!(n.npc_flags.rear_and_top_not_hurt);
    let (x, y) = (n.x, n.y);
    n.flags.hit_left_wall = true;
    n.tick_n149_horizontal_moving_block(&mut state, &ps, &mut list);
    assert_eq!((n.action_num, n.vel_x), (20, 0));
    assert!(n.direction == Direction::Right);
    assert_eq!(state.quake_counter, 10);
    assert_eq!(*state.sound_manager.effects.last().unwrap(), 26);
    assert_eq!(alive_count(&list), 3);
    assert_eq!(
        (list.npcs[0x100].x, list.npcs[0x100].y),
        (x + 10 * 0x200, y - 3 * 0x200)
    );
    n.tick_n149_horizontal_moving_block(&mut state, &ps, &mut list);
    assert_eq!(n.damage, 0);
    assert!(!n.npc_flags.rear_and_top_not_hurt);
}

#[test]
fn vertical_block_runs_up_and_down() {
    let mut state = state();
    let mut list = NPCList::new();
    let mut ps = players();
    let mut n = npc(157, 1);
    n.direction = Direction::Right;
    n.tick_n157_vertical_moving_block(&mut state, &ps, &mut list);
    assert_eq!(n.action_num, 20);
    ps[0].x = 0x1000;
    ps[0].y = 0x1000 + 200 * 0x200;
    n.tick_n157_vertical_moving_block(&mut state, &ps, &mut list);
    assert_eq!(n.action_num, 21);
    n.tick_n157_vertical_moving_block(&mut state, &ps, &mut list);
    assert_eq!((n.vel_x, n.vel_y), (0, 0x20));
    assert_eq!(n.y, 0x1000 + 0x20);
    n.vel_x = 5;
    n.flags.hit_bottom_wall = true;
    n.tick_n157_vertical_moving_block(&mut state, &ps, &mut list);
    assert_eq!((n.action_num, n.vel_x, n.vel_y), (10, 0, 0x20));
    assert!(n.direction == Direction::Left);
    assert_eq!(alive_count(&list), 3);
}

#[test]
fn wind_particle_flies_and_fades() {
    let state = state();
    let mut n = npc(199, 11);
    n.direction = Direction::Up;
    n.tick_n199_wind_particles(&state);
    assert_eq!(n.action_num, 1);
    assert_eq!(n.anim_num, 2);
    assert_eq!((n.vel_x, n.vel_y), (0, -(7 * 0x200 / 2)));
    assert_eq!((n.x, n.y), (0, -0x700));
    for _ in 0..5 {
        n.tick_n199_wind_particles(&state);
    }
    assert_eq!((n.anim_num, n.anim_counter), (2, 6));
    n.tick_n199_wind_particles(&state);
    assert_eq!((n.anim_num, n.anim_counter), (3, 0));
    n.anim_num = 4;
    n.anim_counter = 6;
    let y = n.y;
    n.tick_n199_wind_particles(&state);
    assert!(!n.cond.alive);
    assert_eq!(n.y, y);
}

#[test]
fn dripping_ceiling_lets_a_drop_go_on_a_draw_of_two() {
    let state = state();
    let mut list = NPCList::new();
    let ps = players();
    let mut n = npc(359, 1);
    n.x = 0x1000;
    n.y = 0x3000;
    n.tick_n359_droplet_generator(&state, &ps, &mut list);
    assert_eq!(alive_count(&list), 1);
    let drop = list.npcs[0x100];
    assert_eq!(drop.npc_type, 73);
    assert!(drop.direction == Direction::Bottom);
    assert_eq!((drop.x, drop.y), (0x1000 - 5 * 0x200, 0x3000 - 7 * 0x200));
    let mut dry = npc(359, 7);
    dry.tick_n359_droplet_generator(&state, &ps, &mut list);
    assert_eq!(alive_count(&list), 1);
}

#[test]
fn hidden_item_breaks_open() {
    let mut state = state();
    let mut list = NPCList::new();
    let mut n = npc(125, 3);
    n.life = 1000;
    n.direction = Direction::Left;
    n.tick_n125_hidden_item(&mut state, &mut list);
    assert!(n.cond.alive);
    assert_eq!(alive_count(&list), 0);
    n.life = 989;
    n.x = 0x1000;
    n.y = 0x2000;
    n.tick_n125_hidden_item(&mut state, &mut list);
    assert!(!n.cond.alive);
    assert_eq!(state.sound_manager.effects, vec![70]);
    assert!(state.carets[0].ctype == CaretType::Explosion);
    assert_eq!(alive_count(&list), 9);
    let prize = list.npcs[0];
    assert_eq!(prize.npc_type, 87);
    assert!(prize.direction == Direction::Right);
    assert_eq!((prize.x, prize.y), (0x1000, 0x2000));
    let mut missile = npc(125, 3);
    missile.life = 0;
    missile.direction = Direction::Right;
    missile.tick_n125_hidden_item(&mut state, &mut list);
    assert_eq!(list.npcs[1].npc_type, 86);
}

#[test]
fn speech_bubbles() {
    let state = state();
    let mut list = NPCList::new();
    let mut high = npc(106, 1);
    high.x = 0x100;
    high.y = 0x2000;
    high.tick_n106_hey_bubble_high(&state, &mut list);
    assert_eq!(high.action_num, 1);
    assert_eq!(alive_count(&list), 1);
    let mut low = list.npcs[0x180];
    assert_eq!(low.npc_type, 105);
    assert_eq!((low.x, low.y), (0x100, 0x2000 - 8 * 0x200));
    high.tick_n106_hey_bubble_high(&state, &mut list);
    assert_eq!(alive_count(&list), 1);
    for _ in 0..4 {
        low.tick_n105_hey_bubble_low(&state);
    }
    assert_eq!(low.y, 0x1000 - 4 * 0x200);
    for _ in 0..26 {
        low.tick_n105_hey_bubble_low(&state);
        assert!(low.cond.alive);
    }
    assert_eq!(low.y, 0x1000 - 4 * 0x200);
    low.tick_n105_hey_bubble_low(&state);
    assert!(!low.cond.alive);
}

#[test]
fn dispatch_picks_the_behaviour_of_the_type() {
    let mut state = state();
    let mut list = NPCList::new();
    let mut ps = players();
    let stage = stage();
    let bullets = BulletManager::new();
    let mut marker = npc(0, 1);
    marker.direction = Direction::Right;
    assert!(marker.tick(&mut state, &mut ps, &mut list, &stage, &bullets).is_none());
    assert_eq!((marker.action_num, marker.y), (1, 0x2000));
    let mut smoke = npc(4, 1);
    let burst = smoke.tick(&mut state, &mut ps, &mut list, &stage, &bullets);
    assert!(burst.is_some());
    assert_eq!(burst.unwrap().angle, 8337);
    let mut door = npc(18, 1);
    door.action_num = 1;
    door.tick(&mut state, &mut ps, &mut list, &stage, &bullets);
    assert_eq!(alive_count(&list), 4);
    let mut fan = npc(98, 7);
    fan.action_num = 2;
    ps[0].x = 0x2000;
    fan.tick(&mut state, &mut ps, &mut list, &stage, &bullets);
    assert_eq!(ps[0].vel_x, 0x88);
    let mut stone = npc(124, 1);
    stone.action_num = 10;
    stone.tick(&mut state, &mut ps, &mut list, &stage, &bullets);
    assert_eq!(state.quake_counter, 20);
}

#[test]
fn dispatch_of_an_unknown_type_does_nothing() {
    let mut state = state();
    let mut list = NPCList::new();
    let mut ps = players();
    let stage = stage();
    let bullets = BulletManager::new();
    for npc_type in [1, 2, 5, 100, 360, 0xffff] {
        let mut n = npc(npc_type, 9);
        n.vel_x = 0x100;
        n.action_counter = 3;
        let before = n;
        assert!(n.tick(&mut state, &mut ps, &mut list, &stage, &bullets).is_none());
        assert_eq!((n.x, n.y, n.action_num, n.action_counter), (0, 0, 0, 3));
        assert_eq!(n.rng.0, before.rng.0);
        assert_eq!(n.anim_rect, before.anim_rect);
    }
    assert_eq!(alive_count(&list), 0);
    assert!(state.sound_manager.effects.is_empty());
    assert!(state.carets.is_empty());
    assert_eq!(ps[0].vel_x, 0);
}
