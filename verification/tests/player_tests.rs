use doukutsu_rs::caret::CaretType;
use doukutsu_rs::common::{Direction, Rect};
use doukutsu_rs::engine_constants::EngineConstants;
use doukutsu_rs::npc::list::NPCList;
use doukutsu_rs::npc::NPCTable;
use doukutsu_rs::player::tick::TickInput;
use doukutsu_rs::player::{
    ControlMode, Player, PlayerAppearance, TargetPlayer, BOOSTER_OFF, BOOSTER_SIDE, BOOSTER_UP,
};
use doukutsu_rs::rng::Xoroshiro32PlusPlus;
use doukutsu_rs::settings::Settings;
use doukutsu_rs::shared_game_state::{Season, SharedGameState};
use doukutsu_rs::text_script::TextScriptExecutionState;

fn settings() -> Settings {
    Settings {
        god_mode: false,
        infinite_booster: false,
        noclip: false,
        music: true,
        sfx: true,
        shader_effects: true,
        original_textures: false,
        seasonal_textures: true,
    }
}

fn state() -> SharedGameState {
    let mut state = SharedGameState::new(
        EngineConstants::with_frames(Rect::new(0, 0, 16, 16)),
        settings(),
        Season::Ordinary,
        NPCTable::new(),
        7,
    );
    state.control_flags.control_enabled = true;
    state
}

fn player(state: &SharedGameState) -> Player {
    let mut p = Player::new(&state.constants);
    p.cond.alive = true;
    p.air = 1000;
    p
}

fn alive_count(list: &NPCList) -> usize {
    list.npcs.iter().filter(|n| n.cond.alive).count()
}

#[test]
fn new_player_takes_its_constants() {
    let state = state();
    let p = Player::new(&state.constants);
    assert_eq!(p.life, 3);
    assert_eq!(p.max_life, 3);
    assert!(p.control_mode == ControlMode::Normal);
    assert!(p.direction == Direction::Right);
    assert!(!p.cond.alive);
    assert_eq!((p.x, p.y, p.vel_x, p.vel_y), (0, 0, 0, 0));
    assert_eq!(p.booster_fuel, 0);
    assert_eq!(p.booster_switch, BOOSTER_OFF);
}

#[test]
fn target_player_index() {
    assert_eq!(TargetPlayer::Player1.index(), 0);
    assert_eq!(TargetPlayer::Player2.index(), 1);
}

#[test]
fn texture_offset_by_appearance_and_mask() {
    let state = state();
    let mut p = player(&state);
    assert_eq!(p.get_texture_offset(), 0);
    p.equip.has_mimiga_mask = true;
    assert_eq!(p.get_texture_offset(), 32);
    p.appearance = PlayerAppearance::Curly;
    assert_eq!(p.get_texture_offset(), 352);
    p.equip.has_mimiga_mask = false;
    p.appearance = PlayerAppearance::HumanQuote;
    assert_eq!(p.get_texture_offset(), 128);
}

#[test]
fn dash_on_the_ground_with_friction() {
    let mut state = state();
    let mut list = NPCList::new();
    let mut p = player(&state);
    p.flags.hit_bottom_wall = true;
    p.direction = Direction::Left;
    p.controller.move_right = true;
    p.tick_normal(&mut state, &mut list);
    assert_eq!(p.vel_x, 0x55 - 0x33);
    assert_eq!(p.vel_y, 0x50);
    assert!(p.direction == Direction::Right);
    assert_eq!(p.x, 0);
    assert_eq!(p.y, 0x50);
    assert_eq!(p.index_x, 0x200);
    assert_eq!(p.target_x, 0x200);
    p.tick_normal(&mut state, &mut list);
    assert_eq!(p.vel_x, 0x22 + 0x55 - 0x33);
    assert_eq!(p.x, 0x44);
}

#[test]
fn friction_stops_a_slow_player() {
    let mut state = state();
    let mut list = NPCList::new();
    let mut p = player(&state);
    p.flags.hit_bottom_wall = true;
    p.vel_x = -0x20;
    p.tick_normal(&mut state, &mut list);
    assert_eq!(p.vel_x, 0);
    p.vel_x = 0x100;
    p.tick_normal(&mut state, &mut list);
    assert_eq!(p.vel_x, 0x100 - 0x33);
    assert_eq!(p.x, 0x100 - 0x33);
}

#[test]
fn jump_from_the_ground() {
    let mut state = state();
    let mut list = NPCList::new();
    let mut p = player(&state);
    p.flags.hit_bottom_wall = true;
    p.controller.trigger_jump = true;
    p.controller.jump = true;
    p.tick_normal(&mut state, &mut list);
    assert_eq!(p.vel_y, -0x500 + 0x20);
    assert_eq!(p.y, -0x4e0);
    assert_eq!(state.sound_manager.effects, vec![15]);
}

#[test]
fn upgraded_booster_thrusts_up_when_no_direction_is_held() {
    let mut state = state();
    let mut list = NPCList::new();
    let mut p = player(&state);
    p.equip.has_booster_2_0 = true;
    p.flags.hit_bottom_wall = true;
    p.controller.trigger_jump = true;
    p.controller.jump = true;
    p.vel_x = 0x40;
    p.tick_normal(&mut state, &mut list);
    assert_eq!(p.booster_fuel, 50);
    assert_eq!(p.booster_switch, BOOSTER_OFF);

    p.flags.hit_bottom_wall = false;
    p.vel_x = 0x123;
    p.tick_normal(&mut state, &mut list);
    assert_eq!(p.booster_switch, BOOSTER_UP);
    assert_eq!(p.vel_x, 0);
    assert_eq!(p.vel_y, state.constants.booster.b2_0_up_nokey);
    assert_eq!(p.vel_y, -0x5ff);
    assert_eq!(p.booster_fuel, 49);
    assert_eq!(state.sound_manager.effects, vec![15, 113]);
    assert_eq!(state.carets.len(), 1);
    assert!(state.carets[0].ctype == CaretType::Exhaust);
    assert!(state.carets[0].direction == Direction::Bottom);
}

#[test]
fn booster_picks_one_sub_mode_by_the_held_direction() {
    for (up, left, right, down, mode, vx, vy) in [
        (true, true, true, true, BOOSTER_UP, 0, -0x5ff),
        (false, true, true, false, BOOSTER_SIDE, -0x5bf, 0),
        (false, false, true, true, BOOSTER_SIDE, 0x5ff, 0),
        (false, false, false, true, 3, 0, 0x5ff),
    ] {
        let mut state = state();
        let mut list = NPCList::new();
        let mut p = player(&state);
        p.equip.has_booster_2_0 = true;
        p.booster_fuel = 10;
        p.controller.trigger_jump = true;
        p.controller.jump = true;
        p.controller.move_up = up;
        p.controller.move_left = left;
        p.controller.move_right = right;
        p.controller.move_down = down;
        p.tick_normal(&mut state, &mut list);
        assert_eq!(p.booster_switch, mode);
        assert!(p.booster_switch <= 3);
        assert_eq!(p.booster_fuel, 9);
        assert_eq!(p.vel_x, vx);
        assert_eq!(p.vel_y, vy);
    }
}

#[test]
fn booster_sub_mode_clears_on_release_and_on_empty_tank() {
    let mut state = state();
    let mut list = NPCList::new();
    let mut p = player(&state);
    p.equip.has_booster_2_0 = true;
    p.booster_fuel = 2;
    p.booster_switch = BOOSTER_UP;
    p.controller.jump = true;
    p.tick_normal(&mut state, &mut list);
    assert_eq!(p.booster_switch, BOOSTER_UP);
    assert_eq!(p.booster_fuel, 1);
    p.tick_normal(&mut state, &mut list);
    assert_eq!(p.booster_switch, BOOSTER_UP);
    assert_eq!(p.booster_fuel, 0);
    p.tick_normal(&mut state, &mut list);
    assert_eq!(p.booster_switch, BOOSTER_OFF);

    let mut p = player(&state);
    p.equip.has_booster_2_0 = true;
    p.booster_fuel = 30;
    p.booster_switch = BOOSTER_UP;
    p.vel_y = -0x5ff;
    p.controller.jump = false;
    p.tick_normal(&mut state, &mut list);
    assert_eq!(p.booster_switch, BOOSTER_OFF);
    assert_eq!(p.booster_fuel, 30);
    assert_eq!(p.vel_y, -767 + 0x50);

    let mut p = player(&state);
    p.equip.has_booster_2_0 = true;
    p.booster_fuel = 30;
    p.booster_switch = BOOSTER_SIDE;
    p.controller.jump = true;
    p.flags.hit_bottom_wall = true;
    p.tick_normal(&mut state, &mut list);
    assert_eq!(p.booster_switch, BOOSTER_OFF);
    assert_eq!(p.booster_fuel, 50);
}

#[test]
fn force_fields_push_before_gravity() {
    let mut state = state();
    let mut list = NPCList::new();
    let mut p = player(&state);
    p.flags.force_left = true;
    p.flags.force_down = true;
    p.tick_normal(&mut state, &mut list);
    assert_eq!(p.vel_x, -0x88);
    assert_eq!(p.vel_y, 0x55 + 0x50);
    assert_eq!(p.x, -0x88);
    let mut p = player(&state);
    p.flags.force_up = true;
    p.flags.force_right = true;
    p.tick_normal(&mut state, &mut list);
    assert_eq!(p.vel_x, 0x88);
    assert_eq!(p.vel_y, -0x80 + 0x20);
}

#[test]
fn speed_is_limited_by_the_medium() {
    let mut state = state();
    let mut list = NPCList::new();
    state.control_flags.control_enabled = false;
    let mut p = player(&state);
    p.vel_x = 0x4000;
    p.vel_y = -0x4000;
    p.tick_normal(&mut state, &mut list);
    assert_eq!(p.vel_x, 0x5ff);
    assert_eq!(p.vel_y, -0x5ff);
    let mut p = player(&state);
    p.flags.in_water = true;
    p.splash = true;
    p.vel_x = -0x4000;
    p.vel_y = 0x4000;
    p.tick_normal(&mut state, &mut list);
    assert_eq!(p.vel_x, -0x2ff);
    assert_eq!(p.vel_y, 0x2ff);
    let mut p = player(&state);
    p.flags.in_water = true;
    p.flags.force_right = true;
    p.splash = true;
    p.vel_x = 0x4000;
    p.tick_normal(&mut state, &mut list);
    assert_eq!(p.vel_x, 0x5ff);
}

#[test]
fn slopes_glue_the_player() {
    let mut state = state();
    let mut list = NPCList::new();
    let mut p = player(&state);
    p.flags.hit_left_slope = true;
    p.vel_x = 0x200;
    p.cond.increase_acceleration = true;
    p.tick_normal(&mut state, &mut list);
    assert_eq!(p.vel_y, 0x200);
    let mut p = player(&state);
    p.flags.hit_right_slope = true;
    p.vel_x = -0x180;
    p.cond.increase_acceleration = true;
    p.tick_normal(&mut state, &mut list);
    assert_eq!(p.vel_y, 0x180);
    let mut p = player(&state);
    p.flags.hit_bottom_wall = true;
    p.flags.hit_left_smaller_half = true;
    p.flags.hit_right_smaller_half = true;
    p.tick_normal(&mut state, &mut list);
    assert_eq!(p.vel_y, 0x400);
}

#[test]
fn interaction_gesture_replaces_the_dash() {
    let mut state = state();
    let mut list = NPCList::new();
    let mut p = player(&state);
    p.flags.hit_bottom_wall = true;
    p.controller.move_down = true;
    p.controller.trigger_down = true;
    p.tick_normal(&mut state, &mut list);
    assert!(p.cond.interacted);
    assert!(p.question);
    assert_eq!(p.vel_x, 0);
    p.controller.trigger_down = false;
    p.tick_normal(&mut state, &mut list);
    assert!(p.cond.interacted);
    assert!(!p.question);
    p.controller.move_down = false;
    p.controller.move_left = true;
    p.tick_normal(&mut state, &mut list);
    assert!(!p.cond.interacted);
    assert!(p.direction == Direction::Left);
}

#[test]
fn air_runs_out_under_water() {
    let mut state = state();
    let mut list = NPCList::new();
    let mut p = player(&state);
    p.flags.in_water = true;
    p.splash = true;
    p.air = 5;
    p.tick_normal(&mut state, &mut list);
    assert_eq!(p.air, 4);
    assert_eq!(p.air_counter, 60);
    p.flags.in_water = false;
    p.tick_normal(&mut state, &mut list);
    assert_eq!(p.air, 1000);
    assert_eq!(p.air_counter, 59);
    p.equip.has_air_tank = true;
    p.flags.in_water = true;
    p.tick_normal(&mut state, &mut list);
    assert_eq!(p.air, 1000);
    assert_eq!(p.air_counter, 0);
}

#[test]
fn drowning_hides_the_player_unless_flag_4000_is_set() {
    let mut state = state();
    let mut list = NPCList::new();
    let mut p = player(&state);
    p.flags.in_water = true;
    p.air = 0;
    p.x = 0x1000;
    p.y = 0x2000;
    p.vel_y = 0x100;
    p.tick_normal(&mut state, &mut list);
    assert!(p.cond.hidden);
    assert_eq!((p.x, p.y, p.vel_y), (0x1000, 0x2000, 0x100));
    assert!(state.textscript_vm.state == TextScriptExecutionState::Running(41, 0));
    assert_eq!(state.carets.len(), 1);
    assert!(state.carets[0].ctype == CaretType::DrownedQuote);
    assert_eq!((state.carets[0].x, state.carets[0].y), (0x1000, 0x2000));

    let mut state = self::state();
    state.game_flags.set(4000, true);
    let mut p = player(&state);
    p.flags.in_water = true;
    p.splash = true;
    p.air = 0;
    p.tick_normal(&mut state, &mut list);
    assert!(!p.cond.hidden);
    assert!(state.textscript_vm.state == TextScriptExecutionState::Running(1100, 0));
    assert!(state.carets.is_empty());
}

#[test]
fn splash_scatters_seven_droplets() {
    let mut state = state();
    state.control_flags.control_enabled = false;
    let mut list = NPCList::new();
    let mut p = player(&state);
    p.flags.in_water = true;
    p.vel_y = 0x300;
    p.x = 0x10000;
    p.y = 0x8000;
    p.tick_normal(&mut state, &mut list);
    assert!(p.splash);
    assert_eq!(p.vel_y, 0x2ff);
    assert_eq!(alive_count(&list), 7);
    assert_eq!(state.sound_manager.effects, vec![56]);
    let first = list.npcs[0x100];
    assert_eq!(first.npc_type, 73);
    assert_eq!(first.id, 0x100);
    assert_eq!(first.x, 0x10000 + 5 * 0x200);
    assert_eq!(first.y, 0x8000);
    assert_eq!(first.vel_x, 323);
    assert_eq!(first.vel_y, -250);
    assert!(first.direction == Direction::Left);
    assert_eq!(first.rng.0, Xoroshiro32PlusPlus::new(754821882).0);
    let second = list.npcs[0x101];
    assert_eq!(second.x, 0x10000 + 4 * 0x200);
    assert_eq!(second.vel_x, -299);
    assert_eq!(second.vel_y, -409);
    assert!(list.npcs[0x106].cond.alive);
    assert!(!list.npcs[0x107].cond.alive);
    p.tick_normal(&mut state, &mut list);
    assert_eq!(alive_count(&list), 7);
    p.flags.in_water = false;
    p.tick_normal(&mut state, &mut list);
    assert!(!p.splash);
}

#[test]
fn spikes_hit_for_ten() {
    let mut state = state();
    let mut list = NPCList::new();
    let mut p = player(&state);
    p.life = 30;
    p.flags.hit_by_spike = true;
    p.tick_normal(&mut state, &mut list);
    assert_eq!(p.life, 20);
    assert_eq!(p.shock_counter, 128);
    assert_eq!(state.sound_manager.effects, vec![16]);
    p.tick_normal(&mut state, &mut list);
    assert_eq!(p.life, 20);
}

#[test]
fn damage_saturates_at_zero() {
    let mut state = state();
    let mut list = NPCList::new();
    let mut p = player(&state);
    p.damage(2, &mut state, &mut list);
    assert_eq!(p.life, 1);
    assert_eq!(p.damage, 2);
    assert_eq!(p.shock_counter, 128);
    assert_eq!(p.vel_y, -0x400);
    assert!(p.cond.alive);
    assert_eq!(state.sound_manager.effects, vec![16]);
    p.shock_counter = 0;
    p.damage(1000, &mut state, &mut list);
    assert_eq!(p.life, 0);
    assert_eq!(p.damage, 1002);
    let mut p = player(&state);
    p.damage(-1, &mut state, &mut list);
    assert_eq!(p.life, 3);
    assert_eq!(p.damage, 0);
    assert_eq!(p.shock_counter, 128);
}

#[test]
fn damage_of_any_magnitude_floors_life_at_zero() {
    for hp in [3, 4, 65535, 65536, 65539, 70000, i32::MAX] {
        let mut state = state();
        let mut list = NPCList::new();
        let mut p = player(&state);
        p.damage = 10;
        p.damage(hp, &mut state, &mut list);
        assert_eq!(p.life, 0);
        assert!(!p.cond.alive);
        assert_eq!(state.sound_manager.effects, vec![16, 17]);
        assert_eq!(alive_count(&list), 64);
        let shown = if hp > 65525 { 65535 } else { 10 + hp as u16 };
        assert_eq!(p.damage, shown);
    }
    let mut state = state();
    let mut list = NPCList::new();
    let mut p = player(&state);
    p.life = 65535;
    p.damage(65536, &mut state, &mut list);
    assert_eq!(p.life, 0);
}

#[test]
fn damage_is_ignored_while_the_shock_runs() {
    let mut state = state();
    let mut list = NPCList::new();
    let mut p = player(&state);
    p.life = 10;
    p.damage(3, &mut state, &mut list);
    let after_first = p;
    p.damage(3, &mut state, &mut list);
    assert_eq!(p.life, 7);
    assert_eq!(p.life, after_first.life);
    assert_eq!(p.damage, 3);
    assert_eq!(state.sound_manager.effects, vec![16]);
    p.tick(&mut state, &mut list);
    assert_eq!(p.shock_counter, 127);
    p.damage(3, &mut state, &mut list);
    assert_eq!(p.life, 7);
}

#[test]
fn damage_is_ignored_in_god_mode() {
    let mut state = state();
    state.settings.god_mode = true;
    let mut list = NPCList::new();
    let mut p = player(&state);
    p.damage(3, &mut state, &mut list);
    assert_eq!(p.life, 3);
    assert_eq!(p.shock_counter, 0);
    assert!(state.sound_manager.effects.is_empty());
}

#[test]
fn shield_charge_is_used_up_by_a_hit() {
    let mut state = state();
    let mut list = NPCList::new();
    let mut p = player(&state);
    p.life = 10;
    p.stars = 2;
    p.damage(1, &mut state, &mut list);
    assert_eq!(p.stars, 2);
    p.shock_counter = 0;
    p.equip.has_whimsical_star = true;
    p.damage(1, &mut state, &mut list);
    assert_eq!(p.stars, 1);
    p.control_mode = ControlMode::IronHead;
    p.shock_counter = 0;
    p.vel_y = 5;
    p.damage(1, &mut state, &mut list);
    assert_eq!(p.vel_y, 5);
    assert_eq!(p.stars, 0);
}

#[test]
fn death_scatters_debris() {
    let mut state = state();
    let mut list = NPCList::new();
    let mut p = player(&state);
    p.x = 0x20000;
    p.y = 0x30000;
    p.cond.interacted = true;
    p.damage(3, &mut state, &mut list);
    assert_eq!(p.life, 0);
    assert!(!p.cond.alive);
    assert!(!p.cond.interacted);
    assert!(state.control_flags.tick_world);
    assert!(state.control_flags.interactions_disabled);
    assert!(state.textscript_vm.state == TextScriptExecutionState::Running(40, 0));
    assert_eq!(state.sound_manager.effects, vec![16, 17]);
    assert_eq!(state.carets.len(), 1);
    assert!(state.carets[0].ctype == CaretType::Explosion);
    assert_eq!(alive_count(&list), 64);
    let first = list.npcs[0x100];
    assert_eq!(first.npc_type, 4);
    assert_eq!((first.x, first.y), (0x20000 - 5 * 0x200, 0x30000 + 8 * 0x200));
    let second = list.npcs[0x101];
    assert_eq!((second.x, second.y), (0x20000 + 0x200, 0x30000 - 10 * 0x200));
    assert!(list.npcs[0x13f].cond.alive);
    assert!(!list.npcs[0x140].cond.alive);
}

#[test]
fn tick_leaves_a_dead_player_alone() {
    let mut state = state();
    let mut list = NPCList::new();
    let mut p = player(&state);
    p.cond.alive = false;
    p.vel_x = 0x300;
    p.shock_counter = 5;
    p.tick(&mut state, &mut list);
    assert_eq!((p.x, p.vel_x, p.shock_counter), (0, 0x300, 5));
}

#[test]
fn tick_runs_timers_and_clears_the_acceleration_request() {
    let mut state = state();
    let mut list = NPCList::new();
    let mut p = player(&state);
    p.shock_counter = 2;
    p.damage_counter = 1;
    p.damage_taken = 4;
    p.cond.increase_acceleration = true;
    p.flags.hit_bottom_wall = true;
    p.vel_x = 0x100;
    p.tick(&mut state, &mut list);
    assert_eq!(p.shock_counter, 1);
    assert_eq!(p.damage_counter, 0);
    assert_eq!(p.damage_taken, 4);
    assert!(!p.cond.increase_acceleration);
    assert_eq!(p.vel_x, 0x100);
    p.tick(&mut state, &mut list);
    p.tick(&mut state, &mut list);
    assert_eq!(p.shock_counter, 0);
    assert_eq!(p.damage_taken, 0);
}

#[test]
fn free_flight_ignores_physics() {
    let mut state = state();
    state.settings.noclip = true;
    let mut list = NPCList::new();
    let mut p = player(&state);
    p.vel_x = 0x500;
    p.vel_y = 0x500;
    p.flags.hit_by_spike = true;
    p.controller.move_right = true;
    p.controller.move_up = true;
    p.controller.look_left = true;
    p.anim_num = 3;
    p.tick(&mut state, &mut list);
    assert_eq!((p.x, p.y), (2000, -2000));
    assert_eq!((p.vel_x, p.vel_y), (0, 0));
    assert_eq!((p.target_x, p.target_y), (2000, -2000));
    assert!(p.direction == Direction::Left);
    assert_eq!(p.life, 3);
    p.controller.jump = true;
    p.controller.move_right = false;
    p.controller.move_up = false;
    p.controller.move_down = true;
    p.controller.move_left = true;
    p.tick_noclip();
    assert_eq!((p.x, p.y), (-2000, 2000));
}

#[test]
fn boss_ride_mode_has_no_physics() {
    let mut state = state();
    let mut list = NPCList::new();
    let mut p = player(&state);
    p.control_mode = ControlMode::IronHead;
    p.vel_x = 0x300;
    p.vel_y = 0x100;
    p.tick(&mut state, &mut list);
    assert_eq!((p.x, p.y, p.vel_x, p.vel_y), (0, 0, 0x300, 0x100));
    p.tick_ironhead(&mut state);
    assert_eq!((p.x, p.y), (0, 0));
}

#[test]
fn walking_animation_sounds_footsteps() {
    let mut state = state();
    state.constants.my_char.animations_right[2] = Rect::new(32, 0, 48, 16);
    let mut p = player(&state);
    p.flags.hit_bottom_wall = true;
    p.controller.move_right = true;
    p.appearance = PlayerAppearance::YellowQuote;
    let mut frames = Vec::new();
    for _ in 0..20 {
        p.tick_animation(&mut state);
        frames.push(p.anim_num);
    }
    assert_eq!(
        frames,
        vec![1, 1, 1, 1, 2, 2, 2, 2, 2, 3, 3, 3, 3, 3, 4, 4, 4, 4, 4, 1]
    );
    assert_eq!(state.sound_manager.effects, vec![24, 24]);
    assert!(p.cond.fallen);
    p.anim_num = 2;
    p.tick_animation(&mut state);
    assert_eq!(p.anim_rect.left, 32);
    assert_eq!(p.anim_rect.top, 64);
    assert_eq!(p.anim_rect.bottom, 16 + 64);
    p.controller.move_right = false;
    p.tick_animation(&mut state);
    assert_eq!(p.anim_num, 0);
    assert!(!p.cond.fallen);
    assert_eq!(state.sound_manager.effects, vec![24, 24, 24]);
}

#[test]
fn poses_in_the_air_and_weapon_rectangle() {
    let mut state = state();
    let mut p = player(&state);
    p.vel_y = 5;
    p.current_weapon = 14;
    p.tick_animation(&mut state);
    assert_eq!(p.anim_num, 1);
    assert_eq!(p.weapon_rect.left, 24);
    assert_eq!(p.weapon_rect.top, 96 + 16 + 1);
    assert_eq!(p.weapon_rect.right, 48);
    assert_eq!(p.weapon_rect.bottom, 96 + 16 + 16);
    assert_eq!(p.weapon_offset_y, 0);
    p.vel_y = -5;
    p.up = true;
    p.direction = Direction::Left;
    p.tick_animation(&mut state);
    assert_eq!(p.anim_num, 3);
    assert_eq!(p.weapon_offset_y, -4);
    assert_eq!(p.weapon_rect.top, 96 + 32 + 1);
    p.controller.look_up = true;
    p.tick_animation(&mut state);
    assert_eq!(p.anim_num, 6);
    p.controller.look_up = false;
    p.controller.look_down = true;
    p.up = false;
    p.down = true;
    p.tick_animation(&mut state);
    assert_eq!(p.anim_num, 10);
    assert_eq!(p.weapon_offset_y, 4);
    assert_eq!(p.weapon_rect.top, 96 + 64);
    p.cond.hidden = true;
    p.controller.look_down = false;
    p.tick_animation(&mut state);
    assert_eq!(p.anim_num, 10);
}

#[test]
fn camera_looks_ahead() {
    let mut state = state();
    let mut list = NPCList::new();
    let mut p = player(&state);
    p.direction = Direction::Left;
    p.index_x = -0x7f00;
    p.controller.look_up = true;
    p.tick_normal(&mut state, &mut list);
    assert_eq!(p.index_x, -0x8000);
    assert_eq!(p.index_y, -0x200);
    p.controller.look_up = false;
    p.index_y = 0x500;
    p.tick_normal(&mut state, &mut list);
    assert_eq!(p.index_y, 0x300);
    p.index_y = 0x8000;
    p.controller.look_down = true;
    let y = p.y;
    p.tick_normal(&mut state, &mut list);
    assert_eq!(p.index_y, 0x8000);
    assert_eq!(p.target_y, y + 0x8000);
}

fn recorded_inputs() -> Vec<TickInput> {
    let state = state();
    let p = player(&state);
    let mut inputs = Vec::new();
    for i in 0..120 {
        let mut controller = p.controller;
        let mut flags = p.flags;
        controller.move_right = i % 7 < 4;
        controller.move_left = i % 11 == 0;
        controller.jump = i % 5 < 3;
        controller.trigger_jump = i % 5 == 0;
        controller.look_up = i % 13 == 0;
        flags.hit_bottom_wall = i % 9 < 2;
        flags.in_water = i % 40 > 30;
        flags.force_up = i % 17 == 0;
        flags.hit_by_spike = i == 60;
        inputs.push(TickInput { controller, flags });
    }
    inputs
}

#[test]
fn replaying_recorded_inputs_gives_the_same_trajectory() {
    let inputs = recorded_inputs();
    let mut finals = Vec::new();
    for _ in 0..2 {
        let mut state = state();
        let mut list = NPCList::new();
        let mut p = player(&state);
        p.equip.has_booster_2_0 = true;
        p.life = 100;
        p.replay(&mut state, &mut list, &inputs);
        finals.push((
            p.x,
            p.y,
            p.vel_x,
            p.vel_y,
            p.life,
            p.booster_fuel,
            p.anim_num,
            state.game_rng.dump_state(),
            state.sound_manager.effects.clone(),
            alive_count(&list),
        ));
    }
    assert_eq!(finals[0], finals[1]);
    assert_eq!(finals[0].4, 90);
}

#[test]
fn replay_is_tick_by_tick() {
    let inputs = recorded_inputs();
    let mut state_a = state();
    let mut list_a = NPCList::new();
    let mut a = player(&state_a);
    a.replay(&mut state_a, &mut list_a, &inputs);
    let mut state_b = state();
    let mut list_b = NPCList::new();
    let mut b = player(&state_b);
    for input in inputs.iter() {
        b.controller = input.controller;
        b.flags = input.flags;
        b.tick(&mut state_b, &mut list_b);
    }
    assert_eq!((a.x, a.y, a.vel_x, a.vel_y), (b.x, b.y, b.vel_x, b.vel_y));
    assert_eq!(state_a.sound_manager.effects, state_b.sound_manager.effects);
}

#[test]
fn hit_stun_flickers_the_player() {
    let state = state();
    let mut p = player(&state);
    assert!(p.visible());
    p.shock_counter = 2;
    assert!(!p.visible());
    p.shock_counter = 3;
    assert!(!p.visible());
    p.shock_counter = 4;
    assert!(p.visible());
    p.cond.hidden = true;
    assert!(!p.visible());
    p.cond.hidden = false;
    p.cond.alive = false;
    assert!(!p.visible());
}
