//! The dispatch: an entity's type id picks the one behaviour that ticks it.
//! A type id without a behaviour ticks to no effect.

use vstd::prelude::*;
use crate::bullet::{count_of_weapon, Bullet, BulletManager};
use crate::caret::CaretType;
use crate::common::Direction;
use crate::npc::ai::blocks::block_world;
use crate::npc::ai::characters::{
    blue_robot_act, blue_robot_step, cthulhu_step, curly_act, curly_step, idle_blink, jack_act,
    jack_step, kazuma_computer_ready, kazuma_computer_step, kazuma_step, king_act, king_step,
    sided_index, sitting_robot_step,
};
use crate::npc::ai::machines::{
    dripped, droplet_drips, droplet_generator_step, fan_blown, fan_frame, fan_gusts, fan_particle,
    fan_step, hv_trigger_step, press_frame, press_world, sprinkler_world, terminal_index,
    terminal_step, terminal_wakes, water_droplet_step, wind_particle_shows, wind_particle_step,
};
use crate::npc::ai::misc::{
    broken_robot_step, busted_door_step, chest_closed_world, chest_open_step, computer_step,
    dead_enemy_step, door_world, family_offset, fireplace_step, flickering, flipping, flowers_step,
    forcefield_step, gunsmith_snores, gunsmith_step, gunsmith_y, health_refill_step, hey_bubble,
    hey_bubble_low_step, hidden_item_world, key_step, little_family_act, little_family_step,
    null_step, picked_flowers_step, placed_by_facing, save_point_step, shown_once,
    small_spikes_step, smoke_burst, smoke_index, smoke_step, smoke_thrown, started,
    teleporter_lights_step, teleporter_step, SmokeBurst,
};
use crate::npc::ai::sand_zone::{
    baby_step, colon_a_step, colon_b_snores, colon_b_step, colon_enraged_act,
    colon_enraged_index, colon_enraged_step, curly_boss_bullet_state, curly_boss_bullet_step,
    curly_boss_index, curly_boss_step, polish_index, polish_step, sandcroc_bites, sandcroc_frame,
    sandcroc_step, sunstone_frame, sunstone_rumbles, sunstone_slides, sunstone_step,
};
use crate::npc::ai::{frame_advance, spawned_if, NpcWorld};
use crate::npc::list::NPCList;
use crate::npc::{closest_player, NPC};
use crate::player::Player;
use crate::shared_game_state::SharedGameState;
use crate::stage::Stage;

verus! {

/// The families of behaviours that the dispatch goes through in turn.
#[derive(Clone, Copy, Debug, PartialEq, Eq, Structural)]
pub enum Family {
    Scenery,
    Furniture,
    People,
    Sand,
    Machines,
    Unknown,
}

/// The family that the behaviour of a type id belongs to.
pub open spec fn family_of(npc_type: u16) -> Family {
    match npc_type {
        0 | 3 | 4 | 13 | 14 | 15 | 16 | 17 | 18 | 20 | 21 | 22 | 23 | 27 | 30 | 32 => Family::Scenery,
        34 | 37 | 38 | 39 | 41 | 43 | 70 | 76 | 78 | 105 | 106 | 116 | 119 | 125 | 194 | 211 | 234 | 278 => Family::Furniture,
        29 | 52 | 55 | 61 | 62 | 74 | 117 | 151 => Family::People,
        44 | 45 | 47 | 49 | 118 | 120 | 121 | 122 | 123 | 124 => Family::Sand,
        46 | 72 | 73 | 85 | 96 | 97 | 98 | 99 | 114 | 149 | 157 | 199 | 359 => Family::Machines,
        _ => Family::Unknown,
    }
}

pub(crate) fn family(npc_type: u16) -> (r: Family)
    ensures
        r == family_of(npc_type),
{
    match npc_type {
        0 | 3 | 4 | 13 | 14 | 15 | 16 | 17 | 18 | 20 | 21 | 22 | 23 | 27 | 30 | 32 => Family::Scenery,
        34 | 37 | 38 | 39 | 41 | 43 | 70 | 76 | 78 | 105 | 106 | 116 | 119 | 125 | 194 | 211 | 234 | 278 => Family::Furniture,
        29 | 52 | 55 | 61 | 62 | 74 | 117 | 151 => Family::People,
        44 | 45 | 47 | 49 | 118 | 120 | 121 | 122 | 123 | 124 => Family::Sand,
        46 | 72 | 73 | 85 | 96 | 97 | 98 | 99 | 114 | 149 | 157 | 199 | 359 => Family::Machines,
        _ => Family::Unknown,
    }
}

/// Whether an entity among doors, chests, keys and other fixtures can be ticked.
#[verifier::opaque]
pub open spec fn scenery_ready(w: NpcWorld, players: [Player; 2], bullets: Seq<Bullet>) -> bool {
    match w.npc.npc_type {
        4 => smoke_index(w.npc) < 16,
        14 => frame_advance(w.npc.anim_num, w.npc.anim_counter, 1, 2, 0).0 < 3,
        15 => (w.npc.action_num == 2 && w.npc.anim_counter == 0 ==> w.npc.anim_num < 3),
        23 => (w.npc.anim_counter == 0 ==> w.npc.anim_num < 8),
        _ => true,
    }
}

/// The tick of an entity among doors, chests, keys and other fixtures.
#[verifier::opaque]
pub open spec fn scenery_step(w: NpcWorld, players: [Player; 2], stage: Stage, bullets: Seq<Bullet>)
    -> NpcWorld {
    match w.npc.npc_type {
        0 => NpcWorld { npc: null_step(w.npc), ..w },
        3 => NpcWorld { npc: dead_enemy_step(w.npc), ..w },
        4 => NpcWorld { npc: smoke_step(w.npc, w.state), ..w },
        13 => NpcWorld { npc: forcefield_step(w.npc, w.state), ..w },
        14 => NpcWorld { npc: key_step(w.npc, w.state), ..w },
        15 => chest_closed_world(w),
        16 => NpcWorld { npc: save_point_step(w.npc, w.state), ..w },
        17 => NpcWorld { npc: health_refill_step(w.npc, w.state), ..w },
        18 => door_world(w),
        20 => NpcWorld { npc: computer_step(w.npc, w.state), ..w },
        21 => NpcWorld { npc: chest_open_step(w.npc, w.state), ..w },
        22 => NpcWorld { npc: teleporter_step(w.npc, w.state), ..w },
        23 => NpcWorld { npc: teleporter_lights_step(w.npc, w.state), ..w },
        27 => NpcWorld { npc: shown_once(w.npc, w.state.constants.npc.n027_death_trap), ..w },
        30 => NpcWorld { npc: gunsmith_step(w.npc, w.state), state: w.state.with_caret_if(gunsmith_snores(w.npc), w.npc.x, gunsmith_y(w.npc).wrapping_sub(0x400), CaretType::Zzz, Direction::Left), ..w },
        32 => NpcWorld { npc: flipping(w.npc, w.state.constants.npc.n032_life_capsule), ..w },
        _ => w,
    }
}

/// Whether an entity among furnishings, signs, bubbles and the little family can be ticked.
#[verifier::opaque]
pub open spec fn furniture_ready(w: NpcWorld, players: [Player; 2], bullets: Seq<Bullet>) -> bool {
    match w.npc.npc_type {
        105 => w.npc.anim_num < 2,
        278 => little_family_act(w.npc).anim_num as int + family_offset(w.npc.event_num) < 6,
        _ => true,
    }
}

/// The tick of an entity among furnishings, signs, bubbles and the little family.
#[verifier::opaque]
pub open spec fn furniture_step(w: NpcWorld, players: [Player; 2], stage: Stage, bullets: Seq<Bullet>)
    -> NpcWorld {
    match w.npc.npc_type {
        34 => NpcWorld { npc: placed_by_facing(w.npc, w.state.constants.npc.n034_bed, 0), ..w },
        37 => NpcWorld { npc: flipping(w.npc, w.state.constants.npc.n037_sign), ..w },
        38 => NpcWorld { npc: fireplace_step(w.npc, w.state), ..w },
        39 => NpcWorld { npc: placed_by_facing(w.npc, w.state.constants.npc.n039_save_sign, 0), ..w },
        41 => NpcWorld { npc: busted_door_step(w.npc, w.state), ..w },
        43 => NpcWorld { npc: placed_by_facing(w.npc, w.state.constants.npc.n043_chalkboard, (-0x2000) as i32), ..w },
        70 => NpcWorld { npc: flickering(w.npc, w.state.constants.npc.n070_sparkle), ..w },
        76 => NpcWorld { npc: flowers_step(w.npc), ..w },
        78 => NpcWorld { npc: placed_by_facing(w.npc, w.state.constants.npc.n078_pot, 0), ..w },
        105 => NpcWorld { npc: hey_bubble_low_step(w.npc, w.state), ..w },
        106 => NpcWorld { npc: NPC { action_num: started(w.npc.action_num), ..w.npc }, npcs: spawned_if(w.npcs, w.npc.action_num == 0, 0x180, hey_bubble(w.npc, w.state)), ..w },
        116 => NpcWorld { npc: NPC { anim_rect: w.state.constants.npc.n116_red_petals, ..w.npc }, ..w },
        119 => NpcWorld { npc: NPC { anim_rect: w.state.constants.npc.n119_table_chair, ..w.npc }, ..w },
        125 => hidden_item_world(w),
        194 => NpcWorld { npc: broken_robot_step(w.npc, w.state), ..w },
        211 => NpcWorld { npc: small_spikes_step(w.npc, w.state), ..w },
        234 => NpcWorld { npc: picked_flowers_step(w.npc, w.state), ..w },
        278 => NpcWorld { npc: little_family_step(w.npc, w.state), ..w },
        _ => w,
    }
}

/// Whether an entity among the people of the story can be ticked.
#[verifier::opaque]
pub open spec fn people_ready(w: NpcWorld, players: [Player; 2], bullets: Seq<Bullet>) -> bool {
    match w.npc.npc_type {
        61 => sided_index(king_act(w.npc), 10) < 20,
        62 => kazuma_computer_ready(w.npc),
        74 => sided_index(jack_act(w.npc), 6) < 12,
        117 => sided_index(curly_act(w.npc, players[closest_player(w.npc.x, w.npc.y, players) as int].x), 10) < 20,
        151 => sided_index(blue_robot_act(w.npc), 2) < 4,
        _ => true,
    }
}

/// The tick of an entity among the people of the story.
#[verifier::opaque]
pub open spec fn people_step(w: NpcWorld, players: [Player; 2], stage: Stage, bullets: Seq<Bullet>)
    -> NpcWorld {
    match w.npc.npc_type {
        29 => NpcWorld { npc: cthulhu_step(w.npc, w.state, players), ..w },
        52 => NpcWorld { npc: sitting_robot_step(w.npc, w.state), ..w },
        55 => NpcWorld { npc: kazuma_step(w.npc, w.state), ..w },
        61 => NpcWorld { npc: king_step(w.npc, w.state), ..w },
        62 => NpcWorld { npc: kazuma_computer_step(w.npc, w.state), ..w },
        74 => NpcWorld { npc: jack_step(w.npc, w.state), ..w },
        117 => NpcWorld { npc: curly_step(w.npc, w.state, players), ..w },
        151 => NpcWorld { npc: blue_robot_step(w.npc, w.state), ..w },
        _ => w,
    }
}

/// Whether an entity among the creatures of the sand zone can be ticked.
#[verifier::opaque]
pub open spec fn sand_ready(w: NpcWorld, players: [Player; 2], bullets: Seq<Bullet>) -> bool {
    match w.npc.npc_type {
        44 => polish_index(w.npc) < 6,
        45 => baby_step(w.npc, w.state).anim_num < 3,
        47 => sandcroc_frame(w.npc) < 5,
        118 => curly_boss_index(w.npc, players[closest_player(w.npc.x, w.npc.y, players) as int].x, count_of_weapon(bullets, 6) > 0) < 18,
        121 => (w.npc.direction == Direction::Left ==> idle_blink(w.npc, 120, 10, 8).2 < 3),
        122 => colon_enraged_index(colon_enraged_act(w.npc, players[closest_player(w.npc.x, w.npc.y, players) as int])) < 20,
        123 => w.npc.direction != Direction::FacingPlayer,
        124 => sunstone_frame(w.npc) < 2,
        _ => true,
    }
}

/// The tick of an entity among the creatures of the sand zone.
#[verifier::opaque]
pub open spec fn sand_step(w: NpcWorld, players: [Player; 2], stage: Stage, bullets: Seq<Bullet>)
    -> NpcWorld {
    match w.npc.npc_type {
        44 => polish_step(w),
        45 => NpcWorld { npc: baby_step(w.npc, w.state), ..w },
        47 => NpcWorld { npc: sandcroc_step(w.npc, w.state, players), state: w.state.with_sfx_if((w.npc.action_num == 0 || w.npc.action_num == 1) && sandcroc_bites(w.npc, players[closest_player(w.npc.x, w.npc.y, players) as int]), 102), ..w },
        49 => NpcWorld { npc: w.npc, ..w },
        118 => curly_boss_step(w, players, bullets),
        120 => NpcWorld { npc: colon_a_step(w.npc, w.state), ..w },
        121 => NpcWorld { npc: colon_b_step(w.npc, w.state), state: w.state.with_caret_if(colon_b_snores(w.npc), w.npc.x, w.npc.y, CaretType::Zzz, Direction::Left), ..w },
        122 => NpcWorld { npc: colon_enraged_step(w.npc, w.state, players), ..w },
        123 => NpcWorld { npc: curly_boss_bullet_step(w.npc, w.state), state: curly_boss_bullet_state(w.npc, w.state), ..w },
        124 => NpcWorld { npc: sunstone_step(w.npc, w.state), state: w.state.with_quake_if(sunstone_slides(w.npc), 20).with_sfx_if(sunstone_rumbles(w.npc), 26), ..w },
        _ => w,
    }
}

/// Whether an entity among fans, presses, blocks and what drips and blows can be ticked.
#[verifier::opaque]
pub open spec fn machines_ready(w: NpcWorld, players: [Player; 2], bullets: Seq<Bullet>) -> bool {
    match w.npc.npc_type {
        85 => terminal_index(w.npc) < 6,
        96 => (fan_frame(w.npc).1 == 0 ==> fan_frame(w.npc).0 < 3),
        97 => (fan_frame(w.npc).1 == 0 ==> fan_frame(w.npc).0 < 3),
        98 => (fan_frame(w.npc).1 == 0 ==> fan_frame(w.npc).0 < 3),
        99 => (fan_frame(w.npc).1 == 0 ==> fan_frame(w.npc).0 < 3),
        114 => press_frame(w.npc) < 3,
        199 => (wind_particle_shows(w.npc) matches Some(frame) ==> frame < 5),
        _ => true,
    }
}

/// The tick of an entity among fans, presses, blocks and what drips and blows.
#[verifier::opaque]
pub open spec fn machines_step(w: NpcWorld, players: [Player; 2], stage: Stage, bullets: Seq<Bullet>)
    -> NpcWorld {
    match w.npc.npc_type {
        46 => NpcWorld { npc: hv_trigger_step(w.npc, players), ..w },
        72 => sprinkler_world(w, players),
        73 => NpcWorld { npc: water_droplet_step(w.npc, w.state, stage), ..w },
        85 => NpcWorld { npc: terminal_step(w.npc, w.state, players), state: w.state.with_sfx_if(terminal_wakes(w.npc, players), 43), ..w },
        96 => NpcWorld { npc: fan_step(w.npc, Direction::Left, w.state, players), npcs: spawned_if(w.npcs, fan_gusts(w.npc, players), 0x100, fan_particle(w.npc, Direction::Left, w.state)), ..w },
        97 => NpcWorld { npc: fan_step(w.npc, Direction::Up, w.state, players), npcs: spawned_if(w.npcs, fan_gusts(w.npc, players), 0x100, fan_particle(w.npc, Direction::Up, w.state)), ..w },
        98 => NpcWorld { npc: fan_step(w.npc, Direction::Right, w.state, players), npcs: spawned_if(w.npcs, fan_gusts(w.npc, players), 0x100, fan_particle(w.npc, Direction::Right, w.state)), ..w },
        99 => NpcWorld { npc: fan_step(w.npc, Direction::Bottom, w.state, players), npcs: spawned_if(w.npcs, fan_gusts(w.npc, players), 0x100, fan_particle(w.npc, Direction::Bottom, w.state)), ..w },
        114 => press_world(w, players),
        149 => block_world(w, players, false),
        157 => block_world(w, players, true),
        199 => NpcWorld { npc: wind_particle_step(w.npc, w.state), ..w },
        359 => NpcWorld { npc: droplet_generator_step(w.npc, players), npcs: spawned_if(w.npcs, droplet_drips(w.npc, players), 0x100, dripped(w.npc, w.state)), ..w },
        _ => w,
    }
}

/// Whether the entity can be ticked: the frame that its behaviour is about
/// to show exists in the frame table of its type, and a projectile has a
/// facing to fly along. Behaviours that always show an existing frame ask
/// for nothing.
pub open spec fn ready(w: NpcWorld, players: [Player; 2], bullets: Seq<Bullet>) -> bool {
    match family_of(w.npc.npc_type) {
        Family::Scenery => scenery_ready(w, players, bullets),
        Family::Furniture => furniture_ready(w, players, bullets),
        Family::People => people_ready(w, players, bullets),
        Family::Sand => sand_ready(w, players, bullets),
        Family::Machines => machines_ready(w, players, bullets),
        Family::Unknown => true,
    }
}

/// The entity and its surroundings after the tick of the behaviour that
/// its type id picks. A type id without a behaviour changes nothing.
pub open spec fn entity_step(w: NpcWorld, players: [Player; 2], stage: Stage, bullets: Seq<Bullet>)
    -> NpcWorld {
    match family_of(w.npc.npc_type) {
        Family::Scenery => scenery_step(w, players, stage, bullets),
        Family::Furniture => furniture_step(w, players, stage, bullets),
        Family::People => people_step(w, players, stage, bullets),
        Family::Sand => sand_step(w, players, stage, bullets),
        Family::Machines => machines_step(w, players, stage, bullets),
        Family::Unknown => w,
    }
}

/// A player after the entity had its tick: only the fans touch a player.
pub open spec fn entity_blown(n: NPC, p: Player) -> Player {
    match n.npc_type {
        96 => fan_blown(n, Direction::Left, p),
        97 => fan_blown(n, Direction::Up, p),
        98 => fan_blown(n, Direction::Right, p),
        99 => fan_blown(n, Direction::Bottom, p),
        _ => p,
    }
}

/// What the tick hands back: the draws of a throw where a puff of smoke is
/// thrown.
pub open spec fn entity_burst(n: NPC) -> Option<SmokeBurst> {
    if n.npc_type == 4 && smoke_thrown(n) {
        Some(smoke_burst(n))
    } else {
        None
    }
}

impl NPC {
    /// Ticks an entity whose behaviour is among doors, chests, keys and other fixtures.
    fn tick_scenery(
        &mut self,
        state: &mut SharedGameState,
        players: &mut [Player; 2],
        npc_list: &mut NPCList,
        stage: &Stage,
        bullet_manager: &BulletManager,
    ) -> (burst: Option<SmokeBurst>)
        requires
            old(npc_list).wf(),
            family_of(old(self).npc_type) == Family::Scenery,
            ready(
                NpcWorld { npc: *old(self), state: old(state)@, npcs: old(npc_list)@ },
                *old(players),
                bullet_manager@,
            ),
        ensures
            final(npc_list).wf(),
            (NpcWorld { npc: *final(self), state: final(state)@, npcs: final(npc_list)@ })
                == entity_step(
                NpcWorld { npc: *old(self), state: old(state)@, npcs: old(npc_list)@ },
                *old(players),
                *stage,
                bullet_manager@,
            ),
            final(players)[0] == entity_blown(*old(self), old(players)[0]),
            final(players)[1] == entity_blown(*old(self), old(players)[1]),
            burst == entity_burst(*old(self)),
            final(state)@.constants == old(state)@.constants,
    {
        proof {
            reveal(scenery_ready);
            reveal(scenery_step);
        }
        match self.npc_type {
            0 => {
                self.tick_n000_null();
                return None;
            },
            3 => {
                self.tick_n003_dead_enemy();
                return None;
            },
            4 => {
                return self.tick_n004_smoke(state);
            },
            13 => {
                self.tick_n013_forcefield(state);
                return None;
            },
            14 => {
                self.tick_n014_key(state);
                return None;
            },
            15 => {
                self.tick_n015_chest_closed(state, npc_list);
                return None;
            },
            16 => {
                self.tick_n016_save_point(state);
                return None;
            },
            17 => {
                self.tick_n017_health_refill(state);
                return None;
            },
            18 => {
                self.tick_n018_door(state, npc_list);
                return None;
            },
            20 => {
                self.tick_n020_computer(state);
                return None;
            },
            21 => {
                self.tick_n021_chest_open(state);
                return None;
            },
            22 => {
                self.tick_n022_teleporter(state);
                return None;
            },
            23 => {
                self.tick_n023_teleporter_lights(state);
                return None;
            },
            27 => {
                self.tick_n027_death_trap(state);
                return None;
            },
            30 => {
                self.tick_n030_gunsmith(state);
                return None;
            },
            32 => {
                self.tick_n032_life_capsule(state);
                return None;
            },
            _ => {
                return None;
            },
        }
    }

    /// Ticks an entity whose behaviour is among furnishings, signs, bubbles and the little family.
    fn tick_furniture(
        &mut self,
        state: &mut SharedGameState,
        players: &mut [Player; 2],
        npc_list: &mut NPCList,
        stage: &Stage,
        bullet_manager: &BulletManager,
    ) -> (burst: Option<SmokeBurst>)
        requires
            old(npc_list).wf(),
            family_of(old(self).npc_type) == Family::Furniture,
            ready(
                NpcWorld { npc: *old(self), state: old(state)@, npcs: old(npc_list)@ },
                *old(players),
                bullet_manager@,
            ),
        ensures
            final(npc_list).wf(),
            (NpcWorld { npc: *final(self), state: final(state)@, npcs: final(npc_list)@ })
                == entity_step(
                NpcWorld { npc: *old(self), state: old(state)@, npcs: old(npc_list)@ },
                *old(players),
                *stage,
                bullet_manager@,
            ),
            final(players)[0] == entity_blown(*old(self), old(players)[0]),
            final(players)[1] == entity_blown(*old(self), old(players)[1]),
            burst == entity_burst(*old(self)),
            final(state)@.constants == old(state)@.constants,
    {
        proof {
            reveal(furniture_ready);
            reveal(furniture_step);
        }
        match self.npc_type {
            34 => {
                self.tick_n034_bed(state);
                return None;
            },
            37 => {
                self.tick_n037_sign(state);
                return None;
            },
            38 => {
                self.tick_n038_fireplace(state);
                return None;
            },
            39 => {
                self.tick_n039_save_sign(state);
                return None;
            },
            41 => {
                self.tick_n041_busted_door(state);
                return None;
            },
            43 => {
                self.tick_n043_chalkboard(state);
                return None;
            },
            70 => {
                self.tick_n070_sparkle(state);
                return None;
            },
            76 => {
                self.tick_n076_flowers();
                return None;
            },
            78 => {
                self.tick_n078_pot(state);
                return None;
            },
            105 => {
                self.tick_n105_hey_bubble_low(state);
                return None;
            },
            106 => {
                self.tick_n106_hey_bubble_high(state, npc_list);
                return None;
            },
            116 => {
                self.tick_n116_red_petals(state);
                return None;
            },
            119 => {
                self.tick_n119_table_chair(state);
                return None;
            },
            125 => {
                self.tick_n125_hidden_item(state, npc_list);
                return None;
            },
            194 => {
                self.tick_n194_broken_blue_robot(state);
                return None;
            },
            211 => {
                self.tick_n211_small_spikes(state);
                return None;
            },
            234 => {
                self.tick_n234_red_flowers_picked(state);
                return None;
            },
            278 => {
                self.tick_n278_little_family(state);
                return None;
            },
            _ => {
                return None;
            },
        }
    }

    /// Ticks an entity whose behaviour is among the people of the story.
    fn tick_people(
        &mut self,
        state: &mut SharedGameState,
        players: &mut [Player; 2],
        npc_list: &mut NPCList,
        stage: &Stage,
        bullet_manager: &BulletManager,
    ) -> (burst: Option<SmokeBurst>)
        requires
            old(npc_list).wf(),
            family_of(old(self).npc_type) == Family::People,
            ready(
                NpcWorld { npc: *old(self), state: old(state)@, npcs: old(npc_list)@ },
                *old(players),
                bullet_manager@,
            ),
        ensures
            final(npc_list).wf(),
            (NpcWorld { npc: *final(self), state: final(state)@, npcs: final(npc_list)@ })
                == entity_step(
                NpcWorld { npc: *old(self), state: old(state)@, npcs: old(npc_list)@ },
                *old(players),
                *stage,
                bullet_manager@,
            ),
            final(players)[0] == entity_blown(*old(self), old(players)[0]),
            final(players)[1] == entity_blown(*old(self), old(players)[1]),
            burst == entity_burst(*old(self)),
            final(state)@.constants == old(state)@.constants,
    {
        proof {
            reveal(people_ready);
            reveal(people_step);
        }
        match self.npc_type {
            29 => {
                self.tick_n029_cthulhu(state, players);
                return None;
            },
            52 => {
                self.tick_n052_sitting_blue_robot(state);
                return None;
            },
            55 => {
                self.tick_n055_kazuma(state);
                return None;
            },
            61 => {
                self.tick_n061_king(state);
                return None;
            },
            62 => {
                self.tick_n062_kazuma_computer(state);
                return None;
            },
            74 => {
                self.tick_n074_jack(state);
                return None;
            },
            117 => {
                self.tick_n117_curly(state, players);
                return None;
            },
            151 => {
                self.tick_n151_blue_robot_standing(state);
                return None;
            },
            _ => {
                return None;
            },
        }
    }

    /// Ticks an entity whose behaviour is among the creatures of the sand zone.
    fn tick_sand(
        &mut self,
        state: &mut SharedGameState,
        players: &mut [Player; 2],
        npc_list: &mut NPCList,
        stage: &Stage,
        bullet_manager: &BulletManager,
    ) -> (burst: Option<SmokeBurst>)
        requires
            old(npc_list).wf(),
            family_of(old(self).npc_type) == Family::Sand,
            ready(
                NpcWorld { npc: *old(self), state: old(state)@, npcs: old(npc_list)@ },
                *old(players),
                bullet_manager@,
            ),
        ensures
            final(npc_list).wf(),
            (NpcWorld { npc: *final(self), state: final(state)@, npcs: final(npc_list)@ })
                == entity_step(
                NpcWorld { npc: *old(self), state: old(state)@, npcs: old(npc_list)@ },
                *old(players),
                *stage,
                bullet_manager@,
            ),
            final(players)[0] == entity_blown(*old(self), old(players)[0]),
            final(players)[1] == entity_blown(*old(self), old(players)[1]),
            burst == entity_burst(*old(self)),
            final(state)@.constants == old(state)@.constants,
    {
        proof {
            reveal(sand_ready);
            reveal(sand_step);
        }
        match self.npc_type {
            44 => {
                self.tick_n044_polish(state, npc_list);
                return None;
            },
            45 => {
                self.tick_n045_baby(state);
                return None;
            },
            47 => {
                self.tick_n047_sandcroc(state, players);
                return None;
            },
            49 => {
                self.tick_n049_skullhead(state, npc_list);
                return None;
            },
            118 => {
                self.tick_n118_curly_boss(state, players, npc_list, bullet_manager);
                return None;
            },
            120 => {
                self.tick_n120_colon_a(state);
                return None;
            },
            121 => {
                self.tick_n121_colon_b(state);
                return None;
            },
            122 => {
                self.tick_n122_colon_enraged(state, players);
                return None;
            },
            123 => {
                self.tick_n123_curly_boss_bullet(state);
                return None;
            },
            124 => {
                self.tick_n124_sunstone(state);
                return None;
            },
            _ => {
                return None;
            },
        }
    }

    /// Ticks an entity whose behaviour is among fans, presses, blocks and what drips and blows.
    fn tick_machines(
        &mut self,
        state: &mut SharedGameState,
        players: &mut [Player; 2],
        npc_list: &mut NPCList,
        stage: &Stage,
        bullet_manager: &BulletManager,
    ) -> (burst: Option<SmokeBurst>)
        requires
            old(npc_list).wf(),
            family_of(old(self).npc_type) == Family::Machines,
            ready(
                NpcWorld { npc: *old(self), state: old(state)@, npcs: old(npc_list)@ },
                *old(players),
                bullet_manager@,
            ),
        ensures
            final(npc_list).wf(),
            (NpcWorld { npc: *final(self), state: final(state)@, npcs: final(npc_list)@ })
                == entity_step(
                NpcWorld { npc: *old(self), state: old(state)@, npcs: old(npc_list)@ },
                *old(players),
                *stage,
                bullet_manager@,
            ),
            final(players)[0] == entity_blown(*old(self), old(players)[0]),
            final(players)[1] == entity_blown(*old(self), old(players)[1]),
            burst == entity_burst(*old(self)),
            final(state)@.constants == old(state)@.constants,
    {
        proof {
            reveal(machines_ready);
            reveal(machines_step);
        }
        match self.npc_type {
            46 => {
                self.tick_n046_hv_trigger(players);
                return None;
            },
            72 => {
                self.tick_n072_sprinkler(state, players, npc_list);
                return None;
            },
            73 => {
                self.tick_n073_water_droplet(state, stage);
                return None;
            },
            85 => {
                self.tick_n085_terminal(state, players);
                return None;
            },
            96 => {
                self.tick_n096_fan_left(state, players, npc_list);
                return None;
            },
            97 => {
                self.tick_n097_fan_up(state, players, npc_list);
                return None;
            },
            98 => {
                self.tick_n098_fan_right(state, players, npc_list);
                return None;
            },
            99 => {
                self.tick_n099_fan_down(state, players, npc_list);
                return None;
            },
            114 => {
                self.tick_n114_press(state, players, npc_list);
                return None;
            },
            149 => {
                self.tick_n149_horizontal_moving_block(state, players, npc_list);
                return None;
            },
            157 => {
                self.tick_n157_vertical_moving_block(state, players, npc_list);
                return None;
            },
            199 => {
                self.tick_n199_wind_particles(state);
                return None;
            },
            359 => {
                self.tick_n359_droplet_generator(state, players, npc_list);
                return None;
            },
            _ => {
                return None;
            },
        }
    }

    /// Ticks the entity by the behaviour of its type.
    pub fn tick(
        &mut self,
        state: &mut SharedGameState,
        players: &mut [Player; 2],
        npc_list: &mut NPCList,
        stage: &Stage,
        bullet_manager: &BulletManager,
    ) -> (burst: Option<SmokeBurst>)
        requires
            old(npc_list).wf(),
            ready(
                NpcWorld { npc: *old(self), state: old(state)@, npcs: old(npc_list)@ },
                *old(players),
                bullet_manager@,
            ),
        ensures
            final(npc_list).wf(),
            (NpcWorld { npc: *final(self), state: final(state)@, npcs: final(npc_list)@ })
                == entity_step(
                NpcWorld { npc: *old(self), state: old(state)@, npcs: old(npc_list)@ },
                *old(players),
                *stage,
                bullet_manager@,
            ),
            final(players)[0] == entity_blown(*old(self), old(players)[0]),
            final(players)[1] == entity_blown(*old(self), old(players)[1]),
            burst == entity_burst(*old(self)),
            final(state)@.constants == old(state)@.constants,
    {
        match family(self.npc_type) {
            Family::Scenery => self.tick_scenery(state, players, npc_list, stage, bullet_manager),
            Family::Furniture => self.tick_furniture(state, players, npc_list, stage, bullet_manager),
            Family::People => self.tick_people(state, players, npc_list, stage, bullet_manager),
            Family::Sand => self.tick_sand(state, players, npc_list, stage, bullet_manager),
            Family::Machines => self.tick_machines(state, players, npc_list, stage, bullet_manager),
            Family::Unknown => None,
        }
    }
}

/// A type id without a behaviour can always be ticked, and its tick changes
/// nothing: not the entity, not the shared state, not the arena, not a
/// player.
pub proof fn lemma_unknown_type_is_inert(
    w: NpcWorld,
    players: [Player; 2],
    stage: Stage,
    bullets: Seq<Bullet>,
)
    requires
        family_of(w.npc.npc_type) == Family::Unknown,
    ensures
        ready(w, players, bullets),
        entity_step(w, players, stage, bullets) == w,
        entity_blown(w.npc, players[0]) == players[0],
        entity_blown(w.npc, players[1]) == players[1],
        entity_burst(w.npc).is_none(),
{
}

} // verus!
