//! The player's tick under normal control: air supply, steering on the
//! ground and in the air, the booster, jumps, force fields, gravity, slopes,
//! the speed limit, the splash of entering water, spikes, the camera and at
//! last the step itself. The terms apply in exactly this order.

use vstd::prelude::*;
use crate::caret::CaretType;
use crate::common::{Condition, Direction};
use crate::engine_constants::{EngineConstants, PhysicsConsts};
use crate::fix9::{clamp, clamp_spec, div_trunc, half, neg, neg_spec};
use crate::flags::flag_is_set;
use crate::npc::list::{spawned, NPCList};
use crate::npc::{blank_npc, NPC};
use crate::player::{Player, BOOSTER_DOWN, BOOSTER_OFF, BOOSTER_SIDE, BOOSTER_UP};
use crate::rng::{sample_in, XorShift, RNG};
use crate::shared_game_state::{SharedGameState, SharedGameStateView};

verus! {

/// A player together with what its tick may change around it.
pub struct PlayerWorld {
    pub player: Player,
    pub state: SharedGameStateView,
    pub npcs: Seq<NPC>,
}

/// The physics table of the medium the player is in.
pub open spec fn physics_of(p: Player, c: EngineConstants) -> PhysicsConsts {
    if p.flags.in_water {
        c.my_char.water_physics
    } else {
        c.my_char.air_physics
    }
}

/// Whether the air supply runs: the player is steered and may interact.
pub open spec fn breathes(s: SharedGameStateView) -> bool {
    !s.control_flags.interactions_disabled && s.control_flags.control_enabled
}

/// Whether the player is under water without a tank or protection.
pub open spec fn holds_breath(p: Player, s: SharedGameStateView) -> bool {
    breathes(s) && !p.equip.has_air_tank && !s.settings.god_mode && p.flags.in_water
}

/// The player after the air supply was accounted for. Out of the water, or
/// with a tank, the supply is full; under water it shrinks by one unit per
/// tick, and a player whose supply is gone drowns (is hidden) unless game
/// flag 4000 is on.
pub open spec fn air_supply(p: Player, s: SharedGameStateView) -> Player {
    let under = holds_breath(p, s);
    let restores = breathes(s) && !under;
    Player {
        air: if restores {
            1000
        } else if under && p.air > 0 {
            (p.air - 1) as u16
        } else {
            p.air
        },
        air_counter: if under {
            60
        } else if breathes(s) && p.equip.has_air_tank {
            0
        } else if restores && p.air_counter > 0 {
            (p.air_counter - 1) as u16
        } else {
            p.air_counter
        },
        cond: Condition {
            hidden: p.cond.hidden || (under && p.air == 0 && !flag_is_set(s.game_flags, 4000)),
            ..p.cond
        },
        ..p
    }
}

/// Whether the air supply ran out this tick.
pub open spec fn out_of_air(p: Player, s: SharedGameStateView) -> bool {
    holds_breath(p, s) && p.air == 0
}

/// What running out of air asks of the shared state: script event 1100
/// where game flag 4000 is on, else the drowning effect and script event 41.
pub open spec fn air_supply_state(p: Player, s: SharedGameStateView) -> SharedGameStateView {
    let rescued = out_of_air(p, s) && flag_is_set(s.game_flags, 4000);
    let drowns = out_of_air(p, s) && !flag_is_set(s.game_flags, 4000);
    s.with_script_if(rescued, 1100).with_caret_if(
        drowns,
        p.x,
        p.y,
        CaretType::DrownedQuote,
        p.direction,
    ).with_script_if(drowns, 41)
}

/// Passive deceleration on the ground: the speed drops by `resist` toward
/// zero and stops at zero.
pub open spec fn friction(v: i32, resist: i32) -> i32 {
    let a = if v < 0 {
        if v > neg_spec(resist) {
            0
        } else {
            v.wrapping_add(resist)
        }
    } else {
        v
    };
    if a > 0 {
        if a < resist {
            0
        } else {
            a.wrapping_sub(resist)
        }
    } else {
        a
    }
}

/// Fuel that touching the ground leaves in the booster.
pub open spec fn refuelled(p: Player, s: SharedGameStateView) -> u32 {
    if s.settings.infinite_booster {
        u32::MAX
    } else if p.equip.has_booster_0_8 || p.equip.has_booster_2_0 {
        s.constants.booster.fuel
    } else {
        0
    }
}

/// The interaction gesture: down alone, held and newly held, by a steered
/// player who may interact and is not interacting yet.
pub open spec fn gestures(p: Player, s: SharedGameStateView) -> bool {
    s.control_flags.control_enabled && p.controller.trigger_only_down()
        && p.controller.only_down() && !p.cond.interacted
        && !s.control_flags.interactions_disabled
}

/// Horizontal speed after steering on the ground: unless the gesture is
/// made, held left and right accelerate up to the dash limit; then friction
/// applies unless a force field asked for acceleration.
pub open spec fn ground_speed(p: Player, s: SharedGameStateView) -> i32 {
    let physics = physics_of(p, s.constants);
    let c = p.controller;
    let walks = s.control_flags.control_enabled && !gestures(p, s);
    let v1 = if walks && c.move_left && p.vel_x > neg_spec(physics.max_dash) {
        p.vel_x.wrapping_sub(physics.dash_ground)
    } else {
        p.vel_x
    };
    let v2 = if walks && c.move_right && v1 < physics.max_dash {
        v1.wrapping_add(physics.dash_ground)
    } else {
        v1
    };
    if p.cond.increase_acceleration {
        v2
    } else {
        friction(v2, physics.resist)
    }
}

/// Facing after steering on the ground: toward the held direction, right
/// before left, unless the gesture is made.
pub open spec fn ground_facing(p: Player, s: SharedGameStateView) -> Direction {
    let walks = s.control_flags.control_enabled && !gestures(p, s);
    if walks && p.controller.move_right {
        Direction::Right
    } else if walks && p.controller.move_left {
        Direction::Left
    } else {
        p.direction
    }
}

/// Whether a jump press ignites a booster: the player is steered, jump
/// became held and fuel remains.
pub open spec fn ignites(p: Player, s: SharedGameStateView) -> bool {
    s.control_flags.control_enabled && p.controller.trigger_jump && p.booster_fuel != 0
}

/// Whether a jump press ignites the directional booster.
pub open spec fn ignites_directional(p: Player, s: SharedGameStateView) -> bool {
    ignites(p, s) && !p.equip.has_booster_0_8 && (s.settings.infinite_booster
        || p.equip.has_booster_2_0)
}

/// Sub-mode, horizontal and vertical speed right after a possible ignition.
/// The directional booster picks its sub-mode from the held direction, up
/// before left before right before down and up again where none is held, sets
/// the speed along the thrust to the thrust constant and clears the other.
pub open spec fn ignition(p: Player, s: SharedGameStateView) -> (u8, i32, i32) {
    let c = p.controller;
    let booster = s.constants.booster;
    if ignites(p, s) && p.equip.has_booster_0_8 {
        (
            BOOSTER_SIDE,
            p.vel_x,
            if p.vel_y > 0x100 {
                div_trunc(p.vel_y as int, 2) as i32
            } else {
                p.vel_y
            },
        )
    } else if ignites_directional(p, s) {
        if c.move_up {
            (BOOSTER_UP, 0, booster.b2_0_up)
        } else if c.move_left {
            (BOOSTER_SIDE, booster.b2_0_left, 0)
        } else if c.move_right {
            (BOOSTER_SIDE, booster.b2_0_right, 0)
        } else if c.move_down {
            (BOOSTER_DOWN, 0, booster.b2_0_down)
        } else {
            (BOOSTER_UP, 0, booster.b2_0_up_nokey)
        }
    } else {
        (
            if s.control_flags.control_enabled {
                p.booster_switch
            } else {
                BOOSTER_OFF
            },
            p.vel_x,
            p.vel_y,
        )
    }
}

/// Whether the booster is cut off: no fuel, or jump not held.
pub open spec fn cut_off(p: Player) -> bool {
    p.booster_fuel == 0 || !p.controller.jump
}

/// Whether the directional booster is cut off while a sub-mode is active.
pub open spec fn brakes(p: Player, s: SharedGameStateView) -> bool {
    (s.settings.infinite_booster || p.equip.has_booster_2_0) && ignition(p, s).0 != BOOSTER_OFF
        && cut_off(p)
}

/// Horizontal speed after steering in the air: the speed after a possible
/// ignition, the air dash, and half of it where sideways thrust is cut off.
pub open spec fn air_speed_x(p: Player, s: SharedGameStateView) -> i32 {
    let physics = physics_of(p, s.constants);
    let c = p.controller;
    let enabled = s.control_flags.control_enabled;
    let (sw, vx1, vy1) = ignition(p, s);
    let vx2 = if enabled && c.move_left && vx1 > neg_spec(physics.max_dash) {
        vx1.wrapping_sub(physics.dash_air)
    } else {
        vx1
    };
    let vx3 = if enabled && c.move_right && vx2 < physics.max_dash {
        vx2.wrapping_add(physics.dash_air)
    } else {
        vx2
    };
    if brakes(p, s) && sw == BOOSTER_SIDE {
        div_trunc(vx3 as int, 2) as i32
    } else {
        vx3
    }
}

/// Vertical speed after steering in the air: the speed after a possible
/// ignition, and half of it where upward thrust is cut off.
pub open spec fn air_speed_y(p: Player, s: SharedGameStateView) -> i32 {
    let (sw, vx1, vy1) = ignition(p, s);
    if brakes(p, s) && sw == BOOSTER_UP {
        div_trunc(vy1 as int, 2) as i32
    } else {
        vy1
    }
}

/// Facing after steering in the air: by the look inputs, right before left.
pub open spec fn air_facing(p: Player, s: SharedGameStateView) -> Direction {
    let enabled = s.control_flags.control_enabled;
    if enabled && p.controller.look_right {
        Direction::Right
    } else if enabled && p.controller.look_left {
        Direction::Left
    } else {
        p.direction
    }
}

/// Booster sub-mode after steering. On the ground there is none. In the air
/// a sub-mode, kept or just ignited, stays exactly while fuel remains and
/// jump is held.
pub open spec fn steered_switch(p: Player, s: SharedGameStateView) -> u8 {
    if p.flags.grounded() || cut_off(p) {
        BOOSTER_OFF
    } else {
        ignition(p, s).0
    }
}

/// Steering. On the ground the booster is refuelled, the interaction gesture
/// marks the player as interacting and replaces the dash of this tick, and
/// friction applies. In the air a jump press may ignite the booster, the air
/// dash applies, and a booster that is out of fuel or whose input is released
/// is cut off.
pub open spec fn steer(p: Player, s: SharedGameStateView) -> Player {
    let ground = p.flags.grounded();
    Player {
        question: ground && gestures(p, s),
        booster_switch: steered_switch(p, s),
        booster_fuel: if ground {
            refuelled(p, s)
        } else {
            p.booster_fuel
        },
        cond: Condition { interacted: p.cond.interacted || (ground && gestures(p, s)), ..p.cond },
        vel_x: if ground {
            ground_speed(p, s)
        } else {
            air_speed_x(p, s)
        },
        vel_y: if ground {
            p.vel_y
        } else {
            air_speed_y(p, s)
        },
        direction: if ground {
            ground_facing(p, s)
        } else {
            air_facing(p, s)
        },
        ..p
    }
}

/// Whether the player jumps off the ground this tick.
pub open spec fn jumps(p: Player, s: SharedGameStateView) -> bool {
    s.control_flags.control_enabled && p.controller.trigger_jump && p.flags.grounded()
        && !p.flags.force_up
}

/// Whether any input that ends an interaction is held.
pub open spec fn moves_on(p: Player, s: SharedGameStateView) -> bool {
    s.control_flags.control_enabled && (p.controller.move_left || p.controller.move_right
        || p.controller.move_up || p.controller.jump || p.controller.shoot)
}

/// The jump impulse, the aim of the weapon, the end of an interaction, the
/// fuel that a tick of thrust burns, and the four force fields.
pub open spec fn impulses(p: Player, s: SharedGameStateView) -> Player {
    let physics = physics_of(p, s.constants);
    let enabled = s.control_flags.control_enabled;
    let vy1 = if jumps(p, s) {
        neg_spec(physics.jump)
    } else {
        p.vel_y
    };
    let vx1 = if p.flags.force_left {
        p.vel_x.wrapping_sub(0x88)
    } else {
        p.vel_x
    };
    let vy2 = if p.flags.force_up {
        vy1.wrapping_sub(0x80)
    } else {
        vy1
    };
    let vx2 = if p.flags.force_right {
        vx1.wrapping_add(0x88)
    } else {
        vx1
    };
    let vy3 = if p.flags.force_down {
        vy2.wrapping_add(0x55)
    } else {
        vy2
    };
    Player {
        up: if enabled {
            p.controller.move_up
        } else {
            p.up
        },
        down: if enabled {
            p.controller.move_down && !p.flags.hit_bottom_wall
        } else {
            p.down
        },
        cond: Condition { interacted: p.cond.interacted && !moves_on(p, s), ..p.cond },
        booster_fuel: if p.booster_switch != BOOSTER_OFF && p.booster_fuel != 0 {
            (p.booster_fuel - 1) as u32
        } else {
            p.booster_fuel
        },
        vel_x: vx2,
        vel_y: vy3,
        ..p
    }
}

/// Whether the directional booster thrusts this tick.
pub open spec fn thrusts(p: Player, s: SharedGameStateView) -> bool {
    (s.settings.infinite_booster || p.equip.has_booster_2_0) && p.booster_switch != BOOSTER_OFF
}

/// Whether the old booster lifts this tick.
pub open spec fn hovers(p: Player, s: SharedGameStateView) -> bool {
    !thrusts(p, s) && !p.flags.force_up && p.equip.has_booster_0_8 && p.booster_switch
        != BOOSTER_OFF && p.vel_y > -0x400
}

/// Whether the booster puffs this tick: on ignition and on every third unit
/// of fuel.
pub open spec fn puffs(p: Player) -> bool {
    p.controller.trigger_jump || p.booster_fuel % 3 == 1
}

/// Thrust or gravity. A thrusting directional booster replaces gravity: to
/// the side it accelerates along the facing and climbs along a wall it
/// touches, upward it accelerates. Else an upward force field or a held
/// jump while rising gives the light gravity, the old booster lifts up to
/// its limit and bounces off a ceiling, and otherwise the full gravity pulls.
pub open spec fn thrust_or_gravity(p: Player, s: SharedGameStateView) -> Player {
    let physics = physics_of(p, s.constants);
    let side = thrusts(p, s) && p.booster_switch == BOOSTER_SIDE;
    Player {
        vel_x: if side && p.direction == Direction::Left {
            p.vel_x.wrapping_sub(0x20)
        } else if side && p.direction == Direction::Right {
            p.vel_x.wrapping_add(0x20)
        } else {
            p.vel_x
        },
        vel_y: if thrusts(p, s) {
            if side && (p.flags.hit_left_wall || p.flags.hit_right_wall) {
                (-0x100) as i32
            } else if p.booster_switch == BOOSTER_UP {
                p.vel_y.wrapping_sub(0x20)
            } else {
                p.vel_y
            }
        } else if p.flags.force_up {
            p.vel_y.wrapping_add(physics.gravity_air)
        } else if hovers(p, s) {
            if p.flags.hit_top_wall {
                0x200
            } else {
                p.vel_y.wrapping_sub(0x20)
            }
        } else if p.vel_y < 0 && s.control_flags.control_enabled && p.controller.jump {
            p.vel_y.wrapping_add(physics.gravity_air)
        } else {
            p.vel_y.wrapping_add(physics.gravity_ground)
        },
        ..p
    }
}

/// The exhaust that thrust asks of the shared state: a puff behind the
/// player, opposite to the thrust, and audio cue 113.
pub open spec fn thrust_state(p: Player, s: SharedGameStateView) -> SharedGameStateView {
    let puff = thrusts(p, s) && puffs(p);
    let side = puff && p.booster_switch == BOOSTER_SIDE;
    let up = puff && p.booster_switch == BOOSTER_UP;
    let down = puff && p.booster_switch == BOOSTER_DOWN;
    let hover = hovers(p, s) && p.booster_fuel % 3 == 0;
    s.with_caret_if(
        side && (p.direction == Direction::Left || p.direction == Direction::Right),
        p.x.wrapping_add(0x400),
        p.y.wrapping_add(0x400),
        CaretType::Exhaust,
        p.direction.opposite(),
    ).with_caret_if(up, p.x, p.y.wrapping_add(0xc00), CaretType::Exhaust, Direction::Bottom).with_caret_if(
        down,
        p.x,
        p.y.wrapping_add(0xc00),
        CaretType::Exhaust,
        Direction::Up,
    ).with_caret_if(
        hover,
        p.x,
        p.y.wrapping_add(div_trunc((p.hit_bounds.bottom as i32) as int, 2) as i32),
        CaretType::Exhaust,
        Direction::Bottom,
    ).with_sfx_if(side || up || down || hover, 113)
}

/// Whether the player is pressed onto the lower end of a slope.
pub open spec fn pressed_down(p: Player) -> bool {
    let f = p.flags;
    (f.hit_bottom_wall && f.hit_right_bigger_half && p.vel_x < 0) || (f.hit_bottom_wall
        && f.hit_left_bigger_half && p.vel_x > 0) || (f.hit_bottom_wall && f.hit_left_smaller_half
        && f.hit_right_smaller_half)
}

/// Slope contact: unless a jump was just pressed, a player walking uphill
/// or downhill gets the vertical speed that keeps it on the slope, and one
/// on the lower end of a slope is pressed onto it.
pub open spec fn slope_glue(p: Player, s: SharedGameStateView) -> Player {
    let glued = !(s.control_flags.control_enabled && p.controller.trigger_jump);
    Player {
        vel_y: if glued && pressed_down(p) {
            0x400
        } else if glued && p.flags.hit_left_slope && p.vel_x > 0 {
            p.vel_x
        } else if glued && p.flags.hit_right_slope && p.vel_x < 0 {
            neg_spec(p.vel_x)
        } else {
            p.vel_y
        },
        ..p
    }
}

/// Greatest speed along either axis: the water limit under water unless a
/// force field pushes, else the air limit.
pub open spec fn speed_limit(p: Player, c: EngineConstants) -> i32 {
    if p.flags.in_water && !p.flags.forced() {
        c.my_char.water_physics.max_move
    } else {
        c.my_char.air_physics.max_move
    }
}

/// Both speeds bounded to the speed limit.
pub open spec fn limited(p: Player, c: EngineConstants) -> Player {
    let max_move = speed_limit(p, c);
    Player {
        vel_x: clamp_spec(p.vel_x as int, -max_move, max_move as int) as i32,
        vel_y: clamp_spec(p.vel_y as int, -max_move, max_move as int) as i32,
        ..p
    }
}

/// Thrust or gravity, then slope contact, then the speed limit.
pub open spec fn fall(p: Player, s: SharedGameStateView) -> Player {
    let q = slope_glue(thrust_or_gravity(p, s), s);
    let max_move = speed_limit(p, s.constants);
    Player {
        vel_x: clamp_spec(q.vel_x as int, -max_move, max_move as int) as i32,
        vel_y: clamp_spec(q.vel_y as int, -max_move, max_move as int) as i32,
        ..p
    }
}

/// Whether the player splashes by falling into water.
pub open spec fn vertical_splash(p: Player) -> bool {
    !p.flags.hit_bottom_wall && p.vel_y > 0x200
}

/// Whether the player splashes by running into water.
pub open spec fn horizontal_splash(p: Player) -> bool {
    p.vel_x > 0x200 || p.vel_x < -0x200
}

/// Whether the player splashes this tick: in water, not yet marked as
/// having splashed, and fast enough.
pub open spec fn splashes(p: Player) -> bool {
    !p.splash && p.flags.in_water && (vertical_splash(p) || horizontal_splash(p))
}

/// The droplet that a splash scatters, before its place and speed are drawn.
pub open spec fn droplet_template(p: Player, s: SharedGameStateView) -> NPC {
    NPC {
        cond: Condition { alive: true, ..Condition::empty() },
        y: p.y,
        direction: if p.flags.water_splash_facing_right {
            Direction::Right
        } else {
            Direction::Left
        },
        ..blank_npc(73, s.npc_table)
    }
}

/// One droplet of a splash, its place and speed drawn from three successive
/// states of the game stream.
pub open spec fn droplet(p: Player, template: NPC, r0: XorShift) -> NPC {
    let r1 = r0.after();
    let r2 = r1.after();
    let spread = sample_in(-0x200, 0x200, r1.draw());
    NPC {
        x: p.x.wrapping_add(sample_in(-8, 8, r0.draw()).wrapping_mul(0x200)),
        vel_x: if vertical_splash(p) {
            p.vel_x.wrapping_add(spread).wrapping_sub(div_trunc(p.vel_x as int, 2) as i32)
        } else {
            p.vel_x.wrapping_add(spread)
        },
        vel_y: sample_in(-0x200, 0x80, r2.draw()),
        ..template
    }
}

/// The game stream and the arena after `n` droplets were drawn and handed
/// to the arena, each with preferred slot 0x100.
#[verifier::opaque]
pub open spec fn droplets(p: Player, template: NPC, rng: XorShift, npcs: Seq<NPC>, n: nat) -> (
    XorShift,
    Seq<NPC>,
)
    decreases n,
{
    if n == 0 {
        (rng, npcs)
    } else {
        let (r, l) = droplets(p, template, rng, npcs, (n - 1) as nat);
        (r.after().after().after(), spawned(l, 0x100, droplet(p, template, r)))
    }
}

/// Number of droplets of a splash.
pub const SPLASH_DROPLETS: usize = 7;

/// The player marked as having splashed while it is in water.
pub open spec fn splash_marked(p: Player) -> Player {
    Player { splash: p.flags.in_water, ..p }
}

/// The camera's look-ahead and the step. The horizontal look-ahead grows by
/// one unit per tick toward the facing, up to 64 units; the vertical one
/// follows the look inputs and else returns toward zero. The position moves
/// by the vertical speed, and by the horizontal speed where that exceeds the
/// resistance of the medium.
pub open spec fn camera_and_step(p: Player, s: SharedGameStateView) -> Player {
    let physics = physics_of(p, s.constants);
    let enabled = s.control_flags.control_enabled;
    let index_x = clamp_spec(
        p.index_x.wrapping_add((p.direction.vector_x() * 0x200) as i32) as int,
        -0x8000,
        0x8000,
    ) as i32;
    let index_y = if enabled && p.controller.look_up {
        let up = p.index_y.wrapping_sub(0x200);
        if up < -0x8000 {
            (-0x8000) as i32
        } else {
            up
        }
    } else if enabled && p.controller.look_down {
        let down = p.index_y.wrapping_add(0x200);
        if down > 0x8000 {
            0x8000
        } else {
            down
        }
    } else {
        let lowered = if p.index_y > 0x200 {
            p.index_y.wrapping_sub(0x200)
        } else {
            p.index_y
        };
        if lowered < -0x200 {
            lowered.wrapping_add(0x200)
        } else {
            lowered
        }
    };
    Player {
        index_x,
        index_y,
        target_x: p.x.wrapping_add(index_x),
        target_y: p.y.wrapping_add(index_y),
        x: if p.vel_x > physics.resist || p.vel_x < neg_spec(physics.resist) {
            p.x.wrapping_add(p.vel_x)
        } else {
            p.x
        },
        y: p.y.wrapping_add(p.vel_y),
        ..p
    }
}

/// The part of a tick that moves the player: steering, the jump with audio
/// cue 15 and the force fields, the exhaust of the booster, and thrust or
/// gravity with slope contact and the speed limit.
pub open spec fn normal_move(w: PlayerWorld) -> PlayerWorld {
    let p2 = steer(w.player, w.state);
    let s2 = w.state.with_sfx_if(jumps(p2, w.state), 15);
    let p3 = impulses(p2, s2);
    let s3 = thrust_state(p3, s2);
    PlayerWorld { player: fall(p3, s3), state: s3, npcs: w.npcs }
}

/// The splash of a player entering water: seven droplets and audio cue 56,
/// and the mark of having splashed.
pub open spec fn normal_splash(w: PlayerWorld) -> PlayerWorld {
    let wet = splashes(w.player);
    let (rng, npcs) = droplets(
        w.player,
        droplet_template(w.player, w.state),
        w.state.game_rng,
        w.npcs,
        if wet {
            SPLASH_DROPLETS as nat
        } else {
            0
        },
    );
    PlayerWorld {
        player: splash_marked(w.player),
        state: SharedGameStateView { game_rng: rng, ..w.state }.with_sfx_if(wet, 56),
        npcs,
    }
}

/// The end of a tick: the hit of 10 points by a spike, then the camera and
/// the step.
pub open spec fn normal_finish(w: PlayerWorld) -> PlayerWorld {
    let hit = crate::player::damage::damage_if_step(w, w.player.flags.hit_by_spike, 10);
    PlayerWorld { player: camera_and_step(hit.player, hit.state), ..hit }
}

/// One tick under normal control. The air supply comes first, and a player
/// whom it hides is done. Else the player moves, splashes and finishes.
pub open spec fn normal_step(w: PlayerWorld) -> PlayerWorld {
    let breathed = PlayerWorld {
        player: air_supply(w.player, w.state),
        state: air_supply_state(w.player, w.state),
        npcs: w.npcs,
    };
    if breathed.player.cond.hidden {
        breathed
    } else {
        normal_finish(normal_splash(normal_move(breathed)))
    }
}

impl Player {
    /// The air supply; tells whether it ran out this tick.
    fn tick_air_supply(&mut self, state: &SharedGameState) -> (out: bool)
        ensures
            *final(self) == air_supply(*old(self), state@),
            out == out_of_air(*old(self), state@),
    {
        let mut air = self.air;
        let mut air_counter = self.air_counter;
        let mut hidden = self.cond.hidden;
        let mut out = false;
        if !state.control_flags.interactions_disabled && state.control_flags.control_enabled {
            if self.equip.has_air_tank {
                air = 1000;
                air_counter = 0;
            } else if !state.settings.god_mode && self.flags.in_water {
                air_counter = 60;
                if air > 0 {
                    air -= 1;
                } else {
                    out = true;
                    if !state.game_flags.is_set(4000) {
                        hidden = true;
                    }
                }
            } else {
                air = 1000;
                if air_counter > 0 {
                    air_counter -= 1;
                }
            }
        }
        *self = Player { air, air_counter, cond: Condition { hidden, ..self.cond }, ..*self };
        out
    }

    /// Steering on the ground or in the air.
    fn tick_steer(&mut self, state: &SharedGameState)
        ensures
            *final(self) == steer(*old(self), state@),
    {
        let physics = if self.flags.in_water {
            state.constants.my_char.water_physics
        } else {
            state.constants.my_char.air_physics
        };
        let enabled = state.control_flags.control_enabled;
        let c = self.controller;
        let mut question = false;
        let mut booster_switch = self.booster_switch;
        let mut booster_fuel = self.booster_fuel;
        let mut interacted = self.cond.interacted;
        let mut vel_x = self.vel_x;
        let mut vel_y = self.vel_y;
        let mut direction = self.direction;

        if !enabled {
            booster_switch = BOOSTER_OFF;
        }
        if self.flags.grounded() {
            booster_switch = BOOSTER_OFF;
            if state.settings.infinite_booster {
                booster_fuel = u32::MAX;
            } else if self.equip.has_booster_0_8 || self.equip.has_booster_2_0 {
                booster_fuel = state.constants.booster.fuel;
            } else {
                booster_fuel = 0;
            }
            if enabled {
                if c.trigger_only_down() && c.only_down() && !interacted
                    && !state.control_flags.interactions_disabled {
                    interacted = true;
                    question = true;
                } else {
                    if c.move_left && vel_x > neg(physics.max_dash) {
                        vel_x = vel_x.wrapping_sub(physics.dash_ground);
                    }
                    if c.move_right && vel_x < physics.max_dash {
                        vel_x = vel_x.wrapping_add(physics.dash_ground);
                    }
                    if c.move_left {
                        direction = Direction::Left;
                    }
                    if c.move_right {
                        direction = Direction::Right;
                    }
                }
            }
            if !self.cond.increase_acceleration {
                if vel_x < 0 {
                    if vel_x > neg(physics.resist) {
                        vel_x = 0;
                    } else {
                        vel_x = vel_x.wrapping_add(physics.resist);
                    }
                }
                if vel_x > 0 {
                    if vel_x < physics.resist {
                        vel_x = 0;
                    } else {
                        vel_x = vel_x.wrapping_sub(physics.resist);
                    }
                }
            }
        } else {
            if enabled {
                if c.trigger_jump && booster_fuel != 0 {
                    if self.equip.has_booster_0_8 {
                        booster_switch = BOOSTER_SIDE;
                        if vel_y > 0x100 {
                            vel_y = half(vel_y);
                        }
                    } else if state.settings.infinite_booster || self.equip.has_booster_2_0 {
                        if c.move_up {
                            booster_switch = BOOSTER_UP;
                            vel_x = 0;
                            vel_y = state.constants.booster.b2_0_up;
                        } else if c.move_left {
                            booster_switch = BOOSTER_SIDE;
                            vel_x = state.constants.booster.b2_0_left;
                            vel_y = 0;
                        } else if c.move_right {
                            booster_switch = BOOSTER_SIDE;
                            vel_x = state.constants.booster.b2_0_right;
                            vel_y = 0;
                        } else if c.move_down {
                            booster_switch = BOOSTER_DOWN;
                            vel_x = 0;
                            vel_y = state.constants.booster.b2_0_down;
                        } else {
                            booster_switch = BOOSTER_UP;
                            vel_x = 0;
                            vel_y = state.constants.booster.b2_0_up_nokey;
                        }
                    }
                }
                if c.move_left && vel_x > neg(physics.max_dash) {
                    vel_x = vel_x.wrapping_sub(physics.dash_air);
                }
                if c.move_right && vel_x < physics.max_dash {
                    vel_x = vel_x.wrapping_add(physics.dash_air);
                }
                if c.look_left {
                    direction = Direction::Left;
                }
                if c.look_right {
                    direction = Direction::Right;
                }
            }
            if (state.settings.infinite_booster || self.equip.has_booster_2_0) && booster_switch
                != BOOSTER_OFF && (!c.jump || booster_fuel == 0) {
                if booster_switch == BOOSTER_SIDE {
                    vel_x = half(vel_x);
                } else if booster_switch == BOOSTER_UP {
                    vel_y = half(vel_y);
                }
            }
            if booster_fuel == 0 || !c.jump {
                booster_switch = BOOSTER_OFF;
            }
        }
        *self = Player {
            question,
            booster_switch,
            booster_fuel,
            cond: Condition { interacted, ..self.cond },
            vel_x,
            vel_y,
            direction,
            ..*self
        };
    }

    /// The jump, the aim, the end of an interaction, the fuel and the forces.
    fn tick_impulses(&mut self, state: &SharedGameState)
        ensures
            *final(self) == impulses(*old(self), state@),
    {
        let physics = if self.flags.in_water {
            state.constants.my_char.water_physics
        } else {
            state.constants.my_char.air_physics
        };
        let enabled = state.control_flags.control_enabled;
        let c = self.controller;
        let mut up = self.up;
        let mut down = self.down;
        let mut interacted = self.cond.interacted;
        let mut booster_fuel = self.booster_fuel;
        let mut vel_x = self.vel_x;
        let mut vel_y = self.vel_y;
        if enabled {
            up = c.move_up;
            down = c.move_down && !self.flags.hit_bottom_wall;
            if c.trigger_jump && self.flags.grounded() && !self.flags.force_up {
                vel_y = neg(physics.jump);
            }
        }
        if enabled && (c.move_left || c.move_right || c.move_up || c.jump || c.shoot) {
            interacted = false;
        }
        if self.booster_switch != BOOSTER_OFF && booster_fuel != 0 {
            booster_fuel -= 1;
        }
        if self.flags.force_left {
            vel_x = vel_x.wrapping_sub(0x88);
        }
        if self.flags.force_up {
            vel_y = vel_y.wrapping_sub(0x80);
        }
        if self.flags.force_right {
            vel_x = vel_x.wrapping_add(0x88);
        }
        if self.flags.force_down {
            vel_y = vel_y.wrapping_add(0x55);
        }
        *self = Player {
            up,
            down,
            cond: Condition { interacted, ..self.cond },
            booster_fuel,
            vel_x,
            vel_y,
            ..*self
        };
    }

    /// Thrust or gravity, slope contact and the speed limit.
    fn tick_fall(&mut self, state: &SharedGameState)
        requires
            0 <= state.constants.my_char.air_physics.max_move,
            0 <= state.constants.my_char.water_physics.max_move,
        ensures
            *final(self) == fall(*old(self), state@),
    {
        let physics = if self.flags.in_water {
            state.constants.my_char.water_physics
        } else {
            state.constants.my_char.air_physics
        };
        let enabled = state.control_flags.control_enabled;
        let c = self.controller;
        let f = self.flags;
        let mut vel_x = self.vel_x;
        let mut vel_y = self.vel_y;
        if (state.settings.infinite_booster || self.equip.has_booster_2_0) && self.booster_switch
            != BOOSTER_OFF {
            if self.booster_switch == BOOSTER_SIDE {
                if f.hit_left_wall || f.hit_right_wall {
                    vel_y = -0x100;
                }
                if self.direction == Direction::Left {
                    vel_x = vel_x.wrapping_sub(0x20);
                }
                if self.direction == Direction::Right {
                    vel_x = vel_x.wrapping_add(0x20);
                }
            } else if self.booster_switch == BOOSTER_UP {
                vel_y = vel_y.wrapping_sub(0x20);
            }
        } else if f.force_up {
            vel_y = vel_y.wrapping_add(physics.gravity_air);
        } else if self.equip.has_booster_0_8 && self.booster_switch != BOOSTER_OFF && vel_y
            > -0x400 {
            vel_y = vel_y.wrapping_sub(0x20);
            if f.hit_top_wall {
                vel_y = 0x200;
            }
        } else if vel_y < 0 && enabled && c.jump {
            vel_y = vel_y.wrapping_add(physics.gravity_air);
        } else {
            vel_y = vel_y.wrapping_add(physics.gravity_ground);
        }
        if !enabled || !c.trigger_jump {
            if f.hit_right_slope && vel_x < 0 {
                vel_y = neg(vel_x);
            }
            if f.hit_left_slope && vel_x > 0 {
                vel_y = vel_x;
            }
            if (f.hit_bottom_wall && f.hit_right_bigger_half && vel_x < 0) || (f.hit_bottom_wall
                && f.hit_left_bigger_half && vel_x > 0) || (f.hit_bottom_wall
                && f.hit_left_smaller_half && f.hit_right_smaller_half) {
                vel_y = 0x400;
            }
        }
        let max_move = if f.in_water && !f.forced() {
            state.constants.my_char.water_physics.max_move
        } else {
            state.constants.my_char.air_physics.max_move
        };
        vel_x = clamp(vel_x, -max_move, max_move);
        vel_y = clamp(vel_y, -max_move, max_move);
        *self = Player { vel_x, vel_y, ..*self };
    }

    /// Files the exhaust of the booster with the shared state.
    fn puff_exhaust(&self, state: &mut SharedGameState)
        ensures
            final(state)@ == thrust_state(*self, old(state)@),
    {
        let puff = (state.settings.infinite_booster || self.equip.has_booster_2_0)
            && self.booster_switch != BOOSTER_OFF && (self.controller.trigger_jump
            || self.booster_fuel % 3 == 1);
        let side = puff && self.booster_switch == BOOSTER_SIDE;
        let up = puff && self.booster_switch == BOOSTER_UP;
        let down = puff && self.booster_switch == BOOSTER_DOWN;
        let hover = !((state.settings.infinite_booster || self.equip.has_booster_2_0)
            && self.booster_switch != BOOSTER_OFF) && !self.flags.force_up
            && self.equip.has_booster_0_8 && self.booster_switch != BOOSTER_OFF && self.vel_y
            > -0x400 && self.booster_fuel % 3 == 0;
        let bottom = #[verifier::truncate]
        (self.hit_bounds.bottom as i32);
        state.create_caret_if(
            side && (self.direction == Direction::Left || self.direction == Direction::Right),
            self.x.wrapping_add(0x400),
            self.y.wrapping_add(0x400),
            CaretType::Exhaust,
            self.direction.opposite(),
        );
        state.create_caret_if(
            up,
            self.x,
            self.y.wrapping_add(6 * 0x200),
            CaretType::Exhaust,
            Direction::Bottom,
        );
        state.create_caret_if(
            down,
            self.x,
            self.y.wrapping_add(6 * 0x200),
            CaretType::Exhaust,
            Direction::Up,
        );
        state.create_caret_if(
            hover,
            self.x,
            self.y.wrapping_add(half(bottom)),
            CaretType::Exhaust,
            Direction::Bottom,
        );
        state.play_sfx_if(side || up || down || hover, 113);
    }

    /// Scatters the droplets of a splash.
    fn scatter_droplets(&self, count: usize, state: &mut SharedGameState, npc_list: &mut NPCList)
        requires
            old(npc_list).wf(),
        ensures
            final(npc_list).wf(),
            final(state)@ == (SharedGameStateView {
                game_rng: final(state).game_rng,
                ..old(state)@
            }),
            (final(state).game_rng, final(npc_list)@) == droplets(
                *self,
                droplet_template(*self, old(state)@),
                old(state).game_rng,
                old(npc_list)@,
                count as nat,
            ),
    {
        let vertical = !self.flags.hit_bottom_wall && self.vel_y > 0x200;
        let mut npc = NPC::create(73, &state.npc_table);
        npc.cond.alive = true;
        npc.y = self.y;
        npc.direction = if self.flags.water_splash_facing_right {
            Direction::Right
        } else {
            Direction::Left
        };
        let ghost before = state@;
        let ghost npcs = npc_list@;
        let ghost template = npc;
        let mut i: usize = 0;
        proof {
            reveal(droplets);
        }
        while i < count
            invariant
                i <= count,
                npc_list.wf(),
                vertical == vertical_splash(*self),
                state@ == (SharedGameStateView { game_rng: state.game_rng, ..before }),
                npc == (NPC { x: npc.x, vel_x: npc.vel_x, vel_y: npc.vel_y, ..template }),
                (state.game_rng, npc_list@) == droplets(
                    *self,
                    template,
                    before.game_rng,
                    npcs,
                    i as nat,
                ),
            decreases count - i,
        {
            proof {
                reveal(droplets);
            }
            npc.x = self.x.wrapping_add(state.game_rng.range(-8..8).wrapping_mul(0x200));
            let spread = state.game_rng.range(-0x200..0x200);
            npc.vel_x = if vertical {
                self.vel_x.wrapping_add(spread).wrapping_sub(half(self.vel_x))
            } else {
                self.vel_x.wrapping_add(spread)
            };
            npc.vel_y = state.game_rng.range(-0x200..0x80);
            let _ = npc_list.spawn(0x100, npc);
            i += 1;
        }
    }

    /// The camera's look-ahead and the step.
    fn tick_camera_and_step(&mut self, state: &SharedGameState)
        ensures
            *final(self) == camera_and_step(*old(self), state@),
    {
        let physics = if self.flags.in_water {
            state.constants.my_char.water_physics
        } else {
            state.constants.my_char.air_physics
        };
        let enabled = state.control_flags.control_enabled;
        let index_x = clamp(
            self.index_x.wrapping_add(self.direction.vector_x() * 0x200),
            -0x8000,
            0x8000,
        );
        let mut index_y = self.index_y;
        if enabled && self.controller.look_up {
            index_y = index_y.wrapping_sub(0x200);
            if index_y < -0x8000 {
                index_y = -0x8000;
            }
        } else if enabled && self.controller.look_down {
            index_y = index_y.wrapping_add(0x200);
            if index_y > 0x8000 {
                index_y = 0x8000;
            }
        } else {
            if index_y > 0x200 {
                index_y = index_y.wrapping_sub(0x200);
            }
            if index_y < -0x200 {
                index_y = index_y.wrapping_add(0x200);
            }
        }
        let target_x = self.x.wrapping_add(index_x);
        let target_y = self.y.wrapping_add(index_y);
        let mut x = self.x;
        if self.vel_x > physics.resist || self.vel_x < neg(physics.resist) {
            x = x.wrapping_add(self.vel_x);
        }
        let y = self.y.wrapping_add(self.vel_y);
        *self = Player { index_x, index_y, target_x, target_y, x, y, ..*self };
    }

    /// Marks the player as having splashed while it is in water.
    fn mark_splash(&mut self)
        ensures
            *final(self) == splash_marked(*old(self)),
    {
        *self = Player { splash: self.flags.in_water, ..*self };
    }

    /// The part of a tick that moves the player.
    fn tick_move(&mut self, state: &mut SharedGameState)
        requires
            0 <= old(state).constants.my_char.air_physics.max_move,
            0 <= old(state).constants.my_char.water_physics.max_move,
        ensures
            final(state)@.constants == old(state)@.constants,
            forall|npcs: Seq<NPC>|
                (PlayerWorld { player: *final(self), state: final(state)@, npcs }) == normal_move(
                    PlayerWorld { player: *old(self), state: old(state)@, npcs },
                ),
    {
        self.tick_steer(state);
        let jumps = state.control_flags.control_enabled && self.controller.trigger_jump
            && self.flags.grounded() && !self.flags.force_up;
        state.play_sfx_if(jumps, 15);
        self.tick_impulses(state);
        self.puff_exhaust(state);
        self.tick_fall(state);
    }

    /// The splash of a player entering water.
    fn tick_splash(&mut self, state: &mut SharedGameState, npc_list: &mut NPCList)
        requires
            old(npc_list).wf(),
        ensures
            final(state)@.constants == old(state)@.constants,
            final(npc_list).wf(),
            (PlayerWorld { player: *final(self), state: final(state)@, npcs: final(npc_list)@ })
                == normal_splash(
                PlayerWorld { player: *old(self), state: old(state)@, npcs: old(npc_list)@ },
            ),
    {
        let wet = !self.splash && self.flags.in_water && ((!self.flags.hit_bottom_wall && self.vel_y
            > 0x200) || (self.vel_x > 0x200 || self.vel_x < -0x200));
        self.scatter_droplets(if wet { SPLASH_DROPLETS } else { 0 }, state, npc_list);
        state.play_sfx_if(wet, 56);
        self.mark_splash();
    }

    /// The end of a tick: spikes, the camera and the step.
    fn tick_finish(&mut self, state: &mut SharedGameState, npc_list: &mut NPCList)
        requires
            old(npc_list).wf(),
        ensures
            final(state)@.constants == old(state)@.constants,
            final(npc_list).wf(),
            (PlayerWorld { player: *final(self), state: final(state)@, npcs: final(npc_list)@ })
                == normal_finish(
                PlayerWorld { player: *old(self), state: old(state)@, npcs: old(npc_list)@ },
            ),
    {
        let spiked = self.flags.hit_by_spike;
        self.damage_if(spiked, 10, state, npc_list);
        self.tick_camera_and_step(state);
    }

    /// One tick under normal control.
    pub fn tick_normal(&mut self, state: &mut SharedGameState, npc_list: &mut NPCList)
        requires
            old(npc_list).wf(),
            0 <= old(state).constants.my_char.air_physics.max_move,
            0 <= old(state).constants.my_char.water_physics.max_move,
        ensures
            final(state)@.constants == old(state)@.constants,
            final(npc_list).wf(),
            (PlayerWorld { player: *final(self), state: final(state)@, npcs: final(npc_list)@ })
                == normal_step(
                PlayerWorld { player: *old(self), state: old(state)@, npcs: old(npc_list)@ },
            ),
    {
        let (x, y, direction) = (self.x, self.y, self.direction);
        let rescued_by_flag = state.game_flags.is_set(4000);
        let out = self.tick_air_supply(state);
        state.start_script_if(out && rescued_by_flag, 1100);
        state.create_caret_if(out && !rescued_by_flag, x, y, CaretType::DrownedQuote, direction);
        state.start_script_if(out && !rescued_by_flag, 41);
        if self.cond.hidden {
            return ;
        }
        self.tick_move(state);
        self.tick_splash(state, npc_list);
        self.tick_finish(state, npc_list);
    }
}

} // verus!
