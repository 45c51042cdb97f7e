//! The creatures of the sand zone.

use vstd::prelude::*;
use crate::bullet::{count_of_weapon, BulletManager};
use crate::caret::CaretType;
use crate::common::{Condition, Direction, NPCFlag};
use crate::fix9::{
    abs, abs_spec, clamp, clamp_max, clamp_max_spec, clamp_spec, div_trunc, half, neg, neg_spec,
    scale, scale_spec, signum, signum_spec,
};
use crate::npc::ai::characters::{idle_blink, side_offset, sided_index};
use crate::npc::ai::{
    clouds, copies, cycle, face_toward, facing_toward, frame_cycle, make_template, smoke_radius,
    spawn_template, spawned_if, NpcWorld,
};
use crate::npc::list::NPCList;
use crate::npc::{closest_player, NPC};
use crate::player::Player;
use crate::rng::{sample_in, xoroshiro_advance, xoroshiro_output, Xoroshiro32PlusPlus, RNG};
use crate::shared_game_state::{SharedGameState, SharedGameStateView};

verus! {

/// Speeds of the crawler after it crept along the wall that its state
/// follows, and the state it is in then. Going round clockwise it follows
/// floor (2), right wall (3), ceiling (4) and left wall (5); the other way
/// floor (6), left wall (7), ceiling (8) and right wall (9). It is pulled
/// toward its wall, hops off it on contact, and goes on to the next wall as
/// soon as that is touched. A fresh crawler (0, 1) picks its way by its
/// facing.
pub open spec fn polish_act(n: NPC) -> NPC {
    let f = n.flags;
    let a = n.action_num;
    if a == 0 || a == 1 {
        NPC {
            anim_num: 0,
            action_num: if n.direction == Direction::Right {
                2
            } else {
                8
            },
            ..n
        }
    } else if a == 2 || a == 6 {
        let vy = n.vel_y.wrapping_add(0x20);
        let hops = vy > 0 && f.hit_bottom_wall;
        NPC {
            vel_y: if hops {
                (-0x100) as i32
            } else {
                vy
            },
            vel_x: if !hops {
                n.vel_x
            } else if a == 2 {
                n.vel_x.wrapping_add(0x100)
            } else {
                n.vel_x.wrapping_sub(0x100)
            },
            action_num: if a == 2 && f.hit_right_wall {
                3
            } else if a == 6 && f.hit_left_wall {
                7
            } else {
                a
            },
            ..n
        }
    } else if a == 3 || a == 9 {
        let vx = n.vel_x.wrapping_add(0x20);
        let hops = vx > 0 && f.hit_right_wall;
        NPC {
            vel_x: if hops {
                (-0x100) as i32
            } else {
                vx
            },
            vel_y: if !hops {
                n.vel_y
            } else if a == 3 {
                n.vel_y.wrapping_sub(0x100)
            } else {
                n.vel_y.wrapping_add(0x100)
            },
            action_num: if a == 3 && f.hit_top_wall {
                4
            } else if a == 9 && f.hit_bottom_wall {
                6
            } else {
                a
            },
            ..n
        }
    } else if a == 4 || a == 8 {
        let vy = n.vel_y.wrapping_sub(0x20);
        let hops = vy < 0 && f.hit_top_wall;
        NPC {
            vel_y: if hops {
                0x100
            } else {
                vy
            },
            vel_x: if !hops {
                n.vel_x
            } else if a == 4 {
                n.vel_x.wrapping_sub(0x100)
            } else {
                n.vel_x.wrapping_add(0x100)
            },
            action_num: if a == 4 && f.hit_left_wall {
                5
            } else if a == 8 && f.hit_right_wall {
                9
            } else {
                a
            },
            ..n
        }
    } else if a == 5 || a == 7 {
        let vx = n.vel_x.wrapping_sub(0x20);
        let hops = vx < 0 && f.hit_left_wall;
        NPC {
            vel_x: if hops {
                0x100
            } else {
                vx
            },
            vel_y: if !hops {
                n.vel_y
            } else if a == 5 {
                n.vel_y.wrapping_add(0x100)
            } else {
                n.vel_y.wrapping_sub(0x100)
            },
            action_num: if a == 5 && f.hit_bottom_wall {
                2
            } else if a == 7 && f.hit_top_wall {
                8
            } else {
                a
            },
            ..n
        }
    } else {
        n
    }
}

/// Displacement of one tick for a stored speed: half of it, rounded toward
/// zero, while the entity is stunned.
pub open spec fn stunned_step(shock: u16, vel: i32) -> i32 {
    if shock > 0 {
        div_trunc(vel as int, 2) as i32
    } else {
        vel
    }
}

pub fn step_of(shock: u16, vel: i32) -> (r: i32)
    ensures
        r == stunned_step(shock, vel),
{
    if shock > 0 {
        half(vel)
    } else {
        vel
    }
}

/// Whether the crawler is weak enough to burst.
pub open spec fn polish_bursts(n: NPC) -> bool {
    n.life <= 100
}

/// The crawler after it crept: one that burst is no longer alive; the
/// speeds are bounded, the position steps, the frame alternates while it
/// creeps, and the frame of its facing is shown.
pub open spec fn polish_settle(m: NPC, s: SharedGameStateView) -> NPC {
    let vel_x = clamp_spec(m.vel_x as int, -0x200, 0x200) as i32;
    let vel_y = clamp_spec(m.vel_y as int, -0x200, 0x200) as i32;
    let anim_num = if m.action_num > 1 && m.action_num <= 9 {
        if m.anim_num.wrapping_add(1) > 2 {
            1
        } else {
            m.anim_num.wrapping_add(1)
        }
    } else {
        m.anim_num
    };
    NPC {
        cond: Condition { alive: m.cond.alive && !polish_bursts(m), ..m.cond },
        vel_x,
        vel_y,
        x: m.x.wrapping_add(stunned_step(m.shock, vel_x)),
        y: m.y.wrapping_add(stunned_step(m.shock, vel_y)),
        anim_num,
        anim_rect: s.constants.npc.n044_polish[anim_num as int + side_offset(m.direction, 3)],
        ..m
    }
}

/// Frame that the crawler will show, as a position in its table.
pub open spec fn polish_index(n: NPC) -> int {
    let m = polish_act(n);
    (if m.action_num > 1 && m.action_num <= 9 {
        if m.anim_num.wrapping_add(1) > 2 {
            1int
        } else {
            m.anim_num.wrapping_add(1) as int
        }
    } else {
        m.anim_num as int
    }) + side_offset(m.direction, 3)
}

/// One tick of the crawler. It creeps; if it is weak enough it bursts, with
/// eight clouds of smoke, audio cue 25 and nine of its young where it was;
/// then it settles.
pub open spec fn polish_step(w: NpcWorld) -> NpcWorld {
    let m = polish_act(w.npc);
    let bursts = polish_bursts(m);
    let (rng, smoked) = clouds(
        spawn_template(4, m.x, m.y, w.state),
        smoke_radius(m.display_bounds.right),
        m.rng,
        w.npcs,
        if bursts {
            8
        } else {
            0
        },
    );
    let s = w.state.with_caret_if(bursts, m.x, m.y, CaretType::Explosion, Direction::Left).with_sfx_if(
        bursts,
        25,
    );
    NpcWorld {
        npc: polish_settle(NPC { rng, ..m }, s),
        state: s,
        npcs: copies(
            smoked,
            0x100,
            spawn_template(45, m.x, m.y, s),
            if bursts {
                9
            } else {
                0
            },
        ),
    }
}

/// A speed of the crawler's young drawn from its stream: one 16-bit output
/// picks the sign, and the magnitude is sampled from 0x100 to 0x200. Gives
/// the speed and the stream that is left.
pub open spec fn baby_speed(r0: Xoroshiro32PlusPlus) -> (i32, Xoroshiro32PlusPlus) {
    let r1 = Xoroshiro32PlusPlus(xoroshiro_advance(r0.0));
    (
        if xoroshiro_output(r0.0) & 1 != 0 {
            sample_in(-0x200, -0x100, r1.draw())
        } else {
            sample_in(0x100, 0x200, r1.draw())
        },
        r1.after(),
    )
}

/// A speed that turns round on the wall it runs into: `low` is the wall on
/// the negative side, `high` the one on the positive side.
pub open spec fn bounced(vel: i32, low: bool, high: bool) -> i32 {
    let v = if vel < 0 && low {
        neg_spec(vel)
    } else {
        vel
    };
    if v > 0 && high {
        neg_spec(v)
    } else {
        v
    }
}

/// One tick of the crawler's young: a fresh one draws its two speeds; it
/// flutters, bounces off walls, and steps by its bounded speed, which it
/// keeps apart from the speed that blows knock it with.
pub open spec fn baby_step(n: NPC, s: SharedGameStateView) -> NPC {
    let fresh = n.action_num == 0;
    let vx = baby_speed(n.rng);
    let vy = baby_speed(vx.1);
    let action_num = if fresh {
        2
    } else {
        n.action_num
    };
    let anim_num = if action_num == 1 || action_num == 2 {
        if n.anim_num.wrapping_add(1) > 2 {
            1
        } else {
            n.anim_num.wrapping_add(1)
        }
    } else {
        n.anim_num
    };
    let vel_x2 = clamp_spec(
        bounced(
            if fresh {
                vx.0
            } else {
                n.vel_x2
            },
            n.flags.hit_left_wall,
            n.flags.hit_right_wall,
        ) as int,
        -0x200,
        0x200,
    ) as i32;
    let vel_y2 = clamp_spec(
        bounced(
            if fresh {
                vy.0
            } else {
                n.vel_y2
            },
            n.flags.hit_top_wall,
            n.flags.hit_bottom_wall,
        ) as int,
        -0x200,
        0x200,
    ) as i32;
    NPC {
        action_num,
        vel_x: if fresh {
            vx.0
        } else {
            n.vel_x
        },
        vel_y: if fresh {
            vy.0
        } else {
            n.vel_y
        },
        vel_x2,
        vel_y2,
        rng: if fresh {
            vy.1
        } else {
            n.rng
        },
        anim_num,
        x: n.x.wrapping_add(stunned_step(n.shock, vel_x2)),
        y: n.y.wrapping_add(stunned_step(n.shock, vel_y2)),
        anim_rect: s.constants.npc.n045_baby[anim_num as int],
        ..n
    }
}

/// The capabilities of a beast that lies buried: it cannot be shot or
/// touched and is not solid.
pub open spec fn buried(f: NPCFlag) -> NPCFlag {
    NPCFlag {
        shootable: false,
        ignore_solidity: false,
        invulnerable: false,
        solid_soft: false,
        ..f
    }
}

/// Whether a player stands right above the buried beast.
pub open spec fn sandcroc_bites(n: NPC, player: Player) -> bool {
    abs_spec(n.x.wrapping_sub(player.x)) < 8 * 0x200 && player.y > n.y && player.y
        < n.y.wrapping_add(0x1000)
}

/// One tick of the beast in the sand. Buried (0, 1) it follows the nearest
/// player underground and snaps when the player stands above it; snapping
/// (2) it rises frame by frame, hurting from the fourth frame and open to
/// shots at the fifth (3); once hit it sinks (4) for 32 ticks and waits
/// (5) 100 ticks before it is back where it was.
pub open spec fn sandcroc_step(n: NPC, s: SharedGameStateView, players: [Player; 2]) -> NPC {
    let player = players[closest_player(n.x, n.y, players) as int];
    let table = s.constants.npc.n047_sandcroc;
    if n.action_num == 0 || n.action_num == 1 {
        let fresh = n.action_num == 0;
        let anim_num = if fresh {
            0
        } else {
            n.anim_num
        };
        let bites = sandcroc_bites(n, player);
        NPC {
            action_num: if bites {
                2
            } else {
                1
            },
            action_counter: if fresh || bites {
                0
            } else {
                n.action_counter
            },
            anim_num,
            target_y: if fresh {
                n.y
            } else {
                n.target_y
            },
            npc_flags: if fresh {
                buried(n.npc_flags)
            } else {
                n.npc_flags
            },
            x: n.x.wrapping_add(
                signum_spec(player.x.wrapping_sub(n.x)).wrapping_mul(2).wrapping_mul(0x200),
            ),
            anim_rect: table[anim_num as int],
            ..n
        }
    } else if n.action_num == 2 {
        let counter = n.anim_counter.wrapping_add(1);
        let anim_num = if counter > 3 {
            n.anim_num.wrapping_add(1)
        } else {
            n.anim_num
        };
        NPC {
            anim_counter: if counter > 3 {
                0
            } else {
                counter
            },
            anim_num,
            damage: if anim_num == 3 {
                10
            } else {
                n.damage
            },
            action_num: if anim_num == 4 {
                3
            } else {
                2
            },
            action_counter: if anim_num == 4 {
                0
            } else {
                n.action_counter
            },
            npc_flags: if anim_num == 4 {
                NPCFlag { shootable: true, ..n.npc_flags }
            } else {
                n.npc_flags
            },
            anim_rect: table[anim_num as int],
            ..n
        }
    } else if n.action_num == 3 {
        NPC {
            damage: 0,
            npc_flags: NPCFlag { solid_soft: true, ..n.npc_flags },
            action_num: if n.shock > 0 {
                4
            } else {
                3
            },
            action_counter: if n.shock > 0 {
                0
            } else {
                n.action_counter.wrapping_add(1)
            },
            anim_rect: table[n.anim_num as int],
            ..n
        }
    } else if n.action_num == 4 {
        let counter = n.action_counter.wrapping_add(1);
        NPC {
            y: n.y.wrapping_add(0x200),
            action_num: if counter == 32 {
                5
            } else {
                4
            },
            action_counter: if counter == 32 {
                0
            } else {
                counter
            },
            npc_flags: if counter == 32 {
                NPCFlag { ignore_solidity: true, solid_soft: false, shootable: false, ..n.npc_flags }
            } else {
                NPCFlag { ignore_solidity: true, ..n.npc_flags }
            },
            anim_rect: table[n.anim_num as int],
            ..n
        }
    } else if n.action_num == 5 {
        if n.action_counter > 99 {
            NPC { y: n.target_y, action_num: 0, anim_num: 0, anim_rect: table[0], ..n }
        } else {
            NPC {
                action_counter: n.action_counter.wrapping_add(1),
                anim_rect: table[n.anim_num as int],
                ..n
            }
        }
    } else {
        NPC { anim_rect: table[n.anim_num as int], ..n }
    }
}

/// Frame that the beast in the sand will show.
pub open spec fn sandcroc_frame(n: NPC) -> u16 {
    if n.action_num == 0 || (n.action_num == 5 && n.action_counter > 99) {
        0
    } else if n.action_num == 2 && n.anim_counter.wrapping_add(1) > 3 {
        n.anim_num.wrapping_add(1)
    } else {
        n.anim_num
    }
}

/// One tick of the guard in the doorway: it shows the frame of its facing.
pub open spec fn colon_a_step(n: NPC, s: SharedGameStateView) -> NPC {
    NPC {
        anim_rect: if n.direction == Direction::Left {
            s.constants.npc.n120_colon_a[0]
        } else {
            s.constants.npc.n120_colon_a[1]
        },
        ..n
    }
}

/// Whether the sleeper breathes out this tick: every 101st tick.
pub open spec fn colon_b_snores(n: NPC) -> bool {
    n.direction != Direction::Left && n.action_counter.wrapping_add(1) > 100
}

/// One tick of the second guard: facing left it idles and blinks; facing
/// any other way it sleeps.
pub open spec fn colon_b_step(n: NPC, s: SharedGameStateView) -> NPC {
    let table = s.constants.npc.n121_colon_b;
    if n.direction == Direction::Left {
        let to = idle_blink(n, 120, 10, 8);
        NPC {
            action_num: to.0,
            action_counter: to.1,
            anim_num: to.2,
            anim_counter: if n.action_num == 0 {
                0
            } else {
                n.anim_counter
            },
            rng: if n.action_num == 0 || n.action_num == 1 {
                n.rng.after()
            } else {
                n.rng
            },
            anim_rect: table[to.2 as int],
            ..n
        }
    } else {
        NPC {
            anim_rect: table[2],
            action_counter: if n.action_counter.wrapping_add(1) > 100 {
                0
            } else {
                n.action_counter.wrapping_add(1)
            },
            ..n
        }
    }
}

/// Whether the projectile hit the wall that it flies toward.
pub open spec fn bullet_breaks(n: NPC) -> bool {
    n.action_num == 1 && match n.direction {
        Direction::Left => n.flags.hit_left_wall,
        Direction::Up => n.flags.hit_top_wall,
        Direction::Right => n.flags.hit_right_wall,
        _ => n.flags.hit_bottom_wall,
    }
}

/// One tick of the boss's projectile: a fresh one takes its speed, 0x1000
/// along its facing and a drawn drift across; a flying one steps, and breaks
/// on the wall it flies toward. It shows the frame of its facing.
pub open spec fn curly_boss_bullet_step(n: NPC, s: SharedGameStateView) -> NPC {
    let drift = sample_in(-0x80, 0x80, n.rng.draw());
    let along = n.direction == Direction::Left || n.direction == Direction::Right;
    let rect = s.constants.npc.n123_curly_boss_bullet[n.direction.index() as int];
    if n.action_num == 0 {
        NPC {
            action_num: 1,
            rng: n.rng.after(),
            vel_x: if n.direction == Direction::Left {
                (-0x1000) as i32
            } else if n.direction == Direction::Right {
                0x1000
            } else {
                drift
            },
            vel_y: if n.direction == Direction::Up {
                (-0x1000) as i32
            } else if n.direction == Direction::Bottom {
                0x1000
            } else {
                drift
            },
            anim_rect: rect,
            ..n
        }
    } else if n.action_num == 1 {
        NPC {
            x: n.x.wrapping_add(n.vel_x),
            y: n.y.wrapping_add(n.vel_y),
            cond: Condition { alive: n.cond.alive && !bullet_breaks(n), ..n.cond },
            anim_rect: rect,
            ..n
        }
    } else {
        NPC { anim_rect: rect, ..n }
    }
}

/// What the projectile asks of the shared state: a muzzle flash and audio
/// cue 32 when it is fired; a dissipation where it breaks, with audio cue
/// 28.
pub open spec fn curly_boss_bullet_state(n: NPC, s: SharedGameStateView) -> SharedGameStateView {
    let fired = n.action_num == 0;
    let broke = bullet_breaks(n);
    s.with_caret_if(fired, n.x, n.y, CaretType::Shoot, Direction::Left).with_sfx_if(fired, 32).with_caret_if(
        broke,
        n.x.wrapping_add(n.vel_x),
        n.y.wrapping_add(n.vel_y),
        CaretType::ProjectileDissipation,
        Direction::Right,
    ).with_sfx_if(broke, 28)
}

/// One tick of the stone block: it rests (0, 1) or, once set off (10, 11),
/// slides the way it faces by a quarter unit per tick.
pub open spec fn sunstone_step(n: NPC, s: SharedGameStateView) -> NPC {
    let table = s.constants.npc.n124_sunstone;
    if n.action_num == 0 || n.action_num == 1 {
        NPC {
            action_num: 1,
            x: if n.action_num == 0 {
                n.x.wrapping_add(0x1000)
            } else {
                n.x
            },
            y: if n.action_num == 0 {
                n.y.wrapping_add(0x1000)
            } else {
                n.y
            },
            npc_flags: NPCFlag { ignore_solidity: false, ..n.npc_flags },
            anim_num: 0,
            anim_rect: table[0],
            ..n
        }
    } else if n.action_num == 10 || n.action_num == 11 {
        let fresh = n.action_num == 10;
        let anim_num = if fresh {
            1
        } else {
            n.anim_num
        };
        NPC {
            action_num: 11,
            action_counter: if fresh {
                0
            } else {
                n.action_counter
            },
            anim_num,
            npc_flags: if fresh {
                NPCFlag { ignore_solidity: true, ..n.npc_flags }
            } else {
                n.npc_flags
            },
            x: if n.direction == Direction::Left {
                n.x.wrapping_sub(0x80)
            } else if n.direction == Direction::Right {
                n.x.wrapping_add(0x80)
            } else {
                n.x
            },
            y: if n.direction == Direction::Up {
                n.y.wrapping_sub(0x80)
            } else if n.direction == Direction::Bottom {
                n.y.wrapping_add(0x80)
            } else {
                n.y
            },
            anim_rect: table[anim_num as int],
            ..n
        }
    } else {
        NPC { anim_rect: table[n.anim_num as int], ..n }
    }
}

/// Whether the stone block slides this tick.
pub open spec fn sunstone_slides(n: NPC) -> bool {
    n.action_num == 10 || n.action_num == 11
}

/// Whether the sliding stone block rumbles this tick: on every eighth tick
/// of its timer.
pub open spec fn sunstone_rumbles(n: NPC) -> bool {
    sunstone_slides(n) && (if n.action_num == 10 {
        0
    } else {
        n.action_counter as int
    }) % 8 == 0
}

/// Frame that the stone block will show.
pub open spec fn sunstone_frame(n: NPC) -> u16 {
    if n.action_num == 0 || n.action_num == 1 {
        0
    } else if n.action_num == 10 {
        1
    } else {
        n.anim_num
    }
}

impl NPC {
    pub(crate) fn polish_act(&mut self)
        ensures
            *final(self) == polish_act(*old(self)),
    {
        let f = self.flags;
        let mut action_num = self.action_num;
        let mut anim_num = self.anim_num;
        let mut vel_x = self.vel_x;
        let mut vel_y = self.vel_y;
        match action_num {
            0 | 1 => {
                anim_num = 0;
                action_num = match self.direction {
                    Direction::Left => 8,
                    Direction::Right => 2,
                    _ => 8,
                };
            },
            2 => {
                vel_y = vel_y.wrapping_add(0x20);
                if vel_y > 0 && f.hit_bottom_wall {
                    vel_y = -0x100;
                    vel_x = vel_x.wrapping_add(0x100);
                }
                if f.hit_right_wall {
                    action_num = 3;
                }
            },
            3 => {
                vel_x = vel_x.wrapping_add(0x20);
                if vel_x > 0 && f.hit_right_wall {
                    vel_x = -0x100;
                    vel_y = vel_y.wrapping_sub(0x100);
                }
                if f.hit_top_wall {
                    action_num = 4;
                }
            },
            4 => {
                vel_y = vel_y.wrapping_sub(0x20);
                if vel_y < 0 && f.hit_top_wall {
                    vel_y = 0x100;
                    vel_x = vel_x.wrapping_sub(0x100);
                }
                if f.hit_left_wall {
                    action_num = 5;
                }
            },
            5 => {
                vel_x = vel_x.wrapping_sub(0x20);
                if vel_x < 0 && f.hit_left_wall {
                    vel_x = 0x100;
                    vel_y = vel_y.wrapping_add(0x100);
                }
                if f.hit_bottom_wall {
                    action_num = 2;
                }
            },
            6 => {
                vel_y = vel_y.wrapping_add(0x20);
                if vel_y > 0 && f.hit_bottom_wall {
                    vel_y = -0x100;
                    vel_x = vel_x.wrapping_sub(0x100);
                }
                if f.hit_left_wall {
                    action_num = 7;
                }
            },
            7 => {
                vel_x = vel_x.wrapping_sub(0x20);
                if vel_x < 0 && f.hit_left_wall {
                    vel_x = 0x100;
                    vel_y = vel_y.wrapping_sub(0x100);
                }
                if f.hit_top_wall {
                    action_num = 8;
                }
            },
            8 => {
                vel_y = vel_y.wrapping_sub(0x20);
                if vel_y < 0 && f.hit_top_wall {
                    vel_y = 0x100;
                    vel_x = vel_x.wrapping_add(0x100);
                }
                if f.hit_right_wall {
                    action_num = 9;
                }
            },
            9 => {
                vel_x = vel_x.wrapping_add(0x20);
                if vel_x > 0 && f.hit_right_wall {
                    vel_x = -0x100;
                    vel_y = vel_y.wrapping_add(0x100);
                }
                if f.hit_bottom_wall {
                    action_num = 6;
                }
            },
            _ => {},
        }
        *self = NPC { action_num, anim_num, vel_x, vel_y, ..*self };
    }

    fn polish_settle(&mut self, state: &SharedGameState)
        requires
            (if old(self).action_num > 1 && old(self).action_num <= 9 {
                if old(self).anim_num.wrapping_add(1) > 2 {
                    1int
                } else {
                    old(self).anim_num.wrapping_add(1) as int
                }
            } else {
                old(self).anim_num as int
            }) + side_offset(old(self).direction, 3) < 6,
        ensures
            *final(self) == polish_settle(*old(self), state@),
    {
        let alive = self.cond.alive && !(self.life <= 100);
        let vel_x = clamp(self.vel_x, -0x200, 0x200);
        let vel_y = clamp(self.vel_y, -0x200, 0x200);
        let x = self.x.wrapping_add(step_of(self.shock, vel_x));
        let y = self.y.wrapping_add(step_of(self.shock, vel_y));
        let mut anim_num = self.anim_num;
        if self.action_num > 1 && self.action_num <= 9 {
            anim_num = anim_num.wrapping_add(1);
            if anim_num > 2 {
                anim_num = 1;
            }
        }
        let dir_offset: usize = if self.direction == Direction::Left {
            0
        } else {
            3
        };
        let anim_rect = state.constants.npc.n044_polish[anim_num as usize + dir_offset];
        *self = NPC {
            cond: Condition { alive, ..self.cond },
            vel_x,
            vel_y,
            x,
            y,
            anim_num,
            anim_rect,
            ..*self
        };
    }

    pub fn tick_n044_polish(&mut self, state: &mut SharedGameState, npc_list: &mut NPCList)
        requires
            old(npc_list).wf(),
            polish_index(*old(self)) < 6,
        ensures
            final(npc_list).wf(),
            (NpcWorld { npc: *final(self), state: final(state)@, npcs: final(npc_list)@ })
                == polish_step(
                NpcWorld { npc: *old(self), state: old(state)@, npcs: old(npc_list)@ },
            ),
    {
        self.polish_act();
        let bursts = self.life <= 100;
        let mut rng = self.rng;
        npc_list.create_death_smoke_if(
            bursts,
            self.x,
            self.y,
            self.display_bounds.right,
            8,
            state,
            &mut rng,
        );
        state.play_sfx_if(bursts, 25);
        let young = make_template(45, self.x, self.y, state);
        npc_list.spawn_copies(if bursts { 9 } else { 0 }, 0x100, young);
        self.store_rng(rng);
        self.polish_settle(state);
    }

    fn draw_baby_speed(rng: &mut Xoroshiro32PlusPlus) -> (r: i32)
        ensures
            (r, *final(rng)) == baby_speed(*old(rng)),
    {
        let mut low = *rng;
        let negative = low.next_u16() & 1 != 0;
        let mut high = low;
        let below = low.range(-0x200..-0x100);
        let above = high.range(0x100..0x200);
        *rng = low;
        if negative {
            below
        } else {
            above
        }
    }

    pub fn tick_n045_baby(&mut self, state: &SharedGameState)
        requires
            baby_step(*old(self), state@).anim_num < 3,
        ensures
            *final(self) == baby_step(*old(self), state@),
    {
        let f = self.flags;
        let mut action_num = self.action_num;
        let mut anim_num = self.anim_num;
        let mut vel_x = self.vel_x;
        let mut vel_y = self.vel_y;
        let mut vel_x2 = self.vel_x2;
        let mut vel_y2 = self.vel_y2;
        let mut rng = self.rng;
        if action_num == 0 {
            action_num = 2;
            vel_x = Self::draw_baby_speed(&mut rng);
            vel_y = Self::draw_baby_speed(&mut rng);
            vel_x2 = vel_x;
            vel_y2 = vel_y;
        }
        if action_num == 1 || action_num == 2 {
            anim_num = anim_num.wrapping_add(1);
            if anim_num > 2 {
                anim_num = 1;
            }
        }
        if vel_x2 < 0 && f.hit_left_wall {
            vel_x2 = neg(vel_x2);
        }
        if vel_x2 > 0 && f.hit_right_wall {
            vel_x2 = neg(vel_x2);
        }
        if vel_y2 < 0 && f.hit_top_wall {
            vel_y2 = neg(vel_y2);
        }
        if vel_y2 > 0 && f.hit_bottom_wall {
            vel_y2 = neg(vel_y2);
        }
        vel_x2 = clamp(vel_x2, -0x200, 0x200);
        vel_y2 = clamp(vel_y2, -0x200, 0x200);
        let x = self.x.wrapping_add(step_of(self.shock, vel_x2));
        let y = self.y.wrapping_add(step_of(self.shock, vel_y2));
        let anim_rect = state.constants.npc.n045_baby[anim_num as usize];
        *self = NPC {
            action_num,
            vel_x,
            vel_y,
            vel_x2,
            vel_y2,
            rng,
            anim_num,
            x,
            y,
            anim_rect,
            ..*self
        };
    }

    fn sandcroc_lurk(&mut self, state: &SharedGameState, players: &[Player; 2]) -> (bites: bool)
        requires
            old(self).action_num == 0 || old(self).action_num == 1,
            sandcroc_frame(*old(self)) < 5,
        ensures
            *final(self) == sandcroc_step(*old(self), state@, *players),
            bites == ((old(self).action_num == 0 || old(self).action_num == 1) && sandcroc_bites(
                *old(self),
                players[closest_player(old(self).x, old(self).y, *players) as int],
            )),
    {
        let i = self.get_closest_player_idx(players);
        let player = &players[i];
        let mut action_num = self.action_num;
        let mut action_counter = self.action_counter;
        let mut anim_num = self.anim_num;
        let mut target_y = self.target_y;
        let mut npc_flags = self.npc_flags;
        let mut bites = false;
        if action_num == 0 {
            action_num = 1;
            action_counter = 0;
            anim_num = 0;
            target_y = self.y;
            npc_flags = NPCFlag {
                shootable: false,
                ignore_solidity: false,
                invulnerable: false,
                solid_soft: false,
                ..npc_flags
            };
        }
        if abs(self.x.wrapping_sub(player.x)) < 8 * 0x200 && player.y > self.y && player.y
            < self.y.wrapping_add(8 * 0x200) {
            action_num = 2;
            action_counter = 0;
            bites = true;
        }
        let x = self.x.wrapping_add(
            signum(player.x.wrapping_sub(self.x)).wrapping_mul(2).wrapping_mul(0x200),
        );
        *self = NPC {
            action_num,
            action_counter,
            anim_num,
            target_y,
            npc_flags,
            x,
            anim_rect: state.constants.npc.n047_sandcroc[anim_num as usize],
            ..*self
        };
        bites
    }

    fn sandcroc_snap(&mut self, state: &SharedGameState, players: &[Player; 2]) -> (bites: bool)
        requires
            old(self).action_num == 2 || old(self).action_num == 3,
            sandcroc_frame(*old(self)) < 5,
        ensures
            *final(self) == sandcroc_step(*old(self), state@, *players),
            bites == ((old(self).action_num == 0 || old(self).action_num == 1) && sandcroc_bites(
                *old(self),
                players[closest_player(old(self).x, old(self).y, *players) as int],
            )),
    {
        let mut action_num = self.action_num;
        let mut action_counter = self.action_counter;
        let mut anim_num = self.anim_num;
        let mut anim_counter = self.anim_counter;
        let mut npc_flags = self.npc_flags;
        let mut damage = self.damage;
        if action_num == 2 {
            anim_counter = anim_counter.wrapping_add(1);
            if anim_counter > 3 {
                anim_num = anim_num.wrapping_add(1);
                anim_counter = 0;
            }
            if anim_num == 3 {
                damage = 10;
            } else if anim_num == 4 {
                action_num = 3;
                action_counter = 0;
                npc_flags = NPCFlag { shootable: true, ..npc_flags };
            }
        } else {
            damage = 0;
            npc_flags = NPCFlag { solid_soft: true, ..npc_flags };
            action_counter = action_counter.wrapping_add(1);
            if self.shock > 0 {
                action_num = 4;
                action_counter = 0;
            }
        }
        *self = NPC {
            action_num,
            action_counter,
            anim_num,
            anim_counter,
            npc_flags,
            damage,
            anim_rect: state.constants.npc.n047_sandcroc[anim_num as usize],
            ..*self
        };
        false
    }

    fn sandcroc_sink(&mut self, state: &SharedGameState, players: &[Player; 2]) -> (bites: bool)
        requires
            old(self).action_num >= 4,
            sandcroc_frame(*old(self)) < 5,
        ensures
            *final(self) == sandcroc_step(*old(self), state@, *players),
            bites == ((old(self).action_num == 0 || old(self).action_num == 1) && sandcroc_bites(
                *old(self),
                players[closest_player(old(self).x, old(self).y, *players) as int],
            )),
    {
        let mut action_num = self.action_num;
        let mut action_counter = self.action_counter;
        let mut anim_num = self.anim_num;
        let mut npc_flags = self.npc_flags;
        let mut y = self.y;
        if action_num == 4 {
            y = y.wrapping_add(0x200);
            action_counter = action_counter.wrapping_add(1);
            if action_counter == 32 {
                action_num = 5;
                action_counter = 0;
                npc_flags = NPCFlag {
                    ignore_solidity: true,
                    solid_soft: false,
                    shootable: false,
                    ..npc_flags
                };
            } else {
                npc_flags = NPCFlag { ignore_solidity: true, ..npc_flags };
            }
        } else if action_num == 5 {
            if action_counter > 99 {
                y = self.target_y;
                action_num = 0;
                anim_num = 0;
            } else {
                action_counter = action_counter.wrapping_add(1);
            }
        }
        *self = NPC {
            action_num,
            action_counter,
            anim_num,
            npc_flags,
            y,
            anim_rect: state.constants.npc.n047_sandcroc[anim_num as usize],
            ..*self
        };
        false
    }

    fn sandcroc_move(&mut self, state: &SharedGameState, players: &[Player; 2]) -> (bites: bool)
        requires
            sandcroc_frame(*old(self)) < 5,
        ensures
            *final(self) == sandcroc_step(*old(self), state@, *players),
            bites == ((old(self).action_num == 0 || old(self).action_num == 1) && sandcroc_bites(
                *old(self),
                players[closest_player(old(self).x, old(self).y, *players) as int],
            )),
    {
        match self.action_num {
            0 | 1 => self.sandcroc_lurk(state, players),
            2 | 3 => self.sandcroc_snap(state, players),
            _ => self.sandcroc_sink(state, players),
        }
    }

    pub fn tick_n047_sandcroc(&mut self, state: &mut SharedGameState, players: &[Player; 2])
        requires
            sandcroc_frame(*old(self)) < 5,
        ensures
            *final(self) == sandcroc_step(*old(self), old(state)@, *players),
            final(state)@ == old(state)@.with_sfx_if(
                (old(self).action_num == 0 || old(self).action_num == 1) && sandcroc_bites(
                    *old(self),
                    players[closest_player(old(self).x, old(self).y, *players) as int],
                ),
                102,
            ),
    {
        let bites = self.sandcroc_move(state, players);
        state.play_sfx_if(bites, 102);
    }

    /// One tick of the skull that another entity carries: it does nothing
    /// of its own.
    pub fn tick_n049_skullhead(&mut self, _state: &SharedGameState, _npc_list: &NPCList)
        ensures
            *final(self) == *old(self),
    {
    }

    pub fn tick_n120_colon_a(&mut self, state: &SharedGameState)
        ensures
            *final(self) == colon_a_step(*old(self), state@),
    {
        let anim_rect = match self.direction {
            Direction::Left => state.constants.npc.n120_colon_a[0],
            _ => state.constants.npc.n120_colon_a[1],
        };
        *self = NPC { anim_rect, ..*self };
    }

    fn colon_b_move(&mut self, state: &SharedGameState) -> (snores: bool)
        requires
            old(self).direction == Direction::Left ==> idle_blink(*old(self), 120, 10, 8).2 < 3,
        ensures
            *final(self) == colon_b_step(*old(self), state@),
            snores == colon_b_snores(*old(self)),
    {
        if self.direction == Direction::Left {
            let to = self.blink(120, 10, 8);
            let anim_counter = if self.action_num == 0 {
                0
            } else {
                self.anim_counter
            };
            let anim_rect = state.constants.npc.n121_colon_b[to.2 as usize];
            *self = NPC {
                action_num: to.0,
                action_counter: to.1,
                anim_num: to.2,
                anim_counter,
                rng: to.3,
                anim_rect,
                ..*self
            };
            false
        } else {
            let counter = self.action_counter.wrapping_add(1);
            let snores = counter > 100;
            *self = NPC {
                anim_rect: state.constants.npc.n121_colon_b[2],
                action_counter: if snores {
                    0
                } else {
                    counter
                },
                ..*self
            };
            snores
        }
    }

    pub fn tick_n121_colon_b(&mut self, state: &mut SharedGameState)
        requires
            old(self).direction == Direction::Left ==> idle_blink(*old(self), 120, 10, 8).2 < 3,
        ensures
            *final(self) == colon_b_step(*old(self), old(state)@),
            final(state)@ == old(state)@.with_caret_if(
                colon_b_snores(*old(self)),
                old(self).x,
                old(self).y,
                CaretType::Zzz,
                Direction::Left,
            ),
    {
        let (x, y) = (self.x, self.y);
        let snores = self.colon_b_move(state);
        state.create_caret_if(snores, x, y, CaretType::Zzz, Direction::Left);
    }

    fn curly_boss_bullet_move(&mut self, state: &SharedGameState) -> (broke: bool)
        requires
            old(self).direction != Direction::FacingPlayer,
        ensures
            *final(self) == curly_boss_bullet_step(*old(self), state@),
            broke == bullet_breaks(*old(self)),
    {
        let rect = state.constants.npc.n123_curly_boss_bullet[self.direction.index()];
        let mut rng = self.rng;
        if self.action_num == 0 {
            let rand = rng.range(-0x80..0x80);
            let (vel_x, vel_y) = match self.direction {
                Direction::Left => (-0x1000, rand),
                Direction::Up => (rand, -0x1000),
                Direction::Right => (0x1000, rand),
                _ => (rand, 0x1000),
            };
            *self = NPC { action_num: 1, rng, vel_x, vel_y, anim_rect: rect, ..*self };
            false
        } else if self.action_num == 1 {
            let broke = match self.direction {
                Direction::Left => self.flags.hit_left_wall,
                Direction::Up => self.flags.hit_top_wall,
                Direction::Right => self.flags.hit_right_wall,
                _ => self.flags.hit_bottom_wall,
            };
            *self = NPC {
                x: self.x.wrapping_add(self.vel_x),
                y: self.y.wrapping_add(self.vel_y),
                cond: Condition { alive: self.cond.alive && !broke, ..self.cond },
                anim_rect: rect,
                ..*self
            };
            broke
        } else {
            *self = NPC { anim_rect: rect, ..*self };
            false
        }
    }

    pub fn tick_n123_curly_boss_bullet(&mut self, state: &mut SharedGameState)
        requires
            old(self).direction != Direction::FacingPlayer,
        ensures
            *final(self) == curly_boss_bullet_step(*old(self), old(state)@),
            final(state)@ == curly_boss_bullet_state(*old(self), old(state)@),
    {
        let fired = self.action_num == 0;
        let (x, y) = (self.x, self.y);
        let broke = self.curly_boss_bullet_move(state);
        state.create_caret_if(fired, x, y, CaretType::Shoot, Direction::Left);
        state.play_sfx_if(fired, 32);
        state.create_caret_if(
            broke,
            self.x,
            self.y,
            CaretType::ProjectileDissipation,
            Direction::Right,
        );
        state.play_sfx_if(broke, 28);
    }

    fn sunstone_move(&mut self, state: &SharedGameState)
        requires
            sunstone_frame(*old(self)) < 2,
        ensures
            *final(self) == sunstone_step(*old(self), state@),
    {
        let mut action_num = self.action_num;
        let mut action_counter = self.action_counter;
        let mut anim_num = self.anim_num;
        let mut npc_flags = self.npc_flags;
        let mut x = self.x;
        let mut y = self.y;
        match action_num {
            0 | 1 => {
                if action_num == 0 {
                    action_num = 1;
                    x = x.wrapping_add(8 * 0x200);
                    y = y.wrapping_add(8 * 0x200);
                }
                npc_flags = NPCFlag { ignore_solidity: false, ..npc_flags };
                anim_num = 0;
            },
            10 | 11 => {
                if action_num == 10 {
                    action_num = 11;
                    action_counter = 0;
                    anim_num = 1;
                    npc_flags = NPCFlag { ignore_solidity: true, ..npc_flags };
                }
                match self.direction {
                    Direction::Left => {
                        x = x.wrapping_sub(0x80);
                    },
                    Direction::Up => {
                        y = y.wrapping_sub(0x80);
                    },
                    Direction::Right => {
                        x = x.wrapping_add(0x80);
                    },
                    Direction::Bottom => {
                        y = y.wrapping_add(0x80);
                    },
                    Direction::FacingPlayer => {},
                }
            },
            _ => {},
        }
        let anim_rect = state.constants.npc.n124_sunstone[anim_num as usize];
        *self = NPC { action_num, action_counter, anim_num, npc_flags, x, y, anim_rect, ..*self };
    }

    pub fn tick_n124_sunstone(&mut self, state: &mut SharedGameState)
        requires
            sunstone_frame(*old(self)) < 2,
        ensures
            *final(self) == sunstone_step(*old(self), old(state)@),
            final(state)@ == old(state)@.with_quake_if(sunstone_slides(*old(self)), 20).with_sfx_if(
                sunstone_rumbles(*old(self)),
                26,
            ),
    {
        let slides = self.action_num == 10 || self.action_num == 11;
        let rumbles = slides && (if self.action_num == 10 {
            0
        } else {
            self.action_counter
        }) % 8 == 0;
        self.sunstone_move(state);
        state.set_quake_if(slides, 20);
        state.play_sfx_if(rumbles, 26);
    }
}


/// Whether the boss aims upward: the player stands behind her back.
pub open spec fn looks_up(n: NPC, target_x: i32) -> bool {
    (n.direction == Direction::Left && n.x < target_x) || (n.direction == Direction::Right && n.x
        > target_x)
}

/// Push of 0x40 along the facing.
pub open spec fn nudge(direction: Direction) -> i32 {
    if direction == Direction::Left {
        (-0x40) as i32
    } else {
        0x40
    }
}

/// What the boss does in the state she is in. She waits (10, 11) and then
/// charges (13, 14), each for a drawn time; she brakes and takes aim (20)
/// for 50 ticks, and fires (21) for 30 ticks, a shot on every fourth; she
/// shields herself (30) for 30 ticks.
pub open spec fn curly_boss_act(n: NPC, target_x: i32) -> NPC {
    let a = n.action_num;
    if a == 0 {
        NPC { action_num: 1, anim_num: 0, anim_counter: 0, ..n }
    } else if a == 10 || a == 11 {
        let counter = if a == 10 {
            sample_in(50, 100, n.rng.draw()) as u16
        } else {
            n.action_counter
        };
        NPC {
            action_num: if counter != 0 {
                11
            } else {
                13
            },
            action_counter: if counter != 0 {
                (counter - 1) as u16
            } else {
                counter
            },
            anim_num: if a == 10 {
                0
            } else {
                n.anim_num
            },
            direction: if a == 10 {
                facing_toward(n.x, target_x)
            } else {
                n.direction
            },
            npc_flags: if a == 10 {
                NPCFlag { shootable: true, invulnerable: false, ..n.npc_flags }
            } else {
                n.npc_flags
            },
            rng: if a == 10 {
                n.rng.after()
            } else {
                n.rng
            },
            ..n
        }
    } else if a == 13 || a == 14 {
        let fresh = a == 13;
        let counter = if fresh {
            sample_in(50, 100, n.rng.draw()) as u16
        } else {
            n.action_counter
        };
        let direction = if fresh {
            facing_toward(n.x, target_x)
        } else {
            n.direction
        };
        let to = if fresh {
            frame_cycle(3, n.anim_counter, 2, 6, 3)
        } else {
            frame_cycle(n.anim_num, n.anim_counter, 2, 6, 3)
        };
        NPC {
            action_num: if counter != 0 {
                14
            } else {
                20
            },
            action_counter: if counter != 0 {
                (counter - 1) as u16
            } else {
                0
            },
            anim_num: to.0,
            anim_counter: to.1,
            direction,
            vel_x: n.vel_x.wrapping_add(nudge(direction)),
            npc_flags: if counter != 0 {
                n.npc_flags
            } else {
                NPCFlag { shootable: true, ..n.npc_flags }
            },
            rng: if fresh {
                n.rng.after()
            } else {
                n.rng
            },
            ..n
        }
    } else if a == 20 {
        let counter = n.action_counter.wrapping_add(1);
        NPC {
            direction: facing_toward(n.x, target_x),
            vel_x: scale_spec(n.vel_x, 8, 9),
            anim_num: if n.anim_num.wrapping_add(1) > 1 {
                0
            } else {
                n.anim_num.wrapping_add(1)
            },
            action_num: if counter > 50 {
                21
            } else {
                20
            },
            action_counter: if counter > 50 {
                0
            } else {
                counter
            },
            ..n
        }
    } else if a == 21 {
        let counter = n.action_counter.wrapping_add(1);
        NPC {
            action_counter: counter,
            anim_num: if counter % 4 != 1 {
                n.anim_num
            } else if looks_up(n, target_x) {
                2
            } else {
                0
            },
            action_num: if counter > 30 {
                10
            } else {
                21
            },
            ..n
        }
    } else if a == 30 {
        let counter = n.action_counter.wrapping_add(1);
        NPC {
            action_counter: counter,
            anim_num: if counter > 30 {
                0
            } else if n.anim_num.wrapping_add(1) > 8 {
                7
            } else {
                n.anim_num.wrapping_add(1)
            },
            action_num: if counter > 30 {
                10
            } else {
                30
            },
            ..n
        }
    } else {
        n
    }
}

/// Whether the charge of the boss ends this tick, with audio cue 103.
pub open spec fn curly_boss_roars(n: NPC) -> bool {
    (n.action_num == 13 && sample_in(50, 100, n.rng.draw()) as u16 == 0) || (n.action_num == 14
        && n.action_counter == 0)
}

/// Whether the boss fires this tick.
pub open spec fn curly_boss_fires(n: NPC) -> bool {
    n.action_num == 21 && n.action_counter.wrapping_add(1) % 4 == 1
}

/// The shot of the boss: upward from above her head when she aims up, else
/// forward from her hand.
pub open spec fn curly_boss_shot(n: NPC, target_x: i32, s: SharedGameStateView) -> NPC {
    let shot = spawn_template(123, n.x, n.y, s);
    if looks_up(n, target_x) {
        NPC { y: n.y.wrapping_sub(0x1000), direction: Direction::Up, ..shot }
    } else {
        NPC {
            x: if n.direction == Direction::Left {
                n.x.wrapping_sub(0x1000)
            } else {
                n.x.wrapping_add(0x1000)
            },
            y: n.y.wrapping_add(0x800),
            direction: n.direction,
            ..shot
        }
    }
}

/// The boss after she acted: a missile in flight (`threatened`) makes her
/// shield herself unless she idles or already does; then her speeds are
/// bounded, gravity pulls, the position steps and the frame of her facing
/// is shown.
pub open spec fn curly_boss_settle(m: NPC, threatened: bool, s: SharedGameStateView) -> NPC {
    let shields = m.action_num > 10 && m.action_num < 30 && threatened;
    let q = if shields {
        NPC {
            action_num: 30,
            action_counter: 0,
            anim_num: 7,
            npc_flags: NPCFlag { shootable: false, invulnerable: true, ..m.npc_flags },
            vel_x: 0,
            ..m
        }
    } else {
        m
    };
    let vel_x = clamp_spec(q.vel_x as int, -0x1ff, 0x1ff) as i32;
    let vel_y = clamp_max_spec(q.vel_y.wrapping_add(0x20) as int, 0x5ff) as i32;
    NPC {
        vel_x,
        vel_y,
        x: q.x.wrapping_add(vel_x),
        y: q.y.wrapping_add(vel_y),
        anim_rect: s.constants.npc.n118_curly_boss[sided_index(q, 9)],
        ..q
    }
}

/// Frame that the boss will show, as a position in her table.
pub open spec fn curly_boss_index(n: NPC, target_x: i32, threatened: bool) -> int {
    let m = curly_boss_act(n, target_x);
    if m.action_num > 10 && m.action_num < 30 && threatened {
        7 + side_offset(m.direction, 9)
    } else {
        sided_index(m, 9)
    }
}

/// One tick of the boss.
pub open spec fn curly_boss_step(w: NpcWorld, players: [Player; 2], bullets: Seq<crate::bullet::Bullet>)
    -> NpcWorld {
    let n = w.npc;
    let target_x = players[closest_player(n.x, n.y, players) as int].x;
    let m = curly_boss_act(n, target_x);
    let s = w.state.with_sfx_if(curly_boss_roars(n), 103);
    NpcWorld {
        npc: curly_boss_settle(m, count_of_weapon(bullets, 6) > 0, s),
        state: s,
        npcs: spawned_if(w.npcs, curly_boss_fires(n), 0x100, curly_boss_shot(m, target_x, s)),
    }
}

/// What the enraged guard does in the state he is in. He idles (0, 1, 2),
/// turning to a player who comes near; roused, he waits (10, 11) and runs
/// (13, 14) for drawn times and then leaps (15); thrown (20) he lies (21)
/// for a drawn time and gets up again.
pub open spec fn colon_enraged_act(n: NPC, player: Player) -> NPC {
    let a = n.action_num;
    if a == 0 || a == 1 || a == 2 {
        let to = idle_blink(n, 120, 10, 8);
        let near = abs_spec(player.x.wrapping_sub(n.x)) < 32 * 0x200 && abs_spec(
            player.y.wrapping_sub(n.y),
        ) < 32 * 0x200;
        NPC {
            action_num: to.0,
            action_counter: to.1,
            anim_num: to.2,
            anim_counter: if a == 0 {
                0
            } else {
                n.anim_counter
            },
            rng: if a == 2 {
                n.rng
            } else {
                n.rng.after()
            },
            direction: if a != 2 && near {
                facing_toward(n.x, player.x)
            } else {
                n.direction
            },
            ..n
        }
    } else if a == 10 || a == 11 {
        let counter = if a == 10 {
            sample_in(0, 50, n.rng.draw()) as u16
        } else {
            n.action_counter
        };
        NPC {
            life: if a == 10 {
                1000
            } else {
                n.life
            },
            damage: if a == 10 {
                0
            } else {
                n.damage
            },
            anim_num: if a == 10 {
                0
            } else {
                n.anim_num
            },
            action_num: if counter != 0 {
                11
            } else {
                13
            },
            action_counter: if counter != 0 {
                (counter - 1) as u16
            } else {
                counter
            },
            rng: if a == 10 {
                n.rng.after()
            } else {
                n.rng
            },
            ..n
        }
    } else if a == 13 || a == 14 {
        let fresh = a == 13;
        let counter = if fresh {
            sample_in(0, 50, n.rng.draw()) as u16
        } else {
            n.action_counter
        };
        let direction = if fresh {
            facing_toward(n.x, player.x)
        } else {
            n.direction
        };
        let to = frame_cycle(n.anim_num, n.anim_counter, 2, 5, 2);
        let leaps = counter == 0;
        NPC {
            action_num: if leaps {
                15
            } else {
                14
            },
            action_counter: if leaps {
                counter
            } else {
                (counter - 1) as u16
            },
            direction,
            anim_num: if leaps {
                2
            } else {
                to.0
            },
            anim_counter: to.1,
            vel_x: n.vel_x.wrapping_add(nudge(direction)),
            vel_y: if leaps {
                (-0x200) as i32
            } else {
                n.vel_y
            },
            damage: if leaps {
                2
            } else {
                n.damage
            },
            npc_flags: if leaps {
                NPCFlag { shootable: true, ..n.npc_flags }
            } else {
                n.npc_flags
            },
            rng: if fresh {
                n.rng.after()
            } else {
                n.rng
            },
            ..n
        }
    } else if a == 15 {
        if n.flags.hit_bottom_wall {
            NPC {
                npc_flags: NPCFlag { shootable: true, ..n.npc_flags },
                vel_x: 0,
                action_num: 10,
                damage: 0,
                ..n
            }
        } else {
            n
        }
    } else if a == 20 {
        if n.flags.hit_bottom_wall {
            NPC {
                vel_x: 0,
                action_num: 21,
                damage: 0,
                anim_num: if n.anim_num == 6 {
                    8
                } else {
                    9
                },
                action_counter: sample_in(300, 400, n.rng.draw()) as u16,
                rng: n.rng.after(),
                ..n
            }
        } else {
            n
        }
    } else if a == 21 {
        if n.action_counter > 0 {
            NPC { action_counter: (n.action_counter - 1) as u16, ..n }
        } else {
            NPC {
                npc_flags: NPCFlag { shootable: true, ..n.npc_flags },
                life: 1000,
                action_num: 11,
                action_counter: sample_in(0, 50, n.rng.draw()) as u16,
                anim_num: 0,
                rng: n.rng.after(),
                ..n
            }
        }
    } else {
        n
    }
}

/// The enraged guard after he acted: one who was hurt while roused is
/// thrown, showing a drawn frame; then his speeds are bounded, gravity
/// pulls, the position steps and the frame of his facing is shown.
pub open spec fn colon_enraged_settle(m: NPC, s: SharedGameStateView) -> NPC {
    let thrown = m.action_num > 10 && m.action_num < 20 && m.life != 1000;
    let q = if thrown {
        NPC {
            action_num: 20,
            vel_y: (-0x200) as i32,
            anim_num: sample_in(6, 7, m.rng.draw()) as u16,
            npc_flags: NPCFlag { shootable: false, ..m.npc_flags },
            rng: m.rng.after(),
            ..m
        }
    } else {
        m
    };
    let vel_x = clamp_spec(q.vel_x as int, -0x1ff, 0x1ff) as i32;
    let vel_y = clamp_max_spec(q.vel_y.wrapping_add(0x20) as int, 0x5ff) as i32;
    NPC {
        vel_x,
        vel_y,
        x: q.x.wrapping_add(vel_x),
        y: q.y.wrapping_add(vel_y),
        anim_rect: s.constants.npc.n122_colon_enraged[sided_index(q, 10)],
        ..q
    }
}

/// Frame that the enraged guard will show, as a position in his table.
pub open spec fn colon_enraged_index(m: NPC) -> int {
    if m.action_num > 10 && m.action_num < 20 && m.life != 1000 {
        (sample_in(6, 7, m.rng.draw()) as u16) as int + side_offset(m.direction, 10)
    } else {
        sided_index(m, 10)
    }
}

/// One tick of the enraged guard.
pub open spec fn colon_enraged_step(n: NPC, s: SharedGameStateView, players: [Player; 2]) -> NPC {
    colon_enraged_settle(
        colon_enraged_act(n, players[closest_player(n.x, n.y, players) as int]),
        s,
    )
}

impl NPC {
    /// A timer length drawn from `lo ..= hi` on the entity's own stream.
    fn draw_timer(rng: &mut Xoroshiro32PlusPlus, lo: i32, hi: i32) -> (r: u16)
        requires
            0 <= lo <= hi < i32::MAX,
        ensures
            r == sample_in(lo as int, hi as int, old(rng).draw()) as u16,
            *final(rng) == old(rng).after(),
    {
        let mut stream = *rng;
        let drawn = stream.range(lo..hi);
        *rng = stream;
        #[verifier::truncate]
        (drawn as u16)
    }

    fn curly_boss_wait(&mut self, target_x: i32) -> (r: (bool, bool))
        requires
            old(self).action_num == 10 || old(self).action_num == 11,
        ensures
            *final(self) == curly_boss_act(*old(self), target_x),
            r.0 == curly_boss_roars(*old(self)),
            r.1 == curly_boss_fires(*old(self)),
    {
        let mut action_num = self.action_num;
        let mut action_counter = self.action_counter;
        let mut anim_num = self.anim_num;
        let mut rng = self.rng;
        let mut direction = self.direction;
        let mut npc_flags = self.npc_flags;
        if action_num == 10 {
            action_num = 11;
            action_counter = Self::draw_timer(&mut rng, 50, 100);
            anim_num = 0;
            direction = face_toward(self.x, target_x);
            npc_flags = NPCFlag { shootable: true, invulnerable: false, ..npc_flags };
        }
        if action_counter != 0 {
            action_counter -= 1;
        } else {
            action_num = 13;
        }
        *self = NPC { action_num, action_counter, anim_num, direction, npc_flags, rng, ..*self };
        (false, false)
    }

    fn curly_boss_charge(&mut self, target_x: i32) -> (r: (bool, bool))
        requires
            old(self).action_num == 13 || old(self).action_num == 14,
        ensures
            *final(self) == curly_boss_act(*old(self), target_x),
            r.0 == curly_boss_roars(*old(self)),
            r.1 == curly_boss_fires(*old(self)),
    {
        let mut action_num = self.action_num;
        let mut action_counter = self.action_counter;
        let mut anim_num = self.anim_num;
        let mut rng = self.rng;
        let mut direction = self.direction;
        let mut npc_flags = self.npc_flags;
        let mut roars = false;
        if action_num == 13 {
            action_num = 14;
            action_counter = Self::draw_timer(&mut rng, 50, 100);
            anim_num = 3;
            direction = face_toward(self.x, target_x);
        }
        let to = cycle(anim_num, self.anim_counter, 2, 6, 3);
        let vel_x = self.vel_x.wrapping_add(
            if direction == Direction::Left {
                -0x40
            } else {
                0x40
            },
        );
        if action_counter != 0 {
            action_counter -= 1;
        } else {
            npc_flags = NPCFlag { shootable: true, ..npc_flags };
            action_num = 20;
            action_counter = 0;
            roars = true;
        }
        *self = NPC {
            action_num,
            action_counter,
            anim_num: to.0,
            anim_counter: to.1,
            direction,
            vel_x,
            npc_flags,
            rng,
            ..*self
        };
        (roars, false)
    }

    fn curly_boss_shoot(&mut self, target_x: i32) -> (r: (bool, bool))
        requires
            old(self).action_num == 20 || old(self).action_num == 21 || old(self).action_num == 30,
        ensures
            *final(self) == curly_boss_act(*old(self), target_x),
            r.0 == curly_boss_roars(*old(self)),
            r.1 == curly_boss_fires(*old(self)),
    {
        let looking_up = (self.direction == Direction::Left && self.x < target_x) || (
        self.direction == Direction::Right && self.x > target_x);
        let mut action_num = self.action_num;
        let mut action_counter = self.action_counter.wrapping_add(1);
        let mut anim_num = self.anim_num;
        if action_num == 20 {
            anim_num = anim_num.wrapping_add(1);
            if anim_num > 1 {
                anim_num = 0;
            }
            if action_counter > 50 {
                action_num = 21;
                action_counter = 0;
            }
            *self = NPC {
                direction: face_toward(self.x, target_x),
                vel_x: scale(self.vel_x, 8, 9),
                anim_num,
                action_num,
                action_counter,
                ..*self
            };
            (false, false)
        } else if action_num == 21 {
            let fires = action_counter % 4 == 1;
            if fires {
                anim_num = if looking_up {
                    2
                } else {
                    0
                };
            }
            if action_counter > 30 {
                action_num = 10;
            }
            *self = NPC { action_counter, anim_num, action_num, ..*self };
            (false, fires)
        } else {
            anim_num = anim_num.wrapping_add(1);
            if anim_num > 8 {
                anim_num = 7;
            }
            if action_counter > 30 {
                action_num = 10;
                anim_num = 0;
            }
            *self = NPC { action_counter, anim_num, action_num, ..*self };
            (false, false)
        }
    }

    pub(crate) fn curly_boss_act(&mut self, target_x: i32) -> (r: (bool, bool))
        ensures
            *final(self) == curly_boss_act(*old(self), target_x),
            r.0 == curly_boss_roars(*old(self)),
            r.1 == curly_boss_fires(*old(self)),
    {
        match self.action_num {
            0 => {
                *self = NPC { action_num: 1, anim_num: 0, anim_counter: 0, ..*self };
                (false, false)
            },
            10 | 11 => self.curly_boss_wait(target_x),
            13 | 14 => self.curly_boss_charge(target_x),
            20 | 21 | 30 => self.curly_boss_shoot(target_x),
            _ => (false, false),
        }
    }

    fn curly_boss_settle(&mut self, threatened: bool, state: &SharedGameState)
        requires
            (if old(self).action_num > 10 && old(self).action_num < 30 && threatened {
                7 + side_offset(old(self).direction, 9)
            } else {
                sided_index(*old(self), 9)
            }) < 18,
        ensures
            *final(self) == curly_boss_settle(*old(self), threatened, state@),
    {
        let mut action_num = self.action_num;
        let mut action_counter = self.action_counter;
        let mut anim_num = self.anim_num;
        let mut npc_flags = self.npc_flags;
        let mut vel_x = self.vel_x;
        if action_num > 10 && action_num < 30 && threatened {
            action_num = 30;
            action_counter = 0;
            anim_num = 7;
            npc_flags = NPCFlag { shootable: false, invulnerable: true, ..npc_flags };
            vel_x = 0;
        }
        vel_x = clamp(vel_x, -0x1ff, 0x1ff);
        let vel_y = clamp_max(self.vel_y.wrapping_add(0x20), 0x5ff);
        let anim_rect = if self.direction == Direction::Left {
            state.constants.npc.n118_curly_boss[anim_num as usize]
        } else {
            state.constants.npc.n118_curly_boss[anim_num as usize + 9]
        };
        *self = NPC {
            action_num,
            action_counter,
            anim_num,
            npc_flags,
            vel_x,
            vel_y,
            x: self.x.wrapping_add(vel_x),
            y: self.y.wrapping_add(vel_y),
            anim_rect,
            ..*self
        };
    }

    fn curly_boss_shot(&self, looking_up: bool, state: &SharedGameState) -> (r: NPC)
        ensures
            forall|target_x: i32|
                looking_up == looks_up(*self, target_x) ==> r == curly_boss_shot(
                    *self,
                    target_x,
                    state@,
                ),
    {
        let shot = make_template(123, self.x, self.y, state);
        if looking_up {
            NPC { y: self.y.wrapping_sub(8 * 0x200), direction: Direction::Up, ..shot }
        } else {
            NPC {
                x: if self.direction == Direction::Left {
                    self.x.wrapping_sub(8 * 0x200)
                } else {
                    self.x.wrapping_add(8 * 0x200)
                },
                y: self.y.wrapping_add(4 * 0x200),
                direction: self.direction,
                ..shot
            }
        }
    }

    pub fn tick_n118_curly_boss(
        &mut self,
        state: &mut SharedGameState,
        players: &[Player; 2],
        npc_list: &mut NPCList,
        bullet_manager: &BulletManager,
    )
        requires
            old(npc_list).wf(),
            curly_boss_index(
                *old(self),
                players[closest_player(old(self).x, old(self).y, *players) as int].x,
                count_of_weapon(bullet_manager@, 6) > 0,
            ) < 18,
        ensures
            final(npc_list).wf(),
            (NpcWorld { npc: *final(self), state: final(state)@, npcs: final(npc_list)@ })
                == curly_boss_step(
                NpcWorld { npc: *old(self), state: old(state)@, npcs: old(npc_list)@ },
                *players,
                bullet_manager@,
            ),
    {
        let i = self.get_closest_player_idx(players);
        let target_x = players[i].x;
        let (roars, fires) = self.curly_boss_act(target_x);
        state.play_sfx_if(roars, 103);
        let looking_up = (self.direction == Direction::Left && self.x < target_x) || (
        self.direction == Direction::Right && self.x > target_x);
        let shot = self.curly_boss_shot(looking_up, state);
        npc_list.spawn_if(fires, 0x100, shot);
        let threatened = bullet_manager.count_bullets_type_idx_all(6) > 0;
        self.curly_boss_settle(threatened, state);
    }

    fn colon_enraged_idle(&mut self, player: &Player)
        requires
            old(self).action_num <= 2,
        ensures
            *final(self) == colon_enraged_act(*old(self), *player),
    {
        let action_num = self.action_num;
        let anim_counter = if action_num == 0 {
            0
        } else {
            self.anim_counter
        };
        let mut direction = self.direction;
        if action_num != 2 && abs(player.x.wrapping_sub(self.x)) < 32 * 0x200 && abs(
            player.y.wrapping_sub(self.y),
        ) < 32 * 0x200 {
            direction = face_toward(self.x, player.x);
        }
        let to = self.blink(120, 10, 8);
        *self = NPC {
            action_num: to.0,
            action_counter: to.1,
            anim_num: to.2,
            anim_counter,
            rng: to.3,
            direction,
            ..*self
        };
    }

    fn colon_enraged_wait(&mut self, player: &Player)
        requires
            old(self).action_num == 10 || old(self).action_num == 11,
        ensures
            *final(self) == colon_enraged_act(*old(self), *player),
    {
        let mut action_num = self.action_num;
        let mut action_counter = self.action_counter;
        let mut anim_num = self.anim_num;
        let mut rng = self.rng;
        let mut life = self.life;
        let mut damage = self.damage;
        if action_num == 10 {
            life = 1000;
            action_num = 11;
            action_counter = Self::draw_timer(&mut rng, 0, 50);
            anim_num = 0;
            damage = 0;
        }
        if action_counter != 0 {
            action_counter -= 1;
        } else {
            action_num = 13;
        }
        *self = NPC { life, damage, anim_num, action_num, action_counter, rng, ..*self };
    }

    fn colon_enraged_run(&mut self, player: &Player)
        requires
            old(self).action_num == 13 || old(self).action_num == 14,
        ensures
            *final(self) == colon_enraged_act(*old(self), *player),
    {
        let mut action_num = self.action_num;
        let mut action_counter = self.action_counter;
        let mut rng = self.rng;
        let mut direction = self.direction;
        let mut npc_flags = self.npc_flags;
        let mut vel_y = self.vel_y;
        let mut damage = self.damage;
        if action_num == 13 {
            action_num = 14;
            action_counter = Self::draw_timer(&mut rng, 0, 50);
            direction = face_toward(self.x, player.x);
        }
        let to = cycle(self.anim_num, self.anim_counter, 2, 5, 2);
        let mut anim_num = to.0;
        let vel_x = self.vel_x.wrapping_add(
            if direction == Direction::Left {
                -0x40
            } else {
                0x40
            },
        );
        if action_counter > 0 {
            action_counter -= 1;
        } else {
            npc_flags = NPCFlag { shootable: true, ..npc_flags };
            action_num = 15;
            anim_num = 2;
            vel_y = -0x200;
            damage = 2;
        }
        *self = NPC {
            action_num,
            action_counter,
            direction,
            anim_num,
            anim_counter: to.1,
            vel_x,
            vel_y,
            damage,
            npc_flags,
            rng,
            ..*self
        };
    }

    fn colon_enraged_land(&mut self, player: &Player)
        requires
            old(self).action_num == 15 || old(self).action_num == 20 || old(self).action_num == 21,
        ensures
            *final(self) == colon_enraged_act(*old(self), *player),
    {
        let mut rng = self.rng;
        if self.action_num == 15 {
            if self.flags.hit_bottom_wall {
                *self = NPC {
                    npc_flags: NPCFlag { shootable: true, ..self.npc_flags },
                    vel_x: 0,
                    action_num: 10,
                    damage: 0,
                    ..*self
                };
            }
        } else if self.action_num == 20 {
            if self.flags.hit_bottom_wall {
                let anim_num: u16 = if self.anim_num == 6 {
                    8
                } else {
                    9
                };
                let action_counter = Self::draw_timer(&mut rng, 300, 400);
                *self = NPC {
                    vel_x: 0,
                    action_num: 21,
                    damage: 0,
                    anim_num,
                    action_counter,
                    rng,
                    ..*self
                };
            }
        } else if self.action_counter > 0 {
            *self = NPC { action_counter: self.action_counter - 1, ..*self };
        } else {
            let action_counter = Self::draw_timer(&mut rng, 0, 50);
            *self = NPC {
                npc_flags: NPCFlag { shootable: true, ..self.npc_flags },
                life: 1000,
                action_num: 11,
                action_counter,
                anim_num: 0,
                rng,
                ..*self
            };
        }
    }

    pub(crate) fn colon_enraged_act(&mut self, player: &Player)
        ensures
            *final(self) == colon_enraged_act(*old(self), *player),
    {
        match self.action_num {
            0 | 1 | 2 => self.colon_enraged_idle(player),
            10 | 11 => self.colon_enraged_wait(player),
            13 | 14 => self.colon_enraged_run(player),
            15 | 20 | 21 => self.colon_enraged_land(player),
            _ => {},
        }
    }

    fn colon_enraged_settle(&mut self, state: &SharedGameState)
        requires
            colon_enraged_index(*old(self)) < 20,
        ensures
            *final(self) == colon_enraged_settle(*old(self), state@),
    {
        let mut action_num = self.action_num;
        let mut anim_num = self.anim_num;
        let mut npc_flags = self.npc_flags;
        let mut vel_y = self.vel_y;
        let mut rng = self.rng;
        if action_num > 10 && action_num < 20 && self.life != 1000 {
            action_num = 20;
            vel_y = -0x200;
            anim_num = Self::draw_timer(&mut rng, 6, 7);
            npc_flags = NPCFlag { shootable: false, ..npc_flags };
        }
        let vel_x = clamp(self.vel_x, -0x1ff, 0x1ff);
        let vel_y = clamp_max(vel_y.wrapping_add(0x20), 0x5ff);
        let anim_rect = if self.direction == Direction::Left {
            state.constants.npc.n122_colon_enraged[anim_num as usize]
        } else {
            state.constants.npc.n122_colon_enraged[anim_num as usize + 10]
        };
        *self = NPC {
            action_num,
            anim_num,
            npc_flags,
            rng,
            vel_x,
            vel_y,
            x: self.x.wrapping_add(vel_x),
            y: self.y.wrapping_add(vel_y),
            anim_rect,
            ..*self
        };
    }

    pub fn tick_n122_colon_enraged(&mut self, state: &SharedGameState, players: &[Player; 2])
        requires
            colon_enraged_index(
                colon_enraged_act(
                    *old(self),
                    players[closest_player(old(self).x, old(self).y, *players) as int],
                ),
            ) < 20,
        ensures
            *final(self) == colon_enraged_step(*old(self), state@, *players),
    {
        let i = self.get_closest_player_idx(players);
        self.colon_enraged_act(&players[i]);
        self.colon_enraged_settle(state);
    }
}

} // verus!
