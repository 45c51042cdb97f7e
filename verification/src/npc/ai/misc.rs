//! Scenery and small things: doors, chests, signs, sparkles and smoke.

use vstd::prelude::*;
use crate::caret::CaretType;
use crate::common::{Condition, Direction, NPCFlag, Rect};
use crate::fix9::{clamp, clamp_spec, rem_trunc, scale, scale_spec};
use crate::npc::ai::{
    advance,
    clouds,
    fall,
    fallen,
    frame_advance,
    frame_loop,
    loop_frames,
    make_template,
    puffs,
    smoke_radius,
    spawn_puffs,
    spawn_template,
    spawned_if,
    NpcWorld,
};
use crate::npc::list::NPCList;
use crate::npc::NPC;
use crate::rng::{sample_in, Xoroshiro32PlusPlus, RNG};
use crate::shared_game_state::{SharedGameState, SharedGameStateView};

verus! {

/// The entity set up by its first tick: state 0 becomes state 1.
pub open spec fn started(action_num: u16) -> u16 {
    if action_num == 0 {
        1
    } else {
        action_num
    }
}

/// One of two rectangles by the facing: the first when facing left, the
/// second when facing right, and `kept` otherwise.
pub open spec fn faced_rect(table: [Rect<u16>; 2], direction: Direction, kept: Rect<u16>) -> Rect<
    u16,
> {
    if direction == Direction::Left {
        table[0]
    } else if direction == Direction::Right {
        table[1]
    } else {
        kept
    }
}

fn rect_by_facing(table: &[Rect<u16>; 2], direction: Direction, kept: Rect<u16>) -> (r: Rect<u16>)
    ensures
        r == faced_rect(*table, direction, kept),
{
    match direction {
        Direction::Left => table[0],
        Direction::Right => table[1],
        _ => kept,
    }
}

/// One tick of the invisible marker: a fresh one facing right sits a tile
/// lower; it shows a blank tile.
pub open spec fn null_step(n: NPC) -> NPC {
    NPC {
        action_num: started(n.action_num),
        y: if n.action_num == 0 && n.direction == Direction::Right {
            n.y.wrapping_add(0x2000)
        } else {
            n.y
        },
        anim_rect: Rect { left: 0, top: 0, right: 16, bottom: 16 },
        ..n
    }
}

/// Ticks that the remains of an enemy last.
pub const REMAINS_TICKS: u16 = 100;

/// One tick of the remains of an enemy: they show nothing and are gone on
/// their hundredth tick.
pub open spec fn dead_enemy_step(n: NPC) -> NPC {
    let fresh = n.action_num != 0xffff;
    let counter = (if fresh {
        0
    } else {
        n.action_counter2
    }).wrapping_add(1);
    NPC {
        action_num: 0xffff,
        action_counter2: counter,
        anim_rect: if fresh {
            Rect { left: 0, top: 0, right: 0, bottom: 0 }
        } else {
            n.anim_rect
        },
        cond: Condition { alive: n.cond.alive && counter != REMAINS_TICKS, ..n.cond },
        ..n
    }
}

/// What fresh smoke draws from its stream to be thrown: an angle in units of
/// 1/5000 radian and a radius for each axis.
#[derive(Clone, Copy, Debug, PartialEq, Eq, Structural)]
pub struct SmokeBurst {
    pub angle: i32,
    pub radius_x: i32,
    pub radius_y: i32,
}

/// Whether fresh smoke is thrown, which it is when it faces left or up.
pub open spec fn smoke_thrown(n: NPC) -> bool {
    n.action_num == 0 && (n.direction == Direction::Left || n.direction == Direction::Up)
}

/// The draws of smoke that is thrown, from the third to the fifth state of
/// its stream.
pub open spec fn smoke_burst(n: NPC) -> SmokeBurst {
    let r2 = n.rng.after().after();
    SmokeBurst {
        angle: sample_in(0, 31415, r2.draw()),
        radius_x: sample_in(0x200, 0x5ff, r2.after().draw()),
        radius_y: sample_in(0x200, 0x5ff, r2.after().after().draw()),
    }
}

/// Frame and timer that smoke starts its tick with: drawn where it is
/// fresh.
pub open spec fn smoke_start(n: NPC) -> (u16, u16) {
    if n.action_num == 0 {
        (
            sample_in(0, 4, n.rng.draw()) as u16,
            sample_in(0, 3, n.rng.after().draw()) as u16,
        )
    } else {
        (n.anim_num, n.anim_counter)
    }
}

/// Whether the frame of smoke advances this tick.
pub open spec fn smoke_advances(n: NPC) -> bool {
    smoke_start(n).1.wrapping_add(1) > 4
}

/// Frame and timer of smoke after this tick.
pub open spec fn smoke_frame(n: NPC) -> (u16, u16) {
    let start = smoke_start(n);
    if smoke_advances(n) {
        (start.0.wrapping_add(1), 0)
    } else {
        (start.0, start.1.wrapping_add(1))
    }
}

/// Position of the frame of smoke in its table, by its facing; smoke facing
/// neither left, right nor up keeps the rectangle it has.
pub open spec fn smoke_index(n: NPC) -> int {
    if n.direction == Direction::Left || n.direction == Direction::Right {
        smoke_frame(n).0 as int
    } else if n.direction == Direction::Up {
        smoke_frame(n).0 as int + 8
    } else {
        0
    }
}

/// One tick of a puff of smoke. A fresh puff draws its frame and timer, and
/// the draws of its throw where it is thrown; an older one drifts, losing a
/// twenty-first of its speed each tick. Every fifth tick the frame advances,
/// and the puff is gone after its eighth frame.
pub open spec fn smoke_step(n: NPC, s: SharedGameStateView) -> NPC {
    let fresh = n.action_num == 0;
    let vel_x = if fresh {
        n.vel_x
    } else {
        scale_spec(n.vel_x, 20, 21)
    };
    let vel_y = if fresh {
        n.vel_y
    } else {
        scale_spec(n.vel_y, 20, 21)
    };
    let to = smoke_frame(n);
    NPC {
        action_num: started(n.action_num),
        rng: if smoke_thrown(n) {
            n.rng.after().after().after().after().after()
        } else if fresh {
            n.rng.after().after()
        } else {
            n.rng
        },
        vel_x,
        vel_y,
        x: if fresh {
            n.x
        } else {
            n.x.wrapping_add(vel_x)
        },
        y: if fresh {
            n.y
        } else {
            n.y.wrapping_add(vel_y)
        },
        anim_num: to.0,
        anim_counter: to.1,
        cond: Condition { alive: n.cond.alive && !(smoke_advances(n) && to.0 > 7), ..n.cond },
        anim_rect: if n.direction == Direction::Left || n.direction == Direction::Right
            || n.direction == Direction::Up {
            s.constants.npc.n004_smoke[smoke_index(n)]
        } else {
            n.anim_rect
        },
        ..n
    }
}

/// One tick of the force field: every second tick it shows the next of its
/// four frames.
pub open spec fn forcefield_step(n: NPC, s: SharedGameStateView) -> NPC {
    let counter = (n.anim_counter.wrapping_add(1) % 2) as u16;
    let anim_num = if counter == 1 {
        (n.anim_num.wrapping_add(1) % 4) as u16
    } else {
        n.anim_num
    };
    NPC {
        anim_counter: counter,
        anim_num,
        anim_rect: if counter == 1 {
            s.constants.npc.n013_forcefield[anim_num as int]
        } else {
            n.anim_rect
        },
        ..n
    }
}

/// One tick of the key: a fresh one facing right hops; on the floor it can
/// be picked up; it glints and falls.
pub open spec fn key_step(n: NPC, s: SharedGameStateView) -> NPC {
    let to = frame_advance(n.anim_num, n.anim_counter, 1, 2, 0);
    let vel_y = fallen(
        if n.action_num == 0 && n.direction == Direction::Right {
            (-0x200) as i32
        } else {
            n.vel_y
        },
        0x40,
    );
    NPC {
        action_num: started(n.action_num),
        npc_flags: NPCFlag {
            interactable: n.npc_flags.interactable || n.flags.hit_bottom_wall,
            ..n.npc_flags
        },
        anim_num: to.0,
        anim_counter: to.1,
        vel_y,
        y: n.y.wrapping_add(vel_y),
        anim_rect: s.constants.npc.n014_key[to.0 as int],
        ..n
    }
}

/// Whether a fresh chest pops out of what held it, with four puffs.
pub open spec fn chest_pops(n: NPC) -> bool {
    n.action_num == 0 && n.direction == Direction::Right
}

/// One tick of the closed chest, given the stream that the puffs left. It
/// rests (0, 1) and now and then, drawn from `0 ..= 30`, glints (2) through
/// its three frames; it falls.
pub open spec fn chest_closed_step(n: NPC, rng: Xoroshiro32PlusPlus, s: SharedGameStateView)
    -> NPC {
    let table = s.constants.npc.n015_closed_chest;
    let vel_y = fallen(
        if chest_pops(n) {
            (-0x200) as i32
        } else {
            n.vel_y
        },
        0x40,
    );
    if n.action_num == 0 || n.action_num == 1 {
        NPC {
            action_num: if sample_in(0, 30, rng.draw()) == 0 {
                2
            } else {
                1
            },
            npc_flags: if n.action_num == 0 {
                NPCFlag { interactable: true, ..n.npc_flags }
            } else {
                n.npc_flags
            },
            anim_rect: if n.action_num == 0 {
                table[0]
            } else {
                n.anim_rect
            },
            anim_num: 0,
            rng: rng.after(),
            vel_y,
            y: n.y.wrapping_add(vel_y),
            ..n
        }
    } else if n.action_num == 2 {
        let counter = n.anim_counter.wrapping_add(1);
        let done = counter > 1 && n.anim_num.wrapping_add(1) > 2;
        NPC {
            anim_rect: if n.anim_counter == 0 {
                table[n.anim_num as int]
            } else {
                n.anim_rect
            },
            anim_counter: if counter > 1 {
                0
            } else {
                counter
            },
            anim_num: if done {
                0
            } else if counter > 1 {
                n.anim_num.wrapping_add(1)
            } else {
                n.anim_num
            },
            action_num: if done {
                1
            } else {
                2
            },
            rng,
            vel_y,
            y: n.y.wrapping_add(vel_y),
            ..n
        }
    } else {
        NPC { rng, vel_y, y: n.y.wrapping_add(vel_y), ..n }
    }
}

/// One tick of the closed chest with its puffs.
pub open spec fn chest_closed_world(w: NpcWorld) -> NpcWorld {
    let n = w.npc;
    let (rng, npcs) = puffs(
        spawn_template(4, n.x, n.y, w.state),
        true,
        n.rng,
        w.npcs,
        if chest_pops(n) {
            4
        } else {
            0
        },
    );
    NpcWorld { npc: chest_closed_step(n, rng, w.state), state: w.state, npcs }
}

/// One tick of the save point: a fresh one facing right hops and cannot be
/// used in the air; on the floor it can; it turns through its eight frames
/// and falls.
pub open spec fn save_point_step(n: NPC, s: SharedGameStateView) -> NPC {
    let hops = n.action_num == 0 && n.direction == Direction::Right;
    let to = frame_loop(n.anim_counter, 24, 3);
    let vel_y = fallen(
        if hops {
            (-0x200) as i32
        } else {
            n.vel_y
        },
        0x40,
    );
    NPC {
        action_num: started(n.action_num),
        npc_flags: NPCFlag {
            interactable: (n.npc_flags.interactable && !hops) || n.flags.hit_bottom_wall,
            ..n.npc_flags
        },
        anim_num: to.0,
        anim_counter: to.1,
        anim_rect: s.constants.npc.n016_save_point[to.0 as int],
        vel_y,
        y: n.y.wrapping_add(vel_y),
        ..n
    }
}

/// One tick of the health refill. It picks (1) what to do next and for how
/// long, both drawn: stay dark (2), flicker (3) or stay lit (4); each lasts
/// until its timer has run down. It falls.
pub open spec fn health_refill_step(n: NPC, s: SharedGameStateView) -> NPC {
    let table = s.constants.npc.n017_health_refill;
    let a = started(n.action_num);
    let vel_y = fallen(n.vel_y, 0x40);
    let y = n.y.wrapping_add(vel_y);
    let ends = n.action_counter == 0;
    let counter = if ends {
        n.action_counter
    } else {
        (n.action_counter - 1) as u16
    };
    if a == 1 {
        let rand = sample_in(0, 30, n.rng.draw());
        NPC {
            action_num: if rand < 10 {
                2
            } else if rand < 25 {
                3
            } else {
                4
            },
            action_counter: sample_in(0x10, 0x40, n.rng.after().draw()) as u16,
            anim_counter: 0,
            rng: n.rng.after().after(),
            vel_y,
            y,
            ..n
        }
    } else if a == 2 || a == 4 {
        let lit: u16 = if a == 4 {
            1
        } else {
            0
        };
        NPC {
            anim_rect: table[lit as int],
            anim_num: lit,
            action_counter: counter,
            action_num: if ends {
                1
            } else {
                a
            },
            vel_y,
            y,
            ..n
        }
    } else if a == 3 {
        let flicker = n.anim_counter.wrapping_add(1);
        let lit: u16 = if flicker % 2 == 0 {
            1
        } else {
            0
        };
        NPC {
            anim_counter: flicker,
            anim_rect: table[lit as int],
            anim_num: lit,
            action_counter: counter,
            action_num: if ends {
                1
            } else {
                3
            },
            vel_y,
            y,
            ..n
        }
    } else {
        NPC { vel_y, y, ..n }
    }
}

/// Whether the door was just opened, which throws four puffs.
pub open spec fn door_bursts(n: NPC) -> bool {
    n.action_num == 1
}

/// One tick of the door, given the stream that the puffs left: it shows the
/// frame of its facing, and one that was just opened goes back to rest.
pub open spec fn door_step(n: NPC, rng: Xoroshiro32PlusPlus, s: SharedGameStateView) -> NPC {
    if n.action_num == 0 {
        NPC { anim_rect: faced_rect(s.constants.npc.n018_door, n.direction, n.anim_rect), rng, ..n }
    } else if n.action_num == 1 {
        NPC { action_num: 0, anim_rect: s.constants.npc.n018_door[0], rng, ..n }
    } else {
        NPC { rng, ..n }
    }
}

/// One tick of the door with its puffs.
pub open spec fn door_world(w: NpcWorld) -> NpcWorld {
    let n = w.npc;
    let (rng, npcs) = puffs(
        spawn_template(4, n.x, n.y, w.state),
        false,
        n.rng,
        w.npcs,
        if door_bursts(n) {
            4
        } else {
            0
        },
    );
    NpcWorld { npc: door_step(n, rng, w.state), state: w.state, npcs }
}

/// One tick of the computer: facing left it is off; facing right its screen
/// runs through three frames.
pub open spec fn computer_step(n: NPC, s: SharedGameStateView) -> NPC {
    let table = s.constants.npc.n020_computer;
    if n.direction == Direction::Left && n.anim_num == 0 {
        NPC { anim_num: 1, anim_rect: table[0], ..n }
    } else if n.direction == Direction::Right {
        let to = frame_loop(n.anim_counter, 12, 4);
        NPC { anim_counter: to.1, anim_num: to.0, anim_rect: table[1 + to.0 as int], ..n }
    } else {
        n
    }
}

/// One tick of the open chest: a fresh one facing right sits a tile lower.
pub open spec fn chest_open_step(n: NPC, s: SharedGameStateView) -> NPC {
    if n.action_num == 0 {
        NPC {
            action_num: 1,
            y: if n.direction == Direction::Right {
                n.y.wrapping_add(0x2000)
            } else {
                n.y
            },
            anim_rect: s.constants.npc.n021_chest_open,
            ..n
        }
    } else {
        n
    }
}

/// One tick of the teleporter: at rest it shows its first frame once; in
/// use (1) it flashes between its two frames.
pub open spec fn teleporter_step(n: NPC, s: SharedGameStateView) -> NPC {
    let table = s.constants.npc.n022_teleporter;
    if n.action_num == 0 && n.anim_counter == 0 {
        NPC { anim_counter: 1, anim_rect: table[0], ..n }
    } else if n.action_num == 1 {
        let anim_num = n.anim_num.wrapping_add(1) & 1;
        NPC { anim_num, anim_rect: table[anim_num as int], ..n }
    } else {
        n
    }
}

/// One tick of the teleporter lights: the frame advances every second tick
/// through eight frames, and is shown on the ticks between.
pub open spec fn teleporter_lights_step(n: NPC, s: SharedGameStateView) -> NPC {
    let to = frame_advance(n.anim_num, n.anim_counter, 1, 7, 0);
    NPC {
        anim_num: to.0,
        anim_counter: to.1,
        anim_rect: if to.1 == 1 {
            s.constants.npc.n023_teleporter_lights[n.anim_num as int]
        } else {
            n.anim_rect
        },
        ..n
    }
}

/// One tick of a thing that only shows its rectangle from its first tick on.
pub open spec fn shown_once(n: NPC, rect: Rect<u16>) -> NPC {
    if n.action_num == 0 {
        NPC { action_num: 1, anim_rect: rect, ..n }
    } else {
        n
    }
}

/// Whether the sleeping gunsmith breathes out this tick.
pub open spec fn gunsmith_snores(n: NPC) -> bool {
    n.direction != Direction::Left && n.action_counter.wrapping_add(1) > 100
}

/// Height of the gunsmith after this tick: a fresh sleeper lies a tile
/// lower.
pub open spec fn gunsmith_y(n: NPC) -> i32 {
    if n.direction != Direction::Left && n.action_num == 0 {
        n.y.wrapping_add(0x2000)
    } else {
        n.y
    }
}

/// One tick of the gunsmith: facing left he stands and now and then, drawn
/// from `0 ..= 120`, blinks for eight ticks; else he sleeps.
pub open spec fn gunsmith_step(n: NPC, s: SharedGameStateView) -> NPC {
    let table = s.constants.npc.n030_hermit_gunsmith;
    if n.direction == Direction::Left {
        if n.action_num == 0 {
            NPC { action_num: 1, anim_counter: 0, anim_rect: table[0], ..n }
        } else if n.action_num == 1 {
            if sample_in(0, 120, n.rng.draw()) == 10 {
                NPC {
                    action_num: 2,
                    action_counter: 8,
                    anim_counter: 0,
                    anim_rect: table[1],
                    rng: n.rng.after(),
                    ..n
                }
            } else {
                NPC { anim_counter: 0, rng: n.rng.after(), ..n }
            }
        } else if n.action_num == 2 && n.action_counter > 0 {
            NPC { action_counter: (n.action_counter - 1) as u16, anim_rect: table[0], ..n }
        } else {
            n
        }
    } else {
        NPC {
            action_num: started(n.action_num),
            anim_rect: if n.action_num == 0 {
                table[2]
            } else {
                n.anim_rect
            },
            y: gunsmith_y(n),
            action_counter: if n.action_counter.wrapping_add(1) > 100 {
                0
            } else {
                n.action_counter.wrapping_add(1)
            },
            ..n
        }
    }
}

/// One tick of a thing with two frames that flip every second tick.
pub open spec fn flipping(n: NPC, table: [Rect<u16>; 2]) -> NPC {
    let to = frame_loop(n.anim_counter, 4, 2);
    NPC { anim_counter: to.1, anim_num: to.0, anim_rect: table[to.0 as int], ..n }
}

/// One tick of a thing with four frames, four ticks each.
pub open spec fn flickering(n: NPC, table: [Rect<u16>; 4]) -> NPC {
    let to = frame_loop(n.anim_counter, 16, 4);
    NPC { anim_counter: to.1, anim_num: to.0, anim_rect: table[to.0 as int], ..n }
}

/// One tick of a thing that from its first tick on shows the frame of its
/// facing, moved by `lift` on that tick.
pub open spec fn placed_by_facing(n: NPC, table: [Rect<u16>; 2], lift: i32) -> NPC {
    if n.action_num == 0 {
        NPC {
            action_num: 1,
            y: n.y.wrapping_add(lift),
            anim_rect: faced_rect(table, n.direction, n.anim_rect),
            ..n
        }
    } else {
        n
    }
}

/// One tick of the busted door: a fresh one hangs a tile higher.
pub open spec fn busted_door_step(n: NPC, s: SharedGameStateView) -> NPC {
    if n.action_num == 0 {
        NPC {
            action_num: 1,
            anim_rect: s.constants.npc.n041_busted_door,
            y: n.y.wrapping_sub(0x2000),
            ..n
        }
    } else {
        n
    }
}

/// One tick of the fireplace: it burns (0) through four frames, and once
/// put out (10, 11) shows nothing.
pub open spec fn fireplace_step(n: NPC, s: SharedGameStateView) -> NPC {
    if n.action_num == 0 {
        flickering(n, s.constants.npc.n038_fireplace)
    } else if n.action_num == 10 || n.action_num == 11 {
        NPC { action_num: 11, anim_rect: Rect { left: 0, right: 0, ..n.anim_rect }, ..n }
    } else {
        n
    }
}

impl NPC {
    pub fn tick_n000_null(&mut self)
        ensures
            *final(self) == null_step(*old(self)),
    {
        let mut action_num = self.action_num;
        let mut y = self.y;
        if action_num == 0 {
            action_num = 1;
            if self.direction == Direction::Right {
                y = y.wrapping_add(16 * 0x200);
            }
        }
        *self = NPC {
            action_num,
            y,
            anim_rect: Rect { left: 0, top: 0, right: 16, bottom: 16 },
            ..*self
        };
    }

    pub fn tick_n003_dead_enemy(&mut self)
        ensures
            *final(self) == dead_enemy_step(*old(self)),
    {
        let mut action_counter2 = self.action_counter2;
        let mut anim_rect = self.anim_rect;
        let mut alive = self.cond.alive;
        if self.action_num != 0xffff {
            action_counter2 = 0;
            anim_rect = Rect { left: 0, top: 0, right: 0, bottom: 0 };
        }
        action_counter2 = action_counter2.wrapping_add(1);
        if action_counter2 == REMAINS_TICKS {
            alive = false;
        }
        *self = NPC {
            action_num: 0xffff,
            action_counter2,
            anim_rect,
            cond: Condition { alive, ..self.cond },
            ..*self
        };
    }

    /// One tick of a puff of smoke. Where the puff is thrown, the draws of
    /// its throw are handed back: the speed that they stand for,
    /// `radius * cos(angle)` and `radius * sin(angle)`, is for the caller to
    /// work out and to set with `throw_smoke`.
    pub fn tick_n004_smoke(&mut self, state: &SharedGameState) -> (burst: Option<SmokeBurst>)
        requires
            smoke_index(*old(self)) < 16,
        ensures
            *final(self) == smoke_step(*old(self), state@),
            burst == (if smoke_thrown(*old(self)) {
                Some(smoke_burst(*old(self)))
            } else {
                None
            }),
    {
        let mut action_num = self.action_num;
        let mut anim_num = self.anim_num;
        let mut anim_counter = self.anim_counter;
        let mut vel_x = self.vel_x;
        let mut vel_y = self.vel_y;
        let mut x = self.x;
        let mut y = self.y;
        let mut alive = self.cond.alive;
        let mut rng = self.rng;
        let mut burst: Option<SmokeBurst> = None;
        if action_num == 0 {
            action_num = 1;
            anim_num = #[verifier::truncate]
            (rng.range(0..4) as u16);
            anim_counter = #[verifier::truncate]
            (rng.range(0..3) as u16);
            if self.direction == Direction::Left || self.direction == Direction::Up {
                let angle = rng.range(0..31415);
                let radius_x = rng.range(0x200..0x5ff);
                let radius_y = rng.range(0x200..0x5ff);
                burst = Some(SmokeBurst { angle, radius_x, radius_y });
            }
        } else {
            vel_x = scale(vel_x, 20, 21);
            vel_y = scale(vel_y, 20, 21);
            x = x.wrapping_add(vel_x);
            y = y.wrapping_add(vel_y);
        }
        anim_counter = anim_counter.wrapping_add(1);
        if anim_counter > 4 {
            anim_counter = 0;
            anim_num = anim_num.wrapping_add(1);
            if anim_num > 7 {
                alive = false;
            }
        }
        let anim_rect = match self.direction {
            Direction::Left | Direction::Right => state.constants.npc.n004_smoke[anim_num as usize],
            Direction::Up => state.constants.npc.n004_smoke[anim_num as usize + 8],
            _ => self.anim_rect,
        };
        *self = NPC {
            action_num,
            rng,
            vel_x,
            vel_y,
            x,
            y,
            anim_num,
            anim_counter,
            cond: Condition { alive, ..self.cond },
            anim_rect,
            ..*self
        };
        burst
    }

    /// Sets the speed that a thrown puff of smoke flies off with.
    pub fn throw_smoke(&mut self, vel_x: i32, vel_y: i32)
        ensures
            *final(self) == (NPC { vel_x, vel_y, ..*old(self) }),
    {
        *self = NPC { vel_x, vel_y, ..*self };
    }

    pub fn tick_n013_forcefield(&mut self, state: &SharedGameState)
        ensures
            *final(self) == forcefield_step(*old(self), state@),
    {
        let anim_counter = self.anim_counter.wrapping_add(1) % 2;
        let mut anim_num = self.anim_num;
        let mut anim_rect = self.anim_rect;
        if anim_counter == 1 {
            anim_num = anim_num.wrapping_add(1) % 4;
            anim_rect = state.constants.npc.n013_forcefield[anim_num as usize];
        }
        *self = NPC { anim_counter, anim_num, anim_rect, ..*self };
    }

    pub fn tick_n014_key(&mut self, state: &SharedGameState)
        requires
            frame_advance(old(self).anim_num, old(self).anim_counter, 1, 2, 0).0 < 3,
        ensures
            *final(self) == key_step(*old(self), state@),
    {
        let mut action_num = self.action_num;
        let mut vel_y = self.vel_y;
        let mut interactable = self.npc_flags.interactable;
        if action_num == 0 {
            action_num = 1;
            if self.direction == Direction::Right {
                vel_y = -0x200;
            }
        }
        if self.flags.hit_bottom_wall {
            interactable = true;
        }
        let to = advance(self.anim_num, self.anim_counter, 1, 2, 0);
        vel_y = fall(vel_y, 0x40);
        *self = NPC {
            action_num,
            npc_flags: NPCFlag { interactable, ..self.npc_flags },
            anim_num: to.0,
            anim_counter: to.1,
            vel_y,
            y: self.y.wrapping_add(vel_y),
            anim_rect: state.constants.npc.n014_key[to.0 as usize],
            ..*self
        };
    }

    fn chest_closed_move(&mut self, rng: Xoroshiro32PlusPlus, state: &SharedGameState)
        requires
            old(self).action_num == 2 && old(self).anim_counter == 0 ==> old(self).anim_num < 3,
        ensures
            *final(self) == chest_closed_step(*old(self), rng, state@),
    {
        let table = &state.constants.npc.n015_closed_chest;
        let mut rng = rng;
        let mut action_num = self.action_num;
        let mut anim_num = self.anim_num;
        let mut anim_counter = self.anim_counter;
        let mut anim_rect = self.anim_rect;
        let mut npc_flags = self.npc_flags;
        let mut vel_y = self.vel_y;
        match action_num {
            0 | 1 => {
                if action_num == 0 {
                    action_num = 1;
                    npc_flags = NPCFlag { interactable: true, ..npc_flags };
                    if self.direction == Direction::Right {
                        vel_y = -0x200;
                    }
                    anim_rect = table[0];
                }
                anim_num = 0;
                if rng.range(0..30) == 0 {
                    action_num = 2;
                }
            },
            2 => {
                if anim_counter == 0 {
                    anim_rect = table[anim_num as usize];
                }
                anim_counter = anim_counter.wrapping_add(1);
                if anim_counter > 1 {
                    anim_counter = 0;
                    anim_num = anim_num.wrapping_add(1);
                    if anim_num > 2 {
                        anim_num = 0;
                        action_num = 1;
                    }
                }
            },
            _ => {},
        }
        vel_y = fall(vel_y, 0x40);
        *self = NPC {
            action_num,
            npc_flags,
            anim_rect,
            anim_num,
            anim_counter,
            rng,
            vel_y,
            y: self.y.wrapping_add(vel_y),
            ..*self
        };
    }

    pub fn tick_n015_chest_closed(&mut self, state: &SharedGameState, npc_list: &mut NPCList)
        requires
            old(npc_list).wf(),
            old(self).action_num == 2 && old(self).anim_counter == 0 ==> old(self).anim_num < 3,
        ensures
            final(npc_list).wf(),
            (NpcWorld { npc: *final(self), state: state@, npcs: final(npc_list)@ })
                == chest_closed_world(
                NpcWorld { npc: *old(self), state: state@, npcs: old(npc_list)@ },
            ),
    {
        let pops = self.action_num == 0 && self.direction == Direction::Right;
        let mut rng = self.rng;
        spawn_puffs(self.x, self.y, true, if pops { 4 } else { 0 }, &mut rng, state, npc_list);
        self.chest_closed_move(rng, state);
    }

    pub fn tick_n016_save_point(&mut self, state: &SharedGameState)
        ensures
            *final(self) == save_point_step(*old(self), state@),
    {
        let mut action_num = self.action_num;
        let mut vel_y = self.vel_y;
        let mut interactable = self.npc_flags.interactable;
        if action_num == 0 {
            action_num = 1;
            if self.direction == Direction::Right {
                interactable = false;
                vel_y = -0x200;
            }
        }
        if self.flags.hit_bottom_wall {
            interactable = true;
        }
        let to = loop_frames(self.anim_counter, 24, 3);
        vel_y = fall(vel_y, 0x40);
        *self = NPC {
            action_num,
            npc_flags: NPCFlag { interactable, ..self.npc_flags },
            anim_num: to.0,
            anim_counter: to.1,
            anim_rect: state.constants.npc.n016_save_point[to.0 as usize],
            vel_y,
            y: self.y.wrapping_add(vel_y),
            ..*self
        };
    }

    pub fn tick_n017_health_refill(&mut self, state: &SharedGameState)
        ensures
            *final(self) == health_refill_step(*old(self), state@),
    {
        let table = &state.constants.npc.n017_health_refill;
        let mut action_num = self.action_num;
        let mut action_counter = self.action_counter;
        let mut anim_num = self.anim_num;
        let mut anim_counter = self.anim_counter;
        let mut anim_rect = self.anim_rect;
        let mut rng = self.rng;
        if action_num == 0 {
            action_num = 1;
        }
        match action_num {
            1 => {
                let rand = rng.range(0..30);
                if rand < 10 {
                    action_num = 2;
                } else if rand < 25 {
                    action_num = 3;
                } else {
                    action_num = 4;
                }
                action_counter = #[verifier::truncate]
                (rng.range(0x10..0x40) as u16);
                anim_counter = 0;
            },
            2 => {
                anim_rect = table[0];
                anim_num = 0;
                if action_counter > 0 {
                    action_counter -= 1;
                } else {
                    action_num = 1;
                }
            },
            3 => {
                anim_counter = anim_counter.wrapping_add(1);
                if anim_counter % 2 == 0 {
                    anim_num = 1;
                    anim_rect = table[1];
                } else {
                    anim_num = 0;
                    anim_rect = table[0];
                }
                if action_counter > 0 {
                    action_counter -= 1;
                } else {
                    action_num = 1;
                }
            },
            4 => {
                anim_num = 1;
                anim_rect = table[1];
                if action_counter > 0 {
                    action_counter -= 1;
                } else {
                    action_num = 1;
                }
            },
            _ => {},
        }
        let vel_y = fall(self.vel_y, 0x40);
        *self = NPC {
            action_num,
            action_counter,
            anim_num,
            anim_counter,
            anim_rect,
            rng,
            vel_y,
            y: self.y.wrapping_add(vel_y),
            ..*self
        };
    }

    fn door_move(&mut self, rng: Xoroshiro32PlusPlus, state: &SharedGameState)
        ensures
            *final(self) == door_step(*old(self), rng, state@),
    {
        let mut action_num = self.action_num;
        let mut anim_rect = self.anim_rect;
        match action_num {
            0 => {
                anim_rect = rect_by_facing(&state.constants.npc.n018_door, self.direction, anim_rect);
            },
            1 => {
                action_num = 0;
                anim_rect = state.constants.npc.n018_door[0];
            },
            _ => {},
        }
        *self = NPC { action_num, anim_rect, rng, ..*self };
    }

    pub fn tick_n018_door(&mut self, state: &SharedGameState, npc_list: &mut NPCList)
        requires
            old(npc_list).wf(),
        ensures
            final(npc_list).wf(),
            (NpcWorld { npc: *final(self), state: state@, npcs: final(npc_list)@ }) == door_world(
                NpcWorld { npc: *old(self), state: state@, npcs: old(npc_list)@ },
            ),
    {
        let bursts = self.action_num == 1;
        let mut rng = self.rng;
        spawn_puffs(self.x, self.y, false, if bursts { 4 } else { 0 }, &mut rng, state, npc_list);
        self.door_move(rng, state);
    }

    pub fn tick_n020_computer(&mut self, state: &SharedGameState)
        ensures
            *final(self) == computer_step(*old(self), state@),
    {
        if self.direction == Direction::Left && self.anim_num == 0 {
            *self = NPC { anim_num: 1, anim_rect: state.constants.npc.n020_computer[0], ..*self };
        } else if self.direction == Direction::Right {
            let to = loop_frames(self.anim_counter, 12, 4);
            *self = NPC {
                anim_counter: to.1,
                anim_num: to.0,
                anim_rect: state.constants.npc.n020_computer[1 + to.0 as usize],
                ..*self
            };
        }
    }

    pub fn tick_n021_chest_open(&mut self, state: &SharedGameState)
        ensures
            *final(self) == chest_open_step(*old(self), state@),
    {
        if self.action_num == 0 {
            let y = if self.direction == Direction::Right {
                self.y.wrapping_add(16 * 0x200)
            } else {
                self.y
            };
            *self = NPC { action_num: 1, y, anim_rect: state.constants.npc.n021_chest_open, ..*self };
        }
    }

    pub fn tick_n022_teleporter(&mut self, state: &SharedGameState)
        ensures
            *final(self) == teleporter_step(*old(self), state@),
    {
        if self.action_num == 0 && self.anim_counter == 0 {
            *self = NPC {
                anim_counter: 1,
                anim_rect: state.constants.npc.n022_teleporter[0],
                ..*self
            };
        } else if self.action_num == 1 {
            let next = self.anim_num.wrapping_add(1);
            let anim_num = next & 1;
            assert(next & 1 < 2) by (bit_vector);
            *self = NPC {
                anim_num,
                anim_rect: state.constants.npc.n022_teleporter[anim_num as usize],
                ..*self
            };
        }
    }

    pub fn tick_n023_teleporter_lights(&mut self, state: &SharedGameState)
        requires
            old(self).anim_counter == 0 ==> old(self).anim_num < 8,
        ensures
            *final(self) == teleporter_lights_step(*old(self), state@),
    {
        let to = advance(self.anim_num, self.anim_counter, 1, 7, 0);
        let anim_rect = if to.1 == 1 {
            state.constants.npc.n023_teleporter_lights[self.anim_num as usize]
        } else {
            self.anim_rect
        };
        *self = NPC { anim_num: to.0, anim_counter: to.1, anim_rect, ..*self };
    }

    fn show_once(&mut self, rect: Rect<u16>)
        ensures
            *final(self) == shown_once(*old(self), rect),
    {
        if self.action_num == 0 {
            *self = NPC { action_num: 1, anim_rect: rect, ..*self };
        }
    }

    pub fn tick_n027_death_trap(&mut self, state: &SharedGameState)
        ensures
            *final(self) == shown_once(*old(self), state@.constants.npc.n027_death_trap),
    {
        self.show_once(state.constants.npc.n027_death_trap);
    }

    fn gunsmith_move(&mut self, state: &SharedGameState) -> (snores: bool)
        ensures
            *final(self) == gunsmith_step(*old(self), state@),
            snores == gunsmith_snores(*old(self)),
    {
        let table = &state.constants.npc.n030_hermit_gunsmith;
        if self.direction == Direction::Left {
            let mut rng = self.rng;
            if self.action_num == 0 {
                *self = NPC { action_num: 1, anim_counter: 0, anim_rect: table[0], ..*self };
            } else if self.action_num == 1 {
                if rng.range(0..120) == 10 {
                    *self = NPC {
                        action_num: 2,
                        action_counter: 8,
                        anim_counter: 0,
                        anim_rect: table[1],
                        rng,
                        ..*self
                    };
                } else {
                    *self = NPC { anim_counter: 0, rng, ..*self };
                }
            } else if self.action_num == 2 && self.action_counter > 0 {
                *self = NPC {
                    action_counter: self.action_counter - 1,
                    anim_rect: table[0],
                    ..*self
                };
            }
            false
        } else {
            let mut action_num = self.action_num;
            let mut anim_rect = self.anim_rect;
            let mut y = self.y;
            if action_num == 0 {
                action_num = 1;
                anim_rect = table[2];
                y = y.wrapping_add(16 * 0x200);
            }
            let counter = self.action_counter.wrapping_add(1);
            let snores = counter > 100;
            *self = NPC {
                action_num,
                anim_rect,
                y,
                action_counter: if snores {
                    0
                } else {
                    counter
                },
                ..*self
            };
            snores
        }
    }

    pub fn tick_n030_gunsmith(&mut self, state: &mut SharedGameState)
        ensures
            *final(self) == gunsmith_step(*old(self), old(state)@),
            final(state)@ == old(state)@.with_caret_if(
                gunsmith_snores(*old(self)),
                old(self).x,
                gunsmith_y(*old(self)).wrapping_sub(0x400),
                CaretType::Zzz,
                Direction::Left,
            ),
    {
        let snores = self.gunsmith_move(state);
        state.create_caret_if(
            snores,
            self.x,
            self.y.wrapping_sub(0x400),
            CaretType::Zzz,
            Direction::Left,
        );
    }

    fn flip(&mut self, table: &[Rect<u16>; 2])
        ensures
            *final(self) == flipping(*old(self), *table),
    {
        let to = loop_frames(self.anim_counter, 4, 2);
        *self = NPC {
            anim_counter: to.1,
            anim_num: to.0,
            anim_rect: table[to.0 as usize],
            ..*self
        };
    }

    fn flicker(&mut self, table: &[Rect<u16>; 4])
        ensures
            *final(self) == flickering(*old(self), *table),
    {
        let to = loop_frames(self.anim_counter, 16, 4);
        *self = NPC {
            anim_counter: to.1,
            anim_num: to.0,
            anim_rect: table[to.0 as usize],
            ..*self
        };
    }

    fn place_by_facing(&mut self, table: &[Rect<u16>; 2], lift: i32)
        ensures
            *final(self) == placed_by_facing(*old(self), *table, lift),
    {
        if self.action_num == 0 {
            *self = NPC {
                action_num: 1,
                y: self.y.wrapping_add(lift),
                anim_rect: rect_by_facing(table, self.direction, self.anim_rect),
                ..*self
            };
        }
    }

    pub fn tick_n032_life_capsule(&mut self, state: &SharedGameState)
        ensures
            *final(self) == flipping(*old(self), state@.constants.npc.n032_life_capsule),
    {
        self.flip(&state.constants.npc.n032_life_capsule);
    }

    pub fn tick_n034_bed(&mut self, state: &SharedGameState)
        ensures
            *final(self) == placed_by_facing(*old(self), state@.constants.npc.n034_bed, 0),
    {
        self.place_by_facing(&state.constants.npc.n034_bed, 0);
    }

    pub fn tick_n037_sign(&mut self, state: &SharedGameState)
        ensures
            *final(self) == flipping(*old(self), state@.constants.npc.n037_sign),
    {
        self.flip(&state.constants.npc.n037_sign);
    }

    pub fn tick_n038_fireplace(&mut self, state: &SharedGameState)
        ensures
            *final(self) == fireplace_step(*old(self), state@),
    {
        if self.action_num == 0 {
            self.flicker(&state.constants.npc.n038_fireplace);
        } else if self.action_num == 10 || self.action_num == 11 {
            *self = NPC {
                action_num: 11,
                anim_rect: Rect { left: 0, right: 0, ..self.anim_rect },
                ..*self
            };
        }
    }

    pub fn tick_n039_save_sign(&mut self, state: &SharedGameState)
        ensures
            *final(self) == placed_by_facing(*old(self), state@.constants.npc.n039_save_sign, 0),
    {
        self.place_by_facing(&state.constants.npc.n039_save_sign, 0);
    }

    pub fn tick_n041_busted_door(&mut self, state: &SharedGameState)
        ensures
            *final(self) == busted_door_step(*old(self), state@),
    {
        if self.action_num == 0 {
            *self = NPC {
                action_num: 1,
                anim_rect: state.constants.npc.n041_busted_door,
                y: self.y.wrapping_sub(16 * 0x200),
                ..*self
            };
        }
    }

    pub fn tick_n043_chalkboard(&mut self, state: &SharedGameState)
        ensures
            *final(self) == placed_by_facing(
                *old(self),
                state@.constants.npc.n043_chalkboard,
                (-0x2000) as i32,
            ),
    {
        self.place_by_facing(&state.constants.npc.n043_chalkboard, -0x2000);
    }
}

/// One tick of the flowers: on the first tick they pick their tile by their
/// event number.
pub open spec fn flowers_step(n: NPC) -> NPC {
    let left = n.event_num.wrapping_mul(16);
    if n.action_num == 0 {
        NPC {
            action_num: 1,
            anim_rect: Rect { left, top: 0, right: left.wrapping_add(16), bottom: 16 },
            ..n
        }
    } else {
        n
    }
}

/// One tick of the low speech bubble: it rises for four ticks and is gone
/// after thirty.
pub open spec fn hey_bubble_low_step(n: NPC, s: SharedGameStateView) -> NPC {
    let counter = n.action_counter.wrapping_add(1);
    NPC {
        action_counter: counter,
        y: if counter < 5 {
            n.y.wrapping_sub(0x200)
        } else {
            n.y
        },
        cond: Condition { alive: n.cond.alive && !(counter > 30), ..n.cond },
        anim_rect: s.constants.npc.n105_hey_bubble_low[n.anim_num as int],
        ..n
    }
}

/// The low bubble that the high bubble lets go: eight units above it.
pub open spec fn hey_bubble(n: NPC, s: SharedGameStateView) -> NPC {
    spawn_template(105, n.x, n.y.wrapping_sub(0x1000), s)
}

/// Whether the hidden item was hit hard enough to break open.
pub open spec fn hidden_item_breaks(n: NPC) -> bool {
    n.life < 990
}

/// What the hidden item holds: a heart where it faces left, else a missile.
pub open spec fn hidden_item_prize(n: NPC, s: SharedGameStateView) -> NPC {
    NPC {
        direction: Direction::Right,
        ..spawn_template(
            if n.direction == Direction::Left {
                87
            } else {
                86
            },
            n.x,
            n.y,
            s,
        )
    }
}

/// One tick of the hidden item. Once it breaks it is gone, leaving eight
/// clouds of smoke, an explosion, audio cue 70 and its prize.
pub open spec fn hidden_item_world(w: NpcWorld) -> NpcWorld {
    let n = w.npc;
    let breaks = hidden_item_breaks(n);
    let (rng, smoked) = clouds(
        spawn_template(4, n.x, n.y, w.state),
        smoke_radius(n.display_bounds.right),
        n.rng,
        w.npcs,
        if breaks {
            8
        } else {
            0
        },
    );
    let s = w.state.with_caret_if(breaks, n.x, n.y, CaretType::Explosion, Direction::Left).with_sfx_if(
        breaks,
        70,
    );
    NpcWorld {
        npc: NPC {
            rng,
            cond: Condition { alive: n.cond.alive && !breaks, ..n.cond },
            anim_rect: faced_rect(s.constants.npc.n125_hidden_item, n.direction, n.anim_rect),
            ..n
        },
        state: s,
        npcs: spawned_if(
            smoked,
            breaks && (n.direction == Direction::Left || n.direction == Direction::Right),
            0,
            hidden_item_prize(n, s),
        ),
    }
}

/// One tick of the broken robot: a fresh one lies four units lower.
pub open spec fn broken_robot_step(n: NPC, s: SharedGameStateView) -> NPC {
    NPC {
        action_num: started(n.action_num),
        y: if n.action_num == 0 {
            n.y.wrapping_add(0x800)
        } else {
            n.y
        },
        anim_rect: s.constants.npc.n194_broken_blue_robot,
        ..n
    }
}

/// One tick of the small spikes: on the first tick they pick one of four
/// shapes by their event number.
pub open spec fn small_spikes_step(n: NPC, s: SharedGameStateView) -> NPC {
    shown_once(n, s.constants.npc.n211_small_spikes[(n.event_num as usize % 4) as int])
}

/// One tick of the picked flowers: fresh ones lie a tile lower and show the
/// frame of their facing, the second unless they face left.
pub open spec fn picked_flowers_step(n: NPC, s: SharedGameStateView) -> NPC {
    if n.action_num == 0 {
        NPC {
            action_num: 1,
            y: n.y.wrapping_add(0x2000),
            anim_rect: if n.direction == Direction::Left {
                s.constants.npc.n234_red_flowers_picked[0]
            } else {
                s.constants.npc.n234_red_flowers_picked[1]
            },
            ..n
        }
    } else {
        n
    }
}

/// What a member of the little family does before it moves. It stands (0,
/// 1), and two draws may make it pause (2) or set off (10), the second
/// winning; a pause ends after eight ticks; walking (10, 11) it turns on
/// walls, and stops once its step timer passes 0x20.
pub open spec fn little_family_act(n: NPC) -> NPC {
    let a = n.action_num;
    if a == 0 || a == 1 {
        let pauses = sample_in(0, 60, n.rng.draw()) == 1;
        let leaves = sample_in(0, 60, n.rng.after().draw()) == 1;
        NPC {
            action_num: if leaves {
                10
            } else if pauses {
                2
            } else {
                1
            },
            action_counter: if leaves || pauses {
                0
            } else {
                n.action_counter
            },
            anim_num: if leaves {
                1
            } else if pauses || a == 0 {
                0
            } else {
                n.anim_num
            },
            anim_counter: if a == 0 {
                0
            } else {
                n.anim_counter
            },
            vel_x: if a == 0 {
                0
            } else {
                n.vel_x
            },
            rng: n.rng.after().after(),
            ..n
        }
    } else if a == 2 {
        let counter = n.anim_counter.wrapping_add(1);
        NPC {
            anim_counter: counter,
            action_num: if counter > 8 {
                1
            } else {
                2
            },
            anim_num: if counter > 8 {
                0
            } else {
                n.anim_num
            },
            ..n
        }
    } else if a == 10 || a == 11 {
        let fresh = a == 10;
        let drawn = if rem_trunc(sample_in(0, 9, n.rng.after().draw()) as int, 2) == 1 {
            Direction::Left
        } else {
            Direction::Right
        };
        let faced = if fresh {
            drawn
        } else {
            n.direction
        };
        let direction = if faced == Direction::Left && n.flags.hit_left_wall {
            Direction::Right
        } else if faced == Direction::Right && n.flags.hit_right_wall {
            Direction::Left
        } else {
            faced
        };
        let counter = (if fresh {
            0
        } else {
            n.anim_counter
        }).wrapping_add(1);
        let frame = if fresh {
            0
        } else {
            n.anim_num
        };
        let stepped = if counter > 4 {
            0
        } else {
            counter
        }.wrapping_add(1);
        NPC {
            action_num: if stepped > 0x20 {
                0
            } else {
                11
            },
            action_counter: if fresh {
                sample_in(0, 16, n.rng.draw()) as u16
            } else {
                n.action_counter
            },
            direction,
            vel_x: if direction == Direction::Left {
                (-0x100) as i32
            } else if direction == Direction::Right {
                0x100
            } else {
                0
            },
            anim_num: ((if counter > 4 {
                frame.wrapping_add(1)
            } else {
                frame
            }) % 2) as u16,
            anim_counter: stepped,
            rng: if fresh {
                n.rng.after().after()
            } else {
                n.rng
            },
            ..n
        }
    } else {
        n
    }
}

/// Offset of a family member's frames in the family's table, by its event
/// number.
pub open spec fn family_offset(event_num: u16) -> int {
    if event_num == 200 {
        0
    } else if event_num == 210 {
        2
    } else {
        4
    }
}

/// A member of the little family after it moved: gravity pulls, it never
/// rises, the position steps, and its own frame is shown.
pub open spec fn little_family_settle(m: NPC, s: SharedGameStateView) -> NPC {
    let vel_y = clamp_spec(m.vel_y.wrapping_add(0x20) as int, 0, 0x5ff) as i32;
    NPC {
        vel_y,
        x: m.x.wrapping_add(m.vel_x),
        y: m.y.wrapping_add(vel_y),
        anim_rect: s.constants.npc.n278_little_family[m.anim_num as int + family_offset(
            m.event_num,
        )],
        ..m
    }
}

/// One tick of a member of the little family.
pub open spec fn little_family_step(n: NPC, s: SharedGameStateView) -> NPC {
    little_family_settle(little_family_act(n), s)
}

impl NPC {
    pub fn tick_n070_sparkle(&mut self, state: &SharedGameState)
        ensures
            *final(self) == flickering(*old(self), state@.constants.npc.n070_sparkle),
    {
        self.flicker(&state.constants.npc.n070_sparkle);
    }

    pub fn tick_n076_flowers(&mut self)
        ensures
            *final(self) == flowers_step(*old(self)),
    {
        if self.action_num == 0 {
            let left = self.event_num.wrapping_mul(16);
            *self = NPC {
                action_num: 1,
                anim_rect: Rect { left, top: 0, right: left.wrapping_add(16), bottom: 16 },
                ..*self
            };
        }
    }

    pub fn tick_n078_pot(&mut self, state: &SharedGameState)
        ensures
            *final(self) == placed_by_facing(*old(self), state@.constants.npc.n078_pot, 0),
    {
        self.place_by_facing(&state.constants.npc.n078_pot, 0);
    }

    pub fn tick_n105_hey_bubble_low(&mut self, state: &SharedGameState)
        requires
            old(self).anim_num < 2,
        ensures
            *final(self) == hey_bubble_low_step(*old(self), state@),
    {
        let action_counter = self.action_counter.wrapping_add(1);
        let mut y = self.y;
        let mut alive = self.cond.alive;
        if action_counter < 5 {
            y = y.wrapping_sub(0x200);
        } else if action_counter > 30 {
            alive = false;
        }
        *self = NPC {
            action_counter,
            y,
            cond: Condition { alive, ..self.cond },
            anim_rect: state.constants.npc.n105_hey_bubble_low[self.anim_num as usize],
            ..*self
        };
    }

    pub fn tick_n106_hey_bubble_high(&mut self, state: &SharedGameState, npc_list: &mut NPCList)
        requires
            old(npc_list).wf(),
        ensures
            final(npc_list).wf(),
            *final(self) == (NPC { action_num: started(old(self).action_num), ..*old(self) }),
            final(npc_list)@ == spawned_if(
                old(npc_list)@,
                old(self).action_num == 0,
                0x180,
                hey_bubble(*old(self), state@),
            ),
    {
        let fresh = self.action_num == 0;
        let bubble = make_template(105, self.x, self.y.wrapping_sub(8 * 0x200), state);
        npc_list.spawn_if(fresh, 0x180, bubble);
        *self = NPC {
            action_num: if fresh {
                1
            } else {
                self.action_num
            },
            ..*self
        };
    }

    pub fn tick_n116_red_petals(&mut self, state: &SharedGameState)
        ensures
            *final(self) == (NPC { anim_rect: state@.constants.npc.n116_red_petals, ..*old(self) }),
    {
        *self = NPC { anim_rect: state.constants.npc.n116_red_petals, ..*self };
    }

    pub fn tick_n119_table_chair(&mut self, state: &SharedGameState)
        ensures
            *final(self) == (NPC { anim_rect: state@.constants.npc.n119_table_chair, ..*old(self) }),
    {
        *self = NPC { anim_rect: state.constants.npc.n119_table_chair, ..*self };
    }

    fn hidden_item_settle(&mut self, rng: Xoroshiro32PlusPlus, state: &SharedGameState)
        ensures
            *final(self) == (NPC {
                rng,
                cond: Condition {
                    alive: old(self).cond.alive && !hidden_item_breaks(*old(self)),
                    ..old(self).cond
                },
                anim_rect: faced_rect(
                    state@.constants.npc.n125_hidden_item,
                    old(self).direction,
                    old(self).anim_rect,
                ),
                ..*old(self)
            }),
    {
        *self = NPC {
            rng,
            cond: Condition { alive: self.cond.alive && !(self.life < 990), ..self.cond },
            anim_rect: rect_by_facing(
                &state.constants.npc.n125_hidden_item,
                self.direction,
                self.anim_rect,
            ),
            ..*self
        };
    }

    pub fn tick_n125_hidden_item(&mut self, state: &mut SharedGameState, npc_list: &mut NPCList)
        requires
            old(npc_list).wf(),
        ensures
            final(npc_list).wf(),
            (NpcWorld { npc: *final(self), state: final(state)@, npcs: final(npc_list)@ })
                == hidden_item_world(
                NpcWorld { npc: *old(self), state: old(state)@, npcs: old(npc_list)@ },
            ),
    {
        let breaks = self.life < 990;
        let mut rng = self.rng;
        npc_list.create_death_smoke_if(
            breaks,
            self.x,
            self.y,
            self.display_bounds.right,
            8,
            state,
            &mut rng,
        );
        state.play_sfx_if(breaks, 70);
        let sided = self.direction == Direction::Left || self.direction == Direction::Right;
        let prize = make_template(
            if self.direction == Direction::Left {
                87
            } else {
                86
            },
            self.x,
            self.y,
            state,
        );
        npc_list.spawn_if(breaks && sided, 0, NPC { direction: Direction::Right, ..prize });
        self.hidden_item_settle(rng, state);
    }

    pub fn tick_n194_broken_blue_robot(&mut self, state: &SharedGameState)
        ensures
            *final(self) == broken_robot_step(*old(self), state@),
    {
        let mut action_num = self.action_num;
        let mut y = self.y;
        if action_num == 0 {
            action_num = 1;
            y = y.wrapping_add(4 * 0x200);
        }
        *self = NPC { action_num, y, anim_rect: state.constants.npc.n194_broken_blue_robot, ..*self };
    }

    pub fn tick_n211_small_spikes(&mut self, state: &SharedGameState)
        ensures
            *final(self) == small_spikes_step(*old(self), state@),
    {
        self.show_once(state.constants.npc.n211_small_spikes[self.event_num as usize % 4]);
    }

    pub fn tick_n234_red_flowers_picked(&mut self, state: &SharedGameState)
        ensures
            *final(self) == picked_flowers_step(*old(self), state@),
    {
        if self.action_num == 0 {
            let anim_rect = match self.direction {
                Direction::Left => state.constants.npc.n234_red_flowers_picked[0],
                Direction::Right => state.constants.npc.n234_red_flowers_picked[1],
                _ => state.constants.npc.n234_red_flowers_picked[1],
            };
            *self = NPC { action_num: 1, y: self.y.wrapping_add(16 * 0x200), anim_rect, ..*self };
        }
    }

    pub(crate) fn little_family_idle(&mut self)
        requires
            old(self).action_num <= 2,
        ensures
            *final(self) == little_family_act(*old(self)),
    {
        let mut action_num = self.action_num;
        let mut action_counter = self.action_counter;
        let mut anim_num = self.anim_num;
        let mut anim_counter = self.anim_counter;
        let mut vel_x = self.vel_x;
        let mut rng = self.rng;
        if action_num == 2 {
            anim_counter = anim_counter.wrapping_add(1);
            if anim_counter > 8 {
                action_num = 1;
                anim_num = 0;
            }
        } else {
            if action_num == 0 {
                action_num = 1;
                anim_num = 0;
                anim_counter = 0;
                vel_x = 0;
            }
            if rng.range(0..60) == 1 {
                action_num = 2;
                action_counter = 0;
                anim_num = 0;
            }
            if rng.range(0..60) == 1 {
                action_num = 10;
                action_counter = 0;
                anim_num = 1;
            }
        }
        *self = NPC { action_num, action_counter, anim_num, anim_counter, vel_x, rng, ..*self };
    }

    pub(crate) fn little_family_walk(&mut self)
        requires
            old(self).action_num == 10 || old(self).action_num == 11,
        ensures
            *final(self) == little_family_act(*old(self)),
    {
        let mut action_num = self.action_num;
        let mut action_counter = self.action_counter;
        let mut anim_num = self.anim_num;
        let mut anim_counter = self.anim_counter;
        let mut direction = self.direction;
        let mut rng = self.rng;
        if action_num == 10 {
            action_num = 11;
            action_counter = #[verifier::truncate]
            (rng.range(0..16) as u16);
            anim_num = 0;
            anim_counter = 0;
            if rng.range(0..9) % 2 == 1 {
                direction = Direction::Left;
            } else {
                direction = Direction::Right;
            }
        }
        if direction == Direction::Left && self.flags.hit_left_wall {
            direction = Direction::Right;
        } else if direction == Direction::Right && self.flags.hit_right_wall {
            direction = Direction::Left;
        }
        let vel_x = match direction {
            Direction::Left => -0x100,
            Direction::Right => 0x100,
            _ => 0,
        };
        anim_counter = anim_counter.wrapping_add(1);
        if anim_counter > 4 {
            anim_counter = 0;
            anim_num = anim_num.wrapping_add(1);
        }
        anim_num = anim_num % 2;
        anim_counter = anim_counter.wrapping_add(1);
        if anim_counter > 0x20 {
            action_num = 0;
        }
        *self = NPC {
            action_num,
            action_counter,
            direction,
            vel_x,
            anim_num,
            anim_counter,
            rng,
            ..*self
        };
    }

    fn little_family_settle(&mut self, state: &SharedGameState)
        requires
            old(self).anim_num as int + family_offset(old(self).event_num) < 6,
        ensures
            *final(self) == little_family_settle(*old(self), state@),
    {
        let vel_y = clamp(self.vel_y.wrapping_add(0x20), 0, 0x5ff);
        let table = &state.constants.npc.n278_little_family;
        let anim_rect = match self.event_num {
            200 => table[self.anim_num as usize],
            210 => table[self.anim_num as usize + 2],
            _ => table[self.anim_num as usize + 4],
        };
        *self = NPC {
            vel_y,
            x: self.x.wrapping_add(self.vel_x),
            y: self.y.wrapping_add(vel_y),
            anim_rect,
            ..*self
        };
    }

    pub fn tick_n278_little_family(&mut self, state: &SharedGameState)
        requires
            little_family_act(*old(self)).anim_num as int + family_offset(old(self).event_num) < 6,
        ensures
            *final(self) == little_family_step(*old(self), state@),
    {
        if self.action_num <= 2 {
            self.little_family_idle();
        } else if self.action_num == 10 || self.action_num == 11 {
            self.little_family_walk();
        }
        self.little_family_settle(state);
    }
}

} // verus!
