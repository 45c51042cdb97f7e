//! Things that move, blow, drip and crush.

use vstd::prelude::*;
use crate::common::{Condition, Direction, NPCFlag, Rect};
use crate::fix9::{abs, abs_spec, div_trunc, half};
use crate::npc::ai::{
    advance,
    fall,
    fallen,
    frame_advance,
    frame_loop,
    loop_frames,
    make_template,
    puffs,
    spawn_puffs,
    spawn_template,
    spawned_if,
    NpcWorld,
};
use crate::npc::list::NPCList;
use crate::npc::{closest_player, targetable, NPC};
use crate::player::Player;
use crate::rng::{lemma_xoroshiro_sample_within, sample_in, Xoroshiro32PlusPlus, RNG};
use crate::shared_game_state::{SharedGameState, SharedGameStateView};
use crate::stage::Stage;

verus! {

/// Whether a player is within sight of a machine: within 480 units sideways
/// and 240 units up or down.
pub open spec fn in_sight(n: NPC, player: Player) -> bool {
    abs_spec(player.x.wrapping_sub(n.x)) < 480 * 0x200 && abs_spec(player.y.wrapping_sub(n.y))
        < 240 * 0x200
}

fn sees(x: i32, y: i32, player: &Player) -> (r: bool)
    ensures
        forall|n: NPC| n.x == x && n.y == y ==> r == in_sight(n, *player),
{
    abs(player.x.wrapping_sub(x)) < 480 * 0x200 && abs(player.y.wrapping_sub(y)) < 240 * 0x200
}

/// One tick of the trigger that follows the player along one axis: facing
/// left along the horizontal, else along the vertical, by 0x5ff per tick.
pub open spec fn hv_trigger_step(n: NPC, players: [Player; 2]) -> NPC {
    let player = players[closest_player(n.x, n.y, players) as int];
    let along = n.direction == Direction::Left;
    NPC {
        npc_flags: NPCFlag { event_when_touched: true, ..n.npc_flags },
        x: if !along {
            n.x
        } else if n.x < player.x {
            n.x.wrapping_add(0x5ff)
        } else {
            n.x.wrapping_sub(0x5ff)
        },
        y: if along {
            n.y
        } else if n.y < player.y {
            n.y.wrapping_add(0x5ff)
        } else {
            n.y.wrapping_sub(0x5ff)
        },
        ..n
    }
}

/// Whether the sprinkler sprays this tick: it faces left, shows its first
/// frame and a player is within 480 units sideways.
pub open spec fn sprinkler_sprays(n: NPC, players: [Player; 2]) -> bool {
    let player = players[closest_player(n.x, n.y, players) as int];
    n.direction == Direction::Left && frame_loop(n.anim_counter, 4, 2).0 % 2 == 0 && abs_spec(
        player.x.wrapping_sub(n.x),
    ) < 480 * 0x200
}

/// Whether the sprinkler sprays a second drop: on every second spray.
pub open spec fn sprinkler_sprays_twice(n: NPC, players: [Player; 2]) -> bool {
    sprinkler_sprays(n, players) && n.action_counter.wrapping_add(1) % 2 == 0
}

/// A drop out of `template`, its speed drawn from two successive states of a
/// stream.
pub open spec fn sprayed(template: NPC, r0: Xoroshiro32PlusPlus) -> NPC {
    NPC {
        vel_x: 2i32.wrapping_mul(sample_in(-0x200, 0x200, r0.draw())),
        vel_y: 3i32.wrapping_mul(sample_in(-0x200, 0x80, r0.after().draw())),
        ..template
    }
}

/// The drop that the sprinkler sprays.
pub open spec fn sprinkler_drop(n: NPC, s: SharedGameStateView) -> NPC {
    NPC { direction: Direction::Left, ..spawn_template(73, n.x, n.y, s) }
}

/// One tick of the sprinkler, without its drops.
pub open spec fn sprinkler_step(n: NPC, s: SharedGameStateView, players: [Player; 2]) -> NPC {
    let to = frame_loop(n.anim_counter, 4, 2);
    if n.direction == Direction::Left {
        NPC {
            anim_counter: to.1,
            anim_num: to.0,
            anim_rect: s.constants.npc.n072_sprinkler[to.0 as int],
            action_counter: if sprinkler_sprays(n, players) {
                n.action_counter.wrapping_add(1)
            } else {
                n.action_counter
            },
            rng: if sprinkler_sprays_twice(n, players) {
                n.rng.after().after().after().after()
            } else if sprinkler_sprays(n, players) {
                n.rng.after().after()
            } else {
                n.rng
            },
            ..n
        }
    } else {
        n
    }
}

/// One tick of the sprinkler with its drops.
pub open spec fn sprinkler_world(w: NpcWorld, players: [Player; 2]) -> NpcWorld {
    let n = w.npc;
    let drop = sprinkler_drop(n, w.state);
    NpcWorld {
        npc: sprinkler_step(n, w.state, players),
        state: w.state,
        npcs: spawned_if(
            spawned_if(w.npcs, sprinkler_sprays(n, players), 0x100, sprayed(drop, n.rng)),
            sprinkler_sprays_twice(n, players),
            0x100,
            sprayed(drop, n.rng.after().after()),
        ),
    }
}

/// One tick of a drop of water: it falls, flickers through drawn frames,
/// and is gone once, older than ten ticks, it hits a wall, the floor or
/// water, or once it is below the stage.
pub open spec fn water_droplet_step(n: NPC, s: SharedGameStateView, stage: Stage) -> NPC {
    let vel_y = fallen(n.vel_y, 0x20);
    let frame = s.constants.npc.n073_water_droplet[sample_in(0, 4, n.rng.draw()) as int];
    let counter = n.action_counter.wrapping_add(1);
    let y = n.y.wrapping_add(vel_y);
    let hit = counter > 10 && (n.flags.hit_left_wall || n.flags.hit_right_wall
        || n.flags.hit_bottom_wall || n.flags.in_water);
    NPC {
        vel_y,
        rng: n.rng.after(),
        anim_rect: if n.direction == Direction::Right {
            Rect { top: frame.top.wrapping_add(2), bottom: frame.bottom.wrapping_add(2), ..frame }
        } else {
            frame
        },
        x: n.x.wrapping_add(n.vel_x),
        y,
        action_counter: counter,
        cond: Condition { alive: n.cond.alive && !hit && !(y > stage.bottom()), ..n.cond },
        ..n
    }
}

/// Whether a player stands at the terminal: within 8 units sideways and
/// between 16 units above and 8 units below it.
pub open spec fn terminal_wakes(n: NPC, players: [Player; 2]) -> bool {
    let player = players[closest_player(n.x, n.y, players) as int];
    n.action_num == 0 && abs_spec(player.x.wrapping_sub(n.x)) < 8 * 0x200 && player.y
        < n.y.wrapping_add(0x1000) && player.y > n.y.wrapping_sub(0x2000)
}

/// Frame of the terminal after this tick.
pub open spec fn terminal_frame(n: NPC) -> u16 {
    if n.action_num == 0 {
        0
    } else if n.action_num == 1 {
        if n.anim_num.wrapping_add(1) > 2 {
            1
        } else {
            n.anim_num.wrapping_add(1)
        }
    } else {
        n.anim_num
    }
}

/// Position of the terminal's frame in its table.
pub open spec fn terminal_index(n: NPC) -> int {
    terminal_frame(n) as int + if n.direction == Direction::Left {
        0int
    } else {
        3int
    }
}

/// One tick of the terminal: it sleeps (0) until a player stands at it, and
/// then (1) flickers between its two lit frames.
pub open spec fn terminal_step(n: NPC, s: SharedGameStateView, players: [Player; 2]) -> NPC {
    NPC {
        action_num: if terminal_wakes(n, players) {
            1
        } else {
            n.action_num
        },
        anim_num: terminal_frame(n),
        anim_rect: s.constants.npc.n085_terminal[terminal_index(n)],
        ..n
    }
}

/// Whether the fan runs.
pub open spec fn fan_runs(n: NPC) -> bool {
    n.action_num == 2
}

/// Whether a running fan lets a wind particle go: a player is in sight and
/// a draw from `0 ..= 5` gives 1.
pub open spec fn fan_gusts(n: NPC, players: [Player; 2]) -> bool {
    fan_runs(n) && in_sight(n, players[closest_player(n.x, n.y, players) as int]) && sample_in(
        0,
        5,
        n.rng.draw(),
    ) == 1
}

/// The wind particle of a fan that blows toward `wind`: placed within eight
/// units across the wind.
pub open spec fn fan_particle(n: NPC, wind: Direction, s: SharedGameStateView) -> NPC {
    let offset = sample_in(-8, 8, n.rng.after().draw()).wrapping_mul(0x200);
    let sideways = wind == Direction::Left || wind == Direction::Right;
    NPC {
        direction: wind,
        x: if sideways {
            n.x
        } else {
            n.x.wrapping_add(offset)
        },
        y: if sideways {
            n.y.wrapping_add(offset)
        } else {
            n.y
        },
        ..spawn_template(199, n.x, n.y, s)
    }
}

/// The frames of a fan that blows toward `wind`. The fans that blow left
/// and right share one table, and so do those that blow up and down.
pub open spec fn fan_table(wind: Direction, s: SharedGameStateView) -> [Rect<u16>; 3] {
    if wind == Direction::Left || wind == Direction::Right {
        s.constants.npc.n098_fan_right
    } else {
        s.constants.npc.n097_fan_up
    }
}

/// Frame and timer of a fan after this tick: at rest the second frame, and
/// running one frame further each tick.
pub open spec fn fan_frame(n: NPC) -> (u16, u16) {
    if n.action_num == 0 || n.action_num == 1 {
        (1, n.anim_counter)
    } else if n.action_num == 2 {
        frame_advance(n.anim_num, n.anim_counter, 0, 2, 0)
    } else {
        (n.anim_num, n.anim_counter)
    }
}

/// One tick of a fan, without its particle and its push. A fresh fan that
/// faces right runs.
pub open spec fn fan_step(n: NPC, wind: Direction, s: SharedGameStateView, players: [Player; 2])
    -> NPC {
    let to = fan_frame(n);
    let seen = fan_runs(n) && in_sight(n, players[closest_player(n.x, n.y, players) as int]);
    NPC {
        action_num: if n.action_num == 0 && n.direction == Direction::Right {
            2
        } else {
            n.action_num
        },
        anim_num: to.0,
        anim_counter: to.1,
        rng: if fan_gusts(n, players) {
            n.rng.after().after()
        } else if seen {
            n.rng.after()
        } else {
            n.rng
        },
        anim_rect: if to.1 == 0 {
            fan_table(wind, s)[to.0 as int]
        } else {
            n.anim_rect
        },
        ..n
    }
}

/// Whether a running fan that blows toward `wind` reaches a player: the
/// player is in the stream, within 96 units of the fan and 8 units of its
/// axis. The fans that blow left and up pass over a player who is not
/// alive or is hidden.
pub open spec fn fan_reaches(n: NPC, wind: Direction, p: Player) -> bool {
    let level = abs_spec(p.y.wrapping_sub(n.y)) < 8 * 0x200;
    let plumb = abs_spec(p.x.wrapping_sub(n.x)) < 8 * 0x200;
    fan_runs(n) && match wind {
        Direction::Left => targetable(p) && level && p.x < n.x && p.x > n.x.wrapping_sub(0xc000),
        Direction::Up => targetable(p) && plumb && p.y < n.y && p.y > n.y.wrapping_sub(0xc000),
        Direction::Right => level && p.x > n.x && p.x < n.x.wrapping_add(0xc000),
        _ => plumb && p.y > n.y && p.y < n.y.wrapping_add(0xc000),
    }
}

/// A player after a fan had its tick: one whom the fan reaches is pushed by
/// 0x88, sideways by the fans that blow left and right, which also ask for
/// acceleration, and upward by the two others.
pub open spec fn fan_blown(n: NPC, wind: Direction, p: Player) -> Player {
    let reached = fan_reaches(n, wind, p);
    Player {
        vel_x: if reached && wind == Direction::Left {
            p.vel_x.wrapping_sub(0x88)
        } else if reached && wind == Direction::Right {
            p.vel_x.wrapping_add(0x88)
        } else {
            p.vel_x
        },
        vel_y: if reached && wind != Direction::Left && wind != Direction::Right {
            p.vel_y.wrapping_sub(0x88)
        } else {
            p.vel_y
        },
        cond: Condition {
            increase_acceleration: p.cond.increase_acceleration || (reached && (wind
                == Direction::Left || wind == Direction::Right)),
            ..p.cond
        },
        ..p
    }
}

/// Whether a falling press lands with a crash: it hits the floor on its
/// last frame.
pub open spec fn press_crashes(n: NPC) -> bool {
    n.action_num == 10 && n.flags.hit_bottom_wall && frame_advance_capped(
        n.anim_num,
        n.anim_counter,
    ).0 > 1
}

/// Frame and timer of the falling press: every third tick one frame
/// further, up to the third.
pub open spec fn frame_advance_capped(anim_num: u16, anim_counter: u16) -> (u16, u16) {
    let counter = anim_counter.wrapping_add(1);
    if counter > 2 {
        (
            if anim_num.wrapping_add(1) > 2 {
                2
            } else {
                anim_num.wrapping_add(1)
            },
            0,
        )
    } else {
        (anim_num, counter)
    }
}

/// Frame of the press after this tick.
pub open spec fn press_frame(n: NPC) -> u16 {
    if n.action_num == 0 || n.action_num == 1 {
        if n.flags.hit_bottom_wall {
            n.anim_num
        } else {
            1
        }
    } else if n.action_num == 10 {
        if n.flags.hit_bottom_wall {
            0
        } else {
            frame_advance_capped(n.anim_num, n.anim_counter).0
        }
    } else {
        n.anim_num
    }
}

/// One tick of the press, without its crash. It hangs (0, 1) while there is
/// floor under it and falls (10) when there is none; falling it crushes
/// what is under it while the second player is lower than it, and is solid
/// else; on the floor it hangs again.
pub open spec fn press_step(n: NPC, s: SharedGameStateView, players: [Player; 2]) -> NPC {
    let floor = n.flags.hit_bottom_wall;
    let under = players[1].y > n.y;
    let vel_y = fallen(n.vel_y, 0x20);
    let rect = s.constants.npc.n114_press[press_frame(n) as int];
    if n.action_num == 0 || n.action_num == 1 {
        let y = if n.action_num == 0 {
            n.y.wrapping_sub(0x800)
        } else {
            n.y
        };
        NPC {
            action_num: if floor {
                1
            } else {
                10
            },
            anim_num: press_frame(n),
            anim_counter: if floor {
                n.anim_counter
            } else {
                0
            },
            vel_y,
            y: y.wrapping_add(vel_y),
            anim_rect: rect,
            ..n
        }
    } else if n.action_num == 10 {
        NPC {
            action_num: if floor {
                1
            } else {
                10
            },
            anim_num: press_frame(n),
            anim_counter: frame_advance_capped(n.anim_num, n.anim_counter).1,
            damage: if !floor && under {
                127
            } else {
                0
            },
            npc_flags: NPCFlag { solid_hard: floor || !under, ..n.npc_flags },
            vel_y,
            y: n.y.wrapping_add(vel_y),
            anim_rect: rect,
            ..n
        }
    } else {
        NPC { vel_y, y: n.y.wrapping_add(vel_y), anim_rect: rect, ..n }
    }
}

/// One tick of the press with its crash: four puffs of smoke, a shake of
/// ten ticks and audio cue 26.
pub open spec fn press_world(w: NpcWorld, players: [Player; 2]) -> NpcWorld {
    let n = w.npc;
    let crashes = press_crashes(n);
    let (rng, npcs) = puffs(
        spawn_template(4, n.x, n.y, w.state),
        false,
        n.rng,
        w.npcs,
        if crashes {
            4
        } else {
            0
        },
    );
    let s = w.state.with_quake_if(crashes, 10).with_sfx_if(crashes, 26);
    NpcWorld { npc: NPC { rng, ..press_step(n, s, players) }, state: s, npcs }
}

/// One tick of a wind particle. A fresh one draws its frame and its speed
/// along its facing; every seventh tick the frame advances, and after its
/// fifth frame the particle is gone, where it is; else it flies on.
pub open spec fn wind_particle_step(n: NPC, s: SharedGameStateView) -> NPC {
    let fresh = n.action_num == 0;
    let r1 = n.rng.after();
    let vel_x = if fresh {
        n.direction.vector_x().wrapping_mul(
            div_trunc(sample_in(4, 8, r1.draw()).wrapping_mul(0x200) as int, 2) as i32,
        )
    } else {
        n.vel_x
    };
    let vel_y = if fresh {
        n.direction.vector_y().wrapping_mul(
            div_trunc(sample_in(4, 8, r1.after().draw()).wrapping_mul(0x200) as int, 2) as i32,
        )
    } else {
        n.vel_y
    };
    let frame = if fresh {
        sample_in(0, 2, n.rng.draw()) as u16
    } else {
        n.anim_num
    };
    let counter = n.anim_counter.wrapping_add(1);
    let advances = counter > 6;
    let anim_num = if advances {
        frame.wrapping_add(1)
    } else {
        frame
    };
    let gone = advances && anim_num > 4;
    NPC {
        action_num: if fresh {
            1
        } else {
            n.action_num
        },
        rng: if fresh {
            r1.after().after()
        } else {
            n.rng
        },
        vel_x,
        vel_y,
        anim_num,
        anim_counter: if advances {
            0
        } else {
            counter
        },
        cond: Condition { alive: n.cond.alive && !gone, ..n.cond },
        x: if gone {
            n.x
        } else {
            n.x.wrapping_add(vel_x)
        },
        y: if gone {
            n.y
        } else {
            n.y.wrapping_add(vel_y)
        },
        anim_rect: if !gone && counter == 1 {
            s.constants.npc.n199_wind_particles[anim_num as int]
        } else {
            n.anim_rect
        },
        ..n
    }
}

/// Whether the wind particle shows a frame this tick, and which.
pub open spec fn wind_particle_shows(n: NPC) -> Option<u16> {
    if n.anim_counter.wrapping_add(1) == 1 {
        Some(
            if n.action_num == 0 {
                sample_in(0, 2, n.rng.draw()) as u16
            } else {
                n.anim_num
            },
        )
    } else {
        None
    }
}

/// Whether the dripping ceiling lets a drop go: a player is in sight and a
/// draw from `0 ..= 100` gives 2.
pub open spec fn droplet_drips(n: NPC, players: [Player; 2]) -> bool {
    in_sight(n, players[closest_player(n.x, n.y, players) as int]) && sample_in(
        0,
        100,
        n.rng.draw(),
    ) == 2
}

/// The drop of the dripping ceiling: within six units sideways, seven units
/// up.
pub open spec fn dripped(n: NPC, s: SharedGameStateView) -> NPC {
    NPC {
        direction: Direction::Bottom,
        x: n.x.wrapping_add(sample_in(-6, 6, n.rng.after().draw()).wrapping_mul(0x200)),
        y: n.y.wrapping_sub(0xe00),
        ..spawn_template(73, n.x, n.y, s)
    }
}

/// The stream of the dripping ceiling after this tick.
pub open spec fn droplet_generator_step(n: NPC, players: [Player; 2]) -> NPC {
    NPC {
        rng: if droplet_drips(n, players) {
            n.rng.after().after()
        } else if in_sight(n, players[closest_player(n.x, n.y, players) as int]) {
            n.rng.after()
        } else {
            n.rng
        },
        ..n
    }
}

fn advance_capped(anim_num: u16, anim_counter: u16) -> (r: (u16, u16))
    ensures
        r == frame_advance_capped(anim_num, anim_counter),
{
    let counter = anim_counter.wrapping_add(1);
    if counter > 2 {
        let frame = anim_num.wrapping_add(1);
        (
            if frame > 2 {
                2
            } else {
                frame
            },
            0,
        )
    } else {
        (anim_num, counter)
    }
}

impl NPC {
    pub fn tick_n046_hv_trigger(&mut self, players: &[Player; 2])
        ensures
            *final(self) == hv_trigger_step(*old(self), *players),
    {
        let i = self.get_closest_player_idx(players);
        let player = &players[i];
        let mut x = self.x;
        let mut y = self.y;
        if self.direction == Direction::Left {
            if x < player.x {
                x = x.wrapping_add(0x5ff);
            } else {
                x = x.wrapping_sub(0x5ff);
            }
        } else if y < player.y {
            y = y.wrapping_add(0x5ff);
        } else {
            y = y.wrapping_sub(0x5ff);
        }
        *self = NPC {
            npc_flags: NPCFlag { event_when_touched: true, ..self.npc_flags },
            x,
            y,
            ..*self
        };
    }

    fn draw_spray(template: NPC, rng: &mut Xoroshiro32PlusPlus) -> (r: NPC)
        ensures
            r == sprayed(template, *old(rng)),
            *final(rng) == old(rng).after().after(),
    {
        let mut stream = *rng;
        let vel_x = 2i32.wrapping_mul(stream.range(-0x200..0x200));
        let vel_y = 3i32.wrapping_mul(stream.range(-0x200..0x80));
        *rng = stream;
        NPC { vel_x, vel_y, ..template }
    }

    fn sprinkler_move(
        &mut self,
        sprays: bool,
        rng: Xoroshiro32PlusPlus,
        state: &SharedGameState,
    )
        requires
            old(self).direction == Direction::Left,
        ensures
            *final(self) == (NPC {
                anim_counter: frame_loop(old(self).anim_counter, 4, 2).1,
                anim_num: frame_loop(old(self).anim_counter, 4, 2).0,
                anim_rect: state@.constants.npc.n072_sprinkler[frame_loop(
                    old(self).anim_counter,
                    4,
                    2,
                ).0 as int],
                action_counter: if sprays {
                    old(self).action_counter.wrapping_add(1)
                } else {
                    old(self).action_counter
                },
                rng,
                ..*old(self)
            }),
    {
        let to = loop_frames(self.anim_counter, 4, 2);
        *self = NPC {
            anim_counter: to.1,
            anim_num: to.0,
            anim_rect: state.constants.npc.n072_sprinkler[to.0 as usize],
            action_counter: if sprays {
                self.action_counter.wrapping_add(1)
            } else {
                self.action_counter
            },
            rng,
            ..*self
        };
    }

    pub fn tick_n072_sprinkler(
        &mut self,
        state: &SharedGameState,
        players: &[Player; 2],
        npc_list: &mut NPCList,
    )
        requires
            old(npc_list).wf(),
        ensures
            final(npc_list).wf(),
            (NpcWorld { npc: *final(self), state: state@, npcs: final(npc_list)@ })
                == sprinkler_world(
                NpcWorld { npc: *old(self), state: state@, npcs: old(npc_list)@ },
                *players,
            ),
    {
        if self.direction == Direction::Left {
            let i = self.get_closest_player_idx(players);
            let to = loop_frames(self.anim_counter, 4, 2);
            let sprays = to.0 % 2 == 0 && abs(players[i].x.wrapping_sub(self.x)) < 480 * 0x200;
            let twice = sprays && self.action_counter.wrapping_add(1) % 2 == 0;
            let drop = make_template(73, self.x, self.y, state);
            let drop = NPC { direction: Direction::Left, ..drop };
            let mut once = self.rng;
            let first = Self::draw_spray(drop, &mut once);
            let mut both = once;
            let second = Self::draw_spray(drop, &mut both);
            npc_list.spawn_if(sprays, 0x100, first);
            npc_list.spawn_if(twice, 0x100, second);
            let rng = if twice {
                both
            } else if sprays {
                once
            } else {
                self.rng
            };
            self.sprinkler_move(sprays, rng, state);
        }
    }

    pub fn tick_n073_water_droplet(&mut self, state: &SharedGameState, stage: &Stage)
        ensures
            *final(self) == water_droplet_step(*old(self), state@, *stage),
    {
        let vel_y = fall(self.vel_y, 0x20);
        let mut rng = self.rng;
        proof {
            lemma_xoroshiro_sample_within(rng, 0, 4);
        }
        let drawn = rng.range(0..4);
        let frame = state.constants.npc.n073_water_droplet[drawn as usize];
        let anim_rect = if self.direction == Direction::Right {
            Rect { top: frame.top.wrapping_add(2), bottom: frame.bottom.wrapping_add(2), ..frame }
        } else {
            frame
        };
        let action_counter = self.action_counter.wrapping_add(1);
        let y = self.y.wrapping_add(vel_y);
        let mut alive = self.cond.alive;
        if action_counter > 10 && (self.flags.hit_left_wall || self.flags.hit_right_wall
            || self.flags.hit_bottom_wall || self.flags.in_water) {
            alive = false;
        }
        if y > stage.bottom() {
            alive = false;
        }
        *self = NPC {
            vel_y,
            rng,
            anim_rect,
            x: self.x.wrapping_add(self.vel_x),
            y,
            action_counter,
            cond: Condition { alive, ..self.cond },
            ..*self
        };
    }

    fn terminal_move(&mut self, state: &SharedGameState, players: &[Player; 2]) -> (wakes: bool)
        requires
            terminal_index(*old(self)) < 6,
        ensures
            *final(self) == terminal_step(*old(self), state@, *players),
            wakes == terminal_wakes(*old(self), *players),
    {
        let i = self.get_closest_player_idx(players);
        let player = &players[i];
        let mut action_num = self.action_num;
        let mut anim_num = self.anim_num;
        let mut wakes = false;
        match action_num {
            0 => {
                anim_num = 0;
                if abs(player.x.wrapping_sub(self.x)) < 8 * 0x200 && player.y < self.y.wrapping_add(
                    8 * 0x200,
                ) && player.y > self.y.wrapping_sub(16 * 0x200) {
                    wakes = true;
                    action_num = 1;
                }
            },
            1 => {
                anim_num = anim_num.wrapping_add(1);
                if anim_num > 2 {
                    anim_num = 1;
                }
            },
            _ => {},
        }
        let dir_offset: usize = if self.direction == Direction::Left {
            0
        } else {
            3
        };
        *self = NPC {
            action_num,
            anim_num,
            anim_rect: state.constants.npc.n085_terminal[anim_num as usize + dir_offset],
            ..*self
        };
        wakes
    }

    pub fn tick_n085_terminal(&mut self, state: &mut SharedGameState, players: &[Player; 2])
        requires
            terminal_index(*old(self)) < 6,
        ensures
            *final(self) == terminal_step(*old(self), old(state)@, *players),
            final(state)@ == old(state)@.with_sfx_if(terminal_wakes(*old(self), *players), 43),
    {
        let wakes = self.terminal_move(state, players);
        state.play_sfx_if(wakes, 43);
    }

    fn fan_move(
        &mut self,
        wind: Direction,
        state: &SharedGameState,
        players: &[Player; 2],
    ) -> (r: (bool, i32))
        requires
            fan_frame(*old(self)).1 == 0 ==> fan_frame(*old(self)).0 < 3,
        ensures
            *final(self) == fan_step(*old(self), wind, state@, *players),
            r.0 == fan_gusts(*old(self), *players),
            r.1 == sample_in(-8, 8, old(self).rng.after().draw()).wrapping_mul(0x200),
    {
        let i = self.get_closest_player_idx(players);
        let seen = self.action_num == 2 && sees(self.x, self.y, &players[i]);
        let mut first = self.rng;
        let drawn = first.range(0..5);
        let mut second = first;
        let offset = second.range(-8..8).wrapping_mul(0x200);
        let gusts = seen && drawn == 1;
        let rng = if gusts {
            second
        } else if seen {
            first
        } else {
            self.rng
        };
        let mut action_num = self.action_num;
        let mut anim_num = self.anim_num;
        let mut anim_counter = self.anim_counter;
        match action_num {
            0 | 1 => {
                if action_num == 0 && self.direction == Direction::Right {
                    action_num = 2;
                }
                anim_num = 1;
            },
            2 => {
                let to = advance(anim_num, anim_counter, 0, 2, 0);
                anim_num = to.0;
                anim_counter = to.1;
            },
            _ => {},
        }
        let anim_rect = if anim_counter != 0 {
            self.anim_rect
        } else if wind == Direction::Left || wind == Direction::Right {
            state.constants.npc.n098_fan_right[anim_num as usize]
        } else {
            state.constants.npc.n097_fan_up[anim_num as usize]
        };
        *self = NPC { action_num, anim_num, anim_counter, rng, anim_rect, ..*self };
        (gusts, offset)
    }

    fn fan_blow(&self, wind: Direction, p: &Player) -> (r: Player)
        ensures
            r == fan_blown(*self, wind, *p),
    {
        let level = abs(p.y.wrapping_sub(self.y)) < 8 * 0x200;
        let plumb = abs(p.x.wrapping_sub(self.x)) < 8 * 0x200;
        let seen = p.cond.alive && !p.cond.hidden;
        let reached = self.action_num == 2 && match wind {
            Direction::Left => seen && level && p.x < self.x && p.x > self.x.wrapping_sub(
                96 * 0x200,
            ),
            Direction::Up => seen && plumb && p.y < self.y && p.y > self.y.wrapping_sub(96 * 0x200),
            Direction::Right => level && p.x > self.x && p.x < self.x.wrapping_add(96 * 0x200),
            _ => plumb && p.y > self.y && p.y < self.y.wrapping_add(96 * 0x200),
        };
        let sideways = wind == Direction::Left || wind == Direction::Right;
        Player {
            vel_x: if reached && wind == Direction::Left {
                p.vel_x.wrapping_sub(0x88)
            } else if reached && wind == Direction::Right {
                p.vel_x.wrapping_add(0x88)
            } else {
                p.vel_x
            },
            vel_y: if reached && !sideways {
                p.vel_y.wrapping_sub(0x88)
            } else {
                p.vel_y
            },
            cond: Condition {
                increase_acceleration: p.cond.increase_acceleration || (reached && sideways),
                ..p.cond
            },
            ..*p
        }
    }

    /// One tick of a fan that blows toward `wind`.
    pub fn tick_fan(
        &mut self,
        wind: Direction,
        state: &SharedGameState,
        players: &mut [Player; 2],
        npc_list: &mut NPCList,
    )
        requires
            old(npc_list).wf(),
            fan_frame(*old(self)).1 == 0 ==> fan_frame(*old(self)).0 < 3,
        ensures
            final(npc_list).wf(),
            *final(self) == fan_step(*old(self), wind, state@, *old(players)),
            final(npc_list)@ == spawned_if(
                old(npc_list)@,
                fan_gusts(*old(self), *old(players)),
                0x100,
                fan_particle(*old(self), wind, state@),
            ),
            final(players)[0] == fan_blown(*old(self), wind, old(players)[0]),
            final(players)[1] == fan_blown(*old(self), wind, old(players)[1]),
    {
        let first = self.fan_blow(wind, &players[0]);
        let second = self.fan_blow(wind, &players[1]);
        let (x, y) = (self.x, self.y);
        let (gusts, offset) = self.fan_move(wind, state, players);
        let sideways = wind == Direction::Left || wind == Direction::Right;
        let particle = make_template(199, x, y, state);
        let particle = NPC {
            direction: wind,
            x: if sideways {
                x
            } else {
                x.wrapping_add(offset)
            },
            y: if sideways {
                y.wrapping_add(offset)
            } else {
                y
            },
            ..particle
        };
        npc_list.spawn_if(gusts, 0x100, particle);
        players[0] = first;
        players[1] = second;
    }

    pub fn tick_n096_fan_left(
        &mut self,
        state: &SharedGameState,
        players: &mut [Player; 2],
        npc_list: &mut NPCList,
    )
        requires
            old(npc_list).wf(),
            fan_frame(*old(self)).1 == 0 ==> fan_frame(*old(self)).0 < 3,
        ensures
            final(npc_list).wf(),
            *final(self) == fan_step(*old(self), Direction::Left, state@, *old(players)),
            final(npc_list)@ == spawned_if(
                old(npc_list)@,
                fan_gusts(*old(self), *old(players)),
                0x100,
                fan_particle(*old(self), Direction::Left, state@),
            ),
            final(players)[0] == fan_blown(*old(self), Direction::Left, old(players)[0]),
            final(players)[1] == fan_blown(*old(self), Direction::Left, old(players)[1]),
    {
        self.tick_fan(Direction::Left, state, players, npc_list);
    }

    pub fn tick_n097_fan_up(
        &mut self,
        state: &SharedGameState,
        players: &mut [Player; 2],
        npc_list: &mut NPCList,
    )
        requires
            old(npc_list).wf(),
            fan_frame(*old(self)).1 == 0 ==> fan_frame(*old(self)).0 < 3,
        ensures
            final(npc_list).wf(),
            *final(self) == fan_step(*old(self), Direction::Up, state@, *old(players)),
            final(npc_list)@ == spawned_if(
                old(npc_list)@,
                fan_gusts(*old(self), *old(players)),
                0x100,
                fan_particle(*old(self), Direction::Up, state@),
            ),
            final(players)[0] == fan_blown(*old(self), Direction::Up, old(players)[0]),
            final(players)[1] == fan_blown(*old(self), Direction::Up, old(players)[1]),
    {
        self.tick_fan(Direction::Up, state, players, npc_list);
    }

    pub fn tick_n098_fan_right(
        &mut self,
        state: &SharedGameState,
        players: &mut [Player; 2],
        npc_list: &mut NPCList,
    )
        requires
            old(npc_list).wf(),
            fan_frame(*old(self)).1 == 0 ==> fan_frame(*old(self)).0 < 3,
        ensures
            final(npc_list).wf(),
            *final(self) == fan_step(*old(self), Direction::Right, state@, *old(players)),
            final(npc_list)@ == spawned_if(
                old(npc_list)@,
                fan_gusts(*old(self), *old(players)),
                0x100,
                fan_particle(*old(self), Direction::Right, state@),
            ),
            final(players)[0] == fan_blown(*old(self), Direction::Right, old(players)[0]),
            final(players)[1] == fan_blown(*old(self), Direction::Right, old(players)[1]),
    {
        self.tick_fan(Direction::Right, state, players, npc_list);
    }

    pub fn tick_n099_fan_down(
        &mut self,
        state: &SharedGameState,
        players: &mut [Player; 2],
        npc_list: &mut NPCList,
    )
        requires
            old(npc_list).wf(),
            fan_frame(*old(self)).1 == 0 ==> fan_frame(*old(self)).0 < 3,
        ensures
            final(npc_list).wf(),
            *final(self) == fan_step(*old(self), Direction::Bottom, state@, *old(players)),
            final(npc_list)@ == spawned_if(
                old(npc_list)@,
                fan_gusts(*old(self), *old(players)),
                0x100,
                fan_particle(*old(self), Direction::Bottom, state@),
            ),
            final(players)[0] == fan_blown(*old(self), Direction::Bottom, old(players)[0]),
            final(players)[1] == fan_blown(*old(self), Direction::Bottom, old(players)[1]),
    {
        self.tick_fan(Direction::Bottom, state, players, npc_list);
    }

    fn press_hang(&mut self, state: &SharedGameState, players: &[Player; 2]) -> (crashes: bool)
        requires
            old(self).action_num != 10,
            press_frame(*old(self)) < 3,
        ensures
            *final(self) == press_step(*old(self), state@, *players),
            crashes == press_crashes(*old(self)),
    {
        let floor = self.flags.hit_bottom_wall;
        let mut action_num = self.action_num;
        let mut anim_num = self.anim_num;
        let mut anim_counter = self.anim_counter;
        let mut y = self.y;
        if action_num == 0 || action_num == 1 {
            if action_num == 0 {
                action_num = 1;
                y = y.wrapping_sub(4 * 0x200);
            }
            if !floor {
                action_num = 10;
                anim_num = 1;
                anim_counter = 0;
            }
        }
        let vel_y = fall(self.vel_y, 0x20);
        *self = NPC {
            action_num,
            anim_num,
            anim_counter,
            vel_y,
            y: y.wrapping_add(vel_y),
            anim_rect: state.constants.npc.n114_press[anim_num as usize],
            ..*self
        };
        false
    }

    fn press_drop(&mut self, state: &SharedGameState, players: &[Player; 2]) -> (crashes: bool)
        requires
            old(self).action_num == 10,
            press_frame(*old(self)) < 3,
        ensures
            *final(self) == press_step(*old(self), state@, *players),
            crashes == press_crashes(*old(self)),
    {
        let floor = self.flags.hit_bottom_wall;
        let to = advance_capped(self.anim_num, self.anim_counter);
        let under = players[1].y > self.y;
        let crashes = floor && to.0 > 1;
        let anim_num = if floor {
            0
        } else {
            to.0
        };
        let vel_y = fall(self.vel_y, 0x20);
        *self = NPC {
            action_num: if floor {
                1
            } else {
                10
            },
            anim_num,
            anim_counter: to.1,
            damage: if !floor && under {
                127
            } else {
                0
            },
            npc_flags: NPCFlag { solid_hard: floor || !under, ..self.npc_flags },
            vel_y,
            y: self.y.wrapping_add(vel_y),
            anim_rect: state.constants.npc.n114_press[anim_num as usize],
            ..*self
        };
        crashes
    }

    fn press_move(&mut self, state: &SharedGameState, players: &[Player; 2]) -> (crashes: bool)
        requires
            press_frame(*old(self)) < 3,
        ensures
            *final(self) == press_step(*old(self), state@, *players),
            crashes == press_crashes(*old(self)),
    {
        if self.action_num == 10 {
            self.press_drop(state, players)
        } else {
            self.press_hang(state, players)
        }
    }

    pub fn tick_n114_press(
        &mut self,
        state: &mut SharedGameState,
        players: &[Player; 2],
        npc_list: &mut NPCList,
    )
        requires
            old(npc_list).wf(),
            press_frame(*old(self)) < 3,
        ensures
            final(npc_list).wf(),
            (NpcWorld { npc: *final(self), state: final(state)@, npcs: final(npc_list)@ })
                == press_world(
                NpcWorld { npc: *old(self), state: old(state)@, npcs: old(npc_list)@ },
                *players,
            ),
    {
        let (x, y) = (self.x, self.y);
        let mut rng = self.rng;
        let crashes = self.press_move(state, players);
        spawn_puffs(x, y, false, if crashes { 4 } else { 0 }, &mut rng, state, npc_list);
        state.set_quake_if(crashes, 10);
        state.play_sfx_if(crashes, 26);
        self.store_rng(rng);
    }

    pub fn tick_n199_wind_particles(&mut self, state: &SharedGameState)
        requires
            wind_particle_shows(*old(self)) matches Some(frame) ==> frame < 5,
        ensures
            *final(self) == wind_particle_step(*old(self), state@),
    {
        let mut action_num = self.action_num;
        let mut anim_num = self.anim_num;
        let mut vel_x = self.vel_x;
        let mut vel_y = self.vel_y;
        let mut rng = self.rng;
        if action_num == 0 {
            action_num = 1;
            anim_num = #[verifier::truncate]
            (rng.range(0..2) as u16);
            vel_x = self.direction.vector_x().wrapping_mul(
                half(rng.range(4..8).wrapping_mul(0x200)),
            );
            vel_y = self.direction.vector_y().wrapping_mul(
                half(rng.range(4..8).wrapping_mul(0x200)),
            );
        }
        let counter = self.anim_counter.wrapping_add(1);
        let advances = counter > 6;
        if advances {
            anim_num = anim_num.wrapping_add(1);
        }
        let gone = advances && anim_num > 4;
        let anim_rect = if !gone && counter == 1 {
            state.constants.npc.n199_wind_particles[anim_num as usize]
        } else {
            self.anim_rect
        };
        *self = NPC {
            action_num,
            rng,
            vel_x,
            vel_y,
            anim_num,
            anim_counter: if advances {
                0
            } else {
                counter
            },
            cond: Condition { alive: self.cond.alive && !gone, ..self.cond },
            x: if gone {
                self.x
            } else {
                self.x.wrapping_add(vel_x)
            },
            y: if gone {
                self.y
            } else {
                self.y.wrapping_add(vel_y)
            },
            anim_rect,
            ..*self
        };
    }

    pub fn tick_n359_droplet_generator(
        &mut self,
        state: &SharedGameState,
        players: &[Player; 2],
        npc_list: &mut NPCList,
    )
        requires
            old(npc_list).wf(),
        ensures
            final(npc_list).wf(),
            *final(self) == droplet_generator_step(*old(self), *players),
            final(npc_list)@ == spawned_if(
                old(npc_list)@,
                droplet_drips(*old(self), *players),
                0x100,
                dripped(*old(self), state@),
            ),
    {
        let i = self.get_closest_player_idx(players);
        let seen = sees(self.x, self.y, &players[i]);
        let mut first = self.rng;
        let drawn = first.range(0..100);
        let mut second = first;
        let offset = second.range(-6..6).wrapping_mul(0x200);
        let drips = seen && drawn == 2;
        let drop = make_template(73, self.x, self.y, state);
        let drop = NPC {
            direction: Direction::Bottom,
            x: self.x.wrapping_add(offset),
            y: self.y.wrapping_sub(7 * 0x200),
            ..drop
        };
        npc_list.spawn_if(drips, 0x100, drop);
        self.store_rng(
            if drips {
                second
            } else if seen {
                first
            } else {
                self.rng
            },
        );
    }
}

} // verus!
