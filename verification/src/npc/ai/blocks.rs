//! The blocks that rush at a player who crosses their path.

use vstd::prelude::*;
use crate::common::{Direction, Flag, NPCFlag};
use crate::fix9::{clamp, clamp_spec};
use crate::npc::ai::{puffs, spawn_puffs, spawn_template, NpcWorld};
use crate::npc::list::NPCList;
use crate::npc::{closest_player, NPC};
use crate::player::Player;
use crate::shared_game_state::{SharedGameState, SharedGameStateView};

verus! {

/// The wall at the end of a block's run. A block runs along one axis,
/// `vertical` or not, either `forward` (right or down) or backward (left or
/// up).
pub open spec fn end_wall(f: Flag, vertical: bool, forward: bool) -> bool {
    if vertical {
        if forward {
            f.hit_bottom_wall
        } else {
            f.hit_top_wall
        }
    } else if forward {
        f.hit_right_wall
    } else {
        f.hit_left_wall
    }
}

fn at_end_wall(f: &Flag, vertical: bool, forward: bool) -> (r: bool)
    ensures
        r == end_wall(*f, vertical, forward),
{
    if vertical {
        if forward {
            f.hit_bottom_wall
        } else {
            f.hit_top_wall
        }
    } else if forward {
        f.hit_right_wall
    } else {
        f.hit_left_wall
    }
}

/// Whether a player crosses the path of a waiting block: within 25 units
/// across the axis, and along it from 25 units behind the block to 400 units
/// ahead.
pub open spec fn crosses_path(n: NPC, p: Player, vertical: bool, forward: bool) -> bool {
    let (along, across, at, beside) = if vertical {
        (p.y, p.x, n.y, n.x)
    } else {
        (p.x, p.y, n.x, n.y)
    };
    across < beside.wrapping_add(0x3200) && across > beside.wrapping_sub(0x3200) && (if forward {
        along > at.wrapping_sub(0x3200) && along < at.wrapping_add(0x32000)
    } else {
        along < at.wrapping_add(0x3200) && along > at.wrapping_sub(0x32000)
    })
}

/// What a block does in the state it is in, before it moves. A fresh block
/// (0) takes its place and waits, facing right for a forward run (20), else
/// for a backward one (10); waiting, it harms nothing and sets off (11, 21)
/// when a player crosses its path; running, it speeds up by 0x20 per tick
/// and crushes a player whom it has against the wall ahead, until it hits
/// that wall itself, stops and waits for the run back.
pub open spec fn block_act(n: NPC, p: Player, vertical: bool) -> NPC {
    let a = n.action_num;
    if a == 0 {
        NPC {
            x: n.x.wrapping_add(0x1000),
            y: n.y.wrapping_add(0x1000),
            npc_flags: NPCFlag { solid_hard: true, ..n.npc_flags },
            vel_x: 0,
            vel_y: 0,
            action_num: if n.direction == Direction::Right {
                20
            } else {
                10
            },
            ..n
        }
    } else if a == 10 || a == 20 {
        let sets_off = crosses_path(n, p, vertical, a == 20);
        NPC {
            npc_flags: NPCFlag { rear_and_top_not_hurt: false, ..n.npc_flags },
            damage: 0,
            action_num: if sets_off {
                (a + 1) as u16
            } else {
                a
            },
            action_counter: if sets_off {
                0
            } else {
                n.action_counter
            },
            ..n
        }
    } else if a == 11 || a == 21 {
        let forward = a == 21;
        let counter = n.action_counter.wrapping_add(1);
        if end_wall(n.flags, vertical, forward) {
            NPC {
                action_counter: counter,
                vel_x: if vertical && !forward {
                    n.vel_x
                } else {
                    0
                },
                vel_y: if vertical && !forward {
                    0
                } else {
                    n.vel_y
                },
                direction: if forward {
                    Direction::Left
                } else {
                    Direction::Right
                },
                action_num: if forward {
                    10
                } else {
                    20
                },
                ..n
            }
        } else {
            let crushes = end_wall(p.flags, vertical, forward);
            let push: i32 = if forward {
                0x20
            } else {
                (-0x20) as i32
            };
            NPC {
                action_counter: counter,
                npc_flags: NPCFlag { rear_and_top_not_hurt: crushes, ..n.npc_flags },
                damage: if crushes {
                    100
                } else {
                    0
                },
                vel_x: if vertical {
                    n.vel_x
                } else {
                    n.vel_x.wrapping_add(push)
                },
                vel_y: if vertical {
                    n.vel_y.wrapping_add(push)
                } else {
                    n.vel_y
                },
                ..n
            }
        }
    } else {
        n
    }
}

/// Whether a running block grinds this tick, with audio cue 107: on every
/// tenth tick of its run.
pub open spec fn block_grinds(n: NPC) -> bool {
    (n.action_num == 11 || n.action_num == 21) && n.action_counter.wrapping_add(1) % 10 == 6
}

/// Whether a running block hits the wall at the end of its run.
pub open spec fn block_crashes(n: NPC, vertical: bool) -> bool {
    (n.action_num == 11 || n.action_num == 21) && end_wall(n.flags, vertical, n.action_num == 21)
}

/// A block after it acted: the speed along its axis is bounded by one unit
/// per tick, the position steps along the axis, and it shows its rectangle.
pub open spec fn block_settle(m: NPC, vertical: bool, s: SharedGameStateView) -> NPC {
    let vel_x = if vertical {
        m.vel_x
    } else {
        clamp_spec(m.vel_x as int, -0x200, 0x200) as i32
    };
    let vel_y = if vertical {
        clamp_spec(m.vel_y as int, -0x200, 0x200) as i32
    } else {
        m.vel_y
    };
    NPC {
        vel_x,
        vel_y,
        x: if vertical {
            m.x
        } else {
            m.x.wrapping_add(vel_x)
        },
        y: if vertical {
            m.y.wrapping_add(vel_y)
        } else {
            m.y
        },
        anim_num: 149,
        anim_rect: if m.anim_num != 149 {
            s.constants.npc.n149_horizontal_moving_block
        } else {
            m.anim_rect
        },
        ..m
    }
}

/// One tick of a block. A crash at the end of a run arms the screen shake
/// for ten ticks, sounds audio cue 26 and throws three puffs of smoke.
pub open spec fn block_world(w: NpcWorld, players: [Player; 2], vertical: bool) -> NpcWorld {
    let n = w.npc;
    let p = players[closest_player(n.x, n.y, players) as int];
    let crashes = block_crashes(n, vertical);
    let s = w.state.with_sfx_if(block_grinds(n), 107).with_quake_if(crashes, 10).with_sfx_if(
        crashes,
        26,
    );
    let (rng, npcs) = puffs(
        spawn_template(4, n.x, n.y, s),
        true,
        n.rng,
        w.npcs,
        if crashes {
            3
        } else {
            0
        },
    );
    NpcWorld {
        npc: block_settle(NPC { rng, ..block_act(n, p, vertical) }, vertical, s),
        state: s,
        npcs,
    }
}

impl NPC {
    fn block_wait(&mut self, p: &Player, vertical: bool)
        requires
            old(self).action_num != 11 && old(self).action_num != 21,
        ensures
            *final(self) == block_act(*old(self), *p, vertical),
    {
        let a = self.action_num;
        if a == 0 {
            *self = NPC {
                x: self.x.wrapping_add(8 * 0x200),
                y: self.y.wrapping_add(8 * 0x200),
                npc_flags: NPCFlag { solid_hard: true, ..self.npc_flags },
                vel_x: 0,
                vel_y: 0,
                action_num: if self.direction == Direction::Right {
                    20
                } else {
                    10
                },
                ..*self
            };
        } else if a == 10 || a == 20 {
            let forward = a == 20;
            let (along, across, at, beside) = if vertical {
                (p.y, p.x, self.y, self.x)
            } else {
                (p.x, p.y, self.x, self.y)
            };
            let sets_off = across < beside.wrapping_add(25 * 0x200) && across > beside.wrapping_sub(
                25 * 0x200,
            ) && (if forward {
                along > at.wrapping_sub(25 * 0x200) && along < at.wrapping_add(25 * 16 * 0x200)
            } else {
                along < at.wrapping_add(25 * 0x200) && along > at.wrapping_sub(25 * 16 * 0x200)
            });
            *self = NPC {
                npc_flags: NPCFlag { rear_and_top_not_hurt: false, ..self.npc_flags },
                damage: 0,
                action_num: if sets_off {
                    a + 1
                } else {
                    a
                },
                action_counter: if sets_off {
                    0
                } else {
                    self.action_counter
                },
                ..*self
            };
        }
    }

    fn block_run(&mut self, p: &Player, vertical: bool)
        requires
            old(self).action_num == 11 || old(self).action_num == 21,
        ensures
            *final(self) == block_act(*old(self), *p, vertical),
    {
        let forward = self.action_num == 21;
        let action_counter = self.action_counter.wrapping_add(1);
        if at_end_wall(&self.flags, vertical, forward) {
            *self = NPC {
                action_counter,
                vel_x: if vertical && !forward {
                    self.vel_x
                } else {
                    0
                },
                vel_y: if vertical && !forward {
                    0
                } else {
                    self.vel_y
                },
                direction: if forward {
                    Direction::Left
                } else {
                    Direction::Right
                },
                action_num: if forward {
                    10
                } else {
                    20
                },
                ..*self
            };
        } else {
            let crushes = at_end_wall(&p.flags, vertical, forward);
            let push: i32 = if forward {
                0x20
            } else {
                -0x20
            };
            *self = NPC {
                action_counter,
                npc_flags: NPCFlag { rear_and_top_not_hurt: crushes, ..self.npc_flags },
                damage: if crushes {
                    100
                } else {
                    0
                },
                vel_x: if vertical {
                    self.vel_x
                } else {
                    self.vel_x.wrapping_add(push)
                },
                vel_y: if vertical {
                    self.vel_y.wrapping_add(push)
                } else {
                    self.vel_y
                },
                ..*self
            };
        }
    }

    fn block_act(&mut self, p: &Player, vertical: bool)
        ensures
            *final(self) == block_act(*old(self), *p, vertical),
    {
        if self.action_num == 11 || self.action_num == 21 {
            self.block_run(p, vertical);
        } else {
            self.block_wait(p, vertical);
        }
    }

    fn block_settle(&mut self, vertical: bool, state: &SharedGameState)
        ensures
            *final(self) == block_settle(*old(self), vertical, state@),
    {
        let vel_x = if vertical {
            self.vel_x
        } else {
            clamp(self.vel_x, -0x200, 0x200)
        };
        let vel_y = if vertical {
            clamp(self.vel_y, -0x200, 0x200)
        } else {
            self.vel_y
        };
        *self = NPC {
            vel_x,
            vel_y,
            x: if vertical {
                self.x
            } else {
                self.x.wrapping_add(vel_x)
            },
            y: if vertical {
                self.y.wrapping_add(vel_y)
            } else {
                self.y
            },
            anim_num: 149,
            anim_rect: if self.anim_num != 149 {
                state.constants.npc.n149_horizontal_moving_block
            } else {
                self.anim_rect
            },
            ..*self
        };
    }

    /// One tick of a block that runs along the vertical axis, or else along
    /// the horizontal one.
    pub fn tick_moving_block(
        &mut self,
        vertical: bool,
        state: &mut SharedGameState,
        players: &[Player; 2],
        npc_list: &mut NPCList,
    )
        requires
            old(npc_list).wf(),
        ensures
            final(npc_list).wf(),
            (NpcWorld { npc: *final(self), state: final(state)@, npcs: final(npc_list)@ })
                == block_world(
                NpcWorld { npc: *old(self), state: old(state)@, npcs: old(npc_list)@ },
                *players,
                vertical,
            ),
    {
        let i = self.get_closest_player_idx(players);
        let (x, y) = (self.x, self.y);
        let running = self.action_num == 11 || self.action_num == 21;
        let grinds = running && self.action_counter.wrapping_add(1) % 10 == 6;
        let crashes = running && at_end_wall(&self.flags, vertical, self.action_num == 21);
        let mut rng = self.rng;
        self.block_act(&players[i], vertical);
        state.play_sfx_if(grinds, 107);
        state.set_quake_if(crashes, 10);
        state.play_sfx_if(crashes, 26);
        spawn_puffs(x, y, true, if crashes { 3 } else { 0 }, &mut rng, state, npc_list);
        self.store_rng(rng);
        self.block_settle(vertical, state);
    }

    pub fn tick_n149_horizontal_moving_block(
        &mut self,
        state: &mut SharedGameState,
        players: &[Player; 2],
        npc_list: &mut NPCList,
    )
        requires
            old(npc_list).wf(),
        ensures
            final(npc_list).wf(),
            (NpcWorld { npc: *final(self), state: final(state)@, npcs: final(npc_list)@ })
                == block_world(
                NpcWorld { npc: *old(self), state: old(state)@, npcs: old(npc_list)@ },
                *players,
                false,
            ),
    {
        self.tick_moving_block(false, state, players, npc_list);
    }

    pub fn tick_n157_vertical_moving_block(
        &mut self,
        state: &mut SharedGameState,
        players: &[Player; 2],
        npc_list: &mut NPCList,
    )
        requires
            old(npc_list).wf(),
        ensures
            final(npc_list).wf(),
            (NpcWorld { npc: *final(self), state: final(state)@, npcs: final(npc_list)@ })
                == block_world(
                NpcWorld { npc: *old(self), state: old(state)@, npcs: old(npc_list)@ },
                *players,
                true,
            ),
    {
        self.tick_moving_block(true, state, players, npc_list);
    }
}

} // verus!
