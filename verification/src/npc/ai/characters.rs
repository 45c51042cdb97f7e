//! The people of the story: they stand, blink, walk and jump on cue.

use vstd::prelude::*;
use crate::common::{Condition, Direction};
use crate::fix9::{abs, abs_spec, clamp, clamp_spec};
use crate::npc::ai::{cycle, facing_speed, facing_toward, fall, fallen, frame_cycle, toward_facing, face_toward};
use crate::npc::{closest_player, NPC};
use crate::player::Player;
use crate::rng::{sample_in, RNG};
use crate::shared_game_state::{SharedGameState, SharedGameStateView};

verus! {

/// What the companion does in the state she is in, before she moves. The
/// states come in pairs, the first of which sets the second up: standing
/// (0, 1), walking (3, 4), leaving (5, 6), running up to the player
/// (10, 11), lying (20, 21), jumping (30, 31) and landed (32), and walking
/// backwards (70, 71).
pub open spec fn curly_act(n: NPC, target_x: i32) -> NPC {
    let faced = if n.direction == Direction::FacingPlayer {
        facing_toward(n.x, target_x)
    } else {
        n.direction
    };
    if n.action_num == 0 {
        NPC {
            direction: faced,
            action_num: 1,
            anim_num: 0,
            anim_counter: 0,
            vel_x: 0,
            vel_y: n.vel_y.wrapping_add(0x40),
            ..n
        }
    } else if n.action_num == 1 {
        NPC { vel_x: 0, vel_y: n.vel_y.wrapping_add(0x40), ..n }
    } else if n.action_num == 3 || n.action_num == 4 {
        let to = if n.action_num == 3 {
            frame_cycle(1, 0, 4, 4, 1)
        } else {
            frame_cycle(n.anim_num, n.anim_counter, 4, 4, 1)
        };
        NPC {
            action_num: 4,
            anim_num: to.0,
            anim_counter: to.1,
            vel_y: n.vel_y.wrapping_add(0x40),
            vel_x: facing_speed(n.direction, 0x200),
            ..n
        }
    } else if n.action_num == 5 {
        NPC { action_num: 6, anim_num: 5, cond: Condition { alive: false, ..n.cond }, ..n }
    } else if n.action_num == 6 {
        NPC { anim_num: 5, ..n }
    } else if n.action_num == 10 || n.action_num == 11 {
        let to = if n.action_num == 10 {
            frame_cycle(1, 0, 4, 4, 1)
        } else {
            frame_cycle(n.anim_num, n.anim_counter, 4, 4, 1)
        };
        let direction = if n.action_num == 10 {
            faced
        } else {
            n.direction
        };
        NPC {
            action_num: if abs_spec(target_x.wrapping_sub(n.x)) < 20 * 0x200 {
                0
            } else {
                11
            },
            direction,
            anim_num: to.0,
            anim_counter: to.1,
            vel_x: n.vel_x.wrapping_add(facing_speed(direction, 0x200)),
            ..n
        }
    } else if n.action_num == 20 || n.action_num == 21 {
        NPC {
            vel_x: 0,
            anim_num: if n.action_num == 20 {
                6
            } else {
                9
            },
            ..n
        }
    } else if n.action_num == 30 || n.action_num == 31 {
        let counter = if n.action_num == 30 {
            0
        } else {
            n.action_counter
        };
        NPC {
            action_num: if counter != 0 && n.flags.hit_bottom_wall {
                32
            } else {
                31
            },
            action_counter: counter.wrapping_add(1),
            anim_num: 7,
            vel_x: facing_speed(n.direction, 0x200),
            vel_y: (if n.action_num == 30 {
                (-0x400) as i32
            } else {
                n.vel_y
            }).wrapping_add(0x40),
            ..n
        }
    } else if n.action_num == 32 {
        NPC { vel_x: 0, vel_y: n.vel_y.wrapping_add(0x40), anim_num: 8, ..n }
    } else if n.action_num == 70 || n.action_num == 71 {
        let to = if n.action_num == 70 {
            frame_cycle(1, 0, 8, 4, 1)
        } else {
            frame_cycle(n.anim_num, n.anim_counter, 8, 4, 1)
        };
        NPC {
            action_num: 71,
            action_counter: if n.action_num == 70 {
                0
            } else {
                n.action_counter
            },
            anim_num: to.0,
            anim_counter: to.1,
            vel_x: n.vel_x.wrapping_sub(facing_speed(n.direction, 0x100)),
            ..n
        }
    } else {
        n
    }
}

/// Frame of a two-sided table of `side` frames per facing: the left-facing
/// frames come first.
pub open spec fn sided_index(n: NPC, side: int) -> int {
    if n.direction == Direction::Left {
        n.anim_num as int
    } else {
        n.anim_num as int + side
    }
}

/// The companion after she moved: the falling speed is bounded, the
/// position steps by the velocity, and the frame of her facing is shown.
pub open spec fn curly_settle(m: NPC, s: SharedGameStateView) -> NPC {
    let vel_y = if m.vel_y > 0x5ff {
        0x5ff
    } else {
        m.vel_y
    };
    NPC {
        vel_y,
        x: m.x.wrapping_add(m.vel_x),
        y: m.y.wrapping_add(vel_y),
        anim_rect: s.constants.npc.n117_curly[sided_index(m, 10)],
        ..m
    }
}

/// One tick of the companion.
pub open spec fn curly_step(n: NPC, s: SharedGameStateView, players: [Player; 2]) -> NPC {
    curly_settle(curly_act(n, players[closest_player(n.x, n.y, players) as int].x), s)
}

impl NPC {
    pub(crate) fn curly_act(&mut self, target_x: i32)
        ensures
            *final(self) == curly_act(*old(self), target_x),
    {
        let mut action_num = self.action_num;
        let mut action_counter = self.action_counter;
        let mut anim_num = self.anim_num;
        let mut anim_counter = self.anim_counter;
        let mut direction = self.direction;
        let mut vel_x = self.vel_x;
        let mut vel_y = self.vel_y;
        let mut cond = self.cond;
        match action_num {
            0 | 1 => {
                if action_num == 0 {
                    if direction == Direction::FacingPlayer {
                        direction = face_toward(self.x, target_x);
                    }
                    action_num = 1;
                    anim_num = 0;
                    anim_counter = 0;
                }
                vel_x = 0;
                vel_y = vel_y.wrapping_add(0x40);
            },
            3 | 4 => {
                if action_num == 3 {
                    action_num = 4;
                    anim_num = 1;
                    anim_counter = 0;
                }
                let to = cycle(anim_num, anim_counter, 4, 4, 1);
                anim_num = to.0;
                anim_counter = to.1;
                vel_y = vel_y.wrapping_add(0x40);
                vel_x = toward_facing(direction, 0x200);
            },
            5 => {
                action_num = 6;
                anim_num = 5;
                cond = Condition { alive: false, ..cond };
            },
            6 => {
                anim_num = 5;
            },
            10 | 11 => {
                if action_num == 10 {
                    action_num = 11;
                    anim_num = 1;
                    anim_counter = 0;
                    if direction == Direction::FacingPlayer {
                        direction = face_toward(self.x, target_x);
                    }
                }
                let to = cycle(anim_num, anim_counter, 4, 4, 1);
                anim_num = to.0;
                anim_counter = to.1;
                vel_x = vel_x.wrapping_add(toward_facing(direction, 0x200));
                if abs(target_x.wrapping_sub(self.x)) < 20 * 0x200 {
                    action_num = 0;
                }
            },
            20 | 21 => {
                vel_x = 0;
                anim_num = if action_num == 20 {
                    6
                } else {
                    9
                };
            },
            30 | 31 => {
                if action_num == 30 {
                    action_num = 31;
                    action_counter = 0;
                    vel_y = -0x400;
                }
                anim_num = 7;
                vel_x = toward_facing(direction, 0x200);
                vel_y = vel_y.wrapping_add(0x40);
                if action_counter != 0 && self.flags.hit_bottom_wall {
                    action_num = 32;
                }
                action_counter = action_counter.wrapping_add(1);
            },
            32 => {
                vel_x = 0;
                vel_y = vel_y.wrapping_add(0x40);
                anim_num = 8;
            },
            70 | 71 => {
                if action_num == 70 {
                    action_num = 71;
                    action_counter = 0;
                    anim_num = 1;
                    anim_counter = 0;
                }
                vel_x = vel_x.wrapping_sub(toward_facing(direction, 0x100));
                let to = cycle(anim_num, anim_counter, 8, 4, 1);
                anim_num = to.0;
                anim_counter = to.1;
            },
            _ => {},
        }
        *self = NPC {
            action_num,
            action_counter,
            anim_num,
            anim_counter,
            direction,
            vel_x,
            vel_y,
            cond,
            ..*self
        };
    }

    fn curly_settle(&mut self, state: &SharedGameState)
        requires
            sided_index(*old(self), 10) < 20,
        ensures
            *final(self) == curly_settle(*old(self), state@),
    {
        let vel_y = if self.vel_y > 0x5ff {
            0x5ff
        } else {
            self.vel_y
        };
        let anim_rect = if self.direction == Direction::Left {
            state.constants.npc.n117_curly[self.anim_num as usize]
        } else {
            state.constants.npc.n117_curly[self.anim_num as usize + 10]
        };
        *self = NPC {
            vel_y,
            x: self.x.wrapping_add(self.vel_x),
            y: self.y.wrapping_add(vel_y),
            anim_rect,
            ..*self
        };
    }

    pub fn tick_n117_curly(&mut self, state: &SharedGameState, players: &[Player; 2])
        requires
            sided_index(
                curly_act(
                    *old(self),
                    players[closest_player(old(self).x, old(self).y, *players) as int].x,
                ),
                10,
            ) < 20,
        ensures
            *final(self) == curly_step(*old(self), state@, *players),
    {
        let i = self.get_closest_player_idx(players);
        self.curly_act(players[i].x);
        self.curly_settle(state);
    }
}

/// One tick of the watcher in the wall: it opens its eyes while a player is
/// near and below its brow.
pub open spec fn cthulhu_step(n: NPC, s: SharedGameStateView, players: [Player; 2]) -> NPC {
    let player = players[closest_player(n.x, n.y, players) as int];
    let near = abs_spec(n.x.wrapping_sub(player.x)) < 48 * 0x200 && n.y.wrapping_sub(0x6000)
        < player.y && n.y.wrapping_add(0x2000) > player.y;
    let anim_num: u16 = if near {
        1
    } else {
        0
    };
    NPC {
        action_num: if n.action_num == 0 {
            1
        } else {
            n.action_num
        },
        anim_counter: if n.action_num == 0 {
            0
        } else {
            n.anim_counter
        },
        anim_num,
        anim_rect: s.constants.npc.n029_cthulhu[if n.direction == Direction::Left {
            anim_num as int
        } else {
            anim_num as int + 2
        }],
        ..n
    }
}

/// One tick of the sitting robot: on its first tick it shows its only frame.
pub open spec fn sitting_robot_step(n: NPC, s: SharedGameStateView) -> NPC {
    if n.action_num == 0 {
        NPC { action_num: 1, anim_rect: s.constants.npc.n052_sitting_blue_robot, ..n }
    } else {
        n
    }
}

/// Offset of the right-facing half of a table of `side` frames per facing.
pub open spec fn side_offset(direction: Direction, side: int) -> int {
    if direction == Direction::Left {
        0
    } else {
        side
    }
}

/// One tick of the engineer: he stands (0), walks the way he faces (3, 4)
/// or sits (5), and gravity pulls on him.
pub open spec fn kazuma_step(n: NPC, s: SharedGameStateView) -> NPC {
    let off = side_offset(n.direction, 6);
    let table = s.constants.npc.n055_kazuma;
    let vel_y = fallen(n.vel_y, 0x20);
    if n.action_num == 0 {
        NPC { action_num: 1, anim_num: 0, anim_counter: 0, anim_rect: table[off], vel_y, ..n }
    } else if n.action_num == 3 || n.action_num == 4 {
        let to = if n.action_num == 3 {
            frame_cycle(1, 0, 4, 4, 1)
        } else {
            frame_cycle(n.anim_num, n.anim_counter, 4, 4, 1)
        };
        NPC {
            action_num: 4,
            anim_num: to.0,
            anim_counter: to.1,
            x: if n.direction == Direction::Left {
                n.x.wrapping_sub(0x200)
            } else if n.direction == Direction::Right {
                n.x.wrapping_add(0x200)
            } else {
                n.x
            },
            anim_rect: table[to.0 as int + off],
            vel_y,
            ..n
        }
    } else if n.action_num == 5 {
        NPC { anim_num: 5, anim_rect: table[5 + off], vel_y, ..n }
    } else {
        NPC { vel_y, ..n }
    }
}

/// The idle blink shared by several characters: a fresh character (state 0)
/// is set up standing; a standing one (0, 1) starts to blink (2) when a draw
/// from `0 ..= window` gives `hit`; a blinking one stands again after `rest`
/// ticks. Gives the state, its timer and the frame; other states are left
/// as they are.
pub open spec fn idle_blink(n: NPC, window: int, hit: int, rest: u16) -> (u16, u16, u16) {
    if n.action_num == 0 || n.action_num == 1 {
        if sample_in(0, window, n.rng.draw()) == hit {
            (2, 0, 1)
        } else {
            (
                1,
                n.action_counter,
                if n.action_num == 0 {
                    0
                } else {
                    n.anim_num
                },
            )
        }
    } else if n.action_num == 2 {
        let counter = n.action_counter.wrapping_add(1);
        if counter > rest {
            (1, counter, 0)
        } else {
            (2, counter, n.anim_num)
        }
    } else {
        (n.action_num, n.action_counter, n.anim_num)
    }
}

/// What the king does in the state he is in, before he moves: the idle
/// blink (0, 1, 2), kneeling (5), jumping (6, 7), walking (8, 9) and running
/// (10, 11).
pub open spec fn king_act(n: NPC) -> NPC {
    if n.action_num == 0 || n.action_num == 1 || n.action_num == 2 {
        let to = idle_blink(n, 120, 10, 8);
        NPC {
            action_num: to.0,
            action_counter: to.1,
            anim_num: to.2,
            anim_counter: if n.action_num == 0 {
                0
            } else {
                n.anim_counter
            },
            vel_x: if n.action_num == 0 {
                0
            } else {
                n.vel_x
            },
            rng: if n.action_num == 2 {
                n.rng
            } else {
                n.rng.after()
            },
            ..n
        }
    } else if n.action_num == 5 {
        NPC { anim_num: 3, vel_x: 0, ..n }
    } else if n.action_num == 6 || n.action_num == 7 {
        let counter = if n.action_num == 6 {
            0
        } else {
            n.action_counter
        };
        NPC {
            action_num: if counter != 0 && n.flags.hit_bottom_wall {
                5
            } else {
                7
            },
            action_counter: counter.wrapping_add(1),
            anim_counter: if n.action_num == 6 {
                0
            } else {
                n.anim_counter
            },
            vel_y: if n.action_num == 6 {
                (-0x400) as i32
            } else {
                n.vel_y
            },
            anim_num: 2,
            vel_x: facing_speed(n.direction, 0x200),
            ..n
        }
    } else if n.action_num == 8 || n.action_num == 9 {
        let to = if n.action_num == 8 {
            frame_cycle(4, 0, 4, 7, 4)
        } else {
            frame_cycle(n.anim_num, n.anim_counter, 4, 7, 4)
        };
        NPC {
            action_num: 9,
            anim_num: to.0,
            anim_counter: to.1,
            vel_x: facing_speed(n.direction, 0x200),
            ..n
        }
    } else if n.action_num == 10 || n.action_num == 11 {
        let to = if n.action_num == 10 {
            frame_cycle(4, 0, 2, 7, 4)
        } else {
            frame_cycle(n.anim_num, n.anim_counter, 2, 7, 4)
        };
        NPC {
            action_num: 11,
            anim_num: to.0,
            anim_counter: to.1,
            vel_x: facing_speed(n.direction, 0x400),
            ..n
        }
    } else {
        n
    }
}

/// The king after he moved: outside the states 30 to 39 gravity pulls and
/// the speeds are bounded; the position steps by the velocity and the frame
/// of his facing is shown.
pub open spec fn king_settle(m: NPC, s: SharedGameStateView) -> NPC {
    let heavy = m.action_num < 30 || m.action_num >= 40;
    let vel_x = if heavy {
        clamp_spec(m.vel_x as int, -0x400, 0x400) as i32
    } else {
        m.vel_x
    };
    let vel_y = if heavy {
        fallen(m.vel_y, 0x40)
    } else {
        m.vel_y
    };
    NPC {
        vel_x,
        vel_y,
        x: m.x.wrapping_add(vel_x),
        y: m.y.wrapping_add(vel_y),
        anim_rect: s.constants.npc.n061_king[sided_index(m, 10)],
        ..m
    }
}

/// One tick of the king.
pub open spec fn king_step(n: NPC, s: SharedGameStateView) -> NPC {
    king_settle(king_act(n), s)
}

/// Whether the engineer at his computer can show the frame that his typing
/// reaches: while he types, the frame that follows the one shown must exist.
pub open spec fn kazuma_computer_ready(n: NPC) -> bool {
    n.action_num == 1 && n.anim_counter.wrapping_add(1) > 2 ==> n.anim_num.wrapping_add(1) <= 2
}

/// One tick of the engineer at his computer: he types (0, 1), two frames
/// alternating every third tick; a draw may make him pause (2) or turn round
/// (3), the second draw winning; a pause leads to turning round after 40
/// ticks, and he types again after 80 more.
pub open spec fn kazuma_computer_step(n: NPC, s: SharedGameStateView) -> NPC {
    let table = s.constants.npc.n062_kazuma_computer;
    if n.action_num == 0 || n.action_num == 1 {
        let fresh = n.action_num == 0;
        let to = if fresh {
            frame_cycle(0, 0, 2, 1, 0)
        } else {
            frame_cycle(n.anim_num, n.anim_counter, 2, 1, 0)
        };
        let shown = fresh || n.anim_counter.wrapping_add(1) > 2;
        let pauses = sample_in(0, 80, n.rng.draw()) == 1;
        let turns = sample_in(0, 120, n.rng.after().draw()) == 10;
        NPC {
            x: if fresh {
                n.x.wrapping_sub(0x800)
            } else {
                n.x
            },
            y: if fresh {
                n.y.wrapping_add(0x2000)
            } else {
                n.y
            },
            action_num: if turns {
                3
            } else if pauses {
                2
            } else {
                1
            },
            action_counter: if turns || pauses {
                0
            } else {
                n.action_counter
            },
            anim_num: if turns {
                2
            } else if pauses {
                1
            } else {
                to.0
            },
            anim_counter: to.1,
            anim_rect: if turns {
                table[2]
            } else if pauses {
                table[1]
            } else if shown || n.anim_num > 1 {
                table[to.0 as int]
            } else {
                n.anim_rect
            },
            rng: n.rng.after().after(),
            ..n
        }
    } else if n.action_num == 2 {
        let counter = n.action_counter.wrapping_add(1);
        if counter > 40 {
            NPC { action_num: 3, anim_num: 2, action_counter: 0, anim_rect: table[2], ..n }
        } else {
            NPC { action_counter: counter, ..n }
        }
    } else if n.action_num == 3 {
        let counter = n.action_counter.wrapping_add(1);
        if counter > 80 {
            NPC { action_num: 1, anim_num: 0, action_counter: counter, anim_rect: table[0], ..n }
        } else {
            NPC { action_counter: counter, ..n }
        }
    } else {
        n
    }
}

/// What the villager does in the state he is in, before he moves: the idle
/// blink (0, 1, 2) and walking (8, 9).
pub open spec fn jack_act(n: NPC) -> NPC {
    if n.action_num == 0 || n.action_num == 1 || n.action_num == 2 {
        let to = idle_blink(n, 120, 10, 8);
        NPC {
            action_num: to.0,
            action_counter: to.1,
            anim_num: to.2,
            anim_counter: if n.action_num == 0 {
                0
            } else {
                n.anim_counter
            },
            vel_x: if n.action_num == 0 {
                0
            } else {
                n.vel_x
            },
            rng: if n.action_num == 2 {
                n.rng
            } else {
                n.rng.after()
            },
            ..n
        }
    } else if n.action_num == 8 || n.action_num == 9 {
        let to = if n.action_num == 8 {
            frame_cycle(2, 0, 4, 5, 2)
        } else {
            frame_cycle(n.anim_num, n.anim_counter, 4, 5, 2)
        };
        NPC {
            action_num: 9,
            anim_num: to.0,
            anim_counter: to.1,
            vel_x: facing_speed(n.direction, 0x200),
            ..n
        }
    } else {
        n
    }
}

/// The villager after he moved: gravity pulls, the speeds are bounded, the
/// position steps by the velocity and the frame of his facing is shown.
pub open spec fn jack_settle(m: NPC, s: SharedGameStateView) -> NPC {
    let vel_x = clamp_spec(m.vel_x as int, -0x400, 0x400) as i32;
    let vel_y = fallen(m.vel_y, 0x40);
    NPC {
        vel_x,
        vel_y,
        x: m.x.wrapping_add(vel_x),
        y: m.y.wrapping_add(vel_y),
        anim_rect: s.constants.npc.n074_jack[sided_index(m, 6)],
        ..m
    }
}

/// One tick of the villager.
pub open spec fn jack_step(n: NPC, s: SharedGameStateView) -> NPC {
    jack_settle(jack_act(n), s)
}

/// What the standing robot does: the idle blink, a draw from `0 ..= 100`
/// giving 0 starting a blink of 16 ticks.
pub open spec fn blue_robot_act(n: NPC) -> NPC {
    let to = idle_blink(n, 100, 0, 16);
    NPC {
        action_num: to.0,
        action_counter: to.1,
        anim_num: to.2,
        anim_counter: if n.action_num == 0 {
            0
        } else {
            n.anim_counter
        },
        rng: if n.action_num == 0 || n.action_num == 1 {
            n.rng.after()
        } else {
            n.rng
        },
        ..n
    }
}

/// One tick of the standing robot.
pub open spec fn blue_robot_step(n: NPC, s: SharedGameStateView) -> NPC {
    let m = blue_robot_act(n);
    NPC { anim_rect: s.constants.npc.n151_blue_robot_standing[sided_index(m, 2)], ..m }
}

impl NPC {
    /// The idle blink on the entity's own stream; gives the state, its timer,
    /// the frame and the stream.
    pub(crate) fn blink(&self, window: i32, hit: i32, rest: u16) -> (r: (
        u16,
        u16,
        u16,
        crate::rng::Xoroshiro32PlusPlus,
    ))
        requires
            0 <= window < i32::MAX,
        ensures
            (r.0, r.1, r.2) == idle_blink(*self, window as int, hit as int, rest),
            r.3 == (if self.action_num == 0 || self.action_num == 1 {
                self.rng.after()
            } else {
                self.rng
            }),
    {
        let mut rng = self.rng;
        if self.action_num == 0 || self.action_num == 1 {
            if rng.range(0..window) == hit {
                (2, 0, 1, rng)
            } else {
                (
                    1,
                    self.action_counter,
                    if self.action_num == 0 {
                        0
                    } else {
                        self.anim_num
                    },
                    rng,
                )
            }
        } else if self.action_num == 2 {
            let counter = self.action_counter.wrapping_add(1);
            if counter > rest {
                (1, counter, 0, rng)
            } else {
                (2, counter, self.anim_num, rng)
            }
        } else {
            (self.action_num, self.action_counter, self.anim_num, rng)
        }
    }

    pub fn tick_n029_cthulhu(&mut self, state: &SharedGameState, players: &[Player; 2])
        ensures
            *final(self) == cthulhu_step(*old(self), state@, *players),
    {
        let i = self.get_closest_player_idx(players);
        let player = &players[i];
        let near = abs(self.x.wrapping_sub(player.x)) < 48 * 0x200 && self.y.wrapping_sub(0x6000) < player.y && self.y.wrapping_add(0x2000) > player.y;
        let mut action_num = self.action_num;
        let mut anim_counter = self.anim_counter;
        if action_num == 0 {
            action_num = 1;
            anim_counter = 0;
        }
        let anim_num: u16 = if near {
            1
        } else {
            0
        };
        let dir_offset: usize = if self.direction == Direction::Left {
            0
        } else {
            2
        };
        let anim_rect = state.constants.npc.n029_cthulhu[anim_num as usize + dir_offset];
        *self = NPC { action_num, anim_counter, anim_num, anim_rect, ..*self };
    }

    pub fn tick_n052_sitting_blue_robot(&mut self, state: &SharedGameState)
        ensures
            *final(self) == sitting_robot_step(*old(self), state@),
    {
        if self.action_num == 0 {
            *self = NPC {
                action_num: 1,
                anim_rect: state.constants.npc.n052_sitting_blue_robot,
                ..*self
            };
        }
    }

    pub fn tick_n055_kazuma(&mut self, state: &SharedGameState)
        ensures
            *final(self) == kazuma_step(*old(self), state@),
    {
        let off: usize = if self.direction == Direction::Left {
            0
        } else {
            6
        };
        let mut action_num = self.action_num;
        let mut anim_num = self.anim_num;
        let mut anim_counter = self.anim_counter;
        let mut x = self.x;
        let mut anim_rect = self.anim_rect;
        match action_num {
            0 => {
                action_num = 1;
                anim_num = 0;
                anim_counter = 0;
                anim_rect = state.constants.npc.n055_kazuma[off];
            },
            3 | 4 => {
                if action_num == 3 {
                    action_num = 4;
                    anim_num = 1;
                    anim_counter = 0;
                }
                let to = cycle(anim_num, anim_counter, 4, 4, 1);
                anim_num = to.0;
                anim_counter = to.1;
                match self.direction {
                    Direction::Left => {
                        x = x.wrapping_sub(0x200);
                    },
                    Direction::Right => {
                        x = x.wrapping_add(0x200);
                    },
                    _ => {},
                }
                anim_rect = state.constants.npc.n055_kazuma[anim_num as usize + off];
            },
            5 => {
                anim_num = 5;
                anim_rect = state.constants.npc.n055_kazuma[anim_num as usize + off];
            },
            _ => {},
        }
        let vel_y = fall(self.vel_y, 0x20);
        *self = NPC { action_num, anim_num, anim_counter, x, anim_rect, vel_y, ..*self };
    }

    pub(crate) fn king_act(&mut self)
        ensures
            *final(self) == king_act(*old(self)),
    {
        let mut action_num = self.action_num;
        let mut action_counter = self.action_counter;
        let mut anim_num = self.anim_num;
        let mut anim_counter = self.anim_counter;
        let mut vel_x = self.vel_x;
        let mut vel_y = self.vel_y;
        let mut rng = self.rng;
        match action_num {
            0 | 1 | 2 => {
                if action_num == 0 {
                    anim_counter = 0;
                    vel_x = 0;
                }
                let to = self.blink(120, 10, 8);
                action_num = to.0;
                action_counter = to.1;
                anim_num = to.2;
                rng = to.3;
            },
            5 => {
                anim_num = 3;
                vel_x = 0;
            },
            6 | 7 => {
                if action_num == 6 {
                    action_num = 7;
                    action_counter = 0;
                    anim_counter = 0;
                    vel_y = -0x400;
                }
                anim_num = 2;
                vel_x = toward_facing(self.direction, 0x200);
                if action_counter != 0 && self.flags.hit_bottom_wall {
                    action_num = 5;
                }
                action_counter = action_counter.wrapping_add(1);
            },
            8 | 9 => {
                if action_num == 8 {
                    action_num = 9;
                    anim_num = 4;
                    anim_counter = 0;
                }
                let to = cycle(anim_num, anim_counter, 4, 7, 4);
                anim_num = to.0;
                anim_counter = to.1;
                vel_x = toward_facing(self.direction, 0x200);
            },
            10 | 11 => {
                if action_num == 10 {
                    action_num = 11;
                    anim_num = 4;
                    anim_counter = 0;
                }
                let to = cycle(anim_num, anim_counter, 2, 7, 4);
                anim_num = to.0;
                anim_counter = to.1;
                vel_x = toward_facing(self.direction, 0x400);
            },
            _ => {},
        }
        *self = NPC {
            action_num,
            action_counter,
            anim_num,
            anim_counter,
            vel_x,
            vel_y,
            rng,
            ..*self
        };
    }

    fn king_settle(&mut self, state: &SharedGameState)
        requires
            sided_index(*old(self), 10) < 20,
        ensures
            *final(self) == king_settle(*old(self), state@),
    {
        let mut vel_x = self.vel_x;
        let mut vel_y = self.vel_y;
        if self.action_num < 30 || self.action_num >= 40 {
            vel_y = fall(vel_y, 0x40);
            vel_x = clamp(vel_x, -0x400, 0x400);
        }
        let anim_rect = if self.direction == Direction::Left {
            state.constants.npc.n061_king[self.anim_num as usize]
        } else {
            state.constants.npc.n061_king[self.anim_num as usize + 10]
        };
        *self = NPC {
            vel_x,
            vel_y,
            x: self.x.wrapping_add(vel_x),
            y: self.y.wrapping_add(vel_y),
            anim_rect,
            ..*self
        };
    }

    pub fn tick_n061_king(&mut self, state: &SharedGameState)
        requires
            sided_index(king_act(*old(self)), 10) < 20,
        ensures
            *final(self) == king_step(*old(self), state@),
    {
        self.king_act();
        self.king_settle(state);
    }

    pub fn tick_n062_kazuma_computer(&mut self, state: &SharedGameState)
        requires
            kazuma_computer_ready(*old(self)),
        ensures
            *final(self) == kazuma_computer_step(*old(self), state@),
    {
        let table = &state.constants.npc.n062_kazuma_computer;
        let mut x = self.x;
        let mut y = self.y;
        let mut action_num = self.action_num;
        let mut action_counter = self.action_counter;
        let mut anim_num = self.anim_num;
        let mut anim_counter = self.anim_counter;
        let mut anim_rect = self.anim_rect;
        let mut rng = self.rng;
        match action_num {
            0 | 1 => {
                if action_num == 0 {
                    x = x.wrapping_sub(0x800);
                    y = y.wrapping_add(0x2000);
                    action_num = 1;
                    anim_num = 0;
                    anim_counter = 0;
                    anim_rect = table[anim_num as usize];
                }
                anim_counter = anim_counter.wrapping_add(1);
                if anim_counter > 2 {
                    anim_counter = 0;
                    anim_num = anim_num.wrapping_add(1);
                    anim_rect = table[anim_num as usize];
                }
                if anim_num > 1 {
                    anim_num = 0;
                    anim_rect = table[anim_num as usize];
                }
                if rng.range(0..80) == 1 {
                    action_num = 2;
                    action_counter = 0;
                    anim_num = 1;
                    anim_rect = table[anim_num as usize];
                }
                if rng.range(0..120) == 10 {
                    action_num = 3;
                    action_counter = 0;
                    anim_num = 2;
                    anim_rect = table[anim_num as usize];
                }
            },
            2 => {
                action_counter = action_counter.wrapping_add(1);
                if action_counter > 40 {
                    action_num = 3;
                    anim_num = 2;
                    action_counter = 0;
                    anim_rect = table[anim_num as usize];
                }
            },
            3 => {
                action_counter = action_counter.wrapping_add(1);
                if action_counter > 80 {
                    action_num = 1;
                    anim_num = 0;
                    anim_rect = table[anim_num as usize];
                }
            },
            _ => {},
        }
        *self = NPC {
            x,
            y,
            action_num,
            action_counter,
            anim_num,
            anim_counter,
            anim_rect,
            rng,
            ..*self
        };
    }

    pub(crate) fn jack_act(&mut self)
        ensures
            *final(self) == jack_act(*old(self)),
    {
        let mut action_num = self.action_num;
        let mut action_counter = self.action_counter;
        let mut anim_num = self.anim_num;
        let mut anim_counter = self.anim_counter;
        let mut vel_x = self.vel_x;
        let mut rng = self.rng;
        match action_num {
            0 | 1 | 2 => {
                if action_num == 0 {
                    anim_counter = 0;
                    vel_x = 0;
                }
                let to = self.blink(120, 10, 8);
                action_num = to.0;
                action_counter = to.1;
                anim_num = to.2;
                rng = to.3;
            },
            8 | 9 => {
                if action_num == 8 {
                    action_num = 9;
                    anim_num = 2;
                    anim_counter = 0;
                }
                let to = cycle(anim_num, anim_counter, 4, 5, 2);
                anim_num = to.0;
                anim_counter = to.1;
                vel_x = toward_facing(self.direction, 0x200);
            },
            _ => {},
        }
        *self = NPC { action_num, action_counter, anim_num, anim_counter, vel_x, rng, ..*self };
    }

    fn jack_settle(&mut self, state: &SharedGameState)
        requires
            sided_index(*old(self), 6) < 12,
        ensures
            *final(self) == jack_settle(*old(self), state@),
    {
        let vel_y = fall(self.vel_y, 0x40);
        let vel_x = clamp(self.vel_x, -0x400, 0x400);
        let dir_offset: usize = if self.direction == Direction::Left {
            0
        } else {
            6
        };
        let anim_rect = state.constants.npc.n074_jack[self.anim_num as usize + dir_offset];
        *self = NPC {
            vel_x,
            vel_y,
            x: self.x.wrapping_add(vel_x),
            y: self.y.wrapping_add(vel_y),
            anim_rect,
            ..*self
        };
    }

    pub fn tick_n074_jack(&mut self, state: &SharedGameState)
        requires
            sided_index(jack_act(*old(self)), 6) < 12,
        ensures
            *final(self) == jack_step(*old(self), state@),
    {
        self.jack_act();
        self.jack_settle(state);
    }

    pub fn tick_n151_blue_robot_standing(&mut self, state: &SharedGameState)
        requires
            sided_index(blue_robot_act(*old(self)), 2) < 4,
        ensures
            *final(self) == blue_robot_step(*old(self), state@),
    {
        let to = self.blink(100, 0, 16);
        let anim_counter = if self.action_num == 0 {
            0
        } else {
            self.anim_counter
        };
        let dir_offset: usize = if self.direction == Direction::Left {
            0
        } else {
            2
        };
        let anim_rect = state.constants.npc.n151_blue_robot_standing[to.2 as usize + dir_offset];
        *self = NPC {
            action_num: to.0,
            action_counter: to.1,
            anim_num: to.2,
            anim_counter,
            rng: to.3,
            anim_rect,
            ..*self
        };
    }
}

} // verus!
