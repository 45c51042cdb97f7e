//! Presentation of the player: which frame and which weapon rectangle are
//! shown. Nothing here feeds back into the physics; the only request it
//! makes is the footstep, audio cue 24.

use vstd::prelude::*;
use crate::common::{Condition, Direction, Rect};
use crate::player::Player;
use crate::shared_game_state::{SharedGameState, SharedGameStateView};

verus! {

/// Frame, frame timer, whether the player counts as walking, and whether a
/// footstep sounds.
pub struct Pose {
    pub anim_num: u16,
    pub anim_counter: u16,
    pub fallen: bool,
    pub footstep: bool,
}

/// One step of a walk cycle over the frames `first ..= last`: every fifth
/// tick the frame advances, wrapping to `first`; a frame outside the cycle
/// is replaced by `first`. The footstep sounds on the second and fourth frame
/// of the cycle.
pub open spec fn walk_cycle(p: Player, first: u16, last: u16) -> Pose {
    let counter = p.anim_counter.wrapping_add(1);
    let advanced = if counter > 4 {
        p.anim_num.wrapping_add(1)
    } else {
        p.anim_num
    };
    Pose {
        anim_num: if advanced > last || advanced < first {
            first
        } else {
            advanced
        },
        anim_counter: if counter > 4 {
            0
        } else {
            counter
        },
        fallen: true,
        footstep: counter > 4 && (advanced == first + 1 || advanced == first + 3),
    }
}

/// The pose of a player who is not hidden. On the ground: the interaction
/// pose, the walk cycles (looking up or level), looking up, or standing;
/// coming to rest after a walk sounds a footstep. In the air: looking up,
/// looking down, falling or rising.
pub open spec fn pose(p: Player, s: SharedGameStateView) -> Pose {
    let c = p.controller;
    let enabled = s.control_flags.control_enabled;
    if p.flags.hit_bottom_wall {
        if p.cond.interacted {
            Pose { anim_num: 11, anim_counter: p.anim_counter, fallen: p.cond.fallen, footstep: false }
        } else if enabled && c.move_up && (c.move_left || c.move_right) {
            walk_cycle(p, 6, 9)
        } else if enabled && (c.move_left || c.move_right) {
            walk_cycle(p, 1, 4)
        } else {
            Pose {
                anim_num: if enabled && c.move_up {
                    5
                } else {
                    0
                },
                anim_counter: p.anim_counter,
                fallen: false,
                footstep: p.cond.fallen,
            }
        }
    } else {
        Pose {
            anim_num: if c.look_up {
                6
            } else if c.look_down {
                10
            } else if p.vel_y > 0 {
                1
            } else {
                3
            },
            anim_counter: p.anim_counter,
            fallen: p.cond.fallen,
            footstep: false,
        }
    }
}

/// Rectangle of the weapon in its sheet: 13 weapons per row of the sheet,
/// the facing, the aim and the bobbing of the walk each shifting it down.
pub open spec fn weapon_rect_of(p: Player, anim_num: u16) -> Rect<u16> {
    let left = (p.current_weapon as int % 13) * 24;
    let top = (p.current_weapon as int / 13) * 96 + (if p.direction == Direction::Right {
        16int
    } else {
        0int
    }) + (if p.up {
        32int
    } else if p.down {
        64int
    } else {
        0int
    });
    let bob = if anim_num == 1 || anim_num == 3 || anim_num == 6 || anim_num == 8 {
        1int
    } else {
        0int
    };
    Rect {
        left: left as u16,
        top: (top + bob) as u16,
        right: (left + 24) as u16,
        bottom: (top + 16) as u16,
    }
}

/// Frame rectangle of the player: the frame of the facing's table, or the
/// rectangle kept where the facing has no table, moved down to the rows of
/// the appearance.
pub open spec fn anim_rect_of(p: Player, anim_num: u16, s: SharedGameStateView) -> Rect<u16> {
    let base = if p.direction == Direction::Left {
        s.constants.my_char.animations_left[anim_num as int]
    } else if p.direction == Direction::Right {
        s.constants.my_char.animations_right[anim_num as int]
    } else {
        p.anim_rect
    };
    Rect {
        top: base.top.wrapping_add(p.texture_offset()),
        bottom: base.bottom.wrapping_add(p.texture_offset()),
        ..base
    }
}

/// The player with its presentation brought up to date; a hidden player is
/// left as it is.
pub open spec fn animated(p: Player, s: SharedGameStateView) -> Player {
    let to = pose(p, s);
    if p.cond.hidden {
        p
    } else {
        Player {
            anim_num: to.anim_num,
            anim_counter: to.anim_counter,
            cond: Condition { fallen: to.fallen, ..p.cond },
            weapon_offset_y: if p.up {
                (-4) as i8
            } else if p.down {
                4
            } else {
                0
            },
            weapon_rect: weapon_rect_of(p, to.anim_num),
            anim_rect: anim_rect_of(p, to.anim_num, s),
            ..p
        }
    }
}

/// Whether the presentation asks for the footstep.
pub open spec fn footstep(p: Player, s: SharedGameStateView) -> bool {
    !p.cond.hidden && pose(p, s).footstep
}

/// The frame of every pose lies within the frame tables.
pub proof fn lemma_pose_in_table(p: Player, s: SharedGameStateView)
    ensures
        pose(p, s).anim_num <= 11,
{
}

impl Player {
    fn walk(&self, first: u16, last: u16) -> (r: Pose)
        requires
            first + 3 <= last,
        ensures
            r == walk_cycle(*self, first, last),
    {
        let mut anim_counter = self.anim_counter.wrapping_add(1);
        let mut anim_num = self.anim_num;
        let mut footstep = false;
        if anim_counter > 4 {
            anim_counter = 0;
            anim_num = anim_num.wrapping_add(1);
            if anim_num == first + 1 || anim_num == first + 3 {
                footstep = true;
            }
        }
        if anim_num > last || anim_num < first {
            anim_num = first;
        }
        Pose { anim_num, anim_counter, fallen: true, footstep }
    }

    fn strike_pose(&self, state: &SharedGameState) -> (r: Pose)
        ensures
            r == pose(*self, state@),
            r.anim_num <= 11,
    {
        let c = self.controller;
        let enabled = state.control_flags.control_enabled;
        if self.flags.hit_bottom_wall {
            if self.cond.interacted {
                Pose {
                    anim_num: 11,
                    anim_counter: self.anim_counter,
                    fallen: self.cond.fallen,
                    footstep: false,
                }
            } else if enabled && c.move_up && (c.move_left || c.move_right) {
                self.walk(6, 9)
            } else if enabled && (c.move_left || c.move_right) {
                self.walk(1, 4)
            } else if enabled && c.move_up {
                Pose {
                    anim_num: 5,
                    anim_counter: self.anim_counter,
                    fallen: false,
                    footstep: self.cond.fallen,
                }
            } else {
                Pose {
                    anim_num: 0,
                    anim_counter: self.anim_counter,
                    fallen: false,
                    footstep: self.cond.fallen,
                }
            }
        } else if c.look_up {
            Pose { anim_num: 6, anim_counter: self.anim_counter, fallen: self.cond.fallen, footstep: false }
        } else if c.look_down {
            Pose { anim_num: 10, anim_counter: self.anim_counter, fallen: self.cond.fallen, footstep: false }
        } else {
            Pose {
                anim_num: if self.vel_y > 0 {
                    1
                } else {
                    3
                },
                anim_counter: self.anim_counter,
                fallen: self.cond.fallen,
                footstep: false,
            }
        }
    }

    fn weapon_rect_for(&self, anim_num: u16) -> (r: Rect<u16>)
        ensures
            r == weapon_rect_of(*self, anim_num),
    {
        let left: u16 = (self.current_weapon as u16 % 13) * 24;
        let mut top: u16 = (self.current_weapon as u16 / 13) * 96;
        let right: u16 = left + 24;
        let mut bottom: u16 = top + 16;
        if self.direction == Direction::Right {
            top += 16;
            bottom += 16;
        }
        if self.up {
            top += 32;
            bottom += 32;
        } else if self.down {
            top += 64;
            bottom += 64;
        }
        if anim_num == 1 || anim_num == 3 || anim_num == 6 || anim_num == 8 {
            top += 1;
        }
        Rect { left, top, right, bottom }
    }

    fn anim_rect_for(&self, anim_num: u16, state: &SharedGameState) -> (r: Rect<u16>)
        requires
            anim_num <= 11,
        ensures
            r == anim_rect_of(*self, anim_num, state@),
    {
        let base = match self.direction {
            Direction::Left => state.constants.my_char.animations_left[anim_num as usize],
            Direction::Right => state.constants.my_char.animations_right[anim_num as usize],
            _ => self.anim_rect,
        };
        let offset = self.get_texture_offset();
        Rect {
            top: base.top.wrapping_add(offset),
            bottom: base.bottom.wrapping_add(offset),
            ..base
        }
    }

    /// Brings the presentation up to date; tells whether the footstep sounds.
    fn animate(&mut self, state: &SharedGameState) -> (sound: bool)
        ensures
            *final(self) == animated(*old(self), state@),
            sound == footstep(*old(self), state@),
    {
        if self.cond.hidden {
            return false;
        }
        let to = self.strike_pose(state);
        let weapon_offset_y: i8 = if self.up {
            -4
        } else if self.down {
            4
        } else {
            0
        };
        let weapon_rect = self.weapon_rect_for(to.anim_num);
        let anim_rect = self.anim_rect_for(to.anim_num, state);
        *self = Player {
            anim_num: to.anim_num,
            anim_counter: to.anim_counter,
            cond: Condition { fallen: to.fallen, ..self.cond },
            weapon_offset_y,
            weapon_rect,
            anim_rect,
            ..*self
        };
        to.footstep
    }

    /// Brings the presentation up to date and asks for the footstep.
    pub fn tick_animation(&mut self, state: &mut SharedGameState)
        ensures
            final(state)@.constants == old(state)@.constants,
            *final(self) == animated(*old(self), old(state)@),
            final(state)@ == old(state)@.with_sfx_if(footstep(*old(self), old(state)@), 24),
    {
        let sound = self.animate(state);
        state.play_sfx_if(sound, 24);
    }
}

} // verus!
