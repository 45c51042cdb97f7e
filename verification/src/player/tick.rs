//! The player's tick: timers first, then the control state machine of the
//! mode in force, then the presentation.

use vstd::prelude::*;
use crate::common::{Condition, Direction, Flag};
use crate::input::player_controller::PlayerController;
use crate::npc::list::NPCList;
use crate::npc::NPC;
use crate::player::animation::{animated, footstep};
use crate::player::normal::{normal_step, PlayerWorld};
use crate::player::{ControlMode, Player};
use crate::shared_game_state::SharedGameState;

verus! {

/// What one tick is fed from outside: the answers of the input device and
/// the results of the collision resolver.
#[derive(Clone, Copy, Debug, PartialEq, Eq, Structural)]
pub struct TickInput {
    pub controller: PlayerController,
    pub flags: Flag,
}

/// The player with its timers run down by one tick. The damage display and
/// the hit-stun count down to zero; once the hit-stun is over the damage
/// taken is forgotten.
pub open spec fn timers_run(p: Player) -> Player {
    Player {
        damage_counter: if p.damage_counter != 0 {
            (p.damage_counter - 1) as u16
        } else {
            0
        },
        shock_counter: if p.shock_counter != 0 {
            (p.shock_counter - 1) as u8
        } else {
            0
        },
        damage_taken: if p.shock_counter != 0 {
            p.damage_taken
        } else {
            0
        },
        ..p
    }
}

/// Speed of free flight: doubled while jump is held.
pub open spec fn noclip_speed(p: Player) -> i32 {
    if p.controller.jump {
        4000
    } else {
        2000
    }
}

/// One tick of free flight: the held directions move the player by the
/// free-flight speed, the look inputs turn it, the camera sits on it and it
/// has no velocity. Physics and collision play no part.
pub open spec fn noclip_step(p: Player) -> Player {
    let c = p.controller;
    let speed = noclip_speed(p);
    let y1 = if c.move_down {
        p.y.wrapping_add(speed)
    } else {
        p.y
    };
    let x1 = if c.move_left {
        p.x.wrapping_sub(speed)
    } else {
        p.x
    };
    let x2 = if c.move_right {
        x1.wrapping_add(speed)
    } else {
        x1
    };
    let y2 = if c.move_up {
        y1.wrapping_sub(speed)
    } else {
        y1
    };
    Player {
        x: x2,
        y: y2,
        direction: if c.look_right {
            Direction::Right
        } else if c.look_left {
            Direction::Left
        } else {
            p.direction
        },
        anim_num: if c.look_right || c.look_left {
            0
        } else {
            p.anim_num
        },
        target_x: x2,
        target_y: y2,
        vel_x: 0,
        vel_y: 0,
        ..p
    }
}

/// The player cleared of the request for acceleration that a force field
/// made during the tick.
pub open spec fn acceleration_cleared(p: Player) -> Player {
    Player { cond: Condition { increase_acceleration: false, ..p.cond }, ..p }
}

/// The end of every tick of a living player: the request for acceleration
/// is cleared and the presentation brought up to date.
pub open spec fn presented(w: PlayerWorld) -> PlayerWorld {
    let p = acceleration_cleared(w.player);
    PlayerWorld {
        player: animated(p, w.state),
        state: w.state.with_sfx_if(footstep(p, w.state), 24),
        npcs: w.npcs,
    }
}

/// One tick of the player. A player who is not alive is left alone. Else
/// the timers run; free flight, where it is switched on, replaces the control
/// mode; normal control runs its physics; the boss-ride mode does nothing of
/// its own; and the tick ends with the presentation.
pub open spec fn player_step(w: PlayerWorld) -> PlayerWorld {
    if !w.player.cond.alive {
        w
    } else {
        let timed = PlayerWorld { player: timers_run(w.player), ..w };
        if w.state.settings.noclip {
            presented(PlayerWorld { player: noclip_step(timed.player), ..timed })
        } else if w.player.control_mode == ControlMode::Normal {
            presented(normal_step(timed))
        } else {
            presented(timed)
        }
    }
}

impl Player {
    fn tick_timers(&mut self)
        ensures
            *final(self) == timers_run(*old(self)),
    {
        let mut damage_counter = self.damage_counter;
        let mut shock_counter = self.shock_counter;
        let mut damage_taken = self.damage_taken;
        if damage_counter != 0 {
            damage_counter -= 1;
        }
        if shock_counter != 0 {
            shock_counter -= 1;
        } else if damage_taken != 0 {
            damage_taken = 0;
        }
        *self = Player { damage_counter, shock_counter, damage_taken, ..*self };
    }

    /// One tick in the boss-ride mode, which has no physics of its own.
    pub fn tick_ironhead(&mut self, _state: &mut SharedGameState)
        ensures
            *final(self) == *old(self),
            final(_state)@ == old(_state)@,
    {
    }

    /// One tick of free flight.
    pub fn tick_noclip(&mut self)
        ensures
            *final(self) == noclip_step(*old(self)),
    {
        let c = self.controller;
        let speed: i32 = if c.jump {
            4000
        } else {
            2000
        };
        let mut x = self.x;
        let mut y = self.y;
        let mut direction = self.direction;
        let mut anim_num = self.anim_num;
        if c.move_down {
            y = y.wrapping_add(speed);
        }
        if c.move_left {
            x = x.wrapping_sub(speed);
        }
        if c.move_right {
            x = x.wrapping_add(speed);
        }
        if c.move_up {
            y = y.wrapping_sub(speed);
        }
        if c.look_left {
            direction = Direction::Left;
            anim_num = 0;
        }
        if c.look_right {
            direction = Direction::Right;
            anim_num = 0;
        }
        *self = Player {
            x,
            y,
            direction,
            anim_num,
            target_x: x,
            target_y: y,
            vel_x: 0,
            vel_y: 0,
            ..*self
        };
    }

    fn clear_acceleration(&mut self)
        ensures
            *final(self) == acceleration_cleared(*old(self)),
    {
        *self = Player { cond: Condition { increase_acceleration: false, ..self.cond }, ..*self };
    }

    fn tick_presentation(&mut self, state: &mut SharedGameState)
        ensures
            final(state)@.constants == old(state)@.constants,
            forall|npcs: Seq<NPC>|
                (PlayerWorld { player: *final(self), state: final(state)@, npcs }) == presented(
                    PlayerWorld { player: *old(self), state: old(state)@, npcs },
                ),
    {
        self.clear_acceleration();
        self.tick_animation(state);
    }

    fn feed(&mut self, input: &TickInput)
        ensures
            *final(self) == (Player {
                controller: input.controller,
                flags: input.flags,
                ..*old(self)
            }),
    {
        *self = Player { controller: input.controller, flags: input.flags, ..*self };
    }

    /// One tick of the player on the given input.
    pub fn tick_with(
        &mut self,
        state: &mut SharedGameState,
        npc_list: &mut NPCList,
        input: &TickInput,
    )
        requires
            old(npc_list).wf(),
            0 <= old(state).constants.my_char.air_physics.max_move,
            0 <= old(state).constants.my_char.water_physics.max_move,
        ensures
            final(npc_list).wf(),
            final(state)@.constants == old(state)@.constants,
            (PlayerWorld { player: *final(self), state: final(state)@, npcs: final(npc_list)@ })
                == fed_step(
                PlayerWorld { player: *old(self), state: old(state)@, npcs: old(npc_list)@ },
                *input,
            ),
    {
        proof {
            reveal(fed_step);
        }
        self.feed(input);
        self.tick(state, npc_list);
    }

    /// Ticks the player once for each of the recorded inputs, in order.
    pub fn replay(
        &mut self,
        state: &mut SharedGameState,
        npc_list: &mut NPCList,
        inputs: &Vec<TickInput>,
    )
        requires
            old(npc_list).wf(),
            0 <= old(state).constants.my_char.air_physics.max_move,
            0 <= old(state).constants.my_char.water_physics.max_move,
        ensures
            final(npc_list).wf(),
            (PlayerWorld { player: *final(self), state: final(state)@, npcs: final(npc_list)@ })
                == crate::player::laws::replay(
                PlayerWorld { player: *old(self), state: old(state)@, npcs: old(npc_list)@ },
                inputs@,
            ),
    {
        let ghost start = PlayerWorld { player: *self, state: state@, npcs: npc_list@ };
        let mut i: usize = 0;
        while i < inputs.len()
            invariant
                i <= inputs.len(),
                npc_list.wf(),
                state@.constants == start.state.constants,
                0 <= start.state.constants.my_char.air_physics.max_move,
                0 <= start.state.constants.my_char.water_physics.max_move,
                (PlayerWorld { player: *self, state: state@, npcs: npc_list@ })
                    == crate::player::laws::replay(start, inputs@.subrange(0, i as int)),
            decreases inputs.len() - i,
        {
            proof {
                assert(inputs@.subrange(0, i + 1).drop_last() == inputs@.subrange(0, i as int));
                assert(inputs@.subrange(0, i + 1).last() == inputs@[i as int]);
            }
            self.tick_with(state, npc_list, &inputs[i]);
            i += 1;
        }
        proof {
            assert(inputs@.subrange(0, i as int) == inputs@);
        }
    }

    /// One tick of the player.
    pub fn tick(&mut self, state: &mut SharedGameState, npc_list: &mut NPCList)
        requires
            old(npc_list).wf(),
            0 <= old(state).constants.my_char.air_physics.max_move,
            0 <= old(state).constants.my_char.water_physics.max_move,
        ensures
            final(state)@.constants == old(state)@.constants,
            final(npc_list).wf(),
            (PlayerWorld { player: *final(self), state: final(state)@, npcs: final(npc_list)@ })
                == player_step(
                PlayerWorld { player: *old(self), state: old(state)@, npcs: old(npc_list)@ },
            ),
    {
        if !self.cond.alive {
            return ;
        }
        self.tick_timers();
        if state.settings.noclip {
            self.tick_noclip();
            self.tick_presentation(state);
            return ;
        }
        match self.control_mode {
            ControlMode::Normal => {
                self.tick_normal(state, npc_list);
                self.tick_presentation(state);
            },
            ControlMode::IronHead => {
                self.tick_ironhead(state);
                self.tick_presentation(state);
            },
        }
    }
}

/// One tick of the player on the given input: the input device and the
/// collision results are put in place, and the player is ticked.
#[verifier::opaque]
pub open spec fn fed_step(w: PlayerWorld, input: TickInput) -> PlayerWorld {
    player_step(
        PlayerWorld {
            player: Player { controller: input.controller, flags: input.flags, ..w.player },
            ..w
        },
    )
}

} // verus!
