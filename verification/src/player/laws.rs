//! What holds of the player's control state machine on every input.

use vstd::prelude::*;

use crate::player::normal::{
    fall,
    normal_finish,
    normal_move,
    normal_splash,
    speed_limit,
    steer,
    PlayerWorld,
};
use crate::player::tick::{noclip_step, player_step};
use crate::player::{Player, BOOSTER_DOWN, BOOSTER_OFF, BOOSTER_SIDE, BOOSTER_UP};
use crate::shared_game_state::SharedGameStateView;

verus! {

/// The booster has one sub-mode at a time: none, sideways, up or down.
pub open spec fn booster_well_formed(p: Player) -> bool {
    p.booster_switch == BOOSTER_OFF || p.booster_switch == BOOSTER_SIDE || p.booster_switch
        == BOOSTER_UP || p.booster_switch == BOOSTER_DOWN
}

/// Steering leaves the booster in one sub-mode at most; a sub-mode is
/// active after steering only in the air, with fuel left and jump held; and
/// an active sub-mode is cleared exactly when the player stands on the
/// ground, the fuel is gone, jump is released or control is taken away.
pub proof fn lemma_booster_sub_mode(p: Player, s: SharedGameStateView)
    requires
        booster_well_formed(p),
    ensures
        booster_well_formed(steer(p, s)),
        steer(p, s).booster_switch != BOOSTER_OFF ==> !p.flags.grounded() && p.booster_fuel != 0
            && p.controller.jump,
        p.booster_switch != BOOSTER_OFF ==> (steer(p, s).booster_switch == BOOSTER_OFF
            <==> p.flags.grounded() || p.booster_fuel == 0 || !p.controller.jump
            || !s.control_flags.control_enabled),
{
}

/// The sub-mode that steering leaves stands for the rest of the tick, and a
/// thrusting booster burns one unit of fuel per tick.
pub proof fn lemma_booster_through_tick(w: PlayerWorld)
    requires
        !steer(w.player, w.state).cond.hidden,
    ensures
        normal_move(w).player.booster_switch == steer(w.player, w.state).booster_switch,
        normal_finish(normal_splash(normal_move(w))).player.booster_switch == steer(
            w.player,
            w.state,
        ).booster_switch,
        steer(w.player, w.state).booster_switch != BOOSTER_OFF ==> normal_move(w).player.booster_fuel
            == steer(w.player, w.state).booster_fuel - 1,
{
}

/// After the speed limit neither speed exceeds it, whatever the speeds
/// were.
pub proof fn lemma_speed_limited(p: Player, s: SharedGameStateView)
    requires
        0 <= speed_limit(p, s.constants),
    ensures
        -speed_limit(p, s.constants) <= fall(p, s).vel_x <= speed_limit(p, s.constants),
        -speed_limit(p, s.constants) <= fall(p, s).vel_y <= speed_limit(p, s.constants),
{
}

/// A player who is not alive is not touched by its tick, and free flight
/// takes no notice of collision or velocity.
pub proof fn lemma_tick_modes(w: PlayerWorld)
    ensures
        !w.player.cond.alive ==> player_step(w) == w,
        noclip_step(w.player).vel_x == 0 && noclip_step(w.player).vel_y == 0,
        noclip_step(w.player).target_x == noclip_step(w.player).x,
        noclip_step(w.player).target_y == noclip_step(w.player).y,
{
}

/// The states that a player runs through when it is ticked once for each
/// of the recorded inputs: before each tick the input device and the
/// collision results of that tick are put in place.
pub open spec fn replay(w: PlayerWorld, inputs: Seq<crate::player::tick::TickInput>) -> PlayerWorld
    decreases inputs.len(),
{
    if inputs.len() == 0 {
        w
    } else {
        crate::player::tick::fed_step(replay(w, inputs.drop_last()), inputs.last())
    }
}

/// Replaying the same inputs from the same state gives the same trajectory:
/// every state along the way agrees.
pub proof fn lemma_replay_deterministic(
    a: PlayerWorld,
    b: PlayerWorld,
    inputs: Seq<crate::player::tick::TickInput>,
    upto: int,
)
    requires
        a == b,
        0 <= upto <= inputs.len(),
    ensures
        replay(a, inputs.subrange(0, upto)) == replay(b, inputs.subrange(0, upto)),
{
}

} // verus!
