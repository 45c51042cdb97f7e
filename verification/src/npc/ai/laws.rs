//! The enter/run idiom. A state that needs setting up has two codes: the
//! enter code, which a script or another state puts the entity in, and the
//! run code. Entering is nothing but setting up and then running: the tick
//! from the enter code gives what the tick from the run code gives once the
//! setup was made, and it leaves the enter code, so the setup is made once
//! per visit and never while the entity stays at the run code.

use vstd::prelude::*;
use crate::common::{Direction, NPCFlag};
use crate::npc::ai::characters::{curly_act, jack_act, kazuma_step, king_act};
use crate::npc::ai::facing_toward;

use crate::npc::ai::misc::{fireplace_step, little_family_act};
use crate::npc::ai::sand_zone::{colon_enraged_act, curly_boss_act, sunstone_step};
use crate::npc::NPC;
use crate::player::Player;
use crate::rng::{sample_in, RNG};
use crate::shared_game_state::SharedGameStateView;

verus! {

/// The king: jumping (6, 7), walking (8, 9) and running (10, 11).
pub proof fn lemma_king_enter_run(n: NPC)
    ensures
        n.action_num == 6 ==> king_act(n) == king_act(
            NPC { action_num: 7, action_counter: 0, anim_counter: 0, vel_y: (-0x400) as i32, ..n },
        ) && king_act(n).action_num == 7,
        n.action_num == 8 ==> king_act(n) == king_act(
            NPC { action_num: 9, anim_num: 4, anim_counter: 0, ..n },
        ) && king_act(n).action_num == 9,
        n.action_num == 10 ==> king_act(n) == king_act(
            NPC { action_num: 11, anim_num: 4, anim_counter: 0, ..n },
        ) && king_act(n).action_num == 11,
        n.action_num == 9 ==> king_act(n).action_num == 9,
        n.action_num == 11 ==> king_act(n).action_num == 11,
        n.action_num == 7 ==> king_act(n).action_num != 6,
{
}

/// The companion: walking (3, 4), running up (10, 11), jumping (30, 31)
/// and walking backwards (70, 71).
pub proof fn lemma_curly_enter_run(n: NPC, target_x: i32)
    ensures
        n.action_num == 3 ==> curly_act(n, target_x) == curly_act(
            NPC { action_num: 4, anim_num: 1, anim_counter: 0, ..n },
            target_x,
        ) && curly_act(n, target_x).action_num == 4,
        n.action_num == 10 ==> curly_act(n, target_x) == curly_act(
            NPC {
                action_num: 11,
                anim_num: 1,
                anim_counter: 0,
                direction: if n.direction == Direction::FacingPlayer {
                    facing_toward(n.x, target_x)
                } else {
                    n.direction
                },
                ..n
            },
            target_x,
        ) && curly_act(n, target_x).action_num != 10,
        n.action_num == 30 ==> curly_act(n, target_x) == curly_act(
            NPC { action_num: 31, action_counter: 0, vel_y: (-0x400) as i32, ..n },
            target_x,
        ) && curly_act(n, target_x).action_num == 31,
        n.action_num == 70 ==> curly_act(n, target_x) == curly_act(
            NPC { action_num: 71, action_counter: 0, anim_num: 1, anim_counter: 0, ..n },
            target_x,
        ) && curly_act(n, target_x).action_num == 71,
        n.action_num == 4 ==> curly_act(n, target_x).action_num == 4,
        n.action_num == 11 ==> curly_act(n, target_x).action_num != 10,
        n.action_num == 31 ==> curly_act(n, target_x).action_num != 30,
        n.action_num == 71 ==> curly_act(n, target_x).action_num == 71,
{
}

/// The boss: waiting (10, 11) and charging (13, 14), whose setups draw the
/// length of the state from the entity's stream.
pub proof fn lemma_curly_boss_enter_run(n: NPC, target_x: i32)
    ensures
        n.action_num == 10 ==> curly_boss_act(n, target_x) == curly_boss_act(
            NPC {
                action_num: 11,
                action_counter: sample_in(50, 100, n.rng.draw()) as u16,
                anim_num: 0,
                direction: facing_toward(n.x, target_x),
                npc_flags: NPCFlag { shootable: true, invulnerable: false, ..n.npc_flags },
                rng: n.rng.after(),
                ..n
            },
            target_x,
        ) && curly_boss_act(n, target_x).action_num != 10,
        n.action_num == 13 ==> curly_boss_act(n, target_x) == curly_boss_act(
            NPC {
                action_num: 14,
                action_counter: sample_in(50, 100, n.rng.draw()) as u16,
                anim_num: 3,
                direction: facing_toward(n.x, target_x),
                rng: n.rng.after(),
                ..n
            },
            target_x,
        ) && curly_boss_act(n, target_x).action_num != 13,
        n.action_num == 11 ==> curly_boss_act(n, target_x).action_num != 10,
        n.action_num == 14 ==> curly_boss_act(n, target_x).action_num != 13,
{
}

/// The enraged guard: waiting (10, 11) and running (13, 14).
pub proof fn lemma_colon_enraged_enter_run(n: NPC, player: Player)
    ensures
        n.action_num == 10 ==> colon_enraged_act(n, player) == colon_enraged_act(
            NPC {
                life: 1000,
                action_num: 11,
                action_counter: sample_in(0, 50, n.rng.draw()) as u16,
                anim_num: 0,
                damage: 0,
                rng: n.rng.after(),
                ..n
            },
            player,
        ) && colon_enraged_act(n, player).action_num != 10,
        n.action_num == 13 ==> colon_enraged_act(n, player) == colon_enraged_act(
            NPC {
                action_num: 14,
                action_counter: sample_in(0, 50, n.rng.draw()) as u16,
                direction: facing_toward(n.x, player.x),
                rng: n.rng.after(),
                ..n
            },
            player,
        ) && colon_enraged_act(n, player).action_num != 13,
        n.action_num == 11 ==> colon_enraged_act(n, player).action_num != 10,
        n.action_num == 14 ==> colon_enraged_act(n, player).action_num != 13,
{
}

/// The engineer walking (3, 4), the villager standing (0, 1) and walking
/// (8, 9), the stone block sliding (10, 11), the fireplace put out (10, 11)
/// and the little family walking (10, 11).
pub proof fn lemma_small_enter_run(n: NPC, s: SharedGameStateView)
    ensures
        n.action_num == 3 ==> kazuma_step(n, s) == kazuma_step(
            NPC { action_num: 4, anim_num: 1, anim_counter: 0, ..n },
            s,
        ) && kazuma_step(n, s).action_num == 4,
        n.action_num == 4 ==> kazuma_step(n, s).action_num == 4,
        n.action_num == 0 ==> jack_act(n) == jack_act(
            NPC { action_num: 1, anim_num: 0, anim_counter: 0, vel_x: 0, ..n },
        ) && jack_act(n).action_num != 0,
        n.action_num == 1 ==> jack_act(n).action_num != 0,
        n.action_num == 8 ==> jack_act(n) == jack_act(
            NPC { action_num: 9, anim_num: 2, anim_counter: 0, ..n },
        ) && jack_act(n).action_num == 9 && jack_act(n).anim_num == 2 && jack_act(n).anim_counter
            == 1,
        n.action_num == 9 ==> jack_act(n).action_num == 9,
        n.action_num == 10 ==> sunstone_step(n, s) == sunstone_step(
            NPC {
                action_num: 11,
                action_counter: 0,
                anim_num: 1,
                npc_flags: NPCFlag { ignore_solidity: true, ..n.npc_flags },
                ..n
            },
            s,
        ) && sunstone_step(n, s).action_num == 11,
        n.action_num == 11 ==> sunstone_step(n, s).action_num == 11,
        n.action_num == 10 ==> fireplace_step(n, s) == fireplace_step(NPC { action_num: 11, ..n }, s)
            && fireplace_step(n, s).action_num == 11,
        n.action_num == 11 ==> fireplace_step(n, s).action_num == 11,
        n.action_num == 11 ==> little_family_act(n).action_num != 10,
        n.action_num == 10 ==> little_family_act(n).action_num != 10,
{
}

} // verus!
