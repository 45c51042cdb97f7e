//! The damage pipeline of the player.

use vstd::prelude::*;
use crate::caret::CaretType;
use crate::common::{Condition, ControlFlags, Direction};
use crate::npc::list::{spawned, NPCList};
use crate::npc::{blank_npc, NPC};
use crate::player::normal::PlayerWorld;
use crate::player::{ControlMode, Player};
use crate::rng::{sample_in, XorShift, RNG};

use crate::shared_game_state::{SharedGameState, SharedGameStateView};

verus! {

/// Length of the hit-stun that a hit arms, in ticks.
pub const SHOCK_TICKS: u8 = 128;

/// Number of debris entities that a death scatters.
pub const DEATH_DEBRIS: usize = 0x40;

/// Whether a hit lands: no invulnerability setting and no hit-stun running.
pub open spec fn takes_damage(p: Player, s: SharedGameStateView) -> bool {
    !s.settings.god_mode && p.shock_counter == 0
}

/// The points that a hit of `hp` takes: the amount itself, as far as a
/// 16-bit life can hold it. A negative amount takes nothing.
pub open spec fn hit_points(hp: i32) -> u16 {
    if hp < 0 {
        0
    } else if hp > u16::MAX {
        u16::MAX
    } else {
        hp as u16
    }
}

/// Life left of `life` after `amount` was taken, never below zero.
pub open spec fn life_after(life: u16, amount: u16) -> u16 {
    if life >= amount {
        (life - amount) as u16
    } else {
        0
    }
}

/// The damage counter after `amount` was added, never above its greatest
/// value.
pub open spec fn damage_shown(shown: u16, amount: u16) -> u16 {
    if shown + amount > u16::MAX {
        u16::MAX
    } else {
        (shown + amount) as u16
    }
}

/// The player after a hit of `hp` landed. The hit arms the hit-stun, throws
/// a normally steered player upward, takes the amount from the life, which
/// stops at zero whatever the amount, uses up one shield charge where the
/// shield is equipped, and ends an interaction; a player left without life
/// loses every condition.
pub open spec fn hurt(p: Player, hp: i32) -> Player {
    let amount = hit_points(hp);
    let life = life_after(p.life, amount);
    Player {
        shock_counter: SHOCK_TICKS,
        vel_y: if p.control_mode == ControlMode::Normal {
            (-0x400) as i32
        } else {
            p.vel_y
        },
        life,
        stars: if p.equip.has_whimsical_star && p.stars > 0 {
            (p.stars - 1) as u8
        } else {
            p.stars
        },
        damage: damage_shown(p.damage, amount),
        cond: if life == 0 {
            Condition::empty()
        } else {
            Condition { interacted: false, ..p.cond }
        },
        ..p
    }
}

/// The debris that a death scatters, before its place is drawn.
pub open spec fn debris_template(s: SharedGameStateView) -> NPC {
    NPC { cond: Condition { alive: true, ..Condition::empty() }, ..blank_npc(4, s.npc_table) }
}

/// One piece of debris, its place drawn from two successive states of the
/// game stream.
pub open spec fn debris(p: Player, template: NPC, r0: XorShift) -> NPC {
    NPC {
        x: p.x.wrapping_add(sample_in(-10, 10, r0.draw()).wrapping_mul(0x200)),
        y: p.y.wrapping_add(sample_in(-10, 10, r0.after().draw()).wrapping_mul(0x200)),
        ..template
    }
}

/// The game stream and the arena after `n` pieces of debris were drawn and
/// handed to the arena, each with preferred slot 0x100.
#[verifier::opaque]
pub open spec fn debris_burst(p: Player, template: NPC, rng: XorShift, npcs: Seq<NPC>, n: nat) -> (
    XorShift,
    Seq<NPC>,
)
    decreases n,
{
    if n == 0 {
        (rng, npcs)
    } else {
        let (r, l) = debris_burst(p, template, rng, npcs, (n - 1) as nat);
        (r.after().after(), spawned(l, 0x100, debris(p, template, r)))
    }
}

/// Whether a hit of `hp` leaves the player without life.
pub open spec fn dies(p: Player, s: SharedGameStateView, hp: i32) -> bool {
    takes_damage(p, s) && life_after(p.life, hit_points(hp)) == 0
}

/// What a hit asks of the shared state: audio cue 16 when it lands, and for
/// a player left without life audio cue 17, the world ticking on with
/// interactions off, script event 40 and an explosion at `(x, y)`.
pub open spec fn hit_state(s: SharedGameStateView, lands: bool, dead: bool, x: i32, y: i32)
    -> SharedGameStateView {
    SharedGameStateView {
        control_flags: ControlFlags {
            tick_world: s.control_flags.tick_world || dead,
            interactions_disabled: s.control_flags.interactions_disabled || dead,
            ..s.control_flags
        },
        ..s.with_sfx_if(lands, 16).with_sfx_if(dead, 17)
    }.with_script_if(dead, 40).with_caret_if(dead, x, y, CaretType::Explosion, Direction::Left)
}

/// The player after a hit that may or may not land.
pub open spec fn maybe_hurt(p: Player, hp: i32, lands: bool) -> Player {
    if lands {
        hurt(p, hp)
    } else {
        p
    }
}

/// The whole pipeline for a hit that is dealt only if `wanted`.
pub open spec fn damage_if_step(w: PlayerWorld, wanted: bool, hp: i32) -> PlayerWorld {
    let lands = wanted && takes_damage(w.player, w.state);
    let p = maybe_hurt(w.player, hp, lands);
    let dead = lands && p.life == 0;
    let s = hit_state(w.state, lands, dead, p.x, p.y);
    let (rng, npcs) = debris_burst(
        p,
        debris_template(s),
        s.game_rng,
        w.npcs,
        if dead {
            DEATH_DEBRIS as nat
        } else {
            0
        },
    );
    PlayerWorld { player: p, state: SharedGameStateView { game_rng: rng, ..s }, npcs }
}

/// The whole pipeline: nothing at all while the hit does not land; else the
/// hurt player and the requests of `hit_state`, and for a player left
/// without life the burst of debris around it.
pub open spec fn damage_step(w: PlayerWorld, hp: i32) -> PlayerWorld {
    damage_if_step(w, true, hp)
}

impl Player {
    /// Scatters the debris of a death around the player.
    fn scatter_debris(&self, count: usize, state: &mut SharedGameState, npc_list: &mut NPCList)
        requires
            old(npc_list).wf(),
        ensures
            final(npc_list).wf(),
            final(state)@ == (SharedGameStateView {
                game_rng: final(state).game_rng,
                ..old(state)@
            }),
            (final(state).game_rng, final(npc_list)@) == debris_burst(
                *self,
                debris_template(old(state)@),
                old(state).game_rng,
                old(npc_list)@,
                count as nat,
            ),
    {
        let mut npc = NPC::create(4, &state.npc_table);
        npc.cond.alive = true;
        let ghost before = state@;
        let ghost npcs = npc_list@;
        let ghost template = npc;
        let mut i: usize = 0;
        proof {
            reveal(debris_burst);
        }
        while i < count
            invariant
                i <= count,
                npc_list.wf(),
                state@ == (SharedGameStateView { game_rng: state.game_rng, ..before }),
                npc == (NPC { x: npc.x, y: npc.y, ..template }),
                (state.game_rng, npc_list@) == debris_burst(
                    *self,
                    template,
                    before.game_rng,
                    npcs,
                    i as nat,
                ),
            decreases count - i,
        {
            proof {
                reveal(debris_burst);
            }
            npc.x = self.x.wrapping_add(state.game_rng.range(-10..10).wrapping_mul(0x200));
            npc.y = self.y.wrapping_add(state.game_rng.range(-10..10).wrapping_mul(0x200));
            let _ = npc_list.spawn(0x100, npc);
            i += 1;
        }
    }

    /// The player's own part of a hit; tells whether it left no life.
    fn take_hit(&mut self, hp: i32, lands: bool) -> (dead: bool)
        ensures
            *final(self) == maybe_hurt(*old(self), hp, lands),
            dead == (lands && final(self).life == 0),
    {
        let amount: u16 = if hp < 0 {
            0
        } else if hp > 0xffff {
            0xffff
        } else {
            hp as u16
        };
        let mut shock_counter = self.shock_counter;
        let mut vel_y = self.vel_y;
        let mut life = self.life;
        let mut stars = self.stars;
        let mut damage = self.damage;
        let mut cond = self.cond;
        if lands {
            shock_counter = SHOCK_TICKS;
            cond = Condition { interacted: false, ..cond };
            if self.control_mode == ControlMode::Normal {
                vel_y = -0x400;
            }
            life = life.saturating_sub(amount);
            if self.equip.has_whimsical_star && stars > 0 {
                stars -= 1;
            }
            damage = damage.saturating_add(amount);
            if life == 0 {
                cond = Condition::empty();
            }
        }
        *self = Player { shock_counter, vel_y, life, stars, damage, cond, ..*self };
        lands && life == 0
    }

    /// Hits the player for `hp` points of life.
    pub fn damage(&mut self, hp: i32, state: &mut SharedGameState, npc_list: &mut NPCList)
        requires
            old(npc_list).wf(),
        ensures
            final(state)@.constants == old(state)@.constants,
            final(npc_list).wf(),
            (PlayerWorld { player: *final(self), state: final(state)@, npcs: final(npc_list)@ })
                == damage_step(
                PlayerWorld { player: *old(self), state: old(state)@, npcs: old(npc_list)@ },
                hp,
            ),
    {
        self.damage_if(true, hp, state, npc_list);
    }

    /// Hits the player for `hp` points of life if `wanted`.
    pub(crate) fn damage_if(
        &mut self,
        wanted: bool,
        hp: i32,
        state: &mut SharedGameState,
        npc_list: &mut NPCList,
    )
        requires
            old(npc_list).wf(),
        ensures
            final(state)@.constants == old(state)@.constants,
            final(npc_list).wf(),
            (PlayerWorld { player: *final(self), state: final(state)@, npcs: final(npc_list)@ })
                == damage_if_step(
                PlayerWorld { player: *old(self), state: old(state)@, npcs: old(npc_list)@ },
                wanted,
                hp,
            ),
    {
        let lands = wanted && !state.settings.god_mode && self.shock_counter == 0;
        let dead = self.take_hit(hp, lands);
        report_hit(state, lands, dead, self.x, self.y);
        self.scatter_debris(if dead { DEATH_DEBRIS } else { 0 }, state, npc_list);
    }
}

/// Files the requests of a hit with the shared state.
fn report_hit(state: &mut SharedGameState, lands: bool, dead: bool, x: i32, y: i32)
    ensures
        final(state)@.constants == old(state)@.constants,
        final(state)@ == hit_state(old(state)@, lands, dead, x, y),
{
    let control_flags = ControlFlags {
        tick_world: state.control_flags.tick_world || dead,
        interactions_disabled: state.control_flags.interactions_disabled || dead,
        ..state.control_flags
    };
    state.play_sfx_if(lands, 16);
    state.play_sfx_if(dead, 17);
    state.control_flags = control_flags;
    state.start_script_if(dead, 40);
    state.create_caret_if(dead, x, y, CaretType::Explosion, Direction::Left);
}

/// Life never grows by a hit and never falls below zero, whatever the
/// amount.
pub proof fn lemma_damage_saturates(w: PlayerWorld, hp: i32)
    ensures
        0 <= damage_step(w, hp).player.life <= w.player.life,
        takes_damage(w.player, w.state) && hp >= w.player.life ==> damage_step(
            w,
            hp,
        ).player.life == 0 && dies(w.player, w.state, hp),
        takes_damage(w.player, w.state) && 0 <= hp < w.player.life ==> damage_step(
            w,
            hp,
        ).player.life == w.player.life - hp,
        takes_damage(w.player, w.state) ==> damage_step(w, hp).player.damage >= w.player.damage,
{
}

/// A hit that does not land changes nothing at all.
pub proof fn lemma_damage_needs_landing(w: PlayerWorld, hp: i32)
    requires
        !takes_damage(w.player, w.state),
    ensures
        damage_step(w, hp) == w,
{
    reveal(debris_burst);
    let after = damage_step(w, hp);
    assert(after.state.control_flags =~= w.state.control_flags);
    assert(after.state =~= w.state);
    assert(after =~= w);
}

/// While the hit-stun runs a hit changes nothing, so of two hits in a row
/// only the first takes life.
pub proof fn lemma_damage_once_per_shock(w: PlayerWorld, first: i32, second: i32)
    ensures
        w.player.shock_counter > 0 ==> damage_step(w, first) == w,
        damage_step(damage_step(w, first), second) == damage_step(w, first),
{
    if !takes_damage(w.player, w.state) {
        lemma_damage_needs_landing(w, first);
        lemma_damage_needs_landing(w, second);
    } else {
        lemma_damage_needs_landing(damage_step(w, first), second);
    }
}

} // verus!
