//! One logical tick of the arena: every entity that lives when the tick
//! begins is ticked exactly once, in slot order.

use vstd::array::spec_array_update;
use vstd::prelude::*;
use crate::bullet::{Bullet, BulletManager};
use crate::npc::ai::misc::SmokeBurst;
use crate::npc::ai::NpcWorld;
use crate::npc::list::{NPCList, NPC_LEN};
use crate::npc::tick::{entity_blown, entity_burst, entity_step, ready};
use crate::npc::NPC;
use crate::player::Player;
use crate::shared_game_state::{SharedGameState, SharedGameStateView};
use crate::stage::Stage;

verus! {

/// A puff of smoke that is to be thrown: the slot it sits in and the draws
/// of its throw.
#[derive(Clone, Copy, Debug, PartialEq, Eq, Structural)]
pub struct SmokeThrow {
    pub slot: usize,
    pub burst: SmokeBurst,
}

/// The arena and what its entities may change.
pub struct Arena {
    pub state: SharedGameStateView,
    pub npcs: Seq<NPC>,
    pub players: [Player; 2],
}

/// Whether the entity in slot `i` has its turn: it lived when the tick
/// began, and it can be ticked. An entity that cannot is passed over.
pub open spec fn has_turn(a: Arena, living: Seq<bool>, i: int, bullets: Seq<Bullet>) -> bool {
    living[i] && ready(
        NpcWorld { npc: a.npcs[i], state: a.state, npcs: a.npcs },
        a.players,
        bullets,
    )
}

/// The two players after an entity had its tick.
pub open spec fn blown_pair(n: NPC, players: [Player; 2]) -> [Player; 2] {
    spec_array_update(
        spec_array_update(players, 0, entity_blown(n, players[0])),
        1,
        entity_blown(n, players[1]),
    )
}

/// The arena after the turn of slot `i`: the entity there is ticked, and
/// what it became is put back in its slot.
pub open spec fn after_turn(a: Arena, living: Seq<bool>, i: int, stage: Stage, bullets: Seq<Bullet>)
    -> Arena {
    if has_turn(a, living, i, bullets) {
        let n = a.npcs[i];
        let stepped = entity_step(
            NpcWorld { npc: n, state: a.state, npcs: a.npcs },
            a.players,
            stage,
            bullets,
        );
        Arena {
            state: stepped.state,
            npcs: stepped.npcs.update(i, stepped.npc),
            players: blown_pair(n, a.players),
        }
    } else {
        a
    }
}

/// The throw of smoke that the turn of slot `i` asks for.
pub open spec fn turn_burst(a: Arena, living: Seq<bool>, i: int, bullets: Seq<Bullet>) -> Option<
    SmokeBurst,
> {
    if has_turn(a, living, i, bullets) {
        entity_burst(a.npcs[i])
    } else {
        None
    }
}

/// The arena after the turns of the slots below `k`, in slot order.
pub open spec fn turns(a: Arena, living: Seq<bool>, k: nat, stage: Stage, bullets: Seq<Bullet>)
    -> Arena
    decreases k,
{
    if k == 0 {
        a
    } else {
        after_turn(turns(a, living, (k - 1) as nat, stage, bullets), living, k - 1, stage, bullets)
    }
}

/// The throws of smoke that the turns of the slots below `k` ask for, in
/// slot order.
pub open spec fn throws(a: Arena, living: Seq<bool>, k: nat, stage: Stage, bullets: Seq<Bullet>)
    -> Seq<SmokeThrow>
    decreases k,
{
    if k == 0 {
        Seq::empty()
    } else {
        let before = throws(a, living, (k - 1) as nat, stage, bullets);
        match turn_burst(
            turns(a, living, (k - 1) as nat, stage, bullets),
            living,
            k - 1,
            bullets,
        ) {
            Some(burst) => before.push(SmokeThrow { slot: (k - 1) as usize, burst }),
            None => before,
        }
    }
}

/// Which slots hold a living entity.
pub open spec fn living_slots(npcs: Seq<NPC>) -> Seq<bool> {
    Seq::new(npcs.len(), |i: int| npcs[i].cond.alive)
}

/// One tick of the arena: every entity that lives when the tick begins has
/// its turn, in slot order. Entities that are spawned during the tick wait
/// for the next one.
pub open spec fn arena_step(a: Arena, stage: Stage, bullets: Seq<Bullet>) -> Arena {
    turns(a, living_slots(a.npcs), NPC_LEN as nat, stage, bullets)
}

/// The throws of smoke that one tick of the arena asks for.
pub open spec fn arena_throws(a: Arena, stage: Stage, bullets: Seq<Bullet>) -> Seq<SmokeThrow> {
    throws(a, living_slots(a.npcs), NPC_LEN as nat, stage, bullets)
}

impl NPCList {
    /// Which slots hold a living entity.
    pub fn living(&self) -> (r: Vec<bool>)
        ensures
            r@ == living_slots(self@),
    {
        let mut r: Vec<bool> = Vec::new();
        let mut i: usize = 0;
        while i < self.npcs.len()
            invariant
                i <= self.npcs.len(),
                r@.len() == i,
                forall|j: int| 0 <= j < i ==> r@[j] == self@[j].cond.alive,
            decreases self.npcs.len() - i,
        {
            r.push(self.npcs[i].cond.alive);
            i += 1;
        }
        assert(r@ =~= living_slots(self@));
        r
    }

    /// The turn of slot `i`: the entity there is ticked if it lived when
    /// the tick began and can be ticked. What it spawns takes free slots and
    /// never its own. Tells the throw of smoke that the tick asks for.
    pub fn take_turn(
        &mut self,
        i: usize,
        living: &Vec<bool>,
        state: &mut SharedGameState,
        players: &mut [Player; 2],
        stage: &Stage,
        bullet_manager: &BulletManager,
    ) -> (burst: Option<SmokeBurst>)
        requires
            old(self).wf(),
            i < NPC_LEN,
            living@.len() == NPC_LEN,
        ensures
            final(self).wf(),
            final(state)@.constants == old(state)@.constants,
            (Arena { state: final(state)@, npcs: final(self)@, players: *final(players) })
                == after_turn(
                Arena { state: old(state)@, npcs: old(self)@, players: *old(players) },
                living@,
                i as int,
                *stage,
                bullet_manager@,
            ),
            burst == turn_burst(
                Arena { state: old(state)@, npcs: old(self)@, players: *old(players) },
                living@,
                i as int,
                bullet_manager@,
            ),
    {
        if !living[i] {
            return None;
        }
        let mut npc = self.npcs[i];
        if !npc.is_ready(state, players, self, bullet_manager) {
            return None;
        }
        let burst = npc.tick(state, players, self, stage, bullet_manager);
        self.npcs[i] = npc;
        proof {
            assert(*players =~= blown_pair(old(self)@[i as int], *old(players)));
        }
        burst
    }

    /// The turns of all slots, in slot order, for the entities that `living`
    /// marks. Hands back the throws of smoke that they ask for.
    pub fn tick_living(
        &mut self,
        living: &Vec<bool>,
        state: &mut SharedGameState,
        players: &mut [Player; 2],
        stage: &Stage,
        bullet_manager: &BulletManager,
    ) -> (thrown: Vec<SmokeThrow>)
        requires
            old(self).wf(),
            living@.len() == NPC_LEN,
        ensures
            final(self).wf(),
            final(state)@.constants == old(state)@.constants,
            (Arena { state: final(state)@, npcs: final(self)@, players: *final(players) })
                == turns(
                Arena { state: old(state)@, npcs: old(self)@, players: *old(players) },
                living@,
                NPC_LEN as nat,
                *stage,
                bullet_manager@,
            ),
            thrown@ == throws(
                Arena { state: old(state)@, npcs: old(self)@, players: *old(players) },
                living@,
                NPC_LEN as nat,
                *stage,
                bullet_manager@,
            ),
    {
        let ghost start = Arena { state: state@, npcs: self@, players: *players };
        let mut thrown: Vec<SmokeThrow> = Vec::new();
        let mut i: usize = 0;
        while i < NPC_LEN
            invariant
                i <= NPC_LEN,
                self.wf(),
                living@.len() == NPC_LEN,
                state@.constants == start.state.constants,
                (Arena { state: state@, npcs: self@, players: *players }) == turns(
                    start,
                    living@,
                    i as nat,
                    *stage,
                    bullet_manager@,
                ),
                thrown@ == throws(start, living@, i as nat, *stage, bullet_manager@),
            decreases NPC_LEN - i,
        {
            let burst = self.take_turn(i, living, state, players, stage, bullet_manager);
            match burst {
                Some(b) => {
                    thrown.push(SmokeThrow { slot: i, burst: b });
                },
                None => {},
            }
            i += 1;
        }
        thrown
    }

    /// One tick of the arena. Hands back the throws of smoke that it asks
    /// for.
    pub fn tick_all(
        &mut self,
        state: &mut SharedGameState,
        players: &mut [Player; 2],
        stage: &Stage,
        bullet_manager: &BulletManager,
    ) -> (thrown: Vec<SmokeThrow>)
        requires
            old(self).wf(),
        ensures
            final(self).wf(),
            final(state)@.constants == old(state)@.constants,
            (Arena { state: final(state)@, npcs: final(self)@, players: *final(players) })
                == arena_step(
                Arena { state: old(state)@, npcs: old(self)@, players: *old(players) },
                *stage,
                bullet_manager@,
            ),
            thrown@ == arena_throws(
                Arena { state: old(state)@, npcs: old(self)@, players: *old(players) },
                *stage,
                bullet_manager@,
            ),
    {
        let living = self.living();
        self.tick_living(&living, state, players, stage, bullet_manager)
    }
}

/// Ticking the same arena twice from the same state, with the same players,
/// stage and projectiles, gives the same arena and the same throws: every
/// draw comes from a stream that is part of the state.
pub proof fn lemma_arena_deterministic(a: Arena, b: Arena, stage: Stage, bullets: Seq<Bullet>)
    requires
        a == b,
    ensures
        arena_step(a, stage, bullets) == arena_step(b, stage, bullets),
        arena_throws(a, stage, bullets) == arena_throws(b, stage, bullets),
{
}

/// An entity that does not live when the tick begins is not ticked, even if
/// its slot is filled during the tick; and the turn of a slot leaves the
/// arena as it is unless the entity there has its turn.
pub proof fn lemma_no_turn_without_life(
    a: Arena,
    living: Seq<bool>,
    i: int,
    stage: Stage,
    bullets: Seq<Bullet>,
)
    requires
        !living[i],
    ensures
        after_turn(a, living, i, stage, bullets) == a,
        turn_burst(a, living, i, bullets).is_none(),
{
}

} // verus!
