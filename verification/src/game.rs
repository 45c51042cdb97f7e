//! One logical tick of the whole simulation: the two players first, then
//! the arena. Entities that a tick spawns, a player's or an entity's, begin
//! to tick with the next one.

use vstd::array::spec_array_update;
use vstd::prelude::*;
use crate::bullet::{Bullet, BulletManager};
use crate::npc::list::{NPCList, NPC_LEN};
use crate::npc::world::{living_slots, throws, turns, Arena, SmokeThrow};
use crate::player::normal::PlayerWorld;
use crate::player::tick::{player_step, TickInput};
use crate::player::Player;
use crate::shared_game_state::SharedGameState;
use crate::stage::Stage;

verus! {

/// The simulation after the tick of the player in slot `i`.
pub open spec fn after_player(a: Arena, i: int) -> Arena {
    let stepped = player_step(PlayerWorld { player: a.players[i], state: a.state, npcs: a.npcs });
    Arena {
        state: stepped.state,
        npcs: stepped.npcs,
        players: spec_array_update(a.players, i, stepped.player),
    }
}

/// The simulation after one logical tick.
#[verifier::opaque]
pub open spec fn world_step(a: Arena, stage: Stage, bullets: Seq<Bullet>) -> Arena {
    turns(
        after_player(after_player(a, 0), 1),
        living_slots(a.npcs),
        NPC_LEN as nat,
        stage,
        bullets,
    )
}

/// The throws of smoke that one logical tick asks for.
#[verifier::opaque]
pub open spec fn world_throws(a: Arena, stage: Stage, bullets: Seq<Bullet>) -> Seq<SmokeThrow> {
    throws(
        after_player(after_player(a, 0), 1),
        living_slots(a.npcs),
        NPC_LEN as nat,
        stage,
        bullets,
    )
}

/// The simulation after the first `upto` ticks of a recording: before each
/// tick the recorded answers of the players' input devices and the recorded
/// results of the collision resolver replace what the players hold.
pub open spec fn world_replay(
    a: Arena,
    record: Seq<[TickInput; 2]>,
    upto: nat,
    stage: Stage,
    bullets: Seq<Bullet>,
) -> Arena
    decreases upto,
{
    if upto == 0 {
        a
    } else {
        let before = world_replay(a, record, (upto - 1) as nat, stage, bullets);
        world_step(
            Arena { players: fed_players(before.players, record[upto - 1]), ..before },
            stage,
            bullets,
        )
    }
}

/// A player with the input and the collision results of `from`.
pub open spec fn fed_player(p: Player, from: TickInput) -> Player {
    Player { controller: from.controller, flags: from.flags, ..p }
}

/// Both players with the inputs and the collision results of `from`.
pub open spec fn fed_players(players: [Player; 2], from: [TickInput; 2]) -> [Player; 2] {
    spec_array_update(
        spec_array_update(players, 0, fed_player(players[0], from[0])),
        1,
        fed_player(players[1], from[1]),
    )
}

fn tick_player(
    i: usize,
    state: &mut SharedGameState,
    players: &mut [Player; 2],
    npc_list: &mut NPCList,
)
    requires
        i < 2,
        old(npc_list).wf(),
        0 <= old(state).constants.my_char.air_physics.max_move,
        0 <= old(state).constants.my_char.water_physics.max_move,
    ensures
        final(npc_list).wf(),
        final(state)@.constants == old(state)@.constants,
        (Arena { state: final(state)@, npcs: final(npc_list)@, players: *final(players) })
            == after_player(
            Arena { state: old(state)@, npcs: old(npc_list)@, players: *old(players) },
            i as int,
        ),
{
    let mut player = players[i];
    player.tick(state, npc_list);
    players[i] = player;
    proof {
        assert(*players =~= spec_array_update(*old(players), i as int, player));
    }
}

/// One logical tick of the whole simulation. Hands back the throws of smoke
/// that it asks for.
pub fn tick_world(
    state: &mut SharedGameState,
    players: &mut [Player; 2],
    npc_list: &mut NPCList,
    stage: &Stage,
    bullet_manager: &BulletManager,
) -> (thrown: Vec<SmokeThrow>)
    requires
        old(npc_list).wf(),
        0 <= old(state).constants.my_char.air_physics.max_move,
        0 <= old(state).constants.my_char.water_physics.max_move,
    ensures
        final(npc_list).wf(),
        final(state)@.constants == old(state)@.constants,
        (Arena { state: final(state)@, npcs: final(npc_list)@, players: *final(players) })
            == world_step(
            Arena { state: old(state)@, npcs: old(npc_list)@, players: *old(players) },
            *stage,
            bullet_manager@,
        ),
        thrown@ == world_throws(
            Arena { state: old(state)@, npcs: old(npc_list)@, players: *old(players) },
            *stage,
            bullet_manager@,
        ),
{
    proof {
        reveal(world_step);
        reveal(world_throws);
    }
    let living = npc_list.living();
    tick_player(0, state, players, npc_list);
    tick_player(1, state, players, npc_list);
    npc_list.tick_living(&living, state, players, stage, bullet_manager)
}

fn feed(players: &mut [Player; 2], from: &[TickInput; 2])
    ensures
        *final(players) == fed_players(*old(players), *from),
{
    let first = Player { controller: from[0].controller, flags: from[0].flags, ..players[0] };
    let second = Player { controller: from[1].controller, flags: from[1].flags, ..players[1] };
    players[0] = first;
    players[1] = second;
    proof {
        assert(*players =~= fed_players(*old(players), *from));
    }
}

/// Replays a recording: one logical tick for each entry, each on the
/// recorded inputs and collision results of the two players.
pub fn replay_world(
    state: &mut SharedGameState,
    players: &mut [Player; 2],
    npc_list: &mut NPCList,
    stage: &Stage,
    bullet_manager: &BulletManager,
    record: &Vec<[TickInput; 2]>,
)
    requires
        old(npc_list).wf(),
        0 <= old(state).constants.my_char.air_physics.max_move,
        0 <= old(state).constants.my_char.water_physics.max_move,
    ensures
        final(npc_list).wf(),
        (Arena { state: final(state)@, npcs: final(npc_list)@, players: *final(players) })
            == world_replay(
            Arena { state: old(state)@, npcs: old(npc_list)@, players: *old(players) },
            record@,
            record@.len(),
            *stage,
            bullet_manager@,
        ),
{
    let ghost start = Arena { state: state@, npcs: npc_list@, players: *players };
    let mut i: usize = 0;
    while i < record.len()
        invariant
            i <= record.len(),
            npc_list.wf(),
            state@.constants == start.state.constants,
            0 <= start.state.constants.my_char.air_physics.max_move,
            0 <= start.state.constants.my_char.water_physics.max_move,
            (Arena { state: state@, npcs: npc_list@, players: *players }) == world_replay(
                start,
                record@,
                i as nat,
                *stage,
                bullet_manager@,
            ),
        decreases record.len() - i,
    {
        feed(players, &record[i]);
        let _ = tick_world(state, players, npc_list, stage, bullet_manager);
        i += 1;
    }
}

/// Replaying one recording from one state gives one trajectory: the states
/// after every number of ticks agree between two replays.
pub proof fn lemma_world_replay_deterministic(
    a: Arena,
    b: Arena,
    record: Seq<[TickInput; 2]>,
    upto: nat,
    stage: Stage,
    bullets: Seq<Bullet>,
)
    requires
        a == b,
        upto <= record.len(),
    ensures
        world_replay(a, record, upto, stage, bullets) == world_replay(
            b,
            record,
            upto,
            stage,
            bullets,
        ),
{
}

} // verus!
