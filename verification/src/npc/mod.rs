//! The entity record shared by every non-player actor, the table that blank
//! records are made from, and the rule by which an actor picks its player.

use vstd::prelude::*;
use crate::common::{Condition, Direction, Flag, NPCFlag, Rect};
use crate::player::Player;
use crate::rng::Xoroshiro32PlusPlus;

pub mod ai;
pub mod list;
pub mod ready;
pub mod tick;
pub mod world;

verus! {

/// What the per-type table says of one entity type. Bounds are in pixels.
#[derive(Clone, Copy, Debug)]
pub struct NPCTableEntry {
    pub npc_flags: NPCFlag,
    pub life: u16,
    pub size: u8,
    pub experience: u32,
    pub damage: u32,
    pub display_bounds: Rect<u8>,
    pub hit_bounds: Rect<u8>,
}

/// The per-type table, indexed by type id.
pub struct NPCTable {
    pub entries: Vec<NPCTableEntry>,
}

/// A pixel rectangle in fixed-point units.
pub open spec fn bounds_to_fix9(r: Rect<u8>) -> Rect<usize> {
    Rect {
        left: (r.left as int * 0x200) as usize,
        top: (r.top as int * 0x200) as usize,
        right: (r.right as int * 0x200) as usize,
        bottom: (r.bottom as int * 0x200) as usize,
    }
}

fn to_fix9(r: Rect<u8>) -> (out: Rect<usize>)
    ensures
        out == bounds_to_fix9(r),
{
    Rect {
        left: r.left as usize * 0x200,
        top: r.top as usize * 0x200,
        right: r.right as usize * 0x200,
        bottom: r.bottom as usize * 0x200,
    }
}

impl View for NPCTable {
    type V = Seq<NPCTableEntry>;

    open spec fn view(&self) -> Seq<NPCTableEntry> {
        self.entries@
    }
}

impl NPCTable {
    /// A table without entries: every type is blank.
    pub fn new() -> (r: NPCTable)
        ensures
            r@.len() == 0,
    {
        NPCTable { entries: Vec::new() }
    }

    /// The entry of `npc_type`, where the table has one.
    pub fn get_entry(&self, npc_type: u16) -> (r: Option<NPCTableEntry>)
        ensures
            r == (if (npc_type as int) < self@.len() {
                Some(self@[npc_type as int])
            } else {
                None
            }),
    {
        if (npc_type as usize) < self.entries.len() {
            Some(self.entries[npc_type as usize])
        } else {
            None
        }
    }
}

/// One non-player entity.
#[derive(Clone, Copy, Debug)]
pub struct NPC {
    pub id: u16,
    pub npc_type: u16,
    pub x: i32,
    pub y: i32,
    pub vel_x: i32,
    pub vel_y: i32,
    pub vel_x2: i32,
    pub vel_y2: i32,
    pub target_x: i32,
    pub target_y: i32,
    pub exp: u16,
    pub size: u8,
    pub shock: u16,
    pub life: u16,
    pub damage: u16,
    pub cond: Condition,
    pub flags: Flag,
    pub npc_flags: NPCFlag,
    pub direction: Direction,
    pub display_bounds: Rect<usize>,
    pub hit_bounds: Rect<usize>,
    pub parent_id: u16,
    pub action_num: u16,
    pub anim_num: u16,
    pub flag_num: u16,
    pub event_num: u16,
    pub action_counter: u16,
    pub action_counter2: u16,
    pub anim_counter: u16,
    pub anim_rect: Rect<u16>,
    pub rng: Xoroshiro32PlusPlus,
}

/// The blank record of a type: every counter zero, not alive, facing left,
/// with the size, life, damage, experience, capabilities and bounds that the
/// table gives the type, or none where the table does not know it.
pub open spec fn blank_npc(npc_type: u16, table: Seq<NPCTableEntry>) -> NPC {
    let known = (npc_type as int) < table.len();
    let entry = table[npc_type as int];
    let no_bounds = Rect { left: 0usize, top: 0usize, right: 0usize, bottom: 0usize };
    NPC {
        id: 0,
        npc_type,
        x: 0,
        y: 0,
        vel_x: 0,
        vel_y: 0,
        vel_x2: 0,
        vel_y2: 0,
        target_x: 0,
        target_y: 0,
        exp: if known { entry.experience as u16 } else { 0 },
        size: if known { entry.size } else { 2 },
        shock: 0,
        life: if known { entry.life } else { 0 },
        damage: if known { entry.damage as u16 } else { 0 },
        cond: Condition::empty(),
        flags: Flag::empty(),
        npc_flags: if known { entry.npc_flags } else { NPCFlag::empty() },
        direction: Direction::Left,
        display_bounds: if known { bounds_to_fix9(entry.display_bounds) } else { no_bounds },
        hit_bounds: if known { bounds_to_fix9(entry.hit_bounds) } else { no_bounds },
        parent_id: 0,
        action_num: 0,
        anim_num: 0,
        flag_num: 0,
        event_num: 0,
        action_counter: 0,
        action_counter2: 0,
        anim_counter: 0,
        anim_rect: Rect { left: 0, top: 0, right: 0, bottom: 0 },
        rng: Xoroshiro32PlusPlus((0, 0)),
    }
}

/// Whether an actor may pick this player: alive and not hidden.
pub open spec fn targetable(player: Player) -> bool {
    player.cond.alive && !player.cond.hidden
}

/// Square of the Euclidean distance between a point and a player.
pub open spec fn distance_squared(x: i32, y: i32, player: Player) -> int {
    (player.x - x) * (player.x - x) + (player.y - y) * (player.y - y)
}

/// The player slot nearest to a point: the second slot when its player may
/// be picked and the first may not or is strictly farther, else the first.
pub open spec fn closest_player(x: i32, y: i32, players: [Player; 2]) -> usize {
    if targetable(players[1]) && (!targetable(players[0]) || distance_squared(x, y, players[1])
        < distance_squared(x, y, players[0])) {
        1
    } else {
        0
    }
}

fn square_distance(x: i32, y: i32, player: &Player) -> (r: i128)
    ensures
        r == distance_squared(x, y, *player),
{
    let dx: i128 = player.x as i128 - x as i128;
    let dy: i128 = player.y as i128 - y as i128;
    assert(-0x1_0000_0000 < dx < 0x1_0000_0000 && -0x1_0000_0000 < dy < 0x1_0000_0000);
    assert(0 <= dx * dx <= 0x1_0000_0000 * 0x1_0000_0000) by (nonlinear_arith)
        requires
            -0x1_0000_0000 < dx < 0x1_0000_0000,
    ;
    assert(0 <= dy * dy <= 0x1_0000_0000 * 0x1_0000_0000) by (nonlinear_arith)
        requires
            -0x1_0000_0000 < dy < 0x1_0000_0000,
    ;
    dx * dx + dy * dy
}

impl NPC {
    /// A blank record of type `npc_type`.
    pub fn create(npc_type: u16, table: &NPCTable) -> (r: NPC)
        ensures
            r == blank_npc(npc_type, table@),
    {
        let no_bounds: Rect<usize> = Rect { left: 0, top: 0, right: 0, bottom: 0 };
        let mut npc = NPC {
            id: 0,
            npc_type,
            x: 0,
            y: 0,
            vel_x: 0,
            vel_y: 0,
            vel_x2: 0,
            vel_y2: 0,
            target_x: 0,
            target_y: 0,
            exp: 0,
            size: 2,
            shock: 0,
            life: 0,
            damage: 0,
            cond: Condition::empty(),
            flags: Flag::empty(),
            npc_flags: NPCFlag::empty(),
            direction: Direction::Left,
            display_bounds: no_bounds,
            hit_bounds: no_bounds,
            parent_id: 0,
            action_num: 0,
            anim_num: 0,
            flag_num: 0,
            event_num: 0,
            action_counter: 0,
            action_counter2: 0,
            anim_counter: 0,
            anim_rect: Rect { left: 0, top: 0, right: 0, bottom: 0 },
            rng: Xoroshiro32PlusPlus((0, 0)),
        };
        match table.get_entry(npc_type) {
            Some(entry) => {
                npc.exp = #[verifier::truncate]
                (entry.experience as u16);
                npc.size = entry.size;
                npc.life = entry.life;
                npc.damage = #[verifier::truncate]
                (entry.damage as u16);
                npc.npc_flags = entry.npc_flags;
                npc.display_bounds = to_fix9(entry.display_bounds);
                npc.hit_bounds = to_fix9(entry.hit_bounds);
            },
            None => {},
        }
        npc
    }

    /// Slot of the player nearest to this entity.
    pub fn get_closest_player_idx(&self, players: &[Player; 2]) -> (r: usize)
        ensures
            r == closest_player(self.x, self.y, *players),
            r < 2,
    {
        let first = players[0].cond.alive && !players[0].cond.hidden;
        let second = players[1].cond.alive && !players[1].cond.hidden;
        if second && (!first || square_distance(self.x, self.y, &players[1]) < square_distance(
            self.x,
            self.y,
            &players[0],
        )) {
            1
        } else {
            0
        }
    }
}

/// The slot that an actor picks holds a player that may be picked whenever
/// either player may, and no player that may be picked is strictly nearer.
pub proof fn lemma_closest_player_is_nearest(x: i32, y: i32, players: [Player; 2])
    ensures
        closest_player(x, y, players) < 2,
        (targetable(players[0]) || targetable(players[1])) ==> targetable(
            players[closest_player(x, y, players) as int],
        ),
        forall|j: int|
            0 <= j < 2 && targetable(#[trigger] players[j]) ==> distance_squared(
                x,
                y,
                players[closest_player(x, y, players) as int],
            ) <= distance_squared(x, y, players[j]),
        !targetable(players[0]) && !targetable(players[1]) ==> closest_player(x, y, players) == 0,
{
}

} // verus!
