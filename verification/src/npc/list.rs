//! The arena that owns every entity record.

use vstd::prelude::*;
use crate::common::{Condition, Direction, Flag, NPCFlag, Rect};
use crate::npc::NPC;
use crate::rng::Xoroshiro32PlusPlus;

verus! {

/// Number of slots of the arena.
pub const NPC_LEN: usize = 512;

/// Why a record could not be placed.
#[derive(Clone, Copy, Debug, PartialEq, Eq, Structural)]
pub enum SpawnError {
    /// No slot at or above the preferred one is free.
    ArenaFull,
}

pub struct NPCList {
    pub npcs: Vec<NPC>,
}

impl View for NPCList {
    type V = Seq<NPC>;

    open spec fn view(&self) -> Seq<NPC> {
        self.npcs@
    }
}

/// The lowest slot at or above `from` whose record is not alive.
pub open spec fn free_slot(slots: Seq<NPC>, from: int) -> Option<int>
    decreases slots.len() - from,
{
    if from < 0 || from >= slots.len() {
        None
    } else if !slots[from].cond.alive {
        Some(from)
    } else {
        free_slot(slots, from + 1)
    }
}

/// `x` rotated right by `k` bits, for `0 < k < 32`.
pub open spec fn rotr32(x: u32, k: u32) -> u32 {
    (x >> k) | (x << ((32 - k) as u32))
}

fn rotate_right(x: u32, k: u32) -> (r: u32)
    requires
        k < 32,
    ensures
        r == (if k == 0 { x } else { rotr32(x, k) }),
{
    if k == 0 {
        x
    } else {
        (x >> k) | (x << (32 - k))
    }
}

/// Seed of the stream of the record in slot `id`: a scramble of the slot and
/// of the record's type, flag and event numbers.
pub open spec fn stream_seed(id: u16, npc_type: u16, flag_num: u16, event_num: u16) -> u32 {
    let a = rotr32((id as u32).wrapping_sub(npc_type as u32), 5).wrapping_sub(flag_num as u32);
    let k = (event_num % 13) as u32;
    let b = if k == 0 { a } else { rotr32(a, k) };
    rotr32(rotr32(b.wrapping_mul(214013), 13).wrapping_add(2531011), 5)
}

/// The record as the arena stores it in slot `id`: it learns its slot, and
/// its stream starts from the seed of that slot.
pub open spec fn placed(npc: NPC, id: int) -> NPC {
    NPC {
        id: id as u16,
        rng: Xoroshiro32PlusPlus(
            crate::rng::xoroshiro_unpack(
                stream_seed(id as u16, npc.npc_type, npc.flag_num, npc.event_num),
            ),
        ),
        ..npc
    }
}

/// The slots once `npc` was handed to the arena with preferred slot `min_id`.
pub open spec fn spawned(slots: Seq<NPC>, min_id: u16, npc: NPC) -> Seq<NPC> {
    match free_slot(slots, min_id as int) {
        Some(id) => slots.update(id, placed(npc, id)),
        None => slots,
    }
}

impl NPC {
    /// A record in no slot: dead, of type 0, every field zero.
    pub fn empty() -> (r: NPC)
        ensures
            !r.cond.alive,
            r == crate::npc::blank_npc(0, Seq::empty()),
    {
        NPC {
            id: 0,
            npc_type: 0,
            x: 0,
            y: 0,
            vel_x: 0,
            vel_y: 0,
            vel_x2: 0,
            vel_y2: 0,
            target_x: 0,
            target_y: 0,
            exp: 0,
            size: 2,
            shock: 0,
            life: 0,
            damage: 0,
            cond: Condition::empty(),
            flags: Flag::empty(),
            npc_flags: NPCFlag::empty(),
            direction: Direction::Left,
            display_bounds: Rect { left: 0, top: 0, right: 0, bottom: 0 },
            hit_bounds: Rect { left: 0, top: 0, right: 0, bottom: 0 },
            parent_id: 0,
            action_num: 0,
            anim_num: 0,
            flag_num: 0,
            event_num: 0,
            action_counter: 0,
            action_counter2: 0,
            anim_counter: 0,
            anim_rect: Rect { left: 0, top: 0, right: 0, bottom: 0 },
            rng: Xoroshiro32PlusPlus((0, 0)),
        }
    }

    /// Starts the record's stream from the seed of its slot.
    pub fn init_rng(&mut self)
        ensures
            *final(self) == placed(*old(self), old(self).id as int),
    {
        let a = rotate_right((self.id as u32).wrapping_sub(self.npc_type as u32), 5).wrapping_sub(
            self.flag_num as u32,
        );
        let b = rotate_right(a, (self.event_num % 13) as u32);
        let seed = rotate_right(rotate_right(b.wrapping_mul(214013), 13).wrapping_add(2531011), 5);
        self.rng = Xoroshiro32PlusPlus::new(seed);
    }
}

impl NPCList {
    /// Every slot holds a record.
    pub open spec fn wf(&self) -> bool {
        self@.len() == NPC_LEN
    }

    /// An arena in which no slot is taken.
    pub fn new() -> (r: NPCList)
        ensures
            r.wf(),
            forall|i: int|
                0 <= i < NPC_LEN ==> #[trigger] r@[i] == crate::npc::blank_npc(0, Seq::empty()),
            forall|i: int| 0 <= i < NPC_LEN ==> !(#[trigger] r@[i]).cond.alive,
    {
        let mut npcs: Vec<NPC> = Vec::new();
        let mut i: usize = 0;
        while i < NPC_LEN
            invariant
                i <= NPC_LEN,
                npcs@.len() == i,
                forall|j: int|
                    0 <= j < i ==> #[trigger] npcs@[j] == crate::npc::blank_npc(0, Seq::empty()),
                forall|j: int| 0 <= j < i ==> !(#[trigger] npcs@[j]).cond.alive,
            decreases NPC_LEN - i,
        {
            npcs.push(NPC::empty());
            i += 1;
        }
        NPCList { npcs }
    }

    /// Places `npc` in the lowest free slot at or above `min_id`. The record
    /// is dropped, and the arena unchanged, when there is no such slot.
    pub fn spawn(&mut self, min_id: u16, npc: NPC) -> (r: Result<(), SpawnError>)
        requires
            old(self).wf(),
        ensures
            final(self).wf(),
            final(self)@ == spawned(old(self)@, min_id, npc),
            r.is_ok() <==> free_slot(old(self)@, min_id as int).is_some(),
            r.is_err() ==> r == Err::<(), SpawnError>(SpawnError::ArenaFull),
    {
        let mut id: usize = min_id as usize;
        while id < NPC_LEN
            invariant
                self.wf(),
                self@ == old(self)@,
                min_id <= id,
                free_slot(self@, min_id as int) == free_slot(self@, id as int),
            decreases NPC_LEN - id,
        {
            if !self.npcs[id].cond.alive {
                let mut stored = npc;
                stored.id = id as u16;
                stored.init_rng();
                self.npcs[id] = stored;
                return Ok(());
            }
            id += 1;
        }
        Err(SpawnError::ArenaFull)
    }

    /// The record in slot `id`.
    pub fn get_npc(&self, id: usize) -> (r: Option<NPC>)
        ensures
            r == (if id < self@.len() {
                Some(self@[id as int])
            } else {
                None
            }),
    {
        if id < self.npcs.len() {
            Some(self.npcs[id])
        } else {
            None
        }
    }
}

/// The slot that `free_slot` names is free, lies at or above `from`, and no
/// slot between `from` and it is free; where it names none, none is.
pub proof fn lemma_free_slot_is_lowest(slots: Seq<NPC>, from: int)
    requires
        0 <= from,
    ensures
        match free_slot(slots, from) {
            Some(id) => from <= id < slots.len() && !slots[id].cond.alive && forall|j: int|
                from <= j < id ==> (#[trigger] slots[j]).cond.alive,
            None => forall|j: int| from <= j < slots.len() ==> (#[trigger] slots[j]).cond.alive,
        },
    decreases slots.len() - from,
{
    if from < slots.len() && slots[from].cond.alive {
        lemma_free_slot_is_lowest(slots, from + 1);
    }
}

/// Handing a record to the arena touches no slot but the one it lands in,
/// and that slot held no living entity; where no slot is free nothing
/// changes at all.
pub proof fn lemma_spawn_keeps_the_living(slots: Seq<NPC>, min_id: u16, npc: NPC)
    requires
        slots.len() <= 0x10000,
    ensures
        spawned(slots, min_id, npc).len() == slots.len(),
        forall|j: int|
            0 <= j < slots.len() && (#[trigger] slots[j]).cond.alive ==> spawned(
                slots,
                min_id,
                npc,
            )[j] == slots[j],
        forall|j: int|
            0 <= j < min_id && j < slots.len() ==> #[trigger] spawned(slots, min_id, npc)[j]
                == slots[j],
        free_slot(slots, min_id as int).is_none() ==> spawned(slots, min_id, npc) == slots,
        free_slot(slots, min_id as int) matches Some(id) ==> spawned(slots, min_id, npc)[id]
            == placed(npc, id) && spawned(slots, min_id, npc)[id].id == id,
{
    lemma_free_slot_is_lowest(slots, min_id as int);
}

} // verus!
