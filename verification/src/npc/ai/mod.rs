//! The behaviours, one routine per entity type, and what they share: the
//! frame cycle, the fall under gravity and the bursts of smoke.

use vstd::prelude::*;
use crate::caret::CaretType;
use crate::common::{Condition, Direction};
use crate::fix9::{neg, neg_spec};
use crate::npc::list::{spawned, NPCList};
use crate::npc::{blank_npc, NPC};
use crate::rng::{range_width, sample, sample_in, Xoroshiro32PlusPlus, RNG};
use crate::shared_game_state::{SharedGameState, SharedGameStateView};

pub mod blocks;
pub mod characters;
pub mod laws;
pub mod machines;
pub mod misc;
pub mod sand_zone;

verus! {

/// Greatest falling speed of an entity.
pub const TERMINAL_SPEED: i32 = 0x5ff;

/// One step of a frame cycle: the timer advances, and each time it passes
/// `period` it restarts and the frame advances; a frame past `last` goes
/// back to `first`. Gives the frame and the timer.
pub open spec fn frame_cycle(anim_num: u16, anim_counter: u16, period: u16, last: u16, first: u16)
    -> (u16, u16) {
    let counter = anim_counter.wrapping_add(1);
    let frame = if counter > period {
        anim_num.wrapping_add(1)
    } else {
        anim_num
    };
    (
        if frame > last {
            first
        } else {
            frame
        },
        if counter > period {
            0
        } else {
            counter
        },
    )
}

pub fn cycle(anim_num: u16, anim_counter: u16, period: u16, last: u16, first: u16) -> (r: (u16, u16))
    ensures
        r == frame_cycle(anim_num, anim_counter, period, last, first),
{
    let mut counter = anim_counter.wrapping_add(1);
    let mut frame = anim_num;
    if counter > period {
        counter = 0;
        frame = frame.wrapping_add(1);
    }
    if frame > last {
        frame = first;
    }
    (frame, counter)
}

/// One step of a frame cycle that checks its end only when it advances:
/// each time the timer passes `period` it restarts and the frame advances,
/// going back to `first` past `last`. Gives the frame and the timer.
pub open spec fn frame_advance(anim_num: u16, anim_counter: u16, period: u16, last: u16, first: u16)
    -> (u16, u16) {
    let counter = anim_counter.wrapping_add(1);
    if counter > period {
        (
            if anim_num.wrapping_add(1) > last {
                first
            } else {
                anim_num.wrapping_add(1)
            },
            0,
        )
    } else {
        (anim_num, counter)
    }
}

pub fn advance(anim_num: u16, anim_counter: u16, period: u16, last: u16, first: u16) -> (r: (
    u16,
    u16,
))
    ensures
        r == frame_advance(anim_num, anim_counter, period, last, first),
{
    let counter = anim_counter.wrapping_add(1);
    if counter > period {
        let frame = anim_num.wrapping_add(1);
        (
            if frame > last {
                first
            } else {
                frame
            },
            0,
        )
    } else {
        (anim_num, counter)
    }
}

/// A timer that runs round `0 .. length` and the frame it selects, `hold`
/// ticks per frame.
pub open spec fn frame_loop(anim_counter: u16, length: u16, hold: u16) -> (u16, u16) {
    let counter = (anim_counter.wrapping_add(1) % length) as u16;
    ((counter / hold) as u16, counter)
}

pub fn loop_frames(anim_counter: u16, length: u16, hold: u16) -> (r: (u16, u16))
    requires
        length > 0,
        hold > 0,
    ensures
        r == frame_loop(anim_counter, length, hold),
        r.0 <= (length - 1) / (hold as int),
{
    let counter = anim_counter.wrapping_add(1) % length;
    proof {
        assert(counter as int / (hold as int) <= (length - 1) / (hold as int)) by (nonlinear_arith)
            requires
                0 <= counter <= length - 1,
                hold > 0,
        ;
    }
    (counter / hold, counter)
}

/// Vertical speed after gravity pulled for one tick, bounded by the terminal
/// speed.
pub open spec fn fallen(vel_y: i32, gravity: i32) -> i32 {
    let v = vel_y.wrapping_add(gravity);
    if v > TERMINAL_SPEED {
        TERMINAL_SPEED
    } else {
        v
    }
}

pub fn fall(vel_y: i32, gravity: i32) -> (r: i32)
    ensures
        r == fallen(vel_y, gravity),
{
    let v = vel_y.wrapping_add(gravity);
    if v > TERMINAL_SPEED {
        TERMINAL_SPEED
    } else {
        v
    }
}

/// Horizontal speed of an entity walking at `speed` the way it faces: to
/// the left when it faces left, else to the right.
pub open spec fn facing_speed(direction: Direction, speed: i32) -> i32 {
    if direction == Direction::Left {
        neg_spec(speed)
    } else {
        speed
    }
}

pub fn toward_facing(direction: Direction, speed: i32) -> (r: i32)
    ensures
        r == facing_speed(direction, speed),
{
    if direction == Direction::Left {
        neg(speed)
    } else {
        speed
    }
}

/// The facing that looks from `x` toward `target_x`: left when the target
/// lies to the left, else right.
pub open spec fn facing_toward(x: i32, target_x: i32) -> Direction {
    if x > target_x {
        Direction::Left
    } else {
        Direction::Right
    }
}

pub fn face_toward(x: i32, target_x: i32) -> (r: Direction)
    ensures
        r == facing_toward(x, target_x),
{
    if x > target_x {
        Direction::Left
    } else {
        Direction::Right
    }
}

/// An entity together with what its tick may change around it.
pub struct NpcWorld {
    pub npc: NPC,
    pub state: SharedGameStateView,
    pub npcs: Seq<NPC>,
}

/// A living entity of type `npc_type` at `(x, y)`, as behaviours make them.
pub open spec fn spawn_template(npc_type: u16, x: i32, y: i32, s: SharedGameStateView) -> NPC {
    NPC {
        cond: Condition { alive: true, ..Condition::empty() },
        x,
        y,
        ..blank_npc(npc_type, s.npc_table)
    }
}

pub fn make_template(npc_type: u16, x: i32, y: i32, state: &SharedGameState) -> (r: NPC)
    ensures
        r == spawn_template(npc_type, x, y, state@),
{
    let npc = NPC::create(npc_type, &state.npc_table);
    NPC { cond: Condition { alive: true, ..Condition::empty() }, x, y, ..npc }
}

/// A puff of smoke thrown out of `template`: its speed is drawn from two
/// successive states of a stream, sideways within 0x155 and upward up to
/// 0x600; where `scatter` it is also placed within 12 units around.
pub open spec fn puff(template: NPC, scatter: bool, r0: Xoroshiro32PlusPlus) -> NPC {
    let r2 = if scatter {
        r0.after().after()
    } else {
        r0
    };
    NPC {
        x: if scatter {
            template.x.wrapping_add(sample_in(-12, 12, r0.draw()).wrapping_mul(0x200))
        } else {
            template.x
        },
        y: if scatter {
            template.y.wrapping_add(sample_in(-12, 12, r0.after().draw()).wrapping_mul(0x200))
        } else {
            template.y
        },
        vel_x: sample_in(-0x155, 0x155, r2.draw()),
        vel_y: sample_in(-0x600, 0, r2.after().draw()),
        ..template
    }
}

/// The stream that is left once a puff was drawn.
pub open spec fn after_puff(scatter: bool, r0: Xoroshiro32PlusPlus) -> Xoroshiro32PlusPlus {
    if scatter {
        r0.after().after().after().after()
    } else {
        r0.after().after()
    }
}

/// The stream and the arena after `n` puffs were drawn and handed to the
/// arena, each with preferred slot 0x100.
#[verifier::opaque]
pub open spec fn puffs(
    template: NPC,
    scatter: bool,
    rng: Xoroshiro32PlusPlus,
    npcs: Seq<NPC>,
    n: nat,
) -> (Xoroshiro32PlusPlus, Seq<NPC>)
    decreases n,
{
    if n == 0 {
        (rng, npcs)
    } else {
        let (r, l) = puffs(template, scatter, rng, npcs, (n - 1) as nat);
        (after_puff(scatter, r), spawned(l, 0x100, puff(template, scatter, r)))
    }
}

/// Throws `count` puffs of smoke out of `(x, y)`.
pub fn spawn_puffs(
    x: i32,
    y: i32,
    scatter: bool,
    count: usize,
    rng: &mut Xoroshiro32PlusPlus,
    state: &SharedGameState,
    npc_list: &mut NPCList,
)
    requires
        old(npc_list).wf(),
    ensures
        final(npc_list).wf(),
        (*final(rng), final(npc_list)@) == puffs(
            spawn_template(4, x, y, state@),
            scatter,
            *old(rng),
            old(npc_list)@,
            count as nat,
        ),
{
    let template = make_template(4, x, y, state);
    let ghost rng0 = *rng;
    let ghost npcs0 = npc_list@;
    let mut stream = *rng;
    let mut i: usize = 0;
    proof {
        reveal(puffs);
    }
    while i < count
        invariant
            i <= count,
            npc_list.wf(),
            (stream, npc_list@) == puffs(template, scatter, rng0, npcs0, i as nat),
        decreases count - i,
    {
        proof {
            reveal(puffs);
        }
        let drawn = draw_puff(template, scatter, &mut stream);
        let _ = npc_list.spawn(0x100, drawn);
        i += 1;
    }
    *rng = stream;
}

/// Draws one puff out of `template`.
fn draw_puff(template: NPC, scatter: bool, rng: &mut Xoroshiro32PlusPlus) -> (r: NPC)
    ensures
        r == puff(template, scatter, *old(rng)),
        *final(rng) == after_puff(scatter, *old(rng)),
{
    let r0 = *rng;
    let mut a = r0;
    let dx = a.range(-12..12).wrapping_mul(0x200);
    let dy = a.range(-12..12).wrapping_mul(0x200);
    let mut b = if scatter {
        a
    } else {
        r0
    };
    let vel_x = b.range(-0x155..0x155);
    let vel_y = b.range(-0x600..0);
    *rng = b;
    NPC {
        x: if scatter {
            template.x.wrapping_add(dx)
        } else {
            template.x
        },
        y: if scatter {
            template.y.wrapping_add(dy)
        } else {
            template.y
        },
        vel_x,
        vel_y,
        ..template
    }
}

/// The width of an interval that is symmetric about zero is odd, so never
/// zero.
pub proof fn lemma_symmetric_width(radius: i32)
    ensures
        range_width(neg_spec(radius), radius) != 0,
{
    let w = range_width(neg_spec(radius), radius) as int;
    let r = radius as int;
    assert(w == 2 * r + 1 || w == 2 * r + 1 - 0x1_0000_0000 || w == 2 * r + 1 + 0x1_0000_0000);
}

/// A cloud of the smoke that a dying entity leaves: placed within `radius`
/// units around `template`, the two offsets drawn from two successive states
/// of a stream.
pub open spec fn cloud(template: NPC, radius: i32, r0: Xoroshiro32PlusPlus) -> NPC {
    NPC {
        x: template.x.wrapping_add(
            sample(neg_spec(radius), radius, r0.draw()).wrapping_mul(0x200),
        ),
        y: template.y.wrapping_add(
            sample(neg_spec(radius), radius, r0.after().draw()).wrapping_mul(0x200),
        ),
        ..template
    }
}

/// The stream and the arena after `n` clouds of death smoke.
#[verifier::opaque]
pub open spec fn clouds(
    template: NPC,
    radius: i32,
    rng: Xoroshiro32PlusPlus,
    npcs: Seq<NPC>,
    n: nat,
) -> (Xoroshiro32PlusPlus, Seq<NPC>)
    decreases n,
{
    if n == 0 {
        (rng, npcs)
    } else {
        let (r, l) = clouds(template, radius, rng, npcs, (n - 1) as nat);
        (r.after().after(), spawned(l, 0x100, cloud(template, radius, r)))
    }
}

/// Radius of death smoke in whole units, from a width in fixed point.
pub open spec fn smoke_radius(width: usize) -> i32 {
    (width / 0x200) as i32
}

impl NPC {
    /// Puts back the stream that the entity's draws left.
    pub(crate) fn store_rng(&mut self, rng: Xoroshiro32PlusPlus)
        ensures
            *final(self) == (NPC { rng, ..*old(self) }),
    {
        *self = NPC { rng, ..*self };
    }
}

impl NPCList {
    /// The smoke of a dying entity: `amount` clouds within the entity's width
    /// around `(x, y)`, and an explosion at `(x, y)`. With `wanted` false
    /// nothing happens.
    pub fn create_death_smoke_if(
        &mut self,
        wanted: bool,
        x: i32,
        y: i32,
        radius: usize,
        amount: usize,
        state: &mut SharedGameState,
        rng: &mut Xoroshiro32PlusPlus,
    )
        requires
            old(self).wf(),
        ensures
            final(self).wf(),
            final(state)@ == old(state)@.with_caret_if(
                wanted,
                x,
                y,
                CaretType::Explosion,
                Direction::Left,
            ),
            (*final(rng), final(self)@) == clouds(
                spawn_template(4, x, y, old(state)@),
                smoke_radius(radius),
                *old(rng),
                old(self)@,
                if wanted {
                    amount as nat
                } else {
                    0
                },
            ),
    {
        let radius = #[verifier::truncate]
        ((radius / 0x200) as i32);
        let template = make_template(4, x, y, state);
        let count = if wanted {
            amount
        } else {
            0
        };
        let ghost rng0 = *rng;
        let ghost npcs0 = self@;
        let mut stream = *rng;
        let mut i: usize = 0;
        proof {
            reveal(clouds);
            lemma_symmetric_width(radius);
        }
        while i < count
            invariant
                i <= count,
                self.wf(),
                range_width(neg_spec(radius), radius) != 0,
                (stream, self@) == clouds(template, radius, rng0, npcs0, i as nat),
            decreases count - i,
        {
            proof {
                reveal(clouds);
            }
            let off_x = stream.range(neg(radius)..radius).wrapping_mul(0x200);
            let off_y = stream.range(neg(radius)..radius).wrapping_mul(0x200);
            let _ = self.spawn(
                0x100,
                NPC {
                    x: template.x.wrapping_add(off_x),
                    y: template.y.wrapping_add(off_y),
                    ..template
                },
            );
            i += 1;
        }
        *rng = stream;
        state.create_caret_if(wanted, x, y, CaretType::Explosion, Direction::Left);
    }

    /// The smoke of a dying entity.
    pub fn create_death_smoke(
        &mut self,
        x: i32,
        y: i32,
        radius: usize,
        amount: usize,
        state: &mut SharedGameState,
        rng: &mut Xoroshiro32PlusPlus,
    )
        requires
            old(self).wf(),
        ensures
            final(self).wf(),
            final(state)@ == old(state)@.with_caret_if(
                true,
                x,
                y,
                CaretType::Explosion,
                Direction::Left,
            ),
            (*final(rng), final(self)@) == clouds(
                spawn_template(4, x, y, old(state)@),
                smoke_radius(radius),
                *old(rng),
                old(self)@,
                amount as nat,
            ),
    {
        self.create_death_smoke_if(true, x, y, radius, amount, state, rng);
    }

    /// Hands `npc` to the arena if `wanted`; what became of it is not told.
    pub fn spawn_if(&mut self, wanted: bool, min_id: u16, npc: NPC)
        requires
            old(self).wf(),
        ensures
            final(self).wf(),
            final(self)@ == spawned_if(old(self)@, wanted, min_id, npc),
    {
        if wanted {
            let _ = self.spawn(min_id, npc);
        }
    }
}

/// The slots once `n` copies of `npc` were handed to the arena one after
/// the other.
#[verifier::opaque]
pub open spec fn copies(slots: Seq<NPC>, min_id: u16, npc: NPC, n: nat) -> Seq<NPC>
    decreases n,
{
    if n == 0 {
        slots
    } else {
        spawned(copies(slots, min_id, npc, (n - 1) as nat), min_id, npc)
    }
}

impl NPCList {
    /// Hands `count` copies of `npc` to the arena.
    pub fn spawn_copies(&mut self, count: usize, min_id: u16, npc: NPC)
        requires
            old(self).wf(),
        ensures
            final(self).wf(),
            final(self)@ == copies(old(self)@, min_id, npc, count as nat),
    {
        let ghost npcs0 = self@;
        let mut i: usize = 0;
        proof {
            reveal(copies);
        }
        while i < count
            invariant
                i <= count,
                self.wf(),
                self@ == copies(npcs0, min_id, npc, i as nat),
            decreases count - i,
        {
            proof {
                reveal(copies);
            }
            let _ = self.spawn(min_id, npc);
            i += 1;
        }
    }
}

/// The slots once `npc` was handed to the arena, if it was.
pub open spec fn spawned_if(slots: Seq<NPC>, wanted: bool, min_id: u16, npc: NPC) -> Seq<NPC> {
    if wanted {
        spawned(slots, min_id, npc)
    } else {
        slots
    }
}

} // verus!
