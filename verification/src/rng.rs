//! Seeded random streams and the sampling law that every behaviour draws by.
//!
//! A stream is a pure state machine: `draw` is the raw value that the state
//! yields and `after` the state that follows. Sampling an inclusive interval
//! shifts the raw draw right by two bits and reduces it modulo the width of
//! the interval; the residue is never negative, so a sample of an interval
//! lies in the interval whatever the draw. The law is biased on purpose: it
//! is no rejection sampling.

use std::ops::Range;
use vstd::arithmetic::div_mod::lemma_fundamental_div_mod;
use vstd::arithmetic::div_mod::lemma_fundamental_div_mod_converse;
use vstd::arithmetic::div_mod::lemma_mod_bound;
use vstd::prelude::*;

verus! {

/// Number of values in the inclusive interval from `lo` to `hi`, wrapping.
pub open spec fn range_width(lo: i32, hi: i32) -> i32 {
    hi.wrapping_sub(lo).wrapping_add(1)
}

/// The modulus that an interval is sampled by: the magnitude of its width.
pub open spec fn modulus(lo: i32, hi: i32) -> int {
    if range_width(lo, hi) < 0 {
        -range_width(lo, hi)
    } else {
        range_width(lo, hi) as int
    }
}

/// The sampling law: `lo + ((raw >> 2) mod width)`, with the residue taken
/// from `0` up to the width.
pub open spec fn sample(lo: i32, hi: i32, raw: i32) -> i32 {
    lo.wrapping_add((((raw >> 2) as int) % modulus(lo, hi)) as i32)
}

/// The residue of `s` by `m` from the remainder that carries the sign of
/// `s`: a negative remainder is lifted by `m`.
proof fn lemma_residue_of_negative(s: int, m: int)
    requires
        s < 0,
        m > 0,
    ensures
        s % m == (if (-s) % m == 0 {
            0
        } else {
            m - (-s) % m
        }),
{
    let q = (-s) / m;
    let t = (-s) % m;
    lemma_fundamental_div_mod(-s, m);
    lemma_mod_bound(-s, m);
    assert(-s == m * q + t);
    if t == 0 {
        assert(s == (-q) * m + 0) by (nonlinear_arith)
            requires
                -s == m * q + t,
                t == 0,
        ;
        lemma_fundamental_div_mod_converse(s, m, -q, 0);
    } else {
        assert(s == (-q - 1) * m + (m - t)) by (nonlinear_arith)
            requires
                -s == m * q + t,
        ;
        lemma_fundamental_div_mod_converse(s, m, -q - 1, m - t);
    }
}

/// The sampling law for bounds written as plain integers.
pub open spec fn sample_in(lo: int, hi: int, raw: i32) -> i32 {
    sample(lo as i32, hi as i32, raw)
}

/// `x` rotated left by `k` bits, for `0 < k < 64`.
pub open spec fn rotl64(x: u64, k: u32) -> u64 {
    (x << k) | (x >> ((64 - k) as u32))
}

/// `x` rotated left by `k` bits, for `0 < k < 16`.
pub open spec fn rotl16(x: u16, k: u32) -> u16 {
    (x << k) | (x >> ((16 - k) as u32))
}

fn rotate64(x: u64, k: u32) -> (r: u64)
    requires
        0 < k < 64,
    ensures
        r == rotl64(x, k),
{
    (x << k) | (x >> (64 - k))
}

fn rotate16(x: u16, k: u32) -> (r: u16)
    requires
        0 < k < 16,
    ensures
        r == rotl16(x, k),
{
    (x << k) | (x >> (16 - k))
}

/// A deterministic stream of signed 32-bit draws.
pub trait RNG: Sized {
    /// The raw value that the next call of `next` returns.
    spec fn draw(&self) -> i32;

    /// The stream once that value has been taken.
    spec fn after(&self) -> Self;

    fn next(&mut self) -> (r: i32)
        ensures
            r == old(self).draw(),
            *final(self) == old(self).after(),
    ;

    /// One sample of the inclusive interval from `range.start` to `range.end`.
    /// Whatever the draw, the sample lies in the interval.
    fn range(&mut self, range: Range<i32>) -> (r: i32)
        requires
            range_width(range.start, range.end) != 0,
        ensures
            r == sample(range.start, range.end, old(self).draw()),
            range.start <= range.end ==> range.start <= r <= range.end,
            *final(self) == old(self).after(),
    {
        let width = range.end.wrapping_sub(range.start).wrapping_add(1);
        let raw = self.next();
        proof {
            if range.start <= range.end {
                lemma_sample_within(range.start, range.end, raw);
            }
        }
        range.start.wrapping_add(residue(raw >> 2, width))
    }
}

/// The residue of `s` modulo the magnitude of `width`.
fn residue(s: i32, width: i32) -> (r: i32)
    requires
        width != 0,
    ensures
        r == (s as int) % (if width < 0 {
            -width
        } else {
            width as int
        }),
        0 <= r,
{
    let m: i64 = if width < 0 {
        -(width as i64)
    } else {
        width as i64
    };
    let t: i64 = (s as i64) % m;
    proof {
        lemma_mod_bound(s as int, m as int);
        if s < 0 {
            lemma_residue_of_negative(s as int, m as int);
            lemma_mod_bound(-(s as int), m as int);
        }
    }
    let lifted: i64 = if t < 0 {
        t + m
    } else {
        t
    };
    lifted as i32
}

/// A raw draw shifted right by two bits keeps its sign and loses two bits of
/// magnitude.
pub proof fn lemma_shifted_draw_bounds(raw: i32)
    ensures
        -0x2000_0000 <= (raw >> 2) < 0x2000_0000,
        raw >= 0 <==> (raw >> 2) >= 0,
{
    assert(-0x2000_0000i32 <= (raw >> 2) && (raw >> 2) < 0x2000_0000i32 && (raw >= 0 <==> (raw >> 2)
        >= 0)) by (bit_vector);
}

/// The first `n` raw draws of a stream.
pub open spec fn draws<R: RNG>(rng: R, n: nat) -> Seq<i32>
    decreases n,
{
    if n == 0 {
        Seq::empty()
    } else {
        seq![rng.draw()] + draws(rng.after(), (n - 1) as nat)
    }
}

/// The samples that a stream gives for a sequence of inclusive intervals.
pub open spec fn samples<R: RNG>(rng: R, bounds: Seq<(i32, i32)>) -> Seq<i32>
    decreases bounds.len(),
{
    if bounds.len() == 0 {
        Seq::empty()
    } else {
        seq![sample(bounds[0].0, bounds[0].1, rng.draw())] + samples(
            rng.after(),
            bounds.subrange(1, bounds.len() as int),
        )
    }
}

/// A sample of an interval lies in the interval, whatever the raw draw.
pub proof fn lemma_sample_within(lo: i32, hi: i32, raw: i32)
    requires
        lo <= hi,
        range_width(lo, hi) != 0,
    ensures
        lo <= sample(lo, hi, raw) <= hi,
        0 <= ((raw >> 2) as int) % modulus(lo, hi) <= hi - lo,
{
    lemma_shifted_draw_bounds(raw);
    let m = modulus(lo, hi);
    let s = (raw >> 2) as int;
    lemma_mod_bound(s, m);
    if hi - lo + 1 <= i32::MAX {
        assert(m == hi - lo + 1);
    } else {
        assert(m == 0x1_0000_0000 - (hi - lo + 1));
        assert(m <= hi - lo + 1);
    }
}

/// The primary stream: xoshiro256** over four 64-bit words.
#[derive(Clone, Copy, Debug)]
pub struct XorShift(pub (u64, u64, u64, u64));

/// State that a 32-bit seed expands to.
pub open spec fn xorshift_seeded(seed: i32) -> (u64, u64, u64, u64) {
    (
        seed as u64,
        (seed as u64).wrapping_add(0x9e3779b97f4a7c15),
        (seed as u64).wrapping_add(0xbdd3944475a73cf0),
        0,
    )
}

/// Value that a state yields: the scrambled second word, cut to 32 bits.
pub open spec fn xorshift_output(s: (u64, u64, u64, u64)) -> i32 {
    rotl64(s.1.wrapping_mul(5), 5).wrapping_mul(9) as i32
}

/// State that follows `s`.
pub open spec fn xorshift_advance(s: (u64, u64, u64, u64)) -> (u64, u64, u64, u64) {
    let t = s.1 << 17;
    let s2 = s.2 ^ s.0;
    let s3 = s.3 ^ s.1;
    let s1 = s.1 ^ s2;
    let s0 = s.0 ^ s3;
    (s0, s1, s2 ^ t, rotl64(s3, 45))
}

impl XorShift {
    pub fn new(seed: i32) -> (r: Self)
        ensures
            r.0 == xorshift_seeded(seed),
    {
        XorShift(
            (
                seed as u64,
                (seed as u64).wrapping_add(0x9e3779b97f4a7c15),
                (seed as u64).wrapping_add(0xbdd3944475a73cf0),
                0,
            ),
        )
    }

    pub fn next_u64(&mut self) -> (r: i32)
        ensures
            r == xorshift_output(old(self).0),
            final(self).0 == xorshift_advance(old(self).0),
    {
        let mut state = self.0;
        let result = rotate64(state.1.wrapping_mul(5), 5).wrapping_mul(9);
        let t = state.1 << 17;

        state.2 = state.2 ^ state.0;
        state.3 = state.3 ^ state.1;
        state.1 = state.1 ^ state.2;
        state.0 = state.0 ^ state.3;

        state.2 = state.2 ^ t;
        state.3 = rotate64(state.3, 45);

        self.0 = state;
        #[verifier::truncate]
        (result as i32)
    }

    pub fn next_u32(&mut self) -> (r: u32)
        ensures
            r == xorshift_output(old(self).0) as u32,
            final(self).0 == xorshift_advance(old(self).0),
    {
        #[verifier::truncate]
        (self.next_u64() as u32)
    }

    /// Snapshot of the whole state.
    pub fn dump_state(&self) -> (r: (u64, u64, u64, u64))
        ensures
            r == self.0,
    {
        self.0
    }

    /// Puts a snapshot back.
    pub fn load_state(&mut self, saved_state: (u64, u64, u64, u64))
        ensures
            final(self).0 == saved_state,
    {
        self.0 = saved_state;
    }
}

impl RNG for XorShift {
    open spec fn draw(&self) -> i32 {
        xorshift_output(self.0)
    }

    open spec fn after(&self) -> Self {
        XorShift(xorshift_advance(self.0))
    }

    fn next(&mut self) -> (r: i32) {
        self.next_u64()
    }
}

/// The lightweight per-entity stream: xoroshiro32++ over two 16-bit words.
#[derive(Clone, Copy, Debug)]
pub struct Xoroshiro32PlusPlus(pub (u16, u16));

/// The two words that a packed 32-bit state holds: low half, high half.
pub open spec fn xoroshiro_unpack(state: u32) -> (u16, u16) {
    ((state & 0xffff) as u16, ((state >> 16) & 0xffff) as u16)
}

/// The packed form of two words.
pub open spec fn xoroshiro_pack(s: (u16, u16)) -> u32 {
    (s.0 as u32) | ((s.1 as u32) << 16)
}

/// The 16 bits that a state yields.
pub open spec fn xoroshiro_output(s: (u16, u16)) -> u16 {
    rotl16(s.0.wrapping_add(s.1), 9).wrapping_add(s.0)
}

/// State that follows `s`.
pub open spec fn xoroshiro_advance(s: (u16, u16)) -> (u16, u16) {
    let s1 = s.1 ^ s.0;
    (rotl16(s.0, 13) ^ s1 ^ (s1 << 5), rotl16(s1, 10))
}

/// A signed draw from two successive 16-bit outputs, high half first, with
/// the two lowest bits dropped.
pub open spec fn xoroshiro_join(high: u16, low: u16) -> i32 {
    ((((high as u32) << 16) | (low as u32)) >> 2) as i32
}

impl Xoroshiro32PlusPlus {
    pub fn new(seed: u32) -> (r: Xoroshiro32PlusPlus)
        ensures
            r.0 == xoroshiro_unpack(seed),
    {
        Xoroshiro32PlusPlus(
            (
                #[verifier::truncate]
                ((seed & 0xffff) as u16),
                #[verifier::truncate]
                (((seed >> 16) & 0xffff) as u16),
            ),
        )
    }

    pub fn next_u16(&mut self) -> (r: u16)
        ensures
            r == xoroshiro_output(old(self).0),
            final(self).0 == xoroshiro_advance(old(self).0),
    {
        let mut state = self.0;
        let result = rotate16(state.0.wrapping_add(state.1), 9).wrapping_add(state.0);

        state.1 = state.1 ^ state.0;
        state.0 = rotate16(state.0, 13) ^ state.1 ^ (state.1 << 5);
        state.1 = rotate16(state.1, 10);

        self.0 = state;
        result
    }

    /// Snapshot of the state, packed into one word.
    pub fn dump_state(&self) -> (r: u32)
        ensures
            r == xoroshiro_pack(self.0),
    {
        let state = self.0;
        (state.0 as u32) | ((state.1 as u32) << 16)
    }

    /// Puts a packed snapshot back.
    pub fn load_state(&mut self, state: u32)
        ensures
            final(self).0 == xoroshiro_unpack(state),
    {
        self.0 = (
            #[verifier::truncate]
            ((state & 0xffff) as u16),
            #[verifier::truncate]
            (((state >> 16) & 0xffff) as u16),
        );
    }
}

impl RNG for Xoroshiro32PlusPlus {
    open spec fn draw(&self) -> i32 {
        xoroshiro_join(xoroshiro_output(self.0), xoroshiro_output(xoroshiro_advance(self.0)))
    }

    open spec fn after(&self) -> Self {
        Xoroshiro32PlusPlus(xoroshiro_advance(xoroshiro_advance(self.0)))
    }

    fn next(&mut self) -> (r: i32) {
        let high = self.next_u16();
        let low = self.next_u16();
        #[verifier::truncate]
        (((((high as u32) << 16) | (low as u32)) >> 2) as i32)
    }
}

/// Packing two words and unpacking the result gives the two words back.
pub proof fn lemma_xoroshiro_pack_unpack(s: (u16, u16))
    ensures
        xoroshiro_unpack(xoroshiro_pack(s)) == s,
{
    let a = s.0;
    let b = s.1;
    assert(((((a as u32) | ((b as u32) << 16)) & 0xffff) as u16) == a) by (bit_vector);
    assert((((((a as u32) | ((b as u32) << 16)) >> 16) & 0xffff) as u16) == b) by (bit_vector);
}

/// A draw of the per-entity stream is never negative and has 30 bits.
pub proof fn lemma_xoroshiro_draw_nonnegative(rng: Xoroshiro32PlusPlus)
    ensures
        0 <= rng.draw() < 0x4000_0000,
{
    let high = xoroshiro_output(rng.0);
    let low = xoroshiro_output(xoroshiro_advance(rng.0));
    let joined = (((high as u32) << 16) | (low as u32)) >> 2;
    assert((((high as u32) << 16) | (low as u32)) >> 2 < 0x4000_0000u32) by (bit_vector);
}

/// The per-entity stream samples `[lo, hi]` within `[lo, hi]`.
pub proof fn lemma_xoroshiro_sample_within(rng: Xoroshiro32PlusPlus, lo: i32, hi: i32)
    requires
        lo <= hi,
        range_width(lo, hi) != 0,
    ensures
        lo <= sample(lo, hi, rng.draw()) <= hi,
{
    lemma_sample_within(lo, hi, rng.draw());
}

/// The primary stream samples `[lo, hi]` within `[lo, hi]`, also where its
/// raw draw is negative.
pub proof fn lemma_xorshift_sample_within(rng: XorShift, lo: i32, hi: i32)
    requires
        lo <= hi,
        range_width(lo, hi) != 0,
    ensures
        lo <= sample(lo, hi, rng.draw()) <= hi,
{
    lemma_sample_within(lo, hi, rng.draw());
}

/// Two primary streams built from one seed give the same samples for the same
/// sequence of intervals.
pub proof fn lemma_xorshift_reseed_replays(a: XorShift, b: XorShift, seed: i32, bounds: Seq<(i32, i32)>)
    requires
        a.0 == xorshift_seeded(seed),
        b.0 == xorshift_seeded(seed),
    ensures
        samples(a, bounds) == samples(b, bounds),
        a.after() == b.after(),
{
}

/// Two per-entity streams built from one seed give the same samples for the
/// same sequence of intervals.
pub proof fn lemma_xoroshiro_reseed_replays(
    a: Xoroshiro32PlusPlus,
    b: Xoroshiro32PlusPlus,
    seed: u32,
    bounds: Seq<(i32, i32)>,
)
    requires
        a.0 == xoroshiro_unpack(seed),
        b.0 == xoroshiro_unpack(seed),
    ensures
        samples(a, bounds) == samples(b, bounds),
        a.after() == b.after(),
{
}

/// A primary stream whose state was loaded from the snapshot of another gives
/// the draws of that other, however many are taken.
pub proof fn lemma_xorshift_snapshot_round_trip(original: XorShift, restored: XorShift, n: nat)
    requires
        restored.0 == original.0,
    ensures
        draws(restored, n) == draws(original, n),
{
}

/// A per-entity stream whose state was loaded from the packed snapshot of
/// another gives the draws of that other, however many are taken.
pub proof fn lemma_xoroshiro_snapshot_round_trip(
    original: Xoroshiro32PlusPlus,
    restored: Xoroshiro32PlusPlus,
    n: nat,
)
    requires
        restored.0 == xoroshiro_unpack(xoroshiro_pack(original.0)),
    ensures
        draws(restored, n) == draws(original, n),
{
    lemma_xoroshiro_pack_unpack(original.0);
}

} // verus!
