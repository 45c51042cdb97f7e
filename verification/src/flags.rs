//! The numbered on/off flags of a playthrough, held in a bit vector of the
//! `bitvec` crate.

use vstd::prelude::*;
use bitvec::order::Lsb0;
use bitvec::vec::BitVec;

verus! {

/// A store of numbered flags. Its bits are `flag_bits` of it.
#[verifier::external_body]
pub struct GameFlags {
    bits: BitVec<Lsb0, usize>,
}

/// The bits that a flag store holds, first to last.
pub uninterp spec fn flag_bits(flags: GameFlags) -> Seq<bool>;

impl View for GameFlags {
    type V = Seq<bool>;

    open spec fn view(&self) -> Seq<bool> {
        flag_bits(*self)
    }
}

/// Greatest number of flags that a store is made with.
pub const GAME_FLAGS_MAX: usize = 0x100_0000;

/// Trusted: `BitVec::repeat(false, len)`, a vector of `len` bits, all clear.
/// The crate refuses a length above its own limit, which lies far above
/// `GAME_FLAGS_MAX` on every target.
#[verifier::external_body]
pub(crate) fn flags_cleared(len: usize) -> (r: GameFlags)
    requires
        len <= GAME_FLAGS_MAX,
    ensures
        flag_bits(r) == Seq::new(len as nat, |i: int| false),
{
    GameFlags { bits: BitVec::repeat(false, len) }
}

/// Trusted: `BitSlice::get` with a position: the bit at `index`, or `None`
/// when `index` is not below the length.
#[verifier::external_body]
pub(crate) fn flags_get(flags: &GameFlags, index: usize) -> (r: Option<bool>)
    ensures
        r == (if index < flag_bits(*flags).len() {
            Some(flag_bits(*flags)[index as int])
        } else {
            None
        }),
{
    flags.bits.get(index).copied()
}

/// Trusted: `BitSlice::set`: the bit at `index` becomes `value` and no other
/// bit changes. The crate panics when `index` is not below the length.
#[verifier::external_body]
pub(crate) fn flags_set(flags: &mut GameFlags, index: usize, value: bool)
    requires
        index < flag_bits(*old(flags)).len(),
    ensures
        flag_bits(*final(flags)) == flag_bits(*old(flags)).update(index as int, value),
{
    flags.bits.set(index, value)
}

impl GameFlags {
    /// A store of `len` flags, all off.
    pub fn new(len: usize) -> (r: GameFlags)
        requires
            len <= GAME_FLAGS_MAX,
        ensures
            r@.len() == len,
            forall|i: int| 0 <= i < len ==> !r@[i],
    {
        flags_cleared(len)
    }

    /// The flag numbered `index`, if the store has one.
    pub fn get(&self, index: usize) -> (r: Option<bool>)
        ensures
            index < self@.len() ==> r == Some(self@[index as int]),
            index >= self@.len() ==> r.is_none(),
    {
        flags_get(self, index)
    }

    /// Whether the flag numbered `index` is on; a flag that the store does
    /// not have is off.
    pub fn is_set(&self, index: usize) -> (r: bool)
        ensures
            r == flag_is_set(self@, index as int),
    {
        match flags_get(self, index) {
            Some(bit) => bit,
            None => false,
        }
    }

    /// Turns the flag numbered `index` on or off. A number that the store
    /// does not have is ignored, and `false` returned.
    pub fn set(&mut self, index: usize, value: bool) -> (r: bool)
        ensures
            r == (index < old(self)@.len()),
            r ==> final(self)@ == old(self)@.update(index as int, value),
            !r ==> final(self)@ == old(self)@,
    {
        match flags_get(self, index) {
            Some(_) => {
                flags_set(self, index, value);
                true
            },
            None => false,
        }
    }
}

/// Whether flag `index` of `bits` exists and is on.
pub open spec fn flag_is_set(bits: Seq<bool>, index: int) -> bool {
    0 <= index < bits.len() && bits[index]
}

/// What a script reads of a flag by a signed number: a negative number
/// reads flag 0, and a flag that the store does not have reads as off.
pub open spec fn script_flag_spec(bits: Seq<bool>, index: i32) -> bool {
    flag_is_set(bits, if index < 0 { 0 } else { index as int })
}

/// The value that a script sees for the flag it names by `index`, or nothing
/// when the script named no number.
pub fn script_flag(flags: &GameFlags, index: Option<i32>) -> (r: Option<bool>)
    ensures
        r == match index {
            Some(i) => Some(script_flag_spec(flags@, i)),
            None => None,
        },
{
    match index {
        Some(i) => {
            let at: usize = if i < 0 { 0 } else { i as usize };
            Some(flags.is_set(at))
        },
        None => None,
    }
}

} // verus!
