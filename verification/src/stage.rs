//! The stage, as far as the entities ask about it.

use vstd::prelude::*;

verus! {

/// Extent of the tile grid of a stage, in tiles.
#[derive(Clone, Copy, Debug, PartialEq, Eq, Structural)]
pub struct StageMap {
    pub width: usize,
    pub height: usize,
}

#[derive(Clone, Copy, Debug, PartialEq, Eq, Structural)]
pub struct Stage {
    pub map: StageMap,
}

impl Stage {
    /// Height of the lower edge of the stage in fixed point: a tile is 16
    /// units high.
    pub open spec fn bottom_spec(&self) -> i32 {
        (self.map.height as i32).wrapping_mul(16).wrapping_mul(0x200)
    }

    #[verifier::when_used_as_spec(bottom_spec)]
    pub fn bottom(&self) -> (r: i32)
        ensures
            r == self.bottom_spec(),
    {
        (#[verifier::truncate]
        (self.map.height as i32)).wrapping_mul(16).wrapping_mul(0x200)
    }
}

} // verus!
