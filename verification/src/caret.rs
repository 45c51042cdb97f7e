//! Transient visual effects that behaviours ask for.

use vstd::prelude::*;
use crate::common::Direction;

verus! {

#[derive(Clone, Copy, Debug, PartialEq, Eq, Structural)]
pub enum CaretType {
    Blank,
    Bubble,
    ProjectileDissipation,
    Shoot,
    SnakeAfterimage,
    Zzz,
    SnakeAfterimage2,
    Exhaust,
    DrownedQuote,
    QuestionMark,
    LevelUp,
    HurtParticles,
    Explosion,
    LittleParticles,
    Unknown,
    SmallProjectileDissipation,
    Empty,
    PushJumpKey,
}

/// One requested effect: where, which and facing where.
#[derive(Clone, Copy, Debug, PartialEq, Eq, Structural)]
pub struct Caret {
    pub x: i32,
    pub y: i32,
    pub ctype: CaretType,
    pub direction: Direction,
}

impl Caret {
    pub fn new(x: i32, y: i32, ctype: CaretType, direct: Direction) -> (r: Caret)
        ensures
            r == (Caret { x, y, ctype, direction: direct }),
    {
        Caret { x, y, ctype, direction: direct }
    }
}

} // verus!
