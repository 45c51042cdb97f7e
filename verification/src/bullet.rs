//! The player's projectiles, as far as the entities ask about them.

use vstd::prelude::*;
use crate::common::{Condition, Direction};

verus! {

/// One projectile in flight.
#[derive(Clone, Copy, Debug)]
pub struct Bullet {
    pub btype: u16,
    pub x: i32,
    pub y: i32,
    pub vel_x: i32,
    pub vel_y: i32,
    pub life: u16,
    pub damage: u16,
    pub cond: Condition,
    pub direction: Direction,
}

pub struct BulletManager {
    pub bullets: Vec<Bullet>,
}

impl View for BulletManager {
    type V = Seq<Bullet>;

    open spec fn view(&self) -> Seq<Bullet> {
        self.bullets@
    }
}

/// The weapon that a projectile type belongs to: the types come in threes,
/// one per level of the weapon, the first weapon starting at type 2.
pub open spec fn weapon_of(btype: u16) -> u16 {
    if btype < 2 {
        0
    } else {
        ((btype - 2) / 3) as u16
    }
}

/// Number of projectiles among `bullets` that belong to weapon `type_idx`.
pub open spec fn count_of_weapon(bullets: Seq<Bullet>, type_idx: u16) -> nat
    decreases bullets.len(),
{
    if bullets.len() == 0 {
        0
    } else {
        count_of_weapon(bullets.drop_last(), type_idx) + if weapon_of(bullets.last().btype)
            == type_idx {
            1nat
        } else {
            0nat
        }
    }
}

/// The count is zero exactly when no projectile belongs to the weapon.
pub proof fn lemma_count_of_weapon_zero(bullets: Seq<Bullet>, type_idx: u16)
    ensures
        count_of_weapon(bullets, type_idx) <= bullets.len(),
        count_of_weapon(bullets, type_idx) == 0 <==> forall|i: int|
            0 <= i < bullets.len() ==> weapon_of((#[trigger] bullets[i]).btype) != type_idx,
    decreases bullets.len(),
{
    if bullets.len() > 0 {
        lemma_count_of_weapon_zero(bullets.drop_last(), type_idx);
        assert forall|i: int| 0 <= i < bullets.len() - 1 implies bullets.drop_last()[i]
            == bullets[i] by {}
        if count_of_weapon(bullets, type_idx) == 0 {
            assert forall|i: int| 0 <= i < bullets.len() implies weapon_of(
                (#[trigger] bullets[i]).btype,
            ) != type_idx by {
                if i < bullets.len() - 1 {
                    assert(bullets.drop_last()[i] == bullets[i]);
                }
            }
        } else {
            if weapon_of(bullets.last().btype) != type_idx {
                let j = choose|j: int|
                    0 <= j < bullets.drop_last().len() && weapon_of(
                        (#[trigger] bullets.drop_last()[j]).btype,
                    ) == type_idx;
                assert(bullets[j] == bullets.drop_last()[j]);
            }
        }
    }
}

impl BulletManager {
    pub fn new() -> (r: BulletManager)
        ensures
            r@.len() == 0,
    {
        BulletManager { bullets: Vec::new() }
    }

    /// Number of projectiles in flight that belong to weapon `type_idx`.
    pub fn count_bullets_type_idx_all(&self, type_idx: u16) -> (r: usize)
        ensures
            r == count_of_weapon(self@, type_idx),
    {
        let mut count: usize = 0;
        let mut i: usize = 0;
        while i < self.bullets.len()
            invariant
                i <= self.bullets.len(),
                count <= i,
                count == count_of_weapon(self@.subrange(0, i as int), type_idx),
            decreases self.bullets.len() - i,
        {
            proof {
                assert(self@.subrange(0, i + 1).drop_last() == self@.subrange(0, i as int));
            }
            if self.bullets[i].btype.saturating_sub(2) / 3 == type_idx {
                count += 1;
            }
            i += 1;
        }
        proof {
            assert(self@.subrange(0, i as int) == self@);
        }
        count
    }
}

} // verus!
