//! Conventions shared by every entity: facing, rectangles and the flag sets.

use vstd::prelude::*;

verus! {

/// Facing of an entity. `FacingPlayer` is a request that a behaviour resolves
/// to `Left` or `Right` on its first tick.
#[derive(Clone, Copy, Debug, PartialEq, Eq, Structural)]
pub enum Direction {
    Left,
    Up,
    Right,
    Bottom,
    FacingPlayer,
}

impl Direction {
    /// Position of the facing in tables that hold one entry per facing.
    pub open spec fn index_spec(self) -> usize {
        match self {
            Direction::Left => 0,
            Direction::Up => 1,
            Direction::Right => 2,
            Direction::Bottom => 3,
            Direction::FacingPlayer => 4,
        }
    }

    pub open spec fn vector_x_spec(self) -> i32 {
        match self {
            Direction::Left => (-1) as i32,
            Direction::Right => 1,
            _ => 0,
        }
    }

    pub open spec fn vector_y_spec(self) -> i32 {
        match self {
            Direction::Up => (-1) as i32,
            Direction::Bottom => 1,
            _ => 0,
        }
    }

    pub open spec fn opposite_spec(self) -> Direction {
        match self {
            Direction::Left => Direction::Right,
            Direction::Up => Direction::Bottom,
            Direction::Right => Direction::Left,
            Direction::Bottom => Direction::Up,
            Direction::FacingPlayer => Direction::FacingPlayer,
        }
    }

    #[verifier::when_used_as_spec(index_spec)]
    pub fn index(self) -> (r: usize)
        ensures
            r == self.index_spec(),
            r <= 4,
    {
        match self {
            Direction::Left => 0,
            Direction::Up => 1,
            Direction::Right => 2,
            Direction::Bottom => 3,
            Direction::FacingPlayer => 4,
        }
    }

    /// Horizontal unit component of the facing.
    #[verifier::when_used_as_spec(vector_x_spec)]
    pub fn vector_x(self) -> (r: i32)
        ensures
            r == self.vector_x_spec(),
    {
        match self {
            Direction::Left => -1,
            Direction::Right => 1,
            _ => 0,
        }
    }

    /// Vertical unit component of the facing.
    #[verifier::when_used_as_spec(vector_y_spec)]
    pub fn vector_y(self) -> (r: i32)
        ensures
            r == self.vector_y_spec(),
    {
        match self {
            Direction::Up => -1,
            Direction::Bottom => 1,
            _ => 0,
        }
    }

    /// The facing turned by half a circle.
    #[verifier::when_used_as_spec(opposite_spec)]
    pub fn opposite(self) -> (r: Direction)
        ensures
            r == self.opposite_spec(),
    {
        match self {
            Direction::Left => Direction::Right,
            Direction::Up => Direction::Bottom,
            Direction::Right => Direction::Left,
            Direction::Bottom => Direction::Up,
            Direction::FacingPlayer => Direction::FacingPlayer,
        }
    }
}

/// Turning twice gives the facing back.
pub proof fn lemma_opposite_involutive(d: Direction)
    ensures
        d.opposite().opposite() == d,
{
}

/// An axis-aligned rectangle by its four edges.
#[derive(Clone, Copy, Debug, PartialEq, Eq)]
pub struct Rect<T> {
    pub left: T,
    pub top: T,
    pub right: T,
    pub bottom: T,
}

impl<T> Rect<T> {
    pub fn new(left: T, top: T, right: T, bottom: T) -> (r: Rect<T>)
        ensures
            r == (Rect { left, top, right, bottom }),
    {
        Rect { left, top, right, bottom }
    }
}

/// Behavioural condition of an entity.
#[derive(Clone, Copy, Debug, PartialEq, Eq, Structural)]
pub struct Condition {
    pub interacted: bool,
    pub hidden: bool,
    pub fallen: bool,
    pub explode_die: bool,
    pub damage_boss: bool,
    pub increase_acceleration: bool,
    pub alive: bool,
}

impl Condition {
    /// The condition with every flag cleared.
    pub open spec fn empty_spec() -> Condition {
        Condition {
            interacted: false,
            hidden: false,
            fallen: false,
            explode_die: false,
            damage_boss: false,
            increase_acceleration: false,
            alive: false,
        }
    }

    #[verifier::when_used_as_spec(empty_spec)]
    pub fn empty() -> (r: Condition)
        ensures
            r == Condition::empty_spec(),
    {
        Condition {
            interacted: false,
            hidden: false,
            fallen: false,
            explode_die: false,
            damage_boss: false,
            increase_acceleration: false,
            alive: false,
        }
    }
}

/// Contact and environment results of one tick, written by the stage
/// collision resolver before the behaviours run and only read by them.
#[derive(Clone, Copy, Debug, PartialEq, Eq, Structural)]
pub struct Flag {
    pub hit_left_wall: bool,
    pub hit_top_wall: bool,
    pub hit_right_wall: bool,
    pub hit_bottom_wall: bool,
    pub hit_right_slope: bool,
    pub hit_left_slope: bool,
    pub in_water: bool,
    pub hit_by_spike: bool,
    pub water_splash_facing_right: bool,
    pub force_left: bool,
    pub force_up: bool,
    pub force_right: bool,
    pub force_down: bool,
    pub hit_left_bigger_half: bool,
    pub hit_left_smaller_half: bool,
    pub hit_right_smaller_half: bool,
    pub hit_right_bigger_half: bool,
}

impl Flag {
    /// No contact at all.
    pub open spec fn empty_spec() -> Flag {
        Flag {
            hit_left_wall: false,
            hit_top_wall: false,
            hit_right_wall: false,
            hit_bottom_wall: false,
            hit_right_slope: false,
            hit_left_slope: false,
            in_water: false,
            hit_by_spike: false,
            water_splash_facing_right: false,
            force_left: false,
            force_up: false,
            force_right: false,
            force_down: false,
            hit_left_bigger_half: false,
            hit_left_smaller_half: false,
            hit_right_smaller_half: false,
            hit_right_bigger_half: false,
        }
    }

    #[verifier::when_used_as_spec(empty_spec)]
    pub fn empty() -> (r: Flag)
        ensures
            r == Flag::empty_spec(),
    {
        Flag {
            hit_left_wall: false,
            hit_top_wall: false,
            hit_right_wall: false,
            hit_bottom_wall: false,
            hit_right_slope: false,
            hit_left_slope: false,
            in_water: false,
            hit_by_spike: false,
            water_splash_facing_right: false,
            force_left: false,
            force_up: false,
            force_right: false,
            force_down: false,
            hit_left_bigger_half: false,
            hit_left_smaller_half: false,
            hit_right_smaller_half: false,
            hit_right_bigger_half: false,
        }
    }

    /// Standing on something: a floor or either slope.
    pub open spec fn grounded_spec(&self) -> bool {
        self.hit_bottom_wall || self.hit_right_slope || self.hit_left_slope
    }

    #[verifier::when_used_as_spec(grounded_spec)]
    pub fn grounded(&self) -> (r: bool)
        ensures
            r == self.grounded_spec(),
    {
        self.hit_bottom_wall || self.hit_right_slope || self.hit_left_slope
    }

    /// Pushed by an environmental force field in any direction.
    pub open spec fn forced_spec(&self) -> bool {
        self.force_left || self.force_up || self.force_right || self.force_down
    }

    #[verifier::when_used_as_spec(forced_spec)]
    pub fn forced(&self) -> (r: bool)
        ensures
            r == self.forced_spec(),
    {
        self.force_left || self.force_up || self.force_right || self.force_down
    }
}

/// Items the player carries that change the physics.
#[derive(Clone, Copy, Debug, PartialEq, Eq, Structural)]
pub struct Equipment {
    pub has_booster_0_8: bool,
    pub has_map: bool,
    pub has_arms_barrier: bool,
    pub has_turbocharge: bool,
    pub has_air_tank: bool,
    pub has_booster_2_0: bool,
    pub has_mimiga_mask: bool,
    pub has_whimsical_star: bool,
    pub has_nikumaru: bool,
}

impl Equipment {
    /// Nothing equipped.
    pub open spec fn empty_spec() -> Equipment {
        Equipment {
            has_booster_0_8: false,
            has_map: false,
            has_arms_barrier: false,
            has_turbocharge: false,
            has_air_tank: false,
            has_booster_2_0: false,
            has_mimiga_mask: false,
            has_whimsical_star: false,
            has_nikumaru: false,
        }
    }

    #[verifier::when_used_as_spec(empty_spec)]
    pub fn empty() -> (r: Equipment)
        ensures
            r == Equipment::empty_spec(),
    {
        Equipment {
            has_booster_0_8: false,
            has_map: false,
            has_arms_barrier: false,
            has_turbocharge: false,
            has_air_tank: false,
            has_booster_2_0: false,
            has_mimiga_mask: false,
            has_whimsical_star: false,
            has_nikumaru: false,
        }
    }
}

/// How an entity takes part in collision and combat.
#[derive(Clone, Copy, Debug, PartialEq, Eq, Structural)]
pub struct NPCFlag {
    pub solid_soft: bool,
    pub ignore_tile_44: bool,
    pub invulnerable: bool,
    pub ignore_solidity: bool,
    pub bouncy: bool,
    pub shootable: bool,
    pub solid_hard: bool,
    pub rear_and_top_not_hurt: bool,
    pub event_when_touched: bool,
    pub event_when_killed: bool,
    pub appear_when_flag_set: bool,
    pub spawn_facing_right: bool,
    pub interactable: bool,
    pub hide_unless_flag_set: bool,
    pub show_damage: bool,
}

impl NPCFlag {
    /// No capability at all.
    pub open spec fn empty_spec() -> NPCFlag {
        NPCFlag {
            solid_soft: false,
            ignore_tile_44: false,
            invulnerable: false,
            ignore_solidity: false,
            bouncy: false,
            shootable: false,
            solid_hard: false,
            rear_and_top_not_hurt: false,
            event_when_touched: false,
            event_when_killed: false,
            appear_when_flag_set: false,
            spawn_facing_right: false,
            interactable: false,
            hide_unless_flag_set: false,
            show_damage: false,
        }
    }

    #[verifier::when_used_as_spec(empty_spec)]
    pub fn empty() -> (r: NPCFlag)
        ensures
            r == NPCFlag::empty_spec(),
    {
        NPCFlag {
            solid_soft: false,
            ignore_tile_44: false,
            invulnerable: false,
            ignore_solidity: false,
            bouncy: false,
            shootable: false,
            solid_hard: false,
            rear_and_top_not_hurt: false,
            event_when_touched: false,
            event_when_killed: false,
            appear_when_flag_set: false,
            spawn_facing_right: false,
            interactable: false,
            hide_unless_flag_set: false,
            show_damage: false,
        }
    }
}

/// Switches of the whole simulation.
#[derive(Clone, Copy, Debug, PartialEq, Eq, Structural)]
pub struct ControlFlags {
    pub tick_world: bool,
    pub control_enabled: bool,
    pub interactions_disabled: bool,
    pub credits_running: bool,
}

impl ControlFlags {
    /// Every switch off.
    pub open spec fn empty_spec() -> ControlFlags {
        ControlFlags {
            tick_world: false,
            control_enabled: false,
            interactions_disabled: false,
            credits_running: false,
        }
    }

    #[verifier::when_used_as_spec(empty_spec)]
    pub fn empty() -> (r: ControlFlags)
        ensures
            r == ControlFlags::empty_spec(),
    {
        ControlFlags {
            tick_world: false,
            control_enabled: false,
            interactions_disabled: false,
            credits_running: false,
        }
    }
}

/// State of the screen fade; behaviours never read it.
#[derive(Clone, Copy, Debug, PartialEq, Eq, Structural)]
pub enum FadeState {
    Visible,
    Hidden,
}

} // verus!
