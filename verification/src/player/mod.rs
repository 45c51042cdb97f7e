//! The player: an entity record with equipment, two physics tables, a booster
//! and input, advanced by a control state machine.

use vstd::prelude::*;
use crate::common::{Condition, Direction, Equipment, Flag, Rect};
use crate::engine_constants::EngineConstants;
use crate::input::player_controller::PlayerController;

pub mod animation;
pub mod damage;
pub mod laws;
pub mod normal;
pub mod tick;

verus! {

/// How the player is steered.
#[derive(Clone, Copy, Debug, PartialEq, Eq, Structural)]
pub enum ControlMode {
    Normal,
    IronHead,
}

/// Which character the player is drawn as.
#[derive(Clone, Copy, Debug, PartialEq, Eq, Structural)]
pub enum PlayerAppearance {
    Quote,
    YellowQuote,
    HumanQuote,
    HalloweenQuote,
    ReindeerQuote,
    Curly,
}

impl PlayerAppearance {
    /// Position of the appearance in the sprite sheet.
    pub open spec fn index_spec(self) -> u16 {
        match self {
            PlayerAppearance::Quote => 0,
            PlayerAppearance::YellowQuote => 1,
            PlayerAppearance::HumanQuote => 2,
            PlayerAppearance::HalloweenQuote => 3,
            PlayerAppearance::ReindeerQuote => 4,
            PlayerAppearance::Curly => 5,
        }
    }

    #[verifier::when_used_as_spec(index_spec)]
    pub fn index(self) -> (r: u16)
        ensures
            r == self.index_spec(),
            r <= 5,
    {
        match self {
            PlayerAppearance::Quote => 0,
            PlayerAppearance::YellowQuote => 1,
            PlayerAppearance::HumanQuote => 2,
            PlayerAppearance::HalloweenQuote => 3,
            PlayerAppearance::ReindeerQuote => 4,
            PlayerAppearance::Curly => 5,
        }
    }
}

/// One of the two player slots.
#[derive(Clone, Copy, Debug, PartialEq, Eq, Structural)]
pub enum TargetPlayer {
    Player1,
    Player2,
}

impl TargetPlayer {
    pub open spec fn index_spec(self) -> usize {
        match self {
            TargetPlayer::Player1 => 0,
            TargetPlayer::Player2 => 1,
        }
    }

    /// The slot's position among the players.
    #[verifier::when_used_as_spec(index_spec)]
    pub fn index(self) -> (r: usize)
        ensures
            r == self.index_spec(),
            r < 2,
    {
        match self {
            TargetPlayer::Player1 => 0,
            TargetPlayer::Player2 => 1,
        }
    }
}

/// Booster sub-mode: no thrust.
pub const BOOSTER_OFF: u8 = 0;

/// Booster sub-mode: thrust to the side the player faces (left or right).
pub const BOOSTER_SIDE: u8 = 1;

/// Booster sub-mode: thrust upward.
pub const BOOSTER_UP: u8 = 2;

/// Booster sub-mode: thrust downward.
pub const BOOSTER_DOWN: u8 = 3;

#[derive(Clone, Copy, Debug)]
pub struct Player {
    pub x: i32,
    pub y: i32,
    pub vel_x: i32,
    pub vel_y: i32,
    pub target_x: i32,
    pub target_y: i32,
    pub prev_x: i32,
    pub prev_y: i32,
    pub life: u16,
    pub max_life: u16,
    pub cond: Condition,
    pub flags: Flag,
    pub equip: Equipment,
    pub direction: Direction,
    pub display_bounds: Rect<usize>,
    pub hit_bounds: Rect<usize>,
    pub control_mode: ControlMode,
    pub question: bool,
    pub booster_fuel: u32,
    pub up: bool,
    pub down: bool,
    pub shock_counter: u8,
    pub current_weapon: u8,
    pub stars: u8,
    pub damage: u16,
    pub air_counter: u16,
    pub air: u16,
    pub appearance: PlayerAppearance,
    pub controller: PlayerController,
    pub weapon_offset_y: i8,
    pub index_x: i32,
    pub index_y: i32,
    pub splash: bool,
    pub booster_switch: u8,
    pub bubble: u8,
    pub damage_counter: u16,
    pub damage_taken: i16,
    pub anim_num: u16,
    pub anim_counter: u16,
    pub anim_rect: Rect<u16>,
    pub weapon_rect: Rect<u16>,
}

impl Player {
    /// The player that a new game starts with.
    pub open spec fn new_spec(constants: EngineConstants) -> Player {
        Player {
            x: 0,
            y: 0,
            vel_x: 0,
            vel_y: 0,
            target_x: 0,
            target_y: 0,
            prev_x: 0,
            prev_y: 0,
            life: constants.my_char.life,
            max_life: constants.my_char.max_life,
            cond: Condition::empty(),
            flags: Flag::empty(),
            equip: Equipment::empty(),
            direction: Direction::Right,
            display_bounds: constants.my_char.display_bounds,
            hit_bounds: constants.my_char.hit_bounds,
            control_mode: constants.my_char.control_mode,
            question: false,
            booster_fuel: 0,
            up: false,
            down: false,
            shock_counter: 0,
            current_weapon: 0,
            stars: 0,
            damage: 0,
            air_counter: 0,
            air: 0,
            appearance: PlayerAppearance::Quote,
            controller: PlayerController::idle(),
            weapon_offset_y: 0,
            index_x: 0,
            index_y: 0,
            splash: false,
            booster_switch: 0,
            bubble: 0,
            damage_counter: 0,
            damage_taken: 0,
            anim_num: 0,
            anim_counter: 0,
            anim_rect: constants.my_char.animations_right[0],
            weapon_rect: Rect { left: 0, top: 0, right: 0, bottom: 0 },
        }
    }

    pub fn new(constants: &EngineConstants) -> (r: Player)
        ensures
            r == Player::new_spec(*constants),
    {
        Player {
            x: 0,
            y: 0,
            vel_x: 0,
            vel_y: 0,
            target_x: 0,
            target_y: 0,
            prev_x: 0,
            prev_y: 0,
            life: constants.my_char.life,
            max_life: constants.my_char.max_life,
            cond: Condition::empty(),
            flags: Flag::empty(),
            equip: Equipment::empty(),
            direction: Direction::Right,
            display_bounds: constants.my_char.display_bounds,
            hit_bounds: constants.my_char.hit_bounds,
            control_mode: constants.my_char.control_mode,
            question: false,
            booster_fuel: 0,
            up: false,
            down: false,
            shock_counter: 0,
            current_weapon: 0,
            stars: 0,
            damage: 0,
            air_counter: 0,
            air: 0,
            appearance: PlayerAppearance::Quote,
            controller: PlayerController::idle(),
            weapon_offset_y: 0,
            index_x: 0,
            index_y: 0,
            splash: false,
            booster_switch: 0,
            bubble: 0,
            damage_counter: 0,
            damage_taken: 0,
            anim_num: 0,
            anim_counter: 0,
            anim_rect: constants.my_char.animations_right[0],
            weapon_rect: Rect::new(0, 0, 0, 0),
        }
    }

    /// Whether the player is to be drawn: alive, not hidden, and not in the
    /// dark phase of the flicker that the hit-stun shows.
    pub open spec fn visible_spec(&self) -> bool {
        self.cond.alive && !self.cond.hidden && (self.shock_counter / 2) % 2 == 0
    }

    #[verifier::when_used_as_spec(visible_spec)]
    pub fn visible(&self) -> (r: bool)
        ensures
            r == self.visible_spec(),
    {
        self.cond.alive && !self.cond.hidden && (self.shock_counter / 2) % 2 == 0
    }

    /// Vertical offset of the player's rows in the sprite sheet.
    pub open spec fn texture_offset(&self) -> u16 {
        (self.appearance.index() * 64 + if self.equip.has_mimiga_mask {
            32int
        } else {
            0int
        }) as u16
    }

    #[verifier::when_used_as_spec(texture_offset)]
    pub fn get_texture_offset(&self) -> (r: u16)
        ensures
            r == self.texture_offset(),
            r <= 352,
            r % 32 == 0,
    {
        (self.appearance.index() % 6) * 64 + if self.equip.has_mimiga_mask {
            32
        } else {
            0
        }
    }
}

} // verus!
