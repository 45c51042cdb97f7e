//! One tick's answers of a player's input device. For each control the
//! simulation asks two things: is it held, and did it become held this tick.

use vstd::prelude::*;

verus! {

#[derive(Clone, Copy, Debug, PartialEq, Eq, Structural)]
pub struct PlayerController {
    pub move_up: bool,
    pub move_left: bool,
    pub move_down: bool,
    pub move_right: bool,
    pub jump: bool,
    pub shoot: bool,
    pub look_up: bool,
    pub look_left: bool,
    pub look_down: bool,
    pub look_right: bool,
    pub trigger_up: bool,
    pub trigger_left: bool,
    pub trigger_down: bool,
    pub trigger_right: bool,
    pub trigger_jump: bool,
    pub trigger_shoot: bool,
}

impl PlayerController {
    /// A device on which nothing is held.
    pub open spec fn idle_spec() -> PlayerController {
        PlayerController {
            move_up: false,
            move_left: false,
            move_down: false,
            move_right: false,
            jump: false,
            shoot: false,
            look_up: false,
            look_left: false,
            look_down: false,
            look_right: false,
            trigger_up: false,
            trigger_left: false,
            trigger_down: false,
            trigger_right: false,
            trigger_jump: false,
            trigger_shoot: false,
        }
    }

    #[verifier::when_used_as_spec(idle_spec)]
    pub fn idle() -> (r: PlayerController)
        ensures
            r == PlayerController::idle_spec(),
    {
        PlayerController {
            move_up: false,
            move_left: false,
            move_down: false,
            move_right: false,
            jump: false,
            shoot: false,
            look_up: false,
            look_left: false,
            look_down: false,
            look_right: false,
            trigger_up: false,
            trigger_left: false,
            trigger_down: false,
            trigger_right: false,
            trigger_jump: false,
            trigger_shoot: false,
        }
    }

    /// Down is held and no other direction is.
    pub open spec fn only_down_spec(&self) -> bool {
        self.move_down && !self.move_up && !self.move_left && !self.move_right
    }

    #[verifier::when_used_as_spec(only_down_spec)]
    pub fn only_down(&self) -> (r: bool)
        ensures
            r == self.only_down_spec(),
    {
        self.move_down && !self.move_up && !self.move_left && !self.move_right
    }

    /// Down became held this tick and no other direction did.
    pub open spec fn trigger_only_down_spec(&self) -> bool {
        self.trigger_down && !self.trigger_up && !self.trigger_left && !self.trigger_right
    }

    #[verifier::when_used_as_spec(trigger_only_down_spec)]
    pub fn trigger_only_down(&self) -> (r: bool)
        ensures
            r == self.trigger_only_down_spec(),
    {
        self.trigger_down && !self.trigger_up && !self.trigger_left && !self.trigger_right
    }
}

} // verus!
