//! Input as the simulation sees it.

pub mod player_controller;
