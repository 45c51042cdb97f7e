//! Scenes outside the running game.

pub mod title_scene;
