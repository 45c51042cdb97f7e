//! Deterministic per-entity simulation core of a 2D action game: fixed-point
//! kinematics, seeded random streams, the entity arena, the behaviour routines
//! of the actors and the player's control state machine.
//!
//! Every position and velocity is a signed 32-bit fixed-point scalar with nine
//! fractional bits. Sums, differences and scalings of such scalars, and
//! increments of the 16-bit state counters, are two's-complement (wrapping)
//! operations, so a tick is a total function of the state it starts from and
//! the inputs it is handed.

pub mod fix9;
pub mod common;
pub mod rng;
pub mod flags;
pub mod engine_constants;
pub mod settings;
pub mod caret;
pub mod sound;
pub mod text_script;
pub mod input;
pub mod player;
pub mod bullet;
pub mod stage;
pub mod npc;
pub mod shared_game_state;
pub mod scene;
pub mod game;
