//! Settings that the simulation consults.

use vstd::prelude::*;

verus! {

#[derive(Clone, Copy, Debug, PartialEq, Eq, Structural)]
pub struct Settings {
    pub god_mode: bool,
    pub infinite_booster: bool,
    pub noclip: bool,
    pub music: bool,
    pub sfx: bool,
    pub shader_effects: bool,
    pub original_textures: bool,
    pub seasonal_textures: bool,
}

} // verus!
