//! Tuning data of the simulation: the player's two physics tables, the
//! booster's thrust velocities and the display rectangles of every behaviour.
//! The simulation reads these and never writes them.

use vstd::prelude::*;
use crate::common::Rect;
use crate::player::ControlMode;

verus! {

/// Physics of one medium.
#[derive(Clone, Copy, Debug, PartialEq, Eq, Structural)]
pub struct PhysicsConsts {
    pub max_dash: i32,
    pub max_move: i32,
    pub gravity_ground: i32,
    pub gravity_air: i32,
    pub dash_ground: i32,
    pub dash_air: i32,
    pub resist: i32,
    pub jump: i32,
}

impl PhysicsConsts {
    pub open spec fn air_spec() -> PhysicsConsts {
        PhysicsConsts {
            max_dash: 0x32c,
            max_move: 0x5ff,
            gravity_ground: 0x50,
            gravity_air: 0x20,
            dash_ground: 0x55,
            dash_air: 0x20,
            resist: 0x33,
            jump: 0x500,
        }
    }

    pub open spec fn water_spec() -> PhysicsConsts {
        PhysicsConsts {
            max_dash: 0x196,
            max_move: 0x2ff,
            gravity_ground: 0x28,
            gravity_air: 0x10,
            dash_ground: 0x2a,
            dash_air: 0x10,
            resist: 0x19,
            jump: 0x280,
        }
    }

    /// The table of an entity moving through air.
    #[verifier::when_used_as_spec(air_spec)]
    pub fn air() -> (r: PhysicsConsts)
        ensures
            r == PhysicsConsts::air_spec(),
    {
        PhysicsConsts {
            max_dash: 0x32c,
            max_move: 0x5ff,
            gravity_ground: 0x50,
            gravity_air: 0x20,
            dash_ground: 0x55,
            dash_air: 0x20,
            resist: 0x33,
            jump: 0x500,
        }
    }

    /// The table of an entity moving through water: every constant halved.
    #[verifier::when_used_as_spec(water_spec)]
    pub fn water() -> (r: PhysicsConsts)
        ensures
            r == PhysicsConsts::water_spec(),
    {
        PhysicsConsts {
            max_dash: 0x196,
            max_move: 0x2ff,
            gravity_ground: 0x28,
            gravity_air: 0x10,
            dash_ground: 0x2a,
            dash_air: 0x10,
            resist: 0x19,
            jump: 0x280,
        }
    }
}

/// Fuel and thrust velocities of the booster.
#[derive(Clone, Copy, Debug, PartialEq, Eq, Structural)]
pub struct BoosterConsts {
    pub fuel: u32,
    pub b2_0_up: i32,
    pub b2_0_up_nokey: i32,
    pub b2_0_down: i32,
    pub b2_0_left: i32,
    pub b2_0_right: i32,
}

impl BoosterConsts {
    /// Fifty ticks of fuel, and the terminal speed in each direction.
    pub open spec fn standard_spec() -> BoosterConsts {
        BoosterConsts {
            fuel: 50,
            b2_0_up: (-0x5ff) as i32,
            b2_0_up_nokey: (-0x5ff) as i32,
            b2_0_down: 0x5ff,
            b2_0_left: (-0x5ff) as i32,
            b2_0_right: 0x5ff,
        }
    }

    #[verifier::when_used_as_spec(standard_spec)]
    pub fn standard() -> (r: BoosterConsts)
        ensures
            r == BoosterConsts::standard_spec(),
    {
        BoosterConsts {
            fuel: 50,
            b2_0_up: -0x5ff,
            b2_0_up_nokey: -0x5ff,
            b2_0_down: 0x5ff,
            b2_0_left: -0x5ff,
            b2_0_right: 0x5ff,
        }
    }
}

/// Constants of the player.
#[derive(Clone, Copy, Debug)]
pub struct MyCharConsts {
    pub display_bounds: Rect<usize>,
    pub hit_bounds: Rect<usize>,
    pub life: u16,
    pub max_life: u16,
    pub control_mode: ControlMode,
    pub air_physics: PhysicsConsts,
    pub water_physics: PhysicsConsts,
    pub animations_left: [Rect<u16>; 12],
    pub animations_right: [Rect<u16>; 12],
}

/// Display rectangles of the behaviours, one table per entity type, indexed
/// by animation frame and, where a type has two facings, by a facing offset.
#[derive(Clone, Copy, Debug)]
pub struct NPCConsts {
    pub n004_smoke: [Rect<u16>; 16],
    pub n013_forcefield: [Rect<u16>; 4],
    pub n014_key: [Rect<u16>; 3],
    pub n015_closed_chest: [Rect<u16>; 3],
    pub n016_save_point: [Rect<u16>; 8],
    pub n017_health_refill: [Rect<u16>; 2],
    pub n018_door: [Rect<u16>; 2],
    pub n020_computer: [Rect<u16>; 4],
    pub n021_chest_open: Rect<u16>,
    pub n022_teleporter: [Rect<u16>; 2],
    pub n023_teleporter_lights: [Rect<u16>; 8],
    pub n027_death_trap: Rect<u16>,
    pub n029_cthulhu: [Rect<u16>; 4],
    pub n030_hermit_gunsmith: [Rect<u16>; 3],
    pub n032_life_capsule: [Rect<u16>; 2],
    pub n034_bed: [Rect<u16>; 2],
    pub n037_sign: [Rect<u16>; 2],
    pub n038_fireplace: [Rect<u16>; 4],
    pub n039_save_sign: [Rect<u16>; 2],
    pub n041_busted_door: Rect<u16>,
    pub n043_chalkboard: [Rect<u16>; 2],
    pub n044_polish: [Rect<u16>; 6],
    pub n045_baby: [Rect<u16>; 3],
    pub n047_sandcroc: [Rect<u16>; 5],
    pub n052_sitting_blue_robot: Rect<u16>,
    pub n055_kazuma: [Rect<u16>; 12],
    pub n061_king: [Rect<u16>; 20],
    pub n062_kazuma_computer: [Rect<u16>; 3],
    pub n070_sparkle: [Rect<u16>; 4],
    pub n072_sprinkler: [Rect<u16>; 2],
    pub n073_water_droplet: [Rect<u16>; 5],
    pub n074_jack: [Rect<u16>; 12],
    pub n078_pot: [Rect<u16>; 2],
    pub n085_terminal: [Rect<u16>; 6],
    pub n096_fan_left: [Rect<u16>; 3],
    pub n097_fan_up: [Rect<u16>; 3],
    pub n098_fan_right: [Rect<u16>; 3],
    pub n099_fan_down: [Rect<u16>; 3],
    pub n105_hey_bubble_low: [Rect<u16>; 2],
    pub n114_press: [Rect<u16>; 3],
    pub n116_red_petals: Rect<u16>,
    pub n117_curly: [Rect<u16>; 20],
    pub n118_curly_boss: [Rect<u16>; 18],
    pub n119_table_chair: Rect<u16>,
    pub n120_colon_a: [Rect<u16>; 2],
    pub n121_colon_b: [Rect<u16>; 3],
    pub n122_colon_enraged: [Rect<u16>; 20],
    pub n123_curly_boss_bullet: [Rect<u16>; 4],
    pub n124_sunstone: [Rect<u16>; 2],
    pub n125_hidden_item: [Rect<u16>; 2],
    pub n149_horizontal_moving_block: Rect<u16>,
    pub n151_blue_robot_standing: [Rect<u16>; 4],
    pub n194_broken_blue_robot: Rect<u16>,
    pub n199_wind_particles: [Rect<u16>; 5],
    pub n211_small_spikes: [Rect<u16>; 4],
    pub n234_red_flowers_picked: [Rect<u16>; 2],
    pub n278_little_family: [Rect<u16>; 6],
}

/// All tuning data.
#[derive(Clone, Copy, Debug)]
pub struct EngineConstants {
    pub is_cs_plus: bool,
    pub is_switch: bool,
    pub supports_og_textures: bool,
    pub my_char: MyCharConsts,
    pub booster: BoosterConsts,
    pub npc: NPCConsts,
}


impl NPCConsts {
    /// Whether every frame of every table is `rect`.
    pub open spec fn all_frames_are(npc: NPCConsts, rect: Rect<u16>) -> bool {
        &&& npc.n004_smoke@ == Seq::new(16, |i: int| rect)
        &&& npc.n013_forcefield@ == Seq::new(4, |i: int| rect)
        &&& npc.n014_key@ == Seq::new(3, |i: int| rect)
        &&& npc.n015_closed_chest@ == Seq::new(3, |i: int| rect)
        &&& npc.n016_save_point@ == Seq::new(8, |i: int| rect)
        &&& npc.n017_health_refill@ == Seq::new(2, |i: int| rect)
        &&& npc.n018_door@ == Seq::new(2, |i: int| rect)
        &&& npc.n020_computer@ == Seq::new(4, |i: int| rect)
        &&& npc.n021_chest_open == rect
        &&& npc.n022_teleporter@ == Seq::new(2, |i: int| rect)
        &&& npc.n023_teleporter_lights@ == Seq::new(8, |i: int| rect)
        &&& npc.n027_death_trap == rect
        &&& npc.n029_cthulhu@ == Seq::new(4, |i: int| rect)
        &&& npc.n030_hermit_gunsmith@ == Seq::new(3, |i: int| rect)
        &&& npc.n032_life_capsule@ == Seq::new(2, |i: int| rect)
        &&& npc.n034_bed@ == Seq::new(2, |i: int| rect)
        &&& npc.n037_sign@ == Seq::new(2, |i: int| rect)
        &&& npc.n038_fireplace@ == Seq::new(4, |i: int| rect)
        &&& npc.n039_save_sign@ == Seq::new(2, |i: int| rect)
        &&& npc.n041_busted_door == rect
        &&& npc.n043_chalkboard@ == Seq::new(2, |i: int| rect)
        &&& npc.n044_polish@ == Seq::new(6, |i: int| rect)
        &&& npc.n045_baby@ == Seq::new(3, |i: int| rect)
        &&& npc.n047_sandcroc@ == Seq::new(5, |i: int| rect)
        &&& npc.n052_sitting_blue_robot == rect
        &&& npc.n055_kazuma@ == Seq::new(12, |i: int| rect)
        &&& npc.n061_king@ == Seq::new(20, |i: int| rect)
        &&& npc.n062_kazuma_computer@ == Seq::new(3, |i: int| rect)
        &&& npc.n070_sparkle@ == Seq::new(4, |i: int| rect)
        &&& npc.n072_sprinkler@ == Seq::new(2, |i: int| rect)
        &&& npc.n073_water_droplet@ == Seq::new(5, |i: int| rect)
        &&& npc.n074_jack@ == Seq::new(12, |i: int| rect)
        &&& npc.n078_pot@ == Seq::new(2, |i: int| rect)
        &&& npc.n085_terminal@ == Seq::new(6, |i: int| rect)
        &&& npc.n096_fan_left@ == Seq::new(3, |i: int| rect)
        &&& npc.n097_fan_up@ == Seq::new(3, |i: int| rect)
        &&& npc.n098_fan_right@ == Seq::new(3, |i: int| rect)
        &&& npc.n099_fan_down@ == Seq::new(3, |i: int| rect)
        &&& npc.n105_hey_bubble_low@ == Seq::new(2, |i: int| rect)
        &&& npc.n114_press@ == Seq::new(3, |i: int| rect)
        &&& npc.n116_red_petals == rect
        &&& npc.n117_curly@ == Seq::new(20, |i: int| rect)
        &&& npc.n118_curly_boss@ == Seq::new(18, |i: int| rect)
        &&& npc.n119_table_chair == rect
        &&& npc.n120_colon_a@ == Seq::new(2, |i: int| rect)
        &&& npc.n121_colon_b@ == Seq::new(3, |i: int| rect)
        &&& npc.n122_colon_enraged@ == Seq::new(20, |i: int| rect)
        &&& npc.n123_curly_boss_bullet@ == Seq::new(4, |i: int| rect)
        &&& npc.n124_sunstone@ == Seq::new(2, |i: int| rect)
        &&& npc.n125_hidden_item@ == Seq::new(2, |i: int| rect)
        &&& npc.n149_horizontal_moving_block == rect
        &&& npc.n151_blue_robot_standing@ == Seq::new(4, |i: int| rect)
        &&& npc.n194_broken_blue_robot == rect
        &&& npc.n199_wind_particles@ == Seq::new(5, |i: int| rect)
        &&& npc.n211_small_spikes@ == Seq::new(4, |i: int| rect)
        &&& npc.n234_red_flowers_picked@ == Seq::new(2, |i: int| rect)
        &&& npc.n278_little_family@ == Seq::new(6, |i: int| rect)
    }

    /// Tables in which every frame is `rect`.
    pub fn filled(rect: Rect<u16>) -> (r: NPCConsts)
        ensures
            NPCConsts::all_frames_are(r, rect),
    {
        let r = NPCConsts {
            n004_smoke: [rect; 16],
            n013_forcefield: [rect; 4],
            n014_key: [rect; 3],
            n015_closed_chest: [rect; 3],
            n016_save_point: [rect; 8],
            n017_health_refill: [rect; 2],
            n018_door: [rect; 2],
            n020_computer: [rect; 4],
            n021_chest_open: rect,
            n022_teleporter: [rect; 2],
            n023_teleporter_lights: [rect; 8],
            n027_death_trap: rect,
            n029_cthulhu: [rect; 4],
            n030_hermit_gunsmith: [rect; 3],
            n032_life_capsule: [rect; 2],
            n034_bed: [rect; 2],
            n037_sign: [rect; 2],
            n038_fireplace: [rect; 4],
            n039_save_sign: [rect; 2],
            n041_busted_door: rect,
            n043_chalkboard: [rect; 2],
            n044_polish: [rect; 6],
            n045_baby: [rect; 3],
            n047_sandcroc: [rect; 5],
            n052_sitting_blue_robot: rect,
            n055_kazuma: [rect; 12],
            n061_king: [rect; 20],
            n062_kazuma_computer: [rect; 3],
            n070_sparkle: [rect; 4],
            n072_sprinkler: [rect; 2],
            n073_water_droplet: [rect; 5],
            n074_jack: [rect; 12],
            n078_pot: [rect; 2],
            n085_terminal: [rect; 6],
            n096_fan_left: [rect; 3],
            n097_fan_up: [rect; 3],
            n098_fan_right: [rect; 3],
            n099_fan_down: [rect; 3],
            n105_hey_bubble_low: [rect; 2],
            n114_press: [rect; 3],
            n116_red_petals: rect,
            n117_curly: [rect; 20],
            n118_curly_boss: [rect; 18],
            n119_table_chair: rect,
            n120_colon_a: [rect; 2],
            n121_colon_b: [rect; 3],
            n122_colon_enraged: [rect; 20],
            n123_curly_boss_bullet: [rect; 4],
            n124_sunstone: [rect; 2],
            n125_hidden_item: [rect; 2],
            n149_horizontal_moving_block: rect,
            n151_blue_robot_standing: [rect; 4],
            n194_broken_blue_robot: rect,
            n199_wind_particles: [rect; 5],
            n211_small_spikes: [rect; 4],
            n234_red_flowers_picked: [rect; 2],
            n278_little_family: [rect; 6],
        };
        proof {
            assert(r.n004_smoke@ =~= Seq::new(16, |i: int| rect));
            assert(r.n013_forcefield@ =~= Seq::new(4, |i: int| rect));
            assert(r.n014_key@ =~= Seq::new(3, |i: int| rect));
            assert(r.n015_closed_chest@ =~= Seq::new(3, |i: int| rect));
            assert(r.n016_save_point@ =~= Seq::new(8, |i: int| rect));
            assert(r.n017_health_refill@ =~= Seq::new(2, |i: int| rect));
            assert(r.n018_door@ =~= Seq::new(2, |i: int| rect));
            assert(r.n020_computer@ =~= Seq::new(4, |i: int| rect));
            assert(r.n022_teleporter@ =~= Seq::new(2, |i: int| rect));
            assert(r.n023_teleporter_lights@ =~= Seq::new(8, |i: int| rect));
            assert(r.n029_cthulhu@ =~= Seq::new(4, |i: int| rect));
            assert(r.n030_hermit_gunsmith@ =~= Seq::new(3, |i: int| rect));
            assert(r.n032_life_capsule@ =~= Seq::new(2, |i: int| rect));
            assert(r.n034_bed@ =~= Seq::new(2, |i: int| rect));
            assert(r.n037_sign@ =~= Seq::new(2, |i: int| rect));
            assert(r.n038_fireplace@ =~= Seq::new(4, |i: int| rect));
            assert(r.n039_save_sign@ =~= Seq::new(2, |i: int| rect));
            assert(r.n043_chalkboard@ =~= Seq::new(2, |i: int| rect));
            assert(r.n044_polish@ =~= Seq::new(6, |i: int| rect));
            assert(r.n045_baby@ =~= Seq::new(3, |i: int| rect));
            assert(r.n047_sandcroc@ =~= Seq::new(5, |i: int| rect));
            assert(r.n055_kazuma@ =~= Seq::new(12, |i: int| rect));
            assert(r.n061_king@ =~= Seq::new(20, |i: int| rect));
            assert(r.n062_kazuma_computer@ =~= Seq::new(3, |i: int| rect));
            assert(r.n070_sparkle@ =~= Seq::new(4, |i: int| rect));
            assert(r.n072_sprinkler@ =~= Seq::new(2, |i: int| rect));
            assert(r.n073_water_droplet@ =~= Seq::new(5, |i: int| rect));
            assert(r.n074_jack@ =~= Seq::new(12, |i: int| rect));
            assert(r.n078_pot@ =~= Seq::new(2, |i: int| rect));
            assert(r.n085_terminal@ =~= Seq::new(6, |i: int| rect));
            assert(r.n096_fan_left@ =~= Seq::new(3, |i: int| rect));
            assert(r.n097_fan_up@ =~= Seq::new(3, |i: int| rect));
            assert(r.n098_fan_right@ =~= Seq::new(3, |i: int| rect));
            assert(r.n099_fan_down@ =~= Seq::new(3, |i: int| rect));
            assert(r.n105_hey_bubble_low@ =~= Seq::new(2, |i: int| rect));
            assert(r.n114_press@ =~= Seq::new(3, |i: int| rect));
            assert(r.n117_curly@ =~= Seq::new(20, |i: int| rect));
            assert(r.n118_curly_boss@ =~= Seq::new(18, |i: int| rect));
            assert(r.n120_colon_a@ =~= Seq::new(2, |i: int| rect));
            assert(r.n121_colon_b@ =~= Seq::new(3, |i: int| rect));
            assert(r.n122_colon_enraged@ =~= Seq::new(20, |i: int| rect));
            assert(r.n123_curly_boss_bullet@ =~= Seq::new(4, |i: int| rect));
            assert(r.n124_sunstone@ =~= Seq::new(2, |i: int| rect));
            assert(r.n125_hidden_item@ =~= Seq::new(2, |i: int| rect));
            assert(r.n151_blue_robot_standing@ =~= Seq::new(4, |i: int| rect));
            assert(r.n199_wind_particles@ =~= Seq::new(5, |i: int| rect));
            assert(r.n211_small_spikes@ =~= Seq::new(4, |i: int| rect));
            assert(r.n234_red_flowers_picked@ =~= Seq::new(2, |i: int| rect));
            assert(r.n278_little_family@ =~= Seq::new(6, |i: int| rect));
        }
        r
    }
}

impl MyCharConsts {
    /// The player's constants, with every frame `rect`.
    pub fn standard(rect: Rect<u16>) -> (r: MyCharConsts)
        ensures
            r.life == 3,
            r.max_life == 3,
            r.control_mode == ControlMode::Normal,
            r.display_bounds == (Rect {
                left: 0x1000usize,
                top: 0x1000usize,
                right: 0x1000usize,
                bottom: 0x1000usize,
            }),
            r.hit_bounds == (Rect {
                left: 0xa00usize,
                top: 0x1000usize,
                right: 0xa00usize,
                bottom: 0x1000usize,
            }),
            r.air_physics == PhysicsConsts::air_spec(),
            r.water_physics == PhysicsConsts::water_spec(),
            r.animations_left@ == Seq::new(12, |i: int| rect),
            r.animations_right@ == Seq::new(12, |i: int| rect),
    {
        MyCharConsts {
            display_bounds: Rect { left: 0x1000, top: 0x1000, right: 0x1000, bottom: 0x1000 },
            hit_bounds: Rect { left: 0xa00, top: 0x1000, right: 0xa00, bottom: 0x1000 },
            life: 3,
            max_life: 3,
            control_mode: ControlMode::Normal,
            air_physics: PhysicsConsts::air(),
            water_physics: PhysicsConsts::water(),
            animations_left: [rect; 12],
            animations_right: [rect; 12],
        }
    }
}

impl EngineConstants {
    /// The standard tuning data with every frame of every table `rect`: the
    /// frames belong to the artwork and are filled in by whoever loads it.
    pub fn with_frames(rect: Rect<u16>) -> (r: EngineConstants)
        ensures
            !r.is_cs_plus && !r.is_switch && !r.supports_og_textures,
            r.booster == BoosterConsts::standard_spec(),
            r.my_char.life == 3 && r.my_char.max_life == 3,
            r.my_char.control_mode == ControlMode::Normal,
            r.my_char.air_physics == PhysicsConsts::air_spec(),
            r.my_char.water_physics == PhysicsConsts::water_spec(),
            r.my_char.animations_left@ == Seq::new(12, |i: int| rect),
            r.my_char.animations_right@ == Seq::new(12, |i: int| rect),
            NPCConsts::all_frames_are(r.npc, rect),
            0 <= r.my_char.air_physics.max_move,
            0 <= r.my_char.water_physics.max_move,
    {
        EngineConstants {
            is_cs_plus: false,
            is_switch: false,
            supports_og_textures: false,
            my_char: MyCharConsts::standard(rect),
            booster: BoosterConsts::standard(),
            npc: NPCConsts::filled(rect),
        }
    }
}

} // verus!
