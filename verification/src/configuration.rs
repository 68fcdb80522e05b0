//! Process-wide tuning values, read-only during a simulation tick.
//!
//! All scalars are fixed-point (see [`crate::fixed::SCALE`]): a stored
//! `1_500_000` stands for `1.5`. Each struct carries a `valid` predicate
//! giving the ranges under which every tick computation is proved exact
//! and overflow-free; [`Configuration::new`] establishes it.

use vstd::prelude::*;

use crate::fixed::{COORD_MAX, SCALE};
use crate::vec3::Vec2;

verus! {

/// Smallest admissible top speed (fixed-point units per second).
pub const MAX_SPEED_MIN: i64 = 1_000;

/// Largest admissible top speed (fixed-point units per second).
pub const MAX_SPEED_MAX: i64 = 10_000_000_000;

/// Largest admissible behaviour scale (a fixed-point `1000.0`).
pub const SCALE_PARAM_MAX: i64 = 1_000_000_000;

/// Largest admissible flee speed ceiling (a fixed-point `100.0`).
pub const SPEED_FRACTION_MAX: i64 = 100_000_000;

/// Largest admissible interaction distance.
pub const DISTANCE_MAX: i64 = COORD_MAX;

/// Which tuning set an actor reads.
#[derive(Clone, Copy, Debug, PartialEq, Eq, Structural)]
pub enum ConfigurationSetId {
    Player,
    Sheep,
    FenceHorizontal,
    FenceVertical,
    Grass,
}

/// Per-role tuning: the role's top speed.
#[derive(Clone, Copy, Debug, PartialEq, Eq, Structural)]
pub struct ConfigurationSet {
    pub max_speed: i64,
}

impl ConfigurationSet {
    pub open spec fn valid(self) -> bool {
        MAX_SPEED_MIN <= self.max_speed <= MAX_SPEED_MAX
    }
}

/// Tuning for the alignment / cohesion / separation triad.
#[derive(Clone, Copy, Debug, PartialEq, Eq, Structural)]
pub struct FlockingConfiguration {
    pub alignment_enabled: bool,
    pub alignment_distance: i64,
    pub alignment_scale: i64,
    pub alignment_distance_cap_fraction: i64,
    pub cohesion_enabled: bool,
    pub cohesion_velocity_scale: bool,
    pub cohesion_distance: i64,
    pub cohesion_scale: i64,
    pub separation_enabled: bool,
    pub separation_distance: i64,
    pub separation_scale: i64,
}

impl FlockingConfiguration {
    pub open spec fn valid(self) -> bool {
        &&& 1 <= self.alignment_distance <= DISTANCE_MAX
        &&& 0 <= self.alignment_scale <= SCALE_PARAM_MAX
        &&& 0 <= self.alignment_distance_cap_fraction <= SCALE
        &&& 1 <= self.cohesion_distance <= DISTANCE_MAX
        &&& 0 <= self.cohesion_scale <= SCALE_PARAM_MAX
        &&& 1 <= self.separation_distance <= DISTANCE_MAX
        &&& 0 <= self.separation_scale <= SCALE_PARAM_MAX
    }
}

/// Tuning for the flee-from-threat behaviour.
#[derive(Clone, Copy, Debug, PartialEq, Eq, Structural)]
pub struct RunnerConfiguration {
    pub scale: i64,
    pub speed_fraction: i64,
    pub scare_distance: i64,
}

impl RunnerConfiguration {
    pub open spec fn valid(self) -> bool {
        &&& 0 <= self.scale <= SCALE_PARAM_MAX
        &&& 0 <= self.speed_fraction <= SPEED_FRACTION_MAX
        &&& 1 <= self.scare_distance <= DISTANCE_MAX
    }
}

/// Which influence a diagnostic overlay line shows.
#[derive(Clone, Copy, Debug, PartialEq, Eq, Structural)]
pub enum DebugLineType {
    NoLine,
    AlignmentInfluence,
    CohesionInfluence,
    SeparationInfluence,
    RunnerInfluence,
    RunnerUnmodifiedInfluence,
    RunnerMaxInfluence,
    GrazingInfluence,
    InertiaInfluence,
    TotalInfluence,
    MaxInfluence,
}

/// The four diagnostic overlay slots.
#[derive(Clone, Copy, Debug, PartialEq, Eq, Structural)]
pub struct DebugLineConfiguration {
    pub enable: bool,
    pub red: DebugLineType,
    pub green: DebugLineType,
    pub blue: DebugLineType,
    pub gray: DebugLineType,
}

/// One clip: a frame interval (fixed-point seconds) and an index range.
#[derive(Clone, Copy, Debug, PartialEq, Eq, Structural)]
pub struct SingleAnimation {
    pub animation_interval: i64,
    pub first_index: usize,
    pub last_index: usize,
}

impl SingleAnimation {
    pub open spec fn valid(self) -> bool {
        0 <= self.animation_interval <= 1_000 * SCALE
    }
}

#[derive(Clone, Copy, Debug, PartialEq, Eq, Structural)]
pub enum AnimationClass {
    Simple { simple: SingleAnimation },
    Actor {
        idle: SingleAnimation,
        running: SingleAnimation,
        run_threshold_fraction: i64,
        flip_threshold_fraction: i64,
    },
}

impl AnimationClass {
    pub open spec fn valid(self) -> bool {
        match self {
            AnimationClass::Simple { simple } => simple.valid(),
            AnimationClass::Actor {
                idle,
                running,
                run_threshold_fraction,
                flip_threshold_fraction,
            } => {
                idle.valid() && running.valid() && 0 <= run_threshold_fraction <= SCALE && 0
                    <= flip_threshold_fraction <= SCALE
            },
        }
    }
}

/// One sprite sheet: atlas layout plus the clips played from it.
#[derive(Clone, Debug)]
pub struct AnimationSheet {
    pub sprite_sheet: String,
    pub atlas_tile_columns: usize,
    pub atlas_tile_rows: usize,
    pub texture_size: Vec2,
    pub snappy_animations: bool,
    pub animation_class: AnimationClass,
}

/// Largest number of atlas tiles along one axis.
pub const ATLAS_AXIS_MAX: usize = 10_000;

impl AnimationSheet {
    pub open spec fn valid(self) -> bool {
        1 <= self.atlas_tile_columns <= ATLAS_AXIS_MAX && 1 <= self.atlas_tile_rows
            <= ATLAS_AXIS_MAX && self.animation_class.valid()
    }
}

/// The sprite sheets, one per visual kind.
#[derive(Clone, Debug)]
pub struct AnimationConfiguration {
    pub player: AnimationSheet,
    pub sheep: AnimationSheet,
    pub fence_horizontal: AnimationSheet,
    pub fence_vertical: AnimationSheet,
    pub grass: AnimationSheet,
}

impl AnimationConfiguration {
    pub open spec fn valid(self) -> bool {
        self.player.valid() && self.sheep.valid() && self.fence_horizontal.valid()
            && self.fence_vertical.valid() && self.grass.valid()
    }

    pub fn new() -> (r: AnimationConfiguration)
        ensures
            r.valid(),
            r.player.atlas_tile_columns == 4 && r.player.atlas_tile_rows == 4,
            r.player.snappy_animations == true,
            r.sheep.atlas_tile_columns == 6 && r.sheep.atlas_tile_rows == 3,
            r.sheep.snappy_animations == false,
            r.fence_horizontal.atlas_tile_columns == 1 && r.fence_horizontal.atlas_tile_rows == 1,
            r.fence_vertical.atlas_tile_columns == 1 && r.fence_vertical.atlas_tile_rows == 1,
            r.grass.atlas_tile_columns == 4 && r.grass.atlas_tile_rows == 4,
    {
        AnimationConfiguration {
            player: AnimationSheet {
                sprite_sheet: "collie_sheet.png".to_string(),
                atlas_tile_columns: 4,
                atlas_tile_rows: 4,
                texture_size: Vec2 { x: 20 * SCALE, y: 16 * SCALE },
                snappy_animations: true,
                animation_class: AnimationClass::Actor {
                    run_threshold_fraction: 300_000,
                    flip_threshold_fraction: 100_000,
                    idle: SingleAnimation {
                        animation_interval: 300_000,
                        first_index: 0,
                        last_index: 2,
                    },
                    running: SingleAnimation {
                        animation_interval: 150_000,
                        first_index: 4,
                        last_index: 5,
                    },
                },
            },
            sheep: AnimationSheet {
                sprite_sheet: "sheep_sheet.png".to_string(),
                atlas_tile_columns: 6,
                atlas_tile_rows: 3,
                texture_size: Vec2 { x: 16 * SCALE, y: 16 * SCALE },
                snappy_animations: false,
                animation_class: AnimationClass::Actor {
                    run_threshold_fraction: 300_000,
                    flip_threshold_fraction: 200_000,
                    idle: SingleAnimation {
                        animation_interval: 300_000,
                        first_index: 0,
                        last_index: 2,
                    },
                    running: SingleAnimation {
                        animation_interval: 150_000,
                        first_index: 7,
                        last_index: 10,
                    },
                },
            },
            fence_horizontal: AnimationSheet {
                sprite_sheet: "fence_horizontal.png".to_string(),
                atlas_tile_columns: 1,
                atlas_tile_rows: 1,
                texture_size: Vec2 { x: 19 * SCALE, y: 8 * SCALE },
                snappy_animations: false,
                animation_class: AnimationClass::Simple {
                    simple: SingleAnimation {
                        animation_interval: SCALE,
                        first_index: 0,
                        last_index: 0,
                    },
                },
            },
            fence_vertical: AnimationSheet {
                sprite_sheet: "fence_vertical.png".to_string(),
                atlas_tile_columns: 1,
                atlas_tile_rows: 1,
                texture_size: Vec2 { x: 2 * SCALE, y: 26 * SCALE },
                snappy_animations: false,
                animation_class: AnimationClass::Simple {
                    simple: SingleAnimation {
                        animation_interval: SCALE,
                        first_index: 0,
                        last_index: 0,
                    },
                },
            },
            grass: AnimationSheet {
                sprite_sheet: "spritesheet.png".to_string(),
                atlas_tile_columns: 4,
                atlas_tile_rows: 4,
                texture_size: Vec2 { x: 16 * SCALE, y: 16 * SCALE },
                snappy_animations: false,
                animation_class: AnimationClass::Simple {
                    simple: SingleAnimation {
                        animation_interval: 700_000,
                        first_index: 8,
                        last_index: 8,
                    },
                },
            },
        }
    }

    /// The sheet a tuning-set id selects.
    pub open spec fn set_spec(self, id: ConfigurationSetId) -> AnimationSheet {
        match id {
            ConfigurationSetId::Player => self.player,
            ConfigurationSetId::Sheep => self.sheep,
            ConfigurationSetId::Grass => self.grass,
            ConfigurationSetId::FenceHorizontal => self.fence_horizontal,
            ConfigurationSetId::FenceVertical => self.fence_vertical,
        }
    }

    pub fn get_set(&self, id: &ConfigurationSetId) -> (r: &AnimationSheet)
        ensures
            *r == self.set_spec(*id),
    {
        match id {
            ConfigurationSetId::Player => &self.player,
            ConfigurationSetId::Sheep => &self.sheep,
            ConfigurationSetId::Grass => &self.grass,
            ConfigurationSetId::FenceHorizontal => &self.fence_horizontal,
            ConfigurationSetId::FenceVertical => &self.fence_vertical,
        }
    }
}

/// Everything a tick reads: per-role speeds, behaviour tuning, overlays.
#[derive(Clone, Debug)]
pub struct Configuration {
    pub zoom: i64,
    pub animation: AnimationConfiguration,
    pub player: ConfigurationSet,
    pub sheep: ConfigurationSet,
    pub flocking: FlockingConfiguration,
    pub runner: RunnerConfiguration,
    pub grazing_scale: i64,
    pub inertia_scale: i64,
    pub debug_lines: DebugLineConfiguration,
}

impl Configuration {
    pub open spec fn valid(self) -> bool {
        &&& self.animation.valid()
        &&& self.player.valid()
        &&& self.sheep.valid()
        &&& self.flocking.valid()
        &&& self.runner.valid()
        &&& 0 <= self.grazing_scale <= SCALE_PARAM_MAX
        &&& 0 <= self.inertia_scale <= SCALE_PARAM_MAX
    }

    /// The tuning shipped with the game.
    pub fn new() -> (r: Configuration)
        ensures
            r.valid(),
            r.zoom == SCALE,
            r.player.max_speed == 300 * SCALE,
            r.sheep.max_speed == 100 * SCALE,
            r.flocking == (FlockingConfiguration {
                alignment_enabled: true,
                alignment_distance: 60_000_000i64,
                alignment_scale: 100_000_000i64,
                alignment_distance_cap_fraction: 600_000i64,
                cohesion_enabled: true,
                cohesion_velocity_scale: true,
                cohesion_distance: 300_000_000i64,
                cohesion_scale: 1_500_000i64,
                separation_enabled: true,
                separation_distance: 30_000_000i64,
                separation_scale: 30_000_000i64,
            }),
            r.runner == (RunnerConfiguration {
                scale: 10_000_000i64,
                speed_fraction: 1_400_000i64,
                scare_distance: 160_000_000i64,
            }),
            r.grazing_scale == SCALE,
            r.inertia_scale == 10 * SCALE,
            r.debug_lines.enable == false,
    {
        Configuration {
            zoom: SCALE,
            animation: AnimationConfiguration::new(),
            player: ConfigurationSet { max_speed: 300 * SCALE },
            sheep: ConfigurationSet { max_speed: 100 * SCALE },
            flocking: FlockingConfiguration {
                alignment_enabled: true,
                alignment_distance: 60 * SCALE,
                alignment_scale: 100 * SCALE,
                alignment_distance_cap_fraction: 600_000,
                cohesion_enabled: true,
                cohesion_velocity_scale: true,
                cohesion_distance: 300 * SCALE,
                cohesion_scale: 1_500_000,
                separation_enabled: true,
                separation_distance: 30 * SCALE,
                separation_scale: 30 * SCALE,
            },
            runner: RunnerConfiguration {
                scale: 10 * SCALE,
                speed_fraction: 1_400_000,
                scare_distance: 160 * SCALE,
            },
            grazing_scale: SCALE,
            inertia_scale: 10 * SCALE,
            debug_lines: DebugLineConfiguration {
                enable: false,
                red: DebugLineType::AlignmentInfluence,
                green: DebugLineType::CohesionInfluence,
                blue: DebugLineType::InertiaInfluence,
                gray: DebugLineType::TotalInfluence,
            },
        }
    }

    /// The tuning set a set id selects; unknown ids fall back to the sheep.
    pub open spec fn set_spec(self, id: ConfigurationSetId) -> ConfigurationSet {
        match id {
            ConfigurationSetId::Player => self.player,
            _ => self.sheep,
        }
    }

    pub fn get_set<'a>(self: &'a Self, id: &ConfigurationSetId) -> (r: &'a ConfigurationSet)
        ensures
            *r == self.set_spec(*id),
    {
        match id {
            ConfigurationSetId::Player => &self.player,
            _ => &self.sheep,
        }
    }
}

} // verus!
