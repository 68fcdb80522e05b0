//! Sprite-sheet animation bookkeeping: which clip an actor plays, when a
//! frame advances, and when the sprite flips, driven by the actor's speed.
//!
//! Only the decisions live here; handing frames to a renderer is the
//! embedding application's business.

use vstd::prelude::*;

use crate::configuration::{
    AnimationClass, AnimationSheet, ConfigurationSet, SingleAnimation, ATLAS_AXIS_MAX,
};
use crate::fixed::{COORD_MAX, SCALE};
use crate::vec3::Vec2;

verus! {

/// Frame interval used when a clip declares a zero interval.
pub const FALLBACK_INTERVAL: i64 = 300_000;

#[derive(Clone, Copy, Debug, PartialEq, Eq, Structural)]
pub enum AnimationType {
    Idle,
    Running,
}

/// Marker for entities whose starting frame is randomized at spawn.
#[derive(Clone, Copy, Debug, PartialEq, Eq, Structural)]
pub struct RandomInitAnimation;

impl AnimationSheet {
    /// The clip the sheet plays for the given animation type.
    pub open spec fn anim_spec(self, anim: AnimationType) -> SingleAnimation {
        match self.animation_class {
            AnimationClass::Simple { simple } => simple,
            AnimationClass::Actor { idle, running, .. } => match anim {
                AnimationType::Idle => idle,
                AnimationType::Running => running,
            },
        }
    }

    pub fn get_anim(&self, anim: AnimationType) -> (r: &SingleAnimation)
        ensures
            *r == self.anim_spec(anim),
    {
        match &self.animation_class {
            AnimationClass::Simple { simple } => simple,
            AnimationClass::Actor { idle, running, .. } => match anim {
                AnimationType::Idle => idle,
                AnimationType::Running => running,
            },
        }
    }

    pub open spec fn num_textures(self) -> int {
        self.atlas_tile_columns * self.atlas_tile_rows
    }

    pub fn get_num_textures(&self) -> (r: usize)
        requires
            self.valid(),
        ensures
            r == self.num_textures(),
            1 <= r,
    {
        proof {
            assert(1 <= self.atlas_tile_columns * self.atlas_tile_rows <= ATLAS_AXIS_MAX
                * ATLAS_AXIS_MAX) by (nonlinear_arith)
                requires
                    1 <= self.atlas_tile_columns <= ATLAS_AXIS_MAX,
                    1 <= self.atlas_tile_rows <= ATLAS_AXIS_MAX,
            ;
        }
        self.atlas_tile_columns * self.atlas_tile_rows
    }

    pub open spec fn clamp_index_spec(self, index: int) -> int {
        if index <= self.num_textures() - 1 {
            index
        } else {
            self.num_textures() - 1
        }
    }

    /// Clamp a frame index into the atlas.
    pub fn clamp_index(&self, index: usize) -> (r: usize)
        requires
            self.valid(),
        ensures
            r == self.clamp_index_spec(index as int),
            r < usize::MAX,
    {
        let n = self.get_num_textures();
        if index <= n - 1 {
            index
        } else {
            n - 1
        }
    }
}

/// Repeating countdown that marks frame boundaries.
#[derive(Clone, Copy, Debug, PartialEq, Eq, Structural)]
pub struct AnimationTimer {
    pub elapsed: i64,
    pub duration: i64,
    pub just_finished: bool,
}

impl AnimationTimer {
    pub open spec fn valid(self) -> bool {
        1 <= self.duration <= 1_000 * SCALE && 0 <= self.elapsed < self.duration
    }

    pub fn from_interval(interval: i64) -> (r: AnimationTimer)
        ensures
            r.duration == if 1 <= interval <= 1_000 * SCALE {
                interval as int
            } else {
                FALLBACK_INTERVAL as int
            },
            r.elapsed == 0,
            r.just_finished == false,
            r.valid(),
    {
        let duration = if 1 <= interval && interval <= 1_000 * SCALE {
            interval
        } else {
            FALLBACK_INTERVAL
        };
        AnimationTimer { elapsed: 0, duration, just_finished: false }
    }

    /// Advance by `dt`; on reaching the duration, wrap and report a finish.
    pub fn tick(&mut self, dt: i64)
        requires
            old(self).valid(),
            0 <= dt <= 1_000 * SCALE,
        ensures
            final(self).valid(),
            final(self).duration == old(self).duration,
            final(self).just_finished <==> old(self).elapsed + dt >= old(self).duration,
            final(self).elapsed == (old(self).elapsed + dt) % (old(self).duration as int),
    {
        let total = self.elapsed + dt;
        if total >= self.duration {
            proof {
                vstd::arithmetic::div_mod::lemma_mod_division_less_than_divisor(
                    total as int,
                    self.duration as int,
                );
            }
            self.elapsed = total % self.duration;
            self.just_finished = true;
        } else {
            proof {
                vstd::arithmetic::div_mod::lemma_small_mod(total as nat, self.duration as nat);
            }
            self.elapsed = total;
            self.just_finished = false;
        }
    }
}

/// The animation an actor is in, the one its motion asks for next, and the
/// facing its motion asks for next.
#[derive(Clone, Copy, Debug, PartialEq, Eq, Structural)]
pub struct AnimationStates {
    pub current: AnimationType,
    pub next: AnimationType,
    pub next_flip: bool,
}

impl AnimationStates {
    pub fn new() -> (r: AnimationStates)
        ensures
            r == (AnimationStates {
                current: AnimationType::Idle,
                next: AnimationType::Idle,
                next_flip: false,
            }),
    {
        AnimationStates { current: AnimationType::Idle, next: AnimationType::Idle, next_flip: false }
    }
}

/// Whether a planar speed exceeds the given fraction of the top speed,
/// decided exactly on squared norms.
pub open spec fn speed_exceeds_fraction(velocity: Vec2, max_speed: int, fraction: int) -> bool {
    velocity.norm_sq() * (SCALE * SCALE) > (fraction * fraction) * (max_speed * max_speed)
}

/// The animation a moving actor should ask for: running above the
/// threshold fraction of its top speed, idle at or below it.
pub fn next_animation_type(
    velocity: Vec2,
    set: &ConfigurationSet,
    run_threshold_fraction: i64,
) -> (r: AnimationType)
    requires
        set.valid(),
        velocity.in_range(COORD_MAX as int),
        0 <= run_threshold_fraction <= SCALE,
    ensures
        r == (if speed_exceeds_fraction(
            velocity,
            set.max_speed as int,
            run_threshold_fraction as int,
        ) {
            AnimationType::Running
        } else {
            AnimationType::Idle
        }),
{
    let nsq: u128 = velocity.norm_sq_wide();
    proof {
        let lifted = (crate::vec3::Vec3 { x: velocity.x, y: velocity.y, z: 0i64 });
        crate::vec3::lemma_norm_sq_range(lifted, COORD_MAX as int);
        assert(lifted.norm_sq() == velocity.norm_sq());
        assert(nsq * ((SCALE * SCALE) as u128) <= u128::MAX) by (nonlinear_arith)
            requires
                0 <= nsq <= 3_000_000_000_000_000_000_000_000u128,
                SCALE == 1_000_000,
        ;
        assert(((run_threshold_fraction * run_threshold_fraction) as u128) * ((set.max_speed
            * set.max_speed) as u128) <= u128::MAX) by (nonlinear_arith)
            requires
                0 <= run_threshold_fraction <= 1_000_000,
                0 <= set.max_speed <= 10_000_000_000,
        ;
    }
    proof {
        assert((run_threshold_fraction as u128) * (run_threshold_fraction as u128)
            <= 1_000_000_000_000u128) by (nonlinear_arith)
            requires
                0 <= run_threshold_fraction <= 1_000_000,
        ;
        assert((set.max_speed as u128) * (set.max_speed as u128)
            <= 100_000_000_000_000_000_000u128) by (nonlinear_arith)
            requires
                0 <= set.max_speed <= 10_000_000_000,
        ;
    }
    let lhs: u128 = nsq * ((SCALE * SCALE) as u128);
    let f: u128 = (run_threshold_fraction as u128) * (run_threshold_fraction as u128);
    let m: u128 = (set.max_speed as u128) * (set.max_speed as u128);
    proof {
        assert(f * m <= u128::MAX) by (nonlinear_arith)
            requires
                0 <= f <= 1_000_000_000_000u128,
                0 <= m <= 100_000_000_000_000_000_000u128,
        ;
    }
    let rhs: u128 = f * m;
    if lhs > rhs {
        AnimationType::Running
    } else {
        AnimationType::Idle
    }
}

/// How the sprite should face, if the horizontal speed is decisive:
/// `Some(true)` to face along +x, `Some(false)` along -x, `None` to keep
/// the current facing.
pub fn next_flip(velocity: Vec2, set: &ConfigurationSet, flip_threshold_fraction: i64) -> (r:
    Option<bool>)
    requires
        set.valid(),
        0 <= flip_threshold_fraction <= SCALE,
    ensures
        r == (if velocity.x * SCALE > flip_threshold_fraction * set.max_speed {
            Some(true)
        } else if velocity.x * SCALE < -(flip_threshold_fraction * set.max_speed) {
            Some(false)
        } else {
            None::<bool>
        }),
{
    proof {
        assert((flip_threshold_fraction as i128) * (set.max_speed as i128)
            <= 10_000_000_000_000_000i128) by (nonlinear_arith)
            requires
                0 <= flip_threshold_fraction <= 1_000_000,
                0 <= set.max_speed <= 10_000_000_000,
        ;
        assert((flip_threshold_fraction as i128) * (set.max_speed as i128) >= 0)
            by (nonlinear_arith)
            requires
                0 <= flip_threshold_fraction,
                0 <= set.max_speed,
        ;
    }
    let lhs: i128 = (velocity.x as i128) * (SCALE as i128);
    let rhs: i128 = (flip_threshold_fraction as i128) * (set.max_speed as i128);
    if lhs > rhs {
        Some(true)
    } else if lhs < -rhs {
        Some(false)
    } else {
        None
    }
}


/// What an actor's motion asks of its animation: the clip to play next
/// and, if the sideways speed is decisive, the facing.
pub open spec fn requested_states_spec(
    sheet: AnimationSheet,
    set: ConfigurationSet,
    states: AnimationStates,
    velocity: Option<Vec2>,
) -> AnimationStates {
    match (velocity, sheet.animation_class) {
        (Some(v), AnimationClass::Actor { run_threshold_fraction, flip_threshold_fraction, .. }) => {
            AnimationStates {
                current: states.current,
                next: if speed_exceeds_fraction(
                    v,
                    set.max_speed as int,
                    run_threshold_fraction as int,
                ) {
                    AnimationType::Running
                } else {
                    AnimationType::Idle
                },
                next_flip: if v.x * SCALE > flip_threshold_fraction * set.max_speed {
                    true
                } else if v.x * SCALE < -(flip_threshold_fraction * set.max_speed) {
                    false
                } else {
                    states.next_flip
                },
            }
        },
        _ => states,
    }
}

/// Whether this tick may switch clips: at a frame boundary, or at any
/// time for a sheet with snappy animations.
pub open spec fn may_switch_spec(sheet: AnimationSheet, timer: AnimationTimer) -> bool {
    timer.just_finished || sheet.snappy_animations
}

/// Play one actor's animation for one tick.
///
/// First the velocity (if any) picks the requested clip and facing; at a
/// switch point a changed request restarts the timer on the new clip's
/// interval and jumps to its first frame; then the timer runs `dt`
/// forward, and each finish advances one frame, wrapping from the
/// current clip's last index back to its first.
#[verifier::rlimit(100)]
pub fn animate_sprite(
    sheet: &AnimationSheet,
    set: &ConfigurationSet,
    states: &mut AnimationStates,
    timer: &mut AnimationTimer,
    sprite_index: &mut usize,
    flip_x: &mut bool,
    velocity: Option<Vec2>,
    dt: i64,
) -> (nothing: ())
    requires
        sheet.valid(),
        set.valid(),
        old(timer).valid(),
        *old(sprite_index) < usize::MAX,
        0 <= dt <= 1_000 * SCALE,
        match velocity {
            Some(v) => v.in_range(COORD_MAX as int),
            None => true,
        },
    ensures
        final(timer).valid(),
        ({
            let requested = requested_states_spec(*sheet, *set, *old(states), velocity);
            let switch = may_switch_spec(*sheet, *old(timer)) && requested.current
                != requested.next;
            let timer1 = if switch {
                AnimationTimer {
                    elapsed: 0,
                    duration: if 1 <= sheet.anim_spec(requested.next).animation_interval <= 1_000
                        * SCALE {
                        sheet.anim_spec(requested.next).animation_interval
                    } else {
                        FALLBACK_INTERVAL
                    },
                    just_finished: old(timer).just_finished,
                }
            } else {
                *old(timer)
            };
            let index1 = if switch {
                sheet.clamp_index_spec(sheet.anim_spec(requested.next).first_index as int)
            } else {
                *old(sprite_index) as int
            };
            let current1 = if switch {
                requested.next
            } else {
                requested.current
            };
            let flip1 = if may_switch_spec(*sheet, *old(timer)) {
                requested.next_flip
            } else {
                *old(flip_x)
            };
            let finished = timer1.elapsed + dt >= timer1.duration;
            let clip = sheet.anim_spec(current1);
            &&& *final(states) == (AnimationStates {
                current: current1,
                next: requested.next,
                next_flip: requested.next_flip,
            })
            &&& final(timer).duration == timer1.duration
            &&& final(timer).elapsed == (timer1.elapsed + dt) % (timer1.duration as int)
            &&& final(timer).just_finished == finished
            &&& *final(flip_x) == flip1
            &&& *final(sprite_index) == (if finished {
                sheet.clamp_index_spec(
                    if index1 == clip.last_index {
                        clip.first_index as int
                    } else {
                        index1 + 1
                    },
                )
            } else {
                index1
            })
        }),
{
    if let Some(v) = velocity {
        match &sheet.animation_class {
            AnimationClass::Actor { run_threshold_fraction, flip_threshold_fraction, .. } => {
                states.next = next_animation_type(v, set, *run_threshold_fraction);
                match next_flip(v, set, *flip_threshold_fraction) {
                    Some(f) => {
                        states.next_flip = f;
                    },
                    None => {},
                }
            },
            _ => {},
        }
    }
    let switch_point = timer.just_finished || sheet.snappy_animations;
    if switch_point {
        if !animation_type_eq(states.current, states.next) {
            let animation = sheet.get_anim(states.next);
            let interval = animation.animation_interval;
            let fresh = AnimationTimer::from_interval(interval);
            timer.elapsed = 0;
            timer.duration = fresh.duration;
            *sprite_index = sheet.clamp_index(animation.first_index);
            states.current = states.next;
        }
        if *flip_x != states.next_flip {
            *flip_x = states.next_flip;
        }
    }
    let current_anim_first = sheet.get_anim(states.current).first_index;
    let current_anim_last = sheet.get_anim(states.current).last_index;
    timer.tick(dt);
    if timer.just_finished {
        let next_index = if *sprite_index == current_anim_last {
            current_anim_first
        } else {
            *sprite_index + 1
        };
        *sprite_index = sheet.clamp_index(next_index);
    }
}

/// Whether two animation types are the same.
fn animation_type_eq(a: AnimationType, b: AnimationType) -> (r: bool)
    ensures
        r == (a == b),
{
    match (a, b) {
        (AnimationType::Idle, AnimationType::Idle) => true,
        (AnimationType::Running, AnimationType::Running) => true,
        _ => false,
    }
}

} // verus!

