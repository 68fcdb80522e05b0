//! One full simulation tick over the flock.
//!
//! The three phases run in their required order: neighbour discovery over
//! the previous tick's snapshot and the influence reset, then the
//! behaviour evaluators, then the velocity composer. Each phase's exact
//! behaviour is the contract of the function it calls; here the tick adds
//! the standing guarantees: every sheep's state stays well-formed from
//! tick to tick, and no final velocity ever exceeds
//! `max_speed * max(1, speed_fraction)`.

use vstd::prelude::*;

use crate::configuration::Configuration;
use crate::fixed::{COORD_MAX, SCALE};
use crate::flocking::{calculate_flocking, find_flocking_neighbours, ActorSnapshot, MAX_ACTORS};
use crate::motion::{
    calculate_velocity, lemma_composed_velocity_admissible, speed_cap, velocity_admissible,
    Influences,
};
use crate::sheep::{
    calculate_grazing, calculate_inertia, run_from_players, Grazing, Runner, DT_MAX,
};
use crate::vec3::{Vec2, Vec3};

verus! {

/// Everything one flocking actor carries through the simulation: its
/// transform and velocity (owned by the physics layer between ticks) and
/// its per-actor behaviour state.
#[derive(Clone, Copy, Debug)]
pub struct SheepState {
    pub position: Vec3,
    pub velocity: Vec2,
    pub runner: Runner,
    pub grazing: Grazing,
    pub influences: Influences,
}

impl SheepState {
    /// The standing invariant: inside the world, moving no faster than
    /// the composer may ever command, with well-formed behaviour state.
    pub open spec fn wf(self, config: Configuration) -> bool {
        &&& self.position.in_range(COORD_MAX as int)
        &&& velocity_admissible(self.velocity, config.sheep.max_speed as int)
        &&& self.runner.wf()
        &&& self.grazing.wf()
        &&& self.influences.wf()
    }

    /// A sheep at rest at the given position.
    pub fn at(position: Vec3) -> (r: SheepState)
        ensures
            r.position == position,
            r.velocity == Vec2::zero_spec(),
            r.runner == (Runner { direction: Vec3::zero_spec(), magnitude: 0i64 }),
    {
        SheepState {
            position,
            velocity: Vec2 { x: 0, y: 0 },
            runner: Runner::new(),
            grazing: Grazing::new(),
            influences: Influences::empty(),
        }
    }
}

/// Run one tick over the whole flock: discovery, reset, evaluators,
/// composition, in that order for every sheep.
///
/// Positions are not touched — integrating the returned velocities is the
/// physics layer's step. Whatever the grazing draws come to, every
/// sheep's state is again well-formed, so the tick may be run forever;
/// and every final velocity obeys the two-stage ceiling.
pub fn simulate_sheep_tick(
    flock: &mut Vec<SheepState>,
    player_positions: &Vec<Vec3>,
    config: &Configuration,
    dt: i64,
) -> (nothing: ())
    requires
        old(flock)@.len() <= MAX_ACTORS,
        forall|i: int| 0 <= i < old(flock)@.len() ==> (#[trigger] old(flock)@[i]).wf(*config),
        forall|i: int|
            0 <= i < player_positions@.len() ==> (#[trigger] player_positions@[i]).in_range(
                COORD_MAX as int,
            ),
        config.valid(),
        0 <= dt <= DT_MAX,
    ensures
        final(flock)@.len() == old(flock)@.len(),
        forall|i: int| 0 <= i < final(flock)@.len() ==> (#[trigger] final(flock)@[i]).wf(*config),
        forall|i: int|
            0 <= i < final(flock)@.len() ==> (#[trigger] final(flock)@[i]).position == old(
                flock,
            )@[i].position,
        forall|i: int|
            0 <= i < final(flock)@.len() ==> (#[trigger] final(flock)@[i]).velocity.norm_sq() * (
            SCALE * SCALE) <= (speed_cap(config.runner.speed_fraction as int) * speed_cap(
                config.runner.speed_fraction as int,
            )) * (config.sheep.max_speed * config.sheep.max_speed),
{
    let n = flock.len();
    let mut snapshots: Vec<ActorSnapshot> = Vec::new();
    let mut k: usize = 0;
    while k < n
        invariant
            k == snapshots@.len() <= n == flock@.len() <= MAX_ACTORS,
            forall|i: int| 0 <= i < flock@.len() ==> (#[trigger] flock@[i]).wf(*config),
            config.valid(),
            forall|i: int| 0 <= i < k ==> (#[trigger] snapshots@[i]).wf(),
        decreases n - k,
    {
        let s = &flock[k];
        proof {
            lemma_admissible_is_in_range(s.velocity, config.sheep.max_speed as int);
        }
        snapshots.push(ActorSnapshot { position: s.position, velocity: s.velocity });
        k = k + 1;
    }
    let samples = find_flocking_neighbours(&snapshots, &config.flocking);
    let mut updated: Vec<SheepState> = Vec::new();
    let mut i: usize = 0;
    while i < n
        invariant
            i == updated@.len() <= n == flock@.len() <= MAX_ACTORS,
            samples@.len() == n,
            forall|t: int| 0 <= t < flock@.len() ==> (#[trigger] flock@[t]).wf(*config),
            forall|t: int| 0 <= t < samples@.len() ==> (#[trigger] samples@[t]).wf(),
            forall|t: int|
                0 <= t < player_positions@.len() ==> (#[trigger] player_positions@[t]).in_range(
                    COORD_MAX as int,
                ),
            config.valid(),
            0 <= dt <= DT_MAX,
            forall|t: int| 0 <= t < i ==> (#[trigger] updated@[t]).wf(*config),
            forall|t: int| 0 <= t < i ==> (#[trigger] updated@[t]).position == flock@[t].position,
            forall|t: int|
                0 <= t < i ==> (#[trigger] updated@[t]).velocity.norm_sq() * (SCALE * SCALE) <= (
                speed_cap(config.runner.speed_fraction as int) * speed_cap(
                    config.runner.speed_fraction as int,
                )) * (config.sheep.max_speed * config.sheep.max_speed),
        decreases n - i,
    {
        let mut sheep = flock[i];
        sheep.influences = Influences::empty();
        run_from_players(
            &mut sheep.runner,
            &mut sheep.influences,
            sheep.position,
            player_positions,
            &config.runner,
            dt,
        );
        calculate_flocking(&mut sheep.influences, &samples[i], sheep.position, sheep.velocity, config);
        calculate_grazing(&mut sheep.grazing, &mut sheep.influences, config.grazing_scale, dt);
        calculate_inertia(&mut sheep.influences, sheep.velocity, &config.sheep, config.inertia_scale);
        let velocity = calculate_velocity(&mut sheep.influences, &config.sheep, &config.runner);
        sheep.velocity = velocity;
        proof {
            lemma_composed_velocity_admissible(
                velocity,
                config.sheep.max_speed as int,
                config.runner.speed_fraction as int,
            );
        }
        updated.push(sheep);
        i = i + 1;
    }
    *flock = updated;
}

/// Admissible velocities fit inside the world's coordinate bound.
proof fn lemma_admissible_is_in_range(v: Vec2, max_speed: int)
    requires
        crate::configuration::MAX_SPEED_MIN as int <= max_speed
            <= crate::configuration::MAX_SPEED_MAX as int,
        velocity_admissible(v, max_speed),
    ensures
        v.in_range(COORD_MAX as int),
{
    crate::flocking::lemma_admissible_component_bounds(v, max_speed);
}

} // verus!
