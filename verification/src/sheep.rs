//! The sheep-side behaviours with per-actor state: fleeing from threats,
//! idle grazing, and inertia.
//!
//! Fleeing is the one behaviour with hysteresis: its magnitude jumps to at
//! least one half on the first scare, ramps while a threat stays close,
//! and decays linearly once it leaves, never below zero. Grazing re-rolls
//! a wander direction at random when its countdown expires; the random
//! draws come from the `rand` crate and everything after the draw is
//! proved exact in terms of the drawn values.

use vstd::prelude::*;

use crate::configuration::{
    ConfigurationSet, RunnerConfiguration, SCALE_PARAM_MAX, SPEED_FRACTION_MAX,
};
use crate::fixed::{
    abs_i, lemma_mul_div_abs, lemma_mul_div_bound, lemma_sqrt_ceil_bounds, lemma_sqrt_floor_bounds,
    lemma_square_le, lemma_square_le_converse, mul_div, mul_div_i64, sqrt_ceil, COORD_MAX,
    INFLUENCE_MAX, SCALE,
};
use crate::flocking::in_radius;
use crate::motion::{clamp3, normalize3, opt_in_range, t3_norm_sq, vec3_of, Influences};
use crate::vec3::{lemma_zero_norm, Vec2, Vec3, VLIM};

verus! {

/// The magnitude the flee response jumps to on its first trigger.
pub const RUNNER_TRIGGER_MAGNITUDE: i64 = 500_000;

/// Below this magnitude the flee influence is considered absent.
pub const RUNNER_EPSILON: i64 = 1;

/// Longest tick the stateful behaviours accept (fixed-point seconds).
pub const DT_MAX: i64 = 1_000_000_000;

/// Flee-from-threat state: the one behaviour persisted across ticks.
#[derive(Clone, Copy, Debug, PartialEq, Eq, Structural)]
pub struct Runner {
    pub direction: Vec3,
    pub magnitude: i64,
}

impl Runner {
    /// The direction is at most unit length and the magnitude lies in
    /// `[0, 1]`.
    pub open spec fn wf(self) -> bool {
        self.direction.in_range(SCALE as int) && 0 <= self.magnitude <= SCALE
    }

    pub fn new() -> (r: Runner)
        ensures
            r == (Runner { direction: Vec3::zero_spec(), magnitude: 0i64 }),
            r.wf(),
    {
        Runner { direction: Vec3 { x: 0, y: 0, z: 0 }, magnitude: 0 }
    }
}

impl Default for Runner {
    fn default() -> (r: Runner)
        ensures
            r == (Runner { direction: Vec3::zero_spec(), magnitude: 0i64 }),
            r.wf(),
    {
        Runner::new()
    }
}

/// How the flee magnitude moves in one tick: jump to the trigger level on
/// a first scare, ramp to at most one while the threat stays close, decay
/// toward zero (never below) once it leaves.
pub open spec fn runner_magnitude_step(magnitude: int, close: bool, dt: int) -> int {
    if close {
        if magnitude < RUNNER_TRIGGER_MAGNITUDE {
            RUNNER_TRIGGER_MAGNITUDE as int
        } else if magnitude + dt <= SCALE {
            magnitude + dt
        } else {
            SCALE as int
        }
    } else {
        if magnitude - dt >= 0 {
            magnitude - dt
        } else {
            0
        }
    }
}

/// The unit direction away from a threat.
pub open spec fn away_direction(position: Vec3, threat: Vec3) -> (int, int, int) {
    normalize3(
        ((position.x - threat.x) as int, (position.y - threat.y) as int, (position.z
            - threat.z) as int),
    )
}

/// One threat's effect on the flee state: a close threat takes over the
/// direction and moves the magnitude up, a distant one only decays it.
pub open spec fn runner_step_spec(
    r: Runner,
    position: Vec3,
    threat: Vec3,
    scare_distance: int,
    dt: int,
) -> Runner {
    let close = in_radius(position, threat, scare_distance);
    Runner {
        direction: if close {
            vec3_of(away_direction(position, threat))
        } else {
            r.direction
        },
        magnitude: runner_magnitude_step(r.magnitude as int, close, dt) as i64,
    }
}

/// The flee state after the first `k` threats, processed in order: with
/// several threats the last one processed wins the direction.
pub open spec fn runner_after_threats(
    r: Runner,
    position: Vec3,
    threats: Seq<Vec3>,
    scare_distance: int,
    dt: int,
    k: int,
) -> Runner
    decreases k,
{
    if k <= 0 {
        r
    } else {
        runner_step_spec(
            runner_after_threats(r, position, threats, scare_distance, dt, k - 1),
            position,
            threats[k - 1],
            scare_distance,
            dt,
        )
    }
}

/// The raw flee vote: direction times magnitude times `scale / 10`.
pub open spec fn runner_raw_spec(r: Runner, scale_param: int) -> (int, int, int) {
    (
        mul_div(mul_div(r.direction.x as int, r.magnitude as int, SCALE as int), scale_param, 10 * (
        SCALE as int)),
        mul_div(mul_div(r.direction.y as int, r.magnitude as int, SCALE as int), scale_param, 10 * (
        SCALE as int)),
        mul_div(mul_div(r.direction.z as int, r.magnitude as int, SCALE as int), scale_param, 10 * (
        SCALE as int)),
    )
}

/// The flee vote after its hard cap: rescaled to exactly the configured
/// ceiling whenever it exceeds it.
pub open spec fn runner_clamped_spec(r: Runner, config: RunnerConfiguration) -> (int, int, int) {
    clamp3(runner_raw_spec(r, config.scale as int), config.speed_fraction as int)
}

/// The diagnostic "what the cap would allow": the capped vote scaled by
/// `speed_fraction` over the raw vote's length, or zero for a zero vote.
pub open spec fn runner_max_spec(r: Runner, config: RunnerConfiguration) -> (int, int, int) {
    let raw = runner_raw_spec(r, config.scale as int);
    let clamped = runner_clamped_spec(r, config);
    if t3_norm_sq(raw) == 0 {
        (0, 0, 0)
    } else {
        let rc = sqrt_ceil(t3_norm_sq(raw));
        (
            mul_div(clamped.0, config.speed_fraction as int, rc),
            mul_div(clamped.1, config.speed_fraction as int, rc),
            mul_div(clamped.2, config.speed_fraction as int, rc),
        )
    }
}

proof fn lemma_runner_raw_bounds(r: Runner, scale_param: int)
    requires
        r.wf(),
        0 <= scale_param <= SCALE_PARAM_MAX,
    ensures
        abs_i(runner_raw_spec(r, scale_param).0) <= 100_000_000,
        abs_i(runner_raw_spec(r, scale_param).1) <= 100_000_000,
        abs_i(runner_raw_spec(r, scale_param).2) <= 100_000_000,
{
    lemma_runner_raw_component(r.direction.x as int, r.magnitude as int, scale_param);
    lemma_runner_raw_component(r.direction.y as int, r.magnitude as int, scale_param);
    lemma_runner_raw_component(r.direction.z as int, r.magnitude as int, scale_param);
}

proof fn lemma_runner_raw_component(c: int, magnitude: int, scale_param: int)
    requires
        abs_i(c) <= SCALE as int,
        0 <= magnitude <= SCALE as int,
        0 <= scale_param <= SCALE_PARAM_MAX,
    ensures
        abs_i(mul_div(mul_div(c, magnitude, SCALE as int), scale_param, 10 * (SCALE as int)))
            <= 100_000_000,
{
    assert(abs_i(c) * abs_i(magnitude) <= (SCALE as int) * (SCALE as int)) by (nonlinear_arith)
        requires
            0 <= abs_i(c) <= SCALE as int,
            0 <= abs_i(magnitude) <= SCALE as int,
    ;
    lemma_mul_div_bound(c, magnitude, SCALE as int, SCALE as int);
    let t = mul_div(c, magnitude, SCALE as int);
    assert(abs_i(t) * abs_i(scale_param) <= 100_000_000 * (10 * (SCALE as int)))
        by (nonlinear_arith)
        requires
            0 <= abs_i(t) <= SCALE as int,
            0 <= abs_i(scale_param) <= SCALE_PARAM_MAX as int,
            SCALE == 1_000_000,
            SCALE_PARAM_MAX == 1_000_000_000i64,
    ;
    lemma_mul_div_bound(t, scale_param, 10 * (SCALE as int), 100_000_000);
}

/// Update one actor's flee state and vote against every current threat.
///
/// Threats are processed in order, so under several threats the last one
/// within scare range sets the direction. With no threat at all the state
/// and the record are left untouched. The vote is written only while the
/// magnitude is at least [`RUNNER_EPSILON`]; the unclamped vote and the
/// cap diagnostic are recorded beside it.
#[verifier::rlimit(100)]
pub fn run_from_players(
    runner: &mut Runner,
    influences: &mut Influences,
    position: Vec3,
    player_positions: &Vec<Vec3>,
    config: &RunnerConfiguration,
    dt: i64,
) -> (nothing: ())
    requires
        old(runner).wf(),
        old(influences).wf(),
        position.in_range(COORD_MAX as int),
        forall|i: int|
            0 <= i < player_positions@.len() ==> (#[trigger] player_positions@[i]).in_range(
                COORD_MAX as int,
            ),
        config.valid(),
        0 <= dt <= DT_MAX,
    ensures
        final(runner).wf(),
        final(influences).wf(),
        *final(runner) == runner_after_threats(
            *old(runner),
            position,
            player_positions@,
            config.scare_distance as int,
            dt as int,
            player_positions@.len() as int,
        ),
        player_positions@.len() == 0 ==> *final(influences) == *old(influences),
        player_positions@.len() > 0 && final(runner).magnitude >= RUNNER_EPSILON ==> {
            &&& final(influences).runner_influence_unmodified == Some(
                vec3_of(runner_raw_spec(*final(runner), config.scale as int)),
            )
            &&& final(influences).runner_influence == Some(
                vec3_of(runner_clamped_spec(*final(runner), *config)),
            )
            &&& final(influences).runner_influence_max == Some(
                vec3_of(runner_max_spec(*final(runner), *config)),
            )
        },
        player_positions@.len() > 0 && final(runner).magnitude < RUNNER_EPSILON ==> {
            &&& final(influences).runner_influence_unmodified == old(
                influences,
            ).runner_influence_unmodified
            &&& final(influences).runner_influence == old(influences).runner_influence
            &&& final(influences).runner_influence_max == old(influences).runner_influence_max
        },
        final(influences).player_input_influence == old(influences).player_input_influence,
        final(influences).alignment_influence == old(influences).alignment_influence,
        final(influences).cohesion_influence == old(influences).cohesion_influence,
        final(influences).separation_influence == old(influences).separation_influence,
        final(influences).grazing_influence == old(influences).grazing_influence,
        final(influences).inertia_influence == old(influences).inertia_influence,
        final(influences).total_influence == old(influences).total_influence,
        final(influences).max_influence == old(influences).max_influence,
{
    let n = player_positions.len();
    if n == 0 {
        return ;
    }
    let ghost r0 = *runner;
    let ghost scare = config.scare_distance as int;
    let mut j: usize = 0;
    while j < n
        invariant
            n == player_positions@.len(),
            j <= n,
            position.in_range(COORD_MAX as int),
            forall|i: int|
                0 <= i < player_positions@.len() ==> (#[trigger] player_positions@[i]).in_range(
                    COORD_MAX as int,
                ),
            config.valid(),
            scare == config.scare_distance as int,
            0 <= dt <= DT_MAX,
            runner.wf(),
            *runner == runner_after_threats(r0, position, player_positions@, scare, dt as int, j as int),
        decreases n - j,
    {
        let threat = player_positions[j];
        let close = crate::flocking::within_radius(position, threat, config.scare_distance);
        if close {
            let away = position.sub(threat);
            let dir = away.normalize_or_zero();
            proof {
                assert(away.norm_sq() == t3_norm_sq(
                    ((position.x - threat.x) as int, (position.y - threat.y) as int, (position.z
                        - threat.z) as int),
                ));
                assert(away.x * away.x >= 0 && away.y * away.y >= 0 && away.z * away.z >= 0)
                    by (nonlinear_arith);
                if away.norm_sq() == 0 {
                    lemma_zero_norm(away);
                }
                assert(dir == vec3_of(away_direction(position, threat)));
            }
            runner.direction = dir;
            if runner.magnitude < RUNNER_TRIGGER_MAGNITUDE {
                runner.magnitude = RUNNER_TRIGGER_MAGNITUDE;
            } else {
                runner.magnitude = crate::fixed::min_i64(runner.magnitude + dt, SCALE);
            }
        } else {
            runner.magnitude = crate::fixed::max_i64(runner.magnitude - dt, 0);
        }
        j = j + 1;
    }
    if runner.magnitude >= RUNNER_EPSILON {
        proof {
            lemma_runner_raw_bounds(*runner, config.scale as int);
            lemma_runner_raw_component_fits(
                runner.direction.x as int,
                runner.magnitude as int,
                config.scale as int,
            );
            lemma_runner_raw_component_fits(
                runner.direction.y as int,
                runner.magnitude as int,
                config.scale as int,
            );
            lemma_runner_raw_component_fits(
                runner.direction.z as int,
                runner.magnitude as int,
                config.scale as int,
            );
        }
        let tx = mul_div_i64(runner.direction.x, runner.magnitude, SCALE);
        let ty = mul_div_i64(runner.direction.y, runner.magnitude, SCALE);
        let tz = mul_div_i64(runner.direction.z, runner.magnitude, SCALE);
        let raw = Vec3 {
            x: mul_div_i64(tx, config.scale, 10 * SCALE),
            y: mul_div_i64(ty, config.scale, 10 * SCALE),
            z: mul_div_i64(tz, config.scale, 10 * SCALE),
        };
        influences.runner_influence_unmodified = Some(raw);
        let nsq = raw.norm_sq_wide();
        let sf = config.speed_fraction;
        proof {
            assert((sf as u128) * (sf as u128) <= 0x1_0000_0000_0000_0000u128)
                by (nonlinear_arith)
                requires
                    0 <= sf <= SPEED_FRACTION_MAX,
            ;
        }
        let influence = if nsq > (sf as u128) * (sf as u128) {
            raw.rescale_or_zero(sf)
        } else {
            raw
        };
        proof {
            let ct = runner_clamped_spec(*runner, *config);
            assert(influence.x == ct.0 && influence.y == ct.1 && influence.z == ct.2);
            crate::fixed::lemma_square_le(sf as int, SPEED_FRACTION_MAX as int);
            assert(influence.in_range(SPEED_FRACTION_MAX as int)) by {
                if nsq > (sf as u128) * (sf as u128) {
                } else {
                    assert(influence.norm_sq() <= (SPEED_FRACTION_MAX as int)
                        * (SPEED_FRACTION_MAX as int));
                    assert(influence.x * influence.x >= 0 && influence.y * influence.y >= 0
                        && influence.z * influence.z >= 0) by (nonlinear_arith);
                    lemma_square_le_converse(influence.x as int, SPEED_FRACTION_MAX as int);
                    lemma_square_le_converse(influence.y as int, SPEED_FRACTION_MAX as int);
                    lemma_square_le_converse(influence.z as int, SPEED_FRACTION_MAX as int);
                }
            }
        }
        influences.runner_influence = Some(influence);
        let maxed = if nsq == 0 {
            proof {
                lemma_zero_norm(raw);
            }
            Vec3 { x: 0, y: 0, z: 0 }
        } else {
            proof {
                crate::vec3::lemma_norm_sq_range(raw, 100_000_000);
                lemma_sqrt_ceil_bounds(nsq as int);
                lemma_sqrt_floor_bounds(nsq as int);
                lemma_square_le(200_000_000, 200_000_000);
                lemma_square_le_converse(crate::fixed::sqrt_floor(nsq as int), 200_000_000);
                lemma_runner_max_component(influence.x as int, sf as int, sqrt_ceil(nsq as int));
                lemma_runner_max_component(influence.y as int, sf as int, sqrt_ceil(nsq as int));
                lemma_runner_max_component(influence.z as int, sf as int, sqrt_ceil(nsq as int));
            }
            let rc = crate::fixed::isqrt_ceil(nsq) as i64;
            Vec3 {
                x: mul_div_i64(influence.x, sf, rc),
                y: mul_div_i64(influence.y, sf, rc),
                z: mul_div_i64(influence.z, sf, rc),
            }
        };
        influences.runner_influence_max = Some(maxed);
    }
}

proof fn lemma_runner_raw_component_fits(c: int, magnitude: int, scale_param: int)
    requires
        abs_i(c) <= SCALE as int,
        0 <= magnitude <= SCALE as int,
        0 <= scale_param <= SCALE_PARAM_MAX,
    ensures
        abs_i(mul_div(c, magnitude, SCALE as int)) <= SCALE as int,
{
    assert(abs_i(c) * abs_i(magnitude) <= (SCALE as int) * (SCALE as int)) by (nonlinear_arith)
        requires
            0 <= abs_i(c) <= SCALE as int,
            0 <= abs_i(magnitude) <= SCALE as int,
    ;
    lemma_mul_div_bound(c, magnitude, SCALE as int, SCALE as int);
}

proof fn lemma_runner_max_component(c: int, sf: int, rc: int)
    requires
        rc >= 1,
        abs_i(c) <= SPEED_FRACTION_MAX as int,
        0 <= sf <= SPEED_FRACTION_MAX as int,
    ensures
        abs_i(mul_div(c, sf, rc)) <= INFLUENCE_MAX as int,
{
    lemma_mul_div_abs(c, sf, rc);
    let q = abs_i(mul_div(c, sf, rc));
    assert(q * 1 <= q * rc) by (nonlinear_arith)
        requires
            rc >= 1,
            q >= 0,
    ;
    assert(abs_i(c) * abs_i(sf) <= INFLUENCE_MAX as int) by (nonlinear_arith)
        requires
            0 <= abs_i(c) <= 100_000_000,
            0 <= abs_i(sf) <= 100_000_000,
            INFLUENCE_MAX == 10_000_000_000_000_000i64,
    ;
}


/// Shortest wander countdown a re-roll may produce.
pub const GRAZING_COUNTDOWN_MIN: i64 = 500_000;

/// Longest wander countdown a re-roll may produce.
pub const GRAZING_COUNTDOWN_MAX: i64 = 5_500_000;

/// Idle-wander state: an optional current direction and a countdown.
#[derive(Clone, Copy, Debug)]
pub struct Grazing {
    pub current_direction: Option<Vec3>,
    pub time_left: i64,
}

impl Grazing {
    pub open spec fn wf(self) -> bool {
        opt_in_range(self.current_direction, SCALE as int) && 0 <= self.time_left
            <= GRAZING_COUNTDOWN_MAX
    }

    pub fn new() -> (r: Grazing)
        ensures
            r.current_direction is None,
            r.time_left == 0,
            r.wf(),
    {
        Grazing { current_direction: None, time_left: 0 }
    }
}

impl Default for Grazing {
    fn default() -> (r: Grazing)
        ensures
            r.current_direction is None,
            r.time_left == 0,
            r.wf(),
    {
        Grazing::new()
    }
}

/// One expiry's worth of random draws: whether to wander at all, which
/// way, and for how long.
#[derive(Clone, Copy, Debug)]
pub struct GrazingRolls {
    pub trigger: bool,
    pub direction: Vec3,
    pub countdown: i64,
}

impl GrazingRolls {
    /// Each direction axis lies in `[-1/2, 1/2]` (deliberately not
    /// unit-normalized) and the countdown in its configured range.
    pub open spec fn wf(self) -> bool {
        &&& self.direction.in_range((SCALE as int) / 2)
        &&& GRAZING_COUNTDOWN_MIN <= self.countdown <= GRAZING_COUNTDOWN_MAX
    }
}

/// How the wander state moves in one tick: the countdown runs down, and
/// on expiry the rolls decide whether the actor wanders (taking the
/// rolled direction) or idles, in both cases for the rolled countdown.
pub open spec fn grazing_step_spec(g: Grazing, rolls: GrazingRolls, dt: int) -> Grazing {
    let t = g.time_left - dt;
    if t <= 0 {
        Grazing {
            current_direction: if rolls.trigger {
                Some(rolls.direction)
            } else {
                None
            },
            time_left: rolls.countdown,
        }
    } else {
        Grazing { current_direction: g.current_direction, time_left: t as i64 }
    }
}

/// The wander vote a direction produces: `direction * grazing_scale / 10`.
pub open spec fn grazing_influence_of(d: Vec3, grazing_scale: int) -> (int, int, int) {
    (
        mul_div(d.x as int, grazing_scale, 10 * (SCALE as int)),
        mul_div(d.y as int, grazing_scale, 10 * (SCALE as int)),
        mul_div(d.z as int, grazing_scale, 10 * (SCALE as int)),
    )
}

proof fn lemma_grazing_component(c: int, grazing_scale: int)
    requires
        abs_i(c) <= SCALE as int,
        0 <= grazing_scale <= SCALE_PARAM_MAX,
    ensures
        abs_i(mul_div(c, grazing_scale, 10 * (SCALE as int))) <= 100_000_000,
{
    assert(abs_i(c) * abs_i(grazing_scale) <= 100_000_000 * (10 * (SCALE as int)))
        by (nonlinear_arith)
        requires
            0 <= abs_i(c) <= SCALE as int,
            0 <= abs_i(grazing_scale) <= SCALE_PARAM_MAX as int,
            SCALE == 1_000_000,
            SCALE_PARAM_MAX == 1_000_000_000i64,
    ;
    lemma_mul_div_bound(c, grazing_scale, 10 * (SCALE as int), 100_000_000);
}

/// Advance the wander state by one tick under the given draws, and write
/// the wander vote: present exactly while a direction is set.
pub fn grazing_step(
    grazing: &mut Grazing,
    influences: &mut Influences,
    rolls: &GrazingRolls,
    grazing_scale: i64,
    dt: i64,
) -> (nothing: ())
    requires
        old(grazing).wf(),
        old(influences).wf(),
        rolls.wf(),
        0 <= grazing_scale <= SCALE_PARAM_MAX,
        0 <= dt <= DT_MAX,
    ensures
        final(grazing).wf(),
        final(influences).wf(),
        *final(grazing) == grazing_step_spec(*old(grazing), *rolls, dt as int),
        final(influences).grazing_influence == match final(grazing).current_direction {
            Some(d) => Some(vec3_of(grazing_influence_of(d, grazing_scale as int))),
            None => None::<Vec3>,
        },
        final(influences).player_input_influence == old(influences).player_input_influence,
        final(influences).alignment_influence == old(influences).alignment_influence,
        final(influences).cohesion_influence == old(influences).cohesion_influence,
        final(influences).separation_influence == old(influences).separation_influence,
        final(influences).runner_influence == old(influences).runner_influence,
        final(influences).runner_influence_unmodified == old(
            influences,
        ).runner_influence_unmodified,
        final(influences).runner_influence_max == old(influences).runner_influence_max,
        final(influences).total_influence == old(influences).total_influence,
        final(influences).max_influence == old(influences).max_influence,
{
    let t = grazing.time_left - dt;
    if t <= 0 {
        if rolls.trigger {
            grazing.current_direction = Some(rolls.direction);
        } else {
            grazing.current_direction = None;
        }
        grazing.time_left = rolls.countdown;
    } else {
        grazing.time_left = t;
    }
    match grazing.current_direction {
        Some(d) => {
            proof {
                lemma_grazing_component(d.x as int, grazing_scale as int);
                lemma_grazing_component(d.y as int, grazing_scale as int);
                lemma_grazing_component(d.z as int, grazing_scale as int);
            }
            let ix = mul_div_i64(d.x, grazing_scale, 10 * SCALE);
            let iy = mul_div_i64(d.y, grazing_scale, 10 * SCALE);
            let iz = mul_div_i64(d.z, grazing_scale, 10 * SCALE);
            influences.grazing_influence = Some(Vec3 { x: ix, y: iy, z: iz });
        },
        None => {
            influences.grazing_influence = None;
        },
    }
}

/// Relies on `rand::random`: an independent draw from the standard
/// distribution of the requested type; nothing is assumed of its value.
pub assume_specification<T>[ rand::random::<T> ]() -> (r: T)
    where
        rand::distributions::Standard: rand::distributions::Distribution<T>,
;

/// Draw one expiry's worth of wander decisions: the wander chance is
/// about two in five, each direction axis is spread over `[-1/2, 1/2]`,
/// and the countdown over half a second to five and a half.
fn roll_grazing() -> (rolls: GrazingRolls)
    ensures
        rolls.wf(),
{
    let trigger_draw: u32 = rand::random::<u32>();
    let dx: u32 = rand::random::<u32>();
    let dy: u32 = rand::random::<u32>();
    let dz: u32 = rand::random::<u32>();
    let countdown_draw: u32 = rand::random::<u32>();
    let half: i64 = SCALE / 2;
    let direction = Vec3 {
        x: (dx % 1_000_001) as i64 - half,
        y: (dy % 1_000_001) as i64 - half,
        z: (dz % 1_000_001) as i64 - half,
    };
    let countdown: i64 = (countdown_draw % 5_000_001) as i64 + GRAZING_COUNTDOWN_MIN;
    GrazingRolls { trigger: trigger_draw % 10 < 4, direction, countdown }
}

/// Advance one actor's wander state by one tick, drawing fresh random
/// decisions on expiry, and write the wander vote.
///
/// Whatever the draws come to, the new state is one admissible step from
/// the old: a still-running countdown keeps its direction, and the vote
/// is present exactly while a direction is set.
pub fn calculate_grazing(
    grazing: &mut Grazing,
    influences: &mut Influences,
    grazing_scale: i64,
    dt: i64,
) -> (nothing: ())
    requires
        old(grazing).wf(),
        old(influences).wf(),
        0 <= grazing_scale <= SCALE_PARAM_MAX,
        0 <= dt <= DT_MAX,
    ensures
        final(grazing).wf(),
        final(influences).wf(),
        exists|rolls: GrazingRolls|
            rolls.wf() && *final(grazing) == grazing_step_spec(*old(grazing), rolls, dt as int),
        old(grazing).time_left - dt > 0 ==> final(grazing).current_direction == old(
            grazing,
        ).current_direction && final(grazing).time_left == old(grazing).time_left - dt,
        final(influences).grazing_influence == match final(grazing).current_direction {
            Some(d) => Some(vec3_of(grazing_influence_of(d, grazing_scale as int))),
            None => None::<Vec3>,
        },
        final(influences).player_input_influence == old(influences).player_input_influence,
        final(influences).alignment_influence == old(influences).alignment_influence,
        final(influences).cohesion_influence == old(influences).cohesion_influence,
        final(influences).separation_influence == old(influences).separation_influence,
        final(influences).runner_influence == old(influences).runner_influence,
        final(influences).runner_influence_unmodified == old(
            influences,
        ).runner_influence_unmodified,
        final(influences).runner_influence_max == old(influences).runner_influence_max,
        final(influences).total_influence == old(influences).total_influence,
        final(influences).max_influence == old(influences).max_influence,
{
    let rolls = roll_grazing();
    grazing_step(grazing, influences, &rolls, grazing_scale, dt);
}

/// Momentum-keeping marker: actors carrying it get an inertia vote.
#[derive(Clone, Copy, Debug, PartialEq, Eq, Structural, Default)]
pub struct Inertia();

/// The inertia vote: the velocity as a fraction of the role's top speed,
/// times `inertia_scale / 100`, with a zero z component.
pub open spec fn inertia_influence_spec(
    velocity: Vec2,
    max_speed: int,
    inertia_scale: int,
) -> (int, int, int) {
    (
        mul_div(mul_div(velocity.x as int, SCALE as int, max_speed), inertia_scale, 100 * (
        SCALE as int)),
        mul_div(mul_div(velocity.y as int, SCALE as int, max_speed), inertia_scale, 100 * (
        SCALE as int)),
        0,
    )
}

proof fn lemma_inertia_component(c: int, max_speed: int, inertia_scale: int)
    requires
        1 <= max_speed,
        abs_i(c) * (SCALE as int) <= max_speed * (SPEED_FRACTION_MAX as int),
        0 <= inertia_scale <= SCALE_PARAM_MAX,
    ensures
        abs_i(mul_div(c, SCALE as int, max_speed)) <= SPEED_FRACTION_MAX as int,
        abs_i(
            mul_div(mul_div(c, SCALE as int, max_speed), inertia_scale, 100 * (SCALE as int)),
        ) <= INFLUENCE_MAX as int,
{
    assert(abs_i(c) * abs_i(SCALE as int) <= (SPEED_FRACTION_MAX as int) * max_speed)
        by (nonlinear_arith)
        requires
            abs_i(c) * (SCALE as int) <= max_speed * (SPEED_FRACTION_MAX as int),
            abs_i(SCALE as int) == SCALE as int,
    ;
    lemma_mul_div_bound(c, SCALE as int, max_speed, SPEED_FRACTION_MAX as int);
    let t = mul_div(c, SCALE as int, max_speed);
    assert(abs_i(t) * abs_i(inertia_scale) <= (INFLUENCE_MAX as int) * (100 * (SCALE as int)))
        by (nonlinear_arith)
        requires
            0 <= abs_i(t) <= SPEED_FRACTION_MAX as int,
            0 <= abs_i(inertia_scale) <= SCALE_PARAM_MAX as int,
            SPEED_FRACTION_MAX == 100_000_000i64,
            SCALE_PARAM_MAX == 1_000_000_000i64,
            INFLUENCE_MAX == 10_000_000_000_000_000i64,
            SCALE == 1_000_000,
    ;
    lemma_mul_div_bound(t, inertia_scale, 100 * (SCALE as int), INFLUENCE_MAX as int);
}

/// Write the momentum-keeping vote: a nudge along the current velocity so
/// direction changes are never instantaneous.
pub fn calculate_inertia(
    influences: &mut Influences,
    velocity: Vec2,
    set: &ConfigurationSet,
    inertia_scale: i64,
) -> (nothing: ())
    requires
        old(influences).wf(),
        set.valid(),
        crate::motion::velocity_admissible(velocity, set.max_speed as int),
        0 <= inertia_scale <= SCALE_PARAM_MAX,
    ensures
        final(influences).wf(),
        final(influences).inertia_influence == Some(
            vec3_of(inertia_influence_spec(velocity, set.max_speed as int, inertia_scale as int)),
        ),
        final(influences).player_input_influence == old(influences).player_input_influence,
        final(influences).alignment_influence == old(influences).alignment_influence,
        final(influences).cohesion_influence == old(influences).cohesion_influence,
        final(influences).separation_influence == old(influences).separation_influence,
        final(influences).runner_influence == old(influences).runner_influence,
        final(influences).runner_influence_unmodified == old(
            influences,
        ).runner_influence_unmodified,
        final(influences).runner_influence_max == old(influences).runner_influence_max,
        final(influences).grazing_influence == old(influences).grazing_influence,
        final(influences).total_influence == old(influences).total_influence,
        final(influences).max_influence == old(influences).max_influence,
{
    proof {
        crate::flocking::lemma_admissible_component_bounds(velocity, set.max_speed as int);
        lemma_inertia_component(velocity.x as int, set.max_speed as int, inertia_scale as int);
        lemma_inertia_component(velocity.y as int, set.max_speed as int, inertia_scale as int);
    }
    let tx = mul_div_i64(velocity.x, SCALE, set.max_speed);
    let ty = mul_div_i64(velocity.y, SCALE, set.max_speed);
    let ix = mul_div_i64(tx, inertia_scale, 100 * SCALE);
    let iy = mul_div_i64(ty, inertia_scale, 100 * SCALE);
    influences.inertia_influence = Some(Vec3 { x: ix, y: iy, z: 0 });
}

/// The flee magnitude after `n` consecutive ticks with a threat in scare
/// range, starting from zero.
pub open spec fn ramp_magnitude(n: nat, dt: int) -> int
    decreases n,
{
    if n == 0 {
        0
    } else {
        runner_magnitude_step(ramp_magnitude((n - 1) as nat, dt), true, dt)
    }
}

/// Flee ramp law: a threat continuously within scare range for `n` ticks
/// drives the magnitude from zero to exactly
/// `min(1/2 + (n - 1) * dt, 1)` — the first tick jumps straight to one
/// half, each further tick adds `dt`, and one is the ceiling.
pub proof fn lemma_flee_ramp(n: nat, dt: int)
    requires
        n >= 1,
        0 <= dt,
    ensures
        ramp_magnitude(n, dt) == if RUNNER_TRIGGER_MAGNITUDE + (n - 1) * dt <= SCALE {
            RUNNER_TRIGGER_MAGNITUDE + (n - 1) * dt
        } else {
            SCALE as int
        },
    decreases n,
{
    if n == 1 {
        assert(ramp_magnitude(0, dt) == 0);
    } else {
        lemma_flee_ramp((n - 1) as nat, dt);
        assert((n - 2) * dt + dt == (n - 1) * dt) by (nonlinear_arith);
        assert((n - 2) * dt >= 0) by (nonlinear_arith)
            requires
                n >= 2,
                dt >= 0,
        ;
    }
}

/// One tick against a single threat inside scare range moves the flee
/// magnitude exactly one ramp step: the link between the per-tick update
/// and the ramp law.
pub proof fn lemma_flee_tick_is_ramp_step(
    r: Runner,
    position: Vec3,
    threats: Seq<Vec3>,
    scare_distance: int,
    dt: int,
)
    requires
        r.wf(),
        0 <= dt <= DT_MAX,
        threats.len() == 1,
        in_radius(position, threats[0], scare_distance),
    ensures
        runner_after_threats(r, position, threats, scare_distance, dt, 1).magnitude
            == runner_magnitude_step(r.magnitude as int, true, dt),
{
    assert(runner_after_threats(r, position, threats, scare_distance, dt, 0) == r);
    assert(0 <= runner_magnitude_step(r.magnitude as int, true, dt) <= SCALE);
}

/// Flee decay law: once the threat is out of scare range the magnitude
/// strictly decreases every tick, by exactly `dt` until it reaches zero,
/// and zero is where it stays.
pub proof fn lemma_flee_decay(magnitude: int, dt: int)
    requires
        1 <= dt,
        0 <= magnitude <= SCALE,
    ensures
        magnitude > 0 ==> runner_magnitude_step(magnitude, false, dt) < magnitude,
        magnitude >= dt ==> runner_magnitude_step(magnitude, false, dt) == magnitude - dt,
        magnitude < dt ==> runner_magnitude_step(magnitude, false, dt) == 0,
        runner_magnitude_step(0, false, dt) == 0,
{
}

/// Below [`RUNNER_EPSILON`] the flee state yields no vote at all: that is
/// the epsilon floor after which the influence slot stays absent.
pub proof fn lemma_flee_floor(magnitude: int)
    ensures
        magnitude < RUNNER_EPSILON <==> magnitude <= 0,
{
}

} // verus!

