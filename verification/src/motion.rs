//! The influence record and the velocity composer.
//!
//! Each tick, behaviour evaluators write their votes into an [`Influences`]
//! record; [`calculate_velocity`] then reduces the record to one planar
//! velocity under a two-stage clamp: the non-flee behaviours share a unit
//! budget, and the flee vote is added afterwards under its own, possibly
//! higher, ceiling. The final speed therefore never exceeds
//! `max_speed * max(1, speed_fraction)` — that bound is part of the
//! composer's contract.

use vstd::prelude::*;

use crate::configuration::{
    ConfigurationSet, DebugLineType, RunnerConfiguration, MAX_SPEED_MAX, SPEED_FRACTION_MAX,
};
use crate::fixed::{
    abs_i, lemma_mul_div_bound, lemma_scaled_norm_sq, mul_div, mul_div_i64, INFLUENCE_MAX, SCALE,
};
use crate::vec3::{lemma_zero_norm, Vec2, Vec3, VLIM};

verus! {

/// Per-actor, per-tick record of behaviour votes, plus two diagnostic
/// fields the composer fills for visualization only.
#[derive(Clone, Copy, Debug)]
pub struct Influences {
    pub player_input_influence: Option<Vec3>,
    pub alignment_influence: Option<Vec3>,
    pub cohesion_influence: Option<Vec3>,
    pub separation_influence: Option<Vec3>,
    pub runner_influence: Option<Vec3>,
    pub runner_influence_unmodified: Option<Vec3>,
    pub runner_influence_max: Option<Vec3>,
    pub grazing_influence: Option<Vec3>,
    pub inertia_influence: Option<Vec3>,
    pub total_influence: Option<Vec3>,
    pub max_influence: Option<Vec3>,
}

/// An absent influence is in range; a present one is bounded componentwise.
pub open spec fn opt_in_range(o: Option<Vec3>, m: int) -> bool {
    match o {
        Some(v) => v.in_range(m),
        None => true,
    }
}

/// An absent influence contributes nothing; a present one its components.
pub open spec fn opt_v(o: Option<Vec3>) -> (int, int, int) {
    match o {
        Some(v) => (v.x as int, v.y as int, v.z as int),
        None => (0, 0, 0),
    }
}

pub open spec fn t3_add(a: (int, int, int), b: (int, int, int)) -> (int, int, int) {
    (a.0 + b.0, a.1 + b.1, a.2 + b.2)
}

pub open spec fn t3_norm_sq(t: (int, int, int)) -> int {
    t.0 * t.0 + t.1 * t.1 + t.2 * t.2
}

/// Exact mirror of [`Vec3::rescale_or_zero`] on unbounded triples.
pub open spec fn rescale3(t: (int, int, int), target: int) -> (int, int, int) {
    if t3_norm_sq(t) == 0 {
        (0, 0, 0)
    } else {
        let rc = crate::fixed::sqrt_ceil(t3_norm_sq(t));
        (mul_div(t.0, target, rc), mul_div(t.1, target, rc), mul_div(t.2, target, rc))
    }
}

/// Leave a triple alone while its norm is within `cap`, else rescale to it.
pub open spec fn clamp3(t: (int, int, int), cap: int) -> (int, int, int) {
    if t3_norm_sq(t) > cap * cap {
        rescale3(t, cap)
    } else {
        t
    }
}

/// Normalize-or-zero on triples.
pub open spec fn normalize3(t: (int, int, int)) -> (int, int, int) {
    rescale3(t, SCALE as int)
}

pub open spec fn vec3_of(t: (int, int, int)) -> Vec3 {
    Vec3 { x: t.0 as i64, y: t.1 as i64, z: t.2 as i64 }
}

pub open spec fn vec2_of(t: (int, int)) -> Vec2 {
    Vec2 { x: t.0 as i64, y: t.1 as i64 }
}

impl Influences {
    /// The record with every slot empty, as each tick starts.
    pub open spec fn empty_spec() -> Influences {
        Influences {
            player_input_influence: None,
            alignment_influence: None,
            cohesion_influence: None,
            separation_influence: None,
            runner_influence: None,
            runner_influence_unmodified: None,
            runner_influence_max: None,
            grazing_influence: None,
            inertia_influence: None,
            total_influence: None,
            max_influence: None,
        }
    }

    pub fn empty() -> (r: Influences)
        ensures
            r == Influences::empty_spec(),
    {
        Influences {
            player_input_influence: None,
            alignment_influence: None,
            cohesion_influence: None,
            separation_influence: None,
            runner_influence: None,
            runner_influence_unmodified: None,
            runner_influence_max: None,
            grazing_influence: None,
            inertia_influence: None,
            total_influence: None,
            max_influence: None,
        }
    }

    /// Every present influence is componentwise bounded.
    pub open spec fn wf(self) -> bool {
        &&& opt_in_range(self.player_input_influence, INFLUENCE_MAX as int)
        &&& opt_in_range(self.alignment_influence, INFLUENCE_MAX as int)
        &&& opt_in_range(self.cohesion_influence, INFLUENCE_MAX as int)
        &&& opt_in_range(self.separation_influence, INFLUENCE_MAX as int)
        &&& opt_in_range(self.runner_influence, INFLUENCE_MAX as int)
        &&& opt_in_range(self.runner_influence_unmodified, INFLUENCE_MAX as int)
        &&& opt_in_range(self.runner_influence_max, INFLUENCE_MAX as int)
        &&& opt_in_range(self.grazing_influence, INFLUENCE_MAX as int)
        &&& opt_in_range(self.inertia_influence, INFLUENCE_MAX as int)
        &&& opt_in_range(self.total_influence, INFLUENCE_MAX as int)
        &&& opt_in_range(self.max_influence, INFLUENCE_MAX as int)
    }
}

impl Default for Influences {
    fn default() -> (r: Influences)
        ensures
            r == Influences::empty_spec(),
    {
        Influences::empty()
    }
}

/// Sum of the non-flee votes: player input, alignment, cohesion,
/// separation, grazing and inertia; an empty slot contributes nothing.
pub open spec fn non_runner_total(inf: Influences) -> (int, int, int) {
    (
        opt_v(inf.player_input_influence).0 + opt_v(inf.alignment_influence).0 + opt_v(
            inf.cohesion_influence,
        ).0 + opt_v(inf.separation_influence).0 + opt_v(inf.grazing_influence).0 + opt_v(
            inf.inertia_influence,
        ).0,
        opt_v(inf.player_input_influence).1 + opt_v(inf.alignment_influence).1 + opt_v(
            inf.cohesion_influence,
        ).1 + opt_v(inf.separation_influence).1 + opt_v(inf.grazing_influence).1 + opt_v(
            inf.inertia_influence,
        ).1,
        opt_v(inf.player_input_influence).2 + opt_v(inf.alignment_influence).2 + opt_v(
            inf.cohesion_influence,
        ).2 + opt_v(inf.separation_influence).2 + opt_v(inf.grazing_influence).2 + opt_v(
            inf.inertia_influence,
        ).2,
    )
}

/// The composed pre-speed total: non-flee votes clamped to the unit budget,
/// then the flee vote added and the sum clamped to `speed_fraction`.
pub open spec fn composed_total(inf: Influences, speed_fraction: int) -> (int, int, int) {
    let t = clamp3(non_runner_total(inf), SCALE as int);
    match inf.runner_influence {
        None => t,
        Some(r) => clamp3(t3_add(t, (r.x as int, r.y as int, r.z as int)), speed_fraction),
    }
}

/// The planar velocity an actor is given: the composed total times its
/// role's top speed.
pub open spec fn planar_velocity(t: (int, int, int), max_speed: int) -> (int, int) {
    (mul_div(t.0, max_speed, SCALE as int), mul_div(t.1, max_speed, SCALE as int))
}

/// The effective ceiling on the composed total's norm.
pub open spec fn speed_cap(speed_fraction: int) -> int {
    if speed_fraction >= SCALE {
        speed_fraction
    } else {
        SCALE as int
    }
}

/// With no neighbours in any radius the three flocking votes are absent,
/// and the composed total is the sum of the player-input, grazing and
/// inertia votes alone, clamped to the unit budget.
pub proof fn lemma_no_neighbour_composition(inf: Influences, speed_fraction: int)
    requires
        inf.alignment_influence is None,
        inf.cohesion_influence is None,
        inf.separation_influence is None,
        inf.runner_influence is None,
    ensures
        composed_total(inf, speed_fraction) == clamp3(
            (
                opt_v(inf.player_input_influence).0 + opt_v(inf.grazing_influence).0 + opt_v(
                    inf.inertia_influence,
                ).0,
                opt_v(inf.player_input_influence).1 + opt_v(inf.grazing_influence).1 + opt_v(
                    inf.inertia_influence,
                ).1,
                opt_v(inf.player_input_influence).2 + opt_v(inf.grazing_influence).2 + opt_v(
                    inf.inertia_influence,
                ).2,
            ),
            SCALE as int,
        ),
{
}

/// The standing bound on an actor's velocity: what the composer may have
/// written under any admissible configuration. Evaluators that divide by
/// the role's top speed rely on it.
pub open spec fn velocity_admissible(v: Vec2, max_speed: int) -> bool {
    v.norm_sq() * (SCALE * SCALE) <= (max_speed * max_speed) * ((SPEED_FRACTION_MAX as int)
        * (SPEED_FRACTION_MAX as int))
}

/// The velocity bound the composer guarantees implies admissibility, for
/// any configured flee ceiling: what an actor's velocity satisfies from
/// one tick to the next.
pub proof fn lemma_composed_velocity_admissible(v: Vec2, max_speed: int, speed_fraction: int)
    requires
        0 <= speed_fraction <= SPEED_FRACTION_MAX,
        max_speed >= 0,
        v.norm_sq() * (SCALE * SCALE) <= (speed_cap(speed_fraction) * speed_cap(speed_fraction))
            * (max_speed * max_speed),
    ensures
        velocity_admissible(v, max_speed),
{
    let cap = speed_cap(speed_fraction);
    crate::fixed::lemma_square_le(cap, SPEED_FRACTION_MAX as int);
    assert((cap * cap) * (max_speed * max_speed) <= ((SPEED_FRACTION_MAX as int)
        * (SPEED_FRACTION_MAX as int)) * (max_speed * max_speed)) by (nonlinear_arith)
        requires
            cap * cap <= (SPEED_FRACTION_MAX as int) * (SPEED_FRACTION_MAX as int),
            max_speed * max_speed >= 0,
    ;
}

/// Empty every influence record, as the start of a tick requires.
pub fn reset_influences(influences: &mut Vec<Influences>)
    ensures
        final(influences).len() == old(influences).len(),
        forall|i: int|
            0 <= i < final(influences).len() ==> final(influences)[i]
                == Influences::empty_spec(),
{
    let n = influences.len();
    let mut fresh: Vec<Influences> = Vec::new();
    let mut k: usize = 0;
    while k < n
        invariant
            k == fresh.len() <= n,
            forall|i: int| 0 <= i < k ==> fresh[i] == Influences::empty_spec(),
        decreases n - k,
    {
        fresh.push(Influences::empty());
        k = k + 1;
    }
    *influences = fresh;
}

/// The influence a diagnostic overlay line shows.
pub open spec fn debug_line_influence_spec(inf: Influences, line: DebugLineType) -> Option<Vec3> {
    match line {
        DebugLineType::NoLine => None,
        DebugLineType::AlignmentInfluence => inf.alignment_influence,
        DebugLineType::CohesionInfluence => inf.cohesion_influence,
        DebugLineType::SeparationInfluence => inf.separation_influence,
        DebugLineType::RunnerInfluence => inf.runner_influence,
        DebugLineType::RunnerUnmodifiedInfluence => inf.runner_influence_unmodified,
        DebugLineType::RunnerMaxInfluence => inf.runner_influence_max,
        DebugLineType::GrazingInfluence => inf.grazing_influence,
        DebugLineType::InertiaInfluence => inf.inertia_influence,
        DebugLineType::TotalInfluence => inf.total_influence,
        DebugLineType::MaxInfluence => inf.max_influence,
    }
}

/// Pick the influence a diagnostic overlay line shows; drawing it is the
/// renderer's business.
pub fn debug_line_influence(influences: &Influences, line: &DebugLineType) -> (r: Option<Vec3>)
    ensures
        r == debug_line_influence_spec(*influences, *line),
{
    match line {
        DebugLineType::NoLine => None,
        DebugLineType::AlignmentInfluence => influences.alignment_influence,
        DebugLineType::CohesionInfluence => influences.cohesion_influence,
        DebugLineType::SeparationInfluence => influences.separation_influence,
        DebugLineType::RunnerInfluence => influences.runner_influence,
        DebugLineType::RunnerUnmodifiedInfluence => influences.runner_influence_unmodified,
        DebugLineType::RunnerMaxInfluence => influences.runner_influence_max,
        DebugLineType::GrazingInfluence => influences.grazing_influence,
        DebugLineType::InertiaInfluence => influences.inertia_influence,
        DebugLineType::TotalInfluence => influences.total_influence,
        DebugLineType::MaxInfluence => influences.max_influence,
    }
}

/// Compose the recorded influences into the actor's planar velocity.
///
/// The two diagnostic fields are filled with the composed total and its
/// normalized form; every other field is left as the evaluators wrote it.
/// Reduce the record to the composed pre-speed total: sum the non-flee
/// votes, clamp to the unit budget, add the flee vote, clamp to its
/// ceiling.
#[verifier::rlimit(100)]
fn compose_total(influences: &Influences, runner_config: &RunnerConfiguration) -> (total: Vec3)
    requires
        influences.wf(),
        runner_config.valid(),
    ensures
        ({
            let ct = composed_total(*influences, runner_config.speed_fraction as int);
            let cap = speed_cap(runner_config.speed_fraction as int);
            &&& total.x == ct.0
            &&& total.y == ct.1
            &&& total.z == ct.2
            &&& total.norm_sq() <= cap * cap
            &&& total.in_range(cap)
        }),
{
    let ghost inf0 = *influences;
    let ghost sfi = runner_config.speed_fraction as int;
    let mut total = non_runner_sum(influences);
    let nsq = total.norm_sq_wide();
    if nsq > (SCALE * SCALE) as u128 {
        total = total.rescale_or_zero(SCALE);
    }
    proof {
        let t = clamp3(non_runner_total(inf0), SCALE as int);
        assert(total.x == t.0 && total.y == t.1 && total.z == t.2);
        assert(total.norm_sq() <= SCALE * SCALE);
    }
    if let Some(influence) = influences.runner_influence {
        total = total.add(influence);
        let nsq2 = total.norm_sq_wide();
        let sf = runner_config.speed_fraction;
        proof {
            assert((sf as u128) * (sf as u128) <= 0x1_0000_0000_0000_0000u128) by (nonlinear_arith)
                requires
                    0 <= sf <= SPEED_FRACTION_MAX,
            ;
        }
        if nsq2 > (sf as u128) * (sf as u128) {
            total = total.rescale_or_zero(sf);
        }
        proof {
            assert(total.norm_sq() <= sfi * sfi);
        }
    }
    proof {
        let ct = composed_total(inf0, sfi);
        let cap = speed_cap(sfi);
        assert(total.x == ct.0 && total.y == ct.1 && total.z == ct.2);
        crate::fixed::lemma_square_le(SCALE as int, cap);
        if inf0.runner_influence is Some {
            crate::fixed::lemma_square_le(sfi, cap);
        }
        assert(total.norm_sq() <= cap * cap);
        lemma_components_from_norm(total, cap);
    }
    total
}

/// The norm of the scaled planar velocity is bounded by the norm bound of
/// the total it was scaled from.
proof fn lemma_velocity_cap(t: (int, int, int), max_speed: int, cap: int)
    requires
        max_speed >= 0,
        cap >= 0,
        t3_norm_sq(t) <= cap * cap,
    ensures
        ({
            let vx = mul_div(t.0, max_speed, SCALE as int);
            let vy = mul_div(t.1, max_speed, SCALE as int);
            (vx * vx + vy * vy) * (SCALE * SCALE) <= (cap * cap) * (max_speed * max_speed)
        }),
{
    lemma_scaled_norm_sq(t.0, t.1, t.2, max_speed, SCALE as int, cap * cap);
    let vx = mul_div(t.0, max_speed, SCALE as int);
    let vy = mul_div(t.1, max_speed, SCALE as int);
    let qz = mul_div(t.2, max_speed, SCALE as int);
    assert(qz * qz >= 0) by (nonlinear_arith);
    assert((vx * vx + vy * vy) * (SCALE * SCALE) <= (vx * vx + vy * vy + qz * qz) * (SCALE
        * SCALE)) by (nonlinear_arith)
        requires
            qz * qz >= 0,
    ;
}

/// Compose the recorded influences into the actor's planar velocity.
///
/// The two diagnostic fields are filled with the composed total and its
/// normalized form; every other field is left as the evaluators wrote it.
#[verifier::rlimit(100)]
pub fn calculate_velocity(
    influences: &mut Influences,
    set: &ConfigurationSet,
    runner_config: &RunnerConfiguration,
) -> (velocity: Vec2)
    requires
        old(influences).wf(),
        set.valid(),
        runner_config.valid(),
    ensures
        final(influences).wf(),
        final(influences).total_influence == Some(
            vec3_of(composed_total(*old(influences), runner_config.speed_fraction as int)),
        ),
        final(influences).max_influence == Some(
            vec3_of(
                normalize3(composed_total(*old(influences), runner_config.speed_fraction as int)),
            ),
        ),
        final(influences).player_input_influence == old(influences).player_input_influence,
        final(influences).alignment_influence == old(influences).alignment_influence,
        final(influences).cohesion_influence == old(influences).cohesion_influence,
        final(influences).separation_influence == old(influences).separation_influence,
        final(influences).runner_influence == old(influences).runner_influence,
        final(influences).runner_influence_unmodified == old(
            influences,
        ).runner_influence_unmodified,
        final(influences).runner_influence_max == old(influences).runner_influence_max,
        final(influences).grazing_influence == old(influences).grazing_influence,
        final(influences).inertia_influence == old(influences).inertia_influence,
        velocity == vec2_of(
            planar_velocity(
                composed_total(*old(influences), runner_config.speed_fraction as int),
                set.max_speed as int,
            ),
        ),
        velocity.norm_sq() * (SCALE * SCALE) <= (speed_cap(runner_config.speed_fraction as int)
            * speed_cap(runner_config.speed_fraction as int)) * (set.max_speed * set.max_speed),
{
    let ghost inf0 = *influences;
    let ghost sfi = runner_config.speed_fraction as int;
    let ghost ct = composed_total(inf0, sfi);
    let ghost cap = speed_cap(sfi);
    let total = compose_total(influences, runner_config);
    influences.total_influence = Some(total);
    let maxed = total.normalize_or_zero();
    proof {
        assert(t3_norm_sq(ct) == total.norm_sq());
        assert(total.x * total.x >= 0 && total.y * total.y >= 0 && total.z * total.z >= 0)
            by (nonlinear_arith);
        if total.norm_sq() == 0 {
            lemma_zero_norm(total);
            assert(normalize3(ct) == (0int, 0int, 0int));
        } else {
            assert(total.norm_sq() > 0);
        }
        assert(maxed == vec3_of(normalize3(ct)));
    }
    influences.max_influence = Some(maxed);
    proof {
        assert(cap <= SPEED_FRACTION_MAX);
        assert(abs_i(total.x as int) * abs_i(set.max_speed as int) <= VLIM * SCALE)
            by (nonlinear_arith)
            requires
                abs_i(total.x as int) <= SPEED_FRACTION_MAX,
                abs_i(set.max_speed as int) <= MAX_SPEED_MAX,
                VLIM == 100_000_000_000_000_000,
                SCALE == 1_000_000,
                SPEED_FRACTION_MAX == 100_000_000,
                MAX_SPEED_MAX == 10_000_000_000,
        ;
        assert(abs_i(total.y as int) * abs_i(set.max_speed as int) <= VLIM * SCALE)
            by (nonlinear_arith)
            requires
                abs_i(total.y as int) <= SPEED_FRACTION_MAX,
                abs_i(set.max_speed as int) <= MAX_SPEED_MAX,
                VLIM == 100_000_000_000_000_000,
                SCALE == 1_000_000,
                SPEED_FRACTION_MAX == 100_000_000,
                MAX_SPEED_MAX == 10_000_000_000,
        ;
        lemma_mul_div_bound(total.x as int, set.max_speed as int, SCALE as int, VLIM as int);
        lemma_mul_div_bound(total.y as int, set.max_speed as int, SCALE as int, VLIM as int);
    }
    let vx = mul_div_i64(total.x, set.max_speed, SCALE);
    let vy = mul_div_i64(total.y, set.max_speed, SCALE);
    let velocity = Vec2 { x: vx, y: vy };
    proof {
        lemma_velocity_cap(ct, set.max_speed as int, cap);
        assert((cap * cap) * ((set.max_speed as int) * (set.max_speed as int)) == (cap * cap) * (
        set.max_speed * set.max_speed));
    }
    velocity
}

/// Componentwise bound on a sum of six influences.
pub const SUM_BOUND: i64 = 60_000_000_000_000_000;

/// Sum the non-flee votes in the composer's fixed order.
#[verifier::rlimit(100)]
fn non_runner_sum(influences: &Influences) -> (total: Vec3)
    requires
        influences.wf(),
    ensures
        total.x == non_runner_total(*influences).0,
        total.y == non_runner_total(*influences).1,
        total.z == non_runner_total(*influences).2,
        -SUM_BOUND <= total.x <= SUM_BOUND,
        -SUM_BOUND <= total.y <= SUM_BOUND,
        -SUM_BOUND <= total.z <= SUM_BOUND,
{
    let a = opt_or_zero(influences.player_input_influence);
    let b = opt_or_zero(influences.alignment_influence);
    let c = opt_or_zero(influences.cohesion_influence);
    let d = opt_or_zero(influences.separation_influence);
    let e = opt_or_zero(influences.grazing_influence);
    let f = opt_or_zero(influences.inertia_influence);
    Vec3 {
        x: a.x + b.x + c.x + d.x + e.x + f.x,
        y: a.y + b.y + c.y + d.y + e.y + f.y,
        z: a.z + b.z + c.z + d.z + e.z + f.z,
    }
}

/// A present influence, or the zero vector for an empty slot.
fn opt_or_zero(o: Option<Vec3>) -> (r: Vec3)
    requires
        opt_in_range(o, INFLUENCE_MAX as int),
    ensures
        r.x == opt_v(o).0,
        r.y == opt_v(o).1,
        r.z == opt_v(o).2,
        -INFLUENCE_MAX <= r.x <= INFLUENCE_MAX,
        -INFLUENCE_MAX <= r.y <= INFLUENCE_MAX,
        -INFLUENCE_MAX <= r.z <= INFLUENCE_MAX,
{
    match o {
        Some(v) => v,
        None => Vec3 { x: 0, y: 0, z: 0 },
    }
}

/// Component magnitudes never exceed the norm bound.
proof fn lemma_components_from_norm(v: Vec3, b: int)
    requires
        b >= 0,
        v.norm_sq() <= b * b,
    ensures
        v.in_range(b),
{
    assert(v.x * v.x >= 0 && v.y * v.y >= 0 && v.z * v.z >= 0) by (nonlinear_arith);
    crate::fixed::lemma_square_le_converse(v.x as int, b);
    crate::fixed::lemma_square_le_converse(v.y as int, b);
    crate::fixed::lemma_square_le_converse(v.z as int, b);
}

} // verus!
