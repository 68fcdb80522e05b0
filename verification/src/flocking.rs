//! Neighbour discovery and the flocking triad: alignment, cohesion and
//! separation.
//!
//! Discovery runs once per tick, before any evaluator: for each
//! flocking-capable actor it gathers, from the previous tick's positions
//! and velocities, the neighbours inside each of the three configured
//! radii. The distance test is Euclidean and strict, decided exactly on
//! squared norms; an actor never appears in its own sample.

use vstd::prelude::*;

use crate::configuration::{ConfigurationSet, Configuration, FlockingConfiguration};
use crate::fixed::{
    abs_i, div_trunc, lemma_mul_div_abs, lemma_mul_div_bound, lemma_sqrt_floor_bounds,
    lemma_square_le, lemma_square_le_converse, mul_div, mul_div_i64, mul_div_wide, sqrt_floor,
    COORD_MAX, INFLUENCE_MAX, SCALE,
};
use crate::motion::{vec3_of, Influences};
use crate::vec3::{dist, dist_sq, distance, lemma_norm_sq_range, Vec2, Vec3};

verus! {

/// Largest number of actors a tick is sized for.
pub const MAX_ACTORS: usize = 1_000_000;

/// A neighbour as the flocking evaluators see it: where it was, and how it
/// moved, last tick.
#[derive(Clone, Copy, Debug, PartialEq, Eq, Structural)]
pub struct NeighbourPair {
    pub position: Vec3,
    pub velocity: Vec3,
}

/// One actor's position and previous-tick velocity, the input to discovery.
#[derive(Clone, Copy, Debug, PartialEq, Eq, Structural)]
pub struct ActorSnapshot {
    pub position: Vec3,
    pub velocity: Vec2,
}

impl ActorSnapshot {
    pub open spec fn wf(self) -> bool {
        self.position.in_range(COORD_MAX as int) && self.velocity.in_range(COORD_MAX as int)
    }
}

/// Per-actor, per-tick neighbour sample, rebuilt from scratch each tick.
#[derive(Debug)]
pub struct Flocking {
    pub alignment_values: Vec<NeighbourPair>,
    pub cohesion_positions: Vec<Vec3>,
    pub separation_positions: Vec<Vec3>,
}

impl Flocking {
    pub open spec fn wf(self) -> bool {
        &&& self.alignment_values@.len() <= MAX_ACTORS
        &&& self.cohesion_positions@.len() <= MAX_ACTORS
        &&& self.separation_positions@.len() <= MAX_ACTORS
        &&& forall|i: int|
            0 <= i < self.alignment_values@.len() ==> (
            #[trigger] self.alignment_values@[i]).position.in_range(COORD_MAX as int)
                && self.alignment_values@[i].velocity.in_range(COORD_MAX as int)
        &&& forall|i: int|
            0 <= i < self.cohesion_positions@.len() ==> (
            #[trigger] self.cohesion_positions@[i]).in_range(COORD_MAX as int)
        &&& forall|i: int|
            0 <= i < self.separation_positions@.len() ==> (
            #[trigger] self.separation_positions@[i]).in_range(COORD_MAX as int)
    }

    /// An empty sample.
    pub fn new() -> (r: Flocking)
        ensures
            r.alignment_values@.len() == 0,
            r.cohesion_positions@.len() == 0,
            r.separation_positions@.len() == 0,
            r.wf(),
    {
        Flocking {
            alignment_values: Vec::new(),
            cohesion_positions: Vec::new(),
            separation_positions: Vec::new(),
        }
    }
}

impl Default for Flocking {
    fn default() -> (r: Flocking)
        ensures
            r.alignment_values@.len() == 0,
            r.cohesion_positions@.len() == 0,
            r.separation_positions@.len() == 0,
            r.wf(),
    {
        Flocking::new()
    }
}

/// The strict Euclidean distance test, decided on squared norms.
pub open spec fn in_radius(p: Vec3, centre: Vec3, radius: int) -> bool {
    dist_sq(p, centre) < radius * radius
}

/// The neighbour a snapshot contributes: its position, and its planar
/// velocity lifted with a zero z component.
pub open spec fn pair_of(a: ActorSnapshot) -> NeighbourPair {
    NeighbourPair {
        position: a.position,
        velocity: Vec3 { x: a.velocity.x, y: a.velocity.y, z: 0i64 },
    }
}

/// The alignment sample drawn from the first `k` actors: every actor but
/// the `i`th whose position lies strictly inside the radius, in order.
pub open spec fn sample_pairs(
    actors: Seq<ActorSnapshot>,
    i: int,
    centre: Vec3,
    radius: int,
    k: int,
) -> Seq<NeighbourPair>
    decreases k,
{
    if k <= 0 {
        Seq::empty()
    } else {
        let prev = sample_pairs(actors, i, centre, radius, k - 1);
        if k - 1 != i && in_radius(actors[k - 1].position, centre, radius) {
            prev.push(pair_of(actors[k - 1]))
        } else {
            prev
        }
    }
}

/// The position sample drawn from the first `k` actors, likewise.
pub open spec fn sample_positions(
    actors: Seq<ActorSnapshot>,
    i: int,
    centre: Vec3,
    radius: int,
    k: int,
) -> Seq<Vec3>
    decreases k,
{
    if k <= 0 {
        Seq::empty()
    } else {
        let prev = sample_positions(actors, i, centre, radius, k - 1);
        if k - 1 != i && in_radius(actors[k - 1].position, centre, radius) {
            prev.push(actors[k - 1].position)
        } else {
            prev
        }
    }
}

/// What discovery owes one actor: each enabled list holds exactly the
/// neighbours inside its radius, each disabled list is empty.
pub open spec fn is_sample_of(
    f: Flocking,
    actors: Seq<ActorSnapshot>,
    i: int,
    config: FlockingConfiguration,
) -> bool {
    let centre = actors[i].position;
    let n = actors.len() as int;
    &&& f.alignment_values@ == if config.alignment_enabled {
        sample_pairs(actors, i, centre, config.alignment_distance as int, n)
    } else {
        Seq::<NeighbourPair>::empty()
    }
    &&& f.cohesion_positions@ == if config.cohesion_enabled {
        sample_positions(actors, i, centre, config.cohesion_distance as int, n)
    } else {
        Seq::<Vec3>::empty()
    }
    &&& f.separation_positions@ == if config.separation_enabled {
        sample_positions(actors, i, centre, config.separation_distance as int, n)
    } else {
        Seq::<Vec3>::empty()
    }
}

proof fn lemma_sample_pairs_wf(
    actors: Seq<ActorSnapshot>,
    i: int,
    centre: Vec3,
    radius: int,
    k: int,
)
    requires
        0 <= k <= actors.len(),
        forall|j: int| 0 <= j < actors.len() ==> (#[trigger] actors[j]).wf(),
    ensures
        sample_pairs(actors, i, centre, radius, k).len() <= k,
        forall|j: int|
            0 <= j < sample_pairs(actors, i, centre, radius, k).len() ==> (
            #[trigger] sample_pairs(actors, i, centre, radius, k)[j]).position.in_range(
                COORD_MAX as int,
            ) && sample_pairs(actors, i, centre, radius, k)[j].velocity.in_range(COORD_MAX as int),
    decreases k,
{
    if k > 0 {
        lemma_sample_pairs_wf(actors, i, centre, radius, k - 1);
    }
}

proof fn lemma_sample_positions_wf(
    actors: Seq<ActorSnapshot>,
    i: int,
    centre: Vec3,
    radius: int,
    k: int,
)
    requires
        0 <= k <= actors.len(),
        forall|j: int| 0 <= j < actors.len() ==> (#[trigger] actors[j]).wf(),
    ensures
        sample_positions(actors, i, centre, radius, k).len() <= k,
        forall|j: int|
            0 <= j < sample_positions(actors, i, centre, radius, k).len() ==> (
            #[trigger] sample_positions(actors, i, centre, radius, k)[j]).in_range(COORD_MAX as int),
    decreases k,
{
    if k > 0 {
        lemma_sample_positions_wf(actors, i, centre, radius, k - 1);
    }
}

/// The strict distance test for two points inside the world bound.
pub(crate) fn within_radius(p: Vec3, centre: Vec3, radius: i64) -> (r: bool)
    requires
        p.in_range(COORD_MAX as int),
        centre.in_range(COORD_MAX as int),
        0 <= radius,
    ensures
        r == in_radius(p, centre, radius as int),
{
    let d = p.sub(centre);
    let nsq = d.norm_sq_wide();
    proof {
        assert(d.norm_sq() == dist_sq(p, centre));
        assert((radius as u128) * (radius as u128) <= u128::MAX) by (nonlinear_arith)
            requires
                0 <= radius <= 0x7FFF_FFFF_FFFF_FFFFi64,
        ;
    }
    nsq < (radius as u128) * (radius as u128)
}

/// Build one actor's neighbour sample from last tick's snapshots.
///
/// A disabled behaviour's list stays empty; when every behaviour is
/// disabled the scan is skipped outright, which changes nothing visible.
pub fn find_flocking_neighbours_for(
    index: usize,
    actors: &Vec<ActorSnapshot>,
    config: &FlockingConfiguration,
) -> (r: Flocking)
    requires
        index < actors@.len(),
        actors@.len() <= MAX_ACTORS,
        forall|j: int| 0 <= j < actors@.len() ==> (#[trigger] actors@[j]).wf(),
        config.valid(),
    ensures
        is_sample_of(r, actors@, index as int, *config),
        r.wf(),
{
    let mut r = Flocking::new();
    let ghost centre_g = actors@[index as int].position;
    let ghost n = actors@.len() as int;
    if !(config.alignment_enabled || config.cohesion_enabled || config.separation_enabled) {
        proof {
            assert(r.alignment_values@ =~= Seq::<NeighbourPair>::empty());
            assert(r.cohesion_positions@ =~= Seq::<Vec3>::empty());
            assert(r.separation_positions@ =~= Seq::<Vec3>::empty());
        }
        return r;
    }
    let centre = actors[index].position;
    let mut j: usize = 0;
    while j < actors.len()
        invariant
            j <= actors@.len() <= MAX_ACTORS,
            index < actors@.len(),
            forall|t: int| 0 <= t < actors@.len() ==> (#[trigger] actors@[t]).wf(),
            config.valid(),
            centre == actors@[index as int].position,
            r.alignment_values@ == if config.alignment_enabled {
                sample_pairs(actors@, index as int, centre, config.alignment_distance as int, j as int)
            } else {
                Seq::<NeighbourPair>::empty()
            },
            r.cohesion_positions@ == if config.cohesion_enabled {
                sample_positions(actors@, index as int, centre, config.cohesion_distance as int, j as int)
            } else {
                Seq::<Vec3>::empty()
            },
            r.separation_positions@ == if config.separation_enabled {
                sample_positions(actors@, index as int, centre, config.separation_distance as int, j as int)
            } else {
                Seq::<Vec3>::empty()
            },
        decreases actors@.len() - j,
    {
        if j != index {
            let other = actors[j];
            if config.alignment_enabled && within_radius(
                other.position,
                centre,
                config.alignment_distance,
            ) {
                r.alignment_values.push(
                    NeighbourPair {
                        position: other.position,
                        velocity: Vec3 { x: other.velocity.x, y: other.velocity.y, z: 0 },
                    },
                );
            }
            if config.cohesion_enabled && within_radius(
                other.position,
                centre,
                config.cohesion_distance,
            ) {
                r.cohesion_positions.push(other.position);
            }
            if config.separation_enabled && within_radius(
                other.position,
                centre,
                config.separation_distance,
            ) {
                r.separation_positions.push(other.position);
            }
        }
        j = j + 1;
    }
    proof {
        lemma_sample_pairs_wf(
            actors@,
            index as int,
            centre,
            config.alignment_distance as int,
            n,
        );
        lemma_sample_positions_wf(
            actors@,
            index as int,
            centre,
            config.cohesion_distance as int,
            n,
        );
        lemma_sample_positions_wf(
            actors@,
            index as int,
            centre,
            config.separation_distance as int,
            n,
        );
    }
    r
}

/// Build every actor's neighbour sample for this tick, from the previous
/// tick's positions and velocities.
pub fn find_flocking_neighbours(actors: &Vec<ActorSnapshot>, config: &FlockingConfiguration) -> (r:
    Vec<Flocking>)
    requires
        actors@.len() <= MAX_ACTORS,
        forall|j: int| 0 <= j < actors@.len() ==> (#[trigger] actors@[j]).wf(),
        config.valid(),
    ensures
        r@.len() == actors@.len(),
        forall|i: int|
            0 <= i < actors@.len() ==> is_sample_of(#[trigger] r@[i], actors@, i, *config),
        forall|i: int| 0 <= i < actors@.len() ==> (#[trigger] r@[i]).wf(),
{
    let mut r: Vec<Flocking> = Vec::new();
    let mut i: usize = 0;
    while i < actors.len()
        invariant
            i == r@.len() <= actors@.len() <= MAX_ACTORS,
            forall|j: int| 0 <= j < actors@.len() ==> (#[trigger] actors@[j]).wf(),
            config.valid(),
            forall|t: int| 0 <= t < i ==> is_sample_of(#[trigger] r@[t], actors@, t, *config),
            forall|t: int| 0 <= t < i ==> (#[trigger] r@[t]).wf(),
        decreases actors@.len() - i,
    {
        let sample = find_flocking_neighbours_for(i, actors, config);
        r.push(sample);
        i = i + 1;
    }
    r
}

/// Neighbour discovery is a function of its inputs alone: any two samples
/// that discovery may return for the same actors and configuration hold
/// the same three lists.
pub proof fn lemma_neighbour_discovery_deterministic(
    f1: Flocking,
    f2: Flocking,
    actors: Seq<ActorSnapshot>,
    i: int,
    config: FlockingConfiguration,
)
    requires
        is_sample_of(f1, actors, i, config),
        is_sample_of(f2, actors, i, config),
    ensures
        f1.alignment_values@ == f2.alignment_values@,
        f1.cohesion_positions@ == f2.cohesion_positions@,
        f1.separation_positions@ == f2.separation_positions@,
{
}


/// Linear falloff weight of an alignment neighbour: `(maxDist - dist) /
/// maxDist`, floored at the configured cap fraction so a near-boundary
/// neighbour is never discounted to nothing.
pub open spec fn alignment_weight(
    p: Vec3,
    centre: Vec3,
    max_distance: int,
    cap_fraction: int,
) -> int {
    let ds = mul_div(max_distance - dist(p, centre), SCALE as int, max_distance);
    if ds >= cap_fraction {
        ds
    } else {
        cap_fraction
    }
}

/// A neighbour's velocity under its falloff weight.
pub open spec fn weighted_velocity(
    pair: NeighbourPair,
    centre: Vec3,
    max_distance: int,
    cap_fraction: int,
) -> (int, int, int) {
    let w = alignment_weight(pair.position, centre, max_distance, cap_fraction);
    (
        mul_div(pair.velocity.x as int, w, SCALE as int),
        mul_div(pair.velocity.y as int, w, SCALE as int),
        mul_div(pair.velocity.z as int, w, SCALE as int),
    )
}

/// Sum of the first `k` weighted neighbour velocities.
pub open spec fn alignment_sum(
    pairs: Seq<NeighbourPair>,
    centre: Vec3,
    max_distance: int,
    cap_fraction: int,
    k: int,
) -> (int, int, int)
    decreases k,
{
    if k <= 0 {
        (0, 0, 0)
    } else {
        let prev = alignment_sum(pairs, centre, max_distance, cap_fraction, k - 1);
        let w = weighted_velocity(pairs[k - 1], centre, max_distance, cap_fraction);
        (prev.0 + w.0, prev.1 + w.1, prev.2 + w.2)
    }
}

/// The alignment influence of a non-empty sample: the average weighted
/// neighbour velocity, scaled by `alignment_scale / 10000`.
pub open spec fn alignment_influence_spec(
    pairs: Seq<NeighbourPair>,
    centre: Vec3,
    config: FlockingConfiguration,
) -> (int, int, int) {
    let n = pairs.len() as int;
    let s = alignment_sum(
        pairs,
        centre,
        config.alignment_distance as int,
        config.alignment_distance_cap_fraction as int,
        n,
    );
    (
        mul_div(div_trunc(s.0, n), config.alignment_scale as int, 10_000 * (SCALE as int)),
        mul_div(div_trunc(s.1, n), config.alignment_scale as int, 10_000 * (SCALE as int)),
        mul_div(div_trunc(s.2, n), config.alignment_scale as int, 10_000 * (SCALE as int)),
    )
}

/// Points inside the world bound are at most this far apart.
proof fn lemma_dist_bound(p: Vec3, centre: Vec3)
    requires
        p.in_range(COORD_MAX as int),
        centre.in_range(COORD_MAX as int),
    ensures
        0 <= dist_sq(p, centre) <= 16_000_000_000_000_000_000_000_000,
        0 <= dist(p, centre) <= 4_000_000_000_000,
{
    let dx = p.x - centre.x;
    let dy = p.y - centre.y;
    let dz = p.z - centre.z;
    assert(0 <= dx * dx <= 4_000_000_000_000_000_000_000_000) by (nonlinear_arith)
        requires
            -2_000_000_000_000 <= dx <= 2_000_000_000_000,
    ;
    assert(0 <= dy * dy <= 4_000_000_000_000_000_000_000_000) by (nonlinear_arith)
        requires
            -2_000_000_000_000 <= dy <= 2_000_000_000_000,
    ;
    assert(0 <= dz * dz <= 4_000_000_000_000_000_000_000_000) by (nonlinear_arith)
        requires
            -2_000_000_000_000 <= dz <= 2_000_000_000_000,
    ;
    lemma_sqrt_floor_bounds(dist_sq(p, centre));
    lemma_square_le(4_000_000_000_000, 4_000_000_000_000);
    lemma_square_le_converse(dist(p, centre), 4_000_000_000_000);
}

/// One alignment neighbour's weighted velocity.
fn weighted_velocity_calc(pair: &NeighbourPair, centre: Vec3, config: &FlockingConfiguration) -> (r:
    Vec3)
    requires
        pair.position.in_range(COORD_MAX as int),
        pair.velocity.in_range(COORD_MAX as int),
        centre.in_range(COORD_MAX as int),
        config.valid(),
    ensures
        ({
            let w = weighted_velocity(
                *pair,
                centre,
                config.alignment_distance as int,
                config.alignment_distance_cap_fraction as int,
            );
            r.x == w.0 && r.y == w.1 && r.z == w.2
        }),
        -COORD_MAX <= r.x <= COORD_MAX,
        -COORD_MAX <= r.y <= COORD_MAX,
        -COORD_MAX <= r.z <= COORD_MAX,
{
    let d = distance(pair.position, centre);
    proof {
        lemma_dist_bound(pair.position, centre);
    }
    let falloff = config.alignment_distance - d;
    proof {
        lemma_mul_div_abs(falloff as int, SCALE as int, config.alignment_distance as int);
        assert(abs_i(mul_div(falloff as int, SCALE as int, config.alignment_distance as int))
            <= abs_i(falloff as int) * SCALE) by (nonlinear_arith)
            requires
                config.alignment_distance >= 1,
                abs_i(
                    mul_div(falloff as int, SCALE as int, config.alignment_distance as int),
                ) * (config.alignment_distance as int) <= abs_i(falloff as int) * abs_i(
                    SCALE as int,
                ),
                abs_i(mul_div(falloff as int, SCALE as int, config.alignment_distance as int))
                    >= 0,
        ;
        assert(abs_i(falloff as int) * SCALE <= 5_000_000_000_000_000_000) by (nonlinear_arith)
            requires
                abs_i(falloff as int) <= 5_000_000_000_000,
                SCALE == 1_000_000,
        ;
    }
    let ds = mul_div_i64(falloff, SCALE, config.alignment_distance);
    proof {
        if falloff >= 0 {
            lemma_mul_div_bound(
                falloff as int,
                SCALE as int,
                config.alignment_distance as int,
                SCALE as int,
            );
            assert(abs_i(falloff as int) * abs_i(SCALE as int) <= SCALE * (
            config.alignment_distance as int)) by (nonlinear_arith)
                requires
                    0 <= falloff <= config.alignment_distance,
                    SCALE >= 1,
            ;
        } else {
            crate::fixed::lemma_mul_div_sign(
                falloff as int,
                SCALE as int,
                config.alignment_distance as int,
            );
        }
    }
    let w = crate::fixed::max_i64(ds, config.alignment_distance_cap_fraction);
    proof {
        assert(0 <= w <= SCALE);
        lemma_weighted_component(pair.velocity.x as int, w as int);
        lemma_weighted_component(pair.velocity.y as int, w as int);
        lemma_weighted_component(pair.velocity.z as int, w as int);
    }
    let wx = mul_div_i64(pair.velocity.x, w, SCALE);
    let wy = mul_div_i64(pair.velocity.y, w, SCALE);
    let wz = mul_div_i64(pair.velocity.z, w, SCALE);
    Vec3 { x: wx, y: wy, z: wz }
}

proof fn lemma_weighted_component(c: int, w: int)
    requires
        -(COORD_MAX as int) <= c <= COORD_MAX as int,
        0 <= w <= SCALE,
    ensures
        abs_i(mul_div(c, w, SCALE as int)) <= COORD_MAX,
{
    assert(abs_i(c) * abs_i(w) <= (COORD_MAX as int) * (SCALE as int)) by (nonlinear_arith)
        requires
            abs_i(c) <= COORD_MAX as int,
            0 <= abs_i(w) <= SCALE as int,
            abs_i(c) >= 0,
    ;
    lemma_mul_div_bound(c, w, SCALE as int, COORD_MAX as int);
}

/// Average the weighted velocities of the alignment neighbours; an empty
/// sample yields no opinion at all.
pub fn alignment_influence(
    values: &Vec<NeighbourPair>,
    position: Vec3,
    config: &FlockingConfiguration,
) -> (r: Option<Vec3>)
    requires
        position.in_range(COORD_MAX as int),
        config.valid(),
        values@.len() <= MAX_ACTORS,
        forall|i: int|
            0 <= i < values@.len() ==> (#[trigger] values@[i]).position.in_range(COORD_MAX as int)
                && values@[i].velocity.in_range(COORD_MAX as int),
    ensures
        values@.len() == 0 ==> r is None,
        values@.len() > 0 ==> r == Some(
            vec3_of(alignment_influence_spec(values@, position, *config)),
        ),
        crate::motion::opt_in_range(r, INFLUENCE_MAX as int),
{
    let n = values.len();
    if n == 0 {
        return None;
    }
    let ghost maxd = config.alignment_distance as int;
    let ghost capf = config.alignment_distance_cap_fraction as int;
    let mut sx: i64 = 0;
    let mut sy: i64 = 0;
    let mut sz: i64 = 0;
    let mut k: usize = 0;
    while k < n
        invariant
            0 < n == values@.len() <= MAX_ACTORS,
            k <= n,
            position.in_range(COORD_MAX as int),
            config.valid(),
            maxd == config.alignment_distance as int,
            capf == config.alignment_distance_cap_fraction as int,
            forall|i: int|
                0 <= i < values@.len() ==> (#[trigger] values@[i]).position.in_range(
                    COORD_MAX as int,
                ) && values@[i].velocity.in_range(COORD_MAX as int),
            sx == alignment_sum(values@, position, maxd, capf, k as int).0,
            sy == alignment_sum(values@, position, maxd, capf, k as int).1,
            sz == alignment_sum(values@, position, maxd, capf, k as int).2,
            -(k as int) * (COORD_MAX as int) <= sx <= (k as int) * (COORD_MAX as int),
            -(k as int) * (COORD_MAX as int) <= sy <= (k as int) * (COORD_MAX as int),
            -(k as int) * (COORD_MAX as int) <= sz <= (k as int) * (COORD_MAX as int),
        decreases n - k,
    {
        let w = weighted_velocity_calc(&values[k], position, config);
        sx = sx + w.x;
        sy = sy + w.y;
        sz = sz + w.z;
        k = k + 1;
    }
    let nd = n as i64;
    proof {
        crate::fixed::lemma_div_trunc_bound(sx as int, nd as int, COORD_MAX as int);
        crate::fixed::lemma_div_trunc_bound(sy as int, nd as int, COORD_MAX as int);
        crate::fixed::lemma_div_trunc_bound(sz as int, nd as int, COORD_MAX as int);
    }
    let ax = crate::fixed::div_trunc_i64(sx, nd);
    let ay = crate::fixed::div_trunc_i64(sy, nd);
    let az = crate::fixed::div_trunc_i64(sz, nd);
    proof {
        lemma_alignment_scale_bound(ax as int, config.alignment_scale as int);
        lemma_alignment_scale_bound(ay as int, config.alignment_scale as int);
        lemma_alignment_scale_bound(az as int, config.alignment_scale as int);
    }
    let rx = mul_div_i64(ax, config.alignment_scale, 10_000 * SCALE);
    let ry = mul_div_i64(ay, config.alignment_scale, 10_000 * SCALE);
    let rz = mul_div_i64(az, config.alignment_scale, 10_000 * SCALE);
    Some(Vec3 { x: rx, y: ry, z: rz })
}

proof fn lemma_alignment_scale_bound(a: int, scale_param: int)
    requires
        abs_i(a) <= COORD_MAX as int,
        0 <= scale_param <= 1_000_000_000,
    ensures
        abs_i(mul_div(a, scale_param, 10_000 * (SCALE as int))) <= INFLUENCE_MAX,
{
    assert(abs_i(a) * abs_i(scale_param) <= (INFLUENCE_MAX as int) * (10_000 * (SCALE as int)))
        by (nonlinear_arith)
        requires
            0 <= abs_i(a) <= COORD_MAX as int,
            0 <= abs_i(scale_param) <= 1_000_000_000,
            COORD_MAX == 1_000_000_000_000i64,
            INFLUENCE_MAX == 10_000_000_000_000_000i64,
            SCALE == 1_000_000,
    ;
    lemma_mul_div_bound(a, scale_param, 10_000 * (SCALE as int), INFLUENCE_MAX as int);
}


/// Sum of the first `k` neighbour positions.
pub open spec fn position_sum(ps: Seq<Vec3>, k: int) -> (int, int, int)
    decreases k,
{
    if k <= 0 {
        (0, 0, 0)
    } else {
        let prev = position_sum(ps, k - 1);
        (prev.0 + ps[k - 1].x, prev.1 + ps[k - 1].y, prev.2 + ps[k - 1].z)
    }
}

/// The fraction of its top speed an actor is moving at, or a whole unit
/// when velocity scaling is disabled.
pub open spec fn velocity_scale_spec(velocity: Vec2, max_speed: int, enabled: bool) -> int {
    if enabled {
        mul_div(sqrt_floor(velocity.norm_sq()), SCALE as int, max_speed)
    } else {
        SCALE as int
    }
}

/// The cohesion influence of a non-empty sample: the correction from the
/// actor to the neighbour centroid, scaled by `cohesion_scale / 1000` and
/// then by the velocity fraction.
pub open spec fn cohesion_influence_spec(
    ps: Seq<Vec3>,
    centre: Vec3,
    velocity: Vec2,
    config: FlockingConfiguration,
    max_speed: int,
) -> (int, int, int) {
    let n = ps.len() as int;
    let s = position_sum(ps, n);
    let corr = (
        div_trunc(s.0, n) - centre.x,
        div_trunc(s.1, n) - centre.y,
        div_trunc(s.2, n) - centre.z,
    );
    let vs = velocity_scale_spec(velocity, max_speed, config.cohesion_velocity_scale);
    let cs = config.cohesion_scale as int;
    (
        mul_div(mul_div(corr.0, cs, 1_000 * (SCALE as int)), vs, SCALE as int),
        mul_div(mul_div(corr.1, cs, 1_000 * (SCALE as int)), vs, SCALE as int),
        mul_div(mul_div(corr.2, cs, 1_000 * (SCALE as int)), vs, SCALE as int),
    )
}

/// An admissible velocity has bounded components and a bounded length.
pub proof fn lemma_admissible_component_bounds(v: Vec2, ms: int)
    requires
        1 <= ms <= crate::configuration::MAX_SPEED_MAX as int,
        crate::motion::velocity_admissible(v, ms),
    ensures
        abs_i(v.x as int) <= COORD_MAX as int,
        abs_i(v.y as int) <= COORD_MAX as int,
        abs_i(v.x as int) * (SCALE as int) <= ms * (
        crate::configuration::SPEED_FRACTION_MAX as int),
        abs_i(v.y as int) * (SCALE as int) <= ms * (
        crate::configuration::SPEED_FRACTION_MAX as int),
        0 <= sqrt_floor(v.norm_sq()),
        sqrt_floor(v.norm_sq()) * (SCALE as int) <= ms * (
        crate::configuration::SPEED_FRACTION_MAX as int),
{
    let sf = crate::configuration::SPEED_FRACTION_MAX as int;
    let nrm = v.norm_sq();
    assert(v.x * v.x >= 0 && v.y * v.y >= 0) by (nonlinear_arith);
    assert((v.x * (SCALE as int)) * (v.x * (SCALE as int)) <= (ms * sf) * (ms * sf))
        by (nonlinear_arith)
        requires
            v.x * v.x <= nrm,
            nrm * ((SCALE as int) * (SCALE as int)) <= (ms * ms) * (sf * sf),
            nrm >= v.x * v.x >= 0,
    ;
    assert(ms * sf >= 0) by (nonlinear_arith)
        requires
            ms >= 1,
            sf >= 0,
    ;
    lemma_square_le_converse(v.x * (SCALE as int), ms * sf);
    assert((v.y * (SCALE as int)) * (v.y * (SCALE as int)) <= (ms * sf) * (ms * sf))
        by (nonlinear_arith)
        requires
            v.y * v.y <= nrm,
            nrm * ((SCALE as int) * (SCALE as int)) <= (ms * ms) * (sf * sf),
            nrm >= v.y * v.y >= 0,
    ;
    lemma_square_le_converse(v.y * (SCALE as int), ms * sf);
    assert(ms * sf <= 1_000_000_000_000_000_000) by (nonlinear_arith)
        requires
            1 <= ms <= 10_000_000_000,
            0 <= sf <= 100_000_000,
    ;
    assert(abs_i(v.x * (SCALE as int)) == abs_i(v.x as int) * (SCALE as int))
        by (nonlinear_arith);
    assert(abs_i(v.y * (SCALE as int)) == abs_i(v.y as int) * (SCALE as int))
        by (nonlinear_arith);
    lemma_sqrt_floor_bounds(nrm);
    let lv = sqrt_floor(nrm);
    assert((lv * (SCALE as int)) * (lv * (SCALE as int)) <= (ms * sf) * (ms * sf))
        by (nonlinear_arith)
        requires
            lv * lv <= nrm,
            lv >= 0,
            nrm * ((SCALE as int) * (SCALE as int)) <= (ms * ms) * (sf * sf),
    ;
    lemma_square_le_converse(lv * (SCALE as int), ms * sf);
    assert(abs_i(lv * (SCALE as int)) == lv * (SCALE as int)) by (nonlinear_arith)
        requires
            lv >= 0,
    ;
}

/// The velocity fraction an actor's cohesion pull is scaled by.
fn velocity_scale(velocity: Vec2, set: &ConfigurationSet, enabled: bool) -> (r: i64)
    requires
        set.valid(),
        crate::motion::velocity_admissible(velocity, set.max_speed as int),
    ensures
        r == velocity_scale_spec(velocity, set.max_speed as int, enabled),
        0 <= r <= crate::configuration::SPEED_FRACTION_MAX,
{
    if !enabled {
        return SCALE;
    }
    proof {
        lemma_admissible_component_bounds(velocity, set.max_speed as int);
    }
    let len = velocity.length();
    proof {
        crate::fixed::lemma_mul_div_sign(len as int, SCALE as int, set.max_speed as int);
        lemma_mul_div_bound(
            len as int,
            SCALE as int,
            set.max_speed as int,
            crate::configuration::SPEED_FRACTION_MAX as int,
        );
    }
    mul_div_i64(len, SCALE, set.max_speed)
}

/// Steer toward the centroid of the cohesion neighbours; an empty sample
/// yields no opinion at all.
pub fn cohesion_influence(
    positions: &Vec<Vec3>,
    position: Vec3,
    velocity: Vec2,
    config: &FlockingConfiguration,
    set: &ConfigurationSet,
) -> (r: Option<Vec3>)
    requires
        position.in_range(COORD_MAX as int),
        config.valid(),
        set.valid(),
        crate::motion::velocity_admissible(velocity, set.max_speed as int),
        positions@.len() <= MAX_ACTORS,
        forall|i: int| 0 <= i < positions@.len() ==> (#[trigger] positions@[i]).in_range(
            COORD_MAX as int,
        ),
    ensures
        positions@.len() == 0 ==> r is None,
        positions@.len() > 0 ==> r == Some(
            vec3_of(
                cohesion_influence_spec(
                    positions@,
                    position,
                    velocity,
                    *config,
                    set.max_speed as int,
                ),
            ),
        ),
        crate::motion::opt_in_range(r, INFLUENCE_MAX as int),
{
    let n = positions.len();
    if n == 0 {
        return None;
    }
    let mut sx: i64 = 0;
    let mut sy: i64 = 0;
    let mut sz: i64 = 0;
    let mut k: usize = 0;
    while k < n
        invariant
            0 < n == positions@.len() <= MAX_ACTORS,
            k <= n,
            forall|i: int| 0 <= i < positions@.len() ==> (#[trigger] positions@[i]).in_range(
                COORD_MAX as int,
            ),
            sx == position_sum(positions@, k as int).0,
            sy == position_sum(positions@, k as int).1,
            sz == position_sum(positions@, k as int).2,
            -(k as int) * (COORD_MAX as int) <= sx <= (k as int) * (COORD_MAX as int),
            -(k as int) * (COORD_MAX as int) <= sy <= (k as int) * (COORD_MAX as int),
            -(k as int) * (COORD_MAX as int) <= sz <= (k as int) * (COORD_MAX as int),
        decreases n - k,
    {
        let p = positions[k];
        sx = sx + p.x;
        sy = sy + p.y;
        sz = sz + p.z;
        k = k + 1;
    }
    let nd = n as i64;
    proof {
        crate::fixed::lemma_div_trunc_bound(sx as int, nd as int, COORD_MAX as int);
        crate::fixed::lemma_div_trunc_bound(sy as int, nd as int, COORD_MAX as int);
        crate::fixed::lemma_div_trunc_bound(sz as int, nd as int, COORD_MAX as int);
    }
    let cx = crate::fixed::div_trunc_i64(sx, nd) - position.x;
    let cy = crate::fixed::div_trunc_i64(sy, nd) - position.y;
    let cz = crate::fixed::div_trunc_i64(sz, nd) - position.z;
    proof {
        lemma_cohesion_scale_bound(cx as int, config.cohesion_scale as int);
        lemma_cohesion_scale_bound(cy as int, config.cohesion_scale as int);
        lemma_cohesion_scale_bound(cz as int, config.cohesion_scale as int);
    }
    let tx = mul_div_i64(cx, config.cohesion_scale, 1_000 * SCALE);
    let ty = mul_div_i64(cy, config.cohesion_scale, 1_000 * SCALE);
    let tz = mul_div_i64(cz, config.cohesion_scale, 1_000 * SCALE);
    let vs = velocity_scale(velocity, set, config.cohesion_velocity_scale);
    proof {
        lemma_cohesion_vscale_bound(tx as int, vs as int);
        lemma_cohesion_vscale_bound(ty as int, vs as int);
        lemma_cohesion_vscale_bound(tz as int, vs as int);
    }
    let rx = mul_div_i64(tx, vs, SCALE);
    let ry = mul_div_i64(ty, vs, SCALE);
    let rz = mul_div_i64(tz, vs, SCALE);
    Some(Vec3 { x: rx, y: ry, z: rz })
}

proof fn lemma_cohesion_scale_bound(c: int, scale_param: int)
    requires
        abs_i(c) <= 2 * (COORD_MAX as int),
        0 <= scale_param <= 1_000_000_000,
    ensures
        abs_i(mul_div(c, scale_param, 1_000 * (SCALE as int))) <= 2 * (COORD_MAX as int),
{
    assert(abs_i(c) * abs_i(scale_param) <= (2 * (COORD_MAX as int)) * (1_000 * (SCALE as int)))
        by (nonlinear_arith)
        requires
            0 <= abs_i(c) <= 2 * (COORD_MAX as int),
            0 <= abs_i(scale_param) <= 1_000_000_000,
            COORD_MAX == 1_000_000_000_000i64,
            SCALE == 1_000_000,
    ;
    lemma_mul_div_bound(c, scale_param, 1_000 * (SCALE as int), 2 * (COORD_MAX as int));
}

proof fn lemma_cohesion_vscale_bound(t: int, vs: int)
    requires
        abs_i(t) <= 2 * (COORD_MAX as int),
        0 <= vs <= crate::configuration::SPEED_FRACTION_MAX as int,
    ensures
        abs_i(mul_div(t, vs, SCALE as int)) <= INFLUENCE_MAX as int,
{
    assert(abs_i(t) * abs_i(vs) <= (INFLUENCE_MAX as int) * (SCALE as int)) by (nonlinear_arith)
        requires
            0 <= abs_i(t) <= 2 * (COORD_MAX as int),
            0 <= abs_i(vs) <= 100_000_000,
            COORD_MAX == 1_000_000_000_000i64,
            INFLUENCE_MAX == 10_000_000_000_000_000i64,
            SCALE == 1_000_000,
    ;
    lemma_mul_div_bound(t, vs, SCALE as int, INFLUENCE_MAX as int);
}


/// One separation neighbour's push: the vector away from the neighbour,
/// scaled by the reciprocal of the distance, so closer neighbours push
/// harder. A coincident neighbour contributes nothing rather than a
/// division by zero.
pub open spec fn separation_term(p: Vec3, centre: Vec3) -> (int, int, int) {
    let dsq = dist_sq(p, centre);
    if dsq == 0 {
        (0, 0, 0)
    } else {
        let d = sqrt_floor(dsq);
        (
            mul_div(centre.x - p.x, (SCALE as int) * (SCALE as int), d * d),
            mul_div(centre.y - p.y, (SCALE as int) * (SCALE as int), d * d),
            mul_div(centre.z - p.z, (SCALE as int) * (SCALE as int), d * d),
        )
    }
}

/// Sum of the first `k` separation pushes.
pub open spec fn separation_sum(ps: Seq<Vec3>, centre: Vec3, k: int) -> (int, int, int)
    decreases k,
{
    if k <= 0 {
        (0, 0, 0)
    } else {
        let prev = separation_sum(ps, centre, k - 1);
        let t = separation_term(ps[k - 1], centre);
        (prev.0 + t.0, prev.1 + t.1, prev.2 + t.2)
    }
}

/// The separation influence of a non-empty sample: the average push,
/// scaled by `separation_scale / 100000`.
pub open spec fn separation_influence_spec(
    ps: Seq<Vec3>,
    centre: Vec3,
    config: FlockingConfiguration,
) -> (int, int, int) {
    let n = ps.len() as int;
    let s = separation_sum(ps, centre, n);
    let sc = config.separation_scale as int;
    (
        mul_div(div_trunc(s.0, n), sc, 100_000 * (SCALE as int)),
        mul_div(div_trunc(s.1, n), sc, 100_000 * (SCALE as int)),
        mul_div(div_trunc(s.2, n), sc, 100_000 * (SCALE as int)),
    )
}

/// A component of the offset to a point is no longer than the distance.
proof fn lemma_component_le_dist(c: int, dsq: int, d: int)
    requires
        c * c <= dsq,
        d >= 0,
        dsq < (d + 1) * (d + 1),
    ensures
        abs_i(c) <= d,
{
    lemma_square_le_converse(c, d + 1);
    if abs_i(c) == d + 1 {
        assert(abs_i(c) * abs_i(c) == c * c) by (nonlinear_arith);
    }
}

/// One separation neighbour's push.
fn separation_term_calc(p: Vec3, centre: Vec3) -> (r: Vec3)
    requires
        p.in_range(COORD_MAX as int),
        centre.in_range(COORD_MAX as int),
    ensures
        ({
            let t = separation_term(p, centre);
            r.x == t.0 && r.y == t.1 && r.z == t.2
        }),
        -COORD_MAX <= r.x <= COORD_MAX,
        -COORD_MAX <= r.y <= COORD_MAX,
        -COORD_MAX <= r.z <= COORD_MAX,
{
    let away = centre.sub(p);
    let nsq = away.norm_sq_wide();
    proof {
        assert((centre.x - p.x) * (centre.x - p.x) == (p.x - centre.x) * (p.x - centre.x))
            by (nonlinear_arith);
        assert((centre.y - p.y) * (centre.y - p.y) == (p.y - centre.y) * (p.y - centre.y))
            by (nonlinear_arith);
        assert((centre.z - p.z) * (centre.z - p.z) == (p.z - centre.z) * (p.z - centre.z))
            by (nonlinear_arith);
        assert(away.norm_sq() == dist_sq(p, centre));
        lemma_dist_bound(p, centre);
    }
    if nsq == 0 {
        return Vec3 { x: 0, y: 0, z: 0 };
    }
    let d = crate::fixed::isqrt(nsq);
    proof {
        lemma_sqrt_floor_bounds(nsq as int);
        lemma_square_le(4_000_000_000_000, 4_000_000_000_000);
        lemma_square_le_converse(d as int, 4_000_000_000_000);
        assert(d >= 1) by {
            if d == 0 {
                assert((d as int + 1) * (d as int + 1) == 1) by (nonlinear_arith)
                    requires
                        d == 0,
                ;
            }
        }
        assert((d as u128) * (d as u128) <= u128::MAX) by (nonlinear_arith)
            requires
                0 <= d <= 4_000_000_000_000u64,
        ;
    }
    let d2: u128 = (d as u128) * (d as u128);
    proof {
        let di = d as int;
        assert(d2 >= 1) by (nonlinear_arith)
            requires
                d >= 1,
                d2 == (d as u128) * (d as u128),
        ;
        assert(away.x * away.x >= 0 && away.y * away.y >= 0 && away.z * away.z >= 0)
            by (nonlinear_arith);
        lemma_component_le_dist(away.x as int, nsq as int, di);
        lemma_component_le_dist(away.y as int, nsq as int, di);
        lemma_component_le_dist(away.z as int, nsq as int, di);
        lemma_separation_component(away.x as int, di);
        lemma_separation_component(away.y as int, di);
        lemma_separation_component(away.z as int, di);
    }
    let rx = mul_div_wide(away.x, SCALE * SCALE, d2);
    let ry = mul_div_wide(away.y, SCALE * SCALE, d2);
    let rz = mul_div_wide(away.z, SCALE * SCALE, d2);
    Vec3 { x: rx, y: ry, z: rz }
}

proof fn lemma_separation_component(c: int, d: int)
    requires
        d >= 1,
        abs_i(c) <= d,
    ensures
        abs_i(mul_div(c, (SCALE as int) * (SCALE as int), d * d)) <= COORD_MAX as int,
{
    assert(abs_i(c) * abs_i((SCALE as int) * (SCALE as int)) <= (COORD_MAX as int) * (d * d))
        by (nonlinear_arith)
        requires
            d >= 1,
            0 <= abs_i(c) <= d,
            COORD_MAX == 1_000_000_000_000i64,
            SCALE == 1_000_000,
    ;
    assert(d * d >= 1) by (nonlinear_arith)
        requires
            d >= 1,
    ;
    lemma_mul_div_bound(c, (SCALE as int) * (SCALE as int), d * d, COORD_MAX as int);
}

/// Push away from each separation neighbour, harder the closer it is; an
/// empty sample yields no opinion at all.
pub fn separation_influence(
    positions: &Vec<Vec3>,
    position: Vec3,
    config: &FlockingConfiguration,
) -> (r: Option<Vec3>)
    requires
        position.in_range(COORD_MAX as int),
        config.valid(),
        positions@.len() <= MAX_ACTORS,
        forall|i: int| 0 <= i < positions@.len() ==> (#[trigger] positions@[i]).in_range(
            COORD_MAX as int,
        ),
    ensures
        positions@.len() == 0 ==> r is None,
        positions@.len() > 0 ==> r == Some(
            vec3_of(separation_influence_spec(positions@, position, *config)),
        ),
        crate::motion::opt_in_range(r, INFLUENCE_MAX as int),
{
    let n = positions.len();
    if n == 0 {
        return None;
    }
    let mut sx: i64 = 0;
    let mut sy: i64 = 0;
    let mut sz: i64 = 0;
    let mut k: usize = 0;
    while k < n
        invariant
            0 < n == positions@.len() <= MAX_ACTORS,
            k <= n,
            position.in_range(COORD_MAX as int),
            forall|i: int| 0 <= i < positions@.len() ==> (#[trigger] positions@[i]).in_range(
                COORD_MAX as int,
            ),
            sx == separation_sum(positions@, position, k as int).0,
            sy == separation_sum(positions@, position, k as int).1,
            sz == separation_sum(positions@, position, k as int).2,
            -(k as int) * (COORD_MAX as int) <= sx <= (k as int) * (COORD_MAX as int),
            -(k as int) * (COORD_MAX as int) <= sy <= (k as int) * (COORD_MAX as int),
            -(k as int) * (COORD_MAX as int) <= sz <= (k as int) * (COORD_MAX as int),
        decreases n - k,
    {
        let t = separation_term_calc(positions[k], position);
        sx = sx + t.x;
        sy = sy + t.y;
        sz = sz + t.z;
        k = k + 1;
    }
    let nd = n as i64;
    proof {
        crate::fixed::lemma_div_trunc_bound(sx as int, nd as int, COORD_MAX as int);
        crate::fixed::lemma_div_trunc_bound(sy as int, nd as int, COORD_MAX as int);
        crate::fixed::lemma_div_trunc_bound(sz as int, nd as int, COORD_MAX as int);
    }
    let ax = crate::fixed::div_trunc_i64(sx, nd);
    let ay = crate::fixed::div_trunc_i64(sy, nd);
    let az = crate::fixed::div_trunc_i64(sz, nd);
    proof {
        lemma_separation_scale_bound(ax as int, config.separation_scale as int);
        lemma_separation_scale_bound(ay as int, config.separation_scale as int);
        lemma_separation_scale_bound(az as int, config.separation_scale as int);
    }
    let rx = mul_div_i64(ax, config.separation_scale, 100_000 * SCALE);
    let ry = mul_div_i64(ay, config.separation_scale, 100_000 * SCALE);
    let rz = mul_div_i64(az, config.separation_scale, 100_000 * SCALE);
    Some(Vec3 { x: rx, y: ry, z: rz })
}

proof fn lemma_separation_scale_bound(a: int, scale_param: int)
    requires
        abs_i(a) <= COORD_MAX as int,
        0 <= scale_param <= 1_000_000_000,
    ensures
        abs_i(mul_div(a, scale_param, 100_000 * (SCALE as int))) <= INFLUENCE_MAX as int,
{
    assert(abs_i(a) * abs_i(scale_param) <= (INFLUENCE_MAX as int) * (100_000 * (SCALE as int)))
        by (nonlinear_arith)
        requires
            0 <= abs_i(a) <= COORD_MAX as int,
            0 <= abs_i(scale_param) <= 1_000_000_000,
            COORD_MAX == 1_000_000_000_000i64,
            INFLUENCE_MAX == 10_000_000_000_000_000i64,
            SCALE == 1_000_000,
    ;
    lemma_mul_div_bound(a, scale_param, 100_000 * (SCALE as int), INFLUENCE_MAX as int);
}

/// Write the three flocking votes for one actor: alignment from the
/// weighted neighbour velocities, cohesion toward the neighbour centroid,
/// separation away from close neighbours. Every other slot is left alone.
pub fn calculate_flocking(
    influences: &mut Influences,
    flocking: &Flocking,
    position: Vec3,
    velocity: Vec2,
    config: &Configuration,
) -> (nothing: ())
    requires
        old(influences).wf(),
        flocking.wf(),
        position.in_range(COORD_MAX as int),
        crate::motion::velocity_admissible(velocity, config.sheep.max_speed as int),
        config.valid(),
    ensures
        final(influences).wf(),
        flocking.alignment_values@.len() == 0 ==> final(influences).alignment_influence is None,
        flocking.alignment_values@.len() > 0 ==> final(influences).alignment_influence == Some(
            vec3_of(
                alignment_influence_spec(flocking.alignment_values@, position, config.flocking),
            ),
        ),
        flocking.cohesion_positions@.len() == 0 ==> final(influences).cohesion_influence is None,
        flocking.cohesion_positions@.len() > 0 ==> final(influences).cohesion_influence == Some(
            vec3_of(
                cohesion_influence_spec(
                    flocking.cohesion_positions@,
                    position,
                    velocity,
                    config.flocking,
                    config.sheep.max_speed as int,
                ),
            ),
        ),
        flocking.separation_positions@.len() == 0 ==> final(influences).separation_influence
            is None,
        flocking.separation_positions@.len() > 0 ==> final(influences).separation_influence
            == Some(
            vec3_of(
                separation_influence_spec(flocking.separation_positions@, position, config.flocking),
            ),
        ),
        final(influences).player_input_influence == old(influences).player_input_influence,
        final(influences).runner_influence == old(influences).runner_influence,
        final(influences).runner_influence_unmodified == old(
            influences,
        ).runner_influence_unmodified,
        final(influences).runner_influence_max == old(influences).runner_influence_max,
        final(influences).grazing_influence == old(influences).grazing_influence,
        final(influences).inertia_influence == old(influences).inertia_influence,
        final(influences).total_influence == old(influences).total_influence,
        final(influences).max_influence == old(influences).max_influence,
{
    influences.alignment_influence = alignment_influence(
        &flocking.alignment_values,
        position,
        &config.flocking,
    );
    influences.cohesion_influence = cohesion_influence(
        &flocking.cohesion_positions,
        position,
        velocity,
        &config.flocking,
        &config.sheep,
    );
    influences.separation_influence = separation_influence(
        &flocking.separation_positions,
        position,
        &config.flocking,
    );
}

} // verus!



