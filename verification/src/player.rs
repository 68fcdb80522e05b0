//! The player-driven actor's input behaviour.
//!
//! The embedding collects the pressed direction keys; here the four flags
//! become an axis vector, are normalized (or left zero), and are written
//! verbatim as the player-input vote.

use vstd::prelude::*;

use crate::fixed::SCALE;
use crate::motion::{normalize3, vec3_of, Influences};
use crate::vec3::{lemma_zero_norm, Vec3, VLIM};

verus! {

/// Marker for the actor the player steers.
#[derive(Clone, Copy, Debug, PartialEq, Eq, Structural, Default)]
pub struct PlayerInput {}

/// The axis vector four direction flags add up to, one unit per axis.
pub open spec fn input_direction_spec(left: bool, right: bool, up: bool, down: bool) -> (
    int,
    int,
    int,
) {
    (
        (if right {
            SCALE as int
        } else {
            0
        }) - (if left {
            SCALE as int
        } else {
            0
        }),
        (if up {
            SCALE as int
        } else {
            0
        }) - (if down {
            SCALE as int
        } else {
            0
        }),
        0,
    )
}

/// Turn the pressed direction keys into an axis vector; opposite keys
/// cancel out.
pub fn input_direction(left: bool, right: bool, up: bool, down: bool) -> (r: Vec3)
    ensures
        r == vec3_of(input_direction_spec(left, right, up, down)),
        r.in_range(SCALE as int),
{
    let x: i64 = (if right {
        SCALE
    } else {
        0
    }) - (if left {
        SCALE
    } else {
        0
    });
    let y: i64 = (if up {
        SCALE
    } else {
        0
    }) - (if down {
        SCALE
    } else {
        0
    });
    Vec3 { x, y, z: 0 }
}

/// Write the player-input vote: the raw direction normalized to unit
/// length, or the zero vector for no input at all.
pub fn apply_player_input(influences: &mut Influences, direction: Vec3) -> (nothing: ())
    requires
        old(influences).wf(),
        direction.in_range(VLIM as int),
    ensures
        final(influences).wf(),
        final(influences).player_input_influence == Some(
            vec3_of(normalize3((direction.x as int, direction.y as int, direction.z as int))),
        ),
        final(influences).alignment_influence == old(influences).alignment_influence,
        final(influences).cohesion_influence == old(influences).cohesion_influence,
        final(influences).separation_influence == old(influences).separation_influence,
        final(influences).runner_influence == old(influences).runner_influence,
        final(influences).runner_influence_unmodified == old(
            influences,
        ).runner_influence_unmodified,
        final(influences).runner_influence_max == old(influences).runner_influence_max,
        final(influences).grazing_influence == old(influences).grazing_influence,
        final(influences).inertia_influence == old(influences).inertia_influence,
        final(influences).total_influence == old(influences).total_influence,
        final(influences).max_influence == old(influences).max_influence,
{
    let unit = direction.normalize_or_zero();
    proof {
        assert(direction.norm_sq() == crate::motion::t3_norm_sq(
            (direction.x as int, direction.y as int, direction.z as int),
        ));
        assert(direction.x * direction.x >= 0 && direction.y * direction.y >= 0 && direction.z
            * direction.z >= 0) by (nonlinear_arith);
        if direction.norm_sq() == 0 {
            lemma_zero_norm(direction);
        }
        assert(unit == vec3_of(
            normalize3((direction.x as int, direction.y as int, direction.z as int)),
        ));
    }
    influences.player_input_influence = Some(unit);
}

} // verus!
