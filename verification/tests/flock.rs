use sylt::configuration::{Configuration, ConfigurationSet, FlockingConfiguration};
use sylt::fixed::SCALE;
use sylt::flocking::{
    alignment_influence, calculate_flocking, cohesion_influence, find_flocking_neighbours,
    find_flocking_neighbours_for, separation_influence, ActorSnapshot, Flocking, NeighbourPair,
};
use sylt::motion::Influences;
use sylt::vec3::{Vec2, Vec3};

fn flocking_config() -> FlockingConfiguration {
    FlockingConfiguration {
        alignment_enabled: true,
        alignment_distance: 60 * SCALE,
        alignment_scale: 100 * SCALE,
        alignment_distance_cap_fraction: 600_000,
        cohesion_enabled: true,
        cohesion_velocity_scale: true,
        cohesion_distance: 300 * SCALE,
        cohesion_scale: 1_500_000,
        separation_enabled: true,
        separation_distance: 30 * SCALE,
        separation_scale: 30 * SCALE,
    }
}

fn at(x: i64, y: i64) -> ActorSnapshot {
    ActorSnapshot { position: Vec3 { x, y, z: 0 }, velocity: Vec2 { x: 0, y: 0 } }
}

#[test]
fn discovery_excludes_self_and_respects_radii() {
    let actors = vec![
        at(0, 0),
        at(20 * SCALE, 0),
        at(100 * SCALE, 0),
        at(400 * SCALE, 0),
    ];
    let config = flocking_config();
    let sample = find_flocking_neighbours_for(0, &actors, &config);
    // Alignment radius 60: only the neighbour at 20.
    assert_eq!(sample.alignment_values.len(), 1);
    assert_eq!(sample.alignment_values[0].position.x, 20 * SCALE);
    // Cohesion radius 300: the neighbours at 20 and 100.
    assert_eq!(sample.cohesion_positions.len(), 2);
    // Separation radius 30: only the neighbour at 20.
    assert_eq!(sample.separation_positions.len(), 1);
}

#[test]
fn discovery_boundary_is_strictly_inside() {
    // A neighbour exactly on the separation radius is not a neighbour.
    let actors = vec![at(0, 0), at(30 * SCALE, 0), at(30 * SCALE - 1, 0)];
    let sample = find_flocking_neighbours_for(0, &actors, &flocking_config());
    assert_eq!(sample.separation_positions.len(), 1);
    assert_eq!(sample.separation_positions[0].x, 30 * SCALE - 1);
}

#[test]
fn discovery_disabled_lists_stay_empty() {
    let actors = vec![at(0, 0), at(SCALE, 0)];
    let mut config = flocking_config();
    config.alignment_enabled = false;
    config.separation_enabled = false;
    let sample = find_flocking_neighbours_for(0, &actors, &config);
    assert_eq!(sample.alignment_values.len(), 0);
    assert_eq!(sample.cohesion_positions.len(), 1);
    assert_eq!(sample.separation_positions.len(), 0);
}

#[test]
fn discovery_is_deterministic() {
    // No hidden randomness: the same inputs give the same samples.
    let actors = vec![at(0, 0), at(20 * SCALE, 5 * SCALE), at(-40 * SCALE, 0), at(256, 1024)];
    let config = flocking_config();
    let first = find_flocking_neighbours(&actors, &config);
    let second = find_flocking_neighbours(&actors, &config);
    assert_eq!(first.len(), second.len());
    for (a, b) in first.iter().zip(second.iter()) {
        assert_eq!(a.alignment_values.len(), b.alignment_values.len());
        for (pa, pb) in a.alignment_values.iter().zip(b.alignment_values.iter()) {
            assert_eq!(pa.position, pb.position);
            assert_eq!(pa.velocity, pb.velocity);
        }
        assert_eq!(a.cohesion_positions, b.cohesion_positions);
        assert_eq!(a.separation_positions, b.separation_positions);
    }
}

#[test]
fn alignment_matches_the_falloff_formula() {
    // One neighbour at distance 20 inside radius 60, neighbour velocity
    // (10, 0, 0), cap fraction 0.6: the falloff (60-20)/60 wins over the
    // cap and the influence is (10,0,0) * 0.666666 * 100 / 10000.
    let values = vec![NeighbourPair {
        position: Vec3 { x: 20 * SCALE, y: 0, z: 0 },
        velocity: Vec3 { x: 10 * SCALE, y: 0, z: 0 },
    }];
    let r = alignment_influence(&values, Vec3 { x: 0, y: 0, z: 0 }, &flocking_config()).unwrap();
    assert_eq!((r.x, r.y, r.z), (66_666, 0, 0));
}

#[test]
fn alignment_cap_floors_the_falloff() {
    // A neighbour close to the boundary is still weighted by the cap
    // fraction, not discounted to nothing: (60-59)/60 < 0.6.
    let values = vec![NeighbourPair {
        position: Vec3 { x: 59 * SCALE, y: 0, z: 0 },
        velocity: Vec3 { x: 10 * SCALE, y: 0, z: 0 },
    }];
    let r = alignment_influence(&values, Vec3 { x: 0, y: 0, z: 0 }, &flocking_config()).unwrap();
    // weight = 0.6 exactly: (10 * 0.6) * 100 / 10000 = 0.06
    assert_eq!((r.x, r.y, r.z), (60_000, 0, 0));
}

#[test]
fn alignment_empty_sample_is_no_opinion() {
    let values: Vec<NeighbourPair> = Vec::new();
    assert!(alignment_influence(&values, Vec3 { x: 0, y: 0, z: 0 }, &flocking_config()).is_none());
}

#[test]
fn separation_pushes_away_and_falls_off_with_distance() {
    let config = flocking_config();
    let origin = Vec3 { x: 0, y: 0, z: 0 };
    let near = vec![Vec3 { x: 5 * SCALE, y: 0, z: 0 }];
    let far = vec![Vec3 { x: 50 * SCALE, y: 0, z: 0 }];
    let near_r = separation_influence(&near, origin, &config).unwrap();
    let far_r = separation_influence(&far, origin, &config).unwrap();
    // Both point along -x, the close neighbour pushes harder.
    assert_eq!((near_r.x, near_r.y, near_r.z), (-60, 0, 0));
    assert_eq!((far_r.x, far_r.y, far_r.z), (-6, 0, 0));
    assert!(near_r.x < far_r.x);
}

#[test]
fn separation_skips_a_coincident_neighbour() {
    let config = flocking_config();
    let origin = Vec3 { x: 0, y: 0, z: 0 };
    let positions = vec![origin];
    let r = separation_influence(&positions, origin, &config).unwrap();
    assert_eq!((r.x, r.y, r.z), (0, 0, 0));
}

#[test]
fn cohesion_pulls_toward_the_centroid() {
    let mut config = flocking_config();
    config.cohesion_velocity_scale = false;
    let set = ConfigurationSet { max_speed: 100 * SCALE };
    let positions = vec![Vec3 { x: 30 * SCALE, y: 0, z: 0 }, Vec3 { x: 10 * SCALE, y: 0, z: 0 }];
    let r = cohesion_influence(
        &positions,
        Vec3 { x: 0, y: 0, z: 0 },
        Vec2 { x: 0, y: 0 },
        &config,
        &set,
    )
    .unwrap();
    // centroid (20, 0, 0), correction * 1.5 / 1000 = 0.03
    assert_eq!((r.x, r.y, r.z), (30_000, 0, 0));
}

#[test]
fn cohesion_velocity_scaling_stills_a_resting_sheep() {
    // With velocity scaling enabled a sheep at rest is not pulled at all.
    let config = flocking_config();
    let set = ConfigurationSet { max_speed: 100 * SCALE };
    let positions = vec![Vec3 { x: 30 * SCALE, y: 0, z: 0 }];
    let resting = cohesion_influence(
        &positions,
        Vec3 { x: 0, y: 0, z: 0 },
        Vec2 { x: 0, y: 0 },
        &config,
        &set,
    )
    .unwrap();
    assert_eq!((resting.x, resting.y, resting.z), (0, 0, 0));
    let moving = cohesion_influence(
        &positions,
        Vec3 { x: 0, y: 0, z: 0 },
        Vec2 { x: 50 * SCALE, y: 0 },
        &config,
        &set,
    )
    .unwrap();
    assert!(moving.x > 0);
}

#[test]
fn calculate_flocking_fills_exactly_the_three_slots() {
    let config = Configuration::new();
    let mut influences = Influences::empty();
    let flocking = Flocking {
        alignment_values: vec![NeighbourPair {
            position: Vec3 { x: 20 * SCALE, y: 0, z: 0 },
            velocity: Vec3 { x: 10 * SCALE, y: 0, z: 0 },
        }],
        cohesion_positions: vec![Vec3 { x: 20 * SCALE, y: 0, z: 0 }],
        separation_positions: Vec::new(),
    };
    calculate_flocking(
        &mut influences,
        &flocking,
        Vec3 { x: 0, y: 0, z: 0 },
        Vec2 { x: 0, y: 0 },
        &config,
    );
    assert_eq!(influences.alignment_influence.unwrap().x, 66_666);
    assert!(influences.cohesion_influence.is_some());
    assert!(influences.separation_influence.is_none());
    assert!(influences.player_input_influence.is_none());
    assert!(influences.runner_influence.is_none());
}

#[test]
fn no_neighbours_leave_all_three_slots_absent() {
    let config = Configuration::new();
    let mut influences = Influences::empty();
    let flocking = Flocking {
        alignment_values: Vec::new(),
        cohesion_positions: Vec::new(),
        separation_positions: Vec::new(),
    };
    calculate_flocking(
        &mut influences,
        &flocking,
        Vec3 { x: 0, y: 0, z: 0 },
        Vec2 { x: 0, y: 0 },
        &config,
    );
    assert!(influences.alignment_influence.is_none());
    assert!(influences.cohesion_influence.is_none());
    assert!(influences.separation_influence.is_none());
}
