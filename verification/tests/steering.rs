use sylt::configuration::{Configuration, ConfigurationSet, DebugLineType, RunnerConfiguration};
use sylt::fixed::SCALE;
use sylt::motion::{calculate_velocity, debug_line_influence, reset_influences, Influences};
use sylt::tick::{simulate_sheep_tick, SheepState};
use sylt::vec3::Vec3;

fn sheep_set() -> ConfigurationSet {
    ConfigurationSet { max_speed: 100 * SCALE }
}

fn runner_config() -> RunnerConfiguration {
    RunnerConfiguration { scale: 10 * SCALE, speed_fraction: 1_400_000, scare_distance: 160 * SCALE }
}

#[test]
fn composer_orders_the_two_clamps() {
    // A unit-length non-flee total of (1, 0, 0) plus a flee vote of
    // (0, 2, 0) under a ceiling of 1.4: the flee vote is added after the
    // unit clamp and the sum is rescaled as a whole, not per component.
    let mut influences = Influences::empty();
    influences.player_input_influence = Some(Vec3 { x: SCALE, y: 0, z: 0 });
    influences.runner_influence = Some(Vec3 { x: 0, y: 2 * SCALE, z: 0 });
    let velocity = calculate_velocity(&mut influences, &sheep_set(), &runner_config());
    let total = influences.total_influence.unwrap();
    assert_eq!((total.x, total.y, total.z), (626_099, 1_252_198, 0));
    // The rescaled total keeps the direction of (1, 2, 0) and its norm is
    // within the ceiling.
    assert_eq!(total.y, 2 * total.x);
    let nsq = (total.x as i128) * (total.x as i128) + (total.y as i128) * (total.y as i128);
    assert!(nsq <= 1_400_000i128 * 1_400_000i128);
    assert!(nsq > 1_399_000i128 * 1_399_000i128);
    assert_eq!((velocity.x, velocity.y), (62_609_900, 125_219_800));
    let maxed = influences.max_influence.unwrap();
    assert_eq!((maxed.x, maxed.y), (447_213, 894_427));
}

#[test]
fn final_speed_never_exceeds_the_cap() {
    // Overlarge votes everywhere: the speed still lands under
    // max_speed * max(1, speed_fraction).
    let mut influences = Influences::empty();
    let big = Vec3 { x: 90 * SCALE, y: -70 * SCALE, z: 30 * SCALE };
    influences.player_input_influence = Some(big);
    influences.alignment_influence = Some(big);
    influences.cohesion_influence = Some(big);
    influences.separation_influence = Some(big);
    influences.grazing_influence = Some(big);
    influences.inertia_influence = Some(big);
    influences.runner_influence = Some(Vec3 { x: -2 * SCALE, y: 2 * SCALE, z: 2 * SCALE });
    let set = sheep_set();
    let config = runner_config();
    let velocity = calculate_velocity(&mut influences, &set, &config);
    let vsq = (velocity.x as i128) * (velocity.x as i128) + (velocity.y as i128)
        * (velocity.y as i128);
    let cap = (set.max_speed as i128) * (config.speed_fraction as i128) / (SCALE as i128);
    assert!(vsq <= cap * cap);
}

#[test]
fn empty_record_composes_to_rest() {
    let mut influences = Influences::empty();
    let velocity = calculate_velocity(&mut influences, &sheep_set(), &runner_config());
    assert_eq!((velocity.x, velocity.y), (0, 0));
    let total = influences.total_influence.unwrap();
    assert_eq!((total.x, total.y, total.z), (0, 0, 0));
    let maxed = influences.max_influence.unwrap();
    assert_eq!((maxed.x, maxed.y, maxed.z), (0, 0, 0));
}

#[test]
fn without_neighbours_only_rest_votes_count() {
    // The flocking slots are empty: the composed velocity is the clamped
    // sum of player input, grazing and inertia alone.
    let mut influences = Influences::empty();
    influences.player_input_influence = Some(Vec3 { x: 300_000, y: 0, z: 0 });
    influences.grazing_influence = Some(Vec3 { x: 100_000, y: 50_000, z: 0 });
    influences.inertia_influence = Some(Vec3 { x: 50_000, y: -25_000, z: 0 });
    let set = sheep_set();
    let velocity = calculate_velocity(&mut influences, &set, &runner_config());
    // The sum (450000, 25000, 0) is already inside the unit budget.
    let total = influences.total_influence.unwrap();
    assert_eq!((total.x, total.y, total.z), (450_000, 25_000, 0));
    assert_eq!(velocity.x, 450_000 * 100);
    assert_eq!(velocity.y, 25_000 * 100);
}

#[test]
fn unit_budget_is_shared_by_cooperative_votes() {
    // Two votes that together exceed the unit budget are rescaled to it.
    let mut influences = Influences::empty();
    influences.player_input_influence = Some(Vec3 { x: SCALE, y: 0, z: 0 });
    influences.grazing_influence = Some(Vec3 { x: SCALE, y: 0, z: 0 });
    let velocity = calculate_velocity(&mut influences, &sheep_set(), &runner_config());
    let total = influences.total_influence.unwrap();
    assert_eq!((total.x, total.y, total.z), (SCALE, 0, 0));
    assert_eq!(velocity.x, 100 * SCALE);
}

#[test]
fn reset_empties_every_record() {
    let mut all = vec![Influences::empty(); 3];
    all[1].alignment_influence = Some(Vec3 { x: 1, y: 2, z: 3 });
    all[2].total_influence = Some(Vec3 { x: 4, y: 5, z: 6 });
    reset_influences(&mut all);
    assert_eq!(all.len(), 3);
    for influences in all.iter() {
        assert!(influences.alignment_influence.is_none());
        assert!(influences.total_influence.is_none());
        assert!(influences.runner_influence.is_none());
    }
}

#[test]
fn debug_lines_pick_the_named_slot() {
    let mut influences = Influences::empty();
    let v = Vec3 { x: 7, y: 8, z: 9 };
    influences.cohesion_influence = Some(v);
    let picked = debug_line_influence(&influences, &DebugLineType::CohesionInfluence);
    assert_eq!(picked.unwrap().x, 7);
    assert!(debug_line_influence(&influences, &DebugLineType::NoLine).is_none());
    assert!(debug_line_influence(&influences, &DebugLineType::RunnerInfluence).is_none());
}

#[test]
fn shipped_configuration_is_valid() {
    let config = Configuration::new();
    assert_eq!(config.player.max_speed, 300 * SCALE);
    assert_eq!(config.sheep.max_speed, 100 * SCALE);
    assert_eq!(config.runner.speed_fraction, 1_400_000);
    assert_eq!(config.flocking.alignment_distance, 60 * SCALE);
    assert!(config.flocking.alignment_enabled);
    assert!(!config.debug_lines.enable);
}

#[test]
fn a_full_tick_keeps_every_sheep_under_the_cap() {
    let config = Configuration::new();
    let dt = SCALE / 60;
    let mut flock = vec![
        SheepState::at(Vec3 { x: 0, y: 0, z: 0 }),
        SheepState::at(Vec3 { x: 10 * SCALE, y: 0, z: 0 }),
        SheepState::at(Vec3 { x: 0, y: 12 * SCALE, z: 0 }),
    ];
    let players = vec![Vec3 { x: 30 * SCALE, y: 0, z: 0 }];
    for _ in 0..120 {
        simulate_sheep_tick(&mut flock, &players, &config, dt);
        for sheep in flock.iter() {
            let vsq = (sheep.velocity.x as i128) * (sheep.velocity.x as i128)
                + (sheep.velocity.y as i128) * (sheep.velocity.y as i128);
            let cap = (config.sheep.max_speed as i128)
                * (config.runner.speed_fraction as i128) / (SCALE as i128);
            assert!(vsq <= cap * cap);
            // The threat is within scare range the whole time, so the
            // flee state stays engaged.
            assert!(sheep.runner.magnitude >= 500_000);
        }
    }
}
