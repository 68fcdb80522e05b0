use sylt::configuration::{ConfigurationSet, RunnerConfiguration};
use sylt::fixed::SCALE;
use sylt::motion::Influences;
use sylt::player::{apply_player_input, input_direction};
use sylt::sheep::{
    calculate_grazing, calculate_inertia, grazing_step, run_from_players, Grazing, GrazingRolls,
    Runner, RUNNER_TRIGGER_MAGNITUDE,
};
use sylt::vec3::{Vec2, Vec3};

fn runner_config() -> RunnerConfiguration {
    RunnerConfiguration { scale: 10 * SCALE, speed_fraction: 1_400_000, scare_distance: 160 * SCALE }
}

const DT: i64 = 16_666;

#[test]
fn flee_ramp_jumps_then_climbs() {
    // A threat continuously within scare range: the magnitude jumps to
    // exactly one half on the first tick and climbs by dt per tick after.
    let mut runner = Runner::new();
    let mut influences = Influences::empty();
    let threats = vec![Vec3 { x: 50 * SCALE, y: 0, z: 0 }];
    let config = runner_config();
    let expected = [500_000, 516_666, 533_332, 549_998, 566_664];
    for want in expected {
        run_from_players(
            &mut runner,
            &mut influences,
            Vec3 { x: 0, y: 0, z: 0 },
            &threats,
            &config,
            DT,
        );
        assert_eq!(runner.magnitude, want);
    }
    // The direction is exactly away from the threat.
    assert_eq!((runner.direction.x, runner.direction.y), (-SCALE, 0));
}

#[test]
fn flee_ramp_saturates_at_one() {
    let mut runner = Runner::new();
    let mut influences = Influences::empty();
    let threats = vec![Vec3 { x: 10 * SCALE, y: 0, z: 0 }];
    let config = runner_config();
    for _ in 0..100 {
        run_from_players(
            &mut runner,
            &mut influences,
            Vec3 { x: 0, y: 0, z: 0 },
            &threats,
            &config,
            DT,
        );
    }
    assert_eq!(runner.magnitude, SCALE);
}

#[test]
fn flee_decay_is_strict_then_absent() {
    // Once the threat is out of scare range the magnitude strictly
    // decreases by dt each tick down to zero, after which the flee slot
    // stays absent.
    let mut runner = Runner {
        direction: Vec3 { x: -SCALE, y: 0, z: 0 },
        magnitude: RUNNER_TRIGGER_MAGNITUDE,
    };
    let far_threats = vec![Vec3 { x: 500 * SCALE, y: 0, z: 0 }];
    let config = runner_config();
    let mut last = runner.magnitude;
    loop {
        let mut influences = Influences::empty();
        run_from_players(
            &mut runner,
            &mut influences,
            Vec3 { x: 0, y: 0, z: 0 },
            &far_threats,
            &config,
            DT,
        );
        if runner.magnitude == 0 {
            assert!(influences.runner_influence.is_none());
            assert!(influences.runner_influence_unmodified.is_none());
            break;
        }
        assert!(runner.magnitude < last);
        assert_eq!(runner.magnitude, last - DT);
        assert!(influences.runner_influence.is_some());
        last = runner.magnitude;
    }
    // And it stays at zero afterwards.
    let mut influences = Influences::empty();
    run_from_players(
        &mut runner,
        &mut influences,
        Vec3 { x: 0, y: 0, z: 0 },
        &far_threats,
        &config,
        DT,
    );
    assert_eq!(runner.magnitude, 0);
    assert!(influences.runner_influence.is_none());
}

#[test]
fn flee_vote_is_direction_times_magnitude() {
    let mut runner = Runner::new();
    let mut influences = Influences::empty();
    let threats = vec![Vec3 { x: 50 * SCALE, y: 0, z: 0 }];
    let config = runner_config();
    run_from_players(
        &mut runner,
        &mut influences,
        Vec3 { x: 0, y: 0, z: 0 },
        &threats,
        &config,
        DT,
    );
    // direction (-1, 0, 0), magnitude 0.5, scale 10/10: vote (-0.5, 0, 0),
    // under the 1.4 ceiling, so unclamped.
    let vote = influences.runner_influence.unwrap();
    assert_eq!((vote.x, vote.y, vote.z), (-500_000, 0, 0));
    let unmodified = influences.runner_influence_unmodified.unwrap();
    assert_eq!((unmodified.x, unmodified.y, unmodified.z), (-500_000, 0, 0));
    // The cap diagnostic stretches the vote to the ceiling.
    let maxed = influences.runner_influence_max.unwrap();
    assert_eq!((maxed.x, maxed.y, maxed.z), (-1_400_000, 0, 0));
}

#[test]
fn flee_vote_is_capped_at_the_ceiling() {
    // With a large behaviour scale the raw vote exceeds the ceiling and
    // is rescaled to exactly it.
    let mut runner = Runner::new();
    let mut influences = Influences::empty();
    let threats = vec![Vec3 { x: 50 * SCALE, y: 0, z: 0 }];
    let config = RunnerConfiguration {
        scale: 100 * SCALE,
        speed_fraction: 1_400_000,
        scare_distance: 160 * SCALE,
    };
    run_from_players(
        &mut runner,
        &mut influences,
        Vec3 { x: 0, y: 0, z: 0 },
        &threats,
        &config,
        DT,
    );
    // raw = (-5, 0, 0); capped to length 1.4 exactly.
    let unmodified = influences.runner_influence_unmodified.unwrap();
    assert_eq!(unmodified.x, -5_000_000);
    let vote = influences.runner_influence.unwrap();
    assert_eq!((vote.x, vote.y, vote.z), (-1_400_000, 0, 0));
}

#[test]
fn no_threats_change_nothing() {
    let mut runner = Runner { direction: Vec3 { x: SCALE, y: 0, z: 0 }, magnitude: 700_000 };
    let mut influences = Influences::empty();
    let threats: Vec<Vec3> = Vec::new();
    run_from_players(
        &mut runner,
        &mut influences,
        Vec3 { x: 0, y: 0, z: 0 },
        &threats,
        &runner_config(),
        DT,
    );
    assert_eq!(runner.magnitude, 700_000);
    assert!(influences.runner_influence.is_none());
}

#[test]
fn grazing_counts_down_and_keeps_its_direction() {
    let mut grazing = Grazing {
        current_direction: Some(Vec3 { x: 250_000, y: 0, z: 0 }),
        time_left: 2_000_000,
    };
    let mut influences = Influences::empty();
    calculate_grazing(&mut grazing, &mut influences, SCALE, DT);
    assert_eq!(grazing.time_left, 2_000_000 - DT);
    let d = grazing.current_direction.unwrap();
    assert_eq!((d.x, d.y, d.z), (250_000, 0, 0));
    // influence = direction * 1.0 / 10
    let vote = influences.grazing_influence.unwrap();
    assert_eq!((vote.x, vote.y, vote.z), (25_000, 0, 0));
}

#[test]
fn grazing_expiry_rolls_a_fresh_countdown() {
    let mut grazing = Grazing { current_direction: None, time_left: 0 };
    let mut influences = Influences::empty();
    calculate_grazing(&mut grazing, &mut influences, SCALE, DT);
    assert!(grazing.time_left >= 500_000 && grazing.time_left <= 5_500_000);
    match grazing.current_direction {
        Some(d) => {
            assert!(d.x.abs() <= SCALE / 2 && d.y.abs() <= SCALE / 2 && d.z.abs() <= SCALE / 2);
            assert!(influences.grazing_influence.is_some());
        },
        None => {
            assert!(influences.grazing_influence.is_none());
        },
    }
}

#[test]
fn grazing_step_is_exact_under_given_rolls() {
    let rolls = GrazingRolls {
        trigger: true,
        direction: Vec3 { x: 400_000, y: -100_000, z: 0 },
        countdown: 3_000_000,
    };
    let mut grazing = Grazing { current_direction: None, time_left: DT };
    let mut influences = Influences::empty();
    grazing_step(&mut grazing, &mut influences, &rolls, 2 * SCALE, DT);
    assert_eq!(grazing.time_left, 3_000_000);
    assert_eq!(grazing.current_direction.unwrap().x, 400_000);
    // influence = direction * 2.0 / 10
    let vote = influences.grazing_influence.unwrap();
    assert_eq!((vote.x, vote.y, vote.z), (80_000, -20_000, 0));

    let idle_rolls = GrazingRolls { trigger: false, ..rolls };
    let mut grazing = Grazing { current_direction: Some(rolls.direction), time_left: 0 };
    let mut influences = Influences::empty();
    grazing_step(&mut grazing, &mut influences, &idle_rolls, 2 * SCALE, DT);
    assert!(grazing.current_direction.is_none());
    assert_eq!(grazing.time_left, 3_000_000);
    assert!(influences.grazing_influence.is_none());
}

#[test]
fn inertia_is_a_fraction_of_current_motion() {
    let mut influences = Influences::empty();
    let set = ConfigurationSet { max_speed: 100 * SCALE };
    calculate_inertia(&mut influences, Vec2 { x: 50 * SCALE, y: 0 }, &set, 10 * SCALE);
    // (v / max_speed) * 10 / 100 = 0.5 * 0.1 = 0.05
    let vote = influences.inertia_influence.unwrap();
    assert_eq!((vote.x, vote.y, vote.z), (50_000, 0, 0));
}

#[test]
fn player_input_is_normalized_verbatim() {
    let mut influences = Influences::empty();
    let direction = input_direction(false, true, true, false);
    assert_eq!((direction.x, direction.y, direction.z), (SCALE, SCALE, 0));
    apply_player_input(&mut influences, direction);
    let vote = influences.player_input_influence.unwrap();
    assert_eq!((vote.x, vote.y, vote.z), (707_106, 707_106, 0));
}

#[test]
fn opposite_keys_cancel_to_no_input() {
    let mut influences = Influences::empty();
    let direction = input_direction(true, true, false, false);
    apply_player_input(&mut influences, direction);
    let vote = influences.player_input_influence.unwrap();
    assert_eq!((vote.x, vote.y, vote.z), (0, 0, 0));
}
