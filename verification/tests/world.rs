use sylt::animation::{
    animate_sprite, next_animation_type, AnimationStates, AnimationTimer, AnimationType,
};
use sylt::configuration::{
    AnimationClass, AnimationSheet, ConfigurationSet, ConfigurationSetId, Configuration,
    SingleAnimation,
};
use sylt::fixed::SCALE;
use sylt::grass::generate_positions;
use sylt::game_rules::{handle_game_rules, GameRulesCommand, VictoryCondition};
use sylt::levels::{handle_level_event, LevelEvent};
use sylt::vec3::Vec2;
use sylt::zone::{count_sheep_in_zone, update_goal_zones};

fn check(all: bool, any: bool) -> GameRulesCommand {
    GameRulesCommand::CheckSheepWin { all_zones_done: all, any_zones_done: any }
}

#[test]
fn all_zones_rule_needs_every_zone() {
    let vc = VictoryCondition::AllGoalZones;
    assert_eq!(handle_game_rules(&vc, &vec![check(true, true)]), vec![LevelEvent::LoadNextLevel]);
    assert!(handle_game_rules(&vc, &vec![check(false, true)]).is_empty());
}

#[test]
fn any_zone_rule_needs_one_zone() {
    let vc = VictoryCondition::AnyGoalZones;
    assert_eq!(handle_game_rules(&vc, &vec![check(false, true)]), vec![LevelEvent::LoadNextLevel]);
    assert!(handle_game_rules(&vc, &vec![check(false, false)]).is_empty());
}

#[test]
fn each_command_is_judged_in_order() {
    let vc = VictoryCondition::AllGoalZones;
    let commands = vec![check(false, true), check(true, true), check(true, false)];
    let events = handle_game_rules(&vc, &commands);
    assert_eq!(events.len(), 2);
}

#[test]
fn zone_counting_counts_overlaps() {
    assert_eq!(count_sheep_in_zone(&vec![true, false, true, true]), 3);
    assert_eq!(count_sheep_in_zone(&vec![]), 0);
}

#[test]
fn zone_summary_reports_all_and_any() {
    let targets = vec![2usize, 3usize];
    let counts = vec![2usize, 1usize];
    match update_goal_zones(&targets, &counts, true).unwrap() {
        GameRulesCommand::CheckSheepWin { all_zones_done, any_zones_done } => {
            assert!(!all_zones_done);
            assert!(any_zones_done);
        },
    }
    let full = vec![5usize, 7usize];
    match update_goal_zones(&targets, &full, true).unwrap() {
        GameRulesCommand::CheckSheepWin { all_zones_done, any_zones_done } => {
            assert!(all_zones_done);
            assert!(any_zones_done);
        },
    }
    // Outside the playing state no zone counts as done.
    match update_goal_zones(&targets, &full, false).unwrap() {
        GameRulesCommand::CheckSheepWin { all_zones_done, any_zones_done } => {
            assert!(!all_zones_done);
            assert!(!any_zones_done);
        },
    }
    assert!(update_goal_zones(&vec![], &vec![], true).is_none());
}

#[test]
fn level_events_pick_the_level_to_load() {
    assert_eq!(
        handle_level_event(&LevelEvent::LoadNextLevel, 0, 3),
        (1, Some(1)),
    );
    assert_eq!(handle_level_event(&LevelEvent::LoadNextLevel, 2, 3), (3, None));
    assert_eq!(
        handle_level_event(&LevelEvent::LoadLevelIndex { index: 2 }, 0, 3),
        (0, Some(2)),
    );
    assert_eq!(
        handle_level_event(&LevelEvent::LoadLevelIndex { index: 9 }, 0, 3),
        (0, None),
    );
}

#[test]
fn run_threshold_picks_the_clip() {
    let set = ConfigurationSet { max_speed: 100 * SCALE };
    let fast = Vec2 { x: 40 * SCALE, y: 0 };
    let slow = Vec2 { x: 20 * SCALE, y: 0 };
    assert_eq!(next_animation_type(fast, &set, 300_000), AnimationType::Running);
    assert_eq!(next_animation_type(slow, &set, 300_000), AnimationType::Idle);
}

#[test]
fn timer_wraps_and_reports_finishes() {
    let mut timer = AnimationTimer::from_interval(300_000);
    timer.tick(200_000);
    assert!(!timer.just_finished);
    assert_eq!(timer.elapsed, 200_000);
    timer.tick(200_000);
    assert!(timer.just_finished);
    assert_eq!(timer.elapsed, 100_000);
}

#[test]
fn sheet_clamps_indices_into_the_atlas() {
    let config = Configuration::new();
    let sheep = config.animation.get_set(&ConfigurationSetId::Sheep);
    assert_eq!(sheep.clamp_index(5), 5);
    assert_eq!(sheep.clamp_index(50), 17);
}

fn test_sheet() -> AnimationSheet {
    AnimationSheet {
        sprite_sheet: "sheet.png".to_string(),
        atlas_tile_columns: 4,
        atlas_tile_rows: 1,
        texture_size: Vec2 { x: 16 * SCALE, y: 16 * SCALE },
        snappy_animations: false,
        animation_class: AnimationClass::Actor {
            idle: SingleAnimation { animation_interval: 300_000, first_index: 0, last_index: 2 },
            running: SingleAnimation { animation_interval: 150_000, first_index: 3, last_index: 3 },
            run_threshold_fraction: 300_000,
            flip_threshold_fraction: 100_000,
        },
    }
}

#[test]
fn animation_advances_and_wraps_frames() {
    let sheet = test_sheet();
    let set = ConfigurationSet { max_speed: 100 * SCALE };
    let mut states = AnimationStates::new();
    let mut timer = AnimationTimer::from_interval(300_000);
    let mut index: usize = 0;
    let mut flip = false;
    // Stand still for one full interval: the idle clip advances a frame.
    animate_sprite(&sheet, &set, &mut states, &mut timer, &mut index, &mut flip, None, 300_000);
    assert_eq!(index, 1);
    animate_sprite(&sheet, &set, &mut states, &mut timer, &mut index, &mut flip, None, 300_000);
    assert_eq!(index, 2);
    animate_sprite(&sheet, &set, &mut states, &mut timer, &mut index, &mut flip, None, 300_000);
    assert_eq!(index, 0);
}

#[test]
fn animation_switches_clip_when_running() {
    let sheet = test_sheet();
    let set = ConfigurationSet { max_speed: 100 * SCALE };
    let mut states = AnimationStates::new();
    let mut timer = AnimationTimer::from_interval(300_000);
    let mut index: usize = 0;
    let mut flip = false;
    let fast = Some(Vec2 { x: 90 * SCALE, y: 0 });
    // The request is taken at the next frame boundary.
    animate_sprite(&sheet, &set, &mut states, &mut timer, &mut index, &mut flip, fast, 300_000);
    assert_eq!(states.next, AnimationType::Running);
    animate_sprite(&sheet, &set, &mut states, &mut timer, &mut index, &mut flip, fast, 10_000);
    assert_eq!(states.current, AnimationType::Running);
    assert_eq!(index, 3);
    assert!(flip);
}

#[test]
fn grass_scatter_stays_in_the_field() {
    let extents = Vec2 { x: 1_000 * SCALE, y: 1_000 * SCALE };
    let positions = generate_positions(300, extents);
    assert_eq!(positions.len(), 300);
    for p in positions.iter() {
        assert!(p.x.abs() <= extents.x);
        assert!(p.y.abs() <= extents.y);
    }
}
