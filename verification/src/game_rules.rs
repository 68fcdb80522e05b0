//! The win rule: when the goal zones' sheep counts end the level.

use vstd::prelude::*;

use crate::levels::LevelEvent;

verus! {

/// What counts as winning: every goal zone full, or any one of them.
#[derive(Clone, Copy, Debug, PartialEq, Eq, Structural)]
pub enum VictoryCondition {
    AllGoalZones,
    AnyGoalZones,
}

impl Default for VictoryCondition {
    fn default() -> (r: VictoryCondition)
        ensures
            r == VictoryCondition::AllGoalZones,
    {
        VictoryCondition::AllGoalZones
    }
}

/// The level's rules, as placed in the level data.
#[derive(Clone, Copy, Debug, PartialEq, Eq, Structural)]
pub struct GameRules {
    pub victory_condition: VictoryCondition,
}

/// A request to check the win rule against the zones' current standing.
#[derive(Clone, Copy, Debug, PartialEq, Eq, Structural)]
pub enum GameRulesCommand {
    CheckSheepWin { all_zones_done: bool, any_zones_done: bool },
}

/// What one command decides: advance to the next level exactly when the
/// configured condition holds of the reported zone standing.
pub open spec fn win_decision(
    victory_condition: VictoryCondition,
    command: GameRulesCommand,
) -> Option<LevelEvent> {
    match command {
        GameRulesCommand::CheckSheepWin { all_zones_done, any_zones_done } => {
            let done = match victory_condition {
                VictoryCondition::AllGoalZones => all_zones_done,
                VictoryCondition::AnyGoalZones => any_zones_done,
            };
            if done {
                Some(LevelEvent::LoadNextLevel)
            } else {
                None
            }
        },
    }
}

/// The level events the first `k` commands give rise to, in order.
pub open spec fn decided_events(
    victory_condition: VictoryCondition,
    commands: Seq<GameRulesCommand>,
    k: int,
) -> Seq<LevelEvent>
    decreases k,
{
    if k <= 0 {
        Seq::empty()
    } else {
        let prev = decided_events(victory_condition, commands, k - 1);
        match win_decision(victory_condition, commands[k - 1]) {
            Some(e) => prev.push(e),
            None => prev,
        }
    }
}

/// Apply the win rule to this tick's commands: each command that meets
/// the configured victory condition asks for the next level.
pub fn handle_game_rules(
    victory_condition: &VictoryCondition,
    commands: &Vec<GameRulesCommand>,
) -> (events: Vec<LevelEvent>)
    ensures
        events@ == decided_events(*victory_condition, commands@, commands@.len() as int),
{
    let mut events: Vec<LevelEvent> = Vec::new();
    let mut k: usize = 0;
    while k < commands.len()
        invariant
            k <= commands@.len(),
            events@ == decided_events(*victory_condition, commands@, k as int),
        decreases commands@.len() - k,
    {
        let command = &commands[k];
        match command {
            GameRulesCommand::CheckSheepWin { all_zones_done, any_zones_done } => {
                let done = match victory_condition {
                    VictoryCondition::AllGoalZones => *all_zones_done,
                    VictoryCondition::AnyGoalZones => *any_zones_done,
                };
                if done {
                    events.push(LevelEvent::LoadNextLevel);
                }
            },
        }
        k = k + 1;
    }
    events
}

} // verus!
