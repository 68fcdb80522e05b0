//! Level progression: which level to load in answer to a level event.
//!
//! Loading the level data itself is the embedding's business; here lives
//! only the decision.

use vstd::prelude::*;

verus! {

/// A request to change levels.
#[derive(Clone, Copy, Debug, PartialEq, Eq, Structural)]
pub enum LevelEvent {
    LoadLevelIndex { index: usize },
    LoadNextLevel,
}

/// The answer to a level event: the level index to play next, and which
/// level, if any, to load for it.
pub open spec fn level_selection_spec(
    event: LevelEvent,
    current_index: int,
    num_levels: int,
) -> (int, Option<int>) {
    match event {
        LevelEvent::LoadLevelIndex { index } => (
            current_index,
            if index < num_levels {
                Some(index as int)
            } else {
                None
            },
        ),
        LevelEvent::LoadNextLevel => (
            current_index + 1,
            if current_index + 1 < num_levels {
                Some(current_index + 1)
            } else {
                None
            },
        ),
    }
}

/// Decide what a level event means: an explicit index loads that level
/// when it exists and leaves the running index alone; advancing moves the
/// index up and loads the new level when there is one.
pub fn handle_level_event(event: &LevelEvent, current_index: usize, num_levels: usize) -> (r: (
    usize,
    Option<usize>,
))
    requires
        current_index < usize::MAX,
    ensures
        r.0 == level_selection_spec(*event, current_index as int, num_levels as int).0,
        (match (
            r.1,
            level_selection_spec(*event, current_index as int, num_levels as int).1,
        ) {
            (Some(a), Some(b)) => a == b,
            (None, None) => true,
            _ => false,
        }),
{
    match event {
        LevelEvent::LoadLevelIndex { index } => {
            if *index < num_levels {
                (current_index, Some(*index))
            } else {
                (current_index, None)
            }
        },
        LevelEvent::LoadNextLevel => {
            let next = current_index + 1;
            if next < num_levels {
                (next, Some(next))
            } else {
                (next, None)
            }
        },
    }
}

} // verus!
