//! Goal zones: counting the sheep inside each zone and summarizing the
//! standing for the win rule.
//!
//! The overlap test itself belongs to the physics service; here its
//! answers are counted and judged.

use vstd::prelude::*;

use crate::game_rules::GameRulesCommand;

verus! {

/// Marker for actors that count toward a goal zone's target.
#[derive(Clone, Copy, Debug, PartialEq, Eq, Structural, Default)]
pub struct CountsTowardGoal;

/// How many of the first `k` overlap answers are positive.
pub open spec fn count_true(overlaps: Seq<bool>, k: int) -> int
    decreases k,
{
    if k <= 0 {
        0
    } else {
        count_true(overlaps, k - 1) + if overlaps[k - 1] {
            1int
        } else {
            0int
        }
    }
}

/// Count the sheep a zone holds, from the physics service's per-sheep
/// overlap answers.
pub fn count_sheep_in_zone(overlaps: &Vec<bool>) -> (n: usize)
    ensures
        n == count_true(overlaps@, overlaps@.len() as int),
        n <= overlaps@.len(),
{
    let mut n: usize = 0;
    let mut k: usize = 0;
    while k < overlaps.len()
        invariant
            k <= overlaps@.len(),
            n == count_true(overlaps@, k as int),
            n <= k,
        decreases overlaps@.len() - k,
    {
        if overlaps[k] {
            n = n + 1;
        }
        k = k + 1;
    }
    n
}

/// Whether every one of the first `k` zones has reached its target.
pub open spec fn all_zones_done(
    targets: Seq<usize>,
    counts: Seq<usize>,
    in_game: bool,
    k: int,
) -> bool
    decreases k,
{
    if k <= 0 {
        true
    } else {
        all_zones_done(targets, counts, in_game, k - 1) && (in_game && counts[k - 1]
            >= targets[k - 1])
    }
}

/// Whether any of the first `k` zones has reached its target.
pub open spec fn any_zones_done(
    targets: Seq<usize>,
    counts: Seq<usize>,
    in_game: bool,
    k: int,
) -> bool
    decreases k,
{
    if k <= 0 {
        false
    } else {
        any_zones_done(targets, counts, in_game, k - 1) || (in_game && counts[k - 1]
            >= targets[k - 1])
    }
}

/// Judge the zones' standing: with no zone at all there is nothing to
/// check; otherwise report whether all, and whether any, zones have
/// reached their sheep target. Outside the playing state no zone counts
/// as done.
pub fn update_goal_zones(targets: &Vec<usize>, counts: &Vec<usize>, in_game: bool) -> (r: Option<
    GameRulesCommand,
>)
    requires
        targets@.len() == counts@.len(),
    ensures
        targets@.len() == 0 ==> r is None,
        targets@.len() > 0 ==> r == Some(
            GameRulesCommand::CheckSheepWin {
                all_zones_done: all_zones_done(
                    targets@,
                    counts@,
                    in_game,
                    targets@.len() as int,
                ),
                any_zones_done: any_zones_done(
                    targets@,
                    counts@,
                    in_game,
                    targets@.len() as int,
                ),
            },
        ),
{
    let n = targets.len();
    if n == 0 {
        return None;
    }
    let mut all_complete = true;
    let mut any_complete = false;
    let mut k: usize = 0;
    while k < n
        invariant
            k <= n == targets@.len() == counts@.len(),
            all_complete == all_zones_done(targets@, counts@, in_game, k as int),
            any_complete == any_zones_done(targets@, counts@, in_game, k as int),
        decreases n - k,
    {
        let done = in_game && counts[k] >= targets[k];
        if done {
            any_complete = true;
        } else {
            all_complete = false;
        }
        k = k + 1;
    }
    Some(GameRulesCommand::CheckSheepWin { all_zones_done: all_complete, any_zones_done: any_complete })
}

} // verus!
