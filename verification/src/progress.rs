//! Live completion percentage for the playing session.
//!
//! While a level is being played and a finish line exists, the completion
//! percentage is recomputed every tick from the player's x-coordinate and
//! the finish line's x-coordinate:
//!
//! * `total = max(finish_x - START_X, one world unit)` (the floor guards
//!   against a finish line at or behind the spawn point),
//! * `traveled = max(player_x - START_X, 0)`,
//! * `percentage = clamp(traveled / total, 0, 100%)`.
//!
//! Percentages are in thousandths of a percent, so 100% is
//! [`PERCENT_SCALE`] = 100_000.

use vstd::prelude::*;

use crate::clock::current_date;
use crate::ledger::{entries_sorted, merged_spec, Date, ProgressEntry, ProgressHistory};
use crate::units::{PERCENT_SCALE, START_X, UNIT};

verus! {

/// The completion percentage reached so far in the current playing session,
/// in thousandths of a percent.
pub struct LevelProgress {
    pub current_percentage: u32,
}

impl LevelProgress {
    /// A fresh session starts at 0%.
    pub fn new() -> (p: LevelProgress)
        ensures
            p.current_percentage == 0,
    {
        LevelProgress { current_percentage: 0 }
    }
}

/// The distance from the spawn point to the finish line, floored at one
/// world unit so that the percentage formula never divides by zero.
pub open spec fn total_distance_spec(finish_x: i64) -> int {
    vstd::math::max(finish_x - START_X, UNIT as int)
}

/// The distance the player has covered since the spawn point, floored at 0.
pub open spec fn traveled_spec(player_x: i64) -> int {
    vstd::math::max(player_x - START_X, 0)
}

/// The completion percentage, in thousandths of a percent: the traveled
/// share of the total distance, scaled to [`PERCENT_SCALE`] and clamped
/// to [0, 100%]. Division rounds toward zero.
pub open spec fn progress_percent_spec(player_x: i64, finish_x: i64) -> int {
    vstd::math::min(
        traveled_spec(player_x) * PERCENT_SCALE / total_distance_spec(finish_x),
        PERCENT_SCALE as int,
    )
}

/// Computes the completion percentage from the player and finish-line
/// x-coordinates (milli-units). The result is always within [0, 100%],
/// for every pair of coordinates, including a finish line at or behind
/// the spawn point.
pub fn progress_percentage(player_x: i64, finish_x: i64) -> (pct: u32)
    ensures
        pct == progress_percent_spec(player_x, finish_x),
        pct <= PERCENT_SCALE,
{
    let total_raw: i128 = finish_x as i128 - START_X as i128;
    let total: u128 = if total_raw >= UNIT as i128 {
        total_raw as u128
    } else {
        UNIT as u128
    };
    let traveled_raw: i128 = player_x as i128 - START_X as i128;
    let traveled: u128 = if traveled_raw >= 0 {
        traveled_raw as u128
    } else {
        0
    };
    let q: u128 = traveled * (PERCENT_SCALE as u128) / total;
    if q >= PERCENT_SCALE as u128 {
        PERCENT_SCALE
    } else {
        q as u32
    }
}

/// The percentage formula stays within [0, 100%] for every pair of
/// coordinates, including a finish line at or behind the spawn point
/// (where the floored total guards the division).
pub proof fn lemma_percent_in_range(player_x: i64, finish_x: i64)
    ensures
        0 <= progress_percent_spec(player_x, finish_x) <= PERCENT_SCALE,
{
    let traveled = traveled_spec(player_x);
    let total = total_distance_spec(finish_x);
    vstd::arithmetic::mul::lemma_mul_nonnegative(traveled, PERCENT_SCALE as int);
    vstd::arithmetic::div_mod::lemma_div_is_ordered(0, traveled * PERCENT_SCALE, total);
}

/// What one tracker tick leaves behind: the live percentage is the one
/// computed from the coordinates, and the ledger is merged and re-sorted
/// with an entry for `today` exactly when the percentage changed.
pub open spec fn progress_tick_post(
    p0: LevelProgress,
    p1: LevelProgress,
    h0: Seq<ProgressEntry>,
    h1: Seq<ProgressEntry>,
    player_x: i64,
    finish_x: i64,
    today: Date,
) -> bool {
    let pct = progress_percent_spec(player_x, finish_x);
    &&& p1.current_percentage == pct
    &&& if pct != p0.current_percentage {
        let e = ProgressEntry { date: today, percentage: pct as u32 };
        &&& h1.to_multiset() == merged_spec(h0, e).to_multiset()
        &&& h1.len() == merged_spec(h0, e).len()
        &&& entries_sorted(h1)
    } else {
        h1 == h0
    }
}

/// One tracker tick with the date supplied by the caller: recomputes the
/// completion percentage from the player and finish-line x-coordinates
/// and, when it changed, records it in the ledger under `today`.
pub fn progress_tick(
    progress: &mut LevelProgress,
    history: &mut ProgressHistory,
    player_x: i64,
    finish_x: i64,
    today: Date,
)
    ensures
        progress_tick_post(
            *old(progress),
            *final(progress),
            old(history).entries@,
            final(history).entries@,
            player_x,
            finish_x,
            today,
        ),
{
    let pct = progress_percentage(player_x, finish_x);
    if pct != progress.current_percentage {
        progress.current_percentage = pct;
        history.add_entry(ProgressEntry { date: today, percentage: pct });
    }
}

/// The per-tick Progress Tracker: while both a player and a finish line
/// exist, recomputes the completion percentage and, when it changed,
/// records it in the ledger under the current local day. With either
/// missing — no live session, or a level without a finish line — the tick
/// is inert.
pub fn progress_tracker_system(
    progress: &mut LevelProgress,
    history: &mut ProgressHistory,
    player_x: Option<i64>,
    finish_x: Option<i64>,
)
    ensures
        match (player_x, finish_x) {
            (Some(px), Some(fx)) => exists|d: Date|
                d.wf() && progress_tick_post(
                    *old(progress),
                    *final(progress),
                    old(history).entries@,
                    final(history).entries@,
                    px,
                    fx,
                    d,
                ),
            _ => final(progress).current_percentage == old(progress).current_percentage
                && final(history).entries@ == old(history).entries@,
        },
{
    match (player_x, finish_x) {
        (Some(px), Some(fx)) => {
            let today = current_date();
            progress_tick(progress, history, px, fx, today);
            proof {
                let d = today;
                assert(d.wf() && progress_tick_post(
                    *old(progress),
                    *final(progress),
                    old(history).entries@,
                    final(history).entries@,
                    px,
                    fx,
                    d,
                ));
            }
        },
        _ => {},
    }
}

} // verus!
