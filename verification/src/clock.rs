//! The calendar day on the local clock.

use vstd::prelude::*;

use crate::ledger::Date;

verus! {

/// Relies on chrono: `Local::now().date_naive()` is the current day on the
/// local clock, and `Datelike::month` and `Datelike::day` return values in
/// 1..=12 and 1..=31, so the result is a well-formed calendar day. Nothing
/// more is assumed: which day comes back depends on the wall clock and the
/// machine's time zone.
#[verifier::external_body]
pub(crate) fn current_date() -> (d: Date)
    ensures
        d.wf(),
{
    let now = chrono::Local::now().date_naive();
    Date {
        year: chrono::Datelike::year(&now),
        month: chrono::Datelike::month(&now) as u8,
        day: chrono::Datelike::day(&now) as u8,
    }
}

} // verus!
