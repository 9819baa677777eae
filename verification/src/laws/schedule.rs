//! When the full check of the day runs.

use crate::scheduler::mark_at;
use crate::time::strftime;
use crate::time::Stamp;
use vstd::prelude::*;

verus! {

/// The full check runs in the minutes that are set, on the clock of the moment, and in no others:
/// each has its mark, which tells day and minute.
pub proof fn when_the_check_runs(
    times: Seq<Seq<char>>,
    now: Stamp,
    day: Seq<char>,
    minute: Seq<char>,
)
    requires
        strftime(now.secs, now.offset, "%Y-%m-%d"@) == Some(day),
        strftime(now.secs, now.offset, "%H:%M"@) == Some(minute),
    ensures
        (exists|i: int| 0 <= i < times.len() && #[trigger] times[i] == minute) ==> mark_at(
            times,
            now,
        ) == Some("check_fired:"@ + day + " "@ + minute),
        (forall|i: int| 0 <= i < times.len() ==> #[trigger] times[i] != minute) ==> mark_at(
            times,
            now,
        ) is None,
{
}

} // verus!
