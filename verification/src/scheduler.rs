//! When the full check of the day runs.

use crate::model::RunReport;
use crate::text::same;
use crate::text::text_of;
use crate::text::texts;
use crate::time::strftime;
use crate::time::Stamp;
use vstd::prelude::*;

verus! {

/// How often the scheduler looks, in seconds.
pub const TICK_INTERVAL_SECS: u64 = 30;

/// What marks that the check of a day and minute has run; nothing at any other time.
pub open spec fn check_mark(check_times: Seq<Seq<char>>, day: Seq<char>, minute: Seq<char>) -> Option<
    Seq<char>,
> {
    if check_times.contains(minute) {
        Some("check_fired:"@ + day + " "@ + minute)
    } else {
        None
    }
}

/// The day and the minute of a moment.
pub open spec fn day_minute(now: Stamp) -> Option<(Seq<char>, Seq<char>)> {
    match (strftime(now.secs, now.offset, "%Y-%m-%d"@), strftime(now.secs, now.offset, "%H:%M"@)) {
        (Some(d), Some(m)) => Some((d, m)),
        _ => None,
    }
}

/// What marks that the check due at a moment has run; nothing where none is due.
pub open spec fn mark_at(check_times: Seq<Seq<char>>, now: Stamp) -> Option<Seq<char>> {
    match day_minute(now) {
        Some((d, m)) => check_mark(check_times, d, m),
        None => None,
    }
}

/// What marks that the check due at a day and minute has run.
pub fn check_mark_of(check_times: &Vec<String>, day: &str, minute: &str) -> (r: Option<String>)
    ensures
        text_of(r) == check_mark(texts(check_times@), day@, minute@),
{
    let mut i: usize = 0;
    while i < check_times.len()
        invariant
            i <= check_times@.len(),
            forall|k: int| 0 <= k < i ==> texts(check_times@)[k] != minute@,
        decreases check_times@.len() - i,
    {
        if same(check_times[i].as_str(), minute) {
            assert(texts(check_times@)[i as int] == minute@);
            let mut mark = "check_fired:".to_owned();
            mark.append(day);
            mark.append(" ");
            mark.append(minute);
            return Some(mark);
        }
        i += 1;
    }
    None
}

/// What marks that the check due at a moment has run; nothing where none is due.
pub fn due_check(check_times: &Vec<String>, now: &Stamp) -> (r: Option<String>)
    ensures
        text_of(r) == mark_at(texts(check_times@), *now),
{
    match (now.to_day_text(), now.to_hour_text()) {
        (Some(d), Some(m)) => check_mark_of(check_times, d.as_str(), m.as_str()),
        _ => None,
    }
}

/// Whether the full check runs: one is due, and its mark is not set yet.
pub fn fires(mark: &Option<String>, mark_is_set: bool) -> (r: bool)
    ensures
        r == (mark is Some && !mark_is_set),
{
    mark.is_some() && !mark_is_set
}

/// Adds what a check did to the report of a tick.
pub fn add_check(report: &mut RunReport, r: &RunReport)
    requires
        old(report).missed_compensated + r.missed_compensated <= usize::MAX,
        old(report).reminders_sent + r.reminders_sent <= usize::MAX,
        old(report).reminders_failed + r.reminders_failed <= usize::MAX,
    ensures
        *final(report) == (RunReport {
            missed_compensated: (old(report).missed_compensated + r.missed_compensated) as usize,
            reminders_sent: (old(report).reminders_sent + r.reminders_sent) as usize,
            reminders_failed: (old(report).reminders_failed + r.reminders_failed) as usize,
            ..*old(report)
        }),
{
    report.missed_compensated = report.missed_compensated + r.missed_compensated;
    report.reminders_sent = report.reminders_sent + r.reminders_sent;
    report.reminders_failed = report.reminders_failed + r.reminders_failed;
}

/// Two moments of one minute of one day have one mark: once it is set, the check does not run
/// again in that minute.
pub proof fn one_mark_per_minute(check_times: Seq<Seq<char>>, a: Stamp, b: Stamp)
    requires
        day_minute(a) == day_minute(b),
    ensures
        mark_at(check_times, a) == mark_at(check_times, b),
{
}

/// Marks of different days, or of different minutes in days written with as many characters, are
/// different.
pub proof fn marks_differ(
    check_times: Seq<Seq<char>>,
    day: Seq<char>,
    minute: Seq<char>,
    other_day: Seq<char>,
    other_minute: Seq<char>,
)
    requires
        check_times.contains(minute),
        check_times.contains(other_minute),
        day.len() == other_day.len(),
        day != other_day || minute != other_minute,
    ensures
        check_mark(check_times, day, minute) != check_mark(check_times, other_day, other_minute),
{
    let head = "check_fired:"@;
    let a = head + day + " "@ + minute;
    let b = head + other_day + " "@ + other_minute;
    reveal_strlit(" ");
    if a == b {
        assert(a.subrange(head.len() as int, (head.len() + day.len()) as int) == day);
        assert(b.subrange(head.len() as int, (head.len() + day.len()) as int) == other_day);
        assert(a.skip((head.len() + day.len() + 1) as int) == minute);
        assert(b.skip((head.len() + day.len() + 1) as int) == other_minute);
    }
}

} // verus!
