//! Reminders: when an item is reminded of, in what words, and what comes of sending them.

use crate::config::AppConfig;
use crate::config::hhmm;
use crate::laws::digits_are_read_as_written;
use crate::laws::is_number;
use crate::laws::trimming_takes_the_white_space;
use crate::model::Item;
use crate::notifier::days_ahead;
use crate::notifier::policy;
use crate::notifier::remind_plan;
use crate::notifier::remind_text;
use crate::notifier::settled;
use crate::model::SendLog;
use crate::model::SendStatus;
use crate::text::one_piece;
use crate::text::pieces;
use crate::text::pieces_of_two;
use crate::time::civil_before;
use crate::time::moment_gap;
use crate::time::moment_later;
use crate::time::rfc3339_moment;
use crate::time::rfc3339_text;
use crate::time::Stamp;
use crate::time::zone_clock;
use crate::time::zone_moments;
use vstd::prelude::*;

verus! {

/// Whether a text is a time of day: hour and minute in digits, with a colon between.
pub open spec fn is_time_of_day(s: Seq<char>, hour: int, minute: int) -> bool {
    exists|h: Seq<char>, m: Seq<char>|
        s == #[trigger] (h + seq![':'] + m) && h.len() <= 2 && m.len() <= 2 && is_number(h, hour)
            && is_number(m, minute)
}

/// A time of day is read as it is written, up to 23:59.
pub proof fn times_of_day_are_read_as_written(s: Seq<char>, hour: int, minute: int)
    requires
        is_time_of_day(s, hour, minute),
    ensures
        hour <= 23 && minute <= 59 ==> hhmm(s) == Ok::<(u32, u32), crate::config::HhmmError>(
            (hour as u32, minute as u32),
        ),
        hour > 23 || minute > 59 ==> hhmm(s) is Err,
{
    let (h, m) = choose|h: Seq<char>, m: Seq<char>|
        s == #[trigger] (h + seq![':'] + m) && h.len() <= 2 && m.len() <= 2 && is_number(h, hour)
            && is_number(m, minute);
    let none = Seq::<char>::empty();
    assert(none + s + none =~= s);
    assert(s[0] == h[0]);
    assert(s.last() == m.last());
    trimming_takes_the_white_space(none, s, none);
    assert(!h.contains(':')) by {
        if h.contains(':') {
            let i = choose|i: int| 0 <= i < h.len() && h[i] == ':';
            assert('0' <= h[i] <= '9');
        }
    }
    assert(!m.contains(':')) by {
        if m.contains(':') {
            let i = choose|i: int| 0 <= i < m.len() && m[i] == ':';
            assert('0' <= m[i] <= '9');
        }
    }
    one_piece(h, ':');
    one_piece(m, ':');
    pieces_of_two(h, ':', m);
    assert(pieces(s, ':') =~= seq![h] + seq![m]);
    digits_are_read_as_written(h, hour, 0, u32::MAX as int);
    digits_are_read_as_written(m, minute, 0, u32::MAX as int);
}

/// The reminder some days before a deadline is due on the date that many days before the date of
/// the deadline on the clock of the zone, at the time of day that is set, and is told in UTC.
/// Where clocks do not show that time exactly once there is none.
pub proof fn days_before_a_deadline(
    deadline: Seq<char>,
    days: i64,
    lead_time: Seq<char>,
    zone: Seq<char>,
    hour: int,
    minute: int,
)
    requires
        is_time_of_day(lead_time, hour, minute),
        hour <= 23,
        minute <= 59,
    ensures
        ({
            let r = remind_text(days_ahead(deadline, days, lead_time, zone));
            match rfc3339_moment(deadline) {
                None => r is Err,
                Some(d) => match zone_clock(zone, d.0) {
                    None => r is Err,
                    Some(c) => match civil_before(c.0, c.1, c.2, days) {
                        None => r is Err,
                        Some(day) => {
                            let moments = zone_moments(
                                zone,
                                day.0,
                                day.1,
                                day.2,
                                hour as u32,
                                minute as u32,
                                0,
                            );
                            if moments.len() != 1 {
                                r is Err
                            } else {
                                match rfc3339_text(moments[0].0, 0, 0) {
                                    Some(t) => r == Ok::<Seq<char>, crate::notifier::RemindError>(t),
                                    None => r is Err,
                                }
                            }
                        },
                    },
                },
            }
        }),
{
    times_of_day_are_read_as_written(lead_time, hour, minute);
}

/// By the usual policy an item is reminded of once: as many days before its deadline as is set, at
/// the time of day that is set.
pub proof fn usual_reminders(item: Item, cfg: AppConfig, now: Seq<char>, hour: int, minute: int)
    requires
        item.remind_policy@ != "urgent"@,
        item.remind_policy@ != "link_expiry"@,
        item.deadline is Some,
        item.deadline->0@.len() > 0,
        is_time_of_day(cfg.reminder.lead_time@, hour, minute),
        hour <= 23,
        minute <= 59,
    ensures
        remind_plan(item, cfg, now).len() <= 1,
        match rfc3339_moment(item.deadline->0@) {
            None => remind_plan(item, cfg, now).len() == 0,
            Some(d) => zone_clock(cfg.timezone@, d.0) matches Some(c) ==> (civil_before(
                c.0,
                c.1,
                c.2,
                cfg.reminder.days_before,
            ) matches Some(day) ==> ({
                let moments = zone_moments(
                    cfg.timezone@,
                    day.0,
                    day.1,
                    day.2,
                    hour as u32,
                    minute as u32,
                    0,
                );
                if moments.len() != 1 {
                    remind_plan(item, cfg, now).len() == 0
                } else {
                    rfc3339_text(moments[0].0, 0, 0) matches Some(t) ==> rfc3339_moment(
                        t,
                    ) is Some ==> remind_plan(item, cfg, now) == seq![t]
                }
            })),
        },
{
    days_before_a_deadline(
        item.deadline->0@,
        cfg.reminder.days_before,
        cfg.reminder.lead_time@,
        cfg.timezone@,
        hour,
        minute,
    );
}

/// By the policies that remind at once an item is reminded of when it was made and two hours
/// before its deadline, in the order of time; once where that is the same moment. Where it is not
/// known when it was made, that is now.
pub proof fn reminders_at_once(
    item: Item,
    cfg: AppConfig,
    now: Seq<char>,
    made: Seq<char>,
    due: Seq<char>,
    deadline: (i64, u32, i32),
    two_hours_before: (i64, u32),
)
    requires
        item.remind_policy@ == "urgent"@ || item.remind_policy@ == "link_expiry"@,
        item.deadline is Some,
        item.deadline->0@.len() > 0,
        made == if rfc3339_moment(item.created_at@) is Some {
            item.created_at@
        } else {
            now
        },
        rfc3339_moment(made) is Some,
        rfc3339_moment(item.deadline->0@) == Some(deadline),
        moment_later(deadline.0, deadline.1, (-7200) as i64) == Some(two_hours_before),
        rfc3339_text(two_hours_before.0, two_hours_before.1, 0) == Some(due),
        rfc3339_moment(due) is Some,
    ensures
        ({
            let plan = remind_plan(item, cfg, now);
            let a = rfc3339_moment(made)->0;
            let b = rfc3339_moment(due)->0;
            if a.0 < b.0 || (a.0 == b.0 && a.1 < b.1) {
                plan == seq![made, due]
            } else if b.0 < a.0 || (a.0 == b.0 && b.1 < a.1) {
                plan == seq![due, made]
            } else {
                plan == seq![made]
            }
        }),
{
}

/// What has a link or a right that lapses is reminded of by that policy, what is due within a day
/// by the urgent one, and the rest, as well as what has no deadline, by the usual one.
pub proof fn policies(deadline: Option<Seq<char>>, lapsing: bool, now: Seq<char>)
    ensures
        deadline is None ==> policy(deadline, lapsing, now) == "normal"@,
        deadline matches Some(d) ==> {
            &&& d.len() == 0 ==> policy(deadline, lapsing, now) == "normal"@
            &&& d.len() > 0 && lapsing ==> policy(deadline, lapsing, now) == "link_expiry"@
            &&& d.len() > 0 && !lapsing && (rfc3339_moment(d) is None || rfc3339_moment(now) is None)
                ==> policy(deadline, lapsing, now) == "normal"@
            &&& d.len() > 0 && !lapsing && rfc3339_moment(d) is Some && rfc3339_moment(now) is Some
                ==> ({
                let t = rfc3339_moment(d)->0;
                let n = rfc3339_moment(now)->0;
                moment_gap(t.0, t.1, n.0, n.1) matches Some(g) ==> -1_000_000_000 < g.1
                    < 1_000_000_000 ==> policy(deadline, lapsing, now) == if 0 < g.0 * 1_000_000_000
                    + g.1 <= 86400 * 1_000_000_000 {
                    "urgent"@
                } else {
                    "normal"@
                }
            })
        },
{
}

/// A reminder that went out is recorded as sent, at that time and with the identifier of its
/// message; one that failed is recorded as failed, with the error, and is tried again 1800 seconds
/// on. Nothing else of the record changes.
pub proof fn what_comes_of_sending(
    before: SendLog,
    after: SendLog,
    error: Option<String>,
    message_id: String,
    now: Stamp,
)
    requires
        settled(before, after, error, message_id, now),
    ensures
        error is None ==> after.status == SendStatus::Sent && (match after.sent_at {
            Some(t) => Some(t@),
            None => None,
        }) == rfc3339_text(now.secs, now.nanos, now.offset) && after == (SendLog {
            status: SendStatus::Sent,
            sent_at: after.sent_at,
            error: None,
            next_retry_at: None,
            message_id: Some(message_id),
            ..before
        }),
        error is Some ==> after == (SendLog {
            status: SendStatus::Failed,
            error,
            next_retry_at: after.next_retry_at,
            ..before
        }) && (match after.next_retry_at {
            Some(t) => Some(t@),
            None => None,
        }) == match moment_later(now.secs, now.nanos, 1800) {
            Some(m) => rfc3339_text(m.0, m.1, now.offset),
            None => None,
        },
{
}

} // verus!
