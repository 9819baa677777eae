//! The check: which reminders go out now.
//!
//! It runs whenever mail comes in and at set times of day. Items whose deadline has passed expire
//! first. Then each active item is reminded of where a reminder is due and none went out, and
//! reminders that failed are tried again half an hour later. Items that are completed, silent or
//! expired are never reminded of.

use crate::config::AppConfig;
use crate::db::log_due;
use crate::model::Item;
use crate::model::ItemStatus;
use crate::model::RunReport;
use crate::model::SendLog;
use crate::model::SendStatus;
use crate::notifier::can_wait;
use crate::notifier::fresh_reminder;
use crate::notifier::half_an_hour_on;
use crate::notifier::new_reminder;
use crate::notifier::remind_plan;
use crate::notifier::reminder_times_at;
use crate::notifier::settled;
use crate::text::blank;
use crate::text::is_blank;
use crate::text::same;
use crate::text::text_of;
use crate::text::texts;
use crate::time::Stamp;
use crate::time::stamp_of;
use vstd::prelude::*;

verus! {

/// Two reminders of one item closer together than this, in seconds, are one.
pub const QUIET_TIME: i64 = 1800;

/// Whether the deadline of an item lies before a moment.
pub open spec fn deadline_passed(item: Item, now: Stamp) -> bool {
    match text_of(item.deadline) {
        Some(d) => match stamp_of(d) {
            Some(t) => t.before(now),
            None => false,
        },
        None => false,
    }
}

/// Whether an item can be reminded of: it is active, and its deadline has not passed.
pub open spec fn remindable(item: Item, now: Stamp) -> bool {
    item.status == ItemStatus::Active && item.deadline is Some && !deadline_passed(item, now)
}

fn is_deadline_passed(item: &Item, now: &Stamp) -> (r: bool)
    ensures
        r == deadline_passed(*item, *now),
{
    match &item.deadline {
        Some(d) => match Stamp::parse(d.as_str()) {
            Some(t) => t.is_before(now),
            None => false,
        },
        None => false,
    }
}

/// The record of the reminder of an item that was due at a time.
pub open spec fn record_of(logs: Seq<SendLog>, item_id: i64, at: Seq<char>) -> Option<int>
    decreases logs.len(),
{
    if logs.len() == 0 {
        None
    } else if logs[0].item_id == item_id && logs[0].scheduled_at@ == at {
        Some(0)
    } else {
        match record_of(logs.drop_first(), item_id, at) {
            Some(i) => Some(i + 1),
            None => None,
        }
    }
}

proof fn record_of_bound(logs: Seq<SendLog>, item_id: i64, at: Seq<char>)
    ensures
        record_of(logs, item_id, at) matches Some(i) ==> 0 <= i < logs.len() && logs[i].item_id
            == item_id && logs[i].scheduled_at@ == at,
    decreases logs.len(),
{
    if logs.len() > 0 {
        record_of_bound(logs.drop_first(), item_id, at);
    }
}

fn find_record(logs: &Vec<SendLog>, item_id: i64, at: &str) -> (r: Option<usize>)
    ensures
        match r {
            Some(i) => record_of(logs@, item_id, at@) == Some(i as int) && i < logs@.len(),
            None => record_of(logs@, item_id, at@) is None,
        },
{
    let mut i: usize = 0;
    assert(logs@.skip(0) == logs@);
    while i < logs.len()
        invariant
            i <= logs@.len(),
            record_of(logs@, item_id, at@) == (match record_of(
                logs@.skip(i as int),
                item_id,
                at@,
            ) {
                Some(k) => Some(k + i),
                None => None,
            }),
        decreases logs@.len() - i,
    {
        assert(logs@.skip(i as int).drop_first() == logs@.skip(i + 1));
        if logs[i].item_id == item_id && same(logs[i].scheduled_at.as_str(), at) {
            return Some(i);
        }
        i += 1;
    }
    None
}

/// Whether a record is of another planned reminder of the item that went out less than half an
/// hour before the given one was due, or later.
pub open spec fn covers(
    log: SendLog,
    item_id: i64,
    at: Seq<char>,
    edge: Stamp,
    plan: Seq<Seq<char>>,
) -> bool {
    &&& log.item_id == item_id
    &&& log.status == SendStatus::Sent
    &&& log.scheduled_at@ != at
    &&& plan.contains(log.scheduled_at@)
    &&& match text_of(log.sent_at) {
        Some(t) => match stamp_of(t) {
            Some(s) => edge.before(s),
            None => false,
        },
        None => false,
    }
}

/// Whether a reminder that is due at a time is one too many.
pub open spec fn covered(
    logs: Seq<SendLog>,
    item_id: i64,
    at: Seq<char>,
    plan: Seq<Seq<char>>,
) -> bool {
    match stamp_of(at) {
        Some(t) => match t.later((-QUIET_TIME) as i64) {
            Some(edge) => exists|i: int|
                0 <= i < logs.len() && covers(#[trigger] logs[i], item_id, at, edge, plan),
            None => false,
        },
        None => false,
    }
}

fn listed(plan: &Vec<String>, at: &str) -> (r: bool)
    ensures
        r == texts(plan@).contains(at@),
{
    let mut i: usize = 0;
    while i < plan.len()
        invariant
            i <= plan@.len(),
            forall|k: int| 0 <= k < i ==> texts(plan@)[k] != at@,
        decreases plan@.len() - i,
    {
        if same(plan[i].as_str(), at) {
            assert(texts(plan@)[i as int] == at@);
            return true;
        }
        i += 1;
    }
    false
}

fn is_covered(logs: &Vec<SendLog>, item_id: i64, at: &str, plan: &Vec<String>) -> (r: bool)
    ensures
        r == covered(logs@, item_id, at@, texts(plan@)),
{
    let t = match Stamp::parse(at) {
        Some(t) => t,
        None => return false,
    };
    let edge = match t.plus_seconds(-QUIET_TIME) {
        Some(e) => e,
        None => return false,
    };
    let mut i: usize = 0;
    while i < logs.len()
        invariant
            i <= logs@.len(),
            stamp_of(at@) == Some(t),
            t.later((-QUIET_TIME) as i64) == Some(edge),
            forall|k: int|
                0 <= k < i ==> !covers(#[trigger] logs@[k], item_id, at@, edge, texts(plan@)),
        decreases logs@.len() - i,
    {
        let log = &logs[i];
        let sent = match log.status {
            SendStatus::Sent => true,
            _ => false,
        };
        if sent && log.item_id == item_id && !same(log.scheduled_at.as_str(), at) && listed(
            plan,
            log.scheduled_at.as_str(),
        ) {
            if let Some(text) = &log.sent_at {
                if let Some(s) = Stamp::parse(text.as_str()) {
                    if edge.is_before(&s) {
                        assert(covers(logs@[i as int], item_id, at@, edge, texts(plan@)));
                        return true;
                    }
                }
            }
        }
        i += 1;
    }
    false
}

/// Whether a reminder failed and is not to be tried again yet.
pub open spec fn resting(log: SendLog, now: Stamp) -> bool {
    log.status == SendStatus::Failed && match text_of(log.next_retry_at) {
        Some(t) => match stamp_of(t) {
            Some(n) => now.before(n),
            None => false,
        },
        None => false,
    }
}

fn is_resting(log: &SendLog, now: &Stamp) -> (r: bool)
    ensures
        r == resting(*log, *now),
{
    match log.status {
        SendStatus::Failed => match &log.next_retry_at {
            Some(t) => match Stamp::parse(t.as_str()) {
                Some(n) => now.is_before(&n),
                None => false,
            },
            None => false,
        },
        _ => false,
    }
}

/// What is to be done about one reminder of an item.
pub enum Turn {
    /// Nothing now.
    Rest,
    /// It goes out for the first time.
    First,
    /// It goes out again: the record at that place.
    Again(int),
}

/// What is to be done about the reminder of an item that is due at a time.
pub open spec fn turn(
    logs: Seq<SendLog>,
    item_id: i64,
    at: Seq<char>,
    plan: Seq<Seq<char>>,
    now: Stamp,
) -> Turn {
    match stamp_of(at) {
        None => Turn::Rest,
        Some(t) => if now.before(t) || covered(logs, item_id, at, plan) {
            Turn::Rest
        } else {
            match record_of(logs, item_id, at) {
                None => Turn::First,
                Some(i) => if logs[i].status == SendStatus::Sent || resting(logs[i], now) {
                    Turn::Rest
                } else {
                    Turn::Again(i)
                },
            }
        },
    }
}

/// The first reminder of a plan, from a place on, that goes out now.
pub open spec fn first_turn(
    logs: Seq<SendLog>,
    item_id: i64,
    plan: Seq<Seq<char>>,
    from: int,
    now: Stamp,
) -> Option<(int, Turn)>
    decreases plan.len() - from,
{
    if from < 0 || from >= plan.len() {
        None
    } else {
        match turn(logs, item_id, plan[from], plan, now) {
            Turn::Rest => first_turn(logs, item_id, plan, from + 1, now),
            other => Some((from, other)),
        }
    }
}

/// The reminder of an item that goes out now: when it was due, and what is to be done.
pub open spec fn chosen(
    item: Item,
    logs: Seq<SendLog>,
    cfg: AppConfig,
    now: Stamp,
    now_text: Seq<char>,
) -> Option<(Seq<char>, Turn)> {
    if remindable(item, now) {
        let plan = remind_plan(item, cfg, now_text);
        match first_turn(logs, item.id, plan, 0, now) {
            Some((k, t)) => Some((plan[k], t)),
            None => None,
        }
    } else {
        None
    }
}

/// The record of a try to send, and whether the reminder is new.
pub open spec fn tried(
    r: Option<(SendLog, bool)>,
    item: Item,
    logs: Seq<SendLog>,
    cfg: AppConfig,
    label: Seq<char>,
    choice: Option<(Seq<char>, Turn)>,
) -> bool {
    match choice {
        None => r is None,
        Some((at, Turn::Rest)) => r is None,
        Some((at, Turn::First)) => r matches Some((log, new)) && new && log.attempt == 1
            && fresh_reminder((SendLog { attempt: 0, ..log }), item, cfg, label, at),
        Some((at, Turn::Again(i))) => r matches Some((log, new)) && !new && log == (SendLog {
            attempt: (logs[i].attempt + 1) as i64,
            ..logs[i]
        }),
    }
}

/// The reminder of an item that goes out now, if any: of the planned ones the first that is due,
/// did not go out, does not wait for its next try, and is not one too many. `logs` holds the
/// records of the reminders of the item.
pub fn check_item(
    item: &Item,
    logs: &Vec<SendLog>,
    cfg: &AppConfig,
    label: &str,
    now: &Stamp,
    now_text: &str,
) -> (r: Option<(SendLog, bool)>)
    requires
        forall|i: int| 0 <= i < logs@.len() ==> (#[trigger] logs@[i]).attempt < i64::MAX,
    ensures
        tried(r, *item, logs@, *cfg, label@, chosen(*item, logs@, *cfg, *now, now_text@)),
{
    match item.status {
        ItemStatus::Active => {},
        _ => return None,
    }
    if item.deadline.is_none() || is_deadline_passed(item, now) {
        return None;
    }
    let plan = reminder_times_at(item, cfg, now_text);
    let mut k: usize = 0;
    while k < plan.len()
        invariant
            k <= plan@.len(),
            remindable(*item, *now),
            texts(plan@) == remind_plan(*item, *cfg, now_text@),
            forall|i: int| 0 <= i < logs@.len() ==> (#[trigger] logs@[i]).attempt < i64::MAX,
            first_turn(logs@, item.id, texts(plan@), 0, *now) == first_turn(
                logs@,
                item.id,
                texts(plan@),
                k as int,
                *now,
            ),
        decreases plan@.len() - k,
    {
        assert(texts(plan@)[k as int] == plan@[k as int]@);
        let at = plan[k].as_str();
        let due = match Stamp::parse(at) {
            Some(t) => !now.is_before(&t),
            None => false,
        };
        if due && !is_covered(logs, item.id, at, &plan) {
            match find_record(logs, item.id, at) {
                None => {
                    let mut log = new_reminder(item, cfg, label, at);
                    let ghost fresh = log;
                    log.attempt = 1;
                    assert((SendLog { attempt: 0, ..log }) == fresh);
                    return Some((log, true));
                },
                Some(i) => {
                    let sent = match logs[i].status {
                        SendStatus::Sent => true,
                        _ => false,
                    };
                    if !sent && !is_resting(&logs[i], now) {
                        let mut log = logs[i].clone();
                        log.attempt = log.attempt + 1;
                        return Some((log, false));
                    }
                },
            }
        }
        k += 1;
    }
    None
}

/// What is to be done about a record that waits to be sent.
pub enum DueStep {
    /// It is not sent any more; the record says why.
    Cancel(SendLog),
    /// It is one too many.
    Leave,
    /// It is sent; the record counts the try.
    Send(SendLog),
}

/// Why a reminder of an item that is not active is not sent.
pub open spec fn inactive_error(status: ItemStatus) -> Seq<char> {
    "事项状态为 "@ + status.name() + "，取消发送"@
}

/// Whether the step is the right one about a record that waits to be sent.
pub open spec fn due_step(
    r: DueStep,
    log: SendLog,
    item: Option<Item>,
    logs: Seq<SendLog>,
    cfg: AppConfig,
    now: Stamp,
    now_text: Seq<char>,
) -> bool {
    let send = r matches DueStep::Send(l) && l == (SendLog {
        attempt: (log.attempt + 1) as i64,
        ..log
    });
    match item {
        None => send,
        Some(it) => if it.status != ItemStatus::Active {
            r matches DueStep::Cancel(l) && l == (SendLog {
                status: SendStatus::Failed,
                error: l.error,
                ..log
            }) && text_of(l.error) == Some(inactive_error(it.status))
        } else if deadline_passed(it, now) {
            r matches DueStep::Cancel(l) && l == (SendLog {
                status: SendStatus::Failed,
                error: l.error,
                ..log
            }) && text_of(l.error) == Some("截止时间已过，取消补发"@)
        } else if log.kind@ == "reminder"@ && covered(
            logs,
            it.id,
            log.scheduled_at@,
            remind_plan(it, cfg, now_text),
        ) {
            r is Leave
        } else {
            send
        },
    }
}

/// What is to be done about a record that waits to be sent: it is sent, but not for an item that
/// is not active or whose deadline has passed, nor where another reminder covers it.
pub fn check_due(
    log: &SendLog,
    item: &Option<Item>,
    logs: &Vec<SendLog>,
    cfg: &AppConfig,
    now: &Stamp,
    now_text: &str,
) -> (r: DueStep)
    requires
        log.attempt < i64::MAX,
    ensures
        due_step(r, *log, *item, logs@, *cfg, *now, now_text@),
{
    let mut out = log.clone();
    if let Some(it) = item {
        let active = match it.status {
            ItemStatus::Active => true,
            _ => false,
        };
        if !active {
            let mut error = "事项状态为 ".to_owned();
            error.append(it.status.as_str());
            error.append("，取消发送");
            out.status = SendStatus::Failed;
            out.error = Some(error);
            return DueStep::Cancel(out);
        }
        if is_deadline_passed(it, now) {
            out.status = SendStatus::Failed;
            out.error = Some("截止时间已过，取消补发".to_owned());
            return DueStep::Cancel(out);
        }
        if same(log.kind.as_str(), "reminder") {
            let plan = reminder_times_at(it, cfg, now_text);
            if is_covered(logs, it.id, log.scheduled_at.as_str(), &plan) {
                return DueStep::Leave;
            }
        }
    }
    out.attempt = out.attempt + 1;
    DueStep::Send(out)
}

/// Whether a try came out in a way.
pub open spec fn came_out(status: SendStatus) -> spec_fn((bool, SendStatus)) -> bool {
    |t: (bool, SendStatus)| t.1 == status
}

/// How many of the tries came out in a way.
pub open spec fn count_of(tries: Seq<(bool, SendStatus)>, status: SendStatus) -> nat {
    tries.filter(came_out(status)).len()
}

/// How many of the tries were of new reminders.
pub open spec fn count_new(tries: Seq<(bool, SendStatus)>) -> nat {
    tries.filter(|t: (bool, SendStatus)| t.0).len()
}

/// The report of a check: how many items expired, and of the tries how many were of new
/// reminders, went out, failed.
pub fn report_of(expired: usize, tries: &Vec<(bool, SendStatus)>) -> (r: RunReport)
    ensures
        r == (RunReport {
            expired,
            missed_compensated: count_new(tries@) as usize,
            reminders_sent: count_of(tries@, SendStatus::Sent) as usize,
            reminders_failed: count_of(tries@, SendStatus::Failed) as usize,
            ..RunReport::nothing()
        }),
        r.missed_compensated == count_new(tries@),
        r.reminders_sent == count_of(tries@, SendStatus::Sent),
        r.reminders_failed == count_of(tries@, SendStatus::Failed),
{
    let mut new: usize = 0;
    let mut sent: usize = 0;
    let mut failed: usize = 0;
    let ghost is_new = |t: (bool, SendStatus)| t.0;
    let ghost is_sent = came_out(SendStatus::Sent);
    let ghost is_failed = came_out(SendStatus::Failed);
    let mut i: usize = 0;
    proof {
        reveal(Seq::filter);
    }
    while i < tries.len()
        invariant
            i <= tries@.len(),
            is_new == (|t: (bool, SendStatus)| t.0),
            is_sent == came_out(SendStatus::Sent),
            is_failed == came_out(SendStatus::Failed),
            new <= i,
            sent <= i,
            failed <= i,
            new == tries@.take(i as int).filter(is_new).len(),
            sent == tries@.take(i as int).filter(is_sent).len(),
            failed == tries@.take(i as int).filter(is_failed).len(),
        decreases tries@.len() - i,
    {
        proof {
            assert(tries@.take(i + 1).drop_last() == tries@.take(i as int));
            reveal(Seq::filter);
        }
        let (fresh, status) = tries[i];
        if fresh {
            new += 1;
        }
        match status {
            SendStatus::Sent => {
                sent += 1;
            },
            SendStatus::Failed => {
                failed += 1;
            },
            SendStatus::Pending => {},
        }
        i += 1;
    }
    assert(tries@.take(i as int) == tries@);
    let mut r = RunReport::default();
    r.expired = expired;
    r.missed_compensated = new;
    r.reminders_sent = sent;
    r.reminders_failed = failed;
    r
}

/// Whether a reminder that was tried is pushed to the web hook as well: it went out, and there is
/// a web hook.
pub fn pushes(log: &SendLog, cfg: &AppConfig) -> (r: bool)
    ensures
        r == (log.status == SendStatus::Sent && !blank(cfg.reminder.webhook_url@)),
{
    match log.status {
        SendStatus::Sent => !is_blank(cfg.reminder.webhook_url.as_str()),
        _ => false,
    }
}

/// An item that is completed, silent or expired is never reminded of: no reminder of it goes out,
/// and none that waits is sent.
pub proof fn only_active_items_are_reminded_of(
    item: Item,
    logs: Seq<SendLog>,
    cfg: AppConfig,
    now: Stamp,
    now_text: Seq<char>,
)
    requires
        item.status != ItemStatus::Active,
    ensures
        chosen(item, logs, cfg, now, now_text) is None,
        forall|log: SendLog, r: DueStep| #[trigger]
            due_step(r, log, Some(item), logs, cfg, now, now_text) ==> r is Cancel,
{
}

/// An item whose deadline has passed is not reminded of, and no reminder of it that waits is sent.
pub proof fn no_reminder_after_deadline(
    item: Item,
    logs: Seq<SendLog>,
    cfg: AppConfig,
    now: Stamp,
    now_text: Seq<char>,
)
    requires
        deadline_passed(item, now),
    ensures
        chosen(item, logs, cfg, now, now_text) is None,
        forall|log: SendLog, r: DueStep| #[trigger]
            due_step(r, log, Some(item), logs, cfg, now, now_text) ==> r is Cancel,
{
}

proof fn first_turn_is_a_turn(
    logs: Seq<SendLog>,
    item_id: i64,
    plan: Seq<Seq<char>>,
    from: int,
    now: Stamp,
)
    requires
        0 <= from,
    ensures
        first_turn(logs, item_id, plan, from, now) matches Some((k, t)) ==> from <= k < plan.len()
            && t == turn(logs, item_id, plan[k], plan, now) && !(t is Rest),
    decreases plan.len() - from,
{
    if from < plan.len() && turn(logs, item_id, plan[from], plan, now) is Rest {
        first_turn_is_a_turn(logs, item_id, plan, from + 1, now);
    }
}

/// What goes out is due; it did not go out before; where it failed, the time for its next try
/// has come; and no other reminder of the item covers it.
pub proof fn what_goes_out_is_owed(
    item: Item,
    logs: Seq<SendLog>,
    cfg: AppConfig,
    now: Stamp,
    now_text: Seq<char>,
)
    ensures
        chosen(item, logs, cfg, now, now_text) matches Some((at, t)) ==> {
            &&& item.status == ItemStatus::Active
            &&& stamp_of(at) is Some && !now.before(stamp_of(at)->0)
            &&& remind_plan(item, cfg, now_text).contains(at)
            &&& !covered(logs, item.id, at, remind_plan(item, cfg, now_text))
            &&& t matches Turn::Again(i) ==> 0 <= i < logs.len() && logs[i].item_id == item.id
                && logs[i].scheduled_at@ == at && logs[i].status != SendStatus::Sent && !resting(
                logs[i],
                now,
            )
            &&& t is First ==> record_of(logs, item.id, at) is None
        },
{
    if remindable(item, now) {
        let plan = remind_plan(item, cfg, now_text);
        first_turn_is_a_turn(logs, item.id, plan, 0, now);
        match first_turn(logs, item.id, plan, 0, now) {
            Some((k, t)) => {
                record_of_bound(logs, item.id, plan[k]);
                assert(plan.contains(plan[k]));
            },
            None => {},
        }
    }
}

/// A reminder that went out is not sent again, however often the check runs.
pub proof fn sent_once(
    item: Item,
    logs: Seq<SendLog>,
    cfg: AppConfig,
    now: Stamp,
    now_text: Seq<char>,
    at: Seq<char>,
)
    requires
        record_of(logs, item.id, at) matches Some(i) && logs[i].status == SendStatus::Sent,
    ensures
        chosen(item, logs, cfg, now, now_text) matches Some((a, _)) ==> a != at,
{
    what_goes_out_is_owed(item, logs, cfg, now, now_text);
    if remindable(item, now) {
        first_turn_is_a_turn(logs, item.id, remind_plan(item, cfg, now_text), 0, now);
    }
}

/// A reminder that failed is tried again after half an hour, and not before. Until then no check
/// sends it, and it does not wait to be sent. From then on it waits to be sent, and as long as its
/// item can be reminded of and no other reminder covers it, a check sends it and counts the try.
pub proof fn what_failed_waits_half_an_hour(
    before: SendLog,
    after: SendLog,
    error: Option<String>,
    message_id: String,
    now: Stamp,
    item: Item,
    logs: Seq<SendLog>,
    cfg: AppConfig,
    later: Stamp,
    later_text: Seq<char>,
)
    requires
        settled(before, after, error, message_id, now),
        error is Some,
        can_wait(now),
        after.attempt < i64::MAX,
        record_of(logs, item.id, after.scheduled_at@) matches Some(i) && logs[i] == after,
    ensures
        log_due(after, later) == !later.before(half_an_hour_on(now)),
        later.before(half_an_hour_on(now)) ==> (chosen(item, logs, cfg, later, later_text) matches Some(
            (at, _),
        ) ==> at != after.scheduled_at@),
        !later.before(half_an_hour_on(now)) && item.status == ItemStatus::Active
            && !deadline_passed(item, later) && !covered(
            logs,
            item.id,
            after.scheduled_at@,
            remind_plan(item, cfg, later_text),
        ) ==> {
            &&& stamp_of(after.scheduled_at@) is Some && !later.before(
                stamp_of(after.scheduled_at@)->0,
            ) ==> turn(
                logs,
                item.id,
                after.scheduled_at@,
                remind_plan(item, cfg, later_text),
                later,
            ) == Turn::Again(record_of(logs, item.id, after.scheduled_at@)->0)
            &&& forall|r: DueStep| #[trigger]
                due_step(r, after, Some(item), logs, cfg, later, later_text) ==> r == DueStep::Send(
                    (SendLog { attempt: (after.attempt + 1) as i64, ..after }),
                )
        },
{
    what_goes_out_is_owed(item, logs, cfg, later, later_text);
    if remindable(item, later) {
        first_turn_is_a_turn(logs, item.id, remind_plan(item, cfg, later_text), 0, later);
    }
}

/// A reminder that went out is done with: no check sends it, and it does not wait to be sent.
pub proof fn what_went_out_is_done(
    before: SendLog,
    after: SendLog,
    message_id: String,
    now: Stamp,
    item: Item,
    logs: Seq<SendLog>,
    cfg: AppConfig,
    later: Stamp,
    later_text: Seq<char>,
)
    requires
        settled(before, after, None, message_id, now),
        record_of(logs, item.id, after.scheduled_at@) matches Some(i) && logs[i] == after,
    ensures
        !log_due(after, later),
        chosen(item, logs, cfg, later, later_text) matches Some((at, _)) ==> at
            != after.scheduled_at@,
{
    sent_once(item, logs, cfg, later, later_text, after.scheduled_at@);
}

/// Two reminders of an item keep half an hour apart: none goes out that was due less than half an
/// hour after another of the planned ones went out, or before that.
pub proof fn reminders_keep_their_distance(
    item: Item,
    logs: Seq<SendLog>,
    cfg: AppConfig,
    now: Stamp,
    now_text: Seq<char>,
    i: int,
    sent: Stamp,
)
    requires
        0 <= i < logs.len(),
        logs[i].item_id == item.id,
        logs[i].status == SendStatus::Sent,
        remind_plan(item, cfg, now_text).contains(logs[i].scheduled_at@),
        logs[i].sent_at is Some,
        stamp_of(logs[i].sent_at->0@) == Some(sent),
    ensures
        chosen(item, logs, cfg, now, now_text) matches Some((at, _)) ==> at
            != logs[i].scheduled_at@ ==> stamp_of(at) is Some && (stamp_of(at)->0.later(
            (-QUIET_TIME) as i64,
        ) matches Some(edge) ==> !edge.before(sent)),
{
    what_goes_out_is_owed(item, logs, cfg, now, now_text);
}

} // verus!
