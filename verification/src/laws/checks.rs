//! The check: which reminders go out, which are made up for and tried again, what expires.

use crate::checker::chosen;
use crate::checker::count_new;
use crate::checker::count_of;
use crate::checker::covered;
use crate::checker::covers;
use crate::checker::due_step;
use crate::checker::DueStep;
use crate::checker::first_turn;
use crate::checker::record_of;
use crate::checker::tried;
use crate::checker::turn;
use crate::checker::Turn;
use crate::config::AppConfig;
use crate::db::log_due;
use crate::db::overdue_count;
use crate::db::swept;
use crate::model::Item;
use crate::model::ItemStatus;
use crate::model::SendLog;
use crate::model::SendStatus;
use crate::notifier::remind_plan;
use crate::time::moment_later;
use crate::time::rfc3339_moment;
use crate::time::Stamp;
use vstd::prelude::*;

verus! {

/// Whether a text is a time that has come.
pub open spec fn has_come(at: Seq<char>, now: Stamp) -> bool {
    rfc3339_moment(at) matches Some(m) && !(now.secs < m.0 || (now.secs == m.0 && now.nanos < m.1))
}

/// Whether a text is a time that is past.
pub open spec fn is_past(at: Seq<char>, now: Stamp) -> bool {
    rfc3339_moment(at) matches Some(m) && (m.0 < now.secs || (m.0 == now.secs && m.1 < now.nanos))
}

/// Whether the deadline of an item is past.
pub open spec fn is_late(item: Item, now: Stamp) -> bool {
    item.deadline matches Some(d) && is_past(d@, now)
}

/// Whether a record is of a reminder of an item that was due at a time.
pub open spec fn is_of(log: SendLog, item_id: i64, at: Seq<char>) -> bool {
    log.item_id == item_id && log.scheduled_at@ == at
}

/// Whether there is a record of a reminder of an item that was due at a time.
pub open spec fn has_record(logs: Seq<SendLog>, item_id: i64, at: Seq<char>) -> bool {
    exists|i: int| 0 <= i < logs.len() && is_of(#[trigger] logs[i], item_id, at)
}

/// Whether that is the first record of a reminder of an item that was due at a time.
pub open spec fn is_first_record(logs: Seq<SendLog>, item_id: i64, at: Seq<char>, i: int) -> bool {
    &&& 0 <= i < logs.len()
    &&& is_of(logs[i], item_id, at)
    &&& forall|j: int| 0 <= j < i ==> !is_of(#[trigger] logs[j], item_id, at)
}

/// Whether a record tells that another of the planned reminders of an item went out later than
/// 1800 seconds before a time.
pub open spec fn went_out_near(
    log: SendLog,
    item_id: i64,
    at: Seq<char>,
    plan: Seq<Seq<char>>,
) -> bool {
    &&& log.item_id == item_id
    &&& log.status == SendStatus::Sent
    &&& log.scheduled_at@ != at
    &&& exists|k: int| 0 <= k < plan.len() && #[trigger] plan[k] == log.scheduled_at@
    &&& log.sent_at is Some
    &&& rfc3339_moment(log.sent_at->0@) is Some
    &&& rfc3339_moment(at) is Some
    &&& ({
        let t = rfc3339_moment(at)->0;
        let s = rfc3339_moment(log.sent_at->0@)->0;
        moment_later(t.0, t.1, (-1800) as i64) matches Some(edge) && (edge.0 < s.0 || (edge.0
            == s.0 && edge.1 < s.1))
    })
}

/// Whether another of the planned reminders of an item went out near a time.
pub open spec fn one_too_many(
    logs: Seq<SendLog>,
    item_id: i64,
    at: Seq<char>,
    plan: Seq<Seq<char>>,
) -> bool {
    exists|i: int| 0 <= i < logs.len() && went_out_near(#[trigger] logs[i], item_id, at, plan)
}

/// Whether a reminder failed, and the time at which it is tried again has not come.
pub open spec fn waits(log: SendLog, now: Stamp) -> bool {
    &&& log.status == SendStatus::Failed
    &&& log.next_retry_at is Some
    &&& rfc3339_moment(log.next_retry_at->0@) is Some
    &&& !has_come(log.next_retry_at->0@, now)
}

/// Whether a reminder that was planned for a time is owed now: the time has come, no other
/// reminder went out near it, and there is no record of it, or one that tells neither that it went
/// out nor that it waits.
pub open spec fn owed(
    logs: Seq<SendLog>,
    item_id: i64,
    at: Seq<char>,
    plan: Seq<Seq<char>>,
    now: Stamp,
) -> bool {
    &&& has_come(at, now)
    &&& !one_too_many(logs, item_id, at, plan)
    &&& forall|i: int| #[trigger]
        is_first_record(logs, item_id, at, i) ==> logs[i].status != SendStatus::Sent && !waits(
            logs[i],
            now,
        )
}

proof fn records_are_found(logs: Seq<SendLog>, item_id: i64, at: Seq<char>)
    ensures
        match record_of(logs, item_id, at) {
            Some(i) => is_first_record(logs, item_id, at, i),
            None => !has_record(logs, item_id, at),
        },
    decreases logs.len(),
{
    if logs.len() > 0 {
        let rest = logs.drop_first();
        records_are_found(rest, item_id, at);
        if !is_of(logs[0], item_id, at) {
            match record_of(rest, item_id, at) {
                Some(i) => {
                    assert(logs[i + 1] == rest[i]);
                    assert forall|j: int| 0 <= j < i + 1 implies !is_of(
                        #[trigger] logs[j],
                        item_id,
                        at,
                    ) by {
                        if j > 0 {
                            assert(logs[j] == rest[j - 1]);
                        }
                    }
                },
                None => {
                    assert forall|j: int| 0 <= j < logs.len() implies !is_of(
                        #[trigger] logs[j],
                        item_id,
                        at,
                    ) by {
                        if j > 0 {
                            assert(logs[j] == rest[j - 1]);
                        }
                    }
                },
            }
        }
    }
}

proof fn covered_is_one_too_many(
    logs: Seq<SendLog>,
    item_id: i64,
    at: Seq<char>,
    plan: Seq<Seq<char>>,
)
    ensures
        covered(logs, item_id, at, plan) == one_too_many(logs, item_id, at, plan),
{
    match rfc3339_moment(at) {
        Some(t) => match moment_later(t.0, t.1, (-1800) as i64) {
            Some(e) => {
                let edge = Stamp { secs: e.0, nanos: e.1, offset: t.2 };
                assert forall|i: int| 0 <= i < logs.len() implies covers(
                    #[trigger] logs[i],
                    item_id,
                    at,
                    edge,
                    plan,
                ) == went_out_near(logs[i], item_id, at, plan) by {
                    if plan.contains(logs[i].scheduled_at@) {
                        let k = choose|k: int|
                            0 <= k < plan.len() && plan[k] == logs[i].scheduled_at@;
                        assert(plan[k] == logs[i].scheduled_at@);
                    }
                }
                if covered(logs, item_id, at, plan) {
                    let i = choose|i: int|
                        0 <= i < logs.len() && covers(#[trigger] logs[i], item_id, at, edge, plan);
                    assert(went_out_near(logs[i], item_id, at, plan));
                }
                if one_too_many(logs, item_id, at, plan) {
                    let i = choose|i: int|
                        0 <= i < logs.len() && went_out_near(#[trigger] logs[i], item_id, at, plan);
                    assert(covers(logs[i], item_id, at, edge, plan));
                }
            },
            None => {},
        },
        None => {},
    }
}

proof fn turns_are_for_what_is_owed(
    logs: Seq<SendLog>,
    item_id: i64,
    at: Seq<char>,
    plan: Seq<Seq<char>>,
    now: Stamp,
)
    ensures
        (turn(logs, item_id, at, plan, now) is Rest) == !owed(logs, item_id, at, plan, now),
        owed(logs, item_id, at, plan, now) && !has_record(logs, item_id, at) ==> turn(
            logs,
            item_id,
            at,
            plan,
            now,
        ) is First,
        forall|i: int|
            owed(logs, item_id, at, plan, now) && #[trigger] is_first_record(logs, item_id, at, i)
                ==> turn(logs, item_id, at, plan, now) == Turn::Again(i),
{
    records_are_found(logs, item_id, at);
    covered_is_one_too_many(logs, item_id, at, plan);
    assert forall|i: int, j: int|
        is_first_record(logs, item_id, at, i) && is_first_record(logs, item_id, at, j) implies i
        == j by {
        if i < j {
            assert(!is_of(logs[i], item_id, at));
        }
        if j < i {
            assert(!is_of(logs[j], item_id, at));
        }
    }
    match record_of(logs, item_id, at) {
        Some(i) => {
            assert(is_first_record(logs, item_id, at, i));
        },
        None => {
            assert forall|i: int| !(#[trigger] is_first_record(logs, item_id, at, i)) by {
                if is_first_record(logs, item_id, at, i) {
                    assert(is_of(logs[i], item_id, at));
                }
            }
        },
    }
}

proof fn first_owed_is_found(
    logs: Seq<SendLog>,
    item_id: i64,
    plan: Seq<Seq<char>>,
    from: int,
    k: int,
    now: Stamp,
)
    requires
        0 <= from <= k < plan.len(),
        owed(logs, item_id, plan[k], plan, now),
        forall|j: int| from <= j < k ==> !owed(logs, item_id, #[trigger] plan[j], plan, now),
    ensures
        first_turn(logs, item_id, plan, from, now) == Some(
            (k, turn(logs, item_id, plan[k], plan, now)),
        ),
    decreases k - from,
{
    turns_are_for_what_is_owed(logs, item_id, plan[from], plan, now);
    if from < k {
        assert(!owed(logs, item_id, plan[from], plan, now));
        first_owed_is_found(logs, item_id, plan, from + 1, k, now);
    }
}

proof fn none_owed_none_found(
    logs: Seq<SendLog>,
    item_id: i64,
    plan: Seq<Seq<char>>,
    from: int,
    now: Stamp,
)
    requires
        0 <= from <= plan.len(),
        forall|j: int| from <= j < plan.len() ==> !owed(logs, item_id, #[trigger] plan[j], plan, now),
    ensures
        first_turn(logs, item_id, plan, from, now) is None,
    decreases plan.len() - from,
{
    if from < plan.len() {
        turns_are_for_what_is_owed(logs, item_id, plan[from], plan, now);
        assert(!owed(logs, item_id, plan[from], plan, now));
        none_owed_none_found(logs, item_id, plan, from + 1, now);
    }
}

/// An active item whose deadline is there and not past is reminded of, at once, where a planned
/// reminder is owed, however long ago its time came: the first such one goes out. One without a
/// record is new, and that is its first try; one with a record is tried once more.
pub proof fn what_is_owed_goes_out(
    r: Option<(SendLog, bool)>,
    item: Item,
    logs: Seq<SendLog>,
    cfg: AppConfig,
    label: Seq<char>,
    now: Stamp,
    now_text: Seq<char>,
    k: int,
)
    requires
        tried(r, item, logs, cfg, label, chosen(item, logs, cfg, now, now_text)),
        item.status == ItemStatus::Active,
        item.deadline is Some,
        !is_late(item, now),
        0 <= k < remind_plan(item, cfg, now_text).len(),
        ({
            let plan = remind_plan(item, cfg, now_text);
            owed(logs, item.id, plan[k], plan, now) && forall|j: int|
                0 <= j < k ==> !owed(logs, item.id, #[trigger] plan[j], plan, now)
        }),
    ensures
        r is Some,
        ({
            let at = remind_plan(item, cfg, now_text)[k];
            let (log, new) = r->0;
            &&& log.scheduled_at@ == at
            &&& log.item_id == item.id
            &&& new == !has_record(logs, item.id, at)
            &&& new ==> log.attempt == 1 && log.id == 0 && log.status == SendStatus::Pending
                && log.kind@ == "reminder"@ && log.to_addr == cfg.reminder.to && log.error is None
                && log.sent_at is None
            &&& forall|i: int| #[trigger]
                is_first_record(logs, item.id, at, i) ==> log == (SendLog {
                    attempt: (logs[i].attempt + 1) as i64,
                    ..logs[i]
                })
        }),
{
    let plan = remind_plan(item, cfg, now_text);
    first_owed_is_found(logs, item.id, plan, 0, k, now);
    turns_are_for_what_is_owed(logs, item.id, plan[k], plan, now);
    records_are_found(logs, item.id, plan[k]);
    if has_record(logs, item.id, plan[k]) {
        let i = record_of(logs, item.id, plan[k])->0;
        assert(is_first_record(logs, item.id, plan[k], i));
    } else {
        assert forall|i: int| !(#[trigger] is_first_record(logs, item.id, plan[k], i)) by {
            if is_first_record(logs, item.id, plan[k], i) {
                assert(is_of(logs[i], item.id, plan[k]));
            }
        }
    }
}

/// Nothing goes out that is not owed: not of an item that is not active, has no deadline or has
/// one that is past, and not where no planned reminder is owed.
pub proof fn nothing_else_goes_out(
    r: Option<(SendLog, bool)>,
    item: Item,
    logs: Seq<SendLog>,
    cfg: AppConfig,
    label: Seq<char>,
    now: Stamp,
    now_text: Seq<char>,
)
    requires
        tried(r, item, logs, cfg, label, chosen(item, logs, cfg, now, now_text)),
        ({
            let plan = remind_plan(item, cfg, now_text);
            item.status != ItemStatus::Active || item.deadline is None || is_late(item, now)
                || forall|j: int|
                0 <= j < plan.len() ==> !owed(logs, item.id, #[trigger] plan[j], plan, now)
        }),
    ensures
        r is None,
{
    let plan = remind_plan(item, cfg, now_text);
    if item.status == ItemStatus::Active && item.deadline is Some && !is_late(item, now) {
        none_owed_none_found(logs, item.id, plan, 0, now);
    }
}

/// A reminder that waits is sent for an active item whose deadline is not past, unless another
/// went out near it, and where its item is gone; the try is counted. For any other item it is
/// given up, with the reason.
pub proof fn what_waits_is_sent_or_given_up(
    r: DueStep,
    log: SendLog,
    item: Option<Item>,
    logs: Seq<SendLog>,
    cfg: AppConfig,
    now: Stamp,
    now_text: Seq<char>,
)
    requires
        due_step(r, log, item, logs, cfg, now, now_text),
    ensures
        ({
            let sent = r == DueStep::Send(
                SendLog { attempt: (log.attempt + 1) as i64, ..log },
            );
            match item {
                None => sent,
                Some(it) => if it.status != ItemStatus::Active || is_late(it, now) {
                    r matches DueStep::Cancel(l) && l.error is Some && l.error->0@.len() > 0 && l
                        == (SendLog { status: SendStatus::Failed, error: l.error, ..log })
                } else if log.kind@ == "reminder"@ && one_too_many(
                    logs,
                    it.id,
                    log.scheduled_at@,
                    remind_plan(it, cfg, now_text),
                ) {
                    r is Leave
                } else {
                    sent
                },
            }
        }),
{
    reveal_strlit("截止时间已过，取消补发");
    reveal_strlit("，取消发送");
    match item {
        Some(it) => {
            covered_is_one_too_many(
                logs,
                it.id,
                log.scheduled_at@,
                remind_plan(it, cfg, now_text),
            );
        },
        None => {},
    }
}

/// A record waits to be sent where it was not tried, and where it failed from the time on at which
/// it is tried again; what went out does not wait.
pub proof fn what_waits(log: SendLog, now: Stamp)
    ensures
        log.status == SendStatus::Pending ==> log_due(log, now),
        log.status == SendStatus::Sent ==> !log_due(log, now),
        log.status == SendStatus::Failed ==> log_due(log, now) == (log.next_retry_at is Some
            && has_come(log.next_retry_at->0@, now)),
{
}

/// An active item whose deadline is past expires, and no other: the rest stay as they are.
pub proof fn what_expires(item: Item, now: Stamp, at: String)
    ensures
        swept(item, now, at) == if item.status == ItemStatus::Active && is_late(item, now) {
            Item { status: ItemStatus::Expired, updated_at: at, ..item }
        } else {
            item
        },
{
}

/// Each item that expires is counted, once.
pub proof fn what_expires_is_counted(items: Seq<Item>, item: Item, now: Stamp)
    ensures
        overdue_count(Seq::empty(), now) == 0,
        overdue_count(items.push(item), now) == overdue_count(items, now) + if item.status
            == ItemStatus::Active && is_late(item, now) {
            1nat
        } else {
            0nat
        },
{
    reveal(Seq::filter);
    assert(items.push(item).drop_last() =~= items);
}

/// Each try of a reminder is counted by what came of it, and each new reminder as one made up for.
pub proof fn tries_are_counted(
    tries: Seq<(bool, SendStatus)>,
    try_: (bool, SendStatus),
    status: SendStatus,
)
    ensures
        count_of(Seq::empty(), status) == 0,
        count_new(Seq::empty()) == 0,
        count_of(tries.push(try_), status) == count_of(tries, status) + if try_.1 == status {
            1nat
        } else {
            0nat
        },
        count_new(tries.push(try_)) == count_new(tries) + if try_.0 {
            1nat
        } else {
            0nat
        },
{
    reveal(Seq::filter);
    assert(tries.push(try_).drop_last() =~= tries);
}

} // verus!
