//! Reminders: their subject, their text, when they go out and what becomes of them.

use crate::config::AppConfig;
use crate::config::hhmm;
use crate::config::HhmmError;
use crate::config::label_in;
use crate::config::parse_hhmm;
use crate::json::Json;
use crate::json::JsonView;
use crate::json::members;
use crate::json::put_text;
use crate::json::view_of;
use crate::model::CategoryInfo;
use crate::model::Item;
use crate::model::ItemKind;
use crate::model::remind_policy;
use crate::model::SendLog;
use crate::model::SendStatus;
use crate::number::show_two_digits;
use crate::number::two_digits;
use crate::text::blank;
use crate::text::chars_of;
use crate::text::is_blank;
use crate::text::join;
use crate::text::joined;
use crate::text::joined_is_made_of;
use crate::text::one_piece;
use crate::text::one_word;
use crate::text::pieces;
use crate::text::pieces_of_two;
use crate::text::prefix;
use crate::text::same;
use crate::text::split_words;
use crate::text::str_of;
use crate::text::take_chars;
use crate::text::text_of;
use crate::text::texts;
use crate::text::words;
use crate::text::words_are_words;
use crate::text::words_of_joined;
use crate::time::civil_before;
use crate::time::DAY;
use crate::time::days_before;
use crate::time::leap;
use crate::time::moment_gap;
use crate::time::NANOS_PER_SEC;
use crate::time::now_str;
use crate::time::on_the_clock;
use crate::time::ordinary;
use crate::time::single_moment;
use crate::time::Stamp;
use crate::time::stamp_of;
use crate::time::time_text;
use crate::time::writable;
use crate::time::Zone;
use crate::time::zone_clock;
use crate::time::zone_moments;
use vstd::prelude::*;

verus! {

/// The character in a segment of a subject: a space in place of what would break the subject up.
pub open spec fn softened(c: char) -> char {
    if c == '/' || c == '\\' || c == '【' || c == '】' || c == '\n' {
        ' '
    } else {
        c
    }
}

/// A segment of a subject: no separators, single spaces between words, a placeholder for nothing.
pub open spec fn segment(s: Seq<char>) -> Seq<char> {
    let t = joined(words(s.map_values(|c: char| softened(c))), " "@);
    if t.len() == 0 {
        "未命名"@
    } else {
        t
    }
}

/// A segment of a subject.
pub fn sanitize_segment(s: &str) -> (r: String)
    ensures
        r@ == segment(s@),
{
    let v = chars_of(s);
    let mut soft = String::new();
    let ghost all = s@.map_values(|c: char| softened(c));
    let mut i: usize = 0;
    while i < v.len()
        invariant
            v@ == s@,
            all == s@.map_values(|c: char| softened(c)),
            i <= v@.len(),
            soft@ == all.take(i as int),
        decreases v@.len() - i,
    {
        let c = v[i];
        assert(all.take(i + 1) == all.take(i as int).push(softened(c)));
        if c == '/' || c == '\\' || c == '【' || c == '】' || c == '\n' {
            soft.push(' ');
        } else {
            soft.push(c);
        }
        i += 1;
    }
    assert(all.take(i as int) == all);
    let ws = split_words(soft.as_str());
    let t = join(&ws, " ");
    if t.as_str().is_empty() {
        "未命名".to_owned()
    } else {
        t
    }
}

/// The name of an event: a segment of ten characters at most.
pub open spec fn clamped(s: Seq<char>) -> Seq<char> {
    prefix(segment(s), 10)
}

/// The name of an event: a segment of ten characters at most.
pub fn clamp_event(s: &str) -> (r: String)
    ensures
        r@ == clamped(s@),
        r@.len() <= 10,
{
    let t = sanitize_segment(s);
    take_chars(t.as_str(), 10)
}

/// The subject of a reminder.
pub open spec fn subject(
    label: Seq<char>,
    party: Seq<char>,
    event: Seq<char>,
    mmdd: Seq<char>,
) -> Seq<char> {
    "【"@ + label + "/"@ + segment(party) + "/"@ + segment(event) + "/"@ + mmdd + "】"@
}

/// The subject of a reminder: category, party, event and month with day.
pub fn format_subject(category_label: &str, party: &str, event: &str, mmdd: &str) -> (r: String)
    ensures
        r@ == subject(category_label@, party@, event@, mmdd@),
{
    let p = sanitize_segment(party);
    let e = sanitize_segment(event);
    let mut out = "【".to_owned();
    out.append(category_label);
    out.append("/");
    out.append(p.as_str());
    out.append("/");
    out.append(e.as_str());
    out.append("/");
    out.append(mmdd);
    out.append("】");
    out
}

/// Month and day in the zone, two digits each.
pub open spec fn month_day(zone: Seq<char>, secs: i64) -> Seq<char> {
    match zone_clock(zone, secs) {
        Some(c) => two_digits(c.1 as nat) + two_digits(c.2 as nat),
        None => Seq::empty(),
    }
}

/// Month and day in the zone, two digits each.
pub fn mmdd(dt: &Stamp, tz: &Zone) -> (r: String)
    ensures
        r@ == month_day(tz@, dt.secs),
{
    match tz.clock(dt) {
        Some(c) => {
            let mut out = show_two_digits(c.1);
            let d = show_two_digits(c.2);
            out.append(d.as_str());
            out
        },
        None => String::new(),
    }
}

/// The label of a category: the stored one, else the configured one, else the id.
pub open spec fn shown_label(
    stored: Option<CategoryInfo>,
    cfg: AppConfig,
    id: Seq<char>,
) -> Seq<char> {
    match stored {
        Some(c) if !blank(c.label@) => c.label@,
        _ => label_in(cfg.llm.categories@, id),
    }
}

/// The label of a category: the stored one, else the configured one, else the id.
pub fn category_label(stored: &Option<CategoryInfo>, cfg: &AppConfig, id: &str) -> (r: String)
    ensures
        r@ == shown_label(*stored, *cfg, id@),
{
    if let Some(c) = stored {
        if !is_blank(c.label.as_str()) {
            return c.label.clone();
        }
    }
    cfg.category_label(id)
}

/// Month and day of a time; nothing where there is none that can be read.
pub open spec fn day_in_text(time: Option<Seq<char>>, zone: Seq<char>) -> Option<Seq<char>> {
    match time {
        Some(d) => match stamp_of(d) {
            Some(t) => Some(month_day(zone, t.secs)),
            None => None,
        },
        None => None,
    }
}

fn day_of_text(time: &Option<String>, zone: &Zone) -> (r: Option<String>)
    ensures
        text_of(r) == day_in_text(text_of(*time), zone@),
{
    match time {
        Some(d) => match Stamp::parse(d.as_str()) {
            Some(t) => Some(mmdd(&t, zone)),
            None => None,
        },
        None => None,
    }
}

/// Month and day of the deadline, or else of the reminder; nothing where neither can be read.
pub open spec fn deadline_month_day(
    deadline: Option<Seq<char>>,
    remind_at: Option<Seq<char>>,
    zone: Seq<char>,
) -> Option<Seq<char>> {
    match day_in_text(deadline, zone) {
        Some(d) => Some(d),
        None => day_in_text(remind_at, zone),
    }
}

/// The day that the subject of a reminder of an item ends with.
pub open spec fn item_day(item: Item, zone: Seq<char>) -> Option<Seq<char>> {
    deadline_month_day(text_of(item.deadline), text_of(item.remind_at), zone)
}

/// A text, or nothing at all.
pub open spec fn or_nothing(t: Option<Seq<char>>) -> Seq<char> {
    match t {
        Some(d) => d,
        None => Seq::empty(),
    }
}

/// Month and day of the deadline of an item, or else of its reminder, where one of them can be
/// read.
pub fn day_of_item(item: &Item, cfg: &AppConfig) -> (r: Option<String>)
    ensures
        text_of(r) == item_day(*item, cfg.timezone@),
{
    match day_of_text(&item.deadline, &cfg.timezone) {
        Some(d) => Some(d),
        None => day_of_text(&item.remind_at, &cfg.timezone),
    }
}

/// Month and day of the deadline of an item, or else of its reminder; empty where neither can be
/// read.
pub fn deadline_mmdd(item: &Item, cfg: &AppConfig) -> (r: String)
    ensures
        r@ == or_nothing(item_day(*item, cfg.timezone@)),
{
    match day_of_item(item, cfg) {
        Some(d) => d,
        None => String::new(),
    }
}

/// What a kind of item is called in a reminder.
pub open spec fn kind_word(kind: ItemKind) -> Seq<char> {
    match kind {
        ItemKind::Todo => "待办"@,
        ItemKind::Notification => "通知"@,
    }
}

/// The text of a reminder.
pub open spec fn body_of(item: Item, deadline: Seq<char>) -> Seq<char> {
    "【mail2 提醒】"@ + kind_word(item.kind) + "事项即将到期。\n\n事项："@ + (if item.event@.len() == 0 {
        item.title@
    } else {
        item.event@
    }) + "\n单位/联系人："@ + item.party@ + "\n截止时间："@ + deadline + "\n\n说明："@ + (if item.notes@.len()
        == 0 {
        "（无）"@
    } else {
        item.notes@
    }) + "\n\n——\n若该事项已完成，请直接回复本邮件并包含【已完成】；\n若不再需要提醒，请回复【不再提醒】。回复后系统将自动停止提醒。"@
}

/// The text of a reminder, with how to answer it.
pub fn reminder_body(item: &Item, deadline_local: String) -> (r: String)
    ensures
        r@ == body_of(*item, deadline_local@),
{
    let mut out = "【mail2 提醒】".to_owned();
    match item.kind {
        ItemKind::Todo => out.append("待办"),
        ItemKind::Notification => out.append("通知"),
    }
    out.append("事项即将到期。\n\n事项：");
    if item.event.as_str().is_empty() {
        out.append(item.title.as_str());
    } else {
        out.append(item.event.as_str());
    }
    out.append("\n单位/联系人：");
    out.append(item.party.as_str());
    out.append("\n截止时间：");
    out.append(deadline_local.as_str());
    out.append("\n\n说明：");
    if item.notes.as_str().is_empty() {
        out.append("（无）");
    } else {
        out.append(item.notes.as_str());
    }
    out.append(
        "\n\n——\n若该事项已完成，请直接回复本邮件并包含【已完成】；\n若不再需要提醒，请回复【不再提醒】。回复后系统将自动停止提醒。",
    );
    out
}

/// Why there is no time for a reminder.
#[derive(Clone, Copy, Debug, PartialEq, Eq, Structural)]
pub enum RemindError {
    /// The deadline is no RFC 3339 time.
    Deadline,
    /// The time of day is none.
    LeadTime(HhmmError),
    /// The calendar does not reach that far.
    Calendar,
    /// Clocks in the zone do not show that time exactly once.
    Local,
}

/// The moment so many days before a deadline, at a time of day.
pub open spec fn days_ahead(
    deadline: Seq<char>,
    days: i64,
    lead_time: Seq<char>,
    zone: Seq<char>,
) -> Result<Stamp, RemindError> {
    match stamp_of(deadline) {
        None => Err(RemindError::Deadline),
        Some(d) => match hhmm(lead_time) {
            Err(e) => Err(RemindError::LeadTime(e)),
            Ok((h, m)) => match zone_clock(zone, d.secs) {
                None => Err(RemindError::Calendar),
                Some(c) => match civil_before(c.0, c.1, c.2, days) {
                    None => Err(RemindError::Calendar),
                    Some((y, mo, dd)) => match single_moment(zone_moments(zone, y, mo, dd, h, m, 0)) {
                        None => Err(RemindError::Local),
                        Some(t) => Ok(t.utc()),
                    },
                },
            },
        },
    }
}

/// The text of a moment for a reminder.
pub open spec fn remind_text(m: Result<Stamp, RemindError>) -> Result<Seq<char>, RemindError> {
    match m {
        Err(e) => Err(e),
        Ok(t) => match t.rfc3339() {
            Some(s) => Ok(s),
            None => Err(RemindError::Calendar),
        },
    }
}

/// The text in a result.
pub open spec fn text_or<E>(r: Result<String, E>) -> Result<Seq<char>, E> {
    match r {
        Ok(s) => Ok(s@),
        Err(e) => Err(e),
    }
}

/// When a reminder is due: so many days before the deadline, at the time of day, in UTC.
pub fn compute_remind_at(deadline: &str, days: i64, lead_time: &str, tz: &Zone) -> (r: Result<
    String,
    RemindError,
>)
    ensures
        text_or(r) == remind_text(days_ahead(deadline@, days, lead_time@, tz@)),
{
    let d = match Stamp::parse(deadline) {
        Some(d) => d,
        None => return Err(RemindError::Deadline),
    };
    let (h, m) = match parse_hhmm(lead_time) {
        Ok(t) => t,
        Err(e) => return Err(RemindError::LeadTime(e)),
    };
    let c = match tz.clock(&d) {
        Some(c) => c,
        None => return Err(RemindError::Calendar),
    };
    let (y, mo, dd) = match days_before(c.0, c.1, c.2, days) {
        Some(t) => t,
        None => return Err(RemindError::Calendar),
    };
    match tz.only_moment(y, mo, dd, h, m, 0) {
        Some(t) => match t.to_utc().to_rfc3339() {
            Some(s) => Ok(s),
            None => Err(RemindError::Calendar),
        },
        None => Err(RemindError::Local),
    }
}

/// The moment so many hours before a deadline.
pub open spec fn hours_ahead(deadline: Seq<char>, hours: int) -> Result<Stamp, RemindError> {
    match stamp_of(deadline) {
        None => Err(RemindError::Deadline),
        Some(d) => match d.utc().later((-hours * 3600) as i64) {
            Some(t) => Ok(t),
            None => Err(RemindError::Calendar),
        },
    }
}

/// When a reminder so many hours before the deadline is due, in UTC.
pub fn compute_hours_before(deadline: &str, hours: i64, _tz: &Zone) -> (r: Result<
    String,
    RemindError,
>)
    requires
        -2562047788015 <= hours <= 2562047788015,
    ensures
        text_or(r) == remind_text(hours_ahead(deadline@, hours as int)),
{
    let d = match Stamp::parse(deadline) {
        Some(d) => d,
        None => return Err(RemindError::Deadline),
    };
    match d.to_utc().plus_seconds(-hours * 3600) {
        Some(t) => match t.to_rfc3339() {
            Some(s) => Ok(s),
            None => Err(RemindError::Calendar),
        },
        None => Err(RemindError::Calendar),
    }
}

/// Whether the policy reminds at once.
pub open spec fn at_once(policy: Seq<char>) -> bool {
    policy == remind_policy::URGENT@ || policy == remind_policy::LINK_EXPIRY@
}

/// The moment that counts as the one an item was made at.
pub open spec fn made_at(item: Item, now: Seq<char>) -> Seq<char> {
    if stamp_of(item.created_at@) is Some {
        item.created_at@
    } else {
        now
    }
}

/// Two times in order, as one where they are the same moment.
pub open spec fn ordered(a: Seq<char>, b: Seq<char>) -> Seq<Seq<char>> {
    match (stamp_of(a), stamp_of(b)) {
        (Some(x), Some(y)) => if y.before(x) {
            seq![b, a]
        } else if x.before(y) {
            seq![a, b]
        } else {
            seq![a]
        },
        (Some(_), None) => seq![a],
        (None, Some(_)) => seq![b],
        (None, None) => Seq::empty(),
    }
}

/// A time where it can be read.
pub open spec fn legible(a: Seq<char>) -> Seq<Seq<char>> {
    if stamp_of(a) is Some {
        seq![a]
    } else {
        Seq::empty()
    }
}

/// When an item is reminded of. With no deadline, never. By a policy that reminds at once: when
/// it was made, and two hours before the deadline. Else: some days before it, at the set time.
pub open spec fn remind_plan(item: Item, cfg: AppConfig, now: Seq<char>) -> Seq<Seq<char>> {
    match text_of(item.deadline) {
        Some(d) if d.len() > 0 => if at_once(item.remind_policy@) {
            match remind_text(hours_ahead(d, 2)) {
                Ok(second) => ordered(made_at(item, now), second),
                Err(_) => legible(made_at(item, now)),
            }
        } else {
            match remind_text(
                days_ahead(
                    d,
                    cfg.reminder.days_before,
                    cfg.reminder.lead_time@,
                    cfg.timezone@,
                ),
            ) {
                Ok(first) => legible(first),
                Err(_) => Seq::empty(),
            }
        },
        _ => Seq::empty(),
    }
}

fn in_order(a: String, b: String) -> (r: Vec<String>)
    ensures
        texts(r@) == ordered(a@, b@),
{
    match (Stamp::parse(a.as_str()), Stamp::parse(b.as_str())) {
        (Some(x), Some(y)) => {
            if y.is_before(&x) {
                let r = vec![b, a];
                assert(texts(r@) =~= seq![b@, a@]);
                r
            } else if x.is_before(&y) {
                let r = vec![a, b];
                assert(texts(r@) =~= seq![a@, b@]);
                r
            } else {
                let r = vec![a];
                assert(texts(r@) =~= seq![a@]);
                r
            }
        },
        (Some(_), None) => {
            let r = vec![a];
            assert(texts(r@) =~= seq![a@]);
            r
        },
        (None, Some(_)) => {
            let r = vec![b];
            assert(texts(r@) =~= seq![b@]);
            r
        },
        (None, None) => {
            let r: Vec<String> = Vec::new();
            assert(texts(r@) =~= Seq::<Seq<char>>::empty());
            r
        },
    }
}

fn if_legible(a: String) -> (r: Vec<String>)
    ensures
        texts(r@) == legible(a@),
{
    if Stamp::parse(a.as_str()).is_some() {
        let r = vec![a];
        assert(texts(r@) =~= seq![a@]);
        r
    } else {
        let r: Vec<String> = Vec::new();
        assert(texts(r@) =~= Seq::<Seq<char>>::empty());
        r
    }
}

/// When an item is reminded of, in order; `now` stands in where it is not known when the item was
/// made.
pub fn reminder_times_at(item: &Item, cfg: &AppConfig, now: &str) -> (r: Vec<String>)
    ensures
        texts(r@) == remind_plan(*item, *cfg, now@),
{
    let none: Vec<String> = Vec::new();
    assert(texts(none@) =~= Seq::<Seq<char>>::empty());
    let deadline = match &item.deadline {
        Some(d) => d,
        None => return none,
    };
    if deadline.as_str().is_empty() {
        return none;
    }
    if same(item.remind_policy.as_str(), remind_policy::URGENT) || same(
        item.remind_policy.as_str(),
        remind_policy::LINK_EXPIRY,
    ) {
        let first = if Stamp::parse(item.created_at.as_str()).is_some() {
            item.created_at.clone()
        } else {
            now.to_owned()
        };
        match compute_hours_before(deadline.as_str(), 2, &cfg.timezone) {
            Ok(second) => in_order(first, second),
            Err(_) => if_legible(first),
        }
    } else {
        match compute_remind_at(
            deadline.as_str(),
            cfg.reminder.days_before,
            cfg.reminder.lead_time.as_str(),
            &cfg.timezone,
        ) {
            Ok(first) => if_legible(first),
            Err(_) => none,
        }
    }
}

/// When an item is reminded of, in order.
pub fn reminder_times(item: &Item, cfg: &AppConfig) -> (r: Vec<String>)
    ensures
        exists|at: Stamp|
            on_the_clock(at.secs, at.nanos, at.offset) && texts(r@) == remind_plan(
                *item,
                *cfg,
                #[trigger] time_text(at),
            ),
        stamp_of(item.created_at@) is Some ==> forall|now: Seq<char>|
            texts(r@) == #[trigger] remind_plan(*item, *cfg, now),
{
    let now = now_str();
    reminder_times_at(item, cfg, now.as_str())
}

/// Whether a time between two moments is more than nothing and at most a day.
pub open spec fn within_a_day(gap: (i64, i32)) -> bool {
    &&& gap.0 > 0 || (gap.0 == 0 && gap.1 > 0)
    &&& gap.0 < DAY || (gap.0 == DAY && gap.1 <= 0)
}

/// Whether a deadline is ahead, and by a day at most.
pub open spec fn due_within_a_day(deadline: Stamp, now: Stamp) -> bool {
    0 < (deadline.secs - now.secs) * 1_000_000_000 + deadline.nanos - now.nanos <= DAY
        * 1_000_000_000
}

/// The policy by which an item is reminded of.
pub open spec fn policy(deadline: Option<Seq<char>>, link_expiry: bool, now: Seq<char>) -> Seq<
    char,
> {
    match deadline {
        Some(d) if d.len() > 0 => if link_expiry {
            remind_policy::LINK_EXPIRY@
        } else {
            match (stamp_of(d), stamp_of(now)) {
                (Some(t), Some(n)) => match moment_gap(t.secs, t.nanos, n.secs, n.nanos) {
                    Some(g) if within_a_day(g) => remind_policy::URGENT@,
                    _ => remind_policy::NORMAL@,
                },
                _ => remind_policy::NORMAL@,
            }
        },
        _ => remind_policy::NORMAL@,
    }
}

/// The policy by which an item is reminded of: a link that lapses comes first, then a deadline
/// within a day that has not passed, then the usual one.
pub fn decide_remind_policy(deadline: Option<&str>, link_expiry: bool, now: &str) -> (r: String)
    ensures
        r@ == policy(str_of(deadline), link_expiry, now@),
        match (deadline, stamp_of(now@)) {
            (Some(d), Some(n)) => match stamp_of(d@) {
                Some(t) if d@.len() > 0 && !link_expiry && ordinary(t.secs, t.nanos) && ordinary(
                    n.secs,
                    n.nanos,
                ) => r@ == if due_within_a_day(t, n) {
                    remind_policy::URGENT@
                } else {
                    remind_policy::NORMAL@
                },
                _ => true,
            },
            _ => true,
        },
{
    let d = match deadline {
        Some(d) => d,
        None => return remind_policy::NORMAL.to_owned(),
    };
    if d.is_empty() {
        return remind_policy::NORMAL.to_owned();
    }
    if link_expiry {
        return remind_policy::LINK_EXPIRY.to_owned();
    }
    match (Stamp::parse(d), Stamp::parse(now)) {
        (Some(t), Some(n)) => match t.since(&n) {
            Some(g) => {
                if (g.0 > 0 || (g.0 == 0 && g.1 > 0)) && (g.0 < DAY || (g.0 == DAY && g.1 <= 0)) {
                    remind_policy::URGENT.to_owned()
                } else {
                    remind_policy::NORMAL.to_owned()
                }
            },
            None => remind_policy::NORMAL.to_owned(),
        },
        _ => remind_policy::NORMAL.to_owned(),
    }
}

/// Whether a record is that of a reminder of the item, due at that time, before it goes out.
pub open spec fn fresh_reminder(
    r: SendLog,
    item: Item,
    cfg: AppConfig,
    label: Seq<char>,
    scheduled_at: Seq<char>,
) -> bool {
    &&& r.id == 0
    &&& r.item_id == item.id
    &&& r.attempt == 0
    &&& r.kind@ == "reminder"@
    &&& r.to_addr == cfg.reminder.to
    &&& r.subject@ == subject(
        label,
        item.party@,
        clamped(item.event@),
        or_nothing(item_day(item, cfg.timezone@)),
    )
    &&& r.body@ == body_of(
        item,
        match text_of(item.deadline) {
            Some(d) => d,
            None => Seq::empty(),
        },
    )
    &&& r.status == SendStatus::Pending
    &&& r.error is None
    &&& r.scheduled_at@ == scheduled_at
    &&& r.sent_at is None
    &&& r.next_retry_at is None
    &&& r.message_id is None
}

/// The record of a reminder before it goes out.
pub fn new_reminder(item: &Item, cfg: &AppConfig, label: &str, scheduled_at: &str) -> (r: SendLog)
    ensures
        fresh_reminder(r, *item, *cfg, label@, scheduled_at@),
{
    let event = clamp_event(item.event.as_str());
    let day = deadline_mmdd(item, cfg);
    let deadline = match &item.deadline {
        Some(d) => d.clone(),
        None => String::new(),
    };
    SendLog {
        id: 0,
        item_id: item.id,
        attempt: 0,
        kind: "reminder".to_owned(),
        to_addr: cfg.reminder.to.clone(),
        subject: format_subject(label, item.party.as_str(), event.as_str(), day.as_str()),
        body: reminder_body(item, deadline),
        status: SendStatus::Pending,
        error: None,
        scheduled_at: scheduled_at.to_owned(),
        sent_at: None,
        next_retry_at: None,
        message_id: None,
    }
}

/// The identifier of a message that goes out.
pub open spec fn message_id_text(unique: Seq<char>) -> Seq<char> {
    "<mail2-"@ + unique + "@mail2.local>"@
}

/// Whether a character is a hexadecimal digit, in lower case.
pub open spec fn lower_hex(c: char) -> bool {
    '0' <= c <= '9' || 'a' <= c <= 'f'
}

/// Whether a text has the form of a UUID: 32 hexadecimal digits in lower case, with hyphens after
/// the first 8, 12, 16 and 20 of them.
pub open spec fn uuid_form(text: Seq<char>) -> bool {
    &&& text.len() == 36
    &&& forall|i: int|
        0 <= i < 36 ==> if i == 8 || i == 13 || i == 18 || i == 23 {
            #[trigger] text[i] == '-'
        } else {
            lower_hex(text[i])
        }
}

/// `uuid::Uuid::new_v4`, as text: 32 hexadecimal digits in lower case, which chance picks, with
/// hyphens between.
#[verifier::external_body]
fn random_text() -> (r: String)
    ensures
        uuid_form(r@),
{
    uuid::Uuid::new_v4().to_string()
}

/// An identifier for a message that goes out, of its own by all odds: that two of them differ is
/// up to chance, and not stated.
pub fn new_message_id() -> (r: String)
    ensures
        exists|unique: Seq<char>| uuid_form(unique) && r@ == #[trigger] message_id_text(unique),
{
    let unique = random_text();
    message_id_of(unique.as_str())
}

/// What is pushed of a reminder that went out.
pub fn webhook_json(title: &str, content: &str) -> (r: Json)
    ensures
        view_of(r) == JsonView::Obj(
            members().push(("title"@, JsonView::Str(title@))).push(
                ("content"@, JsonView::Str(content@)),
            ),
        ),
{
    let mut m: Vec<(String, Json)> = Vec::new();
    put_text(&mut m, "title", title);
    put_text(&mut m, "content", content);
    Json::Obj(m)
}

/// The identifier of a message that goes out.
pub fn message_id_of(unique: &str) -> (r: String)
    ensures
        r@ == message_id_text(unique@),
{
    let mut out = "<mail2-".to_owned();
    out.append(unique);
    out.append("@mail2.local>");
    out
}

/// How long a reminder that failed waits, in seconds.
pub const RETRY_DELAY: i64 = 1800;

/// The text of the moment at which a reminder that failed now is tried again.
pub open spec fn retry_text(now: Stamp) -> Option<Seq<char>> {
    match now.later(RETRY_DELAY) {
        Some(t) => t.rfc3339(),
        None => None,
    }
}

/// Whether a record says what came of sending a reminder, and is otherwise what it was.
pub open spec fn settled(
    before: SendLog,
    after: SendLog,
    error: Option<String>,
    message_id: String,
    now: Stamp,
) -> bool {
    &&& after.id == before.id
    &&& after.item_id == before.item_id
    &&& after.attempt == before.attempt
    &&& after.kind == before.kind
    &&& after.to_addr == before.to_addr
    &&& after.subject == before.subject
    &&& after.body == before.body
    &&& after.scheduled_at == before.scheduled_at
    &&& error is None ==> {
        &&& after.status == SendStatus::Sent
        &&& text_of(after.sent_at) == now.rfc3339()
        &&& after.error is None
        &&& after.next_retry_at is None
        &&& after.message_id == Some(message_id)
    }
    &&& error is Some ==> {
        &&& after.status == SendStatus::Failed
        &&& after.error == error
        &&& text_of(after.next_retry_at) == retry_text(now)
        &&& after.sent_at == before.sent_at
        &&& after.message_id == before.message_id
        &&& can_wait(now) ==> after.next_retry_at is Some && stamp_of(after.next_retry_at->0@)
            == Some(half_an_hour_on(now))
    }
}

/// The moment half an hour later. What comes after a leap second counts from the second that it
/// follows.
pub open spec fn half_an_hour_on(now: Stamp) -> Stamp {
    Stamp {
        secs: (now.secs + RETRY_DELAY) as i64,
        nanos: if now.nanos < NANOS_PER_SEC {
            now.nanos
        } else {
            (now.nanos - NANOS_PER_SEC) as u32
        },
        offset: now.offset,
    }
}

/// Whether the moment half an hour later can be written down so that it reads back: that is not so
/// of years beyond 9999, nor on a clock that is not whole minutes away from UTC.
pub open spec fn can_wait(now: Stamp) -> bool {
    &&& ordinary(now.secs, now.nanos) || leap(now.secs, now.nanos)
    &&& writable(
        half_an_hour_on(now).secs as int,
        half_an_hour_on(now).nanos as int,
        now.offset as int,
    )
}

/// Enters what came of sending a reminder: the moment and the identifier of the message where it
/// went out, else the error and the moment, half an hour on, at which it is tried again.
pub fn settle(log: &mut SendLog, error: Option<String>, message_id: String, now: &Stamp)
    ensures
        settled(*old(log), *final(log), error, message_id, *now),
{
    match error {
        None => {
            log.status = SendStatus::Sent;
            log.sent_at = now.to_rfc3339();
            log.error = None;
            log.next_retry_at = None;
            log.message_id = Some(message_id);
        },
        Some(e) => {
            log.status = SendStatus::Failed;
            log.error = Some(e);
            log.next_retry_at = match now.plus_seconds(RETRY_DELAY) {
                Some(t) => t.to_rfc3339(),
                None => None,
            };
        },
    }
}

/// Whether the character would break a subject up.
pub open spec fn separator(c: char) -> bool {
    c == '/' || c == '\\' || c == '【' || c == '】' || c == '\n'
}

/// A segment is never empty and holds nothing that would break the subject up.
pub proof fn segment_is_clean(s: Seq<char>)
    ensures
        segment(s).len() > 0,
        forall|i: int| 0 <= i < segment(s).len() ==> !separator(#[trigger] segment(s)[i]),
{
    let soft = s.map_values(|c: char| softened(c));
    let ws = words(soft);
    let t = joined(ws, " "@);
    reveal_strlit(" ");
    reveal_strlit("未命名");
    assert forall|i: int| 0 <= i < t.len() implies !separator(#[trigger] t[i]) by {
        joined_is_made_of(ws, " "@, i);
        if !" "@.contains(t[i]) {
            words_are_words(soft);
            let (j, k) = choose|j: int, k: int|
                0 <= j < ws.len() && 0 <= k < ws[j].len() && #[trigger] ws[j][k] == t[i];
            assert(soft.contains(ws[j][k]));
            let m = choose|m: int| 0 <= m < soft.len() && soft[m] == t[i];
            assert(soft[m] == softened(s[m]));
        }
    }
}

/// Cleaning a segment twice is cleaning it once.
pub proof fn segment_idempotent(s: Seq<char>)
    ensures
        segment(segment(s)) == segment(s),
{
    let soft = s.map_values(|c: char| softened(c));
    let ws = words(soft);
    reveal_strlit(" ");
    assert(" "@ == seq![' ']);
    segment_is_clean(s);
    let t = segment(s);
    let again = t.map_values(|c: char| softened(c));
    assert(again == t) by {
        assert forall|i: int| 0 <= i < t.len() implies again[i] == t[i] by {
            assert(!separator(t[i]));
        }
    }
    if joined(ws, " "@).len() == 0 {
        reveal_strlit("未命名");
        let u = seq![t];
        assert(one_word(t));
        assert forall|j: int| 0 <= j < u.len() implies one_word(#[trigger] u[j]) by {}
        words_of_joined(u);
        assert(joined(u, seq![' ']) == t);
    } else {
        words_are_words(soft);
        words_of_joined(ws);
    }
}

/// Between its brackets a subject falls into exactly the four parts: category, party, event, and
/// month with day.
pub proof fn subject_has_four_parts(
    label: Seq<char>,
    party: Seq<char>,
    event: Seq<char>,
    mmdd: Seq<char>,
)
    requires
        !label.contains('/'),
        !mmdd.contains('/'),
    ensures
        subject(label, party, event, mmdd)[0] == '【',
        subject(label, party, event, mmdd).last() == '】',
        pieces(
            subject(label, party, event, mmdd).subrange(
                1,
                subject(label, party, event, mmdd).len() - 1,
            ),
            '/',
        ) == seq![label, segment(party), segment(event), mmdd],
{
    reveal_strlit("【");
    reveal_strlit("】");
    reveal_strlit("/");
    let whole = subject(label, party, event, mmdd);
    let p = segment(party);
    let e = segment(event);
    segment_is_clean(party);
    segment_is_clean(event);
    assert(!p.contains('/')) by {
        if p.contains('/') {
            let i = choose|i: int| 0 <= i < p.len() && p[i] == '/';
            assert(separator(p[i]));
        }
    }
    assert(!e.contains('/')) by {
        if e.contains('/') {
            let i = choose|i: int| 0 <= i < e.len() && e[i] == '/';
            assert(separator(e[i]));
        }
    }
    let inner = label + seq!['/'] + p + seq!['/'] + e + seq!['/'] + mmdd;
    assert(whole.subrange(1, whole.len() - 1) == inner);
    one_piece(label, '/');
    one_piece(p, '/');
    one_piece(e, '/');
    one_piece(mmdd, '/');
    pieces_of_two(label, '/', p);
    pieces_of_two(label + seq!['/'] + p, '/', e);
    pieces_of_two(label + seq!['/'] + p + seq!['/'] + e, '/', mmdd);
    assert(pieces(inner, '/') == seq![label] + seq![p] + seq![e] + seq![mmdd]);
    assert(seq![label] + seq![p] + seq![e] + seq![mmdd] == seq![label, p, e, mmdd]);
}

/// Reminders of an item are at most two, each at a moment that can be read, one after the other.
pub proof fn remind_plan_ascends(item: Item, cfg: AppConfig, now: Seq<char>)
    ensures
        remind_plan(item, cfg, now).len() <= 2,
        forall|i: int|
            0 <= i < remind_plan(item, cfg, now).len() ==> stamp_of(
                #[trigger] remind_plan(item, cfg, now)[i],
            ) is Some,
        remind_plan(item, cfg, now).len() == 2 ==> stamp_of(
            remind_plan(item, cfg, now)[0],
        )->0.before(stamp_of(remind_plan(item, cfg, now)[1])->0),
{
}

/// An item without a deadline is never reminded of.
pub proof fn no_deadline_no_reminder(item: Item, cfg: AppConfig, now: Seq<char>)
    requires
        item.deadline is None || item.deadline->0@.len() == 0,
    ensures
        remind_plan(item, cfg, now).len() == 0,
{
}

/// By a policy that reminds at once, the moment at which the item was made is among those at
/// which it is reminded of.
pub proof fn urgent_reminds_at_once(item: Item, cfg: AppConfig, now: Seq<char>)
    requires
        item.deadline is Some,
        item.deadline->0@.len() > 0,
        at_once(item.remind_policy@),
        stamp_of(item.created_at@) is Some,
        remind_text(hours_ahead(item.deadline->0@, 2)) matches Ok(t) ==> stamp_of(t) is Some
            && !stamp_of(t)->0.simultaneous(stamp_of(item.created_at@)->0),
    ensures
        remind_plan(item, cfg, now).contains(item.created_at@),
{
    let a = item.created_at@;
    match remind_text(hours_ahead(item.deadline->0@, 2)) {
        Ok(b) => {
            if stamp_of(b)->0.before(stamp_of(a)->0) {
                assert(remind_plan(item, cfg, now)[1] == a);
            } else {
                assert(remind_plan(item, cfg, now)[0] == a);
            }
        },
        Err(_) => {
            assert(remind_plan(item, cfg, now)[0] == a);
        },
    }
}

} // verus!
