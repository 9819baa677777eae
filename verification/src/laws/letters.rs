//! The mail that reminds: what its subject and its text say of the item.

use crate::api::manual_reminder;
use crate::config::AppConfig;
use crate::config::category_at;
use crate::config::CategoryDef;
use crate::config::label_in;
use crate::laws::holds;
use crate::laws::only_space;
use crate::laws::what_is_blank;
use crate::model::CategoryInfo;
use crate::model::Item;
use crate::model::ItemKind;
use crate::model::SendLog;
use crate::model::SendStatus;
use crate::notifier::body_of;
use crate::notifier::clamped;
use crate::notifier::fresh_reminder;
use crate::notifier::item_day;
use crate::notifier::message_id_text;
use crate::notifier::month_day;
use crate::notifier::segment;
use crate::notifier::shown_label;
use crate::notifier::softened;
use crate::notifier::subject;
use crate::number::decimal;
use crate::number::two_digits;
use crate::text::joined;
use crate::text::one_word;
use crate::text::space;
use crate::text::words;
use crate::text::words_of_joined;
use crate::time::rfc3339_moment;
use crate::time::Stamp;
use crate::time::zone_clock;
use vstd::prelude::*;

verus! {

/// Whether a character would break up a subject.
pub open spec fn breaks(c: char) -> bool {
    c == '/' || c == '\\' || c == '【' || c == '】' || c == '\n'
}

/// Whether words are made of nothing that breaks up a subject.
pub open spec fn plain_words(ws: Seq<Seq<char>>) -> bool {
    &&& ws.len() > 0
    &&& forall|j: int| 0 <= j < ws.len() ==> one_word(#[trigger] ws[j])
    &&& forall|j: int, k: int|
        0 <= j < ws.len() && 0 <= k < ws[j].len() ==> !breaks(#[trigger] ws[j][k])
}

/// Words with one blank between them.
pub open spec fn sentence(ws: Seq<Seq<char>>) -> Seq<char> {
    joined(ws, seq![' '])
}

proof fn sentences_do_not_break(ws: Seq<Seq<char>>)
    requires
        plain_words(ws),
    ensures
        sentence(ws).len() > 0,
        forall|i: int| 0 <= i < sentence(ws).len() ==> !breaks(#[trigger] sentence(ws)[i]),
    decreases ws.len(),
{
    if ws.len() == 1 {
        assert(ws[0].len() > 0) by {
            assert(one_word(ws[0]));
        }
    } else {
        let front = ws.drop_last();
        assert(forall|j: int| 0 <= j < front.len() ==> #[trigger] front[j] == ws[j]);
        assert(plain_words(front)) by {
            assert forall|j: int, k: int| 0 <= j < front.len() && 0 <= k < front[j].len() implies !breaks(
                #[trigger] front[j][k],
            ) by {
                assert(front[j] == ws[j]);
                assert(!breaks(ws[j][k]));
            }
        }
        sentences_do_not_break(front);
        let s = sentence(ws);
        let a = sentence(front);
        let last = ws.len() - 1;
        assert(ws.last() == ws[last]);
        assert(s == a + seq![' '] + ws.last());
        assert forall|i: int| 0 <= i < s.len() implies !breaks(#[trigger] s[i]) by {
            if i < a.len() {
                assert(s[i] == a[i]);
            } else if i > a.len() {
                assert(s[i] == ws[last][i - a.len() - 1]);
            }
        }
    }
}

/// A part of a subject that is made of plain words stays as it is.
pub proof fn plain_parts_stay(ws: Seq<Seq<char>>)
    requires
        plain_words(ws),
    ensures
        segment(sentence(ws)) == sentence(ws),
{
    let s = sentence(ws);
    sentences_do_not_break(ws);
    let soft = s.map_values(|c: char| softened(c));
    assert(soft =~= s) by {
        assert forall|i: int| 0 <= i < s.len() implies soft[i] == s[i] by {
            assert(!breaks(s[i]));
        }
    }
    words_of_joined(ws);
    reveal_strlit(" ");
    assert(" "@ =~= seq![' ']);
}

/// What would break up a subject counts as a blank in its parts, and so do blanks at the start of
/// one; a part of nothing else is called nameless.
pub proof fn what_breaks_is_a_blank(s: Seq<char>, t: Seq<char>, a: Seq<char>)
    requires
        s.len() == t.len(),
        forall|i: int|
            0 <= i < s.len() ==> #[trigger] t[i] == if breaks(s[i]) {
                ' '
            } else {
                s[i]
            },
        only_space(a),
    ensures
        segment(s) == segment(t),
        segment(a + s) == segment(s),
        only_space(t) ==> segment(s) == "未命名"@,
{
    let soft_s = s.map_values(|c: char| softened(c));
    let soft_t = t.map_values(|c: char| softened(c));
    assert(soft_s =~= soft_t) by {
        assert forall|i: int| 0 <= i < s.len() implies soft_s[i] == soft_t[i] by {
            assert(t[i] == if breaks(s[i]) {
                ' '
            } else {
                s[i]
            });
        }
    }
    let soft_a = a.map_values(|c: char| softened(c));
    assert((a + s).map_values(|c: char| softened(c)) =~= soft_a + soft_s);
    assert forall|i: int| 0 <= i < soft_a.len() implies space(#[trigger] soft_a[i]) by {
        assert(space(a[i]));
    }
    blanks_are_no_words(soft_a, soft_s);
    if only_space(t) {
        assert forall|i: int| 0 <= i < soft_t.len() implies space(#[trigger] soft_t[i]) by {
            assert(space(t[i]));
        }
        blanks_are_no_words(soft_t, Seq::empty());
        assert(soft_t + Seq::<char>::empty() =~= soft_t);
        assert(words(soft_t).len() == 0);
    }
}

proof fn blanks_are_no_words(a: Seq<char>, s: Seq<char>)
    requires
        only_space(a),
    ensures
        words(a + s) == words(s),
    decreases a.len(),
{
    if a.len() > 0 {
        assert((a + s)[0] == a[0]);
        assert((a + s).drop_first() =~= a.drop_first() + s);
        blanks_are_no_words(a.drop_first(), s);
    } else {
        assert(a + s =~= s);
    }
}

/// The name of an event has ten characters at most: all of them where there are no more, else the
/// first ten.
pub proof fn names_of_events_are_short(ws: Seq<Seq<char>>)
    requires
        plain_words(ws),
    ensures
        sentence(ws).len() <= 10 ==> clamped(sentence(ws)) == sentence(ws),
        sentence(ws).len() > 10 ==> clamped(sentence(ws)) == sentence(ws).take(10),
{
    plain_parts_stay(ws);
}

/// A subject tells the category, who and what it is about and the day, in this order, between
/// brackets.
pub proof fn what_a_subject_says(
    label: Seq<char>,
    party: Seq<Seq<char>>,
    event: Seq<Seq<char>>,
    day: Seq<char>,
)
    requires
        plain_words(party),
        plain_words(event),
    ensures
        subject(label, sentence(party), sentence(event), day) == seq!['【'] + label + seq!['/']
            + sentence(party) + seq!['/'] + sentence(event) + seq!['/'] + day + seq!['】'],
{
    plain_parts_stay(party);
    plain_parts_stay(event);
    reveal_strlit("【");
    reveal_strlit("】");
    reveal_strlit("/");
    assert("【"@ =~= seq!['【']);
    assert("】"@ =~= seq!['】']);
    assert("/"@ =~= seq!['/']);
}

/// The digit of a number below ten.
pub open spec fn digit(n: int) -> char {
    (48 + n) as char
}

/// A day is told by month and day on the clock of the zone, in two digits each.
pub proof fn how_days_are_told(zone: Seq<char>, secs: i64)
    requires
        zone_clock(zone, secs) matches Some(c) && 1 <= c.1 <= 12 && 1 <= c.2 <= 31,
    ensures
        ({
            let c = zone_clock(zone, secs)->0;
            let m: int = c.1 as int;
            let d: int = c.2 as int;
            month_day(zone, secs) == seq![digit(m / 10), digit(m % 10), digit(d / 10), digit(d % 10)]
        }),
{
    let c = zone_clock(zone, secs)->0;
    two_digits_are(c.1 as nat);
    two_digits_are(c.2 as nat);
}

proof fn two_digits_are(n: nat)
    requires
        n < 100,
    ensures
        two_digits(n) == seq![digit((n / 10) as int), digit((n % 10) as int)],
{
    reveal_with_fuel(decimal, 2);
}

/// The day of a reminder is that of the deadline, or else that of the reminder itself; where
/// neither is a time there is none.
pub proof fn which_day_is_told(item: Item, zone: Seq<char>)
    ensures
        item.deadline is Some ==> (rfc3339_moment(item.deadline->0@) matches Some(m) ==> item_day(
            item,
            zone,
        ) == Some(month_day(zone, m.0))),
        (item.deadline is None || rfc3339_moment(item.deadline->0@) is None) && item.remind_at is Some
            ==> (rfc3339_moment(item.remind_at->0@) matches Some(m) ==> item_day(item, zone) == Some(
            month_day(zone, m.0),
        )),
        (item.deadline is None || rfc3339_moment(item.deadline->0@) is None) && (item.remind_at is None
            || rfc3339_moment(item.remind_at->0@) is None) ==> item_day(item, zone) is None,
{
}

/// The text of a reminder tells what kind of item it is, what it is about (by its title where there
/// is no more), who, until when and what was noted, and how to answer it.
pub proof fn what_a_reminder_says(item: Item, deadline: Seq<char>)
    ensures
        item.kind == ItemKind::Todo ==> holds(body_of(item, deadline), "待办"@ + "事项即将到期。\n\n事项："@),
        item.kind == ItemKind::Notification ==> holds(
            body_of(item, deadline),
            "通知"@ + "事项即将到期。\n\n事项："@,
        ),
        item.event@.len() > 0 ==> holds(
            body_of(item, deadline),
            "事项即将到期。\n\n事项："@ + item.event@ + "\n单位/联系人："@ + item.party@ + "\n截止时间："@ + deadline
                + "\n\n说明："@,
        ),
        item.event@.len() == 0 ==> holds(
            body_of(item, deadline),
            "事项即将到期。\n\n事项："@ + item.title@ + "\n单位/联系人："@ + item.party@ + "\n截止时间："@ + deadline
                + "\n\n说明："@,
        ),
        item.notes@.len() > 0 ==> holds(
            body_of(item, deadline),
            "\n\n说明："@ + item.notes@
                + "\n\n——\n若该事项已完成，请直接回复本邮件并包含【已完成】；\n若不再需要提醒，请回复【不再提醒】。回复后系统将自动停止提醒。"@,
        ),
        item.notes@.len() == 0 ==> holds(
            body_of(item, deadline),
            "\n\n说明："@ + "（无）"@
                + "\n\n——\n若该事项已完成，请直接回复本邮件并包含【已完成】；\n若不再需要提醒，请回复【不再提醒】。回复后系统将自动停止提醒。"@,
        ),
{
    let s = body_of(item, deadline);
    let head = "【mail2 提醒】"@;
    let kind = if item.kind == ItemKind::Todo {
        "待办"@
    } else {
        "通知"@
    };
    let what = if item.event@.len() == 0 {
        item.title@
    } else {
        item.event@
    };
    let notes = if item.notes@.len() == 0 {
        "（无）"@
    } else {
        item.notes@
    };
    let tail =
        "\n\n——\n若该事项已完成，请直接回复本邮件并包含【已完成】；\n若不再需要提醒，请回复【不再提醒】。回复后系统将自动停止提醒。"@;
    parts_are_held(
        head,
        kind,
        "事项即将到期。\n\n事项："@,
        what,
        "\n单位/联系人："@,
        item.party@,
        "\n截止时间："@,
        deadline,
        "\n\n说明："@,
        notes,
        tail,
    );
}

proof fn regrouped(x: Seq<char>, a: Seq<char>, b: Seq<char>)
    ensures
        (x + a) + b == x + (a + b),
{
    assert((x + a) + b =~= x + (a + b));
}

proof fn parts_are_held(
    a: Seq<char>,
    b: Seq<char>,
    c: Seq<char>,
    d: Seq<char>,
    e: Seq<char>,
    f: Seq<char>,
    g: Seq<char>,
    h: Seq<char>,
    i: Seq<char>,
    j: Seq<char>,
    k: Seq<char>,
)
    ensures
        holds(a + b + c + d + e + f + g + h + i + j + k, b + c),
        holds(a + b + c + d + e + f + g + h + i + j + k, c + d + e + f + g + h + i),
        holds(a + b + c + d + e + f + g + h + i + j + k, i + j + k),
{
    let s = a + b + c + d + e + f + g + h + i + j + k;
    let x = a + b;
    regrouped(x, c, d);
    regrouped(x, c + d, e);
    regrouped(x, c + d + e, f);
    regrouped(x, c + d + e + f, g);
    regrouped(x, c + d + e + f + g, h);
    regrouped(x, c + d + e + f + g + h, i);
    let m = c + d + e + f + g + h + i;
    assert(x + c + d + e + f + g + h + i == x + m);
    regrouped(x + m, j, k);
    assert(s == x + m + (j + k));
    assert(holds(s, m));
    regrouped(a, b, c);
    let y = a + (b + c);
    regrouped(y, d, e);
    regrouped(y, d + e, f);
    regrouped(y, d + e + f, g);
    regrouped(y, d + e + f + g, h);
    regrouped(y, d + e + f + g + h, i);
    regrouped(y, d + e + f + g + h + i, j);
    regrouped(y, d + e + f + g + h + i + j, k);
    assert(s == a + (b + c) + (d + e + f + g + h + i + j + k));
    assert(holds(s, b + c));
    let z = x + c + d + e + f + g + h;
    regrouped(z, i, j);
    regrouped(z, i + j, k);
    assert(z + (i + j + k) + Seq::<char>::empty() =~= z + (i + j + k));
    assert(s == z + (i + j + k) + Seq::<char>::empty());
    assert(holds(s, i + j + k));
}

/// The label of a category is the stored one; where there is none, that of the first category of
/// that id in the settings; and its id where there is none either.
pub proof fn which_label_is_shown(stored: Option<CategoryInfo>, cfg: AppConfig, id: Seq<char>)
    ensures
        stored is Some && !only_space(stored->0.label@) ==> shown_label(stored, cfg, id)
            == stored->0.label@,
        stored is None || only_space(stored->0.label@) ==> shown_label(stored, cfg, id) == label_in(
            cfg.llm.categories@,
            id,
        ),
        (forall|i: int|
            0 <= i < cfg.llm.categories@.len() ==> (#[trigger] cfg.llm.categories@[i]).id@ != id)
            ==> label_in(cfg.llm.categories@, id) == id,
        forall|k: int|
            0 <= k < cfg.llm.categories@.len() && (#[trigger] cfg.llm.categories@[k]).id@ == id && (
            forall|i: int| 0 <= i < k ==> (#[trigger] cfg.llm.categories@[i]).id@ != id)
                ==> label_in(cfg.llm.categories@, id) == cfg.llm.categories@[k].label@,
{
    if stored is Some {
        what_is_blank(stored->0.label@);
    }
    categories_are_found(cfg.llm.categories@, id);
}

/// A category is the first of its id.
pub proof fn categories_are_found(c: Seq<CategoryDef>, id: Seq<char>)
    ensures
        category_at(c, id) is None <==> forall|i: int|
            0 <= i < c.len() ==> (#[trigger] c[i]).id@ != id,
        category_at(c, id) matches Some(k) ==> 0 <= k < c.len() && c[k].id@ == id && forall|i: int|
            0 <= i < k ==> (#[trigger] c[i]).id@ != id,
    decreases c.len(),
{
    if c.len() > 0 {
        categories_are_found(c.drop_first(), id);
        let rest = c.drop_first();
        assert(forall|i: int| 0 <= i < rest.len() ==> #[trigger] rest[i] == c[i + 1]);
        assert(forall|i: int| 1 <= i < c.len() ==> #[trigger] c[i] == rest[i - 1]);
    }
}

/// A reminder that is due is of its item and goes to the one who is to be reminded; it has not been
/// tried, and it ends with the day of the item where that can be told.
pub proof fn what_is_to_be_sent(
    r: SendLog,
    item: Item,
    cfg: AppConfig,
    label: Seq<char>,
    scheduled_at: Seq<char>,
)
    requires
        fresh_reminder(r, item, cfg, label, scheduled_at),
    ensures
        r.item_id == item.id,
        r.attempt == 0,
        r.kind@ == "reminder"@,
        r.to_addr == cfg.reminder.to,
        r.status == SendStatus::Pending,
        r.scheduled_at@ == scheduled_at,
        r.error is None && r.sent_at is None && r.next_retry_at is None && r.message_id is None,
        item_day(item, cfg.timezone@) matches Some(d) ==> r.subject@ == subject(
            label,
            item.party@,
            clamped(item.event@),
            d,
        ),
        item_day(item, cfg.timezone@) is None ==> r.subject@ == subject(
            label,
            item.party@,
            clamped(item.event@),
            Seq::empty(),
        ),
        item.deadline matches Some(d) ==> r.body@ == body_of(item, d@),
        item.deadline is None ==> r.body@ == body_of(item, Seq::empty()),
{
}

/// A reminder that a user asks for is as any other, but of its own kind, and it ends with today
/// where the day of the item cannot be told.
pub proof fn what_a_user_has_sent(
    r: SendLog,
    item: Item,
    stored: Option<CategoryInfo>,
    cfg: AppConfig,
    now: Stamp,
    scheduled_at: Seq<char>,
)
    requires
        manual_reminder(r, item, stored, cfg, now, scheduled_at),
    ensures
        r.item_id == item.id,
        r.attempt == 0,
        r.kind@ == "manual"@,
        r.to_addr == cfg.reminder.to,
        r.status == SendStatus::Pending,
        r.scheduled_at@ == scheduled_at,
        r.error is None && r.sent_at is None && r.next_retry_at is None && r.message_id is None,
        item_day(item, cfg.timezone@) matches Some(d) ==> r.subject@ == subject(
            shown_label(stored, cfg, item.category@),
            item.party@,
            clamped(item.event@),
            d,
        ),
        item_day(item, cfg.timezone@) is None ==> r.subject@ == subject(
            shown_label(stored, cfg, item.category@),
            item.party@,
            clamped(item.event@),
            month_day(cfg.timezone@, now.secs),
        ),
        item.deadline matches Some(d) ==> r.body@ == body_of(item, d@),
{
}

/// The identifier of a mail that goes out starts and ends as every other and tells what is its own.
pub proof fn identifiers_of_mail(unique: Seq<char>, other: Seq<char>)
    ensures
        message_id_text(unique) == "<mail2-"@ + unique + "@mail2.local>"@,
        message_id_text(unique) == message_id_text(other) ==> unique == other,
{
    let a = "<mail2-"@;
    let z = "@mail2.local>"@;
    if message_id_text(unique) == message_id_text(other) {
        let n = a.len() as int;
        let s = message_id_text(unique);
        assert(s.subrange(n, n + unique.len()) =~= unique);
        assert(s.len() == a.len() + unique.len() + z.len());
        assert(s.len() == a.len() + other.len() + z.len());
        assert(s.subrange(n, n + other.len()) =~= other);
    }
}

} // verus!
