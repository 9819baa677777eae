//! Mail and its items: what is made of a mail, and which mails are one matter.

use crate::config::AppConfig;
use crate::deadline::inferred;
use crate::model::EmailRecord;
use crate::model::Item;
use crate::model::ItemKind;
use crate::model::ItemStatus;
use crate::model::TodoView;
use crate::notifier::clamped;
use crate::notifier::policy;
use crate::notifier::remind_plan;
use crate::pipeline::agent_todo;
use crate::pipeline::ends;
use crate::pipeline::filled;
use crate::pipeline::is_made;
use crate::pipeline::is_target;
use crate::pipeline::item_of_mail;
use crate::pipeline::merged;
use crate::pipeline::Outcome;
use crate::pipeline::target;
use crate::deadline::action_hint;
use crate::deadline::expiry_hint;
use crate::json::Json;
use crate::json::text_field;
use crate::model::TodoExtract;
use crate::text::trimmed;
use crate::time::moment_gap;
use crate::time::rfc3339_moment;
use crate::time::Stamp;
use vstd::prelude::*;

verus! {

/// Whether two deadlines lie a day apart at most, or are not both there; those that are no times
/// have to be the same text.
pub open spec fn near(a: Option<String>, b: Option<String>) -> bool {
    a matches Some(x) ==> b matches Some(y) ==> if rfc3339_moment(x@) is Some && rfc3339_moment(
        y@,
    ) is Some {
        let t = rfc3339_moment(x@)->0;
        let u = rfc3339_moment(y@)->0;
        moment_gap(t.0, t.1, u.0, u.1) matches Some(g) && (-86400 < g.0 < 86400 || (g.1 == 0 && (g.0
            == 86400 || g.0 == -86400)))
    } else {
        x@ == y@
    }
}

/// Whether an item may take up another: an active thing to do of the same account, with a near
/// deadline.
pub open spec fn may_take_up(there: Item, fresh: Item) -> bool {
    &&& there.id != fresh.id
    &&& there.account_id == fresh.account_id
    &&& there.status == ItemStatus::Active
    &&& there.kind == ItemKind::Todo
    &&& fresh.kind == ItemKind::Todo
    &&& near(there.deadline, fresh.deadline)
}

/// Whether two items are of one matter: of the same party, which is told, and the same category.
pub open spec fn same_matter(there: Item, fresh: Item) -> bool {
    &&& may_take_up(there, fresh)
    &&& trimmed(fresh.party@).len() > 0
    &&& trimmed(fresh.party@) == trimmed(there.party@)
    &&& fresh.category@ == there.category@
}

/// Whether an item takes up another: that of a mail that is repeated, or one of the same matter.
pub open spec fn takes_up(there: Item, fresh: Item, repeated: Option<i64>) -> bool {
    (repeated == Some(there.id) && may_take_up(there, fresh)) || same_matter(there, fresh)
}

proof fn targets_take_up(items: Seq<Item>, fresh: Item, repeated: Option<i64>)
    ensures
        match target(items, fresh, repeated) {
            Some(i) => 0 <= i < items.len() && takes_up(items[i], fresh, repeated) && forall|j: int|
                0 <= j < i ==> !takes_up(#[trigger] items[j], fresh, repeated),
            None => forall|j: int|
                0 <= j < items.len() ==> !takes_up(#[trigger] items[j], fresh, repeated),
        },
    decreases items.len(),
{
    if items.len() > 0 {
        let rest = items.drop_first();
        targets_take_up(rest, fresh, repeated);
        assert(is_target(items[0], fresh, repeated) == takes_up(items[0], fresh, repeated));
        if !takes_up(items[0], fresh, repeated) {
            let end = match target(rest, fresh, repeated) {
                Some(i) => i + 1,
                None => items.len() as int,
            };
            assert forall|j: int| 0 <= j < end implies !takes_up(
                #[trigger] items[j],
                fresh,
                repeated,
            ) by {
                if j > 0 {
                    assert(items[j] == rest[j - 1]);
                }
            }
        }
    }
}

/// A new item is taken up by the first that is of the same matter or of the mail that is repeated,
/// and by no other: not by one of another category, another party, another account, another
/// occasion, nor by one that is done. Where there is none it stays apart.
pub proof fn only_one_matter_is_taken_up(items: Seq<Item>, fresh: Item, repeated: Option<i64>)
    ensures
        match target(items, fresh, repeated) {
            Some(i) => 0 <= i < items.len() && takes_up(items[i], fresh, repeated) && forall|j: int|
                0 <= j < i ==> !takes_up(#[trigger] items[j], fresh, repeated),
            None => forall|j: int|
                0 <= j < items.len() ==> !takes_up(#[trigger] items[j], fresh, repeated),
        },
{
    targets_take_up(items, fresh, repeated);
}

/// Where an item takes up that of a mail, the two are merged; where none does, a new item is
/// stored, and one that changed is saved.
pub proof fn what_becomes_of_an_item(
    r: Outcome,
    full: Item,
    new: bool,
    changed: bool,
    items: Seq<Item>,
    repeated: Option<i64>,
    cfg: AppConfig,
    now_text: Seq<char>,
)
    requires
        ends(r, full, new, changed, items, repeated, cfg, now_text),
    ensures
        (forall|j: int| 0 <= j < items.len() ==> !takes_up(#[trigger] items[j], full, repeated))
            ==> r == if new {
            Outcome::Insert(full)
        } else if changed {
            Outcome::Save(full)
        } else {
            Outcome::Nothing
        },
        forall|i: int|
            0 <= i < items.len() && takes_up(#[trigger] items[i], full, repeated) && (forall|j: int|
                0 <= j < i ==> !takes_up(#[trigger] items[j], full, repeated)) ==> (
            r matches Outcome::Merge(m) && m.into == i && m.item.id == items[i].id
                && m.drop_unsent == ((match items[i].deadline {
                Some(d) => Some(d@),
                None => None,
            }) != (match m.item.deadline {
                Some(d) => Some(d@),
                None => None,
            }))),
{
    targets_take_up(items, full, repeated);
}

/// What two items of one matter come to: the earlier one, with all that the later mail says; the
/// deadline of the earlier where the later has none, and its notes where the later has none.
pub proof fn the_latest_mail_counts(r: Item, there: Item, fresh: Item, cfg: AppConfig, now: Seq<char>)
    requires
        merged(r, there, fresh, cfg, now),
    ensures
        r.id == there.id,
        r.status == there.status,
        r.created_at == there.created_at,
        r.updated_at@ == now,
        r.kind == fresh.kind,
        r.title == fresh.title,
        r.party == fresh.party,
        r.event == fresh.event,
        r.category == fresh.category,
        r.source_email_id == fresh.source_email_id,
        r.account_id == fresh.account_id,
        fresh.deadline is Some ==> r.deadline == fresh.deadline,
        fresh.deadline is None ==> r.deadline == there.deadline,
        r.needs_review == (r.deadline is None),
        trimmed(fresh.notes@).len() > 0 ==> r.notes@ == fresh.notes@,
        trimmed(fresh.notes@).len() == 0 ==> r.notes@ == there.notes@,
        r.remind_policy@ == policy(
            match r.deadline {
                Some(d) => Some(d@),
                None => None,
            },
            if fresh.deadline is Some {
                fresh.remind_policy@ == "link_expiry"@
            } else {
                there.remind_policy@ == "link_expiry"@
            },
            now,
        ),
        (match r.remind_at {
            Some(t) => Some(t@),
            None => None,
        }) == if remind_plan(r, cfg, now).len() == 0 {
            None
        } else {
            Some(remind_plan(r, cfg, now)[0])
        },
{
}

/// What the text of a mail says of its deadline, with the one that was extracted.
pub open spec fn of_mail(
    email: EmailRecord,
    extracted: Option<Seq<char>>,
    cfg: AppConfig,
    now: Stamp,
) -> (Option<Seq<char>>, Option<Seq<char>>) {
    inferred(
        email.subject@ + " "@ + email.body_text@,
        extracted,
        if email.sent_at@.len() > 0 {
            Some(email.sent_at@)
        } else {
            None
        },
        Some(email.received_at@),
        cfg.timezone@,
        now,
    )
}

/// The item of a mail is an active thing to do of its account and tells where it comes from. It
/// says what was extracted, with the subject in place of a title that is blank and ten characters
/// of the event at most. Its deadline is the one that the mail gives; where there is none it is to
/// be looked at. It is reminded of at once where a link lapses and nothing is to be done within a
/// limit, else as its deadline asks for.
pub proof fn what_a_mail_makes(
    it: Item,
    ex: TodoView,
    email: EmailRecord,
    email_id: i64,
    category: Seq<char>,
    cfg: AppConfig,
    now: Stamp,
    now_text: Seq<char>,
)
    requires
        item_of_mail(it, ex, email, email_id, category, cfg, now, now_text),
    ensures
        it.kind == ItemKind::Todo,
        it.status == ItemStatus::Active,
        it.source_email_id == Some(email_id),
        it.account_id == email.account_id,
        it.party@ == ex.0,
        it.event@ == clamped(ex.1),
        it.event@.len() <= 10,
        it.title@ == if trimmed(ex.2).len() > 0 {
            ex.2
        } else {
            email.subject@
        },
        ex.4 is None ==> it.category@ == category,
        ex.4 matches Some(c) ==> it.category@ == if c.len() > 0 {
            c
        } else {
            category
        },
        (match it.deadline {
            Some(d) => Some(d@),
            None => None,
        }) == of_mail(email, ex.3, cfg, now).0,
        it.needs_review == (it.deadline is None),
        it.remind_policy@ == policy(
            of_mail(email, ex.3, cfg, now).0,
            expiry_hint(email.subject@ + " "@ + email.body_text@) is Some && action_hint(
                email.subject@ + " "@ + email.body_text@,
            ) is None,
            now_text,
        ),
        (match it.remind_at {
            Some(t) => Some(t@),
            None => None,
        }) == if remind_plan(it, cfg, now_text).len() == 0 {
            None
        } else {
            Some(remind_plan(it, cfg, now_text)[0])
        },
        of_mail(email, ex.3, cfg, now).1 matches Some(n) ==> it.notes@ == if trimmed(ex.5).len()
            == 0 {
            n
        } else {
            trimmed(ex.5) + "\n"@ + n
        },
        of_mail(email, ex.3, cfg, now).1 is None ==> it.notes@ == ex.5,
        it.created_at@ == now_text,
        it.updated_at@ == now_text,
{
}

/// An item is made of what was extracted of a mail where it is of an interview, a test or an
/// assessment, or where it has a deadline; else none is.
pub proof fn which_mail_makes_an_item(
    ex: TodoExtract,
    email: EmailRecord,
    category: Seq<char>,
    cfg: AppConfig,
    now: Stamp,
)
    ensures
        is_made(Some(ex), email, category, cfg, now) == (category == "interview"@ || category
            == "written_test"@ || category == "assessment"@ || of_mail(
            email,
            match ex.deadline {
                Some(d) => Some(d@),
                None => None,
            },
            cfg,
            now,
        ).0 is Some),
        !is_made(None, email, category, cfg, now),
{
}

/// A thing to do without a deadline gets the one that its mail gives, and nothing else of it
/// changes but when it is reminded of and its notes; where its mail gives none it is marked to be
/// looked at. Anything else stays as it is.
pub proof fn missing_deadlines_are_filled_in(
    r: Option<Item>,
    item: Item,
    email: EmailRecord,
    cfg: AppConfig,
    now: Stamp,
    now_text: Seq<char>,
)
    requires
        filled(r, item, email, cfg, now, now_text),
    ensures
        item.kind != ItemKind::Todo || item.deadline is Some ==> r is None,
        item.kind == ItemKind::Todo && item.deadline is None && of_mail(
            email,
            None,
            cfg,
            now,
        ).0 is Some ==> (r matches Some(it) && it.deadline is Some && Some(it.deadline->0@)
            == of_mail(email, None, cfg, now).0 && !it.needs_review && it.id == item.id && it.title
            == item.title && it.party == item.party && it.event == item.event && it.category
            == item.category && it.status == item.status && it.created_at == item.created_at),
        item.kind == ItemKind::Todo && item.deadline is None && of_mail(
            email,
            None,
            cfg,
            now,
        ).0 is None ==> if item.needs_review {
            r is None
        } else {
            r matches Some(it) && it == (Item {
                needs_review: true,
                updated_at: it.updated_at,
                ..item
            })
        },
{
}

/// What the agent says is taken as it stands, white space at the ends aside: the subject in place
/// of a title that is missing, no deadline that is no RFC 3339 time.
pub proof fn what_the_agent_says(v: Json, subject: Seq<char>)
    ensures
        ({
            let t = agent_todo(v, subject);
            &&& text_field(v, "party"@) matches Some(s) ==> t.0 == trimmed(s)
            &&& text_field(v, "party"@) is None ==> t.0.len() == 0
            &&& text_field(v, "event"@) matches Some(s) ==> t.1 == trimmed(s)
            &&& text_field(v, "event"@) is None ==> t.1.len() == 0
            &&& text_field(v, "title"@) matches Some(s) ==> t.2 == if trimmed(s).len() > 0 {
                trimmed(s)
            } else {
                subject
            }
            &&& text_field(v, "title"@) is None ==> t.2 == subject
            &&& text_field(v, "deadline"@) matches Some(s) ==> t.3 == if rfc3339_moment(s) is Some {
                Some(s)
            } else {
                None
            }
            &&& text_field(v, "deadline"@) is None ==> t.3 is None
            &&& t.4 is None
            &&& text_field(v, "notes"@) matches Some(s) ==> t.5 == trimmed(s)
        }),
{
}

} // verus!
