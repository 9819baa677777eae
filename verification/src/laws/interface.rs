//! What a user asks for and writes: who may ask, which items and accounts come of what is written,
//! and what is never shown.

use crate::api::account_as_written;
use crate::api::account_at;
use crate::api::account_tried;
use crate::api::AccountPayload;
use crate::api::authorized;
use crate::api::bad_item_bound;
use crate::api::batch_item_filter;
use crate::api::BatchFilters;
use crate::api::BatchPayload;
use crate::api::config_view;
use crate::api::first_such;
use crate::api::is_default;
use crate::api::is_enabled;
use crate::api::item_action;
use crate::api::item_as_written;
use crate::api::item_filter_is;
use crate::api::item_rewritten;
use crate::api::ItemAction;
use crate::api::ItemPayload;
use crate::api::ItemQuery;
use crate::api::kind_asked;
use crate::api::limit_or;
use crate::api::named_ids;
use crate::api::other_than;
use crate::api::password_kept;
use crate::api::range_days;
use crate::api::Reclassified;
use crate::api::reclassified;
use crate::api::request_status;
use crate::api::status_asked;
use crate::api::told_moment;
use crate::api::written_deadline;
use crate::api::written_kind;
use crate::config::AppConfig;
use crate::db::ItemFilter;
use crate::laws::only_space;
use crate::laws::trimming_takes_the_white_space;
use crate::laws::what_is_blank;
use crate::model::CategoryInfo;
use crate::model::Item;
use crate::model::ItemKind;
use crate::model::ItemStatus;
use crate::model::MailAccount;
use crate::text::space;
use crate::time::civil_date;
use crate::time::rfc3339_moment;
use crate::time::Stamp;
use crate::time::zone_moments;
use vstd::prelude::*;

verus! {

/// Without a token everyone may pass; with one, exactly those who bear it without the white space
/// around it.
pub proof fn who_may_pass(a: Seq<char>, t: Seq<char>, b: Seq<char>, header: Option<Seq<char>>)
    requires
        only_space(a),
        only_space(b),
        t.len() > 0 ==> !space(t[0]) && !space(t.last()),
    ensures
        authorized(a + t + b, header) == (t.len() == 0 || header == Some("Bearer "@ + t)),
{
    trimming_takes_the_white_space(a, t, b);
}

/// The settings that are shown do not tell passwords and keys: they are the same whatever those
/// are. Of the token and of the address of the web hook they tell only whether there is one.
pub proof fn secrets_are_not_told(
    cfg: AppConfig,
    other: AppConfig,
    categories: Seq<CategoryInfo>,
    accounts: Seq<MailAccount>,
)
    requires
        cfg.listen == other.listen,
        cfg.data_dir == other.data_dir,
        cfg.timezone == other.timezone,
        cfg.poll_interval_secs == other.poll_interval_secs,
        cfg.check_times == other.check_times,
        cfg.reminder.to == other.reminder.to,
        cfg.reminder.days_before == other.reminder.days_before,
        cfg.reminder.lead_time == other.reminder.lead_time,
        cfg.mail.address == other.mail.address,
        cfg.mail.imap.host == other.mail.imap.host,
        cfg.mail.imap.port == other.mail.imap.port,
        cfg.mail.imap.user == other.mail.imap.user,
        cfg.mail.smtp.host == other.mail.smtp.host,
        cfg.mail.smtp.port == other.mail.smtp.port,
        cfg.mail.smtp.user == other.mail.smtp.user,
        cfg.llm.base_url == other.llm.base_url,
        cfg.llm.model == other.llm.model,
        cfg.llm.agent == other.llm.agent,
        only_space(cfg.auth_token@) == only_space(other.auth_token@),
        only_space(cfg.reminder.webhook_url@) == only_space(other.reminder.webhook_url@),
    ensures
        config_view(cfg, categories, accounts) == config_view(other, categories, accounts),
{
    what_is_blank(cfg.auth_token@);
    what_is_blank(other.auth_token@);
    what_is_blank(cfg.reminder.webhook_url@);
    what_is_blank(other.reminder.webhook_url@);
}

/// Whether a bound in time is given that is none.
pub open spec fn no_time(t: Option<String>) -> bool {
    t is Some && rfc3339_moment(t->0@) is None
}

/// A query for items is about the kind and the status of the name that is given, any where none
/// is; there is nothing to ask for under another name. All other things that are given go into the
/// filter as they are, and no more than 500 items are asked for where no limit is given.
pub proof fn what_a_query_asks_for(
    q: ItemQuery,
    f: ItemFilter,
    kind: Option<ItemKind>,
    status: Option<ItemStatus>,
)
    ensures
        kind_asked(q.kind) == Some(kind) <==> (match kind {
            None => q.kind is None,
            Some(ItemKind::Todo) => q.kind is Some && q.kind->0@ == "todo"@,
            Some(ItemKind::Notification) => q.kind is Some && q.kind->0@ == "notification"@,
        }),
        status_asked(q.status) == Some(status) <==> (match status {
            None => q.status is None,
            Some(ItemStatus::Active) => q.status is Some && q.status->0@ == "active"@,
            Some(ItemStatus::Completed) => q.status is Some && q.status->0@ == "completed"@,
            Some(ItemStatus::Silent) => q.status is Some && q.status->0@ == "silent"@,
            Some(ItemStatus::Expired) => q.status is Some && q.status->0@ == "expired"@,
        }),
        item_filter_is(f, q, kind, status) ==> {
            &&& f.kind == kind
            &&& f.status == status
            &&& f.category == q.category
            &&& f.party == q.party
            &&& f.q == q.q
            &&& f.account_id == q.account_id
            &&& f.created_after == q.created_after
            &&& f.created_before == q.created_before
            &&& f.deadline_after == q.deadline_after
            &&& f.deadline_before == q.deadline_before
            &&& q.limit is Some ==> f.limit == q.limit->0
            &&& q.limit is None ==> f.limit == 500
        },
        bad_item_bound(q) is None <==> !no_time(q.created_after) && !no_time(q.created_before)
            && !no_time(q.deadline_after) && !no_time(q.deadline_before),
        bad_item_bound(q) == Some("created_after"@) <==> no_time(q.created_after),
        bad_item_bound(q) == Some("created_before"@) <==> no_time(q.created_before) && !no_time(
            q.created_after,
        ),
        bad_item_bound(q) == Some("deadline_after"@) <==> no_time(q.deadline_after) && !no_time(
            q.created_after,
        ) && !no_time(q.created_before),
{
    reveal_strlit("todo");
    reveal_strlit("notification");
    reveal_strlit("active");
    reveal_strlit("completed");
    reveal_strlit("silent");
    reveal_strlit("expired");
    reveal_strlit("created_after");
    reveal_strlit("created_before");
    reveal_strlit("deadline_after");
    reveal_strlit("deadline_before");
    assert("todo"@.len() != "notification"@.len());
    assert("active"@[0] != "silent"@[0]);
    assert("completed"@.len() != "expired"@.len());
    assert("created_before"@[0] != "deadline_after"@[0]);
    assert("created_after"@.len() != "created_before"@.len());
    assert("created_after"@.len() != "deadline_before"@.len());
    assert("deadline_after"@.len() != "deadline_before"@.len());
}

/// What is done to many items is done to those that are named; where none is, the filter is the
/// one that is given, for no more than ten thousand of them.
pub proof fn what_is_done_to_many(
    p: BatchPayload,
    b: BatchFilters,
    f: ItemFilter,
    kind: Option<ItemKind>,
    status: Option<ItemStatus>,
)
    ensures
        p.ids is None ==> named_ids(p).len() == 0,
        p.ids is Some ==> named_ids(p) == p.ids->0@,
        batch_item_filter(f, b, kind, status) ==> {
            &&& f.kind == kind
            &&& f.status == status
            &&& f.category == b.category
            &&& f.party == b.party
            &&& f.q == b.q
            &&& f.account_id == b.account_id
            &&& f.created_after == b.created_after
            &&& f.created_before == b.created_before
            &&& f.deadline_after == b.deadline_after
            &&& f.deadline_before == b.deadline_before
            &&& f.limit == 10000
        },
{
}

/// What can be done to items has four names, and each is done what it says.
pub proof fn what_actions_do(name: Seq<char>)
    ensures
        item_action("complete"@) == Some(ItemAction::Mark(ItemStatus::Completed)),
        item_action("silent"@) == Some(ItemAction::Mark(ItemStatus::Silent)),
        item_action("activate"@) == Some(ItemAction::Mark(ItemStatus::Active)),
        item_action("delete"@) == Some(ItemAction::Delete),
        item_action(name) is Some ==> name == "complete"@ || name == "silent"@ || name
            == "activate"@ || name == "delete"@,
{
    reveal_strlit("complete");
    reveal_strlit("silent");
    reveal_strlit("activate");
    reveal_strlit("delete");
    assert("complete"@[0] != "activate"@[0]);
    assert("silent"@[0] != "delete"@[0]);
    assert("complete"@.len() != "silent"@.len());
    assert("complete"@.len() != "delete"@.len());
    assert("activate"@.len() != "silent"@.len());
    assert("activate"@.len() != "delete"@.len());
}

/// What a user writes of an item makes an active one that comes from no mail and is of the account:
/// of something to do where no kind is written. The title stands for what it is about where that
/// is blank, and the other way round. It needs a look exactly where it is to be done and has no
/// deadline; a deadline of white space is none.
pub proof fn what_a_user_writes(
    it: Item,
    p: ItemPayload,
    kind: ItemKind,
    account_id: i64,
    cfg: AppConfig,
    now: Seq<char>,
)
    requires
        written_kind(p.kind@) == Some(kind),
        item_as_written(it, p, kind, account_id, cfg, now),
    ensures
        it.kind == ItemKind::Todo <==> p.kind@ == "todo"@ || p.kind@.len() == 0,
        it.kind == ItemKind::Notification <==> p.kind@ == "notification"@,
        it.title@ == if only_space(p.title@) {
            p.event@
        } else {
            p.title@
        },
        it.event@ == if only_space(p.event@) {
            p.title@
        } else {
            p.event@
        },
        it.party == p.party,
        it.notes == p.notes,
        it.category@ == if only_space(p.category@) {
            "todo"@
        } else {
            p.category@
        },
        it.deadline is Some <==> p.deadline is Some && !only_space(p.deadline->0@),
        it.deadline is Some ==> it.deadline->0@ == p.deadline->0@,
        it.needs_review <==> it.kind == ItemKind::Todo && it.deadline is None,
        it.status == ItemStatus::Active,
        it.source_email_id is None,
        it.account_id == account_id,
        it.created_at@ == now && it.updated_at@ == now,
{
    reveal_strlit("");
    reveal_strlit("todo");
    reveal_strlit("notification");
    assert(p.kind@.len() == 0 ==> p.kind@ =~= ""@);
    what_is_blank(p.title@);
    what_is_blank(p.event@);
    what_is_blank(p.category@);
    if p.deadline is Some {
        what_is_blank(p.deadline->0@);
    }
}

/// An item that a user rewrites stays the one it is, where it stands and where it comes from; what
/// it says is what is written, and it needs a look only where it did before.
pub proof fn what_a_user_rewrites(
    r: Item,
    p: ItemPayload,
    kind: ItemKind,
    old_item: Item,
    cfg: AppConfig,
    now: Seq<char>,
)
    requires
        written_kind(p.kind@) == Some(kind),
        item_rewritten(r, p, kind, old_item, cfg, now),
    ensures
        r.id == old_item.id,
        r.status == old_item.status,
        r.source_email_id == old_item.source_email_id,
        r.account_id == old_item.account_id,
        r.created_at == old_item.created_at,
        r.updated_at@ == now,
        r.kind == ItemKind::Todo <==> p.kind@ == "todo"@ || p.kind@.len() == 0,
        r.title@ == if only_space(p.title@) {
            p.event@
        } else {
            p.title@
        },
        r.event@ == if only_space(p.event@) {
            p.title@
        } else {
            p.event@
        },
        r.party == p.party,
        r.notes == p.notes,
        r.category@ == if only_space(p.category@) {
            "todo"@
        } else {
            p.category@
        },
        r.deadline is Some <==> p.deadline is Some && !only_space(p.deadline->0@),
        r.deadline is Some ==> r.deadline->0@ == p.deadline->0@,
        r.needs_review <==> r.kind == ItemKind::Todo && r.deadline is None && old_item.needs_review,
{
    reveal_strlit("");
    reveal_strlit("todo");
    reveal_strlit("notification");
    assert(p.kind@.len() == 0 ==> p.kind@ =~= ""@);
    what_is_blank(p.title@);
    what_is_blank(p.event@);
    what_is_blank(p.category@);
    if p.deadline is Some {
        what_is_blank(p.deadline->0@);
    }
}

/// Only a text that is not blank is taken for a deadline that is written, and only three texts,
/// the empty one among them, for a kind.
pub proof fn what_can_be_written(s: Seq<char>, d: Option<String>)
    ensures
        written_kind(s) is None <==> s.len() > 0 && s != "todo"@ && s != "notification"@,
        written_deadline(d) is Some <==> d is Some && !only_space(d->0@),
        written_deadline(d) is Some ==> written_deadline(d)->0 == d->0@,
{
    reveal_strlit("");
    assert(s.len() == 0 ==> s =~= ""@);
    if d is Some {
        what_is_blank(d->0@);
    }
}

/// A mail that a user gives another category becomes something to do only where that category makes
/// such items and is not the one for advertisements of jobs; otherwise what it made is taken back,
/// but for a notification.
pub proof fn what_another_category_does(
    stored: Option<CategoryInfo>,
    category: Seq<char>,
    item: Option<Item>,
)
    ensures
        reclassified(stored, category, item) == Reclassified::Extract <==> category
            != "career_promo"@ && (match stored {
            Some(c) => c.create_item && c.kind@ == "todo"@,
            None => category == "todo"@,
        }),
        reclassified(stored, category, item) != Reclassified::Extract && item is Some
            && item->0.kind == ItemKind::Todo ==> reclassified(stored, category, item)
            == Reclassified::Revoke(item->0.id),
        reclassified(stored, category, item) != Reclassified::Extract && (item is None
            || item->0.kind == ItemKind::Notification) ==> reclassified(stored, category, item)
            == Reclassified::Nothing,
{
}

/// A range is of as many days as it says, and there are four of them.
pub proof fn days_of_ranges(r: Seq<char>)
    ensures
        range_days("3d"@) == Some(3int),
        range_days("7d"@) == Some(7int),
        range_days("15d"@) == Some(15int),
        range_days("30d"@) == Some(30int),
        range_days(r) is Some ==> r == "3d"@ || r == "7d"@ || r == "15d"@ || r == "30d"@,
{
    reveal_strlit("3d");
    reveal_strlit("7d");
    reveal_strlit("15d");
    reveal_strlit("30d");
    assert("3d"@[0] != "7d"@[0]);
    assert("15d"@[0] != "30d"@[0]);
    assert("3d"@.len() != "15d"@.len());
}

/// A moment is told by its text, or by a day, which then is its start on the clock of the zone; a
/// day that has no such moment or two of them tells none.
pub proof fn moments_that_are_told(s: Seq<char>, zone: Seq<char>)
    ensures
        rfc3339_moment(s) matches Some(m) ==> told_moment(s, zone) == Ok::<Stamp, Seq<char>>(
            Stamp { secs: m.0, nanos: m.1, offset: m.2 },
        ),
        rfc3339_moment(s) is None ==> (civil_date(s) matches Some(day) ==> {
            let there = zone_moments(zone, day.0, day.1, day.2, 0, 0, 0);
            &&& told_moment(s, zone) is Ok <==> there.len() == 1
            &&& told_moment(s, zone) is Ok ==> {
                &&& told_moment(s, zone)->Ok_0.secs == there[0].0
                &&& told_moment(s, zone)->Ok_0.offset == there[0].1
                &&& told_moment(s, zone)->Ok_0.nanos == 0
            }
        }),
        rfc3339_moment(s) is None && civil_date(s) is None ==> told_moment(s, zone) is Err,
{
}

/// The account that is named is the first of that number.
pub proof fn accounts_are_found(list: Seq<MailAccount>, id: i64)
    ensures
        account_at(list, id) is None <==> forall|i: int|
            0 <= i < list.len() ==> (#[trigger] list[i]).id != id,
        account_at(list, id) matches Some(k) ==> 0 <= k < list.len() && list[k].id == id && forall|
            i: int,
        |
            0 <= i < k ==> (#[trigger] list[i]).id != id,
    decreases list.len(),
{
    if list.len() > 0 {
        accounts_are_found(list.drop_first(), id);
        let rest = list.drop_first();
        assert(forall|i: int| 0 <= i < rest.len() ==> #[trigger] rest[i] == list[i + 1]);
        assert(forall|i: int| 1 <= i < list.len() ==> #[trigger] list[i] == rest[i - 1]);
    }
}

/// The default account is the first that is marked as that, the account in use the first that is
/// in use, and another account the first of another number.
pub proof fn accounts_that_stand_in(list: Seq<MailAccount>, id: i64)
    ensures
        first_such(list, is_default()) is None <==> forall|i: int|
            0 <= i < list.len() ==> !(#[trigger] list[i]).is_default,
        first_such(list, is_default()) matches Some(k) ==> 0 <= k < list.len()
            && list[k].is_default && forall|i: int| 0 <= i < k ==> !(#[trigger] list[i]).is_default,
        first_such(list, is_enabled()) is None <==> forall|i: int|
            0 <= i < list.len() ==> !(#[trigger] list[i]).enabled,
        first_such(list, is_enabled()) matches Some(k) ==> 0 <= k < list.len() && list[k].enabled
            && forall|i: int| 0 <= i < k ==> !(#[trigger] list[i]).enabled,
        first_such(list, other_than(id)) is None <==> forall|i: int|
            0 <= i < list.len() ==> (#[trigger] list[i]).id == id,
        first_such(list, other_than(id)) matches Some(k) ==> 0 <= k < list.len() && list[k].id != id
            && forall|i: int| 0 <= i < k ==> (#[trigger] list[i]).id == id,
    decreases list.len(),
{
    if list.len() > 0 {
        accounts_that_stand_in(list.drop_first(), id);
        let rest = list.drop_first();
        assert(forall|i: int| 0 <= i < rest.len() ==> #[trigger] rest[i] == list[i + 1]);
        assert(forall|i: int| 1 <= i < list.len() ==> #[trigger] list[i] == rest[i - 1]);
    }
}

/// A new account is what is written of it, in use and not the default one; what is left open is
/// empty, and the ports are those of encrypted lines.
pub proof fn accounts_as_written(a: MailAccount, p: AccountPayload, now: Seq<char>)
    requires
        account_as_written(a, p, now),
    ensures
        !a.is_default,
        p.enabled is None ==> a.enabled,
        p.enabled is Some ==> a.enabled == p.enabled->0,
        p.label is None ==> a.label@ == "邮箱账户"@,
        p.label is Some ==> a.label@ == p.label->0@,
        p.address is Some ==> a.address@ == p.address->0@,
        p.imap_host is Some ==> a.imap_host@ == p.imap_host->0@,
        p.imap_user is Some ==> a.imap_user@ == p.imap_user->0@,
        p.imap_user is None ==> a.imap_user@ == ""@,
        p.imap_password is Some ==> a.imap_password@ == p.imap_password->0@,
        p.imap_port is Some ==> a.imap_port == p.imap_port->0,
        p.imap_port is None ==> a.imap_port == 993,
        p.imap_tls_insecure is Some ==> a.imap_tls_insecure == p.imap_tls_insecure->0,
        p.imap_tls_insecure is None ==> !a.imap_tls_insecure,
        p.smtp_host is Some ==> a.smtp_host@ == p.smtp_host->0@,
        p.smtp_user is Some ==> a.smtp_user@ == p.smtp_user->0@,
        p.smtp_user is None ==> a.smtp_user@ == ""@,
        p.smtp_password is Some ==> a.smtp_password@ == p.smtp_password->0@,
        p.smtp_port is Some ==> a.smtp_port == p.smtp_port->0,
        p.smtp_port is None ==> a.smtp_port == 465,
        p.smtp_tls_insecure is Some ==> a.smtp_tls_insecure == p.smtp_tls_insecure->0,
        p.smtp_tls_insecure is None ==> !a.smtp_tls_insecure,
        p.reminder_to is Some ==> a.reminder_to@ == p.reminder_to->0@,
        p.reminder_to is None ==> a.reminder_to@ == ""@,
        a.created_at@ == now && a.updated_at@ == now,
{
}

/// A password changes exactly where one is written: white space is none, and no more are the three
/// stars that a password is shown as.
pub proof fn passwords_that_are_written(written: Option<String>, old_password: Seq<char>)
    ensures
        written is None ==> password_kept(written, old_password) == old_password,
        written is Some && only_space(written->0@) ==> password_kept(written, old_password)
            == old_password,
        written is Some && written->0@ == "***"@ ==> password_kept(written, old_password)
            == old_password,
        written is Some && !only_space(written->0@) && written->0@ != "***"@ ==> password_kept(
            written,
            old_password,
        ) == written->0@,
{
    if written is Some {
        what_is_blank(written->0@);
    }
}

/// Of an account that is rewritten, what is written becomes so and what is not stays; it stays the
/// account that it is.
pub proof fn accounts_that_are_rewritten(r: MailAccount, p: AccountPayload, a: MailAccount)
    requires
        account_tried(r, p, a),
    ensures
        r.id == a.id && r.is_default == a.is_default && r.created_at == a.created_at,
        r.label@ == if p.label is Some { p.label->0@ } else { a.label@ },
        r.address@ == if p.address is Some { p.address->0@ } else { a.address@ },
        r.imap_host@ == if p.imap_host is Some { p.imap_host->0@ } else { a.imap_host@ },
        r.imap_port == if p.imap_port is Some { p.imap_port->0 } else { a.imap_port },
        r.imap_user@ == if p.imap_user is Some { p.imap_user->0@ } else { a.imap_user@ },
        r.imap_tls_insecure == if p.imap_tls_insecure is Some {
            p.imap_tls_insecure->0
        } else {
            a.imap_tls_insecure
        },
        r.smtp_host@ == if p.smtp_host is Some { p.smtp_host->0@ } else { a.smtp_host@ },
        r.smtp_port == if p.smtp_port is Some { p.smtp_port->0 } else { a.smtp_port },
        r.smtp_user@ == if p.smtp_user is Some { p.smtp_user->0@ } else { a.smtp_user@ },
        r.smtp_tls_insecure == if p.smtp_tls_insecure is Some {
            p.smtp_tls_insecure->0
        } else {
            a.smtp_tls_insecure
        },
        r.imap_password@ == password_kept(p.imap_password, a.imap_password@),
        r.smtp_password@ == password_kept(p.smtp_password, a.smtp_password@),
{
}

/// A request of the agent waits, is approved or is rejected; a limit that is given counts.
pub proof fn what_requests_can_be(s: Seq<char>, l: Option<usize>, usual: usize)
    ensures
        request_status(s) <==> s == "pending"@ || s == "approved"@ || s == "rejected"@,
        l is Some ==> limit_or(l, usual) == l->0,
        l is None ==> limit_or(l, usual) == usual,
{
}

} // verus!
