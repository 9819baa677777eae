//! What is stored: which rows are asked for, which of them are shown and in what order, and in
//! what form things are kept.

use crate::db::arranged;
use crate::db::category_kind;
use crate::db::email_key;
use crate::db::email_query;
use crate::db::email_wanted;
use crate::db::EmailFilter;
use crate::db::fresh_categories;
use crate::db::in_range;
use crate::db::is_order;
use crate::db::item_key;
use crate::db::item_query;
use crate::db::item_wanted;
use crate::db::ItemFilter;
use crate::db::known_category;
use crate::db::received_of;
use crate::db::sorted_from;
use crate::db::SqlView;
use crate::db::time_before;
use crate::db::usual_kind;
use crate::config::CategoryDef;
use crate::model::CategoryInfo;
use crate::model::EmailRecord;
use crate::model::Item;
use crate::model::ItemKind;
use crate::model::ItemStatus;
use crate::model::login_name;
use crate::model::masked;
use crate::model::SendStatus;
use crate::text::text_before;
use crate::text::trimmed;
use crate::time::rfc3339_moment;
use vstd::prelude::*;

verus! {

/// Whether a time, told as a text, comes before another.
pub open spec fn sooner(a: Seq<char>, b: Seq<char>) -> bool {
    rfc3339_moment(a) matches Some(x) && (rfc3339_moment(b) matches Some(y) && (x.0 < y.0 || (x.0
        == y.0 && x.1 < y.1)))
}

/// The time by which mail is found and put in order: that of receipt, else that of sending.
pub open spec fn mail_time(e: EmailRecord) -> Seq<char> {
    if e.received_at@.len() > 0 {
        e.received_at@
    } else {
        e.sent_at@
    }
}

/// Times are told apart as moments, whatever clocks they are told on; where one of them is none,
/// as texts: by the first character that differs, or else the shorter one first.
pub proof fn times_in_order(a: Seq<char>, b: Seq<char>, head: Seq<char>, x: char, y: char)
    ensures
        rfc3339_moment(a) is Some && rfc3339_moment(b) is Some ==> time_before(a, b) == sooner(a, b),
        rfc3339_moment(a) is None || rfc3339_moment(b) is None ==> time_before(a, b)
            == text_before(a, b),
        x != y ==> text_before(head + seq![x] + a, head + seq![y] + b) == (x < y),
        text_before(head, head + seq![x] + a),
        !text_before(head + a, head),
    decreases head.len(),
{
    if head.len() > 0 {
        let rest = head.drop_first();
        times_in_order(a, b, rest, x, y);
        assert((head + seq![x] + a).drop_first() =~= rest + seq![x] + a);
        assert((head + seq![y] + b).drop_first() =~= rest + seq![y] + b);
        assert((head + a).drop_first() =~= rest + a);
        assert((head + seq![x] + a)[0] == head[0]);
        assert((head + seq![y] + b)[0] == head[0]);
        assert((head + a)[0] == head[0]);
    } else {
        assert((head + seq![x] + a)[0] == x);
        assert((head + seq![y] + b)[0] == y);
    }
}

/// A time lies within bounds where it comes neither before the one nor after the other; a bound
/// that is no time is none, and a time that is none lies within no bounds.
pub proof fn bounds(v: Seq<char>, after: Option<Seq<char>>, before: Option<Seq<char>>)
    ensures
        in_range(v, None, None),
        after is Some || before is Some ==> in_range(v, after, before) == (rfc3339_moment(v) is Some
            && (after is Some ==> !sooner(v, after->0)) && (before is Some ==> !sooner(
            before->0,
            v,
        ))),
{
}

proof fn filtered<T>(s: Seq<T>, p: spec_fn(T) -> bool)
    ensures
        forall|i: int|
            0 <= i < s.filter(p).len() ==> p(#[trigger] s.filter(p)[i]) && s.contains(
                s.filter(p)[i],
            ),
        forall|i: int| 0 <= i < s.len() && p(#[trigger] s[i]) ==> s.filter(p).contains(s[i]),
    decreases s.len(),
{
    reveal(Seq::filter);
    if s.len() > 0 {
        let front = s.drop_last();
        filtered(front, p);
        let f = front.filter(p);
        assert forall|i: int| 0 <= i < s.filter(p).len() implies p(#[trigger] s.filter(p)[i])
            && s.contains(s.filter(p)[i]) by {
            if i < f.len() {
                assert(s.filter(p)[i] == f[i]);
                let k = choose|k: int| 0 <= k < front.len() && front[k] == f[i];
                assert(s[k] == f[i]);
            } else {
                assert(s[s.len() - 1] == s.last());
            }
        }
        assert forall|i: int| 0 <= i < s.len() && p(#[trigger] s[i]) implies s.filter(p).contains(
            s[i],
        ) by {
            if i < front.len() {
                assert(front[i] == s[i]);
                let k = choose|k: int| 0 <= k < f.len() && f[k] == s[i];
                assert(s.filter(p)[k] == s[i]);
            } else {
                assert(s.filter(p)[f.len() as int] == s[i]);
            }
        }
    }
}

proof fn arranging_keeps_all<T>(rows: Seq<T>, o: Seq<int>, i: int)
    requires
        is_order(o, rows.len() as int),
        0 <= i < rows.len(),
    ensures
        arranged(rows, o).contains(rows[i]),
{
    let n = rows.len() as int;
    if forall|k: int| 0 <= k < n ==> #[trigger] o[k] != i {
        let below = Set::new(|x: int| 0 <= x < n && x != i);
        vstd::set_lib::lemma_int_range(0, n);
        assert(below =~= vstd::set_lib::set_int_range(0, n).remove(i));
        assert(o.to_set().subset_of(below)) by {
            assert forall|x: int| o.to_set().contains(x) implies below.contains(x) by {
                let k = choose|k: int| 0 <= k < o.len() && o[k] == x;
                assert(o[k] != i);
            }
        }
        assert(o.no_duplicates());
        o.unique_seq_to_set();
        vstd::set_lib::lemma_len_subset(o.to_set(), below);
    } else {
        let k = choose|k: int| 0 <= k < n && #[trigger] o[k] == i;
        assert(arranged(rows, o)[k] == rows[i]);
    }
}

/// Of the mail that was found, that within the bounds is listed, all of it and no other: by the
/// time of receipt, or else of sending. The latest comes first, and of one time that with the
/// greater number.
pub proof fn which_mail_is_listed(
    r: Seq<EmailRecord>,
    rows: Seq<EmailRecord>,
    f: EmailFilter,
)
    requires
        sorted_from(
            r,
            rows.filter(|e: EmailRecord| email_wanted(e, f)),
            |e: EmailRecord| email_key(e),
        ),
    ensures
        forall|i: int|
            0 <= i < r.len() ==> rows.contains(#[trigger] r[i]) && (f.since is Some
                ==> !time_before(mail_time(r[i]), f.since->0@)) && (f.before is Some
                ==> !time_before(f.before->0@, mail_time(r[i]))),
        forall|i: int|
            0 <= i < rows.len() && (f.since is Some ==> !time_before(
                mail_time(#[trigger] rows[i]),
                f.since->0@,
            )) && (f.before is Some ==> !time_before(f.before->0@, mail_time(rows[i])))
                ==> r.contains(rows[i]),
        (forall|i: int| 0 <= i < r.len() ==> rfc3339_moment(mail_time(#[trigger] r[i])) is Some)
            ==> forall|i: int, j: int|
            0 <= i < j < r.len() ==> !sooner(mail_time(#[trigger] r[i]), mail_time(#[trigger] r[j]))
                && (sooner(mail_time(r[j]), mail_time(r[i])) || r[i].id >= r[j].id),
{
    let p = |e: EmailRecord| email_wanted(e, f);
    let key = |e: EmailRecord| email_key(e);
    let kept = rows.filter(p);
    filtered(rows, p);
    let o = choose|o: Seq<int>| #[trigger]
        is_order(o, kept.len() as int) && r == arranged(kept, o);
    assert forall|i: int| 0 <= i < r.len() implies rows.contains(#[trigger] r[i]) && p(r[i]) by {
        assert(r[i] == kept[o[i]]);
    }
    assert forall|i: int| 0 <= i < rows.len() && p(#[trigger] rows[i]) implies r.contains(
        rows[i],
    ) by {
        let k = choose|k: int| 0 <= k < kept.len() && kept[k] == rows[i];
        arranging_keeps_all(kept, o, k);
    }
    let keys = r.map_values(key);
    if forall|i: int| 0 <= i < r.len() ==> rfc3339_moment(mail_time(#[trigger] r[i])) is Some {
        assert forall|i: int| 0 <= i < keys.len() implies crate::time::stamp_of(
            (#[trigger] keys[i]).0,
        ) is Some by {
            assert(rfc3339_moment(mail_time(r[i])) is Some);
        }
        assert forall|i: int, j: int| 0 <= i < j < r.len() implies !sooner(
            mail_time(#[trigger] r[i]),
            mail_time(#[trigger] r[j]),
        ) && (sooner(mail_time(r[j]), mail_time(r[i])) || r[i].id >= r[j].id) by {
            assert(!crate::db::precedes(keys[j], keys[i]));
        }
    }
}

/// Whether a time, as a text, is when the mail of an item was received; where that is not known it
/// is when the item was made.
pub open spec fn listed_by(it: Item, received: Seq<(i64, String)>, t: Seq<char>) -> bool {
    if it.source_email_id is Some && exists|k: int|
        0 <= k < received.len() && (#[trigger] received[k]).0 == it.source_email_id->0 {
        exists|k: int|
            0 <= k < received.len() && (#[trigger] received[k]).0 == it.source_email_id->0
                && received[k].1@ == t
    } else {
        t == it.created_at@
    }
}

proof fn receipt_is_found(received: Seq<(i64, String)>, id: i64)
    ensures
        match received_of(received, id) {
            Some(t) => exists|k: int|
                0 <= k < received.len() && (#[trigger] received[k]).0 == id && received[k].1@ == t,
            None => forall|k: int| 0 <= k < received.len() ==> (#[trigger] received[k]).0 != id,
        },
    decreases received.len(),
{
    if received.len() > 0 {
        let rest = received.drop_first();
        receipt_is_found(rest, id);
        if received[0].0 != id {
            match received_of(rest, id) {
                Some(t) => {
                    let k = choose|k: int|
                        0 <= k < rest.len() && (#[trigger] rest[k]).0 == id && rest[k].1@ == t;
                    assert(received[k + 1] == rest[k]);
                },
                None => {
                    assert forall|k: int| 0 <= k < received.len() implies (#[trigger] received[k]).0
                        != id by {
                        if k > 0 {
                            assert(received[k] == rest[k - 1]);
                        }
                    }
                },
            }
        }
    }
}

/// Items are put in order by when their mail was received, else by when they were made, and of one
/// time by their numbers.
pub proof fn what_items_are_listed_by(it: Item, received: Seq<(i64, String)>)
    ensures
        listed_by(it, received, item_key(it, received).0),
        item_key(it, received).1 == it.id,
{
    match it.source_email_id {
        Some(id) => receipt_is_found(received, id),
        None => {},
    }
}

/// An item is listed where it was made within the bounds for that and is due within the bounds for
/// that; one without a deadline is not where there are such bounds.
pub proof fn which_items_are_listed(it: Item, f: ItemFilter)
    ensures
        item_wanted(it, f) == (in_range(
            it.created_at@,
            match f.created_after {
                Some(t) => Some(t@),
                None => None,
            },
            match f.created_before {
                Some(t) => Some(t@),
                None => None,
            },
        ) && (if it.deadline is None {
            f.deadline_after is None && f.deadline_before is None
        } else {
            in_range(
                it.deadline->0@,
                match f.deadline_after {
                    Some(t) => Some(t@),
                    None => None,
                },
                match f.deadline_before {
                    Some(t) => Some(t@),
                    None => None,
                },
            )
        })),
{
}

/// The condition for a text that is asked for.
pub open spec fn asked(condition: Seq<char>, t: Option<String>) -> Seq<char> {
    if t is Some && t->0@.len() > 0 {
        condition
    } else {
        Seq::empty()
    }
}

/// The value for a text that is asked for.
pub open spec fn value(t: Option<String>) -> Seq<SqlView> {
    if t is Some && t->0@.len() > 0 {
        seq![SqlView::Text(t->0@)]
    } else {
        Seq::empty()
    }
}

/// The condition for words that are searched for.
pub open spec fn searched(condition: Seq<char>, t: Option<String>) -> Seq<char> {
    if t is Some && trimmed(t->0@).len() > 0 {
        condition
    } else {
        Seq::empty()
    }
}

/// The values for words that are searched for in four columns.
pub open spec fn four_times(t: Option<String>) -> Seq<SqlView> {
    if t is Some && trimmed(t->0@).len() > 0 {
        let like = SqlView::Text("%"@ + trimmed(t->0@) + "%"@);
        seq![like, like, like, like]
    } else {
        Seq::empty()
    }
}

/// The query for mail asks for what the filter asks for and for nothing else: category, account,
/// label, or none where that is asked for, and words in subject, sender and text; the latest rows,
/// up to the limit.
pub proof fn what_mail_is_asked_for(f: EmailFilter)
    ensures
        ({
            let unlabelled = f.label is Some && (f.label->0@.len() == 0 || f.label->0@
                == "__none__"@);
            &&& email_query(f).0
                == "SELECT id, uid, message_id, subject, from_addr, from_name, body_text, category, sent_at, received_at, item_id, reply_to_item_id, account_id, handled, user_label, user_note FROM emails WHERE 1=1"@
                + asked(" AND category=?"@, f.category) + (if f.account_id is Some {
                " AND account_id=?"@
            } else {
                Seq::empty()
            }) + (if unlabelled {
                " AND user_label=''"@
            } else {
                asked(" AND user_label=?"@, f.label)
            }) + searched(
                " AND (subject LIKE ? OR from_addr LIKE ? OR from_name LIKE ? OR body_text LIKE ?)"@,
                f.q,
            ) + " ORDER BY id DESC LIMIT ?"@
            &&& email_query(f).1 == value(f.category) + (if f.account_id is Some {
                seq![SqlView::Int(f.account_id->0)]
            } else {
                Seq::empty()
            }) + (if unlabelled {
                Seq::empty()
            } else {
                value(f.label)
            }) + four_times(f.q) + seq![SqlView::Int(f.limit as i64)]
        }),
{
    assert(email_query(f).0
        =~= "SELECT id, uid, message_id, subject, from_addr, from_name, body_text, category, sent_at, received_at, item_id, reply_to_item_id, account_id, handled, user_label, user_note FROM emails WHERE 1=1"@
        + asked(" AND category=?"@, f.category) + (if f.account_id is Some {
        " AND account_id=?"@
    } else {
        Seq::empty()
    }) + (if f.label is Some && (f.label->0@.len() == 0 || f.label->0@ == "__none__"@) {
        " AND user_label=''"@
    } else {
        asked(" AND user_label=?"@, f.label)
    }) + searched(
        " AND (subject LIKE ? OR from_addr LIKE ? OR from_name LIKE ? OR body_text LIKE ?)"@,
        f.q,
    ) + " ORDER BY id DESC LIMIT ?"@);
}

/// The query for items asks for what the filter asks for and for nothing else: kind, status,
/// category, party, account, and words in title, party, event and notes; the latest rows, up to
/// the limit.
pub proof fn what_items_are_asked_for(f: ItemFilter)
    ensures
        item_query(f).0
            == "SELECT id,kind,title,party,event,category,deadline,remind_at,remind_policy,needs_review,status,source_email_id,account_id,notes,created_at,updated_at FROM items WHERE 1=1"@
            + (if f.kind is Some {
            " AND kind=?"@
        } else {
            Seq::empty()
        }) + (if f.status is Some {
            " AND status=?"@
        } else {
            Seq::empty()
        }) + asked(" AND category=?"@, f.category) + asked(" AND party=?"@, f.party) + (
        if f.account_id is Some {
            " AND account_id=?"@
        } else {
            Seq::empty()
        }) + searched(" AND (title LIKE ? OR party LIKE ? OR event LIKE ? OR notes LIKE ?)"@, f.q)
            + " ORDER BY id DESC LIMIT ?"@,
        item_query(f).1 == (if f.kind is Some {
            seq![SqlView::Text(f.kind->0.name())]
        } else {
            Seq::empty()
        }) + (if f.status is Some {
            seq![SqlView::Text(f.status->0.name())]
        } else {
            Seq::empty()
        }) + value(f.category) + value(f.party) + (if f.account_id is Some {
            seq![SqlView::Int(f.account_id->0)]
        } else {
            Seq::empty()
        }) + four_times(f.q) + seq![SqlView::Int(f.limit as i64)],
{
}

/// The names under which kinds and statuses are kept.
pub proof fn names()
    ensures
        ItemKind::Todo.name() == "todo"@,
        ItemKind::Notification.name() == "notification"@,
        ItemStatus::Active.name() == "active"@,
        ItemStatus::Completed.name() == "completed"@,
        ItemStatus::Silent.name() == "silent"@,
        ItemStatus::Expired.name() == "expired"@,
        SendStatus::Pending.name() == "pending"@,
        SendStatus::Sent.name() == "sent"@,
        SendStatus::Failed.name() == "failed"@,
{
}

/// A new category is of the kind that is given, where that is one; else it makes things to do
/// where it makes items and is not the one for notifications.
pub proof fn kinds_of_categories(kind: Seq<char>, id: Seq<char>, create_item: bool)
    ensures
        kind == "todo"@ ==> category_kind(kind, id, create_item) == "todo"@,
        kind == "notification"@ ==> category_kind(kind, id, create_item) == "notification"@,
        kind != "todo"@ && kind != "notification"@ ==> category_kind(kind, id, create_item)
            == usual_kind(id, create_item),
        usual_kind(id, create_item) == if create_item && id != "notification"@ {
            "todo"@
        } else {
            "notification"@
        },
{
}

/// Of the configured categories exactly those are added whose id is not there, each once.
pub proof fn which_categories_are_added(
    list: Seq<CategoryInfo>,
    configured: Seq<CategoryDef>,
    n: nat,
)
    requires
        n <= configured.len(),
    ensures
        forall|i: int|
            0 <= i < fresh_categories(list, configured, n).len() ==> !known_category(
                list,
                (#[trigger] fresh_categories(list, configured, n)[i]).id@,
            ),
        forall|k: int|
            0 <= k < n && !known_category(list, (#[trigger] configured[k]).id@) ==> exists|i: int|
                0 <= i < fresh_categories(list, configured, n).len() && (
                #[trigger] fresh_categories(list, configured, n)[i]).id@ == configured[k].id@,
        forall|i: int, j: int|
            0 <= i < j < fresh_categories(list, configured, n).len() ==> (
            #[trigger] fresh_categories(list, configured, n)[i]).id@ != (
            #[trigger] fresh_categories(list, configured, n)[j]).id@,
        forall|i: int|
            0 <= i < fresh_categories(list, configured, n).len() ==> exists|k: int|
                0 <= k < n && #[trigger] configured[k] == (#[trigger] fresh_categories(
                    list,
                    configured,
                    n,
                )[i]),
    decreases n,
{
    if n > 0 {
        let m = (n - 1) as nat;
        which_categories_are_added(list, configured, m);
        let rest = fresh_categories(list, configured, m);
        let all = fresh_categories(list, configured, n);
        let d = configured[n - 1];
        let taken = !known_category(list, d.id@) && !crate::db::configured_before(
            configured,
            n - 1,
            d.id@,
        );
        assert(all == if taken {
            rest.push(d)
        } else {
            rest
        });
        assert forall|k: int|
            0 <= k < n && !known_category(list, (#[trigger] configured[k]).id@) implies exists|
            i: int,
        |
            0 <= i < all.len() && (#[trigger] all[i]).id@ == configured[k].id@ by {
            if k == n - 1 && taken {
                assert(all[rest.len() as int] == d);
            } else {
                let j = if k == n - 1 {
                    choose|j: int| 0 <= j < n - 1 && (#[trigger] configured[j]).id@ == d.id@
                } else {
                    k
                };
                let i = choose|i: int|
                    0 <= i < rest.len() && (#[trigger] rest[i]).id@ == configured[j].id@;
                assert(all[i] == rest[i]);
            }
        }
        assert forall|i: int| 0 <= i < all.len() implies exists|k: int|
            0 <= k < n && #[trigger] configured[k] == (#[trigger] all[i]) by {
            if i < rest.len() {
                assert(all[i] == rest[i]);
                let k = choose|k: int| 0 <= k < m && #[trigger] configured[k] == rest[i];
                assert(configured[k] == all[i]);
            } else {
                assert(configured[n - 1] == all[i]);
            }
        }
        assert forall|i: int, j: int| 0 <= i < j < all.len() implies (#[trigger] all[i]).id@ != (
        #[trigger] all[j]).id@ by {
            assert(all[i] == rest[i]);
            if j < rest.len() {
                assert(all[j] == rest[j]);
            } else {
                let k = choose|k: int| 0 <= k < m && #[trigger] configured[k] == rest[i];
                assert(configured[k].id@ == rest[i].id@);
            }
        }
    }
}

/// A password is not shown: what is shown is the same for all.
pub proof fn passwords_are_not_shown(a: Seq<char>, b: Seq<char>)
    ensures
        a.len() > 0 && b.len() > 0 ==> masked(a) == masked(b),
        a.len() > 0 ==> masked(a) == "***"@,
        a.len() == 0 ==> masked(a).len() == 0,
{
    reveal_strlit("");
}

/// One logs in under the name that is given, else under the address.
pub proof fn who_logs_in(user: Seq<char>, address: Seq<char>)
    ensures
        login_name(user, address) == if trimmed(user).len() > 0 {
            user
        } else {
            address
        },
{
}

} // verus!
