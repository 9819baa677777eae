//! Replies to reminders: which item they are about, and what they ask for.

use crate::laws::holds;
use crate::laws::holds_one;
use crate::laws::searching_finds_what_is_there;
use crate::laws::searching_for_one_of_many;
use crate::model::ItemStatus;
use crate::model::ReplyIntent;
use crate::model::SendLog;
use crate::pipeline::akin;
use crate::pipeline::answered_item;
use crate::pipeline::bare_id;
use crate::pipeline::done_words;
use crate::pipeline::done_words_english;
use crate::pipeline::full_text;
use crate::pipeline::item_by_ids;
use crate::pipeline::kindred_item;
use crate::pipeline::reply_item;
use crate::pipeline::silent_words;
use crate::pipeline::silent_words_english;
use crate::pipeline::status_after;
use crate::pipeline::subject_answers;
use crate::pipeline::without;
use crate::pipeline::worded_intent;
use crate::text::lower_text;
use crate::text::strip_back;
use crate::text::strip_front;
use crate::text::trimmed;
use vstd::prelude::*;

verus! {

/// A subject without the marks of a reply, and without white space at its ends.
pub open spec fn unmarked(subject: Seq<char>) -> Seq<char> {
    trimmed(without(without(subject, "Re:"@), "RE:"@))
}

/// Whether a record is of a reminder whose subject stands in that of a mail, marks of a reply and
/// white space at the ends aside.
pub open spec fn is_answered(log: SendLog, subject: Seq<char>) -> bool {
    &&& log.subject@.len() > 0
    &&& holds(subject, log.subject@) || holds(unmarked(subject), trimmed(log.subject@))
}

proof fn answers_are_found(logs: Seq<SendLog>, subject: Seq<char>)
    ensures
        match answered_item(logs, subject) {
            Some(n) => exists|i: int|
                0 <= i < logs.len() && is_answered(#[trigger] logs[i], subject) && logs[i].item_id
                    == n && forall|j: int|
                    0 <= j < i ==> !is_answered(#[trigger] logs[j], subject),
            None => forall|i: int|
                0 <= i < logs.len() ==> !is_answered(#[trigger] logs[i], subject),
        },
    decreases logs.len(),
{
    if logs.len() > 0 {
        searching_finds_what_is_there(subject, logs[0].subject@);
        searching_finds_what_is_there(unmarked(subject), trimmed(logs[0].subject@));
        assert(subject_answers(subject, logs[0].subject@) == is_answered(logs[0], subject));
        let rest = logs.drop_first();
        answers_are_found(rest, subject);
        if !is_answered(logs[0], subject) {
            match answered_item(rest, subject) {
                Some(n) => {
                    let i = choose|i: int|
                        0 <= i < rest.len() && is_answered(#[trigger] rest[i], subject)
                            && rest[i].item_id == n && forall|j: int|
                            0 <= j < i ==> !is_answered(#[trigger] rest[j], subject);
                    assert(logs[i + 1] == rest[i]);
                    assert forall|j: int| 0 <= j < i + 1 implies !is_answered(
                        #[trigger] logs[j],
                        subject,
                    ) by {
                        if j > 0 {
                            assert(logs[j] == rest[j - 1]);
                        }
                    }
                },
                None => {
                    assert forall|j: int| 0 <= j < logs.len() implies !is_answered(
                        #[trigger] logs[j],
                        subject,
                    ) by {
                        if j > 0 {
                            assert(logs[j] == rest[j - 1]);
                        }
                    }
                },
            }
        } else {
            assert(is_answered(logs[0], subject) && logs[0].item_id == answered_item(
                logs,
                subject,
            )->0);
        }
    }
}

/// A mail that refers to no message is about the item of the first record whose subject stands in
/// its own; where that of none does it is no reply.
pub proof fn a_subject_answers_only_what_it_holds(
    subject: Seq<char>,
    exact: Seq<Option<i64>>,
    logs: Seq<SendLog>,
)
    ensures
        match reply_item(subject, Seq::empty(), exact, logs) {
            Some(n) => exists|i: int|
                0 <= i < logs.len() && is_answered(#[trigger] logs[i], subject) && logs[i].item_id
                    == n && forall|j: int|
                    0 <= j < i ==> !is_answered(#[trigger] logs[j], subject),
            None => forall|i: int|
                0 <= i < logs.len() ==> !is_answered(#[trigger] logs[i], subject),
        },
{
    answers_are_found(logs, subject);
}

/// Whether an identifier leads to the record of a message: one holds the other, brackets aside.
pub open spec fn leads_to(log: SendLog, id: Seq<char>) -> bool {
    log.message_id matches Some(m) && (holds(m@, id) || holds(id, bare_id(m@)))
}

proof fn kindred_are_found(logs: Seq<SendLog>, id: Seq<char>)
    ensures
        match kindred_item(logs, id) {
            Some(n) => exists|i: int|
                0 <= i < logs.len() && leads_to(#[trigger] logs[i], id) && logs[i].item_id == n,
            None => forall|i: int| 0 <= i < logs.len() ==> !leads_to(#[trigger] logs[i], id),
        },
    decreases logs.len(),
{
    if logs.len() > 0 {
        match logs[0].message_id {
            Some(m) => {
                searching_finds_what_is_there(m@, id);
                searching_finds_what_is_there(id, bare_id(m@));
            },
            None => {},
        }
        assert(akin(logs[0], id) == leads_to(logs[0], id));
        let rest = logs.drop_first();
        kindred_are_found(rest, id);
        if leads_to(logs[0], id) {
            assert(logs[0].item_id == kindred_item(logs, id)->0);
        } else {
            match kindred_item(rest, id) {
                Some(n) => {
                    let i = choose|i: int|
                        0 <= i < rest.len() && leads_to(#[trigger] rest[i], id) && rest[i].item_id
                            == n;
                    assert(logs[i + 1] == rest[i]);
                },
                None => {
                    assert forall|j: int| 0 <= j < logs.len() implies !leads_to(
                        #[trigger] logs[j],
                        id,
                    ) by {
                        if j > 0 {
                            assert(logs[j] == rest[j - 1]);
                        }
                    }
                },
            }
        }
    }
}

/// Whether one of some identifiers leads to an item: by the record with that very identifier, or
/// by a record that it leads to.
pub open spec fn known(ids: Seq<Seq<char>>, exact: Seq<Option<i64>>, logs: Seq<SendLog>, k: int) -> bool {
    (k < exact.len() && exact[k] is Some) || exists|i: int|
        0 <= i < logs.len() && leads_to(#[trigger] logs[i], ids[k])
}

proof fn ids_are_followed(ids: Seq<Seq<char>>, exact: Seq<Option<i64>>, logs: Seq<SendLog>)
    ensures
        match item_by_ids(ids, exact, logs) {
            Some(n) => exists|k: int|
                0 <= k < ids.len() && #[trigger] known(ids, exact, logs, k) && (if k < exact.len()
                    && exact[k] is Some {
                    exact[k] == Some(n)
                } else {
                    exists|i: int|
                        0 <= i < logs.len() && leads_to(#[trigger] logs[i], ids[k])
                            && logs[i].item_id == n
                }) && forall|j: int| 0 <= j < k ==> !(#[trigger] known(ids, exact, logs, j)),
            None => forall|k: int|
                0 <= k < ids.len() ==> !(#[trigger] known(ids, exact, logs, k)),
        },
    decreases ids.len(),
{
    if ids.len() > 0 {
        let front = ids.drop_last();
        ids_are_followed(front, exact, logs);
        assert forall|j: int| 0 <= j < front.len() implies #[trigger] known(ids, exact, logs, j)
            == known(front, exact, logs, j) by {
            assert(ids[j] == front[j]);
        }
        let last = ids.len() - 1;
        kindred_are_found(logs, ids[last]);
        match item_by_ids(front, exact, logs) {
            Some(n) => {
                let k = choose|k: int|
                    0 <= k < front.len() && #[trigger] known(front, exact, logs, k) && (if k
                        < exact.len() && exact[k] is Some {
                        exact[k] == Some(n)
                    } else {
                        exists|i: int|
                            0 <= i < logs.len() && leads_to(#[trigger] logs[i], front[k])
                                && logs[i].item_id == n
                    }) && forall|j: int|
                        0 <= j < k ==> !(#[trigger] known(front, exact, logs, j));
                assert(ids[k] == front[k]);
                assert(known(ids, exact, logs, k));
            },
            None => {
                assert forall|j: int| 0 <= j < last implies !(#[trigger] known(
                    ids,
                    exact,
                    logs,
                    j,
                )) by {
                    assert(!known(front, exact, logs, j));
                }
                if item_by_ids(ids, exact, logs) is Some {
                    assert(known(ids, exact, logs, last));
                } else {
                    assert(!known(ids, exact, logs, last));
                }
            },
        }
    }
}

/// A mail that refers to messages is about the item of the first of them that is known: of the
/// record with that very identifier, else of one whose identifier holds it or is held by it. Only
/// where none is known does its subject count.
pub proof fn references_come_first(
    subject: Seq<char>,
    ids: Seq<Seq<char>>,
    exact: Seq<Option<i64>>,
    logs: Seq<SendLog>,
)
    ensures
        (forall|k: int| 0 <= k < ids.len() ==> !(#[trigger] known(ids, exact, logs, k)))
            ==> reply_item(subject, ids, exact, logs) == reply_item(
            subject,
            Seq::empty(),
            exact,
            logs,
        ),
        forall|k: int|
            0 <= k < ids.len() && #[trigger] known(ids, exact, logs, k) && (forall|j: int|
                0 <= j < k ==> !(#[trigger] known(ids, exact, logs, j))) ==> if k < exact.len()
                && exact[k] is Some {
                reply_item(subject, ids, exact, logs) == exact[k]
            } else {
                exists|i: int|
                    0 <= i < logs.len() && leads_to(#[trigger] logs[i], ids[k]) && reply_item(
                        subject,
                        ids,
                        exact,
                        logs,
                    ) == Some(logs[i].item_id)
            },
{
    ids_are_followed(ids, exact, logs);
    match item_by_ids(ids, exact, logs) {
        Some(n) => {},
        None => {},
    }
}

/// A reply with words for something done completes its item, even where it also asks for no more
/// reminders; one that only asks for that silences it; any other leaves it as it is.
pub proof fn what_a_reply_asks_for(subject: Seq<char>, body: Seq<char>)
    ensures
        ({
            let text = subject + " "@ + body;
            let low = lower_text(text);
            let done = holds_one(text, seq!["已完成"@, "已经完成"@, "已参加"@, "已完成请查收"@])
                || holds_one(low, seq!["done"@, "completed"@, "finished"@]);
            let silent = holds_one(
                text,
                seq![
                    "不再提醒"@,
                    "取消提醒"@,
                    "别发了"@,
                    "不用提醒"@,
                    "不需要提醒"@,
                    "停止提醒"@,
                ],
            ) || holds_one(low, seq!["no more reminder"@, "stop reminding"@, "unsubscribe"@]);
            let intent = worded_intent(full_text(subject, body));
            &&& done ==> intent == ReplyIntent::Done && status_after(intent) == Some(
                ItemStatus::Completed,
            )
            &&& !done && silent ==> intent == ReplyIntent::Silent && status_after(intent) == Some(
                ItemStatus::Silent,
            )
            &&& !done && !silent ==> intent == ReplyIntent::Unclear && status_after(intent) is None
        }),
{
    let text = subject + " "@ + body;
    let low = lower_text(text);
    searching_for_one_of_many(
        text,
        done_words(),
        seq!["已完成"@, "已经完成"@, "已参加"@, "已完成请查收"@],
    );
    searching_for_one_of_many(
        low,
        done_words_english(),
        seq!["done"@, "completed"@, "finished"@],
    );
    searching_for_one_of_many(
        text,
        silent_words(),
        seq![
            "不再提醒"@,
            "取消提醒"@,
            "别发了"@,
            "不用提醒"@,
            "不需要提醒"@,
            "停止提醒"@,
        ],
    );
    searching_for_one_of_many(
        low,
        silent_words_english(),
        seq!["no more reminder"@, "stop reminding"@, "unsubscribe"@],
    );
}

/// An identifier in brackets is the one between them, and one without stays as it is.
pub proof fn brackets_are_dropped(id: Seq<char>)
    requires
        !id.contains('<'),
        !id.contains('>'),
    ensures
        bare_id(seq!['<'] + id + seq!['>']) == id,
        bare_id(id) == id,
{
    reveal_with_fuel(strip_front, 3);
    reveal_with_fuel(strip_back, 3);
    let s = seq!['<'] + id + seq!['>'];
    let t = id + seq!['>'];
    assert(s.drop_first() =~= t);
    assert(t.drop_last() =~= id);
    assert(t.last() == '>');
    if id.len() > 0 {
        assert(id.contains(id[0]));
        assert(id.contains(id.last()));
        assert(t[0] == id[0]);
    } else {
        assert(t =~= seq!['>']);
        assert(id =~= Seq::<char>::empty());
    }
}

/// A mark of a reply before a text without one is taken off, and nothing else.
pub proof fn marks_of_a_reply_are_dropped(s: Seq<char>)
    requires
        !s.contains(':'),
    ensures
        without(s, "Re:"@) == s,
        without("Re:"@ + s, "Re:"@) == s,
        without(s, "RE:"@) == s,
        without("RE:"@ + s, "RE:"@) == s,
        unmarked(s) == trimmed(s),
{
    reveal_strlit("Re:");
    reveal_strlit("RE:");
    nothing_to_drop(s, "Re:"@);
    nothing_to_drop(s, "RE:"@);
    assert(("Re:"@ + s).subrange(0, 3) =~= "Re:"@);
    assert(("Re:"@ + s).skip(3) =~= s);
    assert(("RE:"@ + s).subrange(0, 3) =~= "RE:"@);
    assert(("RE:"@ + s).skip(3) =~= s);
}

proof fn nothing_to_drop(s: Seq<char>, p: Seq<char>)
    requires
        !s.contains(':'),
        p.len() == 3,
        p[2] == ':',
    ensures
        without(s, p) == s,
    decreases s.len(),
{
    if s.len() > 0 {
        let rest = s.drop_first();
        assert forall|i: int| 0 <= i < rest.len() implies rest[i] != ':' by {
            assert(s.contains(s[i + 1]));
        }
        nothing_to_drop(rest, p);
        if crate::text::stands_at(s, p, 0) {
            assert(s.subrange(0, 3)[2] == s[2]);
            assert(s.contains(s[2]));
        }
        assert(seq![s[0]] + rest =~= s);
    }
}

} // verus!
