//! New mail, from the server to an item: what is taken, what a reply to a reminder asks for, how
//! mail is classified, what becomes something to do, and what belongs to something there already.

use crate::checker::chosen;
use crate::config::AppConfig;
use crate::deadline::action_hint;
use crate::deadline::expiry_hint;
use crate::deadline::explicit_time;
use crate::deadline::infer_deadline_at;
use crate::deadline::inferred;
use crate::deadline::match_action_hint;
use crate::deadline::match_link_expiry_hint;
use crate::deadline::match_relative_hint;
use crate::deadline::parse_human_datetime_at;
use crate::deadline::relative_hint;
use crate::json::Json;
use crate::json::text_field;
use crate::llm::keep_valid_time;
use crate::llm::valid_time;
use crate::mail::ParsedMail;
use crate::model::CATEGORY_CAREER_PROMO;
use crate::model::CATEGORY_MISC;
use crate::model::CATEGORY_NOTIFICATION;
use crate::model::CATEGORY_TODO;
use crate::model::CategoryInfo;
use crate::model::copy_text;
use crate::model::core_action;
use crate::model::EmailRecord;
use crate::model::is_core_action;
use crate::model::Item;
use crate::model::ItemKind;
use crate::model::ItemStatus;
use crate::model::ReplyIntent;
use crate::model::RunReport;
use crate::model::SendLog;
use crate::model::todo_view;
use crate::model::TodoExtract;
use crate::model::TodoView;
use crate::notifier::clamp_event;
use crate::notifier::clamped;
use crate::notifier::decide_remind_policy;
use crate::notifier::policy;
use crate::notifier::remind_plan;
use crate::notifier::reminder_times_at;
use crate::number::decimal;
use crate::number::decimal_reads_back;
use crate::number::nat_within;
use crate::number::parse_nat;
use crate::number::show_i64;
use crate::number::show_u64;
use crate::number::signed_decimal;
use crate::text::any_occurs;
use crate::text::blank;
use crate::text::chars_of;
use crate::text::contains;
use crate::text::contains_any;
use crate::text::ends_with;
use crate::text::is_blank;
use crate::text::lower_text;
use crate::text::matches_at;
use crate::text::occurs;
use crate::text::same;
use crate::text::split_words;
use crate::text::stands_at;
use crate::text::starts_with;
use crate::text::stripped;
use crate::text::text_of;
use crate::text::texts;
use crate::text::to_lower;
use crate::text::trim;
use crate::text::trim_char;
use crate::text::trimmed;
use crate::text::words;
use crate::time::DAY;
use crate::time::moment_gap;
use crate::time::Stamp;
use crate::time::stamp_of;
use crate::time::Zone;
use vstd::prelude::*;

verus! {

/// How a batch of mail is handled.
#[derive(Clone, Copy, Debug)]
pub struct ProcessOpts {
    /// Only so many of the latest messages are taken; the rest is not skipped for good.
    pub limit: Option<usize>,
    /// Whether a check follows new mail.
    pub run_check: bool,
    /// Mail from this moment on is looked at, whether it was seen or not.
    pub since: Option<Stamp>,
    /// Whether the place up to which mail was seen moves on.
    pub advance_cursor: bool,
}

impl Default for ProcessOpts {
    fn default() -> (r: Self)
        ensures
            r.limit is None,
            r.run_check,
            r.since is None,
            r.advance_cursor,
    {
        ProcessOpts { limit: None, run_check: true, since: None, advance_cursor: true }
    }
}

/// Under which name it is kept up to where the mail of an account was seen.
pub open spec fn cursor_key(account_id: i64) -> Seq<char> {
    "last_uid:"@ + signed_decimal(account_id as int)
}

/// Under which name it is kept up to where the mail of an account was seen.
pub fn last_uid_key(account_id: i64) -> (r: String)
    ensures
        r@ == cursor_key(account_id),
{
    let mut out = "last_uid:".to_owned();
    let id = show_i64(account_id);
    out.append(id.as_str());
    out
}

/// The identifier above which mail is fetched: that of the account, else the common one; none
/// where mail is looked at from a moment on.
pub open spec fn fetched_above(
    since: Option<Stamp>,
    of_account: Option<Seq<char>>,
    common: Option<Seq<char>>,
) -> Option<int> {
    if since is Some {
        None
    } else {
        let kept = if of_account is Some {
            of_account
        } else {
            common
        };
        match kept {
            Some(t) => nat_within(t, u32::MAX as int),
            None => None,
        }
    }
}

/// The identifier above which mail is fetched.
pub fn fetch_from(opts: &ProcessOpts, of_account: &Option<String>, common: &Option<String>) -> (r:
    Option<u32>)
    ensures
        (match r {
            Some(n) => Some(n as int),
            None => None,
        }) == fetched_above(opts.since, text_of(*of_account), text_of(*common)),
{
    if opts.since.is_some() {
        return None;
    }
    let kept = if of_account.is_some() {
        of_account
    } else {
        common
    };
    match kept {
        Some(t) => match parse_nat(t.as_str(), 4294967295) {
            Some(n) => Some(n as u32),
            None => None,
        },
        None => None,
    }
}

/// The latest messages, as many as the limit allows; they come oldest first.
pub fn keep_latest(raws: Vec<Vec<u8>>, limit: Option<usize>) -> (r: Vec<Vec<u8>>)
    ensures
        r@ == match limit {
            Some(n) if raws@.len() > n => raws@.skip(raws@.len() - n),
            _ => raws@,
        },
{
    let mut raws = raws;
    match limit {
        Some(n) => {
            if raws.len() > n {
                let keep = raws.len() - n;
                let ghost all = raws@;
                let tail = raws.split_off(keep);
                assert(tail@ =~= all.skip(keep as int));
                tail
            } else {
                raws
            }
        },
        None => raws,
    }
}

/// What is done with a message before it is stored.
#[derive(Clone, Copy, Debug, PartialEq, Eq, Structural)]
pub enum Gate {
    /// It was sent before the moment from which mail is looked at.
    Old,
    /// It was sent from here.
    Own,
    Take,
}

/// Whether a time lies before the moment from which mail is looked at; a time that cannot be read
/// does not.
pub open spec fn too_old(sent_at: Seq<char>, since: Option<Stamp>) -> bool {
    match (since, stamp_of(sent_at)) {
        (Some(s), Some(t)) => t.before(s),
        _ => false,
    }
}

/// Whether a message looks like a reminder that was sent from an address.
pub open spec fn own_reminder(subject: Seq<char>, from: Seq<char>, address: Seq<char>) -> bool {
    stands_at(subject, "【"@, 0) && stands_at(subject, "】"@, subject.len() - "】"@.len()) && from
        == address
}

/// What is done with a message; `recorded` tells whether a reminder with its identifier was sent.
pub fn gate(mail: &ParsedMail, recorded: bool, address: &str, since: &Option<Stamp>) -> (r: Gate)
    ensures
        r == if too_old(mail.sent_at@, *since) {
            Gate::Old
        } else if recorded || own_reminder(mail.subject@, mail.from_addr@, address@) {
            Gate::Own
        } else {
            Gate::Take
        },
{
    if let Some(s) = since {
        if let Some(t) = Stamp::parse(mail.sent_at.as_str()) {
            if t.is_before(s) {
                return Gate::Old;
            }
        }
    }
    if recorded {
        return Gate::Own;
    }
    if starts_with(mail.subject.as_str(), "【") && ends_with(mail.subject.as_str(), "】") && same(
        mail.from_addr.as_str(),
        address,
    ) {
        return Gate::Own;
    }
    Gate::Take
}

/// A message as it is stored, before it is classified.
pub fn new_email(mail: &ParsedMail, account_id: i64, now: String) -> (r: EmailRecord)
    ensures
        r.id == 0,
        r.uid is None,
        r.message_id == mail.message_id,
        r.subject == mail.subject,
        r.from_addr == mail.from_addr,
        r.from_name == mail.from_name,
        r.body_text == mail.body_text,
        r.category@.len() == 0,
        r.sent_at == mail.sent_at,
        r.received_at == now,
        r.item_id is None,
        r.reply_to_item_id is None,
        r.account_id == account_id,
        !r.handled,
        r.user_label@.len() == 0,
        r.user_note@.len() == 0,
{
    EmailRecord {
        id: 0,
        uid: None,
        message_id: mail.message_id.clone(),
        subject: mail.subject.clone(),
        from_addr: mail.from_addr.clone(),
        from_name: mail.from_name.clone(),
        body_text: mail.body_text.clone(),
        category: String::new(),
        sent_at: mail.sent_at.clone(),
        received_at: now,
        item_id: None,
        reply_to_item_id: None,
        account_id,
        handled: false,
        user_label: String::new(),
        user_note: String::new(),
    }
}

/// An identifier without the brackets around it.
pub open spec fn bare_id(s: Seq<char>) -> Seq<char> {
    stripped(stripped(s, '<'), '>')
}

fn bare(s: &str) -> (r: String)
    ensures
        r@ == bare_id(s@),
{
    let t = trim_char(s, '<');
    trim_char(t.as_str(), '>')
}

/// The identifiers among some words.
pub open spec fn ids_among(ws: Seq<Seq<char>>) -> Seq<Seq<char>>
    decreases ws.len(),
{
    if ws.len() == 0 {
        Seq::empty()
    } else if bare_id(ws.last()).len() == 0 {
        ids_among(ws.drop_last())
    } else {
        ids_among(ws.drop_last()).push(bare_id(ws.last()))
    }
}

/// The identifiers of the messages that a message replies or refers to.
pub open spec fn referred(in_reply_to: Seq<char>, references: Seq<char>) -> Seq<Seq<char>> {
    ids_among(words(in_reply_to) + words(references))
}

/// The identifiers of the messages that a message replies or refers to, in order.
pub fn referred_ids(mail: &ParsedMail) -> (r: Vec<String>)
    ensures
        texts(r@) == referred(mail.in_reply_to@, mail.references@),
{
    let mut all = split_words(mail.in_reply_to.as_str());
    let mut more = split_words(mail.references.as_str());
    let ghost a = all@;
    let ghost b = more@;
    all.append(&mut more);
    assert(texts(all@) =~= texts(a) + texts(b));
    let ghost ws = texts(all@);
    let mut out: Vec<String> = Vec::new();
    let mut i: usize = 0;
    assert(texts(out@) =~= ids_among(ws.take(0)));
    while i < all.len()
        invariant
            ws == texts(all@),
            i <= all@.len(),
            texts(out@) == ids_among(ws.take(i as int)),
        decreases all@.len() - i,
    {
        proof {
            assert(ws.take(i + 1).drop_last() == ws.take(i as int));
            assert(ws.take(i + 1).last() == all@[i as int]@);
        }
        let id = bare(all[i].as_str());
        if !id.as_str().is_empty() {
            assert(texts(out@.push(id)) =~= texts(out@).push(id@));
            out.push(id);
        }
        i += 1;
    }
    assert(ws.take(i as int) == ws);
    out
}

/// Whether a record has the identifier, or one that holds it or that it holds.
pub open spec fn akin(log: SendLog, id: Seq<char>) -> bool {
    match text_of(log.message_id) {
        Some(m) => occurs(m, id) || occurs(id, bare_id(m)),
        None => false,
    }
}

fn is_akin(log: &SendLog, id: &str) -> (r: bool)
    ensures
        r == akin(*log, id@),
{
    match &log.message_id {
        Some(m) => {
            if contains(m.as_str(), id) {
                return true;
            }
            let b = bare(m.as_str());
            contains(id, b.as_str())
        },
        None => false,
    }
}

/// The item of the first record with a kindred identifier.
pub open spec fn kindred_item(logs: Seq<SendLog>, id: Seq<char>) -> Option<i64>
    decreases logs.len(),
{
    if logs.len() == 0 {
        None
    } else if akin(logs[0], id) {
        Some(logs[0].item_id)
    } else {
        kindred_item(logs.drop_first(), id)
    }
}

fn find_kindred(logs: &Vec<SendLog>, id: &str) -> (r: Option<i64>)
    ensures
        r == kindred_item(logs@, id@),
{
    let mut i: usize = 0;
    assert(logs@.skip(0) == logs@);
    while i < logs.len()
        invariant
            i <= logs@.len(),
            kindred_item(logs@, id@) == kindred_item(logs@.skip(i as int), id@),
        decreases logs@.len() - i,
    {
        assert(logs@.skip(i as int).drop_first() == logs@.skip(i + 1));
        if is_akin(&logs[i], id) {
            return Some(logs[i].item_id);
        }
        i += 1;
    }
    None
}

/// A text without the occurrences of another.
pub open spec fn without(s: Seq<char>, p: Seq<char>) -> Seq<char>
    decreases s.len(),
{
    if s.len() == 0 {
        s
    } else if p.len() > 0 && stands_at(s, p, 0) {
        without(s.skip(p.len() as int), p)
    } else {
        seq![s[0]] + without(s.drop_first(), p)
    }
}

fn remove_all(s: &str, p: &str) -> (r: String)
    ensures
        r@ == without(s@, p@),
{
    let v = chars_of(s);
    let w = chars_of(p);
    let mut out = String::new();
    let mut i: usize = 0;
    assert(v@.skip(0) == v@);
    assert(out@ + without(v@, p@) == without(v@, p@));
    while i < v.len()
        invariant
            v@ == s@,
            w@ == p@,
            i <= v@.len(),
            out@ + without(v@.skip(i as int), p@) == without(s@, p@),
        decreases v@.len() - i,
    {
        let ghost rest = v@.skip(i as int);
        let here = matches_at(&v, &w, i);
        proof {
            if stands_at(v@, p@, i as int) {
                assert(rest.subrange(0, p@.len() as int) == p@);
            }
            if stands_at(rest, p@, 0) {
                assert(v@.subrange(i as int, i + p@.len()) == rest.subrange(0, p@.len() as int));
            }
        }
        if w.len() > 0 && here {
            assert(rest.skip(p@.len() as int) == v@.skip(i + p@.len()));
            i += w.len();
        } else {
            let c = v[i];
            assert(rest.drop_first() == v@.skip(i + 1));
            assert(out@ + (seq![c] + without(v@.skip(i + 1), p@)) == out@.push(c) + without(
                v@.skip(i + 1),
                p@,
            ));
            out.push(c);
            i += 1;
        }
    }
    assert(out@ + without(v@.skip(i as int), p@) == out@);
    out
}

/// Whether a subject holds that of a reminder, marks of a reply aside.
pub open spec fn subject_answers(subject: Seq<char>, reminder: Seq<char>) -> bool {
    reminder.len() > 0 && (occurs(subject, reminder) || occurs(
        trimmed(without(without(subject, "Re:"@), "RE:"@)),
        trimmed(reminder),
    ))
}

/// The item of the first record whose subject is answered.
pub open spec fn answered_item(logs: Seq<SendLog>, subject: Seq<char>) -> Option<i64>
    decreases logs.len(),
{
    if logs.len() == 0 {
        None
    } else if subject_answers(subject, logs[0].subject@) {
        Some(logs[0].item_id)
    } else {
        answered_item(logs.drop_first(), subject)
    }
}

fn find_answered(logs: &Vec<SendLog>, subject: &str) -> (r: Option<i64>)
    ensures
        r == answered_item(logs@, subject@),
{
    let a = remove_all(subject, "Re:");
    let b = remove_all(a.as_str(), "RE:");
    let plain = trim(b.as_str());
    let mut i: usize = 0;
    assert(logs@.skip(0) == logs@);
    while i < logs.len()
        invariant
            i <= logs@.len(),
            plain@ == trimmed(without(without(subject@, "Re:"@), "RE:"@)),
            answered_item(logs@, subject@) == answered_item(logs@.skip(i as int), subject@),
        decreases logs@.len() - i,
    {
        assert(logs@.skip(i as int).drop_first() == logs@.skip(i + 1));
        let s = logs[i].subject.as_str();
        if !s.is_empty() {
            let t = trim(s);
            if contains(subject, s) || contains(plain.as_str(), t.as_str()) {
                return Some(logs[i].item_id);
            }
        }
        i += 1;
    }
    None
}

/// The item of the first identifier that leads to one: by the record with that very identifier,
/// else by a kindred one.
pub open spec fn item_by_ids(
    ids: Seq<Seq<char>>,
    exact: Seq<Option<i64>>,
    logs: Seq<SendLog>,
) -> Option<i64>
    decreases ids.len(),
{
    if ids.len() == 0 {
        None
    } else {
        let front = item_by_ids(ids.drop_last(), exact, logs);
        if front is Some {
            front
        } else {
            let k = ids.len() - 1;
            if k < exact.len() && exact[k] is Some {
                exact[k]
            } else {
                kindred_item(logs, ids.last())
            }
        }
    }
}

/// The item that a message is about: by the messages that it refers to, else by its subject.
pub open spec fn reply_item(
    subject: Seq<char>,
    ids: Seq<Seq<char>>,
    exact: Seq<Option<i64>>,
    logs: Seq<SendLog>,
) -> Option<i64> {
    let by_ids = item_by_ids(ids, exact, logs);
    if by_ids is Some {
        by_ids
    } else {
        answered_item(logs, subject)
    }
}

/// The item that a message is about. `ids` are what the message refers to, `exact` the items of
/// the records with these very identifiers, `logs` the latest records.
pub fn match_reply(
    subject: &str,
    ids: &Vec<String>,
    exact: &Vec<Option<i64>>,
    logs: &Vec<SendLog>,
) -> (r: Option<i64>)
    ensures
        r == reply_item(subject@, texts(ids@), exact@, logs@),
{
    let ghost all = texts(ids@);
    let mut found: Option<i64> = None;
    let mut i: usize = 0;
    while i < ids.len()
        invariant
            all == texts(ids@),
            i <= ids@.len(),
            found == item_by_ids(all.take(i as int), exact@, logs@),
        decreases ids@.len() - i,
    {
        proof {
            assert(all.take(i + 1).drop_last() == all.take(i as int));
            assert(all.take(i + 1).last() == ids@[i as int]@);
        }
        if found.is_none() {
            if i < exact.len() && exact[i].is_some() {
                found = exact[i];
            } else {
                found = find_kindred(logs, ids[i].as_str());
            }
        }
        i += 1;
    }
    assert(all.take(i as int) == all);
    if found.is_some() {
        found
    } else {
        find_answered(logs, subject)
    }
}

/// The words for something done.
pub open spec fn done_words() -> Seq<&'static str> {
    seq!["已完成", "已经完成", "已参加", "已完成请查收"]
}

/// The English words for something done.
pub open spec fn done_words_english() -> Seq<&'static str> {
    seq!["done", "completed", "finished"]
}

/// The words for no more reminders.
pub open spec fn silent_words() -> Seq<&'static str> {
    seq!["不再提醒", "取消提醒", "别发了", "不用提醒", "不需要提醒", "停止提醒"]
}

/// The English words for no more reminders.
pub open spec fn silent_words_english() -> Seq<&'static str> {
    seq!["no more reminder", "stop reminding", "unsubscribe"]
}

/// What the words of a reply ask for; done comes first.
pub open spec fn worded_intent(text: Seq<char>) -> ReplyIntent {
    if any_occurs(text, done_words()) || any_occurs(lower_text(text), done_words_english()) {
        ReplyIntent::Done
    } else if any_occurs(text, silent_words()) || any_occurs(
        lower_text(text),
        silent_words_english(),
    ) {
        ReplyIntent::Silent
    } else {
        ReplyIntent::Unclear
    }
}

/// Subject and body as one text.
pub open spec fn full_text(subject: Seq<char>, body: Seq<char>) -> Seq<char> {
    subject + " "@ + body
}

fn full_text_of(subject: &str, body: &str) -> (r: String)
    ensures
        r@ == full_text(subject@, body@),
{
    let mut out = subject.to_owned();
    out.append(" ");
    out.append(body);
    out
}

/// What the words of a reply ask for; the model is asked only where they do not tell.
pub fn keyword_intent(mail: &ParsedMail) -> (r: ReplyIntent)
    ensures
        r == worded_intent(full_text(mail.subject@, mail.body_text@)),
{
    let text = full_text_of(mail.subject.as_str(), mail.body_text.as_str());
    let low = to_lower(text.as_str());
    let done = ["已完成", "已经完成", "已参加", "已完成请查收"];
    let done_en = ["done", "completed", "finished"];
    let silent = ["不再提醒", "取消提醒", "别发了", "不用提醒", "不需要提醒", "停止提醒"];
    let silent_en = ["no more reminder", "stop reminding", "unsubscribe"];
    assert(done@ =~= done_words());
    assert(done_en@ =~= done_words_english());
    assert(silent@ =~= silent_words());
    assert(silent_en@ =~= silent_words_english());
    if contains_any(text.as_str(), &done) || contains_any(low.as_str(), &done_en) {
        ReplyIntent::Done
    } else if contains_any(text.as_str(), &silent) || contains_any(low.as_str(), &silent_en) {
        ReplyIntent::Silent
    } else {
        ReplyIntent::Unclear
    }
}

/// The status that a reply gives the item that it is about; nothing where it is not clear what
/// the reply asks for.
pub open spec fn status_after(intent: ReplyIntent) -> Option<ItemStatus> {
    match intent {
        ReplyIntent::Done => Some(ItemStatus::Completed),
        ReplyIntent::Silent => Some(ItemStatus::Silent),
        ReplyIntent::Unclear => None,
    }
}

/// What becomes of the item that a reply is about: its new status; nothing where it is not clear
/// what the reply asks for.
pub fn reply_status(intent: ReplyIntent) -> (r: Option<ItemStatus>)
    ensures
        r == status_after(intent),
{
    match intent {
        ReplyIntent::Done => Some(ItemStatus::Completed),
        ReplyIntent::Silent => Some(ItemStatus::Silent),
        ReplyIntent::Unclear => None,
    }
}

/// The words in a subject for an answer to something done before: results, surveys, receipts.
pub open spec fn feedback_words() -> Seq<&'static str> {
    seq![
        "问卷",
        "调研",
        "反馈",
        "感谢信",
        "感谢",
        "谢谢",
        "结果通知",
        "面试结果",
        "笔试结果",
        "测评结果",
        "投递成功",
        "投递反馈",
        "已投递",
        "收到您的简历",
        "简历已收到",
        "简历接收",
        "申请进度",
        "进度通知",
        "流程通知",
        "筛选通过",
        "通过初筛",
        "笔试通过",
        "测评通过",
        "面试通过",
        "录用通知",
        "offer",
    ]
}

/// The words in a subject for something that is arranged.
pub open spec fn schedule_words() -> Seq<&'static str> {
    seq![
        "邀请",
        "预约",
        "安排",
        "参加",
        "确认",
        "时间",
        "链接",
        "报名",
        "开始",
        "待办",
        "提醒",
        "笔试通知",
        "面试通知",
    ]
}

/// Whether a subject is that of an answer to something done before.
pub open spec fn feedback(subject: Seq<char>) -> bool {
    any_occurs(subject, feedback_words()) && !any_occurs(subject, schedule_words())
}

/// Whether a subject is that of an answer to something done before.
pub fn is_feedback_email(subject: &str) -> (r: bool)
    ensures
        r == feedback(subject@),
{
    let marks = [
        "问卷",
        "调研",
        "反馈",
        "感谢信",
        "感谢",
        "谢谢",
        "结果通知",
        "面试结果",
        "笔试结果",
        "测评结果",
        "投递成功",
        "投递反馈",
        "已投递",
        "收到您的简历",
        "简历已收到",
        "简历接收",
        "申请进度",
        "进度通知",
        "流程通知",
        "筛选通过",
        "通过初筛",
        "笔试通过",
        "测评通过",
        "面试通过",
        "录用通知",
        "offer",
    ];
    let schedule = [
        "邀请",
        "预约",
        "安排",
        "参加",
        "确认",
        "时间",
        "链接",
        "报名",
        "开始",
        "待办",
        "提醒",
        "笔试通知",
        "面试通知",
    ];
    assert(marks@ =~= feedback_words());
    assert(schedule@ =~= schedule_words());
    contains_any(subject, &marks) && !contains_any(subject, &schedule)
}

/// The words in a subject for a time.
pub open spec fn time_words() -> Seq<&'static str> {
    seq![
        "小时",
        "日内",
        "日前",
        "截止",
        "时间",
        "日期",
        "24H",
        "48H",
        "72H",
        "24h",
        "48h",
        "72h",
    ]
}

/// The zone in which times in subjects are looked for; only whether there is one counts.
pub const SUBJECT_ZONE: &'static str = "Asia/Shanghai";

/// Whether a subject tells a time.
pub open spec fn tells_time(subject: Seq<char>, now: Stamp) -> bool {
    relative_hint(subject) is Some || explicit_time(subject, SUBJECT_ZONE@, now) is Some
        || any_occurs(subject, time_words())
}

/// Whether a subject tells a time, for a reader at the moment `now`.
pub fn subject_has_time(subject: &str, now: &Stamp) -> (r: bool)
    ensures
        r == tells_time(subject@, *now),
{
    if match_relative_hint(subject).is_some() {
        return true;
    }
    let zone = Zone { name: SUBJECT_ZONE.to_owned() };
    if parse_human_datetime_at(subject, &zone, now).is_some() {
        return true;
    }
    let list = [
        "小时",
        "日内",
        "日前",
        "截止",
        "时间",
        "日期",
        "24H",
        "48H",
        "72H",
        "24h",
        "48h",
        "72h",
    ];
    assert(list@ =~= time_words());
    contains_any(subject, &list)
}

/// The words for a recruiting event or a call to apply.
pub open spec fn promo_words() -> Seq<&'static str> {
    seq!["宣讲会", "双选会", "网申推荐", "投递邀请"]
}

/// The words in a subject for something that one attends.
pub open spec fn attended_words() -> Seq<&'static str> {
    seq!["面试", "笔试", "测评"]
}

/// Whether mail promotes a recruiting event or calls to apply.
pub open spec fn promo(subject: Seq<char>, body: Seq<char>) -> bool {
    any_occurs(subject, promo_words()) || (any_occurs(body, promo_words()) && !any_occurs(
        subject,
        attended_words(),
    ))
}

/// Whether mail promotes a recruiting event or calls to apply: its subject says so, or its body
/// does and the subject names no interview, test or assessment.
pub fn is_promo_email(subject: &str, body: &str) -> (r: bool)
    ensures
        r == promo(subject@, body@),
{
    let marks = ["宣讲会", "双选会", "网申推荐", "投递邀请"];
    let attended = ["面试", "笔试", "测评"];
    assert(marks@ =~= promo_words());
    assert(attended@ =~= attended_words());
    contains_any(subject, &marks) || (contains_any(body, &marks) && !contains_any(
        subject,
        &attended,
    ))
}

/// What the rules say of how mail was classified.
#[derive(Clone, Copy, Debug, PartialEq, Eq, Structural)]
pub enum Verdict {
    Keep,
    /// It is a promotion, and never something to do.
    Promo,
    /// It answers something done before, and is for information.
    Feedback,
}

/// What the rules say of mail that was classified. A promotion is told by its words, or by what
/// the mail was classified as.
pub open spec fn verdict(
    subject: Seq<char>,
    body: Seq<char>,
    category: Seq<char>,
    now: Stamp,
) -> Verdict {
    if promo(subject, body) || category == CATEGORY_CAREER_PROMO@ {
        Verdict::Promo
    } else if feedback(subject) && !tells_time(subject, now) && (core_action(category) || category
        == CATEGORY_TODO@) {
        Verdict::Feedback
    } else {
        Verdict::Keep
    }
}

/// The category that mail is given in the end.
pub open spec fn settled_category(v: Verdict, category: Seq<char>) -> Seq<char> {
    match v {
        Verdict::Keep => category,
        Verdict::Promo => CATEGORY_CAREER_PROMO@,
        Verdict::Feedback => CATEGORY_NOTIFICATION@,
    }
}

/// What the rules say of mail that was classified, and the category that it is given in the end.
pub fn settle_category(subject: &str, body: &str, category: &str, now: &Stamp) -> (r: (
    Verdict,
    String,
))
    ensures
        r.0 == verdict(subject@, body@, category@, *now),
        r.1@ == settled_category(r.0, category@),
{
    if is_promo_email(subject, body) || same(category, CATEGORY_CAREER_PROMO) {
        return (Verdict::Promo, CATEGORY_CAREER_PROMO.to_owned());
    }
    if (is_core_action(category) || same(category, CATEGORY_TODO)) && is_feedback_email(subject)
        && !subject_has_time(subject, now) {
        return (Verdict::Feedback, CATEGORY_NOTIFICATION.to_owned());
    }
    (Verdict::Keep, category.to_owned())
}

/// Whether an item that the agent made of the mail is taken back: of a promotion any; of an
/// answer one without a deadline.
pub open spec fn revoked(v: Verdict, item: Item) -> bool {
    match v {
        Verdict::Keep => false,
        Verdict::Promo => true,
        Verdict::Feedback => item.kind == ItemKind::Todo && item.deadline is None,
    }
}

/// Whether an item that the agent made of the mail is taken back.
pub fn revokes(v: Verdict, item: &Item) -> (r: bool)
    ensures
        r == revoked(v, *item),
{
    match v {
        Verdict::Keep => false,
        Verdict::Promo => true,
        Verdict::Feedback => match item.kind {
            ItemKind::Todo => item.deadline.is_none(),
            ItemKind::Notification => false,
        },
    }
}

/// Whether mail of a category can be something to do: the category makes items, of that kind. A
/// category that is not known does where it is the one for things to do. Promotions never are.
pub open spec fn makes_todo(stored: Option<CategoryInfo>, category: Seq<char>) -> bool {
    category != CATEGORY_CAREER_PROMO@ && match stored {
        Some(c) => c.create_item && c.kind@ == "todo"@,
        None => category == CATEGORY_TODO@,
    }
}

/// Whether mail of a category can be something to do.
pub fn can_make_todo(stored: &Option<CategoryInfo>, category: &str) -> (r: bool)
    ensures
        r == makes_todo(*stored, category@),
{
    if same(category, CATEGORY_CAREER_PROMO) {
        return false;
    }
    match stored {
        Some(c) => c.create_item && same(c.kind.as_str(), "todo"),
        None => same(category, CATEGORY_TODO),
    }
}

/// What the agent says of something to do.
pub open spec fn agent_todo(v: Json, subject: Seq<char>) -> TodoView {
    let text = |key: Seq<char>| match text_field(v, key) {
        Some(t) => trimmed(t),
        None => Seq::empty(),
    };
    (
        text("party"@),
        text("event"@),
        if text("title"@).len() == 0 {
            subject
        } else {
            text("title"@)
        },
        valid_time(text_field(v, "deadline"@)),
        None,
        text("notes"@),
    )
}

fn trimmed_text_at(v: &Json, key: &str) -> (r: String)
    ensures
        r@ == match text_field(*v, key@) {
            Some(t) => trimmed(t),
            None => Seq::empty(),
        },
{
    match v.text_at(key) {
        Some(t) => trim(t.as_str()),
        None => String::new(),
    }
}

/// What the agent says of something to do: what is missing is empty, the title is the subject
/// then, and a deadline that is no RFC 3339 time is none.
pub fn todo_from_json(v: &Json, subject: &str) -> (r: TodoExtract)
    ensures
        todo_view(r) == agent_todo(*v, subject@),
{
    let title = trimmed_text_at(v, "title");
    let r = TodoExtract {
        party: trimmed_text_at(v, "party"),
        event: trimmed_text_at(v, "event"),
        title: if title.as_str().is_empty() {
            subject.to_owned()
        } else {
            title
        },
        deadline: keep_valid_time(v.text_at("deadline")),
        category: None,
        notes: trimmed_text_at(v, "notes"),
    };
    r
}

/// Notes with one more.
pub open spec fn noted(notes: Seq<char>, note: Option<Seq<char>>) -> Seq<char> {
    match note {
        None => notes,
        Some(n) => if blank(notes) {
            n
        } else {
            trimmed(notes) + "\n"@ + n
        },
    }
}

fn add_note(notes: &String, note: Option<String>) -> (r: String)
    ensures
        r@ == noted(notes@, text_of(note)),
{
    match note {
        None => notes.clone(),
        Some(n) => {
            if is_blank(notes.as_str()) {
                n
            } else {
                let mut out = trim(notes.as_str());
                out.append("\n");
                out.append(n.as_str());
                out
            }
        },
    }
}

/// Whether a text is of a link or a right that lapses, with no action that is asked for in time.
pub open spec fn lapses(text: Seq<char>) -> bool {
    expiry_hint(text) is Some && action_hint(text) is None
}

/// Whether a text is of a link or a right that lapses.
pub fn is_lapsing(text: &str) -> (r: bool)
    ensures
        r == lapses(text@),
{
    match_link_expiry_hint(text).is_some() && match_action_hint(text).is_none()
}

/// The deadline of a mail, and the note on where it comes from.
pub open spec fn mail_deadline(
    email: EmailRecord,
    existing: Option<Seq<char>>,
    zone: Seq<char>,
    now: Stamp,
) -> (Option<Seq<char>>, Option<Seq<char>>) {
    inferred(
        full_text(email.subject@, email.body_text@),
        existing,
        if email.sent_at@.len() == 0 {
            None
        } else {
            Some(email.sent_at@)
        },
        Some(email.received_at@),
        zone,
        now,
    )
}

/// The deadline of a mail, and the note on where it comes from.
pub fn infer_mail_deadline(
    email: &EmailRecord,
    existing: Option<String>,
    zone: &Zone,
    now: &Stamp,
) -> (r: (Option<String>, Option<String>))
    ensures
        (text_of(r.0), text_of(r.1)) == mail_deadline(*email, text_of(existing), zone@, *now),
{
    let text = full_text_of(email.subject.as_str(), email.body_text.as_str());
    let sent = if email.sent_at.as_str().is_empty() {
        None
    } else {
        Some(email.sent_at.as_str())
    };
    infer_deadline_at(
        text.as_str(),
        existing,
        sent,
        Some(email.received_at.as_str()),
        zone,
        now,
    )
}

/// The first reminder of an item.
pub open spec fn first_reminder(item: Item, cfg: AppConfig, now: Seq<char>) -> Option<Seq<char>> {
    let plan = remind_plan(item, cfg, now);
    if plan.len() == 0 {
        None
    } else {
        Some(plan[0])
    }
}

/// The policy of an item, from its deadline and the text that it comes from.
pub open spec fn text_policy(deadline: Option<Seq<char>>, text: Seq<char>, now: Seq<char>) -> Seq<
    char,
> {
    policy(deadline, lapses(text), now)
}

/// Sets when an item is reminded of: the policy, and with it the first reminder.
pub fn set_reminders(item: &mut Item, lapsing: bool, cfg: &AppConfig, now: &str)
    ensures
        *final(item) == (Item {
            remind_policy: final(item).remind_policy,
            remind_at: final(item).remind_at,
            ..*old(item)
        }),
        final(item).remind_policy@ == policy(text_of(old(item).deadline), lapsing, now@),
        text_of(final(item).remind_at) == first_reminder(*final(item), *cfg, now@),
{
    let p = match &item.deadline {
        Some(d) => decide_remind_policy(Some(d.as_str()), lapsing, now),
        None => decide_remind_policy(None, lapsing, now),
    };
    item.remind_policy = p;
    let plan = reminder_times_at(item, cfg, now);
    let ghost planned = remind_plan(*item, *cfg, now@);
    assert(texts(plan@).len() == plan@.len());
    let ghost before = *item;
    let first = if plan.len() == 0 {
        None
    } else {
        assert(texts(plan@)[0] == plan@[0]@);
        Some(plan[0].clone())
    };
    item.remind_at = first;
    proof {
        same_plan(before, *item, *cfg, now@);
    }
}

/// When an item is reminded of does not depend on what it says of that.
pub proof fn same_plan(a: Item, b: Item, cfg: AppConfig, now: Seq<char>)
    requires
        a.deadline == b.deadline,
        a.remind_policy == b.remind_policy,
        a.created_at == b.created_at,
    ensures
        remind_plan(a, cfg, now) == remind_plan(b, cfg, now),
{
}

/// Whether an item is the one that a mail makes.
pub open spec fn item_of_mail(
    it: Item,
    ex: TodoView,
    email: EmailRecord,
    email_id: i64,
    category: Seq<char>,
    cfg: AppConfig,
    now: Stamp,
    now_text: Seq<char>,
) -> bool {
    let text = full_text(email.subject@, email.body_text@);
    let (deadline, note) = mail_deadline(email, ex.3, cfg.timezone@, now);
    &&& it.id == 0
    &&& it.kind == ItemKind::Todo
    &&& it.title@ == if blank(ex.2) {
        email.subject@
    } else {
        ex.2
    }
    &&& it.party@ == ex.0
    &&& it.event@ == clamped(ex.1)
    &&& it.category@ == match ex.4 {
        Some(c) if c.len() > 0 => c,
        _ => category,
    }
    &&& text_of(it.deadline) == deadline
    &&& it.remind_policy@ == text_policy(deadline, text, now_text)
    &&& text_of(it.remind_at) == first_reminder(it, cfg, now_text)
    &&& it.needs_review == (deadline is None)
    &&& it.status == ItemStatus::Active
    &&& it.source_email_id == Some(email_id)
    &&& it.account_id == email.account_id
    &&& it.notes@ == noted(ex.5, note)
    &&& it.created_at@ == now_text
    &&& it.updated_at@ == now_text
}

/// The item that a mail makes; `category` is where it goes unless what was extracted says
/// otherwise.
pub fn item_from_extract(
    ex: &TodoExtract,
    email: &EmailRecord,
    email_id: i64,
    category: &str,
    cfg: &AppConfig,
    now: &Stamp,
    now_text: &str,
) -> (r: Item)
    ensures
        item_of_mail(
            r,
            todo_view(*ex),
            *email,
            email_id,
            category@,
            *cfg,
            *now,
            now_text@,
        ),
{
    let (deadline, note) = infer_mail_deadline(email, copy_text(&ex.deadline), &cfg.timezone, now);
    let text = full_text_of(email.subject.as_str(), email.body_text.as_str());
    let lapsing = is_lapsing(text.as_str());
    let title = if is_blank(ex.title.as_str()) {
        email.subject.clone()
    } else {
        ex.title.clone()
    };
    let place = match &ex.category {
        Some(c) => {
            if c.as_str().is_empty() {
                category.to_owned()
            } else {
                c.clone()
            }
        },
        None => category.to_owned(),
    };
    let needs_review = deadline.is_none();
    let mut item = Item {
        id: 0,
        kind: ItemKind::Todo,
        title,
        party: ex.party.clone(),
        event: clamp_event(ex.event.as_str()),
        category: place,
        deadline,
        remind_at: None,
        remind_policy: String::new(),
        needs_review,
        status: ItemStatus::Active,
        source_email_id: Some(email_id),
        account_id: email.account_id,
        notes: add_note(&ex.notes, note),
        created_at: now_text.to_owned(),
        updated_at: now_text.to_owned(),
    };
    set_reminders(&mut item, lapsing, cfg, now_text);
    item
}

/// Whether an item is made of mail of a category: of the core ones always, of others where there
/// is a deadline.
pub fn worth_making(category: &str, item: &Item) -> (r: bool)
    ensures
        r == (core_action(category@) || item.deadline is Some),
{
    is_core_action(category) || item.deadline.is_some()
}

/// The item that mail of a category makes, if any. Interviews, tests and assessments always make
/// one; other mail does where it has a deadline.
pub fn ensure_item(
    ex: &TodoExtract,
    email: &EmailRecord,
    email_id: i64,
    category: &str,
    cfg: &AppConfig,
    now: &Stamp,
    now_text: &str,
) -> (r: Option<Item>)
    ensures
        r is Some == (core_action(category@) || mail_deadline(
            *email,
            text_of(ex.deadline),
            cfg.timezone@,
            *now,
        ).0 is Some),
        r matches Some(it) ==> item_of_mail(
            it,
            todo_view(*ex),
            *email,
            email_id,
            category@,
            *cfg,
            *now,
            now_text@,
        ),
{
    let item = item_from_extract(ex, email, email_id, category, cfg, now, now_text);
    if worth_making(category, &item) {
        Some(item)
    } else {
        None
    }
}

/// Whether an item is another one with the deadline that its mail gives filled in.
pub open spec fn filled(
    r: Option<Item>,
    item: Item,
    email: EmailRecord,
    cfg: AppConfig,
    now: Stamp,
    now_text: Seq<char>,
) -> bool {
    let text = full_text(email.subject@, email.body_text@);
    let (deadline, note) = mail_deadline(email, None, cfg.timezone@, now);
    if item.kind != ItemKind::Todo || item.deadline is Some {
        r is None
    } else if deadline is Some {
        r matches Some(it) && it == (Item {
            deadline: it.deadline,
            remind_policy: it.remind_policy,
            remind_at: it.remind_at,
            notes: it.notes,
            needs_review: false,
            updated_at: it.updated_at,
            ..item
        }) && text_of(it.deadline) == deadline && it.remind_policy@ == text_policy(
            deadline,
            text,
            now_text,
        ) && text_of(it.remind_at) == first_reminder(it, cfg, now_text) && it.notes@ == noted(
            item.notes@,
            note,
        ) && it.updated_at@ == now_text
    } else if !item.needs_review {
        r matches Some(it) && it == (Item {
            needs_review: true,
            updated_at: it.updated_at,
            ..item
        }) && it.updated_at@ == now_text
    } else {
        r is None
    }
}

/// The item with the deadline that its mail gives, where it is something to do and has none; with
/// the mark that one is missing where the mail gives none. Nothing where the item stays as it is.
pub fn fill_missing_deadline(
    item: &Item,
    email: &EmailRecord,
    cfg: &AppConfig,
    now: &Stamp,
    now_text: &str,
) -> (r: Option<Item>)
    ensures
        filled(r, *item, *email, *cfg, *now, now_text@),
{
    match item.kind {
        ItemKind::Todo => {},
        ItemKind::Notification => return None,
    }
    if item.deadline.is_some() {
        return None;
    }
    let (deadline, note) = infer_mail_deadline(email, None, &cfg.timezone, now);
    if deadline.is_some() {
        let text = full_text_of(email.subject.as_str(), email.body_text.as_str());
        let lapsing = is_lapsing(text.as_str());
        let mut out = item.clone();
        out.deadline = deadline;
        out.notes = add_note(&item.notes, note);
        out.needs_review = false;
        out.updated_at = now_text.to_owned();
        set_reminders(&mut out, lapsing, cfg, now_text);
        Some(out)
    } else if !item.needs_review {
        let mut out = item.clone();
        out.needs_review = true;
        out.updated_at = now_text.to_owned();
        Some(out)
    } else {
        None
    }
}

/// Whether a time between two moments is at most a day, either way.
pub open spec fn day_apart_at_most(gap: (i64, i32)) -> bool {
    (-DAY < gap.0 < DAY) || ((gap.0 == DAY || gap.0 == -DAY) && gap.1 == 0)
}

/// Whether two deadlines can be of one occasion: a day apart at most, or not both there.
pub open spec fn one_occasion(a: Option<Seq<char>>, b: Option<Seq<char>>) -> bool {
    match (a, b) {
        (Some(x), Some(y)) => match (stamp_of(x), stamp_of(y)) {
            (Some(t), Some(u)) => match moment_gap(t.secs, t.nanos, u.secs, u.nanos) {
                Some(g) => day_apart_at_most(g),
                None => false,
            },
            _ => x == y,
        },
        _ => true,
    }
}

fn is_one_occasion(a: &Option<String>, b: &Option<String>) -> (r: bool)
    ensures
        r == one_occasion(text_of(*a), text_of(*b)),
{
    match (a, b) {
        (Some(x), Some(y)) => match (Stamp::parse(x.as_str()), Stamp::parse(y.as_str())) {
            (Some(t), Some(u)) => match t.since(&u) {
                Some(g) => (-DAY < g.0 && g.0 < DAY) || ((g.0 == DAY || g.0 == -DAY) && g.1 == 0),
                None => false,
            },
            _ => same(x.as_str(), y.as_str()),
        },
        _ => true,
    }
}

/// Whether an item can take up another: both are active things to do of one account.
pub open spec fn can_take_up(old: Item, new: Item) -> bool {
    &&& old.id != new.id
    &&& old.account_id == new.account_id
    &&& old.status == ItemStatus::Active
    &&& old.kind == ItemKind::Todo
    &&& new.kind == ItemKind::Todo
    &&& one_occasion(text_of(old.deadline), text_of(new.deadline))
}

/// Whether two items are of one matter: one party, one category, one occasion.
pub open spec fn one_matter(old: Item, new: Item) -> bool {
    &&& can_take_up(old, new)
    &&& !blank(new.party@)
    &&& trimmed(old.party@) == trimmed(new.party@)
    &&& old.category@ == new.category@
}

fn is_able_to_take_up(old_item: &Item, new: &Item) -> (r: bool)
    ensures
        r == can_take_up(*old_item, *new),
{
    let active = match old_item.status {
        ItemStatus::Active => true,
        _ => false,
    };
    let todo = match (old_item.kind, new.kind) {
        (ItemKind::Todo, ItemKind::Todo) => true,
        _ => false,
    };
    old_item.id != new.id && old_item.account_id == new.account_id && active && todo
        && is_one_occasion(&old_item.deadline, &new.deadline)
}

fn is_one_matter(old_item: &Item, new: &Item) -> (r: bool)
    ensures
        r == one_matter(*old_item, *new),
{
    if !is_able_to_take_up(old_item, new) || is_blank(new.party.as_str()) {
        return false;
    }
    let a = trim(old_item.party.as_str());
    let b = trim(new.party.as_str());
    same(a.as_str(), b.as_str()) && same(old_item.category.as_str(), new.category.as_str())
}

/// The first item of the mail that this one repeats, else the first of the same matter.
pub open spec fn is_target(old: Item, new: Item, repeated: Option<i64>) -> bool {
    (repeated == Some(old.id) && can_take_up(old, new)) || one_matter(old, new)
}

/// The first item that takes up the new one.
pub open spec fn target(items: Seq<Item>, new: Item, repeated: Option<i64>) -> Option<int>
    decreases items.len(),
{
    if items.len() == 0 {
        None
    } else if is_target(items[0], new, repeated) {
        Some(0)
    } else {
        match target(items.drop_first(), new, repeated) {
            Some(i) => Some(i + 1),
            None => None,
        }
    }
}

/// The item among the given ones that takes up the new one: the item of earlier mail with the
/// same subject and sender (`repeated`), or one of the same matter.
pub fn merge_target(items: &Vec<Item>, new: &Item, repeated: Option<i64>) -> (r: Option<usize>)
    ensures
        match r {
            Some(i) => target(items@, *new, repeated) == Some(i as int) && i < items@.len()
                && is_target(items@[i as int], *new, repeated),
            None => target(items@, *new, repeated) is None,
        },
{
    let mut i: usize = 0;
    assert(items@.skip(0) == items@);
    while i < items.len()
        invariant
            i <= items@.len(),
            target(items@, *new, repeated) == (match target(
                items@.skip(i as int),
                *new,
                repeated,
            ) {
                Some(k) => Some(k + i),
                None => None,
            }),
        decreases items@.len() - i,
    {
        assert(items@.skip(i as int).drop_first() == items@.skip(i + 1));
        let it = &items[i];
        let named = match repeated {
            Some(id) => id == it.id,
            None => false,
        };
        if (named && is_able_to_take_up(it, new)) || is_one_matter(it, new) {
            return Some(i);
        }
        i += 1;
    }
    None
}

/// Whether an item is what two of one matter come to: the older one with what the newer one says,
/// and the deadline of the older where the newer has none.
pub open spec fn merged(
    r: Item,
    old: Item,
    new: Item,
    cfg: AppConfig,
    now: Seq<char>,
) -> bool {
    let deadline = if new.deadline is Some {
        new.deadline
    } else {
        old.deadline
    };
    let lapsing = if new.deadline is Some {
        new.remind_policy@ == crate::model::remind_policy::LINK_EXPIRY@
    } else {
        old.remind_policy@ == crate::model::remind_policy::LINK_EXPIRY@
    };
    &&& r == (Item {
        id: old.id,
        deadline,
        remind_at: r.remind_at,
        remind_policy: r.remind_policy,
        needs_review: deadline is None,
        status: old.status,
        notes: r.notes,
        created_at: old.created_at,
        updated_at: r.updated_at,
        ..new
    })
    &&& r.remind_policy@ == policy(text_of(deadline), lapsing, now)
    &&& text_of(r.remind_at) == first_reminder(r, cfg, now)
    &&& r.notes@ == if blank(new.notes@) {
        old.notes@
    } else {
        new.notes@
    }
    &&& r.updated_at@ == now
}

/// What two items of one matter come to: the latest mail counts.
pub fn merge_items(old_item: &Item, new: &Item, cfg: &AppConfig, now: &str) -> (r: Item)
    ensures
        merged(r, *old_item, *new, *cfg, now@),
{
    let mut out = new.clone();
    out.id = old_item.id;
    out.status = old_item.status;
    out.created_at = old_item.created_at.clone();
    out.updated_at = now.to_owned();
    if is_blank(new.notes.as_str()) {
        out.notes = old_item.notes.clone();
    }
    let lapsing = if new.deadline.is_some() {
        same(new.remind_policy.as_str(), crate::model::remind_policy::LINK_EXPIRY)
    } else {
        same(old_item.remind_policy.as_str(), crate::model::remind_policy::LINK_EXPIRY)
    };
    if new.deadline.is_none() {
        out.deadline = copy_text(&old_item.deadline);
    }
    out.needs_review = out.deadline.is_none();
    set_reminders(&mut out, lapsing, cfg, now);
    out
}

/// Whether reminders that did not go out are dropped: the deadline is another one.
pub fn deadline_moved(before: &Item, after: &Item) -> (r: bool)
    ensures
        r == (text_of(before.deadline) != text_of(after.deadline)),
{
    match (&before.deadline, &after.deadline) {
        (Some(a), Some(b)) => !same(a.as_str(), b.as_str()),
        (None, None) => false,
        _ => true,
    }
}

/// What the agent came to for a mail.
#[derive(Debug)]
pub struct AgentSaid {
    /// The category that it names, where that is one that is kept.
    pub category: Option<String>,
    pub rounds: usize,
    pub approvals: usize,
}

/// What happened to a mail.
#[derive(Debug)]
pub enum MailEvent {
    /// It was stored, unless it was there already.
    Stored(bool),
    /// It was read as a reply to a reminder, if it is one.
    Replied(Option<ReplyIntent>),
    /// The agent is done; nothing where it failed.
    AgentDone(Option<AgentSaid>),
    /// It was classified; nothing where that failed.
    Classified(Option<String>),
    /// It has its place; whether it has an item.
    Placed(bool),
}

/// What is done with a mail next.
#[derive(Debug)]
pub enum MailAction {
    ReadReply,
    RunAgent,
    Classify,
    /// It is given a category, and an item where it makes one.
    Place(String),
    Finish,
}

/// What is done with a mail next, as it is seen in contracts.
pub enum MailActionView {
    ReadReply,
    RunAgent,
    Classify,
    Place(Seq<char>),
    Finish,
}

/// An action as it is seen in contracts.
pub open spec fn action_view(a: MailAction) -> MailActionView {
    match a {
        MailAction::ReadReply => MailActionView::ReadReply,
        MailAction::RunAgent => MailActionView::RunAgent,
        MailAction::Classify => MailActionView::Classify,
        MailAction::Place(c) => MailActionView::Place(c@),
        MailAction::Finish => MailActionView::Finish,
    }
}

/// What follows something that happened to a mail.
pub open spec fn next_action(event: MailEvent, agent_enabled: bool) -> MailActionView {
    match event {
        MailEvent::Stored(new) => if new {
            MailActionView::ReadReply
        } else {
            MailActionView::Finish
        },
        MailEvent::Replied(_) => if agent_enabled {
            MailActionView::RunAgent
        } else {
            MailActionView::Classify
        },
        MailEvent::AgentDone(said) => match said {
            Some(AgentSaid { category: Some(c), .. }) => MailActionView::Place(c@),
            _ => MailActionView::Classify,
        },
        MailEvent::Classified(answer) => match answer {
            Some(c) => MailActionView::Place(c@),
            None => MailActionView::Place(CATEGORY_MISC@),
        },
        MailEvent::Placed(_) => MailActionView::Finish,
    }
}

/// One where something holds.
pub open spec fn one_if(b: bool) -> int {
    if b {
        1
    } else {
        0
    }
}

/// Whether a reply asks for something.
pub open spec fn asks(intent: Option<ReplyIntent>) -> bool {
    intent == Some(ReplyIntent::Done) || intent == Some(ReplyIntent::Silent)
}

/// What something that happened to a mail adds to a report: new mail, replies, rounds and
/// approvals of the agent, mail that could not be classified, mail that has a category, and items.
pub open spec fn added(
    event: MailEvent,
) -> (int, int, int, int, int, int, int) {
    match event {
        MailEvent::Stored(new) => (one_if(new), 0, 0, 0, 0, 0, 0),
        MailEvent::Replied(intent) => (0, one_if(asks(intent)), 0, 0, 0, 0, 0),
        MailEvent::AgentDone(said) => match said {
            Some(s) => (0, 0, s.rounds as int, s.approvals as int, 0, 0, 0),
            None => (0, 0, 0, 0, 0, 0, 0),
        },
        MailEvent::Classified(answer) => (0, 0, 0, 0, one_if(answer is None), 0, 0),
        MailEvent::Placed(item) => (0, 0, 0, 0, 0, 1, one_if(item)),
    }
}

/// Whether a report can count something more.
pub open spec fn counts(report: RunReport, event: MailEvent) -> bool {
    let (new, replies, rounds, approvals, misc, placed, items) = added(event);
    &&& report.new_emails + new <= usize::MAX
    &&& report.replies_handled + replies <= usize::MAX
    &&& report.items_updated + replies <= usize::MAX
    &&& report.tool_rounds + rounds <= usize::MAX
    &&& report.approvals_created + approvals <= usize::MAX
    &&& report.llm_fallback_misc + misc <= usize::MAX
    &&& report.classified + placed <= usize::MAX
    &&& report.items_created + items <= usize::MAX
}

/// A report that counts something more.
pub open spec fn counted(report: RunReport, event: MailEvent) -> RunReport {
    let (new, replies, rounds, approvals, misc, placed, items) = added(event);
    RunReport {
        new_emails: (report.new_emails + new) as usize,
        replies_handled: (report.replies_handled + replies) as usize,
        items_updated: (report.items_updated + replies) as usize,
        tool_rounds: (report.tool_rounds + rounds) as usize,
        approvals_created: (report.approvals_created + approvals) as usize,
        llm_fallback_misc: (report.llm_fallback_misc + misc) as usize,
        classified: (report.classified + placed) as usize,
        items_created: (report.items_created + items) as usize,
        ..report
    }
}

/// What follows something that happened to a mail, and the report that counts it: new mail is
/// read as a reply, then handed to the agent, then to the classifier where the agent names no
/// category, and ends in a place, which is the one for the rest where nothing else was found.
pub fn step(event: MailEvent, agent_enabled: bool, report: &mut RunReport) -> (r: MailAction)
    requires
        counts(*old(report), event),
    ensures
        action_view(r) == next_action(event, agent_enabled),
        *final(report) == counted(*old(report), event),
{
    match event {
        MailEvent::Stored(new) => {
            if new {
                report.new_emails = report.new_emails + 1;
                MailAction::ReadReply
            } else {
                MailAction::Finish
            }
        },
        MailEvent::Replied(intent) => {
            let wanted = match intent {
                Some(ReplyIntent::Done) | Some(ReplyIntent::Silent) => true,
                _ => false,
            };
            if wanted {
                report.items_updated = report.items_updated + 1;
                report.replies_handled = report.replies_handled + 1;
            }
            if agent_enabled {
                MailAction::RunAgent
            } else {
                MailAction::Classify
            }
        },
        MailEvent::AgentDone(said) => match said {
            Some(s) => {
                report.tool_rounds = report.tool_rounds + s.rounds;
                report.approvals_created = report.approvals_created + s.approvals;
                match s.category {
                    Some(c) => MailAction::Place(c),
                    None => MailAction::Classify,
                }
            },
            None => MailAction::Classify,
        },
        MailEvent::Classified(answer) => match answer {
            Some(c) => MailAction::Place(c),
            None => {
                report.llm_fallback_misc = report.llm_fallback_misc + 1;
                MailAction::Place(CATEGORY_MISC.to_owned())
            },
        },
        MailEvent::Placed(item) => {
            report.classified = report.classified + 1;
            if item {
                report.items_created = report.items_created + 1;
            }
            MailAction::Finish
        },
    }
}

/// Where what an item says comes from.
#[derive(Clone, Copy, Debug, PartialEq, Eq, Structural)]
pub enum Source {
    /// No item is made.
    Nothing,
    /// The agent said it.
    Agent,
    /// The model is asked to extract it.
    Extract,
}

/// Where what an item says comes from. Mail that has an item gets no second one.
pub fn item_source(
    has_item: bool,
    stored: &Option<CategoryInfo>,
    category: &str,
    agent_said: bool,
) -> (r: Source)
    ensures
        r == source_of(has_item, *stored, category@, agent_said),
{
    if has_item || !can_make_todo(stored, category) {
        Source::Nothing
    } else if agent_said {
        Source::Agent
    } else {
        Source::Extract
    }
}

/// Where what an item says comes from, for mail that may have an item.
pub open spec fn source_of(
    has_item: bool,
    stored: Option<CategoryInfo>,
    category: Seq<char>,
    agent_said: bool,
) -> Source {
    if has_item || !makes_todo(stored, category) {
        Source::Nothing
    } else if agent_said {
        Source::Agent
    } else {
        Source::Extract
    }
}

/// What is done about the item that mail has when its category is settled.
#[derive(Clone, Copy, Debug, PartialEq, Eq, Structural)]
pub struct Opening {
    /// The item that the agent made of it is taken back.
    pub revoke: bool,
    /// Where what a new item says comes from.
    pub source: Source,
}

/// What is done about the item that mail has when its category is settled: it may be taken back,
/// and where none is left one may be made.
pub fn open_place(
    v: Verdict,
    had: &Option<Item>,
    stored: &Option<CategoryInfo>,
    category: &str,
    agent_said: bool,
) -> (r: Opening)
    ensures
        r.revoke == (*had matches Some(it) && revoked(v, it)),
        r.source == source_of(had is Some && !r.revoke, *stored, category@, agent_said),
{
    let revoke = match had {
        Some(it) => revokes(v, it),
        None => false,
    };
    let source = item_source(had.is_some() && !revoke, stored, category, agent_said);
    Opening { revoke, source }
}

/// What becomes of the item of a mail.
#[derive(Debug)]
pub enum Outcome {
    /// There is none, or it stays as it is.
    Nothing,
    Insert(Item),
    Save(Item),
    /// Another item takes it up.
    Merge(Merge),
}

/// An item that takes up the item of a mail.
#[derive(Debug)]
pub struct Merge {
    /// Its place among the given ones.
    pub into: usize,
    /// What it comes to.
    pub item: Item,
    /// Whether its reminders that did not go out are dropped.
    pub drop_unsent: bool,
}

/// Whether an item is made of what is known of a mail.
pub open spec fn is_made(
    ex: Option<TodoExtract>,
    email: EmailRecord,
    category: Seq<char>,
    cfg: AppConfig,
    now: Stamp,
) -> bool {
    ex matches Some(e) && (core_action(category) || mail_deadline(
        email,
        text_of(e.deadline),
        cfg.timezone@,
        now,
    ).0 is Some)
}

/// Whether an item is the one that a mail begins with: the one that it has, else the one that is
/// made of it.
pub open spec fn begins(
    item: Item,
    kept: Option<Item>,
    ex: Option<TodoExtract>,
    email: EmailRecord,
    category: Seq<char>,
    cfg: AppConfig,
    now: Stamp,
    now_text: Seq<char>,
) -> bool {
    match kept {
        Some(it) => item == it,
        None => is_made(ex, email, category, cfg, now) && item_of_mail(
            item,
            todo_view(ex->0),
            email,
            email.id,
            category,
            cfg,
            now,
            now_text,
        ),
    }
}

/// Whether an item is another one with what its mail fills in, or just that one.
pub open spec fn completes(
    full: Item,
    item: Item,
    email: EmailRecord,
    cfg: AppConfig,
    now: Stamp,
    now_text: Seq<char>,
) -> bool {
    filled(Some(full), item, email, cfg, now, now_text) || (filled(
        None,
        item,
        email,
        cfg,
        now,
        now_text,
    ) && full == item)
}

/// Whether that becomes of an item: another takes it up, or else it is stored where it is new
/// and saved where something was filled in.
pub open spec fn ends(
    r: Outcome,
    full: Item,
    new: bool,
    changed: bool,
    items: Seq<Item>,
    repeated: Option<i64>,
    cfg: AppConfig,
    now_text: Seq<char>,
) -> bool {
    match target(items, full, repeated) {
        Some(i) => r matches Outcome::Merge(m) && m.into == i && merged(
            m.item,
            items[i],
            full,
            cfg,
            now_text,
        ) && m.drop_unsent == (text_of(items[i].deadline) != text_of(m.item.deadline)),
        None => if new {
            r == Outcome::Insert(full)
        } else if changed {
            r == Outcome::Save(full)
        } else {
            r is Nothing
        },
    }
}

/// What becomes of the item of a mail. `kept` is the item that the mail has; where it has none,
/// one may be made of what is known (`ex`). A deadline that is missing is filled in. Of the other
/// `items` one may take it up: that of earlier mail with the same subject and sender (`repeated`),
/// or one of the same matter.
pub fn place_item(
    kept: &Option<Item>,
    ex: &Option<TodoExtract>,
    email: &EmailRecord,
    category: &str,
    items: &Vec<Item>,
    repeated: Option<i64>,
    cfg: &AppConfig,
    now: &Stamp,
    now_text: &str,
) -> (r: Outcome)
    ensures
        kept is None && !is_made(*ex, *email, category@, *cfg, *now) ==> r is Nothing,
        kept is Some || is_made(*ex, *email, category@, *cfg, *now) ==> exists|
            item: Item,
            full: Item,
        |
            begins(item, *kept, *ex, *email, category@, *cfg, *now, now_text@)
                && #[trigger] completes(full, item, *email, *cfg, *now, now_text@) && ends(
                r,
                full,
                kept is None,
                !filled(None, item, *email, *cfg, *now, now_text@),
                items@,
                repeated,
                *cfg,
                now_text@,
            ),
{
    let item = match kept {
        Some(it) => it.clone(),
        None => match ex {
            Some(e) => match ensure_item(e, email, email.id, category, cfg, now, now_text) {
                Some(it) => it,
                None => return Outcome::Nothing,
            },
            None => return Outcome::Nothing,
        },
    };
    let ghost start = item;
    assert(begins(start, *kept, *ex, *email, category@, *cfg, *now, now_text@));
    let (full, changed) = match fill_missing_deadline(&item, email, cfg, now, now_text) {
        Some(it) => (it, true),
        None => (item, false),
    };
    assert(completes(full, start, *email, *cfg, *now, now_text@));
    assert(changed == !filled(None, start, *email, *cfg, *now, now_text@));
    let r = match merge_target(items, &full, repeated) {
        Some(into) => {
            let merged_item = merge_items(&items[into], &full, cfg, now_text);
            let drop_unsent = deadline_moved(&items[into], &merged_item);
            Outcome::Merge(Merge { into, item: merged_item, drop_unsent })
        },
        None => if kept.is_none() {
            Outcome::Insert(full)
        } else if changed {
            Outcome::Save(full)
        } else {
            Outcome::Nothing
        },
    };
    assert(ends(
        r,
        full,
        kept is None,
        !filled(None, start, *email, *cfg, *now, now_text@),
        items@,
        repeated,
        *cfg,
        now_text@,
    ));
    r
}

/// What is kept of up to where the mail of an account was seen: nothing where only some of the
/// mail was taken.
pub open spec fn moved_cursor(
    opts: ProcessOpts,
    account_id: i64,
    greatest: Option<u32>,
) -> Option<(Seq<char>, Seq<char>)> {
    match greatest {
        Some(uid) if opts.limit is None && opts.since is None && opts.advance_cursor => Some(
            (cursor_key(account_id), decimal(uid as nat)),
        ),
        _ => None,
    }
}

/// Under which name which value is kept of up to where the mail of an account was seen.
pub fn cursor_update(opts: &ProcessOpts, account_id: i64, greatest: Option<u32>) -> (r: Option<
    (String, String),
>)
    ensures
        match r {
            Some((k, v)) => moved_cursor(*opts, account_id, greatest) == Some((k@, v@)),
            None => moved_cursor(*opts, account_id, greatest) is None,
        },
{
    if opts.limit.is_some() || opts.since.is_some() || !opts.advance_cursor {
        return None;
    }
    match greatest {
        Some(uid) => Some((last_uid_key(account_id), show_u64(uid as u64))),
        None => None,
    }
}

/// Whether a check follows: there was new mail, and checks are not turned off.
pub fn check_follows(opts: &ProcessOpts, report: &RunReport) -> (r: bool)
    ensures
        r == (opts.run_check && report.new_emails > 0),
{
    opts.run_check && report.new_emails > 0
}

/// Adds what a check did to the report of a batch.
pub fn merge_report(dst: &mut RunReport, src: RunReport)
    requires
        old(dst).missed_compensated + src.missed_compensated <= usize::MAX,
        old(dst).reminders_sent + src.reminders_sent <= usize::MAX,
        old(dst).reminders_failed + src.reminders_failed <= usize::MAX,
        old(dst).retries + src.retries <= usize::MAX,
        old(dst).expired + src.expired <= usize::MAX,
    ensures
        *final(dst) == (RunReport {
            missed_compensated: (old(dst).missed_compensated + src.missed_compensated) as usize,
            reminders_sent: (old(dst).reminders_sent + src.reminders_sent) as usize,
            reminders_failed: (old(dst).reminders_failed + src.reminders_failed) as usize,
            retries: (old(dst).retries + src.retries) as usize,
            expired: (old(dst).expired + src.expired) as usize,
            ..*old(dst)
        }),
{
    dst.missed_compensated = dst.missed_compensated + src.missed_compensated;
    dst.reminders_sent = dst.reminders_sent + src.reminders_sent;
    dst.reminders_failed = dst.reminders_failed + src.reminders_failed;
    dst.retries = dst.retries + src.retries;
    dst.expired = dst.expired + src.expired;
}

/// Every new mail ends in a place, whatever the agent and the classifier answer.
pub proof fn every_mail_is_placed(
    intent: Option<ReplyIntent>,
    said: Option<AgentSaid>,
    answer: Option<String>,
    agent_enabled: bool,
)
    ensures
        next_action(MailEvent::Stored(true), agent_enabled) is ReadReply,
        next_action(MailEvent::Replied(intent), agent_enabled) is RunAgent
            || next_action(MailEvent::Replied(intent), agent_enabled) is Classify,
        next_action(MailEvent::AgentDone(said), agent_enabled) is Place
            || next_action(MailEvent::AgentDone(said), agent_enabled) is Classify,
        next_action(MailEvent::Classified(answer), agent_enabled) is Place,
        next_action(MailEvent::AgentDone(None), agent_enabled) is Classify,
        next_action(MailEvent::Classified(None), agent_enabled) == MailActionView::Place(
            CATEGORY_MISC@,
        ),
{
}

/// A reply with words for something done, or for no more reminders, ends the reminders of the item
/// that it is about: the item gets another status, and in that no reminder of it goes out.
pub proof fn a_reply_ends_the_reminders(
    text: Seq<char>,
    item: Item,
    logs: Seq<SendLog>,
    cfg: AppConfig,
    now: Stamp,
    now_text: Seq<char>,
)
    requires
        any_occurs(text, done_words()) || any_occurs(text, silent_words()),
    ensures
        any_occurs(text, done_words()) ==> status_after(worded_intent(text)) == Some(
            ItemStatus::Completed,
        ),
        status_after(worded_intent(text)) matches Some(status) && chosen(
            Item { status, ..item },
            logs,
            cfg,
            now,
            now_text,
        ) is None,
{
}

/// Mail that promotes a recruiting event, by its words or by its category, is never something to
/// do, and nothing that was made of it stays.
pub proof fn promotions_are_never_to_do(
    subject: Seq<char>,
    body: Seq<char>,
    category: Seq<char>,
    now: Stamp,
    stored: Option<CategoryInfo>,
    item: Item,
)
    requires
        promo(subject, body) || category == CATEGORY_CAREER_PROMO@,
    ensures
        settled_category(verdict(subject, body, category, now), category) == CATEGORY_CAREER_PROMO@,
        !makes_todo(stored, settled_category(verdict(subject, body, category, now), category)),
        revoked(verdict(subject, body, category, now), item),
        source_of(false, stored, CATEGORY_CAREER_PROMO@, true) is Nothing,
        source_of(false, stored, CATEGORY_CAREER_PROMO@, false) is Nothing,
{
}

/// An answer that tells no time is not something to do, whatever it was taken for, as long as
/// notifications are kept as such.
pub proof fn answers_are_not_to_do(
    subject: Seq<char>,
    body: Seq<char>,
    category: Seq<char>,
    now: Stamp,
    stored: Option<CategoryInfo>,
)
    requires
        feedback(subject),
        !tells_time(subject, now),
        core_action(category) || category == CATEGORY_TODO@,
        stored matches Some(c) ==> c.kind@ != "todo"@ || !c.create_item,
    ensures
        !makes_todo(stored, settled_category(verdict(subject, body, category, now), category)),
{
    reveal_strlit("notification");
    reveal_strlit("todo");
    assert("notification"@.len() != "todo"@.len());
}

proof fn target_is_found(items: Seq<Item>, new: Item, repeated: Option<i64>, i: int)
    requires
        0 <= i < items.len(),
        is_target(items[i], new, repeated),
    ensures
        target(items, new, repeated) is Some,
    decreases items.len(),
{
    if !is_target(items[0], new, repeated) {
        assert(items.drop_first()[i - 1] == items[i]);
        target_is_found(items.drop_first(), new, repeated, i - 1);
    }
}

/// Mail of one matter makes one item: where an item of the same party, category and occasion is
/// there, or one of earlier mail that this mail repeats, that one takes up what the mail says, and
/// no other is stored.
pub proof fn one_matter_makes_one_item(
    r: Outcome,
    full: Item,
    new: bool,
    changed: bool,
    items: Seq<Item>,
    repeated: Option<i64>,
    cfg: AppConfig,
    now_text: Seq<char>,
    i: int,
)
    requires
        ends(r, full, new, changed, items, repeated, cfg, now_text),
        0 <= i < items.len(),
        is_target(items[i], full, repeated),
    ensures
        r is Merge,
{
    target_is_found(items, full, repeated, i);
}

/// What is more than a day apart stays apart: such items are never merged.
pub proof fn occasions_stay_apart(old: Item, new: Item, repeated: Option<i64>)
    requires
        !one_occasion(text_of(old.deadline), text_of(new.deadline)),
    ensures
        !is_target(old, new, repeated),
{
}

/// What is merged keeps its identity and its age, and loses no deadline.
pub proof fn merging_keeps_identity(r: Item, old: Item, new: Item, cfg: AppConfig, now: Seq<char>)
    requires
        merged(r, old, new, cfg, now),
    ensures
        r.id == old.id,
        r.created_at == old.created_at,
        r.status == old.status,
        old.deadline is Some || new.deadline is Some ==> r.deadline is Some && !r.needs_review,
{
}

/// Where only the latest mail is taken, or mail from a moment on, the place up to which mail was
/// seen does not move: nothing is skipped for good.
pub proof fn partial_batches_skip_nothing(opts: ProcessOpts, account_id: i64, greatest: Option<u32>)
    requires
        opts.limit is Some || opts.since is Some,
    ensures
        moved_cursor(opts, account_id, greatest) is None,
{
}

/// What was kept of up to where the mail of an account was seen is where the next batch starts.
pub proof fn next_batch_starts_after(
    opts: ProcessOpts,
    next: ProcessOpts,
    account_id: i64,
    uid: u32,
    common: Option<Seq<char>>,
)
    requires
        moved_cursor(opts, account_id, Some(uid)) is Some,
        next.since is None,
    ensures
        moved_cursor(opts, account_id, Some(uid)) matches Some((_, v)) && fetched_above(
            next.since,
            Some(v),
            common,
        ) == Some(uid as int),
{
    decimal_reads_back(uid as nat);
}

} // verus!
