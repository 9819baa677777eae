//! What is stored, as JSON.

use crate::json::add_element;
use crate::json::arr_view;
use crate::json::elements;
use crate::json::members;
use crate::json::opt_int;
use crate::json::opt_text;
use crate::json::put;
use crate::json::put_opt_int;
use crate::json::put_opt_text;
use crate::json::put_text;
use crate::json::view_of;
use crate::json::Json;
use crate::json::JsonView;
use crate::model::mask;
use crate::model::masked;
use crate::model::Approval;
use crate::model::CategoryInfo;
use crate::model::EmailRecord;
use crate::model::Item;
use crate::model::MailAccount;
use crate::model::RunReport;
use crate::model::SendLog;
use crate::number::decimal;
use crate::number::show_u64;
use crate::text::text_of;
use vstd::prelude::*;

verus! {

/// A count.
pub open spec fn count_view(n: usize) -> JsonView {
    if n <= i64::MAX {
        JsonView::Int(n as i64)
    } else {
        JsonView::Number(decimal(n as nat))
    }
}

/// A count.
pub fn count_json(n: usize) -> (r: Json)
    ensures
        view_of(r) == count_view(n),
{
    if n as u64 <= 9223372036854775807 {
        Json::Int(n as i64)
    } else {
        Json::Number(show_u64(n as u64))
    }
}

/// A stored mail in full.
pub open spec fn email_record(e: EmailRecord) -> JsonView {
    JsonView::Obj(
        members()
        .push(("id"@, JsonView::Int(e.id)))
        .push(("uid"@, opt_int(e.uid)))
        .push(("message_id"@, JsonView::Str(e.message_id@)))
        .push(("subject"@, JsonView::Str(e.subject@)))
        .push(("from_addr"@, JsonView::Str(e.from_addr@)))
        .push(("from_name"@, JsonView::Str(e.from_name@)))
        .push(("body_text"@, JsonView::Str(e.body_text@)))
        .push(("category"@, JsonView::Str(e.category@)))
        .push(("sent_at"@, JsonView::Str(e.sent_at@)))
        .push(("received_at"@, JsonView::Str(e.received_at@)))
        .push(("item_id"@, opt_int(e.item_id)))
        .push(("reply_to_item_id"@, opt_int(e.reply_to_item_id)))
        .push(("account_id"@, JsonView::Int(e.account_id)))
        .push(("handled"@, JsonView::Bool(e.handled)))
        .push(("user_label"@, JsonView::Str(e.user_label@)))
        .push(("user_note"@, JsonView::Str(e.user_note@))),
    )
}

/// A stored mail in full.
pub fn email_json(e: &EmailRecord) -> (r: Json)
    ensures
        view_of(r) == email_record(*e),
{
    let mut m: Vec<(String, Json)> = Vec::new();
    put(&mut m, "id", Json::Int(e.id));
    put_opt_int(&mut m, "uid", &e.uid);
    put_text(&mut m, "message_id", e.message_id.as_str());
    put_text(&mut m, "subject", e.subject.as_str());
    put_text(&mut m, "from_addr", e.from_addr.as_str());
    put_text(&mut m, "from_name", e.from_name.as_str());
    put_text(&mut m, "body_text", e.body_text.as_str());
    put_text(&mut m, "category", e.category.as_str());
    put_text(&mut m, "sent_at", e.sent_at.as_str());
    put_text(&mut m, "received_at", e.received_at.as_str());
    put_opt_int(&mut m, "item_id", &e.item_id);
    put_opt_int(&mut m, "reply_to_item_id", &e.reply_to_item_id);
    put(&mut m, "account_id", Json::Int(e.account_id));
    put(&mut m, "handled", Json::Bool(e.handled));
    put_text(&mut m, "user_label", e.user_label.as_str());
    put_text(&mut m, "user_note", e.user_note.as_str());
    Json::Obj(m)
}

/// An item in full.
pub open spec fn item_record(it: Item) -> JsonView {
    JsonView::Obj(
        members()
        .push(("id"@, JsonView::Int(it.id)))
        .push(("kind"@, JsonView::Str(it.kind.name())))
        .push(("title"@, JsonView::Str(it.title@)))
        .push(("party"@, JsonView::Str(it.party@)))
        .push(("event"@, JsonView::Str(it.event@)))
        .push(("category"@, JsonView::Str(it.category@)))
        .push(("deadline"@, opt_text(text_of(it.deadline))))
        .push(("remind_at"@, opt_text(text_of(it.remind_at))))
        .push(("remind_policy"@, JsonView::Str(it.remind_policy@)))
        .push(("needs_review"@, JsonView::Bool(it.needs_review)))
        .push(("status"@, JsonView::Str(it.status.name())))
        .push(("source_email_id"@, opt_int(it.source_email_id)))
        .push(("account_id"@, JsonView::Int(it.account_id)))
        .push(("notes"@, JsonView::Str(it.notes@)))
        .push(("created_at"@, JsonView::Str(it.created_at@)))
        .push(("updated_at"@, JsonView::Str(it.updated_at@))),
    )
}

/// An item in full.
pub fn item_json(it: &Item) -> (r: Json)
    ensures
        view_of(r) == item_record(*it),
{
    let mut m: Vec<(String, Json)> = Vec::new();
    put(&mut m, "id", Json::Int(it.id));
    put_text(&mut m, "kind", it.kind.as_str());
    put_text(&mut m, "title", it.title.as_str());
    put_text(&mut m, "party", it.party.as_str());
    put_text(&mut m, "event", it.event.as_str());
    put_text(&mut m, "category", it.category.as_str());
    put_opt_text(&mut m, "deadline", &it.deadline);
    put_opt_text(&mut m, "remind_at", &it.remind_at);
    put_text(&mut m, "remind_policy", it.remind_policy.as_str());
    put(&mut m, "needs_review", Json::Bool(it.needs_review));
    put_text(&mut m, "status", it.status.as_str());
    put_opt_int(&mut m, "source_email_id", &it.source_email_id);
    put(&mut m, "account_id", Json::Int(it.account_id));
    put_text(&mut m, "notes", it.notes.as_str());
    put_text(&mut m, "created_at", it.created_at.as_str());
    put_text(&mut m, "updated_at", it.updated_at.as_str());
    Json::Obj(m)
}

/// A reminder in full.
pub open spec fn send_log_record(l: SendLog) -> JsonView {
    JsonView::Obj(
        members()
        .push(("id"@, JsonView::Int(l.id)))
        .push(("item_id"@, JsonView::Int(l.item_id)))
        .push(("attempt"@, JsonView::Int(l.attempt)))
        .push(("kind"@, JsonView::Str(l.kind@)))
        .push(("to_addr"@, JsonView::Str(l.to_addr@)))
        .push(("subject"@, JsonView::Str(l.subject@)))
        .push(("body"@, JsonView::Str(l.body@)))
        .push(("status"@, JsonView::Str(l.status.name())))
        .push(("error"@, opt_text(text_of(l.error))))
        .push(("scheduled_at"@, JsonView::Str(l.scheduled_at@)))
        .push(("sent_at"@, opt_text(text_of(l.sent_at))))
        .push(("next_retry_at"@, opt_text(text_of(l.next_retry_at))))
        .push(("message_id"@, opt_text(text_of(l.message_id)))),
    )
}

/// A reminder in full.
pub fn send_log_json(l: &SendLog) -> (r: Json)
    ensures
        view_of(r) == send_log_record(*l),
{
    let mut m: Vec<(String, Json)> = Vec::new();
    put(&mut m, "id", Json::Int(l.id));
    put(&mut m, "item_id", Json::Int(l.item_id));
    put(&mut m, "attempt", Json::Int(l.attempt));
    put_text(&mut m, "kind", l.kind.as_str());
    put_text(&mut m, "to_addr", l.to_addr.as_str());
    put_text(&mut m, "subject", l.subject.as_str());
    put_text(&mut m, "body", l.body.as_str());
    put_text(&mut m, "status", l.status.as_str());
    put_opt_text(&mut m, "error", &l.error);
    put_text(&mut m, "scheduled_at", l.scheduled_at.as_str());
    put_opt_text(&mut m, "sent_at", &l.sent_at);
    put_opt_text(&mut m, "next_retry_at", &l.next_retry_at);
    put_opt_text(&mut m, "message_id", &l.message_id);
    Json::Obj(m)
}

/// A request in full.
pub open spec fn approval_record(a: Approval) -> JsonView {
    JsonView::Obj(
        members()
        .push(("id"@, JsonView::Int(a.id)))
        .push(("tool_name"@, JsonView::Str(a.tool_name@)))
        .push(("payload_json"@, JsonView::Str(a.payload_json@)))
        .push(("summary"@, JsonView::Str(a.summary@)))
        .push(("status"@, JsonView::Str(a.status@)))
        .push(("source_email_id"@, opt_int(a.source_email_id)))
        .push(("decided_at"@, opt_text(text_of(a.decided_at))))
        .push(("created_at"@, JsonView::Str(a.created_at@))),
    )
}

/// A request in full.
pub fn approval_json(a: &Approval) -> (r: Json)
    ensures
        view_of(r) == approval_record(*a),
{
    let mut m: Vec<(String, Json)> = Vec::new();
    put(&mut m, "id", Json::Int(a.id));
    put_text(&mut m, "tool_name", a.tool_name.as_str());
    put_text(&mut m, "payload_json", a.payload_json.as_str());
    put_text(&mut m, "summary", a.summary.as_str());
    put_text(&mut m, "status", a.status.as_str());
    put_opt_int(&mut m, "source_email_id", &a.source_email_id);
    put_opt_text(&mut m, "decided_at", &a.decided_at);
    put_text(&mut m, "created_at", a.created_at.as_str());
    Json::Obj(m)
}

/// A category, without when it was made.
pub open spec fn category_record(c: CategoryInfo) -> JsonView {
    JsonView::Obj(
        members()
        .push(("id"@, JsonView::Str(c.id@)))
        .push(("label"@, JsonView::Str(c.label@)))
        .push(("create_item"@, JsonView::Bool(c.create_item)))
        .push(("kind"@, JsonView::Str(c.kind@)))
        .push(("source"@, JsonView::Str(c.source@))),
    )
}

/// A category, without when it was made.
pub fn category_json(c: &CategoryInfo) -> (r: Json)
    ensures
        view_of(r) == category_record(*c),
{
    let mut m: Vec<(String, Json)> = Vec::new();
    put_text(&mut m, "id", c.id.as_str());
    put_text(&mut m, "label", c.label.as_str());
    put(&mut m, "create_item", Json::Bool(c.create_item));
    put_text(&mut m, "kind", c.kind.as_str());
    put_text(&mut m, "source", c.source.as_str());
    Json::Obj(m)
}

/// An account as it is shown: a password is masked.
pub open spec fn account_record(a: MailAccount) -> JsonView {
    JsonView::Obj(
        members()
        .push(("id"@, JsonView::Int(a.id)))
        .push(("label"@, JsonView::Str(a.label@)))
        .push(("address"@, JsonView::Str(a.address@)))
        .push(("imap_host"@, JsonView::Str(a.imap_host@)))
        .push(("imap_port"@, JsonView::Int(a.imap_port as i64)))
        .push(("imap_user"@, JsonView::Str(a.imap_user@)))
        .push(("imap_password"@, JsonView::Str(masked(a.imap_password@))))
        .push(("imap_tls_insecure"@, JsonView::Bool(a.imap_tls_insecure)))
        .push(("smtp_host"@, JsonView::Str(a.smtp_host@)))
        .push(("smtp_port"@, JsonView::Int(a.smtp_port as i64)))
        .push(("smtp_user"@, JsonView::Str(a.smtp_user@)))
        .push(("smtp_password"@, JsonView::Str(masked(a.smtp_password@))))
        .push(("smtp_tls_insecure"@, JsonView::Bool(a.smtp_tls_insecure)))
        .push(("enabled"@, JsonView::Bool(a.enabled)))
        .push(("is_default"@, JsonView::Bool(a.is_default)))
        .push(("reminder_to"@, JsonView::Str(a.reminder_to@)))
        .push(("created_at"@, JsonView::Str(a.created_at@)))
        .push(("updated_at"@, JsonView::Str(a.updated_at@))),
    )
}

/// An account as it is shown: a password is masked.
pub fn account_json(a: &MailAccount) -> (r: Json)
    ensures
        view_of(r) == account_record(*a),
{
    let mut m: Vec<(String, Json)> = Vec::new();
    put(&mut m, "id", Json::Int(a.id));
    put_text(&mut m, "label", a.label.as_str());
    put_text(&mut m, "address", a.address.as_str());
    put_text(&mut m, "imap_host", a.imap_host.as_str());
    put(&mut m, "imap_port", Json::Int(a.imap_port as i64));
    put_text(&mut m, "imap_user", a.imap_user.as_str());
    let p = mask(&a.imap_password);
    put_text(&mut m, "imap_password", p.as_str());
    put(&mut m, "imap_tls_insecure", Json::Bool(a.imap_tls_insecure));
    put_text(&mut m, "smtp_host", a.smtp_host.as_str());
    put(&mut m, "smtp_port", Json::Int(a.smtp_port as i64));
    put_text(&mut m, "smtp_user", a.smtp_user.as_str());
    let p = mask(&a.smtp_password);
    put_text(&mut m, "smtp_password", p.as_str());
    put(&mut m, "smtp_tls_insecure", Json::Bool(a.smtp_tls_insecure));
    put(&mut m, "enabled", Json::Bool(a.enabled));
    put(&mut m, "is_default", Json::Bool(a.is_default));
    put_text(&mut m, "reminder_to", a.reminder_to.as_str());
    put_text(&mut m, "created_at", a.created_at.as_str());
    put_text(&mut m, "updated_at", a.updated_at.as_str());
    Json::Obj(m)
}

/// A report.
pub open spec fn report_record(p: RunReport) -> JsonView {
    JsonView::Obj(
        members()
        .push(("fetched"@, count_view(p.fetched)))
        .push(("new_emails"@, count_view(p.new_emails)))
        .push(("classified"@, count_view(p.classified)))
        .push(("items_created"@, count_view(p.items_created)))
        .push(("items_updated"@, count_view(p.items_updated)))
        .push(("reminders_sent"@, count_view(p.reminders_sent)))
        .push(("reminders_failed"@, count_view(p.reminders_failed)))
        .push(("retries"@, count_view(p.retries)))
        .push(("missed_compensated"@, count_view(p.missed_compensated)))
        .push(("replies_handled"@, count_view(p.replies_handled)))
        .push(("llm_fallback_misc"@, count_view(p.llm_fallback_misc)))
        .push(("expired"@, count_view(p.expired)))
        .push(("tool_rounds"@, count_view(p.tool_rounds)))
        .push(("approvals_created"@, count_view(p.approvals_created))),
    )
}

/// A report.
pub fn report_json(p: &RunReport) -> (r: Json)
    ensures
        view_of(r) == report_record(*p),
{
    let mut m: Vec<(String, Json)> = Vec::new();
    put(&mut m, "fetched", count_json(p.fetched));
    put(&mut m, "new_emails", count_json(p.new_emails));
    put(&mut m, "classified", count_json(p.classified));
    put(&mut m, "items_created", count_json(p.items_created));
    put(&mut m, "items_updated", count_json(p.items_updated));
    put(&mut m, "reminders_sent", count_json(p.reminders_sent));
    put(&mut m, "reminders_failed", count_json(p.reminders_failed));
    put(&mut m, "retries", count_json(p.retries));
    put(&mut m, "missed_compensated", count_json(p.missed_compensated));
    put(&mut m, "replies_handled", count_json(p.replies_handled));
    put(&mut m, "llm_fallback_misc", count_json(p.llm_fallback_misc));
    put(&mut m, "expired", count_json(p.expired));
    put(&mut m, "tool_rounds", count_json(p.tool_rounds));
    put(&mut m, "approvals_created", count_json(p.approvals_created));
    Json::Obj(m)
}

/// All of them, in order.
pub open spec fn emails_view(list: Seq<EmailRecord>) -> Seq<JsonView> {
    list.map_values(|e: EmailRecord| email_record(e))
}

/// All of them, in order.
pub fn emails_json(list: &Vec<EmailRecord>) -> (r: Json)
    ensures
        view_of(r) == JsonView::Arr(emails_view(list@)),
{
    let mut out: Vec<Json> = Vec::new();
    let mut i: usize = 0;
    let ghost all = emails_view(list@);
    assert(all.take(0) =~= elements());
    while i < list.len()
        invariant
            i <= list@.len(),
            all == emails_view(list@),
            arr_view(out@) == all.take(i as int),
        decreases list@.len() - i,
    {
        add_element(&mut out, email_json(&list[i]));
        assert(all.take(i + 1) =~= all.take(i as int).push(all[i as int]));
        i += 1;
    }
    assert(all.take(i as int) =~= all);
    Json::Arr(out)
}

/// All of them, in order.
pub open spec fn items_view(list: Seq<Item>) -> Seq<JsonView> {
    list.map_values(|it: Item| item_record(it))
}

/// All of them, in order.
pub fn items_json(list: &Vec<Item>) -> (r: Json)
    ensures
        view_of(r) == JsonView::Arr(items_view(list@)),
{
    let mut out: Vec<Json> = Vec::new();
    let mut i: usize = 0;
    let ghost all = items_view(list@);
    assert(all.take(0) =~= elements());
    while i < list.len()
        invariant
            i <= list@.len(),
            all == items_view(list@),
            arr_view(out@) == all.take(i as int),
        decreases list@.len() - i,
    {
        add_element(&mut out, item_json(&list[i]));
        assert(all.take(i + 1) =~= all.take(i as int).push(all[i as int]));
        i += 1;
    }
    assert(all.take(i as int) =~= all);
    Json::Arr(out)
}

/// All of them, in order.
pub open spec fn send_logs_view(list: Seq<SendLog>) -> Seq<JsonView> {
    list.map_values(|l: SendLog| send_log_record(l))
}

/// All of them, in order.
pub fn send_logs_json(list: &Vec<SendLog>) -> (r: Json)
    ensures
        view_of(r) == JsonView::Arr(send_logs_view(list@)),
{
    let mut out: Vec<Json> = Vec::new();
    let mut i: usize = 0;
    let ghost all = send_logs_view(list@);
    assert(all.take(0) =~= elements());
    while i < list.len()
        invariant
            i <= list@.len(),
            all == send_logs_view(list@),
            arr_view(out@) == all.take(i as int),
        decreases list@.len() - i,
    {
        add_element(&mut out, send_log_json(&list[i]));
        assert(all.take(i + 1) =~= all.take(i as int).push(all[i as int]));
        i += 1;
    }
    assert(all.take(i as int) =~= all);
    Json::Arr(out)
}

/// All of them, in order.
pub open spec fn approvals_view(list: Seq<Approval>) -> Seq<JsonView> {
    list.map_values(|a: Approval| approval_record(a))
}

/// All of them, in order.
pub fn approvals_json(list: &Vec<Approval>) -> (r: Json)
    ensures
        view_of(r) == JsonView::Arr(approvals_view(list@)),
{
    let mut out: Vec<Json> = Vec::new();
    let mut i: usize = 0;
    let ghost all = approvals_view(list@);
    assert(all.take(0) =~= elements());
    while i < list.len()
        invariant
            i <= list@.len(),
            all == approvals_view(list@),
            arr_view(out@) == all.take(i as int),
        decreases list@.len() - i,
    {
        add_element(&mut out, approval_json(&list[i]));
        assert(all.take(i + 1) =~= all.take(i as int).push(all[i as int]));
        i += 1;
    }
    assert(all.take(i as int) =~= all);
    Json::Arr(out)
}

/// All of them, in order.
pub open spec fn categories_view(list: Seq<CategoryInfo>) -> Seq<JsonView> {
    list.map_values(|c: CategoryInfo| category_record(c))
}

/// All of them, in order.
pub fn categories_json(list: &Vec<CategoryInfo>) -> (r: Json)
    ensures
        view_of(r) == JsonView::Arr(categories_view(list@)),
{
    let mut out: Vec<Json> = Vec::new();
    let mut i: usize = 0;
    let ghost all = categories_view(list@);
    assert(all.take(0) =~= elements());
    while i < list.len()
        invariant
            i <= list@.len(),
            all == categories_view(list@),
            arr_view(out@) == all.take(i as int),
        decreases list@.len() - i,
    {
        add_element(&mut out, category_json(&list[i]));
        assert(all.take(i + 1) =~= all.take(i as int).push(all[i as int]));
        i += 1;
    }
    assert(all.take(i as int) =~= all);
    Json::Arr(out)
}

/// All of them, in order.
pub open spec fn accounts_view(list: Seq<MailAccount>) -> Seq<JsonView> {
    list.map_values(|a: MailAccount| account_record(a))
}

/// All of them, in order.
pub fn accounts_json(list: &Vec<MailAccount>) -> (r: Json)
    ensures
        view_of(r) == JsonView::Arr(accounts_view(list@)),
{
    let mut out: Vec<Json> = Vec::new();
    let mut i: usize = 0;
    let ghost all = accounts_view(list@);
    assert(all.take(0) =~= elements());
    while i < list.len()
        invariant
            i <= list@.len(),
            all == accounts_view(list@),
            arr_view(out@) == all.take(i as int),
        decreases list@.len() - i,
    {
        add_element(&mut out, account_json(&list[i]));
        assert(all.take(i + 1) =~= all.take(i as int).push(all[i as int]));
        i += 1;
    }
    assert(all.take(i as int) =~= all);
    Json::Arr(out)
}

} // verus!
