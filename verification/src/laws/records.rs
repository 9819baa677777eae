//! What is told of what is stored: each thing under its name, and no secret.

use crate::agent::calls::asked_json;
use crate::agent::calls::category_entry;
use crate::agent::calls::email_entry;
use crate::agent::calls::listed;
use crate::json::JsonView;
use crate::model::Approval;
use crate::model::CategoryInfo;
use crate::model::EmailRecord;
use crate::model::Item;
use crate::model::MailAccount;
use crate::model::RunReport;
use crate::model::SendLog;
use crate::number::decimal;
use crate::records::account_record;
use crate::records::accounts_view;
use crate::records::approval_record;
use crate::records::approvals_view;
use crate::records::categories_view;
use crate::records::category_record;
use crate::records::count_view;
use crate::records::email_record;
use crate::records::emails_view;
use crate::records::item_record;
use crate::records::items_view;
use crate::records::report_record;
use crate::records::send_log_record;
use crate::records::send_logs_view;
use vstd::prelude::*;

verus! {

/// Whether an object holds a value under a name.
pub open spec fn tells(v: JsonView, name: Seq<char>, value: JsonView) -> bool {
    v matches JsonView::Obj(m) && exists|i: int| 0 <= i < m.len() && #[trigger] m[i] == (name, value)
}

/// A number, or null for none.
pub open spec fn a_number_or_null(n: Option<i64>) -> JsonView {
    if n is Some {
        JsonView::Int(n->0)
    } else {
        JsonView::Null
    }
}

/// A text, or null for none.
pub open spec fn a_text_or_null(t: Option<String>) -> JsonView {
    if t is Some {
        JsonView::Str(t->0@)
    } else {
        JsonView::Null
    }
}

/// Three stars for a password, and nothing where there is none.
pub open spec fn stars(password: String) -> JsonView {
    if password@.len() > 0 {
        JsonView::Str("***"@)
    } else {
        JsonView::Str(""@)
    }
}

/// A stored mail is told in full, each thing under its name.
pub proof fn mail_is_told(e: EmailRecord)
    ensures
        email_record(e) is Obj && email_record(e)->Obj_0.len() == 16,
        tells(email_record(e), "id"@, JsonView::Int(e.id)),
        tells(email_record(e), "uid"@, a_number_or_null(e.uid)),
        tells(email_record(e), "message_id"@, JsonView::Str(e.message_id@)),
        tells(email_record(e), "subject"@, JsonView::Str(e.subject@)),
        tells(email_record(e), "from_addr"@, JsonView::Str(e.from_addr@)),
        tells(email_record(e), "from_name"@, JsonView::Str(e.from_name@)),
        tells(email_record(e), "body_text"@, JsonView::Str(e.body_text@)),
        tells(email_record(e), "category"@, JsonView::Str(e.category@)),
        tells(email_record(e), "sent_at"@, JsonView::Str(e.sent_at@)),
        tells(email_record(e), "received_at"@, JsonView::Str(e.received_at@)),
        tells(email_record(e), "item_id"@, a_number_or_null(e.item_id)),
        tells(email_record(e), "reply_to_item_id"@, a_number_or_null(e.reply_to_item_id)),
        tells(email_record(e), "account_id"@, JsonView::Int(e.account_id)),
        tells(email_record(e), "handled"@, JsonView::Bool(e.handled)),
        tells(email_record(e), "user_label"@, JsonView::Str(e.user_label@)),
        tells(email_record(e), "user_note"@, JsonView::Str(e.user_note@)),
{
    let m = email_record(e)->Obj_0;
    assert(m[0] == ("id"@, JsonView::Int(e.id)));
    assert(m[1] == ("uid"@, a_number_or_null(e.uid)));
    assert(m[2] == ("message_id"@, JsonView::Str(e.message_id@)));
    assert(m[3] == ("subject"@, JsonView::Str(e.subject@)));
    assert(m[4] == ("from_addr"@, JsonView::Str(e.from_addr@)));
    assert(m[5] == ("from_name"@, JsonView::Str(e.from_name@)));
    assert(m[6] == ("body_text"@, JsonView::Str(e.body_text@)));
    assert(m[7] == ("category"@, JsonView::Str(e.category@)));
    assert(m[8] == ("sent_at"@, JsonView::Str(e.sent_at@)));
    assert(m[9] == ("received_at"@, JsonView::Str(e.received_at@)));
    assert(m[10] == ("item_id"@, a_number_or_null(e.item_id)));
    assert(m[11] == ("reply_to_item_id"@, a_number_or_null(e.reply_to_item_id)));
    assert(m[12] == ("account_id"@, JsonView::Int(e.account_id)));
    assert(m[13] == ("handled"@, JsonView::Bool(e.handled)));
    assert(m[14] == ("user_label"@, JsonView::Str(e.user_label@)));
    assert(m[15] == ("user_note"@, JsonView::Str(e.user_note@)));
}

/// An item is told in full, each thing under its name.
pub proof fn items_are_told(it: Item)
    ensures
        item_record(it) is Obj && item_record(it)->Obj_0.len() == 16,
        tells(item_record(it), "id"@, JsonView::Int(it.id)),
        tells(item_record(it), "kind"@, JsonView::Str(it.kind.name())),
        tells(item_record(it), "title"@, JsonView::Str(it.title@)),
        tells(item_record(it), "party"@, JsonView::Str(it.party@)),
        tells(item_record(it), "event"@, JsonView::Str(it.event@)),
        tells(item_record(it), "category"@, JsonView::Str(it.category@)),
        tells(item_record(it), "deadline"@, a_text_or_null(it.deadline)),
        tells(item_record(it), "remind_at"@, a_text_or_null(it.remind_at)),
        tells(item_record(it), "remind_policy"@, JsonView::Str(it.remind_policy@)),
        tells(item_record(it), "needs_review"@, JsonView::Bool(it.needs_review)),
        tells(item_record(it), "status"@, JsonView::Str(it.status.name())),
        tells(item_record(it), "source_email_id"@, a_number_or_null(it.source_email_id)),
        tells(item_record(it), "account_id"@, JsonView::Int(it.account_id)),
        tells(item_record(it), "notes"@, JsonView::Str(it.notes@)),
        tells(item_record(it), "created_at"@, JsonView::Str(it.created_at@)),
        tells(item_record(it), "updated_at"@, JsonView::Str(it.updated_at@)),
{
    let m = item_record(it)->Obj_0;
    assert(m[0] == ("id"@, JsonView::Int(it.id)));
    assert(m[1] == ("kind"@, JsonView::Str(it.kind.name())));
    assert(m[2] == ("title"@, JsonView::Str(it.title@)));
    assert(m[3] == ("party"@, JsonView::Str(it.party@)));
    assert(m[4] == ("event"@, JsonView::Str(it.event@)));
    assert(m[5] == ("category"@, JsonView::Str(it.category@)));
    assert(m[6] == ("deadline"@, a_text_or_null(it.deadline)));
    assert(m[7] == ("remind_at"@, a_text_or_null(it.remind_at)));
    assert(m[8] == ("remind_policy"@, JsonView::Str(it.remind_policy@)));
    assert(m[9] == ("needs_review"@, JsonView::Bool(it.needs_review)));
    assert(m[10] == ("status"@, JsonView::Str(it.status.name())));
    assert(m[11] == ("source_email_id"@, a_number_or_null(it.source_email_id)));
    assert(m[12] == ("account_id"@, JsonView::Int(it.account_id)));
    assert(m[13] == ("notes"@, JsonView::Str(it.notes@)));
    assert(m[14] == ("created_at"@, JsonView::Str(it.created_at@)));
    assert(m[15] == ("updated_at"@, JsonView::Str(it.updated_at@)));
}

/// A reminder is told with what became of it, each thing under its name.
pub proof fn sendings_are_told(l: SendLog)
    ensures
        send_log_record(l) is Obj && send_log_record(l)->Obj_0.len() == 13,
        tells(send_log_record(l), "id"@, JsonView::Int(l.id)),
        tells(send_log_record(l), "item_id"@, JsonView::Int(l.item_id)),
        tells(send_log_record(l), "attempt"@, JsonView::Int(l.attempt)),
        tells(send_log_record(l), "kind"@, JsonView::Str(l.kind@)),
        tells(send_log_record(l), "to_addr"@, JsonView::Str(l.to_addr@)),
        tells(send_log_record(l), "subject"@, JsonView::Str(l.subject@)),
        tells(send_log_record(l), "body"@, JsonView::Str(l.body@)),
        tells(send_log_record(l), "status"@, JsonView::Str(l.status.name())),
        tells(send_log_record(l), "error"@, a_text_or_null(l.error)),
        tells(send_log_record(l), "scheduled_at"@, JsonView::Str(l.scheduled_at@)),
        tells(send_log_record(l), "sent_at"@, a_text_or_null(l.sent_at)),
        tells(send_log_record(l), "next_retry_at"@, a_text_or_null(l.next_retry_at)),
        tells(send_log_record(l), "message_id"@, a_text_or_null(l.message_id)),
{
    let m = send_log_record(l)->Obj_0;
    assert(m[0] == ("id"@, JsonView::Int(l.id)));
    assert(m[1] == ("item_id"@, JsonView::Int(l.item_id)));
    assert(m[2] == ("attempt"@, JsonView::Int(l.attempt)));
    assert(m[3] == ("kind"@, JsonView::Str(l.kind@)));
    assert(m[4] == ("to_addr"@, JsonView::Str(l.to_addr@)));
    assert(m[5] == ("subject"@, JsonView::Str(l.subject@)));
    assert(m[6] == ("body"@, JsonView::Str(l.body@)));
    assert(m[7] == ("status"@, JsonView::Str(l.status.name())));
    assert(m[8] == ("error"@, a_text_or_null(l.error)));
    assert(m[9] == ("scheduled_at"@, JsonView::Str(l.scheduled_at@)));
    assert(m[10] == ("sent_at"@, a_text_or_null(l.sent_at)));
    assert(m[11] == ("next_retry_at"@, a_text_or_null(l.next_retry_at)));
    assert(m[12] == ("message_id"@, a_text_or_null(l.message_id)));
}

/// A request of the agent is told in full, each thing under its name.
pub proof fn requests_are_told(a: Approval)
    ensures
        approval_record(a) is Obj && approval_record(a)->Obj_0.len() == 8,
        tells(approval_record(a), "id"@, JsonView::Int(a.id)),
        tells(approval_record(a), "tool_name"@, JsonView::Str(a.tool_name@)),
        tells(approval_record(a), "payload_json"@, JsonView::Str(a.payload_json@)),
        tells(approval_record(a), "summary"@, JsonView::Str(a.summary@)),
        tells(approval_record(a), "status"@, JsonView::Str(a.status@)),
        tells(approval_record(a), "source_email_id"@, a_number_or_null(a.source_email_id)),
        tells(approval_record(a), "decided_at"@, a_text_or_null(a.decided_at)),
        tells(approval_record(a), "created_at"@, JsonView::Str(a.created_at@)),
{
    let m = approval_record(a)->Obj_0;
    assert(m[0] == ("id"@, JsonView::Int(a.id)));
    assert(m[1] == ("tool_name"@, JsonView::Str(a.tool_name@)));
    assert(m[2] == ("payload_json"@, JsonView::Str(a.payload_json@)));
    assert(m[3] == ("summary"@, JsonView::Str(a.summary@)));
    assert(m[4] == ("status"@, JsonView::Str(a.status@)));
    assert(m[5] == ("source_email_id"@, a_number_or_null(a.source_email_id)));
    assert(m[6] == ("decided_at"@, a_text_or_null(a.decided_at)));
    assert(m[7] == ("created_at"@, JsonView::Str(a.created_at@)));
}

/// A category is told without when it was made, each thing under its name.
pub proof fn categories_are_told(c: CategoryInfo)
    ensures
        category_record(c) is Obj && category_record(c)->Obj_0.len() == 5,
        tells(category_record(c), "id"@, JsonView::Str(c.id@)),
        tells(category_record(c), "label"@, JsonView::Str(c.label@)),
        tells(category_record(c), "create_item"@, JsonView::Bool(c.create_item)),
        tells(category_record(c), "kind"@, JsonView::Str(c.kind@)),
        tells(category_record(c), "source"@, JsonView::Str(c.source@)),
{
    let m = category_record(c)->Obj_0;
    assert(m[0] == ("id"@, JsonView::Str(c.id@)));
    assert(m[1] == ("label"@, JsonView::Str(c.label@)));
    assert(m[2] == ("create_item"@, JsonView::Bool(c.create_item)));
    assert(m[3] == ("kind"@, JsonView::Str(c.kind@)));
    assert(m[4] == ("source"@, JsonView::Str(c.source@)));
}

/// An account is told without its passwords: three stars stand for one that is there.
pub proof fn accounts_are_told(a: MailAccount)
    ensures
        account_record(a) is Obj && account_record(a)->Obj_0.len() == 18,
        tells(account_record(a), "id"@, JsonView::Int(a.id)),
        tells(account_record(a), "label"@, JsonView::Str(a.label@)),
        tells(account_record(a), "address"@, JsonView::Str(a.address@)),
        tells(account_record(a), "imap_host"@, JsonView::Str(a.imap_host@)),
        tells(account_record(a), "imap_port"@, JsonView::Int(a.imap_port as i64)),
        tells(account_record(a), "imap_user"@, JsonView::Str(a.imap_user@)),
        tells(account_record(a), "imap_password"@, stars(a.imap_password)),
        tells(account_record(a), "imap_tls_insecure"@, JsonView::Bool(a.imap_tls_insecure)),
        tells(account_record(a), "smtp_host"@, JsonView::Str(a.smtp_host@)),
        tells(account_record(a), "smtp_port"@, JsonView::Int(a.smtp_port as i64)),
        tells(account_record(a), "smtp_user"@, JsonView::Str(a.smtp_user@)),
        tells(account_record(a), "smtp_password"@, stars(a.smtp_password)),
        tells(account_record(a), "smtp_tls_insecure"@, JsonView::Bool(a.smtp_tls_insecure)),
        tells(account_record(a), "enabled"@, JsonView::Bool(a.enabled)),
        tells(account_record(a), "is_default"@, JsonView::Bool(a.is_default)),
        tells(account_record(a), "reminder_to"@, JsonView::Str(a.reminder_to@)),
        tells(account_record(a), "created_at"@, JsonView::Str(a.created_at@)),
        tells(account_record(a), "updated_at"@, JsonView::Str(a.updated_at@)),
{
    let m = account_record(a)->Obj_0;
    assert(m[0] == ("id"@, JsonView::Int(a.id)));
    assert(m[1] == ("label"@, JsonView::Str(a.label@)));
    assert(m[2] == ("address"@, JsonView::Str(a.address@)));
    assert(m[3] == ("imap_host"@, JsonView::Str(a.imap_host@)));
    assert(m[4] == ("imap_port"@, JsonView::Int(a.imap_port as i64)));
    assert(m[5] == ("imap_user"@, JsonView::Str(a.imap_user@)));
    assert(m[6] == ("imap_password"@, stars(a.imap_password)));
    assert(m[7] == ("imap_tls_insecure"@, JsonView::Bool(a.imap_tls_insecure)));
    assert(m[8] == ("smtp_host"@, JsonView::Str(a.smtp_host@)));
    assert(m[9] == ("smtp_port"@, JsonView::Int(a.smtp_port as i64)));
    assert(m[10] == ("smtp_user"@, JsonView::Str(a.smtp_user@)));
    assert(m[11] == ("smtp_password"@, stars(a.smtp_password)));
    assert(m[12] == ("smtp_tls_insecure"@, JsonView::Bool(a.smtp_tls_insecure)));
    assert(m[13] == ("enabled"@, JsonView::Bool(a.enabled)));
    assert(m[14] == ("is_default"@, JsonView::Bool(a.is_default)));
    assert(m[15] == ("reminder_to"@, JsonView::Str(a.reminder_to@)));
    assert(m[16] == ("created_at"@, JsonView::Str(a.created_at@)));
    assert(m[17] == ("updated_at"@, JsonView::Str(a.updated_at@)));
}

/// A report tells each of its counts under its name.
pub proof fn reports_are_told(p: RunReport)
    ensures
        report_record(p) is Obj && report_record(p)->Obj_0.len() == 14,
        tells(report_record(p), "fetched"@, count_view(p.fetched)),
        tells(report_record(p), "new_emails"@, count_view(p.new_emails)),
        tells(report_record(p), "classified"@, count_view(p.classified)),
        tells(report_record(p), "items_created"@, count_view(p.items_created)),
        tells(report_record(p), "items_updated"@, count_view(p.items_updated)),
        tells(report_record(p), "reminders_sent"@, count_view(p.reminders_sent)),
        tells(report_record(p), "reminders_failed"@, count_view(p.reminders_failed)),
        tells(report_record(p), "retries"@, count_view(p.retries)),
        tells(report_record(p), "missed_compensated"@, count_view(p.missed_compensated)),
        tells(report_record(p), "replies_handled"@, count_view(p.replies_handled)),
        tells(report_record(p), "llm_fallback_misc"@, count_view(p.llm_fallback_misc)),
        tells(report_record(p), "expired"@, count_view(p.expired)),
        tells(report_record(p), "tool_rounds"@, count_view(p.tool_rounds)),
        tells(report_record(p), "approvals_created"@, count_view(p.approvals_created)),
{
    let m = report_record(p)->Obj_0;
    assert(m[0] == ("fetched"@, count_view(p.fetched)));
    assert(m[1] == ("new_emails"@, count_view(p.new_emails)));
    assert(m[2] == ("classified"@, count_view(p.classified)));
    assert(m[3] == ("items_created"@, count_view(p.items_created)));
    assert(m[4] == ("items_updated"@, count_view(p.items_updated)));
    assert(m[5] == ("reminders_sent"@, count_view(p.reminders_sent)));
    assert(m[6] == ("reminders_failed"@, count_view(p.reminders_failed)));
    assert(m[7] == ("retries"@, count_view(p.retries)));
    assert(m[8] == ("missed_compensated"@, count_view(p.missed_compensated)));
    assert(m[9] == ("replies_handled"@, count_view(p.replies_handled)));
    assert(m[10] == ("llm_fallback_misc"@, count_view(p.llm_fallback_misc)));
    assert(m[11] == ("expired"@, count_view(p.expired)));
    assert(m[12] == ("tool_rounds"@, count_view(p.tool_rounds)));
    assert(m[13] == ("approvals_created"@, count_view(p.approvals_created)));
}

/// A count is told as a number.
pub proof fn counts_are_told(n: usize)
    ensures
        n <= 9223372036854775807 ==> count_view(n) == JsonView::Int(n as i64),
        n > 9223372036854775807 ==> count_view(n) == JsonView::Number(decimal(n as nat)),
{
}

/// What is listed is told one by one, in order.
pub proof fn lists_are_told(
    emails: Seq<EmailRecord>,
    items: Seq<Item>,
    logs: Seq<SendLog>,
    requests: Seq<Approval>,
    categories: Seq<CategoryInfo>,
    accounts: Seq<MailAccount>,
)
    ensures
        emails_view(emails).len() == emails.len(),
        forall|i: int|
            0 <= i < emails.len() ==> #[trigger] emails_view(emails)[i] == email_record(emails[i]),
        items_view(items).len() == items.len(),
        forall|i: int| 0 <= i < items.len() ==> #[trigger] items_view(items)[i] == item_record(items[i]),
        send_logs_view(logs).len() == logs.len(),
        forall|i: int|
            0 <= i < logs.len() ==> #[trigger] send_logs_view(logs)[i] == send_log_record(logs[i]),
        approvals_view(requests).len() == requests.len(),
        forall|i: int|
            0 <= i < requests.len() ==> #[trigger] approvals_view(requests)[i] == approval_record(
                requests[i],
            ),
        categories_view(categories).len() == categories.len(),
        forall|i: int|
            0 <= i < categories.len() ==> #[trigger] categories_view(categories)[i]
                == category_record(categories[i]),
        accounts_view(accounts).len() == accounts.len(),
        forall|i: int|
            0 <= i < accounts.len() ==> #[trigger] accounts_view(accounts)[i] == account_record(
                accounts[i],
            ),
{
}

/// The agent is told of a mail by its number, subject, sender, category, time and item; of a
/// category by what it is; and of what is listed how much it is.
pub proof fn what_the_agent_is_told(
    e: EmailRecord,
    c: CategoryInfo,
    count: usize,
    name: Seq<char>,
    list: JsonView,
)
    ensures
        tells(email_entry(e), "id"@, JsonView::Int(e.id)),
        tells(email_entry(e), "subject"@, JsonView::Str(e.subject@)),
        tells(
            email_entry(e),
            "from"@,
            JsonView::Str(e.from_name@ + " <"@ + e.from_addr@ + ">"@),
        ),
        tells(email_entry(e), "category"@, JsonView::Str(e.category@)),
        tells(email_entry(e), "sent_at"@, JsonView::Str(e.sent_at@)),
        tells(email_entry(e), "item_id"@, a_number_or_null(e.item_id)),
        tells(category_entry(Some(c)), "id"@, JsonView::Str(c.id@)),
        tells(category_entry(Some(c)), "label"@, JsonView::Str(c.label@)),
        tells(category_entry(Some(c)), "create_item"@, JsonView::Bool(c.create_item)),
        tells(category_entry(Some(c)), "kind"@, JsonView::Str(c.kind@)),
        category_entry(None) == JsonView::Null,
        tells(listed(count, name, list), "ok"@, JsonView::Bool(true)),
        tells(listed(count, name, list), "count"@, count_view(count)),
        tells(listed(count, name, list), name, list),
{
    let m = email_entry(e)->Obj_0;
    assert(m[0] == ("id"@, JsonView::Int(e.id)));
    assert(m[1] == ("subject"@, JsonView::Str(e.subject@)));
    assert(m[2] == ("from"@, JsonView::Str(e.from_name@ + " <"@ + e.from_addr@ + ">"@)));
    assert(m[3] == ("category"@, JsonView::Str(e.category@)));
    assert(m[4] == ("sent_at"@, JsonView::Str(e.sent_at@)));
    assert(m[5] == ("item_id"@, a_number_or_null(e.item_id)));
    let n = category_entry(Some(c))->Obj_0;
    assert(n[0] == ("id"@, JsonView::Str(c.id@)));
    assert(n[1] == ("label"@, JsonView::Str(c.label@)));
    assert(n[2] == ("create_item"@, JsonView::Bool(c.create_item)));
    assert(n[3] == ("kind"@, JsonView::Str(c.kind@)));
    let l = listed(count, name, list)->Obj_0;
    assert(l[0] == ("ok"@, JsonView::Bool(true)));
    assert(l[1] == ("count"@, count_view(count)));
    assert(l[2] == (name, list));
}

/// The agent is told that a request waits for a user, and which one.
pub proof fn requests_wait(id: i64)
    ensures
        tells(asked_json(id), "ok"@, JsonView::Bool(true)),
        tells(asked_json(id), "needs_approval"@, JsonView::Bool(true)),
        tells(asked_json(id), "approval_id"@, JsonView::Int(id)),
{
    let m = asked_json(id)->Obj_0;
    assert(m[0] == ("ok"@, JsonView::Bool(true)));
    assert(m[1] == ("needs_approval"@, JsonView::Bool(true)));
    assert(m[2] == ("approval_id"@, JsonView::Int(id)));
}

} // verus!
