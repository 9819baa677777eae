//! The data of the domain.

pub mod email_label;
pub mod remind_policy;

use crate::config::Endpoint;
use crate::config::MailConfig;
use crate::encoding::base64_bytes;
use crate::encoding::base64_decode;
use crate::encoding::base64_encode;
use crate::encoding::base64_text;
use crate::encoding::dense_text_is_trimmed;
use crate::encoding::from_utf8_lossy;
use crate::encoding::lossy_text;
use crate::json::Json;
use crate::json::view_of;
use crate::records::account_json;
use crate::records::account_record;
use crate::text::blank;
use crate::text::is_blank;
use crate::text::same;
use crate::text::text_of;
use crate::text::trim;
use crate::text::trimmed;
use crate::time::now_str;
use crate::time::clock_text;
use crate::time::Stamp;
use vstd::prelude::*;
use vstd::utf8::encode_utf8;
use vstd::utf8::encode_utf8_decode_utf8;
use vstd::utf8::encode_utf8_valid_utf8;

verus! {

pub const CATEGORY_TODO: &'static str = "todo";

pub const CATEGORY_NOTIFICATION: &'static str = "notification";

pub const CATEGORY_CONVERSATION: &'static str = "conversation";

pub const CATEGORY_MISC: &'static str = "misc";

/// Recruiting events and calls to apply: for information only, never something to do.
pub const CATEGORY_CAREER_PROMO: &'static str = "career_promo";

/// The categories whose mail is something to do even without a deadline.
pub open spec fn core_action(category: Seq<char>) -> bool {
    category == "interview"@ || category == "written_test"@ || category == "assessment"@
}

/// Whether mail of the category is something to do even without a deadline.
pub fn is_core_action(category: &str) -> (r: bool)
    ensures
        r == core_action(category@),
{
    same(category, "interview") || same(category, "written_test") || same(category, "assessment")
}

/// A copy of an optional text.
pub fn copy_text(o: &Option<String>) -> (r: Option<String>)
    ensures
        r == *o,
{
    match o {
        Some(s) => Some(s.clone()),
        None => None,
    }
}

/// What an item is.
#[derive(Clone, Copy, Debug, PartialEq, Eq, Structural)]
pub enum ItemKind {
    Todo,
    Notification,
}

impl ItemKind {
    /// The name that is stored.
    pub open spec fn name(self) -> Seq<char> {
        match self {
            ItemKind::Todo => "todo"@,
            ItemKind::Notification => "notification"@,
        }
    }

    /// The value of that name.
    pub open spec fn named(s: Seq<char>) -> Option<ItemKind> {
        if s == "todo"@ {
            Some(ItemKind::Todo)
        } else if s == "notification"@ {
            Some(ItemKind::Notification)
        } else {
            None
        }
    }

    /// The name that is stored.
    pub fn as_str(&self) -> (r: &'static str)
        ensures
            r@ == self.name(),
    {
        match self {
            ItemKind::Todo => "todo",
            ItemKind::Notification => "notification",
        }
    }

    /// The value of that name.
    pub fn parse(s: &str) -> (r: Option<ItemKind>)
        ensures
            r == ItemKind::named(s@),
    {
        if same(s, "todo") {
            Some(ItemKind::Todo)
        } else if same(s, "notification") {
            Some(ItemKind::Notification)
        } else {
            None
        }
    }

    /// Every value has a name of its own, which reads back as that value.
    pub proof fn name_reads_back(self)
        ensures
            ItemKind::named(self.name()) == Some(self),
    {
        reveal_strlit("todo");
        reveal_strlit("notification");
        assert("todo"@.len() != "notification"@.len());
    }
}

/// Where an item stands.
#[derive(Clone, Copy, Debug, PartialEq, Eq, Structural)]
pub enum ItemStatus {
    Active,
    Completed,
    Silent,
    /// Its deadline has passed: no reminders, until a user sets it active again.
    Expired,
}

impl ItemStatus {
    /// The name that is stored.
    pub open spec fn name(self) -> Seq<char> {
        match self {
            ItemStatus::Active => "active"@,
            ItemStatus::Completed => "completed"@,
            ItemStatus::Silent => "silent"@,
            ItemStatus::Expired => "expired"@,
        }
    }

    /// The value of that name.
    pub open spec fn named(s: Seq<char>) -> Option<ItemStatus> {
        if s == "active"@ {
            Some(ItemStatus::Active)
        } else if s == "completed"@ {
            Some(ItemStatus::Completed)
        } else if s == "silent"@ {
            Some(ItemStatus::Silent)
        } else if s == "expired"@ {
            Some(ItemStatus::Expired)
        } else {
            None
        }
    }

    /// The name that is stored.
    pub fn as_str(&self) -> (r: &'static str)
        ensures
            r@ == self.name(),
    {
        match self {
            ItemStatus::Active => "active",
            ItemStatus::Completed => "completed",
            ItemStatus::Silent => "silent",
            ItemStatus::Expired => "expired",
        }
    }

    /// The value of that name.
    pub fn parse(s: &str) -> (r: Option<ItemStatus>)
        ensures
            r == ItemStatus::named(s@),
    {
        if same(s, "active") {
            Some(ItemStatus::Active)
        } else if same(s, "completed") {
            Some(ItemStatus::Completed)
        } else if same(s, "silent") {
            Some(ItemStatus::Silent)
        } else if same(s, "expired") {
            Some(ItemStatus::Expired)
        } else {
            None
        }
    }

    /// Every value has a name of its own, which reads back as that value.
    pub proof fn name_reads_back(self)
        ensures
            ItemStatus::named(self.name()) == Some(self),
    {
        reveal_strlit("active");
        reveal_strlit("completed");
        reveal_strlit("silent");
        reveal_strlit("expired");
        assert("active"@.len() != "completed"@.len());
        assert("active"@[0] != "silent"@[0]);
        assert("active"@.len() != "expired"@.len());
        assert("completed"@.len() != "silent"@.len());
        assert("completed"@.len() != "expired"@.len());
        assert("silent"@.len() != "expired"@.len());
    }
}

/// Where a reminder stands.
#[derive(Clone, Copy, Debug, PartialEq, Eq, Structural)]
pub enum SendStatus {
    Pending,
    Sent,
    Failed,
}

impl SendStatus {
    /// The name that is stored.
    pub open spec fn name(self) -> Seq<char> {
        match self {
            SendStatus::Pending => "pending"@,
            SendStatus::Sent => "sent"@,
            SendStatus::Failed => "failed"@,
        }
    }

    /// The value of that name.
    pub open spec fn named(s: Seq<char>) -> Option<SendStatus> {
        if s == "pending"@ {
            Some(SendStatus::Pending)
        } else if s == "sent"@ {
            Some(SendStatus::Sent)
        } else if s == "failed"@ {
            Some(SendStatus::Failed)
        } else {
            None
        }
    }

    /// The name that is stored.
    pub fn as_str(&self) -> (r: &'static str)
        ensures
            r@ == self.name(),
    {
        match self {
            SendStatus::Pending => "pending",
            SendStatus::Sent => "sent",
            SendStatus::Failed => "failed",
        }
    }

    /// The value of that name.
    pub fn parse(s: &str) -> (r: Option<SendStatus>)
        ensures
            r == SendStatus::named(s@),
    {
        if same(s, "pending") {
            Some(SendStatus::Pending)
        } else if same(s, "sent") {
            Some(SendStatus::Sent)
        } else if same(s, "failed") {
            Some(SendStatus::Failed)
        } else {
            None
        }
    }

    /// Every value has a name of its own, which reads back as that value.
    pub proof fn name_reads_back(self)
        ensures
            SendStatus::named(self.name()) == Some(self),
    {
        reveal_strlit("pending");
        reveal_strlit("sent");
        reveal_strlit("failed");
        assert("pending"@.len() != "sent"@.len());
        assert("pending"@.len() != "failed"@.len());
        assert("sent"@.len() != "failed"@.len());
    }
}

/// What a reply to a reminder asks for.
#[derive(Clone, Copy, Debug, PartialEq, Eq, Structural)]
pub enum ReplyIntent {
    Done,
    Silent,
    /// Neither, or nothing that can be told.
    Unclear,
}

/// What one run did.
#[derive(Clone, Copy, Debug, PartialEq, Eq, Structural)]
pub struct RunReport {
    pub fetched: usize,
    pub new_emails: usize,
    pub classified: usize,
    pub items_created: usize,
    pub items_updated: usize,
    pub reminders_sent: usize,
    pub reminders_failed: usize,
    pub retries: usize,
    pub missed_compensated: usize,
    pub replies_handled: usize,
    pub llm_fallback_misc: usize,
    pub expired: usize,
    pub tool_rounds: usize,
    pub approvals_created: usize,
}

impl RunReport {
    /// The report of a run that did nothing.
    pub open spec fn nothing() -> RunReport {
        RunReport {
            fetched: 0,
            new_emails: 0,
            classified: 0,
            items_created: 0,
            items_updated: 0,
            reminders_sent: 0,
            reminders_failed: 0,
            retries: 0,
            missed_compensated: 0,
            replies_handled: 0,
            llm_fallback_misc: 0,
            expired: 0,
            tool_rounds: 0,
            approvals_created: 0,
        }
    }
}

impl Default for RunReport {
    fn default() -> (r: Self)
        ensures
            r == RunReport::nothing(),
    {
        RunReport {
            fetched: 0,
            new_emails: 0,
            classified: 0,
            items_created: 0,
            items_updated: 0,
            reminders_sent: 0,
            reminders_failed: 0,
            retries: 0,
            missed_compensated: 0,
            replies_handled: 0,
            llm_fallback_misc: 0,
            expired: 0,
            tool_rounds: 0,
            approvals_created: 0,
        }
    }
}

/// A mail that is kept.
#[derive(Debug)]
pub struct EmailRecord {
    pub id: i64,
    pub uid: Option<i64>,
    pub message_id: String,
    pub subject: String,
    pub from_addr: String,
    pub from_name: String,
    pub body_text: String,
    pub category: String,
    /// When it was sent, in RFC 3339; empty where the mail does not tell.
    pub sent_at: String,
    /// When it was received, in RFC 3339.
    pub received_at: String,
    pub item_id: Option<i64>,
    pub reply_to_item_id: Option<i64>,
    pub account_id: i64,
    pub handled: bool,
    /// The label that the user gave; empty for none.
    pub user_label: String,
    pub user_note: String,
}

impl Clone for EmailRecord {
    fn clone(&self) -> (r: Self)
        ensures
            r == *self,
    {
        EmailRecord {
            id: self.id,
            uid: self.uid,
            message_id: self.message_id.clone(),
            subject: self.subject.clone(),
            from_addr: self.from_addr.clone(),
            from_name: self.from_name.clone(),
            body_text: self.body_text.clone(),
            category: self.category.clone(),
            sent_at: self.sent_at.clone(),
            received_at: self.received_at.clone(),
            item_id: self.item_id,
            reply_to_item_id: self.reply_to_item_id,
            account_id: self.account_id,
            handled: self.handled,
            user_label: self.user_label.clone(),
            user_note: self.user_note.clone(),
        }
    }
}

/// Something to do, or something to know.
#[derive(Debug)]
pub struct Item {
    pub id: i64,
    pub kind: ItemKind,
    pub title: String,
    pub party: String,
    pub event: String,
    pub category: String,
    /// In RFC 3339.
    pub deadline: Option<String>,
    /// The first reminder, in RFC 3339.
    pub remind_at: Option<String>,
    /// One of the policies of `remind_policy`.
    pub remind_policy: String,
    pub needs_review: bool,
    pub status: ItemStatus,
    pub source_email_id: Option<i64>,
    pub account_id: i64,
    pub notes: String,
    pub created_at: String,
    pub updated_at: String,
}

impl Clone for Item {
    fn clone(&self) -> (r: Self)
        ensures
            r == *self,
    {
        Item {
            id: self.id,
            kind: self.kind,
            title: self.title.clone(),
            party: self.party.clone(),
            event: self.event.clone(),
            category: self.category.clone(),
            deadline: copy_text(&self.deadline),
            remind_at: copy_text(&self.remind_at),
            remind_policy: self.remind_policy.clone(),
            needs_review: self.needs_review,
            status: self.status,
            source_email_id: self.source_email_id,
            account_id: self.account_id,
            notes: self.notes.clone(),
            created_at: self.created_at.clone(),
            updated_at: self.updated_at.clone(),
        }
    }
}

/// The record of one reminder.
#[derive(Debug)]
pub struct SendLog {
    pub id: i64,
    pub item_id: i64,
    pub attempt: i64,
    /// `reminder`, `retry` or `manual`.
    pub kind: String,
    pub to_addr: String,
    pub subject: String,
    pub body: String,
    pub status: SendStatus,
    pub error: Option<String>,
    /// When it was first due; with the item, what tells one reminder from another.
    pub scheduled_at: String,
    pub sent_at: Option<String>,
    pub next_retry_at: Option<String>,
    pub message_id: Option<String>,
}

impl Clone for SendLog {
    fn clone(&self) -> (r: Self)
        ensures
            r == *self,
    {
        SendLog {
            id: self.id,
            item_id: self.item_id,
            attempt: self.attempt,
            kind: self.kind.clone(),
            to_addr: self.to_addr.clone(),
            subject: self.subject.clone(),
            body: self.body.clone(),
            status: self.status,
            error: copy_text(&self.error),
            scheduled_at: self.scheduled_at.clone(),
            sent_at: copy_text(&self.sent_at),
            next_retry_at: copy_text(&self.next_retry_at),
            message_id: copy_text(&self.message_id),
        }
    }
}

/// What a mail says of something to do.
#[derive(Debug)]
pub struct TodoExtract {
    pub party: String,
    pub event: String,
    pub title: String,
    /// In RFC 3339.
    pub deadline: Option<String>,
    pub category: Option<String>,
    pub notes: String,
}

impl Clone for TodoExtract {
    fn clone(&self) -> (r: Self)
        ensures
            r == *self,
    {
        TodoExtract {
            party: self.party.clone(),
            event: self.event.clone(),
            title: self.title.clone(),
            deadline: copy_text(&self.deadline),
            category: copy_text(&self.category),
            notes: self.notes.clone(),
        }
    }
}

/// A mail account. Its passwords are in plain text here; they are obscured only where they are stored.
#[derive(Debug)]
pub struct MailAccount {
    pub id: i64,
    pub label: String,
    pub address: String,
    pub imap_host: String,
    pub imap_port: u16,
    pub imap_user: String,
    pub imap_password: String,
    pub imap_tls_insecure: bool,
    pub smtp_host: String,
    pub smtp_port: u16,
    pub smtp_user: String,
    pub smtp_password: String,
    pub smtp_tls_insecure: bool,
    pub enabled: bool,
    pub is_default: bool,
    pub reminder_to: String,
    pub created_at: String,
    pub updated_at: String,
}

impl Clone for MailAccount {
    fn clone(&self) -> (r: Self)
        ensures
            r == *self,
    {
        MailAccount {
            id: self.id,
            label: self.label.clone(),
            address: self.address.clone(),
            imap_host: self.imap_host.clone(),
            imap_port: self.imap_port,
            imap_user: self.imap_user.clone(),
            imap_password: self.imap_password.clone(),
            imap_tls_insecure: self.imap_tls_insecure,
            smtp_host: self.smtp_host.clone(),
            smtp_port: self.smtp_port,
            smtp_user: self.smtp_user.clone(),
            smtp_password: self.smtp_password.clone(),
            smtp_tls_insecure: self.smtp_tls_insecure,
            enabled: self.enabled,
            is_default: self.is_default,
            reminder_to: self.reminder_to.clone(),
            created_at: self.created_at.clone(),
            updated_at: self.updated_at.clone(),
        }
    }
}

/// A category of mail.
#[derive(Debug)]
pub struct CategoryInfo {
    pub id: String,
    pub label: String,
    /// Whether mail of this category makes items.
    pub create_item: bool,
    /// The kind of those items: `todo` or `notification`.
    pub kind: String,
    /// `builtin`, `llm` or `user`.
    pub source: String,
    pub created_at: String,
}

impl Clone for CategoryInfo {
    fn clone(&self) -> (r: Self)
        ensures
            r == *self,
    {
        CategoryInfo {
            id: self.id.clone(),
            label: self.label.clone(),
            create_item: self.create_item,
            kind: self.kind.clone(),
            source: self.source.clone(),
            created_at: self.created_at.clone(),
        }
    }
}

/// A change that the agent asked for and a user decides on.
#[derive(Debug)]
pub struct Approval {
    pub id: i64,
    pub tool_name: String,
    /// The arguments of the tool, for when the change is approved.
    pub payload_json: String,
    pub summary: String,
    /// `pending`, `approved` or `rejected`.
    pub status: String,
    pub source_email_id: Option<i64>,
    pub decided_at: Option<String>,
    pub created_at: String,
}

impl Clone for Approval {
    fn clone(&self) -> (r: Self)
        ensures
            r == *self,
    {
        Approval {
            id: self.id,
            tool_name: self.tool_name.clone(),
            payload_json: self.payload_json.clone(),
            summary: self.summary.clone(),
            status: self.status.clone(),
            source_email_id: self.source_email_id,
            decided_at: copy_text(&self.decided_at),
            created_at: self.created_at.clone(),
        }
    }
}

/// The record of one run of the agent.
#[derive(Debug)]
pub struct AgentRun {
    pub id: i64,
    pub email_id: Option<i64>,
    pub account_id: i64,
    pub rounds: usize,
    pub tool_calls: usize,
    pub final_json: String,
    pub trace: String,
    /// `ok` or `error`.
    pub status: String,
    pub created_at: String,
}

impl Clone for AgentRun {
    fn clone(&self) -> (r: Self)
        ensures
            r == *self,
    {
        AgentRun {
            id: self.id,
            email_id: self.email_id,
            account_id: self.account_id,
            rounds: self.rounds,
            tool_calls: self.tool_calls,
            final_json: self.final_json.clone(),
            trace: self.trace.clone(),
            status: self.status.clone(),
            created_at: self.created_at.clone(),
        }
    }
}

/// What a mail says of something to do, over plain text: party, event, title, deadline, category
/// and notes.
pub type TodoView = (
    Seq<char>,
    Seq<char>,
    Seq<char>,
    Option<Seq<char>>,
    Option<Seq<char>>,
    Seq<char>,
);

/// What a mail says of something to do, over plain text.
pub open spec fn todo_view(ex: TodoExtract) -> TodoView {
    (ex.party@, ex.event@, ex.title@, text_of(ex.deadline), text_of(ex.category), ex.notes@)
}

impl Default for TodoExtract {
    fn default() -> (r: Self)
        ensures
            r.party@.len() == 0,
            r.event@.len() == 0,
            r.title@.len() == 0,
            r.deadline is None,
            r.category is None,
            r.notes@.len() == 0,
    {
        TodoExtract {
            party: String::new(),
            event: String::new(),
            title: String::new(),
            deadline: None,
            category: None,
            notes: String::new(),
        }
    }
}

/// A password as it is stored.
pub open spec fn obfuscated(password: Seq<char>) -> Seq<char> {
    base64_text(encode_utf8(password))
}

/// A stored password in plain text; what is no Base64 stays as it is.
pub open spec fn deobfuscated(stored: Seq<char>) -> Seq<char> {
    match base64_bytes(trimmed(stored)) {
        Some(bytes) => lossy_text(bytes),
        None => stored,
    }
}

/// The user name to log in with: the address where none is given.
pub open spec fn login_name(user: Seq<char>, address: Seq<char>) -> Seq<char> {
    if blank(user) {
        address
    } else {
        user
    }
}

/// The user name to log in with: the address where none is given.
pub fn login_or_address(user: &String, address: &String) -> (r: String)
    ensures
        r@ == login_name(user@, address@),
{
    if is_blank(user.as_str()) {
        address.clone()
    } else {
        user.clone()
    }
}

/// A password as it is shown: not at all, and empty where there is none.
pub open spec fn masked(password: Seq<char>) -> Seq<char> {
    if password.len() == 0 {
        ""@
    } else {
        "***"@
    }
}

/// A password as it is shown.
pub fn mask(password: &String) -> (r: String)
    ensures
        r@ == masked(password@),
{
    if password.as_str().is_empty() {
        "".to_owned()
    } else {
        "***".to_owned()
    }
}

impl MailAccount {
    /// The account as it is shown: a password is masked.
    pub fn public_json(&self) -> (r: Json)
        ensures
            view_of(r) == account_record(*self),
    {
        account_json(self)
    }

    /// The account that the configuration describes, made now.
    pub fn from_config(cfg: &MailConfig) -> (r: Self)
        ensures
            r.id == 0,
            r.label@ == "默认账户"@,
            r.address == cfg.address,
            r.imap_host == cfg.imap.host,
            r.imap_port == cfg.imap.port,
            r.imap_user == cfg.imap.user,
            r.imap_password == cfg.imap.password,
            r.imap_tls_insecure == cfg.imap.tls_insecure,
            r.smtp_host == cfg.smtp.host,
            r.smtp_port == cfg.smtp.port,
            r.smtp_user == cfg.smtp.user,
            r.smtp_password == cfg.smtp.password,
            r.smtp_tls_insecure == cfg.smtp.tls_insecure,
            r.enabled,
            r.is_default,
            r.reminder_to@.len() == 0,
            r.created_at == r.updated_at,
            exists|now: Stamp| #[trigger] clock_text(r.created_at@, now),
            r.created_at@.len() > 0,
    {
        let now = now_str();
        let ghost at = choose|at: Stamp| clock_text(now@, at);
        let r = MailAccount {
            id: 0,
            label: "默认账户".to_owned(),
            address: cfg.address.clone(),
            imap_host: cfg.imap.host.clone(),
            imap_port: cfg.imap.port,
            imap_user: cfg.imap.user.clone(),
            imap_password: cfg.imap.password.clone(),
            imap_tls_insecure: cfg.imap.tls_insecure,
            smtp_host: cfg.smtp.host.clone(),
            smtp_port: cfg.smtp.port,
            smtp_user: cfg.smtp.user.clone(),
            smtp_password: cfg.smtp.password.clone(),
            smtp_tls_insecure: cfg.smtp.tls_insecure,
            enabled: true,
            is_default: true,
            reminder_to: String::new(),
            created_at: now.clone(),
            updated_at: now,
        };
        assert(clock_text(r.created_at@, at));
        r
    }

    /// A password as it is stored: reversible, against a casual look only. What is stored reads
    /// back as the password.
    pub fn obfuscate(s: &str) -> (r: String)
        ensures
            r@ == obfuscated(s@),
            deobfuscated(r@) == s@,
    {
        let r = base64_encode(s.as_bytes());
        proof {
            dense_text_is_trimmed(r@);
            encode_utf8_valid_utf8(s@);
            encode_utf8_decode_utf8(s@);
        }
        r
    }

    /// A stored password in plain text; what is no Base64 stays as it is.
    pub fn deobfuscate(s: &str) -> (r: String)
        ensures
            r@ == deobfuscated(s@),
    {
        let t = trim(s);
        match base64_decode(t.as_str()) {
            Some(bytes) => from_utf8_lossy(&bytes),
            None => s.to_owned(),
        }
    }

    /// Where mail is fetched, with the password as it is.
    pub fn imap_endpoint(&self) -> (r: Endpoint)
        ensures
            r.host == self.imap_host,
            r.port == self.imap_port,
            r.user@ == login_name(self.imap_user@, self.address@),
            r.password == self.imap_password,
            r.tls_insecure == self.imap_tls_insecure,
    {
        Endpoint {
            host: self.imap_host.clone(),
            port: self.imap_port,
            user: login_or_address(&self.imap_user, &self.address),
            password: self.imap_password.clone(),
            tls_insecure: self.imap_tls_insecure,
        }
    }

    /// Where mail is sent, with the password as it is.
    pub fn smtp_endpoint(&self) -> (r: Endpoint)
        ensures
            r.host == self.smtp_host,
            r.port == self.smtp_port,
            r.user@ == login_name(self.smtp_user@, self.address@),
            r.password == self.smtp_password,
            r.tls_insecure == self.smtp_tls_insecure,
    {
        Endpoint {
            host: self.smtp_host.clone(),
            port: self.smtp_port,
            user: login_or_address(&self.smtp_user, &self.address),
            password: self.smtp_password.clone(),
            tls_insecure: self.smtp_tls_insecure,
        }
    }
}

} // verus!
