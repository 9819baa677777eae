//! The web interface: what is asked of it, what is answered, and what is refused.

use crate::agent::calls::BAD_ID;
use crate::agent::calls::BAD_KIND;
use crate::agent::calls::category_id;
use crate::agent::calls::is_category_id;
use crate::agent::calls::NewCategory;
use crate::agent::calls::numbered;
use crate::agent::registry::ToolResult;
use crate::agent::told_text_of;
use crate::config::AppConfig;
use crate::config::Endpoint;
use crate::db::EmailFilter;
use crate::db::ItemFilter;
use crate::json::add_element;
use crate::json::arr_view;
use crate::json::elements;
use crate::json::Json;
use crate::json::JsonView;
use crate::json::members;
use crate::json::put;
use crate::json::put_text;
use crate::json::view_of;
use crate::json_text::json_told;
use crate::json_text::json_written;
use crate::json_text::read;
use crate::json_text::tidied;
use crate::json_text::write_json;
use crate::model::Approval;
use crate::model::CategoryInfo;
use crate::model::copy_text;
use crate::model::EmailRecord;
use crate::model::Item;
use crate::model::ItemKind;
use crate::model::ItemStatus;
use crate::model::MailAccount;
use crate::model::masked;
use crate::model::remind_policy;
use crate::model::SendLog;
use crate::model::SendStatus;
use crate::model::todo_view;
use crate::model::TodoExtract;
use crate::notifier::body_of;
use crate::notifier::category_label;
use crate::notifier::clamp_event;
use crate::notifier::clamped;
use crate::notifier::day_of_item;
use crate::notifier::format_subject;
use crate::notifier::item_day;
use crate::notifier::mmdd;
use crate::notifier::month_day;
use crate::notifier::policy;
use crate::notifier::reminder_body;
use crate::notifier::shown_label;
use crate::notifier::subject;
use crate::number::decimal;
use crate::number::show_u64;
use crate::number::signed_decimal;
use crate::pipeline::can_make_todo;
use crate::pipeline::first_reminder;
use crate::pipeline::item_from_extract;
use crate::pipeline::item_of_mail;
use crate::pipeline::makes_todo;
use crate::pipeline::set_reminders;
use crate::records::account_record;
use crate::records::accounts_json;
use crate::records::accounts_view;
use crate::records::categories_json;
use crate::records::categories_view;
use crate::records::category_json;
use crate::records::category_record;
use crate::records::count_json;
use crate::records::count_view;
use crate::text::blank;
use crate::text::chars_of;
use crate::text::is_blank;
use crate::text::same;
use crate::text::str_of;
use crate::text::text_of;
use crate::text::trim;
use crate::text::trimmed;
use crate::time::civil_date;
use crate::time::date_of;
use crate::time::DAY;
use crate::time::single_moment;
use crate::time::Stamp;
use crate::time::stamp_of;
use crate::time::Zone;
use crate::time::zone_moments;
use vstd::prelude::*;

verus! {

/// What every answer is wrapped in.
#[derive(Debug)]
pub struct Resp<T> {
    pub code: i32,
    pub message: String,
    pub data: T,
}

impl<T> Resp<T> {
    /// An answer.
    pub fn ok(data: T) -> (r: Self)
        ensures
            r.code == 0,
            r.message@ == "ok"@,
            r.data == data,
    {
        Resp { code: 0, message: "ok".to_owned(), data }
    }

    /// A refusal.
    pub fn err(code: i32, message: String) -> (r: Resp<Json>)
        ensures
            r.code == code,
            r.message == message,
            r.data is Null,
    {
        Resp { code, message, data: Json::Null }
    }
}

/// An answer over plain text.
pub open spec fn resp_view(r: Resp<Json>) -> JsonView {
    JsonView::Obj(
        members().push(("code"@, JsonView::Int(r.code as i64))).push(
            ("message"@, JsonView::Str(r.message@)),
        ).push(("data"@, view_of(r.data))),
    )
}

impl Resp<Json> {
    /// An answer as it is sent.
    pub fn to_text(self) -> (r: String)
        ensures
            r@ == json_written(tidied(resp_view(self))),
    {
        let mut m: Vec<(String, Json)> = Vec::new();
        put(&mut m, "code", Json::Int(self.code as i64));
        put_text(&mut m, "message", self.message.as_str());
        put(&mut m, "data", self.data);
        write_json(&Json::Obj(m))
    }
}

/// Why a request is refused: the HTTP status and the reason.
#[derive(Debug)]
pub struct ApiError(pub u16, pub String);

impl ApiError {
    /// The answer that tells of the refusal.
    pub fn to_resp(self) -> (r: Resp<Json>)
        ensures
            r.code == self.0,
            r.message == self.1,
            r.data is Null,
    {
        Resp::<Json>::err(self.0 as i32, self.1)
    }
}

pub const BAD_REQUEST: u16 = 400;

pub const UNAUTHORIZED: u16 = 401;

pub const NOT_FOUND: u16 = 404;

pub const CONFLICT: u16 = 409;

pub const INTERNAL: u16 = 500;

/// Whether a request is refused in that way.
pub open spec fn refused(e: ApiError, status: u16, message: Seq<char>) -> bool {
    e.0 == status && e.1@ == message
}

/// Whether a request is refused in that way.
pub open spec fn denied<T>(r: Result<T, ApiError>, status: u16, message: Seq<char>) -> bool {
    r matches Err(e) && refused(e, status, message)
}

/// The refusal of a request that makes no sense.
pub fn bad_request(message: &str) -> (r: ApiError)
    ensures
        refused(r, BAD_REQUEST, message@),
{
    ApiError(BAD_REQUEST, message.to_owned())
}

fn bad_value(before: &str, value: &str) -> (r: ApiError)
    ensures
        refused(r, BAD_REQUEST, before@ + value@),
{
    let mut m = before.to_owned();
    m.append(value);
    ApiError(BAD_REQUEST, m)
}

fn bad_bound(name: &str) -> (r: ApiError)
    ensures
        refused(r, BAD_REQUEST, name@ + " 需要 RFC3339 格式"@),
{
    let mut m = name.to_owned();
    m.append(" 需要 RFC3339 格式");
    ApiError(BAD_REQUEST, m)
}

/// What is told of something that is not there.
pub open spec fn absent(what: Seq<char>, id: i64) -> Seq<char> {
    what + signed_decimal(id as int) + " 不存在"@
}

fn not_there(what: &str, id: i64) -> (r: ApiError)
    ensures
        refused(r, NOT_FOUND, absent(what@, id)),
{
    ApiError(NOT_FOUND, numbered(what, id, " 不存在"))
}

/// The refusal of a request for an item that is not there.
pub fn no_such_item(id: i64) -> (r: ApiError)
    ensures
        refused(r, NOT_FOUND, absent("事项 "@, id)),
{
    not_there("事项 ", id)
}

/// The refusal of a request for a mail that is not there.
pub fn no_such_email(id: i64) -> (r: ApiError)
    ensures
        refused(r, NOT_FOUND, absent("邮件 "@, id)),
{
    not_there("邮件 ", id)
}

/// The refusal of a request for an account that is not there.
pub fn no_such_account(id: i64) -> (r: ApiError)
    ensures
        refused(r, NOT_FOUND, absent("账户 "@, id)),
{
    not_there("账户 ", id)
}

/// What is told to a caller without the token.
pub const NO_TOKEN: &'static str = "未授权：缺少或错误的 Bearer token";

/// Whether a caller may pass: there is no token, or the header bears it.
pub open spec fn authorized(token: Seq<char>, header: Option<Seq<char>>) -> bool {
    blank(token) || header == Some("Bearer "@ + trimmed(token))
}

/// Lets a caller pass who bears the token, and everyone where there is none.
pub fn check_token(token: &str, header: Option<&str>) -> (r: Result<(), ApiError>)
    ensures
        r is Ok == authorized(token@, str_of(header)),
        r is Err ==> denied(r, UNAUTHORIZED, NO_TOKEN@),
{
    if is_blank(token) {
        return Ok(());
    }
    let mut expected = "Bearer ".to_owned();
    let t = trim(token);
    expected.append(t.as_str());
    let ok = match header {
        Some(h) => same(h, expected.as_str()),
        None => false,
    };
    if ok {
        Ok(())
    } else {
        Err(ApiError(UNAUTHORIZED, NO_TOKEN.to_owned()))
    }
}

/// What is told of the state of the service.
pub fn health_json(cfg: &AppConfig, version: &str) -> (r: Json)
    ensures
        view_of(r) == JsonView::Obj(
            members().push(("status"@, JsonView::Str("ok"@))).push(
                ("version"@, JsonView::Str(version@)),
            ).push(("uptime_secs"@, JsonView::Int(0))).push(
                ("mail_address"@, JsonView::Str(cfg.mail.address@)),
            ).push(("timezone"@, JsonView::Str(cfg.timezone@))),
        ),
{
    let mut m: Vec<(String, Json)> = Vec::new();
    put_text(&mut m, "status", "ok");
    put_text(&mut m, "version", version);
    put(&mut m, "uptime_secs", Json::Int(0));
    put_text(&mut m, "mail_address", cfg.mail.address.as_str());
    put_text(&mut m, "timezone", cfg.timezone.name.as_str());
    Json::Obj(m)
}

/// A server as it is shown: without its password.
pub open spec fn endpoint_view(e: Endpoint) -> JsonView {
    JsonView::Obj(
        members().push(("host"@, JsonView::Str(e.host@))).push(
            ("port"@, JsonView::Int(e.port as i64)),
        ).push(("user"@, JsonView::Str(e.user@))).push(("password"@, JsonView::Str("***"@))),
    )
}

fn endpoint_json(e: &Endpoint) -> (r: Json)
    ensures
        view_of(r) == endpoint_view(*e),
{
    let mut m: Vec<(String, Json)> = Vec::new();
    put_text(&mut m, "host", e.host.as_str());
    put(&mut m, "port", Json::Int(e.port as i64));
    put_text(&mut m, "user", e.user.as_str());
    put_text(&mut m, "password", "***");
    Json::Obj(m)
}

/// Texts in order.
pub open spec fn text_list(list: Seq<String>) -> Seq<JsonView> {
    list.map_values(|s: String| JsonView::Str(s@))
}

/// Texts in order.
pub fn texts_json(list: &Vec<String>) -> (r: Json)
    ensures
        view_of(r) == JsonView::Arr(text_list(list@)),
{
    let mut out: Vec<Json> = Vec::new();
    let mut i: usize = 0;
    let ghost all = text_list(list@);
    assert(all.take(0) =~= elements());
    while i < list.len()
        invariant
            i <= list@.len(),
            all == text_list(list@),
            arr_view(out@) == all.take(i as int),
        decreases list@.len() - i,
    {
        add_element(&mut out, Json::Str(list[i].clone()));
        assert(all.take(i + 1) =~= all.take(i as int).push(all[i as int]));
        i += 1;
    }
    assert(all.take(i as int) =~= all);
    Json::Arr(out)
}

/// A number of seconds, or of something else that is not negative.
pub open spec fn natural_view(n: u64) -> JsonView {
    if n <= i64::MAX {
        JsonView::Int(n as i64)
    } else {
        JsonView::Number(decimal(n as nat))
    }
}

fn natural_json(n: u64) -> (r: Json)
    ensures
        view_of(r) == natural_view(n),
{
    if n <= 9223372036854775807 {
        Json::Int(n as i64)
    } else {
        Json::Number(show_u64(n))
    }
}

/// The settings as they are shown.
pub open spec fn config_view(
    cfg: AppConfig,
    categories: Seq<CategoryInfo>,
    accounts: Seq<MailAccount>,
) -> JsonView {
    let reminder = members().push(("to"@, JsonView::Str(cfg.reminder.to@))).push(
        ("days_before"@, JsonView::Int(cfg.reminder.days_before)),
    ).push(("lead_time"@, JsonView::Str(cfg.reminder.lead_time@))).push(
        ("webhook_enabled"@, JsonView::Bool(!blank(cfg.reminder.webhook_url@))),
    );
    let mail = members().push(("address"@, JsonView::Str(cfg.mail.address@))).push(
        ("imap"@, endpoint_view(cfg.mail.imap)),
    ).push(("smtp"@, endpoint_view(cfg.mail.smtp)));
    let agent = members().push(("enabled"@, JsonView::Bool(cfg.llm.agent.enabled))).push(
        ("max_tool_rounds"@, count_view(cfg.llm.agent.max_tool_rounds)),
    );
    let llm = members().push(("base_url"@, JsonView::Str(cfg.llm.base_url@))).push(
        ("model"@, JsonView::Str(cfg.llm.model@)),
    ).push(("api_key"@, JsonView::Str("***"@))).push(("agent"@, JsonView::Obj(agent)));
    JsonView::Obj(
        members().push(("listen"@, JsonView::Str(cfg.listen@))).push(
            ("auth_enabled"@, JsonView::Bool(!blank(cfg.auth_token@))),
        ).push(("data_dir"@, JsonView::Str(cfg.data_dir@))).push(
            ("timezone"@, JsonView::Str(cfg.timezone@)),
        ).push(("poll_interval_secs"@, natural_view(cfg.poll_interval_secs))).push(
            ("reminder"@, JsonView::Obj(reminder)),
        ).push(("check_times"@, JsonView::Arr(text_list(cfg.check_times@)))).push(
            ("mail"@, JsonView::Obj(mail)),
        ).push(("llm"@, JsonView::Obj(llm))).push(
            ("categories"@, JsonView::Arr(categories_view(categories))),
        ).push(("accounts"@, JsonView::Arr(accounts_view(accounts)))),
    )
}

/// The settings as they are shown: no password, no key and no token among them.
pub fn config_json(
    cfg: &AppConfig,
    categories: &Vec<CategoryInfo>,
    accounts: &Vec<MailAccount>,
) -> (r: Json)
    ensures
        view_of(r) == config_view(*cfg, categories@, accounts@),
{
    let mut reminder: Vec<(String, Json)> = Vec::new();
    put_text(&mut reminder, "to", cfg.reminder.to.as_str());
    put(&mut reminder, "days_before", Json::Int(cfg.reminder.days_before));
    put_text(&mut reminder, "lead_time", cfg.reminder.lead_time.as_str());
    put(
        &mut reminder,
        "webhook_enabled",
        Json::Bool(!is_blank(cfg.reminder.webhook_url.as_str())),
    );
    let mut mail: Vec<(String, Json)> = Vec::new();
    put_text(&mut mail, "address", cfg.mail.address.as_str());
    put(&mut mail, "imap", endpoint_json(&cfg.mail.imap));
    put(&mut mail, "smtp", endpoint_json(&cfg.mail.smtp));
    let mut agent: Vec<(String, Json)> = Vec::new();
    put(&mut agent, "enabled", Json::Bool(cfg.llm.agent.enabled));
    put(&mut agent, "max_tool_rounds", count_json(cfg.llm.agent.max_tool_rounds));
    let mut llm: Vec<(String, Json)> = Vec::new();
    put_text(&mut llm, "base_url", cfg.llm.base_url.as_str());
    put_text(&mut llm, "model", cfg.llm.model.as_str());
    put_text(&mut llm, "api_key", "***");
    put(&mut llm, "agent", Json::Obj(agent));
    let mut m: Vec<(String, Json)> = Vec::new();
    put_text(&mut m, "listen", cfg.listen.as_str());
    put(&mut m, "auth_enabled", Json::Bool(!is_blank(cfg.auth_token.as_str())));
    put_text(&mut m, "data_dir", cfg.data_dir.as_str());
    put_text(&mut m, "timezone", cfg.timezone.name.as_str());
    put(&mut m, "poll_interval_secs", natural_json(cfg.poll_interval_secs));
    put(&mut m, "reminder", Json::Obj(reminder));
    put(&mut m, "check_times", texts_json(&cfg.check_times));
    put(&mut m, "mail", Json::Obj(mail));
    put(&mut m, "llm", Json::Obj(llm));
    put(&mut m, "categories", categories_json(categories));
    put(&mut m, "accounts", accounts_json(accounts));
    Json::Obj(m)
}

/// An item as a user writes it.
#[derive(Debug)]
pub struct ItemPayload {
    /// `todo` or `notification`; empty for something to do.
    pub kind: String,
    pub title: String,
    pub party: String,
    pub event: String,
    pub category: String,
    pub deadline: Option<String>,
    pub notes: String,
}

/// Which items a user wants to see.
#[derive(Debug)]
pub struct ItemQuery {
    pub kind: Option<String>,
    pub status: Option<String>,
    pub category: Option<String>,
    pub party: Option<String>,
    pub q: Option<String>,
    pub account_id: Option<i64>,
    pub created_after: Option<String>,
    pub created_before: Option<String>,
    pub deadline_after: Option<String>,
    pub deadline_before: Option<String>,
    pub limit: Option<usize>,
}

/// Whether a bound in time can be read, where there is one.
pub open spec fn bound_ok(t: Option<String>) -> bool {
    t matches Some(s) ==> stamp_of(s@) is Some
}

fn bound_reads(t: &Option<String>) -> (r: bool)
    ensures
        r == bound_ok(*t),
{
    match t {
        Some(s) => Stamp::parse(s.as_str()).is_some(),
        None => true,
    }
}

/// The first of the bounds of a query that cannot be read.
pub open spec fn bad_item_bound(q: ItemQuery) -> Option<Seq<char>> {
    if !bound_ok(q.created_after) {
        Some("created_after"@)
    } else if !bound_ok(q.created_before) {
        Some("created_before"@)
    } else if !bound_ok(q.deadline_after) {
        Some("deadline_after"@)
    } else if !bound_ok(q.deadline_before) {
        Some("deadline_before"@)
    } else {
        None
    }
}

/// A kind that is asked for; nothing where there is none of that name.
pub open spec fn kind_asked(k: Option<String>) -> Option<Option<ItemKind>> {
    match k {
        Some(s) => match ItemKind::named(s@) {
            Some(v) => Some(Some(v)),
            None => None,
        },
        None => Some(None),
    }
}

/// A status that is asked for; nothing where there is none of that name.
pub open spec fn status_asked(k: Option<String>) -> Option<Option<ItemStatus>> {
    match k {
        Some(s) => match ItemStatus::named(s@) {
            Some(v) => Some(Some(v)),
            None => None,
        },
        None => Some(None),
    }
}

fn ask_kind(k: &Option<String>) -> (r: Result<Option<ItemKind>, ApiError>)
    ensures
        match kind_asked(*k) {
            Some(v) => r == Ok::<Option<ItemKind>, ApiError>(v),
            None => denied(r, BAD_REQUEST, "非法 kind: "@ + k->0@),
        },
{
    match k {
        Some(s) => match ItemKind::parse(s.as_str()) {
            Some(v) => Ok(Some(v)),
            None => Err(bad_value("非法 kind: ", s.as_str())),
        },
        None => Ok(None),
    }
}

fn ask_status(k: &Option<String>) -> (r: Result<Option<ItemStatus>, ApiError>)
    ensures
        match status_asked(*k) {
            Some(v) => r == Ok::<Option<ItemStatus>, ApiError>(v),
            None => denied(r, BAD_REQUEST, "非法 status: "@ + k->0@),
        },
{
    match k {
        Some(s) => match ItemStatus::parse(s.as_str()) {
            Some(v) => Ok(Some(v)),
            None => Err(bad_value("非法 status: ", s.as_str())),
        },
        None => Ok(None),
    }
}

/// A limit, or the usual one.
pub open spec fn limit_or(l: Option<usize>, usual: usize) -> usize {
    match l {
        Some(n) => n,
        None => usual,
    }
}

fn limit_of(l: Option<usize>, usual: usize) -> (r: usize)
    ensures
        r == limit_or(l, usual),
{
    match l {
        Some(n) => n,
        None => usual,
    }
}

/// Whether a filter asks for what the query does.
pub open spec fn item_filter_is(
    f: ItemFilter,
    q: ItemQuery,
    kind: Option<ItemKind>,
    status: Option<ItemStatus>,
) -> bool {
    f == (ItemFilter {
        kind,
        status,
        category: q.category,
        party: q.party,
        q: q.q,
        account_id: q.account_id,
        created_after: q.created_after,
        created_before: q.created_before,
        deadline_after: q.deadline_after,
        deadline_before: q.deadline_before,
        limit: limit_or(q.limit, 500),
    })
}

/// What a query asks for. The kind is looked at first, then the status, then the bounds in time.
pub fn item_filter_from_query(q: &ItemQuery) -> (r: Result<ItemFilter, ApiError>)
    ensures
        match (kind_asked(q.kind), status_asked(q.status), bad_item_bound(*q)) {
            (None, _, _) => denied(r, BAD_REQUEST, "非法 kind: "@ + q.kind->0@),
            (_, None, _) => denied(r, BAD_REQUEST, "非法 status: "@ + q.status->0@),
            (_, _, Some(name)) => denied(r, BAD_REQUEST, name + " 需要 RFC3339 格式"@),
            (Some(kind), Some(status), None) => r matches Ok(f) && item_filter_is(
                f,
                *q,
                kind,
                status,
            ),
        },
{
    let kind = match ask_kind(&q.kind) {
        Ok(v) => v,
        Err(e) => return Err(e),
    };
    let status = match ask_status(&q.status) {
        Ok(v) => v,
        Err(e) => return Err(e),
    };
    if !bound_reads(&q.created_after) {
        return Err(bad_bound("created_after"));
    }
    if !bound_reads(&q.created_before) {
        return Err(bad_bound("created_before"));
    }
    if !bound_reads(&q.deadline_after) {
        return Err(bad_bound("deadline_after"));
    }
    if !bound_reads(&q.deadline_before) {
        return Err(bad_bound("deadline_before"));
    }
    Ok(
        ItemFilter {
            kind,
            status,
            category: copy_text(&q.category),
            party: copy_text(&q.party),
            q: copy_text(&q.q),
            account_id: q.account_id,
            created_after: copy_text(&q.created_after),
            created_before: copy_text(&q.created_before),
            deadline_after: copy_text(&q.deadline_after),
            deadline_before: copy_text(&q.deadline_before),
            limit: limit_of(q.limit, 500),
        },
    )
}

/// The kind that a user writes.
pub open spec fn written_kind(s: Seq<char>) -> Option<ItemKind> {
    if s == ""@ || s == "todo"@ {
        Some(ItemKind::Todo)
    } else if s == "notification"@ {
        Some(ItemKind::Notification)
    } else {
        None
    }
}

/// The deadline that a user writes, where it is not blank.
pub open spec fn written_deadline(d: Option<String>) -> Option<Seq<char>> {
    match d {
        Some(s) if !blank(s@) => Some(s@),
        _ => None,
    }
}

/// What is wrong with a deadline.
pub const BAD_DEADLINE: &'static str = "deadline 需要 RFC3339 格式（如 2027-09-10T14:00:00+08:00）";

/// Whether an item is the one that a user writes.
pub open spec fn item_as_written(
    it: Item,
    p: ItemPayload,
    kind: ItemKind,
    account_id: i64,
    cfg: AppConfig,
    now: Seq<char>,
) -> bool {
    let deadline = written_deadline(p.deadline);
    &&& it.id == 0
    &&& it.kind == kind
    &&& it.title == if blank(p.title@) {
        p.event
    } else {
        p.title
    }
    &&& it.party == p.party
    &&& it.event == if blank(p.event@) {
        p.title
    } else {
        p.event
    }
    &&& it.category@ == if blank(p.category@) {
        "todo"@
    } else {
        p.category@
    }
    &&& text_of(it.deadline) == deadline
    &&& it.remind_policy@ == policy(deadline, false, now)
    &&& text_of(it.remind_at) == first_reminder(it, cfg, now)
    &&& it.needs_review == (kind == ItemKind::Todo && deadline is None)
    &&& it.status == ItemStatus::Active
    &&& it.source_email_id is None
    &&& it.account_id == account_id
    &&& it.notes == p.notes
    &&& it.created_at@ == now
    &&& it.updated_at@ == now
}

/// The item that a user writes.
pub fn build_item(p: &ItemPayload, account_id: i64, cfg: &AppConfig, now: &str) -> (r: Result<
    Item,
    ApiError,
>)
    ensures
        match (written_kind(p.kind@), written_deadline(p.deadline)) {
            (None, _) => denied(r, BAD_REQUEST, "非法 kind: "@ + p.kind@),
            (Some(kind), Some(d)) => if stamp_of(d) is None {
                denied(r, BAD_REQUEST, BAD_DEADLINE@)
            } else {
                r matches Ok(it) && item_as_written(it, *p, kind, account_id, *cfg, now@)
            },
            (Some(kind), None) => r matches Ok(it) && item_as_written(
                it,
                *p,
                kind,
                account_id,
                *cfg,
                now@,
            ),
        },
{
    let kind = if same(p.kind.as_str(), "") || same(p.kind.as_str(), "todo") {
        ItemKind::Todo
    } else if same(p.kind.as_str(), "notification") {
        ItemKind::Notification
    } else {
        return Err(bad_value("非法 kind: ", p.kind.as_str()));
    };
    let deadline = match &p.deadline {
        Some(d) => {
            if is_blank(d.as_str()) {
                None
            } else if Stamp::parse(d.as_str()).is_none() {
                return Err(bad_request(BAD_DEADLINE));
            } else {
                Some(d.clone())
            }
        },
        None => None,
    };
    let todo = match kind {
        ItemKind::Todo => true,
        ItemKind::Notification => false,
    };
    let needs_review = todo && deadline.is_none();
    let mut item = Item {
        id: 0,
        kind,
        title: if is_blank(p.title.as_str()) {
            p.event.clone()
        } else {
            p.title.clone()
        },
        party: p.party.clone(),
        event: if is_blank(p.event.as_str()) {
            p.title.clone()
        } else {
            p.event.clone()
        },
        category: if is_blank(p.category.as_str()) {
            "todo".to_owned()
        } else {
            p.category.clone()
        },
        deadline,
        remind_at: None,
        remind_policy: String::new(),
        needs_review,
        status: ItemStatus::Active,
        source_email_id: None,
        account_id,
        notes: p.notes.clone(),
        created_at: now.to_owned(),
        updated_at: now.to_owned(),
    };
    set_reminders(&mut item, false, cfg, now);
    Ok(item)
}

/// Whether an item is another one as a user rewrites it: what it is, where it comes from and where
/// it stands stay, and so does whether it is of something that lapses.
pub open spec fn item_rewritten(
    r: Item,
    p: ItemPayload,
    kind: ItemKind,
    old: Item,
    cfg: AppConfig,
    now: Seq<char>,
) -> bool {
    let deadline = written_deadline(p.deadline);
    &&& r.id == old.id
    &&& r.kind == kind
    &&& r.title == if blank(p.title@) {
        p.event
    } else {
        p.title
    }
    &&& r.party == p.party
    &&& r.event == if blank(p.event@) {
        p.title
    } else {
        p.event
    }
    &&& r.category@ == if blank(p.category@) {
        "todo"@
    } else {
        p.category@
    }
    &&& text_of(r.deadline) == deadline
    &&& r.remind_policy@ == policy(
        deadline,
        old.remind_policy@ == remind_policy::LINK_EXPIRY@,
        now,
    )
    &&& text_of(r.remind_at) == first_reminder(r, cfg, now)
    &&& r.needs_review == (kind == ItemKind::Todo && deadline is None && old.needs_review)
    &&& r.status == old.status
    &&& r.source_email_id == old.source_email_id
    &&& r.account_id == old.account_id
    &&& r.notes == p.notes
    &&& r.created_at == old.created_at
    &&& r.updated_at@ == now
}

/// An item as a user rewrites it.
pub fn update_item(p: &ItemPayload, old_item: &Item, cfg: &AppConfig, now: &str) -> (r: Result<
    Item,
    ApiError,
>)
    ensures
        match (written_kind(p.kind@), written_deadline(p.deadline)) {
            (None, _) => denied(r, BAD_REQUEST, "非法 kind: "@ + p.kind@),
            (Some(kind), d) => if d is Some && stamp_of(d->0) is None {
                denied(r, BAD_REQUEST, BAD_DEADLINE@)
            } else {
                r matches Ok(it) && item_rewritten(it, *p, kind, *old_item, *cfg, now@)
            },
        },
{
    let mut item = match build_item(p, old_item.account_id, cfg, now) {
        Ok(it) => it,
        Err(e) => return Err(e),
    };
    item.id = old_item.id;
    item.status = old_item.status;
    item.source_email_id = old_item.source_email_id;
    item.created_at = old_item.created_at.clone();
    item.needs_review = item.needs_review && old_item.needs_review;
    let lapsing = same(old_item.remind_policy.as_str(), remind_policy::LINK_EXPIRY);
    set_reminders(&mut item, lapsing, cfg, now);
    Ok(item)
}

/// What a request for many things asks for.
#[derive(Debug)]
pub struct BatchFilters {
    pub kind: Option<String>,
    pub status: Option<String>,
    pub category: Option<String>,
    pub party: Option<String>,
    pub q: Option<String>,
    pub account_id: Option<i64>,
    pub created_after: Option<String>,
    pub created_before: Option<String>,
    pub deadline_after: Option<String>,
    pub deadline_before: Option<String>,
    pub since: Option<String>,
    pub before: Option<String>,
}

/// A request that concerns many things: those named, or else those that the filters let through.
#[derive(Debug)]
pub struct BatchPayload {
    pub ids: Option<Vec<i64>>,
    pub filters: Option<BatchFilters>,
    pub action: String,
    pub category: Option<String>,
}

/// What a request concerns.
#[derive(Debug)]
pub enum Targets<F> {
    Named(Vec<i64>),
    Matching(F),
}

/// How many a request without names concerns at most.
pub const BATCH_LIMIT: usize = 10000;

/// What is wrong with a request that names nothing.
pub const NO_TARGETS: &'static str = "批量操作需要 ids 或 filters";

/// The things that a request names.
pub open spec fn named_ids(p: BatchPayload) -> Seq<i64> {
    match p.ids {
        Some(v) => v@,
        None => Seq::empty(),
    }
}

fn copy_ids(v: &Vec<i64>) -> (r: Vec<i64>)
    ensures
        r@ == v@,
{
    let mut out: Vec<i64> = Vec::new();
    let mut i: usize = 0;
    while i < v.len()
        invariant
            i <= v@.len(),
            out@ == v@.take(i as int),
        decreases v@.len() - i,
    {
        out.push(v[i]);
        assert(v@.take(i + 1) =~= v@.take(i as int).push(v@[i as int]));
        i += 1;
    }
    assert(v@.take(i as int) =~= v@);
    out
}

fn ids_named(p: &BatchPayload) -> (r: Option<Vec<i64>>)
    ensures
        match r {
            Some(v) => v@ == named_ids(*p) && v@.len() > 0,
            None => named_ids(*p).len() == 0,
        },
{
    match &p.ids {
        Some(v) => {
            if v.len() > 0 {
                Some(copy_ids(v))
            } else {
                None
            }
        },
        None => None,
    }
}

/// Whether a filter lets through what a request for many items asks for.
pub open spec fn batch_item_filter(
    f: ItemFilter,
    b: BatchFilters,
    kind: Option<ItemKind>,
    status: Option<ItemStatus>,
) -> bool {
    f == (ItemFilter {
        kind,
        status,
        category: b.category,
        party: b.party,
        q: b.q,
        account_id: b.account_id,
        created_after: b.created_after,
        created_before: b.created_before,
        deadline_after: b.deadline_after,
        deadline_before: b.deadline_before,
        limit: BATCH_LIMIT,
    })
}

/// The items that a request concerns.
pub fn batch_ids_items(p: &BatchPayload) -> (r: Result<Targets<ItemFilter>, ApiError>)
    ensures
        if named_ids(*p).len() > 0 {
            r matches Ok(Targets::Named(v)) && v@ == named_ids(*p)
        } else {
            match p.filters {
                None => denied(r, BAD_REQUEST, NO_TARGETS@),
                Some(b) => match (kind_asked(b.kind), status_asked(b.status)) {
                    (None, _) => denied(r, BAD_REQUEST, "非法 kind: "@ + b.kind->0@),
                    (_, None) => denied(r, BAD_REQUEST, "非法 status: "@ + b.status->0@),
                    (Some(kind), Some(status)) => r matches Ok(Targets::Matching(f))
                        && batch_item_filter(f, b, kind, status),
                },
            }
        },
{
    if let Some(v) = ids_named(p) {
        return Ok(Targets::Named(v));
    }
    match &p.filters {
        None => Err(bad_request(NO_TARGETS)),
        Some(b) => {
            let kind = match ask_kind(&b.kind) {
                Ok(v) => v,
                Err(e) => return Err(e),
            };
            let status = match ask_status(&b.status) {
                Ok(v) => v,
                Err(e) => return Err(e),
            };
            Ok(
                Targets::Matching(
                    ItemFilter {
                        kind,
                        status,
                        category: copy_text(&b.category),
                        party: copy_text(&b.party),
                        q: copy_text(&b.q),
                        account_id: b.account_id,
                        created_after: copy_text(&b.created_after),
                        created_before: copy_text(&b.created_before),
                        deadline_after: copy_text(&b.deadline_after),
                        deadline_before: copy_text(&b.deadline_before),
                        limit: BATCH_LIMIT,
                    },
                ),
            )
        },
    }
}

/// What is done to many items.
#[derive(Clone, Copy, Debug, PartialEq, Eq, Structural)]
pub enum ItemAction {
    Mark(ItemStatus),
    Delete,
}

/// The action of that name.
pub open spec fn item_action(name: Seq<char>) -> Option<ItemAction> {
    if name == "complete"@ {
        Some(ItemAction::Mark(ItemStatus::Completed))
    } else if name == "silent"@ {
        Some(ItemAction::Mark(ItemStatus::Silent))
    } else if name == "activate"@ {
        Some(ItemAction::Mark(ItemStatus::Active))
    } else if name == "delete"@ {
        Some(ItemAction::Delete)
    } else {
        None
    }
}

/// What a request does to many items.
pub fn batch_item_action(p: &BatchPayload) -> (r: Result<ItemAction, ApiError>)
    ensures
        match item_action(p.action@) {
            Some(a) => r == Ok::<ItemAction, ApiError>(a),
            None => denied(
                r,
                BAD_REQUEST,
                "非法 action: "@ + p.action@ + "（complete/silent/activate/delete）"@,
            ),
        },
{
    let name = p.action.as_str();
    if same(name, "complete") {
        Ok(ItemAction::Mark(ItemStatus::Completed))
    } else if same(name, "silent") {
        Ok(ItemAction::Mark(ItemStatus::Silent))
    } else if same(name, "activate") {
        Ok(ItemAction::Mark(ItemStatus::Active))
    } else if same(name, "delete") {
        Ok(ItemAction::Delete)
    } else {
        let mut m = "非法 action: ".to_owned();
        m.append(name);
        m.append("（complete/silent/activate/delete）");
        Err(ApiError(BAD_REQUEST, m))
    }
}

/// The mail that a request concerns.
pub fn batch_ids_emails(p: &BatchPayload) -> (r: Result<Targets<EmailFilter>, ApiError>)
    ensures
        if named_ids(*p).len() > 0 {
            r matches Ok(Targets::Named(v)) && v@ == named_ids(*p)
        } else {
            match p.filters {
                None => denied(r, BAD_REQUEST, NO_TARGETS@),
                Some(b) => r matches Ok(Targets::Matching(f)) && f == (EmailFilter {
                    category: b.category,
                    q: b.q,
                    since: b.since,
                    before: b.before,
                    account_id: b.account_id,
                    label: None,
                    limit: BATCH_LIMIT,
                }),
            }
        },
{
    if let Some(v) = ids_named(p) {
        return Ok(Targets::Named(v));
    }
    match &p.filters {
        None => Err(bad_request(NO_TARGETS)),
        Some(b) => Ok(
            Targets::Matching(
                EmailFilter {
                    category: copy_text(&b.category),
                    q: copy_text(&b.q),
                    since: copy_text(&b.since),
                    before: copy_text(&b.before),
                    account_id: b.account_id,
                    label: None,
                    limit: BATCH_LIMIT,
                },
            ),
        ),
    }
}

/// What is done to much mail.
#[derive(Debug)]
pub enum EmailAction {
    Reclassify(String),
    Delete,
}

/// What a request does to much mail.
pub fn batch_email_action(p: &BatchPayload) -> (r: Result<EmailAction, ApiError>)
    ensures
        if p.action@ == "reclassify"@ {
            match p.category {
                Some(c) if !blank(c@) => r matches Ok(EmailAction::Reclassify(t)) && t@ == trimmed(
                    c@,
                ),
                _ => denied(r, BAD_REQUEST, "reclassify 需要 category"@),
            }
        } else if p.action@ == "delete"@ {
            r == Ok::<EmailAction, ApiError>(EmailAction::Delete)
        } else {
            denied(r, BAD_REQUEST, "非法 action: "@ + p.action@ + "（reclassify/delete）"@)
        },
{
    let name = p.action.as_str();
    if same(name, "reclassify") {
        if let Some(c) = &p.category {
            if !is_blank(c.as_str()) {
                return Ok(EmailAction::Reclassify(trim(c.as_str())));
            }
        }
        Err(bad_request("reclassify 需要 category"))
    } else if same(name, "delete") {
        Ok(EmailAction::Delete)
    } else {
        let mut m = "非法 action: ".to_owned();
        m.append(name);
        m.append("（reclassify/delete）");
        Err(ApiError(BAD_REQUEST, m))
    }
}

/// What is told of a request that concerned many things.
pub fn batch_json(matched: usize, changed: usize, action: &str) -> (r: Json)
    ensures
        view_of(r) == JsonView::Obj(
            members().push(("matched"@, count_view(matched))).push(
                ("changed"@, count_view(changed)),
            ).push(("action"@, JsonView::Str(action@))),
        ),
{
    let mut m: Vec<(String, Json)> = Vec::new();
    put(&mut m, "matched", count_json(matched));
    put(&mut m, "changed", count_json(changed));
    put_text(&mut m, "action", action);
    Json::Obj(m)
}

/// Which mail a user wants to see.
#[derive(Debug)]
pub struct EmailQuery {
    pub category: Option<String>,
    pub q: Option<String>,
    pub since: Option<String>,
    pub before: Option<String>,
    pub account_id: Option<i64>,
    /// The label that the user gave; `__none__`, or the empty text, for none.
    pub label: Option<String>,
    pub limit: Option<usize>,
}

/// What a query for mail asks for.
pub fn email_filter_from_query(q: &EmailQuery) -> (r: Result<EmailFilter, ApiError>)
    ensures
        if !bound_ok(q.since) {
            denied(r, BAD_REQUEST, "since"@ + " 需要 RFC3339 格式"@)
        } else if !bound_ok(q.before) {
            denied(r, BAD_REQUEST, "before"@ + " 需要 RFC3339 格式"@)
        } else {
            r matches Ok(f) && f == (EmailFilter {
                category: q.category,
                q: q.q,
                since: q.since,
                before: q.before,
                account_id: q.account_id,
                label: q.label,
                limit: limit_or(q.limit, 500),
            })
        },
{
    if !bound_reads(&q.since) {
        return Err(bad_bound("since"));
    }
    if !bound_reads(&q.before) {
        return Err(bad_bound("before"));
    }
    Ok(
        EmailFilter {
            category: copy_text(&q.category),
            q: copy_text(&q.q),
            since: copy_text(&q.since),
            before: copy_text(&q.before),
            account_id: q.account_id,
            label: copy_text(&q.label),
            limit: limit_of(q.limit, 500),
        },
    )
}

/// What a user notes on how mail was handled.
#[derive(Debug)]
pub struct EmailLabelPayload {
    /// Empty to take the label away.
    pub label: String,
    pub note: String,
}

/// What is kept of a note: label and note without the space around them, as long as they are not
/// too long.
pub fn checked_label(p: &EmailLabelPayload) -> (r: Result<(String, String), ApiError>)
    ensures
        if trimmed(p.label@).len() > 32 {
            denied(r, BAD_REQUEST, "label 过长（最多 32 字符）"@)
        } else if trimmed(p.note@).len() > 500 {
            denied(r, BAD_REQUEST, "note 过长（最多 500 字符）"@)
        } else {
            r matches Ok((l, n)) && l@ == trimmed(p.label@) && n@ == trimmed(p.note@)
        },
{
    let label = trim(p.label.as_str());
    let note = trim(p.note.as_str());
    let l = chars_of(label.as_str());
    if l.len() > 32 {
        return Err(bad_request("label 过长（最多 32 字符）"));
    }
    let n = chars_of(note.as_str());
    if n.len() > 500 {
        return Err(bad_request("note 过长（最多 500 字符）"));
    }
    Ok((label, note))
}

/// What is told of a note that was kept.
pub fn label_json(email_id: i64, label: &str, note: &str) -> (r: Json)
    ensures
        view_of(r) == JsonView::Obj(
            members().push(("email_id"@, JsonView::Int(email_id))).push(
                ("label"@, JsonView::Str(label@)),
            ).push(("note"@, JsonView::Str(note@))),
        ),
{
    let mut m: Vec<(String, Json)> = Vec::new();
    put(&mut m, "email_id", Json::Int(email_id));
    put_text(&mut m, "label", label);
    put_text(&mut m, "note", note);
    Json::Obj(m)
}

/// A category that a user gives a mail.
#[derive(Debug)]
pub struct ReclassifyPayload {
    pub category: String,
}

/// The category that a user gives a mail.
pub fn checked_category(p: &ReclassifyPayload) -> (r: Result<String, ApiError>)
    ensures
        if blank(p.category@) {
            denied(r, BAD_REQUEST, "category 不能为空"@)
        } else {
            r matches Ok(c) && c@ == trimmed(p.category@)
        },
{
    if is_blank(p.category.as_str()) {
        return Err(bad_request("category 不能为空"));
    }
    Ok(trim(p.category.as_str()))
}

/// What follows where a user gives a mail another category.
#[derive(Clone, Copy, Debug, PartialEq, Eq, Structural)]
pub enum Reclassified {
    /// What is to be done is extracted, and the item made or made anew.
    Extract,
    /// The item that was made of it is taken back.
    Revoke(i64),
    Nothing,
}

/// What follows where a user gives a mail another category: where that is one of things to do, the
/// item is made; else what was to be done is taken back. A notification stays.
pub open spec fn reclassified(
    stored: Option<CategoryInfo>,
    category: Seq<char>,
    item: Option<Item>,
) -> Reclassified {
    if makes_todo(stored, category) {
        Reclassified::Extract
    } else {
        match item {
            Some(it) if it.kind == ItemKind::Todo => Reclassified::Revoke(it.id),
            _ => Reclassified::Nothing,
        }
    }
}

/// What follows where a user gives a mail another category; `item` is the item that it has.
pub fn reclassify(stored: &Option<CategoryInfo>, category: &str, item: &Option<Item>) -> (r:
    Reclassified)
    ensures
        r == reclassified(*stored, category@, *item),
{
    if can_make_todo(stored, category) {
        return Reclassified::Extract;
    }
    match item {
        Some(it) => match it.kind {
            ItemKind::Todo => Reclassified::Revoke(it.id),
            ItemKind::Notification => Reclassified::Nothing,
        },
        None => Reclassified::Nothing,
    }
}

/// The item of a mail that a user gave another category, made anew; it takes the place of the one
/// that the mail has.
pub fn reclassified_item(
    ex: &TodoExtract,
    email: &EmailRecord,
    email_id: i64,
    category: &str,
    cfg: &AppConfig,
    now: &Stamp,
    now_text: &str,
) -> (r: Item)
    ensures
        r.id == match email.item_id {
            Some(id) => id,
            None => 0,
        },
        item_of_mail(
            (Item { id: 0, ..r }),
            (
                todo_view(*ex).0,
                todo_view(*ex).1,
                todo_view(*ex).2,
                todo_view(*ex).3,
                None,
                todo_view(*ex).5,
            ),
            *email,
            email_id,
            category@,
            *cfg,
            *now,
            now_text@,
        ),
{
    let plain = TodoExtract {
        party: ex.party.clone(),
        event: ex.event.clone(),
        title: ex.title.clone(),
        deadline: copy_text(&ex.deadline),
        category: None,
        notes: ex.notes.clone(),
    };
    let mut item = item_from_extract(&plain, email, email_id, category, cfg, now, now_text);
    let ghost made = item;
    if let Some(id) = email.item_id {
        item.id = id;
    }
    assert((Item { id: 0, ..item }) == made);
    item
}

/// What is told of a mail that was given another category: its item was made or made anew only
/// where something to do was extracted.
pub fn reclassified_json(email_id: i64, category: &str, done: &Reclassified) -> (r: Json)
    ensures
        view_of(r) == JsonView::Obj(
            members().push(("email_id"@, JsonView::Int(email_id))).push(
                ("category"@, JsonView::Str(category@)),
            ).push(("item_updated"@, JsonView::Bool(*done is Extract))),
        ),
{
    let mut m: Vec<(String, Json)> = Vec::new();
    put(&mut m, "email_id", Json::Int(email_id));
    put_text(&mut m, "category", category);
    let item_updated = match done {
        Reclassified::Extract => true,
        _ => false,
    };
    put(&mut m, "item_updated", Json::Bool(item_updated));
    Json::Obj(m)
}

/// A request to fetch mail.
#[derive(Debug)]
pub struct FetchPayload {
    pub account_id: Option<i64>,
    /// An RFC 3339 time, or a date.
    pub since: Option<String>,
    /// `3d`, `7d`, `15d` or `30d`.
    pub range: Option<String>,
    pub limit: Option<usize>,
}

/// The days of a range.
pub open spec fn range_days(r: Seq<char>) -> Option<int> {
    if r == "3d"@ {
        Some(3)
    } else if r == "7d"@ {
        Some(7)
    } else if r == "15d"@ {
        Some(15)
    } else if r == "30d"@ {
        Some(30)
    } else {
        None
    }
}

/// The moment that a text tells: an RFC 3339 time, or the start of a day in the zone.
pub open spec fn told_moment(s: Seq<char>, zone: Seq<char>) -> Result<Stamp, Seq<char>> {
    match stamp_of(s) {
        Some(t) => Ok(t),
        None => match civil_date(s) {
            Some((y, m, d)) => match single_moment(zone_moments(zone, y, m, d, 0, 0, 0)) {
                Some(t) => Ok(t),
                None => Err("since 时区转换失败"@),
            },
            None => Err("since 需要 RFC3339 或 YYYY-MM-DD 格式"@),
        },
    }
}

/// From when on mail is looked at: so many days ago, or a given moment; the range counts where both
/// are given.
pub fn fetch_since(p: &FetchPayload, zone: &Zone, now: &Stamp) -> (r: Result<
    Option<Stamp>,
    ApiError,
>)
    ensures
        match p.range {
            Some(range) => match range_days(range@) {
                Some(days) => match now.later((-days * DAY) as i64) {
                    Some(t) => r == Ok::<Option<Stamp>, ApiError>(Some(t)),
                    None => denied(r, INTERNAL, "时间超出范围"@),
                },
                None => denied(
                    r,
                    BAD_REQUEST,
                    "非法 range: "@ + range@ + "（3d/7d/15d/30d）"@,
                ),
            },
            None => match p.since {
                Some(s) if !blank(s@) => match told_moment(s@, zone@) {
                    Ok(t) => r == Ok::<Option<Stamp>, ApiError>(Some(t)),
                    Err(m) => denied(r, BAD_REQUEST, m),
                },
                _ => r == Ok::<Option<Stamp>, ApiError>(None),
            },
        },
{
    if let Some(range) = &p.range {
        let name = range.as_str();
        let days: i64 = if same(name, "3d") {
            3
        } else if same(name, "7d") {
            7
        } else if same(name, "15d") {
            15
        } else if same(name, "30d") {
            30
        } else {
            let mut m = "非法 range: ".to_owned();
            m.append(name);
            m.append("（3d/7d/15d/30d）");
            return Err(ApiError(BAD_REQUEST, m));
        };
        return match now.plus_seconds(-days * DAY) {
            Some(t) => Ok(Some(t)),
            None => Err(ApiError(INTERNAL, "时间超出范围".to_owned())),
        };
    }
    match &p.since {
        Some(s) => {
            if is_blank(s.as_str()) {
                return Ok(None);
            }
            if let Some(t) = Stamp::parse(s.as_str()) {
                return Ok(Some(t));
            }
            match date_of(s.as_str()) {
                Some((y, m, d)) => match zone.only_moment(y, m, d, 0, 0, 0) {
                    Some(t) => Ok(Some(t)),
                    None => Err(bad_request("since 时区转换失败")),
                },
                None => Err(bad_request("since 需要 RFC3339 或 YYYY-MM-DD 格式")),
            }
        },
        None => Ok(None),
    }
}

/// The first account of that identifier.
pub open spec fn account_at(list: Seq<MailAccount>, id: i64) -> Option<int>
    decreases list.len(),
{
    if list.len() == 0 {
        None
    } else if list[0].id == id {
        Some(0)
    } else {
        match account_at(list.drop_first(), id) {
            Some(i) => Some(i + 1),
            None => None,
        }
    }
}

fn find_account(list: &Vec<MailAccount>, id: i64) -> (r: Option<usize>)
    ensures
        match r {
            Some(i) => account_at(list@, id) == Some(i as int) && i < list@.len()
                && list@[i as int].id == id,
            None => account_at(list@, id) is None,
        },
{
    let mut i: usize = 0;
    assert(list@.skip(0) =~= list@);
    while i < list.len()
        invariant
            i <= list@.len(),
            account_at(list@, id) == (match account_at(list@.skip(i as int), id) {
                Some(k) => Some(k + i),
                None => None,
            }),
        decreases list@.len() - i,
    {
        assert(list@.skip(i as int).drop_first() =~= list@.skip(i + 1));
        assert(list@.skip(i as int)[0] == list@[i as int]);
        if list[i].id == id {
            return Some(i);
        }
        i += 1;
    }
    None
}

/// The first account that passes a test.
pub open spec fn first_such(list: Seq<MailAccount>, p: spec_fn(MailAccount) -> bool) -> Option<int>
    decreases list.len(),
{
    if list.len() == 0 {
        None
    } else if p(list[0]) {
        Some(0)
    } else {
        match first_such(list.drop_first(), p) {
            Some(i) => Some(i + 1),
            None => None,
        }
    }
}

/// Whether an account is the default one.
pub open spec fn is_default() -> spec_fn(MailAccount) -> bool {
    |a: MailAccount| a.is_default
}

/// Whether an account is in use.
pub open spec fn is_enabled() -> spec_fn(MailAccount) -> bool {
    |a: MailAccount| a.enabled
}

fn find_default(list: &Vec<MailAccount>) -> (r: Option<usize>)
    ensures
        match r {
            Some(i) => first_such(list@, is_default()) == Some(i as int) && i < list@.len(),
            None => first_such(list@, is_default()) is None,
        },
{
    let mut i: usize = 0;
    assert(list@.skip(0) =~= list@);
    while i < list.len()
        invariant
            i <= list@.len(),
            first_such(list@, is_default()) == (match first_such(
                list@.skip(i as int),
                is_default(),
            ) {
                Some(k) => Some(k + i),
                None => None,
            }),
        decreases list@.len() - i,
    {
        assert(list@.skip(i as int).drop_first() =~= list@.skip(i + 1));
        assert(list@.skip(i as int)[0] == list@[i as int]);
        if list[i].is_default {
            return Some(i);
        }
        i += 1;
    }
    None
}

fn find_enabled(list: &Vec<MailAccount>) -> (r: Option<usize>)
    ensures
        match r {
            Some(i) => first_such(list@, is_enabled()) == Some(i as int) && i < list@.len(),
            None => first_such(list@, is_enabled()) is None,
        },
{
    let mut i: usize = 0;
    assert(list@.skip(0) =~= list@);
    while i < list.len()
        invariant
            i <= list@.len(),
            first_such(list@, is_enabled()) == (match first_such(
                list@.skip(i as int),
                is_enabled(),
            ) {
                Some(k) => Some(k + i),
                None => None,
            }),
        decreases list@.len() - i,
    {
        assert(list@.skip(i as int).drop_first() =~= list@.skip(i + 1));
        assert(list@.skip(i as int)[0] == list@[i as int]);
        if list[i].enabled {
            return Some(i);
        }
        i += 1;
    }
    None
}

/// What is wrong where there is no account to fetch from.
pub const NO_ACCOUNT: &'static str = "没有可用邮箱账户，请先在“账户”页添加";

/// The account that mail is fetched from, by its place: the one named, else the default one, else
/// the first that is in use.
pub fn fetch_account(accounts: &Vec<MailAccount>, wanted: Option<i64>) -> (r: Result<
    usize,
    ApiError,
>)
    ensures
        match wanted {
            Some(id) => match account_at(accounts@, id) {
                Some(i) => r matches Ok(n) && n == i && n < accounts@.len(),
                None => denied(r, NOT_FOUND, absent("账户 "@, id)),
            },
            None => match (
                first_such(accounts@, is_default()),
                first_such(accounts@, is_enabled()),
            ) {
                (Some(i), _) => r matches Ok(n) && n == i && n < accounts@.len(),
                (None, Some(i)) => r matches Ok(n) && n == i && n < accounts@.len(),
                (None, None) => denied(r, BAD_REQUEST, NO_ACCOUNT@),
            },
        },
{
    match wanted {
        Some(id) => match find_account(accounts, id) {
            Some(i) => Ok(i),
            None => Err(no_such_account(id)),
        },
        None => match find_default(accounts) {
            Some(i) => Ok(i),
            None => match find_enabled(accounts) {
                Some(i) => Ok(i),
                None => Err(bad_request(NO_ACCOUNT)),
            },
        },
    }
}

/// An account as a user writes it.
#[derive(Debug)]
pub struct AccountPayload {
    pub label: Option<String>,
    pub address: Option<String>,
    pub imap_host: Option<String>,
    pub imap_port: Option<u16>,
    pub imap_user: Option<String>,
    pub imap_password: Option<String>,
    pub imap_tls_insecure: Option<bool>,
    pub smtp_host: Option<String>,
    pub smtp_port: Option<u16>,
    pub smtp_user: Option<String>,
    pub smtp_password: Option<String>,
    pub smtp_tls_insecure: Option<bool>,
    pub enabled: Option<bool>,
    pub reminder_to: Option<String>,
}

/// Whether a text is there and blank.
pub open spec fn blank_given(t: Option<String>) -> bool {
    t matches Some(s) && blank(s@)
}

/// Whether a text is there and not blank.
pub open spec fn filled_in(t: Option<String>) -> bool {
    t matches Some(s) && !blank(s@)
}

fn is_blank_given(t: &Option<String>) -> (r: bool)
    ensures
        r == blank_given(*t),
{
    match t {
        Some(s) => is_blank(s.as_str()),
        None => false,
    }
}

fn is_filled_in(t: &Option<String>) -> (r: bool)
    ensures
        r == filled_in(*t),
{
    match t {
        Some(s) => !is_blank(s.as_str()),
        None => false,
    }
}

/// Whether what a user writes of an account can stand: nothing that has to be there is blank, and
/// the passwords are there where they have to be.
pub fn validate_account_payload(p: &AccountPayload, require_password: bool) -> (r: Result<
    (),
    ApiError,
>)
    ensures
        if blank_given(p.address) {
            denied(r, BAD_REQUEST, "邮箱地址不能为空"@)
        } else if blank_given(p.imap_host) {
            denied(r, BAD_REQUEST, "IMAP 服务器不能为空"@)
        } else if blank_given(p.smtp_host) {
            denied(r, BAD_REQUEST, "SMTP 服务器不能为空"@)
        } else if require_password && !(filled_in(p.imap_password) && filled_in(p.smtp_password)) {
            denied(r, BAD_REQUEST, "新建账户需要填写 IMAP/SMTP 密码"@)
        } else {
            r is Ok
        },
{
    if is_blank_given(&p.address) {
        return Err(bad_request("邮箱地址不能为空"));
    }
    if is_blank_given(&p.imap_host) {
        return Err(bad_request("IMAP 服务器不能为空"));
    }
    if is_blank_given(&p.smtp_host) {
        return Err(bad_request("SMTP 服务器不能为空"));
    }
    if require_password && !(is_filled_in(&p.imap_password) && is_filled_in(&p.smtp_password)) {
        return Err(bad_request("新建账户需要填写 IMAP/SMTP 密码"));
    }
    Ok(())
}

/// A text, or another one where there is none.
pub open spec fn text_or(t: Option<String>, other: Seq<char>) -> Seq<char> {
    match t {
        Some(s) => s@,
        None => other,
    }
}

fn given_or(t: &Option<String>, other: &str) -> (r: String)
    ensures
        r@ == text_or(*t, other@),
{
    match t {
        Some(s) => s.clone(),
        None => other.to_owned(),
    }
}

/// A port, or the usual one.
pub open spec fn port_or(p: Option<u16>, usual: u16) -> u16 {
    match p {
        Some(n) => n,
        None => usual,
    }
}

/// A choice, or the usual one.
pub open spec fn flag_or(b: Option<bool>, usual: bool) -> bool {
    match b {
        Some(v) => v,
        None => usual,
    }
}

fn port_given(p: Option<u16>, usual: u16) -> (r: u16)
    ensures
        r == port_or(p, usual),
{
    match p {
        Some(n) => n,
        None => usual,
    }
}

fn flag_given(b: Option<bool>, usual: bool) -> (r: bool)
    ensures
        r == flag_or(b, usual),
{
    match b {
        Some(v) => v,
        None => usual,
    }
}

/// Whether an account is the one that a user writes.
pub open spec fn account_as_written(a: MailAccount, p: AccountPayload, now: Seq<char>) -> bool {
    &&& a.id == 0
    &&& a.label@ == text_or(p.label, "邮箱账户"@)
    &&& a.address@ == text_or(p.address, ""@)
    &&& a.imap_host@ == text_or(p.imap_host, ""@)
    &&& a.imap_port == port_or(p.imap_port, 993)
    &&& a.imap_user@ == text_or(p.imap_user, ""@)
    &&& a.imap_password@ == text_or(p.imap_password, ""@)
    &&& a.imap_tls_insecure == flag_or(p.imap_tls_insecure, false)
    &&& a.smtp_host@ == text_or(p.smtp_host, ""@)
    &&& a.smtp_port == port_or(p.smtp_port, 465)
    &&& a.smtp_user@ == text_or(p.smtp_user, ""@)
    &&& a.smtp_password@ == text_or(p.smtp_password, ""@)
    &&& a.smtp_tls_insecure == flag_or(p.smtp_tls_insecure, false)
    &&& a.enabled == flag_or(p.enabled, true)
    &&& !a.is_default
    &&& a.reminder_to@ == text_or(p.reminder_to, ""@)
    &&& a.created_at@ == now
    &&& a.updated_at@ == now
}

/// The account that a user writes.
pub fn new_account(p: &AccountPayload, now: &str) -> (r: MailAccount)
    ensures
        account_as_written(r, *p, now@),
{
    MailAccount {
        id: 0,
        label: given_or(&p.label, "邮箱账户"),
        address: given_or(&p.address, ""),
        imap_host: given_or(&p.imap_host, ""),
        imap_port: port_given(p.imap_port, 993),
        imap_user: given_or(&p.imap_user, ""),
        imap_password: given_or(&p.imap_password, ""),
        imap_tls_insecure: flag_given(p.imap_tls_insecure, false),
        smtp_host: given_or(&p.smtp_host, ""),
        smtp_port: port_given(p.smtp_port, 465),
        smtp_user: given_or(&p.smtp_user, ""),
        smtp_password: given_or(&p.smtp_password, ""),
        smtp_tls_insecure: flag_given(p.smtp_tls_insecure, false),
        enabled: flag_given(p.enabled, true),
        is_default: false,
        reminder_to: given_or(&p.reminder_to, ""),
        created_at: now.to_owned(),
        updated_at: now.to_owned(),
    }
}

/// A password after a user wrote one: the one that was there where nothing was written, or what
/// stands for a password that is not shown.
pub open spec fn password_kept(written: Option<String>, old: Seq<char>) -> Seq<char> {
    match written {
        Some(s) if !blank(s@) && s@ != "***"@ => s@,
        _ => old,
    }
}

fn keep_password(written: &Option<String>, old_password: &String) -> (r: String)
    ensures
        r@ == password_kept(*written, old_password@),
{
    match written {
        Some(s) => {
            if is_blank(s.as_str()) || same(s.as_str(), "***") {
                old_password.clone()
            } else {
                s.clone()
            }
        },
        None => old_password.clone(),
    }
}

/// Whether an account is another one with what a user writes of how it is reached.
pub open spec fn account_tried(r: MailAccount, p: AccountPayload, a: MailAccount) -> bool {
    &&& r.id == a.id
    &&& r.label@ == text_or(p.label, a.label@)
    &&& r.address@ == text_or(p.address, a.address@)
    &&& r.imap_host@ == text_or(p.imap_host, a.imap_host@)
    &&& r.imap_port == port_or(p.imap_port, a.imap_port)
    &&& r.imap_user@ == text_or(p.imap_user, a.imap_user@)
    &&& r.imap_password@ == password_kept(p.imap_password, a.imap_password@)
    &&& r.imap_tls_insecure == flag_or(p.imap_tls_insecure, a.imap_tls_insecure)
    &&& r.smtp_host@ == text_or(p.smtp_host, a.smtp_host@)
    &&& r.smtp_port == port_or(p.smtp_port, a.smtp_port)
    &&& r.smtp_user@ == text_or(p.smtp_user, a.smtp_user@)
    &&& r.smtp_password@ == password_kept(p.smtp_password, a.smtp_password@)
    &&& r.smtp_tls_insecure == flag_or(p.smtp_tls_insecure, a.smtp_tls_insecure)
    &&& r.is_default == a.is_default
    &&& r.created_at == a.created_at
}

/// An account with what a user writes of how it is reached, to try it out; nothing else changes.
pub fn draft_account(a: &MailAccount, p: &AccountPayload) -> (r: MailAccount)
    ensures
        account_tried(r, *p, *a),
        r.enabled == a.enabled,
        r.reminder_to == a.reminder_to,
        r.updated_at == a.updated_at,
{
    MailAccount {
        id: a.id,
        label: given_or(&p.label, a.label.as_str()),
        address: given_or(&p.address, a.address.as_str()),
        imap_host: given_or(&p.imap_host, a.imap_host.as_str()),
        imap_port: port_given(p.imap_port, a.imap_port),
        imap_user: given_or(&p.imap_user, a.imap_user.as_str()),
        imap_password: keep_password(&p.imap_password, &a.imap_password),
        imap_tls_insecure: flag_given(p.imap_tls_insecure, a.imap_tls_insecure),
        smtp_host: given_or(&p.smtp_host, a.smtp_host.as_str()),
        smtp_port: port_given(p.smtp_port, a.smtp_port),
        smtp_user: given_or(&p.smtp_user, a.smtp_user.as_str()),
        smtp_password: keep_password(&p.smtp_password, &a.smtp_password),
        smtp_tls_insecure: flag_given(p.smtp_tls_insecure, a.smtp_tls_insecure),
        enabled: a.enabled,
        is_default: a.is_default,
        reminder_to: a.reminder_to.clone(),
        created_at: a.created_at.clone(),
        updated_at: a.updated_at.clone(),
    }
}

/// An account as a user rewrites it: what is not written stays.
pub fn update_account(a: &MailAccount, p: &AccountPayload, now: &str) -> (r: MailAccount)
    ensures
        account_tried(r, *p, *a),
        r.enabled == flag_or(p.enabled, a.enabled),
        r.reminder_to@ == text_or(p.reminder_to, a.reminder_to@),
        r.updated_at@ == now@,
{
    let mut out = draft_account(a, p);
    out.enabled = flag_given(p.enabled, a.enabled);
    out.reminder_to = given_or(&p.reminder_to, a.reminder_to.as_str());
    out.updated_at = now.to_owned();
    out
}

/// What is wrong where the last account is to go.
pub const LAST_ACCOUNT: &'static str = "至少保留一个邮箱账户";

/// Whether an account is another one.
pub open spec fn other_than(id: i64) -> spec_fn(MailAccount) -> bool {
    |a: MailAccount| a.id != id
}

/// Whether an account may go, and which one becomes the default one with that: the first that
/// stays, where the one that goes was it.
pub fn delete_account(accounts: &Vec<MailAccount>, id: i64) -> (r: Result<Option<i64>, ApiError>)
    ensures
        if accounts@.len() <= 1 {
            denied(r, BAD_REQUEST, LAST_ACCOUNT@)
        } else {
            match account_at(accounts@, id) {
                None => denied(r, NOT_FOUND, absent("账户 "@, id)),
                Some(i) => r == Ok::<Option<i64>, ApiError>(
                    if !accounts@[i].is_default {
                        None
                    } else {
                        match first_such(accounts@, other_than(id)) {
                            Some(k) => Some(accounts@[k].id),
                            None => None,
                        }
                    },
                ),
            }
        },
{
    if accounts.len() <= 1 {
        return Err(bad_request(LAST_ACCOUNT));
    }
    let at = match find_account(accounts, id) {
        Some(i) => i,
        None => return Err(no_such_account(id)),
    };
    if !accounts[at].is_default {
        return Ok(None);
    }
    let mut i: usize = 0;
    assert(accounts@.skip(0) =~= accounts@);
    while i < accounts.len()
        invariant
            i <= accounts@.len(),
            first_such(accounts@, other_than(id)) == (match first_such(
                accounts@.skip(i as int),
                other_than(id),
            ) {
                Some(k) => Some(k + i),
                None => None,
            }),
            accounts@.len() > 1,
            account_at(accounts@, id) == Some(at as int),
            at < accounts@.len(),
            accounts@[at as int].is_default,
        decreases accounts@.len() - i,
    {
        assert(accounts@.skip(i as int).drop_first() =~= accounts@.skip(i + 1));
        assert(accounts@.skip(i as int)[0] == accounts@[i as int]);
        if accounts[i].id != id {
            return Ok(Some(accounts[i].id));
        }
        i += 1;
    }
    Ok(None)
}

/// What is told of a try to reach an account.
pub fn reached_json(error: &Option<String>) -> (r: Json)
    ensures
        view_of(r) == JsonView::Obj(
            members().push(("ok"@, JsonView::Bool(*error is None))).push(
                (
                    "message"@,
                    JsonView::Str(
                        match *error {
                            Some(e) => e@,
                            None => "IMAP 连接成功"@,
                        },
                    ),
                ),
            ),
        ),
{
    let mut m: Vec<(String, Json)> = Vec::new();
    match error {
        Some(e) => {
            put(&mut m, "ok", Json::Bool(false));
            put_text(&mut m, "message", e.as_str());
        },
        None => {
            put(&mut m, "ok", Json::Bool(true));
            put_text(&mut m, "message", "IMAP 连接成功");
        },
    }
    Json::Obj(m)
}

/// A category as a user writes it.
#[derive(Debug)]
pub struct CategoryPayload {
    pub id: String,
    pub label: String,
    pub create_item: bool,
    pub kind: String,
}

/// Whether mail of a category that a user writes makes items, where it is left open.
pub fn default_true() -> (r: bool)
    ensures
        r,
{
    true
}

/// The kind of a category that a user writes, where it is left open.
pub fn default_kind() -> (r: String)
    ensures
        r@ == "todo"@,
{
    "todo".to_owned()
}

/// The category that a user writes.
pub fn create_category(p: &CategoryPayload) -> (r: Result<NewCategory, ApiError>)
    ensures
        if !category_id(trimmed(p.id@)) {
            denied(r, BAD_REQUEST, BAD_ID@)
        } else if blank(p.label@) {
            denied(r, BAD_REQUEST, "label 不能为空"@)
        } else if p.kind@ != "todo"@ && p.kind@ != "notification"@ {
            denied(r, BAD_REQUEST, BAD_KIND@)
        } else {
            r matches Ok(c) && c.id@ == trimmed(p.id@) && c.label@ == trimmed(p.label@)
                && c.create_item == p.create_item && c.kind@ == p.kind@
        },
{
    let id = trim(p.id.as_str());
    if !is_category_id(id.as_str()) {
        return Err(bad_request(BAD_ID));
    }
    if is_blank(p.label.as_str()) {
        return Err(bad_request("label 不能为空"));
    }
    if !same(p.kind.as_str(), "todo") && !same(p.kind.as_str(), "notification") {
        return Err(bad_request(BAD_KIND));
    }
    Ok(
        NewCategory {
            id,
            label: trim(p.label.as_str()),
            create_item: p.create_item,
            kind: p.kind.clone(),
        },
    )
}

/// What is told of a category that was added, or that was there.
pub fn category_created_json(created: bool, c: &CategoryInfo) -> (r: Json)
    ensures
        view_of(r) == JsonView::Obj(
            members().push(("created"@, JsonView::Bool(created))).push(
                ("category"@, category_record(*c)),
            ),
        ),
{
    let mut m: Vec<(String, Json)> = Vec::new();
    put(&mut m, "created", Json::Bool(created));
    put(&mut m, "category", category_json(c));
    Json::Obj(m)
}

/// Which requests of the agent a user wants to see.
#[derive(Debug)]
pub struct ApprovalQuery {
    pub status: Option<String>,
    pub limit: Option<usize>,
}

/// Whether requests can have that status.
pub open spec fn request_status(s: Seq<char>) -> bool {
    s == "pending"@ || s == "approved"@ || s == "rejected"@
}

/// The status and the number of the requests that a user wants to see.
pub fn approvals_wanted(q: &ApprovalQuery) -> (r: Result<(Option<String>, usize), ApiError>)
    ensures
        match q.status {
            Some(s) if !request_status(s@) => denied(r, BAD_REQUEST, "非法 status: "@ + s@),
            _ => r matches Ok((s, n)) && s == q.status && n == limit_or(q.limit, 200),
        },
{
    if let Some(s) = &q.status {
        let name = s.as_str();
        if !same(name, "pending") && !same(name, "approved") && !same(name, "rejected") {
            return Err(bad_value("非法 status: ", name));
        }
    }
    Ok((copy_text(&q.status), limit_of(q.limit, 200)))
}

/// Whether a request can still be decided on: it is there and waits.
pub fn check_pending(approval: &Option<Approval>, id: i64) -> (r: Result<(), ApiError>)
    ensures
        match *approval {
            None => denied(r, NOT_FOUND, absent("审批单 "@, id)),
            Some(a) => if a.status@ == "pending"@ {
                r is Ok
            } else {
                denied(
                    r,
                    BAD_REQUEST,
                    "审批单 "@ + signed_decimal(id as int) + " 已处理（"@ + a.status@ + "）"@,
                )
            },
        },
{
    match approval {
        None => Err(not_there("审批单 ", id)),
        Some(a) => {
            if same(a.status.as_str(), "pending") {
                Ok(())
            } else {
                let mut m = numbered("审批单 ", id, " 已处理（");
                m.append(a.status.as_str());
                m.append("）");
                Err(ApiError(BAD_REQUEST, m))
            }
        },
    }
}

/// The arguments of a request that a user approves, as they were kept.
pub fn approved_args(payload_json: &str) -> (r: Result<Json, ApiError>)
    ensures
        match json_told(payload_json@) {
            Ok(v) => r matches Ok(j) && view_of(j) == v,
            Err(e) => denied(r, BAD_REQUEST, "审批参数损坏: "@ + e),
        },
{
    match read(payload_json) {
        Ok(j) => Ok(j),
        Err(e) => {
            let mut m = "审批参数损坏: ".to_owned();
            m.append(e.as_str());
            Err(bad_request(m.as_str()))
        },
    }
}

/// What a request becomes: approved where it was carried out, rejected where it could not be.
pub fn decided_status(carried_out: bool) -> (r: &'static str)
    ensures
        r@ == if carried_out {
            "approved"@
        } else {
            "rejected"@
        },
{
    if carried_out {
        "approved"
    } else {
        "rejected"
    }
}

/// What is told of a request that was approved, with what came of it: why, where it could not be
/// carried out.
pub fn approved_json(id: i64, tool: &str, result: &ToolResult) -> (r: Json)
    ensures
        view_of(r) == JsonView::Obj(
            if result.ok {
                members().push(("approved"@, JsonView::Bool(true))).push(
                    ("approval_id"@, JsonView::Int(id)),
                ).push(("tool"@, JsonView::Str(tool@)))
            } else {
                members().push(("approved"@, JsonView::Bool(false))).push(
                    ("approval_id"@, JsonView::Int(id)),
                ).push(("tool"@, JsonView::Str(tool@))).push(
                    ("reason"@, JsonView::Str(told_text_of(*result))),
                )
            },
        ),
{
    let mut m: Vec<(String, Json)> = Vec::new();
    put(&mut m, "approved", Json::Bool(result.ok));
    put(&mut m, "approval_id", Json::Int(id));
    put_text(&mut m, "tool", tool);
    if !result.ok {
        let why = write_json(&result.content);
        put_text(&mut m, "reason", why.as_str());
    }
    Json::Obj(m)
}

/// What is told of a request that was rejected.
pub fn rejected_json(id: i64) -> (r: Json)
    ensures
        view_of(r) == JsonView::Obj(
            members().push(("rejected"@, JsonView::Bool(true))).push(
                ("approval_id"@, JsonView::Int(id)),
            ),
        ),
{
    let mut m: Vec<(String, Json)> = Vec::new();
    put(&mut m, "rejected", Json::Bool(true));
    put(&mut m, "approval_id", Json::Int(id));
    Json::Obj(m)
}

/// What is told of something that was deleted, or became the default: its identifier under a name.
pub fn id_json(name: &str, id: i64) -> (r: Json)
    ensures
        view_of(r) == JsonView::Obj(members().push((name@, JsonView::Int(id)))),
{
    let mut m: Vec<(String, Json)> = Vec::new();
    put(&mut m, name, Json::Int(id));
    Json::Obj(m)
}

/// Whether a record is that of a reminder that a user asked for. Its subject ends with the day of
/// the deadline, as that of any reminder; only where no day can be read does it end with today.
pub open spec fn manual_reminder(
    r: SendLog,
    item: Item,
    stored: Option<CategoryInfo>,
    cfg: AppConfig,
    now: Stamp,
    scheduled_at: Seq<char>,
) -> bool {
    &&& r.id == 0
    &&& r.item_id == item.id
    &&& r.attempt == 0
    &&& r.kind@ == "manual"@
    &&& r.to_addr == cfg.reminder.to
    &&& r.subject@ == subject(
        shown_label(stored, cfg, item.category@),
        item.party@,
        clamped(item.event@),
        match item_day(item, cfg.timezone@) {
            Some(d) => d,
            None => month_day(cfg.timezone@, now.secs),
        },
    )
    &&& r.body@ == body_of(item, text_or(item.deadline, ""@))
    &&& r.status == SendStatus::Pending
    &&& r.error is None
    &&& r.scheduled_at@ == scheduled_at
    &&& r.sent_at is None
    &&& r.next_retry_at is None
    &&& r.message_id is None
}

/// The reminder that a user asks for, before it goes out. Only of an active item one is sent.
/// `stored` is the category of the item as it is stored.
pub fn remind_now(
    item: &Option<Item>,
    id: i64,
    stored: &Option<CategoryInfo>,
    cfg: &AppConfig,
    now: &Stamp,
    scheduled_at: &str,
) -> (r: Result<SendLog, ApiError>)
    ensures
        match *item {
            None => denied(r, NOT_FOUND, absent("事项 "@, id)),
            Some(it) => if it.status != ItemStatus::Active {
                denied(r, BAD_REQUEST, "事项非 active 状态，不发送提醒"@)
            } else {
                r matches Ok(log) && manual_reminder(
                    log,
                    it,
                    *stored,
                    *cfg,
                    *now,
                    scheduled_at@,
                )
            },
        },
{
    let it = match item {
        Some(it) => it,
        None => return Err(no_such_item(id)),
    };
    match it.status {
        ItemStatus::Active => {},
        _ => return Err(bad_request("事项非 active 状态，不发送提醒")),
    }
    let label = category_label(stored, cfg, it.category.as_str());
    let event = clamp_event(it.event.as_str());
    let day = match day_of_item(it, cfg) {
        Some(d) => d,
        None => mmdd(now, &cfg.timezone),
    };
    Ok(
        SendLog {
            id: 0,
            item_id: it.id,
            attempt: 0,
            kind: "manual".to_owned(),
            to_addr: cfg.reminder.to.clone(),
            subject: format_subject(
                label.as_str(),
                it.party.as_str(),
                event.as_str(),
                day.as_str(),
            ),
            body: reminder_body(it, given_or(&it.deadline, "")),
            status: SendStatus::Pending,
            error: None,
            scheduled_at: scheduled_at.to_owned(),
            sent_at: None,
            next_retry_at: None,
            message_id: None,
        },
    )
}

/// Which reminders a user wants to see.
#[derive(Debug)]
pub struct LogQuery {
    pub item_id: Option<i64>,
    pub status: Option<String>,
    pub limit: Option<usize>,
}

/// The status and the number of the reminders that a user wants to see.
pub fn logs_wanted(q: &LogQuery) -> (r: Result<(Option<SendStatus>, usize), ApiError>)
    ensures
        match q.status {
            Some(s) => match SendStatus::named(s@) {
                Some(v) => r == Ok::<(Option<SendStatus>, usize), ApiError>(
                    (Some(v), limit_or(q.limit, 200)),
                ),
                None => denied(r, BAD_REQUEST, "非法 status: "@ + s@),
            },
            None => r == Ok::<(Option<SendStatus>, usize), ApiError>(
                (None, limit_or(q.limit, 200)),
            ),
        },
{
    let status = match &q.status {
        Some(s) => match SendStatus::parse(s.as_str()) {
            Some(v) => Some(v),
            None => return Err(bad_value("非法 status: ", s.as_str())),
        },
        None => None,
    };
    Ok((status, limit_of(q.limit, 200)))
}

/// Where a token is set, only a caller who bears it passes.
pub proof fn token_guards(token: Seq<char>, header: Option<Seq<char>>)
    requires
        !blank(token),
        authorized(token, header),
    ensures
        header == Some("Bearer "@ + trimmed(token)),
{
}

/// What is shown of an account does not depend on its passwords, only on whether there are any.
pub proof fn passwords_are_not_shown(a: MailAccount, b: MailAccount)
    requires
        b == (MailAccount {
            imap_password: b.imap_password,
            smtp_password: b.smtp_password,
            ..a
        }),
        (a.imap_password@.len() == 0) == (b.imap_password@.len() == 0),
        (a.smtp_password@.len() == 0) == (b.smtp_password@.len() == 0),
    ensures
        account_record(a) == account_record(b),
{
}

/// What is shown of the settings depends neither on a password, nor on the key for the model, nor
/// on the token, nor on where pushes go; only on whether there is a token and a place to push to.
pub proof fn secrets_are_not_shown(
    a: AppConfig,
    b: AppConfig,
    categories: Seq<CategoryInfo>,
    accounts: Seq<MailAccount>,
)
    requires
        b.listen == a.listen,
        b.data_dir == a.data_dir,
        b.timezone == a.timezone,
        b.poll_interval_secs == a.poll_interval_secs,
        b.check_times == a.check_times,
        b.reminder == (crate::config::ReminderConfig {
            webhook_url: b.reminder.webhook_url,
            ..a.reminder
        }),
        b.mail.address == a.mail.address,
        b.mail.imap == (Endpoint { password: b.mail.imap.password, ..a.mail.imap }),
        b.mail.smtp == (Endpoint { password: b.mail.smtp.password, ..a.mail.smtp }),
        b.llm == (crate::config::LlmConfig { api_key: b.llm.api_key, ..a.llm }),
        blank(a.auth_token@) == blank(b.auth_token@),
        blank(a.reminder.webhook_url@) == blank(b.reminder.webhook_url@),
    ensures
        config_view(a, categories, accounts) == config_view(b, categories, accounts),
{
}

/// Writing back what is shown of a password keeps it.
pub proof fn shown_password_is_kept(written: String, old: Seq<char>)
    requires
        written@ == masked(old),
    ensures
        password_kept(Some(written), old) == old,
{
    reveal_strlit("");
    assert(blank(""@));
}

/// What a request becomes once it is decided on is not what waits: it cannot be decided again.
pub proof fn decided_once(status: Seq<char>)
    requires
        status == "approved"@ || status == "rejected"@,
    ensures
        status != "pending"@,
{
    reveal_strlit("approved");
    reveal_strlit("rejected");
    reveal_strlit("pending");
    assert("approved"@.len() != "pending"@.len());
    assert("rejected"@.len() != "pending"@.len());
}

/// Mail that is given a category of its own that is none of things to do keeps nothing to do.
pub proof fn reclassified_keeps_nothing_to_do(
    stored: Option<CategoryInfo>,
    category: Seq<char>,
    item: Item,
)
    requires
        !makes_todo(stored, category),
        item.kind == ItemKind::Todo,
    ensures
        reclassified(stored, category, Some(item)) == Reclassified::Revoke(item.id),
{
}

} // verus!
