//! What a call of a tool does.
//!
//! A call is planned from its arguments and from whether what it names is there. A plan of a tool
//! that changes or deletes something is a request, and nothing more; what the request does once it
//! is approved is planned anew.

use crate::agent::registry::failed;
use crate::agent::registry::SafetyLevel;
use crate::agent::registry::succeeded;
use crate::agent::registry::tool_named;
use crate::agent::registry::ToolDef;
use crate::agent::registry::ToolRegistry;
use crate::agent::registry::ToolResult;
use crate::agent::registry::Work;
use crate::config::AppConfig;
use crate::db::EmailFilter;
use crate::db::ItemFilter;
use crate::deadline::explicit_time;
use crate::deadline::parse_human_datetime_at;
use crate::json::add_element;
use crate::json::arr_view;
use crate::json::bool_field;
use crate::json::elements;
use crate::json::field;
use crate::json::field_of_view;
use crate::json::int_field;
use crate::json::Json;
use crate::json::JsonView;
use crate::json::members;
use crate::json::obj_view;
use crate::json::opt_int;
use crate::json::put;
use crate::json::put_opt_int;
use crate::json::put_text;
use crate::json::text_field;
use crate::json::two_members;
use crate::json::view_field;
use crate::json::view_of;
use crate::json_text::DEPTH_LIMIT;
use crate::json_text::json_written;
use crate::json_text::ordinary_name;
use crate::json_text::read;
use crate::json_text::reads;
use crate::json_text::simple;
use crate::json_text::simple_when_written;
use crate::json_text::stands_for;
use crate::json_text::tidied;
use crate::json_text::told_field;
use crate::json_text::unrepeated;
use crate::json_text::view_member_bound;
use crate::json_text::write_json;
use crate::json_text::written_members_stay;
use crate::model::Approval;
use crate::model::CategoryInfo;
use crate::model::EmailRecord;
use crate::model::Item;
use crate::model::ItemKind;
use crate::model::ItemStatus;
use crate::model::remind_policy;
use crate::notifier::clamp_event;
use crate::notifier::clamped;
use crate::notifier::policy;
use crate::number::show_i64;
use crate::number::signed_decimal;
use crate::pipeline::first_reminder;
use crate::pipeline::is_lapsing;
use crate::pipeline::lapses;
use crate::pipeline::set_reminders;
use crate::records::categories_json;
use crate::records::categories_view;
use crate::records::count_json;
use crate::records::count_view;
use crate::records::email_json;
use crate::records::email_record;
use crate::records::item_json;
use crate::records::item_record;
use crate::records::items_json;
use crate::records::items_view;
use crate::text::blank;
use crate::text::chars_of;
use crate::text::is_blank;
use crate::text::join;
use crate::text::joined;
use crate::text::same;
use crate::text::text_of;
use crate::text::texts;
use crate::text::trim;
use crate::text::trimmed;
use crate::time::Stamp;
use crate::time::stamp_of;
use crate::time::Zone;
use vstd::prelude::*;

verus! {

/// A text with a number in it.
pub fn numbered(before: &str, n: i64, after: &str) -> (r: String)
    ensures
        r@ == before@ + signed_decimal(n as int) + after@,
{
    let mut out = before.to_owned();
    let t = show_i64(n);
    out.append(t.as_str());
    out.append(after);
    out
}

/// A text between two others.
fn between(before: &str, middle: &str, after: &str) -> (r: String)
    ensures
        r@ == before@ + middle@ + after@,
{
    let mut out = before.to_owned();
    out.append(middle);
    out.append(after);
    out
}

/// Whether a text is an RFC 3339 time, with space around it or not.
pub open spec fn timely(s: Seq<char>) -> bool {
    !blank(s) && stamp_of(trimmed(s)) is Some
}

/// Whether a text is an RFC 3339 time, with space around it or not.
pub fn valid_deadline(s: &str) -> (r: bool)
    ensures
        r == timely(s@),
{
    if is_blank(s) {
        return false;
    }
    let t = trim(s);
    Stamp::parse(t.as_str()).is_some()
}

/// A time in RFC 3339: as it is, or the one that a text tells.
pub open spec fn normalized(s: Seq<char>, zone: Seq<char>, now: Stamp) -> Option<Seq<char>> {
    let t = trimmed(s);
    if timely(t) {
        Some(t)
    } else {
        match explicit_time(t, zone, now) {
            Some((d, _)) => Some(d),
            None => None,
        }
    }
}

/// A time in RFC 3339: as it is, or the one that a text tells.
pub fn normalize_deadline(s: &str, zone: &Zone, now: &Stamp) -> (r: Option<String>)
    ensures
        text_of(r) == normalized(s@, zone@, *now),
{
    let t = trim(s);
    if valid_deadline(t.as_str()) {
        return Some(t);
    }
    match parse_human_datetime_at(t.as_str(), zone, now) {
        Some((d, _)) => Some(d),
        None => None,
    }
}

/// What a call names that has to be there.
#[derive(Clone, Copy, Debug, PartialEq, Eq, Structural)]
pub enum Subject {
    Nothing,
    Email(i64),
    Item(i64),
}

/// What a call that names an id is about.
pub open spec fn subject_named(work: Work, id: Option<i64>) -> Subject {
    match id {
        Some(n) => match work {
            Work::ReadEmail | Work::Recategorize | Work::DeleteEmail => Subject::Email(n),
            Work::ChangeItem | Work::SetStatus | Work::DeleteItem => Subject::Item(n),
            _ => Subject::Nothing,
        },
        None => Subject::Nothing,
    }
}

/// What a call of a registered tool names that has to be there.
pub open spec fn subject_among(tools: Seq<ToolDef>, tool: Seq<char>, id: Option<i64>) -> Subject {
    match tool_named(tools, tool) {
        Some(t) => subject_named(t.work, id),
        None => Subject::Nothing,
    }
}

/// What a call names that has to be there, by its arguments as the model wrote them.
pub fn subject_of_call(registry: &ToolRegistry, tool: &str, args_json: &str) -> (r: Subject)
    ensures
        r == subject_among(
            registry.tools@,
            tool@,
            match told_field(args_json@, "id"@) {
                Some(JsonView::Int(n)) => Some(n),
                _ => None,
            },
        ),
{
    match read(args_json) {
        Ok(args) => {
            proof {
                field_of_view(args, "id"@);
            }
            subject_of(registry, tool, &args)
        },
        Err(_) => Subject::Nothing,
    }
}

/// What a call names that has to be there.
pub fn subject_of(registry: &ToolRegistry, tool: &str, args: &Json) -> (r: Subject)
    ensures
        r == subject_among(registry.tools@, tool@, int_field(*args, "id"@)),
{
    match (registry.get(tool), args.int_at("id")) {
        (Some(t), Some(id)) => match t.work {
            Work::ReadEmail | Work::Recategorize | Work::DeleteEmail => Subject::Email(id),
            Work::ChangeItem | Work::SetStatus | Work::DeleteItem => Subject::Item(id),
            _ => Subject::Nothing,
        },
        _ => Subject::Nothing,
    }
}

/// What a call comes to.
#[derive(Debug)]
pub enum Plan {
    /// The model is told what is wrong.
    Refuse(ToolResult),
    ReadEmail(i64),
    SearchEmails(EmailFilter),
    ListItems(ItemFilter),
    ListCategories,
    AddCategory(NewCategory),
    /// An item is planned on its own.
    MakeItem,
    /// A user is asked.
    Ask(Request),
    /// The tool does something of its own with these arguments.
    Own(Json),
}

/// A category that the model adds.
#[derive(Debug)]
pub struct NewCategory {
    pub id: String,
    pub label: String,
    pub create_item: bool,
    pub kind: String,
}

/// A change that a user is asked to approve.
#[derive(Debug)]
pub struct Request {
    /// The arguments with which the tool runs once it is approved.
    pub payload: Json,
    pub summary: String,
}

/// Whether a call is refused in that way.
pub open spec fn refuses(p: Plan, code: Seq<char>, message: Seq<char>) -> bool {
    p matches Plan::Refuse(r) && failed(r, code, message)
}

/// Whether a user is asked for that.
pub open spec fn requests(p: Plan, payload: JsonView, summary: Seq<char>) -> bool {
    p matches Plan::Ask(q) && view_of(q.payload) == payload && q.summary@ == summary
}

fn refuse(code: &str, message: &str) -> (r: Plan)
    ensures
        refuses(r, code@, message@),
{
    Plan::Refuse(ToolResult::err(code, message))
}

/// What the model is told of mail that is not there.
pub open spec fn no_email(id: i64) -> Seq<char> {
    "邮件 #"@ + signed_decimal(id as int) + " 不存在"@
}

/// What the model is told of an item that is not there.
pub open spec fn no_item(id: i64) -> Seq<char> {
    "事项 #"@ + signed_decimal(id as int) + " 不存在"@
}

fn refuse_email(id: i64) -> (r: Plan)
    ensures
        refuses(r, "not_found"@, no_email(id)),
{
    let m = numbered("邮件 #", id, " 不存在");
    refuse("not_found", m.as_str())
}

fn refuse_item(id: i64) -> (r: Plan)
    ensures
        refuses(r, "not_found"@, no_item(id)),
{
    let m = numbered("事项 #", id, " 不存在");
    refuse("not_found", m.as_str())
}

/// What a call to read a mail comes to.
pub open spec fn get_email_planned(p: Plan, args: Json, found: bool) -> bool {
    match int_field(args, "id"@) {
        None => refuses(p, "invalid_args"@, "缺少整数参数 id"@),
        Some(id) => if found {
            p == Plan::ReadEmail(id)
        } else {
            refuses(p, "not_found"@, no_email(id))
        },
    }
}

fn plan_get_email(args: &Json, found: bool) -> (r: Plan)
    ensures
        get_email_planned(r, *args, found),
{
    match args.int_at("id") {
        None => refuse("invalid_args", "缺少整数参数 id"),
        Some(id) => {
            if found {
                Plan::ReadEmail(id)
            } else {
                refuse_email(id)
            }
        },
    }
}

/// How many are listed: what is asked for, between one and the most.
pub open spec fn bounded(limit: Option<i64>, usual: i64, most: i64) -> int {
    let n = match limit {
        Some(n) => n,
        None => usual,
    };
    if n < 1 {
        1
    } else if n > most {
        most as int
    } else {
        n as int
    }
}

fn bound(limit: Option<i64>, usual: i64, most: i64) -> (r: usize)
    requires
        1 <= most <= 1000,
    ensures
        r == bounded(limit, usual, most),
{
    let n = match limit {
        Some(n) => n,
        None => usual,
    };
    if n < 1 {
        1
    } else if n > most {
        most as usize
    } else {
        n as usize
    }
}

/// What a call to search mail comes to.
pub open spec fn search_planned(p: Plan, args: Json) -> bool {
    p matches Plan::SearchEmails(f) && text_of(f.category) == text_field(args, "category"@)
        && text_of(f.q) == text_field(args, "q"@) && text_of(f.since) == text_field(
        args,
        "since"@,
    ) && f.before is None && f.account_id is None && f.label is None && f.limit == bounded(
        int_field(args, "limit"@),
        20,
        50,
    )
}

fn plan_search(args: &Json) -> (r: Plan)
    ensures
        search_planned(r, *args),
{
    Plan::SearchEmails(
        EmailFilter {
            category: args.text_at("category"),
            q: args.text_at("q"),
            since: args.text_at("since"),
            before: None,
            account_id: None,
            label: None,
            limit: bound(args.int_at("limit"), 20, 50),
        },
    )
}

/// Whether items of that status, and no other restriction, are listed as asked.
pub open spec fn items_wanted(f: ItemFilter, status: Option<ItemStatus>, args: Json) -> bool {
    &&& f.kind is None
    &&& f.status == status
    &&& text_of(f.category) == text_field(args, "category"@)
    &&& text_of(f.party) == text_field(args, "party"@)
    &&& text_of(f.q) == text_field(args, "q"@)
    &&& f.account_id is None
    &&& f.created_after is None
    &&& f.created_before is None
    &&& f.deadline_after is None
    &&& f.deadline_before is None
    &&& f.limit == bounded(int_field(args, "limit"@), 50, 200)
}

/// What a call to list items comes to.
pub open spec fn list_items_planned(p: Plan, args: Json) -> bool {
    match text_field(args, "status"@) {
        Some(s) => match ItemStatus::named(s) {
            Some(st) => p matches Plan::ListItems(f) && items_wanted(f, Some(st), args),
            None => refuses(p, "invalid_args"@, "非法 status: "@ + s),
        },
        None => p matches Plan::ListItems(f) && items_wanted(f, None, args),
    }
}

fn plan_list_items(args: &Json) -> (r: Plan)
    ensures
        list_items_planned(r, *args),
{
    let status = match args.text_at("status") {
        Some(s) => match ItemStatus::parse(s.as_str()) {
            Some(st) => Some(st),
            None => {
                let mut m = "非法 status: ".to_owned();
                m.append(s.as_str());
                return refuse("invalid_args", m.as_str());
            },
        },
        None => None,
    };
    Plan::ListItems(
        ItemFilter {
            kind: None,
            status,
            category: args.text_at("category"),
            party: args.text_at("party"),
            q: args.text_at("q"),
            account_id: None,
            created_after: None,
            created_before: None,
            deadline_after: None,
            deadline_before: None,
            limit: bound(args.int_at("limit"), 50, 200),
        },
    )
}

/// Whether a character can stand in the identifier of a category.
pub open spec fn id_char(c: char) -> bool {
    ('a' <= c <= 'z') || ('0' <= c <= '9') || c == '_' || c == '-'
}

/// Whether a text can be the identifier of a category.
pub open spec fn category_id(s: Seq<char>) -> bool {
    1 <= s.len() <= 32 && forall|i: int| 0 <= i < s.len() ==> id_char(#[trigger] s[i])
}

/// Whether a text can be the identifier of a category.
pub fn is_category_id(s: &str) -> (r: bool)
    ensures
        r == category_id(s@),
{
    let v = chars_of(s);
    if v.len() == 0 || v.len() > 32 {
        return false;
    }
    let mut i: usize = 0;
    while i < v.len()
        invariant
            i <= v@.len(),
            v@ == s@,
            forall|k: int| 0 <= k < i ==> id_char(#[trigger] s@[k]),
        decreases v@.len() - i,
    {
        let c = v[i];
        let ok = ('a' <= c && c <= 'z') || ('0' <= c && c <= '9') || c == '_' || c == '-';
        if !ok {
            assert(!id_char(s@[i as int]));
            return false;
        }
        i += 1;
    }
    true
}

/// What is wrong with an identifier.
pub const BAD_ID: &'static str = "id 需为 1-32 位小写字母/数字/下划线/连字符";

/// What is wrong with a kind.
pub const BAD_KIND: &'static str = "kind 只能为 todo 或 notification";

/// What a call to add a category comes to. Only a category of things to do makes items, and only
/// where that is asked for.
pub open spec fn create_category_planned(p: Plan, args: Json) -> bool {
    let kind = match text_field(args, "kind"@) {
        Some(k) => k,
        None => "notification"@,
    };
    match (text_field(args, "id"@), text_field(args, "label"@)) {
        (None, _) => refuses(p, "invalid_args"@, "缺少 id"@),
        (_, None) => refuses(p, "invalid_args"@, "缺少 label"@),
        (Some(id), Some(label)) => if !category_id(id) {
            refuses(p, "invalid_args"@, BAD_ID@)
        } else if kind != "todo"@ && kind != "notification"@ {
            refuses(p, "invalid_args"@, BAD_KIND@)
        } else {
            p matches Plan::AddCategory(c) && c.id@ == id && c.label@ == label && c.kind@ == kind
                && c.create_item == (bool_field(args, "create_item"@) == Some(true) && kind
                == "todo"@)
        },
    }
}

fn plan_create_category(args: &Json) -> (r: Plan)
    ensures
        create_category_planned(r, *args),
{
    let id = match args.text_at("id") {
        Some(t) => t,
        None => return refuse("invalid_args", "缺少 id"),
    };
    let label = match args.text_at("label") {
        Some(t) => t,
        None => return refuse("invalid_args", "缺少 label"),
    };
    if !is_category_id(id.as_str()) {
        return refuse("invalid_args", BAD_ID);
    }
    let kind = match args.text_at("kind") {
        Some(t) => t,
        None => "notification".to_owned(),
    };
    let todo = same(kind.as_str(), "todo");
    if !todo && !same(kind.as_str(), "notification") {
        return refuse("invalid_args", BAD_KIND);
    }
    let create_item = args.bool_at("create_item", false) && todo;
    Plan::AddCategory(NewCategory { id, label, create_item, kind })
}

/// The names of the members of an object, in order.
pub open spec fn names_of(m: Seq<(String, Json)>) -> Seq<Seq<char>> {
    m.map_values(|f: (String, Json)| f.0@)
}

/// Whether the deadline in a patch can be read, where it is a text.
pub open spec fn patch_time_ok(patch: Json, zone: Seq<char>, now: Stamp) -> bool {
    match field(patch, "deadline"@) {
        Some(Json::Str(s)) => normalized(s@, zone, now) is Some,
        _ => true,
    }
}

/// What is wrong with a deadline in a patch.
pub const BAD_PATCH_TIME: &'static str = "patch.deadline 需为 RFC3339 或 null";

/// What a call to change an item comes to.
pub open spec fn update_item_planned(
    p: Plan,
    args: Json,
    found: bool,
    zone: Seq<char>,
    now: Stamp,
) -> bool {
    match int_field(args, "id"@) {
        None => refuses(p, "invalid_args"@, "缺少 id"@),
        Some(id) => if !found {
            refuses(p, "not_found"@, no_item(id))
        } else {
            match field(args, "patch"@) {
                Some(Json::Obj(m)) if m@.len() > 0 => if patch_time_ok(Json::Obj(m), zone, now) {
                    requests(
                        p,
                        JsonView::Obj(
                            members().push(("id"@, JsonView::Int(id))).push(
                                ("patch"@, JsonView::Obj(obj_view(m@))),
                            ),
                        ),
                        "修改事项 #"@ + signed_decimal(id as int) + "："@ + joined(
                            names_of(m@),
                            "、"@,
                        ),
                    )
                } else {
                    refuses(p, "invalid_args"@, BAD_PATCH_TIME@)
                },
                _ => refuses(p, "invalid_args"@, "patch 至少包含一个字段"@),
            }
        },
    }
}

fn member_names(m: &Vec<(String, Json)>) -> (r: Vec<String>)
    ensures
        texts(r@) == names_of(m@),
{
    let mut out: Vec<String> = Vec::new();
    let mut i: usize = 0;
    while i < m.len()
        invariant
            i <= m@.len(),
            out@.len() == i,
            forall|k: int| 0 <= k < i ==> (#[trigger] out@[k])@ == m@[k].0@,
        decreases m@.len() - i,
    {
        out.push(m[i].0.clone());
        i += 1;
    }
    assert(texts(out@) =~= names_of(m@));
    out
}

fn patch_time_reads(patch: &Json, zone: &Zone, now: &Stamp) -> (r: bool)
    ensures
        r == patch_time_ok(*patch, zone@, *now),
{
    match patch.get("deadline") {
        Some(v) => match v {
            Json::Str(s) => normalize_deadline(s.as_str(), zone, now).is_some(),
            _ => true,
        },
        None => true,
    }
}

fn plan_update_item(args: &Json, found: bool, zone: &Zone, now: &Stamp) -> (r: Plan)
    ensures
        update_item_planned(r, *args, found, zone@, *now),
{
    let id = match args.int_at("id") {
        Some(n) => n,
        None => return refuse("invalid_args", "缺少 id"),
    };
    if !found {
        return refuse_item(id);
    }
    let patch = match args.get("patch") {
        Some(v) => v,
        None => return refuse("invalid_args", "patch 至少包含一个字段"),
    };
    match patch {
        Json::Obj(m) => {
            if m.len() == 0 {
                return refuse("invalid_args", "patch 至少包含一个字段");
            }
            if !patch_time_reads(patch, zone, now) {
                return refuse("invalid_args", BAD_PATCH_TIME);
            }
            let names = member_names(m);
            let list = join(&names, "、");
            let mut summary = numbered("修改事项 #", id, "：");
            summary.append(list.as_str());
            let mut payload: Vec<(String, Json)> = Vec::new();
            put(&mut payload, "id", Json::Int(id));
            put(&mut payload, "patch", crate::json::copy(patch));
            Plan::Ask(Request { payload: Json::Obj(payload), summary })
        },
        _ => refuse("invalid_args", "patch 至少包含一个字段"),
    }
}

/// What a call to set the status of an item comes to.
pub open spec fn set_status_planned(p: Plan, args: Json, found: bool) -> bool {
    match int_field(args, "id"@) {
        None => refuses(p, "invalid_args"@, "缺少 id"@),
        Some(id) => if !found {
            refuses(p, "not_found"@, no_item(id))
        } else {
            match text_field(args, "status"@) {
                None => refuses(p, "invalid_args"@, "缺少 status"@),
                Some(s) => if ItemStatus::named(s) is None {
                    refuses(p, "invalid_args"@, "非法 status: "@ + s)
                } else {
                    requests(
                        p,
                        JsonView::Obj(
                            members().push(("id"@, JsonView::Int(id))).push(
                                ("status"@, JsonView::Str(s)),
                            ),
                        ),
                        "将事项 #"@ + signed_decimal(id as int) + " 状态改为 "@ + s,
                    )
                },
            }
        },
    }
}

fn plan_set_status(args: &Json, found: bool) -> (r: Plan)
    ensures
        set_status_planned(r, *args, found),
{
    let id = match args.int_at("id") {
        Some(n) => n,
        None => return refuse("invalid_args", "缺少 id"),
    };
    if !found {
        return refuse_item(id);
    }
    let status = match args.text_at("status") {
        Some(t) => t,
        None => return refuse("invalid_args", "缺少 status"),
    };
    if ItemStatus::parse(status.as_str()).is_none() {
        let mut m = "非法 status: ".to_owned();
        m.append(status.as_str());
        return refuse("invalid_args", m.as_str());
    }
    let mut summary = numbered("将事项 #", id, " 状态改为 ");
    summary.append(status.as_str());
    let mut payload: Vec<(String, Json)> = Vec::new();
    put(&mut payload, "id", Json::Int(id));
    put_text(&mut payload, "status", status.as_str());
    Plan::Ask(Request { payload: Json::Obj(payload), summary })
}

/// What a call to delete an item comes to.
pub open spec fn delete_item_planned(p: Plan, args: Json, found: bool) -> bool {
    match int_field(args, "id"@) {
        None => refuses(p, "invalid_args"@, "缺少 id"@),
        Some(id) => if found {
            requests(
                p,
                JsonView::Obj(members().push(("id"@, JsonView::Int(id)))),
                "删除事项 #"@ + signed_decimal(id as int) + "（含发送日志）"@,
            )
        } else {
            refuses(p, "not_found"@, no_item(id))
        },
    }
}

fn id_payload(id: i64) -> (r: Json)
    ensures
        view_of(r) == JsonView::Obj(members().push(("id"@, JsonView::Int(id)))),
{
    let mut payload: Vec<(String, Json)> = Vec::new();
    put(&mut payload, "id", Json::Int(id));
    Json::Obj(payload)
}

fn plan_delete_item(args: &Json, found: bool) -> (r: Plan)
    ensures
        delete_item_planned(r, *args, found),
{
    match args.int_at("id") {
        None => refuse("invalid_args", "缺少 id"),
        Some(id) => {
            if found {
                Plan::Ask(
                    Request {
                        payload: id_payload(id),
                        summary: numbered("删除事项 #", id, "（含发送日志）"),
                    },
                )
            } else {
                refuse_item(id)
            }
        },
    }
}

/// What a call to change the category of a mail comes to.
pub open spec fn update_category_planned(p: Plan, args: Json, found: bool) -> bool {
    match int_field(args, "id"@) {
        None => refuses(p, "invalid_args"@, "缺少 id"@),
        Some(id) => if !found {
            refuses(p, "not_found"@, no_email(id))
        } else {
            match text_field(args, "category"@) {
                None => refuses(p, "invalid_args"@, "缺少 category"@),
                Some(c) => requests(
                    p,
                    JsonView::Obj(
                        members().push(("id"@, JsonView::Int(id))).push(
                            ("category"@, JsonView::Str(c)),
                        ),
                    ),
                    "将邮件 #"@ + signed_decimal(id as int) + " 重新分类为 "@ + c,
                ),
            }
        },
    }
}

fn plan_update_category(args: &Json, found: bool) -> (r: Plan)
    ensures
        update_category_planned(r, *args, found),
{
    let id = match args.int_at("id") {
        Some(n) => n,
        None => return refuse("invalid_args", "缺少 id"),
    };
    if !found {
        return refuse_email(id);
    }
    let category = match args.text_at("category") {
        Some(t) => t,
        None => return refuse("invalid_args", "缺少 category"),
    };
    let mut summary = numbered("将邮件 #", id, " 重新分类为 ");
    summary.append(category.as_str());
    let mut payload: Vec<(String, Json)> = Vec::new();
    put(&mut payload, "id", Json::Int(id));
    put_text(&mut payload, "category", category.as_str());
    Plan::Ask(Request { payload: Json::Obj(payload), summary })
}

/// What a call to delete a mail comes to.
pub open spec fn delete_email_planned(p: Plan, args: Json, found: bool) -> bool {
    match int_field(args, "id"@) {
        None => refuses(p, "invalid_args"@, "缺少 id"@),
        Some(id) => if found {
            requests(
                p,
                JsonView::Obj(members().push(("id"@, JsonView::Int(id)))),
                "删除邮件 #"@ + signed_decimal(id as int),
            )
        } else {
            refuses(p, "not_found"@, no_email(id))
        },
    }
}

fn plan_delete_email(args: &Json, found: bool) -> (r: Plan)
    ensures
        delete_email_planned(r, *args, found),
{
    match args.int_at("id") {
        None => refuse("invalid_args", "缺少 id"),
        Some(id) => {
            if found {
                let mut summary = "删除邮件 #".to_owned();
                let n = show_i64(id);
                summary.append(n.as_str());
                Plan::Ask(Request { payload: id_payload(id), summary })
            } else {
                refuse_email(id)
            }
        },
    }
}

/// What the user is told of a request of a tool that does something of its own.
pub open spec fn own_summary(tool: Seq<char>) -> Seq<char> {
    "调用工具 "@ + tool
}

/// What a call of a tool comes to.
pub open spec fn planned(
    p: Plan,
    t: ToolDef,
    args: Json,
    found: bool,
    zone: Seq<char>,
    now: Stamp,
) -> bool {
    match t.work {
        Work::ReadEmail => get_email_planned(p, args, found),
        Work::SearchEmails => search_planned(p, args),
        Work::ListItems => list_items_planned(p, args),
        Work::ListCategories => p == Plan::ListCategories,
        Work::AddCategory => create_category_planned(p, args),
        Work::MakeItem => p == Plan::MakeItem,
        Work::ChangeItem => update_item_planned(p, args, found, zone, now),
        Work::SetStatus => set_status_planned(p, args, found),
        Work::DeleteItem => delete_item_planned(p, args, found),
        Work::Recategorize => update_category_planned(p, args, found),
        Work::DeleteEmail => delete_email_planned(p, args, found),
        Work::Own => if t.safety == SafetyLevel::Mutate {
            requests(p, view_of(args), own_summary(t.name@))
        } else {
            p matches Plan::Own(a) && view_of(a) == view_of(args)
        },
    }
}

/// What a call comes to, by the tools that are registered and by what its arguments read as.
pub open spec fn called(
    r: Plan,
    tools: Seq<ToolDef>,
    tool: Seq<char>,
    args: Result<Json, String>,
    found: bool,
    zone: Seq<char>,
    now: Stamp,
) -> bool {
    match tool_named(tools, tool) {
        None => refuses(r, "unknown_tool"@, "未知工具: "@ + tool),
        Some(t) => match args {
            Ok(a) => planned(r, t, a, found, zone, now),
            Err(e) => refuses(r, "invalid_args"@, "工具参数 JSON 非法: "@ + e@),
        },
    }
}

/// What a call of a registered tool comes to, with the arguments as the model wrote them. `found`
/// tells whether what the call names is there.
pub fn execute_tool(
    registry: &ToolRegistry,
    tool: &str,
    args_json: &str,
    found: bool,
    zone: &Zone,
    now: &Stamp,
) -> (r: Plan)
    ensures
        exists|args: Result<Json, String>| #[trigger]
            reads(args, args_json@) && called(
                r,
                registry.tools@,
                tool@,
                args,
                found,
                zone@,
                *now,
            ),
{
    let args = read(args_json);
    plan_call(registry, tool, &args, found, zone, now)
}

/// What a call of a registered tool comes to. `args` are the arguments, or what is wrong with them
/// where they are not JSON; `found` tells whether what the call names is there.
pub fn plan_call(
    registry: &ToolRegistry,
    tool: &str,
    args: &Result<Json, String>,
    found: bool,
    zone: &Zone,
    now: &Stamp,
) -> (r: Plan)
    ensures
        called(r, registry.tools@, tool@, *args, found, zone@, *now),
{
    let t = match registry.get(tool) {
        Some(t) => t,
        None => {
            let mut m = "未知工具: ".to_owned();
            m.append(tool);
            return refuse("unknown_tool", m.as_str());
        },
    };
    let args = match args {
        Ok(a) => a,
        Err(e) => {
            let mut m = "工具参数 JSON 非法: ".to_owned();
            m.append(e.as_str());
            return refuse("invalid_args", m.as_str());
        },
    };
    match t.work {
        Work::ReadEmail => plan_get_email(args, found),
        Work::SearchEmails => plan_search(args),
        Work::ListItems => plan_list_items(args),
        Work::ListCategories => Plan::ListCategories,
        Work::AddCategory => plan_create_category(args),
        Work::MakeItem => Plan::MakeItem,
        Work::ChangeItem => plan_update_item(args, found, zone, now),
        Work::SetStatus => plan_set_status(args, found),
        Work::DeleteItem => plan_delete_item(args, found),
        Work::Recategorize => plan_update_category(args, found),
        Work::DeleteEmail => plan_delete_email(args, found),
        Work::Own => match t.safety {
            SafetyLevel::Mutate => {
                let mut summary = "调用工具 ".to_owned();
                summary.append(t.name.as_str());
                Plan::Ask(Request { payload: crate::json::copy(args), summary })
            },
            _ => Plan::Own(crate::json::copy(args)),
        },
    }
}

/// What the model is told of mail: all of it.
pub fn email_result(e: &EmailRecord) -> (r: ToolResult)
    ensures
        succeeded(r, email_record(*e)),
{
    ToolResult::ok_content(email_json(e))
}

/// A mail in a list: without its body.
pub open spec fn email_entry(e: EmailRecord) -> JsonView {
    JsonView::Obj(
        members().push(("id"@, JsonView::Int(e.id))).push(("subject"@, JsonView::Str(e.subject@)))
            .push(("from"@, JsonView::Str(e.from_name@ + " <"@ + e.from_addr@ + ">"@))).push(
            ("category"@, JsonView::Str(e.category@)),
        ).push(("sent_at"@, JsonView::Str(e.sent_at@))).push(("item_id"@, opt_int(e.item_id))),
    )
}

/// The mail in a list.
pub open spec fn email_entries(list: Seq<EmailRecord>) -> Seq<JsonView> {
    list.map_values(|e: EmailRecord| email_entry(e))
}

/// A list that the model is told.
pub open spec fn listed(count: usize, name: Seq<char>, list: JsonView) -> JsonView {
    JsonView::Obj(
        members().push(("ok"@, JsonView::Bool(true))).push(("count"@, count_view(count))).push(
            (name, list),
        ),
    )
}

fn list_result(count: usize, name: &str, list: Json) -> (r: ToolResult)
    ensures
        succeeded(r, listed(count, name@, view_of(list))),
{
    let mut m: Vec<(String, Json)> = Vec::new();
    put(&mut m, "ok", Json::Bool(true));
    put(&mut m, "count", count_json(count));
    put(&mut m, name, list);
    ToolResult::ok_content(Json::Obj(m))
}

fn entry_json(e: &EmailRecord) -> (r: Json)
    ensures
        view_of(r) == email_entry(*e),
{
    let mut from = e.from_name.clone();
    from.append(" <");
    from.append(e.from_addr.as_str());
    from.append(">");
    let mut m: Vec<(String, Json)> = Vec::new();
    put(&mut m, "id", Json::Int(e.id));
    put_text(&mut m, "subject", e.subject.as_str());
    put_text(&mut m, "from", from.as_str());
    put_text(&mut m, "category", e.category.as_str());
    put_text(&mut m, "sent_at", e.sent_at.as_str());
    put_opt_int(&mut m, "item_id", &e.item_id);
    Json::Obj(m)
}

/// What the model is told of the mail that was found.
pub fn emails_result(list: &Vec<EmailRecord>) -> (r: ToolResult)
    ensures
        succeeded(
            r,
            listed(list@.len() as usize, "emails"@, JsonView::Arr(email_entries(list@))),
        ),
{
    let mut out: Vec<Json> = Vec::new();
    let mut i: usize = 0;
    let ghost all = email_entries(list@);
    assert(all.take(0) =~= elements());
    while i < list.len()
        invariant
            i <= list@.len(),
            all == email_entries(list@),
            arr_view(out@) == all.take(i as int),
        decreases list@.len() - i,
    {
        add_element(&mut out, entry_json(&list[i]));
        assert(all.take(i + 1) =~= all.take(i as int).push(all[i as int]));
        i += 1;
    }
    assert(all.take(i as int) =~= all);
    list_result(list.len(), "emails", Json::Arr(out))
}

/// What the model is told of the items that were found.
pub fn items_result(list: &Vec<Item>) -> (r: ToolResult)
    ensures
        succeeded(r, listed(list@.len() as usize, "items"@, JsonView::Arr(items_view(list@)))),
{
    list_result(list.len(), "items", items_json(list))
}

/// What the model is told of the categories.
pub fn categories_result(list: &Vec<CategoryInfo>) -> (r: ToolResult)
    ensures
        succeeded(
            r,
            listed(list@.len() as usize, "categories"@, JsonView::Arr(categories_view(list@))),
        ),
{
    list_result(list.len(), "categories", categories_json(list))
}

/// A category as the model is told of it.
pub open spec fn category_entry(c: Option<CategoryInfo>) -> JsonView {
    match c {
        Some(c) => JsonView::Obj(
            members().push(("id"@, JsonView::Str(c.id@))).push(("label"@, JsonView::Str(c.label@)))
                .push(("create_item"@, JsonView::Bool(c.create_item))).push(
                ("kind"@, JsonView::Str(c.kind@)),
            ),
        ),
        None => JsonView::Null,
    }
}

/// What the model is told of a category that it added, or that was there.
pub fn category_result(created: bool, c: &Option<CategoryInfo>) -> (r: ToolResult)
    ensures
        succeeded(
            r,
            JsonView::Obj(
                members().push(("ok"@, JsonView::Bool(true))).push(
                    ("created"@, JsonView::Bool(created)),
                ).push(("category"@, category_entry(*c))),
            ),
        ),
{
    let entry = match c {
        Some(c) => {
            let mut m: Vec<(String, Json)> = Vec::new();
            put_text(&mut m, "id", c.id.as_str());
            put_text(&mut m, "label", c.label.as_str());
            put(&mut m, "create_item", Json::Bool(c.create_item));
            put_text(&mut m, "kind", c.kind.as_str());
            Json::Obj(m)
        },
        None => Json::Null,
    };
    let mut m: Vec<(String, Json)> = Vec::new();
    put(&mut m, "ok", Json::Bool(true));
    put(&mut m, "created", Json::Bool(created));
    put(&mut m, "category", entry);
    ToolResult::ok_content(Json::Obj(m))
}

/// Where an item that the model makes comes from.
#[derive(Debug)]
pub struct Origin {
    /// The mail that the agent is at work on.
    pub source_email_id: Option<i64>,
    pub account_id: i64,
    /// The subject and the body of that mail.
    pub text: String,
}

/// What a call to make an item comes to.
#[derive(Debug)]
pub enum ItemPlan {
    Refuse(ToolResult),
    /// The mail has an item.
    Have(ToolResult),
    Insert(Item),
}

/// The text of an argument, or nothing.
pub open spec fn text_or_empty(args: Json, key: Seq<char>) -> Seq<char> {
    match text_field(args, key) {
        Some(t) => t,
        None => Seq::empty(),
    }
}

fn text_or_none(args: &Json, key: &str) -> (r: String)
    ensures
        r@ == text_or_empty(*args, key@),
{
    match args.text_at(key) {
        Some(t) => t,
        None => String::new(),
    }
}

/// The deadline that the model gives an item.
pub open spec fn told_deadline(args: Json, zone: Seq<char>, now: Stamp) -> Option<Seq<char>> {
    match text_field(args, "deadline"@) {
        Some(d) if !blank(d) && d != "null"@ => normalized(d, zone, now),
        _ => None,
    }
}

fn deadline_told(args: &Json, zone: &Zone, now: &Stamp) -> (r: Option<String>)
    ensures
        text_of(r) == told_deadline(*args, zone@, *now),
{
    match args.text_at("deadline") {
        Some(d) => {
            if is_blank(d.as_str()) || same(d.as_str(), "null") {
                None
            } else {
                normalize_deadline(d.as_str(), zone, now)
            }
        },
        None => None,
    }
}

/// Whether an item is the one that the model makes.
pub open spec fn item_as_told(
    it: Item,
    args: Json,
    title: Seq<char>,
    cat: CategoryInfo,
    category: Seq<char>,
    origin: Origin,
    cfg: AppConfig,
    now: Stamp,
    now_text: Seq<char>,
) -> bool {
    let deadline = told_deadline(args, cfg.timezone@, now);
    &&& it.id == 0
    &&& it.kind == if cat.kind@ == "notification"@ {
        ItemKind::Notification
    } else {
        ItemKind::Todo
    }
    &&& it.title@ == title
    &&& it.party@ == text_or_empty(args, "party"@)
    &&& it.event@ == clamped(text_or_empty(args, "event"@))
    &&& it.category@ == category
    &&& text_of(it.deadline) == deadline
    &&& it.remind_policy@ == policy(deadline, lapses(origin.text@), now_text)
    &&& text_of(it.remind_at) == first_reminder(it, cfg, now_text)
    &&& !it.needs_review
    &&& it.status == ItemStatus::Active
    &&& it.source_email_id == origin.source_email_id
    &&& it.account_id == origin.account_id
    &&& it.notes@ == text_or_empty(args, "notes"@)
    &&& it.created_at@ == now_text
    &&& it.updated_at@ == now_text
}

/// What the model is told where the mail has an item.
pub open spec fn had_item(existing: Item) -> JsonView {
    JsonView::Obj(
        members().push(("ok"@, JsonView::Bool(true))).push(("created"@, JsonView::Bool(false))).push(
            ("message"@, JsonView::Str("该邮件已关联事项，返回已有事项"@)),
        ).push(("item"@, item_record(existing))),
    )
}

/// What a call to make an item comes to: `cat` is the category that it names, and `existing` the
/// item that the mail has.
pub open spec fn item_planned(
    p: ItemPlan,
    args: Json,
    cat: Option<CategoryInfo>,
    existing: Option<Item>,
    origin: Origin,
    cfg: AppConfig,
    now: Stamp,
    now_text: Seq<char>,
) -> bool {
    let deadline = told_deadline(args, cfg.timezone@, now);
    match (text_field(args, "category"@), text_field(args, "title"@)) {
        (None, _) => p matches ItemPlan::Refuse(r) && failed(r, "invalid_args"@, "缺少 category"@),
        (_, None) => p matches ItemPlan::Refuse(r) && failed(r, "invalid_args"@, "缺少 title"@),
        (Some(category), Some(title)) => match cat {
            None => p matches ItemPlan::Refuse(r) && failed(
                r,
                "invalid_args"@,
                "分类 "@ + category + " 不存在，请先用 create_category 创建"@,
            ),
            Some(c) => match existing {
                Some(it) => p matches ItemPlan::Have(r) && succeeded(r, had_item(it)),
                None => if deadline is Some && !timely(deadline->0) {
                    p matches ItemPlan::Refuse(r) && failed(
                        r,
                        "invalid_args"@,
                        "deadline 需为 RFC3339 或 null: "@ + deadline->0,
                    )
                } else {
                    p matches ItemPlan::Insert(it) && item_as_told(
                        it,
                        args,
                        title,
                        c,
                        category,
                        origin,
                        cfg,
                        now,
                        now_text,
                    )
                },
            },
        },
    }
}

/// What a call to make an item comes to. One mail makes one item: where it has one, the model is
/// told of that.
pub fn plan_item(
    args: &Json,
    cat: &Option<CategoryInfo>,
    existing: &Option<Item>,
    origin: &Origin,
    cfg: &AppConfig,
    now: &Stamp,
    now_text: &str,
) -> (r: ItemPlan)
    ensures
        item_planned(r, *args, *cat, *existing, *origin, *cfg, *now, now_text@),
{
    let category = match args.text_at("category") {
        Some(t) => t,
        None => return ItemPlan::Refuse(ToolResult::err("invalid_args", "缺少 category")),
    };
    let title = match args.text_at("title") {
        Some(t) => t,
        None => return ItemPlan::Refuse(ToolResult::err("invalid_args", "缺少 title")),
    };
    let c = match cat {
        Some(c) => c,
        None => {
            let m = between("分类 ", category.as_str(), " 不存在，请先用 create_category 创建");
            return ItemPlan::Refuse(ToolResult::err("invalid_args", m.as_str()));
        },
    };
    if let Some(it) = existing {
        let mut m: Vec<(String, Json)> = Vec::new();
        put(&mut m, "ok", Json::Bool(true));
        put(&mut m, "created", Json::Bool(false));
        put_text(&mut m, "message", "该邮件已关联事项，返回已有事项");
        put(&mut m, "item", item_json(it));
        return ItemPlan::Have(ToolResult::ok_content(Json::Obj(m)));
    }
    let deadline = deadline_told(args, &cfg.timezone, now);
    if let Some(d) = &deadline {
        if !valid_deadline(d.as_str()) {
            let mut m = "deadline 需为 RFC3339 或 null: ".to_owned();
            m.append(d.as_str());
            return ItemPlan::Refuse(ToolResult::err("invalid_args", m.as_str()));
        }
    }
    let kind = if same(c.kind.as_str(), "notification") {
        ItemKind::Notification
    } else {
        ItemKind::Todo
    };
    let event = text_or_none(args, "event");
    let mut item = Item {
        id: 0,
        kind,
        title,
        party: text_or_none(args, "party"),
        event: clamp_event(event.as_str()),
        category,
        deadline,
        remind_at: None,
        remind_policy: String::new(),
        needs_review: false,
        status: ItemStatus::Active,
        source_email_id: origin.source_email_id,
        account_id: origin.account_id,
        notes: text_or_none(args, "notes"),
        created_at: now_text.to_owned(),
        updated_at: now_text.to_owned(),
    };
    let lapsing = is_lapsing(origin.text.as_str());
    set_reminders(&mut item, lapsing, cfg, now_text);
    ItemPlan::Insert(item)
}

/// What the model is told of an item that was made, and of what is stored of it.
pub fn item_made_result(item_id: i64, stored: &Option<Item>) -> (r: ToolResult)
    ensures
        succeeded(
            r,
            JsonView::Obj(
                members().push(("ok"@, JsonView::Bool(true))).push(
                    ("created"@, JsonView::Bool(true)),
                ).push(("item_id"@, JsonView::Int(item_id))).push(
                    (
                        "item"@,
                        match *stored {
                            Some(it) => item_record(it),
                            None => JsonView::Null,
                        },
                    ),
                ),
            ),
        ),
{
    let mut m: Vec<(String, Json)> = Vec::new();
    put(&mut m, "ok", Json::Bool(true));
    put(&mut m, "created", Json::Bool(true));
    put(&mut m, "item_id", Json::Int(item_id));
    let item = match stored {
        Some(it) => item_json(it),
        None => Json::Null,
    };
    put(&mut m, "item", item);
    ToolResult::ok_content(Json::Obj(m))
}

/// What the model is told of a request: that it waits for a user, and changed nothing.
pub open spec fn asked_json(id: i64) -> JsonView {
    JsonView::Obj(
        members().push(("ok"@, JsonView::Bool(true))).push(
            ("needs_approval"@, JsonView::Bool(true)),
        ).push(("approval_id"@, JsonView::Int(id))).push(
            (
                "message"@,
                JsonView::Str(
                    "修改/删除申请 #"@ + signed_decimal(id as int)
                        + " 已提交，等待用户在控制台批准后生效。批准前数据不会被改动。"@,
                ),
            ),
        ),
    )
}

/// A request as it is stored: it waits for a user, with the arguments as JSON text.
pub fn pending_approval(
    tool: &str,
    request: &Request,
    source_email_id: Option<i64>,
    now: String,
) -> (r: Approval)
    ensures
        r.id == 0,
        r.tool_name@ == tool@,
        r.payload_json@ == json_written(tidied(view_of(request.payload))),
        simple(view_of(request.payload), DEPTH_LIMIT as nat) ==> stands_for(
            r.payload_json@,
            tidied(view_of(request.payload)),
        ),
        r.summary@ == request.summary@,
        r.status@ == "pending"@,
        r.source_email_id == source_email_id,
        r.decided_at is None,
        r.created_at == now,
{
    proof {
        if simple(view_of(request.payload), DEPTH_LIMIT as nat) {
            simple_when_written(view_of(request.payload), DEPTH_LIMIT as nat);
        }
    }
    Approval {
        id: 0,
        tool_name: tool.to_owned(),
        payload_json: write_json(&request.payload),
        summary: request.summary.clone(),
        status: "pending".to_owned(),
        source_email_id,
        decided_at: None,
        created_at: now,
    }
}

/// What the model is told of a request that was stored.
pub fn approval_result(id: i64) -> (r: ToolResult)
    ensures
        r.ok,
        view_of(r.content) == asked_json(id),
        text_of(r.error_code) == Some("needs_approval"@),
        r.created_approval,
{
    let message = numbered(
        "修改/删除申请 #",
        id,
        " 已提交，等待用户在控制台批准后生效。批准前数据不会被改动。",
    );
    let mut m: Vec<(String, Json)> = Vec::new();
    put(&mut m, "ok", Json::Bool(true));
    put(&mut m, "needs_approval", Json::Bool(true));
    put(&mut m, "approval_id", Json::Int(id));
    put_text(&mut m, "message", message.as_str());
    ToolResult {
        ok: true,
        content: Json::Obj(m),
        error_code: Some("needs_approval".to_owned()),
        created_approval: true,
    }
}

/// What an approved request does.
#[derive(Debug)]
pub enum Deed {
    Refuse(ToolResult),
    SaveItem(Item),
    SetStatus(i64, ItemStatus),
    DeleteItem(i64),
    Recategorize(i64, String),
    DeleteEmail(i64),
    /// The tool does something of its own with these arguments.
    Own(Json),
}

/// Whether an approved request is refused in that way.
pub open spec fn deed_refused(d: Deed, code: Seq<char>, message: Seq<char>) -> bool {
    d matches Deed::Refuse(r) && failed(r, code, message)
}

fn deed_refuse(code: &str, message: &str) -> (r: Deed)
    ensures
        deed_refused(r, code@, message@),
{
    Deed::Refuse(ToolResult::err(code, message))
}

/// A field of a patch, where it is a text.
pub open spec fn patched_text(patch: Option<Json>, key: Seq<char>) -> Option<Seq<char>> {
    match patch {
        Some(p) => text_field(p, key),
        None => None,
    }
}

/// The deadline that a patch gives: another one, none, or the one that was there; nothing where
/// it cannot be read.
pub open spec fn patched_deadline(
    patch: Option<Json>,
    old: Option<Seq<char>>,
    zone: Seq<char>,
    now: Stamp,
) -> Option<Option<Seq<char>>> {
    match patch {
        Some(p) => match field(p, "deadline"@) {
            Some(Json::Null) => Some(None),
            Some(Json::Str(s)) => match normalized(s@, zone, now) {
                Some(d) => Some(Some(d)),
                None => None,
            },
            _ => Some(old),
        },
        None => Some(old),
    }
}

/// The status that a patch gives; nothing where there is none of that name.
pub open spec fn patched_status(patch: Option<Json>, old: ItemStatus) -> Option<ItemStatus> {
    match patched_text(patch, "status"@) {
        Some(s) => ItemStatus::named(s),
        None => Some(old),
    }
}

/// A text, or another one where there is none.
pub open spec fn or_else(t: Option<Seq<char>>, other: Seq<char>) -> Seq<char> {
    match t {
        Some(s) => s,
        None => other,
    }
}

/// Whether an item is another one with a patch.
pub open spec fn is_patched(
    r: Item,
    item: Item,
    patch: Option<Json>,
    deadline: Option<Seq<char>>,
    status: ItemStatus,
    cfg: AppConfig,
    now_text: Seq<char>,
) -> bool {
    let lapsing = item.remind_policy@ == remind_policy::LINK_EXPIRY@;
    &&& r == (Item {
        title: r.title,
        party: r.party,
        event: r.event,
        category: r.category,
        deadline: r.deadline,
        remind_at: r.remind_at,
        remind_policy: r.remind_policy,
        needs_review: item.kind == ItemKind::Todo && deadline is None && item.needs_review,
        status,
        notes: r.notes,
        updated_at: r.updated_at,
        ..item
    })
    &&& r.title@ == match patched_text(patch, "title"@) {
        Some(t) => trimmed(t),
        None => item.title@,
    }
    &&& r.party@ == match patched_text(patch, "party"@) {
        Some(t) => trimmed(t),
        None => item.party@,
    }
    &&& r.event@ == match patched_text(patch, "event"@) {
        Some(t) => clamped(t),
        None => item.event@,
    }
    &&& r.category@ == match patched_text(patch, "category"@) {
        Some(t) => trimmed(t),
        None => item.category@,
    }
    &&& r.notes@ == or_else(patched_text(patch, "notes"@), item.notes@)
    &&& text_of(r.deadline) == deadline
    &&& r.remind_policy@ == policy(deadline, lapsing, now_text)
    &&& text_of(r.remind_at) == first_reminder(r, cfg, now_text)
    &&& r.updated_at@ == now_text
}

fn patch_text(patch: &Option<&Json>, key: &str) -> (r: Option<String>)
    ensures
        text_of(r) == patched_text(
            match *patch {
                Some(p) => Some(*p),
                None => None,
            },
            key@,
        ),
{
    match patch {
        Some(p) => p.text_at(key),
        None => None,
    }
}

/// What an approved change of an item does.
pub open spec fn update_item_done(
    d: Deed,
    args: Json,
    item: Option<Item>,
    cfg: AppConfig,
    now: Stamp,
    now_text: Seq<char>,
) -> bool {
    let patch = field(args, "patch"@);
    match (int_field(args, "id"@), item) {
        (None, _) => deed_refused(d, "invalid_args"@, "缺少 id"@),
        (Some(id), None) => deed_refused(d, "not_found"@, no_item(id)),
        (Some(_), Some(it)) => match patched_deadline(
            patch,
            text_of(it.deadline),
            cfg.timezone@,
            now,
        ) {
            None => deed_refused(d, "invalid_args"@, BAD_PATCH_TIME@),
            Some(deadline) => match patched_status(patch, it.status) {
                None => deed_refused(
                    d,
                    "invalid_args"@,
                    "非法 status: "@ + or_else(patched_text(patch, "status"@), Seq::empty()),
                ),
                Some(status) => d matches Deed::SaveItem(r) && is_patched(
                    r,
                    it,
                    patch,
                    deadline,
                    status,
                    cfg,
                    now_text,
                ),
            },
        },
    }
}

fn do_update_item(
    args: &Json,
    item: &Option<Item>,
    cfg: &AppConfig,
    now: &Stamp,
    now_text: &str,
) -> (r: Deed)
    ensures
        update_item_done(r, *args, *item, *cfg, *now, now_text@),
{
    let id = match args.int_at("id") {
        Some(n) => n,
        None => return deed_refuse("invalid_args", "缺少 id"),
    };
    let it = match item {
        Some(it) => it,
        None => {
            let m = numbered("事项 #", id, " 不存在");
            return deed_refuse("not_found", m.as_str());
        },
    };
    let patch = args.get("patch");
    let mut out = it.clone();
    if let Some(t) = patch_text(&patch, "title") {
        out.title = trim(t.as_str());
    }
    if let Some(t) = patch_text(&patch, "party") {
        out.party = trim(t.as_str());
    }
    if let Some(t) = patch_text(&patch, "event") {
        out.event = clamp_event(t.as_str());
    }
    if let Some(t) = patch_text(&patch, "category") {
        out.category = trim(t.as_str());
    }
    if let Some(t) = patch_text(&patch, "notes") {
        out.notes = t;
    }
    if let Some(p) = patch {
        if let Some(v) = p.get("deadline") {
            match v {
                Json::Null => {
                    out.deadline = None;
                },
                Json::Str(s) => match normalize_deadline(s.as_str(), &cfg.timezone, now) {
                    Some(d) => {
                        out.deadline = Some(d);
                    },
                    None => return deed_refuse("invalid_args", BAD_PATCH_TIME),
                },
                _ => {},
            }
        }
    }
    if let Some(s) = patch_text(&patch, "status") {
        match ItemStatus::parse(s.as_str()) {
            Some(st) => {
                out.status = st;
            },
            None => {
                let mut m = "非法 status: ".to_owned();
                m.append(s.as_str());
                return deed_refuse("invalid_args", m.as_str());
            },
        }
    }
    let todo = match out.kind {
        ItemKind::Todo => true,
        ItemKind::Notification => false,
    };
    out.needs_review = todo && out.deadline.is_none() && out.needs_review;
    out.updated_at = now_text.to_owned();
    let lapsing = same(it.remind_policy.as_str(), remind_policy::LINK_EXPIRY);
    set_reminders(&mut out, lapsing, cfg, now_text);
    Deed::SaveItem(out)
}

/// What is told of a tool that does nothing once it is approved.
pub const NO_DEED: &'static str = "该工具不支持审批重放";

/// What an approved request of a tool does: what it names is looked at again, for it may be gone.
pub open spec fn carried_out(
    d: Deed,
    work: Work,
    args: Json,
    item: Option<Item>,
    email_there: bool,
    cfg: AppConfig,
    now: Stamp,
    now_text: Seq<char>,
) -> bool {
    let id = int_field(args, "id"@);
    if work == Work::Own {
        d matches Deed::Own(a) && view_of(a) == view_of(args)
    } else if !work.changes() {
        deed_refused(d, "not_allowed"@, NO_DEED@)
    } else if work == Work::ChangeItem {
        update_item_done(d, args, item, cfg, now, now_text)
    } else if id is None {
        deed_refused(d, "invalid_args"@, "缺少 id"@)
    } else if work == Work::SetStatus {
        match text_field(args, "status"@) {
            None => deed_refused(d, "invalid_args"@, "缺少 status"@),
            Some(s) => match ItemStatus::named(s) {
                None => deed_refused(d, "invalid_args"@, "非法 status: "@ + s),
                Some(st) => if item is Some {
                    d == Deed::SetStatus(id->0, st)
                } else {
                    deed_refused(d, "not_found"@, no_item(id->0))
                },
            },
        }
    } else if work == Work::DeleteItem {
        if item is Some {
            d == Deed::DeleteItem(id->0)
        } else {
            deed_refused(d, "not_found"@, no_item(id->0))
        }
    } else if work == Work::Recategorize {
        match text_field(args, "category"@) {
            None => deed_refused(d, "invalid_args"@, "缺少 category"@),
            Some(c) => if email_there {
                d matches Deed::Recategorize(n, t) && n == id->0 && t@ == c
            } else {
                deed_refused(d, "not_found"@, no_email(id->0))
            },
        }
    } else {
        if email_there {
            d == Deed::DeleteEmail(id->0)
        } else {
            deed_refused(d, "not_found"@, no_email(id->0))
        }
    }
}

/// What an approved request does, by the tools that are registered: only those that have to be
/// approved do anything.
pub open spec fn done(
    d: Deed,
    tools: Seq<ToolDef>,
    tool: Seq<char>,
    args: Json,
    item: Option<Item>,
    email_there: bool,
    cfg: AppConfig,
    now: Stamp,
    now_text: Seq<char>,
) -> bool {
    match tool_named(tools, tool) {
        Some(t) if t.safety == SafetyLevel::Mutate => carried_out(
            d,
            t.work,
            args,
            item,
            email_there,
            cfg,
            now,
            now_text,
        ),
        _ => deed_refused(d, "internal"@, "未知或非审批类工具"@),
    }
}

/// What an approved request of a registered tool does. `item` is the item that it names, and
/// `email_there` tells whether the mail that it names is there.
pub fn apply_tool(
    registry: &ToolRegistry,
    tool: &str,
    args: &Json,
    item: &Option<Item>,
    email_there: bool,
    cfg: &AppConfig,
    now: &Stamp,
    now_text: &str,
) -> (r: Deed)
    ensures
        done(r, registry.tools@, tool@, *args, *item, email_there, *cfg, *now, now_text@),
{
    match registry.get(tool) {
        Some(t) => match t.safety {
            SafetyLevel::Mutate => carry_out(t.work, args, item, email_there, cfg, now, now_text),
            _ => deed_refuse("internal", "未知或非审批类工具"),
        },
        None => deed_refuse("internal", "未知或非审批类工具"),
    }
}

fn carry_out(
    work: Work,
    args: &Json,
    item: &Option<Item>,
    email_there: bool,
    cfg: &AppConfig,
    now: &Stamp,
    now_text: &str,
) -> (r: Deed)
    ensures
        carried_out(r, work, *args, *item, email_there, *cfg, *now, now_text@),
{
    match work {
        Work::Own => return Deed::Own(crate::json::copy(args)),
        Work::ChangeItem => return do_update_item(args, item, cfg, now, now_text),
        Work::SetStatus | Work::DeleteItem | Work::Recategorize | Work::DeleteEmail => {},
        _ => return deed_refuse("not_allowed", NO_DEED),
    }
    let id = match args.int_at("id") {
        Some(n) => n,
        None => return deed_refuse("invalid_args", "缺少 id"),
    };
    let item_gone = numbered("事项 #", id, " 不存在");
    let email_gone = numbered("邮件 #", id, " 不存在");
    match work {
        Work::SetStatus => match args.text_at("status") {
            None => deed_refuse("invalid_args", "缺少 status"),
            Some(s) => match ItemStatus::parse(s.as_str()) {
                None => {
                    let mut m = "非法 status: ".to_owned();
                    m.append(s.as_str());
                    deed_refuse("invalid_args", m.as_str())
                },
                Some(st) => {
                    if item.is_some() {
                        Deed::SetStatus(id, st)
                    } else {
                        deed_refuse("not_found", item_gone.as_str())
                    }
                },
            },
        },
        Work::DeleteItem => {
            if item.is_some() {
                Deed::DeleteItem(id)
            } else {
                deed_refuse("not_found", item_gone.as_str())
            }
        },
        Work::Recategorize => match args.text_at("category") {
            None => deed_refuse("invalid_args", "缺少 category"),
            Some(c) => {
                if email_there {
                    Deed::Recategorize(id, c)
                } else {
                    deed_refuse("not_found", email_gone.as_str())
                }
            },
        },
        _ => {
            if email_there {
                Deed::DeleteEmail(id)
            } else {
                deed_refuse("not_found", email_gone.as_str())
            }
        },
    }
}

/// What is told of what an approved request did.
pub open spec fn deed_message(d: Deed) -> Seq<char> {
    match d {
        Deed::Refuse(_) | Deed::Own(_) => Seq::empty(),
        Deed::SaveItem(it) => "事项 #"@ + signed_decimal(it.id as int) + " 已修改"@,
        Deed::SetStatus(id, st) => "事项 #"@ + signed_decimal(id as int) + " 状态已改为 "@
            + st.name(),
        Deed::DeleteItem(id) => "事项 #"@ + signed_decimal(id as int) + " 已删除"@,
        Deed::Recategorize(id, c) => "邮件 #"@ + signed_decimal(id as int) + " 已重新分类为 "@ + c@,
        Deed::DeleteEmail(id) => "邮件 #"@ + signed_decimal(id as int) + " 已删除"@,
    }
}

/// The result of what an approved request did. One of a tool that does something of its own is
/// refused here: its result is for whoever registered the tool.
pub fn deed_result(d: Deed) -> (r: ToolResult)
    ensures
        match d {
            Deed::Refuse(refused) => r == refused,
            Deed::Own(_) => failed(r, "not_allowed"@, NO_DEED@),
            Deed::SaveItem(it) => succeeded(
                r,
                JsonView::Obj(
                    members().push(("ok"@, JsonView::Bool(true))).push(
                        ("message"@, JsonView::Str(deed_message(d))),
                    ).push(("item"@, item_record(it))),
                ),
            ),
            _ => succeeded(
                r,
                JsonView::Obj(
                    members().push(("ok"@, JsonView::Bool(true))).push(
                        ("message"@, JsonView::Str(deed_message(d))),
                    ),
                ),
            ),
        },
{
    let mut m: Vec<(String, Json)> = Vec::new();
    put(&mut m, "ok", Json::Bool(true));
    match d {
        Deed::Refuse(refused) => return refused,
        Deed::Own(_) => return ToolResult::err("not_allowed", NO_DEED),
        Deed::SaveItem(it) => {
            let text = numbered("事项 #", it.id, " 已修改");
            put_text(&mut m, "message", text.as_str());
            put(&mut m, "item", item_json(&it));
        },
        Deed::SetStatus(id, st) => {
            let mut text = numbered("事项 #", id, " 状态已改为 ");
            text.append(st.as_str());
            put_text(&mut m, "message", text.as_str());
        },
        Deed::DeleteItem(id) => {
            let text = numbered("事项 #", id, " 已删除");
            put_text(&mut m, "message", text.as_str());
        },
        Deed::Recategorize(id, c) => {
            let mut text = numbered("邮件 #", id, " 已重新分类为 ");
            text.append(c.as_str());
            put_text(&mut m, "message", text.as_str());
        },
        Deed::DeleteEmail(id) => {
            let text = numbered("邮件 #", id, " 已删除");
            put_text(&mut m, "message", text.as_str());
        },
    }
    ToolResult::ok_content(Json::Obj(m))
}

/// Whether a tool changes or deletes something.
pub open spec fn mutating(t: ToolDef) -> bool {
    t.work.changes() || (t.work == Work::Own && t.safety == SafetyLevel::Mutate)
}

/// A tool that changes or deletes something never does so when it is called: the call is refused,
/// or a user is asked.
pub proof fn changes_wait_for_approval(
    p: Plan,
    t: ToolDef,
    args: Json,
    found: bool,
    zone: Seq<char>,
    now: Stamp,
)
    requires
        mutating(t),
        planned(p, t, args, found, zone, now),
    ensures
        p is Refuse || p is Ask,
{
}

/// A user is asked for changes only.
pub proof fn only_changes_are_asked_for(
    p: Plan,
    t: ToolDef,
    args: Json,
    found: bool,
    zone: Seq<char>,
    now: Stamp,
)
    requires
        planned(p, t, args, found, zone, now),
        p is Ask,
    ensures
        mutating(t),
{
}

/// A tool that is not registered does nothing, whether it is called or approved.
pub proof fn only_registered_tools_run(
    p: Plan,
    d: Deed,
    tools: Seq<ToolDef>,
    tool: Seq<char>,
    args: Result<Json, String>,
    payload: Json,
    item: Option<Item>,
    there: bool,
    cfg: AppConfig,
    now: Stamp,
    now_text: Seq<char>,
)
    requires
        tool_named(tools, tool) is None,
        called(p, tools, tool, args, there, cfg.timezone@, now),
        done(d, tools, tool, payload, item, there, cfg, now, now_text),
    ensures
        refuses(p, "unknown_tool"@, "未知工具: "@ + tool),
        d is Refuse,
{
}

/// A tool that waits for no approval does nothing when it is approved.
pub proof fn only_requests_can_be_approved(
    d: Deed,
    tools: Seq<ToolDef>,
    tool: Seq<char>,
    args: Json,
    item: Option<Item>,
    email_there: bool,
    cfg: AppConfig,
    now: Stamp,
    now_text: Seq<char>,
)
    requires
        tool_named(tools, tool) matches Some(t) ==> t.safety != SafetyLevel::Mutate || !mutating(t),
        done(d, tools, tool, args, item, email_there, cfg, now, now_text),
    ensures
        d is Refuse,
{
}

/// What is gone when a request is approved is not changed.
pub proof fn what_is_gone_stays_gone(
    d: Deed,
    tools: Seq<ToolDef>,
    tool: Seq<char>,
    args: Json,
    cfg: AppConfig,
    now: Stamp,
    now_text: Seq<char>,
)
    requires
        done(d, tools, tool, args, None, false, cfg, now, now_text),
    ensures
        d is Refuse || d is Own,
{
}

/// One mail makes one item: where a call names a category that there is and a title, and the mail
/// has an item, the model is told of that item and none is made, whatever else the call says. A
/// category that there is not is refused.
pub proof fn one_mail_makes_one_item(
    p: ItemPlan,
    args: Json,
    cat: Option<CategoryInfo>,
    existing: Item,
    origin: Origin,
    cfg: AppConfig,
    now: Stamp,
    now_text: Seq<char>,
)
    requires
        text_field(args, "category"@) is Some,
        text_field(args, "title"@) is Some,
        item_planned(p, args, cat, Some(existing), origin, cfg, now, now_text),
    ensures
        cat is Some ==> (p matches ItemPlan::Have(r) && succeeded(r, had_item(existing))),
        cat is None ==> (p matches ItemPlan::Refuse(r) && text_of(r.error_code) == Some(
            "invalid_args"@,
        ) && !r.ok),
{
}

/// A request that is made can be carried out, as long as what it names stays: approved, its
/// arguments as they were written are not refused. (A patch that names no status there is, is
/// refused only then.)
pub proof fn requests_can_be_carried_out(
    p: Plan,
    d: Deed,
    tools: Seq<ToolDef>,
    t: ToolDef,
    args: Json,
    payload: Json,
    item: Item,
    cfg: AppConfig,
    now: Stamp,
    now_text: Seq<char>,
)
    requires
        tool_named(tools, t.name@) == Some(t),
        t.safety == SafetyLevel::Mutate,
        mutating(t),
        planned(p, t, args, true, cfg.timezone@, now),
        p matches Plan::Ask(q) && view_of(payload) == tidied(view_of(q.payload)),
        done(d, tools, t.name@, payload, Some(item), true, cfg, now, now_text),
        t.work == Work::ChangeItem ==> patched_status(field(args, "patch"@), item.status) is Some && (
        field(args, "patch"@) matches Some(Json::Obj(m)) ==> unrepeated(obj_view(m@))),
    ensures
        !(d is Refuse),
{
    reveal_strlit("id");
    reveal_strlit("patch");
    reveal_strlit("status");
    reveal_strlit("category");
    assert("id"@.len() != "patch"@.len());
    assert("id"@.len() != "status"@.len());
    assert("id"@.len() != "category"@.len());
    if t.work != Work::Own {
        let id = int_field(args, "id"@)->0;
        let asked = view_of(p->Ask_0.payload)->Obj_0;
        field_of_view(payload, "id"@);
        field_of_view(payload, "patch"@);
        field_of_view(payload, "status"@);
        field_of_view(payload, "category"@);
        if t.work == Work::ChangeItem {
            let patch = field(args, "patch"@)->0;
            let inner = obj_view(patch->Obj_0@);
            two_members("id"@, JsonView::Int(id), "patch"@, view_of(patch));
            assert(asked[0].0 == "id"@ && asked[1].0 == "patch"@);
            written_members_stay(asked, "id"@);
            written_members_stay(asked, "patch"@);
            let kept = field(payload, "patch"@)->0;
            assert(view_of(kept) == tidied(JsonView::Obj(inner)));
            field_of_view(kept, "deadline"@);
            field_of_view(patch, "deadline"@);
            field_of_view(kept, "status"@);
            field_of_view(patch, "status"@);
            written_members_stay(inner, "deadline"@);
            written_members_stay(inner, "status"@);
        } else if t.work == Work::SetStatus {
            two_members(
                "id"@,
                JsonView::Int(id),
                "status"@,
                JsonView::Str(text_field(args, "status"@)->0),
            );
            assert(asked[0].0 == "id"@ && asked[1].0 == "status"@);
            written_members_stay(asked, "id"@);
            written_members_stay(asked, "status"@);
        } else if t.work == Work::Recategorize {
            two_members(
                "id"@,
                JsonView::Int(id),
                "category"@,
                JsonView::Str(text_field(args, "category"@)->0),
            );
            assert(asked[0].0 == "id"@ && asked[1].0 == "category"@);
            written_members_stay(asked, "id"@);
            written_members_stay(asked, "category"@);
        } else {
            assert(asked[0] == ("id"@, JsonView::Int(id)));
            assert(view_field(JsonView::Obj(asked), "id"@) == Some(JsonView::Int(id)));
            written_members_stay(asked, "id"@);
        }
    }
}

/// What is asked for is as simple as the call: where the arguments of a call can be written and
/// read back, so can those of the request.
pub proof fn requests_are_as_simple_as_calls(
    p: Plan,
    t: ToolDef,
    args: Json,
    zone: Seq<char>,
    now: Stamp,
    depth: nat,
)
    requires
        planned(p, t, args, true, zone, now),
        simple(view_of(args), depth),
    ensures
        p matches Plan::Ask(q) ==> simple(view_of(q.payload), depth),
{
    if let Plan::Ask(q) = p {
        reveal_strlit("id");
        reveal_strlit("patch");
        reveal_strlit("status");
        reveal_strlit("category");
        if t.work == Work::ChangeItem {
            field_of_view(args, "patch"@);
            let all = view_of(args)->Obj_0;
            let patch = field(args, "patch"@)->0;
            view_member_bound(all, "patch"@);
            let k = crate::json::view_member(all, "patch"@)->0;
            assert(simple(all[k].1, (depth - 1) as nat));
            assert(view_of(patch) == all[k].1);
        } else if t.work != Work::Own {
            field_of_view(args, "id"@);
            assert(view_of(args) is Obj);
        }
        if t.work != Work::Own {
            let asked = view_of(q.payload)->Obj_0;
            assert("id"@[0] == 'i' && "patch"@[0] == 'p' && "status"@[0] == 's' && "category"@[0]
                == 'c');
            reveal_with_fuel(simple, 2);
            assert forall|i: int| 0 <= i < asked.len() implies ordinary_name(
                (#[trigger] asked[i]).0,
            ) && simple(asked[i].1, (depth - 1) as nat) by {}
        }
    }
}

} // verus!
