//! The agent and its tools: what calls come to, what approved requests do, and when a conversation
//! goes on.

use crate::agent::AgentFailure;
use crate::agent::calls::called;
use crate::agent::calls::carried_out;
use crate::agent::calls::Deed;
use crate::agent::calls::done;
use crate::agent::calls::is_patched;
use crate::agent::calls::item_planned;
use crate::agent::calls::ItemPlan;
use crate::agent::calls::normalized;
use crate::agent::calls::Origin;
use crate::agent::calls::patched_deadline;
use crate::agent::calls::Plan;
use crate::agent::calls::planned;
use crate::agent::calls::subject_among;
use crate::agent::calls::Subject;
use crate::agent::Conversation;
use crate::agent::final_category;
use crate::agent::final_item;
use crate::agent::registry::ToolDef;
use crate::agent::registry::tool_named;
use crate::agent::registry::ToolResult;
use crate::agent::registry::Work;
use crate::config::AppConfig;
use crate::deadline::action_hint;
use crate::deadline::expiry_hint;
use crate::deadline::explicit_time;
use crate::json::field;
use crate::json::Json;
use crate::json::JsonView;
use crate::json::member_bound;
use crate::json::obj_view;
use crate::json::view_of;
use crate::model::CategoryInfo;
use crate::model::Item;
use crate::model::ItemKind;
use crate::model::ItemStatus;
use crate::notifier::clamped;
use crate::notifier::policy;
use crate::notifier::remind_plan;
use crate::text::trim_idempotent;
use crate::text::trimmed;
use crate::time::rfc3339_moment;
use crate::time::Stamp;
use vstd::prelude::*;

verus! {

/// What is looked up in an object is its first member of that name; nothing else has members.
pub proof fn members_are_looked_up(m: Vec<(String, Json)>, key: Seq<char>, i: int)
    ensures
        0 <= i < m@.len() && m@[i].0@ == key && (forall|k: int|
            0 <= k < i ==> (#[trigger] m@[k]).0@ != key) ==> field(Json::Obj(m), key) == Some(
            m@[i].1,
        ),
        (forall|k: int| 0 <= k < m@.len() ==> (#[trigger] m@[k]).0@ != key) ==> field(
            Json::Obj(m),
            key,
        ) is None,
        forall|j: Json| !(j is Obj) ==> (#[trigger] field(j, key)) is None,
{
    member_bound(m@, key);
}

/// The number that an argument gives.
pub open spec fn number_arg(args: Json, key: Seq<char>) -> Option<i64> {
    match field(args, key) {
        Some(Json::Int(n)) => Some(n),
        _ => None,
    }
}

/// The text that an argument gives.
pub open spec fn text_arg(args: Json, key: Seq<char>) -> Option<Seq<char>> {
    match field(args, key) {
        Some(Json::Str(s)) => Some(s@),
        _ => None,
    }
}

/// Whether a call is refused for that reason, with nothing done.
pub open spec fn is_refused(p: Plan, code: Seq<char>) -> bool {
    p matches Plan::Refuse(r) && !r.ok && r.error_code is Some && r.error_code->0@ == code
        && !r.created_approval
}

/// Whether a user is asked to let a tool run with these arguments.
pub open spec fn is_asked(p: Plan, args: Seq<(Seq<char>, JsonView)>) -> bool {
    p matches Plan::Ask(q) && view_of(q.payload) == JsonView::Obj(args)
}

/// Whether what is stored is told by a text.
pub open spec fn told_by(t: Option<String>, s: Option<Seq<char>>) -> bool {
    match t {
        Some(x) => s == Some(x@),
        None => s is None,
    }
}

/// A call to read looks at what is asked for, and a call for what is not there, or without what it
/// needs, is refused and says which.
pub proof fn calls_that_read(
    p: Plan,
    t: ToolDef,
    args: Json,
    found: bool,
    zone: Seq<char>,
    now: Stamp,
)
    requires
        planned(p, t, args, found, zone, now),
    ensures
        t.work == Work::ReadEmail ==> match number_arg(args, "id"@) {
            Some(id) => if found {
                p == Plan::ReadEmail(id)
            } else {
                is_refused(p, "not_found"@)
            },
            None => is_refused(p, "invalid_args"@),
        },
        t.work == Work::SearchEmails ==> (p matches Plan::SearchEmails(f) && told_by(
            f.category,
            text_arg(args, "category"@),
        ) && told_by(f.q, text_arg(args, "q"@)) && told_by(f.since, text_arg(args, "since"@))
            && f.before is None && f.account_id is None && f.label is None && 1 <= f.limit <= 50
            && (number_arg(args, "limit"@) is None ==> f.limit == 20) && (number_arg(
            args,
            "limit"@,
        ) matches Some(n) ==> (1 <= n <= 50 ==> f.limit == n))),
        t.work == Work::ListItems ==> {
            let status = text_arg(args, "status"@);
            if status is Some && status->0 != "active"@ && status->0 != "completed"@ && status->0
                != "silent"@ && status->0 != "expired"@ {
                is_refused(p, "invalid_args"@)
            } else {
                p matches Plan::ListItems(f) && f.kind is None && told_by(
                    f.category,
                    text_arg(args, "category"@),
                ) && told_by(f.party, text_arg(args, "party"@)) && told_by(
                    f.q,
                    text_arg(args, "q"@),
                ) && f.account_id is None && f.created_after is None && f.created_before is None
                    && f.deadline_after is None && f.deadline_before is None && 1 <= f.limit <= 200
                    && (number_arg(args, "limit"@) is None ==> f.limit == 50) && (number_arg(
                    args,
                    "limit"@,
                ) matches Some(n) ==> (1 <= n <= 200 ==> f.limit == n)) && f.status == (
                if status is None {
                    None
                } else if status->0 == "active"@ {
                    Some(ItemStatus::Active)
                } else if status->0 == "completed"@ {
                    Some(ItemStatus::Completed)
                } else if status->0 == "silent"@ {
                    Some(ItemStatus::Silent)
                } else {
                    Some(ItemStatus::Expired)
                })
            }
        },
        t.work == Work::ListCategories ==> p == Plan::ListCategories,
        t.work == Work::MakeItem ==> p == Plan::MakeItem,
{
}

/// A call to add a category needs a name in small letters, digits, underscores and hyphens, of 32
/// characters at most, and a label. It makes no items unless that is asked for and it is one of
/// things to do; where no kind is given it is one of notifications.
pub proof fn calls_that_add_a_category(
    p: Plan,
    t: ToolDef,
    args: Json,
    found: bool,
    zone: Seq<char>,
    now: Stamp,
)
    requires
        planned(p, t, args, found, zone, now),
        t.work == Work::AddCategory,
    ensures
        ({
            let id = text_arg(args, "id"@);
            let label = text_arg(args, "label"@);
            let kind = match text_arg(args, "kind"@) {
                Some(k) => k,
                None => "notification"@,
            };
            let named = id is Some && 1 <= id->0.len() <= 32 && forall|i: int|
                0 <= i < id->0.len() ==> ('a' <= #[trigger] id->0[i] <= 'z' || '0' <= id->0[i] <= '9'
                    || id->0[i] == '_' || id->0[i] == '-');
            if named && label is Some && (kind == "todo"@ || kind == "notification"@) {
                p matches Plan::AddCategory(c) && c.id@ == id->0 && c.label@ == label->0 && c.kind@
                    == kind && c.create_item == (kind == "todo"@ && field(args, "create_item"@)
                    == Some(Json::Bool(true)))
            } else {
                is_refused(p, "invalid_args"@)
            }
        }),
{
    match text_arg(args, "id"@) {
        Some(id) => {
            if crate::agent::calls::category_id(id) {
                assert forall|i: int| 0 <= i < id.len() implies ('a' <= #[trigger] id[i] <= 'z'
                    || '0' <= id[i] <= '9' || id[i] == '_' || id[i] == '-') by {
                    assert(crate::agent::calls::id_char(id[i]));
                }
            } else if 1 <= id.len() <= 32 {
                let i = choose|i: int|
                    0 <= i < id.len() && !crate::agent::calls::id_char(#[trigger] id[i]);
                assert(!('a' <= id[i] <= 'z' || '0' <= id[i] <= '9' || id[i] == '_' || id[i]
                    == '-'));
            }
        },
        None => {},
    }
}

/// A call to change or delete changes nothing: what it names has to be there and its arguments in
/// order, and then a user is asked, for just that.
pub proof fn calls_that_change(
    p: Plan,
    t: ToolDef,
    args: Json,
    found: bool,
    zone: Seq<char>,
    now: Stamp,
)
    requires
        planned(p, t, args, found, zone, now),
        t.work == Work::ChangeItem || t.work == Work::SetStatus || t.work == Work::DeleteItem
            || t.work == Work::Recategorize || t.work == Work::DeleteEmail,
    ensures
        number_arg(args, "id"@) is None ==> is_refused(p, "invalid_args"@),
        number_arg(args, "id"@) is Some && !found ==> is_refused(p, "not_found"@),
        number_arg(args, "id"@) is Some && found ==> {
            let id = number_arg(args, "id"@)->0;
            &&& t.work == Work::DeleteItem || t.work == Work::DeleteEmail ==> is_asked(
                p,
                seq![("id"@, JsonView::Int(id))],
            )
            &&& t.work == Work::SetStatus ==> match text_arg(args, "status"@) {
                Some(s) => if s == "active"@ || s == "completed"@ || s == "silent"@ || s
                    == "expired"@ {
                    is_asked(p, seq![("id"@, JsonView::Int(id)), ("status"@, JsonView::Str(s))])
                } else {
                    is_refused(p, "invalid_args"@)
                },
                None => is_refused(p, "invalid_args"@),
            }
            &&& t.work == Work::Recategorize ==> match text_arg(args, "category"@) {
                Some(c) => is_asked(
                    p,
                    seq![("id"@, JsonView::Int(id)), ("category"@, JsonView::Str(c))],
                ),
                None => is_refused(p, "invalid_args"@),
            }
            &&& t.work == Work::ChangeItem ==> match field(args, "patch"@) {
                Some(Json::Obj(m)) => if m@.len() > 0 && (text_arg(Json::Obj(m), "deadline"@) is Some
                    ==> normalized(text_arg(Json::Obj(m), "deadline"@)->0, zone, now) is Some) {
                    is_asked(
                        p,
                        seq![
                            ("id"@, JsonView::Int(id)),
                            ("patch"@, JsonView::Obj(obj_view(m@))),
                        ],
                    )
                } else {
                    is_refused(p, "invalid_args"@)
                },
                _ => is_refused(p, "invalid_args"@),
            }
        },
{
    if number_arg(args, "id"@) is Some {
        let id = number_arg(args, "id"@)->0;
        let none = crate::json::members();
        assert(none.push(("id"@, JsonView::Int(id))) =~= seq![("id"@, JsonView::Int(id))]);
        if text_arg(args, "status"@) is Some {
            let s = text_arg(args, "status"@)->0;
            assert(none.push(("id"@, JsonView::Int(id))).push(("status"@, JsonView::Str(s)))
                =~= seq![("id"@, JsonView::Int(id)), ("status"@, JsonView::Str(s))]);
        }
        if text_arg(args, "category"@) is Some {
            let c = text_arg(args, "category"@)->0;
            assert(none.push(("id"@, JsonView::Int(id))).push(("category"@, JsonView::Str(c)))
                =~= seq![("id"@, JsonView::Int(id)), ("category"@, JsonView::Str(c))]);
        }
        match field(args, "patch"@) {
            Some(Json::Obj(m)) => {
                assert(none.push(("id"@, JsonView::Int(id))).push(
                    ("patch"@, JsonView::Obj(obj_view(m@))),
                ) =~= seq![
                    ("id"@, JsonView::Int(id)),
                    ("patch"@, JsonView::Obj(obj_view(m@))),
                ]);
            },
            _ => {},
        }
    }
}

/// A tool that is not known and arguments that are no JSON are refused, and say so.
pub proof fn calls_that_cannot_be_made(
    p: Plan,
    tools: Seq<ToolDef>,
    tool: Seq<char>,
    args: Result<Json, String>,
    found: bool,
    zone: Seq<char>,
    now: Stamp,
)
    requires
        called(p, tools, tool, args, found, zone, now),
    ensures
        (forall|i: int| 0 <= i < tools.len() ==> (#[trigger] tools[i]).name@ != tool)
            ==> is_refused(p, "unknown_tool"@),
        (exists|i: int| 0 <= i < tools.len() && (#[trigger] tools[i]).name@ == tool) && args is Err
            ==> is_refused(p, "invalid_args"@),
{
    names_are_found(tools, tool);
}

proof fn names_are_found(tools: Seq<ToolDef>, name: Seq<char>)
    ensures
        match tool_named(tools, name) {
            Some(t) => t.name@ == name && exists|i: int|
                0 <= i < tools.len() && (#[trigger] tools[i]).name@ == name && tools[i] == t,
            None => forall|i: int| 0 <= i < tools.len() ==> (#[trigger] tools[i]).name@ != name,
        },
    decreases tools.len(),
{
    if tools.len() > 0 && tools[0].name@ != name {
        let rest = tools.drop_first();
        names_are_found(rest, name);
        match tool_named(rest, name) {
            Some(t) => {
                let i = choose|i: int|
                    0 <= i < rest.len() && (#[trigger] rest[i]).name@ == name && rest[i] == t;
                assert(tools[i + 1] == rest[i]);
            },
            None => {
                assert forall|i: int| 0 <= i < tools.len() implies (#[trigger] tools[i]).name@
                    != name by {
                    if i > 0 {
                        assert(tools[i] == rest[i - 1]);
                    }
                }
            },
        }
    }
}

/// What a call names that has to be there is the mail or the item of its number.
pub proof fn what_a_call_is_about(tools: Seq<ToolDef>, i: int, id: i64)
    requires
        0 <= i < tools.len(),
        forall|j: int| 0 <= j < i ==> (#[trigger] tools[j]).name@ != tools[i].name@,
    ensures
        ({
            let w = tools[i].work;
            let s = subject_among(tools, tools[i].name@, Some(id));
            &&& w == Work::ReadEmail || w == Work::Recategorize || w == Work::DeleteEmail ==> s
                == Subject::Email(id)
            &&& w == Work::ChangeItem || w == Work::SetStatus || w == Work::DeleteItem ==> s
                == Subject::Item(id)
        }),
        subject_among(tools, tools[i].name@, None) == Subject::Nothing,
    decreases tools.len(),
{
    if i > 0 {
        let rest = tools.drop_first();
        assert forall|j: int| 0 <= j < i - 1 implies (#[trigger] rest[j]).name@ != rest[i
            - 1].name@ by {
            assert(rest[j] == tools[j + 1]);
        }
        assert(tools[0].name@ != tools[i].name@);
        what_a_call_is_about(rest, i - 1, id);
    }
}

/// Whether an approved request is refused for that reason.
pub open spec fn is_turned_down(d: Deed, code: Seq<char>) -> bool {
    d matches Deed::Refuse(r) && !r.ok && r.error_code is Some && r.error_code->0@ == code
}

/// An approved request does to what it names just what it asks for, as long as that is there.
pub proof fn approved_requests_are_carried_out(
    d: Deed,
    work: Work,
    args: Json,
    item: Option<Item>,
    email_there: bool,
    cfg: AppConfig,
    now: Stamp,
    now_text: Seq<char>,
    id: i64,
)
    requires
        carried_out(d, work, args, item, email_there, cfg, now, now_text),
        number_arg(args, "id"@) == Some(id),
    ensures
        work == Work::DeleteItem ==> if item is Some {
            d == Deed::DeleteItem(id)
        } else {
            is_turned_down(d, "not_found"@)
        },
        work == Work::DeleteEmail ==> if email_there {
            d == Deed::DeleteEmail(id)
        } else {
            is_turned_down(d, "not_found"@)
        },
        work == Work::SetStatus ==> {
            let s = text_arg(args, "status"@);
            &&& s is None ==> is_turned_down(d, "invalid_args"@)
            &&& item is None && s is Some ==> d is Refuse
            &&& item is Some && s == Some("active"@) ==> d == Deed::SetStatus(id, ItemStatus::Active)
            &&& item is Some && s == Some("completed"@) ==> d == Deed::SetStatus(
                id,
                ItemStatus::Completed,
            )
            &&& item is Some && s == Some("silent"@) ==> d == Deed::SetStatus(id, ItemStatus::Silent)
            &&& item is Some && s == Some("expired"@) ==> d == Deed::SetStatus(
                id,
                ItemStatus::Expired,
            )
            &&& s matches Some(n) ==> n != "active"@ && n != "completed"@ && n != "silent"@ && n
                != "expired"@ ==> is_turned_down(d, "invalid_args"@)
        },
        work == Work::Recategorize ==> match text_arg(args, "category"@) {
            Some(c) => if email_there {
                d matches Deed::Recategorize(n, t) && n == id && t@ == c
            } else {
                is_turned_down(d, "not_found"@)
            },
            None => is_turned_down(d, "invalid_args"@),
        },
        work == Work::ReadEmail || work == Work::SearchEmails || work == Work::ListItems || work
            == Work::ListCategories || work == Work::AddCategory || work == Work::MakeItem
            ==> is_turned_down(d, "not_allowed"@),
{
    crate::laws::tools::status_names_differ();
}

/// No two statuses have one name.
pub proof fn status_names_differ()
    ensures
        "active"@ != "completed"@,
        "active"@ != "silent"@,
        "active"@ != "expired"@,
        "completed"@ != "silent"@,
        "completed"@ != "expired"@,
        "silent"@ != "expired"@,
{
    reveal_strlit("active");
    reveal_strlit("completed");
    reveal_strlit("silent");
    reveal_strlit("expired");
    assert("active"@[0] == 'a');
    assert("silent"@[0] == 's');
    assert("completed"@[0] == 'c');
    assert("expired"@[0] == 'e');
}

/// A change of an item gives it what the patch says and leaves the rest: title, party and category
/// without white space at the ends, ten characters of the event at most, notes, status, and the
/// deadline, which null takes away. It is then reminded of as the new deadline asks for.
pub proof fn patches_change_what_they_name(
    r: Item,
    item: Item,
    patch: Json,
    deadline: Option<Seq<char>>,
    status: ItemStatus,
    cfg: AppConfig,
    now_text: Seq<char>,
)
    requires
        is_patched(r, item, Some(patch), deadline, status, cfg, now_text),
    ensures
        r.id == item.id,
        r.kind == item.kind,
        r.source_email_id == item.source_email_id,
        r.account_id == item.account_id,
        r.created_at == item.created_at,
        r.status == status,
        r.updated_at@ == now_text,
        r.title@ == match text_arg(patch, "title"@) {
            Some(t) => trimmed(t),
            None => item.title@,
        },
        r.party@ == match text_arg(patch, "party"@) {
            Some(t) => trimmed(t),
            None => item.party@,
        },
        r.category@ == match text_arg(patch, "category"@) {
            Some(t) => trimmed(t),
            None => item.category@,
        },
        r.event@ == match text_arg(patch, "event"@) {
            Some(t) => clamped(t),
            None => item.event@,
        },
        r.notes@ == match text_arg(patch, "notes"@) {
            Some(t) => t,
            None => item.notes@,
        },
        told_by(r.deadline, deadline),
        r.remind_policy@ == policy(deadline, item.remind_policy@ == "link_expiry"@, now_text),
        told_by(
            r.remind_at,
            if remind_plan(r, cfg, now_text).len() == 0 {
                None
            } else {
                Some(remind_plan(r, cfg, now_text)[0])
            },
        ),
        r.needs_review ==> item.needs_review && item.kind == ItemKind::Todo && deadline is None,
{
}

/// The deadline after a patch: the one that it gives, none where it gives null, the one there was
/// where it gives none; a text that tells no time is an error.
pub proof fn patched_deadlines(
    patch: Json,
    there: Option<Seq<char>>,
    zone: Seq<char>,
    now: Stamp,
)
    ensures
        field(patch, "deadline"@) is None ==> patched_deadline(Some(patch), there, zone, now)
            == Some(there),
        field(patch, "deadline"@) == Some(Json::Null) ==> patched_deadline(
            Some(patch),
            there,
            zone,
            now,
        ) == Some(None::<Seq<char>>),
        text_arg(patch, "deadline"@) matches Some(s) ==> patched_deadline(
            Some(patch),
            there,
            zone,
            now,
        ) == match normalized(s, zone, now) {
            Some(d) => Some(Some(d)),
            None => None,
        },
{
}

/// A time that is given is kept where it is in RFC 3339, white space at the ends aside; else it is
/// the one that its words tell.
pub proof fn given_times_are_normalized(s: Seq<char>, zone: Seq<char>, now: Stamp)
    ensures
        ({
            let t = trimmed(s);
            if t.len() > 0 && rfc3339_moment(t) is Some {
                normalized(s, zone, now) == Some(t)
            } else {
                normalized(s, zone, now) == match explicit_time(t, zone, now) {
                    Some(e) => Some(e.0),
                    None => None,
                }
            }
        }),
{
    trim_idempotent(s);
}

/// A call to make an item needs a title and a category that there is. Where the mail has an item
/// none is made. Else the item is an active one of the account and the mail, with what the call
/// says; it is a notification where its category is one of notifications.
pub proof fn calls_that_make_an_item(
    p: ItemPlan,
    args: Json,
    cat: Option<CategoryInfo>,
    existing: Option<Item>,
    origin: Origin,
    cfg: AppConfig,
    now: Stamp,
    now_text: Seq<char>,
)
    requires
        item_planned(p, args, cat, existing, origin, cfg, now, now_text),
    ensures
        text_arg(args, "category"@) is None || text_arg(args, "title"@) is None || cat is None ==> (
        p matches ItemPlan::Refuse(r) && !r.ok && r.error_code is Some && r.error_code->0@
            == "invalid_args"@),
        text_arg(args, "category"@) is Some && text_arg(args, "title"@) is Some && cat is Some
            && existing is Some ==> (p matches ItemPlan::Have(r) && r.ok),
        p matches ItemPlan::Insert(it) ==> {
            let d = text_arg(args, "deadline"@);
            let deadline = if d is Some && trimmed(d->0).len() > 0 && d->0 != "null"@ {
                normalized(d->0, cfg.timezone@, now)
            } else {
                None
            };
            &&& existing is None && cat is Some
            &&& it.title@ == text_arg(args, "title"@)->0
            &&& it.category@ == text_arg(args, "category"@)->0
            &&& it.kind == if cat->0.kind@ == "notification"@ {
                ItemKind::Notification
            } else {
                ItemKind::Todo
            }
            &&& text_arg(args, "party"@) matches Some(t) ==> it.party@ == t
            &&& text_arg(args, "event"@) matches Some(t) ==> it.event@ == clamped(t)
            &&& text_arg(args, "notes"@) matches Some(t) ==> it.notes@ == t
            &&& told_by(it.deadline, deadline)
            &&& it.status == ItemStatus::Active
            &&& it.source_email_id == origin.source_email_id
            &&& it.account_id == origin.account_id
            &&& it.created_at@ == now_text
            &&& it.remind_policy@ == policy(
                deadline,
                expiry_hint(origin.text@) is Some && action_hint(origin.text@) is None,
                now_text,
            )
            &&& told_by(
                it.remind_at,
                if remind_plan(it, cfg, now_text).len() == 0 {
                    None
                } else {
                    Some(remind_plan(it, cfg, now_text)[0])
                },
            )
        },
        text_arg(args, "category"@) is Some && text_arg(args, "title"@) is Some && cat is Some
            && existing is None && text_arg(args, "deadline"@) is None ==> p is Insert,
{
}

/// A conversation fails at once where a tool broke, and over arguments that are not in order only
/// in the round right after another with such arguments.
pub proof fn when_a_conversation_fails(c: Conversation, result: ToolResult)
    ensures
        ({
            let code = match result.error_code {
                Some(t) => Some(t@),
                None => None,
            };
            &&& code == Some("internal"@) ==> c.verdict(result) == Some(AgentFailure::ToolBroke)
            &&& code == Some("invalid_args"@) && c.faulty_round > 0 && c.rounds == c.faulty_round + 1
                ==> c.verdict(result) == Some(AgentFailure::NotMended)
            &&& code == Some("invalid_args"@) && (c.faulty_round == 0 || c.rounds != c.faulty_round
                + 1) ==> c.verdict(result) is None && c.faulty_after(result) == c.rounds
            &&& code != Some("internal"@) && code != Some("invalid_args"@) ==> c.verdict(
                result,
            ) is None && c.faulty_after(result) == c.faulty_round
        }),
{
    reveal_strlit("internal");
    reveal_strlit("invalid_args");
    assert("internal"@.len() != "invalid_args"@.len());
}

/// The last answer names its category, white space at the ends aside, and the item that it speaks
/// of: the one in it, or itself where it has none and tells a party, an event or a deadline.
pub proof fn what_the_last_answer_says(v: Json)
    ensures
        text_arg(v, "category"@) is None ==> final_category(v) is None,
        text_arg(v, "category"@) matches Some(t) ==> final_category(v) == if trimmed(t).len() > 0 {
            Some(trimmed(t))
        } else {
            None
        },
        field(v, "item"@) matches Some(i) ==> i is Obj ==> final_item(v) == Some(i),
        (field(v, "item"@) is None || field(v, "item"@) == Some(Json::Null)) ==> final_item(v)
            == if field(v, "party"@) is Some || field(v, "event"@) is Some || field(
            v,
            "deadline"@,
        ) is Some {
            Some(v)
        } else {
            None
        },
        field(v, "item"@) matches Some(i) ==> !(i is Obj) && !(i is Null) ==> final_item(v) is None,
{
}

} // verus!
