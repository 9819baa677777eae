//! The tools of the agent, and what it is told of a mail.

use crate::agent::calls::Deed;
use crate::agent::calls::deed_message;
use crate::agent::category_pairs;
use crate::agent::registry::function_json;
use crate::agent::registry::SafetyLevel;
use crate::agent::registry::ToolDef;
use crate::agent::registry::Work;
use crate::agent::shown_code;
use crate::agent::shown_time;
use crate::agent::system_text;
use crate::agent::tools::Arg;
use crate::agent::tools::ArgKind;
use crate::agent::tools::arg_view;
use crate::agent::tools::args_view;
use crate::agent::tools::required_view;
use crate::agent::tools::create_category_args;
use crate::agent::tools::create_item_args;
use crate::agent::tools::delete_email_args;
use crate::agent::tools::delete_item_args;
use crate::agent::tools::get_email_args;
use crate::agent::tools::list_categories_args;
use crate::agent::tools::list_items_args;
use crate::agent::tools::search_emails_args;
use crate::agent::tools::set_item_status_args;
use crate::agent::tools::update_email_category_args;
use crate::agent::tools::update_item_args;
use crate::agent::tools::schema_view;
use crate::agent::tools::standard;
use crate::agent::tools::type_view;
use crate::agent::trace_line;
use crate::agent::user_text;
use crate::json::JsonView;
use crate::json::view_of;
use crate::laws::holds;
use crate::laws::records::tells;
use crate::llm::tagged;
use crate::llm::ToolCall;
use crate::llm::truncated;
use crate::model::CategoryInfo;
use crate::model::EmailRecord;
use crate::model::ItemStatus;
use crate::number::decimal;
use crate::number::signed_decimal;
use crate::text::debug_text;
use crate::text::joined;
use vstd::prelude::*;

verus! {

/// Whether a tool has that name, and is as safe and does as much as that.
pub open spec fn is_tool(t: ToolDef, name: Seq<char>, safety: SafetyLevel, work: Work) -> bool {
    t.name@ == name && t.safety == safety && t.work == work
}

/// Whether a tool takes the arguments of these names and no others, and needs some of them.
pub open spec fn takes(t: ToolDef, names: Seq<Seq<char>>, needed: Seq<Seq<char>>) -> bool {
    view_of(t.parameters) matches JsonView::Obj(m) && m.len() == 4 && m[0] == (
        "type"@,
        JsonView::Str("object"@),
    ) && m[1].0 == "properties"@ && (m[1].1 matches JsonView::Obj(p) && p.len() == names.len()
        && forall|i: int| 0 <= i < names.len() ==> (#[trigger] p[i]).0 == names[i]) && m[2].0
        == "required"@ && (m[2].1 matches JsonView::Arr(r) && r.len() == needed.len() && forall|i: int|
        0 <= i < needed.len() ==> #[trigger] r[i] == JsonView::Str(needed[i])) && m[3] == (
        "additionalProperties"@,
        JsonView::Bool(false),
    )
}

proof fn arguments_are_named(
    t: ToolDef,
    args: Seq<Arg>,
    required: Seq<&'static str>,
    names: Seq<Seq<char>>,
    needed: Seq<Seq<char>>,
)
    requires
        view_of(t.parameters) == schema_view(args, required),
        args.len() == names.len(),
        required.len() == needed.len(),
        forall|i: int| 0 <= i < names.len() ==> (#[trigger] args[i]).name@ == names[i],
        forall|i: int| 0 <= i < needed.len() ==> (#[trigger] required[i])@ == needed[i],
    ensures
        takes(t, names, needed),
{
    let p = args_view(args);
    let r = required_view(required);
    assert forall|i: int| 0 <= i < names.len() implies (#[trigger] p[i]).0 == names[i] by {
        assert(args[i].name@ == names[i]);
    }
    assert forall|i: int| 0 <= i < needed.len() implies #[trigger] r[i] == JsonView::Str(needed[i]) by {
        assert(required[i]@ == needed[i]);
    }
}

/// There are eleven tools: four to look things up, two to add something, and five to change or
/// delete something. Each takes what it is about.
pub proof fn tools_that_there_are(tools: Seq<ToolDef>)
    requires
        standard(tools),
    ensures
        tools.len() == 11,
        is_tool(tools[0], "get_email"@, SafetyLevel::ReadOnly, Work::ReadEmail),
        takes(tools[0], seq!["id"@], seq!["id"@]),
        is_tool(tools[1], "search_emails"@, SafetyLevel::ReadOnly, Work::SearchEmails),
        takes(tools[1], seq!["category"@, "q"@, "since"@, "limit"@], Seq::empty()),
        is_tool(tools[2], "list_items"@, SafetyLevel::ReadOnly, Work::ListItems),
        takes(tools[2], seq!["status"@, "category"@, "party"@, "q"@, "limit"@], Seq::empty()),
        is_tool(tools[3], "list_categories"@, SafetyLevel::ReadOnly, Work::ListCategories),
        takes(tools[3], Seq::empty(), Seq::empty()),
        is_tool(tools[4], "create_category"@, SafetyLevel::Create, Work::AddCategory),
        takes(tools[4], seq!["id"@, "label"@, "create_item"@, "kind"@], seq!["id"@, "label"@]),
        is_tool(tools[5], "create_item"@, SafetyLevel::Create, Work::MakeItem),
        takes(tools[5], seq!["category"@, "title"@, "party"@, "event"@, "deadline"@, "notes"@], seq!["category"@, "title"@]),
        is_tool(tools[6], "update_item"@, SafetyLevel::Mutate, Work::ChangeItem),
        takes(tools[6], seq!["id"@, "patch"@], seq!["id"@, "patch"@]),
        is_tool(tools[7], "set_item_status"@, SafetyLevel::Mutate, Work::SetStatus),
        takes(tools[7], seq!["id"@, "status"@], seq!["id"@, "status"@]),
        is_tool(tools[8], "delete_item"@, SafetyLevel::Mutate, Work::DeleteItem),
        takes(tools[8], seq!["id"@], seq!["id"@]),
        is_tool(tools[9], "update_email_category"@, SafetyLevel::Mutate, Work::Recategorize),
        takes(tools[9], seq!["id"@, "category"@], seq!["id"@, "category"@]),
        is_tool(tools[10], "delete_email"@, SafetyLevel::Mutate, Work::DeleteEmail),
        takes(tools[10], seq!["id"@], seq!["id"@]),
{
    arguments_are_named(tools[0], get_email_args(), seq!["id"], seq!["id"@], seq!["id"@]);
    arguments_are_named(tools[1], search_emails_args(), Seq::empty(), seq!["category"@, "q"@, "since"@, "limit"@], Seq::empty());
    arguments_are_named(tools[2], list_items_args(), Seq::empty(), seq!["status"@, "category"@, "party"@, "q"@, "limit"@], Seq::empty());
    arguments_are_named(tools[3], list_categories_args(), Seq::empty(), Seq::empty(), Seq::empty());
    arguments_are_named(tools[4], create_category_args(), seq!["id", "label"], seq!["id"@, "label"@, "create_item"@, "kind"@], seq!["id"@, "label"@]);
    arguments_are_named(tools[5], create_item_args(), seq!["category", "title"], seq!["category"@, "title"@, "party"@, "event"@, "deadline"@, "notes"@], seq!["category"@, "title"@]);
    arguments_are_named(tools[6], update_item_args(), seq!["id", "patch"], seq!["id"@, "patch"@], seq!["id"@, "patch"@]);
    arguments_are_named(tools[7], set_item_status_args(), seq!["id", "status"], seq!["id"@, "status"@], seq!["id"@, "status"@]);
    arguments_are_named(tools[8], delete_item_args(), seq!["id"], seq!["id"@], seq!["id"@]);
    arguments_are_named(tools[9], update_email_category_args(), seq!["id", "category"], seq!["id"@, "category"@], seq!["id"@, "category"@]);
    arguments_are_named(tools[10], delete_email_args(), seq!["id"], seq!["id"@], seq!["id"@]);
}

/// An argument is described by its type, with what it is about where that is told; the change to an
/// item lists what can change.
pub proof fn how_arguments_are_described(kind: ArgKind, about: Seq<char>)
    ensures
        tells(arg_view(kind, about), "type"@, type_view(kind)),
        about.len() > 0 ==> tells(arg_view(kind, about), "description"@, JsonView::Str(about)),
        type_view(ArgKind::Integer) == JsonView::Str("integer"@),
        type_view(ArgKind::Text) == JsonView::Str("string"@),
        type_view(ArgKind::Boolean) == JsonView::Str("boolean"@),
        type_view(ArgKind::Patch) == JsonView::Str("object"@),
        type_view(ArgKind::TextOrNull) matches JsonView::Arr(l) && l.len() == 2 && l[0]
            == JsonView::Str("string"@) && l[1] == JsonView::Str("null"@),
        kind == ArgKind::Patch ==> (arg_view(kind, about)->Obj_0.last().0 == "properties"@ && (
        arg_view(kind, about)->Obj_0.last().1 matches JsonView::Obj(f) && f.len() == 7 && f[0].0
            == "title"@ && f[1].0 == "party"@ && f[2].0 == "event"@ && f[3].0 == "category"@ && f[4].0
            == "deadline"@ && f[5].0 == "notes"@ && f[6].0 == "status"@)),
{
    let m = arg_view(kind, about)->Obj_0;
    assert(m[0] == ("type"@, type_view(kind)));
    if about.len() > 0 {
        assert(m[1] == ("description"@, JsonView::Str(about)));
    }
}

/// The model is told of a tool by its name, its description and its arguments.
pub proof fn how_tools_are_described(t: ToolDef)
    ensures
        tells(function_json(t), "type"@, JsonView::Str("function"@)),
        function_json(t) matches JsonView::Obj(m) && m.len() == 2 && m[1].0 == "function"@ && tells(
            m[1].1,
            "name"@,
            JsonView::Str(t.name@),
        ) && tells(m[1].1, "description"@, JsonView::Str(t.description@)) && tells(
            m[1].1,
            "parameters"@,
            view_of(t.parameters),
        ),
{
    let m = function_json(t)->Obj_0;
    assert(m[0] == ("type"@, JsonView::Str("function"@)));
    let f = m[1].1->Obj_0;
    assert(f[0] == ("name"@, JsonView::Str(t.name@)));
    assert(f[1] == ("description"@, JsonView::Str(t.description@)));
    assert(f[2] == ("parameters"@, view_of(t.parameters)));
}

/// Texts one after the other.
pub open spec fn strung(l: Seq<Seq<char>>) -> Seq<char>
    decreases l.len(),
{
    if l.len() == 0 {
        Seq::empty()
    } else if l.len() == 1 {
        l[0]
    } else {
        strung(l.drop_last()) + l.last()
    }
}

proof fn neighbours_are_held(l: Seq<Seq<char>>, i: int)
    requires
        0 <= i < l.len() - 1,
    ensures
        holds(strung(l), l[i] + l[i + 1]),
    decreases l.len(),
{
    let front = l.drop_last();
    let nothing = Seq::<char>::empty();
    if i < l.len() - 2 {
        neighbours_are_held(front, i);
        let p = l[i] + l[i + 1];
        assert(front[i] == l[i] && front[i + 1] == l[i + 1]);
        let (a, b) = choose|a: Seq<char>, b: Seq<char>| strung(front) == #[trigger] (a + p + b);
        assert(strung(l) =~= a + p + (b + l.last()));
    } else if l.len() == 2 {
        assert(strung(front) == l[0]);
        assert(strung(l) =~= nothing + (l[0] + l[1]) + nothing);
    } else {
        let before = front.drop_last();
        assert(strung(front) == strung(before) + front.last());
        assert(front.last() == l[i]);
        assert(strung(l) =~= strung(before) + (l[i] + l[i + 1]) + nothing);
    }
}

/// The agent is told the number of the mail, who sent it, when (by when it came in where that is
/// not known), what it is about and how it starts.
pub proof fn what_is_told_of_a_mail(e: EmailRecord, id: i64)
    ensures
        holds(user_text(e, id), "新邮件入库通知：\n- email_id: "@ + signed_decimal(id as int)),
        holds(user_text(e, id), "\n- 发件人: "@ + e.from_name@),
        holds(user_text(e, id), " <"@ + e.from_addr@),
        holds(user_text(e, id), ">\n- 发件时间: "@ + shown_time(e)),
        holds(user_text(e, id), "\n- 主题: "@ + e.subject@),
        holds(user_text(e, id), ") 可读完整正文）:\n"@ + truncated(e.body_text@, 1200, "…"@)),
        e.sent_at@.len() > 0 ==> shown_time(e) == e.sent_at@,
        e.sent_at@.len() == 0 ==> shown_time(e) == e.received_at@,
{
    let l = seq![
        "新邮件入库通知：\n- email_id: "@,
        signed_decimal(id as int),
        "\n- 发件人: "@,
        e.from_name@,
        " <"@,
        e.from_addr@,
        ">\n- 发件时间: "@,
        shown_time(e),
        "\n- 主题: "@,
        e.subject@,
        "\n- 正文预览（可能截断；用 get_email("@,
        signed_decimal(id as int),
        ") 可读完整正文）:\n"@,
        truncated(e.body_text@, 1200, "…"@),
        "\n\n请按系统提示词处理这封邮件，并输出最终 JSON。"@,
    ];
    strung_is(l, user_text(e, id));
    neighbours_are_held(l, 0);
    neighbours_are_held(l, 2);
    neighbours_are_held(l, 4);
    neighbours_are_held(l, 6);
    neighbours_are_held(l, 8);
    neighbours_are_held(l, 12);
}

proof fn strung_is(l: Seq<Seq<char>>, s: Seq<char>)
    requires
        l.len() == 15,
        s == l[0] + l[1] + l[2] + l[3] + l[4] + l[5] + l[6] + l[7] + l[8] + l[9] + l[10] + l[11]
            + l[12] + l[13] + l[14],
    ensures
        strung(l) == s,
{
    assert(l.take(15) =~= l);
    assert(strung(l.take(1)) == l[0]);
    one_more(l, 1);
    one_more(l, 2);
    one_more(l, 3);
    one_more(l, 4);
    one_more(l, 5);
    one_more(l, 6);
    one_more(l, 7);
    one_more(l, 8);
    one_more(l, 9);
    one_more(l, 10);
    one_more(l, 11);
    one_more(l, 12);
    one_more(l, 13);
    one_more(l, 14);
}

proof fn one_more(l: Seq<Seq<char>>, n: int)
    requires
        1 <= n < l.len(),
    ensures
        strung(l.take(n + 1)) == strung(l.take(n)) + l[n],
{
    assert(l.take(n + 1).drop_last() =~= l.take(n));
}

/// The agent is told every category by its id and its label, and the number of the mail.
pub proof fn what_the_agent_is_taught(categories: Seq<CategoryInfo>, id: i64, i: int)
    ensures
        tagged(category_pairs(categories)).len() == categories.len(),
        0 <= i < categories.len() ==> tagged(category_pairs(categories))[i] == categories[i].id@
            + ":"@ + categories[i].label@,
        holds(
            system_text(categories, id),
            "你是 mail2 邮件管理系统的邮件处理 Agent。当前分类全集（id:名称）："@ + joined(
                tagged(category_pairs(categories)),
                "; "@,
            ),
        ),
{
    let a = "你是 mail2 邮件管理系统的邮件处理 Agent。当前分类全集（id:名称）："@;
    let b = joined(tagged(category_pairs(categories)), "; "@);
    let s = system_text(categories, id);
    let rest = s.skip((a + b).len() as int);
    assert(s =~= Seq::<char>::empty() + (a + b) + rest);
}

/// What is told of what was done names what it was done to, and how.
pub proof fn what_is_told_of_deeds(id: i64, c: String)
    ensures
        deed_message(Deed::DeleteItem(id)) == "事项 #"@ + signed_decimal(id as int) + " 已删除"@,
        deed_message(Deed::DeleteEmail(id)) == "邮件 #"@ + signed_decimal(id as int) + " 已删除"@,
        deed_message(Deed::Recategorize(id, c)) == "邮件 #"@ + signed_decimal(id as int) + " 已重新分类为 "@
            + c@,
        deed_message(Deed::SetStatus(id, ItemStatus::Completed)) == "事项 #"@
            + signed_decimal(id as int) + " 状态已改为 "@ + "completed"@,
{
}

/// A line of the record of a conversation tells the round, the tool and what it was called with,
/// whether it went well, and how long it took.
pub proof fn what_is_recorded(
    round: nat,
    call: ToolCall,
    code: Seq<char>,
    millis: nat,
    content: Seq<char>,
)
    ensures
        trace_line(round, call, true, None, millis, content) == "[round "@ + decimal(round) + "] "@
            + call.function.name@ + " ("@ + truncated(call.function.arguments@, 200, "…"@)
            + ") -> "@ + "ok"@ + " "@ + "None"@ + " ("@ + decimal(millis) + "ms) 结果: "@ + truncated(
            content,
            500,
            "…"@,
        ),
        trace_line(round, call, false, Some(code), millis, content) == "[round "@ + decimal(round)
            + "] "@ + call.function.name@ + " ("@ + truncated(call.function.arguments@, 200, "…"@)
            + ") -> "@ + "error"@ + " "@ + ("Some("@ + debug_text(code) + ")"@) + " ("@ + decimal(
            millis,
        ) + "ms) 结果: "@ + truncated(content, 500, "…"@),
        shown_code(None) == "None"@,
{
}

} // verus!
