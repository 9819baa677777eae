//! The tools that there are.

use crate::agent::registry::named_otherwise;
use crate::agent::registry::SafetyLevel;
use crate::agent::registry::tool_is_found;
use crate::agent::registry::tool_named;
use crate::agent::registry::ToolDef;
use crate::agent::registry::ToolRegistry;
use crate::agent::registry::Work;
use crate::json::add_element;
use crate::json::arr_view;
use crate::json::elements;
use crate::json::Json;
use crate::json::JsonView;
use crate::json::members;
use crate::json::obj_view;
use crate::json::put;
use crate::json::put_text;
use crate::json::view_of;
use vstd::prelude::*;

verus! {

/// What an argument can be.
#[derive(Clone, Copy, Debug, PartialEq, Eq, Structural)]
pub enum ArgKind {
    Integer,
    Text,
    TextOrNull,
    Boolean,
    /// The fields of an item that are to change.
    Patch,
}

/// An argument of a tool; without a description where that is empty.
#[derive(Clone, Copy, Debug)]
pub struct Arg {
    pub name: &'static str,
    pub kind: ArgKind,
    pub about: &'static str,
}

/// The type of an argument in a JSON schema.
pub open spec fn type_view(kind: ArgKind) -> JsonView {
    match kind {
        ArgKind::Integer => JsonView::Str("integer"@),
        ArgKind::Text => JsonView::Str("string"@),
        ArgKind::TextOrNull => JsonView::Arr(
            elements().push(JsonView::Str("string"@)).push(JsonView::Str("null"@)),
        ),
        ArgKind::Boolean => JsonView::Str("boolean"@),
        ArgKind::Patch => JsonView::Str("object"@),
    }
}

/// The fields of an item that can change.
pub open spec fn patch_fields() -> Seq<(Seq<char>, JsonView)> {
    let text = JsonView::Obj(members().push(("type"@, type_view(ArgKind::Text))));
    let nullable = JsonView::Obj(members().push(("type"@, type_view(ArgKind::TextOrNull))));
    let status = JsonView::Obj(
        members().push(("type"@, type_view(ArgKind::Text))).push(
            ("description"@, JsonView::Str("active/completed/silent/expired"@)),
        ),
    );
    members().push(("title"@, text)).push(("party"@, text)).push(("event"@, text)).push(
        ("category"@, text),
    ).push(("deadline"@, nullable)).push(("notes"@, text)).push(("status"@, status))
}

/// An argument in a JSON schema.
pub open spec fn arg_view(kind: ArgKind, about: Seq<char>) -> JsonView {
    let typed = members().push(("type"@, type_view(kind)));
    let described = if about.len() == 0 {
        typed
    } else {
        typed.push(("description"@, JsonView::Str(about)))
    };
    JsonView::Obj(
        if kind == ArgKind::Patch {
            described.push(("properties"@, JsonView::Obj(patch_fields())))
        } else {
            described
        },
    )
}

/// The arguments in a JSON schema.
pub open spec fn args_view(args: Seq<Arg>) -> Seq<(Seq<char>, JsonView)> {
    args.map_values(|a: Arg| (a.name@, arg_view(a.kind, a.about@)))
}

/// The names of the arguments that have to be there.
pub open spec fn required_view(required: Seq<&'static str>) -> Seq<JsonView> {
    required.map_values(|s: &'static str| JsonView::Str(s@))
}

/// The JSON schema of the arguments of a tool.
pub open spec fn schema_view(args: Seq<Arg>, required: Seq<&'static str>) -> JsonView {
    JsonView::Obj(
        members().push(("type"@, JsonView::Str("object"@))).push(
            ("properties"@, JsonView::Obj(args_view(args))),
        ).push(("required"@, JsonView::Arr(required_view(required)))).push(
            ("additionalProperties"@, JsonView::Bool(false)),
        ),
    )
}

fn type_json(kind: ArgKind) -> (r: Json)
    ensures
        view_of(r) == type_view(kind),
{
    match kind {
        ArgKind::Integer => Json::Str("integer".to_owned()),
        ArgKind::Text => Json::Str("string".to_owned()),
        ArgKind::TextOrNull => {
            let mut v: Vec<Json> = Vec::new();
            add_element(&mut v, Json::Str("string".to_owned()));
            add_element(&mut v, Json::Str("null".to_owned()));
            Json::Arr(v)
        },
        ArgKind::Boolean => Json::Str("boolean".to_owned()),
        ArgKind::Patch => Json::Str("object".to_owned()),
    }
}

fn put_typed(m: &mut Vec<(String, Json)>, name: &str, kind: ArgKind)
    ensures
        obj_view(final(m)@) == obj_view(old(m)@).push(
            (name@, JsonView::Obj(members().push(("type"@, type_view(kind))))),
        ),
{
    let mut t: Vec<(String, Json)> = Vec::new();
    put(&mut t, "type", type_json(kind));
    put(m, name, Json::Obj(t));
}

fn patch_json() -> (r: Vec<(String, Json)>)
    ensures
        obj_view(r@) == patch_fields(),
{
    let mut m: Vec<(String, Json)> = Vec::new();
    put_typed(&mut m, "title", ArgKind::Text);
    put_typed(&mut m, "party", ArgKind::Text);
    put_typed(&mut m, "event", ArgKind::Text);
    put_typed(&mut m, "category", ArgKind::Text);
    put_typed(&mut m, "deadline", ArgKind::TextOrNull);
    put_typed(&mut m, "notes", ArgKind::Text);
    let mut t: Vec<(String, Json)> = Vec::new();
    put(&mut t, "type", type_json(ArgKind::Text));
    put_text(&mut t, "description", "active/completed/silent/expired");
    put(&mut m, "status", Json::Obj(t));
    m
}

fn arg_json(kind: ArgKind, about: &str) -> (r: Json)
    ensures
        view_of(r) == arg_view(kind, about@),
{
    let mut m: Vec<(String, Json)> = Vec::new();
    put(&mut m, "type", type_json(kind));
    if !about.is_empty() {
        put_text(&mut m, "description", about);
    }
    match kind {
        ArgKind::Patch => {
            put(&mut m, "properties", Json::Obj(patch_json()));
        },
        _ => {},
    }
    Json::Obj(m)
}

/// The JSON schema of the arguments of a tool.
pub fn obj_schema(args: &[Arg], required: &[&'static str]) -> (r: Json)
    ensures
        view_of(r) == schema_view(args@, required@),
{
    let mut props: Vec<(String, Json)> = Vec::new();
    let mut i: usize = 0;
    let ghost all = args_view(args@);
    assert(all.take(0) =~= members());
    while i < args.len()
        invariant
            i <= args@.len(),
            all == args_view(args@),
            obj_view(props@) == all.take(i as int),
        decreases args@.len() - i,
    {
        let a = args[i];
        put(&mut props, a.name, arg_json(a.kind, a.about));
        assert(all.take(i + 1) =~= all.take(i as int).push(all[i as int]));
        i += 1;
    }
    assert(all.take(i as int) =~= all);
    let mut names: Vec<Json> = Vec::new();
    let mut k: usize = 0;
    let ghost wanted = required_view(required@);
    assert(wanted.take(0) =~= elements());
    while k < required.len()
        invariant
            k <= required@.len(),
            wanted == required_view(required@),
            arr_view(names@) == wanted.take(k as int),
        decreases required@.len() - k,
    {
        let name = required[k];
        add_element(&mut names, Json::Str(name.to_owned()));
        assert(wanted.take(k + 1) =~= wanted.take(k as int).push(wanted[k as int]));
        k += 1;
    }
    assert(wanted.take(k as int) =~= wanted);
    let mut m: Vec<(String, Json)> = Vec::new();
    put_text(&mut m, "type", "object");
    put(&mut m, "properties", Json::Obj(props));
    put(&mut m, "required", Json::Arr(names));
    put(&mut m, "additionalProperties", Json::Bool(false));
    Json::Obj(m)
}

/// Whether a tool is the one described.
pub open spec fn described(
    t: ToolDef,
    name: Seq<char>,
    description: Seq<char>,
    args: Seq<Arg>,
    required: Seq<&'static str>,
    safety: SafetyLevel,
    work: Work,
) -> bool {
    &&& t.name@ == name
    &&& t.description@ == description
    &&& view_of(t.parameters) == schema_view(args, required)
    &&& t.safety == safety
    &&& t.work == work
}

fn tool(
    name: &str,
    description: &str,
    args: &[Arg],
    required: &[&'static str],
    safety: SafetyLevel,
    work: Work,
) -> (r: ToolDef)
    ensures
        described(r, name@, description@, args@, required@, safety, work),
{
    ToolDef {
        name: name.to_owned(),
        description: description.to_owned(),
        parameters: obj_schema(args, required),
        safety,
        work,
    }
}

/// The arguments of `get_email`.
pub open spec fn get_email_args() -> Seq<Arg> {
    seq![
        Arg { name: "id", kind: ArgKind::Integer, about: "邮件 ID" },
    ]
}

/// Whether a tool is `get_email`.
pub open spec fn is_get_email(t: ToolDef) -> bool {
    described(
        t,
        "get_email"@,
        "读取一封已入库邮件的完整信息（含完整正文、发件时间、当前分类与关联事项）。参数 id 为邮件 ID。"@,
        get_email_args(),
        seq!["id"],
        SafetyLevel::ReadOnly,
        Work::ReadEmail,
    )
}

fn get_email_tool() -> (r: ToolDef)
    ensures
        is_get_email(r),
{
    let args: [Arg; 1] = [
        Arg { name: "id", kind: ArgKind::Integer, about: "邮件 ID" },
    ];
    let required: [&'static str; 1] = ["id"];
    assert(args@ =~= get_email_args());
    assert(required@ =~= seq!["id"]);
    tool(
        "get_email",
        "读取一封已入库邮件的完整信息（含完整正文、发件时间、当前分类与关联事项）。参数 id 为邮件 ID。",
        &args,
        &required,
        SafetyLevel::ReadOnly,
        Work::ReadEmail,
    )
}

/// The arguments of `search_emails`.
pub open spec fn search_emails_args() -> Seq<Arg> {
    seq![
        Arg { name: "category", kind: ArgKind::Text, about: "分类 id（可选）" },
        Arg { name: "q", kind: ArgKind::Text, about: "关键词（主题/发件人/正文，可选）" },
        Arg { name: "since", kind: ArgKind::Text, about: "发件时间下界 RFC3339（可选）" },
        Arg { name: "limit", kind: ArgKind::Integer, about: "最多返回条数，默认 20，最大 50" },
    ]
}

/// Whether a tool is `search_emails`.
pub open spec fn is_search_emails(t: ToolDef) -> bool {
    described(
        t,
        "search_emails"@,
        "按分类/关键词/发件时间搜索已入库邮件（列表不含正文，阅读正文请用 get_email）。"@,
        search_emails_args(),
        Seq::empty(),
        SafetyLevel::ReadOnly,
        Work::SearchEmails,
    )
}

fn search_emails_tool() -> (r: ToolDef)
    ensures
        is_search_emails(r),
{
    let args: [Arg; 4] = [
        Arg { name: "category", kind: ArgKind::Text, about: "分类 id（可选）" },
        Arg { name: "q", kind: ArgKind::Text, about: "关键词（主题/发件人/正文，可选）" },
        Arg { name: "since", kind: ArgKind::Text, about: "发件时间下界 RFC3339（可选）" },
        Arg { name: "limit", kind: ArgKind::Integer, about: "最多返回条数，默认 20，最大 50" },
    ];
    let required: [&'static str; 0] = [];
    assert(args@ =~= search_emails_args());
    assert(required@ =~= Seq::empty());
    tool(
        "search_emails",
        "按分类/关键词/发件时间搜索已入库邮件（列表不含正文，阅读正文请用 get_email）。",
        &args,
        &required,
        SafetyLevel::ReadOnly,
        Work::SearchEmails,
    )
}

/// The arguments of `list_items`.
pub open spec fn list_items_args() -> Seq<Arg> {
    seq![
        Arg { name: "status", kind: ArgKind::Text, about: "active/completed/silent/expired（可选）" },
        Arg { name: "category", kind: ArgKind::Text, about: "分类 id（可选）" },
        Arg { name: "party", kind: ArgKind::Text, about: "公司/联系人（可选）" },
        Arg { name: "q", kind: ArgKind::Text, about: "关键词（可选）" },
        Arg { name: "limit", kind: ArgKind::Integer, about: "最多返回条数，默认 50，最大 200" },
    ]
}

/// Whether a tool is `list_items`.
pub open spec fn is_list_items(t: ToolDef) -> bool {
    described(
        t,
        "list_items"@,
        "查询事项（待办/通知）列表，支持状态/分类/联系人/关键词过滤；用于查重与了解现状。"@,
        list_items_args(),
        Seq::empty(),
        SafetyLevel::ReadOnly,
        Work::ListItems,
    )
}

fn list_items_tool() -> (r: ToolDef)
    ensures
        is_list_items(r),
{
    let args: [Arg; 5] = [
        Arg { name: "status", kind: ArgKind::Text, about: "active/completed/silent/expired（可选）" },
        Arg { name: "category", kind: ArgKind::Text, about: "分类 id（可选）" },
        Arg { name: "party", kind: ArgKind::Text, about: "公司/联系人（可选）" },
        Arg { name: "q", kind: ArgKind::Text, about: "关键词（可选）" },
        Arg { name: "limit", kind: ArgKind::Integer, about: "最多返回条数，默认 50，最大 200" },
    ];
    let required: [&'static str; 0] = [];
    assert(args@ =~= list_items_args());
    assert(required@ =~= Seq::empty());
    tool(
        "list_items",
        "查询事项（待办/通知）列表，支持状态/分类/联系人/关键词过滤；用于查重与了解现状。",
        &args,
        &required,
        SafetyLevel::ReadOnly,
        Work::ListItems,
    )
}

/// The arguments of `list_categories`.
pub open spec fn list_categories_args() -> Seq<Arg> {
    Seq::empty()
}

/// Whether a tool is `list_categories`.
pub open spec fn is_list_categories(t: ToolDef) -> bool {
    described(
        t,
        "list_categories"@,
        "查询当前全部分类（id/名称/是否自动建事项/事务类型/来源）。分类不存在时可用 create_category 新增。"@,
        list_categories_args(),
        Seq::empty(),
        SafetyLevel::ReadOnly,
        Work::ListCategories,
    )
}

fn list_categories_tool() -> (r: ToolDef)
    ensures
        is_list_categories(r),
{
    let args: [Arg; 0] = [

    ];
    let required: [&'static str; 0] = [];
    assert(args@ =~= list_categories_args());
    assert(required@ =~= Seq::empty());
    tool(
        "list_categories",
        "查询当前全部分类（id/名称/是否自动建事项/事务类型/来源）。分类不存在时可用 create_category 新增。",
        &args,
        &required,
        SafetyLevel::ReadOnly,
        Work::ListCategories,
    )
}

/// The arguments of `create_category`.
pub open spec fn create_category_args() -> Seq<Arg> {
    seq![
        Arg { name: "id", kind: ArgKind::Text, about: "分类 id，如 online_assessment" },
        Arg { name: "label", kind: ArgKind::Text, about: "显示名称，如 线上测评" },
        Arg { name: "create_item", kind: ArgKind::Boolean, about: "该分类邮件是否自动创建事项，默认 false（新建分类不建项）" },
        Arg { name: "kind", kind: ArgKind::Text, about: "事务类型 todo（有截止时间的待办）或 notification（普通通知），默认 notification" },
    ]
}

/// Whether a tool is `create_category`.
pub open spec fn is_create_category(t: ToolDef) -> bool {
    described(
        t,
        "create_category"@,
        "新增邮件分类（如 线上测评、材料提交）。id 用小写字母/数字/下划线（1-32 字符）。新建分类默认不自动建项（create_item=false），需要建待办时请显式调用 create_item。已存在则返回已有分类，不会报错。"@,
        create_category_args(),
        seq!["id", "label"],
        SafetyLevel::Create,
        Work::AddCategory,
    )
}

fn create_category_tool() -> (r: ToolDef)
    ensures
        is_create_category(r),
{
    let args: [Arg; 4] = [
        Arg { name: "id", kind: ArgKind::Text, about: "分类 id，如 online_assessment" },
        Arg { name: "label", kind: ArgKind::Text, about: "显示名称，如 线上测评" },
        Arg { name: "create_item", kind: ArgKind::Boolean, about: "该分类邮件是否自动创建事项，默认 false（新建分类不建项）" },
        Arg { name: "kind", kind: ArgKind::Text, about: "事务类型 todo（有截止时间的待办）或 notification（普通通知），默认 notification" },
    ];
    let required: [&'static str; 2] = ["id", "label"];
    assert(args@ =~= create_category_args());
    assert(required@ =~= seq!["id", "label"]);
    tool(
        "create_category",
        "新增邮件分类（如 线上测评、材料提交）。id 用小写字母/数字/下划线（1-32 字符）。新建分类默认不自动建项（create_item=false），需要建待办时请显式调用 create_item。已存在则返回已有分类，不会报错。",
        &args,
        &required,
        SafetyLevel::Create,
        Work::AddCategory,
    )
}

/// The arguments of `create_item`.
pub open spec fn create_item_args() -> Seq<Arg> {
    seq![
        Arg { name: "category", kind: ArgKind::Text, about: "分类 id（必填）" },
        Arg { name: "title", kind: ArgKind::Text, about: "事项完整标题（必填）" },
        Arg { name: "party", kind: ArgKind::Text, about: "公司/联系人简称" },
        Arg { name: "event", kind: ArgKind::Text, about: "5-10 字事件名（用于提醒主题）" },
        Arg { name: "deadline", kind: ArgKind::TextOrNull, about: "截止时间 RFC3339 或 null" },
        Arg { name: "notes", kind: ArgKind::Text, about: "备注" },
    ]
}

/// Whether a tool is `create_item`.
pub open spec fn is_create_item(t: ToolDef) -> bool {
    described(
        t,
        "create_item"@,
        "创建待办/通知事项。category 必须是已有分类 id（可用 list_categories 查询）。deadline 为 RFC3339（如 2027-09-10T14:00:00+08:00），没有明确时间则传 null。同一来源邮件只会关联一次（幂等）。"@,
        create_item_args(),
        seq!["category", "title"],
        SafetyLevel::Create,
        Work::MakeItem,
    )
}

fn create_item_tool() -> (r: ToolDef)
    ensures
        is_create_item(r),
{
    let args: [Arg; 6] = [
        Arg { name: "category", kind: ArgKind::Text, about: "分类 id（必填）" },
        Arg { name: "title", kind: ArgKind::Text, about: "事项完整标题（必填）" },
        Arg { name: "party", kind: ArgKind::Text, about: "公司/联系人简称" },
        Arg { name: "event", kind: ArgKind::Text, about: "5-10 字事件名（用于提醒主题）" },
        Arg { name: "deadline", kind: ArgKind::TextOrNull, about: "截止时间 RFC3339 或 null" },
        Arg { name: "notes", kind: ArgKind::Text, about: "备注" },
    ];
    let required: [&'static str; 2] = ["category", "title"];
    assert(args@ =~= create_item_args());
    assert(required@ =~= seq!["category", "title"]);
    tool(
        "create_item",
        "创建待办/通知事项。category 必须是已有分类 id（可用 list_categories 查询）。deadline 为 RFC3339（如 2027-09-10T14:00:00+08:00），没有明确时间则传 null。同一来源邮件只会关联一次（幂等）。",
        &args,
        &required,
        SafetyLevel::Create,
        Work::MakeItem,
    )
}

/// The arguments of `update_item`.
pub open spec fn update_item_args() -> Seq<Arg> {
    seq![
        Arg { name: "id", kind: ArgKind::Integer, about: "事项 ID" },
        Arg { name: "patch", kind: ArgKind::Patch, about: "要修改的字段（仅传需要修改的字段）" },
    ]
}

/// Whether a tool is `update_item`.
pub open spec fn is_update_item(t: ToolDef) -> bool {
    described(
        t,
        "update_item"@,
        "修改事项（标题/联系人/事件/分类/截止时间/备注/状态）。该操作会生成审批申请，须用户批准后才生效。"@,
        update_item_args(),
        seq!["id", "patch"],
        SafetyLevel::Mutate,
        Work::ChangeItem,
    )
}

fn update_item_tool() -> (r: ToolDef)
    ensures
        is_update_item(r),
{
    let args: [Arg; 2] = [
        Arg { name: "id", kind: ArgKind::Integer, about: "事项 ID" },
        Arg { name: "patch", kind: ArgKind::Patch, about: "要修改的字段（仅传需要修改的字段）" },
    ];
    let required: [&'static str; 2] = ["id", "patch"];
    assert(args@ =~= update_item_args());
    assert(required@ =~= seq!["id", "patch"]);
    tool(
        "update_item",
        "修改事项（标题/联系人/事件/分类/截止时间/备注/状态）。该操作会生成审批申请，须用户批准后才生效。",
        &args,
        &required,
        SafetyLevel::Mutate,
        Work::ChangeItem,
    )
}

/// The arguments of `set_item_status`.
pub open spec fn set_item_status_args() -> Seq<Arg> {
    seq![
        Arg { name: "id", kind: ArgKind::Integer, about: "事项 ID" },
        Arg { name: "status", kind: ArgKind::Text, about: "active/completed/silent/expired" },
    ]
}

/// Whether a tool is `set_item_status`.
pub open spec fn is_set_item_status(t: ToolDef) -> bool {
    described(
        t,
        "set_item_status"@,
        "修改事项状态（如标记完成/静默/恢复进行中）。该操作会生成审批申请，须用户批准后才生效。"@,
        set_item_status_args(),
        seq!["id", "status"],
        SafetyLevel::Mutate,
        Work::SetStatus,
    )
}

fn set_item_status_tool() -> (r: ToolDef)
    ensures
        is_set_item_status(r),
{
    let args: [Arg; 2] = [
        Arg { name: "id", kind: ArgKind::Integer, about: "事项 ID" },
        Arg { name: "status", kind: ArgKind::Text, about: "active/completed/silent/expired" },
    ];
    let required: [&'static str; 2] = ["id", "status"];
    assert(args@ =~= set_item_status_args());
    assert(required@ =~= seq!["id", "status"]);
    tool(
        "set_item_status",
        "修改事项状态（如标记完成/静默/恢复进行中）。该操作会生成审批申请，须用户批准后才生效。",
        &args,
        &required,
        SafetyLevel::Mutate,
        Work::SetStatus,
    )
}

/// The arguments of `delete_item`.
pub open spec fn delete_item_args() -> Seq<Arg> {
    seq![
        Arg { name: "id", kind: ArgKind::Integer, about: "事项 ID" },
    ]
}

/// Whether a tool is `delete_item`.
pub open spec fn is_delete_item(t: ToolDef) -> bool {
    described(
        t,
        "delete_item"@,
        "删除事项（连带其发送日志）。该操作会生成审批申请，须用户批准后才生效。"@,
        delete_item_args(),
        seq!["id"],
        SafetyLevel::Mutate,
        Work::DeleteItem,
    )
}

fn delete_item_tool() -> (r: ToolDef)
    ensures
        is_delete_item(r),
{
    let args: [Arg; 1] = [
        Arg { name: "id", kind: ArgKind::Integer, about: "事项 ID" },
    ];
    let required: [&'static str; 1] = ["id"];
    assert(args@ =~= delete_item_args());
    assert(required@ =~= seq!["id"]);
    tool(
        "delete_item",
        "删除事项（连带其发送日志）。该操作会生成审批申请，须用户批准后才生效。",
        &args,
        &required,
        SafetyLevel::Mutate,
        Work::DeleteItem,
    )
}

/// The arguments of `update_email_category`.
pub open spec fn update_email_category_args() -> Seq<Arg> {
    seq![
        Arg { name: "id", kind: ArgKind::Integer, about: "邮件 ID" },
        Arg { name: "category", kind: ArgKind::Text, about: "分类 id" },
    ]
}

/// Whether a tool is `update_email_category`.
pub open spec fn is_update_email_category(t: ToolDef) -> bool {
    described(
        t,
        "update_email_category"@,
        "修改已有邮件的分类（不用于给本次新邮件定类；新邮件分类直接在最终 JSON 的 category 字段给出）。该操作会生成审批申请，须用户批准后才生效。"@,
        update_email_category_args(),
        seq!["id", "category"],
        SafetyLevel::Mutate,
        Work::Recategorize,
    )
}

fn update_email_category_tool() -> (r: ToolDef)
    ensures
        is_update_email_category(r),
{
    let args: [Arg; 2] = [
        Arg { name: "id", kind: ArgKind::Integer, about: "邮件 ID" },
        Arg { name: "category", kind: ArgKind::Text, about: "分类 id" },
    ];
    let required: [&'static str; 2] = ["id", "category"];
    assert(args@ =~= update_email_category_args());
    assert(required@ =~= seq!["id", "category"]);
    tool(
        "update_email_category",
        "修改已有邮件的分类（不用于给本次新邮件定类；新邮件分类直接在最终 JSON 的 category 字段给出）。该操作会生成审批申请，须用户批准后才生效。",
        &args,
        &required,
        SafetyLevel::Mutate,
        Work::Recategorize,
    )
}

/// The arguments of `delete_email`.
pub open spec fn delete_email_args() -> Seq<Arg> {
    seq![
        Arg { name: "id", kind: ArgKind::Integer, about: "邮件 ID" },
    ]
}

/// Whether a tool is `delete_email`.
pub open spec fn is_delete_email(t: ToolDef) -> bool {
    described(
        t,
        "delete_email"@,
        "删除一封已入库邮件。该操作会生成审批申请，须用户批准后才生效。"@,
        delete_email_args(),
        seq!["id"],
        SafetyLevel::Mutate,
        Work::DeleteEmail,
    )
}

fn delete_email_tool() -> (r: ToolDef)
    ensures
        is_delete_email(r),
{
    let args: [Arg; 1] = [
        Arg { name: "id", kind: ArgKind::Integer, about: "邮件 ID" },
    ];
    let required: [&'static str; 1] = ["id"];
    assert(args@ =~= delete_email_args());
    assert(required@ =~= seq!["id"]);
    tool(
        "delete_email",
        "删除一封已入库邮件。该操作会生成审批申请，须用户批准后才生效。",
        &args,
        &required,
        SafetyLevel::Mutate,
        Work::DeleteEmail,
    )
}

/// A tool of a new name is added to those that are there.
proof fn new_name_keeps_all(tools: Seq<ToolDef>, name: Seq<char>)
    requires
        forall|i: int| 0 <= i < tools.len() ==> (#[trigger] tools[i]).name@ != name,
    ensures
        tools.filter(named_otherwise(name)) == tools,
    decreases tools.len(),
{
    reveal(Seq::filter);
    if tools.len() > 0 {
        let rest = tools.drop_last();
        assert forall|i: int| 0 <= i < rest.len() implies (#[trigger] rest[i]).name@ != name by {
            assert(rest[i] == tools[i]);
        }
        new_name_keeps_all(rest, name);
        assert(tools.last() == tools[tools.len() - 1]);
        assert(tools =~= rest.push(tools.last()));
    }
}

/// The names of the tools are all different.
pub proof fn names_differ()
    ensures
        "get_email"@ != "search_emails"@,
        "get_email"@ != "list_items"@,
        "get_email"@ != "list_categories"@,
        "get_email"@ != "create_category"@,
        "get_email"@ != "create_item"@,
        "get_email"@ != "update_item"@,
        "get_email"@ != "set_item_status"@,
        "get_email"@ != "delete_item"@,
        "get_email"@ != "update_email_category"@,
        "get_email"@ != "delete_email"@,
        "search_emails"@ != "list_items"@,
        "search_emails"@ != "list_categories"@,
        "search_emails"@ != "create_category"@,
        "search_emails"@ != "create_item"@,
        "search_emails"@ != "update_item"@,
        "search_emails"@ != "set_item_status"@,
        "search_emails"@ != "delete_item"@,
        "search_emails"@ != "update_email_category"@,
        "search_emails"@ != "delete_email"@,
        "list_items"@ != "list_categories"@,
        "list_items"@ != "create_category"@,
        "list_items"@ != "create_item"@,
        "list_items"@ != "update_item"@,
        "list_items"@ != "set_item_status"@,
        "list_items"@ != "delete_item"@,
        "list_items"@ != "update_email_category"@,
        "list_items"@ != "delete_email"@,
        "list_categories"@ != "create_category"@,
        "list_categories"@ != "create_item"@,
        "list_categories"@ != "update_item"@,
        "list_categories"@ != "set_item_status"@,
        "list_categories"@ != "delete_item"@,
        "list_categories"@ != "update_email_category"@,
        "list_categories"@ != "delete_email"@,
        "create_category"@ != "create_item"@,
        "create_category"@ != "update_item"@,
        "create_category"@ != "set_item_status"@,
        "create_category"@ != "delete_item"@,
        "create_category"@ != "update_email_category"@,
        "create_category"@ != "delete_email"@,
        "create_item"@ != "update_item"@,
        "create_item"@ != "set_item_status"@,
        "create_item"@ != "delete_item"@,
        "create_item"@ != "update_email_category"@,
        "create_item"@ != "delete_email"@,
        "update_item"@ != "set_item_status"@,
        "update_item"@ != "delete_item"@,
        "update_item"@ != "update_email_category"@,
        "update_item"@ != "delete_email"@,
        "set_item_status"@ != "delete_item"@,
        "set_item_status"@ != "update_email_category"@,
        "set_item_status"@ != "delete_email"@,
        "delete_item"@ != "update_email_category"@,
        "delete_item"@ != "delete_email"@,
        "update_email_category"@ != "delete_email"@,
{
    reveal_strlit("get_email");
    reveal_strlit("search_emails");
    reveal_strlit("list_items");
    reveal_strlit("list_categories");
    reveal_strlit("create_category");
    reveal_strlit("create_item");
    reveal_strlit("update_item");
    reveal_strlit("set_item_status");
    reveal_strlit("delete_item");
    reveal_strlit("update_email_category");
    reveal_strlit("delete_email");
    assert("get_email"@.len() == 9);
    assert("search_emails"@.len() == 13);
    assert("list_items"@.len() == 10);
    assert("list_categories"@.len() == 15);
    assert("create_category"@.len() == 15);
    assert("create_item"@.len() == 11);
    assert("update_item"@.len() == 11);
    assert("set_item_status"@.len() == 15);
    assert("delete_item"@.len() == 11);
    assert("update_email_category"@.len() == 21);
    assert("delete_email"@.len() == 12);
    assert("list_categories"@[0] != "create_category"@[0]);
    assert("list_categories"@[0] != "set_item_status"@[0]);
    assert("create_category"@[0] != "set_item_status"@[0]);
    assert("create_item"@[0] != "update_item"@[0]);
    assert("create_item"@[0] != "delete_item"@[0]);
    assert("update_item"@[0] != "delete_item"@[0]);
}

/// Whether those are the tools that there are.
pub open spec fn standard(tools: Seq<ToolDef>) -> bool {
    &&& tools.len() == 11
    &&& is_get_email(tools[0])
    &&& is_search_emails(tools[1])
    &&& is_list_items(tools[2])
    &&& is_list_categories(tools[3])
    &&& is_create_category(tools[4])
    &&& is_create_item(tools[5])
    &&& is_update_item(tools[6])
    &&& is_set_item_status(tools[7])
    &&& is_delete_item(tools[8])
    &&& is_update_email_category(tools[9])
    &&& is_delete_email(tools[10])
}

/// Of the tools that there are, those that change or delete something are those that have to be
/// approved; each is found by its name.
pub proof fn changes_are_marked(tools: Seq<ToolDef>, i: int)
    requires
        standard(tools),
        forall|j: int, k: int|
            0 <= j < k < tools.len() ==> (#[trigger] tools[j]).name@ != (#[trigger] tools[k]).name@,
        0 <= i < tools.len(),
    ensures
        (tools[i].safety == SafetyLevel::Mutate) == tools[i].work.changes(),
        tools[i].work != Work::Own,
        tool_named(tools, tools[i].name@) == Some(tools[i]),
{
    tool_is_found(tools, i);
}

/// The tools that there are.
pub fn default_registry() -> (r: ToolRegistry)
    ensures
        r.distinct(),
        standard(r.tools@),
{
    proof {
        names_differ();
    }
    let mut r = ToolRegistry::new();
    let t = get_email_tool();
    proof {
        new_name_keeps_all(r.tools@, t.name@);
    }
    r.register(t);
    let t = search_emails_tool();
    proof {
        new_name_keeps_all(r.tools@, t.name@);
    }
    r.register(t);
    let t = list_items_tool();
    proof {
        new_name_keeps_all(r.tools@, t.name@);
    }
    r.register(t);
    let t = list_categories_tool();
    proof {
        new_name_keeps_all(r.tools@, t.name@);
    }
    r.register(t);
    let t = create_category_tool();
    proof {
        new_name_keeps_all(r.tools@, t.name@);
    }
    r.register(t);
    let t = create_item_tool();
    proof {
        new_name_keeps_all(r.tools@, t.name@);
    }
    r.register(t);
    let t = update_item_tool();
    proof {
        new_name_keeps_all(r.tools@, t.name@);
    }
    r.register(t);
    let t = set_item_status_tool();
    proof {
        new_name_keeps_all(r.tools@, t.name@);
    }
    r.register(t);
    let t = delete_item_tool();
    proof {
        new_name_keeps_all(r.tools@, t.name@);
    }
    r.register(t);
    let t = update_email_category_tool();
    proof {
        new_name_keeps_all(r.tools@, t.name@);
    }
    r.register(t);
    let t = delete_email_tool();
    proof {
        new_name_keeps_all(r.tools@, t.name@);
    }
    r.register(t);
    r
}

} // verus!
