use mail2::agent::AgentFailure;
use mail2::agent::AnswerStep;
use mail2::agent::calls::apply_tool;
use mail2::agent::calls::approval_result;
use mail2::agent::calls::Deed;
use mail2::agent::calls::deed_result;
use mail2::agent::calls::emails_result;
use mail2::agent::calls::item_made_result;
use mail2::agent::calls::ItemPlan;
use mail2::agent::calls::normalize_deadline;
use mail2::agent::calls::Origin;
use mail2::agent::calls::pending_approval;
use mail2::agent::calls::Plan;
use mail2::agent::calls::plan_call;
use mail2::agent::calls::plan_item;
use mail2::agent::calls::Subject;
use mail2::agent::calls::subject_of;
use mail2::agent::calls::valid_deadline;
use mail2::agent::Conversation;
use mail2::agent::parse_final;
use mail2::agent::registry::SafetyLevel;
use mail2::agent::registry::ToolDef;
use mail2::agent::registry::ToolRegistry;
use mail2::agent::registry::ToolResult;
use mail2::agent::registry::Work;
use mail2::agent::tools::default_registry;
use mail2::agent::truncate as cut_short;
use mail2::agent::unreadable;
use mail2::api::approved_args;
use mail2::config::AgentConfig;
use mail2::config::AppConfig;
use mail2::config::LlmConfig;
use mail2::config::MailConfig;
use mail2::config::ReminderConfig;
use mail2::json::Json;
use mail2::llm::Asked;
use mail2::llm::ChatResponse;
use mail2::llm::Choice;
use mail2::llm::ChoiceMessage;
use mail2::llm::classify_prompt;
use mail2::llm::classify_step;
use mail2::llm::extract_json_object;
use mail2::llm::extract_step;
use mail2::llm::FunctionCall;
use mail2::llm::intent_of;
use mail2::llm::tidy_extract;
use mail2::llm::ToolCall;
use mail2::llm::truncate;
use mail2::llm::url_of;
use mail2::model::CategoryInfo;
use mail2::model::EmailRecord;
use mail2::model::Item;
use mail2::model::ItemKind;
use mail2::model::ItemStatus;
use mail2::model::remind_policy;
use mail2::model::ReplyIntent;
use mail2::model::TodoExtract;
use mail2::time::Stamp;
use mail2::time::Zone;

const NOW: &str = "2027-09-01T00:00:00+00:00";

fn now() -> Stamp {
    Stamp::parse(NOW).unwrap()
}

fn obj(fields: Vec<(&str, Json)>) -> Json {
    Json::Obj(fields.into_iter().map(|(k, v)| (k.to_string(), v)).collect())
}

fn text(s: &str) -> Json {
    Json::Str(s.into())
}

fn cfg() -> AppConfig {
    AppConfig {
        listen: "127.0.0.1:0".into(),
        auth_token: String::new(),
        data_dir: "/tmp".into(),
        mail_db: None,
        todo_db: None,
        timezone: Zone::new("Asia/Shanghai").unwrap(),
        poll_interval_secs: 60,
        reminder: ReminderConfig {
            to: "me@example.com".into(),
            days_before: 1,
            lead_time: "09:00".into(),
            webhook_url: String::new(),
        },
        check_times: vec!["06:00".into()],
        mail: MailConfig::default(),
        llm: LlmConfig {
            api_key: "k".into(),
            base_url: "http://127.0.0.1:1/".into(),
            model: "mock".into(),
            timeout_secs: 5,
            categories: vec![],
            agent: AgentConfig::default(),
        },
    }
}

fn category(id: &str, kind: &str) -> CategoryInfo {
    CategoryInfo {
        id: id.into(),
        label: "标签".into(),
        create_item: kind == "todo",
        kind: kind.into(),
        source: "builtin".into(),
        created_at: NOW.into(),
    }
}

fn mail() -> EmailRecord {
    EmailRecord {
        id: 7,
        uid: None,
        message_id: "m".into(),
        subject: "面试邀请".into(),
        from_addr: "hr@acme.com".into(),
        from_name: "HR".into(),
        body_text: "请参加面试".into(),
        category: "misc".into(),
        sent_at: String::new(),
        received_at: NOW.into(),
        item_id: None,
        reply_to_item_id: None,
        account_id: 1,
        handled: false,
        user_label: String::new(),
        user_note: String::new(),
    }
}

fn item() -> Item {
    Item {
        id: 5,
        kind: ItemKind::Todo,
        title: "t".into(),
        party: "p".into(),
        event: "e".into(),
        category: "interview".into(),
        deadline: Some("2027-09-10T14:00:00+08:00".into()),
        remind_at: None,
        remind_policy: remind_policy::NORMAL.into(),
        needs_review: false,
        status: ItemStatus::Active,
        source_email_id: None,
        account_id: 1,
        notes: "n".into(),
        created_at: "2027-08-01T00:00:00+00:00".into(),
        updated_at: NOW.into(),
    }
}

#[test]
fn parse_final_standard_shape() {
    let v = obj(vec![
        ("category", text("interview")),
        (
            "item",
            obj(vec![
                ("party", text("字节跳动")),
                ("event", text("技术面试")),
                ("title", text("技术面试邀请")),
                ("deadline", Json::Null),
                ("notes", text("")),
            ]),
        ),
        ("summary", text("ok")),
    ]);
    let (c, i) = parse_final(&v);
    assert_eq!(c.as_deref(), Some("interview"));
    assert!(i.is_some());
}

#[test]
fn parse_final_legacy_extract_shape() {
    let v = obj(vec![
        ("party", text("某公司")),
        ("event", text("待定事项")),
        ("title", text("待定事项")),
        ("deadline", Json::Null),
        ("category", Json::Null),
    ]);
    let (c, i) = parse_final(&v);
    assert!(c.is_none());
    assert!(i.is_some());
}

#[test]
fn parse_final_no_item() {
    let v = obj(vec![
        ("category", text("misc")),
        ("item", Json::Null),
        ("summary", text("无需建项")),
    ]);
    let (c, i) = parse_final(&v);
    assert_eq!(c.as_deref(), Some("misc"));
    assert!(i.is_none());
}

#[test]
fn extract_json_object_works() {
    assert_eq!(extract_json_object("好的：{\"a\":1}"), "{\"a\":1}");
    assert_eq!(extract_json_object("{\"a\":1}"), "{\"a\":1}");
}

#[test]
fn truncate_works() {
    assert_eq!(truncate("你好世界", 2), "你好\n…[截断]");
    assert_eq!(truncate("abc", 5), "abc");
}

#[test]
fn texts_for_the_trace_are_cut() {
    assert_eq!(cut_short("你好世界", 2), "你好…");
    assert_eq!(cut_short("abc", 3), "abc");
}

#[test]
fn an_object_taken_out_twice_is_the_same() {
    let once = extract_json_object("x {\"a\":{\"b\":1}} y");
    assert_eq!(once, "{\"a\":{\"b\":1}}");
    assert_eq!(extract_json_object(&once), once);
}

#[test]
fn answers_of_the_model() {
    let c = vec![mail2::config::CategoryDef {
        id: "todo".into(),
        label: "待办".into(),
        create_item: true,
    }];
    assert!(matches!(classify_step(false, &Some("todo".into()), &c), Asked::Take(t) if t == "todo"));
    assert!(matches!(classify_step(false, &Some("x".into()), &c), Asked::Again));
    assert!(matches!(classify_step(true, &Some("x".into()), &c), Asked::Take(t) if t == "misc"));
    assert!(matches!(classify_step(true, &None, &c), Asked::Fail));
    assert!(matches!(extract_step(false, &None, "s"), Asked::Again));
    assert!(matches!(extract_step(true, &None, "s"), Asked::Fail));
    assert_eq!(intent_of(&Some(obj(vec![("intent", text("done"))]))), ReplyIntent::Done);
    assert_eq!(intent_of(&Some(obj(vec![("intent", text("silent"))]))), ReplyIntent::Silent);
    assert_eq!(intent_of(&None), ReplyIntent::Unclear);
    assert_eq!(url_of(&cfg().llm), "http://127.0.0.1:1/chat/completions");
    let ex = tidy_extract(
        TodoExtract { deadline: Some("tomorrow".into()), ..Default::default() },
        "主题",
    );
    assert_eq!(ex.deadline, None);
}

#[test]
fn the_tools() {
    let r = default_registry();
    assert_eq!(r.len(), 11);
    assert!(!r.is_empty());
    assert_eq!(r.get("get_email").unwrap().safety, SafetyLevel::ReadOnly);
    assert_eq!(r.get("create_item").unwrap().safety, SafetyLevel::Create);
    assert_eq!(r.get("delete_email").unwrap().safety, SafetyLevel::Mutate);
    assert!(r.get("send_email").is_none());
    let told = r.to_openai();
    assert_eq!(told.len(), 11);
    let f = told[0].get("function").unwrap();
    assert_eq!(f.text_at("name").as_deref(), Some("get_email"));
    let p = f.get("parameters").unwrap();
    assert_eq!(p.text_at("type").as_deref(), Some("object"));
    assert!(!p.bool_at("additionalProperties", true));
}

#[test]
fn a_tool_takes_the_place_of_its_namesake() {
    let mut r = ToolRegistry::new();
    assert!(r.is_empty());
    for about in ["old", "new"] {
        r.register(ToolDef {
            name: "x".into(),
            description: about.into(),
            parameters: Json::Null,
            safety: SafetyLevel::ReadOnly,
            work: Work::Own,
        });
    }
    assert_eq!(r.len(), 1);
    assert_eq!(r.get("x").unwrap().description, "new");
}

fn run(tool: &str, args: Json, found: bool) -> Plan {
    plan_call(&default_registry(), tool, &Ok(args), found, &cfg().timezone, &now())
}

fn code(p: &Plan) -> Option<String> {
    match p {
        Plan::Refuse(r) => r.error_code.clone(),
        _ => None,
    }
}

#[test]
fn calls_that_are_refused() {
    assert_eq!(code(&run("nothing", obj(vec![]), true)).as_deref(), Some("unknown_tool"));
    assert_eq!(code(&run("get_email", obj(vec![]), true)).as_deref(), Some("invalid_args"));
    let id = || obj(vec![("id", Json::Int(3))]);
    assert_eq!(code(&run("get_email", id(), false)).as_deref(), Some("not_found"));
    assert_eq!(code(&run("update_item", id(), true)).as_deref(), Some("invalid_args"));
    let bad = obj(vec![("status", text("lost"))]);
    assert_eq!(code(&run("list_items", bad, true)).as_deref(), Some("invalid_args"));
    let cat = obj(vec![("id", text("线上")), ("label", text("x"))]);
    assert_eq!(code(&run("create_category", cat, true)).as_deref(), Some("invalid_args"));
    let p = plan_call(&default_registry(), "get_email", &Err("bad".into()), true, &cfg().timezone, &now());
    match p {
        Plan::Refuse(r) => assert_eq!(
            r.content.text_at("message").as_deref(),
            Some("工具参数 JSON 非法: bad")
        ),
        _ => panic!(),
    }
}

#[test]
fn calls_that_only_read_or_add() {
    assert!(matches!(run("get_email", obj(vec![("id", Json::Int(3))]), true), Plan::ReadEmail(3)));
    match run("search_emails", obj(vec![("limit", Json::Int(999))]), true) {
        Plan::SearchEmails(f) => assert_eq!(f.limit, 50),
        _ => panic!(),
    }
    match run("list_items", obj(vec![("status", text("active"))]), true) {
        Plan::ListItems(f) => {
            assert_eq!(f.status, Some(ItemStatus::Active));
            assert_eq!(f.limit, 50);
        }
        _ => panic!(),
    }
    assert!(matches!(run("list_categories", obj(vec![]), true), Plan::ListCategories));
    let args = obj(vec![
        ("id", text("online_test")),
        ("label", text("线上测评")),
        ("create_item", Json::Bool(true)),
    ]);
    match run("create_category", args, true) {
        Plan::AddCategory(c) => {
            assert_eq!(c.kind, "notification");
            assert!(!c.create_item);
        }
        _ => panic!(),
    }
}

#[test]
fn changes_wait_for_a_user() {
    let args = obj(vec![
        ("id", Json::Int(5)),
        ("patch", obj(vec![("title", text("新")), ("deadline", text("2026-04-24 11:00"))])),
    ]);
    let q = match run("update_item", args, true) {
        Plan::Ask(q) => q,
        _ => panic!(),
    };
    assert_eq!(q.summary, "修改事项 #5：title、deadline");
    let told = approval_result(9);
    assert!(told.ok && told.created_approval);
    assert_eq!(told.error_code.as_deref(), Some("needs_approval"));
    assert_eq!(told.content.int_at("approval_id"), Some(9));

    let d = apply_tool(&default_registry(), "update_item", &q.payload, &Some(item()), false, &cfg(), &now(), NOW);
    match d {
        Deed::SaveItem(it) => {
            assert_eq!(it.id, 5);
            assert_eq!(it.title, "新");
            assert_eq!(it.party, "p");
            assert_eq!(it.deadline.as_deref(), Some("2026-04-24T11:00:00+08:00"));
            assert_eq!(it.created_at, "2027-08-01T00:00:00+00:00");
        }
        _ => panic!(),
    }
}

#[test]
fn what_is_gone_is_not_changed() {
    let args = obj(vec![("id", Json::Int(5))]);
    let d = apply_tool(&default_registry(), "delete_item", &args, &None, false, &cfg(), &now(), NOW);
    let r = deed_result(d);
    assert!(!r.ok);
    assert_eq!(r.error_code.as_deref(), Some("not_found"));
    let d = apply_tool(&default_registry(), "delete_item", &args, &Some(item()), false, &cfg(), &now(), NOW);
    assert!(matches!(d, Deed::DeleteItem(5)));
    assert_eq!(deed_result(d).content.text_at("message").as_deref(), Some("事项 #5 已删除"));
    let d = apply_tool(&default_registry(), "get_email", &args, &Some(item()), true, &cfg(), &now(), NOW);
    assert_eq!(deed_result(d).error_code.as_deref(), Some("internal"));
}

#[test]
fn one_mail_makes_one_item() {
    let args = obj(vec![
        ("category", text("interview")),
        ("title", text("技术面试")),
        ("event", text("一二三四五六七八九十十一")),
        ("deadline", text("2027-09-01 20:00")),
    ]);
    let origin = Origin { source_email_id: Some(7), account_id: 2, text: "面试".into() };
    let cat = Some(category("interview", "todo"));
    match plan_item(&args, &cat, &None, &origin, &cfg(), &now(), NOW) {
        ItemPlan::Insert(it) => {
            assert_eq!(it.deadline.as_deref(), Some("2027-09-01T20:00:00+08:00"));
            assert_eq!(it.event, "一二三四五六七八九十");
            assert_eq!(it.remind_policy, remind_policy::URGENT);
            assert_eq!(it.remind_at.as_deref(), Some(NOW));
            assert_eq!(it.source_email_id, Some(7));
            assert_eq!(it.account_id, 2);
        }
        _ => panic!(),
    }
    match plan_item(&args, &cat, &Some(item()), &origin, &cfg(), &now(), NOW) {
        ItemPlan::Have(r) => assert!(!r.content.bool_at("created", true)),
        _ => panic!(),
    }
    let other = obj(vec![
        ("category", text("interview")),
        ("title", text("x")),
        ("deadline", text("someday")),
    ]);
    match plan_item(&other, &cat, &Some(item()), &origin, &cfg(), &now(), NOW) {
        ItemPlan::Have(r) => {
            assert!(r.ok);
            assert_eq!(r.content.get("item").unwrap().int_at("id"), Some(5));
        }
        _ => panic!(),
    }
    match plan_item(&args, &None, &Some(item()), &origin, &cfg(), &now(), NOW) {
        ItemPlan::Refuse(r) => assert_eq!(r.error_code.as_deref(), Some("invalid_args")),
        _ => panic!(),
    }
    match plan_item(&args, &None, &None, &origin, &cfg(), &now(), NOW) {
        ItemPlan::Refuse(r) => assert_eq!(r.error_code.as_deref(), Some("invalid_args")),
        _ => panic!(),
    }
}

#[test]
fn what_a_call_is_about() {
    let args = obj(vec![("id", Json::Int(3))]);
    assert_eq!(subject_of(&default_registry(), "get_email", &args), Subject::Email(3));
    assert_eq!(subject_of(&default_registry(), "delete_item", &args), Subject::Item(3));
    assert_eq!(subject_of(&default_registry(), "list_items", &args), Subject::Nothing);
    assert_eq!(subject_of(&default_registry(), "delete_item", &obj(vec![])), Subject::Nothing);
}

#[test]
fn deadlines_are_normalized() {
    let tz = cfg().timezone;
    assert!(valid_deadline(" 2027-09-10T14:00:00+08:00 "));
    assert!(!valid_deadline(""));
    assert_eq!(
        normalize_deadline("2026-04-24 11:00(GMT+08:00)", &tz, &now()).as_deref(),
        Some("2026-04-24T11:00:00+08:00")
    );
    assert_eq!(normalize_deadline("someday", &tz, &now()), None);
}

#[test]
fn mail_in_a_list_has_no_body() {
    let r = emails_result(&vec![mail()]);
    assert_eq!(r.content.int_at("count"), Some(1));
    match r.content.get("emails").unwrap() {
        Json::Arr(v) => {
            assert_eq!(v[0].text_at("from").as_deref(), Some("HR <hr@acme.com>"));
            assert!(v[0].get("body_text").is_none());
        }
        _ => panic!(),
    }
}

fn answer(content: Option<&str>, calls: Vec<ToolCall>) -> ChatResponse {
    ChatResponse {
        choices: vec![Choice {
            message: ChoiceMessage {
                content: content.map(|s| s.to_string()),
                tool_calls: if calls.is_empty() { None } else { Some(calls) },
            },
            finish_reason: None,
        }],
    }
}

fn call() -> ToolCall {
    ToolCall {
        id: "call_1".into(),
        typ: "function".into(),
        function: FunctionCall { name: "list_categories".into(), arguments: "{}".into() },
    }
}

#[test]
fn a_conversation() {
    let mut c = Conversation::start(&vec![category("interview", "todo")], &mail(), 7, 2);
    assert_eq!(c.messages.len(), 2);
    let system = c.messages[0].content.clone().unwrap();
    assert!(system.contains("interview:标签"));
    assert!(system.contains("get_email(7)"));
    let user = c.messages[1].content.clone().unwrap();
    assert!(user.contains("发件时间: 2027-09-01T00:00:00+00:00"));
    assert!(user.contains("主题: 面试邀请"));

    assert_eq!(c.next_round(), None);
    match c.take_answer(&answer(None, vec![call()])) {
        AnswerStep::Call(v) => assert_eq!(v[0].function.name, "list_categories"),
        _ => panic!(),
    }
    let r = ToolResult::ok_content(obj(vec![("ok", Json::Bool(true))]));
    assert_eq!(c.take_result(&call(), &r, 3), None);
    assert_eq!(c.trace[0], "[round 1] list_categories ({}) -> ok None (3ms) 结果: {\"ok\":true}");
    assert_eq!(c.messages.len(), 4);
    assert_eq!(c.messages[3].content.as_deref(), Some("{\"ok\":true}"));
    assert_eq!(c.messages[3].tool_call_id.as_deref(), Some("call_1"));

    assert_eq!(c.next_round(), None);
    match c.take_answer(&answer(Some("{\"category\":\"misc\"}"), vec![])) {
        AnswerStep::Last(t) => assert_eq!(t, "{\"category\":\"misc\"}"),
        _ => panic!(),
    }
    let out = c.finish(obj(vec![("category", text("misc"))]));
    assert_eq!(out.category.as_deref(), Some("misc"));
    assert_eq!((out.rounds, out.tool_calls, out.approvals_created), (2, 1, 0));
    let kept = c.record(7, 1, &out.final_json, NOW.into());
    assert_eq!(kept.final_json, "{\"category\":\"misc\"}");
    assert_eq!(kept.trace, c.trace[0]);
    assert_eq!(kept.status, "ok");
    assert_eq!(c.next_round(), Some(AgentFailure::TooManyRounds(2)));
}

#[test]
fn conversations_that_fail() {
    let mut c = Conversation::start(&vec![], &mail(), 7, 0);
    assert_eq!(c.max_rounds, 1);
    assert!(matches!(
        c.take_answer(&ChatResponse { choices: vec![] }),
        AnswerStep::Fail(AgentFailure::NoAnswer)
    ));
    assert!(matches!(
        c.take_answer(&answer(Some("  "), vec![])),
        AnswerStep::Fail(AgentFailure::EmptyAnswer)
    ));
    let broken = ToolResult::err("internal", "disk");
    assert_eq!(c.take_result(&call(), &broken, 1), Some(AgentFailure::ToolBroke));
    assert!(c.trace[0].contains("error Some(\"internal\")"));
}

#[test]
fn an_answer_that_cannot_be_read() {
    let mut c = Conversation::start(&vec![], &mail(), 7, 2);
    assert_eq!(c.next_round(), None);
    assert!(c.ask_again());
    assert!(!c.ask_again());
    let v = unreadable("???".into());
    let (category, item) = parse_final(&v);
    assert!(category.is_none());
    assert!(item.is_none());
    assert_eq!(v.text_at("raw").as_deref(), Some("???"));
}

fn own_tool(safety: SafetyLevel, work: Work) -> ToolRegistry {
    let mut r = default_registry();
    r.register(ToolDef {
        name: "calendar_export".into(),
        description: "导出日历".into(),
        parameters: Json::Null,
        safety,
        work,
    });
    r
}

#[test]
fn tools_are_those_that_are_registered() {
    let zone = cfg().timezone;
    let none = ToolRegistry::new();
    let id = || obj(vec![("id", Json::Int(3))]);
    let p = plan_call(&none, "get_email", &Ok(id()), true, &zone, &now());
    assert_eq!(code(&p).as_deref(), Some("unknown_tool"));
    assert_eq!(subject_of(&none, "get_email", &id()), Subject::Nothing);
    let d = apply_tool(&none, "delete_item", &id(), &Some(item()), false, &cfg(), &now(), NOW);
    assert_eq!(deed_result(d).error_code.as_deref(), Some("internal"));

    let r = own_tool(SafetyLevel::ReadOnly, Work::Own);
    assert_eq!(r.len(), 12);
    assert_eq!(r.to_openai().len(), 12);
    match plan_call(&r, "calendar_export", &Ok(id()), true, &zone, &now()) {
        Plan::Own(args) => assert_eq!(args.int_at("id"), Some(3)),
        _ => panic!(),
    }
    let d = apply_tool(&r, "calendar_export", &id(), &None, false, &cfg(), &now(), NOW);
    assert_eq!(deed_result(d).error_code.as_deref(), Some("internal"));
}

#[test]
fn a_tool_of_ones_own_that_changes_something_is_asked_for() {
    let zone = cfg().timezone;
    let id = || obj(vec![("id", Json::Int(3))]);
    let r = own_tool(SafetyLevel::Mutate, Work::Own);
    match plan_call(&r, "calendar_export", &Ok(id()), true, &zone, &now()) {
        Plan::Ask(q) => {
            assert_eq!(q.summary, "调用工具 calendar_export");
            assert_eq!(q.payload.int_at("id"), Some(3));
        }
        _ => panic!(),
    }
    match apply_tool(&r, "calendar_export", &id(), &None, false, &cfg(), &now(), NOW) {
        Deed::Own(args) => assert_eq!(args.int_at("id"), Some(3)),
        _ => panic!(),
    }
    let r = own_tool(SafetyLevel::Mutate, Work::ListItems);
    let d = apply_tool(&r, "calendar_export", &id(), &None, false, &cfg(), &now(), NOW);
    let refused = deed_result(d);
    assert_eq!(refused.error_code.as_deref(), Some("not_allowed"));
    assert_eq!(refused.content.text_at("message").as_deref(), Some("该工具不支持审批重放"));
}

#[test]
fn a_request_reads_back_as_it_was_stored() {
    let patch = obj(vec![("title", text("新\"题\"")), ("deadline", Json::Null)]);
    let args = obj(vec![("id", Json::Int(5)), ("patch", patch)]);
    let q = match run("update_item", args, true) {
        Plan::Ask(q) => q,
        _ => panic!(),
    };
    let a = pending_approval("update_item", &q, Some(7), NOW.into());
    assert_eq!(a.payload_json, r#"{"id":5,"patch":{"deadline":null,"title":"新\"题\""}}"#);
    assert_eq!((a.status.as_str(), a.source_email_id), ("pending", Some(7)));
    let payload = approved_args(&a.payload_json).unwrap();
    match apply_tool(
        &default_registry(),
        &a.tool_name,
        &payload,
        &Some(item()),
        false,
        &cfg(),
        &now(),
        NOW,
    ) {
        Deed::SaveItem(it) => {
            assert_eq!(it.title, "新\"题\"");
            assert_eq!(it.deadline, None);
        }
        _ => panic!(),
    }
}

#[test]
fn arguments_have_one_round_to_be_mended() {
    let bad = ToolResult::err("invalid_args", "缺少 id");
    let good = ToolResult::ok_content(obj(vec![]));
    let mut c = Conversation::start(&vec![], &mail(), 7, 8);
    assert_eq!(c.next_round(), None);
    assert_eq!(c.take_result(&call(), &bad, 1), None);
    assert_eq!(c.take_result(&call(), &bad, 1), None);
    assert_eq!(c.next_round(), None);
    assert_eq!(c.take_result(&call(), &good, 1), None);
    assert_eq!(c.next_round(), None);
    assert_eq!(c.take_result(&call(), &bad, 1), None);
    assert_eq!(c.next_round(), None);
    assert_eq!(c.take_result(&call(), &bad, 1), Some(AgentFailure::NotMended));
}

#[test]
fn codes_are_quoted_in_the_trace() {
    let odd = ToolResult::err("a\"b\n", "x");
    let mut c = Conversation::start(&vec![], &mail(), 7, 8);
    assert_eq!(c.next_round(), None);
    assert_eq!(c.take_result(&call(), &odd, 1), None);
    assert!(c.trace[0].contains("error Some(\"a\\\"b\\n\") (1ms)"));
}

#[test]
fn the_first_object_is_taken() {
    assert_eq!(extract_json_object("{\"a\":1} {\"b\":2}"), "{\"a\":1}");
    assert_eq!(extract_json_object("x {\"a\":\"}\\\"\"} y}"), "{\"a\":\"}\\\"\"}");
}

#[test]
fn how_mail_is_to_be_classified() {
    let c = vec![mail2::config::CategoryDef {
        id: "misc".into(),
        label: "其他".into(),
        create_item: false,
    }];
    let told = classify_prompt(&c);
    assert!(told.contains("）：misc:其他。判断标准：事务预约/待办类 = 面试邀请"));
    assert!(told.contains("验证码、订阅推送等；注意：反馈式邮件即使出现"));
    assert!(told.ends_with("分类 id 必须严格来自列表。"));
}

#[test]
fn an_item_is_told_of_as_it_is_stored() {
    let told = item_made_result(5, &Some(item()));
    assert_eq!(told.content.get("item").unwrap().int_at("id"), Some(5));
    let told = item_made_result(5, &None);
    assert_eq!(told.content.int_at("item_id"), Some(5));
    assert!(told.content.get("item").unwrap().is_null());
}
