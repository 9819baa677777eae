use mail2::agent::calls::execute_tool;
use mail2::agent::calls::Plan;
use mail2::agent::calls::Subject;
use mail2::agent::calls::subject_of_call;
use mail2::agent::Conversation;
use mail2::agent::tools::default_registry;
use mail2::api::approved_args;
use mail2::api::Reclassified;
use mail2::api::reclassified_json;
use mail2::config::CategoryDef;
use mail2::json::Json;
use mail2::json_text::read;
use mail2::json_text::write_json;
use mail2::json_text::write_json_lines;
use mail2::llm::Asked;
use mail2::llm::chat_request;
use mail2::llm::ChatMessage;
use mail2::llm::classify_answer;
use mail2::llm::extract_answer;
use mail2::llm::FunctionCall;
use mail2::llm::intent_answer;
use mail2::llm::named_category;
use mail2::llm::parse_response;
use mail2::llm::read_response;
use mail2::llm::ToolCall;
use mail2::llm::two_messages;
use mail2::model::Approval;
use mail2::model::EmailRecord;
use mail2::model::Item;
use mail2::model::ItemKind;
use mail2::model::ItemStatus;
use mail2::model::MailAccount;
use mail2::model::ReplyIntent;
use mail2::model::RunReport;
use mail2::model::SendLog;
use mail2::model::SendStatus;
use mail2::notifier::message_id_of;
use mail2::notifier::new_message_id;
use mail2::notifier::webhook_json;
use mail2::records::accounts_json;
use mail2::records::approvals_json;
use mail2::records::emails_json;
use mail2::records::item_json;
use mail2::records::items_json;
use mail2::records::report_json;
use mail2::records::send_logs_json;
use mail2::time::Stamp;
use mail2::time::Zone;
use serde_json::Value;

fn to_value(j: &Json) -> Value {
    match j {
        Json::Null => Value::Null,
        Json::Bool(b) => Value::Bool(*b),
        Json::Int(n) => Value::from(*n),
        Json::Number(s) => serde_json::from_str(s).unwrap(),
        Json::Str(s) => Value::String(s.clone()),
        Json::Arr(v) => Value::Array(v.iter().map(to_value).collect()),
        Json::Obj(m) => Value::Object(m.iter().map(|(k, v)| (k.clone(), to_value(v))).collect()),
    }
}

fn json(text: &str) -> Json {
    read(text).unwrap()
}

fn same(j: &Json, text: &str) {
    assert_eq!(to_value(j), serde_json::from_str::<Value>(text).unwrap());
}

fn item() -> Item {
    Item {
        id: 7,
        kind: ItemKind::Todo,
        title: "技术面试邀请".to_string(),
        party: "字节跳动".to_string(),
        event: "技术面试".to_string(),
        category: "interview".to_string(),
        deadline: Some("2027-09-10T14:00:00+08:00".to_string()),
        remind_at: None,
        remind_policy: "normal".to_string(),
        needs_review: false,
        status: ItemStatus::Active,
        source_email_id: Some(3),
        account_id: 1,
        notes: "".to_string(),
        created_at: "2027-09-01T00:00:00+00:00".to_string(),
        updated_at: "2027-09-02T00:00:00+00:00".to_string(),
    }
}

const ITEM: &str = r#"{"id":7,"kind":"todo","title":"技术面试邀请","party":"字节跳动",
    "event":"技术面试","category":"interview","deadline":"2027-09-10T14:00:00+08:00",
    "remind_at":null,"remind_policy":"normal","needs_review":false,"status":"active",
    "source_email_id":3,"account_id":1,"notes":"","created_at":"2027-09-01T00:00:00+00:00",
    "updated_at":"2027-09-02T00:00:00+00:00"}"#;

#[test]
fn tool_call_deser() {
    let raw = r#"{"choices":[{"message":{"role":"assistant","content":null,
            "tool_calls":[{"id":"call_1","type":"function",
            "function":{"name":"list_categories","arguments":"{}"}}]}}]}"#;
    let resp = parse_response(raw).unwrap();
    let calls = resp.choices[0].message.tool_calls.as_ref().unwrap();
    assert_eq!(calls[0].function.name, "list_categories");
    assert_eq!(calls[0].id, "call_1");
}

#[test]
fn answers_that_are_none() {
    assert!(parse_response("no JSON").is_none());
    assert!(parse_response("{}").is_none());
    assert!(read_response(&json("{}")).is_none());
    assert!(read_response(&json(r#"{"choices":[{"message":{"content":1}}]}"#)).is_none());
    assert!(read_response(&json(r#"{"choices":[{"message":{"tool_calls":[{"id":"x"}]}}]}"#))
        .is_none());
    let plain = read_response(&json(r#"{"choices":[{"message":{"content":"好"}}]}"#)).unwrap();
    assert_eq!(plain.choices[0].message.content, Some("好".to_string()));
    assert!(plain.choices[0].message.tool_calls.is_none());
    assert_eq!(read_response(&json(r#"{"choices":[]}"#)).unwrap().choices.len(), 0);
}

#[test]
fn requests_to_the_model() {
    let two = two_messages("规则".to_string(), "邮件".to_string());
    same(
        &chat_request("deepseek-chat", &two, None),
        r#"{"model":"deepseek-chat","messages":[{"role":"system","content":"规则"},
            {"role":"user","content":"邮件"}],"temperature":0.1,
            "response_format":{"type":"json_object"}}"#,
    );
    let called = vec![
        ChatMessage {
            role: "assistant".to_string(),
            content: None,
            tool_calls: Some(vec![ToolCall {
                id: "call_1".to_string(),
                typ: "function".to_string(),
                function: FunctionCall {
                    name: "get_email".to_string(),
                    arguments: "{\"id\":1}".to_string(),
                },
            }]),
            tool_call_id: None,
        },
        ChatMessage {
            role: "tool".to_string(),
            content: Some("{}".to_string()),
            tool_calls: None,
            tool_call_id: Some("call_1".to_string()),
        },
    ];
    same(
        &chat_request("m", &called, Some(vec![json(r#"{"type":"function"}"#)])),
        r#"{"model":"m","messages":[{"role":"assistant",
            "tool_calls":[{"id":"call_1","type":"function",
            "function":{"name":"get_email","arguments":"{\"id\":1}"}}]},
            {"role":"tool","content":"{}","tool_call_id":"call_1"}],
            "temperature":0.1,"tools":[{"type":"function"}]}"#,
    );
}

#[test]
fn message_ids_differ() {
    assert_eq!(message_id_of("x"), "<mail2-x@mail2.local>");
    let (a, b) = (new_message_id(), new_message_id());
    for (i, c) in a["<mail2-".len()..].chars().take(36).enumerate() {
        match i {
            8 | 13 | 18 | 23 => assert_eq!(c, '-'),
            _ => assert!(matches!(c, '0'..='9' | 'a'..='f')),
        }
    }
    assert_ne!(a, b);
    assert_eq!(a.len(), "<mail2-@mail2.local>".len() + 36);
    assert!(a.starts_with("<mail2-") && a.ends_with("@mail2.local>"));
    let unique = &a["<mail2-".len()..a.len() - "@mail2.local>".len()];
    assert!(uuid::Uuid::parse_str(unique).is_ok());
}

#[test]
fn what_another_service_is_told() {
    same(&webhook_json("标题", "正文"), r#"{"title":"标题","content":"正文"}"#);
}

#[test]
fn items_in_answers() {
    same(&item_json(&item()), ITEM);
    same(&items_json(&vec![item()]), &format!("[{ITEM}]"));
    same(&items_json(&Vec::new()), "[]");
}

#[test]
fn mail_in_answers() {
    let email = EmailRecord {
        id: 3,
        uid: None,
        message_id: "a@b".to_string(),
        subject: "面试".to_string(),
        from_addr: "hr@acme.com".to_string(),
        from_name: "HR".to_string(),
        body_text: "正文".to_string(),
        category: "interview".to_string(),
        sent_at: "".to_string(),
        received_at: "2027-09-01T00:00:00+00:00".to_string(),
        item_id: Some(7),
        reply_to_item_id: None,
        account_id: 1,
        handled: false,
        user_label: "correct".to_string(),
        user_note: "".to_string(),
    };
    same(
        &emails_json(&vec![email]),
        r#"[{"id":3,"uid":null,"message_id":"a@b","subject":"面试","from_addr":"hr@acme.com",
            "from_name":"HR","body_text":"正文","category":"interview","sent_at":"",
            "received_at":"2027-09-01T00:00:00+00:00","item_id":7,"reply_to_item_id":null,
            "account_id":1,"handled":false,"user_label":"correct","user_note":""}]"#,
    );
}

#[test]
fn reminders_in_answers() {
    let log = SendLog {
        id: 5,
        item_id: 7,
        attempt: 2,
        kind: "reminder".to_string(),
        to_addr: "me@x.com".to_string(),
        subject: "【面试/字节跳动/技术面试/0910】".to_string(),
        body: "b".to_string(),
        status: SendStatus::Failed,
        error: Some("拒绝".to_string()),
        scheduled_at: "2027-09-09T01:00:00+00:00".to_string(),
        sent_at: None,
        next_retry_at: Some("2027-09-09T01:30:00+00:00".to_string()),
        message_id: None,
    };
    same(
        &send_logs_json(&vec![log]),
        r#"[{"id":5,"item_id":7,"attempt":2,"kind":"reminder","to_addr":"me@x.com",
            "subject":"【面试/字节跳动/技术面试/0910】","body":"b","status":"failed",
            "error":"拒绝","scheduled_at":"2027-09-09T01:00:00+00:00","sent_at":null,
            "next_retry_at":"2027-09-09T01:30:00+00:00","message_id":null}]"#,
    );
}

#[test]
fn requests_for_approval_in_answers() {
    let a = Approval {
        id: 1,
        tool_name: "delete_item".to_string(),
        payload_json: "{\"id\":7}".to_string(),
        summary: "删除事项 7".to_string(),
        status: "pending".to_string(),
        source_email_id: Some(3),
        decided_at: None,
        created_at: "2027-09-01T00:00:00+00:00".to_string(),
    };
    same(
        &approvals_json(&vec![a]),
        r#"[{"id":1,"tool_name":"delete_item","payload_json":"{\"id\":7}",
            "summary":"删除事项 7","status":"pending","source_email_id":3,"decided_at":null,
            "created_at":"2027-09-01T00:00:00+00:00"}]"#,
    );
}

#[test]
fn accounts_in_answers_have_no_password() {
    let a = MailAccount {
        id: 1,
        label: "默认".to_string(),
        address: "me@x.com".to_string(),
        imap_host: "imap.x.com".to_string(),
        imap_port: 993,
        imap_user: "me".to_string(),
        imap_password: "geheim".to_string(),
        imap_tls_insecure: false,
        smtp_host: "smtp.x.com".to_string(),
        smtp_port: 465,
        smtp_user: "me".to_string(),
        smtp_password: "".to_string(),
        smtp_tls_insecure: false,
        enabled: true,
        is_default: true,
        reminder_to: "".to_string(),
        created_at: "".to_string(),
        updated_at: "".to_string(),
    };
    let told = to_value(&accounts_json(&vec![a]));
    assert_eq!(told[0]["imap_password"], "***");
    assert_eq!(told[0]["imap_host"], "imap.x.com");
    assert_eq!(told[0]["imap_port"], 993);
    assert!(!told.to_string().contains("geheim"));
}

#[test]
fn reports_in_answers() {
    let mut r = RunReport::default();
    r.fetched = 2;
    r.approvals_created = 1;
    same(
        &report_json(&r),
        r#"{"fetched":2,"new_emails":0,"classified":0,"items_created":0,"items_updated":0,
            "reminders_sent":0,"reminders_failed":0,"retries":0,"missed_compensated":0,
            "replies_handled":0,"llm_fallback_misc":0,"expired":0,"tool_rounds":0,
            "approvals_created":1}"#,
    );
}

#[test]
fn mail_taken_out_of_what_is_to_do() {
    same(
        &reclassified_json(3, "notification", &Reclassified::Revoke(7)),
        r#"{"email_id":3,"category":"notification","item_updated":false}"#,
    );
    same(
        &reclassified_json(3, "interview", &Reclassified::Extract),
        r#"{"email_id":3,"category":"interview","item_updated":true}"#,
    );
}

#[test]
fn json_text_is_read() {
    let j = json(r#" {"b":[1,-2,1.5,9223372036854775808,null,true],"a":"\u4f60\n"} "#);
    assert_eq!(j.text_at("a"), Some("你\n".to_string()));
    match j.get("b") {
        Some(Json::Arr(v)) => {
            assert_eq!(v.len(), 6);
            assert!(matches!(v[0], Json::Int(1)));
            assert!(matches!(v[1], Json::Int(-2)));
            assert!(matches!(&v[2], Json::Number(t) if t == "1.5"));
            assert!(matches!(&v[3], Json::Number(t) if t == "9223372036854775808"));
            assert!(matches!(v[4], Json::Null));
            assert!(matches!(v[5], Json::Bool(true)));
        }
        _ => panic!("no array"),
    }
    assert_eq!(json(r#"{"k":1,"k":2}"#).int_at("k"), Some(2));
    for text in ["", "{", "{'a':1}", "[1,]", "1 2"] {
        let fault = serde_json::from_str::<Value>(text).unwrap_err().to_string();
        assert_eq!(read(text).unwrap_err(), fault);
    }
}

#[test]
fn calls_as_the_model_writes_them() {
    let zone = Zone::new("Asia/Shanghai").unwrap();
    let now = Stamp::parse("2027-09-01T00:00:00+00:00").unwrap();
    assert_eq!(subject_of_call(&default_registry(), "get_email", r#"{"id":3}"#), Subject::Email(3));
    assert_eq!(subject_of_call(&default_registry(), "delete_item", r#"{"id":4}"#), Subject::Item(4));
    assert_eq!(subject_of_call(&default_registry(), "get_email", r#"{"id":"3"}"#), Subject::Nothing);
    assert_eq!(subject_of_call(&default_registry(), "get_email", "{"), Subject::Nothing);
    assert!(matches!(
        execute_tool(&default_registry(), "get_email", r#"{"id":3}"#, true, &zone, &now),
        Plan::ReadEmail(3)
    ));
    match execute_tool(&default_registry(), "get_email", "{", true, &zone, &now) {
        Plan::Refuse(r) => {
            assert_eq!(r.error_code, Some("invalid_args".to_string()));
            assert!(to_value(&r.content).to_string().contains("工具参数 JSON 非法: "));
        }
        _ => panic!("taken"),
    }
    match execute_tool(&default_registry(), "nothing", "{", true, &zone, &now) {
        Plan::Refuse(r) => assert_eq!(r.error_code, Some("unknown_tool".to_string())),
        _ => panic!("taken"),
    }
}

fn categories() -> Vec<CategoryDef> {
    vec![CategoryDef {
        id: "interview".to_string(),
        label: "面试".to_string(),
        create_item: true,
    }]
}

#[test]
fn answers_as_the_model_writes_them() {
    assert_eq!(named_category(r#"{"category":"interview"}"#).as_deref(), Some("interview"));
    assert_eq!(named_category(r#"好的：{"category":"misc"}。"#).as_deref(), Some("misc"));
    assert_eq!(named_category("不知道"), None);
    let good = Some(r#"{"category":" interview "}"#.to_string());
    assert!(matches!(classify_answer(false, &good, &categories()), Asked::Take(id) if id == "interview"));
    let bad = Some(r#"{"category":"other"}"#.to_string());
    assert!(matches!(classify_answer(false, &bad, &categories()), Asked::Again));
    assert!(matches!(classify_answer(true, &bad, &categories()), Asked::Take(id) if id == "misc"));
    assert!(matches!(classify_answer(true, &None, &categories()), Asked::Fail));
    let unread = Some("不知道".to_string());
    assert!(matches!(classify_answer(false, &unread, &categories()), Asked::Again));
    assert!(matches!(classify_answer(true, &unread, &categories()), Asked::Fail));
    let without = Some(r#"{"kind":"interview"}"#.to_string());
    assert!(matches!(classify_answer(true, &without, &categories()), Asked::Fail));
    let empty = Some(r#"{"category":""}"#.to_string());
    assert!(matches!(classify_answer(true, &empty, &categories()), Asked::Take(id) if id == "misc"));

    let todo = Some(
        r#"```json{"party":" 字节 ","event":"面试","title":"","deadline":"明天"}```"#.to_string(),
    );
    match extract_answer(false, &todo, "主题") {
        Asked::Take(ex) => {
            assert_eq!(ex.party, "字节");
            assert_eq!(ex.title, "主题");
            assert_eq!(ex.deadline, None);
        }
        _ => panic!("not taken"),
    }
    assert!(matches!(extract_answer(false, &Some("{}".to_string()), "s"), Asked::Again));
    assert!(matches!(extract_answer(true, &None, "s"), Asked::Fail));

    assert_eq!(intent_answer(r#"{"intent":"DONE"}"#), ReplyIntent::Done);
    assert_eq!(intent_answer(r#"{"intent":"silent"}"#), ReplyIntent::Silent);
    assert_eq!(intent_answer("?"), ReplyIntent::Unclear);
}

#[test]
fn last_answers_as_the_model_writes_them() {
    let email = EmailRecord {
        id: 3,
        uid: None,
        message_id: "a@b".to_string(),
        subject: "面试".to_string(),
        from_addr: "hr@acme.com".to_string(),
        from_name: "HR".to_string(),
        body_text: "正文".to_string(),
        category: "".to_string(),
        sent_at: "".to_string(),
        received_at: "".to_string(),
        item_id: None,
        reply_to_item_id: None,
        account_id: 1,
        handled: false,
        user_label: "".to_string(),
        user_note: "".to_string(),
    };
    let mut talk = Conversation::start(&Vec::new(), &email, 3, 8);
    assert!(talk.next_round().is_none());
    assert!(talk.take_last("说不清".to_string()).is_none());
    assert!(talk.next_round().is_none());
    let told = talk.take_last("还是说不清".to_string()).unwrap();
    same(&told, r#"{"raw":"还是说不清"}"#);
    let told = talk.take_last(r#"结果 {"category":"misc"}"#.to_string()).unwrap();
    assert_eq!(talk.finish(told).category, Some("misc".to_string()));
}

#[test]
fn arguments_that_are_approved() {
    assert_eq!(approved_args(r#"{"id":7}"#).unwrap().int_at("id"), Some(7));
    let refused = approved_args("{").unwrap_err();
    assert_eq!(refused.0, 400);
    assert!(refused.1.starts_with("审批参数损坏: "));
}

#[test]
fn records_written_as_arrays() {
    assert_eq!(named_category(r#"["interview"]"#).as_deref(), Some("interview"));
    assert_eq!(named_category(r#"["interview","x"]"#), None);
    let todo = Some(r#"["字节","面试","一面",null,null]"#.to_string());
    match extract_answer(false, &todo, "主题") {
        Asked::Take(ex) => {
            assert_eq!((ex.party.as_str(), ex.event.as_str()), ("字节", "面试"));
            assert_eq!((ex.title.as_str(), ex.notes.as_str()), ("一面", ""));
        }
        _ => panic!("not taken"),
    }
    let short = Some(r#"["字节","面试","一面"]"#.to_string());
    assert!(matches!(extract_answer(false, &short, "主题"), Asked::Again));
    assert_eq!(intent_answer(r#"["done"]"#), ReplyIntent::Done);
    let r = parse_response(r#"[[[["hi",[["c","function",["f","{}"]]]]]]]"#).unwrap();
    assert_eq!(r.choices[0].message.content.as_deref(), Some("hi"));
    let calls = r.choices[0].message.tool_calls.as_ref().unwrap();
    assert_eq!((calls[0].id.as_str(), calls[0].function.name.as_str()), ("c", "f"));
    assert!(parse_response(r#"[[],[]]"#).is_none());
}

#[test]
fn json_text_is_written() {
    for text in [
        r#"{"a":[1,-2,null,true,"x\"\n\u0001是"],"b":{"c":[]}}"#,
        "[]",
        "\"\"",
        "0.1",
        "12345678901234567890",
    ] {
        let j = json(text);
        assert_eq!(write_json(&j), to_value(&j).to_string());
        assert_eq!(write_json(&j), text);
        same(&read(&write_json(&j)).unwrap(), text);
    }
    let twice = Json::Obj(vec![
        ("b".into(), Json::Int(1)),
        ("a".into(), Json::Int(2)),
        ("b".into(), Json::Int(3)),
        ("ä".into(), Json::Number("x".into())),
    ]);
    assert_eq!(write_json(&twice), r#"{"a":2,"b":3,"ä":null}"#);
    assert_eq!(
        write_json_lines(&json(r#"{"a":[1]}"#)),
        "{\n  \"a\": [\n    1\n  ]\n}"
    );
}
