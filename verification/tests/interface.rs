use mail2::agent::registry::ToolResult;
use mail2::api::AccountPayload;
use mail2::api::ApiError;
use mail2::api::ApprovalQuery;
use mail2::api::approvals_wanted;
use mail2::api::approved_json;
use mail2::api::batch_email_action;
use mail2::api::batch_ids_emails;
use mail2::api::batch_ids_items;
use mail2::api::batch_item_action;
use mail2::api::BatchFilters;
use mail2::api::BatchPayload;
use mail2::api::build_item;
use mail2::api::CategoryPayload;
use mail2::api::check_pending;
use mail2::api::check_token;
use mail2::api::checked_category;
use mail2::api::checked_label;
use mail2::api::config_json;
use mail2::api::create_category;
use mail2::api::decided_status;
use mail2::api::delete_account;
use mail2::api::draft_account;
use mail2::api::email_filter_from_query;
use mail2::api::EmailAction;
use mail2::api::EmailLabelPayload;
use mail2::api::EmailQuery;
use mail2::api::fetch_account;
use mail2::api::fetch_since;
use mail2::api::FetchPayload;
use mail2::api::health_json;
use mail2::api::item_filter_from_query;
use mail2::api::ItemAction;
use mail2::api::ItemPayload;
use mail2::api::ItemQuery;
use mail2::api::LogQuery;
use mail2::api::logs_wanted;
use mail2::api::new_account;
use mail2::api::no_such_item;
use mail2::api::Reclassified;
use mail2::api::reclassified_item;
use mail2::api::reclassify;
use mail2::api::ReclassifyPayload;
use mail2::api::remind_now;
use mail2::api::Resp;
use mail2::api::Targets;
use mail2::api::update_account;
use mail2::api::update_item;
use mail2::api::validate_account_payload;
use mail2::config::AgentConfig;
use mail2::config::AppConfig;
use mail2::config::CategoryDef;
use mail2::config::LlmConfig;
use mail2::config::MailConfig;
use mail2::config::ReminderConfig;
use mail2::json::Json;
use mail2::model::Approval;
use mail2::model::CategoryInfo;
use mail2::model::EmailRecord;
use mail2::model::Item;
use mail2::model::ItemKind;
use mail2::model::ItemStatus;
use mail2::model::MailAccount;
use mail2::model::remind_policy;
use mail2::model::SendStatus;
use mail2::model::TodoExtract;
use mail2::time::Stamp;
use mail2::time::Zone;

const NOW: &str = "2027-09-01T02:00:00+00:00";

fn now() -> Stamp {
    Stamp::parse(NOW).unwrap()
}

fn cfg() -> AppConfig {
    AppConfig {
        listen: "127.0.0.1:0".into(),
        auth_token: "tok".into(),
        data_dir: "/tmp".into(),
        mail_db: None,
        todo_db: None,
        timezone: Zone::new("Asia/Shanghai").unwrap(),
        poll_interval_secs: 60,
        reminder: ReminderConfig {
            to: "me@example.com".into(),
            days_before: 1,
            lead_time: "09:00".into(),
            webhook_url: String::new(),
        },
        check_times: vec!["06:00".into()],
        mail: MailConfig::default(),
        llm: LlmConfig {
            api_key: "sk-1".into(),
            base_url: "http://127.0.0.1:1".into(),
            model: "mock".into(),
            timeout_secs: 5,
            categories: vec![CategoryDef {
                id: "interview".into(),
                label: "面试".into(),
                create_item: true,
            }],
            agent: AgentConfig::default(),
        },
    }
}

fn payload(kind: &str, deadline: Option<&str>) -> ItemPayload {
    ItemPayload {
        kind: kind.into(),
        title: "标题".into(),
        party: "公司".into(),
        event: String::new(),
        category: String::new(),
        deadline: deadline.map(|d| d.to_string()),
        notes: "n".into(),
    }
}

fn item(status: ItemStatus) -> Item {
    Item {
        id: 5,
        kind: ItemKind::Todo,
        title: "t".into(),
        party: "字节跳动".into(),
        event: "技术面试".into(),
        category: "interview".into(),
        deadline: Some("2027-09-10T14:00:00+08:00".into()),
        remind_at: None,
        remind_policy: remind_policy::NORMAL.into(),
        needs_review: false,
        status,
        source_email_id: Some(7),
        account_id: 3,
        notes: String::new(),
        created_at: "2027-08-01T00:00:00+00:00".into(),
        updated_at: NOW.into(),
    }
}

fn account(id: i64, is_default: bool, enabled: bool) -> MailAccount {
    MailAccount {
        id,
        label: "t".into(),
        address: "u@example.com".into(),
        imap_host: "imap.example.com".into(),
        imap_port: 993,
        imap_user: "u".into(),
        imap_password: "secret-1".into(),
        imap_tls_insecure: false,
        smtp_host: "smtp.example.com".into(),
        smtp_port: 465,
        smtp_user: "u".into(),
        smtp_password: "secret-2".into(),
        smtp_tls_insecure: false,
        enabled,
        is_default,
        reminder_to: String::new(),
        created_at: "c".into(),
        updated_at: "u".into(),
    }
}

fn nothing_written() -> AccountPayload {
    AccountPayload {
        label: None,
        address: None,
        imap_host: None,
        imap_port: None,
        imap_user: None,
        imap_password: None,
        imap_tls_insecure: None,
        smtp_host: None,
        smtp_port: None,
        smtp_user: None,
        smtp_password: None,
        smtp_tls_insecure: None,
        enabled: None,
        reminder_to: None,
    }
}

fn no_filters() -> BatchFilters {
    BatchFilters {
        kind: None,
        status: None,
        category: None,
        party: None,
        q: None,
        account_id: None,
        created_after: None,
        created_before: None,
        deadline_after: None,
        deadline_before: None,
        since: None,
        before: None,
    }
}

fn query() -> ItemQuery {
    ItemQuery {
        kind: None,
        status: None,
        category: None,
        party: None,
        q: None,
        account_id: None,
        created_after: None,
        created_before: None,
        deadline_after: None,
        deadline_before: None,
        limit: None,
    }
}

fn why<T>(r: Result<T, ApiError>) -> (u16, String) {
    match r {
        Ok(_) => (200, String::new()),
        Err(ApiError(s, m)) => (s, m),
    }
}

#[test]
fn answers_are_wrapped() {
    let r = Resp::ok(3);
    assert_eq!((r.code, r.message.as_str(), r.data), (0, "ok", 3));
    let e = no_such_item(4).to_resp();
    assert_eq!((e.code, e.message.as_str()), (404, "事项 4 不存在"));
    assert!(matches!(e.data, Json::Null));
}

#[test]
fn the_token_guards() {
    assert!(check_token("", None).is_ok());
    assert!(check_token(" tok ", Some("Bearer tok")).is_ok());
    assert_eq!(why(check_token("tok", None)).0, 401);
    assert_eq!(why(check_token("tok", Some("Bearer x"))).1, "未授权：缺少或错误的 Bearer token");
}

#[test]
fn secrets_are_not_shown() {
    let c = config_json(&cfg(), &vec![], &vec![account(1, true, true)]);
    let shown = format!("{c:?}");
    for secret in ["sk-1", "secret-1", "secret-2", "\"tok\""] {
        assert!(!shown.contains(secret), "{secret}");
    }
    assert!(c.bool_at("auth_enabled", false));
    let a = account(1, true, true).public_json();
    assert_eq!(a.text_at("imap_password").as_deref(), Some("***"));
    let h = health_json(&cfg(), "0.1.0");
    assert_eq!(h.text_at("timezone").as_deref(), Some("Asia/Shanghai"));
}

#[test]
fn queries_for_items() {
    let f = item_filter_from_query(&query()).unwrap();
    assert_eq!(f.limit, 500);
    let q = ItemQuery { kind: Some("x".into()), ..query() };
    assert_eq!(why(item_filter_from_query(&q)), (400, "非法 kind: x".to_string()));
    let q = ItemQuery { status: Some("x".into()), ..query() };
    assert_eq!(why(item_filter_from_query(&q)), (400, "非法 status: x".to_string()));
    let q = ItemQuery { deadline_before: Some("x".into()), ..query() };
    assert_eq!(
        why(item_filter_from_query(&q)),
        (400, "deadline_before 需要 RFC3339 格式".to_string())
    );
    let q = ItemQuery { status: Some("silent".into()), limit: Some(3), ..query() };
    let f = item_filter_from_query(&q).unwrap();
    assert_eq!((f.status, f.limit), (Some(ItemStatus::Silent), 3));
}

#[test]
fn items_that_a_user_writes() {
    let it = build_item(&payload("", Some("2027-09-10T14:00:00+08:00")), 3, &cfg(), NOW).unwrap();
    assert_eq!(it.kind, ItemKind::Todo);
    assert_eq!(it.event, "标题");
    assert_eq!(it.category, "todo");
    assert_eq!(it.remind_policy, remind_policy::NORMAL);
    assert_eq!(it.remind_at.as_deref(), Some("2027-09-09T01:00:00+00:00"));
    assert!(!it.needs_review);
    let it = build_item(&payload("todo", Some("  ")), 3, &cfg(), NOW).unwrap();
    assert!(it.needs_review);
    assert_eq!(it.deadline, None);
    let it = build_item(&payload("notification", None), 3, &cfg(), NOW).unwrap();
    assert!(!it.needs_review);
    assert_eq!(why(build_item(&payload("x", None), 3, &cfg(), NOW)), (400, "非法 kind: x".into()));
    assert_eq!(why(build_item(&payload("", Some("soon")), 3, &cfg(), NOW)).0, 400);
}

#[test]
fn items_that_a_user_rewrites() {
    let it = update_item(&payload("", None), &item(ItemStatus::Silent), &cfg(), NOW).unwrap();
    assert_eq!((it.id, it.account_id, it.source_email_id), (5, 3, Some(7)));
    assert_eq!(it.status, ItemStatus::Silent);
    assert_eq!(it.created_at, "2027-08-01T00:00:00+00:00");
    assert_eq!(it.updated_at, NOW);
    assert_eq!(it.deadline, None);
    assert_eq!(it.remind_at, None);
    assert!(!it.needs_review);
}

#[test]
fn requests_for_many_things() {
    let p = |ids: Option<Vec<i64>>, filters, action: &str, category: Option<&str>| BatchPayload {
        ids,
        filters,
        action: action.to_string(),
        category: category.map(|c| c.to_string()),
    };
    assert!(matches!(
        batch_ids_items(&p(Some(vec![1, 2]), None, "delete", None)),
        Ok(Targets::Named(v)) if v == vec![1, 2]
    ));
    assert_eq!(
        why(batch_ids_items(&p(Some(vec![]), None, "delete", None))),
        (400, "批量操作需要 ids 或 filters".to_string())
    );
    assert!(matches!(
        batch_ids_items(&p(None, Some(no_filters()), "delete", None)),
        Ok(Targets::Matching(f)) if f.limit == 10000
    ));
    assert!(matches!(
        batch_ids_emails(&p(None, Some(no_filters()), "delete", None)),
        Ok(Targets::Matching(f)) if f.limit == 10000
    ));
    assert_eq!(
        batch_item_action(&p(None, None, "silent", None)).unwrap(),
        ItemAction::Mark(ItemStatus::Silent)
    );
    assert_eq!(batch_item_action(&p(None, None, "delete", None)).unwrap(), ItemAction::Delete);
    assert_eq!(
        why(batch_item_action(&p(None, None, "x", None))).1,
        "非法 action: x（complete/silent/activate/delete）"
    );
    assert!(matches!(
        batch_email_action(&p(None, None, "reclassify", Some(" misc "))),
        Ok(EmailAction::Reclassify(c)) if c == "misc"
    ));
    assert_eq!(
        why(batch_email_action(&p(None, None, "reclassify", None))).1,
        "reclassify 需要 category"
    );
    assert_eq!(why(batch_email_action(&p(None, None, "x", None))).1, "非法 action: x（reclassify/delete）");
}

#[test]
fn queries_for_mail() {
    let q = EmailQuery {
        category: None,
        q: None,
        since: Some("yesterday".into()),
        before: None,
        account_id: None,
        label: None,
        limit: None,
    };
    assert_eq!(why(email_filter_from_query(&q)), (400, "since 需要 RFC3339 格式".to_string()));
    let q = EmailQuery { since: None, label: Some("correct".into()), ..q };
    let f = email_filter_from_query(&q).unwrap();
    assert_eq!((f.limit, f.label.as_deref()), (500, Some("correct")));
}

#[test]
fn labels_have_their_length() {
    let p = |label: &str, note: &str| EmailLabelPayload { label: label.into(), note: note.into() };
    assert_eq!(
        checked_label(&p(" correct ", " 好 ")).unwrap(),
        ("correct".to_string(), "好".to_string())
    );
    assert_eq!(why(checked_label(&p(&"标".repeat(33), ""))).1, "label 过长（最多 32 字符）");
    assert_eq!(why(checked_label(&p("", &"注".repeat(501)))).1, "note 过长（最多 500 字符）");
    assert!(checked_label(&p(&"标".repeat(32), &"注".repeat(500))).is_ok());
}

fn category(id: &str, kind: &str) -> Option<CategoryInfo> {
    Some(CategoryInfo {
        id: id.into(),
        label: id.into(),
        create_item: true,
        kind: kind.into(),
        source: "builtin".into(),
        created_at: NOW.into(),
    })
}

#[test]
fn mail_given_another_category() {
    let p = ReclassifyPayload { category: " notification ".into() };
    assert_eq!(checked_category(&p).unwrap(), "notification");
    assert_eq!(why(checked_category(&ReclassifyPayload { category: " ".into() })).0, 400);
    let it = Some(item(ItemStatus::Active));
    assert_eq!(
        reclassify(&category("notification", "notification"), "notification", &it),
        Reclassified::Revoke(5)
    );
    assert_eq!(
        reclassify(&category("interview", "todo"), "interview", &it),
        Reclassified::Extract
    );
    let mut note = item(ItemStatus::Active);
    note.kind = ItemKind::Notification;
    assert_eq!(reclassify(&None, "misc", &Some(note)), Reclassified::Nothing);
    assert_eq!(reclassify(&None, "misc", &None), Reclassified::Nothing);
}

#[test]
fn an_item_made_anew_keeps_its_place() {
    let email = EmailRecord {
        id: 7,
        uid: None,
        message_id: "m".into(),
        subject: "笔试邀请".into(),
        from_addr: "hr@acme.com".into(),
        from_name: String::new(),
        body_text: "请在48小时内完成作答。".into(),
        category: "misc".into(),
        sent_at: NOW.into(),
        received_at: NOW.into(),
        item_id: Some(5),
        reply_to_item_id: None,
        account_id: 3,
        handled: false,
        user_label: String::new(),
        user_note: String::new(),
    };
    let ex = TodoExtract { category: Some("x".into()), ..Default::default() };
    let it = reclassified_item(&ex, &email, 7, "written_test", &cfg(), &now(), NOW);
    assert_eq!(it.id, 5);
    assert_eq!(it.category, "written_test");
    assert_eq!(it.deadline.as_deref(), Some("2027-09-03T02:00:00+00:00"));
}

#[test]
fn from_when_on_mail_is_fetched() {
    let p = |range: Option<&str>, since: Option<&str>| FetchPayload {
        account_id: None,
        since: since.map(|s| s.to_string()),
        range: range.map(|s| s.to_string()),
        limit: None,
    };
    let tz = cfg().timezone;
    let t = fetch_since(&p(Some("3d"), None), &tz, &now()).unwrap().unwrap();
    assert_eq!(t.to_rfc3339().as_deref(), Some("2027-08-29T02:00:00+00:00"));
    let t = fetch_since(&p(None, Some("2027-08-30")), &tz, &now()).unwrap().unwrap();
    assert_eq!(t.to_rfc3339().as_deref(), Some("2027-08-30T00:00:00+08:00"));
    let t = fetch_since(&p(None, Some("2027-08-30T01:02:03+00:00")), &tz, &now()).unwrap();
    assert_eq!(t, Stamp::parse("2027-08-30T01:02:03+00:00"));
    assert_eq!(fetch_since(&p(None, Some(" ")), &tz, &now()).unwrap(), None);
    assert_eq!(
        why(fetch_since(&p(Some("4d"), None), &tz, &now())).1,
        "非法 range: 4d（3d/7d/15d/30d）"
    );
    assert_eq!(
        why(fetch_since(&p(None, Some("soon")), &tz, &now())).1,
        "since 需要 RFC3339 或 YYYY-MM-DD 格式"
    );
    // Clocks in Santiago skip midnight on this day.
    let santiago = Zone::new("America/Santiago").unwrap();
    assert_eq!(
        why(fetch_since(&p(None, Some("2027-09-05")), &santiago, &now())).1,
        "since 时区转换失败"
    );
}

#[test]
fn the_account_to_fetch_from() {
    let all = vec![account(1, false, false), account(2, false, true), account(3, true, true)];
    assert_eq!(fetch_account(&all, Some(2)).unwrap(), 1);
    assert_eq!(fetch_account(&all, None).unwrap(), 2);
    assert_eq!(fetch_account(&all[..2].to_vec(), None).unwrap(), 1);
    assert_eq!(why(fetch_account(&all, Some(9))), (404, "账户 9 不存在".to_string()));
    assert_eq!(why(fetch_account(&vec![], None)).0, 400);
}

#[test]
fn accounts_that_a_user_writes() {
    let blank = || Some(" ".to_string());
    let p = AccountPayload { address: blank(), ..nothing_written() };
    assert_eq!(why(validate_account_payload(&p, false)).1, "邮箱地址不能为空");
    let p = AccountPayload { imap_host: blank(), ..nothing_written() };
    assert_eq!(why(validate_account_payload(&p, false)).1, "IMAP 服务器不能为空");
    let p = AccountPayload { smtp_host: blank(), ..nothing_written() };
    assert_eq!(why(validate_account_payload(&p, false)).1, "SMTP 服务器不能为空");
    assert!(validate_account_payload(&nothing_written(), false).is_ok());
    assert_eq!(
        why(validate_account_payload(&nothing_written(), true)).1,
        "新建账户需要填写 IMAP/SMTP 密码"
    );
    let a = new_account(&nothing_written(), NOW);
    assert_eq!((a.label.as_str(), a.imap_port, a.smtp_port), ("邮箱账户", 993, 465));
    assert!(a.enabled && !a.is_default);
}

#[test]
fn accounts_that_a_user_rewrites() {
    let a = account(1, true, true);
    let p = AccountPayload {
        imap_password: Some("***".into()),
        smtp_password: Some("new".into()),
        enabled: Some(false),
        label: Some("x".into()),
        ..nothing_written()
    };
    let b = update_account(&a, &p, NOW);
    assert_eq!(b.imap_password, "secret-1");
    assert_eq!(b.smtp_password, "new");
    assert!(!b.enabled);
    assert_eq!((b.label.as_str(), b.updated_at.as_str(), b.created_at.as_str()), ("x", NOW, "c"));
    let d = draft_account(&a, &p);
    assert!(d.enabled);
    assert_eq!(d.updated_at, "u");
}

#[test]
fn one_account_stays() {
    let one = vec![account(1, true, true)];
    assert_eq!(why(delete_account(&one, 1)), (400, "至少保留一个邮箱账户".to_string()));
    let two = vec![account(1, true, true), account(2, false, true)];
    assert_eq!(delete_account(&two, 1).unwrap(), Some(2));
    assert_eq!(delete_account(&two, 2).unwrap(), None);
    assert_eq!(why(delete_account(&two, 3)).0, 404);
}

#[test]
fn categories_that_a_user_writes() {
    let p = |id: &str, label: &str, kind: &str| CategoryPayload {
        id: id.into(),
        label: label.into(),
        create_item: true,
        kind: kind.into(),
    };
    let c = create_category(&p(" online_test ", " 线上 ", "todo")).unwrap();
    assert_eq!((c.id.as_str(), c.label.as_str()), ("online_test", "线上"));
    assert_eq!(why(create_category(&p("线上", "x", "todo"))).1, "id 需为 1-32 位小写字母/数字/下划线/连字符");
    assert_eq!(why(create_category(&p("a", " ", "todo"))).1, "label 不能为空");
    assert_eq!(why(create_category(&p("a", "x", "y"))).1, "kind 只能为 todo 或 notification");
}

#[test]
fn requests_of_the_agent() {
    let a = |status: &str| {
        Some(Approval {
            id: 4,
            tool_name: "delete_item".into(),
            payload_json: "{}".into(),
            summary: "s".into(),
            status: status.into(),
            source_email_id: None,
            decided_at: None,
            created_at: NOW.into(),
        })
    };
    assert!(check_pending(&a("pending"), 4).is_ok());
    assert_eq!(why(check_pending(&a("approved"), 4)), (400, "审批单 4 已处理（approved）".into()));
    assert_eq!(why(check_pending(&None, 4)), (404, "审批单 4 不存在".into()));
    assert_eq!((decided_status(true), decided_status(false)), ("approved", "rejected"));
    assert!(check_pending(&a(decided_status(true)), 4).is_err());
    let told = approved_json(4, "delete_item", &ToolResult::err("not_found", "gone"));
    assert!(!told.bool_at("approved", true));
    assert_eq!(
        told.text_at("reason").as_deref(),
        Some(r#"{"error_code":"not_found","message":"gone","ok":false}"#)
    );
    let told = approved_json(4, "delete_item", &ToolResult::ok_content(Json::Null));
    assert!(told.bool_at("approved", false));
    assert!(told.get("reason").is_none());
    let q = ApprovalQuery { status: Some("x".into()), limit: None };
    assert_eq!(why(approvals_wanted(&q)).1, "非法 status: x");
    let q = ApprovalQuery { status: None, limit: None };
    assert_eq!(approvals_wanted(&q).unwrap(), (None, 200));
}

#[test]
fn a_reminder_at_once() {
    let remind = |it: Option<Item>, stored: Option<CategoryInfo>| {
        remind_now(&it, 5, &stored, &cfg(), &now(), NOW)
    };
    let log = remind(Some(item(ItemStatus::Active)), None).unwrap();
    assert_eq!(log.subject, "【面试/字节跳动/技术面试/0910】");
    assert_eq!(log.kind, "manual");
    assert_eq!(log.scheduled_at, NOW);
    let mut late = item(ItemStatus::Active);
    late.deadline = Some("2027-09-10T20:00:00+00:00".into());
    assert_eq!(remind(Some(late), None).unwrap().subject, "【面试/字节跳动/技术面试/0911】");
    let mut open = item(ItemStatus::Active);
    open.deadline = None;
    assert_eq!(remind(Some(open), None).unwrap().subject, "【面试/字节跳动/技术面试/0901】");
    let mut made = item(ItemStatus::Active);
    made.category = "online_test".into();
    let stored = CategoryInfo {
        id: "online_test".into(),
        label: "线上测评".into(),
        create_item: true,
        kind: "todo".into(),
        source: "llm".into(),
        created_at: NOW.into(),
    };
    let log = remind(Some(made), Some(stored)).unwrap();
    assert_eq!(log.subject, "【线上测评/字节跳动/技术面试/0910】");
    assert_eq!(
        why(remind(Some(item(ItemStatus::Silent)), None)).1,
        "事项非 active 状态，不发送提醒"
    );
    assert_eq!(why(remind(None, None)).0, 404);
    let q = LogQuery { item_id: None, status: Some("failed".into()), limit: Some(9) };
    assert_eq!(logs_wanted(&q).unwrap(), (Some(SendStatus::Failed), 9));
    let q = LogQuery { item_id: None, status: Some("x".into()), limit: None };
    assert_eq!(why(logs_wanted(&q)).0, 400);
}

#[test]
fn answers_as_they_are_sent() {
    let told = Resp::ok(Json::Arr(vec![Json::Int(1)])).to_text();
    assert_eq!(told, r#"{"code":0,"data":[1],"message":"ok"}"#);
    let told = ApiError(404, "没有".into()).to_resp().to_text();
    assert_eq!(told, r#"{"code":404,"data":null,"message":"没有"}"#);
}
