use mail2::config::CategoryDef;
use mail2::config::default_categories;
use mail2::config::Endpoint;
use mail2::config::MailConfig;
use mail2::db::EmailFilter;
use mail2::db::from_stored;
use mail2::db::has_category;
use mail2::db::is_log_due;
use mail2::db::ItemFilter;
use mail2::db::list_emails;
use mail2::db::list_emails_query;
use mail2::db::list_items;
use mail2::db::list_items_query;
use mail2::db::list_send_logs;
use mail2::db::mark_expired;
use mail2::db::now_str;
use mail2::db::received_at_query;
use mail2::db::row_kind;
use mail2::db::row_send_status;
use mail2::db::row_status;
use mail2::db::seed_categories;
use mail2::db::SqlValue;
use mail2::db::to_stored;
use mail2::db::upsert_category;
use mail2::model::CategoryInfo;
use mail2::model::EmailRecord;
use mail2::model::Item;
use mail2::model::ItemKind;
use mail2::model::ItemStatus;
use mail2::model::MailAccount;
use mail2::model::SendLog;
use mail2::model::SendStatus;
use mail2::time::Stamp;

fn mk_email(id: i64, mid: &str, sent: &str, recv: &str) -> EmailRecord {
    EmailRecord {
        id,
        uid: None,
        message_id: mid.into(),
        subject: mid.into(),
        from_addr: "a@b".into(),
        from_name: String::new(),
        body_text: String::new(),
        category: "misc".into(),
        sent_at: sent.into(),
        received_at: recv.into(),
        item_id: None,
        reply_to_item_id: None,
        account_id: 1,
        handled: false,
        user_label: String::new(),
        user_note: String::new(),
    }
}

fn mk_item(id: i64, title: &str, deadline: Option<&str>, source: Option<i64>, created: &str) -> Item {
    Item {
        id,
        kind: ItemKind::Todo,
        title: title.into(),
        party: String::new(),
        event: title.into(),
        category: "todo".into(),
        deadline: deadline.map(|s| s.to_string()),
        remind_at: None,
        remind_policy: String::new(),
        needs_review: false,
        status: ItemStatus::Active,
        source_email_id: source,
        account_id: 1,
        notes: String::new(),
        created_at: created.into(),
        updated_at: created.into(),
    }
}

fn mk_log(id: i64, status: SendStatus, scheduled_at: &str) -> SendLog {
    SendLog {
        id,
        item_id: 1,
        attempt: 1,
        kind: "reminder".into(),
        to_addr: "me@example.com".into(),
        subject: "s".into(),
        body: "b".into(),
        status,
        error: None,
        scheduled_at: scheduled_at.into(),
        sent_at: None,
        next_retry_at: None,
        message_id: None,
    }
}

#[test]
fn account_password_roundtrip_stays_verbatim() {
    let raw = "MDEyMzQ1Njc4OWFi";
    let a = MailAccount::from_config(&MailConfig {
        address: "u@example.com".into(),
        imap: Endpoint {
            host: "imap.example.com".into(),
            port: 993,
            user: "u@example.com".into(),
            password: raw.into(),
            tls_insecure: false,
        },
        smtp: Endpoint {
            host: "smtp.example.com".into(),
            port: 465,
            user: "u@example.com".into(),
            password: raw.into(),
            tls_insecure: false,
        },
    });
    let stored = to_stored(&a);
    assert_ne!(stored.imap_password, raw);
    assert_eq!(MailAccount::deobfuscate(&stored.imap_password), raw);

    let got = from_stored(&stored);
    assert_eq!(got.imap_password, raw);
    assert_eq!(got.imap_endpoint().password, raw);
    assert_eq!(got.smtp_endpoint().password, raw);

    let mut upd = got.clone();
    upd.imap_password = "newPass1234ABCD".into();
    let got2 = from_stored(&to_stored(&upd));
    assert_eq!(got2.imap_password, "newPass1234ABCD");
    assert_eq!(got2.imap_endpoint().password, "newPass1234ABCD");
}

#[test]
fn mark_expired_only_past_deadlines() {
    let now = now_str();
    let past = "2020-01-01T00:00:00+08:00";
    let future = "2099-01-01T00:00:00+08:00";
    let mut items = Vec::new();
    for (i, d) in [Some(past), Some(future), None].iter().enumerate() {
        items.push(mk_item(i as i64 + 1, &format!("t{i}"), *d, None, &now));
    }
    let n = mark_expired(&mut items, &now).unwrap();
    assert_eq!(n, 1);
    let expired = items.iter().filter(|i| i.status == ItemStatus::Expired).count();
    assert_eq!(expired, 1);
    assert_eq!(mark_expired(&mut items, &"no time".to_string()), None);
}

#[test]
fn emails_sorted_by_received_at_desc() {
    let mut ids = Vec::new();
    let mut stored = Vec::new();
    let rows = [
        ("2027-01-03T00:00:00+00:00", "2027-01-01T08:00:00+08:00"),
        ("2027-01-01T00:00:00+00:00", "2027-01-03T08:00:00+08:00"),
        ("2027-01-02T00:00:00+00:00", "2027-01-02T08:00:00+08:00"),
    ];
    for (i, (sent, recv)) in rows.iter().enumerate() {
        ids.push(i as i64 + 1);
        stored.push(mk_email(i as i64 + 1, &format!("m{i}"), sent, recv));
    }
    let list = list_emails(&stored, &EmailFilter { limit: 10, ..Default::default() });
    assert_eq!(list[0].received_at, "2027-01-03T08:00:00+08:00");
    assert_eq!(list[1].received_at, "2027-01-02T08:00:00+08:00");
    assert_eq!(list[2].received_at, "2027-01-01T08:00:00+08:00");
    assert_eq!(list[0].id, ids[1]);
}

#[test]
fn items_sorted_by_email_received_at() {
    let received = vec![
        (1, "2027-01-01T08:00:00+08:00".to_string()),
        (2, "2027-01-03T08:00:00+08:00".to_string()),
    ];
    let stored = vec![
        mk_item(1, "手动事项", None, None, "2027-01-02T08:00:00+08:00"),
        mk_item(2, "邮件1事项", None, Some(1), "2027-01-05T08:00:00+08:00"),
        mk_item(3, "邮件2事项", None, Some(2), "2027-01-05T08:00:00+08:00"),
    ];
    let list = list_items(&stored, &ItemFilter { limit: 10, ..Default::default() }, &received);
    let titles: Vec<&str> = list.iter().map(|i| i.title.as_str()).collect();
    assert_eq!(titles, vec!["邮件2事项", "手动事项", "邮件1事项"]);
}

#[test]
fn upsert_category_once() {
    let mut list: Vec<CategoryInfo> = Vec::new();
    let now = "2027-01-01T00:00:00+00:00";
    assert!(upsert_category(&mut list, "online_test", "线上测评", true, "todo", "llm", now));
    assert!(!upsert_category(&mut list, "online_test", "线上测评", true, "todo", "llm", now));
    let c = list.iter().find(|c| c.id == "online_test").unwrap();
    assert_eq!(c.kind, "todo");
    assert_eq!(c.source, "llm");
}

#[test]
fn seed_defaults_always_inserts_configured_categories() {
    let mut list: Vec<CategoryInfo> = Vec::new();
    let now = "2027-01-01T00:00:00+00:00";
    upsert_category(&mut list, "career_promo", "招聘推广", false, "notification", "builtin", now);
    seed_categories(&mut list, &default_categories(), now);
    for id in ["todo", "interview", "assessment", "written_test", "notification", "misc"] {
        assert!(has_category(&list, id), "{id}");
    }
    assert_eq!(list.iter().filter(|c| c.id == "career_promo").count(), 1);
}

#[test]
fn ranges_of_time_are_kept_to() {
    let rows = vec![
        mk_email(1, "a", "2027-01-01T00:00:00+00:00", "2027-01-01T08:00:00+08:00"),
        mk_email(2, "b", "2027-01-02T00:00:00+00:00", "2027-01-02T08:00:00+08:00"),
        mk_email(3, "c", "2027-01-03T00:00:00+00:00", "2027-01-03T08:00:00+08:00"),
    ];
    let f = EmailFilter {
        since: Some("2027-01-01T12:00:00+00:00".into()),
        before: Some("2027-01-02T12:00:00+00:00".into()),
        limit: 10,
        ..Default::default()
    };
    let ids: Vec<i64> = list_emails(&rows, &f).iter().map(|e| e.id).collect();
    assert_eq!(ids, vec![2]);
}

#[test]
fn reminders_that_wait() {
    let now = Stamp::parse("2027-01-02T12:00:00+00:00").unwrap();
    let at = "2027-01-01T00:00:00+00:00";
    assert!(!is_log_due(&mk_log(1, SendStatus::Sent, at), &now));
    assert!(is_log_due(&mk_log(2, SendStatus::Pending, at), &now));
    let mut failed = mk_log(3, SendStatus::Failed, at);
    assert!(!is_log_due(&failed, &now));
    failed.next_retry_at = Some("2027-01-02T12:30:00+00:00".into());
    assert!(!is_log_due(&failed, &now));
    failed.next_retry_at = Some("2027-01-02T12:00:00+00:00".into());
    assert!(is_log_due(&failed, &now));
}

#[test]
fn reminders_come_latest_first() {
    let rows = vec![
        mk_log(1, SendStatus::Sent, "2027-01-01T00:00:00+00:00"),
        mk_log(2, SendStatus::Sent, "2027-01-03T00:00:00+00:00"),
        mk_log(3, SendStatus::Sent, "2027-01-02T00:00:00+00:00"),
    ];
    let ids: Vec<i64> = list_send_logs(&rows).iter().map(|l| l.id).collect();
    assert_eq!(ids, vec![2, 3, 1]);
}

#[test]
fn queries_have_a_value_for_every_place() {
    let f = ItemFilter {
        kind: Some(ItemKind::Todo),
        status: Some(ItemStatus::Active),
        category: Some("interview".into()),
        q: Some("x".into()),
        limit: 5,
        ..Default::default()
    };
    let q = list_items_query(&f);
    assert_eq!(q.sql.matches('?').count(), q.values.len());
    assert!(q.values.iter().any(|v| matches!(v, SqlValue::Text(t) if t == "interview")));
    let q = list_emails_query(&EmailFilter { label: Some("__none__".into()), limit: 5, ..Default::default() });
    assert_eq!(q.sql.matches('?').count(), q.values.len());
    assert!(received_at_query(&vec![mk_item(1, "t", None, None, "")]).is_none());
    let q = received_at_query(&vec![mk_item(1, "t", None, Some(7), "")]).unwrap();
    assert_eq!(q.sql.matches('?').count(), 1);
}

#[test]
fn names_in_rows() {
    assert_eq!(row_kind("notification"), ItemKind::Notification);
    assert_eq!(row_kind("?"), ItemKind::Todo);
    assert_eq!(row_status("silent"), ItemStatus::Silent);
    assert_eq!(row_status("?"), ItemStatus::Active);
    assert_eq!(row_send_status("failed"), SendStatus::Failed);
    assert_eq!(row_send_status("?"), SendStatus::Pending);
    for k in [ItemStatus::Active, ItemStatus::Completed, ItemStatus::Silent, ItemStatus::Expired] {
        assert_eq!(ItemStatus::parse(k.as_str()), Some(k));
    }
}

#[test]
fn the_first_of_two_configured_categories_counts() {
    let def = |id: &str, label: &str| CategoryDef {
        id: id.into(),
        label: label.into(),
        create_item: false,
    };
    let mut list: Vec<CategoryInfo> = Vec::new();
    let now = "2027-01-01T00:00:00+00:00";
    upsert_category(&mut list, "kept", "旧", false, "notification", "user", now);
    let configured = vec![def("b", "一"), def("kept", "新"), def("a", "二"), def("b", "三")];
    seed_categories(&mut list, &configured, now);
    let told: Vec<(&str, &str)> =
        list.iter().map(|c| (c.id.as_str(), c.label.as_str())).collect();
    assert_eq!(told, vec![("kept", "旧"), ("b", "一"), ("a", "二")]);
}

#[test]
fn mail_without_a_label() {
    let ask = |label: Option<&str>| {
        let f = EmailFilter { label: label.map(String::from), limit: 5, ..Default::default() };
        list_emails_query(&f).sql
    };
    assert!(ask(Some("")).contains(" AND user_label=''"));
    assert_eq!(ask(Some("")), ask(Some("__none__")));
    assert!(ask(Some("correct")).contains(" AND user_label=?"));
    assert!(!ask(None).contains(" AND user_label"));
}
