use mail2::config::AgentConfig;
use mail2::config::AppConfig;
use mail2::config::HhmmError;
use mail2::config::LlmConfig;
use mail2::config::MailConfig;
use mail2::config::ReminderConfig;
use mail2::model::Item;
use mail2::model::ItemKind;
use mail2::model::ItemStatus;
use mail2::model::remind_policy;
use mail2::model::SendStatus;
use mail2::notifier::clamp_event;
use mail2::notifier::compute_hours_before;
use mail2::notifier::compute_remind_at;
use mail2::notifier::deadline_mmdd;
use mail2::notifier::decide_remind_policy;
use mail2::notifier::format_subject;
use mail2::notifier::message_id_of;
use mail2::notifier::mmdd;
use mail2::notifier::new_reminder;
use mail2::notifier::reminder_body;
use mail2::notifier::reminder_times;
use mail2::notifier::RemindError;
use mail2::notifier::sanitize_segment;
use mail2::notifier::settle;
use mail2::time::Stamp;
use mail2::time::Zone;

fn shanghai() -> Zone {
    Zone::new("Asia/Shanghai").unwrap()
}

fn test_cfg() -> AppConfig {
    AppConfig {
        listen: "127.0.0.1:0".into(),
        auth_token: String::new(),
        data_dir: "/tmp".into(),
        mail_db: Some("/tmp/mail.db".into()),
        todo_db: Some("/tmp/todo.db".into()),
        timezone: shanghai(),
        poll_interval_secs: 60,
        reminder: ReminderConfig {
            to: "me@example.com".into(),
            days_before: 1,
            lead_time: "09:00".into(),
            webhook_url: String::new(),
        },
        check_times: vec!["06:00".into()],
        mail: MailConfig::default(),
        llm: LlmConfig {
            api_key: "k".into(),
            base_url: "http://127.0.0.1:1".into(),
            model: "mock".into(),
            timeout_secs: 5,
            categories: vec![],
            agent: AgentConfig::default(),
        },
    }
}

fn mk_item(policy: &str, deadline: Option<&str>) -> Item {
    Item {
        id: 1,
        kind: ItemKind::Todo,
        title: "t".into(),
        party: "某公司".into(),
        event: "在线笔试".into(),
        category: "written_test".into(),
        deadline: deadline.map(|d| d.to_string()),
        remind_at: None,
        remind_policy: policy.to_string(),
        needs_review: false,
        status: ItemStatus::Active,
        source_email_id: None,
        account_id: 1,
        notes: String::new(),
        created_at: "2027-09-01T00:00:00+00:00".into(),
        updated_at: String::new(),
    }
}

#[test]
fn subject_format() {
    let s = format_subject("事务预约/待办", "字节跳动", "技术面试", "0910");
    assert_eq!(s, "【事务预约/待办/字节跳动/技术面试/0910】");
}

#[test]
fn subject_format_sanitizes() {
    let s = format_subject("事务预约/待办", "A/B 公司", "面/试", "0818");
    assert_eq!(s, "【事务预约/待办/A B 公司/面 试/0818】");
}

#[test]
fn mmdd_format() {
    let dt = Stamp::parse("2027-08-18T02:00:00Z").unwrap();
    assert_eq!(mmdd(&dt, &shanghai()), "0818");
}

#[test]
fn reminder_times_by_policy() {
    let cfg = test_cfg();
    let t = reminder_times(&mk_item("normal", Some("2027-09-10T14:00:00+08:00")), &cfg);
    assert_eq!(t, vec!["2027-09-09T01:00:00+00:00".to_string()]);
    for policy in ["urgent", "link_expiry"] {
        let t = reminder_times(&mk_item(policy, Some("2027-09-10T14:00:00+08:00")), &cfg);
        assert_eq!(t.len(), 2, "{policy}");
        assert_eq!(t[0], "2027-09-01T00:00:00+00:00");
        assert_eq!(t[1], "2027-09-10T04:00:00+00:00");
    }
    assert!(reminder_times(&mk_item("normal", None), &cfg).is_empty());
}

#[test]
fn decide_remind_policy_levels() {
    let now = "2027-09-01T00:00:00+00:00";
    assert_eq!(
        decide_remind_policy(Some("2027-09-01T10:00:00+00:00"), false, now),
        remind_policy::URGENT
    );
    assert_eq!(
        decide_remind_policy(Some("2027-09-10T10:00:00+00:00"), false, now),
        remind_policy::NORMAL
    );
    assert_eq!(
        decide_remind_policy(Some("2027-09-10T10:00:00+00:00"), true, now),
        remind_policy::LINK_EXPIRY
    );
    assert_eq!(decide_remind_policy(None, false, now), remind_policy::NORMAL);
}

#[test]
fn compute_remind_at_one_day_before() {
    let r = compute_remind_at("2027-09-10T14:00:00+08:00", 1, "09:00", &shanghai()).unwrap();
    assert_eq!(r, "2027-09-09T01:00:00+00:00");
}

#[test]
fn clamp_event_len() {
    assert_eq!(clamp_event("一二三四五六七八九十十一"), "一二三四五六七八九十");
}

#[test]
fn reminder_body_contains_reply_hints() {
    let item = Item {
        id: 1,
        kind: ItemKind::Todo,
        title: "t".into(),
        party: "字节跳动".into(),
        event: "技术面试".into(),
        category: "todo".into(),
        deadline: Some("2027-09-10T14:00:00+08:00".into()),
        remind_at: None,
        remind_policy: String::new(),
        needs_review: false,
        status: ItemStatus::Active,
        source_email_id: None,
        account_id: 1,
        notes: String::new(),
        created_at: String::new(),
        updated_at: String::new(),
    };
    let b = reminder_body(&item, "2027-09-10 14:00 (+08:00)".into());
    assert!(b.contains("【已完成】"));
    assert!(b.contains("【不再提醒】"));
}

#[test]
fn segments_are_clean_and_stay_so() {
    let once = sanitize_segment(" a/b\n【c】  d ");
    assert!(!once.contains('/'));
    assert!(!once.contains('\n'));
    assert_eq!(sanitize_segment(&once), once);
}

#[test]
fn reminders_ascend() {
    let t = reminder_times(&mk_item("urgent", Some("2027-09-01T01:00:00+00:00")), &test_cfg());
    for pair in t.windows(2) {
        assert!(!Stamp::parse(&pair[1]).unwrap().is_before(&Stamp::parse(&pair[0]).unwrap()));
    }
}

#[test]
fn remind_times_that_cannot_be_told() {
    assert_eq!(compute_remind_at("soon", 1, "09:00", &shanghai()), Err(RemindError::Deadline));
    assert_eq!(
        compute_remind_at("2027-09-10T14:00:00+08:00", 1, "9", &shanghai()),
        Err(RemindError::LeadTime(HhmmError::Shape))
    );
    assert_eq!(
        compute_remind_at("2027-09-10T14:00:00+08:00", i64::MAX, "09:00", &shanghai()),
        Err(RemindError::Calendar)
    );
    // Clocks in Berlin skip this time.
    let berlin = Zone::new("Europe/Berlin").unwrap();
    assert_eq!(
        compute_remind_at("2027-03-29T12:00:00+02:00", 1, "02:30", &berlin),
        Err(RemindError::Local)
    );
}

#[test]
fn two_hours_before() {
    assert_eq!(
        compute_hours_before("2027-09-10T14:00:00+08:00", 2, &shanghai()),
        Ok("2027-09-10T04:00:00+00:00".to_string())
    );
    assert_eq!(compute_hours_before("x", 2, &shanghai()), Err(RemindError::Deadline));
}

#[test]
fn a_new_reminder_waits() {
    let item = mk_item("normal", Some("2027-09-10T14:00:00+08:00"));
    let log = new_reminder(&item, &test_cfg(), "笔试", "2027-09-09T01:00:00+00:00");
    assert_eq!(log.subject, "【笔试/某公司/在线笔试/0910】");
    assert_eq!(log.to_addr, "me@example.com");
    assert_eq!(log.status, SendStatus::Pending);
    assert_eq!(log.scheduled_at, "2027-09-09T01:00:00+00:00");
    assert_eq!(log.attempt, 0);
}

#[test]
fn what_failed_is_tried_again_in_half_an_hour() {
    let now = Stamp::parse("2027-09-09T01:00:00+00:00").unwrap();
    let item = mk_item("normal", Some("2027-09-10T14:00:00+08:00"));
    let mut log = new_reminder(&item, &test_cfg(), "笔试", "2027-09-09T01:00:00+00:00");
    settle(&mut log, Some("refused".into()), message_id_of("1"), &now);
    assert_eq!(log.status, SendStatus::Failed);
    assert_eq!(log.error.as_deref(), Some("refused"));
    assert_eq!(log.next_retry_at.as_deref(), Some("2027-09-09T01:30:00+00:00"));
    settle(&mut log, None, message_id_of("2"), &now);
    assert_eq!(log.status, SendStatus::Sent);
    assert_eq!(log.message_id.as_deref(), Some("<mail2-2@mail2.local>"));
    assert_eq!(log.next_retry_at, None);
    assert_eq!(log.sent_at.as_deref(), Some("2027-09-09T01:00:00+00:00"));
}

#[test]
fn the_day_in_a_subject() {
    let cfg = test_cfg();
    let mut it = mk_item(remind_policy::NORMAL, Some("2027-09-10T14:00:00+08:00"));
    it.remind_at = Some("2027-09-09T01:00:00+00:00".into());
    assert_eq!(deadline_mmdd(&it, &cfg), "0910");
    it.deadline = Some("not-a-date".into());
    assert_eq!(deadline_mmdd(&it, &cfg), "0909");
    it.deadline = None;
    assert_eq!(deadline_mmdd(&it, &cfg), "0909");
    it.remind_at = None;
    assert_eq!(deadline_mmdd(&it, &cfg), "");
}

#[test]
fn a_leap_second_is_followed_by_the_next() {
    let now = Stamp::parse("2016-12-31T23:59:60.5+00:00").unwrap();
    let mut log = new_reminder(
        &mk_item(remind_policy::NORMAL, None),
        &test_cfg(),
        "面试",
        "2016-12-31T23:00:00+00:00",
    );
    settle(&mut log, Some("refused".into()), "m".into(), &now);
    let again = Stamp::parse(&log.next_retry_at.unwrap()).unwrap();
    assert_eq!(again, Stamp::parse("2017-01-01T00:29:59.5+00:00").unwrap());
}
