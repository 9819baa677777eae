use mail2::checker::check_due;
use mail2::checker::check_item;
use mail2::checker::DueStep;
use mail2::checker::pushes;
use mail2::checker::report_of;
use mail2::config::AgentConfig;
use mail2::config::AppConfig;
use mail2::config::LlmConfig;
use mail2::config::MailConfig;
use mail2::config::ReminderConfig;
use mail2::db::is_log_due;
use mail2::model::Item;
use mail2::model::ItemKind;
use mail2::model::ItemStatus;
use mail2::model::SendLog;
use mail2::model::SendStatus;
use mail2::notifier::settle;
use mail2::scheduler::check_mark_of;
use mail2::scheduler::due_check;
use mail2::scheduler::fires;
use mail2::time::Stamp;
use mail2::time::Zone;

fn cfg() -> AppConfig {
    AppConfig {
        listen: "127.0.0.1:0".into(),
        auth_token: String::new(),
        data_dir: "/tmp".into(),
        mail_db: None,
        todo_db: None,
        timezone: Zone::new("Asia/Shanghai").unwrap(),
        poll_interval_secs: 60,
        reminder: ReminderConfig {
            to: "me@example.com".into(),
            days_before: 1,
            lead_time: "09:00".into(),
            webhook_url: String::new(),
        },
        check_times: vec!["06:00".into()],
        mail: MailConfig::default(),
        llm: LlmConfig {
            api_key: "k".into(),
            base_url: "http://127.0.0.1:1".into(),
            model: "mock".into(),
            timeout_secs: 5,
            categories: vec![],
            agent: AgentConfig::default(),
        },
    }
}

fn item(policy: &str, status: ItemStatus) -> Item {
    Item {
        id: 1,
        kind: ItemKind::Todo,
        title: "t".into(),
        party: "曦望".into(),
        event: "在线笔试".into(),
        category: "written_test".into(),
        deadline: Some("2027-09-02T02:00:00+00:00".into()),
        remind_at: None,
        remind_policy: policy.into(),
        needs_review: false,
        status,
        source_email_id: None,
        account_id: 1,
        notes: String::new(),
        created_at: "2027-09-01T02:00:00+00:00".into(),
        updated_at: String::new(),
    }
}

fn check(it: &Item, logs: &Vec<SendLog>, now: &str) -> Option<(SendLog, bool)> {
    check_item(it, logs, &cfg(), "笔试", &Stamp::parse(now).unwrap(), now)
}

#[test]
fn an_urgent_item_is_reminded_of_twice() {
    let it = item("urgent", ItemStatus::Active);
    let mut logs = Vec::new();
    let (mut first, new) = check(&it, &logs, "2027-09-01T02:00:00+00:00").unwrap();
    assert!(new);
    assert_eq!(first.attempt, 1);
    assert_eq!(first.scheduled_at, "2027-09-01T02:00:00+00:00");
    assert_eq!(first.subject, "【笔试/曦望/在线笔试/0902】");
    first.id = 1;
    first.status = SendStatus::Sent;
    first.sent_at = Some("2027-09-01T02:00:00+00:00".into());
    logs.push(first);
    assert!(check(&it, &logs, "2027-09-01T12:00:00+00:00").is_none());
    let (second, new) = check(&it, &logs, "2027-09-02T00:00:00+00:00").unwrap();
    assert!(new);
    assert_eq!(second.scheduled_at, "2027-09-02T00:00:00+00:00");
}

#[test]
fn what_failed_rests_before_the_next_try() {
    let it = item("urgent", ItemStatus::Active);
    let (mut log, _) = check(&it, &vec![], "2027-09-01T02:00:00+00:00").unwrap();
    log.id = 4;
    log.status = SendStatus::Failed;
    log.next_retry_at = Some("2027-09-01T02:30:00+00:00".into());
    let logs = vec![log];
    assert!(check(&it, &logs, "2027-09-01T02:10:00+00:00").is_none());
    let (again, new) = check(&it, &logs, "2027-09-01T02:30:00+00:00").unwrap();
    assert!(!new);
    assert_eq!(again.id, 4);
    assert_eq!(again.attempt, 2);
}

#[test]
fn done_silent_and_past_items_are_let_be() {
    let now = "2027-09-01T03:00:00+00:00";
    for s in [ItemStatus::Completed, ItemStatus::Silent, ItemStatus::Expired] {
        assert!(check(&item("urgent", s), &vec![], now).is_none());
    }
    assert!(check(&item("urgent", ItemStatus::Active), &vec![], "2027-09-03T00:00:00+00:00").is_none());
    let mut it = item("urgent", ItemStatus::Active);
    it.deadline = None;
    assert!(check(&it, &vec![], now).is_none());
}

#[test]
fn a_missed_reminder_is_made_up_for() {
    let mut it = item("normal", ItemStatus::Active);
    it.deadline = Some("2027-09-10T14:00:00+08:00".into());
    assert!(check(&it, &vec![], "2027-09-09T00:59:00+00:00").is_none());
    assert!(check(&it, &vec![], "2027-09-09T05:00:00+00:00").is_some());
}

#[test]
fn records_that_wait() {
    let now = Stamp::parse("2027-09-01T03:00:00+00:00").unwrap();
    let text = "2027-09-01T03:00:00+00:00";
    let it = item("urgent", ItemStatus::Active);
    let (log, _) = check(&it, &vec![], text).unwrap();
    let done = item("urgent", ItemStatus::Completed);
    match check_due(&log, &Some(done), &vec![], &cfg(), &now, text) {
        DueStep::Cancel(l) => {
            assert_eq!(l.status, SendStatus::Failed);
            assert_eq!(l.error.as_deref(), Some("事项状态为 completed，取消发送"));
        }
        _ => panic!(),
    }
    match check_due(&log, &Some(it), &vec![], &cfg(), &now, text) {
        DueStep::Send(l) => assert_eq!(l.attempt, log.attempt + 1),
        _ => panic!(),
    }
    assert!(matches!(
        check_due(&log, &None, &vec![], &cfg(), &now, text),
        DueStep::Send(_)
    ));
}

#[test]
fn what_a_check_did() {
    let r = report_of(
        2,
        &vec![(true, SendStatus::Sent), (false, SendStatus::Failed), (true, SendStatus::Failed)],
    );
    assert_eq!(r.expired, 2);
    assert_eq!(r.missed_compensated, 2);
    assert_eq!(r.reminders_sent, 1);
    assert_eq!(r.reminders_failed, 2);
}

#[test]
fn pushes_need_a_place() {
    let it = item("urgent", ItemStatus::Active);
    let (mut log, _) = check(&it, &vec![], "2027-09-01T03:00:00+00:00").unwrap();
    let mut c = cfg();
    c.reminder.webhook_url = "http://x".into();
    assert!(!pushes(&log, &c));
    log.status = SendStatus::Sent;
    assert!(pushes(&log, &c));
    assert!(!pushes(&log, &cfg()));
}

#[test]
fn check_times_fire_once_a_day() {
    let times = vec!["06:00".to_string(), "12:30".to_string()];
    let mark = check_mark_of(&times, "2027-09-01", "06:00");
    assert!(fires(&mark, false));
    assert!(!fires(&mark, true));
    assert!(!fires(&check_mark_of(&times, "2027-09-01", "06:01"), false));
    assert_ne!(check_mark_of(&times, "2027-09-02", "06:00"), mark);
    let now = Stamp::parse("2027-09-01T12:30:59+08:00").unwrap();
    assert_eq!(due_check(&times, &now), check_mark_of(&times, "2027-09-01", "12:30"));
}

#[test]
fn what_went_out_is_done_with() {
    let it = item("urgent", ItemStatus::Active);
    let (mut log, _) = check(&it, &vec![], "2027-09-01T02:00:00+00:00").unwrap();
    let now = Stamp::parse("2027-09-01T02:00:00+00:00").unwrap();
    settle(&mut log, None, "<m@mail2.local>".to_string(), &now);
    let later = Stamp::parse("2027-09-01T20:00:00+00:00").unwrap();
    assert!(!is_log_due(&log, &later));
    assert!(check(&it, &vec![log], "2027-09-01T20:00:00+00:00").is_none());
}

#[test]
fn what_failed_waits_for_half_an_hour() {
    let it = item("urgent", ItemStatus::Active);
    let (mut log, _) = check(&it, &vec![], "2027-09-01T02:00:00+00:00").unwrap();
    let now = Stamp::parse("2027-09-01T02:00:00+00:00").unwrap();
    settle(&mut log, Some("拒绝".to_string()), "<m@mail2.local>".to_string(), &now);
    let early = "2027-09-01T02:29:59+00:00";
    let late = "2027-09-01T02:30:00+00:00";
    assert!(!is_log_due(&log, &Stamp::parse(early).unwrap()));
    assert!(is_log_due(&log, &Stamp::parse(late).unwrap()));
    assert!(check(&it, &vec![log.clone()], early).is_none());
    let (again, new) = check(&it, &vec![log], late).unwrap();
    assert!(!new);
    assert_eq!(again.attempt, 2);
}

#[test]
fn reminders_keep_half_an_hour_apart() {
    let it = item("urgent", ItemStatus::Active);
    let (mut first, _) = check(&it, &vec![], "2027-09-01T02:00:00+00:00").unwrap();
    first.status = SendStatus::Sent;
    first.sent_at = Some("2027-09-01T23:45:00+00:00".into());
    assert!(check(&it, &vec![first.clone()], "2027-09-02T00:10:00+00:00").is_none());
    first.sent_at = Some("2027-09-01T23:30:00+00:00".into());
    assert!(check(&it, &vec![first], "2027-09-02T00:10:00+00:00").is_some());
}
