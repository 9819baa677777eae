use mail2::config::AgentConfig;
use mail2::config::AppConfig;
use mail2::config::LlmConfig;
use mail2::config::MailConfig;
use mail2::config::ReminderConfig;
use mail2::json::Json;
use mail2::mail::ParsedMail;
use mail2::model::remind_policy;
use mail2::model::CategoryInfo;
use mail2::model::EmailRecord;
use mail2::model::Item;
use mail2::model::ItemKind;
use mail2::model::ItemStatus;
use mail2::model::ReplyIntent;
use mail2::model::RunReport;
use mail2::model::SendLog;
use mail2::model::SendStatus;
use mail2::model::TodoExtract;
use mail2::pipeline::can_make_todo;
use mail2::pipeline::check_follows;
use mail2::pipeline::cursor_update;
use mail2::pipeline::deadline_moved;
use mail2::pipeline::ensure_item;
use mail2::pipeline::fetch_from;
use mail2::pipeline::fill_missing_deadline;
use mail2::pipeline::gate;
use mail2::pipeline::is_feedback_email;
use mail2::pipeline::is_promo_email;
use mail2::pipeline::item_source;
use mail2::pipeline::keep_latest;
use mail2::pipeline::keyword_intent;
use mail2::pipeline::match_reply;
use mail2::pipeline::merge_items;
use mail2::pipeline::merge_report;
use mail2::pipeline::merge_target;
use mail2::pipeline::new_email;
use mail2::pipeline::open_place;
use mail2::pipeline::place_item;
use mail2::pipeline::referred_ids;
use mail2::pipeline::reply_status;
use mail2::pipeline::revokes;
use mail2::pipeline::settle_category;
use mail2::pipeline::step;
use mail2::pipeline::subject_has_time;
use mail2::pipeline::todo_from_json;
use mail2::pipeline::AgentSaid;
use mail2::pipeline::Gate;
use mail2::pipeline::MailAction;
use mail2::pipeline::MailEvent;
use mail2::pipeline::Opening;
use mail2::pipeline::Outcome;
use mail2::pipeline::ProcessOpts;
use mail2::pipeline::Source;
use mail2::pipeline::Verdict;
use mail2::time::Stamp;
use mail2::time::Zone;

const NOW: &str = "2027-09-01T02:00:00+00:00";

fn now() -> Stamp {
    Stamp::parse(NOW).unwrap()
}

fn cfg() -> AppConfig {
    AppConfig {
        listen: "127.0.0.1:0".into(),
        auth_token: String::new(),
        data_dir: "/tmp".into(),
        mail_db: None,
        todo_db: None,
        timezone: Zone::new("Asia/Shanghai").unwrap(),
        poll_interval_secs: 60,
        reminder: ReminderConfig {
            to: "me@example.com".into(),
            days_before: 1,
            lead_time: "09:00".into(),
            webhook_url: String::new(),
        },
        check_times: vec!["06:00".into()],
        mail: MailConfig::default(),
        llm: LlmConfig {
            api_key: "k".into(),
            base_url: "http://127.0.0.1:1".into(),
            model: "mock".into(),
            timeout_secs: 5,
            categories: vec![],
            agent: AgentConfig::default(),
        },
    }
}

fn email(subject: &str, body: &str, sent_at: &str) -> EmailRecord {
    EmailRecord {
        id: 7,
        uid: None,
        message_id: "m".into(),
        subject: subject.into(),
        from_addr: "hr@acme.com".into(),
        from_name: "HR".into(),
        body_text: body.into(),
        category: String::new(),
        sent_at: sent_at.into(),
        received_at: NOW.into(),
        item_id: None,
        reply_to_item_id: None,
        account_id: 1,
        handled: false,
        user_label: String::new(),
        user_note: String::new(),
    }
}

fn parsed(subject: &str, body: &str) -> ParsedMail {
    ParsedMail {
        message_id: "m@x".into(),
        in_reply_to: String::new(),
        references: String::new(),
        subject: subject.into(),
        from_name: "HR".into(),
        from_addr: "hr@acme.com".into(),
        body_text: body.into(),
        date: String::new(),
        sent_at: "2027-09-01T01:00:00+00:00".into(),
    }
}

fn item(id: i64, party: &str, deadline: Option<&str>) -> Item {
    Item {
        id,
        kind: ItemKind::Todo,
        title: "t".into(),
        party: party.into(),
        event: "面试".into(),
        category: "interview".into(),
        deadline: deadline.map(|d| d.to_string()),
        remind_at: None,
        remind_policy: remind_policy::NORMAL.into(),
        needs_review: false,
        status: ItemStatus::Active,
        source_email_id: None,
        account_id: 1,
        notes: String::new(),
        created_at: "2027-08-01T00:00:00+00:00".into(),
        updated_at: NOW.into(),
    }
}

fn log(item_id: i64, message_id: Option<&str>, subject: &str) -> SendLog {
    SendLog {
        id: 1,
        item_id,
        attempt: 1,
        kind: "reminder".into(),
        to_addr: "me@example.com".into(),
        subject: subject.into(),
        body: String::new(),
        status: SendStatus::Sent,
        error: None,
        scheduled_at: NOW.into(),
        sent_at: None,
        next_retry_at: None,
        message_id: message_id.map(|s| s.to_string()),
    }
}

fn category(id: &str, create_item: bool, kind: &str) -> Option<CategoryInfo> {
    Some(CategoryInfo {
        id: id.into(),
        label: id.into(),
        create_item,
        kind: kind.into(),
        source: "builtin".into(),
        created_at: NOW.into(),
    })
}

#[test]
fn promotions_are_told_apart() {
    assert!(is_promo_email(
        "尊敬的孙同学【智联推荐】清原集团 2027 校招・厦门大学站",
        "宣讲会时间：2027-09-20 19:10；地点：厦门大学翔安校区；欢迎参加项目评审会。"
    ));
    assert!(is_promo_email("孙同学，你有1份算法工程师秋招双选会投递邀请，双选会岗位详情>>", ""));
    assert!(is_promo_email("【智联推荐】某银行2027届秋季校园招聘宣讲会火热进行中", ""));
    assert!(!is_promo_email("技术面试邀请", "您在宣讲会上投递的简历已通过"));
    assert!(!is_promo_email("京东集团邀请你参加在线笔试", "考试时间 2027-09-05 19:00"));
}

#[test]
fn promotions_are_never_something_to_do() {
    let (v, c) = settle_category("校园招聘宣讲会", "时间：2027-09-20 19:10", "todo", &now());
    assert_eq!(v, Verdict::Promo);
    assert_eq!(c, "career_promo");
    assert!(revokes(v, &item(1, "p", Some("2027-09-20T19:10:00+08:00"))));
    assert!(!can_make_todo(&category("career_promo", true, "todo"), &c));
}

#[test]
fn a_promotion_by_its_category_makes_nothing() {
    let (v, c) = settle_category("校园招聘", "欢迎关注", "career_promo", &now());
    assert_eq!(v, Verdict::Promo);
    assert_eq!(c, "career_promo");
    let made = Some(item(1, "p", Some("2027-09-20T19:10:00+08:00")));
    let opening = open_place(v, &made, &category("career_promo", false, "notification"), &c, true);
    assert!(opening.revoke);
    assert_eq!(opening.source, Source::Nothing);
}

#[test]
fn answers_are_for_information() {
    assert!(is_feedback_email("【快手面试体验】面试问卷"));
    assert!(!is_feedback_email("面试邀请：反馈时间确认"));
    assert!(subject_has_time("请在24H内完成问卷", &now()));
    assert!(!subject_has_time("面试体验调研", &now()));
    let (v, c) = settle_category("【快手面试体验】面试问卷", "谢谢参加", "interview", &now());
    assert_eq!(v, Verdict::Feedback);
    assert_eq!(c, "notification");
    assert!(revokes(v, &item(1, "p", None)));
    assert!(!revokes(v, &item(1, "p", Some("2027-09-20T19:10:00+08:00"))));
    let (v, c) = settle_category("请在24H内完成调研", "", "interview", &now());
    assert_eq!(v, Verdict::Keep);
    assert_eq!(c, "interview");
    assert!(!revokes(v, &item(1, "p", None)));
}

#[test]
fn what_makes_something_to_do() {
    assert!(can_make_todo(&category("interview", true, "todo"), "interview"));
    assert!(!can_make_todo(&category("notification", true, "notification"), "notification"));
    assert!(!can_make_todo(&category("misc", false, "todo"), "misc"));
    assert!(can_make_todo(&None, "todo"));
    assert!(!can_make_todo(&None, "other"));
    let c = category("interview", true, "todo");
    assert_eq!(item_source(true, &c, "interview", true), Source::Nothing);
    assert_eq!(item_source(false, &c, "interview", true), Source::Agent);
    assert_eq!(item_source(false, &c, "interview", false), Source::Extract);
}

#[test]
fn a_short_deadline_makes_an_urgent_item() {
    let e = email(
        "曦望sunrise-笔试邀请",
        "请务必在收到邮件作答通知后，24 小时内完成作答。",
        "2027-09-01T02:00:00+00:00",
    );
    let it = ensure_item(&TodoExtract::default(), &e, 7, "written_test", &cfg(), &now(), NOW).unwrap();
    assert_eq!(it.deadline.as_deref(), Some("2027-09-02T02:00:00+00:00"));
    assert_eq!(it.remind_policy, remind_policy::URGENT);
    assert_eq!(it.remind_at.as_deref(), Some(NOW));
    assert_eq!(it.title, "曦望sunrise-笔试邀请");
    assert_eq!(it.category, "written_test");
    assert_eq!(it.source_email_id, Some(7));
    assert!(!it.needs_review);
    assert!(it.notes.contains("推算"));
}

#[test]
fn a_link_that_lapses_makes_an_item_at_once() {
    let e = email(
        "【NIO蔚来】邀请你预约校招面试时间",
        "请在收到本邮件后尽快自助选择面试时间（链接将于 24 小时后失效，请尽快操作）。",
        "2027-09-01T02:00:00+00:00",
    );
    let it = ensure_item(&TodoExtract::default(), &e, 7, "interview", &cfg(), &now(), NOW).unwrap();
    assert_eq!(it.deadline.as_deref(), Some("2027-09-02T02:00:00+00:00"));
    assert_eq!(it.remind_policy, remind_policy::LINK_EXPIRY);
    assert!(!it.needs_review);
}

#[test]
fn without_a_deadline_only_core_mail_makes_an_item() {
    let e = email("材料", "请查收", "2027-09-01T02:00:00+00:00");
    let ex = TodoExtract::default();
    assert!(ensure_item(&ex, &e, 7, "todo", &cfg(), &now(), NOW).is_none());
    let it = ensure_item(&ex, &e, 7, "interview", &cfg(), &now(), NOW).unwrap();
    assert!(it.needs_review);
    assert_eq!(it.deadline, None);
    assert_eq!(it.remind_at, None);
}

#[test]
fn explicit_times_become_deadlines() {
    let e = email("面试", "面试时间：2026-04-24 11:00(GMT+08:00)", "");
    let it = ensure_item(&TodoExtract::default(), &e, 7, "todo", &cfg(), &now(), NOW).unwrap();
    assert_eq!(it.deadline.as_deref(), Some("2026-04-24T11:00:00+08:00"));
}

#[test]
fn missing_deadlines_are_filled_in() {
    let e = email("笔试邀请", "请在48小时内完成作答。", "2027-09-01T02:00:00+00:00");
    let it = fill_missing_deadline(&item(3, "p", None), &e, &cfg(), &now(), NOW).unwrap();
    assert_eq!(it.deadline.as_deref(), Some("2027-09-03T02:00:00+00:00"));
    assert_eq!(it.id, 3);
    assert!(!it.needs_review);
    let plain = email("笔试邀请", "请留意", "");
    let it = fill_missing_deadline(&item(3, "p", None), &plain, &cfg(), &now(), NOW).unwrap();
    assert!(it.needs_review);
    assert!(fill_missing_deadline(&it, &plain, &cfg(), &now(), NOW).is_none());
    let has = item(3, "p", Some("2027-09-20T14:00:00+08:00"));
    assert!(fill_missing_deadline(&has, &e, &cfg(), &now(), NOW).is_none());
}

#[test]
fn items_of_one_matter_are_merged() {
    let first = item(1, "字节跳动", Some("2027-09-10T14:00:00+08:00"));
    let second = item(2, "字节跳动", Some("2027-09-20T14:00:00+08:00"));
    let all = vec![first.clone()];
    assert_eq!(merge_target(&all, &second, None), None);
    let all = vec![first, second];
    let reminder = item(0, " 字节跳动 ", Some("2027-09-20T14:00:00+08:00"));
    assert_eq!(merge_target(&all, &reminder, None), Some(1));
    let no_time = item(0, "字节跳动", None);
    assert_eq!(merge_target(&all, &no_time, None), Some(0));
    assert_eq!(merge_target(&all, &item(0, "", None), None), None);
    assert_eq!(merge_target(&all, &item(0, "", None), Some(2)), Some(1));
}

#[test]
fn the_latest_mail_counts() {
    let old = item(1, "蔚来", None);
    let mut new = item(0, "蔚来", Some("2027-09-10T14:00:00+08:00"));
    new.source_email_id = Some(9);
    let m = merge_items(&old, &new, &cfg(), NOW);
    assert_eq!(m.id, 1);
    assert_eq!(m.created_at, old.created_at);
    assert_eq!(m.source_email_id, Some(9));
    assert_eq!(m.deadline, new.deadline);
    assert_eq!(m.remind_at.as_deref(), Some("2027-09-09T01:00:00+00:00"));
    assert!(deadline_moved(&old, &m));
    let back = merge_items(&m, &old, &cfg(), NOW);
    assert_eq!(back.deadline, m.deadline);
    assert!(!deadline_moved(&m, &back));
}

#[test]
fn replies_are_matched() {
    let logs = vec![log(4, Some("<mail2-1@mail2.local>"), "【面试/字节跳动/技术面试/0910】")];
    let mut m = parsed("Re: 【面试/字节跳动/技术面试/0910】", "【已完成】");
    let found = |m: &ParsedMail, exact: Vec<Option<i64>>| {
        match_reply(&m.subject, &referred_ids(m), &exact, &logs)
    };
    assert_eq!(found(&m, vec![]), Some(4));
    m.subject = "hello".into();
    assert_eq!(found(&m, vec![]), None);
    m.in_reply_to = "<mail2-1@mail2.local>".into();
    assert_eq!(referred_ids(&m), vec!["mail2-1@mail2.local"]);
    assert_eq!(found(&m, vec![None]), Some(4));
    assert_eq!(found(&m, vec![Some(11)]), Some(11));
}

#[test]
fn replies_ask_for_something() {
    assert_eq!(keyword_intent(&parsed("Re", "已完成")), ReplyIntent::Done);
    assert_eq!(keyword_intent(&parsed("Re", "DONE, thanks")), ReplyIntent::Done);
    assert_eq!(keyword_intent(&parsed("Re", "不再提醒")), ReplyIntent::Silent);
    assert_eq!(keyword_intent(&parsed("Re", "已完成，不再提醒")), ReplyIntent::Done);
    assert_eq!(keyword_intent(&parsed("Re", "ok")), ReplyIntent::Unclear);
    assert_eq!(reply_status(ReplyIntent::Done), Some(ItemStatus::Completed));
    assert_eq!(reply_status(ReplyIntent::Silent), Some(ItemStatus::Silent));
    assert_eq!(reply_status(ReplyIntent::Unclear), None);
}

#[test]
fn messages_that_are_not_taken() {
    let since = Stamp::parse("2027-09-01T01:30:00+00:00");
    let m = parsed("hello", "");
    assert_eq!(gate(&m, false, "me@x", &since), Gate::Old);
    assert_eq!(gate(&m, false, "me@x", &None), Gate::Take);
    assert_eq!(gate(&m, true, "me@x", &None), Gate::Own);
    let own = parsed("【面试/a/b/0910】", "");
    assert_eq!(gate(&own, false, "hr@acme.com", &None), Gate::Own);
    assert_eq!(gate(&own, false, "me@x", &None), Gate::Take);
    let mut undated = parsed("hello", "");
    undated.sent_at = String::new();
    assert_eq!(gate(&undated, false, "me@x", &since), Gate::Take);
    assert_eq!(new_email(&m, 3, NOW.to_string()).account_id, 3);
}

#[test]
fn partial_batches_skip_nothing() {
    let whole = ProcessOpts::default();
    assert_eq!(
        cursor_update(&whole, 2, Some(42)),
        Some(("last_uid:2".to_string(), "42".to_string()))
    );
    assert_eq!(fetch_from(&whole, &Some("42".to_string()), &None), Some(42));
    assert_eq!(fetch_from(&whole, &None, &Some("7".to_string())), Some(7));
    assert_eq!(fetch_from(&whole, &Some("x".to_string()), &None), None);
    assert_eq!(cursor_update(&whole, 2, None), None);
    let limited = ProcessOpts { limit: Some(1), ..whole };
    assert_eq!(cursor_update(&limited, 2, Some(42)), None);
    let since = ProcessOpts { since: Some(now()), ..whole };
    assert_eq!(cursor_update(&since, 2, Some(42)), None);
    assert_eq!(fetch_from(&since, &Some("42".to_string()), &None), None);
    let still = ProcessOpts { advance_cursor: false, ..whole };
    assert_eq!(cursor_update(&still, 2, Some(42)), None);
    let raws = vec![vec![1u8], vec![2u8], vec![3u8]];
    assert_eq!(keep_latest(raws.clone(), Some(2)), vec![vec![2u8], vec![3u8]]);
    assert_eq!(keep_latest(raws.clone(), None), raws);
}

#[test]
fn every_mail_ends_in_a_place() {
    let mut r = RunReport::default();
    assert!(matches!(step(MailEvent::Stored(false), true, &mut r), MailAction::Finish));
    assert_eq!(r.new_emails, 0);
    assert!(matches!(step(MailEvent::Stored(true), true, &mut r), MailAction::ReadReply));
    let replied = MailEvent::Replied(Some(ReplyIntent::Done));
    assert!(matches!(step(replied, true, &mut r), MailAction::RunAgent));
    assert!(matches!(step(MailEvent::Replied(None), false, &mut r), MailAction::Classify));
    let said = AgentSaid { category: Some("interview".into()), rounds: 3, approvals: 1 };
    assert!(
        matches!(step(MailEvent::AgentDone(Some(said)), true, &mut r), MailAction::Place(c) if c == "interview")
    );
    assert!(matches!(step(MailEvent::AgentDone(None), true, &mut r), MailAction::Classify));
    assert!(
        matches!(step(MailEvent::Classified(None), true, &mut r), MailAction::Place(c) if c == "misc")
    );
    assert!(matches!(step(MailEvent::Placed(true), true, &mut r), MailAction::Finish));
    assert_eq!(
        (r.new_emails, r.replies_handled, r.items_updated, r.tool_rounds, r.approvals_created),
        (1, 1, 1, 3, 1)
    );
    assert_eq!((r.llm_fallback_misc, r.classified, r.items_created), (1, 1, 1));
    assert!(check_follows(&ProcessOpts::default(), &r));
    assert!(!check_follows(&ProcessOpts { run_check: false, ..ProcessOpts::default() }, &r));
    let check = RunReport { reminders_sent: 2, expired: 1, ..RunReport::default() };
    merge_report(&mut r, check);
    assert_eq!((r.reminders_sent, r.expired, r.new_emails), (2, 1, 1));
}

#[test]
fn what_the_agent_says_is_taken_with_care() {
    let v = Json::Obj(vec![
        ("party".to_string(), Json::Str(" 字节跳动 ".into())),
        ("deadline".to_string(), Json::Str("tomorrow".into())),
    ]);
    let ex = todo_from_json(&v, "主题");
    assert_eq!(ex.party, "字节跳动");
    assert_eq!(ex.title, "主题");
    assert_eq!(ex.deadline, None);
    assert_eq!(ex.category, None);
}

fn extract(party: &str, deadline: Option<&str>) -> Option<TodoExtract> {
    Some(TodoExtract {
        party: party.into(),
        event: "技术面试".into(),
        title: "技术面试邀请".into(),
        deadline: deadline.map(|d| d.to_string()),
        category: None,
        notes: String::new(),
    })
}

fn place(
    kept: Option<Item>,
    ex: Option<TodoExtract>,
    mail: &EmailRecord,
    category: &str,
    items: Vec<Item>,
    repeated: Option<i64>,
) -> Outcome {
    place_item(&kept, &ex, mail, category, &items, repeated, &cfg(), &now(), NOW)
}

#[test]
fn what_is_done_about_the_item_of_a_mail() {
    let interview = category("interview", true, "todo");
    let had = Some(item(1, "p", None));
    assert_eq!(
        open_place(Verdict::Keep, &None, &interview, "interview", false),
        Opening { revoke: false, source: Source::Extract }
    );
    assert_eq!(
        open_place(Verdict::Keep, &None, &interview, "interview", true),
        Opening { revoke: false, source: Source::Agent }
    );
    assert_eq!(
        open_place(Verdict::Keep, &had, &interview, "interview", true),
        Opening { revoke: false, source: Source::Nothing }
    );
    assert_eq!(
        open_place(Verdict::Promo, &had, &None, "career_promo", true),
        Opening { revoke: true, source: Source::Nothing }
    );
    let dated = Some(item(1, "p", Some("2027-09-10T14:00:00+08:00")));
    assert_eq!(
        open_place(Verdict::Feedback, &dated, &None, "notification", false),
        Opening { revoke: false, source: Source::Nothing }
    );
}

#[test]
fn new_mail_makes_an_item() {
    let mail = email("面试邀请", "面试时间：2027年9月10日 14:00。", "2027-09-01T01:00:00+00:00");
    match place(None, extract("字节跳动", None), &mail, "interview", vec![], None) {
        Outcome::Insert(it) => {
            assert_eq!(it.deadline.as_deref(), Some("2027-09-10T14:00:00+08:00"));
            assert_eq!(it.remind_at.as_deref(), Some("2027-09-09T01:00:00+00:00"));
            assert_eq!(it.source_email_id, Some(7));
            assert!(!it.needs_review);
        }
        other => panic!("{other:?}"),
    }
    assert!(matches!(place(None, None, &mail, "interview", vec![], None), Outcome::Nothing));
    let vague = email("会议通知", "具体时间后续通知。", "2027-09-01T01:00:00+00:00");
    let ex = extract("某公司", None);
    assert!(matches!(place(None, ex, &vague, "todo", vec![], None), Outcome::Nothing));
}

#[test]
fn an_item_of_the_agent_is_completed() {
    let mail = email("笔试邀请", "请在24H内完成作答。", "2027-09-01T10:00:00+08:00");
    match place(Some(item(3, "某公司", None)), None, &mail, "written_test", vec![], None) {
        Outcome::Save(it) => {
            assert_eq!(it.id, 3);
            assert_eq!(it.deadline.as_deref(), Some("2027-09-02T10:00:00+08:00"));
            assert_eq!(it.remind_policy, remind_policy::URGENT);
            assert!(!it.needs_review);
        }
        other => panic!("{other:?}"),
    }
    let done = item(3, "某公司", Some("2027-09-10T14:00:00+08:00"));
    assert!(matches!(
        place(Some(done), None, &mail, "written_test", vec![], None),
        Outcome::Nothing
    ));
}

#[test]
fn mail_of_one_matter_makes_one_item() {
    let mail = email("面试邀请", "", "2027-09-02T01:00:00+00:00");
    let at = "2027-09-10T14:00:00+08:00";
    let open = item(4, "蔚来", None);
    match place(None, extract("蔚来", Some(at)), &mail, "interview", vec![open.clone()], None) {
        Outcome::Merge(m) => {
            assert_eq!(m.into, 0);
            assert_eq!(m.item.id, 4);
            assert_eq!(m.item.deadline.as_deref(), Some(at));
            assert_eq!(m.item.source_email_id, Some(7));
            assert!(m.drop_unsent);
        }
        other => panic!("{other:?}"),
    }
    let other_day = item(4, "蔚来", Some("2027-09-20T14:00:00+08:00"));
    assert!(matches!(
        place(None, extract("蔚来", Some(at)), &mail, "interview", vec![other_day], None),
        Outcome::Insert(_)
    ));
    match place(None, extract("别家", Some(at)), &mail, "interview", vec![open], Some(4)) {
        Outcome::Merge(m) => assert_eq!(m.into, 0),
        other => panic!("{other:?}"),
    }
}
