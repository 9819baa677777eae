use mail2::deadline::infer_deadline;
use mail2::deadline::infer_deadline_at;
use mail2::deadline::infer_relative_deadline;
use mail2::deadline::inference_note;
use mail2::deadline::match_action_hint;
use mail2::deadline::match_link_expiry_hint;
use mail2::deadline::match_relative_hint;
use mail2::deadline::parse_human_datetime;
use mail2::deadline::parse_human_datetime_at;
use mail2::deadline::parse_rfc;
use mail2::deadline::Span;
use mail2::time::Stamp;
use mail2::time::Zone;

fn shanghai() -> Zone {
    Zone::new("Asia/Shanghai").unwrap()
}

fn at(text: &str) -> Stamp {
    Stamp::parse(text).unwrap()
}

#[test]
fn matches_day_hints() {
    assert_eq!(match_relative_hint("请在3日内完成笔试。").map(|d| d.num_days()), Some(3));
    assert_eq!(match_relative_hint("请于7个工作日内回复确认。").map(|d| d.num_days()), Some(7));
    assert_eq!(match_relative_hint("请在15天内提交材料").map(|d| d.num_days()), Some(15));
    assert_eq!(match_relative_hint("请在48小时内完成测评").map(|d| d.num_hours()), Some(48));
    assert_eq!(match_relative_hint("请在24小时内确认参加").map(|d| d.num_hours()), Some(24));
    assert_eq!(match_relative_hint("请在72小时内回复邮件确认").map(|d| d.num_hours()), Some(72));
}

#[test]
fn matches_english_and_h_units() {
    assert_eq!(match_relative_hint("请在24H内完成在线测评").map(|d| d.num_hours()), Some(24));
    assert_eq!(match_relative_hint("请在72h内完成笔试作答").map(|d| d.num_hours()), Some(72));
    assert_eq!(match_relative_hint("请于48HR内确认参加").map(|d| d.num_hours()), Some(48));
    assert_eq!(match_relative_hint("24小时内完成问卷").map(|d| d.num_hours()), Some(24));
    assert_eq!(
        match_relative_hint("please complete the assessment within 48 hours").map(|d| d.num_hours()),
        Some(48)
    );
    assert_eq!(
        match_relative_hint("Please finish the test within 3 days").map(|d| d.num_days()),
        Some(3)
    );
}

#[test]
fn matches_real_world_variants() {
    assert_eq!(match_relative_hint("建议您在48小时内完成测评").map(|d| d.num_hours()), Some(48));
    assert_eq!(match_relative_hint("请在7个工作日之内完成在线测评").map(|d| d.num_days()), Some(7));
    assert_eq!(match_relative_hint("建议您在24小时之内完成作答").map(|d| d.num_hours()), Some(24));
    assert_eq!(match_relative_hint("物流将在48小时内送达"), None);
}

#[test]
fn no_action_word_no_match() {
    assert_eq!(match_relative_hint("会议时长约2小时"), None);
    assert_eq!(match_relative_hint("会议时长约2小时，请准时参加"), None);
    assert_eq!(match_relative_hint("祝您生活愉快"), None);
    assert_eq!(match_relative_hint("请在999小时内完成"), None);
}

#[test]
fn infers_deadline_from_sent_at() {
    let sent = "2027-09-01T10:00:00+08:00";
    let d = infer_relative_deadline("请在48小时内完成", Some(sent), None, &shanghai()).unwrap();
    assert_eq!(d, "2027-09-03T10:00:00+08:00");
    let d = infer_relative_deadline("请在3日内回复", Some(sent), None, &shanghai()).unwrap();
    assert_eq!(d, "2027-09-04T10:00:00+08:00");
}

#[test]
fn falls_back_to_received_at() {
    let recv = "2027-09-01T10:00:00+08:00";
    let d = infer_relative_deadline("请在24H内完成作答", None, Some(recv), &shanghai()).unwrap();
    assert_eq!(d, "2027-09-02T10:00:00+08:00");
}

#[test]
fn no_sent_at_no_inference() {
    assert_eq!(infer_relative_deadline("请在48小时内完成", None, None, &shanghai()), None);
    assert_eq!(
        infer_relative_deadline("请在48小时内完成", Some("not-a-date"), None, &shanghai()),
        None
    );
}

#[test]
fn note_generated() {
    let n = inference_note("请在48小时内完成", Some("2027-09-01T10:00:00+08:00")).unwrap();
    assert!(n.contains("推算"), "{n}");
    assert!(n.contains("48小时"), "{n}");
}

#[test]
fn note_snippet_windows_correctly() {
    let a = "同学您好，恭喜通过简历筛选，请在72小时内完成在线测评。";
    let n = inference_note(a, Some("2027-09-01T10:00:00+08:00")).unwrap();
    assert!(n.contains("请在72小时内"), "{n}");
    assert!(!n.contains("完成内…"), "{n}");
    let b = "您好，请于48小时内完成在线笔试作答，逾期视为放弃。";
    let n = inference_note(b, Some("2027-09-01T10:00:00+08:00")).unwrap();
    assert!(n.contains("请于48小时内"), "{n}");
}

#[test]
fn parses_explicit_human_datetimes() {
    let tz = shanghai();
    let (d, snip) = parse_human_datetime("面试时间：2026-04-24 11:00(GMT+08:00)", &tz).unwrap();
    assert_eq!(d, "2026-04-24T11:00:00+08:00");
    assert!(snip.contains("2026-04-24"), "{snip}");
    let (d, _) = parse_human_datetime("笔试时间 2026/4/24 14:00", &tz).unwrap();
    assert_eq!(d, "2026-04-24T14:00:00+08:00");
    let (d, _) = parse_human_datetime("请于2026年4月24日 09:30前完成", &tz).unwrap();
    assert_eq!(d, "2026-04-24T09:30:00+08:00");
    let (d, _) = parse_human_datetime("面试时间：2026-04-24 11-00", &tz).unwrap();
    assert_eq!(d, "2026-04-24T11:00:00+08:00");
    let (d, _) = parse_human_datetime("请在2026-09-30前完成问卷", &tz).unwrap();
    assert_eq!(d, "2026-09-30T23:59:59+08:00");
    let (d, _) = parse_human_datetime("截止2026-09-30", &tz).unwrap();
    assert_eq!(d, "2026-09-30T23:59:59+08:00");
    let (d, _) = parse_human_datetime("请于9月30日前完成问卷", &tz).unwrap();
    assert!(d.ends_with("-09-30T23:59:59+08:00"), "{d}");
}

#[test]
fn parses_month_day_and_ampm() {
    let tz = shanghai();
    let (d, _) = parse_human_datetime("4月24日 14:00 面试", &tz).unwrap();
    assert!(d.contains("-04-24T14:00:00+08:00"), "{d}");
    let (d, _) = parse_human_datetime("面试时间：4月24日 下午2:00", &tz).unwrap();
    assert!(d.contains("-04-24T14:00:00+08:00"), "{d}");
    let (d, _) = parse_human_datetime("请于今天 晚上 8:00 前提交", &tz).unwrap();
    assert!(d.contains("T20:00:00+08:00"), "{d}");
}

#[test]
fn human_datetime_no_false_positive() {
    let tz = shanghai();
    assert!(parse_human_datetime("祝您生活愉快", &tz).is_none());
    assert!(parse_human_datetime("版本号 2024.10.09", &tz).is_none());
    assert!(parse_human_datetime("请及时关注邮箱", &tz).is_none());
}

#[test]
fn infer_deadline_prefers_explicit_over_relative() {
    let body = "请在24H内完成作答，截止2026-09-30。";
    let (d, note) =
        infer_deadline(body, None, Some("2026-09-01T10:00:00+08:00"), None, &shanghai());
    let d = d.unwrap();
    assert!(d.starts_with("2026-09-30"), "{d}");
    assert!(note.unwrap().contains("明确时间"));
}

#[test]
fn infer_deadline_normalizes_llm_deadline() {
    let (d, note) = infer_deadline(
        "正文无关",
        Some("2026-04-24 11:00(GMT+08:00)".to_string()),
        None,
        None,
        &shanghai(),
    );
    assert_eq!(d.as_deref(), Some("2026-04-24T11:00:00+08:00"));
    assert!(note.unwrap().contains("归一化"));
}

#[test]
fn a_month_without_year_lies_ahead() {
    let now = at("2026-10-05T12:00:00+08:00");
    let (d, _) = parse_human_datetime_at("请于9月30日前完成问卷", &shanghai(), &now).unwrap();
    assert_eq!(d, "2027-09-30T23:59:59+08:00");
    let now = at("2026-09-05T12:00:00+08:00");
    let (d, _) = parse_human_datetime_at("请于9月30日前完成问卷", &shanghai(), &now).unwrap();
    assert_eq!(d, "2026-09-30T23:59:59+08:00");
}

#[test]
fn today_is_the_day_of_the_reader() {
    let now = at("2026-09-05T12:00:00+08:00");
    let (d, _) = parse_human_datetime_at("请于今天 晚上 8:00 前提交", &shanghai(), &now).unwrap();
    assert_eq!(d, "2026-09-05T20:00:00+08:00");
}

#[test]
fn links_that_lapse_are_deadlines() {
    let text = "链接将于 24 小时后失效，请尽快操作";
    assert_eq!(match_link_expiry_hint(text).map(|d| d.num_hours()), Some(24));
    assert_eq!(match_action_hint(text), None);
    assert_eq!(match_relative_hint(text).map(|d| d.num_hours()), Some(24));
    assert_eq!(match_link_expiry_hint("有效期 7 天").map(|d| d.num_days()), Some(7));
    assert_eq!(match_link_expiry_hint("祝您生活愉快"), None);
}

#[test]
fn a_deadline_that_reads_is_kept() {
    let now = at("2026-09-05T12:00:00+08:00");
    let (d, note) = infer_deadline_at(
        "请在24H内完成作答",
        Some("2027-01-02T03:04:05+08:00".to_string()),
        None,
        None,
        &shanghai(),
        &now,
    );
    assert_eq!(d.as_deref(), Some("2027-01-02T03:04:05+08:00"));
    assert_eq!(note, None);
}

#[test]
fn nothing_comes_of_nothing() {
    let now = at("2026-09-05T12:00:00+08:00");
    let (d, note) = infer_deadline_at(
        "祝您生活愉快",
        None,
        Some("2026-09-01T10:00:00+08:00"),
        None,
        &shanghai(),
        &now,
    );
    assert_eq!(d, None);
    assert_eq!(note, None);
}

#[test]
fn utc_taken_for_local_time_is_put_right() {
    let now = at("2027-09-01T02:00:00+00:00");
    let (d, note) = infer_deadline_at(
        "请在24小时内完成作答",
        Some("2027-09-02T02:00:00+08:00".to_string()),
        Some("2027-09-01T02:00:00+00:00"),
        None,
        &shanghai(),
        &now,
    );
    assert_eq!(at(&d.unwrap()).secs, at("2027-09-02T02:00:00+00:00").secs);
    assert!(note.is_some());
}

#[test]
fn a_time_without_an_offset_is_local() {
    let t = parse_rfc("2027-09-10T14:00:00").unwrap();
    assert_eq!(t.secs + t.offset as i64, at("2027-09-10T14:00:00+00:00").secs);
    assert_eq!(t.nanos, 0);
    let t = parse_rfc("2027-09-10T14:00:00.25").unwrap();
    assert_eq!(t.nanos, 250_000_000);
    assert_eq!(parse_rfc("2027-09-10T14:00:00+08:00"), Some(at("2027-09-10T14:00:00+08:00")));
    assert_eq!(parse_rfc("2027-09-10"), None);
    assert_eq!(parse_rfc("someday"), None);
}

#[test]
fn whole_hours_and_days_of_any_sign() {
    assert_eq!(Span { secs: 7199 }.num_hours(), 1);
    assert_eq!(Span { secs: -3599 }.num_hours(), 0);
    assert_eq!(Span { secs: -3601 }.num_hours(), -1);
    assert_eq!(Span { secs: 86401 }.num_days(), 1);
    assert_eq!(Span { secs: -86399 }.num_days(), 0);
    assert_eq!(Span { secs: -86401 }.num_days(), -1);
    assert_eq!(Span { secs: i64::MIN }.num_days(), i64::MIN / 86400);
}
