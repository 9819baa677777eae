use mail2::clock::Clock;
use mail2::clock::FakeClock;
use mail2::clock::offset_after;
use mail2::clock::SystemClock;
use mail2::config::AgentConfig;
use mail2::config::AppConfig;
use mail2::config::ConfigError;
use mail2::config::default_categories;
use mail2::config::Endpoint;
use mail2::config::HhmmError;
use mail2::config::LlmConfig;
use mail2::config::MailConfig;
use mail2::config::parse_hhmm;
use mail2::config::parse_provider_text;
use mail2::config::ProviderError;
use mail2::config::YamlConfig;
use mail2::model::MailAccount;
use mail2::number::parse_i32;
use mail2::number::parse_i64;
use mail2::number::parse_nat;
use mail2::number::show_i64;
use mail2::time::now_str;
use mail2::time::Stamp;

const XMU_TEXT: &str = " 专用密码 my-app-password

your-app-password
客户端专用密码仅在生成时可见，支持设置多个，切勿使用其它方式保存，以防泄露

相关配置参数

邮件地址	user@example.com	
收信服务器 (IMAP)	imap.stu.xmu.edu.cn	SSL 端口: 993, 非 SSL 端口: 143
收信服务器 (POP3)	pop.stu.xmu.edu.cn	SSL 端口: 995, 非 SSL 端口: 110
发信服务器 (SMTP)	smtp.stu.xmu.edu.cn	SSL 端口: 465, 非 SSL 端口: 25
";

#[test]
fn parse_provider_text_basic() {
    let c = parse_provider_text(XMU_TEXT).unwrap();
    assert_eq!(c.mail.address, "user@example.com");
    assert_eq!(c.mail.imap.host, "imap.stu.xmu.edu.cn");
    assert_eq!(c.mail.imap.port, 993);
    assert_eq!(c.mail.smtp.host, "smtp.stu.xmu.edu.cn");
    assert_eq!(c.mail.smtp.port, 465);
    assert_eq!(c.mail.imap.password, "your-app-password");
    assert_eq!(c.mail.smtp.password, "your-app-password");
}

#[test]
fn parse_hhmm_ok() {
    assert_eq!(parse_hhmm("06:00").unwrap(), (6, 0));
    assert_eq!(parse_hhmm("00:00").unwrap(), (0, 0));
    assert_eq!(parse_hhmm("6:0").unwrap(), (6, 0));
    assert!(parse_hhmm("24:00").is_err());
    assert!(parse_hhmm("abc").is_err());
}

#[test]
fn fake_clock_works() {
    let t = Stamp::parse("2027-09-10T12:00:00+08:00").unwrap();
    let mut c = FakeClock::new(t);
    assert_eq!(c.now(), t);
    c.advance(30 * 60);
    assert_eq!((c.now().secs, c.now().nanos), (t.secs + 30 * 60, t.nanos));
}

#[test]
fn a_clock_keeps_to_its_zone() {
    assert_eq!(offset_after(3600, Some(3600), Some(7200)), 7200);
    assert_eq!(offset_after(28800, Some(3600), Some(7200)), 28800);
    assert_eq!(offset_after(3600, None, Some(7200)), 3600);
    let mut t = Stamp::parse("2027-09-10T12:00:00Z").unwrap();
    t.offset = t.machine_offset().unwrap();
    let mut c = FakeClock::new(t);
    c.advance(180 * 86400);
    assert_eq!(Some(c.now().offset), c.now().machine_offset());
}

#[test]
fn clocks_tell_the_time() {
    let t = Stamp::parse("2020-01-01T00:00:00Z").unwrap();
    assert!(t.is_before(&SystemClock.now()));
    let mut c = FakeClock::new(t);
    let u = Stamp::parse("2021-01-01T00:00:00Z").unwrap();
    c.set(u);
    assert_eq!(c.now(), u);
}

fn account_with(pass: &str) -> MailAccount {
    MailAccount {
        id: 1,
        label: "t".into(),
        address: "u@example.com".into(),
        imap_host: "imap.example.com".into(),
        imap_port: 993,
        imap_user: "u@example.com".into(),
        imap_password: pass.into(),
        imap_tls_insecure: false,
        smtp_host: "smtp.example.com".into(),
        smtp_port: 465,
        smtp_user: "u@example.com".into(),
        smtp_password: pass.into(),
        smtp_tls_insecure: false,
        enabled: true,
        is_default: true,
        reminder_to: String::new(),
        created_at: String::new(),
        updated_at: String::new(),
    }
}

#[test]
fn endpoint_passes_password_through_verbatim() {
    let a = account_with("MDEyMzQ1Njc4OWFi");
    assert_eq!(a.imap_endpoint().password, "MDEyMzQ1Njc4OWFi");
    assert_eq!(a.smtp_endpoint().password, "MDEyMzQ1Njc4OWFi");
    let b = account_with("普通密码 with space");
    assert_eq!(b.imap_endpoint().password, "普通密码 with space");
    assert_eq!(b.smtp_endpoint().password, "普通密码 with space");
}

#[test]
fn times_of_day_that_are_none() {
    assert_eq!(parse_hhmm("0600"), Err(HhmmError::Shape));
    assert_eq!(parse_hhmm("x:00"), Err(HhmmError::Hour));
    assert_eq!(parse_hhmm("06:y"), Err(HhmmError::Minute));
    assert_eq!(parse_hhmm("24:00"), Err(HhmmError::Range));
    assert_eq!(parse_hhmm("23:60"), Err(HhmmError::Range));
    assert_eq!(HhmmError::Shape.message(), "需要 HH:MM 格式");
}

#[test]
fn provider_text_that_lacks_something() {
    assert_eq!(parse_provider_text("").err(), Some(ProviderError::Address));
    assert_eq!(parse_provider_text("邮件地址\ta@b.c").err(), Some(ProviderError::ImapHost));
}

fn llm() -> LlmConfig {
    LlmConfig {
        api_key: "k".into(),
        base_url: "http://127.0.0.1:1".into(),
        model: "mock".into(),
        timeout_secs: 5,
        categories: vec![],
        agent: AgentConfig::default(),
    }
}

fn written() -> YamlConfig {
    parse_provider_text(XMU_TEXT).unwrap()
}

#[test]
fn settings_are_assembled() {
    let l = LlmConfig { categories: default_categories(), ..llm() };
    let c = AppConfig::assemble(written(), l, Some("Asia/Shanghai".into())).unwrap();
    assert_eq!(c.timezone.name, "Asia/Shanghai");
    assert_eq!(c.reminder.to, "user@example.com");
    assert_eq!(c.check_times, vec!["06:00", "12:30", "18:30", "00:00"]);
    assert!(c.category("career_promo").is_some());
    assert_eq!(c.category_label("nothing_such"), "nothing_such");
    assert!(c.category_creates_item("interview"));
    assert!(!c.category_creates_item("career_promo"));
    assert!(!c.category_creates_item("nothing_such"));
}

#[test]
fn settings_that_cannot_stand() {
    let zone = || Some("Asia/Shanghai".to_string());
    let mut y = written();
    y.mail.address = String::new();
    assert_eq!(AppConfig::assemble(y, llm(), zone()).err(), Some(ConfigError::NoAddress));
    let mut y = written();
    y.mail.imap.host = String::new();
    assert_eq!(AppConfig::assemble(y, llm(), zone()).err(), Some(ConfigError::NoImapHost));
    let mut y = written();
    y.mail.smtp.host = String::new();
    assert_eq!(AppConfig::assemble(y, llm(), zone()).err(), Some(ConfigError::NoSmtpHost));
    let mut l = llm();
    l.model = String::new();
    assert_eq!(AppConfig::assemble(written(), l, zone()).err(), Some(ConfigError::NoModel));
    let mut y = written();
    y.check_times = vec!["06:00".into(), "25:00".into()];
    assert_eq!(
        AppConfig::assemble(y, llm(), zone()).err(),
        Some(ConfigError::CheckTime(1, HhmmError::Range))
    );
    let mut y = written();
    y.reminder.lead_time = "noon".into();
    assert_eq!(
        AppConfig::assemble(y, llm(), zone()).err(),
        Some(ConfigError::LeadTime(HhmmError::Shape))
    );
    let mut y = written();
    y.timezone = "Nowhere/At_All".into();
    assert_eq!(AppConfig::assemble(y, llm(), zone()).err(), Some(ConfigError::Timezone));
}

#[test]
fn the_usual_categories() {
    let ids: Vec<String> = default_categories().into_iter().map(|c| c.id).collect();
    for id in ["todo", "interview", "assessment", "written_test", "notification", "misc"] {
        assert!(ids.iter().any(|x| x == id), "{id}");
    }
}

#[test]
fn stored_passwords_read_back() {
    for p in ["MDEyMzQ1Njc4OWFi", "普通密码 with space", ""] {
        assert_eq!(MailAccount::deobfuscate(&MailAccount::obfuscate(p)), p);
    }
    assert_ne!(MailAccount::obfuscate("secret"), "secret");
}

#[test]
fn an_account_out_of_the_settings() {
    let a = MailAccount::from_config(&MailConfig {
        address: "u@example.com".into(),
        imap: Endpoint {
            host: "imap.example.com".into(),
            port: 993,
            user: String::new(),
            password: "p".into(),
            tls_insecure: true,
        },
        smtp: Endpoint {
            host: "smtp.example.com".into(),
            port: 465,
            user: "other".into(),
            password: "q".into(),
            tls_insecure: false,
        },
    });
    assert_eq!(a.imap_endpoint().user, "u@example.com");
    assert_eq!(a.smtp_endpoint().user, "other");
    assert!(a.imap_tls_insecure);
    assert!(a.is_default);
    assert!(a.enabled);
}

#[test]
fn numbers_read_as_written() {
    assert_eq!(parse_nat("42", 100), Some(42));
    assert_eq!(parse_nat("+7", 100), Some(7));
    assert_eq!(parse_nat("101", 100), None);
    assert_eq!(parse_nat("-1", 100), None);
    assert_eq!(parse_nat("", 100), None);
    assert_eq!(parse_i64("-9223372036854775808"), Some(i64::MIN));
    assert_eq!(parse_i64("9223372036854775808"), None);
    assert_eq!(parse_i32("-12"), Some(-12));
    for n in [0, -1, 10, i64::MIN, i64::MAX] {
        assert_eq!(parse_i64(&show_i64(n)), Some(n));
        assert_eq!(show_i64(n), n.to_string());
    }
}

#[test]
fn a_clock_moves_on_from_a_leap_second() {
    let leap = Stamp::parse("2016-12-31T23:59:60.5+00:00").unwrap();
    let mut c = FakeClock::new(leap);
    c.advance(1);
    let next = Stamp::parse("2017-01-01T00:00:00.5+00:00").unwrap();
    assert_eq!((c.now().secs, c.now().nanos), (next.secs, next.nanos));
    let far = Stamp { secs: 8_100_000_000_000, nanos: 7, offset: 0 };
    let mut c = FakeClock::new(far);
    c.advance(-60);
    assert_eq!((c.now().secs, c.now().nanos), (8_099_999_999_940, 7));
    c.advance(i64::MAX);
    assert_eq!((c.now().secs, c.now().nanos), (8_099_999_999_940, 7));
}

#[test]
fn the_time_of_the_clock_as_text() {
    let before = Stamp::now();
    let told = Stamp::parse(&now_str()).unwrap();
    assert!(!told.is_before(&before));
    assert!(!Stamp::now().is_before(&told));
    let last = Stamp { secs: 8_210_266_876_799, nanos: 999_999_999, offset: 86399 };
    assert_eq!(last.to_rfc3339().unwrap(), "+262143-01-01T23:59:58.999999999+24:00");
    let past = Stamp { secs: 8_210_266_876_800, nanos: 0, offset: 0 };
    assert!(past.to_rfc3339().is_none());
}
