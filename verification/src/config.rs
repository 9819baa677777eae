//! Configuration: the settings, their defaults, and what makes them complete.

use crate::model::login_name;
use crate::model::login_or_address;
use crate::number::nat_within;
use crate::number::parse_nat;
use crate::pattern::first_match;
use crate::pattern::group;
use crate::pattern::regex_first;
use crate::text::blank;
use crate::text::chars_of;
use crate::text::contains;
use crate::text::is_blank;
use crate::text::is_space;
use crate::text::lines;
use crate::text::occurs;
use crate::text::pieces;
use crate::text::same;
use crate::text::space;
use crate::text::split_char;
use crate::text::split_lines;
use crate::text::text_of;
use crate::text::texts;
use crate::text::trim;
use crate::text::trimmed;
use crate::time::zone_known;
use crate::time::Zone;
use vstd::prelude::*;
use vstd::utf8::is_ascii_chars;

verus! {

/// A mail server and how to log in.
#[derive(Debug)]
pub struct Endpoint {
    pub host: String,
    pub port: u16,
    pub user: String,
    pub password: String,
    /// Whether the name in the certificate of the server is left unchecked; the line is still encrypted.
    pub tls_insecure: bool,
}

impl Clone for Endpoint {
    fn clone(&self) -> (r: Self)
        ensures
            r == *self,
    {
        Endpoint {
            host: self.host.clone(),
            port: self.port,
            user: self.user.clone(),
            password: self.password.clone(),
            tls_insecure: self.tls_insecure,
        }
    }
}

/// The mail account of the configuration.
#[derive(Debug)]
pub struct MailConfig {
    pub address: String,
    pub imap: Endpoint,
    pub smtp: Endpoint,
}

impl Clone for MailConfig {
    fn clone(&self) -> (r: Self)
        ensures
            r == *self,
    {
        MailConfig {
            address: self.address.clone(),
            imap: self.imap.clone(),
            smtp: self.smtp.clone(),
        }
    }
}

/// How reminders go out.
#[derive(Debug)]
pub struct ReminderConfig {
    pub to: String,
    pub days_before: i64,
    pub lead_time: String,
    pub webhook_url: String,
}

impl Clone for ReminderConfig {
    fn clone(&self) -> (r: Self)
        ensures
            r == *self,
    {
        ReminderConfig {
            to: self.to.clone(),
            days_before: self.days_before,
            lead_time: self.lead_time.clone(),
            webhook_url: self.webhook_url.clone(),
        }
    }
}

/// A category of mail.
#[derive(Debug)]
pub struct CategoryDef {
    pub id: String,
    pub label: String,
    pub create_item: bool,
}

impl Clone for CategoryDef {
    fn clone(&self) -> (r: Self)
        ensures
            r == *self,
    {
        CategoryDef {
            id: self.id.clone(),
            label: self.label.clone(),
            create_item: self.create_item,
        }
    }
}

/// How the agent runs.
#[derive(Debug)]
pub struct AgentConfig {
    pub enabled: bool,
    pub max_tool_rounds: usize,
}

impl Clone for AgentConfig {
    fn clone(&self) -> (r: Self)
        ensures
            r == *self,
    {
        AgentConfig {
            enabled: self.enabled,
            max_tool_rounds: self.max_tool_rounds,
        }
    }
}

/// The language model.
#[derive(Debug)]
pub struct LlmConfig {
    pub api_key: String,
    pub base_url: String,
    pub model: String,
    pub timeout_secs: u64,
    pub categories: Vec<CategoryDef>,
    pub agent: AgentConfig,
}

/// The settings as they are written down.
#[derive(Debug)]
pub struct YamlConfig {
    pub listen: String,
    pub auth_token: String,
    pub data_dir: String,
    /// Where mail is kept; empty for the usual file in `data_dir`.
    pub mail_db: String,
    /// Where items are kept; empty for the usual file in `data_dir`.
    pub todo_db: String,
    pub timezone: String,
    pub poll_interval_secs: u64,
    pub reminder: ReminderConfig,
    pub check_times: Vec<String>,
    pub mail: MailConfig,
}

/// The settings in force.
#[derive(Debug)]
pub struct AppConfig {
    pub listen: String,
    pub auth_token: String,
    pub data_dir: String,
    pub mail_db: Option<String>,
    pub todo_db: Option<String>,
    pub timezone: Zone,
    pub poll_interval_secs: u64,
    pub reminder: ReminderConfig,
    pub check_times: Vec<String>,
    pub mail: MailConfig,
    pub llm: LlmConfig,
}

impl Default for Endpoint {
    fn default() -> (r: Self)
        ensures
            r.host@.len() == 0,
            r.port == 0,
            r.user@.len() == 0,
            r.password@.len() == 0,
            !r.tls_insecure,
    {
        Endpoint {
            host: String::new(),
            port: 0,
            user: String::new(),
            password: String::new(),
            tls_insecure: false,
        }
    }
}

/// Whether nothing is set of an endpoint.
pub open spec fn unset(e: Endpoint) -> bool {
    e.host@.len() == 0 && e.port == 0 && e.user@.len() == 0 && e.password@.len() == 0
        && !e.tls_insecure
}

impl Default for MailConfig {
    fn default() -> (r: Self)
        ensures
            r.address@.len() == 0,
            unset(r.imap),
            unset(r.smtp),
    {
        MailConfig {
            address: String::new(),
            imap: Endpoint::default(),
            smtp: Endpoint::default(),
        }
    }
}

pub fn default_days_before() -> (r: i64)
    ensures
        r == 1,
{
    1
}

pub fn default_lead_time() -> (r: String)
    ensures
        r@ == "09:00"@,
{
    "09:00".to_owned()
}

pub fn default_true() -> (r: bool)
    ensures
        r,
{
    true
}

pub fn default_max_tool_rounds() -> (r: usize)
    ensures
        r == 8,
{
    8
}

pub fn default_timeout_secs() -> (r: u64)
    ensures
        r == 60,
{
    60
}

pub fn default_listen() -> (r: String)
    ensures
        r@ == "127.0.0.1:8080"@,
{
    "127.0.0.1:8080".to_owned()
}

pub fn default_data_dir() -> (r: String)
    ensures
        r@ == "./data"@,
{
    "./data".to_owned()
}

pub fn default_poll_interval() -> (r: u64)
    ensures
        r == 60,
{
    60
}

/// The times of day at which everything is checked.
pub open spec fn usual_check_times() -> Seq<Seq<char>> {
    seq!["06:00"@, "12:30"@, "18:30"@, "00:00"@]
}

pub fn default_check_times() -> (r: Vec<String>)
    ensures
        texts(r@) == usual_check_times(),
{
    let r = vec!["06:00".to_owned(), "12:30".to_owned(), "18:30".to_owned(), "00:00".to_owned()];
    assert(texts(r@) =~= usual_check_times());
    r
}

impl Default for ReminderConfig {
    fn default() -> (r: Self)
        ensures
            r.to@.len() == 0,
            r.days_before == 1,
            r.lead_time@ == "09:00"@,
            r.webhook_url@.len() == 0,
    {
        ReminderConfig {
            to: String::new(),
            days_before: default_days_before(),
            lead_time: default_lead_time(),
            webhook_url: String::new(),
        }
    }
}

impl Default for AgentConfig {
    fn default() -> (r: Self)
        ensures
            r.enabled,
            r.max_tool_rounds == 8,
    {
        AgentConfig { enabled: true, max_tool_rounds: default_max_tool_rounds() }
    }
}

/// The settings of which nothing was written down, but for the mail account.
pub open spec fn usual_settings(c: YamlConfig) -> bool {
    &&& c.listen@ == "127.0.0.1:8080"@
    &&& c.auth_token@.len() == 0
    &&& c.data_dir@ == "./data"@
    &&& c.mail_db@.len() == 0
    &&& c.todo_db@.len() == 0
    &&& c.timezone@.len() == 0
    &&& c.poll_interval_secs == 60
    &&& c.reminder.to@.len() == 0
    &&& c.reminder.days_before == 1
    &&& c.reminder.lead_time@ == "09:00"@
    &&& c.reminder.webhook_url@.len() == 0
    &&& texts(c.check_times@) == usual_check_times()
}

impl Default for YamlConfig {
    fn default() -> (r: Self)
        ensures
            usual_settings(r),
            r.mail.address@.len() == 0,
            unset(r.mail.imap),
            unset(r.mail.smtp),
    {
        YamlConfig {
            listen: default_listen(),
            auth_token: String::new(),
            data_dir: default_data_dir(),
            mail_db: String::new(),
            todo_db: String::new(),
            timezone: String::new(),
            poll_interval_secs: default_poll_interval(),
            reminder: ReminderConfig::default(),
            check_times: default_check_times(),
            mail: MailConfig::default(),
        }
    }
}

/// A category as id, label and whether its mail makes items.
pub type CategoryView = (Seq<char>, Seq<char>, bool);

/// The categories over plain text.
pub open spec fn category_views(c: Seq<CategoryDef>) -> Seq<CategoryView> {
    c.map_values(|d: CategoryDef| (d.id@, d.label@, d.create_item))
}

/// The categories that are there from the start.
pub open spec fn usual_categories() -> Seq<CategoryView> {
    seq![
        ("todo"@, "事务预约/待办"@, true),
        ("interview"@, "面试"@, true),
        ("assessment"@, "测评"@, true),
        ("written_test"@, "笔试"@, true),
        ("notification"@, "通知类"@, false),
        ("career_promo"@, "招聘推广"@, false),
        ("conversation"@, "对话交流型"@, false),
        ("misc"@, "其他"@, false),
    ]
}

fn category_def(id: &str, label: &str, create_item: bool) -> (r: CategoryDef)
    ensures
        r.id@ == id@,
        r.label@ == label@,
        r.create_item == create_item,
{
    CategoryDef { id: id.to_owned(), label: label.to_owned(), create_item }
}

/// The categories that are there from the start.
pub fn default_categories() -> (r: Vec<CategoryDef>)
    ensures
        category_views(r@) == usual_categories(),
{
    let r = vec![
        category_def("todo", "事务预约/待办", true),
        category_def("interview", "面试", true),
        category_def("assessment", "测评", true),
        category_def("written_test", "笔试", true),
        category_def("notification", "通知类", false),
        category_def("career_promo", "招聘推广", false),
        category_def("conversation", "对话交流型", false),
        category_def("misc", "其他", false),
    ];
    assert(category_views(r@) =~= usual_categories());
    r
}

/// Why a text is no time of day.
#[derive(Clone, Copy, Debug, PartialEq, Eq, Structural)]
pub enum HhmmError {
    /// It is not two parts with a colon between them.
    Shape,
    Hour,
    Minute,
    /// There is no such time.
    Range,
}

impl HhmmError {
    /// The message for users.
    pub fn message(&self) -> (r: &'static str)
        ensures
            r@ == match self {
                HhmmError::Shape => "需要 HH:MM 格式"@,
                HhmmError::Hour => "小时非法"@,
                HhmmError::Minute => "分钟非法"@,
                HhmmError::Range => "时刻越界"@,
            },
    {
        match self {
            HhmmError::Shape => "需要 HH:MM 格式",
            HhmmError::Hour => "小时非法",
            HhmmError::Minute => "分钟非法",
            HhmmError::Range => "时刻越界",
        }
    }
}

/// The hour and the minute in a text.
pub open spec fn hhmm(s: Seq<char>) -> Result<(u32, u32), HhmmError> {
    let parts = pieces(trimmed(s), ':');
    if parts.len() != 2 {
        Err(HhmmError::Shape)
    } else {
        match nat_within(parts[0], u32::MAX as int) {
            None => Err(HhmmError::Hour),
            Some(h) => match nat_within(parts[1], u32::MAX as int) {
                None => Err(HhmmError::Minute),
                Some(m) => if h > 23 || m > 59 {
                    Err(HhmmError::Range)
                } else {
                    Ok((h as u32, m as u32))
                },
            },
        }
    }
}

/// The hour and the minute in a text.
pub fn parse_hhmm(s: &str) -> (r: Result<(u32, u32), HhmmError>)
    ensures
        r == hhmm(s@),
        r matches Ok(t) ==> t.0 <= 23 && t.1 <= 59,
{
    let t = trim(s);
    let parts = split_char(t.as_str(), ':');
    assert(texts(parts@).len() == parts@.len());
    if parts.len() != 2 {
        return Err(HhmmError::Shape);
    }
    assert(texts(parts@)[0] == parts@[0]@ && texts(parts@)[1] == parts@[1]@);
    let h = match parse_nat(parts[0].as_str(), 4294967295) {
        Some(h) => h,
        None => return Err(HhmmError::Hour),
    };
    let m = match parse_nat(parts[1].as_str(), 4294967295) {
        Some(m) => m,
        None => return Err(HhmmError::Minute),
    };
    if h > 23 || m > 59 {
        return Err(HhmmError::Range);
    }
    Ok((h as u32, m as u32))
}

pub const PROVIDER_ADDRESS: &'static str = r"邮件地址\s*([^\s@]+@[^\s@]+)";

pub const PROVIDER_IMAP_HOST: &'static str = r"收信服务器\s*\(IMAP\)\s*([^\s:]+)";

pub const PROVIDER_IMAP_PORT: &'static str = r"收信服务器\s*\(IMAP\)[^\n]*?SSL\s*端口:\s*(\d+)";

pub const PROVIDER_SMTP_HOST: &'static str = r"发信服务器\s*\(SMTP\)\s*([^\s:]+)";

pub const PROVIDER_SMTP_PORT: &'static str = r"发信服务器\s*\(SMTP\)[^\n]*?SSL\s*端口:\s*(\d+)";

/// What the first group of the first match of a pattern holds, without white space around it.
pub open spec fn captured(raw: Seq<char>, pattern: Seq<char>) -> Option<Seq<char>> {
    match regex_first(pattern, raw) {
        Some(f) => match group(f, 1) {
            Some(t) => Some(trimmed(t)),
            None => None,
        },
        None => None,
    }
}

/// The port number that the first group of the first match of a pattern holds.
pub open spec fn captured_port(raw: Seq<char>, pattern: Seq<char>) -> Option<int> {
    match captured(raw, pattern) {
        Some(t) => nat_within(t, u16::MAX as int),
        None => None,
    }
}

/// What the first group of the first match of a pattern holds.
fn find_re(raw: &str, pattern: &str) -> (r: Option<String>)
    ensures
        text_of(r) == captured(raw@, pattern@),
{
    match first_match(pattern, raw) {
        Some(f) => match f.group(1) {
            Some(t) => Some(trim(t.as_str())),
            None => None,
        },
        None => None,
    }
}

fn find_port(raw: &str, pattern: &str) -> (r: Option<u16>)
    ensures
        match r {
            Some(n) => captured_port(raw@, pattern@) == Some(n as int),
            None => captured_port(raw@, pattern@) is None,
        },
{
    match find_re(raw, pattern) {
        Some(t) => match parse_nat(t.as_str(), 65535) {
            Some(n) => Some(n as u16),
            None => None,
        },
        None => None,
    }
}

/// Whether a line is one piece of ASCII text.
pub open spec fn token(t: Seq<char>) -> bool {
    t.len() > 0 && !t.contains(' ') && !t.contains('\t') && is_ascii_chars(t)
}

/// Whether a letter of ASCII occurs.
pub open spec fn any_letter(t: Seq<char>) -> bool {
    exists|i: int| 0 <= i < t.len() && letter(#[trigger] t[i])
}

/// Whether the character is a letter of ASCII.
pub open spec fn letter(c: char) -> bool {
    'a' <= c <= 'z' || 'A' <= c <= 'Z'
}

/// Whether a line can be a password: 8 to 64 characters of ASCII, none of them white space.
pub open spec fn password_like(t: Seq<char>) -> bool {
    8 <= t.len() <= 64 && forall|i: int|
        0 <= i < t.len() ==> #[trigger] t[i] <= '\u{7f}' && !space(t[i])
}

/// The first token in up to `n` lines, none of the lines before it holding a letter.
pub open spec fn token_within(lines: Seq<Seq<char>>, n: nat) -> Option<Seq<char>>
    decreases n,
{
    if n == 0 || lines.len() == 0 {
        None
    } else {
        let t = trimmed(lines[0]);
        if token(t) {
            Some(t)
        } else if any_letter(t) {
            None
        } else {
            token_within(lines.drop_first(), (n - 1) as nat)
        }
    }
}

/// The token that follows the first line with the words for an application password.
pub open spec fn marked_password(lines: Seq<Seq<char>>) -> Option<Seq<char>>
    decreases lines.len(),
{
    if lines.len() == 0 {
        None
    } else if occurs(lines[0], "专用密码"@) {
        token_within(lines.drop_first(), 4)
    } else {
        marked_password(lines.drop_first())
    }
}

/// The first line that can be a password.
pub open spec fn bare_password(lines: Seq<Seq<char>>) -> Option<Seq<char>>
    decreases lines.len(),
{
    if lines.len() == 0 {
        None
    } else if password_like(trimmed(lines[0])) {
        Some(trimmed(lines[0]))
    } else {
        bare_password(lines.drop_first())
    }
}

/// The password in a provider's text.
pub open spec fn provider_password(raw: Seq<char>) -> Option<Seq<char>> {
    match marked_password(lines(raw)) {
        Some(t) => Some(t),
        None => bare_password(lines(raw)),
    }
}

fn is_token(t: &str) -> (r: bool)
    ensures
        r == token(t@),
{
    let v = chars_of(t);
    if v.len() == 0 || !t.is_ascii() {
        return false;
    }
    let mut i: usize = 0;
    while i < v.len()
        invariant
            v@ == t@,
            i <= v@.len(),
            forall|k: int| 0 <= k < i ==> v@[k] != ' ' && v@[k] != '\t',
        decreases v@.len() - i,
    {
        if v[i] == ' ' || v[i] == '\t' {
            assert(t@.contains(v@[i as int]));
            return false;
        }
        i += 1;
    }
    true
}

fn has_letter(t: &str) -> (r: bool)
    ensures
        r == any_letter(t@),
{
    let v = chars_of(t);
    let mut i: usize = 0;
    while i < v.len()
        invariant
            v@ == t@,
            i <= v@.len(),
            forall|k: int| 0 <= k < i ==> !letter(#[trigger] v@[k]),
        decreases v@.len() - i,
    {
        let c = v[i];
        if ('a' <= c && c <= 'z') || ('A' <= c && c <= 'Z') {
            assert(letter(t@[i as int]));
            return true;
        }
        i += 1;
    }
    false
}

fn is_password_like(t: &str) -> (r: bool)
    ensures
        r == password_like(t@),
{
    let v = chars_of(t);
    if v.len() < 8 || v.len() > 64 {
        return false;
    }
    let mut i: usize = 0;
    while i < v.len()
        invariant
            v@ == t@,
            i <= v@.len(),
            forall|k: int| 0 <= k < i ==> #[trigger] v@[k] <= '\u{7f}' && !space(v@[k]),
        decreases v@.len() - i,
    {
        if v[i] > '\u{7f}' || is_space(v[i]) {
            assert(!(t@[i as int] <= '\u{7f}' && !space(t@[i as int])));
            return false;
        }
        i += 1;
    }
    true
}

fn find_token_within(ls: &Vec<String>, from: usize) -> (r: Option<String>)
    requires
        from <= ls@.len(),
    ensures
        text_of(r) == token_within(texts(ls@).skip(from as int), 4),
{
    let ghost all = texts(ls@);
    let mut i: usize = from;
    let mut n: usize = 4;
    while n > 0 && i < ls.len()
        invariant
            all == texts(ls@),
            from <= i <= ls@.len(),
            n <= 4,
            token_within(all.skip(from as int), 4) == token_within(all.skip(i as int), n as nat),
        decreases n,
    {
        assert(all.skip(i as int)[0] == ls@[i as int]@);
        assert(all.skip(i as int).drop_first() == all.skip(i + 1));
        let t = trim(ls[i].as_str());
        if is_token(t.as_str()) {
            return Some(t);
        }
        if has_letter(t.as_str()) {
            return None;
        }
        i += 1;
        n -= 1;
    }
    None
}

fn find_marked_password(ls: &Vec<String>) -> (r: Option<String>)
    ensures
        text_of(r) == marked_password(texts(ls@)),
{
    let ghost all = texts(ls@);
    let mut i: usize = 0;
    assert(all.skip(0) == all);
    while i < ls.len()
        invariant
            all == texts(ls@),
            i <= ls@.len(),
            marked_password(all) == marked_password(all.skip(i as int)),
        decreases ls@.len() - i,
    {
        assert(all.skip(i as int)[0] == ls@[i as int]@);
        assert(all.skip(i as int).drop_first() == all.skip(i + 1));
        if contains(ls[i].as_str(), "专用密码") {
            return find_token_within(ls, i + 1);
        }
        i += 1;
    }
    None
}

fn find_bare_password(ls: &Vec<String>) -> (r: Option<String>)
    ensures
        text_of(r) == bare_password(texts(ls@)),
{
    let ghost all = texts(ls@);
    let mut i: usize = 0;
    assert(all.skip(0) == all);
    while i < ls.len()
        invariant
            all == texts(ls@),
            i <= ls@.len(),
            bare_password(all) == bare_password(all.skip(i as int)),
        decreases ls@.len() - i,
    {
        assert(all.skip(i as int)[0] == ls@[i as int]@);
        assert(all.skip(i as int).drop_first() == all.skip(i + 1));
        let t = trim(ls[i].as_str());
        if is_password_like(t.as_str()) {
            return Some(t);
        }
        i += 1;
    }
    None
}

/// The password in a provider's text: what follows the words for an application password, else
/// the first line that can be one.
pub fn find_provider_password(raw: &str) -> (r: Option<String>)
    ensures
        text_of(r) == provider_password(raw@),
{
    let ls = split_lines(raw);
    match find_marked_password(&ls) {
        Some(t) => Some(t),
        None => find_bare_password(&ls),
    }
}

/// What a provider's text lacks.
#[derive(Clone, Copy, Debug, PartialEq, Eq, Structural)]
pub enum ProviderError {
    Address,
    ImapHost,
    ImapPort,
    SmtpHost,
    SmtpPort,
    Password,
}

impl ProviderError {
    /// The message for users.
    pub fn message(&self) -> (r: &'static str)
        ensures
            r@ == match self {
                ProviderError::Address => "文本配置中未找到 邮件地址"@,
                ProviderError::ImapHost => "文本配置中未找到 收信服务器(IMAP)"@,
                ProviderError::ImapPort => "文本配置中未找到 IMAP SSL 端口"@,
                ProviderError::SmtpHost => "文本配置中未找到 发信服务器(SMTP)"@,
                ProviderError::SmtpPort => "文本配置中未找到 SMTP SSL 端口"@,
                ProviderError::Password => "文本配置中未找到邮箱密码（专用密码）"@,
            },
    {
        match self {
            ProviderError::Address => "文本配置中未找到 邮件地址",
            ProviderError::ImapHost => "文本配置中未找到 收信服务器(IMAP)",
            ProviderError::ImapPort => "文本配置中未找到 IMAP SSL 端口",
            ProviderError::SmtpHost => "文本配置中未找到 发信服务器(SMTP)",
            ProviderError::SmtpPort => "文本配置中未找到 SMTP SSL 端口",
            ProviderError::Password => "文本配置中未找到邮箱密码（专用密码）",
        }
    }
}

/// The first thing that a provider's text lacks.
pub open spec fn provider_lack(raw: Seq<char>) -> Option<ProviderError> {
    if captured(raw, PROVIDER_ADDRESS@) is None {
        Some(ProviderError::Address)
    } else if captured(raw, PROVIDER_IMAP_HOST@) is None {
        Some(ProviderError::ImapHost)
    } else if captured_port(raw, PROVIDER_IMAP_PORT@) is None {
        Some(ProviderError::ImapPort)
    } else if captured(raw, PROVIDER_SMTP_HOST@) is None {
        Some(ProviderError::SmtpHost)
    } else if captured_port(raw, PROVIDER_SMTP_PORT@) is None {
        Some(ProviderError::SmtpPort)
    } else if provider_password(raw) is None {
        Some(ProviderError::Password)
    } else {
        None
    }
}

/// Whether an endpoint is the one that a provider's text describes.
pub open spec fn provider_endpoint(
    e: Endpoint,
    raw: Seq<char>,
    host: Seq<char>,
    port: Seq<char>,
) -> bool {
    &&& captured(raw, host) == Some(e.host@)
    &&& captured_port(raw, port) == Some(e.port as int)
    &&& captured(raw, PROVIDER_ADDRESS@) == Some(e.user@)
    &&& provider_password(raw) == Some(e.password@)
    &&& !e.tls_insecure
}

/// The settings from the text that a mail provider shows: address, servers with their ports for
/// encrypted lines, and the application password; the rest as usual.
pub fn parse_provider_text(raw: &str) -> (r: Result<YamlConfig, ProviderError>)
    ensures
        match r {
            Ok(c) => {
                &&& provider_lack(raw@) is None
                &&& captured(raw@, PROVIDER_ADDRESS@) == Some(c.mail.address@)
                &&& provider_endpoint(c.mail.imap, raw@, PROVIDER_IMAP_HOST@, PROVIDER_IMAP_PORT@)
                &&& provider_endpoint(c.mail.smtp, raw@, PROVIDER_SMTP_HOST@, PROVIDER_SMTP_PORT@)
                &&& usual_settings(c)
            },
            Err(e) => provider_lack(raw@) == Some(e),
        },
{
    let addr = match find_re(raw, PROVIDER_ADDRESS) {
        Some(t) => t,
        None => return Err(ProviderError::Address),
    };
    let imap_host = match find_re(raw, PROVIDER_IMAP_HOST) {
        Some(t) => t,
        None => return Err(ProviderError::ImapHost),
    };
    let imap_port = match find_port(raw, PROVIDER_IMAP_PORT) {
        Some(n) => n,
        None => return Err(ProviderError::ImapPort),
    };
    let smtp_host = match find_re(raw, PROVIDER_SMTP_HOST) {
        Some(t) => t,
        None => return Err(ProviderError::SmtpHost),
    };
    let smtp_port = match find_port(raw, PROVIDER_SMTP_PORT) {
        Some(n) => n,
        None => return Err(ProviderError::SmtpPort),
    };
    let password = match find_provider_password(raw) {
        Some(t) => t,
        None => return Err(ProviderError::Password),
    };
    let mut c = YamlConfig::default();
    c.mail = MailConfig {
        address: addr.clone(),
        imap: Endpoint {
            host: imap_host,
            port: imap_port,
            user: addr.clone(),
            password: password.clone(),
            tls_insecure: false,
        },
        smtp: Endpoint {
            host: smtp_host,
            port: smtp_port,
            user: addr,
            password,
            tls_insecure: false,
        },
    };
    Ok(c)
}

/// Why settings cannot be put in force.
#[derive(Clone, Copy, Debug, PartialEq, Eq, Structural)]
pub enum ConfigError {
    NoAddress,
    NoImapHost,
    NoSmtpHost,
    NoModel,
    /// The check time at that place is no time of day.
    CheckTime(usize, HhmmError),
    LeadTime(HhmmError),
    Timezone,
}

/// The place of the first text that is no time of day.
pub open spec fn first_bad_time(times: Seq<Seq<char>>) -> Option<int>
    decreases times.len(),
{
    if times.len() == 0 {
        None
    } else if hhmm(times[0]) is Err {
        Some(0)
    } else {
        match first_bad_time(times.drop_first()) {
            Some(i) => Some(i + 1),
            None => None,
        }
    }
}

fn find_bad_time(times: &Vec<String>) -> (r: Option<(usize, HhmmError)>)
    ensures
        match r {
            Some((i, e)) => first_bad_time(texts(times@)) == Some(i as int) && i < times@.len()
                && hhmm(times@[i as int]@) == Err::<(u32, u32), HhmmError>(e),
            None => first_bad_time(texts(times@)) is None,
        },
{
    let ghost all = texts(times@);
    let mut i: usize = 0;
    assert(all.skip(0) == all);
    while i < times.len()
        invariant
            all == texts(times@),
            i <= times@.len(),
            first_bad_time(all) == (match first_bad_time(all.skip(i as int)) {
                Some(k) => Some(k + i),
                None => None,
            }),
        decreases times@.len() - i,
    {
        assert(all.skip(i as int)[0] == times@[i as int]@);
        assert(all.skip(i as int).drop_first() == all.skip(i + 1));
        match parse_hhmm(times[i].as_str()) {
            Ok(_) => {},
            Err(e) => return Some((i, e)),
        }
        i += 1;
    }
    None
}

/// The zone of the settings: the one that is written down; else that of the system, where the
/// database knows it; else Shanghai.
pub open spec fn chosen_zone(written: Seq<char>, system: Option<Seq<char>>) -> Option<Seq<char>> {
    if blank(written) {
        match system {
            Some(n) if zone_known(n) => Some(n),
            _ => Some("Asia/Shanghai"@),
        }
    } else if zone_known(written) {
        Some(written)
    } else {
        None
    }
}

fn choose_zone(written: &str, system: &Option<String>) -> (r: Option<Zone>)
    ensures
        match r {
            Some(z) => chosen_zone(written@, text_of(*system)) == Some(z@),
            None => chosen_zone(written@, text_of(*system)) is None,
        },
{
    if is_blank(written) {
        if let Some(n) = system {
            if let Some(z) = Zone::new(n.as_str()) {
                return Some(z);
            }
        }
        Some(Zone { name: "Asia/Shanghai".to_owned() })
    } else {
        Zone::new(written)
    }
}

/// A text unless it is blank.
pub open spec fn unless_blank(s: Seq<char>) -> Option<Seq<char>> {
    if blank(s) {
        None
    } else {
        Some(s)
    }
}

fn some_unless_blank(s: String) -> (r: Option<String>)
    ensures
        text_of(r) == unless_blank(s@),
{
    if is_blank(s.as_str()) {
        None
    } else {
        Some(s)
    }
}

/// What stops settings from being put in force, in the order in which it is looked for.
pub open spec fn config_fault(yc: YamlConfig, llm: LlmConfig, system: Option<Seq<char>>) -> Option<
    ConfigError,
> {
    if blank(yc.mail.address@) {
        Some(ConfigError::NoAddress)
    } else if blank(yc.mail.imap.host@) {
        Some(ConfigError::NoImapHost)
    } else if blank(yc.mail.smtp.host@) {
        Some(ConfigError::NoSmtpHost)
    } else if blank(llm.api_key@) || blank(llm.model@) {
        Some(ConfigError::NoModel)
    } else {
        match first_bad_time(texts(yc.check_times@)) {
            Some(i) => Some(
                ConfigError::CheckTime(i as usize, hhmm(texts(yc.check_times@)[i])->Err_0),
            ),
            None => match hhmm(yc.reminder.lead_time@) {
                Err(e) => Some(ConfigError::LeadTime(e)),
                Ok(_) => if chosen_zone(yc.timezone@, system) is None {
                    Some(ConfigError::Timezone)
                } else {
                    None
                },
            },
        }
    }
}

/// The first category of that id.
pub open spec fn category_at(c: Seq<CategoryDef>, id: Seq<char>) -> Option<int>
    decreases c.len(),
{
    if c.len() == 0 {
        None
    } else if c[0].id@ == id {
        Some(0)
    } else {
        match category_at(c.drop_first(), id) {
            Some(i) => Some(i + 1),
            None => None,
        }
    }
}

/// The label of a category; its id where there is no such category.
pub open spec fn label_in(c: Seq<CategoryDef>, id: Seq<char>) -> Seq<char> {
    match category_at(c, id) {
        Some(i) => c[i].label@,
        None => id,
    }
}

proof fn category_at_bound(c: Seq<CategoryDef>, id: Seq<char>)
    ensures
        category_at(c, id) matches Some(i) ==> 0 <= i < c.len() && c[i].id@ == id,
    decreases c.len(),
{
    if c.len() > 0 {
        category_at_bound(c.drop_first(), id);
    }
}

impl AppConfig {
    /// Puts settings in force: the account and the model must be there, times must be times, and
    /// the zone must be known; a user name that is not given is the address, and so is the address
    /// that reminders go to; mail is looked for every five seconds at most.
    pub fn assemble(yc: YamlConfig, llm: LlmConfig, system_zone: Option<String>) -> (r: Result<
        AppConfig,
        ConfigError,
    >)
        ensures
            match r {
                Err(e) => config_fault(yc, llm, text_of(system_zone)) == Some(e),
                Ok(c) => {
                    &&& config_fault(yc, llm, text_of(system_zone)) is None
                    &&& c.listen == yc.listen
                    &&& c.auth_token == yc.auth_token
                    &&& c.data_dir == yc.data_dir
                    &&& text_of(c.mail_db) == unless_blank(yc.mail_db@)
                    &&& text_of(c.todo_db) == unless_blank(yc.todo_db@)
                    &&& chosen_zone(yc.timezone@, text_of(system_zone)) == Some(c.timezone@)
                    &&& c.poll_interval_secs == if yc.poll_interval_secs < 5 {
                        5
                    } else {
                        yc.poll_interval_secs
                    }
                    &&& c.reminder.to@ == login_name(yc.reminder.to@, yc.mail.address@)
                    &&& c.reminder.days_before == yc.reminder.days_before
                    &&& c.reminder.lead_time == yc.reminder.lead_time
                    &&& c.reminder.webhook_url == yc.reminder.webhook_url
                    &&& c.check_times == yc.check_times
                    &&& c.mail.address == yc.mail.address
                    &&& c.mail.imap.host == yc.mail.imap.host
                    &&& c.mail.imap.port == yc.mail.imap.port
                    &&& c.mail.imap.user@ == login_name(yc.mail.imap.user@, yc.mail.address@)
                    &&& c.mail.imap.password == yc.mail.imap.password
                    &&& c.mail.imap.tls_insecure == yc.mail.imap.tls_insecure
                    &&& c.mail.smtp.host == yc.mail.smtp.host
                    &&& c.mail.smtp.port == yc.mail.smtp.port
                    &&& c.mail.smtp.user@ == login_name(yc.mail.smtp.user@, yc.mail.address@)
                    &&& c.mail.smtp.password == yc.mail.smtp.password
                    &&& c.mail.smtp.tls_insecure == yc.mail.smtp.tls_insecure
                    &&& c.llm == llm
                },
            },
    {
        if is_blank(yc.mail.address.as_str()) {
            return Err(ConfigError::NoAddress);
        }
        if is_blank(yc.mail.imap.host.as_str()) {
            return Err(ConfigError::NoImapHost);
        }
        if is_blank(yc.mail.smtp.host.as_str()) {
            return Err(ConfigError::NoSmtpHost);
        }
        if is_blank(llm.api_key.as_str()) || is_blank(llm.model.as_str()) {
            return Err(ConfigError::NoModel);
        }
        if let Some((i, e)) = find_bad_time(&yc.check_times) {
            assert(texts(yc.check_times@)[i as int] == yc.check_times@[i as int]@);
            return Err(ConfigError::CheckTime(i, e));
        }
        if let Err(e) = parse_hhmm(yc.reminder.lead_time.as_str()) {
            return Err(ConfigError::LeadTime(e));
        }
        let timezone = match choose_zone(yc.timezone.as_str(), &system_zone) {
            Some(z) => z,
            None => return Err(ConfigError::Timezone),
        };
        let imap_user = login_or_address(&yc.mail.imap.user, &yc.mail.address);
        let smtp_user = login_or_address(&yc.mail.smtp.user, &yc.mail.address);
        let to = login_or_address(&yc.reminder.to, &yc.mail.address);
        Ok(
            AppConfig {
                listen: yc.listen,
                auth_token: yc.auth_token,
                data_dir: yc.data_dir,
                mail_db: some_unless_blank(yc.mail_db),
                todo_db: some_unless_blank(yc.todo_db),
                timezone,
                poll_interval_secs: if yc.poll_interval_secs < 5 {
                    5
                } else {
                    yc.poll_interval_secs
                },
                reminder: ReminderConfig {
                    to,
                    days_before: yc.reminder.days_before,
                    lead_time: yc.reminder.lead_time,
                    webhook_url: yc.reminder.webhook_url,
                },
                check_times: yc.check_times,
                mail: MailConfig {
                    address: yc.mail.address,
                    imap: Endpoint {
                        host: yc.mail.imap.host,
                        port: yc.mail.imap.port,
                        user: imap_user,
                        password: yc.mail.imap.password,
                        tls_insecure: yc.mail.imap.tls_insecure,
                    },
                    smtp: Endpoint {
                        host: yc.mail.smtp.host,
                        port: yc.mail.smtp.port,
                        user: smtp_user,
                        password: yc.mail.smtp.password,
                        tls_insecure: yc.mail.smtp.tls_insecure,
                    },
                },
                llm,
            },
        )
    }

    /// The category of that id.
    pub fn category(&self, id: &str) -> (r: Option<&CategoryDef>)
        ensures
            match r {
                Some(c) => category_at(self.llm.categories@, id@) is Some && *c
                    == self.llm.categories@[category_at(self.llm.categories@, id@)->0],
                None => category_at(self.llm.categories@, id@) is None,
            },
    {
        let list = &self.llm.categories;
        let ghost all = list@;
        let mut i: usize = 0;
        assert(all.skip(0) == all);
        while i < list.len()
            invariant
                all == list@,
                *list == self.llm.categories,
                i <= list@.len(),
                category_at(all, id@) == (match category_at(all.skip(i as int), id@) {
                    Some(k) => Some(k + i),
                    None => None,
                }),
            decreases list@.len() - i,
        {
            assert(all.skip(i as int).drop_first() == all.skip(i + 1));
            if same(list[i].id.as_str(), id) {
                return Some(&list[i]);
            }
            i += 1;
        }
        None
    }

    /// The label of a category, for the subject of a reminder; its id where there is none.
    pub fn category_label(&self, id: &str) -> (r: String)
        ensures
            r@ == label_in(self.llm.categories@, id@),
    {
        match self.category(id) {
            Some(c) => c.label.clone(),
            None => id.to_owned(),
        }
    }

    /// Whether mail of the category makes items.
    pub fn category_creates_item(&self, id: &str) -> (r: bool)
        ensures
            r == match category_at(self.llm.categories@, id@) {
                Some(i) => self.llm.categories@[i].create_item,
                None => false,
            },
    {
        match self.category(id) {
            Some(c) => c.create_item,
            None => false,
        }
    }
}

} // verus!
