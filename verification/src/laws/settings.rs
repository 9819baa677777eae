//! The settings: what holds where nothing is written, what is read from the text of a mail
//! provider, and what keeps settings from being put in force.

use crate::config::any_letter;
use crate::config::bare_password;
use crate::config::captured;
use crate::config::captured_port;
use crate::config::chosen_zone;
use crate::config::config_fault;
use crate::config::ConfigError;
use crate::config::Endpoint;
use crate::config::first_bad_time;
use crate::config::hhmm;
use crate::config::letter;
use crate::config::LlmConfig;
use crate::config::marked_password;
use crate::config::password_like;
use crate::config::provider_endpoint;
use crate::config::provider_lack;
use crate::config::provider_password;
use crate::config::ProviderError;
use crate::config::PROVIDER_ADDRESS;
use crate::config::PROVIDER_IMAP_HOST;
use crate::config::PROVIDER_IMAP_PORT;
use crate::config::PROVIDER_SMTP_HOST;
use crate::config::PROVIDER_SMTP_PORT;
use crate::config::token;
use crate::config::token_within;
use crate::config::unless_blank;
use crate::config::usual_categories;
use crate::config::usual_check_times;
use crate::config::usual_settings;
use crate::config::YamlConfig;
use crate::laws::digits_are_read_as_written;
use crate::laws::holds;
use crate::laws::is_number;
use crate::laws::only_space;
use crate::laws::searching_finds_what_is_there;
use crate::laws::trimming_takes_the_white_space;
use crate::laws::what_is_blank;
use crate::pattern::regex_first;
use crate::text::lines;
use crate::text::space;
use crate::text::texts;
use crate::text::trimmed;
use crate::time::zone_known;
use vstd::prelude::*;
use vstd::utf8::is_ascii_chars;

verus! {

/// Everything is checked at four times of day, one of them midnight.
pub proof fn when_everything_is_checked()
    ensures
        usual_check_times().len() == 4,
        usual_check_times()[0] == "06:00"@,
        usual_check_times()[1] == "12:30"@,
        usual_check_times()[2] == "18:30"@,
        usual_check_times()[3] == "00:00"@,
{
}

/// Of the categories that are there from the start four make items, and no two have one id.
pub proof fn categories_from_the_start()
    ensures
        usual_categories().len() == 8,
        forall|i: int| 0 <= i < 8 ==> (#[trigger] usual_categories()[i]).2 == (i < 4),
        usual_categories()[0] == ("todo"@, "事务预约/待办"@, true),
        usual_categories()[1] == ("interview"@, "面试"@, true),
        usual_categories()[2] == ("assessment"@, "测评"@, true),
        usual_categories()[3] == ("written_test"@, "笔试"@, true),
        usual_categories()[4] == ("notification"@, "通知类"@, false),
        usual_categories()[5] == ("career_promo"@, "招聘推广"@, false),
        usual_categories()[6] == ("conversation"@, "对话交流型"@, false),
        usual_categories()[7] == ("misc"@, "其他"@, false),
{
}

/// Where nothing is written the service listens on this machine only, without a token, looks for
/// mail every minute and reminds at nine in the morning of the day before.
pub proof fn settings_from_the_start(c: YamlConfig)
    requires
        usual_settings(c),
    ensures
        c.listen@ == "127.0.0.1:8080"@,
        c.auth_token@.len() == 0,
        c.data_dir@ == "./data"@,
        c.mail_db@.len() == 0 && c.todo_db@.len() == 0 && c.timezone@.len() == 0,
        c.poll_interval_secs == 60,
        c.reminder.days_before == 1,
        c.reminder.lead_time@ == "09:00"@,
        c.reminder.to@.len() == 0 && c.reminder.webhook_url@.len() == 0,
        c.check_times@.len() == 4,
        c.check_times@[0]@ == "06:00"@,
        c.check_times@[3]@ == "00:00"@,
{
    let t = texts(c.check_times@);
    assert(t.len() == 4);
    assert(t[0] == c.check_times@[0]@);
    assert(t[3] == c.check_times@[3]@);
}

/// What is read from the text of a provider stands in the first group of the first match, without
/// the white space around it; a port is a number of no more than sixteen bits.
pub proof fn what_a_provider_says(
    raw: Seq<char>,
    pattern: Seq<char>,
    x: Seq<char>,
    t: Seq<char>,
    y: Seq<char>,
    n: int,
)
    requires
        only_space(x) && only_space(y),
        t.len() > 0 ==> !space(t[0]) && !space(t.last()),
    ensures
        regex_first(pattern, raw) is None ==> captured(raw, pattern) is None && captured_port(
            raw,
            pattern,
        ) is None,
        regex_first(pattern, raw) matches Some(f) ==> f.1.len() > 1 && f.1[1] == Some(x + t + y)
            ==> captured(raw, pattern) == Some(t) && (is_number(t, n) ==> captured_port(raw, pattern)
            == Some(n)),
        PROVIDER_ADDRESS@ == r"邮件地址\s*([^\s@]+@[^\s@]+)"@,
        PROVIDER_IMAP_HOST@ == r"收信服务器\s*\(IMAP\)\s*([^\s:]+)"@,
        PROVIDER_IMAP_PORT@ == r"收信服务器\s*\(IMAP\)[^\n]*?SSL\s*端口:\s*(\d+)"@,
        PROVIDER_SMTP_HOST@ == r"发信服务器\s*\(SMTP\)\s*([^\s:]+)"@,
        PROVIDER_SMTP_PORT@ == r"发信服务器\s*\(SMTP\)[^\n]*?SSL\s*端口:\s*(\d+)"@,
{
    trimming_takes_the_white_space(x, t, y);
    if is_number(t, n) {
        digits_are_read_as_written(t, n, 0, 65535);
    }
}

/// Whether a line, without the white space around it, is one piece of ASCII text.
pub open spec fn one_piece_of_ascii(line: Seq<char>) -> bool {
    trimmed(line).len() > 0 && forall|i: int|
        0 <= i < trimmed(line).len() ==> #[trigger] trimmed(line)[i] <= '\u{7f}' && trimmed(line)[i]
            != ' ' && trimmed(line)[i] != '\t'
}

/// Whether a line, without the white space around it, holds a letter of ASCII.
pub open spec fn has_a_letter(line: Seq<char>) -> bool {
    exists|i: int|
        0 <= i < trimmed(line).len() && ('a' <= #[trigger] trimmed(line)[i] <= 'z' || 'A'
            <= trimmed(line)[i] <= 'Z')
}

/// The password follows the first line that speaks of an application password, within four lines:
/// it is the first of them that is one piece of ASCII text, unless letters come before it.
pub proof fn passwords_that_are_marked(ls: Seq<Seq<char>>, k: int, j: int)
    requires
        0 <= k < j < ls.len(),
        holds(ls[k], "专用密码"@),
        forall|i: int| 0 <= i < k ==> !holds(#[trigger] ls[i], "专用密码"@),
        forall|i: int|
            k < i < j ==> !one_piece_of_ascii(#[trigger] ls[i]) && !has_a_letter(ls[i]),
    ensures
        j <= k + 4 && one_piece_of_ascii(ls[j]) ==> marked_password(ls) == Some(trimmed(ls[j])),
        j <= k + 4 && !one_piece_of_ascii(ls[j]) && has_a_letter(ls[j]) ==> marked_password(
            ls,
        ) is None,
        j > k + 4 ==> marked_password(ls) is None,
    decreases k,
{
    searching_finds_what_is_there(ls[0], "专用密码"@);
    let rest = ls.drop_first();
    assert(forall|i: int| 0 <= i < rest.len() ==> #[trigger] rest[i] == ls[i + 1]);
    if k == 0 {
        tokens_within(rest, j - 1, 4);
    } else {
        assert(!holds(ls[0], "专用密码"@));
        assert forall|i: int| 0 <= i < k - 1 implies !holds(#[trigger] rest[i], "专用密码"@) by {
            assert(!holds(ls[i + 1], "专用密码"@));
        }
        assert forall|i: int| k - 1 < i < j - 1 implies !one_piece_of_ascii(#[trigger] rest[i])
            && !has_a_letter(rest[i]) by {
            assert(!one_piece_of_ascii(ls[i + 1]));
        }
        passwords_that_are_marked(rest, k - 1, j - 1);
        assert(rest[j - 1] == ls[j]);
    }
}

proof fn no_char_is_less(c: char)
    ensures
        '\0' <= c,
{
}

proof fn tokens_are_pieces(line: Seq<char>)
    ensures
        token(trimmed(line)) == one_piece_of_ascii(line),
        any_letter(trimmed(line)) == has_a_letter(line),
{
    let t = trimmed(line);
    if token(t) {
        assert forall|i: int| 0 <= i < t.len() implies #[trigger] t[i] <= '\u{7f}' && t[i] != ' '
            && t[i] != '\t' by {
            assert(t.contains(t[i]));
        }
    }
    if one_piece_of_ascii(line) {
        assert(!t.contains(' '));
        assert(!t.contains('\t'));
        assert(is_ascii_chars(t)) by {
            assert forall|i: int| 0 <= i < t.len() implies '\0' <= #[trigger] t[i] <= '\u{7f}' by {
                assert(trimmed(line)[i] <= '\u{7f}');
                no_char_is_less(t[i]);
            }
        }
    }
    if any_letter(t) {
        let i = choose|i: int| 0 <= i < t.len() && letter(#[trigger] t[i]);
        assert('a' <= trimmed(line)[i] <= 'z' || 'A' <= trimmed(line)[i] <= 'Z');
    }
    if has_a_letter(line) {
        let i = choose|i: int|
            0 <= i < trimmed(line).len() && ('a' <= #[trigger] trimmed(line)[i] <= 'z' || 'A'
                <= trimmed(line)[i] <= 'Z');
        assert(letter(t[i]));
    }
}

proof fn tokens_within(ls: Seq<Seq<char>>, j: int, n: nat)
    requires
        0 <= j < ls.len(),
        forall|i: int|
            0 <= i < j ==> !one_piece_of_ascii(#[trigger] ls[i]) && !has_a_letter(ls[i]),
    ensures
        j < n && one_piece_of_ascii(ls[j]) ==> token_within(ls, n) == Some(trimmed(ls[j])),
        j < n && !one_piece_of_ascii(ls[j]) && has_a_letter(ls[j]) ==> token_within(ls, n) is None,
        j >= n ==> token_within(ls, n) is None,
    decreases j,
{
    tokens_are_pieces(ls[0]);
    if j > 0 && n > 0 {
        let rest = ls.drop_first();
        assert(!one_piece_of_ascii(ls[0]));
        assert forall|i: int| 0 <= i < j - 1 implies !one_piece_of_ascii(#[trigger] rest[i])
            && !has_a_letter(rest[i]) by {
            assert(!one_piece_of_ascii(ls[i + 1]));
        }
        tokens_within(rest, j - 1, (n - 1) as nat);
        assert(rest[j - 1] == ls[j]);
    }
}

/// Whether a line, without the white space around it, can be a password.
pub open spec fn could_be_a_password(line: Seq<char>) -> bool {
    8 <= trimmed(line).len() <= 64 && forall|i: int|
        0 <= i < trimmed(line).len() ==> #[trigger] trimmed(line)[i] <= '\u{7f}' && !space(
            trimmed(line)[i],
        )
}

/// Without a line that speaks of it, the password is the first line that can be one.
pub proof fn passwords_that_are_not_marked(raw: Seq<char>, k: int)
    requires
        forall|i: int| 0 <= i < lines(raw).len() ==> !holds(#[trigger] lines(raw)[i], "专用密码"@),
    ensures
        0 <= k < lines(raw).len() && could_be_a_password(lines(raw)[k]) && (forall|i: int|
            0 <= i < k ==> !could_be_a_password(#[trigger] lines(raw)[i])) ==> provider_password(raw)
            == Some(trimmed(lines(raw)[k])),
        (forall|i: int| 0 <= i < lines(raw).len() ==> !could_be_a_password(#[trigger] lines(raw)[i]))
            ==> provider_password(raw) is None,
{
    let ls = lines(raw);
    none_is_marked(ls);
    first_that_could_be(ls, k);
}

/// A password that is marked counts before one that is not.
pub proof fn marked_passwords_come_first(raw: Seq<char>)
    ensures
        marked_password(lines(raw)) is Some ==> provider_password(raw) == marked_password(lines(raw)),
{
}

proof fn none_is_marked(ls: Seq<Seq<char>>)
    requires
        forall|i: int| 0 <= i < ls.len() ==> !holds(#[trigger] ls[i], "专用密码"@),
    ensures
        marked_password(ls) is None,
    decreases ls.len(),
{
    if ls.len() > 0 {
        searching_finds_what_is_there(ls[0], "专用密码"@);
        let rest = ls.drop_first();
        assert forall|i: int| 0 <= i < rest.len() implies !holds(#[trigger] rest[i], "专用密码"@) by {
            assert(!holds(ls[i + 1], "专用密码"@));
        }
        none_is_marked(rest);
    }
}

proof fn first_that_could_be(ls: Seq<Seq<char>>, k: int)
    ensures
        0 <= k < ls.len() && could_be_a_password(ls[k]) && (forall|i: int|
            0 <= i < k ==> !could_be_a_password(#[trigger] ls[i])) ==> bare_password(ls) == Some(
            trimmed(ls[k]),
        ),
        (forall|i: int| 0 <= i < ls.len() ==> !could_be_a_password(#[trigger] ls[i]))
            ==> bare_password(ls) is None,
    decreases ls.len(),
{
    if ls.len() > 0 {
        let rest = ls.drop_first();
        first_that_could_be(rest, k - 1);
        assert(password_like(trimmed(ls[0])) == could_be_a_password(ls[0]));
        assert(forall|i: int| 0 <= i < rest.len() ==> #[trigger] rest[i] == ls[i + 1]);
        if forall|i: int| 0 <= i < ls.len() ==> !could_be_a_password(#[trigger] ls[i]) {
            assert(!could_be_a_password(ls[0]));
            assert forall|i: int| 0 <= i < rest.len() implies !could_be_a_password(
                #[trigger] rest[i],
            ) by {
                assert(!could_be_a_password(ls[i + 1]));
            }
        }
        if 0 < k < ls.len() && could_be_a_password(ls[k]) && (forall|i: int|
            0 <= i < k ==> !could_be_a_password(#[trigger] ls[i])) {
            assert(!could_be_a_password(ls[0]));
            assert forall|i: int| 0 <= i < k - 1 implies !could_be_a_password(#[trigger] rest[i]) by {
                assert(!could_be_a_password(ls[i + 1]));
            }
            assert(rest[k - 1] == ls[k]);
        }
    }
}

/// The text of a provider lacks nothing exactly where all six things can be read; what it lacks
/// first is told.
pub proof fn what_a_provider_leaves_out(raw: Seq<char>)
    ensures
        provider_lack(raw) is None <==> captured(raw, PROVIDER_ADDRESS@) is Some && captured(
            raw,
            PROVIDER_IMAP_HOST@,
        ) is Some && captured_port(raw, PROVIDER_IMAP_PORT@) is Some && captured(
            raw,
            PROVIDER_SMTP_HOST@,
        ) is Some && captured_port(raw, PROVIDER_SMTP_PORT@) is Some && provider_password(
            raw,
        ) is Some,
        provider_lack(raw) == Some(ProviderError::Address) <==> captured(
            raw,
            PROVIDER_ADDRESS@,
        ) is None,
        provider_lack(raw) == Some(ProviderError::ImapHost) ==> captured(
            raw,
            PROVIDER_IMAP_HOST@,
        ) is None,
        provider_lack(raw) == Some(ProviderError::ImapPort) ==> captured_port(
            raw,
            PROVIDER_IMAP_PORT@,
        ) is None,
        provider_lack(raw) == Some(ProviderError::SmtpHost) ==> captured(
            raw,
            PROVIDER_SMTP_HOST@,
        ) is None,
        provider_lack(raw) == Some(ProviderError::SmtpPort) ==> captured_port(
            raw,
            PROVIDER_SMTP_PORT@,
        ) is None,
        provider_lack(raw) == Some(ProviderError::Password) ==> provider_password(raw) is None
            && captured_port(raw, PROVIDER_SMTP_PORT@) is Some,
{
}

/// A server of a provider is reached under the address with the password, and its certificate is
/// checked.
pub proof fn servers_of_a_provider(e: Endpoint, raw: Seq<char>, host: Seq<char>, port: Seq<char>)
    requires
        provider_endpoint(e, raw, host, port),
    ensures
        Some(e.host@) == captured(raw, host),
        Some(e.port as int) == captured_port(raw, port),
        Some(e.user@) == captured(raw, PROVIDER_ADDRESS@),
        Some(e.password@) == provider_password(raw),
        !e.tls_insecure,
{
}

/// The first text that is no time of day is told by its place.
pub proof fn the_first_bad_time(times: Seq<Seq<char>>)
    ensures
        first_bad_time(times) is None <==> forall|i: int|
            0 <= i < times.len() ==> hhmm(#[trigger] times[i]) is Ok,
        first_bad_time(times) matches Some(k) ==> 0 <= k < times.len() && hhmm(times[k]) is Err
            && forall|i: int| 0 <= i < k ==> hhmm(#[trigger] times[i]) is Ok,
    decreases times.len(),
{
    if times.len() > 0 {
        the_first_bad_time(times.drop_first());
        let rest = times.drop_first();
        assert(forall|i: int| 0 <= i < rest.len() ==> #[trigger] rest[i] == times[i + 1]);
        assert(forall|i: int| 1 <= i < times.len() ==> #[trigger] times[i] == rest[i - 1]);
    }
}

/// The zone is the one that is written, where it is known; without one it is that of the system,
/// where that is known, and else that of Shanghai.
pub proof fn which_zone_holds(written: Seq<char>, system: Option<Seq<char>>)
    ensures
        !only_space(written) && zone_known(written) ==> chosen_zone(written, system) == Some(
            written,
        ),
        !only_space(written) && !zone_known(written) ==> chosen_zone(written, system) is None,
        only_space(written) && system is Some && zone_known(system->0) ==> chosen_zone(
            written,
            system,
        ) == system,
        only_space(written) && (system is None || !zone_known(system->0)) ==> chosen_zone(
            written,
            system,
        ) == Some("Asia/Shanghai"@),
        only_space(written) ==> unless_blank(written) is None,
        !only_space(written) ==> unless_blank(written) == Some(written),
{
    what_is_blank(written);
}

/// Settings can be put in force exactly where there are an address, both servers, a model and its
/// key, all times are times of day and the zone is known; what is wrong is told.
pub proof fn what_keeps_settings_back(yc: YamlConfig, llm: LlmConfig, system: Option<Seq<char>>)
    ensures
        config_fault(yc, llm, system) is None <==> !only_space(yc.mail.address@) && !only_space(
            yc.mail.imap.host@,
        ) && !only_space(yc.mail.smtp.host@) && !only_space(llm.api_key@) && !only_space(llm.model@)
            && (forall|i: int|
            0 <= i < yc.check_times@.len() ==> hhmm((#[trigger] yc.check_times@[i])@) is Ok) && hhmm(
            yc.reminder.lead_time@,
        ) is Ok && chosen_zone(yc.timezone@, system) is Some,
        config_fault(yc, llm, system) == Some(ConfigError::NoAddress) <==> only_space(
            yc.mail.address@,
        ),
        config_fault(yc, llm, system) == Some(ConfigError::NoImapHost) ==> only_space(
            yc.mail.imap.host@,
        ),
        config_fault(yc, llm, system) == Some(ConfigError::NoSmtpHost) ==> only_space(
            yc.mail.smtp.host@,
        ),
        config_fault(yc, llm, system) == Some(ConfigError::NoModel) ==> only_space(llm.api_key@)
            || only_space(llm.model@),
        config_fault(yc, llm, system) == Some(ConfigError::Timezone) ==> chosen_zone(
            yc.timezone@,
            system,
        ) is None,
{
    what_is_blank(yc.mail.address@);
    what_is_blank(yc.mail.imap.host@);
    what_is_blank(yc.mail.smtp.host@);
    what_is_blank(llm.api_key@);
    what_is_blank(llm.model@);
    let times = texts(yc.check_times@);
    the_first_bad_time(times);
    assert(times.len() == yc.check_times@.len());
    assert(forall|i: int| 0 <= i < times.len() ==> #[trigger] times[i] == yc.check_times@[i]@);
    if first_bad_time(times) is Some {
        let k = first_bad_time(times)->0;
        assert(hhmm(yc.check_times@[k]@) is Err);
    } else {
        assert forall|i: int| 0 <= i < yc.check_times@.len() implies hhmm(
            (#[trigger] yc.check_times@[i])@,
        ) is Ok by {
            assert(hhmm(times[i]) is Ok);
        }
    }
}

} // verus!
