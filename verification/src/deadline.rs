//! Deadlines read out of mail text: limits relative to the time of sending, link expiry, and
//! explicit dates and times as people write them.

use crate::number::int_within;
use crate::number::parse_i32;
use crate::number::parse_i64;
use crate::number::show_i64;
use crate::number::signed_decimal;
use crate::pattern::first_match;
use crate::pattern::Found;
use crate::pattern::found_view;
use crate::pattern::FoundView;
use crate::pattern::group;
use crate::pattern::regex_first;
use crate::text::any_occurs;
use crate::text::chars_of;
use crate::text::contains_any;
use crate::text::lower_text;
use crate::text::prefix;
use crate::text::stands_at;
use crate::text::starts_with;
use crate::text::str_of;
use crate::text::substring;
use crate::text::take_chars;
use crate::text::text_of;
use crate::text::to_lower;
use crate::text::trim;
use crate::text::trim_front;
use crate::text::trim_start;
use crate::text::trimmed;
use crate::time::civil_reading;
use crate::time::DAY;
use crate::time::fixed_moment;
use crate::time::HOUR;
use crate::time::last_moment;
use crate::time::NANOS_PER_SEC;
use crate::time::offset_moment;
use crate::time::on_the_clock;
use crate::time::readable;
use crate::time::single_moment;
use crate::time::Stamp;
use crate::time::stamp_of;
use crate::time::strftime;
use crate::time::Zone;
use crate::time::zone_clock;
use crate::time::zone_moments;
use vstd::prelude::*;

verus! {

/// A length of time in whole seconds.
#[derive(Clone, Copy, Debug, PartialEq, Eq, Structural)]
pub struct Span {
    pub secs: i64,
}

/// How often a unit goes into a number of seconds, of whatever sign; what is left over is dropped.
pub open spec fn whole(secs: int, unit: int) -> int {
    if secs < 0 {
        -(-secs / unit)
    } else {
        secs / unit
    }
}

impl Span {
    /// The whole hours in it, without what is left over.
    pub fn num_hours(&self) -> (r: i64)
        ensures
            r == whole(self.secs as int, 3600),
    {
        self.secs / 3600
    }

    /// The whole days in it, without what is left over.
    pub fn num_days(&self) -> (r: i64)
        ensures
            r == whole(self.secs as int, 86400),
    {
        self.secs / 86400
    }
}

/// So many days, then an action that is asked for.
pub const LIMIT_IN_DAYS: &'static str =
    r"\s*(\d{1,2})\s*(?:个)?\s*(?:工作|自然)?\s*[日天]\s*之?\s*内\s*(?:完成|回复|确认|提交|作答|办理|处理|操作|参加|参与|联系|反馈|登记|填写|激活|操作)";

/// So many hours, then an action that is asked for.
pub const LIMIT_IN_HOURS: &'static str =
    r"\s*(\d{1,3})\s*(?:个)?\s*(?:小时|h|H|hr|HR|hours?|Hours?)\s*之?\s*内\s*(?:完成|回复|确认|提交|作答|办理|处理|操作|参加|参与|联系|反馈|登记|填写|激活|操作)";

/// `within N hours`, before or after an action that is asked for.
pub const LIMIT_IN_ENGLISH: &'static str =
    r"(?:(?:within|in)\s+(?P<a>\d{1,3})\s*(?P<au>hours?|days?)\s*(?:please\s+)?(?:complete|respond|reply|confirm|submit|finish|take)|(?:please\s+)?(?:complete|respond|reply|confirm|submit|finish|take)\s+[^.\n]{0,40}?\bwithin\s+(?P<b>\d{1,3})\s*(?P<bu>hours?|days?))";

/// A link or a right that lapses after so many hours.
pub const EXPIRY_IN_HOURS: &'static str =
    r"(?:链接|资格|邀请码|二维码|验证码)[^。\n]{0,20}?(\d{1,3})\s*(?:个)?\s*(?:小时|h|H|hr|HR|hours?|Hours?)\s*(?:之?[后内])?\s*(?:将|会)?\s*(?:自动)?\s*(?:失效|过期|作废)";

/// A link or a right that lapses after so many days.
pub const EXPIRY_IN_DAYS: &'static str =
    r"(?:链接|资格|邀请码|二维码|验证码)[^。\n]{0,20}?(\d{1,2})\s*(?:个)?\s*(?:工作|自然)?\s*[日天]\s*(?:之?[后内])?\s*(?:将|会)?\s*(?:自动)?\s*(?:失效|过期|作废)";

/// A period of validity in hours.
pub const VALID_FOR_HOURS: &'static str =
    r"有效期\s*(?:为|是|仅|:|：)?\s*(\d{1,3})\s*(?:个)?\s*(?:小时|h|H|hr|HR|hours?|Hours?)";

/// A period of validity in days.
pub const VALID_FOR_DAYS: &'static str =
    r"有效期\s*(?:为|是|仅|:|：)?\s*(\d{1,2})\s*(?:个)?\s*(?:工作|自然)?\s*[日天]";

/// A number of units from a group of digits, where it lies above zero and up to a bound.
pub open spec fn units(digits: Option<Seq<char>>, unit: int, most: int) -> Option<int> {
    match digits {
        Some(t) => match int_within(t, i64::MIN as int, i64::MAX as int) {
            Some(n) if 0 < n <= most => Some(n * unit),
            _ => None,
        },
        None => None,
    }
}

/// The limit in the first group of a match.
pub open spec fn limit(f: Option<FoundView>, unit: int, most: int) -> Option<int> {
    match f {
        Some(m) => units(group(m, 1), unit, most),
        None => None,
    }
}

/// The digits and the unit of an English limit: of the first wording, else of the second.
pub open spec fn english_parts(f: FoundView) -> Option<(Seq<char>, Seq<char>)> {
    match (group(f, 1), group(f, 2)) {
        (Some(n), Some(u)) => Some((n, u)),
        _ => match (group(f, 3), group(f, 4)) {
            (Some(n), Some(u)) => Some((n, u)),
            _ => None,
        },
    }
}

/// The limit of an English wording.
pub open spec fn english_limit(f: Option<FoundView>) -> Option<int> {
    match f {
        Some(m) => match english_parts(m) {
            Some((n, u)) => if stands_at(lower_text(u), "hour"@, 0) {
                units(Some(n), HOUR as int, 720)
            } else {
                units(Some(n), DAY as int, 90)
            },
            None => None,
        },
        None => None,
    }
}

/// The first of the limits that is there.
pub open spec fn first_limit(a: Option<int>, b: Option<int>) -> Option<int> {
    if a is Some {
        a
    } else {
        b
    }
}

/// The limit that asks for an action: hours, else days, else the English wording.
pub open spec fn action_limit(
    hours: Option<FoundView>,
    days: Option<FoundView>,
    english: Option<FoundView>,
) -> Option<int> {
    first_limit(
        limit(hours, HOUR as int, 720),
        first_limit(limit(days, DAY as int, 90), english_limit(english)),
    )
}

/// The time after which a link lapses.
pub open spec fn expiry_limit(
    hours: Option<FoundView>,
    days: Option<FoundView>,
    valid_hours: Option<FoundView>,
    valid_days: Option<FoundView>,
) -> Option<int> {
    first_limit(
        first_limit(limit(hours, HOUR as int, 720), limit(days, DAY as int, 90)),
        first_limit(limit(valid_hours, HOUR as int, 720), limit(valid_days, DAY as int, 90)),
    )
}

/// The limit with an action in a text.
pub open spec fn action_hint(text: Seq<char>) -> Option<int> {
    action_limit(
        regex_first(LIMIT_IN_HOURS@, text),
        regex_first(LIMIT_IN_DAYS@, text),
        regex_first(LIMIT_IN_ENGLISH@, text),
    )
}

/// The time in a text after which a link lapses.
pub open spec fn expiry_hint(text: Seq<char>) -> Option<int> {
    expiry_limit(
        regex_first(EXPIRY_IN_HOURS@, text),
        regex_first(EXPIRY_IN_DAYS@, text),
        regex_first(VALID_FOR_HOURS@, text),
        regex_first(VALID_FOR_DAYS@, text),
    )
}

/// The relative limit in a text: one with an action, else the time after which a link lapses.
pub open spec fn relative_hint(text: Seq<char>) -> Option<int> {
    first_limit(action_hint(text), expiry_hint(text))
}

/// A limit is more than nothing and at most ninety days.
pub open spec fn sane_limit(l: Option<int>) -> bool {
    l matches Some(n) ==> 0 < n <= 90 * DAY
}

/// A span as a number of seconds.
pub open spec fn span_secs(s: Option<Span>) -> Option<int> {
    match s {
        Some(x) => Some(x.secs as int),
        None => None,
    }
}

fn units_of(digits: &Option<String>, unit: i64, most: i64) -> (r: Option<Span>)
    requires
        0 < unit <= DAY,
        0 < most <= 720,
    ensures
        span_secs(r) == units(text_of(*digits), unit as int, most as int),
        r matches Some(s) ==> 0 < s.secs <= most * unit,
{
    match digits {
        Some(t) => match parse_i64(t.as_str()) {
            Some(n) => {
                if n > 0 && n <= most {
                    assert(0 < n * unit <= most * unit && most * unit <= 720 * DAY)
                        by (nonlinear_arith)
                        requires
                            0 < n <= most,
                            0 < unit <= DAY,
                            most <= 720,
                    ;
                    Some(Span { secs: n * unit })
                } else {
                    None
                }
            },
            None => None,
        },
        None => None,
    }
}

fn limit_of(f: &Option<Found>, unit: i64, most: i64) -> (r: Option<Span>)
    requires
        0 < unit <= DAY,
        0 < most <= 720,
    ensures
        span_secs(r) == limit(found_view(*f), unit as int, most as int),
        r matches Some(s) ==> 0 < s.secs <= most * unit,
{
    match f {
        Some(m) => {
            let g = m.group(1);
            units_of(&g, unit, most)
        },
        None => None,
    }
}

fn english_limit_of(f: &Option<Found>) -> (r: Option<Span>)
    ensures
        span_secs(r) == english_limit(found_view(*f)),
        sane_limit(span_secs(r)),
{
    match f {
        Some(m) => {
            let (a, au) = (m.group(1), m.group(2));
            let (n, u) = if a.is_some() && au.is_some() {
                (a, au)
            } else {
                (m.group(3), m.group(4))
            };
            if n.is_none() {
                return None;
            }
            match u {
                Some(unit) => {
                    let low = to_lower(unit.as_str());
                    if starts_with(low.as_str(), "hour") {
                        units_of(&n, HOUR, 720)
                    } else {
                        units_of(&n, DAY, 90)
                    }
                },
                None => None,
            }
        },
        None => None,
    }
}

/// The limit that asks for an action, from what the three patterns found.
pub fn action_limit_of(hours: &Option<Found>, days: &Option<Found>, english: &Option<Found>) -> (r:
    Option<Span>)
    ensures
        span_secs(r) == action_limit(found_view(*hours), found_view(*days), found_view(*english)),
        sane_limit(span_secs(r)),
{
    match limit_of(hours, HOUR, 720) {
        Some(s) => Some(s),
        None => match limit_of(days, DAY, 90) {
            Some(s) => Some(s),
            None => english_limit_of(english),
        },
    }
}

/// The time after which a link lapses, from what the four patterns found.
pub fn expiry_limit_of(
    hours: &Option<Found>,
    days: &Option<Found>,
    valid_hours: &Option<Found>,
    valid_days: &Option<Found>,
) -> (r: Option<Span>)
    ensures
        span_secs(r) == expiry_limit(
            found_view(*hours),
            found_view(*days),
            found_view(*valid_hours),
            found_view(*valid_days),
        ),
        sane_limit(span_secs(r)),
{
    match limit_of(hours, HOUR, 720) {
        Some(s) => Some(s),
        None => match limit_of(days, DAY, 90) {
            Some(s) => Some(s),
            None => match limit_of(valid_hours, HOUR, 720) {
                Some(s) => Some(s),
                None => limit_of(valid_days, DAY, 90),
            },
        },
    }
}

/// The limit with an action in a text: hours before days before the English wording.
pub fn match_action_hint(text: &str) -> (r: Option<Span>)
    ensures
        span_secs(r) == action_hint(text@),
        sane_limit(span_secs(r)),
{
    let hours = first_match(LIMIT_IN_HOURS, text);
    let days = first_match(LIMIT_IN_DAYS, text);
    let english = first_match(LIMIT_IN_ENGLISH, text);
    action_limit_of(&hours, &days, &english)
}

/// The time in a text after which a link or a right lapses.
pub fn match_link_expiry_hint(text: &str) -> (r: Option<Span>)
    ensures
        span_secs(r) == expiry_hint(text@),
        sane_limit(span_secs(r)),
{
    let hours = first_match(EXPIRY_IN_HOURS, text);
    let days = first_match(EXPIRY_IN_DAYS, text);
    let valid_hours = first_match(VALID_FOR_HOURS, text);
    let valid_days = first_match(VALID_FOR_DAYS, text);
    expiry_limit_of(&hours, &days, &valid_hours, &valid_days)
}

/// The relative limit in a text: one with an action, else the time after which a link lapses.
pub fn match_relative_hint(text: &str) -> (r: Option<Span>)
    ensures
        span_secs(r) == relative_hint(text@),
        sane_limit(span_secs(r)),
{
    match match_action_hint(text) {
        Some(s) => Some(s),
        None => match_link_expiry_hint(text),
    }
}

/// The moment that a limit counts from: the time of sending, else the time of receipt.
pub open spec fn base_of(sent_at: Option<Seq<char>>, received_at: Option<Seq<char>>) -> Option<
    Stamp,
> {
    let sent = match sent_at {
        Some(t) => stamp_of(t),
        None => None,
    };
    if sent is Some {
        sent
    } else {
        match received_at {
            Some(t) => stamp_of(t),
            None => None,
        }
    }
}

/// The moment so many seconds after the one a limit counts from.
pub open spec fn relative_moment(hint: Option<int>, base: Option<Stamp>) -> Option<Stamp> {
    match (hint, base) {
        (Some(n), Some(b)) => b.later(n as i64),
        _ => None,
    }
}

/// The text of a moment.
pub open spec fn moment_text(m: Option<Stamp>) -> Option<Seq<char>> {
    match m {
        Some(s) => s.rfc3339(),
        None => None,
    }
}

/// From a base outside leap seconds the limit counts second by second, on the same clock.
pub open spec fn counts_on(hint: Option<int>, base: Option<Stamp>, m: Option<Stamp>) -> bool {
    match (hint, base) {
        (Some(n), Some(b)) if b.nanos < NANOS_PER_SEC => m == Some(
            (Stamp { secs: (b.secs + n) as i64, nanos: b.nanos, offset: b.offset }),
        ),
        _ => true,
    }
}

/// From a base outside leap seconds, and up to the year 9999, the deadline reads back as the base
/// plus the limit, on the same clock.
pub open spec fn deadline_counts_on(hint: Option<int>, base: Option<Stamp>, d: Option<Seq<char>>) -> bool {
    match (hint, base) {
        (Some(n), Some(b)) if b.nanos < NANOS_PER_SEC && b.secs + b.offset + n <= 253402300799 => d is Some
            && stamp_of(d->0) == Some(
            (Stamp { secs: (b.secs + n) as i64, nanos: b.nanos, offset: b.offset }),
        ),
        _ => true,
    }
}

fn base_moment(sent_at: Option<&str>, received_at: Option<&str>) -> (r: Option<Stamp>)
    ensures
        r == base_of(str_of(sent_at), str_of(received_at)),
        r matches Some(b) ==> readable(b.secs as int, b.nanos as int, b.offset as int),
{
    if let Some(t) = sent_at {
        let sent = Stamp::parse(t);
        if sent.is_some() {
            return sent;
        }
    }
    match received_at {
        Some(t) => Stamp::parse(t),
        None => None,
    }
}

fn relative_moment_of(text: &str, sent_at: Option<&str>, received_at: Option<&str>) -> (r: Option<
    Stamp,
>)
    ensures
        r == relative_moment(relative_hint(text@), base_of(str_of(sent_at), str_of(received_at))),
        counts_on(relative_hint(text@), base_of(str_of(sent_at), str_of(received_at)), r),
        r is Some ==> sane_limit(relative_hint(text@)) && (base_of(
            str_of(sent_at),
            str_of(received_at),
        ) matches Some(b) ==> readable(b.secs as int, b.nanos as int, b.offset as int)),
{
    let span = match match_relative_hint(text) {
        Some(s) => s,
        None => return None,
    };
    match base_moment(sent_at, received_at) {
        Some(b) => b.plus_seconds(span.secs),
        None => None,
    }
}

/// The deadline that a relative limit in the text sets: the time of sending plus the limit, with
/// the time of receipt in place of a time of sending that is missing or not RFC 3339. Nothing
/// where there is no limit or neither time.
pub fn infer_relative_deadline(
    text: &str,
    sent_at: Option<&str>,
    received_at: Option<&str>,
    _tz: &Zone,
) -> (r: Option<String>)
    ensures
        text_of(r) == moment_text(
            relative_moment(relative_hint(text@), base_of(str_of(sent_at), str_of(received_at))),
        ),
        deadline_counts_on(
            relative_hint(text@),
            base_of(str_of(sent_at), str_of(received_at)),
            text_of(r),
        ),
{
    match relative_moment_of(text, sent_at, received_at) {
        Some(m) => m.to_rfc3339(),
        None => None,
    }
}

/// What stands for the limit where the text does not show it.
pub const HINT_PLACEHOLDER: &'static str = "请在X小时内完成";

/// The piece of the text that ends with the first `内`: up to 24 characters before it, without
/// white space at the start.
pub open spec fn hint_piece(text: Seq<char>) -> Seq<char> {
    match text.index_of_first('内') {
        Some(k) => {
            let start = if k > 24 {
                k - 24
            } else {
                0
            };
            trim_front(text.subrange(start, k + 1))
        },
        None => HINT_PLACEHOLDER@,
    }
}

proof fn trim_front_keeps_last(s: Seq<char>)
    requires
        s.len() > 0,
        !crate::text::space(s.last()),
    ensures
        trim_front(s).len() > 0,
    decreases s.len(),
{
    if crate::text::space(s[0]) {
        assert(s.drop_first().last() == s.last());
        trim_front_keeps_last(s.drop_first());
    }
}

/// The piece of the text that ends with the first `内`, for notes.
pub fn truncate_hint(text: &str) -> (r: String)
    ensures
        r@ == hint_piece(text@),
        r@.len() > 0,
{
    let v = chars_of(text);
    let mut k: usize = 0;
    while k < v.len()
        invariant
            v@ == text@,
            k <= v@.len(),
            forall|j: int| 0 <= j < k ==> v@[j] != '内',
        decreases v@.len() - k,
    {
        if v[k] == '内' {
            proof {
                text@.index_of_first_ensures('内');
                assert(text@.contains(v@[k as int]));
            }
            let start: usize = if k > 24 {
                k - 24
            } else {
                0
            };
            let piece = substring(&v, start, k + 1);
            proof {
                trim_front_keeps_last(piece@);
            }
            return trim_start(piece.as_str());
        }
        k += 1;
    }
    proof {
        text@.index_of_first_ensures('内');
        reveal_strlit("请在X小时内完成");
    }
    HINT_PLACEHOLDER.to_owned()
}

/// A limit in whole days where it is a multiple of a day, else in whole hours.
pub open spec fn limit_words(secs: int) -> Seq<char> {
    let hours = secs / 3600;
    if hours % 24 == 0 {
        signed_decimal(hours / 24) + "日"@
    } else {
        signed_decimal(hours) + "小时"@
    }
}

/// The note on a deadline that a relative limit set.
pub open spec fn relative_note(text: Seq<char>, limit: int, when: Seq<char>) -> Seq<char> {
    "【推算】截止时间依据邮件原文“"@ + hint_piece(text) + "”＋发件时间 "@ + when + " 推算（+"@ + limit_words(
        limit,
    ) + "）"@
}

/// The note on a deadline that a relative limit counted from `sent_at` set; nothing where the
/// text has no limit or `sent_at` is no RFC 3339 time.
pub fn inference_note(text: &str, sent_at: Option<&str>) -> (r: Option<String>)
    ensures
        text_of(r) == (match (relative_hint(text@), base_of(str_of(sent_at), None)) {
            (Some(n), Some(b)) => match strftime(b.secs, 0, "%Y-%m-%d %H:%M"@) {
                Some(when) => Some(relative_note(text@, n, when)),
                None => None,
            },
            _ => None,
        }),
{
    let span = match match_relative_hint(text) {
        Some(s) => s,
        None => return None,
    };
    let base = match base_moment(sent_at, None) {
        Some(b) => b,
        None => return None,
    };
    let when = match base.to_utc().to_minute_text() {
        Some(w) => w,
        None => return None,
    };
    let hours = span.num_hours();
    let mut unit = String::new();
    if hours % 24 == 0 {
        unit = show_i64(hours / 24);
        unit.append("日");
    } else {
        unit = show_i64(hours);
        unit.append("小时");
    }
    let mut out = "【推算】截止时间依据邮件原文“".to_owned();
    let piece = truncate_hint(text);
    out.append(piece.as_str());
    out.append("”＋发件时间 ");
    out.append(when.as_str());
    out.append(" 推算（+");
    out.append(unit.as_str());
    out.append("）");
    Some(out)
}

/// A date with a year and a time, and an offset from UTC where it is given.
pub const FULL_DATETIME: &'static str =
    r"(?P<y>\d{4})\s*[-/年.]\s*(?P<mo>\d{1,2})\s*[-/月.]\s*(?P<d>\d{1,2})\s*[日号]?\s*(?:[T\s]\s*)?(?P<h>\d{1,2})\s*[:：-]\s*(?P<mi>\d{2})(?:\s*[:：]\s*(?P<s>\d{2}))?\s*(?:\(?(?:GMT|UTC)\s*(?P<off>[+-]\d{1,2}):?(?P<offmi>\d{2})?\)?)?";

/// A month, a day and a time.
pub const MONTH_DAY_TIME: &'static str =
    r"(?P<mo>\d{1,2})\s*月\s*(?P<d>\d{1,2})\s*[日号]?\s*(?P<ampm>[上下午晚上]+)?\s*(?P<h>\d{1,2})\s*[:：]\s*(?P<mi>\d{2})";

/// A date, with or without a year.
pub const PLAIN_DATE: &'static str =
    r"(?:(?P<y>\d{4})\s*[-/年.]\s*)?(?:(?P<mo>\d{1,2})\s*月\s*(?P<d>\d{1,2})|(?P<mo2>\d{1,2})\s*[-/]\s*(?P<d2>\d{1,2}))\s*[日号]?";

/// A time of the morning, the afternoon or the evening.
pub const TIME_OF_DAY: &'static str =
    r"(?P<ampm>[上下午晚上]+)\s*(?P<h>\d{1,2})\s*[:：]\s*(?P<mi>\d{2})";

/// The number in a group of a match.
pub open spec fn number(f: FoundView, n: int) -> Option<i32> {
    match group(f, n) {
        Some(t) => match int_within(t, i32::MIN as int, i32::MAX as int) {
            Some(v) => Some(v as i32),
            None => None,
        },
        None => None,
    }
}

fn number_of(f: &Found, n: usize) -> (r: Option<i32>)
    ensures
        r == number(f@, n as int),
{
    match f.group(n) {
        Some(t) => parse_i32(t.as_str()),
        None => None,
    }
}

/// How many seconds east of UTC a clock stands, from a sign with hours and from minutes.
pub open spec fn east_of(off: Seq<char>, minutes: Option<Seq<char>>) -> Option<int> {
    if off.len() == 0 {
        None
    } else {
        match int_within(off.drop_first(), i32::MIN as int, i32::MAX as int) {
            Some(h) => {
                let m = match minutes {
                    Some(t) => match int_within(t, i32::MIN as int, i32::MAX as int) {
                        Some(v) => v,
                        None => 0,
                    },
                    None => 0,
                };
                let east = h * 3600 + m * 60;
                if off[0] == '-' {
                    Some(-east)
                } else {
                    Some(east)
                }
            },
            None => None,
        }
    }
}

fn east_seconds(off: &str, minutes: &Option<String>) -> (r: Option<i64>)
    ensures
        match r {
            Some(e) => east_of(off@, text_of(*minutes)) == Some(e as int),
            None => east_of(off@, text_of(*minutes)) is None,
        },
{
    let v = chars_of(off);
    if v.len() == 0 {
        return None;
    }
    let digits = substring(&v, 1, v.len());
    assert(digits@ == off@.drop_first());
    match parse_i32(digits.as_str()) {
        Some(h) => {
            let m: i32 = match minutes {
                Some(t) => match parse_i32(t.as_str()) {
                    Some(n) => n,
                    None => 0,
                },
                None => 0,
            };
            let east: i64 = (h as i64) * 3600 + (m as i64) * 60;
            if v[0] == '-' {
                Some(-east)
            } else {
                Some(east)
            }
        },
        None => None,
    }
}

/// The moment that a full date and time stand for: on the clock of the offset where one is
/// given, else in the zone.
pub open spec fn full_moment(
    date: (i32, i32, i32),
    time: (i32, i32, i32),
    off: Option<Seq<char>>,
    off_minutes: Option<Seq<char>>,
    zone: Seq<char>,
) -> Option<Stamp> {
    match off {
        Some(o) => match east_of(o, off_minutes) {
            Some(e) if -DAY < e < DAY => match offset_moment(
                e as i32,
                date.0,
                date.1 as u32,
                date.2 as u32,
                time.0 as u32,
                time.1 as u32,
                time.2 as u32,
            ) {
                Some(secs) => Some(Stamp { secs, nanos: 0, offset: e as i32 }),
                None => None,
            },
            _ => None,
        },
        None => last_moment(
            zone_moments(
                zone,
                date.0,
                date.1 as u32,
                date.2 as u32,
                time.0 as u32,
                time.1 as u32,
                time.2 as u32,
            ),
        ),
    }
}

/// The moment that a full date and time stand for.
pub fn build_datetime(
    date: (i32, i32, i32),
    time: (i32, i32, i32),
    off: &Option<String>,
    off_minutes: &Option<String>,
    zone: &Zone,
) -> (r: Option<Stamp>)
    ensures
        r == full_moment(date, time, text_of(*off), text_of(*off_minutes), zone@),
{
    let (y, mo, d) = date;
    let (h, mi, s) = time;
    match off {
        Some(o) => match east_seconds(o.as_str(), off_minutes) {
            Some(e) => {
                if -DAY < e && e < DAY {
                    fixed_moment(
                        e as i32,
                        y,
                        mo as u32,
                        d as u32,
                        h as u32,
                        mi as u32,
                        s as u32,
                    )
                } else {
                    None
                }
            },
            None => None,
        },
        None => zone.moment(y, mo as u32, d as u32, h as u32, mi as u32, s as u32),
    }
}

/// What one way of writing a time came to: nothing at all, go on with the next way, or a moment
/// with the words that it was read from.
pub enum Reading {
    Nothing,
    Miss,
    At(Stamp),
}

/// A full date and time.
pub open spec fn read_full(f: FoundView, zone: Seq<char>) -> Reading {
    match (number(f, 1), number(f, 2), number(f, 3), number(f, 4), number(f, 5)) {
        (Some(y), Some(mo), Some(d), Some(h), Some(mi)) => {
            let s = match number(f, 6) {
                Some(n) => n,
                None => 0i32,
            };
            match full_moment((y, mo, d), (h, mi, s), group(f, 7), group(f, 8), zone) {
                Some(m) => Reading::At(m),
                None => Reading::Miss,
            }
        },
        _ => Reading::Nothing,
    }
}

fn full_reading(f: &Found, zone: &Zone) -> (r: Reading)
    ensures
        r == read_full(f@, zone@),
{
    match (number_of(f, 1), number_of(f, 2), number_of(f, 3), number_of(f, 4), number_of(f, 5)) {
        (Some(y), Some(mo), Some(d), Some(h), Some(mi)) => {
            let s: i32 = match number_of(f, 6) {
                Some(n) => n,
                None => 0,
            };
            let off = f.group(7);
            let off_minutes = f.group(8);
            match build_datetime((y, mo, d), (h, mi, s), &off, &off_minutes, zone) {
                Some(m) => Reading::At(m),
                None => Reading::Miss,
            }
        },
        _ => Reading::Nothing,
    }
}

/// The hour on a clock of 24 hours: an afternoon or an evening hour below twelve is moved on.
pub open spec fn day_hour(ampm: Option<Seq<char>>, h: i32) -> i32 {
    match ampm {
        Some(a) if (a.contains('下') || a.contains('晚')) && h < 12 => (h + 12) as i32,
        _ => h,
    }
}

fn holds_char(s: &str, c: char) -> (r: bool)
    ensures
        r == s@.contains(c),
{
    let v = chars_of(s);
    let mut i: usize = 0;
    while i < v.len()
        invariant
            v@ == s@,
            i <= v@.len(),
            forall|k: int| 0 <= k < i ==> v@[k] != c,
        decreases v@.len() - i,
    {
        if v[i] == c {
            assert(s@[i as int] == c);
            return true;
        }
        i += 1;
    }
    false
}

fn hour_of(ampm: &Option<String>, h: i32) -> (r: i32)
    ensures
        r == day_hour(text_of(*ampm), h),
{
    match ampm {
        Some(a) => {
            if (holds_char(a.as_str(), '下') || holds_char(a.as_str(), '晚')) && h < 12 {
                h + 12
            } else {
                h
            }
        },
        None => h,
    }
}

/// The date in the year, or in the next where it has passed.
pub open spec fn coming(zone: Seq<char>, year: i32, md: (i32, i32), hms: (i32, i32, i32), now: Stamp) -> Reading {
    match last_moment(
        zone_moments(
            zone,
            year,
            md.0 as u32,
            md.1 as u32,
            hms.0 as u32,
            hms.1 as u32,
            hms.2 as u32,
        ),
    ) {
        Some(m) => if m.before(now) {
            match last_moment(
                zone_moments(
                    zone,
                    (year + 1) as i32,
                    md.0 as u32,
                    md.1 as u32,
                    hms.0 as u32,
                    hms.1 as u32,
                    hms.2 as u32,
                ),
            ) {
                Some(n) => Reading::At(n),
                None => Reading::Nothing,
            }
        } else {
            Reading::At(m)
        },
        None => Reading::Nothing,
    }
}

fn coming_reading(zone: &Zone, year: i32, md: (i32, i32), hms: (i32, i32, i32), now: &Stamp) -> (r:
    Reading)
    requires
        -262144 <= year <= 262143,
    ensures
        r == coming(zone@, year, md, hms, *now),
{
    let (mo, d) = md;
    let (h, mi, s) = hms;
    match zone.moment(year, mo as u32, d as u32, h as u32, mi as u32, s as u32) {
        Some(m) => {
            if m.is_before(now) {
                match zone.moment(year + 1, mo as u32, d as u32, h as u32, mi as u32, s as u32) {
                    Some(n) => Reading::At(n),
                    None => Reading::Nothing,
                }
            } else {
                Reading::At(m)
            }
        },
        None => Reading::Nothing,
    }
}

/// A month, a day and a time: the next such moment.
pub open spec fn read_month_day(f: FoundView, zone: Seq<char>, now: Stamp) -> Reading {
    match (number(f, 1), number(f, 2), number(f, 4), number(f, 5), zone_clock(zone, now.secs)) {
        (Some(mo), Some(d), Some(h), Some(mi), Some(c)) => coming(
            zone,
            c.0,
            (mo, d),
            (day_hour(group(f, 3), h), mi, 0),
            now,
        ),
        _ => Reading::Nothing,
    }
}

fn month_day_reading(f: &Found, zone: &Zone, now: &Stamp) -> (r: Reading)
    ensures
        r == read_month_day(f@, zone@, *now),
{
    match (number_of(f, 1), number_of(f, 2), number_of(f, 4), number_of(f, 5), zone.clock(now)) {
        (Some(mo), Some(d), Some(h), Some(mi), Some(c)) => {
            let ampm = f.group(3);
            let hour = hour_of(&ampm, h);
            coming_reading(zone, c.0, (mo, d), (hour, mi, 0), now)
        },
        _ => Reading::Nothing,
    }
}

/// The words around a date that make it a deadline.
pub open spec fn deadline_words() -> Seq<&'static str> {
    seq!["截止", "截至", "前", "以前", "之前", "deadline", "before"]
}

/// The last eight characters.
pub open spec fn tail8(s: Seq<char>) -> Seq<char> {
    if s.len() <= 8 {
        s
    } else {
        s.skip(s.len() - 8)
    }
}

/// Whether the words near a date make it a deadline.
pub open spec fn marks_deadline(f: FoundView) -> bool {
    any_occurs(tail8(f.0), deadline_words()) || any_occurs(prefix(f.2, 8), deadline_words())
}

fn is_deadline(f: &Found) -> (r: bool)
    ensures
        r == marks_deadline(f@),
{
    let v = chars_of(f.before.as_str());
    let from: usize = if v.len() <= 8 {
        0
    } else {
        v.len() - 8
    };
    let before = substring(&v, from, v.len());
    let after = take_chars(f.after.as_str(), 8);
    let list = ["截止", "截至", "前", "以前", "之前", "deadline", "before"];
    assert(list@ =~= deadline_words());
    assert(before@ == tail8(f.before@));
    contains_any(before.as_str(), &list) || contains_any(after.as_str(), &list)
}

/// A date near words that make it a deadline: the end of that day.
pub open spec fn read_date(f: FoundView, zone: Seq<char>, now: Stamp) -> Reading {
    if !marks_deadline(f) {
        Reading::Miss
    } else {
        let worded = group(f, 2) is Some && group(f, 3) is Some;
        let mo = if worded {
            number(f, 2)
        } else {
            number(f, 4)
        };
        let d = if worded {
            number(f, 3)
        } else {
            number(f, 5)
        };
        match (mo, d, zone_clock(zone, now.secs)) {
            (Some(mo), Some(d), Some(c)) => if group(f, 1) is Some {
                match number(f, 1) {
                    Some(y) => match last_moment(
                        zone_moments(zone, y, mo as u32, d as u32, 23, 59, 59),
                    ) {
                        Some(m) => Reading::At(m),
                        None => Reading::Nothing,
                    },
                    None => Reading::Nothing,
                }
            } else {
                coming(zone, c.0, (mo, d), (23, 59, 59), now)
            },
            _ => Reading::Nothing,
        }
    }
}

fn date_reading(f: &Found, zone: &Zone, now: &Stamp) -> (r: Reading)
    ensures
        r == read_date(f@, zone@, *now),
{
    if !is_deadline(f) {
        return Reading::Miss;
    }
    let (mo, d) = if f.group(2).is_some() && f.group(3).is_some() {
        (number_of(f, 2), number_of(f, 3))
    } else {
        (number_of(f, 4), number_of(f, 5))
    };
    match (mo, d, zone.clock(now)) {
        (Some(mo), Some(d), Some(c)) => {
            if f.group(1).is_some() {
                match number_of(f, 1) {
                    Some(y) => match zone.moment(y, mo as u32, d as u32, 23, 59, 59) {
                        Some(m) => Reading::At(m),
                        None => Reading::Nothing,
                    },
                    None => Reading::Nothing,
                }
            } else {
                coming_reading(zone, c.0, (mo, d), (23, 59, 59), now)
            }
        },
        _ => Reading::Nothing,
    }
}

/// A day after a moment, on the clock that the zone then shows.
pub open spec fn next_day(zone: Seq<char>, m: Stamp) -> Option<Stamp> {
    match m.later(DAY) {
        Some(n) => match zone_clock(zone, n.secs) {
            Some(c) => Some(Stamp { secs: n.secs, nanos: n.nanos, offset: c.6 }),
            None => None,
        },
        None => None,
    }
}

/// A time of day: today, or tomorrow where it has passed.
pub open spec fn read_time(f: FoundView, zone: Seq<char>, now: Stamp) -> Reading {
    match (number(f, 2), number(f, 3), zone_clock(zone, now.secs)) {
        (Some(h), Some(mi), Some(c)) => match single_moment(
            zone_moments(zone, c.0, c.1, c.2, day_hour(group(f, 1), h) as u32, mi as u32, 0),
        ) {
            Some(m) => if m.before(now) {
                match next_day(zone, m) {
                    Some(n) => Reading::At(n),
                    None => Reading::Nothing,
                }
            } else {
                Reading::At(m)
            },
            None => Reading::Nothing,
        },
        _ => Reading::Nothing,
    }
}

fn time_reading(f: &Found, zone: &Zone, now: &Stamp) -> (r: Reading)
    ensures
        r == read_time(f@, zone@, *now),
{
    match (number_of(f, 2), number_of(f, 3), zone.clock(now)) {
        (Some(h), Some(mi), Some(c)) => {
            let ampm = f.group(1);
            let hour = hour_of(&ampm, h);
            match zone.only_moment(c.0, c.1, c.2, hour as u32, mi as u32, 0) {
                Some(m) => {
                    if m.is_before(now) {
                        match m.plus_seconds(DAY) {
                            Some(n) => match zone.clock(&n) {
                                Some(k) => Reading::At(
                                    Stamp { secs: n.secs, nanos: n.nanos, offset: k.6 },
                                ),
                                None => Reading::Nothing,
                            },
                            None => Reading::Nothing,
                        }
                    } else {
                        Reading::At(m)
                    }
                },
                None => Reading::Nothing,
            }
        },
        _ => Reading::Nothing,
    }
}

/// A moment in RFC 3339 with the words that it was read from.
pub open spec fn told(m: Stamp, f: FoundView) -> Option<(Seq<char>, Seq<char>)> {
    match (m.rfc3339(), group(f, 0)) {
        (Some(t), Some(words)) => Some((t, words)),
        _ => None,
    }
}

fn tell(m: &Stamp, f: &Found) -> (r: Option<(String, String)>)
    ensures
        pair_of(r) == told(*m, f@),
{
    match (m.to_rfc3339(), f.group(0)) {
        (Some(t), Some(words)) => Some((t, words)),
        _ => None,
    }
}

/// The two texts of an optional pair.
pub open spec fn pair_of(o: Option<(String, String)>) -> Option<(Seq<char>, Seq<char>)> {
    match o {
        Some(p) => Some((p.0@, p.1@)),
        None => None,
    }
}

/// Goes through the ways of writing a time, in order: the first that gives a moment counts, and
/// one that fits but holds no number or no such day ends the search.
pub open spec fn human_time(
    full: Option<FoundView>,
    month_day: Option<FoundView>,
    date: Option<FoundView>,
    time: Option<FoundView>,
    zone: Seq<char>,
    now: Stamp,
) -> Option<(Seq<char>, Seq<char>)> {
    let first = match full {
        Some(f) => read_full(f, zone),
        None => Reading::Miss,
    };
    match first {
        Reading::Nothing => None,
        Reading::At(m) => told(m, full->0),
        Reading::Miss => match month_day {
            Some(f) => match read_month_day(f, zone, now) {
                Reading::At(m) => told(m, f),
                _ => None,
            },
            None => {
                let third = match date {
                    Some(f) => read_date(f, zone, now),
                    None => Reading::Miss,
                };
                match third {
                    Reading::Nothing => None,
                    Reading::At(m) => told(m, date->0),
                    Reading::Miss => match time {
                        Some(f) => match read_time(f, zone, now) {
                            Reading::At(m) => told(m, f),
                            _ => None,
                        },
                        None => None,
                    },
                }
            },
        },
    }
}

/// The time that a text tells, from what the four patterns found.
pub fn human_time_of(
    full: &Option<Found>,
    month_day: &Option<Found>,
    date: &Option<Found>,
    time: &Option<Found>,
    zone: &Zone,
    now: &Stamp,
) -> (r: Option<(String, String)>)
    ensures
        pair_of(r) == human_time(
            found_view(*full),
            found_view(*month_day),
            found_view(*date),
            found_view(*time),
            zone@,
            *now,
        ),
{
    if let Some(f) = full {
        match full_reading(f, zone) {
            Reading::Nothing => return None,
            Reading::At(m) => return tell(&m, f),
            Reading::Miss => {},
        }
    }
    if let Some(f) = month_day {
        return match month_day_reading(f, zone, now) {
            Reading::At(m) => tell(&m, f),
            _ => None,
        };
    }
    if let Some(f) = date {
        match date_reading(f, zone, now) {
            Reading::Nothing => return None,
            Reading::At(m) => return tell(&m, f),
            Reading::Miss => {},
        }
    }
    match time {
        Some(f) => match time_reading(f, zone, now) {
            Reading::At(m) => tell(&m, f),
            _ => None,
        },
        None => None,
    }
}

/// The explicit time that a text tells at the moment `now`: in RFC 3339, and the words it was
/// read from.
pub open spec fn explicit_time(text: Seq<char>, zone: Seq<char>, now: Stamp) -> Option<
    (Seq<char>, Seq<char>),
> {
    human_time(
        regex_first(FULL_DATETIME@, text),
        regex_first(MONTH_DAY_TIME@, text),
        regex_first(PLAIN_DATE@, text),
        regex_first(TIME_OF_DAY@, text),
        zone,
        now,
    )
}

/// The explicit time that a text tells, for a reader at the moment `now`.
pub fn parse_human_datetime_at(text: &str, zone: &Zone, now: &Stamp) -> (r: Option<
    (String, String),
>)
    ensures
        pair_of(r) == explicit_time(text@, zone@, *now),
{
    let full = first_match(FULL_DATETIME, text);
    let month_day = first_match(MONTH_DAY_TIME, text);
    let date = first_match(PLAIN_DATE, text);
    let time = first_match(TIME_OF_DAY, text);
    human_time_of(&full, &month_day, &date, &time, zone, now)
}

/// The explicit time that a text tells, for a reader at the time of the machine's clock.
pub fn parse_human_datetime(text: &str, tz: &Zone) -> (r: Option<(String, String)>)
    ensures
        exists|now: Stamp|
            on_the_clock(now.secs, now.nanos, now.offset) && pair_of(r)
                == #[trigger] explicit_time(text@, tz@, now),
{
    let now = Stamp::now();
    parse_human_datetime_at(text, tz, &now)
}

/// Whether a given time reads on its own clock, to the minute, as the right one reads in UTC: the
/// mistake of taking the UTC reading for local time.
pub open spec fn utc_taken_for_local(given: Stamp, right: Option<Stamp>) -> bool {
    match right {
        Some(m) => given.offset != 0 && -60 < given.secs + given.offset - m.secs < 60,
        None => false,
    }
}

fn is_utc_taken_for_local(given: &Stamp, right: &Option<Stamp>) -> (r: bool)
    requires
        readable(given.secs as int, given.nanos as int, given.offset as int),
    ensures
        r == utc_taken_for_local(*given, *right),
{
    match right {
        Some(m) => {
            let reading: i64 = given.secs + given.offset as i64;
            given.offset != 0 && reading - 60 < m.secs && m.secs < reading + 60
        },
        None => false,
    }
}

/// The note on a time that was put right.
pub open spec fn corrected_note(given: Seq<char>, right: Seq<char>) -> Seq<char> {
    "【推算】给出的时间 "@ + given + " 把 UTC 时间当作本地时间，已按相对时限更正为 "@ + right
}

/// The note on a time that was given in some other form.
pub open spec fn normalized_note(words: Seq<char>) -> Seq<char> {
    "【推算】将提取到的时间“"@ + words + "”归一化为 RFC3339"@
}

/// The note on a time that the text tells.
pub open spec fn explicit_note(words: Seq<char>) -> Seq<char> {
    "【推算】按邮件原文明确时间解析：“"@ + words + "”"@
}

/// The deadline and the note from the text alone: an explicit time before a relative limit.
pub open spec fn inferred_from_text(
    body: Seq<char>,
    sent_at: Option<Seq<char>>,
    received_at: Option<Seq<char>>,
    zone: Seq<char>,
    now: Stamp,
) -> (Option<Seq<char>>, Option<Seq<char>>) {
    match explicit_time(body, zone, now) {
        Some((t, words)) => (Some(t), Some(explicit_note(words))),
        None => {
            let base = base_of(sent_at, received_at);
            let d = moment_text(relative_moment(relative_hint(body), base));
            if d is Some {
                let from = base_of(
                    if sent_at is Some {
                        sent_at
                    } else {
                        received_at
                    },
                    None,
                );
                (d, match (relative_hint(body), from) {
                    (Some(n), Some(b)) => match strftime(b.secs, 0, "%Y-%m-%d %H:%M"@) {
                        Some(when) => Some(relative_note(body, n, when)),
                        None => None,
                    },
                    _ => None,
                })
            } else {
                (None, None)
            }
        },
    }
}

/// The deadline of a mail and the note on where it comes from: a time that was already extracted
/// (put right where it mistakes UTC for local time, normalized where it is not RFC 3339), else
/// what the text tells.
pub open spec fn inferred(
    body: Seq<char>,
    existing: Option<Seq<char>>,
    sent_at: Option<Seq<char>>,
    received_at: Option<Seq<char>>,
    zone: Seq<char>,
    now: Stamp,
) -> (Option<Seq<char>>, Option<Seq<char>>) {
    let from_text = inferred_from_text(body, sent_at, received_at, zone, now);
    match existing {
        Some(e) => {
            let d = trimmed(e);
            let right = relative_moment(relative_hint(body), base_of(sent_at, received_at));
            match stamp_of(d) {
                Some(given) if d.len() > 0 => match moment_text(right) {
                    Some(t) if utc_taken_for_local(given, right) => (
                        Some(t),
                        Some(corrected_note(d, t)),
                    ),
                    _ => (Some(d), None),
                },
                _ => match explicit_time(d, zone, now) {
                    Some((t, words)) => (Some(t), Some(normalized_note(words))),
                    None => from_text,
                },
            }
        },
        None => from_text,
    }
}

fn infer_from_text(
    body: &str,
    sent_at: Option<&str>,
    received_at: Option<&str>,
    tz: &Zone,
    now: &Stamp,
) -> (r: (Option<String>, Option<String>))
    ensures
        (text_of(r.0), text_of(r.1)) == inferred_from_text(
            body@,
            str_of(sent_at),
            str_of(received_at),
            tz@,
            *now,
        ),
{
    if let Some((t, words)) = parse_human_datetime_at(body, tz, now) {
        let mut note = "【推算】按邮件原文明确时间解析：“".to_owned();
        note.append(words.as_str());
        note.append("”");
        return (Some(t), Some(note));
    }
    match infer_relative_deadline(body, sent_at, received_at, tz) {
        Some(d) => {
            let from = if sent_at.is_some() {
                sent_at
            } else {
                received_at
            };
            let note = inference_note(body, from);
            (Some(d), note)
        },
        None => (None, None),
    }
}

/// The deadline of a mail and the note on where it comes from, for a reader at the moment `now`.
pub fn infer_deadline_at(
    body: &str,
    existing: Option<String>,
    sent_at: Option<&str>,
    received_at: Option<&str>,
    tz: &Zone,
    now: &Stamp,
) -> (r: (Option<String>, Option<String>))
    ensures
        (text_of(r.0), text_of(r.1)) == inferred(
            body@,
            text_of(existing),
            str_of(sent_at),
            str_of(received_at),
            tz@,
            *now,
        ),
{
    if let Some(e) = existing {
        let d = trim(e.as_str());
        let given = Stamp::parse(d.as_str());
        match given {
            Some(g) => {
                if !d.as_str().is_empty() {
                    let right = relative_moment_of(body, sent_at, received_at);
                    if is_utc_taken_for_local(&g, &right) {
                        if let Some(m) = right {
                            if let Some(t) = m.to_rfc3339() {
                                let mut note = "【推算】给出的时间 ".to_owned();
                                note.append(d.as_str());
                                note.append(" 把 UTC 时间当作本地时间，已按相对时限更正为 ");
                                note.append(t.as_str());
                                return (Some(t), Some(note));
                            }
                        }
                    }
                    return (Some(d), None);
                }
            },
            None => {},
        }
        if let Some((t, words)) = parse_human_datetime_at(d.as_str(), tz, now) {
            let mut note = "【推算】将提取到的时间“".to_owned();
            note.append(words.as_str());
            note.append("”归一化为 RFC3339");
            return (Some(t), Some(note));
        }
    }
    infer_from_text(body, sent_at, received_at, tz, now)
}

/// The deadline of a mail and the note on where it comes from, for a reader at the time of the
/// machine's clock.
pub fn infer_deadline(
    body: &str,
    existing: Option<String>,
    sent_at: Option<&str>,
    received_at: Option<&str>,
    tz: &Zone,
) -> (r: (Option<String>, Option<String>))
    ensures
        exists|now: Stamp|
            on_the_clock(now.secs, now.nanos, now.offset) && (text_of(r.0), text_of(r.1))
                == #[trigger] inferred(
                body@,
                text_of(existing),
                str_of(sent_at),
                str_of(received_at),
                tz@,
                now,
            ),
{
    let now = Stamp::now();
    infer_deadline_at(body, existing, sent_at, received_at, tz, &now)
}

/// The moment that an RFC 3339 text stands for. Where the text lacks the offset, it is what the
/// machine's own clock shows; which offset that is depends on the machine, and is not stated.
pub fn parse_rfc(s: &str) -> (r: Option<Stamp>)
    ensures
        match stamp_of(s@) {
            Some(t) => r == Some(t),
            None => match civil_reading(s@) {
                Some((secs, nanos)) => r matches Some(t) && t.secs + t.offset == secs && t.nanos
                    == nanos && -DAY < t.offset < DAY,
                None => r is None,
            },
        },
{
    Stamp::parse_lenient(s)
}

/// An RFC 3339 deadline that is already there, and is no UTC reading taken for local time, is
/// kept as it is, whatever the text says.
pub proof fn existing_deadline_is_kept(
    body: Seq<char>,
    existing: Seq<char>,
    sent_at: Option<Seq<char>>,
    received_at: Option<Seq<char>>,
    zone: Seq<char>,
    now: Stamp,
)
    requires
        stamp_of(trimmed(existing)) is Some,
        trimmed(existing).len() > 0,
        !utc_taken_for_local(
            stamp_of(trimmed(existing))->0,
            relative_moment(relative_hint(body), base_of(sent_at, received_at)),
        ),
    ensures
        inferred(body, Some(existing), sent_at, received_at, zone, now) == (
            Some(trimmed(existing)),
            None::<Seq<char>>,
        ),
{
}

/// An explicit time in the text counts before a relative limit.
pub proof fn explicit_before_relative(
    body: Seq<char>,
    sent_at: Option<Seq<char>>,
    received_at: Option<Seq<char>>,
    zone: Seq<char>,
    now: Stamp,
)
    requires
        explicit_time(body, zone, now) is Some,
    ensures
        explicit_time(body, zone, now) matches Some(e) ==> inferred(
            body,
            None,
            sent_at,
            received_at,
            zone,
            now,
        ).0 == Some(e.0),
{
}

/// Nothing is made up: a deadline comes only from a time that was extracted, an explicit time in
/// the text, or a relative limit with a moment to count from.
pub proof fn no_deadline_out_of_nothing(
    body: Seq<char>,
    sent_at: Option<Seq<char>>,
    received_at: Option<Seq<char>>,
    zone: Seq<char>,
    now: Stamp,
)
    requires
        explicit_time(body, zone, now) is None,
        relative_hint(body) is None || base_of(sent_at, received_at) is None,
    ensures
        inferred(body, None, sent_at, received_at, zone, now) == (
            None::<Seq<char>>,
            None::<Seq<char>>,
        ),
{
}

} // verus!
