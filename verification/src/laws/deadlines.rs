//! The deadline of a mail: the time that its words tell.

use crate::deadline::action_hint;
use crate::deadline::deadline_words;
use crate::deadline::expiry_hint;
use crate::deadline::explicit_time;
use crate::deadline::inferred;
use crate::deadline::relative_hint;
use crate::deadline::tail8;
use crate::laws::digits_are_read_as_written;
use crate::laws::earlier;
use crate::laws::holds_one;
use crate::laws::is_number;
use crate::laws::searching_for_one_of_many;
use crate::pattern::FoundView;
use crate::pattern::regex_first;
use crate::text::lower_text;
use crate::text::prefix;
use crate::text::stands_at;
use crate::text::trimmed;
use crate::time::moment_later;
use crate::time::offset_moment;
use crate::time::rfc3339_moment;
use crate::time::rfc3339_text;
use crate::time::Stamp;
use crate::time::zone_clock;
use crate::time::zone_moments;
use vstd::prelude::*;

verus! {

/// Where a text shows a date with a year and a time: year, month, day, hour, minute, second,
/// offset from UTC in hours, minutes of the offset.
pub open spec fn full_date_in(text: Seq<char>) -> Option<FoundView> {
    regex_first(
        r"(?P<y>\d{4})\s*[-/年.]\s*(?P<mo>\d{1,2})\s*[-/月.]\s*(?P<d>\d{1,2})\s*[日号]?\s*(?:[T\s]\s*)?(?P<h>\d{1,2})\s*[:：-]\s*(?P<mi>\d{2})(?:\s*[:：]\s*(?P<s>\d{2}))?\s*(?:\(?(?:GMT|UTC)\s*(?P<off>[+-]\d{1,2}):?(?P<offmi>\d{2})?\)?)?"@,
        text,
    )
}

/// Where a text shows a month, a day and a time: month, day, words for the time of day, hour,
/// minute.
pub open spec fn month_and_day_in(text: Seq<char>) -> Option<FoundView> {
    regex_first(
        r"(?P<mo>\d{1,2})\s*月\s*(?P<d>\d{1,2})\s*[日号]?\s*(?P<ampm>[上下午晚上]+)?\s*(?P<h>\d{1,2})\s*[:：]\s*(?P<mi>\d{2})"@,
        text,
    )
}

/// Where a text shows a date: year, month and day, or month and day in figures.
pub open spec fn date_in(text: Seq<char>) -> Option<FoundView> {
    regex_first(
        r"(?:(?P<y>\d{4})\s*[-/年.]\s*)?(?:(?P<mo>\d{1,2})\s*月\s*(?P<d>\d{1,2})|(?P<mo2>\d{1,2})\s*[-/]\s*(?P<d2>\d{1,2}))\s*[日号]?"@,
        text,
    )
}

/// Where a text shows a time of day: words for the time of day, hour, minute.
pub open spec fn time_in(text: Seq<char>) -> Option<FoundView> {
    regex_first(r"(?P<ampm>[上下午晚上]+)\s*(?P<h>\d{1,2})\s*[:：]\s*(?P<mi>\d{2})"@, text)
}

/// Whether a group of a match holds a number.
pub open spec fn shows(f: FoundView, n: int, v: int) -> bool {
    n < f.1.len() && f.1[n] is Some && is_number(f.1[n]->0, v)
}

/// Whether the words for a time of day are those for the afternoon or the evening.
pub open spec fn past_noon(words: Option<Seq<char>>) -> bool {
    words matches Some(w) && (w.contains('下') || w.contains('晚'))
}

/// Whether that is what is told of the last of some moments at which a clock shows a time: its
/// text in RFC 3339, and the words that it was read from.
pub open spec fn tells_last(
    r: Option<(Seq<char>, Seq<char>)>,
    moments: Seq<(i64, i32)>,
    f: FoundView,
) -> bool {
    match rfc3339_text(moments.last().0, 0, moments.last().1) {
        Some(t) => r == Some((t, f.1[0]->0)),
        None => r is None,
    }
}

/// Whether a clock shows a time for the last time before a moment.
pub open spec fn gone(moments: Seq<(i64, i32)>, now: Stamp) -> bool {
    earlier(Stamp { secs: moments.last().0, nanos: 0, offset: moments.last().1 }, now)
}

/// A month, a day and a time of day are the next moment at which a clock in the zone shows them:
/// this year, or the next where it is past. The hour is the one that is written; only after words
/// for the afternoon or the evening is an hour below twelve moved on by twelve.
pub proof fn month_day_and_time_as_written(
    text: Seq<char>,
    zone: Seq<char>,
    now: Stamp,
    f: FoundView,
    month: int,
    day: int,
    hour: int,
    minute: int,
)
    requires
        full_date_in(text) is None,
        month_and_day_in(text) == Some(f),
        f.1.len() >= 6,
        f.1[0] is Some,
        shows(f, 1, month),
        shows(f, 2, day),
        shows(f, 4, hour),
        shows(f, 5, minute),
        zone_clock(zone, now.secs) matches Some(c) && c.0 < i32::MAX,
    ensures
        ({
            let shown = if past_noon(f.1[3]) && hour < 12 {
                hour + 12
            } else {
                hour
            };
            let c = zone_clock(zone, now.secs)->0;
            let year = c.0;
            let this = zone_moments(
                zone,
                year,
                month as u32,
                day as u32,
                shown as u32,
                minute as u32,
                0,
            );
            let next = zone_moments(
                zone,
                (year + 1) as i32,
                month as u32,
                day as u32,
                shown as u32,
                minute as u32,
                0,
            );
            let r = explicit_time(text, zone, now);
            if this.len() == 0 {
                r is None
            } else if !gone(this, now) {
                tells_last(r, this, f)
            } else if next.len() == 0 {
                r is None
            } else {
                tells_last(r, next, f)
            }
        }),
{
    digits_are_read_as_written(f.1[1]->0, month, i32::MIN as int, i32::MAX as int);
    digits_are_read_as_written(f.1[2]->0, day, i32::MIN as int, i32::MAX as int);
    digits_are_read_as_written(f.1[4]->0, hour, i32::MIN as int, i32::MAX as int);
    digits_are_read_as_written(f.1[5]->0, minute, i32::MIN as int, i32::MAX as int);
}

/// A time of day alone is today's on the clock of the zone, or that a day on where it is past. The
/// hour is the one that is written; only after words for the afternoon or the evening is an hour
/// below twelve moved on by twelve.
pub proof fn time_of_day_as_written(
    text: Seq<char>,
    zone: Seq<char>,
    now: Stamp,
    f: FoundView,
    hour: int,
    minute: int,
)
    requires
        full_date_in(text) is None,
        month_and_day_in(text) is None,
        date_in(text) is None,
        time_in(text) == Some(f),
        f.1.len() >= 4,
        f.1[0] is Some,
        shows(f, 2, hour),
        shows(f, 3, minute),
        zone_clock(zone, now.secs) is Some,
    ensures
        ({
            let shown = if past_noon(f.1[1]) && hour < 12 {
                hour + 12
            } else {
                hour
            };
            let c = zone_clock(zone, now.secs)->0;
            let this = zone_moments(zone, c.0, c.1, c.2, shown as u32, minute as u32, 0);
            let r = explicit_time(text, zone, now);
            if this.len() != 1 {
                r is None
            } else if !gone(this, now) {
                tells_last(r, this, f)
            } else {
                match moment_later(this[0].0, 0, 86400) {
                    Some(m) => match zone_clock(zone, m.0) {
                        Some(k) => match rfc3339_text(m.0, m.1, k.6) {
                            Some(t) => r == Some((t, f.1[0]->0)),
                            None => r is None,
                        },
                        None => r is None,
                    },
                    None => r is None,
                }
            }
        }),
{
    digits_are_read_as_written(f.1[2]->0, hour, i32::MIN as int, i32::MAX as int);
    digits_are_read_as_written(f.1[3]->0, minute, i32::MIN as int, i32::MAX as int);
}

/// A full date and time without an offset are the moment at which a clock in the zone shows them,
/// the later where it does so twice, whatever the time is now. They count before all that the
/// text tells besides.
pub proof fn full_date_and_time_as_written(
    text: Seq<char>,
    zone: Seq<char>,
    now: Stamp,
    f: FoundView,
    year: int,
    month: int,
    day: int,
    hour: int,
    minute: int,
    second: int,
)
    requires
        full_date_in(text) == Some(f),
        f.1.len() >= 9,
        f.1[0] is Some,
        shows(f, 1, year),
        shows(f, 2, month),
        shows(f, 3, day),
        shows(f, 4, hour),
        shows(f, 5, minute),
        if f.1[6] is Some {
            shows(f, 6, second)
        } else {
            second == 0
        },
        f.1[7] is None,
    ensures
        ({
            let moments = zone_moments(
                zone,
                year as i32,
                month as u32,
                day as u32,
                hour as u32,
                minute as u32,
                second as u32,
            );
            moments.len() > 0 ==> tells_last(explicit_time(text, zone, now), moments, f)
        }),
{
    let low = i32::MIN as int;
    let high = i32::MAX as int;
    digits_are_read_as_written(f.1[1]->0, year, low, high);
    digits_are_read_as_written(f.1[2]->0, month, low, high);
    digits_are_read_as_written(f.1[3]->0, day, low, high);
    digits_are_read_as_written(f.1[4]->0, hour, low, high);
    digits_are_read_as_written(f.1[5]->0, minute, low, high);
    if f.1[6] is Some {
        digits_are_read_as_written(f.1[6]->0, second, low, high);
    }
}

/// A full date and time with an offset from UTC are the moment at which a clock so far from UTC
/// shows them, in whatever zone and whatever the time is now.
pub proof fn offset_as_written(
    text: Seq<char>,
    zone: Seq<char>,
    now: Stamp,
    f: FoundView,
    date: (int, int, int),
    time: (int, int, int),
    sign: char,
    hours: Seq<char>,
    h: int,
    m: int,
)
    requires
        full_date_in(text) == Some(f),
        f.1.len() >= 9,
        f.1[0] is Some,
        shows(f, 1, date.0),
        shows(f, 2, date.1),
        shows(f, 3, date.2),
        shows(f, 4, time.0),
        shows(f, 5, time.1),
        if f.1[6] is Some {
            shows(f, 6, time.2)
        } else {
            time.2 == 0
        },
        sign == '+' || sign == '-',
        f.1[7] == Some(seq![sign] + hours),
        is_number(hours, h),
        if f.1[8] is Some {
            shows(f, 8, m)
        } else {
            m == 0
        },
        h * 3600 + m * 60 < 86400,
    ensures
        ({
            let east = if sign == '-' {
                -(h * 3600 + m * 60)
            } else {
                h * 3600 + m * 60
            };
            offset_moment(
                east as i32,
                date.0 as i32,
                date.1 as u32,
                date.2 as u32,
                time.0 as u32,
                time.1 as u32,
                time.2 as u32,
            ) matches Some(secs) ==> match rfc3339_text(secs, 0, east as i32) {
                Some(t) => explicit_time(text, zone, now) == Some((t, f.1[0]->0)),
                None => explicit_time(text, zone, now) is None,
            }
        }),
{
    let low = i32::MIN as int;
    let high = i32::MAX as int;
    digits_are_read_as_written(f.1[1]->0, date.0, low, high);
    digits_are_read_as_written(f.1[2]->0, date.1, low, high);
    digits_are_read_as_written(f.1[3]->0, date.2, low, high);
    digits_are_read_as_written(f.1[4]->0, time.0, low, high);
    digits_are_read_as_written(f.1[5]->0, time.1, low, high);
    if f.1[6] is Some {
        digits_are_read_as_written(f.1[6]->0, time.2, low, high);
    }
    assert((seq![sign] + hours).drop_first() =~= hours);
    digits_are_read_as_written(hours, h, low, high);
    if f.1[8] is Some {
        digits_are_read_as_written(f.1[8]->0, m, low, high);
    }
}

/// Where a text gives a number of hours within which to act.
pub open spec fn hours_to_act_in(text: Seq<char>) -> Option<FoundView> {
    regex_first(
        r"\s*(\d{1,3})\s*(?:个)?\s*(?:小时|h|H|hr|HR|hours?|Hours?)\s*之?\s*内\s*(?:完成|回复|确认|提交|作答|办理|处理|操作|参加|参与|联系|反馈|登记|填写|激活|操作)"@,
        text,
    )
}

/// Where a text gives a number of days within which to act.
pub open spec fn days_to_act_in(text: Seq<char>) -> Option<FoundView> {
    regex_first(
        r"\s*(\d{1,2})\s*(?:个)?\s*(?:工作|自然)?\s*[日天]\s*之?\s*内\s*(?:完成|回复|确认|提交|作答|办理|处理|操作|参加|参与|联系|反馈|登记|填写|激活|操作)"@,
        text,
    )
}

/// Where a text gives a limit within which to act in English: number and unit, before or after
/// what is to be done.
pub open spec fn english_limit_in(text: Seq<char>) -> Option<FoundView> {
    regex_first(
        r"(?:(?:within|in)\s+(?P<a>\d{1,3})\s*(?P<au>hours?|days?)\s*(?:please\s+)?(?:complete|respond|reply|confirm|submit|finish|take)|(?:please\s+)?(?:complete|respond|reply|confirm|submit|finish|take)\s+[^.\n]{0,40}?\bwithin\s+(?P<b>\d{1,3})\s*(?P<bu>hours?|days?))"@,
        text,
    )
}

/// Where a text tells of a link or a right that lapses after a number of hours.
pub open spec fn lapse_in_hours_in(text: Seq<char>) -> Option<FoundView> {
    regex_first(
        r"(?:链接|资格|邀请码|二维码|验证码)[^。\n]{0,20}?(\d{1,3})\s*(?:个)?\s*(?:小时|h|H|hr|HR|hours?|Hours?)\s*(?:之?[后内])?\s*(?:将|会)?\s*(?:自动)?\s*(?:失效|过期|作废)"@,
        text,
    )
}

/// Where a text tells of a link or a right that lapses after a number of days.
pub open spec fn lapse_in_days_in(text: Seq<char>) -> Option<FoundView> {
    regex_first(
        r"(?:链接|资格|邀请码|二维码|验证码)[^。\n]{0,20}?(\d{1,2})\s*(?:个)?\s*(?:工作|自然)?\s*[日天]\s*(?:之?[后内])?\s*(?:将|会)?\s*(?:自动)?\s*(?:失效|过期|作废)"@,
        text,
    )
}

/// Where a text tells of a validity of a number of hours.
pub open spec fn valid_hours_in(text: Seq<char>) -> Option<FoundView> {
    regex_first(
        r"有效期\s*(?:为|是|仅|:|：)?\s*(\d{1,3})\s*(?:个)?\s*(?:小时|h|H|hr|HR|hours?|Hours?)"@,
        text,
    )
}

/// Where a text tells of a validity of a number of days.
pub open spec fn valid_days_in(text: Seq<char>) -> Option<FoundView> {
    regex_first(
        r"有效期\s*(?:为|是|仅|:|：)?\s*(\d{1,2})\s*(?:个)?\s*(?:工作|自然)?\s*[日天]"@,
        text,
    )
}

/// Whether a match shows a number from one up to a bound in its first group.
pub open spec fn shows_up_to(f: Option<FoundView>, n: int, most: int) -> bool {
    f matches Some(m) && shows(m, 1, n) && 0 < n <= most
}

/// Words near a date that make it a deadline, among the eight characters before and after it.
pub open spec fn is_marked(f: FoundView) -> bool {
    let list = seq![
        "截止"@,
        "截至"@,
        "前"@,
        "以前"@,
        "之前"@,
        "deadline"@,
        "before"@,
    ];
    let before = if f.0.len() > 8 {
        f.0.skip(f.0.len() - 8)
    } else {
        f.0
    };
    let after = if f.2.len() > 8 {
        f.2.take(8)
    } else {
        f.2
    };
    holds_one(before, list) || holds_one(after, list)
}

proof fn marks_are_these(f: FoundView)
    ensures
        is_marked(f) == crate::deadline::marks_deadline(f),
{
    let list = seq![
        "截止"@,
        "截至"@,
        "前"@,
        "以前"@,
        "之前"@,
        "deadline"@,
        "before"@,
    ];
    searching_for_one_of_many(tail8(f.0), deadline_words(), list);
    searching_for_one_of_many(prefix(f.2, 8), deadline_words(), list);
}

/// A date with words near it that make it a deadline is the last second of that day on a clock in
/// the zone: in the year that is given, else this year, or the next where it is past. Without such
/// words it tells nothing.
pub proof fn date_as_written(
    text: Seq<char>,
    zone: Seq<char>,
    now: Stamp,
    f: FoundView,
    month: int,
    day: int,
)
    requires
        full_date_in(text) is None,
        month_and_day_in(text) is None,
        date_in(text) == Some(f),
        f.1.len() >= 6,
        f.1[0] is Some,
        if f.1[2] is Some && f.1[3] is Some {
            shows(f, 2, month) && shows(f, 3, day)
        } else {
            shows(f, 4, month) && shows(f, 5, day)
        },
        zone_clock(zone, now.secs) matches Some(c) && c.0 < i32::MAX,
    ensures
        !is_marked(f) && time_in(text) is None ==> explicit_time(text, zone, now) is None,
        forall|year: int|
            is_marked(f) && #[trigger] shows(f, 1, year) ==> ({
                let moments = zone_moments(
                    zone,
                    year as i32,
                    month as u32,
                    day as u32,
                    23,
                    59,
                    59,
                );
                let r = explicit_time(text, zone, now);
                if moments.len() == 0 {
                    r is None
                } else {
                    tells_last(r, moments, f)
                }
            }),
        is_marked(f) && f.1[1] is None ==> ({
            let c = zone_clock(zone, now.secs)->0;
            let this = zone_moments(zone, c.0, month as u32, day as u32, 23, 59, 59);
            let next = zone_moments(zone, (c.0 + 1) as i32, month as u32, day as u32, 23, 59, 59);
            let r = explicit_time(text, zone, now);
            if this.len() == 0 {
                r is None
            } else if !gone(this, now) {
                tells_last(r, this, f)
            } else if next.len() == 0 {
                r is None
            } else {
                tells_last(r, next, f)
            }
        }),
{
    let low = i32::MIN as int;
    let high = i32::MAX as int;
    marks_are_these(f);
    if f.1[2] is Some && f.1[3] is Some {
        digits_are_read_as_written(f.1[2]->0, month, low, high);
        digits_are_read_as_written(f.1[3]->0, day, low, high);
    } else {
        digits_are_read_as_written(f.1[4]->0, month, low, high);
        digits_are_read_as_written(f.1[5]->0, day, low, high);
    }
    assert forall|year: int| is_marked(f) && #[trigger] shows(f, 1, year) implies ({
        let moments = zone_moments(zone, year as i32, month as u32, day as u32, 23, 59, 59);
        let r = explicit_time(text, zone, now);
        if moments.len() == 0 {
            r is None
        } else {
            tells_last(r, moments, f)
        }
    }) by {
        digits_are_read_as_written(f.1[1]->0, year, low, high);
    }
}

/// A text that shows no date and no time tells no explicit time.
pub proof fn no_time_out_of_nothing(text: Seq<char>, zone: Seq<char>, now: Stamp)
    requires
        full_date_in(text) is None,
        month_and_day_in(text) is None,
        date_in(text) is None,
        time_in(text) is None,
    ensures
        explicit_time(text, zone, now) is None,
{
}

/// A limit within which to act is so many hours, up to 720, else so many days, up to 90, else what
/// an English wording says. Where there is one it is the limit of the text.
pub proof fn limit_to_act_as_written(text: Seq<char>, n: int)
    ensures
        shows_up_to(hours_to_act_in(text), n, 720) ==> action_hint(text) == Some(n * 3600),
        hours_to_act_in(text) is None && shows_up_to(days_to_act_in(text), n, 90) ==> action_hint(
            text,
        ) == Some(n * 86400),
        hours_to_act_in(text) is None && days_to_act_in(text) is None ==> match english_limit_in(
            text,
        ) {
            None => action_hint(text) is None,
            Some(f) => f.1.len() >= 5 && (if f.1[1] is Some && f.1[2] is Some {
                shows(f, 1, n)
            } else {
                f.1[4] is Some && shows(f, 3, n)
            }) && n > 0 ==> ({
                let unit = if f.1[1] is Some && f.1[2] is Some {
                    f.1[2]->0
                } else {
                    f.1[4]->0
                };
                if stands_at(lower_text(unit), "hour"@, 0) {
                    n <= 720 ==> action_hint(text) == Some(n * 3600)
                } else {
                    n <= 90 ==> action_hint(text) == Some(n * 86400)
                }
            }),
        },
        action_hint(text) is Some ==> relative_hint(text) == action_hint(text),
{
    let low = i64::MIN as int;
    let high = i64::MAX as int;
    if shows_up_to(hours_to_act_in(text), n, 720) {
        let f = hours_to_act_in(text)->0;
        digits_are_read_as_written(f.1[1]->0, n, low, high);
    }
    if shows_up_to(days_to_act_in(text), n, 90) {
        let f = days_to_act_in(text)->0;
        digits_are_read_as_written(f.1[1]->0, n, low, high);
    }
    match english_limit_in(text) {
        Some(f) => {
            if f.1.len() >= 5 {
                if f.1[1] is Some && f.1[2] is Some && shows(f, 1, n) {
                    digits_are_read_as_written(f.1[1]->0, n, low, high);
                } else if f.1[4] is Some && shows(f, 3, n) {
                    digits_are_read_as_written(f.1[3]->0, n, low, high);
                }
            }
        },
        None => {},
    }
}

/// The time after which a link or a right lapses is so many hours, up to 720, or days, up to 90:
/// in words for the lapse first, then in words for the validity. It is the limit of a text that
/// gives none within which to act.
pub proof fn lapse_as_written(text: Seq<char>, n: int)
    ensures
        shows_up_to(lapse_in_hours_in(text), n, 720) ==> expiry_hint(text) == Some(n * 3600),
        lapse_in_hours_in(text) is None && shows_up_to(lapse_in_days_in(text), n, 90)
            ==> expiry_hint(text) == Some(n * 86400),
        lapse_in_hours_in(text) is None && lapse_in_days_in(text) is None && shows_up_to(
            valid_hours_in(text),
            n,
            720,
        ) ==> expiry_hint(text) == Some(n * 3600),
        lapse_in_hours_in(text) is None && lapse_in_days_in(text) is None && valid_hours_in(
            text,
        ) is None && shows_up_to(valid_days_in(text), n, 90) ==> expiry_hint(text) == Some(
            n * 86400,
        ),
        lapse_in_hours_in(text) is None && lapse_in_days_in(text) is None && valid_hours_in(
            text,
        ) is None && valid_days_in(text) is None ==> expiry_hint(text) is None,
        action_hint(text) is None ==> relative_hint(text) == expiry_hint(text),
{
    let low = i64::MIN as int;
    let high = i64::MAX as int;
    if shows_up_to(lapse_in_hours_in(text), n, 720) {
        let f = lapse_in_hours_in(text)->0;
        digits_are_read_as_written(f.1[1]->0, n, low, high);
    }
    if shows_up_to(lapse_in_days_in(text), n, 90) {
        let f = lapse_in_days_in(text)->0;
        digits_are_read_as_written(f.1[1]->0, n, low, high);
    }
    if shows_up_to(valid_hours_in(text), n, 720) {
        let f = valid_hours_in(text)->0;
        digits_are_read_as_written(f.1[1]->0, n, low, high);
    }
    if shows_up_to(valid_days_in(text), n, 90) {
        let f = valid_days_in(text)->0;
        digits_are_read_as_written(f.1[1]->0, n, low, high);
    }
}

/// Whether a moment is the one that limits count from: the time of sending, else that of receipt.
pub open spec fn counts_from(
    base: (i64, u32, i32),
    sent_at: Option<Seq<char>>,
    received_at: Option<Seq<char>>,
) -> bool {
    match sent_at {
        Some(t) if rfc3339_moment(t) is Some => rfc3339_moment(t) == Some(base),
        _ => received_at matches Some(t) && rfc3339_moment(t) == Some(base),
    }
}

/// A limit counts from the time of sending, or else from that of receipt, and is told on the clock
/// of that time. What is not told by the text itself comes with a note.
pub proof fn limits_count_from_sending(
    body: Seq<char>,
    sent_at: Option<Seq<char>>,
    received_at: Option<Seq<char>>,
    zone: Seq<char>,
    now: Stamp,
    base: (i64, u32, i32),
    n: int,
)
    requires
        explicit_time(body, zone, now) is None,
        relative_hint(body) == Some(n),
        counts_from(base, sent_at, received_at),
    ensures
        inferred(body, None, sent_at, received_at, zone, now).0 == match moment_later(
            base.0,
            base.1,
            n as i64,
        ) {
            Some(m) => rfc3339_text(m.0, m.1, base.2),
            None => None,
        },
{
}

/// The time that the text tells counts before a limit, and comes with a note.
pub proof fn explicit_times_come_first(
    body: Seq<char>,
    sent_at: Option<Seq<char>>,
    received_at: Option<Seq<char>>,
    zone: Seq<char>,
    now: Stamp,
)
    ensures
        explicit_time(body, zone, now) matches Some(e) ==> {
            let r = inferred(body, None, sent_at, received_at, zone, now);
            r.0 == Some(e.0) && r.1 is Some
        },
{
}

/// A deadline that is there is kept, but where it reads on its own clock, to the minute, as the
/// limit of the text reads in UTC: then it is what the limit comes to, with a note. One that is no
/// RFC 3339 time is the time that its words tell, and where they tell none there is no deadline
/// yet.
pub proof fn existing_deadlines_are_put_right(
    body: Seq<char>,
    existing: Seq<char>,
    sent_at: Option<Seq<char>>,
    received_at: Option<Seq<char>>,
    zone: Seq<char>,
    now: Stamp,
)
    ensures
        ({
            let d = trimmed(existing);
            let r = inferred(body, Some(existing), sent_at, received_at, zone, now);
            match rfc3339_moment(d) {
                Some(given) if d.len() > 0 => {
                    &&& r.0 is Some
                    &&& relative_hint(body) is None ==> r == (Some(d), None::<Seq<char>>)
                    &&& forall|base: (i64, u32, i32), m: (i64, u32)|
                        #![trigger counts_from(base, sent_at, received_at), rfc3339_text(m.0, m.1, base.2)]
                        counts_from(base, sent_at, received_at) && relative_hint(body) is Some
                            && moment_later(base.0, base.1, relative_hint(body)->0 as i64) == Some(
                            m,
                        ) && rfc3339_text(
                            m.0,
                            m.1,
                            base.2,
                        ) is Some ==> if given.2 != 0 && -60 < given.0 + given.2 - m.0 < 60 {
                            r.0 == rfc3339_text(m.0, m.1, base.2) && r.1 is Some
                        } else {
                            r == (Some(d), None::<Seq<char>>)
                        }
                },
                _ => match explicit_time(d, zone, now) {
                    Some(e) => r.0 == Some(e.0) && r.1 is Some,
                    None => r == inferred(body, None, sent_at, received_at, zone, now),
                },
            }
        }),
{
}

} // verus!
