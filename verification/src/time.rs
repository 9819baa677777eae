//! Moments, zones and the civil calendar.

use crate::text::text_of;
use chrono::Datelike;
use chrono::Offset;
use chrono::TimeZone;
use chrono::Timelike;
use vstd::prelude::*;

verus! {

/// A moment: seconds since the start of 1970 in UTC, nanoseconds into the second, and how many
/// seconds east of UTC the clock stands on which it is told.
#[derive(Clone, Copy, Debug, PartialEq, Eq, Structural)]
pub struct Stamp {
    pub secs: i64,
    pub nanos: u32,
    pub offset: i32,
}

/// Year, month, day, hour, minute, second and offset as a clock in some zone shows them.
pub type Clockface = (i32, u32, u32, u32, u32, u32, i32);

pub const NANOS_PER_SEC: u32 = 1_000_000_000;

/// The seconds within which every moment that this module handles lies (about 250000 years).
pub const SECS_LIMIT: i64 = 8_000_000_000_000;

/// The seconds within which everything that `chrono` can tell lies.
pub const CALENDAR_LIMIT: i64 = 8_400_000_000_000;

/// The last second that `chrono` can tell, at the end of the year 262142.
pub const LAST_SECOND: i64 = 8_210_266_876_799;

pub const HOUR: i64 = 3600;

pub const DAY: i64 = 86400;

/// The moment that an RFC 3339 text stands for, as `chrono` reads it: seconds, nanoseconds, offset.
pub uninterp spec fn rfc3339_moment(text: Seq<char>) -> Option<(i64, u32, i32)>;

/// The RFC 3339 text of a moment, as `chrono` writes it.
pub uninterp spec fn rfc3339_text(secs: i64, nanos: u32, offset: i32) -> Option<Seq<char>>;

/// The moment so many seconds later, as `chrono` counts.
pub uninterp spec fn moment_later(secs: i64, nanos: u32, delta: i64) -> Option<(i64, u32)>;

/// The time from the second moment to the first: whole seconds and nanoseconds of one sign.
pub uninterp spec fn moment_gap(secs: i64, nanos: u32, from_secs: i64, from_nanos: u32) -> Option<
    (i64, i32),
>;

/// What a clock in the zone shows at a moment.
pub uninterp spec fn zone_clock(zone: Seq<char>, secs: i64) -> Option<
    (i32, u32, u32, u32, u32, u32, i32),
>;

/// The moments (seconds and offset) at which clocks in the zone show the given time, in order.
pub uninterp spec fn zone_moments(
    zone: Seq<char>,
    year: i32,
    month: u32,
    day: u32,
    hour: u32,
    minute: u32,
    second: u32,
) -> Seq<(i64, i32)>;

/// The moment (seconds) at which a clock so far east of UTC shows the given time.
pub uninterp spec fn offset_moment(
    offset: i32,
    year: i32,
    month: u32,
    day: u32,
    hour: u32,
    minute: u32,
    second: u32,
) -> Option<i64>;

/// The date so many days before another.
pub uninterp spec fn civil_before(year: i32, month: u32, day: u32, days: i64) -> Option<
    (i32, u32, u32),
>;

/// The date that a text of year, month and day with hyphens stands for, as `chrono` reads it.
pub uninterp spec fn civil_date(text: Seq<char>) -> Option<(i32, u32, u32)>;

/// A moment in the words of a `strftime` pattern, on a clock so far east of UTC.
pub uninterp spec fn strftime(secs: i64, offset: i32, pattern: Seq<char>) -> Option<Seq<char>>;

/// What the date and time of day in a text without an offset come to, as `chrono` reads them: the
/// seconds from the start of 1970 to that reading of one clock, and nanoseconds.
pub uninterp spec fn civil_reading(text: Seq<char>) -> Option<(i64, u32)>;

/// Whether the time zone database knows the zone.
pub uninterp spec fn zone_known(zone: Seq<char>) -> bool;

/// Whether a moment can be written with a four-digit year and an offset of whole minutes.
pub open spec fn writable(secs: int, nanos: int, offset: int) -> bool {
    &&& 0 <= nanos < NANOS_PER_SEC
    &&& -DAY < offset < DAY
    &&& offset % 60 == 0
    &&& -62167219200 <= secs + offset <= 253402300799
}

/// The range of what an RFC 3339 text can stand for: four-digit years, offsets of whole minutes
/// below a day.
pub open spec fn readable(secs: int, nanos: int, offset: int) -> bool {
    &&& 0 <= nanos < 2 * NANOS_PER_SEC
    &&& -DAY < offset < DAY
    &&& offset % 60 == 0
    &&& -62167219200 <= secs + offset <= 253402300799
}

/// Whether a moment lies within the range of the calendar and in no leap second.
pub open spec fn ordinary(secs: i64, nanos: u32) -> bool {
    -SECS_LIMIT <= secs <= SECS_LIMIT && nanos < NANOS_PER_SEC
}

/// Whether a moment lies in a leap second, within the range of the calendar.
pub open spec fn leap(secs: i64, nanos: u32) -> bool {
    -SECS_LIMIT <= secs <= SECS_LIMIT && secs % 60 == 59 && NANOS_PER_SEC <= nanos < 2
        * NANOS_PER_SEC
}

/// Whether that can be what the clock of a machine shows: a moment from 1970 on, in no leap
/// second and not past the last that can be told, on a clock less than a day away from UTC.
pub open spec fn on_the_clock(secs: i64, nanos: u32, offset: i32) -> bool {
    0 <= secs <= LAST_SECOND && nanos < NANOS_PER_SEC && -DAY < offset < DAY
}

/// Whether whole seconds and nanoseconds of one sign make up the time between two moments.
pub open spec fn is_gap(
    gap: (i64, i32),
    secs: i64,
    nanos: u32,
    from_secs: i64,
    from_nanos: u32,
) -> bool {
    &&& gap.0 * NANOS_PER_SEC + gap.1 == (secs - from_secs) * NANOS_PER_SEC + nanos - from_nanos
    &&& gap.0 > 0 ==> 0 <= gap.1
    &&& gap.0 < 0 ==> gap.1 <= 0
    &&& -NANOS_PER_SEC < gap.1 < NANOS_PER_SEC
}

/// `chrono::DateTime::parse_from_rfc3339`. Years have four digits, offsets are whole minutes
/// below a day, and a leap second is told by nanoseconds of a thousand million and more.
#[verifier::external_body]
fn read_rfc3339(text: &str) -> (r: Option<(i64, u32, i32)>)
    ensures
        r == rfc3339_moment(text@),
        r matches Some(m) ==> readable(m.0 as int, m.1 as int, m.2 as int),
{
    let t = chrono::DateTime::parse_from_rfc3339(text).ok()?;
    Some((t.timestamp(), t.timestamp_subsec_nanos(), t.offset().local_minus_utc()))
}

/// `chrono::DateTime::to_rfc3339`, on the moment that the numbers stand for. What it writes of a
/// moment with a four-digit year and an offset of whole minutes reads back as the same moment. All
/// that the clock of a machine can show is written, in more than no characters.
#[verifier::external_body]
fn write_rfc3339(secs: i64, nanos: u32, offset: i32) -> (r: Option<String>)
    ensures
        text_of(r) == rfc3339_text(secs, nanos, offset),
        writable(secs as int, nanos as int, offset as int) ==> r is Some && rfc3339_moment(r->0@)
            == Some((secs, nanos, offset)),
        on_the_clock(secs, nanos, offset) ==> r is Some && r->0@.len() > 0,
{
    let t = chrono::DateTime::from_timestamp(secs, nanos)?;
    Some(t.with_timezone(&chrono::FixedOffset::east_opt(offset)?).to_rfc3339())
}

/// `chrono::DateTime::checked_add_signed`, on a number of seconds. Outside leap seconds the
/// seconds are added and the nanoseconds stay; what comes after a leap second counts from the
/// second that it follows.
#[verifier::external_body]
fn add_seconds(secs: i64, nanos: u32, delta: i64) -> (r: Option<(i64, u32)>)
    ensures
        r == moment_later(secs, nanos, delta),
        ordinary(secs, nanos) && -SECS_LIMIT <= secs + delta <= SECS_LIMIT ==> r == Some(
            ((secs + delta) as i64, nanos),
        ),
        leap(secs, nanos) && delta > 0 && secs + delta <= SECS_LIMIT ==> r == Some(
            ((secs + delta) as i64, (nanos - NANOS_PER_SEC) as u32),
        ),
{
    let t = chrono::DateTime::from_timestamp(secs, nanos)?;
    let later = t.checked_add_signed(chrono::TimeDelta::try_seconds(delta)?)?;
    Some((later.timestamp(), later.timestamp_subsec_nanos()))
}

/// `chrono::DateTime::signed_duration_since`: whole seconds and nanoseconds, both of one sign.
/// Outside leap seconds it is the difference of the two readings.
#[verifier::external_body]
fn gap_between(secs: i64, nanos: u32, from_secs: i64, from_nanos: u32) -> (r: Option<(i64, i32)>)
    ensures
        r == moment_gap(secs, nanos, from_secs, from_nanos),
        ordinary(secs, nanos) && ordinary(from_secs, from_nanos) ==> r is Some && is_gap(
            r->0,
            secs,
            nanos,
            from_secs,
            from_nanos,
        ),
{
    let t = chrono::DateTime::from_timestamp(secs, nanos)?;
    let gap = t.signed_duration_since(chrono::DateTime::from_timestamp(from_secs, from_nanos)?);
    Some((gap.num_seconds(), gap.subsec_nanos()))
}

/// Whether the fields of a clock lie within their ranges.
pub open spec fn sane_clock(c: Clockface) -> bool {
    -262144 <= c.0 <= 262143 && 1 <= c.1 <= 12 && 1 <= c.2 <= 31 && c.3 < 24 && c.4 < 60 && c.5 < 60
}

/// `chrono::DateTime::with_timezone`, in the zone of that name of `chrono-tz`.
#[verifier::external_body]
fn clock_in_zone(zone: &str, secs: i64) -> (r: Option<Clockface>)
    ensures
        r == zone_clock(zone@, secs),
        r matches Some(c) ==> sane_clock(c),
{
    let tz: chrono_tz::Tz = zone.parse().ok()?;
    let t = chrono::DateTime::from_timestamp(secs, 0)?.with_timezone(&tz);
    let off = t.offset().fix().local_minus_utc();
    Some((t.year(), t.month(), t.day(), t.hour(), t.minute(), t.second(), off))
}

/// `chrono::TimeZone::with_ymd_and_hms`, in the zone of that name of `chrono-tz`: no moment, one,
/// or the two at which clocks show the same time as they are set back.
#[verifier::external_body]
fn moments_in_zone(
    zone: &str,
    year: i32,
    month: u32,
    day: u32,
    hour: u32,
    minute: u32,
    second: u32,
) -> (r: Vec<(i64, i32)>)
    ensures
        r@ == zone_moments(zone@, year, month, day, hour, minute, second),
        r@.len() <= 2,
{
    let Ok(tz) = zone.parse::<chrono_tz::Tz>() else { return Vec::new() };
    let plain = |t: chrono::DateTime<chrono_tz::Tz>| (t.timestamp(), t.offset().fix().local_minus_utc());
    match tz.with_ymd_and_hms(year, month, day, hour, minute, second) {
        chrono::MappedLocalTime::None => Vec::new(),
        chrono::MappedLocalTime::Single(t) => vec![plain(t)],
        chrono::MappedLocalTime::Ambiguous(a, b) => vec![plain(a), plain(b)],
    }
}

/// `chrono::TimeZone::with_ymd_and_hms` on a `chrono::FixedOffset`, which maps each time to one
/// moment. Nothing where the offset reaches a day or there is no such date or time.
#[verifier::external_body]
fn moment_at_offset(
    offset: i32,
    year: i32,
    month: u32,
    day: u32,
    hour: u32,
    minute: u32,
    second: u32,
) -> (r: Option<i64>)
    ensures
        r == offset_moment(offset, year, month, day, hour, minute, second),
{
    let east = chrono::FixedOffset::east_opt(offset)?;
    let t = east.with_ymd_and_hms(year, month, day, hour, minute, second).single()?;
    Some(t.timestamp())
}

/// `chrono::NaiveDate::checked_sub_signed`, on a number of days.
#[verifier::external_body]
fn date_before(year: i32, month: u32, day: u32, days: i64) -> (r: Option<(i32, u32, u32)>)
    ensures
        r == civil_before(year, month, day, days),
{
    let date = chrono::NaiveDate::from_ymd_opt(year, month, day)?;
    let earlier = date.checked_sub_signed(chrono::TimeDelta::try_days(days)?)?;
    Some((earlier.year(), earlier.month(), earlier.day()))
}

/// `chrono::NaiveDate::parse_from_str`, with the pattern `%Y-%m-%d`.
#[verifier::external_body]
fn parse_date(text: &str) -> (r: Option<(i32, u32, u32)>)
    ensures
        r == civil_date(text@),
{
    let date = chrono::NaiveDate::parse_from_str(text, "%Y-%m-%d").ok()?;
    Some((date.year(), date.month(), date.day()))
}

/// `chrono::DateTime::format`, for the three patterns that stand in this library.
#[verifier::external_body]
fn format_pattern(secs: i64, offset: i32, pattern: &str) -> (r: Option<String>)
    requires
        pattern@ == "%Y-%m-%d %H:%M"@ || pattern@ == "%Y-%m-%d"@ || pattern@ == "%H:%M"@,
    ensures
        text_of(r) == strftime(secs, offset, pattern@),
{
    let t = chrono::DateTime::from_timestamp(secs, 0)?;
    Some(t.with_timezone(&chrono::FixedOffset::east_opt(offset)?).format(pattern).to_string())
}

/// Whether `chrono_tz::Tz` has a zone of that name.
#[verifier::external_body]
fn zone_exists(zone: &str) -> (r: bool)
    ensures
        r == zone_known(zone@),
{
    zone.parse::<chrono_tz::Tz>().is_ok()
}

/// `chrono::Local::now`: the time that the machine's clock shows. Only its range is promised.
#[verifier::external_body]
fn machine_clock() -> (r: (i64, u32, i32))
    ensures
        on_the_clock(r.0, r.1, r.2),
{
    let t = chrono::Local::now();
    (t.timestamp(), t.timestamp_subsec_nanos(), t.offset().local_minus_utc())
}

/// `chrono::NaiveDateTime::parse_from_str`, with the pattern `%Y-%m-%dT%H:%M:%S%.f`; nothing where
/// the text is no date and time of day.
#[verifier::external_body]
fn parse_reading(text: &str) -> (r: Option<(i64, u32)>)
    ensures
        r == civil_reading(text@),
        r matches Some(t) ==> -CALENDAR_LIMIT <= t.0 <= CALENDAR_LIMIT && t.1 < 2 * NANOS_PER_SEC,
{
    let t = chrono::NaiveDateTime::parse_from_str(text, "%Y-%m-%dT%H:%M:%S%.f").ok()?.and_utc();
    Some((t.timestamp(), t.timestamp_subsec_nanos()))
}

/// `chrono::TimeZone::from_local_datetime` on `chrono::Local`: how far east of UTC the machine's
/// clock stands when it first shows a reading; nothing where it never does. Only the range of an
/// offset is promised.
#[verifier::external_body]
fn local_offset(secs: i64, nanos: u32) -> (r: Option<i32>)
    ensures
        r matches Some(offset) ==> -DAY < offset < DAY,
{
    let reading = chrono::DateTime::from_timestamp(secs, nanos)?.naive_utc();
    let t = chrono::Local.from_local_datetime(&reading).earliest()?;
    Some(t.offset().local_minus_utc())
}

/// `chrono::TimeZone::offset_from_utc_datetime` on `chrono::Local`: how far east of UTC the
/// machine's clock stands at a moment; nothing where the calendar has no such moment. Only the
/// range of an offset is promised, and that there is one for ordinary moments. Where the machine
/// is set to a zone a day or more from UTC, the call panics, as reading the machine's clock does.
#[verifier::external_body]
fn offset_at(secs: i64, nanos: u32) -> (r: Option<i32>)
    ensures
        r matches Some(offset) ==> -DAY < offset < DAY,
        ordinary(secs, nanos) ==> r is Some,
{
    let t = chrono::DateTime::from_timestamp(secs, nanos)?.naive_utc();
    Some(chrono::Local.offset_from_utc_datetime(&t).local_minus_utc())
}

/// The moment that an RFC 3339 text stands for.
pub open spec fn stamp_of(text: Seq<char>) -> Option<Stamp> {
    match rfc3339_moment(text) {
        Some(m) => Some(Stamp { secs: m.0, nanos: m.1, offset: m.2 }),
        None => None,
    }
}

impl Stamp {
    /// Whether this moment comes before the other.
    pub open spec fn before(self, other: Stamp) -> bool {
        self.secs < other.secs || (self.secs == other.secs && self.nanos < other.nanos)
    }

    /// Whether the two are the same moment, told on whatever clocks.
    pub open spec fn simultaneous(self, other: Stamp) -> bool {
        self.secs == other.secs && self.nanos == other.nanos
    }

    /// The RFC 3339 text of this moment.
    pub open spec fn rfc3339(self) -> Option<Seq<char>> {
        rfc3339_text(self.secs, self.nanos, self.offset)
    }

    /// The same moment on the clock of UTC.
    pub open spec fn utc(self) -> Stamp {
        Stamp { offset: 0, ..self }
    }

    /// This moment so many seconds later.
    pub open spec fn later(self, delta: i64) -> Option<Stamp> {
        match moment_later(self.secs, self.nanos, delta) {
            Some(m) => Some(Stamp { secs: m.0, nanos: m.1, offset: self.offset }),
            None => None,
        }
    }

    /// The moment that an RFC 3339 text stands for.
    pub fn parse(text: &str) -> (r: Option<Stamp>)
        ensures
            r == stamp_of(text@),
            r matches Some(s) ==> readable(s.secs as int, s.nanos as int, s.offset as int),
    {
        match read_rfc3339(text) {
            Some((secs, nanos, offset)) => Some(Stamp { secs, nanos, offset }),
            None => None,
        }
    }

    /// The RFC 3339 text of this moment.
    pub fn to_rfc3339(&self) -> (r: Option<String>)
        ensures
            text_of(r) == self.rfc3339(),
            writable(self.secs as int, self.nanos as int, self.offset as int) ==> r is Some
                && stamp_of(r->0@) == Some(*self),
            on_the_clock(self.secs, self.nanos, self.offset) ==> r is Some && r->0@.len() > 0,
    {
        write_rfc3339(self.secs, self.nanos, self.offset)
    }

    /// Whether this moment comes before the other.
    pub fn is_before(&self, other: &Stamp) -> (r: bool)
        ensures
            r == self.before(*other),
    {
        self.secs < other.secs || (self.secs == other.secs && self.nanos < other.nanos)
    }

    /// The same moment on the clock of UTC.
    pub fn to_utc(&self) -> (r: Stamp)
        ensures
            r == self.utc(),
    {
        Stamp { secs: self.secs, nanos: self.nanos, offset: 0 }
    }

    /// This moment so many seconds later.
    pub fn plus_seconds(&self, delta: i64) -> (r: Option<Stamp>)
        ensures
            r == self.later(delta),
            ordinary(self.secs, self.nanos) && -SECS_LIMIT <= self.secs + delta <= SECS_LIMIT
                ==> r == Some(
                (Stamp { secs: (self.secs + delta) as i64, nanos: self.nanos, offset: self.offset }),
            ),
            leap(self.secs, self.nanos) && delta > 0 && self.secs + delta <= SECS_LIMIT ==> r
                == Some(
                (Stamp {
                    secs: (self.secs + delta) as i64,
                    nanos: (self.nanos - NANOS_PER_SEC) as u32,
                    offset: self.offset,
                }),
            ),
    {
        match add_seconds(self.secs, self.nanos, delta) {
            Some((secs, nanos)) => Some(Stamp { secs, nanos, offset: self.offset }),
            None => None,
        }
    }

    /// The time from the other moment to this one.
    pub fn since(&self, other: &Stamp) -> (r: Option<(i64, i32)>)
        ensures
            r == moment_gap(self.secs, self.nanos, other.secs, other.nanos),
            ordinary(self.secs, self.nanos) && ordinary(other.secs, other.nanos) ==> r is Some
                && is_gap(r->0, self.secs, self.nanos, other.secs, other.nanos),
    {
        gap_between(self.secs, self.nanos, other.secs, other.nanos)
    }

    /// The moment that a text stands for. A date and time of day without an offset is what the
    /// machine's own clock shows.
    pub fn parse_lenient(text: &str) -> (r: Option<Stamp>)
        ensures
            match stamp_of(text@) {
                Some(t) => r == Some(t),
                None => match civil_reading(text@) {
                    Some((secs, nanos)) => r matches Some(t) && t.secs + t.offset == secs && t.nanos
                        == nanos && -DAY < t.offset < DAY,
                    None => r is None,
                },
            },
    {
        if let Some(t) = Stamp::parse(text) {
            return Some(t);
        }
        match parse_reading(text) {
            Some((secs, nanos)) => {
                let offset = match local_offset(secs, nanos) {
                    Some(o) => o,
                    None => machine_clock().2,
                };
                Some(Stamp { secs: secs - offset as i64, nanos, offset })
            },
            None => None,
        }
    }

    /// How far east of UTC the machine's clock stands at this moment, where the calendar has it.
    pub fn machine_offset(&self) -> (r: Option<i32>)
        ensures
            r matches Some(offset) ==> -DAY < offset < DAY,
            ordinary(self.secs, self.nanos) ==> r is Some,
    {
        offset_at(self.secs, self.nanos)
    }

    /// The time that the machine's clock shows.
    pub fn now() -> (r: Stamp)
        ensures
            on_the_clock(r.secs, r.nanos, r.offset),
    {
        let (secs, nanos, offset) = machine_clock();
        Stamp { secs, nanos, offset }
    }

    /// This moment as year, month, day, hour and minute.
    pub fn to_minute_text(&self) -> (r: Option<String>)
        ensures
            text_of(r) == strftime(self.secs, self.offset, "%Y-%m-%d %H:%M"@),
    {
        format_pattern(self.secs, self.offset, "%Y-%m-%d %H:%M")
    }

    /// The day of this moment as year, month and day.
    pub fn to_day_text(&self) -> (r: Option<String>)
        ensures
            text_of(r) == strftime(self.secs, self.offset, "%Y-%m-%d"@),
    {
        format_pattern(self.secs, self.offset, "%Y-%m-%d")
    }

    /// The hour and minute of this moment.
    pub fn to_hour_text(&self) -> (r: Option<String>)
        ensures
            text_of(r) == strftime(self.secs, self.offset, "%H:%M"@),
    {
        format_pattern(self.secs, self.offset, "%H:%M")
    }
}

/// A time zone, by its name in the IANA database.
#[derive(Debug)]
pub struct Zone {
    pub name: String,
}

impl View for Zone {
    type V = Seq<char>;

    open spec fn view(&self) -> Seq<char> {
        self.name@
    }
}

impl Clone for Zone {
    fn clone(&self) -> (r: Self)
        ensures
            r == *self,
    {
        Zone { name: self.name.clone() }
    }
}

/// The only moment among those given, or the last where there are two.
pub open spec fn last_moment(m: Seq<(i64, i32)>) -> Option<Stamp> {
    if m.len() == 0 {
        None
    } else {
        Some(Stamp { secs: m.last().0, nanos: 0, offset: m.last().1 })
    }
}

/// The moment among those given where there is exactly one.
pub open spec fn single_moment(m: Seq<(i64, i32)>) -> Option<Stamp> {
    if m.len() == 1 {
        last_moment(m)
    } else {
        None
    }
}

impl Zone {
    /// The zone of that name, where the database has it.
    pub fn new(name: &str) -> (r: Option<Zone>)
        ensures
            r is Some == zone_known(name@),
            r matches Some(z) ==> z@ == name@,
    {
        if zone_exists(name) {
            Some(Zone { name: name.to_owned() })
        } else {
            None
        }
    }

    /// What a clock in the zone shows at the moment.
    pub fn clock(&self, at: &Stamp) -> (r: Option<Clockface>)
        ensures
            r == zone_clock(self@, at.secs),
            r matches Some(c) ==> sane_clock(c),
    {
        clock_in_zone(self.name.as_str(), at.secs)
    }

    /// The moment at which clocks in the zone show the time; the later one where they show it twice.
    pub fn moment(
        &self,
        year: i32,
        month: u32,
        day: u32,
        hour: u32,
        minute: u32,
        second: u32,
    ) -> (r: Option<Stamp>)
        ensures
            r == last_moment(zone_moments(self@, year, month, day, hour, minute, second)),
    {
        let m = moments_in_zone(self.name.as_str(), year, month, day, hour, minute, second);
        if m.len() == 0 {
            None
        } else {
            let (secs, offset) = m[m.len() - 1];
            Some(Stamp { secs, nanos: 0, offset })
        }
    }

    /// The moment at which clocks in the zone show the time, where they show it exactly once.
    pub fn only_moment(
        &self,
        year: i32,
        month: u32,
        day: u32,
        hour: u32,
        minute: u32,
        second: u32,
    ) -> (r: Option<Stamp>)
        ensures
            r == single_moment(zone_moments(self@, year, month, day, hour, minute, second)),
    {
        let m = moments_in_zone(self.name.as_str(), year, month, day, hour, minute, second);
        if m.len() == 1 {
            let (secs, offset) = m[0];
            Some(Stamp { secs, nanos: 0, offset })
        } else {
            None
        }
    }
}

/// The moment at which a clock so far east of UTC shows the time.
pub fn fixed_moment(
    offset: i32,
    year: i32,
    month: u32,
    day: u32,
    hour: u32,
    minute: u32,
    second: u32,
) -> (r: Option<Stamp>)
    ensures
        r == match offset_moment(offset, year, month, day, hour, minute, second) {
            Some(secs) => Some(Stamp { secs, nanos: 0, offset }),
            None => None,
        },
{
    match moment_at_offset(offset, year, month, day, hour, minute, second) {
        Some(secs) => Some(Stamp { secs, nanos: 0, offset }),
        None => None,
    }
}

/// The date so many days before another.
pub fn days_before(year: i32, month: u32, day: u32, days: i64) -> (r: Option<(i32, u32, u32)>)
    ensures
        r == civil_before(year, month, day, days),
{
    date_before(year, month, day, days)
}

/// The date that a text of year, month and day with hyphens stands for.
pub fn date_of(text: &str) -> (r: Option<(i32, u32, u32)>)
    ensures
        r == civil_date(text@),
{
    parse_date(text)
}

/// A moment in RFC 3339; empty where it cannot be written.
pub open spec fn time_text(at: Stamp) -> Seq<char> {
    match at.rfc3339() {
        Some(t) => t,
        None => Seq::empty(),
    }
}

/// Whether a text tells, in RFC 3339, a moment that the clock of a machine can show. Told with a
/// four-digit year and an offset of whole minutes, the moment can be read from it.
pub open spec fn clock_text(text: Seq<char>, at: Stamp) -> bool {
    &&& on_the_clock(at.secs, at.nanos, at.offset)
    &&& text == time_text(at)
    &&& text.len() > 0
    &&& writable(at.secs as int, at.nanos as int, at.offset as int) ==> stamp_of(text) == Some(at)
}

/// The time that the machine's clock shows, in RFC 3339. Which time that is depends on the
/// machine, and is not stated.
pub fn now_str() -> (r: String)
    ensures
        exists|now: Stamp| #[trigger] clock_text(r@, now),
        r@.len() > 0,
{
    let now = Stamp::now();
    let r = match now.to_rfc3339() {
        Some(t) => t,
        None => String::new(),
    };
    assert(clock_text(r@, now));
    r
}

} // verus!
