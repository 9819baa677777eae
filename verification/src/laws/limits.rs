//! The bounds of what deadlines are told by, and the notes that come with them.

use crate::agent::calls::planned;
use crate::agent::calls::Plan;
use crate::agent::registry::SafetyLevel;
use crate::agent::registry::ToolDef;
use crate::agent::registry::Work;
use crate::deadline::action_hint;
use crate::deadline::expiry_hint;
use crate::deadline::explicit_time;
use crate::deadline::hint_piece;
use crate::deadline::inferred;
use crate::deadline::limit_words;
use crate::deadline::relative_hint;
use crate::deadline::whole;
use crate::json::Json;
use crate::json::view_of;
use crate::laws::deadlines::days_to_act_in;
use crate::laws::deadlines::english_limit_in;
use crate::laws::deadlines::full_date_in;
use crate::laws::deadlines::hours_to_act_in;
use crate::laws::deadlines::lapse_in_days_in;
use crate::laws::deadlines::lapse_in_hours_in;
use crate::laws::deadlines::month_and_day_in;
use crate::laws::deadlines::date_in;
use crate::laws::deadlines::shows;
use crate::laws::deadlines::time_in;
use crate::laws::deadlines::valid_days_in;
use crate::laws::deadlines::valid_hours_in;
use crate::laws::digits_are_read_as_written;
use crate::laws::is_number;
use crate::number::int_within;
use crate::number::signed_decimal;
use crate::pattern::FoundView;
use crate::text::lower_text;
use crate::text::stands_at;
use crate::text::trim_front;
use crate::time::moment_later;
use crate::time::rfc3339_moment;
use crate::time::rfc3339_text;
use crate::time::Stamp;
use crate::time::strftime;
use vstd::arithmetic::div_mod::lemma_fundamental_div_mod_converse;
use vstd::prelude::*;

verus! {

/// Whether a match shows no number that counts, up to a bound: it is none, or it is more.
pub open spec fn shows_too_much(f: Option<FoundView>, n: int, most: int) -> bool {
    f matches Some(m) && shows(m, 1, n) && (n == 0 || n > most)
}

/// A limit of no hours, or of more than 720 of them or than 90 days, is none.
pub proof fn limits_that_do_not_count(text: Seq<char>, n: int)
    ensures
        shows_too_much(hours_to_act_in(text), n, 720) && days_to_act_in(text) is None
            && english_limit_in(text) is None ==> action_hint(text) is None,
        hours_to_act_in(text) is None && shows_too_much(days_to_act_in(text), n, 90)
            && english_limit_in(text) is None ==> action_hint(text) is None,
        hours_to_act_in(text) is None && days_to_act_in(text) is None ==> (english_limit_in(
            text,
        ) matches Some(f) ==> f.1.len() >= 5 && f.1[1] is Some && f.1[2] is Some && shows(f, 1, n)
            && (n == 0 || n > if stands_at(lower_text(f.1[2]->0), "hour"@, 0) {
            720int
        } else {
            90int
        }) ==> action_hint(text) is None),
        shows_too_much(lapse_in_hours_in(text), n, 720) && lapse_in_days_in(text) is None
            && valid_hours_in(text) is None && valid_days_in(text) is None ==> expiry_hint(
            text,
        ) is None,
        lapse_in_hours_in(text) is None && shows_too_much(lapse_in_days_in(text), n, 90)
            && valid_hours_in(text) is None && valid_days_in(text) is None ==> expiry_hint(
            text,
        ) is None,
        lapse_in_hours_in(text) is None && lapse_in_days_in(text) is None && shows_too_much(
            valid_hours_in(text),
            n,
            720,
        ) && valid_days_in(text) is None ==> expiry_hint(text) is None,
        lapse_in_hours_in(text) is None && lapse_in_days_in(text) is None && valid_hours_in(
            text,
        ) is None && shows_too_much(valid_days_in(text), n, 90) ==> expiry_hint(text) is None,
{
    shown_is_read(hours_to_act_in(text), n);
    shown_is_read(days_to_act_in(text), n);
    shown_is_read(english_limit_in(text), n);
    shown_is_read(lapse_in_hours_in(text), n);
    shown_is_read(lapse_in_days_in(text), n);
    shown_is_read(valid_hours_in(text), n);
    shown_is_read(valid_days_in(text), n);
}

proof fn shown_is_read(f: Option<FoundView>, n: int)
    ensures
        f matches Some(m) ==> shows(m, 1, n) ==> int_within(
            m.1[1]->0,
            i64::MIN as int,
            i64::MAX as int,
        ) == Some(n) && n >= 0,
{
    if f is Some && shows(f->0, 1, n) {
        let m = f->0;
        digits_are_read_as_written(m.1[1]->0, n, i64::MIN as int, i64::MAX as int);
    }
}

/// A full date and time with an offset of a day or more is no time.
pub proof fn offsets_that_do_not_count(
    text: Seq<char>,
    zone: Seq<char>,
    now: Stamp,
    f: FoundView,
    sign: char,
    hours: Seq<char>,
    h: int,
)
    requires
        full_date_in(text) == Some(f),
        month_and_day_in(text) is None,
        date_in(text) is None,
        time_in(text) is None,
        f.1.len() >= 9,
        f.1[0] is Some,
        sign == '+' || sign == '-',
        f.1[7] == Some(seq![sign] + hours),
        is_number(hours, h),
        f.1[8] is None,
        h >= 24,
    ensures
        explicit_time(text, zone, now) is None,
{
    let low = i32::MIN as int;
    let high = i32::MAX as int;
    assert((seq![sign] + hours).drop_first() =~= hours);
    digits_are_read_as_written(hours, h, low, high);
}

/// A limit is told in days where it is of whole days, else in hours.
pub proof fn how_limits_are_told(n: int)
    requires
        0 < n,
    ensures
        limit_words(n * 86400) == signed_decimal(n) + "日"@,
        n % 24 != 0 ==> limit_words(n * 3600) == signed_decimal(n) + "小时"@,
{
    assert((n * 86400) / 3600 == n * 24);
    assert((n * 24) % 24 == 0);
    assert((n * 24) / 24 == n);
    assert((n * 3600) / 3600 == n);
}

/// A span is of so many whole hours or days, counted toward nothing.
pub proof fn whole_spans(n: int, rest: int, unit: int)
    requires
        unit > 0,
        n >= 0,
        0 <= rest < unit,
    ensures
        whole(n * unit + rest, unit) == n,
        whole(-(n * unit + rest), unit) == -n,
{
    lemma_fundamental_div_mod_converse(n * unit + rest, unit, n, rest);
    assert(n * unit >= 0) by (nonlinear_arith)
        requires
            n >= 0,
            unit > 0,
    ;
    if n * unit + rest == 0 {
        assert(n == 0) by (nonlinear_arith)
            requires
                n * unit + rest == 0,
                n >= 0,
                unit > 0,
                0 <= rest,
        ;
    }
}

/// What comes of a limit is noted with the words that tell it, the time that it counts from and how
/// long it is: from the time of sending, where the mail has one, else from that of receipt.
pub proof fn limits_are_noted(
    body: Seq<char>,
    sent_at: Seq<char>,
    received_at: Option<Seq<char>>,
    zone: Seq<char>,
    now: Stamp,
    base: (i64, u32, i32),
    m: (i64, u32),
    n: int,
    when: Seq<char>,
)
    requires
        explicit_time(body, zone, now) is None,
        relative_hint(body) == Some(n),
        rfc3339_moment(sent_at) == Some(base),
        moment_later(base.0, base.1, n as i64) == Some(m),
        rfc3339_text(m.0, m.1, base.2) is Some,
        strftime(base.0, 0, "%Y-%m-%d %H:%M"@) == Some(when),
    ensures
        inferred(body, None, Some(sent_at), received_at, zone, now).1 == Some(
            "【推算】截止时间依据邮件原文“"@ + hint_piece(body) + "”＋发件时间 "@ + when + " 推算（+"@ + limit_words(
                n,
            ) + "）"@,
        ),
        inferred(body, None, None, Some(sent_at), zone, now).1 == Some(
            "【推算】截止时间依据邮件原文“"@ + hint_piece(body) + "”＋发件时间 "@ + when + " 推算（+"@ + limit_words(
                n,
            ) + "）"@,
        ),
{
}

/// The words that tell a limit are those up to the first word for "within", 25 characters of them
/// at most.
pub proof fn words_of_a_limit(a: Seq<char>, b: Seq<char>)
    requires
        !a.contains('内'),
    ensures
        a.len() <= 24 ==> hint_piece(a + seq!['内'] + b) == trim_front(a + seq!['内']),
        a.len() > 24 ==> hint_piece(a + seq!['内'] + b) == trim_front(
            a.skip(a.len() - 24) + seq!['内'],
        ),
{
    let s = a + seq!['内'] + b;
    let k: int = a.len() as int;
    s.index_of_first_ensures('内');
    assert(s[k] == '内');
    assert(s.contains(s[k]));
    let i = s.index_of_first('内')->0;
    assert(s[i] == '内');
    if i < k {
        assert(a.contains(a[i]));
    }
    assert(i == k);
    if a.len() <= 24 {
        assert(s.subrange(0, k + 1) =~= a + seq!['内']);
    } else {
        assert(s.subrange(k - 24, k + 1) =~= a.skip(a.len() - 24) + seq!['内']);
    }
}

/// The note on a time that the text tells quotes its words.
pub proof fn told_times_are_noted(
    body: Seq<char>,
    sent_at: Option<Seq<char>>,
    received_at: Option<Seq<char>>,
    zone: Seq<char>,
    now: Stamp,
)
    ensures
        explicit_time(body, zone, now) matches Some(e) ==> inferred(
            body,
            None,
            sent_at,
            received_at,
            zone,
            now,
        ).1 == Some("【推算】按邮件原文明确时间解析：“"@ + e.1 + "”"@),
{
}

/// A tool of its own is carried out by whoever registered it, with the arguments of the call; where
/// it changes something a user is asked first.
pub proof fn tools_of_their_own(
    p: Plan,
    t: ToolDef,
    args: Json,
    found: bool,
    zone: Seq<char>,
    now: Stamp,
)
    requires
        planned(p, t, args, found, zone, now),
        t.work == Work::Own,
    ensures
        t.safety == SafetyLevel::Mutate ==> (p matches Plan::Ask(q) && view_of(q.payload)
            == view_of(args)),
        t.safety != SafetyLevel::Mutate ==> (p matches Plan::Own(a) && view_of(a) == view_of(args)),
{
}

} // verus!
