//! What the library as a whole keeps to, operation by operation: for all inputs, what comes out in
//! terms of what goes in.

use crate::number::digits_value;
use crate::number::int_within;
use crate::number::nat_within;
use crate::text::any_occurs;
use crate::text::blank;
use crate::text::lines;
use crate::text::occurs;
use crate::text::one_piece;
use crate::text::pieces;
use crate::text::pieces_not_empty;
use crate::text::pieces_of_two;
use crate::text::space;
use crate::text::stands_at;
use crate::text::trim_back;
use crate::text::trim_front;
use crate::text::trimmed;
use crate::time::Stamp;
use vstd::prelude::*;

pub mod answers;
pub mod batches;
pub mod categories;
pub mod checks;
pub mod deadlines;
pub mod interface;
pub mod keeping;
pub mod letters;
pub mod limits;
pub mod mails;
pub mod matters;
pub mod records;
pub mod reminders;
pub mod replies;
pub mod schedule;
pub mod settings;
pub mod storage;
pub mod toolbox;
pub mod tools;

verus! {

/// Whether one moment comes before another, whatever clocks they are told on.
pub open spec fn earlier(a: Stamp, b: Stamp) -> bool {
    a.secs < b.secs || (a.secs == b.secs && a.nanos < b.nanos)
}

/// Whether a text holds another: it is that one with something before it and something after it.
pub open spec fn holds(s: Seq<char>, p: Seq<char>) -> bool {
    exists|a: Seq<char>, b: Seq<char>| s == #[trigger] (a + p + b)
}

/// Whether a text holds one of some others.
pub open spec fn holds_one(s: Seq<char>, list: Seq<Seq<char>>) -> bool {
    exists|k: int| 0 <= k < list.len() && holds(s, #[trigger] list[k])
}

/// Whether a text is of one to four digits, and that number.
pub open spec fn is_number(s: Seq<char>, n: int) -> bool {
    &&& 1 <= s.len() <= 4
    &&& forall|i: int| 0 <= i < s.len() ==> '0' <= #[trigger] s[i] <= '9'
    &&& n == if s.len() == 1 {
        s[0] as int - 48
    } else if s.len() == 2 {
        (s[0] as int - 48) * 10 + (s[1] as int - 48)
    } else if s.len() == 3 {
        (s[0] as int - 48) * 100 + (s[1] as int - 48) * 10 + (s[2] as int - 48)
    } else {
        (s[0] as int - 48) * 1000 + (s[1] as int - 48) * 100 + (s[2] as int - 48) * 10 + (
        s[3] as int - 48)
    }
}

/// To search a text finds what it holds, and nothing else.
pub proof fn searching_finds_what_is_there(s: Seq<char>, p: Seq<char>)
    ensures
        occurs(s, p) == holds(s, p),
{
    if occurs(s, p) {
        let i = choose|i: int| stands_at(s, p, i);
        let a = s.take(i);
        let b = s.skip(i + p.len());
        assert(s =~= a + p + b);
    }
    if holds(s, p) {
        let (a, b) = choose|a: Seq<char>, b: Seq<char>| s == #[trigger] (a + p + b);
        assert(s.subrange(a.len() as int, (a.len() + p.len()) as int) =~= p);
        assert(stands_at(s, p, a.len() as int));
    }
}

/// To search a text for a list finds what it holds of it.
pub proof fn searching_for_one_of_many(s: Seq<char>, list: Seq<&str>, texts: Seq<Seq<char>>)
    requires
        list.len() == texts.len(),
        forall|k: int| 0 <= k < list.len() ==> (#[trigger] list[k])@ == texts[k],
    ensures
        any_occurs(s, list) == holds_one(s, texts),
{
    if any_occurs(s, list) {
        let k = choose|k: int| 0 <= k < list.len() && occurs(s, #[trigger] list[k]@);
        searching_finds_what_is_there(s, texts[k]);
        assert(holds(s, texts[k]));
    }
    if holds_one(s, texts) {
        let k = choose|k: int| 0 <= k < texts.len() && holds(s, #[trigger] texts[k]);
        searching_finds_what_is_there(s, texts[k]);
        assert(occurs(s, list[k]@));
    }
}

/// Digits are read as the number that they write.
pub proof fn digits_are_read_as_written(s: Seq<char>, n: int, low: int, high: int)
    requires
        is_number(s, n),
    ensures
        0 <= n <= 9999,
        low <= n <= high ==> int_within(s, low, high) == Some(n),
        n <= high ==> nat_within(s, high) == Some(n),
        n > high ==> int_within(s, low, high) is None && nat_within(s, high) is None,
{
    reveal_with_fuel(digits_value, 5);
    assert(s[0] >= '0');
    assert(s.drop_last().len() == s.len() - 1);
    if s.len() == 2 {
        assert(s[1] >= '0');
    } else if s.len() == 3 {
        assert(s[1] >= '0' && s[2] >= '0');
    } else if s.len() == 4 {
        assert(s[1] >= '0' && s[2] >= '0' && s[3] >= '0');
    }
    assert(digits_value(s) == n);
}

/// Whether there is nothing but white space in a text.
pub open spec fn only_space(s: Seq<char>) -> bool {
    forall|i: int| 0 <= i < s.len() ==> space(#[trigger] s[i])
}

/// What is printed in ASCII is no white space but for the blank, and no more are Chinese
/// characters and their marks; blanks, tabs, line breaks and the wide blank are.
pub proof fn what_white_space_is(c: char)
    ensures
        '!' <= c <= '~' || '\u{3001}' <= c ==> !space(c),
        c == ' ' || c == '\t' || c == '\n' || c == '\r' || c == '\u{3000}' || c == '\u{a0}' ==> space(
            c,
        ),
{
}

/// To trim a text is to take the white space off its ends, all of it and nothing else.
pub proof fn trimming_takes_the_white_space(a: Seq<char>, t: Seq<char>, b: Seq<char>)
    requires
        only_space(a),
        only_space(b),
        t.len() > 0 ==> !space(t[0]) && !space(t.last()),
    ensures
        trimmed(a + t + b) == t,
{
    let s = a + t + b;
    if t.len() > 0 {
        front_goes(a, t + b);
        assert(s =~= a + (t + b));
        back_goes(t, b);
    } else {
        assert(only_space(s)) by {
            assert forall|i: int| 0 <= i < s.len() implies space(#[trigger] s[i]) by {
                if i < a.len() {
                    assert(s[i] == a[i]);
                } else {
                    assert(s[i] == b[i - a.len()]);
                }
            }
        }
        all_goes(s);
        assert(trimmed(s) =~= t);
    }
}

/// A line is what stands before a line break, without the return before it; what follows the last
/// line break is a line where there is something.
pub proof fn lines_are_what_breaks_end(a: Seq<char>, b: Seq<char>)
    requires
        !a.contains('\n'),
    ensures
        lines(Seq::empty()).len() == 0,
        a.len() > 0 ==> lines(a) == seq![a],
        lines(a + seq!['\n'] + b) == seq![
            if a.len() > 0 && a.last() == '\r' {
                a.drop_last()
            } else {
                a
            },
        ] + lines(b),
{
    let p = pieces(b, '\n');
    let q = pieces(a + seq!['\n'] + b, '\n');
    one_piece(a, '\n');
    pieces_of_two(a, '\n', b);
    pieces_not_empty(b, '\n');
    assert(q == seq![a] + p);
    assert(q.last() == p.last());
    assert(q.drop_last() =~= seq![a] + p.drop_last());
    assert(lines(a + seq!['\n'] + b) =~= seq![
        if a.len() > 0 && a.last() == '\r' {
            a.drop_last()
        } else {
            a
        },
    ] + lines(b));
    assert(lines(Seq::empty()).len() == 0);
    if a.len() > 0 {
        assert(lines(a) =~= seq![a]);
    }
}

/// A text is blank where there is nothing but white space in it.
pub proof fn what_is_blank(s: Seq<char>)
    ensures
        blank(s) == only_space(s),
{
    if only_space(s) {
        all_goes(s);
    } else {
        let i = choose|i: int| 0 <= i < s.len() && !space(#[trigger] s[i]);
        something_stays(s, i);
    }
}

proof fn something_stays(s: Seq<char>, i: int)
    requires
        0 <= i < s.len(),
        !space(s[i]),
    ensures
        trimmed(s).len() > 0,
    decreases s.len(),
{
    if space(s[0]) {
        assert(s.drop_first()[i - 1] == s[i]);
        something_stays(s.drop_first(), i - 1);
    } else {
        assert(trim_front(s) == s);
        end_stays(s, i);
    }
}

proof fn end_stays(s: Seq<char>, i: int)
    requires
        0 <= i < s.len(),
        !space(s[i]),
    ensures
        trim_back(s).len() > 0,
    decreases s.len(),
{
    if space(s.last()) {
        assert(s.drop_last()[i] == s[i]);
        end_stays(s.drop_last(), i);
    }
}

proof fn front_goes(a: Seq<char>, rest: Seq<char>)
    requires
        only_space(a),
        rest.len() > 0,
        !space(rest[0]),
    ensures
        trim_front(a + rest) == rest,
    decreases a.len(),
{
    if a.len() > 0 {
        assert((a + rest)[0] == a[0]);
        assert((a + rest).drop_first() =~= a.drop_first() + rest);
        front_goes(a.drop_first(), rest);
    } else {
        assert(a + rest =~= rest);
    }
}

proof fn back_goes(t: Seq<char>, b: Seq<char>)
    requires
        only_space(b),
        t.len() > 0,
        !space(t.last()),
    ensures
        trim_back(t + b) == t,
    decreases b.len(),
{
    if b.len() > 0 {
        assert((t + b).last() == b.last());
        assert((t + b).drop_last() =~= t + b.drop_last());
        back_goes(t, b.drop_last());
    } else {
        assert(t + b =~= t);
    }
}

proof fn all_goes(s: Seq<char>)
    requires
        only_space(s),
    ensures
        trim_front(s).len() == 0,
        trimmed(s).len() == 0,
    decreases s.len(),
{
    if s.len() > 0 {
        all_goes(s.drop_first());
    }
}

} // verus!
