//! Whole numbers in decimal: reading and writing.

use crate::text::chars_of;
use vstd::prelude::*;

verus! {

/// Whether the character is one of `0` to `9`.
pub open spec fn digit(c: char) -> bool {
    '0' <= c <= '9'
}

/// Whether every character is a digit.
pub open spec fn all_digits(s: Seq<char>) -> bool {
    forall|i: int| 0 <= i < s.len() ==> digit(#[trigger] s[i])
}

/// The number that a row of digits stands for.
pub open spec fn digits_value(s: Seq<char>) -> int
    decreases s.len(),
{
    if s.len() == 0 {
        0
    } else {
        digits_value(s.drop_last()) * 10 + (s.last() as int - '0' as int)
    }
}

/// The number that an optionally signed row of digits stands for.
pub open spec fn read_int(s: Seq<char>) -> Option<int> {
    if s.len() > 0 && s[0] == '-' {
        if s.len() > 1 && all_digits(s.drop_first()) {
            Some(-digits_value(s.drop_first()))
        } else {
            None
        }
    } else {
        read_nat(s)
    }
}

/// The number that a row of digits, with or without a plus sign, stands for.
pub open spec fn read_nat(s: Seq<char>) -> Option<int> {
    let body = if s.len() > 0 && s[0] == '+' {
        s.drop_first()
    } else {
        s
    };
    if body.len() > 0 && all_digits(body) {
        Some(digits_value(body))
    } else {
        None
    }
}

/// The number in the text where it is one that lies between the bounds.
pub open spec fn int_within(s: Seq<char>, low: int, high: int) -> Option<int> {
    match read_int(s) {
        Some(n) if low <= n <= high => Some(n),
        _ => None,
    }
}

/// The unsigned number in the text where it is one that does not exceed the bound.
pub open spec fn nat_within(s: Seq<char>, high: int) -> Option<int> {
    match read_nat(s) {
        Some(n) if n <= high => Some(n),
        _ => None,
    }
}

/// Reads the digits from `from` on, up to `max`.
fn read_digits(v: &Vec<char>, from: usize, max: u64) -> (r: Option<u64>)
    requires
        from <= v@.len(),
    ensures
        match r {
            Some(n) => from < v@.len() && all_digits(v@.skip(from as int)) && n == digits_value(
                v@.skip(from as int),
            ) && n <= max,
            None => from == v@.len() || !all_digits(v@.skip(from as int)) || digits_value(
                v@.skip(from as int),
            ) > max,
        },
{
    if from == v.len() {
        return None;
    }
    let ghost body = v@.skip(from as int);
    let mut acc: u64 = 0;
    let mut over = false;
    let mut i: usize = from;
    while i < v.len()
        invariant
            from <= i <= v@.len(),
            body == v@.skip(from as int),
            all_digits(body.take(i - from)),
            over ==> digits_value(body.take(i - from)) > max,
            !over ==> acc == digits_value(body.take(i - from)) && acc <= max,
        decreases v@.len() - i,
    {
        let c = v[i];
        assert(body[i - from] == c);
        if c < '0' || c > '9' {
            assert(!digit(body[i - from]));
            return None;
        }
        let d: u64 = (c as u32 - '0' as u32) as u64;
        proof {
            assert(body.take(i - from + 1).drop_last() == body.take(i - from));
            assert(body.take(i - from + 1).last() == c);
            assert forall|k: int| 0 <= k < i - from + 1 implies digit(
                #[trigger] body.take(i - from + 1)[k],
            ) by {
                if k < i - from {
                    assert(body.take(i - from + 1)[k] == body.take(i - from)[k]);
                }
            }
        }
        if !over {
            if d > max || acc > max / 10 || acc * 10 > max - d {
                over = true;
            } else {
                acc = acc * 10 + d;
            }
        }
        i += 1;
    }
    assert(body.take(i - from) == body);
    if over {
        None
    } else {
        Some(acc)
    }
}

/// The unsigned number in the text, up to `max`.
pub fn parse_nat(s: &str, max: u64) -> (r: Option<u64>)
    ensures
        match r {
            Some(n) => nat_within(s@, max as int) == Some(n as int),
            None => nat_within(s@, max as int) is None,
        },
{
    let v = chars_of(s);
    let from: usize = if v.len() > 0 && v[0] == '+' {
        1
    } else {
        0
    };
    proof {
        assert(v@.skip(0) == v@);
        if v@.len() > 0 {
            assert(v@.skip(1) == v@.drop_first());
        }
    }
    read_digits(&v, from, max)
}

/// The number in the text, where it fits in 64 bits.
pub fn parse_i64(s: &str) -> (r: Option<i64>)
    ensures
        match r {
            Some(n) => int_within(s@, i64::MIN as int, i64::MAX as int) == Some(n as int),
            None => int_within(s@, i64::MIN as int, i64::MAX as int) is None,
        },
{
    let v = chars_of(s);
    proof {
        assert(v@.skip(0) == v@);
        if v@.len() > 0 {
            assert(v@.skip(1) == v@.drop_first());
        }
    }
    if v.len() > 0 && v[0] == '-' {
        match read_digits(&v, 1, 9223372036854775808) {
            Some(n) => {
                if n == 9223372036854775808 {
                    Some(i64::MIN)
                } else {
                    Some(-(n as i64))
                }
            },
            None => None,
        }
    } else {
        match parse_nat(s, 9223372036854775807) {
            Some(n) => Some(n as i64),
            None => None,
        }
    }
}

/// The number in the text, where it fits in 32 bits.
pub fn parse_i32(s: &str) -> (r: Option<i32>)
    ensures
        match r {
            Some(n) => int_within(s@, i32::MIN as int, i32::MAX as int) == Some(n as int),
            None => int_within(s@, i32::MIN as int, i32::MAX as int) is None,
        },
{
    match parse_i64(s) {
        Some(n) => if -2147483648 <= n && n <= 2147483647 {
            Some(n as i32)
        } else {
            None
        },
        None => None,
    }
}

/// The digit that stands for a number below ten.
pub open spec fn digit_char(n: int) -> char {
    ('0' as int + n) as char
}

/// A number in decimal.
pub open spec fn decimal(n: nat) -> Seq<char>
    decreases n,
{
    if n < 10 {
        seq![digit_char(n as int)]
    } else {
        decimal(n / 10).push(digit_char((n % 10) as int))
    }
}

/// A number in decimal, with a minus sign where it is negative.
pub open spec fn signed_decimal(n: int) -> Seq<char> {
    if n < 0 {
        seq!['-'] + decimal((-n) as nat)
    } else {
        decimal(n as nat)
    }
}

/// A number in decimal, with a zero in front where it has one digit only.
pub open spec fn two_digits(n: nat) -> Seq<char> {
    if n < 10 {
        seq!['0'] + decimal(n)
    } else {
        decimal(n)
    }
}

/// What is written in decimal reads back as the same number.
pub proof fn decimal_reads_back(n: nat)
    ensures
        decimal(n).len() > 0,
        all_digits(decimal(n)),
        digits_value(decimal(n)) == n,
    decreases n,
{
    if n < 10 {
        assert(decimal(n).drop_last() == Seq::<char>::empty());
        assert(digits_value(Seq::<char>::empty()) == 0);
    } else {
        decimal_reads_back(n / 10);
        assert(decimal(n).drop_last() == decimal(n / 10));
        assert(decimal(n).last() == digit_char((n % 10) as int));
        assert forall|i: int| 0 <= i < decimal(n).len() implies digit(#[trigger] decimal(n)[i]) by {
            if i < decimal(n).len() - 1 {
                assert(decimal(n)[i] == decimal(n / 10)[i]);
            }
        }
    }
}

/// A signed number that is written in decimal reads back as the same number.
pub proof fn signed_decimal_reads_back(n: int)
    ensures
        read_int(signed_decimal(n)) == Some(n),
{
    if n < 0 {
        decimal_reads_back((-n) as nat);
        assert(signed_decimal(n).drop_first() == decimal((-n) as nat));
    } else {
        decimal_reads_back(n as nat);
        assert(digit(decimal(n as nat)[0]));
    }
}

fn digit_of(d: u64) -> (c: char)
    requires
        d < 10,
    ensures
        c == digit_char(d as int),
{
    if d == 0 {
        '0'
    } else if d == 1 {
        '1'
    } else if d == 2 {
        '2'
    } else if d == 3 {
        '3'
    } else if d == 4 {
        '4'
    } else if d == 5 {
        '5'
    } else if d == 6 {
        '6'
    } else if d == 7 {
        '7'
    } else if d == 8 {
        '8'
    } else {
        '9'
    }
}

fn push_decimal(out: &mut String, n: u64)
    ensures
        final(out)@ == old(out)@ + decimal(n as nat),
    decreases n,
{
    if n >= 10 {
        push_decimal(out, n / 10);
    }
    out.push(digit_of(n % 10));
    proof {
        assert(old(out)@ + decimal(n as nat) == if n < 10 {
            old(out)@.push(digit_char(n as int))
        } else {
            (old(out)@ + decimal((n / 10) as nat)).push(digit_char((n % 10) as int))
        });
    }
}

/// A number in decimal.
pub fn show_u64(n: u64) -> (r: String)
    ensures
        r@ == decimal(n as nat),
{
    let mut out = String::new();
    push_decimal(&mut out, n);
    out
}

/// A number in decimal, with a minus sign where it is negative.
pub fn show_i64(n: i64) -> (r: String)
    ensures
        r@ == signed_decimal(n as int),
{
    let mut out = String::new();
    if n < 0 {
        out.push('-');
        assert(out@ == seq!['-']);
        let m: u64 = if n == i64::MIN {
            9223372036854775808
        } else {
            (-n) as u64
        };
        push_decimal(&mut out, m);
    } else {
        push_decimal(&mut out, n as u64);
    }
    out
}

/// A number in decimal, with a zero in front where it has one digit only.
pub fn show_two_digits(n: u32) -> (r: String)
    ensures
        r@ == two_digits(n as nat),
{
    let mut out = String::new();
    if n < 10 {
        out.push('0');
        assert(out@ == seq!['0']);
    }
    push_decimal(&mut out, n as u64);
    out
}

} // verus!
