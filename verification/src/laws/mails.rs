//! The mail that comes in: who sent it and when, what its headers and its parts say, and what is
//! fetched and how.

use crate::encoding::base64_bytes;
use crate::encoding::lossy_text;
use crate::laws::only_space;
use crate::laws::trimming_takes_the_white_space;
use crate::laws::what_is_blank;
use crate::mail::imap::bodies;
use crate::mail::imap::FetchedMessage;
use crate::mail::imap::greatest_uid;
use crate::mail::imap::uid_range;
use crate::mail::parse::b_text;
use crate::mail::parse::body_text;
use crate::mail::parse::checksum;
use crate::mail::parse::dense;
use crate::mail::parse::fingerprint;
use crate::mail::parse::first_of;
use crate::mail::parse::folded;
use crate::mail::parse::folded_is;
use crate::mail::parse::full_lines;
use crate::mail::parse::group_text;
use crate::mail::parse::header;
use crate::mail::parse::header_text;
use crate::mail::parse::hex_pair;
use crate::mail::parse::html_of;
use crate::mail::parse::html_text;
use crate::mail::parse::known_charset;
use crate::mail::parse::mail_date;
use crate::mail::parse::message;
use crate::mail::parse::mime_header;
use crate::mail::parse::ParsedMail;
use crate::mail::parse::PartView;
use crate::mail::parse::plain_of;
use crate::mail::parse::q_bytes;
use crate::mail::parse::sender;
use crate::mail::parse::sent_text;
use crate::mail::parse::untagged;
use crate::mail::parse::word_text;
use crate::mail::smtp::from_address;
use crate::mail::smtp::Security;
use crate::mail::smtp::security;
use crate::number::decimal;
use crate::pattern::FoundView;
use crate::pattern::group;
use crate::pattern::regex_first;
use crate::text::lines;
use crate::text::lower_text;
use crate::text::space;
use crate::text::strip_back;
use crate::text::strip_front;
use crate::text::stripped;
use crate::text::trimmed;
use crate::time::rfc3339_text;
use vstd::prelude::*;
use vstd::utf8::encode_utf8;

verus! {

/// A mail was sent at the time of its date, told in UTC; where the date is blank or tells none, it
/// is not known.
pub proof fn when_mail_was_sent(date: Seq<char>)
    ensures
        only_space(date) ==> sent_text(date).len() == 0,
        mail_date(date) is None ==> sent_text(date).len() == 0,
        !only_space(date) ==> (mail_date(date) matches Some(secs) ==> (rfc3339_text(
            secs,
            0,
            0,
        ) matches Some(t) ==> sent_text(date) == t)),
{
    what_is_blank(date);
}

/// Whether a text can be the name of a sender or an address: it does not start or end with white
/// space, a quotation mark or a bracket, and holds no opening one.
pub open spec fn bare(t: Seq<char>) -> bool {
    &&& t.len() > 0
    &&& !space(t[0]) && t[0] != '"' && t[0] != '>'
    &&& !space(t.last()) && t.last() != '"' && t.last() != '>'
    &&& !t.contains('<')
}

proof fn bare_stays(t: Seq<char>, c: char)
    requires
        t.len() > 0,
        t[0] != c,
        t.last() != c,
    ensures
        strip_front(t, c) == t,
        strip_back(t, c) == t,
        stripped(t, c) == t,
{
}

/// Who sent a mail stands before the address in brackets, in quotation marks or not; a sender
/// without brackets is an address.
pub proof fn who_sent_mail(name: Seq<char>, address: Seq<char>)
    requires
        bare(name),
        bare(address),
    ensures
        sender(name + seq![' ', '<'] + address + seq!['>']) == (name, address),
        sender(seq!['"'] + name + seq!['"', ' ', '<'] + address + seq!['>']) == (name, address),
        sender(address) == (Seq::<char>::empty(), address),
{
    let nothing = Seq::<char>::empty();
    let n: int = name.len() as int;
    let s = name + seq![' ', '<'] + address + seq!['>'];
    assert(s.skip(n + 2) =~= address + seq!['>']);
    trimming_takes_the_white_space(nothing, s, nothing);
    assert(nothing + s + nothing =~= s);
    bracket_is_found(s, n + 1, address);
    assert(s.take(n + 1) =~= nothing + name + seq![' ']);
    assert(only_space(seq![' ']));
    trimming_takes_the_white_space(nothing, name, seq![' ']);
    bare_stays(name, '"');
    address_is_read(s, n + 1, address);

    let q = seq!['"'] + name + seq!['"', ' ', '<'] + address + seq!['>'];
    let quoted = seq!['"'] + name + seq!['"'];
    assert(q.skip(n + 4) =~= address + seq!['>']);
    trimming_takes_the_white_space(nothing, q, nothing);
    assert(nothing + q + nothing =~= q);
    bracket_is_found(q, n + 3, address);
    assert(q.take(n + 3) =~= nothing + quoted + seq![' ']);
    trimming_takes_the_white_space(nothing, quoted, seq![' ']);
    assert(quoted.drop_first() =~= name + seq!['"']);
    reveal_with_fuel(strip_front, 2);
    reveal_with_fuel(strip_back, 2);
    assert((name + seq!['"'])[0] == name[0]);
    assert((name + seq!['"']).last() == '"');
    assert((name + seq!['"']).drop_last() =~= name);
    address_is_read(q, n + 3, address);

    trimming_takes_the_white_space(nothing, address, nothing);
    assert(nothing + address + nothing =~= address);
    address.index_of_last_ensures('<');
}

proof fn bracket_is_found(s: Seq<char>, k: int, address: Seq<char>)
    requires
        s.len() == k + 1 + address.len() + 1,
        0 <= k,
        s[k] == '<',
        s.last() == '>',
        s.skip(k + 1) == address + seq!['>'],
        !address.contains('<'),
    ensures
        s.index_of_last('<') == Some(k),
{
    s.index_of_last_ensures('<');
    assert(s.contains(s[k]));
    let i = s.index_of_last('<')->0;
    assert(s[i] == '<');
    if i > k {
        assert(s[i] == s.skip(k + 1)[i - k - 1]);
        if i < s.len() - 1 {
            assert(address.contains(address[i - k - 1]));
        }
    }
}

proof fn address_is_read(s: Seq<char>, k: int, address: Seq<char>)
    requires
        0 <= k < s.len(),
        s.skip(k + 1) == address + seq!['>'],
        bare(address),
    ensures
        trimmed(strip_back(s.skip(k + 1), '>')) == address,
{
    let nothing = Seq::<char>::empty();
    let t = address + seq!['>'];
    assert(t.last() == '>');
    assert(t.drop_last() =~= address);
    reveal_with_fuel(strip_back, 2);
    bare_stays(address, '>');
    trimming_takes_the_white_space(nothing, address, nothing);
    assert(nothing + address + nothing =~= address);
}

/// White space in Base64 text does not count; what is no Base64 stays as it is.
pub proof fn what_base64_stands_for(a: Seq<char>, c: char, b: Seq<char>)
    requires
        space(c),
    ensures
        forall|i: int| 0 <= i < a.len() ==> !space(#[trigger] a[i]) ==> dense(seq![a[i]]) == seq![a[i]],
        dense(a + seq![c] + b) == dense(a + b),
        dense(a + b) == dense(a) + dense(b),
        base64_bytes(dense(a)) is Some ==> b_text(a) == lossy_text(base64_bytes(dense(a))->0),
        base64_bytes(dense(a)) is None ==> b_text(a) == a,
{
    let keep = |c: char| !space(c);
    Seq::filter_distributes_over_add(a, b, keep);
    Seq::filter_distributes_over_add(a + seq![c], b, keep);
    Seq::filter_distributes_over_add(a, seq![c], keep);
    reveal_with_fuel(Seq::filter, 2);
    assert(seq![c].drop_last() =~= Seq::<char>::empty());
    assert(seq![c].filter(keep) =~= Seq::<char>::empty());
    assert(dense(a) + Seq::<char>::empty() =~= dense(a));
    assert forall|i: int| 0 <= i < a.len() && !space(#[trigger] a[i]) implies dense(seq![a[i]])
        == seq![a[i]] by {
        assert(seq![a[i]].drop_last() =~= Seq::<char>::empty());
        assert(seq![a[i]].filter(keep) =~= seq![a[i]]);
    }
}

/// The hexadecimal digit of a number below sixteen, in capitals or not.
pub open spec fn hex_of(b: u8, n: int) -> bool {
    ||| 0 <= n <= 9 && b == 48 + n
    ||| 10 <= n <= 15 && b == 65 + (n - 10)
    ||| 10 <= n <= 15 && b == 97 + (n - 10)
}

/// In quoted text an underline is a blank, an equals sign before two hexadecimal digits is the byte
/// of that number, and anything else is itself.
pub proof fn what_quoted_text_stands_for(b: u8, high: u8, low: u8, h: int, l: int, rest: Seq<u8>)
    requires
        hex_of(high, h),
        hex_of(low, l),
    ensures
        q_bytes(Seq::empty()).len() == 0,
        q_bytes(seq![95u8] + rest) == seq![32u8] + q_bytes(rest),
        q_bytes(seq![61u8, high, low] + rest) == seq![(h * 16 + l) as u8] + q_bytes(rest),
        b != 95 && b != 61 ==> q_bytes(seq![b] + rest) == seq![b] + q_bytes(rest),
{
    assert((seq![95u8] + rest).skip(1) =~= rest);
    assert((seq![b] + rest).skip(1) =~= rest);
    let s = seq![61u8, high, low] + rest;
    assert(s.skip(3) =~= rest);
    assert(s[0] == 61 && s[1] == high && s[2] == low);
    assert(hex_pair(high, low) == Some((h * 16 + l) as u8));
}

/// An equals sign before something else than two hexadecimal digits is itself.
pub proof fn what_is_not_quoted(high: u8, low: u8, rest: Seq<u8>)
    requires
        forall|l: int| !#[trigger] hex_of(low, l),
    ensures
        q_bytes(seq![61u8, high, low] + rest) == seq![61u8] + q_bytes(seq![high, low] + rest),
{
    let s = seq![61u8, high, low] + rest;
    assert(s.skip(1) =~= seq![high, low] + rest);
    assert(s[0] == 61 && s[1] == high && s[2] == low);
    assert(!hex_of(low, low - 48) && !hex_of(low, low - 55) && !hex_of(low, low - 87));
    assert(hex_pair(high, low) is None);
}

/// Whether two texts are the same but for the case of letters of ASCII.
pub open spec fn alike(s: Seq<char>, t: Seq<char>) -> bool {
    s.len() == t.len() && forall|i: int|
        0 <= i < s.len() ==> #[trigger] s[i] == t[i] || ('a' <= t[i] <= 'z' && s[i] as int == t[i] as int
            - 32)
}

/// An encoded word is decoded where its character set is one of three, in letters of either case:
/// from Base64 where it says so, else from quoted text. In another character set it stays.
pub proof fn what_encoded_words_say(charset: Seq<char>, encoding: Seq<char>, text: Seq<char>)
    ensures
        known_charset(charset) <==> alike(charset, "utf-8"@) || alike(charset, "gbk"@) || alike(
            charset,
            "gb2312"@,
        ),
        !known_charset(charset) ==> word_text(charset, encoding, text) == text,
        known_charset(charset) && (encoding == "b"@ || encoding == "B"@) ==> word_text(
            charset,
            encoding,
            text,
        ) == b_text(text),
        known_charset(charset) && encoding != "b"@ && encoding != "B"@ ==> word_text(
            charset,
            encoding,
            text,
        ) == lossy_text(q_bytes(encode_utf8(text))),
{
    reveal_strlit("utf-8");
    reveal_strlit("gbk");
    reveal_strlit("gb2312");
    same_but_for_case(charset, "utf-8"@);
    same_but_for_case(charset, "gbk"@);
    same_but_for_case(charset, "gb2312"@);
}

proof fn same_but_for_case(s: Seq<char>, t: Seq<char>)
    requires
        forall|i: int| 0 <= i < t.len() ==> !('A' <= #[trigger] t[i] <= 'Z'),
    ensures
        folded_is(s, t) == alike(s, t),
{
    if folded_is(s, t) {
        assert forall|i: int| 0 <= i < s.len() implies #[trigger] s[i] == t[i] || ('a' <= t[i] <= 'z'
            && s[i] as int == t[i] as int - 32) by {
            assert(folded(s[i]) == folded(t[i]));
            assert(!('A' <= t[i] <= 'Z'));
        }
    }
    if alike(s, t) {
        assert forall|i: int| 0 <= i < s.len() implies folded(#[trigger] s[i])
            == folded(t[i]) by {
            assert(!('A' <= t[i] <= 'Z'));
        }
    }
}

/// A header is what it says with its encoded words in place of their codes, one after the other;
/// without any it is as it stands.
pub proof fn what_headers_say(s: Seq<char>)
    ensures
        regex_first(r"=\?([^?]+)\?([bBqQ])\?([^?]*)\?="@, s) is None ==> header_text(s) == s,
        regex_first(r"=\?([^?]+)\?([bBqQ])\?([^?]*)\?="@, s) matches Some(f) ==> f.2.len() < s.len()
            ==> header_text(s) == f.0 + word_text(
            group_text(f, 1),
            group_text(f, 2),
            group_text(f, 3),
        ) + header_text(f.2),
        forall|f: FoundView, n: int|
            (#[trigger] group(f, n)) is Some ==> group_text(f, n) == group(f, n)->0,
{
}

/// Of HTML the text stays, and each tag is a blank.
pub proof fn what_html_says(a: Seq<char>, tag: Seq<char>, b: Seq<char>)
    requires
        !a.contains('<') && !a.contains('>'),
        !tag.contains('<') && !tag.contains('>'),
    ensures
        untagged(a, false) == a,
        untagged(a + (seq!['<'] + tag + seq!['>'] + b), false) == a + seq![' '] + untagged(b, false),
{
    text_stays(a, Seq::empty());
    assert(a + Seq::<char>::empty() =~= a);
    let rest = seq!['<'] + tag + seq!['>'] + b;
    text_stays(a, rest);
    assert(rest[0] == '<');
    assert(rest.drop_first() =~= tag + (seq!['>'] + b));
    tags_go(tag, seq!['>'] + b);
    assert((seq!['>'] + b).drop_first() =~= b);
    assert(a + (seq![' '] + untagged(b, false)) =~= a + seq![' '] + untagged(b, false));
}

proof fn text_stays(a: Seq<char>, rest: Seq<char>)
    requires
        !a.contains('<') && !a.contains('>'),
    ensures
        untagged(a + rest, false) == a + untagged(rest, false),
    decreases a.len(),
{
    if a.len() > 0 {
        let s = a + rest;
        assert(a.contains(a[0]));
        assert(s[0] == a[0]);
        assert(s.drop_first() =~= a.drop_first() + rest);
        let t = a.drop_first();
        assert(!t.contains('<') && !t.contains('>')) by {
            assert(forall|i: int| 0 <= i < t.len() ==> #[trigger] t[i] == a[i + 1]);
            assert(forall|i: int| 0 <= i < a.len() ==> a.contains(#[trigger] a[i]));
        }
        text_stays(t, rest);
        assert(seq![a[0]] + (t + untagged(rest, false)) =~= a + untagged(rest, false));
    } else {
        assert(a + rest =~= rest);
        assert(a + untagged(rest, false) =~= untagged(rest, false));
    }
}

proof fn tags_go(tag: Seq<char>, rest: Seq<char>)
    requires
        !tag.contains('<') && !tag.contains('>'),
    ensures
        untagged(tag + rest, true) == untagged(rest, true),
    decreases tag.len(),
{
    if tag.len() > 0 {
        let s = tag + rest;
        assert(tag.contains(tag[0]));
        assert(s[0] == tag[0]);
        assert(s.drop_first() =~= tag.drop_first() + rest);
        let t = tag.drop_first();
        assert(!t.contains('<') && !t.contains('>')) by {
            assert(forall|i: int| 0 <= i < t.len() ==> #[trigger] t[i] == tag[i + 1]);
            assert(forall|i: int| 0 <= i < tag.len() ==> tag.contains(#[trigger] tag[i]));
        }
        tags_go(t, rest);
    } else {
        assert(tag + rest =~= rest);
    }
}

/// Of the lines of HTML those stay that are not blank, without the white space around them, each
/// with a line break.
pub proof fn lines_of_html(ls: Seq<Seq<char>>, x: Seq<char>, t: Seq<char>, y: Seq<char>)
    requires
        only_space(x) && only_space(y),
        t.len() > 0 ==> !space(t[0]) && !space(t.last()),
    ensures
        full_lines(Seq::empty()).len() == 0,
        t.len() == 0 ==> full_lines(ls.push(x + t + y)) == full_lines(ls),
        t.len() > 0 ==> full_lines(ls.push(x + t + y)) == full_lines(ls) + t + seq!['\n'],
        html_text(t) == full_lines(lines(untagged(t, false))),
{
    trimming_takes_the_white_space(x, t, y);
    assert(ls.push(x + t + y).drop_last() =~= ls);
}

/// Whether a part is plain text with something in it, and no attachment.
pub open spec fn is_plain(p: PartView) -> bool {
    p.1 && lower_text(p.0) == "text/plain"@ && !only_space(p.2)
}

/// Whether a part is HTML with something in it, and no attachment.
pub open spec fn is_html(p: PartView) -> bool {
    p.1 && lower_text(p.0) == "text/html"@ && html_text(p.2).len() > 0
}

/// The text of a mail is that of its first part in plain text, without the white space around it;
/// where there is none, that of its first part in HTML; else it is empty.
pub proof fn which_part_is_the_text(parts: Seq<PartView>, k: int)
    ensures
        0 <= k < parts.len() && is_plain(parts[k]) && (forall|i: int|
            0 <= i < k ==> !is_plain(#[trigger] parts[i])) ==> body_text(parts) == trimmed(
            parts[k].2,
        ),
        0 <= k < parts.len() && is_html(parts[k]) && (forall|i: int|
            0 <= i < k ==> !is_html(#[trigger] parts[i])) && (forall|i: int|
            0 <= i < parts.len() ==> !is_plain(#[trigger] parts[i])) ==> body_text(parts)
            == html_text(parts[k].2),
        (forall|i: int|
            0 <= i < parts.len() ==> !is_plain(#[trigger] parts[i]) && !is_html(parts[i]))
            ==> body_text(parts).len() == 0,
{
    let plain = |p: PartView| plain_of(p);
    let html = |p: PartView| html_of(p);
    assert forall|i: int| 0 <= i < parts.len() implies #[trigger] is_plain(parts[i]) == (plain(
        parts[i],
    ) is Some) && is_html(parts[i]) == (html(parts[i]) is Some) by {
        what_is_blank(parts[i].2);
    }
    first_is_taken(parts, plain);
    first_is_taken(parts, html);
    if 0 <= k < parts.len() {
        what_is_blank(parts[k].2);
        assert(is_plain(parts[k]) == (plain(parts[k]) is Some));
        assert(is_html(parts[k]) == (html(parts[k]) is Some));
    }
}

proof fn first_is_taken(parts: Seq<PartView>, give: spec_fn(PartView) -> Option<Seq<char>>)
    ensures
        first_of(parts, give) is None <==> forall|i: int|
            0 <= i < parts.len() ==> give(#[trigger] parts[i]) is None,
        forall|k: int|
            0 <= k < parts.len() && give(#[trigger] parts[k]) is Some && (forall|i: int|
                0 <= i < k ==> give(#[trigger] parts[i]) is None) ==> first_of(parts, give) == give(
                parts[k],
            ),
    decreases parts.len(),
{
    if parts.len() > 0 {
        let front = parts.drop_last();
        let last = parts.len() - 1;
        first_is_taken(front, give);
        assert(parts.last() == parts[last]);
        assert(forall|i: int| 0 <= i < front.len() ==> #[trigger] front[i] == parts[i]);
        if first_of(front, give) is Some {
            let i = choose|i: int| 0 <= i < front.len() && give(#[trigger] front[i]) is Some;
            assert(give(parts[i]) is Some);
        } else {
            assert forall|i: int| 0 <= i < last implies give(#[trigger] parts[i]) is None by {
                assert(give(front[i]) is None);
            }
        }
        assert forall|k: int|
            0 <= k < parts.len() && give(#[trigger] parts[k]) is Some && (forall|i: int|
                0 <= i < k ==> give(#[trigger] parts[i]) is None) implies first_of(parts, give)
            == give(parts[k]) by {
            if k < last {
                assert(give(front[k]) is Some);
                assert forall|i: int| 0 <= i < k implies give(#[trigger] front[i]) is None by {
                    assert(give(parts[i]) is None);
                }
            }
        }
    }
}

/// A mail without an identifier gets one from what it says: the sum of the characters of subject,
/// date and address with bars between them.
pub proof fn identifiers_of_nameless_mail(
    subject: Seq<char>,
    date: Seq<char>,
    from: Seq<char>,
    c: char,
)
    ensures
        checksum(Seq::empty()) == 0,
        checksum(subject.push(c)) == (checksum(subject) + c as int) % 4294967296,
        fingerprint(subject, date, from) == "fingerprint-"@ + decimal(
            checksum(subject + "|"@ + date + "|"@ + from) as nat,
        ),
{
    assert(subject.push(c).drop_last() =~= subject);
}

/// A mail says what its headers and parts say, each in its place; its identifier is that of its
/// header without brackets, where there is one.
pub proof fn what_mail_says(
    m: ParsedMail,
    id: Seq<char>,
    subject: Seq<char>,
    from: Seq<char>,
    in_reply_to: Seq<char>,
    references: Seq<char>,
    date: Seq<char>,
    parts: Seq<PartView>,
    raw: Seq<u8>,
    name: Seq<char>,
)
    requires
        message(m, seq!['<'] + id + seq!['>'], subject, from, in_reply_to, references, date, parts),
        !id.contains('<') && !id.contains('>'),
    ensures
        m.subject@ == header_text(subject),
        m.from_name@ == sender(from).0,
        m.from_addr@ == sender(from).1,
        m.in_reply_to@ == in_reply_to,
        m.references@ == references,
        m.date@ == date,
        m.sent_at@ == sent_text(date),
        m.body_text@ == body_text(parts),
        id.len() > 0 ==> m.message_id@ == id,
        id.len() == 0 ==> m.message_id@ == fingerprint(m.subject@, date, m.from_addr@),
        mime_header(raw, name) matches Some(t) ==> header(raw, name) == t,
        mime_header(raw, name) is None ==> header(raw, name).len() == 0,
{
    let s = seq!['<'] + id + seq!['>'];
    let t = id + seq!['>'];
    assert(s.drop_first() =~= t);
    assert(t.drop_last() =~= id);
    assert(t.last() == '>');
    reveal_with_fuel(strip_front, 3);
    reveal_with_fuel(strip_back, 3);
    if id.len() > 0 {
        assert(id.contains(id[0]));
        assert(id.contains(id.last()));
        assert(t[0] == id[0]);
        assert(strip_front(s, '<') == t);
        assert(t.last() != '<');
        assert(stripped(s, '<') == t);
        assert(strip_front(t, '>') == t);
        assert(strip_back(t, '>') == id);
    } else {
        assert(t =~= seq!['>']);
        assert(strip_front(s, '<') == t);
        assert(stripped(s, '<') == t);
        assert(t.drop_first() =~= Seq::<char>::empty());
        assert(strip_front(t, '>') =~= Seq::<char>::empty());
    }
}

/// What is fetched are the messages above the last one that was, or all; the numbers go up by one.
pub proof fn what_is_fetched(u: u32)
    ensures
        uid_range(None) == "1:*"@,
        uid_range(Some(u)) == decimal((u + 1) as nat) + ":*"@,
{
}

/// The greatest number of the messages is one of theirs, and none is greater.
pub proof fn greatest_of_the_messages(m: Seq<FetchedMessage>)
    ensures
        greatest_uid(m) is None <==> forall|i: int|
            0 <= i < m.len() ==> (#[trigger] m[i]).uid is None,
        greatest_uid(m) matches Some(u) ==> (exists|i: int|
            0 <= i < m.len() && (#[trigger] m[i]).uid == Some(u)) && forall|i: int|
            0 <= i < m.len() && (#[trigger] m[i]).uid is Some ==> m[i].uid->0 <= u,
    decreases m.len(),
{
    if m.len() > 0 {
        let front = m.drop_last();
        let last = m.len() - 1;
        greatest_of_the_messages(front);
        assert(m.last() == m[last]);
        assert(forall|i: int| 0 <= i < front.len() ==> #[trigger] front[i] == m[i]);
        if greatest_uid(front) is Some {
            let u = greatest_uid(front)->0;
            let k = choose|k: int| 0 <= k < front.len() && (#[trigger] front[k]).uid == Some(u);
            assert(m[k].uid == Some(u));
            assert forall|i: int| 0 <= i < last && (#[trigger] m[i]).uid is Some implies m[i].uid->0
                <= u by {
                assert(front[i].uid is Some);
            }
        } else {
            assert forall|i: int| 0 <= i < last implies (#[trigger] m[i]).uid is None by {
                assert(front[i].uid is None);
            }
        }
        if greatest_uid(m) is Some {
            let u = greatest_uid(m)->0;
            if m[last].uid == Some(u) {
                assert(exists|i: int| 0 <= i < m.len() && (#[trigger] m[i]).uid == Some(u));
            }
        }
    }
}

/// What comes of the messages are their bytes, in order, without those that have none.
pub proof fn bytes_of_the_messages(m: Seq<FetchedMessage>, x: FetchedMessage)
    ensures
        bodies(Seq::empty()).len() == 0,
        x.body is None ==> bodies(m.push(x)) == bodies(m),
        x.body matches Some(b) ==> bodies(m.push(x)) == bodies(m).push(b@),
{
    assert(m.push(x).drop_last() =~= m);
}

/// The line to a server is encrypted as its port wants it, and mail is from the address, or else
/// from the user, or else from a stand-in.
pub proof fn how_mail_is_sent(port: u16, address: Seq<char>, user: Seq<char>)
    ensures
        security(port) == Security::Wrapper <==> port == 465,
        security(port) == Security::Required <==> port == 587,
        !only_space(address) ==> from_address(address, user) == address,
        only_space(address) && !only_space(user) ==> from_address(address, user) == user,
        only_space(address) && only_space(user) ==> from_address(address, user)
            == "mail2@localhost"@,
{
    what_is_blank(address);
    what_is_blank(user);
}

} // verus!
