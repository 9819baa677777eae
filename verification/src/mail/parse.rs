//! Reading a message: its headers, and its text (plain text before HTML).

use crate::encoding::base64_bytes;
use crate::encoding::base64_decode;
use crate::encoding::from_utf8_lossy;
use crate::encoding::lossy_text;
use crate::number::decimal;
use crate::number::show_u64;
use crate::pattern::first_match;
use crate::pattern::FoundView;
use crate::pattern::group;
use crate::pattern::regex_first;
use crate::text::blank;
use crate::text::chars_of;
use crate::text::is_blank;
use crate::text::is_space;
use crate::text::last_piece_grows;
use crate::text::lines;
use crate::text::lines_are_made_of;
use crate::text::lower_text;
use crate::text::pieces;
use crate::text::pieces_of_two;
use crate::text::same;
use crate::text::space;
use crate::text::split_lines;
use crate::text::strip_back;
use crate::text::stripped;
use crate::text::substring;
use crate::text::text_of;
use crate::text::texts;
use crate::text::to_lower;
use crate::text::trim;
use crate::text::trim_char;
use crate::text::trim_end_char;
use crate::text::trim_idempotent;
use crate::text::trimmed;
use crate::text::trimmed_ends;
use crate::text::trimmed_is_made_of;
use crate::text::without_return;
use crate::time::Stamp;
use mailparse::MailHeaderMap;
use vstd::prelude::*;
use vstd::utf8::encode_utf8;

verus! {

/// A message that was read.
#[derive(Debug)]
pub struct ParsedMail {
    pub message_id: String,
    pub subject: String,
    pub from_addr: String,
    pub from_name: String,
    pub body_text: String,
    pub in_reply_to: String,
    pub references: String,
    pub date: String,
    /// When it was sent, in RFC 3339; empty where the message does not tell.
    pub sent_at: String,
}

impl Clone for ParsedMail {
    fn clone(&self) -> (r: Self)
        ensures
            r == *self,
    {
        ParsedMail {
            message_id: self.message_id.clone(),
            subject: self.subject.clone(),
            from_addr: self.from_addr.clone(),
            from_name: self.from_name.clone(),
            body_text: self.body_text.clone(),
            in_reply_to: self.in_reply_to.clone(),
            references: self.references.clone(),
            date: self.date.clone(),
            sent_at: self.sent_at.clone(),
        }
    }
}

impl Default for ParsedMail {
    fn default() -> (r: Self)
        ensures
            r.message_id@.len() == 0 && r.subject@.len() == 0 && r.from_addr@.len() == 0
                && r.from_name@.len() == 0 && r.body_text@.len() == 0 && r.in_reply_to@.len() == 0
                && r.references@.len() == 0 && r.date@.len() == 0 && r.sent_at@.len() == 0,
    {
        ParsedMail {
            message_id: String::new(),
            subject: String::new(),
            from_addr: String::new(),
            from_name: String::new(),
            body_text: String::new(),
            in_reply_to: String::new(),
            references: String::new(),
            date: String::new(),
            sent_at: String::new(),
        }
    }
}

/// The message is not MIME.
#[derive(Clone, Copy, Debug, PartialEq, Eq, Structural)]
pub struct NotMime;

impl NotMime {
    /// The message for users.
    pub fn message(&self) -> (r: &'static str)
        ensures
            r@ == "MIME 解析失败"@,
    {
        "MIME 解析失败"
    }
}

/// A part of a message: its type, whether it holds no parts itself, and its text.
pub struct MimePart {
    pub mimetype: String,
    pub leaf: bool,
    pub body: String,
}

/// A part of a message over plain text.
pub type PartView = (Seq<char>, bool, Seq<char>);

impl View for MimePart {
    type V = PartView;

    open spec fn view(&self) -> PartView {
        (self.mimetype@, self.leaf, self.body@)
    }
}

/// The parts over plain text.
pub open spec fn part_views(p: Seq<MimePart>) -> Seq<PartView> {
    p.map_values(|x: MimePart| x@)
}

/// The first value of a header of a message, as `mailparse` reads it.
pub uninterp spec fn mime_header(raw: Seq<u8>, name: Seq<char>) -> Option<Seq<char>>;

/// The parts of a message, as `mailparse` reads them: each before the parts that it holds.
pub uninterp spec fn mime_parts(raw: Seq<u8>) -> Option<Seq<(Seq<char>, bool, Seq<char>)>>;

/// The moment (in seconds) that the date of a message stands for, as `mailparse` reads it.
pub uninterp spec fn mail_date(date: Seq<char>) -> Option<i64>;

/// `mailparse::parse_mail`, then `get_first_value` of its headers; nothing where the message
/// cannot be read or has no such header.
#[verifier::external_body]
fn header_value(raw: &[u8], name: &str) -> (r: Option<String>)
    ensures
        text_of(r) == mime_header(raw@, name@),
{
    mailparse::parse_mail(raw).ok()?.get_headers().get_first_value(name)
}

/// `mailparse::parse_mail`, then `parts` and `get_body` of each; a body that cannot be decoded is
/// empty. Nothing where the message cannot be read.
#[verifier::external_body]
fn parts_of(raw: &[u8]) -> (r: Option<Vec<MimePart>>)
    ensures
        (match r {
            Some(p) => Some(part_views(p@)),
            None => None,
        }) == mime_parts(raw@),
{
    let mail = mailparse::parse_mail(raw).ok()?;
    let plain = |p: &mailparse::ParsedMail| MimePart {
        mimetype: p.ctype.mimetype.clone(),
        leaf: p.subparts.is_empty(),
        body: p.get_body().unwrap_or_default(),
    };
    Some(mail.parts().map(plain).collect())
}

/// `mailparse::dateparse`.
#[verifier::external_body]
fn read_date(date: &str) -> (r: Option<i64>)
    ensures
        r == mail_date(date@),
{
    mailparse::dateparse(date).ok()
}

/// When a message with that date was sent, in RFC 3339 and UTC; empty where it does not tell.
pub open spec fn sent_text(date: Seq<char>) -> Seq<char> {
    if blank(date) {
        Seq::empty()
    } else {
        match mail_date(date) {
            Some(secs) => match (Stamp { secs, nanos: 0, offset: 0 }).rfc3339() {
                Some(t) => t,
                None => Seq::empty(),
            },
            None => Seq::empty(),
        }
    }
}

/// When a message with that date was sent, in RFC 3339 and UTC; empty where it does not tell.
pub fn parse_sent_at(date: &str) -> (r: String)
    ensures
        r@ == sent_text(date@),
{
    if is_blank(date) {
        return String::new();
    }
    match read_date(date) {
        Some(secs) => {
            let at = Stamp { secs, nanos: 0, offset: 0 };
            match at.to_rfc3339() {
                Some(t) => t,
                None => String::new(),
            }
        },
        None => String::new(),
    }
}

/// The name and the address of a sender. The address stands behind the last `<`, without closing
/// brackets; the name before it, without quotation marks. With no `<` all of it is the address.
pub open spec fn sender(from: Seq<char>) -> (Seq<char>, Seq<char>) {
    let t = trimmed(from);
    match t.index_of_last('<') {
        Some(i) => (
            stripped(trimmed(t.take(i)), '"'),
            trimmed(strip_back(t.skip(i + 1), '>')),
        ),
        None => (Seq::empty(), t),
    }
}

/// The name and the address of a sender.
pub fn parse_from(from: &str) -> (r: (String, String))
    ensures
        (r.0@, r.1@) == sender(from@),
{
    let t = trim(from);
    let v = chars_of(t.as_str());
    let mut i: usize = v.len();
    proof {
        t@.index_of_last_ensures('<');
    }
    while i > 0
        invariant
            v@ == t@,
            t@ == trimmed(from@),
            i <= v@.len(),
            forall|k: int| i <= k < v@.len() ==> v@[k] != '<',
        decreases i,
    {
        i -= 1;
        if v[i] == '<' {
            proof {
                t@.index_of_last_ensures('<');
                assert(t@.contains(v@[i as int]));
            }
            let rest = substring(&v, i + 1, v.len());
            assert(rest@ == t@.skip(i + 1));
            let addr = trim_end_char(rest.as_str(), '>');
            let front = substring(&v, 0, i);
            assert(front@ == t@.take(i as int));
            let name = trim(front.as_str());
            return (trim_char(name.as_str(), '"'), trim(addr.as_str()));
        }
    }
    (String::new(), t)
}

/// An encoded word of a header.
pub const ENCODED_WORD: &'static str = r"=\?([^?]+)\?([bBqQ])\?([^?]*)\?=";

/// The text without its white space.
pub open spec fn dense(s: Seq<char>) -> Seq<char> {
    s.filter(|c: char| !space(c))
}

/// The text that Base64 text stands for; what is no Base64 stays as it is.
pub open spec fn b_text(s: Seq<char>) -> Seq<char> {
    match base64_bytes(dense(s)) {
        Some(bytes) => lossy_text(bytes),
        None => s,
    }
}

/// The text that Base64 text stands for.
pub fn decode_b(s: &str) -> (r: String)
    ensures
        r@ == b_text(s@),
{
    let v = chars_of(s);
    let mut cleaned = String::new();
    let ghost keep = |c: char| !space(c);
    let mut i: usize = 0;
    assert(v@.take(0).filter(keep) =~= Seq::<char>::empty()) by {
        reveal(Seq::filter);
    }
    while i < v.len()
        invariant
            v@ == s@,
            keep == (|c: char| !space(c)),
            i <= v@.len(),
            cleaned@ == v@.take(i as int).filter(keep),
        decreases v@.len() - i,
    {
        proof {
            assert(v@.take(i + 1).drop_last() == v@.take(i as int));
            reveal(Seq::filter);
        }
        if !is_space(v[i]) {
            cleaned.push(v[i]);
        }
        i += 1;
    }
    assert(v@.take(i as int) == v@);
    match base64_decode(cleaned.as_str()) {
        Some(bytes) => from_utf8_lossy(&bytes),
        None => s.to_owned(),
    }
}

/// The value of a hexadecimal digit.
pub open spec fn hex_digit(b: u8) -> Option<int> {
    if 0x30 <= b <= 0x39 {
        Some(b - 0x30)
    } else if 0x41 <= b <= 0x46 {
        Some(b - 0x41 + 10)
    } else if 0x61 <= b <= 0x66 {
        Some(b - 0x61 + 10)
    } else {
        None
    }
}

/// The byte that two characters stand for: two hexadecimal digits, or a plus sign and one.
pub open spec fn hex_pair(a: u8, b: u8) -> Option<u8> {
    match hex_digit(b) {
        Some(low) => if a == 0x2b {
            Some(low as u8)
        } else {
            match hex_digit(a) {
                Some(high) => Some((high * 16 + low) as u8),
                None => None,
            }
        },
        None => None,
    }
}

/// The bytes that quoted text stands for: `_` is a space, `=` with two digits a byte.
pub open spec fn q_bytes(b: Seq<u8>) -> Seq<u8>
    decreases b.len(),
{
    if b.len() == 0 {
        Seq::empty()
    } else if b[0] == 0x5f {
        seq![0x20u8] + q_bytes(b.skip(1))
    } else if b[0] == 0x3d && b.len() > 2 && hex_pair(b[1], b[2]) is Some {
        seq![hex_pair(b[1], b[2])->0] + q_bytes(b.skip(3))
    } else {
        seq![b[0]] + q_bytes(b.skip(1))
    }
}

fn hex_value(b: u8) -> (r: Option<u8>)
    ensures
        match r {
            Some(n) => hex_digit(b) == Some(n as int) && n < 16,
            None => hex_digit(b) is None,
        },
{
    if 0x30 <= b && b <= 0x39 {
        Some(b - 0x30)
    } else if 0x41 <= b && b <= 0x46 {
        Some(b - 0x41 + 10)
    } else if 0x61 <= b && b <= 0x66 {
        Some(b - 0x61 + 10)
    } else {
        None
    }
}

fn hex_byte(a: u8, b: u8) -> (r: Option<u8>)
    ensures
        r == hex_pair(a, b),
{
    match hex_value(b) {
        Some(low) => if a == 0x2b {
            Some(low)
        } else {
            match hex_value(a) {
                Some(high) => Some(high * 16 + low),
                None => None,
            }
        },
        None => None,
    }
}

/// The text that quoted text stands for.
pub fn decode_q(s: &str) -> (r: String)
    ensures
        r@ == lossy_text(q_bytes(encode_utf8(s@))),
{
    let b = s.as_bytes();
    let mut out: Vec<u8> = Vec::new();
    let mut i: usize = 0;
    assert(b@.skip(0) == b@);
    assert(out@ + q_bytes(b@) == q_bytes(b@));
    while i < b.len()
        invariant
            b@ == encode_utf8(s@),
            i <= b@.len(),
            out@ + q_bytes(b@.skip(i as int)) == q_bytes(b@),
        decreases b@.len() - i,
    {
        let ghost rest = b@.skip(i as int);
        let ghost before = out@;
        let c = b[i];
        if c == 0x5f {
            assert(rest.skip(1) == b@.skip(i + 1));
            assert(before + (seq![0x20u8] + q_bytes(b@.skip(i + 1))) == before.push(0x20u8)
                + q_bytes(b@.skip(i + 1)));
            out.push(0x20);
            i += 1;
        } else {
            let pair = if c == 0x3d && b.len() - i > 2 {
                hex_byte(b[i + 1], b[i + 2])
            } else {
                None
            };
            match pair {
                Some(x) => {
                    assert(rest[1] == b@[i + 1] && rest[2] == b@[i + 2]);
                    assert(rest.skip(3) == b@.skip(i + 3));
                    assert(before + (seq![x] + q_bytes(b@.skip(i + 3))) == before.push(x) + q_bytes(
                        b@.skip(i + 3),
                    ));
                    out.push(x);
                    i += 3;
                },
                None => {
                    assert(rest.len() > 2 ==> rest[1] == b@[i + 1] && rest[2] == b@[i + 2]);
                    assert(rest.skip(1) == b@.skip(i + 1));
                    assert(before + (seq![c] + q_bytes(b@.skip(i + 1))) == before.push(c) + q_bytes(
                        b@.skip(i + 1),
                    ));
                    out.push(c);
                    i += 1;
                },
            }
        }
    }
    assert(b@.skip(i as int).len() == 0);
    assert(out@ + q_bytes(b@.skip(i as int)) == out@);
    from_utf8_lossy(&out)
}

/// Whether text in the character set is decoded.
pub open spec fn known_charset(charset: Seq<char>) -> bool {
    folded_is(charset, "utf-8"@) || folded_is(charset, "gbk"@) || folded_is(charset, "gb2312"@)
}

/// Whether a text is the given one but for the case of its ASCII letters.
pub open spec fn folded_is(s: Seq<char>, t: Seq<char>) -> bool {
    s.len() == t.len() && forall|i: int|
        0 <= i < s.len() ==> folded(#[trigger] s[i]) == folded(t[i])
}

/// A letter of ASCII in lower case; any other character as it is.
pub open spec fn folded(c: char) -> int {
    if 'A' <= c <= 'Z' {
        c as int + 32
    } else {
        c as int
    }
}

fn code_of(c: char) -> (r: u32)
    ensures
        r == c as int,
{
    c as u32
}

fn fold(c: char) -> (r: u32)
    ensures
        r == folded(c),
{
    let n: u32 = code_of(c);
    if 'A' <= c && c <= 'Z' {
        n + 32
    } else {
        n
    }
}

fn eq_ignore_ascii_case(s: &str, t: &str) -> (r: bool)
    ensures
        r == folded_is(s@, t@),
{
    let v = chars_of(s);
    let w = chars_of(t);
    if v.len() != w.len() {
        return false;
    }
    let mut i: usize = 0;
    while i < v.len()
        invariant
            v@ == s@,
            w@ == t@,
            v@.len() == w@.len(),
            i <= v@.len(),
            forall|k: int| 0 <= k < i ==> folded(#[trigger] s@[k]) == folded(t@[k]),
        decreases v@.len() - i,
    {
        if fold(v[i]) != fold(w[i]) {
            assert(folded(s@[i as int]) != folded(t@[i as int]));
            return false;
        }
        i += 1;
    }
    true
}

/// What an encoded word stands for; its raw text where the character set is not known.
pub open spec fn word_text(charset: Seq<char>, encoding: Seq<char>, text: Seq<char>) -> Seq<char> {
    if !known_charset(charset) {
        text
    } else if encoding == "b"@ || encoding == "B"@ {
        b_text(text)
    } else {
        lossy_text(q_bytes(encode_utf8(text)))
    }
}

/// What an encoded word stands for.
pub fn decode_word(charset: &str, encoding: &str, text: &str) -> (r: String)
    ensures
        r@ == word_text(charset@, encoding@, text@),
{
    if !(eq_ignore_ascii_case(charset, "utf-8") || eq_ignore_ascii_case(charset, "gbk")
        || eq_ignore_ascii_case(charset, "gb2312")) {
        return text.to_owned();
    }
    if same(encoding, "b") || same(encoding, "B") {
        decode_b(text)
    } else {
        decode_q(text)
    }
}

/// The text of a group, or nothing.
pub open spec fn group_text(f: FoundView, n: int) -> Seq<char> {
    match group(f, n) {
        Some(t) => t,
        None => Seq::empty(),
    }
}

/// A header with its encoded words decoded, from the front to the back.
pub open spec fn header_text(s: Seq<char>) -> Seq<char>
    decreases s.len(),
{
    match regex_first(ENCODED_WORD@, s) {
        Some(f) if f.2.len() < s.len() => f.0 + word_text(
            group_text(f, 1),
            group_text(f, 2),
            group_text(f, 3),
        ) + header_text(f.2),
        _ => s,
    }
}

fn or_empty(o: Option<String>) -> (r: String)
    ensures
        r@ == match text_of(o) {
            Some(t) => t,
            None => Seq::empty(),
        },
{
    match o {
        Some(t) => t,
        None => String::new(),
    }
}

/// A header with its encoded words decoded.
pub fn decode_rfc2047(s: &str) -> (r: String)
    ensures
        r@ == header_text(s@),
{
    let mut out = String::new();
    let mut rest = s.to_owned();
    assert(out@ + header_text(rest@) == header_text(s@));
    loop
        invariant
            out@ + header_text(rest@) == header_text(s@),
        ensures
            out@ + rest@ == header_text(s@),
        decreases rest@.len(),
    {
        match first_match(ENCODED_WORD, rest.as_str()) {
            Some(f) => {
                let whole = chars_of(rest.as_str());
                let after = chars_of(f.after.as_str());
                if after.len() >= whole.len() {
                    break;
                }
                let charset = or_empty(f.group(1));
                let encoding = or_empty(f.group(2));
                let text = or_empty(f.group(3));
                let word = decode_word(charset.as_str(), encoding.as_str(), text.as_str());
                let ghost before = out@;
                out.append(f.before.as_str());
                out.append(word.as_str());
                proof {
                    assert(before + (f.before@ + word@ + header_text(f.after@)) == before
                        + f.before@ + word@ + header_text(f.after@));
                }
                rest = f.after;
            },
            None => {
                break;
            },
        }
    }
    out.append(rest.as_str());
    out
}

/// What is left of HTML without its tags, read from the front: each tag is a space.
pub open spec fn untagged(s: Seq<char>, in_tag: bool) -> Seq<char>
    decreases s.len(),
{
    if s.len() == 0 {
        Seq::empty()
    } else if s[0] == '<' {
        untagged(s.drop_first(), true)
    } else if s[0] == '>' {
        seq![' '] + untagged(s.drop_first(), false)
    } else if in_tag {
        untagged(s.drop_first(), true)
    } else {
        seq![s[0]] + untagged(s.drop_first(), false)
    }
}

/// The lines that are not blank, trimmed, each with a line break behind it.
pub open spec fn full_lines(ls: Seq<Seq<char>>) -> Seq<char>
    decreases ls.len(),
{
    if ls.len() == 0 {
        Seq::empty()
    } else if blank(ls.last()) {
        full_lines(ls.drop_last())
    } else {
        full_lines(ls.drop_last()) + trimmed(ls.last()) + seq!['\n']
    }
}

/// The text of HTML.
pub open spec fn html_text(s: Seq<char>) -> Seq<char> {
    full_lines(lines(untagged(s, false)))
}

/// The text of HTML: without tags, without blank lines.
pub fn strip_html(s: &str) -> (r: String)
    ensures
        r@ == html_text(s@),
{
    let v = chars_of(s);
    let mut plain = String::new();
    let mut in_tag = false;
    let mut i: usize = 0;
    assert(v@.skip(0) == v@);
    assert(plain@ + untagged(v@, false) == untagged(v@, false));
    while i < v.len()
        invariant
            v@ == s@,
            i <= v@.len(),
            plain@ + untagged(v@.skip(i as int), in_tag) == untagged(s@, false),
        decreases v@.len() - i,
    {
        let c = v[i];
        let ghost before = plain@;
        let ghost rest = v@.skip(i + 1);
        assert(v@.skip(i as int).drop_first() == rest);
        if c == '<' {
            in_tag = true;
        } else if c == '>' {
            in_tag = false;
            assert(before + (seq![' '] + untagged(rest, false)) == before.push(' ') + untagged(
                rest,
                false,
            ));
            plain.push(' ');
        } else if !in_tag {
            assert(before + (seq![c] + untagged(rest, false)) == before.push(c) + untagged(
                rest,
                false,
            ));
            plain.push(c);
        }
        i += 1;
    }
    assert(plain@ + untagged(v@.skip(i as int), in_tag) == plain@);
    let ls = split_lines(plain.as_str());
    let ghost all = texts(ls@);
    let mut out = String::new();
    let mut k: usize = 0;
    assert(all.take(0) == Seq::<Seq<char>>::empty());
    while k < ls.len()
        invariant
            all == texts(ls@),
            k <= ls@.len(),
            out@ == full_lines(all.take(k as int)),
        decreases ls@.len() - k,
    {
        proof {
            assert(all.take(k + 1).drop_last() == all.take(k as int));
            assert(all.take(k + 1).last() == ls@[k as int]@);
        }
        let t = trim(ls[k].as_str());
        if !t.as_str().is_empty() {
            out.append(t.as_str());
            out.push('\n');
        }
        k += 1;
    }
    assert(all.take(k as int) == all);
    out
}

/// The text that the part of a message gives as plain text.
pub open spec fn plain_of(p: PartView) -> Option<Seq<char>> {
    if p.1 && lower_text(p.0) == "text/plain"@ && !blank(p.2) {
        Some(trimmed(p.2))
    } else {
        None
    }
}

/// The text that the part of a message gives as HTML.
pub open spec fn html_of(p: PartView) -> Option<Seq<char>> {
    if p.1 && lower_text(p.0) == "text/html"@ && html_text(p.2).len() > 0 {
        Some(html_text(p.2))
    } else {
        None
    }
}

/// The first text that one of the parts gives.
pub open spec fn first_of(parts: Seq<PartView>, give: spec_fn(PartView) -> Option<Seq<char>>) -> Option<
    Seq<char>,
>
    decreases parts.len(),
{
    if parts.len() == 0 {
        None
    } else {
        match first_of(parts.drop_last(), give) {
            Some(t) => Some(t),
            None => give(parts.last()),
        }
    }
}

/// The text of a message: the first plain text, else the first HTML, else nothing.
pub open spec fn body_text(parts: Seq<PartView>) -> Seq<char> {
    match first_of(parts, |p: PartView| plain_of(p)) {
        Some(t) => t,
        None => match first_of(parts, |p: PartView| html_of(p)) {
            Some(t) => t,
            None => Seq::empty(),
        },
    }
}

/// The text of a message, from its parts.
pub fn extract_body(parts: &Vec<MimePart>) -> (r: String)
    ensures
        r@ == body_text(part_views(parts@)),
{
    let mut plain: Option<String> = None;
    let mut html: Option<String> = None;
    let ghost all = part_views(parts@);
    let ghost as_plain = |p: PartView| plain_of(p);
    let ghost as_html = |p: PartView| html_of(p);
    let mut i: usize = 0;
    while i < parts.len()
        invariant
            all == part_views(parts@),
            as_plain == (|p: PartView| plain_of(p)),
            as_html == (|p: PartView| html_of(p)),
            i <= parts@.len(),
            text_of(plain) == first_of(all.take(i as int), as_plain),
            text_of(html) == first_of(all.take(i as int), as_html),
        decreases parts@.len() - i,
    {
        proof {
            assert(all.take(i + 1).drop_last() == all.take(i as int));
            assert(all.take(i + 1).last() == parts@[i as int]@);
        }
        let p = &parts[i];
        if p.leaf {
            let kind = to_lower(p.mimetype.as_str());
            let is_plain = same(kind.as_str(), "text/plain");
            let is_html = same(kind.as_str(), "text/html");
            proof {
                reveal_strlit("text/plain");
                reveal_strlit("text/html");
                assert("text/plain"@.len() != "text/html"@.len());
            }
            if is_plain && plain.is_none() {
                let t = trim(p.body.as_str());
                if !t.as_str().is_empty() {
                    plain = Some(t);
                }
            } else if is_html && html.is_none() {
                let t = strip_html(p.body.as_str());
                if !t.as_str().is_empty() {
                    html = Some(t);
                }
            }
        }
        i += 1;
    }
    assert(all.take(i as int) == all);
    match plain {
        Some(t) => t,
        None => or_empty(html),
    }
}

/// The sum of the code points, modulo 2 to the 32nd.
pub open spec fn checksum(s: Seq<char>) -> int
    decreases s.len(),
{
    if s.len() == 0 {
        0
    } else {
        (checksum(s.drop_last()) + s.last() as int) % 0x1_0000_0000
    }
}

fn add_up(s: &str) -> (r: u32)
    ensures
        r == checksum(s@),
{
    let v = chars_of(s);
    let mut sum: u64 = 0;
    let mut i: usize = 0;
    assert(v@.take(0) == Seq::<char>::empty());
    while i < v.len()
        invariant
            v@ == s@,
            i <= v@.len(),
            sum == checksum(v@.take(i as int)),
            sum < 0x1_0000_0000,
        decreases v@.len() - i,
    {
        assert(v@.take(i + 1).drop_last() == v@.take(i as int));
        assert(v@.take(i + 1).last() == v@[i as int]);
        sum = (sum + code_of(v[i]) as u64) % 0x1_0000_0000;
        i += 1;
    }
    assert(v@.take(i as int) == v@);
    sum as u32
}

/// What stands for the identifier of a message that has none.
pub open spec fn fingerprint(subject: Seq<char>, date: Seq<char>, from: Seq<char>) -> Seq<char> {
    "fingerprint-"@ + decimal(checksum(subject + "|"@ + date + "|"@ + from) as nat)
}

/// What stands for the identifier of a message that has none.
pub fn fingerprint_of(subject: &str, date: &str, from: &str) -> (r: String)
    ensures
        r@ == fingerprint(subject@, date@, from@),
{
    let mut all = subject.to_owned();
    all.append("|");
    all.append(date);
    all.append("|");
    all.append(from);
    let n = add_up(all.as_str());
    let mut out = "fingerprint-".to_owned();
    let digits = show_u64(n as u64);
    out.append(digits.as_str());
    out
}

/// The value of a header; empty where the message has none.
pub open spec fn header(raw: Seq<u8>, name: Seq<char>) -> Seq<char> {
    match mime_header(raw, name) {
        Some(t) => t,
        None => Seq::empty(),
    }
}

/// A message over plain text: identifier, subject, address and name of the sender, text, what it
/// replies to, what it refers to, date, time of sending.
pub open spec fn message(
    m: ParsedMail,
    id: Seq<char>,
    subject: Seq<char>,
    from: Seq<char>,
    in_reply_to: Seq<char>,
    references: Seq<char>,
    date: Seq<char>,
    parts: Seq<PartView>,
) -> bool {
    let bare = stripped(stripped(id, '<'), '>');
    &&& m.subject@ == header_text(subject)
    &&& (m.from_name@, m.from_addr@) == sender(from)
    &&& m.in_reply_to@ == in_reply_to
    &&& m.references@ == references
    &&& m.date@ == date
    &&& m.sent_at@ == sent_text(date)
    &&& m.body_text@ == body_text(parts)
    &&& m.message_id@ == if bare.len() == 0 {
        fingerprint(m.subject@, date, m.from_addr@)
    } else {
        bare
    }
}

/// The message with the given headers and parts.
pub fn assemble(
    id: String,
    subject: String,
    from: String,
    in_reply_to: String,
    references: String,
    date: String,
    parts: &Vec<MimePart>,
) -> (r: ParsedMail)
    ensures
        message(
            r,
            id@,
            subject@,
            from@,
            in_reply_to@,
            references@,
            date@,
            part_views(parts@),
        ),
{
    let open = trim_char(id.as_str(), '<');
    let mut message_id = trim_char(open.as_str(), '>');
    let subject = decode_rfc2047(subject.as_str());
    let (from_name, from_addr) = parse_from(from.as_str());
    let sent_at = parse_sent_at(date.as_str());
    let body_text = extract_body(parts);
    if message_id.as_str().is_empty() {
        message_id = fingerprint_of(subject.as_str(), date.as_str(), from_addr.as_str());
    }
    ParsedMail {
        message_id,
        subject,
        from_addr,
        from_name,
        body_text,
        in_reply_to,
        references,
        date,
        sent_at,
    }
}

/// The message in the bytes.
pub fn parse_mail(raw: &[u8]) -> (r: Result<ParsedMail, NotMime>)
    ensures
        match mime_parts(raw@) {
            Some(parts) => r is Ok && message(
                r->Ok_0,
                header(raw@, "Message-ID"@),
                header(raw@, "Subject"@),
                header(raw@, "From"@),
                header(raw@, "In-Reply-To"@),
                header(raw@, "References"@),
                header(raw@, "Date"@),
                parts,
            ),
            None => r is Err,
        },
{
    let parts = match parts_of(raw) {
        Some(p) => p,
        None => return Err(NotMime),
    };
    let id = or_empty(header_value(raw, "Message-ID"));
    let subject = or_empty(header_value(raw, "Subject"));
    let from = or_empty(header_value(raw, "From"));
    let in_reply_to = or_empty(header_value(raw, "In-Reply-To"));
    let references = or_empty(header_value(raw, "References"));
    let date = or_empty(header_value(raw, "Date"));
    Ok(assemble(id, subject, from, in_reply_to, references, date, &parts))
}

/// A message that was read always has an identifier.
pub proof fn message_has_id(
    m: ParsedMail,
    id: Seq<char>,
    subject: Seq<char>,
    from: Seq<char>,
    in_reply_to: Seq<char>,
    references: Seq<char>,
    date: Seq<char>,
    parts: Seq<PartView>,
)
    requires
        message(m, id, subject, from, in_reply_to, references, date, parts),
    ensures
        m.message_id@.len() > 0,
{
    reveal_strlit("fingerprint-");
}

/// No tag is left of HTML.
pub proof fn untagged_holds_no_tags(s: Seq<char>, in_tag: bool)
    ensures
        !untagged(s, in_tag).contains('<'),
        !untagged(s, in_tag).contains('>'),
    decreases s.len(),
{
    if s.len() > 0 {
        untagged_holds_no_tags(s.drop_first(), true);
        untagged_holds_no_tags(s.drop_first(), false);
        let u = untagged(s, in_tag);
        let rest = untagged(s.drop_first(), false);
        if s[0] == '>' || (s[0] != '<' && !in_tag) {
            assert forall|i: int| 0 <= i < u.len() implies u[i] != '<' && u[i] != '>' by {
                if i > 0 {
                    assert(u[i] == rest[i - 1]);
                    assert(rest.contains(rest[i - 1]));
                }
            }
        }
    }
}

/// The lines that are not blank, trimmed.
pub open spec fn clean_lines(ls: Seq<Seq<char>>) -> Seq<Seq<char>>
    decreases ls.len(),
{
    if ls.len() == 0 {
        Seq::empty()
    } else if blank(ls.last()) {
        clean_lines(ls.drop_last())
    } else {
        clean_lines(ls.drop_last()).push(trimmed(ls.last()))
    }
}

/// Whether a line is not blank and has no white space at its ends.
pub open spec fn clean(l: Seq<char>) -> bool {
    trimmed(l) == l && !blank(l)
}

proof fn clean_lines_are_clean(ls: Seq<Seq<char>>)
    ensures
        forall|i: int| 0 <= i < clean_lines(ls).len() ==> clean(#[trigger] clean_lines(ls)[i]),
        full_lines(clean_lines(ls)) == full_lines(ls),
    decreases ls.len(),
{
    if ls.len() > 0 {
        clean_lines_are_clean(ls.drop_last());
        if !blank(ls.last()) {
            let before = clean_lines(ls.drop_last());
            let all = clean_lines(ls);
            trim_idempotent(ls.last());
            assert(all.drop_last() =~= before);
            assert forall|i: int| 0 <= i < all.len() implies clean(#[trigger] all[i]) by {
                if i < before.len() {
                    assert(all[i] == before[i]);
                }
            }
        }
    }
}

proof fn pieces_of_full_lines(ls: Seq<Seq<char>>)
    requires
        forall|i: int| 0 <= i < ls.len() ==> !(#[trigger] ls[i]).contains('\n'),
    ensures
        pieces(full_lines(ls), '\n') == clean_lines(ls).push(Seq::empty()),
    decreases ls.len(),
{
    if ls.len() > 0 {
        let rest = ls.drop_last();
        assert forall|i: int| 0 <= i < rest.len() implies !(#[trigger] rest[i]).contains('\n') by {
            assert(rest[i] == ls[i]);
        }
        pieces_of_full_lines(rest);
        if !blank(ls.last()) {
            let before = full_lines(rest);
            let t = trimmed(ls.last());
            if t.contains('\n') {
                trimmed_is_made_of(ls.last(), '\n');
                assert(ls[ls.len() - 1].contains('\n'));
            }
            last_piece_grows(before, t, '\n');
            assert(pieces(before, '\n').drop_last() =~= clean_lines(rest));
            assert(pieces(before, '\n').last() + t =~= t);
            let none = Seq::<char>::empty();
            pieces_of_two(before + t, '\n', none);
            assert(before + t + seq!['\n'] + none =~= full_lines(ls));
            assert(pieces(none, '\n') =~= seq![none]);
            assert(clean_lines(rest).push(t) + seq![none] =~= clean_lines(ls).push(none));
        }
    } else {
        assert(pieces(full_lines(ls), '\n') =~= clean_lines(ls).push(Seq::empty()));
    }
}

proof fn full_lines_are_made_of(ls: Seq<Seq<char>>, x: char)
    requires
        full_lines(ls).contains(x),
        x != '\n',
    ensures
        exists|i: int| 0 <= i < ls.len() && (#[trigger] ls[i]).contains(x),
    decreases ls.len(),
{
    if ls.len() > 0 {
        let rest = ls.drop_last();
        let n = ls.len() - 1;
        let before = full_lines(rest);
        let k = choose|k: int| 0 <= k < full_lines(ls).len() && full_lines(ls)[k] == x;
        if k < before.len() {
            assert(before[k] == x);
            full_lines_are_made_of(rest, x);
            let i = choose|i: int| 0 <= i < rest.len() && (#[trigger] rest[i]).contains(x);
            assert(ls[i].contains(x));
        } else {
            let t = trimmed(ls.last());
            assert(t[k - before.len()] == x);
            trimmed_is_made_of(ls.last(), x);
            assert(ls[n].contains(x));
        }
    }
}

proof fn untagged_leaves_plain_text(s: Seq<char>)
    requires
        !s.contains('<'),
        !s.contains('>'),
    ensures
        untagged(s, false) == s,
    decreases s.len(),
{
    if s.len() > 0 {
        let rest = s.drop_first();
        assert(s.contains(s[0]));
        assert forall|i: int| 0 <= i < rest.len() implies rest[i] != '<' && rest[i] != '>' by {
            assert(s.contains(s[i + 1]));
        }
        untagged_leaves_plain_text(rest);
        assert(seq![s[0]] + rest =~= s);
    }
}

/// The text of HTML is clean: no tag is left in it, none of its lines is blank or has white space
/// at its ends, and it is left as it is when it is taken for HTML once more.
pub proof fn html_text_is_clean(s: Seq<char>)
    ensures
        !html_text(s).contains('<'),
        !html_text(s).contains('>'),
        forall|i: int| 0 <= i < lines(html_text(s)).len() ==> clean(#[trigger] lines(html_text(s))[i]),
        html_text(html_text(s)) == html_text(s),
{
    let u = untagged(s, false);
    let ls = lines(u);
    let t = html_text(s);
    untagged_holds_no_tags(s, false);
    assert forall|x: char| x != '\n' && #[trigger] t.contains(x) implies u.contains(x) by {
        full_lines_are_made_of(ls, x);
        let i = choose|i: int| 0 <= i < ls.len() && (#[trigger] ls[i]).contains(x);
        lines_are_made_of(u, i, x);
    }
    assert(!t.contains('<') && !t.contains('>'));
    untagged_leaves_plain_text(t);
    assert forall|i: int| 0 <= i < ls.len() implies !(#[trigger] ls[i]).contains('\n') by {
        if ls[i].contains('\n') {
            lines_are_made_of(u, i, '\n');
        }
    }
    pieces_of_full_lines(ls);
    clean_lines_are_clean(ls);
    let c = clean_lines(ls);
    let p = pieces(t, '\n');
    assert(p.drop_last() =~= c);
    assert forall|i: int| 0 <= i < c.len() implies without_return(#[trigger] c[i]) == c[i] by {
        trimmed_ends(c[i]);
    }
    assert(lines(t) =~= c);
}

} // verus!
