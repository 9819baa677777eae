//! Text as sequences of characters: conversions, trimming, searching, splitting.

use vstd::prelude::*;
use vstd::utf8::encode_utf8;
use vstd::utf8::encode_utf8_decode_utf8;
use vstd::utf8::is_ascii_chars;

verus! {

/// `String::push` appends one character.
pub assume_specification[ String::push ](s: &mut String, c: char)
    ensures
        final(s)@ == old(s)@.push(c),
;

/// The characters of each string.
pub open spec fn texts(v: Seq<String>) -> Seq<Seq<char>> {
    v.map_values(|s: String| s@)
}

/// The text of an optional string.
pub open spec fn text_of(o: Option<String>) -> Option<Seq<char>> {
    match o {
        Some(s) => Some(s@),
        None => None,
    }
}

/// The text of an optional string slice.
pub open spec fn str_of(o: Option<&str>) -> Option<Seq<char>> {
    match o {
        Some(s) => Some(s@),
        None => None,
    }
}

/// The characters of a string slice.
pub fn chars_of(s: &str) -> (r: Vec<char>)
    ensures
        r@ == s@,
{
    let mut out: Vec<char> = Vec::new();
    for c in it: s.chars()
        invariant
            it.seq() == s@,
            out@ == s@.take(it.index() as int),
    {
        out.push(c);
    }
    out
}

/// The string made of the characters from `a` to `b`.
pub fn substring(v: &Vec<char>, a: usize, b: usize) -> (r: String)
    requires
        a <= b <= v@.len(),
    ensures
        r@ == v@.subrange(a as int, b as int),
{
    let mut out = String::new();
    let mut i: usize = a;
    while i < b
        invariant
            a <= i <= b <= v@.len(),
            out@ == v@.subrange(a as int, i as int),
        decreases b - i,
    {
        out.push(v[i]);
        i += 1;
        assert(v@.subrange(a as int, i as int) == v@.subrange(a as int, i - 1).push(v@[i - 1]));
    }
    out
}

/// Whether the two texts are the same.
pub fn same(a: &str, b: &str) -> (r: bool)
    ensures
        r == (a@ == b@),
{
    let x = a.as_bytes();
    let y = b.as_bytes();
    proof {
        encode_utf8_decode_utf8(a@);
        encode_utf8_decode_utf8(b@);
        assert(encode_utf8(a@) == encode_utf8(b@) ==> a@ == b@);
    }
    if x.len() != y.len() {
        return false;
    }
    let mut i: usize = 0;
    while i < x.len()
        invariant
            x@ == encode_utf8(a@),
            y@ == encode_utf8(b@),
            x@.len() == y@.len(),
            i <= x@.len(),
            forall|k: int| 0 <= k < i ==> x@[k] == y@[k],
        decreases x@.len() - i,
    {
        if x[i] != y[i] {
            return false;
        }
        i += 1;
    }
    assert(x@ == y@);
    true
}

/// The characters with the Unicode property `White_Space`.
pub open spec fn space(c: char) -> bool {
    ||| '\u{9}' <= c <= '\u{d}'
    ||| c == ' '
    ||| c == '\u{85}'
    ||| c == '\u{a0}'
    ||| c == '\u{1680}'
    ||| '\u{2000}' <= c <= '\u{200a}'
    ||| c == '\u{2028}'
    ||| c == '\u{2029}'
    ||| c == '\u{202f}'
    ||| c == '\u{205f}'
    ||| c == '\u{3000}'
}

/// Whether the character is white space.
pub fn is_space(c: char) -> (r: bool)
    ensures
        r == space(c),
{
    ('\u{9}' <= c && c <= '\u{d}') || c == ' ' || c == '\u{85}' || c == '\u{a0}' || c == '\u{1680}'
        || ('\u{2000}' <= c && c <= '\u{200a}') || c == '\u{2028}' || c == '\u{2029}'
        || c == '\u{202f}' || c == '\u{205f}' || c == '\u{3000}'
}

/// The text without the white space at its start.
pub open spec fn trim_front(s: Seq<char>) -> Seq<char>
    decreases s.len(),
{
    if s.len() > 0 && space(s[0]) {
        trim_front(s.drop_first())
    } else {
        s
    }
}

/// The text without the white space at its end.
pub open spec fn trim_back(s: Seq<char>) -> Seq<char>
    decreases s.len(),
{
    if s.len() > 0 && space(s.last()) {
        trim_back(s.drop_last())
    } else {
        s
    }
}

/// The text without the white space at both ends.
pub open spec fn trimmed(s: Seq<char>) -> Seq<char> {
    trim_back(trim_front(s))
}

/// Whether nothing but white space is there.
pub open spec fn blank(s: Seq<char>) -> bool {
    trimmed(s).len() == 0
}

/// Where the text starts once the white space at its start is dropped.
fn front_edge(v: &Vec<char>) -> (i: usize)
    ensures
        i <= v@.len(),
        trim_front(v@) == v@.skip(i as int),
{
    let mut i: usize = 0;
    assert(v@.skip(0) == v@);
    while i < v.len() && is_space(v[i])
        invariant
            i <= v@.len(),
            trim_front(v@) == trim_front(v@.skip(i as int)),
        decreases v@.len() - i,
    {
        assert(v@.skip(i as int).drop_first() == v@.skip(i + 1));
        i += 1;
    }
    i
}

/// Where the text from `a` on ends once the white space at its end is dropped.
fn back_edge(v: &Vec<char>, a: usize) -> (b: usize)
    requires
        a <= v@.len(),
    ensures
        a <= b <= v@.len(),
        trim_back(v@.skip(a as int)) == v@.subrange(a as int, b as int),
{
    let mut b: usize = v.len();
    assert(v@.skip(a as int) == v@.subrange(a as int, b as int));
    while b > a && is_space(v[b - 1])
        invariant
            a <= b <= v@.len(),
            trim_back(v@.skip(a as int)) == trim_back(v@.subrange(a as int, b as int)),
        decreases b,
    {
        assert(v@.subrange(a as int, b as int).drop_last() == v@.subrange(a as int, b - 1));
        b -= 1;
    }
    b
}

/// The text without the white space at its start.
pub fn trim_start(s: &str) -> (r: String)
    ensures
        r@ == trim_front(s@),
{
    let v = chars_of(s);
    let a = front_edge(&v);
    let r = substring(&v, a, v.len());
    assert(v@.subrange(a as int, v@.len() as int) == v@.skip(a as int));
    r
}

/// The text without the white space at both ends.
pub fn trim(s: &str) -> (r: String)
    ensures
        r@ == trimmed(s@),
{
    let v = chars_of(s);
    let a = front_edge(&v);
    let b = back_edge(&v, a);
    substring(&v, a, b)
}

/// Whether nothing but white space is there.
pub fn is_blank(s: &str) -> (r: bool)
    ensures
        r == blank(s@),
{
    let t = trim(s);
    t.as_str().is_empty()
}

/// Trimmed text has white space at neither end.
pub proof fn trimmed_ends(s: Seq<char>)
    ensures
        trimmed(s).len() > 0 ==> !space(trimmed(s)[0]) && !space(trimmed(s).last()),
{
    trim_front_edge(s);
    trim_back_edge(trim_front(s));
}

proof fn trim_front_edge(s: Seq<char>)
    ensures
        trim_front(s).len() > 0 ==> !space(trim_front(s)[0]),
    decreases s.len(),
{
    if s.len() > 0 && space(s[0]) {
        trim_front_edge(s.drop_first());
    }
}

proof fn trim_back_edge(s: Seq<char>)
    ensures
        trim_back(s).len() > 0 ==> !space(trim_back(s).last()) && trim_back(s)[0] == s[0],
    decreases s.len(),
{
    if s.len() > 0 && space(s.last()) {
        trim_back_edge(s.drop_last());
    }
}

/// Trimming twice is trimming once.
pub proof fn trim_idempotent(s: Seq<char>)
    ensures
        trimmed(trimmed(s)) == trimmed(s),
{
    trimmed_ends(s);
}

/// The text without the given character at its start.
pub open spec fn strip_front(s: Seq<char>, c: char) -> Seq<char>
    decreases s.len(),
{
    if s.len() > 0 && s[0] == c {
        strip_front(s.drop_first(), c)
    } else {
        s
    }
}

/// The text without the given character at its end.
pub open spec fn strip_back(s: Seq<char>, c: char) -> Seq<char>
    decreases s.len(),
{
    if s.len() > 0 && s.last() == c {
        strip_back(s.drop_last(), c)
    } else {
        s
    }
}

/// The text without the given character at both ends.
pub open spec fn stripped(s: Seq<char>, c: char) -> Seq<char> {
    strip_back(strip_front(s, c), c)
}

/// The text without the given character at its end.
pub fn trim_end_char(s: &str, c: char) -> (r: String)
    ensures
        r@ == strip_back(s@, c),
{
    let v = chars_of(s);
    let mut b: usize = v.len();
    assert(v@.subrange(0, b as int) == v@);
    while b > 0 && v[b - 1] == c
        invariant
            b <= v@.len(),
            v@ == s@,
            strip_back(s@, c) == strip_back(v@.subrange(0, b as int), c),
        decreases b,
    {
        assert(v@.subrange(0, b as int).drop_last() == v@.subrange(0, b - 1));
        b -= 1;
    }
    substring(&v, 0, b)
}

/// The text without the given character at both ends.
pub fn trim_char(s: &str, c: char) -> (r: String)
    ensures
        r@ == stripped(s@, c),
{
    let v = chars_of(s);
    let mut a: usize = 0;
    assert(v@.skip(0) == v@);
    while a < v.len() && v[a] == c
        invariant
            a <= v@.len(),
            v@ == s@,
            strip_front(s@, c) == strip_front(v@.skip(a as int), c),
        decreases v@.len() - a,
    {
        assert(v@.skip(a as int).drop_first() == v@.skip(a + 1));
        a += 1;
    }
    let t = substring(&v, a, v.len());
    assert(v@.subrange(a as int, v@.len() as int) == v@.skip(a as int));
    trim_end_char(t.as_str(), c)
}

/// Whether `p` stands in `s` at position `i`.
pub open spec fn stands_at(s: Seq<char>, p: Seq<char>, i: int) -> bool {
    0 <= i && i + p.len() <= s.len() && s.subrange(i, i + p.len()) == p
}

/// Whether `p` occurs in `s`.
pub open spec fn occurs(s: Seq<char>, p: Seq<char>) -> bool {
    exists|i: int| stands_at(s, p, i)
}

/// Whether `p` stands in `v` at position `i`.
pub fn matches_at(v: &Vec<char>, p: &Vec<char>, i: usize) -> (r: bool)
    requires
        i <= v@.len(),
    ensures
        r == stands_at(v@, p@, i as int),
{
    if p.len() > v.len() - i {
        return false;
    }
    let mut k: usize = 0;
    while k < p.len()
        invariant
            k <= p@.len(),
            i + p@.len() <= v.len(),
            forall|j: int| 0 <= j < k ==> v@[i + j] == p@[j],
        decreases p@.len() - k,
    {
        if v[i + k] != p[k] {
            assert(v@.subrange(i as int, i + p@.len())[k as int] != p@[k as int]);
            return false;
        }
        k += 1;
    }
    assert(v@.subrange(i as int, i + p@.len()) == p@);
    true
}

/// The first position at or after `from` at which `p` stands in `v`.
pub fn find_from(v: &Vec<char>, p: &Vec<char>, from: usize) -> (r: Option<usize>)
    requires
        from <= v@.len(),
    ensures
        match r {
            Some(i) => from <= i <= v@.len() && stands_at(v@, p@, i as int) && forall|k: int|
                from <= k < i ==> !stands_at(v@, p@, k),
            None => forall|k: int| from <= k ==> !stands_at(v@, p@, k),
        },
{
    let mut i: usize = from;
    while i < v.len()
        invariant
            from <= i <= v@.len(),
            forall|k: int| from <= k < i ==> !stands_at(v@, p@, k),
        decreases v@.len() - i,
    {
        if matches_at(v, p, i) {
            return Some(i);
        }
        i += 1;
    }
    if p.len() == 0 {
        assert(v@.subrange(v@.len() as int, v@.len() as int) == p@);
        assert(stands_at(v@, p@, i as int));
        return Some(i);
    }
    None
}

/// Whether `p` occurs in `s`.
pub fn contains(s: &str, p: &str) -> (r: bool)
    ensures
        r == occurs(s@, p@),
{
    let v = chars_of(s);
    let w = chars_of(p);
    match find_from(&v, &w, 0) {
        Some(i) => {
            assert(stands_at(s@, p@, i as int));
            true
        },
        None => {
            assert(forall|i: int| !stands_at(s@, p@, i));
            false
        },
    }
}

/// Whether one of the listed texts occurs in `s`.
pub open spec fn any_occurs(s: Seq<char>, list: Seq<&str>) -> bool {
    exists|k: int| 0 <= k < list.len() && occurs(s, #[trigger] list[k]@)
}

/// Whether one of the listed texts occurs in `s`.
pub fn contains_any(s: &str, list: &[&str]) -> (r: bool)
    ensures
        r == any_occurs(s@, list@),
{
    let mut i: usize = 0;
    while i < list.len()
        invariant
            i <= list@.len(),
            forall|k: int| 0 <= k < i ==> !occurs(s@, #[trigger] list@[k]@),
        decreases list@.len() - i,
    {
        if contains(s, list[i]) {
            return true;
        }
        i += 1;
    }
    false
}

/// Whether `s` begins with `p`.
pub fn starts_with(s: &str, p: &str) -> (r: bool)
    ensures
        r == stands_at(s@, p@, 0),
{
    let v = chars_of(s);
    let w = chars_of(p);
    matches_at(&v, &w, 0)
}

/// Whether `s` ends with `p`.
pub fn ends_with(s: &str, p: &str) -> (r: bool)
    ensures
        r == stands_at(s@, p@, s@.len() - p@.len()),
{
    let v = chars_of(s);
    let w = chars_of(p);
    if w.len() > v.len() {
        return false;
    }
    matches_at(&v, &w, v.len() - w.len())
}

/// The number of characters before the first white space.
pub open spec fn word_len(s: Seq<char>) -> int
    decreases s.len(),
{
    if s.len() == 0 || space(s[0]) {
        0
    } else {
        1 + word_len(s.drop_first())
    }
}

/// The pieces of the text between white space.
pub open spec fn words(s: Seq<char>) -> Seq<Seq<char>>
    decreases s.len(),
{
    if s.len() == 0 {
        Seq::empty()
    } else if space(s[0]) {
        words(s.drop_first())
    } else {
        let n = word_len(s);
        if 0 < n <= s.len() {
            seq![s.take(n)] + words(s.skip(n))
        } else {
            Seq::empty()
        }
    }
}

/// The first word is not longer than the text.
pub proof fn word_len_bound(s: Seq<char>)
    ensures
        0 <= word_len(s) <= s.len(),
        forall|k: int| 0 <= k < word_len(s) ==> !space(s[k]),
        word_len(s) < s.len() ==> space(s[word_len(s)]),
    decreases s.len(),
{
    if s.len() > 0 && !space(s[0]) {
        word_len_bound(s.drop_first());
        assert forall|k: int| 0 <= k < word_len(s) implies !space(s[k]) by {
            if k > 0 {
                assert(s[k] == s.drop_first()[k - 1]);
            }
        }
    }
}

/// The pieces of the text between white space.
pub fn split_words(s: &str) -> (r: Vec<String>)
    ensures
        texts(r@) == words(s@),
{
    let v = chars_of(s);
    let mut out: Vec<String> = Vec::new();
    let mut i: usize = 0;
    assert(v@.skip(0) == v@);
    assert(texts(out@) + words(v@) == words(v@));
    while i < v.len()
        invariant
            v@ == s@,
            i <= v@.len(),
            texts(out@) + words(v@.skip(i as int)) == words(s@),
        decreases v@.len() - i,
    {
        let ghost rest = v@.skip(i as int);
        if is_space(v[i]) {
            assert(rest.drop_first() == v@.skip(i + 1));
            i += 1;
        } else {
            let mut j: usize = i;
            while j < v.len() && !is_space(v[j])
                invariant
                    v@ == s@,
                    i <= j <= v@.len(),
                    rest == v@.skip(i as int),
                    word_len(rest) == (j - i) + word_len(v@.skip(j as int)),
                decreases v@.len() - j,
            {
                assert(v@.skip(j as int).drop_first() == v@.skip(j + 1));
                j += 1;
            }
            proof {
                word_len_bound(rest);
            }
            let w = substring(&v, i, j);
            proof {
                assert(rest.take(j - i) == v@.subrange(i as int, j as int));
                assert(rest.skip(j - i) == v@.skip(j as int));
                assert(texts(out@.push(w)) == texts(out@).push(w@));
                assert(texts(out@) + (seq![w@] + words(v@.skip(j as int))) == texts(out@).push(w@)
                    + words(v@.skip(j as int)));
            }
            out.push(w);
            i = j;
        }
    }
    assert(v@.skip(i as int).len() == 0);
    assert(texts(out@) + words(v@.skip(i as int)) == texts(out@));
    out
}

/// The parts one after the other with `sep` between them.
pub open spec fn joined(parts: Seq<Seq<char>>, sep: Seq<char>) -> Seq<char>
    decreases parts.len(),
{
    if parts.len() == 0 {
        Seq::empty()
    } else if parts.len() == 1 {
        parts[0]
    } else {
        joined(parts.drop_last(), sep) + sep + parts.last()
    }
}

/// The parts one after the other with `sep` between them.
pub fn join(parts: &Vec<String>, sep: &str) -> (r: String)
    ensures
        r@ == joined(texts(parts@), sep@),
{
    let mut out = String::new();
    let mut i: usize = 0;
    let ghost all = texts(parts@);
    while i < parts.len()
        invariant
            all == texts(parts@),
            i <= parts@.len(),
            out@ == joined(all.take(i as int), sep@),
        decreases parts@.len() - i,
    {
        proof {
            assert(all.take(i + 1).drop_last() == all.take(i as int));
            assert(all.take(i + 1).last() == parts@[i as int]@);
        }
        if i > 0 {
            out.append(sep);
        }
        out.append(parts[i].as_str());
        proof {
            if i == 0 {
                assert(out@ == parts@[0]@);
            }
        }
        i += 1;
    }
    assert(all.take(i as int) == all);
    out
}

/// The pieces of the text between the occurrences of a character.
pub open spec fn pieces(s: Seq<char>, c: char) -> Seq<Seq<char>>
    decreases s.len(),
{
    if s.len() == 0 {
        seq![Seq::empty()]
    } else {
        let p = pieces(s.drop_last(), c);
        if s.last() == c {
            p.push(Seq::empty())
        } else {
            p.drop_last().push(p.last().push(s.last()))
        }
    }
}

/// The pieces of the text between the occurrences of a character.
pub fn split_char(s: &str, c: char) -> (r: Vec<String>)
    ensures
        texts(r@) == pieces(s@, c),
        r@.len() >= 1,
{
    let v = chars_of(s);
    let mut done: Vec<String> = Vec::new();
    let mut cur = String::new();
    let mut i: usize = 0;
    assert(texts(done@).push(cur@) == seq![Seq::<char>::empty()]);
    assert(v@.take(0) == Seq::<char>::empty());
    while i < v.len()
        invariant
            v@ == s@,
            i <= v@.len(),
            texts(done@).push(cur@) == pieces(v@.take(i as int), c),
        decreases v@.len() - i,
    {
        let ghost before = texts(done@).push(cur@);
        proof {
            assert(v@.take(i + 1).drop_last() == v@.take(i as int));
            assert(before.drop_last() == texts(done@));
        }
        if v[i] == c {
            let mut piece = String::new();
            std::mem::swap(&mut piece, &mut cur);
            proof {
                assert(texts(done@.push(piece)) == texts(done@).push(piece@));
            }
            done.push(piece);
        } else {
            cur.push(v[i]);
        }
        i += 1;
    }
    proof {
        assert(v@.take(i as int) == v@);
        assert(texts(done@.push(cur)) == texts(done@).push(cur@));
    }
    done.push(cur);
    done
}

/// A line without the carriage return at its end.
pub open spec fn without_return(s: Seq<char>) -> Seq<char> {
    if s.len() > 0 && s.last() == '\r' {
        s.drop_last()
    } else {
        s
    }
}

/// The lines of a text: a line break ends a line, and nothing after the last one is no line.
pub open spec fn lines(s: Seq<char>) -> Seq<Seq<char>> {
    let p = pieces(s, '\n');
    let ended = p.drop_last().map_values(|l: Seq<char>| without_return(l));
    if p.last().len() == 0 {
        ended
    } else {
        ended.push(p.last())
    }
}

fn drop_return(s: &String) -> (r: String)
    ensures
        r@ == without_return(s@),
{
    let v = chars_of(s.as_str());
    if v.len() > 0 && v[v.len() - 1] == '\r' {
        let r = substring(&v, 0, v.len() - 1);
        assert(r@ == s@.drop_last());
        r
    } else {
        s.clone()
    }
}

/// The lines of a text.
pub fn split_lines(s: &str) -> (r: Vec<String>)
    ensures
        texts(r@) == lines(s@),
{
    let p = split_char(s, '\n');
    let mut out: Vec<String> = Vec::new();
    let ghost all = texts(p@);
    let ghost ended = all.drop_last().map_values(|l: Seq<char>| without_return(l));
    assert(all.len() == p@.len());
    let n: usize = p.len() - 1;
    let mut i: usize = 0;
    while i < n
        invariant
            n == p@.len() - 1,
            i <= n,
            all == texts(p@),
            ended == all.drop_last().map_values(|l: Seq<char>| without_return(l)),
            texts(out@) == ended.take(i as int),
        decreases n - i,
    {
        let l = drop_return(&p[i]);
        proof {
            assert(ended[i as int] == l@);
            assert(texts(out@.push(l)) == texts(out@).push(l@));
            assert(ended.take(i + 1) == ended.take(i as int).push(l@));
        }
        out.push(l);
        i += 1;
    }
    assert(ended.take(n as int) == ended);
    assert(all.last() == p@[n as int]@);
    if !p[n].as_str().is_empty() {
        let l = p[n].clone();
        assert(texts(out@.push(l)) == texts(out@).push(l@));
        out.push(l);
    }
    out
}

/// The first `n` characters, or all of them where there are fewer.
pub open spec fn prefix(s: Seq<char>, n: int) -> Seq<char> {
    if s.len() <= n {
        s
    } else {
        s.take(n)
    }
}

/// The first `n` characters, or all of them where there are fewer.
pub fn take_chars(s: &str, n: usize) -> (r: String)
    ensures
        r@ == prefix(s@, n as int),
{
    let v = chars_of(s);
    if v.len() <= n {
        s.to_owned()
    } else {
        let r = substring(&v, 0, n);
        assert(v@.subrange(0, n as int) == v@.take(n as int));
        r
    }
}

/// A text in lower case, as std maps it.
pub uninterp spec fn lower_text(s: Seq<char>) -> Seq<char>;

/// A letter of ASCII in lower case; any other character as it is.
pub open spec fn lower_ascii(c: char) -> char {
    if 'A' <= c <= 'Z' {
        ((c as u32) + 32) as char
    } else {
        c
    }
}

/// `str::to_lowercase`. On text of ASCII characters alone it maps `A` to `Z` and nothing else.
#[verifier::external_body]
pub(crate) fn to_lower(s: &str) -> (r: String)
    ensures
        r@ == lower_text(s@),
        is_ascii_chars(s@) ==> r@ == s@.map_values(|c: char| lower_ascii(c)),
{
    s.to_lowercase()
}

/// Whether a text is one word.
pub open spec fn one_word(w: Seq<char>) -> bool {
    w.len() > 0 && forall|k: int| 0 <= k < w.len() ==> !space(#[trigger] w[k])
}

/// Words are not empty, hold no white space, and are made of characters of the text.
pub proof fn words_are_words(s: Seq<char>)
    ensures
        forall|j: int| 0 <= j < words(s).len() ==> one_word(#[trigger] words(s)[j]),
        forall|j: int, k: int|
            0 <= j < words(s).len() && 0 <= k < words(s)[j].len() ==> s.contains(
                #[trigger] words(s)[j][k],
            ),
    decreases s.len(),
{
    if s.len() > 0 {
        if space(s[0]) {
            let rest = s.drop_first();
            words_are_words(rest);
            assert(words(s) == words(rest));
            assert forall|j: int, k: int|
                0 <= j < words(s).len() && 0 <= k < words(s)[j].len() implies s.contains(
                #[trigger] words(s)[j][k],
            ) by {
                assert(rest.contains(words(rest)[j][k]));
                let m = choose|m: int| 0 <= m < rest.len() && rest[m] == words(rest)[j][k];
                assert(s[m + 1] == words(s)[j][k]);
            }
        } else {
            let n = word_len(s);
            word_len_bound(s);
            let rest = s.skip(n);
            words_are_words(rest);
            assert(words(s) == seq![s.take(n)] + words(rest));
            assert(one_word(s.take(n)));
            assert forall|j: int| 0 <= j < words(s).len() implies one_word(
                #[trigger] words(s)[j],
            ) by {
                if j > 0 {
                    assert(words(s)[j] == words(rest)[j - 1]);
                }
            }
            assert forall|j: int, k: int|
                0 <= j < words(s).len() && 0 <= k < words(s)[j].len() implies s.contains(
                #[trigger] words(s)[j][k],
            ) by {
                if j > 0 {
                    assert(words(s)[j] == words(rest)[j - 1]);
                    assert(rest.contains(words(rest)[j - 1][k]));
                    let m = choose|m: int| 0 <= m < rest.len() && rest[m] == words(rest)[j - 1][k];
                    assert(s[m + n] == words(s)[j][k]);
                } else {
                    assert(words(s)[0] == s.take(n));
                    assert(s[k] == words(s)[0][k]);
                }
            }
        }
    }
}

proof fn word_len_of_word(w: Seq<char>)
    requires
        forall|k: int| 0 <= k < w.len() ==> !space(#[trigger] w[k]),
    ensures
        word_len(w) == w.len(),
    decreases w.len(),
{
    if w.len() > 0 {
        let rest = w.drop_first();
        assert forall|k: int| 0 <= k < rest.len() implies !space(#[trigger] rest[k]) by {
            assert(rest[k] == w[k + 1]);
        }
        word_len_of_word(rest);
    }
}

proof fn word_len_before_space(a: Seq<char>, b: Seq<char>)
    requires
        b.len() > 0,
        space(b[0]),
    ensures
        word_len(a + b) == word_len(a),
    decreases a.len(),
{
    if a.len() == 0 {
        assert(a + b == b);
    } else if !space(a[0]) {
        assert((a + b).drop_first() == a.drop_first() + b);
        word_len_before_space(a.drop_first(), b);
    }
}

/// A space and a word more make one word more.
pub proof fn words_and_one_more(a: Seq<char>, w: Seq<char>)
    requires
        one_word(w),
    ensures
        words(a + seq![' '] + w) == words(a).push(w),
    decreases a.len(),
{
    let tail = seq![' '] + w;
    let s = a + seq![' '] + w;
    assert(s == a + tail);
    if a.len() == 0 {
        assert(s.drop_first() == w);
        word_len_of_word(w);
        assert(w.take(w.len() as int) == w);
        assert(w.skip(w.len() as int) == Seq::<char>::empty());
        assert(words(w) == seq![w] + words(w.skip(w.len() as int)));
        assert(words(s) == words(w));
        assert(words(w) == Seq::<Seq<char>>::empty().push(w));
    } else if space(a[0]) {
        assert(s.drop_first() == a.drop_first() + seq![' '] + w);
        words_and_one_more(a.drop_first(), w);
    } else {
        word_len_before_space(a, tail);
        word_len_bound(a);
        let n = word_len(a);
        assert(s.take(n) == a.take(n));
        assert(s.skip(n) == a.skip(n) + seq![' '] + w);
        words_and_one_more(a.skip(n), w);
        assert(seq![a.take(n)] + words(a.skip(n)).push(w) == (seq![a.take(n)] + words(
            a.skip(n),
        )).push(w));
    }
}

/// Words joined by spaces are the words of what comes out.
pub proof fn words_of_joined(ws: Seq<Seq<char>>)
    requires
        forall|j: int| 0 <= j < ws.len() ==> one_word(#[trigger] ws[j]),
    ensures
        words(joined(ws, seq![' '])) == ws,
    decreases ws.len(),
{
    if ws.len() == 1 {
        let w = ws[0];
        word_len_of_word(w);
        assert(w.take(w.len() as int) == w);
        assert(w.skip(w.len() as int) == Seq::<char>::empty());
        assert(words(w) == seq![w] + words(w.skip(w.len() as int)));
        assert(words(w) == ws);
    } else if ws.len() > 1 {
        let front = ws.drop_last();
        assert forall|j: int| 0 <= j < front.len() implies one_word(#[trigger] front[j]) by {
            assert(front[j] == ws[j]);
        }
        words_of_joined(front);
        words_and_one_more(joined(front, seq![' ']), ws.last());
        assert(front.push(ws.last()) == ws);
    } else {
        assert(words(joined(ws, seq![' '])) == ws);
    }
}

/// What is joined is made of characters of the parts and of the separator.
pub proof fn joined_is_made_of(parts: Seq<Seq<char>>, sep: Seq<char>, i: int)
    requires
        0 <= i < joined(parts, sep).len(),
    ensures
        sep.contains(joined(parts, sep)[i]) || exists|j: int, k: int|
            0 <= j < parts.len() && 0 <= k < parts[j].len() && #[trigger] parts[j][k] == joined(
                parts,
                sep,
            )[i],
    decreases parts.len(),
{
    let whole = joined(parts, sep);
    if parts.len() == 1 {
        assert(parts[0][i] == whole[i]);
    } else if parts.len() > 1 {
        let front = parts.drop_last();
        let a = joined(front, sep);
        if i < a.len() {
            joined_is_made_of(front, sep, i);
            if !sep.contains(whole[i]) {
                let (j, k) = choose|j: int, k: int|
                    0 <= j < front.len() && 0 <= k < front[j].len() && #[trigger] front[j][k]
                        == a[i];
                assert(parts[j][k] == whole[i]);
            }
        } else if i < a.len() + sep.len() {
            assert(sep[i - a.len()] == whole[i]);
        } else {
            assert(parts[parts.len() - 1][i - a.len() - sep.len()] == whole[i]);
        }
    }
}

/// The pieces of a text that a separator cuts in two are the pieces of its two parts.
pub proof fn pieces_of_two(a: Seq<char>, c: char, b: Seq<char>)
    ensures
        pieces(a + seq![c] + b, c) == pieces(a, c) + pieces(b, c),
    decreases b.len(),
{
    let s = a + seq![c] + b;
    if b.len() == 0 {
        assert(s.drop_last() == a);
        assert(pieces(b, c) == seq![Seq::<char>::empty()]);
        assert(pieces(s, c) == pieces(a, c).push(Seq::empty()));
    } else {
        let d = b.drop_last();
        assert(s.drop_last() == a + seq![c] + d);
        pieces_of_two(a, c, d);
        pieces_not_empty(d, c);
        let p = pieces(a, c) + pieces(d, c);
        assert(p.last() == pieces(d, c).last());
        assert(p.drop_last() == pieces(a, c) + pieces(d, c).drop_last());
        if b.last() == c {
            assert(p.push(Seq::empty()) == pieces(a, c) + pieces(d, c).push(Seq::empty()));
        } else {
            assert(p.drop_last().push(p.last().push(b.last())) == pieces(a, c) + pieces(
                d,
                c,
            ).drop_last().push(pieces(d, c).last().push(b.last())));
        }
    }
}

/// There is always a piece.
pub proof fn pieces_not_empty(s: Seq<char>, c: char)
    ensures
        pieces(s, c).len() >= 1,
    decreases s.len(),
{
    if s.len() > 0 {
        pieces_not_empty(s.drop_last(), c);
    }
}

/// A text without the separator is one piece.
pub proof fn one_piece(s: Seq<char>, c: char)
    requires
        !s.contains(c),
    ensures
        pieces(s, c) == seq![s],
    decreases s.len(),
{
    if s.len() > 0 {
        let d = s.drop_last();
        assert forall|i: int| 0 <= i < d.len() implies d[i] != c by {
            assert(d[i] == s[i]);
        }
        one_piece(d, c);
        assert(s.contains(s.last()));
        assert(d.push(s.last()) == s);
        assert(seq![d].drop_last().push(d.push(s.last())) == seq![s]);
    } else {
        assert(s == Seq::<char>::empty());
    }
}

/// Whether a text comes before another in the order of code points.
pub open spec fn text_before(a: Seq<char>, b: Seq<char>) -> bool
    decreases a.len(),
{
    if b.len() == 0 {
        false
    } else if a.len() == 0 {
        true
    } else if a[0] == b[0] {
        text_before(a.drop_first(), b.drop_first())
    } else {
        a[0] < b[0]
    }
}

/// A text in quotes, with what is not plain in it escaped.
pub uninterp spec fn debug_text(s: Seq<char>) -> Seq<char>;

/// Whether a text is made of letters, digits and underscores of ASCII.
pub open spec fn wordlike(s: Seq<char>) -> bool {
    forall|i: int|
        0 <= i < s.len() ==> ('a' <= #[trigger] s[i] <= 'z') || ('A' <= s[i] <= 'Z') || ('0' <= s[i]
            <= '9') || s[i] == '_'
}

/// The form `{:?}` of `str`. Letters, digits and underscores stand as they are.
#[verifier::external_body]
pub(crate) fn quote(s: &str) -> (r: String)
    ensures
        r@ == debug_text(s@),
        wordlike(s@) ==> r@ == seq!['"'] + s@ + seq!['"'],
{
    format!("{:?}", s)
}

/// What is added behind a text, without the separator in it, is added to its last piece.
pub proof fn last_piece_grows(s: Seq<char>, t: Seq<char>, c: char)
    requires
        !t.contains(c),
    ensures
        pieces(s + t, c) == pieces(s, c).drop_last().push(pieces(s, c).last() + t),
    decreases t.len(),
{
    let p = pieces(s, c);
    pieces_not_empty(s, c);
    if t.len() == 0 {
        assert(s + t =~= s);
        assert(p.last() + t =~= p.last());
        assert(p.drop_last().push(p.last()) =~= p);
    } else {
        let d = t.drop_last();
        assert forall|i: int| 0 <= i < d.len() implies d[i] != c by {
            assert(t.contains(t[i]));
        }
        assert(t.contains(t.last()));
        last_piece_grows(s, d, c);
        assert((s + t).drop_last() =~= s + d);
        assert(pieces(s + d, c).drop_last() =~= p.drop_last());
        assert((p.last() + d).push(t.last()) =~= p.last() + t);
    }
}

/// The pieces of a text are made of its characters, without the separator.
pub proof fn pieces_are_made_of(s: Seq<char>, c: char, i: int, x: char)
    requires
        0 <= i < pieces(s, c).len(),
        pieces(s, c)[i].contains(x),
    ensures
        s.contains(x),
        x != c,
    decreases s.len(),
{
    if s.len() > 0 {
        let d = s.drop_last();
        let p = pieces(d, c);
        pieces_not_empty(d, c);
        if i < p.len() && p[i].contains(x) {
            pieces_are_made_of(d, c, i, x);
            let k = choose|k: int| 0 <= k < d.len() && d[k] == x;
            assert(s[k] == x);
        } else {
            assert(s.last() != c);
            let grown = p.last().push(s.last());
            let k = choose|k: int| 0 <= k < grown.len() && grown[k] == x;
            if k < p.last().len() {
                assert(p.last()[k] == x);
            }
            assert(s[s.len() - 1] == x);
        }
    }
}

/// The lines of a text are made of its characters, without line breaks.
pub proof fn lines_are_made_of(s: Seq<char>, i: int, x: char)
    requires
        0 <= i < lines(s).len(),
        lines(s)[i].contains(x),
    ensures
        s.contains(x),
        x != '\n',
{
    let p = pieces(s, '\n');
    pieces_not_empty(s, '\n');
    let k = choose|k: int| 0 <= k < lines(s)[i].len() && lines(s)[i][k] == x;
    assert(p[i][k] == x);
    pieces_are_made_of(s, '\n', i, x);
}

/// A trimmed text is made of the characters of the text.
pub proof fn trimmed_is_made_of(s: Seq<char>, x: char)
    requires
        trimmed(s).contains(x),
    ensures
        s.contains(x),
{
    back_is_made_of(trim_front(s), x);
    front_is_made_of(s, x);
}

proof fn front_is_made_of(s: Seq<char>, x: char)
    requires
        trim_front(s).contains(x),
    ensures
        s.contains(x),
    decreases s.len(),
{
    if s.len() > 0 && space(s[0]) {
        let rest = s.drop_first();
        front_is_made_of(rest, x);
        let k = choose|k: int| 0 <= k < rest.len() && rest[k] == x;
        assert(s[k + 1] == x);
    }
}

proof fn back_is_made_of(s: Seq<char>, x: char)
    requires
        trim_back(s).contains(x),
    ensures
        s.contains(x),
    decreases s.len(),
{
    if s.len() > 0 && space(s.last()) {
        let rest = s.drop_last();
        back_is_made_of(rest, x);
        let k = choose|k: int| 0 <= k < rest.len() && rest[k] == x;
        assert(s[k] == x);
    }
}

} // verus!
