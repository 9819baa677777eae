//! Searching text with regular expressions.

use crate::text::text_of;
use vstd::prelude::*;

verus! {

/// Where a pattern was found: the text before the match, the text of each group
/// (the whole match is group 0), and the text after the match.
pub struct Found {
    pub before: String,
    pub groups: Vec<Option<String>>,
    pub after: String,
}

/// A match over plain text.
pub type FoundView = (Seq<char>, Seq<Option<Seq<char>>>, Seq<char>);

impl View for Found {
    type V = FoundView;

    open spec fn view(&self) -> FoundView {
        (self.before@, self.groups@.map_values(|g: Option<String>| text_of(g)), self.after@)
    }
}

/// A match that may not be there.
pub open spec fn found_view(f: Option<Found>) -> Option<FoundView> {
    match f {
        Some(m) => Some(m@),
        None => None,
    }
}

/// The text of a group of a match.
pub open spec fn group(f: FoundView, n: int) -> Option<Seq<char>> {
    if 0 <= n < f.1.len() {
        f.1[n]
    } else {
        None
    }
}

/// What the first match of a pattern in a text is, as the `regex` crate finds it.
pub uninterp spec fn regex_first(pattern: Seq<char>, text: Seq<char>) -> Option<
    (Seq<char>, Seq<Option<Seq<char>>>, Seq<char>),
>;

/// `regex::Regex::captures` on the pattern that `regex::Regex::new` compiles: the leftmost match,
/// nothing where there is none or the pattern is not a valid one. The match cuts the text in
/// three: what stands before it, the match itself (group 0), what stands after it.
#[verifier::external_body]
pub(crate) fn first_match(pattern: &str, text: &str) -> (r: Option<Found>)
    ensures
        found_view(r) == regex_first(pattern@, text@),
        r matches Some(f) ==> f@.1.len() >= 1 && f@.1[0] is Some && f@.0 + f@.1[0]->Some_0 + f@.2
            == text@,
{
    let re = regex::Regex::new(pattern).ok()?;
    let caps = re.captures(text)?;
    let whole = caps.get(0)?;
    Some(
        Found {
            before: text[..whole.start()].to_string(),
            groups: caps.iter().map(|g| g.map(|m| m.as_str().to_string())).collect(),
            after: text[whole.end()..].to_string(),
        },
    )
}

impl Found {
    /// The text of a group, where the match has it.
    pub fn group(&self, n: usize) -> (r: Option<String>)
        ensures
            text_of(r) == group(self@, n as int),
    {
        if n < self.groups.len() {
            match &self.groups[n] {
                Some(s) => Some(s.clone()),
                None => None,
            }
        } else {
            None
        }
    }
}

} // verus!
