//! Regular expressions, as far as the gadget tree needs them.

use vstd::prelude::*;

verus! {

/// Whether `regex::Regex::new` accepts `pattern`.
pub uninterp spec fn regex_is_valid(pattern: Seq<char>) -> bool;

/// What `regex::Regex::captures` finds when the regular expression
/// `pattern` is matched against `text`: nothing where it does not match,
/// else the text of each capture group, the whole match first. A group that
/// took no part in the match has no text.
pub uninterp spec fn regex_captures(pattern: Seq<char>, text: Seq<char>) -> Option<
    Seq<Option<Seq<char>>>,
>;

/// `regex::Regex::new` and `regex::Regex::captures`: compiles `pattern` and
/// matches it against `text`. The outcome is a function of pattern and text
/// alone: nothing where the pattern is refused, else what the leftmost match
/// captured, each capture group as a text of its own.
#[verifier::external_body]
pub(crate) fn captures(pattern: &str, text: &str) -> (r: Option<Option<Vec<Option<String>>>>)
    ensures
        r is Some <==> regex_is_valid(pattern@),
        r is Some ==> r->Some_0.deep_view() == regex_captures(pattern@, text@),
{
    let re = regex::Regex::new(pattern).ok()?;
    Some(re.captures(text).map(|caps| caps.iter().map(|m| m.map(|m| m.as_str().to_string())).collect()))
}

} // verus!
