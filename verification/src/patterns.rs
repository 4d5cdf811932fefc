//! Regular expressions, matched with the `regex` crate.

use vstd::prelude::*;

verus! {

/// Whether `text` holds a match of the regular expression `pattern`
/// (false for a pattern that does not compile).
pub uninterp spec fn regex_is_match(pattern: Seq<char>, text: Seq<char>) -> bool;

/// `regex::Regex::new(pattern)` then `Regex::is_match(text)`: whether the
/// text holds a match; a pattern that does not compile matches nothing.
#[verifier::external_body]
pub(crate) fn regex_matches(pattern: &str, text: &str) -> (r: bool)
    ensures
        r == regex_is_match(pattern@, text@),
{
    match regex::Regex::new(pattern) {
        Ok(re) => re.is_match(text),
        Err(_) => false,
    }
}

/// The groups of the leftmost match of `pattern` in `text` (group 0 the
/// whole match; a group that took no part is empty); `None` without a
/// match or for a pattern that does not compile.
pub uninterp spec fn regex_captures_of(pattern: Seq<char>, text: Seq<char>) -> Option<Seq<Seq<char>>>;

/// `regex::Regex::new(pattern)` then `Regex::captures(text)`, each group
/// turned into an owned string.
#[verifier::external_body]
pub(crate) fn regex_captures(pattern: &str, text: &str) -> (r: Option<Vec<String>>)
    ensures
        match regex_captures_of(pattern@, text@) {
            Some(c) => r matches Some(v) && v@.len() == c.len() && forall|i: int|
                0 <= i < c.len() ==> #[trigger] v@[i]@ == c[i],
            None => r is None,
        },
{
    let re = match regex::Regex::new(pattern) {
        Ok(re) => re,
        Err(_) => return None,
    };
    let caps = re.captures(text)?;
    let mut groups = Vec::new();
    for m in caps.iter() {
        groups.push(match m {
            Some(m) => m.as_str().to_string(),
            None => String::new(),
        });
    }
    Some(groups)
}

} // verus!
