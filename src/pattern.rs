//! Regular-expression searches, made by the regex crate.

use vstd::prelude::*;

verus! {

/// The text of the leftmost-first match of the regular expression `pattern`
/// in `text`, as the regex crate finds it; `None` where there is no match or
/// where `pattern` does not compile.
pub uninterp spec fn regex_first_match(pattern: Seq<char>, text: Seq<char>) -> Option<Seq<char>>;

/// The number of successive non-overlapping matches of the regular
/// expression `pattern` in `text`, as the regex crate counts them; `None`
/// where `pattern` does not compile.
pub uninterp spec fn regex_match_count(pattern: Seq<char>, text: Seq<char>) -> Option<usize>;

/// Relies on regex::Regex::new, to compile `pattern`, and on
/// regex::Regex::find with Match::as_str, for the text of the first match.
#[verifier::external_body]
pub(crate) fn first_match(pattern: &str, text: &str) -> (r: Option<String>)
    ensures
        match r {
            Some(m) => regex_first_match(pattern@, text@) == Some(m@),
            None => regex_first_match(pattern@, text@) is None,
        },
{
    match regex::Regex::new(pattern) {
        Ok(re) => match re.find(text) {
            Some(m) => Some(m.as_str().to_string()),
            None => None,
        },
        Err(_) => None,
    }
}

/// Relies on regex::Regex::new, to compile `pattern`, and on
/// regex::Regex::captures_iter, whose matches are counted.
#[verifier::external_body]
pub(crate) fn match_count(pattern: &str, text: &str) -> (r: Option<usize>)
    ensures
        r == regex_match_count(pattern@, text@),
{
    match regex::Regex::new(pattern) {
        Ok(re) => Some(re.captures_iter(text).count()),
        Err(_) => None,
    }
}

} // verus!
