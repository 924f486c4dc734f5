//! Regular expressions, as the `regex` crate matches them.

use regex::Regex;
use vstd::prelude::*;

verus! {

/// What the `regex` crate finds for the pattern `pattern` in `text`: the text
/// of the capture groups named `first` and `second` in the leftmost match,
/// in this order. It is `None` where the pattern does not compile, where it
/// matches nowhere in `text`, and where the match has no group of one of the
/// two names.
pub uninterp spec fn regex_captures(
    pattern: Seq<char>,
    first: Seq<char>,
    second: Seq<char>,
    text: Seq<char>,
) -> Option<(Seq<char>, Seq<char>)>;

/// Compiles `pattern` with `regex::Regex::new`, searches `text` with
/// `Regex::captures`, and reads the groups `first` and `second` of the match
/// with `Captures::name` and `Match::as_str`. The contract gives the outcome
/// its name, `regex_captures`; it claims nothing else of it.
#[verifier::external_body]
pub(crate) fn capture_pair(pattern: &str, first: &str, second: &str, text: &str) -> (found: Option<
    (String, String),
>)
    ensures
        match found {
            Some(pair) => regex_captures(pattern@, first@, second@, text@) == Some(
                (pair.0@, pair.1@),
            ),
            None => regex_captures(pattern@, first@, second@, text@) is None,
        },
{
    let compiled = Regex::new(pattern).ok()?;
    let captures = compiled.captures(text)?;
    let first_text = captures.name(first)?.as_str().to_string();
    let second_text = captures.name(second)?.as_str().to_string();
    Some((first_text, second_text))
}

} // verus!
