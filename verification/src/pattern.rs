//! Regular expressions, as the regex crate matches them. Nothing in this
//! file is proved: it states what is taken on trust from that crate.

use vstd::prelude::*;
use regex::Regex;

verus! {

/// The regex crate's error for a pattern that it does not compile.
#[verifier::external_type_specification]
#[verifier::external_body]
pub struct ExRegexError(regex::Error);

/// What the regex crate captures of `text` under `pattern`: nothing at all
/// where `Regex::new` turns the pattern down; else the part of the leftmost
/// match that the pattern's first group took, if there is a match and the
/// group took part in it.
pub uninterp spec fn first_capture(pattern: Seq<char>, text: Seq<char>) -> Option<Option<Seq<char>>>;

/// Compiles `pattern` with `Regex::new`, searches `text` with
/// `Regex::captures` and hands out group 1 of what is found. Trusted: the
/// outcome hangs on the two arguments alone.
#[verifier::external_body]
pub(crate) fn capture_first_group(pattern: &str, text: &str) -> (r: Result<
    Option<String>,
    regex::Error,
>)
    ensures
        r is Ok <==> first_capture(pattern@, text@) is Some,
        r matches Ok(Some(found)) ==> first_capture(pattern@, text@) == Some(Some(found@)),
        r matches Ok(None) ==> first_capture(pattern@, text@) == Some(None::<Seq<char>>),
{
    let compiled = Regex::new(pattern)?;
    match compiled.captures(text) {
        None => Ok(None),
        Some(groups) => match groups.get(1) {
            None => Ok(None),
            Some(group) => Ok(Some(group.as_str().to_owned())),
        },
    }
}

} // verus!
