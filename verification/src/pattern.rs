//! Regular expressions, as far as the tools need them: compile a pattern once,
//! then ask whether it matches a text.

use regex::Regex;
use vstd::prelude::*;

verus! {

/// Trusted: makes `regex::Regex` known to the verifier as an opaque type.
#[verifier::external_type_specification]
#[verifier::external_body]
pub struct ExRegex(regex::Regex);

/// Trusted: makes `regex::Error` known to the verifier as an opaque type.
#[verifier::external_type_specification]
#[verifier::external_body]
pub struct ExRegexError(regex::Error);

/// The pattern text that a compiled expression was built from, which is what
/// `Regex::as_str` hands out.
pub uninterp spec fn pattern_source(re: &Regex) -> Seq<char>;

/// Whether a compiled expression matches anywhere in `haystack`: the answer
/// of `Regex::is_match`.
pub uninterp spec fn pattern_matches(re: &Regex, haystack: Seq<char>) -> bool;

/// Compiles a pattern.
///
/// Trusted: calls `Regex::new`. A compiled expression remembers the text it
/// was built from. Nothing is claimed about which patterns compile: that is
/// no matter of the pattern alone, since a pattern is refused when its
/// compiled form outgrows a limit in bytes, and the size of that form goes
/// by the width of the machine's pointers.
#[verifier::external_body]
pub(crate) fn compile(pattern: &str) -> (res: Result<Regex, regex::Error>)
    ensures
        res matches Ok(re) ==> pattern_source(&re) == pattern@,
{
    Regex::new(pattern)
}

/// The text that describes why a pattern did not compile, which is what
/// `to_string` makes of the error.
pub uninterp spec fn error_message(error: &regex::Error) -> Seq<char>;

/// The text that describes why a pattern did not compile.
///
/// Trusted: calls `to_string` on a `regex::Error`, whose text depends on the
/// error alone.
#[verifier::external_body]
pub(crate) fn error_text(error: &regex::Error) -> (text: String)
    ensures
        text@ == error_message(error),
{
    error.to_string()
}

/// Searches `haystack` for a match.
///
/// Trusted: calls `Regex::is_match`, whose answer depends on the expression
/// and the haystack alone.
#[verifier::external_body]
pub(crate) fn is_match(re: &Regex, haystack: &str) -> (found: bool)
    ensures
        found == pattern_matches(re, haystack@),
{
    re.is_match(haystack)
}

/// The pattern text of a compiled expression.
///
/// Trusted: calls `Regex::as_str`, which returns the text that the
/// expression was compiled from.
#[verifier::external_body]
pub(crate) fn source(re: &Regex) -> (text: &str)
    ensures
        text@ == pattern_source(re),
{
    re.as_str()
}

} // verus!
