//! The pattern matcher: regular expressions of the `regex` crate.
//!
//! A compiled expression is carried around as an opaque value.  What it finds
//! in a text is not modelled here; each answer of the engine has a name, and
//! the contracts of the library speak of those names.  A name stands for what
//! the engine computes from its arguments and from nothing else.

use regex::Regex;
use vstd::prelude::*;
use vstd::string::*;

verus! {

/// Declares `regex::Regex`, a compiled expression, as an opaque type.
#[verifier::external_type_specification]
#[verifier::external_body]
pub struct ExRegex(Regex);

/// Declares `regex::Error`, the reason for which a pattern was refused, as an
/// opaque type.
#[verifier::external_type_specification]
#[verifier::external_body]
pub struct ExRegexError(regex::Error);

/// The expression that `Regex::new` compiles from `pattern`; none where it
/// refuses the pattern.
pub uninterp spec fn regex_compiled(pattern: Seq<char>) -> Option<Regex>;

/// Whether `re` has an occurrence anywhere in `haystack`: the answer of
/// `Regex::is_match`.
pub uninterp spec fn regex_is_match(re: Regex, haystack: Seq<char>) -> bool;

/// `haystack` with every non-overlapping occurrence of `re` replaced by the
/// expansion of `replacement`: the result of `Regex::replace_all`.
pub uninterp spec fn regex_replace_all(
    re: Regex,
    haystack: Seq<char>,
    replacement: Seq<char>,
) -> Seq<char>;

/// The texts of the successive non-overlapping occurrences of `re` in
/// `haystack`, leftmost first: what `Regex::find_iter` yields.
pub uninterp spec fn regex_matches(re: Regex, haystack: Seq<char>) -> Seq<Seq<char>>;

/// Calls `Regex::new`.  Trusted: the result is the one that `regex_compiled`
/// names, an error standing for none.
#[verifier::external_body]
pub(crate) fn regex_new(pattern: &str) -> (compiled: Result<Regex, regex::Error>)
    ensures
        match compiled {
            Ok(re) => regex_compiled(pattern@) == Some(re),
            Err(_) => regex_compiled(pattern@) is None,
        },
{
    Regex::new(pattern)
}

/// Calls `Regex::is_match`.  Trusted: the answer is the one `regex_is_match`
/// names.
#[verifier::external_body]
pub(crate) fn is_match(re: &Regex, haystack: &str) -> (found: bool)
    ensures
        found == regex_is_match(*re, haystack@),
{
    re.is_match(haystack)
}

/// Calls `Regex::replace_all` with a replacement template and takes the
/// result as an owned string.  Trusted: the text is the one that
/// `regex_replace_all` names.
#[verifier::external_body]
pub(crate) fn replace_all(re: &Regex, haystack: &str, replacement: &str) -> (replaced: String)
    ensures
        replaced@ == regex_replace_all(*re, haystack@, replacement@),
{
    re.replace_all(haystack, replacement).into_owned()
}

/// Calls `Regex::find_iter` and copies the text of each occurrence, in the
/// order in which the iterator yields them.  Trusted: the texts are those that
/// `regex_matches` names.
#[verifier::external_body]
pub(crate) fn find_matches(re: &Regex, haystack: &str) -> (found: Vec<String>)
    ensures
        found.deep_view() == regex_matches(*re, haystack@),
{
    re.find_iter(haystack).map(|m| m.as_str().to_string()).collect()
}

/// A pattern that the matcher refused.
#[derive(Debug, PartialEq, Eq)]
pub struct PatternError {
    /// The pattern text as it was given.
    pub pattern: String,
}

/// The text of the diagnostic for a refused pattern.
pub open spec fn pattern_error_message(pattern: Seq<char>) -> Seq<char> {
    "Invalid regex pattern: "@ + pattern
}

impl PatternError {
    /// The one-line diagnostic for this error.
    pub fn message(&self) -> (text: String)
        ensures
            text@ == pattern_error_message(self.pattern@),
    {
        let mut text = String::from_str("Invalid regex pattern: ");
        text.append(self.pattern.as_str());
        text
    }
}

/// Compiles `pattern`.  It succeeds exactly when the matcher accepts the
/// pattern, with the expression the matcher made of it; a refusal carries the
/// pattern text back.
pub fn compile_pattern(pattern: &str) -> (compiled: Result<Regex, PatternError>)
    ensures
        match compiled {
            Ok(re) => regex_compiled(pattern@) == Some(re),
            Err(e) => regex_compiled(pattern@) is None && e.pattern@ == pattern@,
        },
{
    match regex_new(pattern) {
        Ok(re) => Ok(re),
        Err(_) => Err(PatternError { pattern: String::from_str(pattern) }),
    }
}

} // verus!
