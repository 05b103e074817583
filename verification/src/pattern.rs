//! The marker pattern and the compiled matcher that searches canonical text
//! for it.

use regex::Regex;
use vstd::prelude::*;

verus! {

/// `regex::Regex`, a compiled regular expression. Nothing inside it is
/// visible here; it is only carried from `Regex::new` to `Regex::is_match`.
#[verifier::external_type_specification]
#[verifier::external_body]
pub struct ExRegex(regex::Regex);

/// `regex::Error`, the reason `Regex::new` gives for refusing a pattern.
#[verifier::external_type_specification]
#[verifier::external_body]
pub struct ExRegexError(regex::Error);

/// The expression that `regex::Regex::new` builds from `pattern`, or `None`
/// where it refuses the pattern.
pub uninterp spec fn regex_compiled(pattern: Seq<char>) -> Option<Regex>;

/// Whether the expression finds a match anywhere in `haystack`: what
/// `regex::Regex::is_match` returns.
pub uninterp spec fn regex_finds(re: Regex, haystack: Seq<char>) -> bool;

/// The marker pattern: an optional whitespace character, the key
/// `is_malicious`, an optional whitespace character, the key's closing quote,
/// a colon and the literal `true`.
pub open spec fn marker_pattern() -> Seq<char> {
    "\\s?is_malicious\\s?\":true"@
}

/// Whether `text` holds the marker pattern somewhere, at any depth of the
/// document it renders: the search is over flat text, with the expression
/// the engine builds from the marker pattern.
pub open spec fn has_marker(text: Seq<char>) -> bool {
    match regex_compiled(marker_pattern()) {
        Some(re) => regex_finds(re, text),
        None => false,
    }
}

/// `regex::Regex::new`. Whether the pattern is accepted, and the expression
/// built from it, depend on the pattern text alone and are given the name
/// `regex_compiled`. Nothing is claimed about which patterns are accepted.
#[verifier::external_body]
fn compile(pattern: &str) -> (r: Result<Regex, regex::Error>)
    ensures
        r matches Ok(re) ==> regex_compiled(pattern@) == Some(re),
        r is Err ==> regex_compiled(pattern@) is None,
{
    Regex::new(pattern)
}

/// `regex::Regex::is_match`. The answer depends on the expression and on
/// the haystack alone, and is given the name `regex_finds`.
#[verifier::external_body]
fn search(re: &Regex, haystack: &str) -> (r: bool)
    ensures
        r == regex_finds(*re, haystack@),
{
    re.is_match(haystack)
}

/// Why a matcher could not be built.
#[derive(Clone, Copy, Debug, PartialEq, Eq)]
pub enum PatternError {
    /// The regular-expression engine refused the marker pattern.
    Refused,
}

/// The compiled marker pattern. It is built once and then shared, read-only,
/// by every request.
pub struct PatternMatcher {
    re: Regex,
}

impl PatternMatcher {
    #[verifier::type_invariant]
    spec fn holds_marker(self) -> bool {
        regex_compiled(marker_pattern()) == Some(self.re)
    }

    /// The compiled expression the matcher searches with.
    pub closed spec fn expression(&self) -> Regex {
        self.re
    }

    /// Wraps the outcome of compiling the marker pattern: a matcher where
    /// the engine accepted the pattern, the refusal where it did not.
    pub(crate) fn from_compiled(compiled: Result<Regex, regex::Error>) -> (r: Result<
        PatternMatcher,
        PatternError,
    >)
        requires
            compiled matches Ok(re) ==> regex_compiled(marker_pattern()) == Some(re),
        ensures
            match compiled {
                Ok(re) => r matches Ok(matcher) && matcher.expression() == re,
                Err(_) => r == Err::<PatternMatcher, PatternError>(PatternError::Refused),
            },
    {
        match compiled {
            Ok(re) => Ok(PatternMatcher { re }),
            Err(_) => Err(PatternError::Refused),
        }
    }

    /// Compiles the marker pattern. A matcher comes back exactly when the
    /// engine accepts the pattern, and it searches with the expression the
    /// engine built from it; otherwise the refusal comes back.
    pub fn new() -> (r: Result<PatternMatcher, PatternError>)
        ensures
            r is Ok <==> regex_compiled(marker_pattern()) is Some,
            r matches Ok(matcher) ==> Some(matcher.expression()) == regex_compiled(
                marker_pattern(),
            ),
            r matches Err(e) ==> e == PatternError::Refused,
    {
        Self::from_compiled(compile("\\s?is_malicious\\s?\":true"))
    }

    /// Searches `text` for the marker pattern.
    pub fn is_match(&self, text: &str) -> (r: bool)
        ensures
            r == has_marker(text@),
    {
        proof {
            use_type_invariant(self);
        }
        search(&self.re, text)
    }
}

} // verus!
