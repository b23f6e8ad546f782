//! Regular expressions, matched by the `regex` crate.

use vstd::prelude::*;
use vstd::string::*;

verus! {

#[verifier::external_type_specification]
#[verifier::external_body]
pub struct ExRegex(regex::Regex);

/// Whether `regex::Regex::new` accepts the pattern.
pub uninterp spec fn regex_compiles(pattern: Seq<char>) -> bool;

/// Whether `regex::Regex::is_match` finds a match of the pattern anywhere in
/// the haystack.
pub uninterp spec fn regex_finds(pattern: Seq<char>, haystack: Seq<char>) -> bool;

/// A compiled regular expression, with the text it was compiled from.
pub struct Pattern {
    source: String,
    compiled: regex::Regex,
}

impl View for Pattern {
    type V = Seq<char>;

    closed spec fn view(&self) -> Seq<char> {
        self.source@
    }
}

/// Why a pattern was refused.
#[derive(Debug, PartialEq, Eq, Structural)]
pub enum PatternError {
    Invalid,
}

/// Calls `regex::Regex::new`. Claimed: it succeeds exactly when the pattern
/// compiles (a function of the pattern alone), and the result keeps the
/// pattern's text beside the compiled expression; the crate's error becomes
/// `PatternError::Invalid`.
#[verifier::external_body]
fn compile_regex(pattern: &str) -> (r: Result<Pattern, PatternError>)
    ensures
        r is Ok <==> regex_compiles(pattern@),
        r matches Ok(p) ==> p@ == pattern@,
{
    match regex::Regex::new(pattern) {
        Ok(compiled) => Ok(Pattern { source: pattern.to_string(), compiled }),
        Err(_) => Err(PatternError::Invalid),
    }
}

/// Calls `regex::Regex::is_match` on the compiled expression. Claimed: the
/// answer is whether the pattern matches somewhere in the haystack, a
/// function of the pattern's text and the haystack (a `Pattern` is only
/// made by `compile_regex`, from its own text).
#[verifier::external_body]
fn regex_is_match(p: &Pattern, haystack: &str) -> (r: bool)
    ensures
        r == regex_finds(p@, haystack@),
{
    p.compiled.is_match(haystack)
}

impl Pattern {
    /// Compiles a pattern.
    pub fn new(pattern: &str) -> (r: Result<Pattern, PatternError>)
        ensures
            r is Ok <==> regex_compiles(pattern@),
            r matches Ok(p) ==> p@ == pattern@,
    {
        compile_regex(pattern)
    }

    /// Whether the pattern matches somewhere in `haystack`.
    pub fn is_match(&self, haystack: &str) -> (r: bool)
        ensures
            r == regex_finds(self@, haystack@),
    {
        regex_is_match(self, haystack)
    }
}

} // verus!
