//! The optional path filter, backed by a compiled regular expression.
//!
//! A scan may carry a pattern; paths relative to the scan root are matched
//! against it and non-matching paths are dropped. No pattern means every
//! path passes. Compilation and matching are done by `fancy_regex`, which
//! supports lookaround; the library states both behind named results and
//! proves the filter logic against them.

use vstd::prelude::*;

use crate::errors::ConfigError;

verus! {

#[verifier::external_type_specification]
#[verifier::external_body]
pub struct ExRegex(fancy_regex::Regex);

#[verifier::external_type_specification]
#[verifier::external_body]
pub struct ExRegexError(fancy_regex::Error);

/// The pattern text a compiled regular expression was built from.
pub uninterp spec fn regex_pattern(re: fancy_regex::Regex) -> Seq<char>;

/// Whether a pattern text compiles as a regular expression under the
/// engine's default options: compilation succeeds or fails as a function
/// of the text alone.
pub uninterp spec fn regex_compiles(pattern: Seq<char>) -> bool;

/// What matching a pattern against a text yields: `Some(b)` when the match
/// runs to completion with verdict `b`, `None` when the engine gives up
/// (for example on its backtrack limit). The verdict depends on the pattern
/// and the text alone.
pub uninterp spec fn regex_match(pattern: Seq<char>, text: Seq<char>) -> Option<bool>;

/// Relies on fancy_regex::Regex::new: a successfully compiled regular
/// expression is the one built from exactly the given pattern text, and
/// whether compilation succeeds depends on that text alone.
#[verifier::external_body]
fn regex_new(pattern: &str) -> (r: Result<fancy_regex::Regex, fancy_regex::Error>)
    ensures
        r is Ok <==> regex_compiles(pattern@),
        r is Ok ==> regex_pattern(r->Ok_0) == pattern@,
{
    fancy_regex::Regex::new(pattern)
}

/// Relies on fancy_regex::Regex::is_match: the verdict is a function of the
/// compiled pattern and the text, and an error is reported rather than a
/// verdict when the engine cannot finish. The verdict is pinned for
/// expressions built by `Regex::new` under its default options — the only
/// way this library builds one; a builder with another backtrack limit
/// could answer differently on the same pattern text.
#[verifier::external_body]
fn regex_is_match(re: &fancy_regex::Regex, text: &str) -> (r: Result<bool, fancy_regex::Error>)
    ensures
        r is Ok <==> regex_match(regex_pattern(*re), text@) is Some,
        r is Ok ==> r->Ok_0 == regex_match(regex_pattern(*re), text@)->Some_0,
{
    re.is_match(text)
}

/// The optional path filter of a scan.
pub struct Matcher {
    re: Option<fancy_regex::Regex>,
}

impl View for Matcher {
    type V = Option<Seq<char>>;

    /// A matcher is abstractly the pattern text it filters by, if any.
    closed spec fn view(&self) -> Option<Seq<char>> {
        match self.re {
            Option::None => None,
            Option::Some(re) => Some(regex_pattern(re)),
        }
    }
}

/// The verdict of a matcher on a text: no pattern passes everything, a
/// pattern passes exactly what it matches, and `None` stands for a match
/// the engine could not finish.
pub open spec fn spec_match(pattern: Option<Seq<char>>, text: Seq<char>) -> Option<bool> {
    match pattern {
        Option::None => Some(true),
        Option::Some(p) => regex_match(p, text),
    }
}

/// Law: the absent pattern admits every path, and a present pattern gives
/// exactly the verdict of matching it against the path.
pub proof fn lemma_pattern_filter(pattern: Option<Seq<char>>, text: Seq<char>)
    ensures
        pattern is None ==> spec_match(pattern, text) == Some(true),
        pattern is Some ==> spec_match(pattern, text) == regex_match(pattern->Some_0, text),
{
}

impl Matcher {
    /// Build the filter from an optional pattern text.
    ///
    /// No text yields the pass-everything filter. A text that compiles
    /// yields the filter for exactly that pattern; exactly the texts that
    /// do not compile are a configuration error.
    pub fn compile(pattern: Option<&str>) -> (r: Result<Matcher, ConfigError>)
        ensures
            r is Ok <==> (pattern is None || regex_compiles(pattern->Some_0@)),
            pattern is None ==> r is Ok && r->Ok_0@ is None,
            r is Ok && pattern is Some ==> r->Ok_0@ == Some(pattern->Some_0@),
            r is Err ==> pattern is Some && r->Err_0 == ConfigError::BadPattern,
    {
        match pattern {
            None => Ok(Matcher { re: None }),
            Some(text) => match regex_new(text) {
                Ok(re) => Ok(Matcher { re: Some(re) }),
                Err(_) => Err(ConfigError::BadPattern),
            },
        }
    }

    /// The verdict of this filter on a path.
    ///
    /// `Some(true)`: the path passes; `Some(false)`: the pattern excludes
    /// it; `None`: the engine could not finish the match.
    pub fn matches(&self, text: &str) -> (r: Option<bool>)
        ensures
            r == spec_match(self@, text@),
    {
        match &self.re {
            None => Some(true),
            Some(re) => match regex_is_match(re, text) {
                Ok(b) => Some(b),
                Err(_) => None,
            },
        }
    }
}

} // verus!
