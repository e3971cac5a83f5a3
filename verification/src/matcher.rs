//! Pattern compilation and matching over candidate addresses.  A pattern is
//! compiled once, at startup, under fixed options: matching is
//! case-insensitive, unescaped whitespace in the pattern is ignored, `.`
//! never crosses line breaks, and the engine is Unicode-aware.

use vstd::prelude::*;

verus! {

/// Whether the matching engine accepts `pattern` under this library's fixed
/// compilation options; a function of the pattern text alone.
pub uninterp spec fn regex_valid(pattern: Seq<char>) -> bool;

/// Whether `pattern`, compiled under the fixed options, matches anywhere in
/// `text`; a function of the two texts alone.
pub uninterp spec fn regex_match(pattern: Seq<char>, text: Seq<char>) -> bool;

#[verifier::external_type_specification]
#[verifier::external_body]
pub struct ExRegex(regex::Regex);

/// A compiled matcher kept beside the pattern text it was compiled from.
/// Only `Pattern::compile` builds one, so the two always belong together.
pub struct Pattern {
    re: regex::Regex,
    source: String,
}

/// Why a pattern was rejected.
#[derive(Clone, Copy, Debug, PartialEq, Eq, Structural)]
pub enum PatternError {
    /// The matching engine does not accept the pattern text.
    InvalidPattern,
}

/// Relies on regex's `RegexBuilder`: whether a pattern compiles under the
/// fixed options (case-insensitive, whitespace-insensitive, single-line,
/// Unicode) is a function of the pattern text alone.
#[verifier::external_body]
fn build_matcher(pattern: &str) -> (r: Option<Pattern>)
    ensures
        r is Some <==> regex_valid(pattern@),
        r matches Some(p) ==> p.source_view() == pattern@,
{
    let built = regex::RegexBuilder::new(pattern)
        .case_insensitive(true)
        .multi_line(false)
        .dot_matches_new_line(false)
        .ignore_whitespace(true)
        .unicode(true)
        .build();
    match built {
        Ok(re) => Some(Pattern { re, source: pattern.to_owned() }),
        Err(_) => None,
    }
}

/// Relies on regex's `Regex::is_match`, and on `Pattern` being built only
/// by `build_matcher`, so the stored matcher was compiled from exactly the
/// stored source text: the match verdict is a function of pattern text and
/// haystack alone.
#[verifier::external_body]
fn run_match(p: &Pattern, text: &str) -> (r: bool)
    ensures
        r == regex_match(p.source_view(), text@),
{
    p.re.is_match(text)
}

impl Pattern {
    /// The pattern text this matcher was compiled from.
    pub closed spec fn source_view(self) -> Seq<char> {
        self.source@
    }

    /// Compiles a pattern under the engine's fixed options.  Succeeds
    /// exactly on the patterns the matching engine accepts; an invalid
    /// pattern is a fatal configuration error at startup, never a
    /// per-attempt condition.
    pub fn compile(pattern: &str) -> (r: Result<Pattern, PatternError>)
        ensures
            r is Ok <==> regex_valid(pattern@),
            r matches Ok(p) ==> p.source_view() == pattern@,
            r matches Err(e) ==> e == PatternError::InvalidPattern,
    {
        match build_matcher(pattern) {
            Some(p) => Ok(p),
            None => Err(PatternError::InvalidPattern),
        }
    }

    /// Whether the pattern matches anywhere within `text`; it is not
    /// anchored unless the pattern anchors itself.
    pub fn is_match(&self, text: &str) -> (r: bool)
        ensures
            r == regex_match(self.source_view(), text@),
    {
        run_match(self, text)
    }
}

} // verus!
