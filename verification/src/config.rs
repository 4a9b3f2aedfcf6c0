//! Configuration resolver: turns the raw option values (match pattern,
//! full-match flag, ignore-case flag) into a compiled matcher.

use vstd::prelude::*;
use vstd::string::StringExecFns;

verus! {

/// Failure to build a `MatchSpec`.
#[derive(Debug)]
pub enum ConfigError {
    /// The match pattern is not valid regular-expression syntax; the payload
    /// is the engine's diagnostic, surfaced to the user verbatim.
    InvalidPattern(String),
}

/// The regex type used by the matcher, opaque to verification.
#[verifier::external_type_specification]
#[verifier::external_body]
pub struct ExRegex(regex::Regex);

/// Whether the regex engine accepts `pattern` as a valid pattern when
/// compiled with the given case-insensitivity flag.
pub uninterp spec fn regex_accepts(pattern: Seq<char>, ignore_case: bool) -> bool;

/// A compiled matcher together with the modifiers it was built with:
/// anchoring (full-match) and case sensitivity. Immutable once constructed.
pub struct MatchSpec {
    pub(crate) re: regex::Regex,
    pattern: String,
    full_match: bool,
    ignore_case: bool,
}

impl MatchSpec {
    /// The effective pattern the matcher was compiled from (already anchored
    /// when the full-match modifier is set).
    pub closed spec fn pattern_view(&self) -> Seq<char> {
        self.pattern@
    }

    /// Whether the pattern was anchored to require a full-string match.
    pub closed spec fn is_full_match(&self) -> bool {
        self.full_match
    }

    /// Whether matching is case-insensitive.
    pub closed spec fn is_ignore_case(&self) -> bool {
        self.ignore_case
    }

    /// The effective pattern string.
    pub fn pattern(&self) -> (r: &str)
        ensures
            r@ == self.pattern_view(),
    {
        self.pattern.as_str()
    }

    /// The full-match modifier.
    pub fn full_match(&self) -> (r: bool)
        ensures
            r == self.is_full_match(),
    {
        self.full_match
    }

    /// The ignore-case modifier.
    pub fn ignore_case(&self) -> (r: bool)
        ensures
            r == self.is_ignore_case(),
    {
        self.ignore_case
    }
}

/// `pattern` wrapped in a non-capturing group between a start-of-string and
/// an end-of-string anchor, so that it only matches when it spans the whole
/// subject, even when the pattern holds a top-level alternation.
pub open spec fn anchored(pattern: Seq<char>) -> Seq<char> {
    seq!['^', '(', '?', ':'] + pattern + seq![')', '$']
}

/// The pattern actually handed to the engine: anchored when `full_match` is
/// set, unchanged otherwise.
pub open spec fn effective_pattern(pattern: Seq<char>, full_match: bool) -> Seq<char> {
    if full_match {
        anchored(pattern)
    } else {
        pattern
    }
}

/// Relies on `regex::RegexBuilder`: `new(pattern).case_insensitive(ignore_case)
/// .build()` succeeds exactly when the engine accepts the pattern under that
/// flag (`regex_accepts`); on failure it yields the engine's diagnostic,
/// returned here as a string.
#[verifier::external_body]
fn compile(pattern: &str, full_match: bool, ignore_case: bool) -> (r: Result<MatchSpec, String>)
    ensures
        r is Ok <==> regex_accepts(pattern@, ignore_case),
        r is Ok ==> r->Ok_0.pattern_view() == pattern@,
        r is Ok ==> r->Ok_0.is_full_match() == full_match,
        r is Ok ==> r->Ok_0.is_ignore_case() == ignore_case,
{
    let mut builder = regex::RegexBuilder::new(pattern);
    builder.case_insensitive(ignore_case);
    match builder.build() {
        Ok(re) => Ok(MatchSpec { re, pattern: pattern.to_string(), full_match, ignore_case }),
        Err(err) => Err(err.to_string()),
    }
}

/// Builds the matcher: anchors the pattern when `full_match` is set, then
/// compiles it, case-insensitively when `ignore_case` is set. Fails with
/// `InvalidPattern` exactly when the engine rejects the effective pattern.
pub fn resolve(match_pattern: &str, full_match: bool, ignore_case: bool) -> (r: Result<
    MatchSpec,
    ConfigError,
>)
    ensures
        r is Ok <==> regex_accepts(effective_pattern(match_pattern@, full_match), ignore_case),
        r is Ok ==> r->Ok_0.pattern_view() == effective_pattern(match_pattern@, full_match),
        r is Ok ==> r->Ok_0.is_full_match() == full_match,
        r is Ok ==> r->Ok_0.is_ignore_case() == ignore_case,
        r is Err ==> r->Err_0 is InvalidPattern,
{
    let effective: String = if full_match {
        let s = "^(?:".to_owned().concat(match_pattern).concat(")$");
        proof {
            reveal_strlit("^(?:");
            reveal_strlit(")$");
            assert(s@ =~= anchored(match_pattern@));
        }
        s
    } else {
        match_pattern.to_owned()
    };
    match compile(effective.as_str(), full_match, ignore_case) {
        Ok(spec) => Ok(spec),
        Err(msg) => Err(ConfigError::InvalidPattern(msg)),
    }
}

} // verus!
