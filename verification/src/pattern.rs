//! The name matcher: a compiled glob when the user pattern holds a
//! wildcard, a case-insensitive substring search otherwise.

use vstd::prelude::*;
use crate::strutil::{contains_char, spec_contains_char};

verus! {

/// Whether the glob crate accepts `pattern`; `glob::Pattern::new` decides
/// this from the pattern text alone.
pub uninterp spec fn glob_ok(pattern: Seq<char>) -> bool;

/// Whether a compiled glob built from `pattern` matches `name`; the glob
/// crate decides this from the two texts alone.  Where the pattern does not
/// compile the value is `false`.
pub uninterp spec fn glob_match(pattern: Seq<char>, name: Seq<char>) -> bool;

/// The Unicode lowercasing of `s`; `str::to_lowercase` computes it from
/// the characters alone.
pub uninterp spec fn lower_of(s: Seq<char>) -> Seq<char>;

/// `needle` occurs contiguously inside `hay`.
pub open spec fn spec_contains_seq(hay: Seq<char>, needle: Seq<char>) -> bool {
    exists|i: int| 0 <= i && i + needle.len() <= hay.len()
        && #[trigger] hay.subrange(i, i + needle.len() as int) == needle
}

/// Relies on `glob::Pattern::new`: whether the pattern text compiles,
/// which depends on the text alone.
#[verifier::external_body]
fn glob_pattern_ok(pattern: &str) -> (r: bool)
    ensures
        r == glob_ok(pattern@),
{
    glob::Pattern::new(pattern).is_ok()
}

/// Relies on `glob::Pattern::new` and `glob::Pattern::matches`: whether a
/// glob compiled from `pattern` matches `name`.  Both are functions of the
/// texts alone; a pattern that does not compile matches nothing.
#[verifier::external_body]
fn glob_pattern_matches(pattern: &str, name: &str) -> (r: bool)
    ensures
        r == glob_match(pattern@, name@),
{
    match glob::Pattern::new(pattern) {
        Ok(p) => p.matches(name),
        Err(_) => false,
    }
}

/// Relies on `str::to_lowercase`: the result depends on the characters
/// alone, and an empty string stays empty.
#[verifier::external_body]
fn to_lowercase(s: &str) -> (r: String)
    ensures
        r@ == lower_of(s@),
        s@.len() == 0 ==> r@.len() == 0,
{
    s.to_lowercase()
}

/// Relies on `memchr::memmem::FinderBuilder::build_forward` and
/// `memchr::memmem::Finder::find`: a forward search for the first
/// occurrence of `needle`'s bytes inside `hay`'s bytes, `Some` exactly on
/// an occurrence.  Because both strings are valid UTF-8 and UTF-8 is
/// self-synchronizing, a byte-level occurrence is a character-level one.
#[verifier::external_body]
fn substring_search(hay: &str, needle: &str) -> (r: bool)
    ensures
        r == spec_contains_seq(hay@, needle@),
{
    memchr::memmem::FinderBuilder::new()
        .build_forward(needle.as_bytes())
        .find(hay.as_bytes())
        .is_some()
}

/// `pattern` holds a glob metacharacter, so the glob engine handles it.
pub open spec fn spec_has_wildcard(pattern: Seq<char>) -> bool {
    spec_contains_char(pattern, '*') || spec_contains_char(pattern, '?')
}

/// The two ways a user pattern is matched against a basename.
pub enum PatternMatcher {
    /// The pattern text of a glob that is known to compile.
    Glob { pattern: String },
    /// An already-lowercased pattern, sought as a substring of the
    /// lowercased basename.
    Substring { pattern: String },
}

impl PatternMatcher {
    /// A glob matcher only ever holds a pattern that compiles.
    pub open spec fn wf(self) -> bool {
        match self {
            PatternMatcher::Glob { pattern } => glob_ok(pattern@),
            PatternMatcher::Substring { pattern: _ } => true,
        }
    }

    /// What `matches` decides for a basename.
    pub open spec fn spec_matches(self, name: Seq<char>) -> bool {
        match self {
            PatternMatcher::Glob { pattern } => glob_match(pattern@, name),
            PatternMatcher::Substring { pattern } => spec_contains_seq(lower_of(name), pattern@),
        }
    }

    /// Check one basename against the pattern.
    pub fn matches(&self, filename: &str) -> (r: bool)
        requires
            self.wf(),
        ensures
            r == self.spec_matches(filename@),
    {
        match self {
            PatternMatcher::Glob { pattern } => glob_pattern_matches(pattern.as_str(), filename),
            PatternMatcher::Substring { pattern } => {
                let filename_lower = to_lowercase(filename);
                substring_search(filename_lower.as_str(), pattern.as_str())
            },
        }
    }
}

/// Build the matcher for a user pattern: the glob engine when the pattern
/// holds `*` or `?`, the lowercased substring search otherwise.  Fails
/// exactly when a wildcard pattern does not compile as a glob.
pub fn create_pattern_matcher(pattern: &str) -> (r: Result<PatternMatcher, String>)
    ensures
        match r {
            Ok(m) => m.wf() && if spec_has_wildcard(pattern@) {
                m matches PatternMatcher::Glob { pattern: p } && p@ == pattern@
            } else {
                m matches PatternMatcher::Substring { pattern: p } && p@ == lower_of(pattern@)
            },
            Err(_) => spec_has_wildcard(pattern@) && !glob_ok(pattern@),
        },
{
    if contains_char(pattern, '*') || contains_char(pattern, '?') {
        if glob_pattern_ok(pattern) {
            Ok(PatternMatcher::Glob { pattern: pattern.to_owned() })
        } else {
            Err("Invalid glob pattern".to_owned())
        }
    } else {
        Ok(PatternMatcher::Substring { pattern: to_lowercase(pattern) })
    }
}

} // verus!
