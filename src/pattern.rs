use vstd::prelude::*;
use crate::error::{app_error, AppError};
use vstd::string::StringSliceAdditionalSpecFns;

verus! {

#[verifier::external_type_specification]
#[verifier::external_body]
pub struct ExGlobSet(globset::GlobSet);

#[verifier::external_type_specification]
#[verifier::external_body]
pub struct ExGlobError(globset::Error);

/// The longest pattern, in bytes, that is handed to globset. Far longer than
/// any command line allows.
pub const MAX_PATTERN_LEN: usize = 1048576;

/// The most `{` a pattern handed to globset may hold. globset turns each
/// level of nested alternates into a level of recursion, and its regex stage
/// refuses nesting deeper than a few hundred levels anyway.
pub const MAX_ALTERNATES: usize = 1024;

/// The byte of `{`.
pub const OPEN_BRACE: u8 = 123;

/// The number of `{` among `bytes`.
pub open spec fn open_braces(bytes: Seq<u8>) -> nat
    decreases bytes.len(),
{
    if bytes.len() == 0 {
        0
    } else {
        open_braces(bytes.drop_last()) + if bytes.last() == OPEN_BRACE {
            1nat
        } else {
            0nat
        }
    }
}

/// Whether `pattern` is within the sizes that are handed to globset.
pub open spec fn within_limits(pattern: &str) -> bool {
    pattern.len() <= MAX_PATTERN_LEN && open_braces(pattern.spec_bytes()) <= MAX_ALTERNATES
}

/// Counts the `{` in `pattern`.
fn count_open_braces(pattern: &str) -> (r: usize)
    ensures
        r == open_braces(pattern.spec_bytes()),
{
    let bytes = pattern.as_bytes();
    let mut count: usize = 0;
    let mut i: usize = 0;
    while i < bytes.len()
        invariant
            i <= bytes.len(),
            bytes@ == pattern.spec_bytes(),
            count == open_braces(bytes@.take(i as int)),
            count <= i,
        decreases bytes.len() - i,
    {
        proof {
            assert(bytes@.take(i + 1).drop_last() == bytes@.take(i as int));
        }
        if bytes[i] == OPEN_BRACE {
            count = count + 1;
        }
        i = i + 1;
    }
    proof {
        assert(bytes@.take(bytes.len() as int) == bytes@);
    }
    count
}

/// Whether globset builds a matcher for `pattern`: the glob parses and the
/// regex it compiles to stays within globset's limits.
pub uninterp spec fn glob_accepts(pattern: Seq<char>) -> bool;

/// Whether the path `path` matches the glob `pattern`, as globset decides it
/// on this build target.
pub uninterp spec fn glob_matches(pattern: Seq<char>, path: Seq<char>) -> bool;

/// Relies on globset::Glob::new, which parses the pattern text, and on
/// globset::GlobSetBuilder::build, which compiles the one glob into a set and
/// reports a regex that does not compile as an error. Both decide from the
/// pattern text alone. Within the limits the literal matchers of the set
/// (aho-corasick automata of one literal) always build, and the nesting of
/// alternates, which globset translates by recursion, stays shallow.
/// Backslash is an escape on Unix and a separator on Windows, so the answer
/// is fixed for one build target.
#[verifier::external_body]
fn compile_glob(pattern: &str) -> (r: Result<globset::GlobSet, globset::Error>)
    requires
        within_limits(pattern),
    ensures
        r.is_ok() == glob_accepts(pattern@),
{
    match globset::Glob::new(pattern) {
        Ok(glob) => globset::GlobSetBuilder::new().add(glob).build(),
        Err(e) => Err(e),
    }
}

/// A compiled glob pattern, tested against paths relative to the watch root.
pub struct PatternMatcher {
    pattern: String,
    matcher: globset::GlobSet,
}

/// Relies on globset::GlobSet::is_match, which answers from the compiled
/// pattern and the path alone; `m.matcher` is always the set built from the
/// one glob `m.pattern`.
#[verifier::external_body]
fn glob_is_match(m: &PatternMatcher, path: &str) -> (r: bool)
    ensures
        r == glob_matches(m.pattern@, path@),
{
    m.matcher.is_match(path)
}

/// The message of the error for a pattern that does not compile.
pub open spec fn invalid_pattern_message(pattern: Seq<char>) -> Seq<char> {
    "invalid pattern:"@ + pattern
}

impl PatternMatcher {
    /// The pattern text this matcher was compiled from.
    pub closed spec fn pattern_view(&self) -> Seq<char> {
        self.pattern@
    }

    /// Whether this matcher accepts `path`.
    pub open spec fn accepts(&self, path: Seq<char>) -> bool {
        glob_matches(self.pattern_view(), path)
    }

    /// Compiles `pattern`; a malformed glob, or one longer than
    /// `MAX_PATTERN_LEN` bytes or with more than `MAX_ALTERNATES` `{`, is a
    /// configuration error.
    pub fn compile(pattern: &str) -> (r: Result<PatternMatcher, AppError>)
        ensures
            r.is_ok() == (within_limits(pattern) && glob_accepts(pattern@)),
            r matches Ok(m) ==> m.pattern_view() == pattern@,
            r matches Err(e) ==> e.message_view() == invalid_pattern_message(pattern@),
    {
        let compiled = if pattern.len() <= MAX_PATTERN_LEN && count_open_braces(pattern) <= MAX_ALTERNATES {
            match compile_glob(pattern) {
                Ok(matcher) => Some(matcher),
                Err(_) => None,
            }
        } else {
            None
        };
        match compiled {
            Some(matcher) => Ok(PatternMatcher { pattern: pattern.to_string(), matcher }),
            None => {
                let prefix = String::from_str("invalid pattern:");
                proof {
                    reveal_strlit("invalid pattern:");
                }
                Err(app_error(prefix.concat(pattern)))
            },
        }
    }

    /// The pattern text this matcher was compiled from.
    pub fn pattern(&self) -> (r: &String)
        ensures
            r@ == self.pattern_view(),
    {
        &self.pattern
    }

    /// Whether the root-relative path `path` matches the pattern.
    pub fn matches(&self, path: &str) -> (r: bool)
        ensures
            r == self.accepts(path@),
    {
        glob_is_match(self, path)
    }
}

} // verus!
