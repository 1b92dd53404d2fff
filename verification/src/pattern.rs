//! Patterns that file names and comments are tested against, compiled and
//! matched by the `regex` crate.

use vstd::prelude::*;

verus! {

#[verifier::external_type_specification]
#[verifier::external_body]
pub struct ExRegex(regex::Regex);

#[verifier::external_type_specification]
#[verifier::external_body]
pub struct ExRegexError(regex::Error);

/// What `regex::Regex::new` makes of a pattern: the compiled expression, or
/// none where it refuses the pattern.
pub uninterp spec fn regex_compiled(pattern: Seq<char>) -> Option<regex::Regex>;

/// Whether `regex::Regex::is_match` finds a match of the expression
/// anywhere in the text.
pub uninterp spec fn regex_found(regex: regex::Regex, haystack: Seq<char>) -> bool;

/// `regex::Regex::new`: compiles `pattern`. It gives an expression or an
/// error, and which of them, and which expression, depends on the pattern
/// alone.
#[verifier::external_body]
fn regex_new(pattern: &str) -> (r: Result<regex::Regex, regex::Error>)
    ensures
        match r {
            Ok(regex) => regex_compiled(pattern@) == Some(regex),
            Err(_) => regex_compiled(pattern@) is None,
        },
{
    regex::Regex::new(pattern)
}

/// `regex::Regex::is_match`: whether the expression matches anywhere in
/// `haystack`. The answer depends on the expression and the text alone.
#[verifier::external_body]
fn regex_is_match(regex: &regex::Regex, haystack: &str) -> (found: bool)
    ensures
        found == regex_found(*regex, haystack@),
{
    regex.is_match(haystack)
}

/// `Clone` for `regex::Regex`: the copy is the same expression.
pub assume_specification[ <regex::Regex as Clone>::clone ](regex: &regex::Regex) -> (copy:
    regex::Regex)
    ensures
        copy == *regex,
;

/// A pattern that was refused.
#[derive(Debug, Clone, PartialEq, Eq)]
pub struct InvalidPattern {
    /// The pattern as it was written.
    pub pattern: String,
}

/// A compiled pattern, with the text it was compiled from.
#[derive(Debug)]
pub struct Pattern {
    source: String,
    regex: regex::Regex,
}

impl View for Pattern {
    type V = Seq<char>;

    /// The text of the pattern.
    closed spec fn view(&self) -> Seq<char> {
        self.source@
    }
}

/// Whether `pattern` is one that can be compiled.
pub open spec fn valid_pattern(pattern: Seq<char>) -> bool {
    regex_compiled(pattern) is Some
}

/// Whether the pattern written as `pattern` matches anywhere in `text`.
pub open spec fn pattern_matches(pattern: Seq<char>, text: Seq<char>) -> bool {
    regex_found(regex_compiled(pattern)->Some_0, text)
}

impl Pattern {
    /// The pattern holds what its text compiles to.
    #[verifier::type_invariant]
    spec fn compiled_from_source(self) -> bool {
        regex_compiled(self.source@) == Some(self.regex)
    }

    /// Compiles `source`. A text that is no pattern comes back in the error.
    pub fn new(source: &str) -> (r: Result<Pattern, InvalidPattern>)
        ensures
            match r {
                Ok(p) => valid_pattern(source@) && p@ == source@,
                Err(e) => !valid_pattern(source@) && e.pattern@ == source@,
            },
    {
        match regex_new(source) {
            Ok(regex) => Ok(Pattern { source: source.to_owned(), regex }),
            Err(_) => Err(InvalidPattern { pattern: source.to_owned() }),
        }
    }

    /// The text of the pattern.
    pub fn as_str(&self) -> (s: &str)
        ensures
            s@ == self@,
    {
        self.source.as_str()
    }

    /// Whether the pattern matches anywhere in `text`.
    pub fn test(&self, text: &str) -> (b: bool)
        ensures
            b == pattern_matches(self@, text@),
    {
        proof {
            use_type_invariant(self);
        }
        regex_is_match(&self.regex, text)
    }

    /// A copy of the pattern.
    pub fn copy(&self) -> (c: Pattern)
        ensures
            c@ == self@,
    {
        proof {
            use_type_invariant(self);
        }
        Pattern { source: self.source.clone(), regex: self.regex.clone() }
    }
}

} // verus!
