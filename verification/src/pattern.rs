//! Compiled text patterns. A `Matcher` pairs a pattern string with the
//! regular expression compiled from it; contracts speak of the pattern
//! string alone, through the names `regex_valid` and `regex_match`.

use vstd::prelude::*;

verus! {

/// Whether `regex::Regex::new` accepts the pattern.
pub uninterp spec fn regex_valid(pattern: Seq<char>) -> bool;

/// Whether the regular expression compiled from `pattern` finds a match
/// anywhere in `text`. The regex engine is deterministic, so this is a
/// function of the two strings alone.
pub uninterp spec fn regex_match(pattern: Seq<char>, text: Seq<char>) -> bool;

#[verifier::external_type_specification]
#[verifier::external_body]
pub struct ExRegex(regex::Regex);

/// A pattern string together with the regular expression compiled from it.
pub struct Matcher {
    source: String,
    compiled: regex::Regex,
}

impl View for Matcher {
    type V = Seq<char>;

    closed spec fn view(&self) -> Seq<char> {
        self.source@
    }
}

impl Matcher {
    /// Relies on regex::Regex::new: it returns `Ok` exactly on the patterns
    /// it accepts, and the regex it returns is compiled from `pattern`.
    #[verifier::external_body]
    pub(crate) fn new(pattern: &str) -> (r: Option<Matcher>)
        ensures
            r is Some <==> regex_valid(pattern@),
            r matches Some(m) ==> m@ == pattern@,
    {
        match regex::Regex::new(pattern) {
            Ok(compiled) => Some(Matcher { source: pattern.to_owned(), compiled }),
            Err(_) => None,
        }
    }

    /// Relies on regex::Regex::is_match: whether a match exists anywhere in
    /// `text` depends only on the pattern the regex was compiled from and on
    /// `text` itself.
    #[verifier::external_body]
    pub(crate) fn is_match(&self, text: &str) -> (r: bool)
        ensures
            r == regex_match(self@, text@),
    {
        self.compiled.is_match(text)
    }

    /// The pattern string this matcher was compiled from.
    pub fn source(&self) -> (r: &str)
        ensures
            r@ == self@,
    {
        self.source.as_str()
    }
}

} // verus!
