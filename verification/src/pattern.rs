//! Compiled search patterns.
//!
//! A [`Pattern`] pairs a pattern source with the regular expression compiled
//! from it. What compilation accepts and what a match returns are named by
//! two uninterpreted functions of the source text, the case flag and the
//! haystack; every contract above this module speaks of those names.

use vstd::prelude::*;

verus! {

/// Whether the regex crate accepts `src` as a pattern source when compiled
/// with the given case flag.
pub uninterp spec fn regex_valid(src: Seq<char>, case_insensitive: bool) -> bool;

/// Whether the pattern compiled from `src` with the given case flag matches
/// anywhere in `text`.
pub uninterp spec fn regex_match(src: Seq<char>, case_insensitive: bool, text: Seq<char>) -> bool;

#[verifier::external_type_specification]
#[verifier::external_body]
pub struct ExRegex(regex::Regex);

/// A compiled pattern: the source text it was built from, the case flag it
/// was built with, and the compiled regular expression itself.
pub struct Pattern {
    src: String,
    case_insensitive: bool,
    re: regex::Regex,
}

impl Pattern {
    /// The pattern source this value was compiled from.
    pub closed spec fn source(self) -> Seq<char> {
        self.src@
    }

    /// The case flag this value was compiled with.
    pub closed spec fn insensitive(self) -> bool {
        self.case_insensitive
    }

    /// Whether this pattern matches anywhere in `text`.
    pub open spec fn spec_matches(self, text: Seq<char>) -> bool {
        regex_match(self.source(), self.insensitive(), text)
    }

    /// Relies on regex::RegexBuilder::build: success depends on the pattern
    /// source and the builder's flags alone, and the returned value is the
    /// expression compiled from exactly that source with those flags.
    #[verifier::external_body]
    pub fn new(src: &str, case_insensitive: bool) -> (r: Option<Pattern>)
        ensures
            r is Some <==> regex_valid(src@, case_insensitive),
            r is Some ==> r->0.source() == src@ && r->0.insensitive() == case_insensitive,
    {
        match regex::RegexBuilder::new(src).case_insensitive(case_insensitive).build() {
            Ok(re) => Some(Pattern { src: src.to_string(), case_insensitive, re }),
            Err(_) => None,
        }
    }

    /// Relies on regex::Regex::is_match: true if and only if the pattern
    /// matches anywhere in `text`, a function of the pattern source, the
    /// case flag and the text alone.
    #[verifier::external_body]
    pub fn is_match(&self, text: &str) -> (r: bool)
        ensures
            r == regex_match(self.source(), self.insensitive(), text@),
    {
        self.re.is_match(text)
    }
}

} // verus!
