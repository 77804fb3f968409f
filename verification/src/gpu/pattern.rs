//! GPU name patterns: regular expressions compiled and matched by the
//! `regex` crate.

use vstd::prelude::*;

verus! {

#[verifier::external_type_specification]
#[verifier::external_body]
pub struct ExRegex(regex::Regex);

#[verifier::external_type_specification]
#[verifier::external_body]
pub struct ExRegexError(regex::Error);

/// Whether `regex::Regex::new` accepts `pattern` (it rejects invalid syntax
/// and patterns whose compiled form exceeds its default size limit).
pub uninterp spec fn regex_compiles(pattern: Seq<char>) -> bool;

/// Whether the regular expression `pattern` matches somewhere in `haystack`,
/// as `regex::Regex::is_match` decides it.
pub uninterp spec fn regex_is_match(pattern: Seq<char>, haystack: Seq<char>) -> bool;

/// A compiled regular expression together with the text it was compiled
/// from. Only [`compile`] builds one, so the two always agree.
pub struct NamePattern {
    source: String,
    re: regex::Regex,
}

impl View for NamePattern {
    type V = Seq<char>;

    /// The text the pattern was compiled from.
    closed spec fn view(&self) -> Seq<char> {
        self.source@
    }
}

/// Compiles `pattern` with `regex::Regex::new`. The contract claims that
/// the call succeeds exactly when `regex_compiles` holds of the pattern; the
/// error's details are not described.
#[verifier::external_body]
pub(crate) fn compile(pattern: &str) -> (r: Result<NamePattern, regex::Error>)
    ensures
        r is Ok == regex_compiles(pattern@),
        r matches Ok(p) ==> p@ == pattern@,
{
    match regex::Regex::new(pattern) {
        Ok(re) => Ok(NamePattern { source: pattern.to_owned(), re }),
        Err(e) => Err(e),
    }
}

/// Tests `haystack` with `regex::Regex::is_match` on the compiled pattern.
/// The contract claims the answer is `regex_is_match` of the pattern's
/// source text and the haystack.
#[verifier::external_body]
pub(crate) fn is_match(p: &NamePattern, haystack: &str) -> (b: bool)
    ensures
        b == regex_is_match(p@, haystack@),
{
    p.re.is_match(haystack)
}

} // verus!
