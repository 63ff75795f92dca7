//! Compiled name patterns, backed by the `regex` crate.
use vstd::prelude::*;

verus! {

#[verifier::external_type_specification]
#[verifier::external_body]
pub struct ExRegex(regex::Regex);

/// Whether `regex::Regex::new` accepts `source` (valid syntax, within the
/// default size limit).
pub uninterp spec fn regex_compiles(source: Seq<char>) -> bool;

/// Whether the regex compiled from `source` matches anywhere in `haystack`.
pub uninterp spec fn regex_is_match(source: Seq<char>, haystack: Seq<char>) -> bool;

/// For each successive non-overlapping match of the regex compiled from
/// `source` in `haystack`, the text of the capture group named `group`, or
/// `None` where that group took no part in the match.
pub uninterp spec fn regex_named_captures(
    source: Seq<char>,
    group: Seq<char>,
    haystack: Seq<char>,
) -> Seq<Option<Seq<char>>>;

/// A compiled regular expression together with the source it was compiled
/// from. Values are only made by `Pattern::compile`, so `regex` is always the
/// compilation of `source`.
pub struct Pattern {
    source: String,
    regex: regex::Regex,
}

impl View for Pattern {
    type V = Seq<char>;

    closed spec fn view(&self) -> Seq<char> {
        self.source@
    }
}

impl Pattern {
    /// Relies on `regex::Regex::new`: it fails exactly for sources that do
    /// not compile, which depends on the source alone.
    #[verifier::external_body]
    pub(crate) fn compile(source: &str) -> (r: Option<Pattern>)
        ensures
            r.is_some() == regex_compiles(source@),
            r matches Some(p) ==> p@ == source@,
    {
        match regex::Regex::new(source) {
            Ok(regex) => Some(Pattern { source: source.to_string(), regex }),
            Err(_) => None,
        }
    }

    /// Relies on `regex::Regex::is_match`: true if and only if the regex
    /// matches somewhere in `haystack`.
    #[verifier::external_body]
    pub(crate) fn is_match(&self, haystack: &str) -> (r: bool)
        ensures
            r == regex_is_match(self@, haystack@),
    {
        self.regex.is_match(haystack)
    }

    /// Relies on `regex::Regex::captures_iter` with `regex::Captures::name`:
    /// one item per successive match, holding the named group's text if the
    /// group took part in that match.
    #[verifier::external_body]
    pub(crate) fn named_captures(&self, group: &str, haystack: &str) -> (r: Vec<Option<String>>)
        ensures
            r.deep_view() == regex_named_captures(self@, group@, haystack@),
    {
        self.regex.captures_iter(haystack).map(|c| c.name(group).map(|m| m.as_str().to_string())).collect()
    }
}

} // verus!
