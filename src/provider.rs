use crate::capturable::{Capturable, GroupName, GroupText};
use regex::Error as RegexError;
use vstd::prelude::*;

verus! {

#[verifier::external_type_specification]
#[verifier::external_body]
pub struct ExRegex(regex::Regex);

#[verifier::external_type_specification]
#[verifier::external_body]
pub struct ExRegexError(RegexError);

/// Whether the regex engine accepts `pattern`.
pub uninterp spec fn regex_compiles(pattern: Seq<char>) -> bool;

/// The group names that `pattern` declares, in order, the implicit whole-match
/// group first.
pub uninterp spec fn regex_group_names(pattern: Seq<char>) -> Seq<Option<Seq<char>>>;

/// The groups of the left-most first match of `pattern` in `haystack`, or `None`
/// where it matches nowhere.
pub uninterp spec fn regex_first_match(pattern: Seq<char>, haystack: Seq<char>) -> Option<
    Seq<Option<Seq<char>>>,
>;

/// Relies on regex::Regex::new: it compiles the pattern or reports why not,
/// and its outcome depends on the pattern alone.
#[verifier::external_body]
fn compile(pattern: &str) -> (r: Result<regex::Regex, RegexError>)
    ensures
        r.is_ok() == regex_compiles(pattern@),
{
    regex::Regex::new(pattern)
}

/// Relies on regex::Regex::capture_names: the name of each group, unnamed
/// groups as `None`.
#[verifier::external_body]
fn names_of(c: &RegexCapture) -> (r: Vec<GroupName>)
    ensures
        r.deep_view() == regex_group_names(c.pattern@),
{
    c.re.capture_names().map(|n| n.map(|s| s.to_string())).collect()
}

/// Relies on regex::Regex::captures: the first match in the haystack and the
/// text of each group, `None` for a group that took no part in it.
#[verifier::external_body]
fn first_match(c: &RegexCapture, haystack: &str) -> (r: Option<Vec<GroupText>>)
    ensures
        r.deep_view() == regex_first_match(c.pattern@, haystack@),
{
    c.re.captures(haystack).map(|m| m.iter().map(|g| g.map(|g| g.as_str().to_string())).collect())
}

/// A compiled pattern that provides captures. The regex it holds was compiled
/// from `pattern` and from nothing else: `new` is the only way to build one.
pub struct RegexCapture {
    re: regex::Regex,
    pattern: Ghost<Seq<char>>,
}

impl RegexCapture {
    /// The text of the pattern this provider was compiled from.
    pub closed spec fn spec_pattern(&self) -> Seq<char> {
        self.pattern@
    }

    /// Compiles `pattern`; fails exactly when the regex engine refuses it.
    pub fn new(pattern: &str) -> (r: Result<RegexCapture, RegexError>)
        ensures
            r.is_ok() == regex_compiles(pattern@),
            r matches Ok(c) ==> c.spec_pattern() == pattern@,
    {
        match compile(pattern) {
            Ok(re) => Ok(RegexCapture { re, pattern: Ghost(pattern@) }),
            Err(e) => Err(e),
        }
    }
}

/// A provider's captures depend on its pattern alone: two providers compiled
/// from the same pattern capture the same groups from any haystack.
pub proof fn lemma_same_pattern_same_captures(c1: &RegexCapture, c2: &RegexCapture, haystack: Seq<char>)
    requires
        c1.spec_pattern() == c2.spec_pattern(),
    ensures
        c1.spec_captures(haystack) == c2.spec_captures(haystack),
        c1.spec_names() == c2.spec_names(),
{
}

impl Capturable for RegexCapture {
    open spec fn spec_names(&self) -> Seq<Option<Seq<char>>> {
        regex_group_names(self.spec_pattern())
    }

    open spec fn spec_captures(&self, haystack: Seq<char>) -> Option<Seq<Option<Seq<char>>>> {
        regex_first_match(self.spec_pattern(), haystack)
    }

    fn captures(&self, haystack: &str) -> (r: Option<(Vec<GroupName>, Vec<GroupText>)>) {
        match first_match(self, haystack) {
            None => None,
            Some(groups) => Some((names_of(self), groups)),
        }
    }
}

} // verus!
