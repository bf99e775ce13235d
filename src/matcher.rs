//! A compiled route expression, kept together with the text it was compiled
//! from.
use vstd::prelude::*;
use regex::Regex;

verus! {

#[verifier::external_type_specification]
#[verifier::external_body]
pub struct ExRegex(Regex);

#[verifier::external_type_specification]
#[verifier::external_body]
pub struct ExRegexError(regex::Error);

/// What the regular expression `source` captures in `text`: `None` where it
/// does not match, else the text of each capture group of the leftmost match
/// (group 0 being the whole match), `None` for a group that took no part.
pub uninterp spec fn regex_captures(source: Seq<char>, text: Seq<char>) -> Option<Seq<Option<Seq<char>>>>;

/// Whether `regex::Regex::new` accepts the expression `source`: it is valid
/// and its compiled form fits the default size limit.
pub uninterp spec fn regex_compiles(source: Seq<char>) -> bool;

/// The view of captured groups as text.
pub open spec fn groups_view(groups: Option<Vec<Option<String>>>) -> Option<Seq<Option<Seq<char>>>> {
    match groups {
        None => None,
        Some(v) => Some(
            v@.map_values(
                |g: Option<String>|
                    match g {
                        Some(s) => Some(s@),
                        None => None,
                    },
            ),
        ),
    }
}

/// A regular expression together with its source text. The only way to build
/// one is `compile`, so the expression is always the one the text describes.
pub struct Matcher {
    source: String,
    regex: Regex,
}

impl Matcher {
    /// The text the expression was compiled from.
    pub closed spec fn source(&self) -> Seq<char> {
        self.source@
    }

    /// Relies on regex::Regex::new: it succeeds or fails on `source` alone,
    /// and on success the regex is compiled from `source`, which is kept
    /// beside it.
    #[verifier::external_body]
    pub(crate) fn compile(source: String) -> (r: Result<Matcher, regex::Error>)
        ensures
            r is Ok == regex_compiles(source@),
            r matches Ok(m) ==> m.source() == source@,
    {
        match Regex::new(&source) {
            Ok(regex) => Ok(Matcher { source, regex }),
            Err(e) => Err(e),
        }
    }

    /// Relies on regex::Regex::captures and Captures::iter: the groups of the
    /// leftmost match of the expression in `text`, as owned strings.
    #[verifier::external_body]
    fn find_captures(&self, text: &str) -> (r: Option<Vec<Option<String>>>)
        ensures
            groups_view(r) == regex_captures(self.source(), text@),
    {
        self.regex.captures(text).map(
            |caps| caps.iter().map(|g| g.map(|m| m.as_str().to_string())).collect(),
        )
    }

    /// The text of each capture group of the leftmost match in `text`, group
    /// 0 being the whole match; `None` where the expression does not match.
    pub fn captures(&self, text: &str) -> (r: Option<Vec<Option<String>>>)
        ensures
            groups_view(r) == regex_captures(self.source(), text@),
    {
        self.find_captures(text)
    }

    /// Whether the expression matches somewhere in `text`.
    pub fn is_match(&self, text: &str) -> (r: bool)
        ensures
            r == regex_captures(self.source(), text@) is Some,
    {
        self.captures(text).is_some()
    }

    /// The text the expression was compiled from.
    pub fn as_str(&self) -> (r: &str)
        ensures
            r@ == self.source(),
    {
        self.source.as_str()
    }
}

} // verus!
