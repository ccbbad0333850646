//! Regular expressions over tag names, compiled and run by the `regex` crate.
//!
//! A pattern is kept as its source text.  Whether a text is a pattern, and
//! whether a pattern matches a tag, is decided by `regex`; the two spec
//! functions below stand for its answers.

use vstd::prelude::*;

verus! {

/// Whether `pattern` is a regular expression: whether `regex::Regex::new`
/// accepts it.
pub uninterp spec fn is_regex(pattern: Seq<char>) -> bool;

/// Whether the regular expression `pattern` matches somewhere in `text`, as
/// `regex::Regex::is_match` finds it.
pub uninterp spec fn regex_matches(pattern: Seq<char>, text: Seq<char>) -> bool;

/// Tests whether `pattern` compiles.
///
/// Trusted: `regex::Regex::new`, which returns an error for a pattern that is
/// invalid or too large, and a regular expression otherwise.
#[verifier::external_body]
pub(crate) fn regex_compiles(pattern: &str) -> (ok: bool)
    ensures
        ok == is_regex(pattern@),
{
    regex::Regex::new(pattern).is_ok()
}

/// Searches `text` for a match of `pattern`.
///
/// Trusted: `regex::Regex::is_match` on the compiled pattern, which is true
/// if and only if there is a match anywhere in the text.  The result is
/// `None` exactly where the pattern does not compile.
#[verifier::external_body]
pub(crate) fn regex_is_match(pattern: &str, text: &str) -> (r: Option<bool>)
    ensures
        r is Some <==> is_regex(pattern@),
        r matches Some(found) ==> found == regex_matches(pattern@, text@),
{
    match regex::Regex::new(pattern) {
        Ok(compiled) => Some(compiled.is_match(text)),
        Err(_) => None,
    }
}

/// A regular expression that is known to compile.
#[derive(Debug)]
pub struct TagPattern {
    source: String,
}

impl View for TagPattern {
    type V = Seq<char>;

    /// The source text of the pattern.
    closed spec fn view(&self) -> Seq<char> {
        self.source@
    }
}

impl TagPattern {
    #[verifier::type_invariant]
    spec fn compiles(self) -> bool {
        is_regex(self.source@)
    }

    /// The pattern written `source`, or `None` where that is no regular
    /// expression.
    pub fn new(source: &str) -> (r: Option<TagPattern>)
        ensures
            r is Some <==> is_regex(source@),
            r matches Some(pattern) ==> pattern@ == source@,
    {
        if regex_compiles(source) {
            Some(TagPattern { source: source.to_owned() })
        } else {
            None
        }
    }

    /// The source text of the pattern.
    pub fn as_str(&self) -> (s: &str)
        ensures
            s@ == self@,
    {
        self.source.as_str()
    }

    /// Whether the pattern matches somewhere in `text`.
    ///
    /// The pattern is compiled anew on each call.
    pub fn is_match(&self, text: &str) -> (found: bool)
        ensures
            found == regex_matches(self@, text@),
    {
        proof {
            use_type_invariant(self);
        }
        match regex_is_match(self.source.as_str(), text) {
            Some(found) => found,
            None => false,
        }
    }
}

impl Clone for TagPattern {
    fn clone(&self) -> (r: Self)
        ensures
            r@ == self@,
    {
        proof {
            use_type_invariant(self);
        }
        TagPattern { source: self.source.clone() }
    }
}

} // verus!
