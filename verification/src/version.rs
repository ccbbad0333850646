//! Semantic versions, read and ordered by the `semver` crate.
//!
//! A version is kept as its text.  Whether a text is a version, and which of
//! two versions comes first, is decided by `semver`; the two spec functions
//! below stand for its answers.

use std::cmp::Ordering;
use vstd::prelude::*;

verus! {

/// Whether `text` is a semantic version, `MAJOR.MINOR.PATCH[-pre][+build]`:
/// whether `semver::Version::parse` accepts it.
pub uninterp spec fn is_semver(text: Seq<char>) -> bool;

/// The precedence of the version written `a` against the version written
/// `b`, as `semver::Version::cmp_precedence` finds it: negative where `a`
/// comes first, zero where neither does, positive where `b` comes first.
/// Build metadata plays no part in it.
pub uninterp spec fn precedence(a: Seq<char>, b: Seq<char>) -> int;

/// Reads `text` as a semantic version and writes it back in canonical form.
///
/// Trusted: `semver::Version::parse` followed by the version's `Display`.
/// The result is `None` exactly where the parser rejects the text.  The
/// parser takes the whole text, numbers without leading zeros and no empty
/// part, and `Display` writes each part as it was read, so the canonical form
/// is the text itself.
#[verifier::external_body]
pub(crate) fn canonical_version(text: &str) -> (r: Option<String>)
    ensures
        r is Some <==> is_semver(text@),
        r matches Some(canonical) ==> canonical@ == text@,
{
    match semver::Version::parse(text) {
        Ok(version) => Some(version.to_string()),
        Err(_) => None,
    }
}

/// Compares two versions, given as text, by precedence.
///
/// Trusted: `semver::Version::cmp_precedence` on the two parsed texts.  The
/// result is `None` where either text is no version, else -1, 0 or 1 for
/// `Less`, `Equal` and `Greater`.
#[verifier::external_body]
pub(crate) fn compare_versions(a: &str, b: &str) -> (r: Option<i8>)
    ensures
        r is Some <==> (is_semver(a@) && is_semver(b@)),
        r matches Some(order) ==> order == precedence(a@, b@),
{
    match (semver::Version::parse(a), semver::Version::parse(b)) {
        (Ok(x), Ok(y)) => Some(
            match x.cmp_precedence(&y) {
                Ordering::Less => -1,
                Ordering::Equal => 0,
                Ordering::Greater => 1,
            },
        ),
        _ => None,
    }
}

/// Whether a tag is still to be built, given how the built version compares
/// with the tag's version: yes where the two could not be compared, and where
/// the built version comes first.
pub fn outdated(comparison: Option<i8>) -> (needed: bool)
    ensures
        needed == (comparison matches Some(order) ==> order < 0),
{
    match comparison {
        Some(order) => order < 0,
        None => true,
    }
}

} // verus!
