//! Paths, written as text with `/` between their segments.

use std::cmp::Ordering;
use vstd::prelude::*;
use vstd::string::StringExecFns;
use crate::text::{chars_of, push_char};

verus! {

/// Whether `path` starts at the root.
pub open spec fn is_absolute(path: Seq<char>) -> bool {
    path.len() > 0 && path[0] == '/'
}

/// `path` adjoined to `base`: an absolute `path` replaces `base`; otherwise
/// the two are put together, with a `/` between them unless `base` is empty
/// or ends in one.
pub open spec fn joined(base: Seq<char>, path: Seq<char>) -> Seq<char> {
    if is_absolute(path) {
        path
    } else if base.len() > 0 && base.last() != '/' {
        base.push('/') + path
    } else {
        base + path
    }
}

/// Whether `expanded` can be what tilde expansion makes of `path`.  A path
/// that does not begin with `~` is left as it is.  In one that does, the `~`
/// may be replaced by a home directory: what follows the `~` stays.
pub open spec fn is_tilde_expansion(path: Seq<char>, expanded: Seq<char>) -> bool {
    if path.len() > 0 && path[0] == '~' {
        path.skip(1).is_suffix_of(expanded)
    } else {
        expanded == path
    }
}

/// The final segment of `path`, if it has one, as `Path::file_name` of the
/// standard library finds it.
pub uninterp spec fn path_file_name(path: Seq<char>) -> Option<Seq<char>>;

/// How the path `a` stands to the path `b` in the order of paths of the
/// standard library, which compares them segment by segment: negative where
/// `a` comes first, zero where the two are the same path, positive where `b`
/// comes first.
pub uninterp spec fn path_order(a: Seq<char>, b: Seq<char>) -> int;

/// Whether `r` can be the location that `path` resolves to against the
/// optional directory `base`.
pub open spec fn is_resolution(path: Seq<char>, base: Option<Seq<char>>, r: Seq<char>) -> bool {
    match base {
        Some(dir) => r == joined(dir, path),
        None => is_tilde_expansion(path, r),
    }
}

/// Replaces a leading `~` by the home directory of the user.
///
/// Trusted: `shellexpand::tilde`.  The home directory comes from the
/// environment, so the contract states only what holds whatever it is: an
/// input that does not begin with `~` is returned as it is, and otherwise the
/// part after the `~` is kept at the end of the result.
#[verifier::external_body]
pub fn expand_tilde(path: &str) -> (r: String)
    ensures
        is_tilde_expansion(path@, r@),
{
    shellexpand::tilde(path).into_owned()
}

/// The final segment of `path`.
///
/// Trusted: `Path::file_name` of the standard library, which returns the
/// final component of the path, if there is one.
#[verifier::external_body]
pub(crate) fn file_name(path: &str) -> (r: Option<String>)
    ensures
        r.deep_view() == path_file_name(path@),
{
    match std::path::Path::new(path).file_name() {
        Some(name) => Some(name.to_string_lossy().into_owned()),
        None => None,
    }
}

/// Compares two paths.
///
/// Trusted: `Ord::cmp` of the standard library on two `Path`s.  The result is
/// -1, 0 or 1 for `Less`, `Equal` and `Greater`, and the two paths taken the
/// other way round compare the other way, as the trait asks of every order.
#[verifier::external_body]
pub(crate) fn compare_paths(a: &str, b: &str) -> (r: i8)
    ensures
        r == path_order(a@, b@),
        -r == path_order(b@, a@),
{
    match std::path::Path::new(a).cmp(std::path::Path::new(b)) {
        Ordering::Less => -1,
        Ordering::Equal => 0,
        Ordering::Greater => 1,
    }
}

/// Adjoins `path` to `base`.
pub fn join_path(base: &str, path: &str) -> (r: String)
    ensures
        r@ == joined(base@, path@),
{
    let b = chars_of(base);
    let p = chars_of(path);
    if p.len() > 0 && p[0] == '/' {
        return path.to_owned();
    }
    let mut r = base.to_owned();
    if b.len() > 0 && b[b.len() - 1] != '/' {
        push_char(&mut r, '/');
    }
    r.append(path);
    r
}

/// Resolves `path` against `base` where there is one, and against the home
/// directory otherwise.
pub fn optional_join(path: &str, base: &Option<String>) -> (r: String)
    ensures
        is_resolution(path@, base.deep_view(), r@),
{
    match base {
        Some(dir) => join_path(dir.as_str(), path),
        None => expand_tilde(path),
    }
}

/// An absolute path resolves to itself, whatever the directory.
pub proof fn lemma_absolute_path_stays(path: Seq<char>, base: Option<Seq<char>>, r: Seq<char>)
    requires
        is_absolute(path),
    ensures
        is_resolution(path, base, r) <==> r == path,
{
}

/// A relative path resolves to the directory, a `/` and the path, where the
/// directory is given, is not empty and does not end in `/`.
pub proof fn lemma_relative_path_joins(path: Seq<char>, dir: Seq<char>, r: Seq<char>)
    requires
        !is_absolute(path),
        dir.len() > 0,
        dir.last() != '/',
    ensures
        is_resolution(path, Some(dir), r) <==> r == dir + seq!['/'] + path,
{
    assert(dir.push('/') == dir + seq!['/']);
}

/// A relative path without a directory resolves to its tilde expansion: to
/// itself, unless it begins with `~`.
pub proof fn lemma_relative_path_expands(path: Seq<char>, r: Seq<char>)
    requires
        !is_absolute(path),
    ensures
        is_resolution(path, None, r) <==> is_tilde_expansion(path, r),
        !(path.len() > 0 && path[0] == '~') ==> (is_resolution(path, None, r) <==> r == path),
{
}

} // verus!
