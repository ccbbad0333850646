//! Repositories: how one is resolved against the defaults, which tags it
//! accepts, and which of the remote tags it reports.

use vstd::prelude::*;
use crate::bin_list::{tag_comes_after, tag_needed, BinList};
use crate::config::{Defaults, DefaultsModel};
use crate::pattern::{regex_matches, TagPattern};
use crate::version::is_semver;
use crate::tags::{find_new_tags, lemma_nothing_new, new_tags, RemoteTag};
use crate::util::{file_name, is_resolution, optional_join, path_file_name};

verus! {

/// The source text of an optional pattern.
pub open spec fn pattern_text(pattern: Option<TagPattern>) -> Option<Seq<char>> {
    match pattern {
        Some(p) => Some(p@),
        None => None,
    }
}

/// The versions of an optional catalog.
pub open spec fn catalog_view(catalog: Option<BinList>) -> Option<Map<Seq<char>, Seq<char>>> {
    match catalog {
        Some(list) => Some(list@),
        None => None,
    }
}

/// `value` where there is one, else `fallback`.
pub open spec fn or_default<A>(value: Option<A>, fallback: A) -> A {
    match value {
        Some(v) => v,
        None => fallback,
    }
}

/// `value` where there is one, else `fallback`.
pub open spec fn or_else<A>(value: Option<A>, fallback: Option<A>) -> Option<A> {
    match value {
        Some(v) => Some(v),
        None => fallback,
    }
}

/// The first `n` items of `s`, or all of `s` where it has no more than `n`.
pub open spec fn first_n<A>(s: Seq<A>, n: nat) -> Seq<A> {
    if n < s.len() {
        s.take(n as int)
    } else {
        s
    }
}

/// A repository as the configuration writes it: what it does not say is
/// taken from the defaults.
#[derive(Clone, Debug)]
pub struct RepoSerDe {
    /// The local path, absolute or relative to the directory of repositories.
    pub path: String,
    /// The name of the remote.
    pub remote: Option<String>,
    /// The greatest number of tags to report.
    pub max_tags: Option<usize>,
    /// The name of the package in the catalog of built versions.
    pub bin_package_name: Option<String>,
    /// The name to show in reports.
    pub display_name: Option<String>,
    /// The pattern that a tag has to match.
    pub tags_format_re: Option<TagPattern>,
    /// The pattern that a tag must not match.
    pub ignore_tags_re: Option<TagPattern>,
}

/// A repository of the configuration as plain values.
pub struct OverrideModel {
    pub path: Seq<char>,
    pub remote: Option<Seq<char>>,
    pub max_tags: Option<usize>,
    pub bin_package_name: Option<Seq<char>>,
    pub display_name: Option<Seq<char>>,
    pub accept: Option<Seq<char>>,
    pub ignore: Option<Seq<char>>,
}

impl View for RepoSerDe {
    type V = OverrideModel;

    open spec fn view(&self) -> OverrideModel {
        OverrideModel {
            path: self.path@,
            remote: self.remote.deep_view(),
            max_tags: self.max_tags,
            bin_package_name: self.bin_package_name.deep_view(),
            display_name: self.display_name.deep_view(),
            accept: pattern_text(self.tags_format_re),
            ignore: pattern_text(self.ignore_tags_re),
        }
    }
}

/// A resolved repository as plain values.
pub struct RepoModel {
    pub path: Seq<char>,
    pub remote: Seq<char>,
    pub max_tags: usize,
    pub bin_package_name: Option<Seq<char>>,
    pub display_name: Option<Seq<char>>,
    pub accept: Option<Seq<char>>,
    pub ignore: Option<Seq<char>>,
}

/// The repository at `path` that `over` describes under `defaults`: each
/// value that `over` leaves out is the default, the two patterns each on
/// their own.
pub open spec fn merged(
    over: OverrideModel,
    defaults: DefaultsModel,
    path: Seq<char>,
) -> RepoModel {
    RepoModel {
        path,
        remote: or_default(over.remote, defaults.remote),
        max_tags: or_default(over.max_tags, defaults.max_tags),
        bin_package_name: over.bin_package_name,
        display_name: over.display_name,
        accept: or_else(over.accept, defaults.accept),
        ignore: or_else(over.ignore, defaults.ignore),
    }
}

/// Whether `repo` can be what `over` resolves to under `defaults`: its path
/// is a resolution of the path of `over` against the directory of
/// repositories, and the rest is merged.
pub open spec fn is_repo_of(over: OverrideModel, defaults: DefaultsModel, repo: RepoModel) -> bool {
    &&& is_resolution(over.path, defaults.repos_dir, repo.path)
    &&& repo == merged(over, defaults, repo.path)
}

/// The name that a path gives to a repository: its final segment, or the
/// whole path where it has none.
pub open spec fn path_name(path: Seq<char>) -> Seq<char> {
    or_default(path_file_name(path), path)
}

/// The name of the package of `repo` in the catalog of built versions.
pub open spec fn package_name(repo: RepoModel) -> Seq<char> {
    or_default(repo.bin_package_name, path_name(repo.path))
}

/// The name of `repo` in reports.
pub open spec fn shown_name(repo: RepoModel) -> Seq<char> {
    or_default(repo.display_name, path_name(repo.path))
}

/// Whether a tag passes, given what the two patterns found: `Some(true)`
/// where a pattern is set and matches, `Some(false)` where it is set and does
/// not, `None` where it is not set.
pub open spec fn passes(accept: Option<bool>, ignore: Option<bool>) -> bool {
    or_default(accept, true) && !or_default(ignore, false)
}

/// What a pattern finds in a tag, where the pattern is set.
pub open spec fn finding(pattern: Option<Seq<char>>, tag: Seq<char>) -> Option<bool> {
    match pattern {
        Some(p) => Some(regex_matches(p, tag)),
        None => None,
    }
}

/// Whether `repo` accepts `tag`: the tag matches the pattern to accept, if
/// one is set, and does not match the pattern to ignore, if one is set.
pub open spec fn accepts(repo: RepoModel, tag: Seq<char>) -> bool {
    passes(finding(repo.accept, tag), finding(repo.ignore, tag))
}

/// The version built of `package`, where there is a catalog and it holds
/// one.
pub open spec fn built_of(catalog: Option<Map<Seq<char>, Seq<char>>>, package: Seq<char>) -> Option<
    Seq<char>,
> {
    match catalog {
        Some(built) => if built.contains_key(package) {
            Some(built[package])
        } else {
            None
        },
        None => None,
    }
}

/// Whether `repo` reports `tag`: it accepts the tag, and, where there is a
/// catalog, the tag is not built yet.
pub open spec fn keeps(
    repo: RepoModel,
    catalog: Option<Map<Seq<char>, Seq<char>>>,
    tag: Seq<char>,
) -> bool {
    accepts(repo, tag) && (catalog matches Some(built) ==> tag_needed(
        built,
        package_name(repo),
        tag,
    ))
}

/// The tags, of those in `candidates`, that `repo` reports, before the limit
/// on their number is applied.
pub open spec fn kept_tags(
    repo: RepoModel,
    catalog: Option<Map<Seq<char>, Seq<char>>>,
    candidates: Seq<Seq<char>>,
) -> Seq<Seq<char>> {
    candidates.filter(|tag: Seq<char>| keeps(repo, catalog, tag))
}

/// The tags that `repo` reports for a remote and a local listing: the new
/// tags that it keeps, in the order of the remote listing, and no more of
/// them than its limit.
pub open spec fn resolved_tags(
    repo: RepoModel,
    catalog: Option<Map<Seq<char>, Seq<char>>>,
    remote: Seq<(Seq<char>, Seq<char>)>,
    local: Seq<Seq<char>>,
) -> Seq<Seq<char>> {
    first_n(kept_tags(repo, catalog, new_tags(remote, local)), repo.max_tags as nat)
}

/// Decides whether a tag passes from what the two patterns found.
pub fn tag_passes(accept: Option<bool>, ignore: Option<bool>) -> (b: bool)
    ensures
        b == passes(accept, ignore),
{
    let accepted = match accept {
        Some(found) => found,
        None => true,
    };
    let ignored = match ignore {
        Some(found) => found,
        None => false,
    };
    accepted && !ignored
}

/// What an optional pattern finds in a tag.
fn find_in(pattern: &Option<TagPattern>, tag: &str) -> (r: Option<bool>)
    ensures
        r == finding(pattern_text(*pattern), tag@),
{
    match pattern {
        Some(p) => Some(p.is_match(tag)),
        None => None,
    }
}

/// A copy of an optional string.
fn copy_text(text: &Option<String>) -> (r: Option<String>)
    ensures
        r.deep_view() == text.deep_view(),
{
    match text {
        Some(s) => Some(s.clone()),
        None => None,
    }
}

/// A copy of the first pattern, or of the second where there is no first.
fn copy_pattern(first: &Option<TagPattern>, second: &Option<TagPattern>) -> (r: Option<
    TagPattern,
>)
    ensures
        pattern_text(r) == or_else(pattern_text(*first), pattern_text(*second)),
{
    match first {
        Some(p) => Some(p.clone()),
        None => match second {
            Some(p) => Some(p.clone()),
            None => None,
        },
    }
}

impl RepoSerDe {
    /// Resolves the repository against the defaults.
    ///
    /// A relative path starts from the directory of repositories where the
    /// defaults name one, and from the home directory otherwise.
    pub fn to_repo(&self, defaults: &Defaults) -> (repo: Repo)
        ensures
            is_repo_of(self@, defaults@, repo@),
    {
        Repo {
            path: optional_join(self.path.as_str(), &defaults.repos_dir),
            remote: match &self.remote {
                Some(remote) => remote.clone(),
                None => defaults.remote.clone(),
            },
            max_tags: match self.max_tags {
                Some(n) => n,
                None => defaults.max_tags,
            },
            bin_package_name: copy_text(&self.bin_package_name),
            display_name: copy_text(&self.display_name),
            tags_format_re: copy_pattern(&self.tags_format_re, &defaults.tags_format_re),
            ignore_tags_re: copy_pattern(&self.ignore_tags_re, &defaults.ignore_tags_re),
        }
    }
}

/// A repository, resolved.
#[derive(Debug)]
pub struct Repo {
    /// The local path.
    pub path: String,
    /// The name of the remote.
    pub remote: String,
    /// The greatest number of tags to report.
    pub max_tags: usize,
    /// The name of the package in the catalog of built versions, where it is
    /// not the name that the path gives.
    pub bin_package_name: Option<String>,
    /// The name to show in reports, where it is not the name that the path
    /// gives.
    pub display_name: Option<String>,
    /// The pattern that a tag has to match.
    pub tags_format_re: Option<TagPattern>,
    /// The pattern that a tag must not match.
    pub ignore_tags_re: Option<TagPattern>,
}

impl View for Repo {
    type V = RepoModel;

    open spec fn view(&self) -> RepoModel {
        RepoModel {
            path: self.path@,
            remote: self.remote@,
            max_tags: self.max_tags,
            bin_package_name: self.bin_package_name.deep_view(),
            display_name: self.display_name.deep_view(),
            accept: pattern_text(self.tags_format_re),
            ignore: pattern_text(self.ignore_tags_re),
        }
    }
}

impl Repo {
    /// Whether the repository accepts `tag`.
    pub fn accept_tag(&self, tag: &str) -> (b: bool)
        ensures
            b == accepts(self@, tag@),
    {
        let accept = find_in(&self.tags_format_re, tag);
        let ignore = find_in(&self.ignore_tags_re, tag);
        tag_passes(accept, ignore)
    }

    /// The name that the path gives to the repository.
    fn name(&self) -> (name: String)
        ensures
            name@ == path_name(self@.path),
    {
        match file_name(self.path.as_str()) {
            Some(name) => name,
            None => self.path.clone(),
        }
    }

    /// The name of the package in the catalog of built versions.
    pub fn bin_package_name(&self) -> (name: String)
        ensures
            name@ == package_name(self@),
    {
        match &self.bin_package_name {
            Some(name) => name.clone(),
            None => self.name(),
        }
    }

    /// The name to show in reports.
    pub fn display_name(&self) -> (name: String)
        ensures
            name@ == shown_name(self@),
    {
        match &self.display_name {
            Some(name) => name.clone(),
            None => self.name(),
        }
    }

    /// Whether the repository reports `tag`.
    pub fn filter_tag(&self, bin_list: &Option<BinList>, tag: &str) -> (b: bool)
        ensures
            b == keeps(self@, catalog_view(*bin_list), tag@),
    {
        if self.accept_tag(tag) {
            match bin_list {
                Some(list) => {
                    let package = self.bin_package_name();
                    list.need_tag(package.as_str(), tag)
                },
                None => true,
            }
        } else {
            false
        }
    }

    /// The tags, of those in `candidates`, that the repository reports: the
    /// ones it keeps, in their order, and no more of them than its limit.
    pub fn select_tags(&self, bin_list: &Option<BinList>, candidates: &Vec<String>) -> (tags: Vec<
        String,
    >)
        ensures
            tags.deep_view() == first_n(
                kept_tags(self@, catalog_view(*bin_list), candidates.deep_view()),
                self@.max_tags as nat,
            ),
    {
        let ghost all = candidates.deep_view();
        let ghost keep = |tag: Seq<char>| keeps(self@, catalog_view(*bin_list), tag);
        let built: Option<String> = match bin_list {
            Some(list) => list.built_version(self.bin_package_name().as_str()),
            None => None,
        };
        let mut tags: Vec<String> = Vec::new();
        let mut i: usize = 0;
        while i < candidates.len() && tags.len() < self.max_tags
            invariant
                i <= candidates.len(),
                all == candidates.deep_view(),
                keep == |tag: Seq<char>| keeps(self@, catalog_view(*bin_list), tag),
                built.deep_view() == built_of(catalog_view(*bin_list), package_name(self@)),
                built matches Some(version) ==> is_semver(version@),
                tags.deep_view() == all.take(i as int).filter(keep),
                tags.len() <= self.max_tags,
            decreases candidates.len() - i,
        {
            proof {
                Seq::lemma_take_succ(all, i as int);
                assert(all.take(i as int) + seq![all[i as int]] == all.take(i as int).push(
                    all[i as int],
                ));
                all.take(i as int).lemma_filter_push(all[i as int], keep);
            }
            let ghost before = tags.deep_view();
            let tag = candidates[i].as_str();
            let kept = self.accept_tag(tag) && match &built {
                Some(version) => tag_comes_after(version.as_str(), tag),
                None => true,
            };
            if kept {
                tags.push(candidates[i].clone());
                assert(tags.deep_view() == before.push(all[i as int]));
            }
            i += 1;
        }
        proof {
            all.take(i as int).lemma_filter_monotone(all, keep);
            all.lemma_filter_len(keep);
            if i == candidates.len() {
                assert(all.take(i as int) == all);
            }
        }
        tags
    }

    /// The tags that the repository reports, given the tags that the remote
    /// advertises and the object ids of the tags that are known locally.
    pub fn get_tags(
        &self,
        bin_list: &Option<BinList>,
        remote: &Vec<RemoteTag>,
        local: &Vec<String>,
    ) -> (tags: Vec<String>)
        ensures
            tags.deep_view() == resolved_tags(
                self@,
                catalog_view(*bin_list),
                remote.deep_view(),
                local.deep_view(),
            ),
    {
        let candidates = find_new_tags(remote, local);
        self.select_tags(bin_list, &candidates)
    }
}

/// A repository without patterns accepts every tag.
pub proof fn lemma_no_patterns_accept_all(repo: RepoModel, tag: Seq<char>)
    requires
        repo.accept is None,
        repo.ignore is None,
    ensures
        accepts(repo, tag),
{
}

/// With a pattern to accept alone, a tag is accepted exactly where the
/// pattern matches it.
pub proof fn lemma_accept_pattern_alone(repo: RepoModel, tag: Seq<char>)
    requires
        repo.accept is Some,
        repo.ignore is None,
    ensures
        accepts(repo, tag) <==> regex_matches(repo.accept->0, tag),
{
}

/// With a pattern to ignore alone, a tag is accepted exactly where the
/// pattern does not match it.
pub proof fn lemma_ignore_pattern_alone(repo: RepoModel, tag: Seq<char>)
    requires
        repo.accept is None,
        repo.ignore is Some,
    ensures
        accepts(repo, tag) <==> !regex_matches(repo.ignore->0, tag),
{
}

/// A tag that the pattern to ignore matches is not accepted, whatever the
/// pattern to accept finds.
pub proof fn lemma_ignore_wins(repo: RepoModel, tag: Seq<char>)
    requires
        repo.ignore matches Some(p) && regex_matches(p, tag),
    ensures
        !accepts(repo, tag),
{
}

/// The same listings give the same tags: two results for one repository,
/// one catalog and one pair of listings are equal.
pub proof fn lemma_resolution_repeats(
    repo: RepoModel,
    catalog: Option<Map<Seq<char>, Seq<char>>>,
    remote: Seq<(Seq<char>, Seq<char>)>,
    local: Seq<Seq<char>>,
    first: Seq<Seq<char>>,
    second: Seq<Seq<char>>,
)
    requires
        first == resolved_tags(repo, catalog, remote, local),
        second == resolved_tags(repo, catalog, remote, local),
    ensures
        first == second,
{
}

/// Where more tags are kept than the limit allows, the result is the first
/// of them, as many as the limit.
pub proof fn lemma_truncation(
    repo: RepoModel,
    catalog: Option<Map<Seq<char>, Seq<char>>>,
    remote: Seq<(Seq<char>, Seq<char>)>,
    local: Seq<Seq<char>>,
)
    requires
        repo.max_tags < kept_tags(repo, catalog, new_tags(remote, local)).len(),
    ensures
        resolved_tags(repo, catalog, remote, local).len() == repo.max_tags,
        resolved_tags(repo, catalog, remote, local) == kept_tags(
            repo,
            catalog,
            new_tags(remote, local),
        ).take(repo.max_tags as int),
{
}

/// Where every object id of the remote listing is known locally, nothing is
/// reported, whatever the patterns and the catalog.
pub proof fn lemma_up_to_date(
    repo: RepoModel,
    catalog: Option<Map<Seq<char>, Seq<char>>>,
    remote: Seq<(Seq<char>, Seq<char>)>,
    local: Seq<Seq<char>>,
)
    requires
        forall|i: int| 0 <= i < remote.len() ==> local.contains((#[trigger] remote[i]).0),
    ensures
        resolved_tags(repo, catalog, remote, local) == Seq::<Seq<char>>::empty(),
{
    lemma_nothing_new(remote, local);
    new_tags(remote, local).lemma_filter_len(|tag: Seq<char>| keeps(repo, catalog, tag));
}

} // verus!
