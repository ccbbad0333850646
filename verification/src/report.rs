//! The report: one row for each repository that has tags to show, in the
//! order of the repository paths.

use vstd::prelude::*;
use vstd::string::StringExecFns;
use crate::bin_list::BinList;
use crate::repo::{catalog_view, package_name, shown_name, Repo, RepoModel};
use crate::text::push_char;
use crate::util::{compare_paths, path_order};

verus! {

/// The tags of an entry, written in one cell: with a space between each two.
pub open spec fn joined_tags(tags: Seq<Seq<char>>) -> Seq<char>
    decreases tags.len(),
{
    if tags.len() == 0 {
        Seq::empty()
    } else if tags.len() == 1 {
        tags[0]
    } else {
        joined_tags(tags.drop_last()).push(' ') + tags.last()
    }
}

/// The version built of `package`, or the empty text where `catalog` holds
/// none.
pub open spec fn built_text(catalog: Map<Seq<char>, Seq<char>>, package: Seq<char>) -> Seq<char> {
    if catalog.contains_key(package) {
        catalog[package]
    } else {
        Seq::empty()
    }
}

/// The head of the table: the name and the tags, and between them the built
/// version where there is a catalog.
pub open spec fn header_cells(with_built_version: bool) -> Seq<Seq<char>> {
    if with_built_version {
        seq!["Name"@, "Built version"@, "Tags"@]
    } else {
        seq!["Name"@, "Tags"@]
    }
}

/// The row of a repository and its tags.  A repository without tags has no
/// row.
pub open spec fn row_of(
    entry: (RepoModel, Seq<Seq<char>>),
    catalog: Option<Map<Seq<char>, Seq<char>>>,
) -> Option<Seq<Seq<char>>> {
    if entry.1.len() == 0 {
        None
    } else {
        match catalog {
            Some(built) => Some(
                seq![
                    shown_name(entry.0),
                    built_text(built, package_name(entry.0)),
                    joined_tags(entry.1),
                ],
            ),
            None => Some(seq![shown_name(entry.0), joined_tags(entry.1)]),
        }
    }
}

/// The rows of the entries, in their order.
pub open spec fn rows_of(
    entries: Seq<(RepoModel, Seq<Seq<char>>)>,
    catalog: Option<Map<Seq<char>, Seq<char>>>,
) -> Seq<Seq<Seq<char>>> {
    entries.filter_map(|entry: (RepoModel, Seq<Seq<char>>)| row_of(entry, catalog))
}

/// The first position at or after `from` whose path does not come before
/// `path`.
pub open spec fn slot_of(
    entries: Seq<(RepoModel, Seq<Seq<char>>)>,
    path: Seq<char>,
    from: int,
) -> int
    decreases entries.len() - from,
{
    if 0 <= from < entries.len() && path_order(entries[from].0.path, path) < 0 {
        slot_of(entries, path, from + 1)
    } else {
        from
    }
}

/// The entries after the tags of a repository were recorded.  The new entry
/// stands before the first entry whose path does not come before its own.
/// Where that entry has the same path, it stays and takes the new tags.
pub open spec fn recorded(
    entries: Seq<(RepoModel, Seq<Seq<char>>)>,
    entry: (RepoModel, Seq<Seq<char>>),
) -> Seq<(RepoModel, Seq<Seq<char>>)> {
    let at = slot_of(entries, entry.0.path, 0);
    if 0 <= at < entries.len() && path_order(entries[at].0.path, entry.0.path) == 0 {
        entries.update(at, (entries[at].0, entry.1))
    } else {
        entries.insert(at, entry)
    }
}

/// Whether each path comes before the next.
pub open spec fn ordered_by_path(entries: Seq<(RepoModel, Seq<Seq<char>>)>) -> bool {
    forall|i: int|
        0 <= i < entries.len() - 1 ==> path_order(
            (#[trigger] entries[i]).0.path,
            entries[i + 1].0.path,
        ) < 0
}

/// A repository and the tags to report for it.
#[derive(Debug)]
pub struct RepoTags {
    /// The repository.
    pub repo: Repo,
    /// Its tags, in the order to show them in.
    pub tags: Vec<String>,
}

impl DeepView for RepoTags {
    type V = (RepoModel, Seq<Seq<char>>);

    open spec fn deep_view(&self) -> (RepoModel, Seq<Seq<char>>) {
        (self.repo@, self.tags.deep_view())
    }
}

/// The results of all repositories: the tags of those that could be read,
/// kept in the order of their paths, and the names of those that could not.
#[derive(Debug)]
pub struct Report {
    entries: Vec<RepoTags>,
    failed: Vec<String>,
}

impl View for Report {
    type V = Seq<(RepoModel, Seq<Seq<char>>)>;

    /// The repositories with their tags, in order.  The repositories that
    /// could not be read are not among them: see [`Report::failures`].
    closed spec fn view(&self) -> Seq<(RepoModel, Seq<Seq<char>>)> {
        self.entries.deep_view()
    }
}

/// Writes the tags of an entry in one cell.
pub fn join_tags(tags: &Vec<String>) -> (cell: String)
    ensures
        cell@ == joined_tags(tags.deep_view()),
{
    let ghost all = tags.deep_view();
    let mut cell = String::new();
    let mut i: usize = 0;
    while i < tags.len()
        invariant
            i <= tags.len(),
            all == tags.deep_view(),
            cell@ == joined_tags(all.take(i as int)),
        decreases tags.len() - i,
    {
        assert(all.take(i + 1).drop_last() == all.take(i as int));
        if i > 0 {
            push_char(&mut cell, ' ');
        }
        cell.append(tags[i].as_str());
        assert(cell@ == joined_tags(all.take(i + 1))) by {
            if i == 0 {
                assert(all.take(1)[0] == tags@[0]@);
                assert(Seq::<char>::empty() + tags@[0]@ == tags@[0]@);
            }
        }
        i += 1;
    }
    assert(all.take(i as int) == all);
    cell
}

/// The head of the table.
pub fn table_header(with_built_version: bool) -> (cells: Vec<String>)
    ensures
        cells.deep_view() == header_cells(with_built_version),
{
    let mut cells: Vec<String> = Vec::new();
    cells.push("Name".to_owned());
    if with_built_version {
        cells.push("Built version".to_owned());
    }
    cells.push("Tags".to_owned());
    cells
}

/// The row of a repository and its tags, or `None` where it has no tags.
pub fn table_row(repo: &Repo, tags: &Vec<String>, bin_list: &Option<BinList>) -> (row: Option<
    Vec<String>,
>)
    ensures
        row.deep_view() == row_of((repo@, tags.deep_view()), catalog_view(*bin_list)),
{
    if tags.len() == 0 {
        return None;
    }
    let mut cells: Vec<String> = Vec::new();
    cells.push(repo.display_name());
    match bin_list {
        Some(list) => {
            let package = repo.bin_package_name();
            let built = match list.built_version(package.as_str()) {
                Some(version) => version,
                None => String::new(),
            };
            cells.push(built);
        },
        None => {},
    }
    cells.push(join_tags(tags));
    Some(cells)
}

impl Report {
    #[verifier::type_invariant]
    spec fn in_order(self) -> bool {
        ordered_by_path(self.entries.deep_view())
    }

    /// The names of the repositories that could not be read, in the order in
    /// which they were noted.
    pub closed spec fn failures(&self) -> Seq<Seq<char>> {
        self.failed.deep_view()
    }

    /// A report without entries.
    pub fn new() -> (report: Report)
        ensures
            report@ == Seq::<(RepoModel, Seq<Seq<char>>)>::empty(),
            report.failures() == Seq::<Seq<char>>::empty(),
    {
        Report { entries: Vec::new(), failed: Vec::new() }
    }

    /// The number of entries.
    pub fn len(&self) -> (n: usize)
        ensures
            n == self@.len(),
    {
        self.entries.len()
    }

    /// Records the tags of a repository.  The entries stay in the order of
    /// their paths; tags recorded for a path that has an entry replace its
    /// tags.
    pub fn insert(&mut self, repo: Repo, tags: Vec<String>)
        ensures
            final(self)@ == recorded(old(self)@, (repo@, tags.deep_view())),
            final(self).failures() == old(self).failures(),
            ordered_by_path(final(self)@),
    {
        let mut taken = Report::new();
        core::mem::swap(self, &mut taken);
        proof {
            use_type_invariant(&taken);
        }
        let Report { entries: mut entries, failed } = taken;
        let ghost before = entries.deep_view();
        let ghost path = repo.path@;
        let mut at: usize = 0;
        let mut order: i8 = 1;
        while at < entries.len()
            invariant
                at <= entries.len(),
                before == entries.deep_view(),
                path == repo.path@,
                slot_of(before, path, 0) == slot_of(before, path, at as int),
                forall|j: int| 0 <= j < at ==> path_order(before[j].0.path, path) < 0,
            ensures
                at <= entries.len(),
                slot_of(before, path, 0) == at,
                forall|j: int| 0 <= j < at ==> path_order(before[j].0.path, path) < 0,
                at < entries.len() ==> order == path_order(before[at as int].0.path, path)
                    && -order == path_order(path, before[at as int].0.path) && order >= 0,
            decreases entries.len() - at,
        {
            assert(before[at as int].0.path == entries@[at as int].repo.path@);
            let found = compare_paths(entries[at].repo.path.as_str(), repo.path.as_str());
            if found >= 0 {
                order = found;
                break;
            }
            at += 1;
        }
        if at < entries.len() && order == 0 {
            let RepoTags { repo: kept, tags: _ } = entries.remove(at);
            assert(kept@ == before[at as int].0);
            entries.insert(at, RepoTags { repo: kept, tags });
            assert(entries.deep_view() == before.update(
                at as int,
                (before[at as int].0, tags.deep_view()),
            ));
        } else {
            entries.insert(at, RepoTags { repo, tags });
            assert(entries.deep_view() == before.insert(at as int, (repo@, tags.deep_view())));
        }
        *self = Report { entries, failed };
    }

    /// Notes that a repository could not be read.  It gets no row, and the
    /// entries stay as they are.
    pub fn fail(&mut self, repo: &Repo)
        ensures
            final(self)@ == old(self)@,
            final(self).failures() == old(self).failures().push(shown_name(repo@)),
    {
        let mut taken = Report::new();
        core::mem::swap(self, &mut taken);
        proof {
            use_type_invariant(&taken);
        }
        let Report { entries, failed: mut failed } = taken;
        let ghost before = failed.deep_view();
        failed.push(repo.display_name());
        assert(failed.deep_view() == before.push(shown_name(repo@)));
        *self = Report { entries, failed };
    }

    /// Takes in what came of reading a repository: its tags, or `None` where
    /// it could not be read.  A repository that failed leaves the entries of
    /// the others as they are.
    pub fn record(&mut self, repo: Repo, outcome: Option<Vec<String>>)
        ensures
            match outcome {
                Some(tags) => {
                    &&& final(self)@ == recorded(old(self)@, (repo@, tags.deep_view()))
                    &&& final(self).failures() == old(self).failures()
                },
                None => {
                    &&& final(self)@ == old(self)@
                    &&& final(self).failures() == old(self).failures().push(shown_name(repo@))
                },
            },
            ordered_by_path(final(self)@),
    {
        match outcome {
            Some(tags) => self.insert(repo, tags),
            None => {
                self.fail(&repo);
                proof {
                    use_type_invariant(&*self);
                }
            },
        }
    }

    /// The names of the repositories that could not be read.
    pub fn failed(&self) -> (names: Vec<String>)
        ensures
            names.deep_view() == self.failures(),
    {
        let mut names: Vec<String> = Vec::new();
        let mut i: usize = 0;
        while i < self.failed.len()
            invariant
                i <= self.failed.len(),
                names.deep_view() == self.failed.deep_view().take(i as int),
            decreases self.failed.len() - i,
        {
            let ghost before = names.deep_view();
            names.push(self.failed[i].clone());
            assert(names.deep_view() == before.push(self.failed@[i as int]@));
            i += 1;
        }
        assert(self.failed.deep_view().take(i as int) == self.failed.deep_view());
        names
    }

    /// The rows of the table: one for each entry that has tags, in order.
    pub fn rows(&self, bin_list: &Option<BinList>) -> (rows: Vec<Vec<String>>)
        ensures
            rows.deep_view() == rows_of(self@, catalog_view(*bin_list)),
            ordered_by_path(self@),
    {
        proof {
            use_type_invariant(self);
        }
        let ghost all = self.entries.deep_view();
        let ghost row = |entry: (RepoModel, Seq<Seq<char>>)| row_of(entry, catalog_view(*bin_list));
        let mut rows: Vec<Vec<String>> = Vec::new();
        let mut i: usize = 0;
        while i < self.entries.len()
            invariant
                i <= self.entries.len(),
                all == self.entries.deep_view(),
                row == |entry: (RepoModel, Seq<Seq<char>>)|
                    row_of(entry, catalog_view(*bin_list)),
                rows.deep_view() == all.take(i as int).filter_map(row),
            decreases self.entries.len() - i,
        {
            assert(all.take(i + 1).drop_last() == all.take(i as int));
            assert(all[i as int] == self.entries@[i as int].deep_view());
            let ghost before = rows.deep_view();
            match table_row(&self.entries[i].repo, &self.entries[i].tags, bin_list) {
                Some(cells) => {
                    rows.push(cells);
                    assert(rows.deep_view() == before + seq![row(all[i as int]).unwrap()]);
                },
                None => {},
            }
            i += 1;
        }
        assert(all.take(i as int) == all);
        rows
    }
}

} // verus!
