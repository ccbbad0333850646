//! The catalog of built versions: for each package name, the version that
//! was built last.
//!
//! The catalog is read from text with one record per line.  A record holds,
//! separated by blanks, the package name and the name of the built file, which
//! ends in `-` and the version.

use vstd::prelude::*;
use vstd::string::StringExecFns;
use crate::text::{
    chars_of, decimal, last_index_in, last_index_of, line_fields, lines_of, locate_fields,
    push_decimal, split_lines, string_of,
};
use crate::version::{canonical_version, compare_versions, is_semver, outdated, precedence};

verus! {

/// What follows the last `-` of a file name.
pub open spec fn version_suffix(file: Seq<char>) -> Option<Seq<char>> {
    let k = last_index_of(file, '-');
    if k >= 0 {
        Some(file.skip(k + 1))
    } else {
        None
    }
}

/// The version that a file name ends in, where that is a semantic version.
pub open spec fn file_version(file: Seq<char>) -> Option<Seq<char>> {
    match version_suffix(file) {
        Some(suffix) => if is_semver(suffix) {
            Some(suffix)
        } else {
            None
        },
        None => None,
    }
}

/// The record that a line contributes: its package name and version.  A line
/// whose file name ends in no semantic version contributes nothing.
pub open spec fn line_entry(line: Seq<char>) -> Option<(Seq<char>, Seq<char>)> {
    match line_fields(line) {
        Some((name, file)) => match file_version(file) {
            Some(version) => Some((name, version)),
            None => None,
        },
        None => None,
    }
}

/// Whether every line has its two fields.
pub open spec fn well_formed(lines: Seq<Seq<char>>) -> bool {
    forall|i: int| 0 <= i < lines.len() ==> (#[trigger] line_fields(lines[i])) is Some
}

/// The catalog that a sequence of lines describes: each record in turn sets
/// the version of its package, so the last record of a package stands.
pub open spec fn catalog_of(lines: Seq<Seq<char>>) -> Map<Seq<char>, Seq<char>>
    decreases lines.len(),
{
    if lines.len() == 0 {
        Map::empty()
    } else {
        let before = catalog_of(lines.drop_last());
        match line_entry(lines.last()) {
            Some((name, version)) => before.insert(name, version),
            None => before,
        }
    }
}

/// A tag without the one `v` that it may begin with.  No more than one is
/// taken off: `vv1.0.0` leaves `v1.0.0`.
pub open spec fn bare_tag(tag: Seq<char>) -> Seq<char> {
    if tag.len() > 0 && tag[0] == 'v' {
        tag.skip(1)
    } else {
        tag
    }
}

/// Whether `tag` is still to be built when `built` is the version that was
/// built: the tag is no version, or the built version comes before the
/// tag's.
pub open spec fn comes_after(built: Seq<char>, tag: Seq<char>) -> bool {
    !is_semver(bare_tag(tag)) || precedence(built, bare_tag(tag)) < 0
}

/// Whether `tag` names a version of package `name` that `catalog` does not
/// yet hold: the package is unknown, or the tag is no version, or the built
/// version comes before the tag's.
pub open spec fn tag_needed(
    catalog: Map<Seq<char>, Seq<char>>,
    name: Seq<char>,
    tag: Seq<char>,
) -> bool {
    !catalog.contains_key(name) || comes_after(catalog[name], tag)
}

/// The version of a file name that is written as a stem, `-` and a version
/// is that version, where the version itself holds no `-`.
pub proof fn lemma_version_after_hyphen(stem: Seq<char>, version: Seq<char>)
    requires
        !version.contains('-'),
    ensures
        last_index_of(stem.push('-') + version, '-') == stem.len(),
        version_suffix(stem.push('-') + version) == Some(version),
    decreases version.len(),
{
    let file = stem.push('-') + version;
    if version.len() == 0 {
        assert(file.last() == '-');
        assert(file.skip(stem.len() as int + 1) == version);
    } else {
        assert(version.contains(version.last()));
        assert(file.last() == version.last());
        assert(file.drop_last() == stem.push('-') + version.drop_last());
        assert forall|i: int| 0 <= i < version.drop_last().len() implies version.drop_last()[i]
            != '-' by {
            assert(version.contains(version[i]));
        }
        lemma_version_after_hyphen(stem, version.drop_last());
        assert(last_index_of(file, '-') == stem.len());
        assert(file.skip(stem.len() as int + 1) == version);
    }
}

/// A record whose file name ends in a semantic version sets the version of
/// its package to exactly that version, and the catalog holds it unless a
/// later record sets the version of the same package.
pub proof fn lemma_record_round_trip(
    lines: Seq<Seq<char>>,
    i: int,
    name: Seq<char>,
    file: Seq<char>,
    version: Seq<char>,
)
    requires
        0 <= i < lines.len(),
        line_fields(lines[i]) == Some((name, file)),
        version_suffix(file) == Some(version),
        is_semver(version),
        forall|j: int|
            i < j < lines.len() ==> !((#[trigger] line_entry(lines[j])) matches Some(later)
                && later.0 == name),
    ensures
        catalog_of(lines).contains_key(name),
        catalog_of(lines)[name] == version,
    decreases lines.len(),
{
    if i < lines.len() - 1 {
        let before = lines.drop_last();
        assert(before[i] == lines[i]);
        assert forall|j: int| i < j < before.len() implies !((#[trigger] line_entry(before[j]))
            matches Some(later) && later.0 == name) by {
            assert(before[j] == lines[j]);
        }
        lemma_record_round_trip(before, i, name, file, version);
        assert(!(line_entry(lines[lines.len() - 1]) matches Some(later) && later.0 == name));
    }
}

/// A line with fewer than two fields makes the lines it stands among
/// malformed.
pub proof fn lemma_short_line_is_malformed(lines: Seq<Seq<char>>, i: int)
    requires
        0 <= i < lines.len(),
        line_fields(lines[i]) is None,
    ensures
        !well_formed(lines),
{
}

/// A line that has its two fields but ends in no semantic version is passed
/// over: without it the lines are as well formed as with it, and describe
/// the same catalog.
pub proof fn lemma_line_without_version_is_skipped(lines: Seq<Seq<char>>, i: int)
    requires
        0 <= i < lines.len(),
        line_fields(lines[i]) matches Some(fields) && file_version(fields.1) is None,
    ensures
        well_formed(lines) <==> well_formed(lines.remove(i)),
        catalog_of(lines) == catalog_of(lines.remove(i)),
    decreases lines.len(),
{
    let without = lines.remove(i);
    if well_formed(lines) {
        assert forall|j: int| 0 <= j < without.len() implies (#[trigger] line_fields(
            without[j],
        )) is Some by {
            if j < i {
                assert(without[j] == lines[j]);
            } else {
                assert(without[j] == lines[j + 1]);
            }
        }
    }
    if well_formed(without) {
        assert forall|j: int| 0 <= j < lines.len() implies (#[trigger] line_fields(lines[j]))
            is Some by {
            if j < i {
                assert(without[j] == lines[j]);
            } else if j > i {
                assert(without[j - 1] == lines[j]);
            }
        }
    }
    if i == lines.len() - 1 {
        assert(without == lines.drop_last());
    } else {
        assert(without.drop_last() == lines.drop_last().remove(i));
        assert(without.last() == lines.last());
        assert(lines.drop_last()[i] == lines[i]);
        lemma_line_without_version_is_skipped(lines.drop_last(), i);
    }
}

/// A tag is not needed exactly where the package is known, the tag is a
/// version, and the built version does not come before it.
pub proof fn lemma_tag_not_needed(
    catalog: Map<Seq<char>, Seq<char>>,
    name: Seq<char>,
    tag: Seq<char>,
)
    ensures
        !tag_needed(catalog, name, tag) <==> catalog.contains_key(name) && is_semver(
            bare_tag(tag),
        ) && precedence(catalog[name], bare_tag(tag)) >= 0,
{
}

/// Why a catalog could not be read.
#[derive(Debug)]
pub enum CatalogError {
    /// Line `number`, counted from 0, has fewer than two fields.
    MalformedLine { number: usize, line: String },
}

/// What an error says to the user.
pub open spec fn error_text(number: nat, line: Seq<char>) -> Seq<char> {
    "bin_list: can't parse "@ + decimal(number) + " line `"@ + line + "`"@
}

impl CatalogError {
    /// The error in words.
    pub fn message(&self) -> (text: String)
        ensures
            self matches CatalogError::MalformedLine { number, line } && text@ == error_text(
                number as nat,
                line@,
            ),
    {
        match self {
            CatalogError::MalformedLine { number, line } => {
                let mut text = "bin_list: can't parse ".to_owned();
                push_decimal(&mut text, *number);
                text.append(" line `");
                text.append(line.as_str());
                text.append("`");
                text
            },
        }
    }
}

#[derive(Debug)]
struct Entry {
    name: String,
    version: String,
}

/// The records of `entries`, applied in turn.
spec fn entries_map(entries: Seq<Entry>) -> Map<Seq<char>, Seq<char>>
    decreases entries.len(),
{
    if entries.len() == 0 {
        Map::empty()
    } else {
        entries_map(entries.drop_last()).insert(entries.last().name@, entries.last().version@)
    }
}

/// The last record of a name decides what the map holds for it.
proof fn lemma_entries_map_lookup(entries: Seq<Entry>, name: Seq<char>, from: int)
    requires
        0 <= from <= entries.len(),
        forall|j: int| from <= j < entries.len() ==> (#[trigger] entries[j]).name@ != name,
    ensures
        from == 0 ==> !entries_map(entries).contains_key(name),
        from > 0 && entries[from - 1].name@ == name ==> entries_map(entries).contains_key(name)
            && entries_map(entries)[name] == entries[from - 1].version@,
    decreases entries.len(),
{
    if entries.len() > from {
        let before = entries.drop_last();
        assert(entries.last().name@ != name);
        assert forall|j: int| from <= j < before.len() implies (#[trigger] before[j]).name@
            != name by {
            assert(before[j] == entries[j]);
        }
        lemma_entries_map_lookup(before, name, from);
        if from > 0 {
            assert(before[from - 1] == entries[from - 1]);
        }
    } else if from > 0 {
        assert(entries.last() == entries[from - 1]);
    }
}

/// Whether `tag` is still to be built when `built` is the version that was
/// built.  The tag is read as a version after one `v` at its start, if it has
/// one, is taken off.
pub(crate) fn tag_comes_after(built: &str, tag: &str) -> (needed: bool)
    requires
        is_semver(built@),
    ensures
        needed == comes_after(built@, tag@),
{
    let text = chars_of(tag);
    if text.len() > 0 && text[0] == 'v' {
        let bare = string_of(&text, 1, text.len());
        outdated(compare_versions(built, bare.as_str()))
    } else {
        outdated(compare_versions(built, tag))
    }
}

/// The catalog of built versions.
#[derive(Debug)]
pub struct BinList {
    entries: Vec<Entry>,
}

impl View for BinList {
    type V = Map<Seq<char>, Seq<char>>;

    /// The version held for each package name.
    closed spec fn view(&self) -> Map<Seq<char>, Seq<char>> {
        entries_map(self.entries@)
    }
}

impl BinList {
    #[verifier::type_invariant]
    spec fn versions_are_semver(self) -> bool {
        forall|i: int|
            0 <= i < self.entries@.len() ==> is_semver((#[trigger] self.entries@[i]).version@)
    }

    /// Reads a catalog from its text.
    ///
    /// Fails on the first line with fewer than two fields.  A line whose file
    /// name ends in no semantic version is passed over.
    pub fn new(content: &str) -> (r: Result<BinList, CatalogError>)
        ensures
            r is Ok <==> well_formed(lines_of(content@)),
            r matches Ok(list) ==> list@ == catalog_of(lines_of(content@)),
            r matches Err(CatalogError::MalformedLine { number, line }) ==> {
                &&& number < lines_of(content@).len()
                &&& line_fields(lines_of(content@)[number as int]) is None
                &&& well_formed(lines_of(content@).take(number as int))
                &&& line@ == lines_of(content@)[number as int]
            },
    {
        let text = chars_of(content);
        let lines = split_lines(&text);
        let ghost all = lines_of(content@);
        let mut entries: Vec<Entry> = Vec::new();
        let mut number: usize = 0;
        while number < lines.len()
            invariant
                number <= lines.len(),
                all == lines_of(content@),
                lines.deep_view() == all,
                well_formed(all.take(number as int)),
                entries_map(entries@) == catalog_of(all.take(number as int)),
                forall|i: int|
                    0 <= i < entries@.len() ==> is_semver((#[trigger] entries@[i]).version@),
            decreases lines.len() - number,
        {
            let line = &lines[number];
            assert(line@ == all[number as int]) by {
                assert(lines.deep_view()[number as int] == line.deep_view());
                assert(line.deep_view() == line@);
            }
            assert(all.take(number + 1).drop_last() == all.take(number as int));
            let (a, b, c, d) = match locate_fields(line) {
                Some(bounds) => bounds,
                None => {
                    let whole = string_of(line, 0, line.len());
                    assert(line@.subrange(0, line@.len() as int) == line@);
                    return Err(CatalogError::MalformedLine { number, line: whole });
                },
            };
            assert forall|i: int| 0 <= i < all.take(number + 1).len() implies (
            #[trigger] line_fields(all.take(number + 1)[i])) is Some by {
                if i < number {
                    assert(all.take(number as int)[i] == all.take(number + 1)[i]);
                }
            }
            match last_index_in(line, c, d, '-') {
                Some(k) => {
                    let suffix = string_of(line, c + k + 1, d);
                    assert(suffix@ == line@.subrange(c as int, d as int).skip(k + 1));
                    match canonical_version(suffix.as_str()) {
                        Some(version) => {
                            let name = string_of(line, a, b);
                            let ghost before = entries@;
                            entries.push(Entry { name, version });
                            assert(entries@.drop_last() == before);
                        },
                        None => {},
                    }
                },
                None => {},
            }
            number += 1;
        }
        assert(all.take(number as int) == all);
        Ok(BinList { entries })
    }

    /// The position of the last record of `name`.
    fn find(&self, name: &str) -> (r: Option<usize>)
        ensures
            r is Some <==> self@.contains_key(name@),
            r matches Some(i) ==> i < self.entries@.len() && self@[name@]
                == self.entries@[i as int].version@,
    {
        let key = name.to_owned();
        let mut i: usize = self.entries.len();
        while i > 0
            invariant
                i <= self.entries@.len(),
                key@ == name@,
                forall|j: int|
                    i <= j < self.entries@.len() ==> (#[trigger] self.entries@[j]).name@ != name@,
            decreases i,
        {
            if self.entries[i - 1].name == key {
                proof {
                    lemma_entries_map_lookup(self.entries@, name@, i as int);
                }
                return Some(i - 1);
            }
            i -= 1;
        }
        proof {
            lemma_entries_map_lookup(self.entries@, name@, 0);
        }
        None
    }

    /// Whether `tag` names a version of package `name` that is not built yet.
    ///
    /// The tag is read as a version after one `v` at its start, if it has
    /// one, is taken off.  A tag that is no version then is needed.
    pub fn need_tag(&self, name: &str, tag: &str) -> (needed: bool)
        ensures
            needed == tag_needed(self@, name@, tag@),
    {
        match self.find(name) {
            Some(i) => {
                proof {
                    use_type_invariant(self);
                }
                tag_comes_after(self.entries[i].version.as_str(), tag)
            },
            None => true,
        }
    }

    /// The version built of package `name`, in canonical form.
    pub fn built_version(&self, name: &str) -> (r: Option<String>)
        ensures
            r is Some <==> self@.contains_key(name@),
            r matches Some(version) ==> version@ == self@[name@] && is_semver(version@),
    {
        proof {
            use_type_invariant(self);
        }
        match self.find(name) {
            Some(i) => Some(self.entries[i].version.clone()),
            None => None,
        }
    }
}

} // verus!
