//! Tag listings and the tags that are new in them.
//!
//! A remote listing holds one tag per line: the id of the object that the tag
//! points to, and the name of its reference, `refs/tags/` followed by the tag
//! name.  A local listing holds one object id per line.  A remote tag is new
//! when its object id is not among the local ones.

use vstd::prelude::*;
use crate::text::{
    chars_of, contains_string, first_field, line_fields, lines_of, locate_fields,
    locate_first_field, split_lines, starts_with, string_of,
};

verus! {

/// A tag that a remote advertises.
#[derive(Debug)]
pub struct RemoteTag {
    /// The id of the object that the tag points to.
    pub object_id: String,
    /// The full name of the reference, such as `refs/tags/v1.0.0`.
    pub refname: String,
}

impl DeepView for RemoteTag {
    type V = (Seq<char>, Seq<char>);

    /// The object id and the reference name.
    open spec fn deep_view(&self) -> (Seq<char>, Seq<char>) {
        (self.object_id@, self.refname@)
    }
}

/// What the name of a tag reference begins with.
pub open spec fn tag_prefix() -> Seq<char> {
    "refs/tags/"@
}

/// The tag name in a reference name: the reference name without the prefix
/// of tag references, or all of it where it has no such prefix.
pub open spec fn tag_name(refname: Seq<char>) -> Seq<char> {
    if tag_prefix().is_prefix_of(refname) {
        refname.skip(tag_prefix().len() as int)
    } else {
        refname
    }
}

/// The tags of a remote listing, line by line.  A line with fewer than two
/// fields describes no tag.
pub open spec fn remote_tags_of(lines: Seq<Seq<char>>) -> Seq<(Seq<char>, Seq<char>)> {
    lines.filter_map(|line: Seq<char>| line_fields(line))
}

/// The object ids of a local listing, line by line.  A blank line holds none.
pub open spec fn local_ids_of(lines: Seq<Seq<char>>) -> Seq<Seq<char>> {
    lines.filter_map(|line: Seq<char>| first_field(line))
}

/// The names of the remote tags whose object id is not among the local ids,
/// in the order of the remote listing.
pub open spec fn new_tags(remote: Seq<(Seq<char>, Seq<char>)>, local: Seq<Seq<char>>) -> Seq<
    Seq<char>,
> {
    remote.filter_map(
        |tag: (Seq<char>, Seq<char>)|
            if local.contains(tag.0) {
                None
            } else {
                Some(tag_name(tag.1))
            },
    )
}

/// Where every remote object id is among the local ones, no tag is new.
pub proof fn lemma_nothing_new(remote: Seq<(Seq<char>, Seq<char>)>, local: Seq<Seq<char>>)
    requires
        forall|i: int| 0 <= i < remote.len() ==> local.contains((#[trigger] remote[i]).0),
    ensures
        new_tags(remote, local) == Seq::<Seq<char>>::empty(),
    decreases remote.len(),
{
    if remote.len() > 0 {
        assert(local.contains(remote.last().0));
        assert forall|i: int| 0 <= i < remote.drop_last().len() implies local.contains(
            (#[trigger] remote.drop_last()[i]).0,
        ) by {
            assert(remote.drop_last()[i] == remote[i]);
        }
        lemma_nothing_new(remote.drop_last(), local);
    }
}

/// Reads a remote listing.
pub fn parse_remote_tags(listing: &str) -> (tags: Vec<RemoteTag>)
    ensures
        tags.deep_view() == remote_tags_of(lines_of(listing@)),
{
    let text = chars_of(listing);
    let lines = split_lines(&text);
    let ghost all = lines.deep_view();
    let ghost read = |line: Seq<char>| line_fields(line);
    let mut tags: Vec<RemoteTag> = Vec::new();
    let mut i: usize = 0;
    while i < lines.len()
        invariant
            i <= lines.len(),
            all == lines.deep_view(),
            read == |line: Seq<char>| line_fields(line),
            tags.deep_view() == all.take(i as int).filter_map(read),
        decreases lines.len() - i,
    {
        let line = &lines[i];
        assert(line@ == all[i as int]) by {
            assert(line.deep_view() == line@);
        }
        assert(all.take(i + 1).drop_last() == all.take(i as int));
        let ghost before = tags.deep_view();
        match locate_fields(line) {
            Some((a, b, c, d)) => {
                let object_id = string_of(line, a, b);
                let refname = string_of(line, c, d);
                tags.push(RemoteTag { object_id, refname });
                assert(tags.deep_view() == before + seq![line_fields(line@).unwrap()]);
            },
            None => {},
        }
        i += 1;
    }
    assert(all.take(i as int) == all);
    tags
}

/// Reads a local listing.
pub fn parse_local_tags(listing: &str) -> (ids: Vec<String>)
    ensures
        ids.deep_view() == local_ids_of(lines_of(listing@)),
{
    let text = chars_of(listing);
    let lines = split_lines(&text);
    let ghost all = lines.deep_view();
    let ghost read = |line: Seq<char>| first_field(line);
    let mut ids: Vec<String> = Vec::new();
    let mut i: usize = 0;
    while i < lines.len()
        invariant
            i <= lines.len(),
            all == lines.deep_view(),
            read == |line: Seq<char>| first_field(line),
            ids.deep_view() == all.take(i as int).filter_map(read),
        decreases lines.len() - i,
    {
        let line = &lines[i];
        assert(line@ == all[i as int]) by {
            assert(line.deep_view() == line@);
        }
        assert(all.take(i + 1).drop_last() == all.take(i as int));
        let ghost before = ids.deep_view();
        match locate_first_field(line) {
            Some((a, b)) => {
                let id = string_of(line, a, b);
                ids.push(id);
                assert(ids.deep_view() == before + seq![first_field(line@).unwrap()]);
            },
            None => {},
        }
        i += 1;
    }
    assert(all.take(i as int) == all);
    ids
}

/// The tag name in a reference name.
pub fn tag_name_of(refname: &str) -> (name: String)
    ensures
        name@ == tag_name(refname@),
{
    let text = chars_of(refname);
    let prefix = chars_of("refs/tags/");
    if starts_with(&text, &prefix) {
        string_of(&text, prefix.len(), text.len())
    } else {
        refname.to_owned()
    }
}

/// The names of the remote tags that are not yet known locally.
pub fn find_new_tags(remote: &Vec<RemoteTag>, local: &Vec<String>) -> (names: Vec<String>)
    ensures
        names.deep_view() == new_tags(remote.deep_view(), local.deep_view()),
{
    let ghost all = remote.deep_view();
    let ghost known = local.deep_view();
    let ghost pick = |tag: (Seq<char>, Seq<char>)|
        if known.contains(tag.0) {
            None
        } else {
            Some(tag_name(tag.1))
        };
    let mut names: Vec<String> = Vec::new();
    let mut i: usize = 0;
    while i < remote.len()
        invariant
            i <= remote.len(),
            all == remote.deep_view(),
            known == local.deep_view(),
            pick == |tag: (Seq<char>, Seq<char>)|
                if known.contains(tag.0) {
                    None
                } else {
                    Some(tag_name(tag.1))
                },
            names.deep_view() == all.take(i as int).filter_map(pick),
        decreases remote.len() - i,
    {
        assert(all.take(i + 1).drop_last() == all.take(i as int));
        assert(all[i as int] == remote[i as int].deep_view());
        let ghost before = names.deep_view();
        if !contains_string(local, &remote[i].object_id) {
            let name = tag_name_of(remote[i].refname.as_str());
            names.push(name);
            assert(names.deep_view() == before + seq![tag_name(remote[i as int].refname@)]);
        }
        i += 1;
    }
    assert(all.take(i as int) == all);
    names
}

} // verus!
