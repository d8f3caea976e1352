//! Capture metadata and the pure rules over it: tag normalisation and
//! merging, query matching, and identifier-prefix lookup.  Reading and
//! writing metadata files is the process boundary's job.

use vstd::prelude::*;

use crate::config::{ascii_lower, spec_ascii_lower};
use crate::text::{spec_trim, str_eq, trim};

verus! {

/// `needle` occurs in `hay` starting at `i`.
pub open spec fn spec_contains_at(hay: Seq<char>, needle: Seq<char>, i: int) -> bool {
    0 <= i && i + needle.len() <= hay.len() && hay.subrange(i, i + needle.len()) == needle
}

/// `needle` occurs somewhere in `hay`; the empty needle occurs everywhere.
pub open spec fn spec_contains(hay: Seq<char>, needle: Seq<char>) -> bool {
    exists|i: int| spec_contains_at(hay, needle, i)
}

/// Substring search.
pub fn contains_str(hay: &str, needle: &str) -> (r: bool)
    ensures
        r == spec_contains(hay@, needle@),
{
    let n = hay.unicode_len();
    let m = needle.unicode_len();
    if m > n {
        proof {
            assert forall|i: int| !spec_contains_at(hay@, needle@, i) by {}
        }
        return false;
    }
    if m == 0 {
        proof {
            assert(hay@.subrange(0, 0) =~= needle@);
            assert(spec_contains_at(hay@, needle@, 0));
        }
        return true;
    }
    let mut i: usize = 0;
    while i <= n - m
        invariant
            n == hay@.len(),
            m == needle@.len(),
            0 < m <= n,
            i <= n - m + 1,
            forall|k: int| 0 <= k < i ==> !spec_contains_at(hay@, needle@, k),
        decreases n - i,
    {
        let piece = hay.substring_char(i, i + m);
        if str_eq(piece, needle) {
            proof {
                assert(spec_contains_at(hay@, needle@, i as int));
            }
            return true;
        }
        i = i + 1;
    }
    proof {
        assert forall|k: int| !spec_contains_at(hay@, needle@, k) by {
            if 0 <= k <= n - m {
                assert(!spec_contains_at(hay@, needle@, k));
            }
        }
    }
    false
}

/// `s` begins with `prefix`.
pub open spec fn spec_starts_with(s: Seq<char>, prefix: Seq<char>) -> bool {
    prefix.len() <= s.len() && s.subrange(0, prefix.len() as int) == prefix
}

/// Prefix test.
pub fn starts_with(s: &str, prefix: &str) -> (r: bool)
    ensures
        r == spec_starts_with(s@, prefix@),
{
    let n = s.unicode_len();
    let m = prefix.unicode_len();
    if m > n {
        return false;
    }
    str_eq(s.substring_char(0, m), prefix)
}

/// A tag as it is stored: trimmed of surrounding whitespace, with ASCII
/// capitals lowered.
pub open spec fn spec_normalize_tag(t: Seq<char>) -> Seq<char> {
    spec_ascii_lower(spec_trim(t))
}

fn normalize_tag(t: &str) -> (r: String)
    ensures
        r@ == spec_normalize_tag(t@),
{
    ascii_lower(trim(t))
}

/// The tag lists as mathematical sequences of character sequences.
pub open spec fn tags_view(tags: Seq<String>) -> Seq<Seq<char>> {
    tags.map_values(|t: String| t@)
}

/// Merging new tags into a list, in order: each is normalised, and appended
/// when it is neither empty nor already present.
pub open spec fn spec_merge_tags(existing: Seq<Seq<char>>, tags: Seq<Seq<char>>) -> Seq<Seq<char>>
    decreases tags.len(),
{
    if tags.len() == 0 {
        existing
    } else {
        let t = spec_normalize_tag(tags[0]);
        let grown = if t.len() > 0 && !existing.contains(t) {
            existing.push(t)
        } else {
            existing
        };
        spec_merge_tags(grown, tags.drop_first())
    }
}

fn tags_contain(tags: &Vec<String>, t: &str) -> (r: bool)
    ensures
        r == tags_view(tags@).contains(t@),
{
    let n = tags.len();
    let mut i: usize = 0;
    while i < n
        invariant
            n == tags@.len(),
            i <= n,
            forall|k: int| 0 <= k < i ==> tags_view(tags@)[k] != t@,
        decreases n - i,
    {
        if str_eq(tags[i].as_str(), t) {
            proof {
                assert(tags_view(tags@)[i as int] == t@);
            }
            return true;
        }
        i = i + 1;
    }
    proof {
        assert(forall|k: int| 0 <= k < tags_view(tags@).len() ==> tags_view(tags@)[k] != t@);
        assert(!tags_view(tags@).contains(t@));
    }
    false
}

/// Merge new tags into an existing list: each is trimmed and lowered, and
/// appended when it is neither empty nor already present.
pub fn merge_tags(existing: &mut Vec<String>, tags: &Vec<String>)
    ensures
        tags_view(final(existing)@) == spec_merge_tags(tags_view(old(existing)@), tags_view(tags@)),
{
    let n = tags.len();
    let mut i: usize = 0;
    proof {
        assert(tags_view(tags@).subrange(0, n as int) =~= tags_view(tags@));
    }
    while i < n
        invariant
            n == tags@.len(),
            i <= n,
            spec_merge_tags(tags_view(existing@), tags_view(tags@).subrange(i as int, n as int))
                == spec_merge_tags(tags_view(old(existing)@), tags_view(tags@)),
        decreases n - i,
    {
        let ghost rest = tags_view(tags@).subrange(i as int, n as int);
        proof {
            assert(rest[0] == tags_view(tags@)[i as int]);
            assert(rest.drop_first() =~= tags_view(tags@).subrange(i as int + 1, n as int));
        }
        let t = normalize_tag(tags[i].as_str());
        if t.unicode_len() > 0 && !tags_contain(existing, t.as_str()) {
            let ghost before = tags_view(existing@);
            existing.push(t);
            proof {
                assert(tags_view(existing@) =~= before.push(spec_normalize_tag(rest[0])));
            }
        }
        i = i + 1;
    }
    proof {
        assert(tags_view(tags@).subrange(n as int, n as int) =~= Seq::<Seq<char>>::empty());
    }
}

/// Removing tags from a list: every tag equal to one of the normalised
/// removals leaves; the rest keep their order.
pub open spec fn spec_remove_tags(existing: Seq<Seq<char>>, removals: Seq<Seq<char>>) -> Seq<
    Seq<char>,
>
    decreases existing.len(),
{
    if existing.len() == 0 {
        Seq::empty()
    } else if removals.contains(existing[0]) {
        spec_remove_tags(existing.drop_first(), removals)
    } else {
        seq![existing[0]] + spec_remove_tags(existing.drop_first(), removals)
    }
}

/// The removals as stored-tag shapes: each trimmed and lowered.
pub open spec fn spec_normalized_all(tags: Seq<Seq<char>>) -> Seq<Seq<char>> {
    tags.map_values(|t: Seq<char>| spec_normalize_tag(t))
}

/// Remove the given tags, each first trimmed and lowered, from the list.
pub fn remove_tags(existing: &mut Vec<String>, tags: &Vec<String>)
    ensures
        tags_view(final(existing)@) == spec_remove_tags(
            tags_view(old(existing)@),
            spec_normalized_all(tags_view(tags@)),
        ),
{
    let mut removals: Vec<String> = Vec::new();
    let n = tags.len();
    let mut i: usize = 0;
    while i < n
        invariant
            n == tags@.len(),
            i <= n,
            tags_view(removals@) =~= spec_normalized_all(tags_view(tags@)).subrange(0, i as int),
        decreases n - i,
    {
        let ghost before = tags_view(removals@);
        let t = normalize_tag(tags[i].as_str());
        removals.push(t);
        proof {
            assert(tags_view(removals@) =~= before.push(spec_normalize_tag(
                tags_view(tags@)[i as int],
            )));
            assert(tags_view(removals@) =~= spec_normalized_all(tags_view(tags@)).subrange(
                0,
                i as int + 1,
            ));
        }
        i = i + 1;
    }
    proof {
        assert(tags_view(removals@) =~= spec_normalized_all(tags_view(tags@)));
    }

    let ghost orig = tags_view(existing@);
    let ghost removal_set = spec_normalized_all(tags_view(tags@));
    let m = existing.len();
    let mut out: Vec<String> = Vec::new();
    let mut j: usize = 0;
    proof {
        assert(orig.subrange(0, m as int) =~= orig);
    }
    while j < m
        invariant
            m == existing@.len(),
            j <= m,
            orig == tags_view(existing@),
            removal_set == spec_normalized_all(tags_view(tags@)),
            tags_view(removals@) =~= removal_set,
            spec_remove_tags(orig, removal_set) == tags_view(out@) + spec_remove_tags(
                orig.subrange(j as int, m as int),
                removal_set,
            ),
        decreases m - j,
    {
        let ghost rest = orig.subrange(j as int, m as int);
        proof {
            assert(rest[0] == orig[j as int]);
            assert(rest.drop_first() =~= orig.subrange(j as int + 1, m as int));
        }
        if !tags_contain(&removals, existing[j].as_str()) {
            let ghost before = tags_view(out@);
            out.push(existing[j].clone());
            proof {
                assert(tags_view(out@) =~= before + seq![rest[0]]);
            }
        }
        j = j + 1;
    }
    proof {
        assert(orig.subrange(m as int, m as int) =~= Seq::<Seq<char>>::empty());
    }
    *existing = out;
}

/// Whether a capture matches a search query: the lowered query occurs in
/// one of its tags, in its lowered notes, or in its identifier.
pub open spec fn spec_matches_query(
    tags: Seq<Seq<char>>,
    notes: Seq<char>,
    id: Seq<char>,
    query: Seq<char>,
) -> bool {
    let q = spec_ascii_lower(query);
    ||| exists|i: int| 0 <= i < tags.len() && spec_contains(#[trigger] tags[i], q)
    ||| spec_contains(spec_ascii_lower(notes), q)
    ||| spec_contains(id, q)
}

/// Match one capture's tags, notes and identifier against a query.
pub fn matches_query(tags: &Vec<String>, notes: &str, id: &str, query: &str) -> (r: bool)
    ensures
        r == spec_matches_query(tags_view(tags@), notes@, id@, query@),
{
    let q = ascii_lower(query);
    let n = tags.len();
    let mut i: usize = 0;
    while i < n
        invariant
            n == tags@.len(),
            q@ == spec_ascii_lower(query@),
            i <= n,
            forall|k: int| 0 <= k < i ==> !spec_contains(#[trigger] tags_view(tags@)[k], q@),
        decreases n - i,
    {
        if contains_str(tags[i].as_str(), q.as_str()) {
            proof {
                assert(spec_contains(tags_view(tags@)[i as int], q@));
            }
            return true;
        }
        i = i + 1;
    }
    let lowered_notes = ascii_lower(notes);
    if contains_str(lowered_notes.as_str(), q.as_str()) {
        return true;
    }
    contains_str(id, q.as_str())
}

/// How an identifier prefix resolves against a list of identifiers.
#[derive(Debug, Clone, Copy, PartialEq, Eq, Structural)]
pub enum FindOutcome {
    /// No identifier starts with the prefix.
    NotFound,
    /// Exactly one does: its index.
    Unique { index: usize },
    /// Several do: how many.
    Ambiguous { count: usize },
}

/// How many of `ids` start with `prefix`.
pub open spec fn spec_match_count(ids: Seq<Seq<char>>, prefix: Seq<char>) -> int
    decreases ids.len(),
{
    if ids.len() == 0 {
        0int
    } else {
        spec_match_count(ids.drop_last(), prefix) + if spec_starts_with(ids.last(), prefix) {
            1int
        } else {
            0int
        }
    }
}

/// Resolve an identifier prefix against a list of identifiers: not found,
/// the unique match's index, or the number of ambiguous matches.
pub fn find_by_prefix(ids: &Vec<String>, prefix: &str) -> (r: FindOutcome)
    ensures
        r is NotFound <==> spec_match_count(tags_view(ids@), prefix@) == 0,
        r matches FindOutcome::Unique { index } ==> spec_match_count(tags_view(ids@), prefix@) == 1 && index
            < ids@.len() && spec_starts_with(tags_view(ids@)[index as int], prefix@),
        r matches FindOutcome::Ambiguous { count } ==> count == spec_match_count(tags_view(ids@), prefix@)
            && count >= 2,
{
    let n = ids.len();
    let mut count: usize = 0;
    let mut first: usize = 0;
    let mut i: usize = 0;
    proof {
        assert(tags_view(ids@).subrange(0, 0) =~= Seq::<Seq<char>>::empty());
    }
    while i < n
        invariant
            n == ids@.len(),
            i <= n,
            count == spec_match_count(tags_view(ids@).subrange(0, i as int), prefix@),
            count <= i,
            count > 0 ==> first < i && spec_starts_with(tags_view(ids@)[first as int], prefix@),
        decreases n - i,
    {
        let ghost pre = tags_view(ids@).subrange(0, i as int);
        let ghost pre1 = tags_view(ids@).subrange(0, i as int + 1);
        proof {
            assert(pre1.drop_last() =~= pre);
            assert(pre1.last() == tags_view(ids@)[i as int]);
        }
        if starts_with(ids[i].as_str(), prefix) {
            if count == 0 {
                first = i;
            }
            count = count + 1;
        }
        i = i + 1;
    }
    proof {
        assert(tags_view(ids@).subrange(0, n as int) =~= tags_view(ids@));
    }
    if count == 0 {
        FindOutcome::NotFound
    } else if count == 1 {
        FindOutcome::Unique { index: first }
    } else {
        FindOutcome::Ambiguous { count }
    }
}

/// One stored capture's metadata: identification, geometry, provenance, and
/// the user's tags and notes.  The timestamp is carried as its formatted
/// text.
#[derive(Debug, Clone)]
pub struct Metadata {
    pub id: String,
    pub path: String,
    pub timestamp: String,
    pub width: u32,
    pub height: u32,
    pub format: String,
    pub capture_mode: String,
    pub display_server: String,
    pub file_size: u64,
    pub tags: Vec<String>,
    pub notes: String,
}

impl Metadata {
    /// Fresh metadata for a newly saved capture: no size, tags or notes yet.
    pub fn new(
        id: String,
        path: String,
        timestamp: String,
        width: u32,
        height: u32,
        format: String,
        capture_mode: String,
        display_server: String,
    ) -> (r: Metadata)
        ensures
            r.id == id,
            r.path == path,
            r.timestamp == timestamp,
            r.width == width,
            r.height == height,
            r.format == format,
            r.capture_mode == capture_mode,
            r.display_server == display_server,
            r.file_size == 0,
            r.tags@.len() == 0,
            r.notes@.len() == 0,
    {
        Metadata {
            id,
            path,
            timestamp,
            width,
            height,
            format,
            capture_mode,
            display_server,
            file_size: 0,
            tags: Vec::new(),
            notes: String::new(),
        }
    }

    /// Merge new tags in, normalised, deduplicated, order kept.
    pub fn add_tags(&mut self, tags: &Vec<String>)
        ensures
            tags_view(final(self).tags@) == spec_merge_tags(
                tags_view(old(self).tags@),
                tags_view(tags@),
            ),
    {
        merge_tags(&mut self.tags, tags);
    }

    /// Remove the given tags, normalised.
    pub fn remove_tags(&mut self, tags: &Vec<String>)
        ensures
            tags_view(final(self).tags@) == spec_remove_tags(
                tags_view(old(self).tags@),
                spec_normalized_all(tags_view(tags@)),
            ),
    {
        remove_tags(&mut self.tags, tags);
    }

    /// Whether this capture matches a search query by tag, note or
    /// identifier.
    pub fn matches_query(&self, query: &str) -> (r: bool)
        ensures
            r == spec_matches_query(tags_view(self.tags@), self.notes@, self.id@, query@),
    {
        matches_query(&self.tags, self.notes.as_str(), self.id.as_str(), query)
    }
}

} // verus!
