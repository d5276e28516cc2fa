use crate::requirement::wildcard;
use vstd::prelude::*;

verus! {

/// The canonical directory of a manifest, as the bytes of its path. It is a
/// key to compare and nothing else.
#[derive(Debug)]
pub struct CrateRoot {
    pub path: Vec<u8>,
}

impl View for CrateRoot {
    type V = Seq<u8>;

    open spec fn view(&self) -> Seq<u8> {
        self.path@
    }
}

/// What a dependency entry holds under the key `version`.
#[derive(Debug)]
pub enum VersionField {
    /// No such key.
    Absent,
    /// A requirement, as written.
    Text(String),
    /// Something that is not a string.
    Other,
}

/// One entry of a dependency table, as far as propagation reads it.
#[derive(Debug)]
pub struct DependencyEntry {
    /// The key of the entry in its table.
    pub name: String,
    /// Whether the entry is a table of its own, inline or not, rather than a
    /// plain value. Only such an entry has keys to read.
    pub table_like: bool,
    /// What stands under `version`.
    pub version: VersionField,
    /// What stands under `path`, where that is a string.
    pub path: Option<String>,
    /// The canonical directory that `path` leads to from the directory of the
    /// manifest that holds the entry; `None` where it leads nowhere.
    pub location: Option<CrateRoot>,
}

impl DependencyEntry {
    /// Whether the entry is a table that carries a `version` key.
    pub open spec fn has_version(self) -> bool {
        self.table_like && !(self.version is Absent)
    }

    /// Whether the place of the entry has to be looked up at all: it is a
    /// table with a `version` key and a `path`.
    pub open spec fn spec_wants_location(self) -> bool {
        self.has_version() && self.path is Some
    }

    /// Whether the entry points at the package in `root`: it is a table that
    /// carries a `version` key, and its `path` leads to exactly that
    /// directory. The name of the entry plays no part.
    pub open spec fn spec_points_at(self, root: Seq<u8>) -> bool {
        &&& self.has_version()
        &&& self.path is Some
        &&& self.location matches Some(place)
        &&& place@ == root
    }

    /// The requirement the entry states: the text under `version`, or the
    /// wildcard where that is not a string.
    pub open spec fn spec_requirement(self) -> Seq<char> {
        match self.version {
            VersionField::Text(text) => text@,
            _ => wildcard(),
        }
    }

    /// Whether the place of the entry has to be looked up.
    pub fn wants_location(&self) -> (yes: bool)
        ensures
            yes == self.spec_wants_location(),
    {
        let has_version = match &self.version {
            VersionField::Absent => false,
            _ => true,
        };
        self.table_like && has_version && self.path.is_some()
    }

    /// Whether the entry points at the package in `root`.
    pub fn points_at(&self, root: &CrateRoot) -> (yes: bool)
        ensures
            yes == self.spec_points_at(root@),
    {
        let has_version = match &self.version {
            VersionField::Absent => false,
            _ => true,
        };
        if !self.table_like || !has_version || self.path.is_none() {
            return false;
        }
        match &self.location {
            Some(place) => same_place(place, root),
            None => false,
        }
    }

    /// The requirement the entry states.
    pub fn requirement(&self) -> (text: &str)
        ensures
            text@ == self.spec_requirement(),
    {
        match &self.version {
            VersionField::Text(text) => text.as_str(),
            _ => {
                proof {
                    reveal_strlit("*");
                    assert("*"@ =~= wildcard());
                }
                "*"
            },
        }
    }
}

/// Whether two canonical directories are the same one.
pub fn same_place(left: &CrateRoot, right: &CrateRoot) -> (same: bool)
    ensures
        same == (left@ == right@),
{
    if left.path.len() != right.path.len() {
        return false;
    }
    let mut i: usize = 0;
    while i < left.path.len()
        invariant
            i <= left.path.len(),
            left.path.len() == right.path.len(),
            forall|k: int| 0 <= k < i ==> left.path@[k] == right.path@[k],
        decreases left.path.len() - i,
    {
        if left.path[i] != right.path[i] {
            return false;
        }
        i = i + 1;
    }
    assert(left.path@ =~= right.path@);
    true
}

/// The positions of the entries that point at `root`, in order.
pub open spec fn spec_matches(entries: Seq<DependencyEntry>, root: Seq<u8>) -> Seq<int>
    decreases entries.len(),
{
    if entries.len() == 0 {
        Seq::<int>::empty()
    } else {
        let before = spec_matches(entries.drop_last(), root);
        if entries.last().spec_points_at(root) {
            before.push(entries.len() - 1)
        } else {
            before
        }
    }
}

/// Finds the entries that point at the package in `root`: the positions, in
/// ascending order, of exactly those that do.
pub fn matching_entries(entries: &Vec<DependencyEntry>, root: &CrateRoot) -> (found: Vec<usize>)
    ensures
        found@.map_values(|k: usize| k as int) == spec_matches(entries@, root@),
{
    let mut found: Vec<usize> = Vec::new();
    let mut i: usize = 0;
    while i < entries.len()
        invariant
            i <= entries.len(),
            found@.map_values(|k: usize| k as int) == spec_matches(entries@.take(i as int), root@),
        decreases entries.len() - i,
    {
        proof {
            assert(entries@.take(i + 1).drop_last() =~= entries@.take(i as int));
        }
        if entries[i].points_at(root) {
            found.push(i);
            assert(found@.map_values(|k: usize| k as int) =~= spec_matches(
                entries@.take(i as int),
                root@,
            ).push(i as int));
        }
        i = i + 1;
    }
    assert(entries@.take(entries.len() as int) =~= entries@);
    found
}

/// What the matcher finds is exactly what points at the package: a position
/// is found if and only if it is one of an entry whose path leads to `root`,
/// and positions come in ascending order.
pub proof fn law_matches_are_exact(entries: Seq<DependencyEntry>, root: Seq<u8>)
    ensures
        forall|k: int|
            0 <= k < spec_matches(entries, root).len() ==> 0 <= #[trigger] spec_matches(
                entries,
                root,
            )[k] < entries.len() && entries[spec_matches(entries, root)[k]].spec_points_at(root),
        forall|i: int|
            0 <= i < entries.len() && #[trigger] entries[i].spec_points_at(root)
                ==> spec_matches(entries, root).contains(i),
        forall|j: int, k: int|
            0 <= j < k < spec_matches(entries, root).len() ==> spec_matches(entries, root)[j]
                < spec_matches(entries, root)[k],
    decreases entries.len(),
{
    if entries.len() > 0 {
        let head = entries.drop_last();
        law_matches_are_exact(head, root);
        let before = spec_matches(head, root);
        let all = spec_matches(entries, root);
        assert forall|i: int| 0 <= i < entries.len() && #[trigger] entries[i].spec_points_at(
            root,
        ) implies all.contains(i) by {
            if i < entries.len() - 1 {
                assert(head[i].spec_points_at(root));
                assert(before.contains(i));
                let k = choose|k: int| 0 <= k < before.len() && before[k] == i;
                assert(all[k] == i);
            } else {
                assert(all[all.len() - 1] == i);
            }
        }
    }
}

/// An entry is matched by where its path leads, never by what it is called:
/// two entries that differ in their name alone are matched alike, and an
/// entry whose path leads elsewhere is not matched whatever its name is.
pub proof fn law_names_do_not_match(
    entry: DependencyEntry,
    other: DependencyEntry,
    root: Seq<u8>,
)
    ensures
        entry.table_like == other.table_like && entry.version == other.version && entry.path
            == other.path && entry.location == other.location ==> entry.spec_points_at(root)
            == other.spec_points_at(root),
        (entry.location matches Some(place) && place@ != root) ==> !entry.spec_points_at(root),
        entry.location is None ==> !entry.spec_points_at(root),
{
}

} // verus!
