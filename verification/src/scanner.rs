//! The directories that a batch is made of.

use crate::paths::{file_name, file_name_of};
use crate::text::{chars_of, extend_str, string_of};
use vstd::prelude::*;

verus! {

/// One directory below the target directory.
#[derive(Debug, Clone)]
pub struct DirectoryEntry {
    /// The directory's name.
    pub name: String,
    /// The directory's path.
    pub path: String,
}

impl DirectoryEntry {
    /// An entry with the given name and path.
    pub fn new(name: String, path: String) -> (entry: DirectoryEntry)
        ensures
            entry.name@ == name@,
            entry.path@ == path@,
    {
        DirectoryEntry { name, path }
    }
}

/// The names of the given entries, in order.
pub open spec fn entry_names(entries: Seq<DirectoryEntry>) -> Seq<Seq<char>> {
    Seq::new(entries.len(), |i: int| entries[i].name@)
}

/// Why a target directory could not be listed.
#[derive(Debug)]
pub enum ScannerError {
    /// Nothing is at the path. Holds the path.
    PathNotFound(String),
    /// What is at the path is no directory. Holds the path.
    NotADirectory(String),
    /// The directory may not be read. Holds the path.
    PermissionDenied(String),
    /// Reading failed. Holds what the system said.
    IoError(String),
}

impl ScannerError {
    /// The message for a user, as a sequence of characters.
    pub open spec fn text(&self) -> Seq<char> {
        match self {
            ScannerError::PathNotFound(p) => "Path does not exist: "@ + p@,
            ScannerError::NotADirectory(p) => "Path is not a directory: "@ + p@,
            ScannerError::PermissionDenied(p) => "Permission denied: "@ + p@,
            ScannerError::IoError(m) => "Failed to read directory: "@ + m@,
        }
    }

    /// The message for a user.
    pub fn message(&self) -> (out: String)
        ensures
            out@ == self.text(),
    {
        let mut buf: Vec<char> = Vec::new();
        match self {
            ScannerError::PathNotFound(p) => {
                extend_str(&mut buf, "Path does not exist: ");
                extend_str(&mut buf, p.as_str());
            },
            ScannerError::NotADirectory(p) => {
                extend_str(&mut buf, "Path is not a directory: ");
                extend_str(&mut buf, p.as_str());
            },
            ScannerError::PermissionDenied(p) => {
                extend_str(&mut buf, "Permission denied: ");
                extend_str(&mut buf, p.as_str());
            },
            ScannerError::IoError(m) => {
                extend_str(&mut buf, "Failed to read directory: ");
                extend_str(&mut buf, m.as_str());
            },
        }
        string_of(&buf)
    }
}

/// What was found in the target directory: the path of an entry, and
/// whether it is a directory.
#[derive(Debug, Clone)]
pub struct FoundEntry {
    pub path: String,
    pub is_dir: bool,
}

/// Mathematical content of a [`DirectoryEntry`].
pub struct EntryData {
    pub name: Seq<char>,
    pub path: Seq<char>,
}

impl View for DirectoryEntry {
    type V = EntryData;

    open spec fn view(&self) -> EntryData {
        EntryData { name: self.name@, path: self.path@ }
    }
}

/// The content of the given entries, in order.
pub open spec fn entries_data(entries: Seq<DirectoryEntry>) -> Seq<EntryData> {
    Seq::new(entries.len(), |i: int| entries[i]@)
}

/// A name that starts with a dot.
pub open spec fn is_hidden(name: Seq<char>) -> bool {
    name.len() > 0 && name[0] == '.'
}

/// The entry that something found gives, if it gives one: it is a
/// directory, its path has a last component, and that does not start with a
/// dot.
pub open spec fn listed(found: FoundEntry) -> Option<EntryData> {
    if !found.is_dir {
        None
    } else {
        match file_name_of(found.path@) {
            Some(name) => if is_hidden(name) {
                None
            } else {
                Some(EntryData { name, path: found.path@ })
            },
            None => None,
        }
    }
}

/// The entries that the given finds give, in the order of the finds.
pub open spec fn selected(found: Seq<FoundEntry>) -> Seq<EntryData>
    decreases found.len(),
{
    if found.len() == 0 {
        Seq::empty()
    } else {
        let before = selected(found.drop_last());
        match listed(found.last()) {
            Some(entry) => before.push(entry),
            None => before,
        }
    }
}

/// `a` stands before `b` or is `b`, in the order of the characters' code
/// points, a text before every text that it starts.
pub open spec fn text_le(a: Seq<char>, b: Seq<char>) -> bool
    decreases a.len(),
{
    if a.len() == 0 {
        true
    } else if b.len() == 0 {
        false
    } else if (a[0] as u32) < (b[0] as u32) {
        true
    } else if (a[0] as u32) > (b[0] as u32) {
        false
    } else {
        text_le(a.drop_first(), b.drop_first())
    }
}

/// The entries stand in the order of their names.
pub open spec fn sorted_by_name(entries: Seq<EntryData>) -> bool {
    forall|i: int, j: int|
        0 <= i <= j < entries.len() ==> text_le(
            (#[trigger] entries[i]).name,
            (#[trigger] entries[j]).name,
        )
}

/// Of two texts, one stands before the other or is it.
pub proof fn lemma_text_le_total(a: Seq<char>, b: Seq<char>)
    ensures
        text_le(a, b) || text_le(b, a),
    decreases a.len(),
{
    if a.len() > 0 && b.len() > 0 && a[0] as u32 == b[0] as u32 {
        lemma_text_le_total(a.drop_first(), b.drop_first());
    }
}

/// The order of texts is transitive.
pub proof fn lemma_text_le_transitive(a: Seq<char>, b: Seq<char>, c: Seq<char>)
    requires
        text_le(a, b),
        text_le(b, c),
    ensures
        text_le(a, c),
    decreases a.len(),
{
    if a.len() > 0 && b.len() > 0 && c.len() > 0 && a[0] as u32 == b[0] as u32 && b[0] as u32
        == c[0] as u32 {
        lemma_text_le_transitive(a.drop_first(), b.drop_first(), c.drop_first());
    }
}

/// Every text stands before itself or is itself.
pub proof fn lemma_text_le_reflexive(a: Seq<char>)
    ensures
        text_le(a, a),
    decreases a.len(),
{
    if a.len() > 0 {
        lemma_text_le_reflexive(a.drop_first());
    }
}

/// Whether `a` stands before `b` or is `b`.
pub fn name_le(a: &str, b: &str) -> (r: bool)
    ensures
        r == text_le(a@, b@),
{
    let x = chars_of(a);
    let y = chars_of(b);
    let mut i: usize = 0;
    assert(x@.skip(0) =~= x@ && y@.skip(0) =~= y@);
    while i < x.len() && i < y.len()
        invariant
            i <= x.len(),
            i <= y.len(),
            x@ == a@,
            y@ == b@,
            text_le(x@, y@) == text_le(x@.skip(i as int), y@.skip(i as int)),
        decreases x.len() - i,
    {
        let ghost p = x@.skip(i as int);
        let ghost q = y@.skip(i as int);
        assert(p.drop_first() =~= x@.skip(i + 1));
        assert(q.drop_first() =~= y@.skip(i + 1));
        let left: char = x[i];
        let right: char = y[i];
        let c: u32 = left as u32;
        let d: u32 = right as u32;
        if c < d {
            return true;
        }
        if c > d {
            return false;
        }
        i += 1;
    }
    i == x.len()
}

/// Putting an entry into a sequence adds it to what the sequence holds.
proof fn lemma_insert_to_multiset(s: Seq<EntryData>, at: int, entry: EntryData)
    requires
        0 <= at <= s.len(),
    ensures
        s.insert(at, entry).to_multiset() == s.to_multiset().insert(entry),
{
    broadcast use vstd::seq_lib::group_to_multiset_ensures;

}

/// The subdirectories of a target directory, from what was found in it:
/// directories whose names do not start with a dot, in the order of their
/// names.
pub fn scan_directory(found: &Vec<FoundEntry>) -> (entries: Vec<DirectoryEntry>)
    ensures
        sorted_by_name(entries_data(entries@)),
        entries_data(entries@).to_multiset() == selected(found@).to_multiset(),
{
    broadcast use vstd::seq_lib::group_to_multiset_ensures;

    let mut entries: Vec<DirectoryEntry> = Vec::new();
    let mut i: usize = 0;
    while i < found.len()
        invariant
            i <= found.len(),
            sorted_by_name(entries_data(entries@)),
            entries_data(entries@).to_multiset() == selected(found@.take(i as int)).to_multiset(),
        decreases found.len() - i,
    {
        let item = &found[i];
        proof {
            let t = found@.take(i + 1);
            assert(t.drop_last() =~= found@.take(i as int));
        }
        if item.is_dir {
            if let Some(name) = file_name(item.path.as_str()) {
                let first = chars_of(name.as_str());
                if !(first.len() > 0 && first[0] == '.') {
                    let ghost before = entries_data(entries@);
                    // The place of the new entry: behind every name that
                    // stands before it or is it.
                    let mut at: usize = entries.len();
                    while at > 0 && !name_le(entries[at - 1].name.as_str(), name.as_str())
                        invariant
                            at <= entries.len(),
                            before == entries_data(entries@),
                            forall|k: int|
                                at <= k < entries.len() ==> !text_le(
                                    (#[trigger] before[k]).name,
                                    name@,
                                ),
                        decreases at,
                    {
                        at -= 1;
                    }
                    let entry = DirectoryEntry { name, path: item.path.clone() };
                    let ghost data = entry@;
                    entries.insert(at, entry);
                    proof {
                        let after = entries_data(entries@);
                        assert(after =~= before.insert(at as int, data));
                        lemma_insert_to_multiset(before, at as int, data);
                        let chosen = selected(found@.take(i as int));
                        vstd::seq_lib::to_multiset_build(chosen, data);
                        assert forall|x: int, y: int| 0 <= x <= y < after.len() implies text_le(
                            (#[trigger] after[x]).name,
                            (#[trigger] after[y]).name,
                        ) by {
                            let p = at as int;
                            if x == y {
                                lemma_text_le_reflexive(after[x].name);
                            } else if y == p {
                                // A name before the place.
                                lemma_text_le_transitive(
                                    before[x].name,
                                    before[p - 1].name,
                                    data.name,
                                );
                            } else if x == p {
                                // A name behind the place.
                                lemma_text_le_total(before[y - 1].name, data.name);
                            }
                        }
                    }
                }
            }
        }
        i += 1;
    }
    assert(found@.take(found.len() as int) =~= found@);
    entries
}

} // verus!
