//! Snapshots of filesystem entries.
//!
//! The library never touches the filesystem itself: callers walk a directory,
//! build one `FileEntry` per item found, and hand the snapshot in. Only the
//! fields below matter to the library's logic.

use vstd::prelude::*;

verus! {

/// What kind of filesystem item an entry is.
#[derive(Clone, Copy, PartialEq, Eq, Structural)]
pub enum EntryKind {
    /// A regular file.
    File,
    /// A directory.
    Dir,
    /// Anything else (symlink, device, ...).
    Other,
}

/// One filesystem item as discovered by a directory walk: its path, its
/// file name (the last path component), its size in bytes and its
/// modification time in seconds since the Unix epoch.
pub struct FileEntry {
    pub path: String,
    pub name: String,
    pub size: u64,
    pub mtime: i64,
    pub kind: EntryKind,
}

/// The mathematical view of a `FileEntry`.
pub ghost struct EntryV {
    pub path: Seq<char>,
    pub name: Seq<char>,
    pub size: int,
    pub mtime: i64,
    pub kind: EntryKind,
}

impl View for FileEntry {
    type V = EntryV;

    open spec fn view(&self) -> EntryV {
        EntryV {
            path: self.path@,
            name: self.name@,
            size: self.size as int,
            mtime: self.mtime,
            kind: self.kind,
        }
    }
}

/// The views of a sequence of entries, in order.
pub open spec fn entry_views(es: Seq<FileEntry>) -> Seq<EntryV> {
    es.map_values(|e: FileEntry| e@)
}

/// The paths of the regular files among `es`, in order.
pub open spec fn file_paths_of(es: Seq<EntryV>) -> Seq<Seq<char>>
    decreases es.len(),
{
    if es.len() == 0 {
        Seq::empty()
    } else {
        let rest = file_paths_of(es.drop_last());
        if es.last().kind is File {
            rest.push(es.last().path)
        } else {
            rest
        }
    }
}

/// Number of regular files among `es`.
pub open spec fn file_count_of(es: Seq<EntryV>) -> int
    decreases es.len(),
{
    if es.len() == 0 {
        0
    } else {
        file_count_of(es.drop_last()) + if es.last().kind is File {
            1int
        } else {
            0int
        }
    }
}

/// Selects the paths of the regular files in a snapshot, in walk order;
/// directories and other non-file entries are dropped.
pub fn regular_file_paths(entries: &Vec<FileEntry>) -> (r: Vec<String>)
    ensures
        r@.map_values(|s: String| s@) == file_paths_of(entry_views(entries@)),
{
    let mut r: Vec<String> = Vec::new();
    let mut i: usize = 0;
    while i < entries.len()
        invariant
            0 <= i <= entries@.len(),
            r@.map_values(|s: String| s@) == file_paths_of(entry_views(entries@.take(i as int))),
        decreases entries@.len() - i,
    {
        proof {
            lemma_entry_views_take_step(entries@, i as int);
        }
        if entries[i].kind == EntryKind::File {
            r.push(entries[i].path.clone());
        }
        proof {
            assert(r@.map_values(|s: String| s@) =~= file_paths_of(
                entry_views(entries@.take(i + 1)),
            ));
        }
        i = i + 1;
    }
    proof {
        assert(entries@.take(entries@.len() as int) =~= entries@);
    }
    r
}

/// Stepping a prefix of a snapshot by one entry steps its views by that
/// entry's view.
pub proof fn lemma_entry_views_take_step(es: Seq<FileEntry>, i: int)
    requires
        0 <= i < es.len(),
    ensures
        entry_views(es.take(i + 1)).len() == i + 1,
        entry_views(es.take(i + 1)).drop_last() =~= entry_views(es.take(i)),
        entry_views(es.take(i + 1)).last() == es[i]@,
{
}

} // verus!
