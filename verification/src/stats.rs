//! Aggregate statistics over a snapshot of directory entries: how many
//! regular files there are and how many bytes they hold in total.

use vstd::prelude::*;
use crate::entry::{entry_views, file_count_of, lemma_entry_views_take_step, EntryKind, EntryV, FileEntry};

verus! {

/// File count and total size of the regular files in a snapshot.
#[derive(Clone, Copy, PartialEq, Eq, Structural, Debug)]
pub struct Stats {
    pub count: u64,
    pub total: u64,
}

/// The sum of the sizes of the regular files among `es`, in bytes.
pub open spec fn total_size_of(es: Seq<EntryV>) -> int
    decreases es.len(),
{
    if es.len() == 0 {
        0
    } else {
        total_size_of(es.drop_last()) + if es.last().kind is File {
            es.last().size
        } else {
            0int
        }
    }
}

/// Counts the regular files in a snapshot and sums their sizes. The total
/// saturates at `u64::MAX` bytes instead of overflowing.
pub fn compute_stats(entries: &Vec<FileEntry>) -> (r: Stats)
    ensures
        r.count as int == file_count_of(entry_views(entries@)),
        r.total as int == if total_size_of(entry_views(entries@)) <= u64::MAX as int {
            total_size_of(entry_views(entries@))
        } else {
            u64::MAX as int
        },
{
    let mut count: u64 = 0;
    let mut total: u64 = 0;
    let mut i: usize = 0;
    while i < entries.len()
        invariant
            0 <= i <= entries@.len(),
            count as int == file_count_of(entry_views(entries@.take(i as int))),
            count <= i,
            total as int == if total_size_of(entry_views(entries@.take(i as int))) <= u64::MAX
                as int {
                total_size_of(entry_views(entries@.take(i as int)))
            } else {
                u64::MAX as int
            },
        decreases entries@.len() - i,
    {
        proof {
            lemma_entry_views_take_step(entries@, i as int);
        }
        if entries[i].kind == EntryKind::File {
            count = count + 1;
            let size = entries[i].size;
            if total <= u64::MAX - size {
                total = total + size;
            } else {
                total = u64::MAX;
            }
        }
        i = i + 1;
    }
    proof {
        assert(entries@.take(entries@.len() as int) =~= entries@);
    }
    Stats { count, total }
}

} // verus!
