//! The organization engine.
//!
//! `plan_organize` consumes a snapshot of directory entries and produces the
//! complete plan of one organization run: which bucket directories to create
//! and which file moves to perform, in order. The caller carries the plan
//! out; planning itself touches no filesystem state.
//!
//! Policy for repeated runs: the engine plans over the snapshot it is given
//! and nothing else. The intended snapshot is the root's direct children, so
//! a run never re-descends into the bucket directories it creates; after a
//! by-type run has moved every regular file into a bucket, a fresh snapshot
//! of the root holds only directories and the next plan is empty
//! (`lemma_rerun_is_empty`).

use vstd::prelude::*;
use crate::bucket::{bucket_key, bucket_of, Policy};
use crate::entry::{entry_views, file_count_of, lemma_entry_views_take_step, EntryKind, EntryV, FileEntry};
use crate::text::{join_path, joined};

verus! {

/// One planned relocation: move the file at `src` into the bucket
/// directory `dest_dir` under its original file name, i.e. to `dest`.
pub struct MovePlan {
    pub src: String,
    pub bucket: String,
    pub dest_dir: String,
    pub dest: String,
}

/// The mathematical view of a `MovePlan`.
pub ghost struct MoveV {
    pub src: Seq<char>,
    pub bucket: Seq<char>,
    pub dest_dir: Seq<char>,
    pub dest: Seq<char>,
}

impl View for MovePlan {
    type V = MoveV;

    open spec fn view(&self) -> MoveV {
        MoveV { src: self.src@, bucket: self.bucket@, dest_dir: self.dest_dir@, dest: self.dest@ }
    }
}

/// The move an entry with bucket key `k` gets under root `root`.
pub open spec fn move_of(root: Seq<char>, e: EntryV, k: Seq<char>) -> MoveV {
    MoveV {
        src: e.path,
        bucket: k,
        dest_dir: joined(root, k),
        dest: joined(joined(root, k), e.name),
    }
}

/// Whether an entry is planned for a move: a regular file whose bucket key
/// exists under the policy.
pub open spec fn is_moved(pol: Policy, e: EntryV) -> bool {
    e.kind is File && bucket_of(pol, e) is Some
}

/// Whether an entry is skipped: a regular file without a bucket key (a
/// modification time with no representable date).
pub open spec fn is_skipped(pol: Policy, e: EntryV) -> bool {
    e.kind is File && bucket_of(pol, e) is None
}

/// The planned moves for a snapshot, in order.
pub open spec fn moves_of(root: Seq<char>, es: Seq<EntryV>, pol: Policy) -> Seq<MoveV>
    decreases es.len(),
{
    if es.len() == 0 {
        Seq::empty()
    } else {
        let rest = moves_of(root, es.drop_last(), pol);
        if is_moved(pol, es.last()) {
            rest.push(move_of(root, es.last(), bucket_of(pol, es.last())->0))
        } else {
            rest
        }
    }
}

/// The bucket directories to create for a snapshot: the destination
/// directory of each planned move, first appearance order, no duplicates.
pub open spec fn dirs_of(root: Seq<char>, es: Seq<EntryV>, pol: Policy) -> Seq<Seq<char>>
    decreases es.len(),
{
    if es.len() == 0 {
        Seq::empty()
    } else {
        let rest = dirs_of(root, es.drop_last(), pol);
        if is_moved(pol, es.last()) && !rest.contains(
            joined(root, bucket_of(pol, es.last())->0),
        ) {
            rest.push(joined(root, bucket_of(pol, es.last())->0))
        } else {
            rest
        }
    }
}

/// The paths of the entries a run skips, in order.
pub open spec fn skipped_of(es: Seq<EntryV>, pol: Policy) -> Seq<Seq<char>>
    decreases es.len(),
{
    if es.len() == 0 {
        Seq::empty()
    } else {
        let rest = skipped_of(es.drop_last(), pol);
        if is_skipped(pol, es.last()) {
            rest.push(es.last().path)
        } else {
            rest
        }
    }
}

/// The plan of one organization run.
pub struct OrganizePlan {
    /// Bucket directories to create (if absent), in first-use order.
    pub dirs: Vec<String>,
    /// File moves to perform, in snapshot order.
    pub moves: Vec<MovePlan>,
    /// Paths of regular files that could not be given a bucket key.
    pub skipped: Vec<String>,
}

/// Returns whether `v` holds a string equal to `x`.
fn contains_string(v: &Vec<String>, x: &String) -> (r: bool)
    ensures
        r == v@.map_values(|s: String| s@).contains(x@),
{
    let mut i: usize = 0;
    while i < v.len()
        invariant
            0 <= i <= v@.len(),
            forall|j: int| 0 <= j < i ==> #[trigger] v@[j]@ != x@,
        decreases v@.len() - i,
    {
        if v[i].eq(x) {
            assert(v@.map_values(|s: String| s@).contains(x@)) by {
                assert(v@.map_values(|s: String| s@)[i as int] == x@);
            }
            return true;
        }
        i = i + 1;
    }
    proof {
        let m = v@.map_values(|s: String| s@);
        if m.contains(x@) {
            let k = choose|k: int| 0 <= k < m.len() && m[k] == x@;
            assert(v@[k]@ == x@);
            assert(false);
        }
    }
    false
}

/// Plans one organization run over a snapshot of directory entries: every
/// regular file with a bucket key gets exactly one move into
/// `root/<key>/<name>`, the needed bucket directories are listed once each
/// in first-use order, and regular files without a key are listed as
/// skipped. Non-file entries are ignored.
pub fn plan_organize(root: &str, entries: &Vec<FileEntry>, pol: Policy) -> (p: OrganizePlan)
    ensures
        p.moves@.map_values(|m: MovePlan| m@) == moves_of(root@, entry_views(entries@), pol),
        p.dirs@.map_values(|s: String| s@) == dirs_of(root@, entry_views(entries@), pol),
        p.skipped@.map_values(|s: String| s@) == skipped_of(entry_views(entries@), pol),
{
    let mut moves: Vec<MovePlan> = Vec::new();
    let mut dirs: Vec<String> = Vec::new();
    let mut skipped: Vec<String> = Vec::new();
    let mut i: usize = 0;
    while i < entries.len()
        invariant
            0 <= i <= entries@.len(),
            moves@.map_values(|m: MovePlan| m@) == moves_of(
                root@,
                entry_views(entries@.take(i as int)),
                pol,
            ),
            dirs@.map_values(|s: String| s@) == dirs_of(
                root@,
                entry_views(entries@.take(i as int)),
                pol,
            ),
            skipped@.map_values(|s: String| s@) == skipped_of(
                entry_views(entries@.take(i as int)),
                pol,
            ),
        decreases entries@.len() - i,
    {
        proof {
            lemma_entry_views_take_step(entries@, i as int);
        }
        let e = &entries[i];
        if e.kind == EntryKind::File {
            match bucket_key(pol, e) {
                Some(k) => {
                    let dest_dir = join_path(root, k.as_str());
                    let dest = join_path(dest_dir.as_str(), e.name.as_str());
                    if !contains_string(&dirs, &dest_dir) {
                        dirs.push(dest_dir.clone());
                    }
                    moves.push(
                        MovePlan { src: e.path.clone(), bucket: k, dest_dir, dest },
                    );
                },
                None => {
                    skipped.push(e.path.clone());
                },
            }
        }
        proof {
            let evs = entry_views(entries@.take(i + 1));
            assert(moves@.map_values(|m: MovePlan| m@) =~= moves_of(root@, evs, pol));
            assert(dirs@.map_values(|s: String| s@) =~= dirs_of(root@, evs, pol));
            assert(skipped@.map_values(|s: String| s@) =~= skipped_of(evs, pol));
        }
        i = i + 1;
    }
    proof {
        assert(entries@.take(entries@.len() as int) =~= entries@);
    }
    OrganizePlan { dirs, moves, skipped }
}

/// A run plans one move or one skip for every regular file of the snapshot
/// and nothing for any other entry.
pub proof fn lemma_move_count(root: Seq<char>, es: Seq<EntryV>, pol: Policy)
    ensures
        moves_of(root, es, pol).len() + skipped_of(es, pol).len() == file_count_of(es),
    decreases es.len(),
{
    if es.len() > 0 {
        lemma_move_count(root, es.drop_last(), pol);
    }
}

/// Every regular file of the snapshot that has a bucket key is planned to
/// move, under its original file name, into the bucket directory of its
/// key.
pub proof fn lemma_each_file_planned(root: Seq<char>, es: Seq<EntryV>, pol: Policy, i: int)
    requires
        0 <= i < es.len(),
        is_moved(pol, es[i]),
    ensures
        exists|j: int|
            0 <= j < moves_of(root, es, pol).len() && moves_of(root, es, pol)[j] == move_of(
                root,
                es[i],
                bucket_of(pol, es[i])->0,
            ),
    decreases es.len(),
{
    let ms = moves_of(root, es, pol);
    if i == es.len() - 1 {
        assert(es.last() == es[i]);
        assert(ms[ms.len() - 1] == move_of(root, es[i], bucket_of(pol, es[i])->0));
    } else {
        lemma_each_file_planned(root, es.drop_last(), pol, i);
        let rest = moves_of(root, es.drop_last(), pol);
        let j = choose|j: int|
            0 <= j < rest.len() && rest[j] == move_of(
                root,
                es.drop_last()[i],
                bucket_of(pol, es.drop_last()[i])->0,
            );
        assert(es.drop_last()[i] == es[i]);
        assert(ms[j] == move_of(root, es[i], bucket_of(pol, es[i])->0));
    }
}

/// Every planned move comes from a regular file of the snapshot, keyed by
/// the policy.
pub proof fn lemma_moves_from_files(root: Seq<char>, es: Seq<EntryV>, pol: Policy, j: int)
    requires
        0 <= j < moves_of(root, es, pol).len(),
    ensures
        exists|i: int|
            0 <= i < es.len() && is_moved(pol, es[i]) && moves_of(root, es, pol)[j] == move_of(
                root,
                es[i],
                bucket_of(pol, es[i])->0,
            ),
    decreases es.len(),
{
    let ms = moves_of(root, es, pol);
    let rest = moves_of(root, es.drop_last(), pol);
    if is_moved(pol, es.last()) && j == ms.len() - 1 {
        let i = es.len() - 1;
        assert(es[i] == es.last());
        assert(ms[j] == move_of(root, es[i], bucket_of(pol, es[i])->0));
    } else {
        lemma_moves_from_files(root, es.drop_last(), pol, j);
        let i = choose|i: int|
            0 <= i < es.drop_last().len() && is_moved(pol, es.drop_last()[i]) && rest[j]
                == move_of(root, es.drop_last()[i], bucket_of(pol, es.drop_last()[i])->0);
        assert(es.drop_last()[i] == es[i]);
        assert(ms[j] == move_of(root, es[i], bucket_of(pol, es[i])->0));
    }
}

/// Under the by-type policy every regular file has a key, so a run skips
/// nothing and plans exactly one move per regular file: carried out, it
/// leaves the snapshot with no regular file in place.
pub proof fn lemma_by_type_moves_all(root: Seq<char>, es: Seq<EntryV>)
    ensures
        skipped_of(es, Policy::ByType) =~= Seq::<Seq<char>>::empty(),
        moves_of(root, es, Policy::ByType).len() == file_count_of(es),
    decreases es.len(),
{
    if es.len() > 0 {
        lemma_by_type_moves_all(root, es.drop_last());
    }
    lemma_move_count(root, es, Policy::ByType);
}

/// The planned bucket directories are exactly the destination directories
/// of the planned moves, each listed once: one bucket per distinct key.
pub proof fn lemma_dirs_exact(root: Seq<char>, es: Seq<EntryV>, pol: Policy)
    ensures
        dirs_of(root, es, pol).no_duplicates(),
        forall|j: int|
            0 <= j < moves_of(root, es, pol).len() ==> dirs_of(root, es, pol).contains(
                #[trigger] moves_of(root, es, pol)[j].dest_dir,
            ),
        forall|d: Seq<char>|
            #[trigger] dirs_of(root, es, pol).contains(d) ==> exists|j: int|
                0 <= j < moves_of(root, es, pol).len() && moves_of(root, es, pol)[j].dest_dir
                    == d,
    decreases es.len(),
{
    let ds = dirs_of(root, es, pol);
    let ms = moves_of(root, es, pol);
    if es.len() == 0 {
    } else {
        lemma_dirs_exact(root, es.drop_last(), pol);
        let drest = dirs_of(root, es.drop_last(), pol);
        let mrest = moves_of(root, es.drop_last(), pol);
        if is_moved(pol, es.last()) {
            let d_new = joined(root, bucket_of(pol, es.last())->0);
            assert(ms[ms.len() - 1].dest_dir == d_new);
            assert forall|j: int| 0 <= j < ms.len() implies ds.contains(
                #[trigger] ms[j].dest_dir,
            ) by {
                if j < mrest.len() {
                    assert(ms[j] == mrest[j]);
                    let k = choose|k: int| 0 <= k < drest.len() && drest[k] == mrest[j].dest_dir;
                    assert(ds[k] == mrest[j].dest_dir);
                } else {
                    if drest.contains(d_new) {
                        let k = choose|k: int| 0 <= k < drest.len() && drest[k] == d_new;
                        assert(ds[k] == d_new);
                    } else {
                        assert(ds[ds.len() - 1] == d_new);
                    }
                }
            }
            assert forall|d: Seq<char>| #[trigger] ds.contains(d) implies exists|j: int|
                0 <= j < ms.len() && ms[j].dest_dir == d by {
                if drest.contains(d) {
                    let j = choose|j: int| 0 <= j < mrest.len() && mrest[j].dest_dir == d;
                    assert(ms[j].dest_dir == d);
                } else {
                    assert(d == d_new);
                    assert(ms[ms.len() - 1].dest_dir == d);
                }
            }
        } else {
            assert(ds =~= drest);
            assert(ms =~= mrest);
            assert forall|j: int| 0 <= j < ms.len() implies ds.contains(
                #[trigger] ms[j].dest_dir,
            ) by {
                assert(mrest[j].dest_dir == ms[j].dest_dir);
            }
        }
    }
}

/// Appending different children to the same directory gives different
/// paths, so one bucket directory stands for exactly one key.
pub proof fn lemma_joined_injective(root: Seq<char>, a: Seq<char>, b: Seq<char>)
    requires
        joined(root, a) == joined(root, b),
    ensures
        a == b,
{
    assert(joined(root, a).len() == root.len() + 1 + a.len());
    assert(joined(root, b).len() == root.len() + 1 + b.len());
    assert forall|i: int| 0 <= i < a.len() implies a[i] == b[i] by {
        assert(joined(root, a)[root.len() + 1 + i] == a[i]);
        assert(joined(root, b)[root.len() + 1 + i] == b[i]);
    }
    assert(a =~= b);
}

/// Under the by-date policy, every regular file whose modification time
/// has a UTC calendar date in the years 0 through 9999 is planned to move
/// into the bucket named by that date in `YYYY-MM-DD` form.
pub proof fn lemma_by_date_places_by_date(root: Seq<char>, es: Seq<EntryV>, i: int)
    requires
        0 <= i < es.len(),
        es[i].kind is File,
        crate::bucket::date_key_of(es[i].mtime) is Some,
    ensures
        exists|j: int|
            0 <= j < moves_of(root, es, Policy::ByDate).len() && moves_of(
                root,
                es,
                Policy::ByDate,
            )[j] == move_of(root, es[i], crate::bucket::date_key_of(es[i].mtime)->0),
{
    lemma_each_file_planned(root, es, Policy::ByDate, i);
}

/// A snapshot with no regular files — the root's direct children after a
/// completed by-type run are only the bucket directories — yields an empty
/// plan: organization run twice plans no second move.
pub proof fn lemma_rerun_is_empty(root: Seq<char>, es: Seq<EntryV>, pol: Policy)
    requires
        forall|i: int| 0 <= i < es.len() ==> !((#[trigger] es[i]).kind is File),
    ensures
        moves_of(root, es, pol) =~= Seq::<MoveV>::empty(),
        dirs_of(root, es, pol) =~= Seq::<Seq<char>>::empty(),
        skipped_of(es, pol) =~= Seq::<Seq<char>>::empty(),
    decreases es.len(),
{
    if es.len() > 0 {
        assert(es.last() == es[es.len() - 1]);
        assert(forall|i: int|
            0 <= i < es.drop_last().len() ==> es.drop_last()[i] == es[i]);
        lemma_rerun_is_empty(root, es.drop_last(), pol);
    }
}

} // verus!
