//! Bucket-key derivation: the name of the subdirectory a file is organized
//! into, either its extension (by-type) or the UTC calendar date of its
//! modification time (by-date).

use vstd::prelude::*;
use crate::date::{civil_of, date_chars, date_from_epoch};
use crate::entry::EntryV;

verus! {

/// Which bucketing policy an organization run uses.
#[derive(Clone, Copy, PartialEq, Eq, Structural)]
pub enum Policy {
    /// Bucket by file-name extension.
    ByType,
    /// Bucket by modification date, `YYYY-MM-DD`.
    ByDate,
}

/// The key used for files with no extension.
pub open spec fn unknown_key() -> Seq<char> {
    "unknown"@
}

/// The index of the last `.` among the first `n` characters of `name`, or
/// `-1` if there is none.
pub open spec fn last_dot_before(name: Seq<char>, n: int) -> int
    decreases n,
{
    if n <= 0 {
        -1
    } else if name[n - 1] == '.' {
        n - 1
    } else {
        last_dot_before(name, n - 1)
    }
}

/// The by-type bucket key of a file name: the characters after the last
/// `.`, or `unknown` when there is no `.` or nothing follows the last one.
pub open spec fn type_key(name: Seq<char>) -> Seq<char> {
    let i = last_dot_before(name, name.len() as int);
    if 0 <= i && i + 1 < name.len() {
        name.subrange(i + 1, name.len() as int)
    } else {
        unknown_key()
    }
}

/// Derives the by-type bucket key: the extension after the last `.` of the
/// file name, case-preserving, or `unknown` for a name with no extension
/// (no dot at all, or a trailing dot).
pub fn bucket_key_by_type(name: &str) -> (r: String)
    ensures
        r@ == type_key(name@),
{
    let len = name.unicode_len();
    let mut j: usize = len;
    while j > 0
        invariant
            0 <= j <= len,
            len == name@.len(),
            last_dot_before(name@, len as int) == last_dot_before(name@, j as int),
        decreases j,
    {
        if name.get_char(j - 1) == '.' {
            if j < len {
                let ext = name.substring_char(j, len);
                return ext.to_owned();
            } else {
                return "unknown".to_owned();
            }
        }
        j = j - 1;
    }
    "unknown".to_owned()
}

/// The by-date bucket key of a modification timestamp: the `YYYY-MM-DD`
/// characters of its UTC calendar date, or `None` when the timestamp has no
/// representable date in the years 0 through 9999.
pub open spec fn date_key_of(secs: i64) -> Option<Seq<char>> {
    match civil_of(secs) {
        Some(t) => if 0 <= t.0 <= 9999 {
            Some(date_chars(t.0 as int, t.1 as int, t.2 as int))
        } else {
            None
        },
        None => None,
    }
}

/// Derives the by-date bucket key for a modification timestamp. Every
/// timestamp from the Unix epoch through the end of the year 9999 yields a
/// key.
pub fn date_bucket_key(secs: i64) -> (r: Option<String>)
    ensures
        (r is Some) == (date_key_of(secs) is Some),
        r is Some ==> Some(r->0@) == date_key_of(secs),
        0 <= secs <= 253_402_300_799 ==> r is Some,
{
    match date_from_epoch(secs) {
        Some(d) => Some(d.format()),
        None => None,
    }
}

/// The bucket key a policy assigns to an entry: by-type keys always exist,
/// a by-date key only when the modification time has a representable date.
pub open spec fn bucket_of(pol: Policy, e: EntryV) -> Option<Seq<char>> {
    match pol {
        Policy::ByType => Some(type_key(e.name)),
        Policy::ByDate => date_key_of(e.mtime),
    }
}

/// Derives the bucket key of one entry under a policy.
pub fn bucket_key(pol: Policy, e: &crate::entry::FileEntry) -> (r: Option<String>)
    ensures
        (r is Some) == (bucket_of(pol, e@) is Some),
        r is Some ==> Some(r->0@) == bucket_of(pol, e@),
{
    match pol {
        Policy::ByType => Some(bucket_key_by_type(e.name.as_str())),
        Policy::ByDate => date_bucket_key(e.mtime),
    }
}

} // verus!
