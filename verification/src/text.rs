//! Small string utilities shared by the rest of the library.

use vstd::prelude::*;

verus! {

/// Returns whether two string slices hold the same characters.
pub fn str_eq(a: &str, b: &str) -> (r: bool)
    ensures
        r == (a@ == b@),
{
    let alen = a.unicode_len();
    let blen = b.unicode_len();
    if alen != blen {
        assert(a@ != b@);
        return false;
    }
    let mut i: usize = 0;
    while i < alen
        invariant
            alen == a@.len(),
            blen == b@.len(),
            alen == blen,
            0 <= i <= alen,
            forall|j: int| 0 <= j < i ==> a@[j] == b@[j],
        decreases alen - i,
    {
        if a.get_char(i) != b.get_char(i) {
            assert(a@ != b@);
            return false;
        }
        i = i + 1;
    }
    assert(a@ =~= b@);
    true
}

/// The characters of `dir` followed by one `/` and the characters of `child`.
pub open spec fn joined(dir: Seq<char>, child: Seq<char>) -> Seq<char> {
    dir + seq!['/'] + child
}

/// Appends `child` to `dir` with a single `/` separator.
pub fn join_path(dir: &str, child: &str) -> (r: String)
    ensures
        r@ == joined(dir@, child@),
{
    proof {
        reveal_strlit("/");
    }
    let mut s = String::from_str(dir);
    s.append("/");
    s.append(child);
    proof {
        assert(s@ =~= joined(dir@, child@));
    }
    s
}

} // verus!
