//! Glob-based name filtering.
//!
//! The pattern language itself is the `glob` crate's, reached through a
//! trusted wrapper; the filtering of a list of names against a pattern is
//! verified.

use vstd::prelude::*;

verus! {

/// Whether the `glob` crate accepts `pat` as a well-formed pattern.
pub uninterp spec fn glob_pattern_ok(pat: Seq<char>) -> bool;

/// Whether `name` matches the glob pattern `pat` under default match
/// options.
pub uninterp spec fn glob_match_of(pat: Seq<char>, name: Seq<char>) -> bool;

/// Relies on `glob::Pattern::new` and `glob::Pattern::matches`: `new`
/// compiles a Unix-shell-style pattern and errs exactly on a malformed
/// one, and `matches` tests a string against the compiled pattern with the
/// default match options. Both depend only on the two strings.
#[verifier::external_body]
fn glob_match(pattern: &str, name: &str) -> (r: Option<bool>)
    ensures
        (r is Some) == glob_pattern_ok(pattern@),
        r is Some ==> r->0 == glob_match_of(pattern@, name@),
{
    match glob::Pattern::new(pattern) {
        Ok(p) => Some(p.matches(name)),
        Err(_) => None,
    }
}

/// The names among `names` that match `pat`, in order.
pub open spec fn matching_of(pat: Seq<char>, names: Seq<Seq<char>>) -> Seq<Seq<char>>
    decreases names.len(),
{
    if names.len() == 0 {
        Seq::empty()
    } else {
        let rest = matching_of(pat, names.drop_last());
        if glob_match_of(pat, names.last()) {
            rest.push(names.last())
        } else {
            rest
        }
    }
}

/// Stepping a prefix of a list of strings by one steps its views by that
/// string's view.
proof fn lemma_string_views_take_step(ss: Seq<String>, i: int)
    requires
        0 <= i < ss.len(),
    ensures
        ss.take(i + 1).map_values(|s: String| s@).len() == i + 1,
        ss.take(i + 1).map_values(|s: String| s@).drop_last() =~= ss.take(i).map_values(
            |s: String| s@,
        ),
        ss.take(i + 1).map_values(|s: String| s@).last() == ss[i]@,
{
}

/// Filters a list of names by a glob pattern: returns exactly the names
/// that match, in their original order, or `None` when the pattern itself
/// is malformed.
pub fn find_matching(pattern: &str, names: &Vec<String>) -> (r: Option<Vec<String>>)
    ensures
        (r is Some) == glob_pattern_ok(pattern@),
        r is Some ==> r->0@.map_values(|s: String| s@) == matching_of(
            pattern@,
            names@.map_values(|s: String| s@),
        ),
{
    if glob_match(pattern, "").is_none() {
        return None;
    }
    let mut out: Vec<String> = Vec::new();
    let mut i: usize = 0;
    while i < names.len()
        invariant
            0 <= i <= names@.len(),
            glob_pattern_ok(pattern@),
            out@.map_values(|s: String| s@) == matching_of(
                pattern@,
                names@.take(i as int).map_values(|s: String| s@),
            ),
        decreases names@.len() - i,
    {
        proof {
            lemma_string_views_take_step(names@, i as int);
        }
        match glob_match(pattern, names[i].as_str()) {
            Some(m) => {
                if m {
                    out.push(names[i].clone());
                }
            },
            None => {
                return None;
            },
        }
        proof {
            assert(out@.map_values(|s: String| s@) =~= matching_of(
                pattern@,
                names@.take(i + 1).map_values(|s: String| s@),
            ));
        }
        i = i + 1;
    }
    proof {
        assert(names@.take(names@.len() as int) =~= names@);
    }
    Some(out)
}

} // verus!
