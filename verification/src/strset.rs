//! Exact-match string sets, kept as duplicate-free lists.
//!
//! Policy lists and the accumulated result sets of a scan all need the same
//! thing: membership by exact character content, and insertion that is a
//! no-op when an equal string is already present.

use vstd::prelude::*;

verus! {

/// A string with character content `s` occurs in `v`.
pub open spec fn seq_has_string(v: Seq<String>, s: Seq<char>) -> bool {
    exists|i: int| 0 <= i < v.len() && (#[trigger] v[i])@ == s
}

/// No two strings of `v` have the same character content.
pub open spec fn no_duplicates(v: Seq<String>) -> bool {
    forall|i: int, j: int| 0 <= i < j < v.len() ==> (#[trigger] v[i])@ != (#[trigger] v[j])@
}

/// Decides membership of `s` in `v` by exact character content.
pub fn contains_string(v: &Vec<String>, s: &String) -> (b: bool)
    ensures
        b == seq_has_string(v@, s@),
{
    let n = v.len();
    let mut i: usize = 0;
    while i < n
        invariant
            n == v@.len(),
            i <= n,
            forall|j: int| 0 <= j < i ==> (#[trigger] v@[j])@ != s@,
        decreases n - i,
    {
        if s.eq(&v[i]) {
            return true;
        }
        i += 1;
    }
    false
}

/// Inserts a copy of `s` unless an equal string is already present, so that
/// repeated insertion stays a no-op rather than an error.
pub fn insert_unique(v: &mut Vec<String>, s: &String)
    requires
        no_duplicates(old(v)@),
    ensures
        no_duplicates(final(v)@),
        forall|t: Seq<char>|
            #[trigger] seq_has_string(final(v)@, t) <==> seq_has_string(old(v)@, t) || t == s@,
{
    if !contains_string(v, s) {
        let ghost pre = v@;
        let c = s.clone();
        v.push(c);
        proof {
            assert(v@ =~= pre.push(v@[pre.len() as int]));
            assert(v@[pre.len() as int]@ == s@);
            assert forall|t: Seq<char>|
                #[trigger] seq_has_string(v@, t) <==> seq_has_string(pre, t) || t == s@ by {
                if seq_has_string(v@, t) {
                    let i = choose|i: int| 0 <= i < v@.len() && (#[trigger] v@[i])@ == t;
                    if i < pre.len() {
                        assert(pre[i]@ == t);
                    } else {
                        assert(v@[pre.len() as int]@ == s@);
                    }
                }
                if seq_has_string(pre, t) {
                    let i = choose|i: int| 0 <= i < pre.len() && (#[trigger] pre[i])@ == t;
                    assert(v@[i]@ == t);
                }
                if t == s@ {
                    assert(v@[pre.len() as int]@ == t);
                }
            }
            assert forall|i: int, j: int| 0 <= i < j < v@.len() implies (#[trigger] v@[i])@ != (
            #[trigger] v@[j])@ by {
                if j < pre.len() {
                    assert(pre[i]@ != pre[j]@);
                } else {
                    assert(v@[j]@ == s@);
                    assert(!seq_has_string(pre, s@));
                    assert(pre[i]@ != s@);
                }
            }
        }
    } else {
        proof {
            assert forall|t: Seq<char>|
                #[trigger] seq_has_string(v@, t) <==> seq_has_string(v@, t) || t == s@ by {
                if t == s@ {
                    assert(seq_has_string(v@, t));
                }
            }
        }
    }
}

} // verus!
