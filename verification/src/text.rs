//! Small verified helpers on strings.

use vstd::prelude::*;

verus! {

/// Character-for-character string equality.
pub fn str_eq(a: &str, b: &str) -> (r: bool)
    ensures
        r == (a@ == b@),
{
    let la = a.unicode_len();
    let lb = b.unicode_len();
    if la != lb {
        return false;
    }
    let mut i: usize = 0;
    while i < la
        invariant
            la == a@.len(),
            la == b@.len(),
            i <= la,
            forall|j: int| 0 <= j < i ==> a@[j] == b@[j],
        decreases la - i,
    {
        if a.get_char(i) != b.get_char(i) {
            return false;
        }
        i = i + 1;
    }
    proof {
        assert(a@ =~= b@);
    }
    true
}

/// What a string looks like after the suffix, if present, is taken off its end.
pub open spec fn spec_remove_suffix(v: Seq<char>, suffix: Seq<char>) -> Seq<char> {
    if suffix.len() <= v.len() && v.subrange(v.len() - suffix.len(), v.len() as int)
        == suffix {
        v.subrange(0, v.len() - suffix.len())
    } else {
        v
    }
}

/// Removes `suffix` from the end of `value` if it ends with it; otherwise
/// returns `value` unchanged.
pub fn remove_suffix(value: &str, suffix: &str) -> (r: String)
    ensures
        r@ == spec_remove_suffix(value@, suffix@),
{
    let n = value.unicode_len();
    let m = suffix.unicode_len();
    if m > n {
        return value.to_owned();
    }
    let tail = value.substring_char(n - m, n);
    if str_eq(tail, suffix) {
        let head = value.substring_char(0, n - m);
        proof {
            assert(head@ =~= spec_remove_suffix(value@, suffix@));
        }
        head.to_owned()
    } else {
        value.to_owned()
    }
}

} // verus!
