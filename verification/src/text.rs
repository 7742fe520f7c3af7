//! Character-level helpers for the string-keyed parts of the engine: the
//! comparison of caller-supplied words against the enumerated keywords, and
//! the protected metadata namespace.

use vstd::prelude::*;
use vstd::string::StrSliceExecFns;

verus! {

/// True when `k` lies in the namespace reserved for the data-vendor and
/// regulatory fields: every key that starts with `sftr`.
pub open spec fn is_protected_key(k: Seq<char>) -> bool {
    k.len() >= 4 && k[0] == 's' && k[1] == 'f' && k[2] == 't' && k[3] == 'r'
}

/// Whether two string slices hold the same characters.
pub fn str_eq(a: &str, b: &str) -> (r: bool)
    ensures
        r == (a@ == b@),
{
    let alen = a.unicode_len();
    let blen = b.unicode_len();
    if alen != blen {
        return false;
    }
    let mut i: usize = 0;
    while i < alen
        invariant
            alen == a@.len(),
            alen == b@.len(),
            i <= alen,
            forall|j: int| 0 <= j < i ==> a@[j] == b@[j],
        decreases alen - i,
    {
        if a.get_char(i) != b.get_char(i) {
            return false;
        }
        i += 1;
    }
    proof {
        assert(a@ =~= b@);
    }
    true
}

/// Whether `k` starts with the protected `sftr` prefix.
pub fn is_protected(k: &str) -> (r: bool)
    ensures
        r == is_protected_key(k@),
{
    let len = k.unicode_len();
    if len < 4 {
        return false;
    }
    k.get_char(0) == 's' && k.get_char(1) == 'f' && k.get_char(2) == 't' && k.get_char(3) == 'r'
}

} // verus!
