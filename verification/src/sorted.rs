use vstd::prelude::*;
use crate::taghash::{TagHash, TagHash64};

verus! {

pub open spec fn sorted_u32(s: Seq<u32>) -> bool {
    forall|i: int, j: int| 0 <= i <= j < s.len() ==> s[i] <= s[j]
}

pub open spec fn sorted_u64(s: Seq<u64>) -> bool {
    forall|i: int, j: int| 0 <= i <= j < s.len() ==> s[i] <= s[j]
}

pub open spec fn tag_values(s: Seq<TagHash>) -> Seq<u32> {
    s.map_values(|t: TagHash| t.0)
}

pub open spec fn tag64_values(s: Seq<TagHash64>) -> Seq<u64> {
    s.map_values(|t: TagHash64| t.0)
}

/// Sorts in ascending order: calls `slice::sort_unstable`, which std documents as sorting the
/// slice (for integers, by their numeric order) without changing its elements.
#[verifier::external_body]
pub(crate) fn sort_u32s(v: &mut Vec<u32>)
    ensures
        sorted_u32(final(v)@),
        final(v)@.to_multiset() == old(v)@.to_multiset(),
{
    v.sort_unstable();
}

/// Sorts in ascending order: calls `slice::sort_unstable` on 64-bit integers.
#[verifier::external_body]
pub(crate) fn sort_u64s(v: &mut Vec<u64>)
    ensures
        sorted_u64(final(v)@),
        final(v)@.to_multiset() == old(v)@.to_multiset(),
{
    v.sort_unstable();
}

/// Binary search for `x` in an ascending sequence.
pub fn contains_sorted_u32(s: &[u32], x: u32) -> (r: bool)
    requires
        sorted_u32(s@),
    ensures
        r == s@.contains(x),
{
    let mut lo: usize = 0;
    let mut hi: usize = s.len();
    while lo < hi
        invariant
            lo <= hi <= s.len(),
            sorted_u32(s@),
            forall|i: int| 0 <= i < lo ==> s@[i] < x,
            forall|i: int| hi <= i < s.len() ==> s@[i] > x,
        decreases hi - lo,
    {
        let mid = lo + (hi - lo) / 2;
        if s[mid] == x {
            return true;
        } else if s[mid] < x {
            lo = mid + 1;
        } else {
            hi = mid;
        }
    }
    proof {
        if s@.contains(x) {
            let k = choose|k: int| 0 <= k < s.len() && s@[k] == x;
            assert(s@[k] == x);
        }
    }
    false
}

/// Binary search for `x` in an ascending sequence.
pub fn contains_sorted_u64(s: &[u64], x: u64) -> (r: bool)
    requires
        sorted_u64(s@),
    ensures
        r == s@.contains(x),
{
    let mut lo: usize = 0;
    let mut hi: usize = s.len();
    while lo < hi
        invariant
            lo <= hi <= s.len(),
            sorted_u64(s@),
            forall|i: int| 0 <= i < lo ==> s@[i] < x,
            forall|i: int| hi <= i < s.len() ==> s@[i] > x,
        decreases hi - lo,
    {
        let mid = lo + (hi - lo) / 2;
        if s[mid] == x {
            return true;
        } else if s[mid] < x {
            lo = mid + 1;
        } else {
            hi = mid;
        }
    }
    proof {
        if s@.contains(x) {
            let k = choose|k: int| 0 <= k < s.len() && s@[k] == x;
            assert(s@[k] == x);
        }
    }
    false
}

} // verus!
