//! Array layout of tag data, as the hex view outlines it.
use vstd::prelude::*;
use crate::bytes::{Endian, read_u32_at};
use crate::scanner::{array_header, read_array_header, word_at, word_count};

verus! {

/// An array found in tag data.
#[derive(Clone, Copy, Debug, PartialEq, Eq, Structural)]
pub struct ArrayRange {
    /// Start of array header
    pub start: u64,
    /// Start of array data
    pub data_start: u64,
    pub end: u64,
    pub class: u32,
    pub length: u64,
}

/// Class ids the hex view treats as array headers.
pub open spec fn is_hex_array_marker(v: u32) -> bool {
    v == 0x80809fbd || v == 0x80809fb8 || v == 0x80800184 || v == 0x80800142
}

/// Array headers among the first `n` words: for each marker word whose following header fits,
/// the header's offset, element count and class.
pub open spec fn hex_array_headers(endian: Endian, legacy: bool, data: Seq<u8>, n: nat) -> Seq<(int, nat, u32)>
    decreases n,
{
    if n == 0 {
        seq![]
    } else {
        let rest = hex_array_headers(endian, legacy, data, (n - 1) as nat);
        let o = 4 * (n - 1);
        if is_hex_array_marker(word_at(endian, data, o)) && array_header(legacy, data, o + 4) is Some {
            let (count, class) = array_header(legacy, data, o + 4)->0;
            rest.push((o + 4, count, class))
        } else {
            rest
        }
    }
}

/// The arrays of tag data: each runs from its header to the next one, the last to the end.
pub open spec fn array_ranges(endian: Endian, legacy: bool, data: Seq<u8>) -> Seq<ArrayRange> {
    let hs = hex_array_headers(endian, legacy, data, word_count(data));
    Seq::new(
        hs.len(),
        |i: int|
            ArrayRange {
                start: hs[i].0 as u64,
                data_start: (hs[i].0 + 16) as u64,
                end: if i + 1 < hs.len() { hs[i + 1].0 as u64 } else { data.len() as u64 },
                class: hs[i].2,
                length: hs[i].1 as u64,
            },
    )
}

proof fn lemma_headers_bounded(endian: Endian, legacy: bool, data: Seq<u8>, n: nat)
    requires
        n <= word_count(data),
    ensures
        forall|i: int| 0 <= i < hex_array_headers(endian, legacy, data, n).len() ==> #[trigger] hex_array_headers(endian, legacy, data, n)[i].0 + 8 <= data.len(),
    decreases n,
{
    if n > 0 {
        let m = (n - 1) as nat;
        lemma_headers_bounded(endian, legacy, data, m);
        let rest = hex_array_headers(endian, legacy, data, m);
        let all = hex_array_headers(endian, legacy, data, n);
        assert forall|i: int| 0 <= i < all.len() implies #[trigger] all[i].0 + 8 <= data.len() by {
            if i < rest.len() {
                assert(all[i] == rest[i]);
            }
        }
    }
}

/// Finds the arrays of tag data: array headers follow one of the marker class ids; the legacy
/// layout has 32-bit big-endian count and class, the other a 64-bit count and a 32-bit class,
/// little-endian.
pub fn find_all_array_ranges(data: &[u8], endian: Endian, legacy: bool) -> (r: Vec<ArrayRange>)
    requires
        data@.len() + 16 <= u64::MAX,
    ensures
        r@ == array_ranges(endian, legacy, data@),
{
    let n = data.len() / 4;
    let mut headers: Vec<(u64, u64, u32)> = Vec::new();
    let mut k: usize = 0;
    while k < n
        invariant
            k <= n,
            n == word_count(data@),
            n == data.len() / 4,
            data@.len() + 16 <= u64::MAX,
            headers@.len() == hex_array_headers(endian, legacy, data@, k as nat).len(),
            forall|i: int| 0 <= i < headers@.len() ==> {
                let h = hex_array_headers(endian, legacy, data@, k as nat)[i];
                &&& #[trigger] headers@[i].0 == h.0
                &&& headers@[i].1 == h.1
                &&& headers@[i].2 == h.2
            },
        decreases n - k,
    {
        let o = 4 * k;
        let value = read_u32_at(data, o, endian);
        let is_marker = value == 0x80809fbd || value == 0x80809fb8 || value == 0x80800184 || value == 0x80800142;
        let ghost prev = hex_array_headers(endian, legacy, data@, k as nat);
        let ghost before = headers@;
        if is_marker {
            match read_array_header(data, o + 4, legacy) {
                Some((count, class)) => {
                    headers.push(((o + 4) as u64, count, class));
                    assert(hex_array_headers(endian, legacy, data@, (k + 1) as nat) == prev.push((o + 4, count as nat, class)));
                },
                None => {
                    assert(hex_array_headers(endian, legacy, data@, (k + 1) as nat) == prev);
                },
            }
        } else {
            assert(hex_array_headers(endian, legacy, data@, (k + 1) as nat) == prev);
        }
        proof {
            let cur = hex_array_headers(endian, legacy, data@, (k + 1) as nat);
            assert forall|i: int| 0 <= i < headers@.len() implies {
                let h = cur[i];
                &&& #[trigger] headers@[i].0 == h.0
                &&& headers@[i].1 == h.1
                &&& headers@[i].2 == h.2
            } by {
                if i < before.len() {
                    assert(headers@[i] == before[i]);
                    assert(cur[i] == prev[i]);
                    assert(before[i].0 == prev[i].0);
                } else {
                    assert(o + 4 <= data@.len());
                }
            }
        }
        k += 1;
    }
    proof {
        lemma_headers_bounded(endian, legacy, data@, n as nat);
    }
    let ghost hs = hex_array_headers(endian, legacy, data@, n as nat);
    assert(k == n);
    assert forall|q: int| 0 <= q < headers@.len() implies {
        &&& #[trigger] headers@[q].0 == hs[q].0
        &&& headers@[q].1 == hs[q].1
        &&& headers@[q].2 == hs[q].2
        &&& hs[q].0 + 8 <= data@.len()
    } by {
        assert(hex_array_headers(endian, legacy, data@, n as nat)[q].0 + 8 <= data@.len());
        assert(headers@[q].0 == hex_array_headers(endian, legacy, data@, k as nat)[q].0);
    }
    let file_end = data.len() as u64;
    let mut ranges: Vec<ArrayRange> = Vec::new();
    let mut i: usize = 0;
    while i < headers.len()
        invariant
            i <= headers@.len(),
            headers@.len() == hs.len(),
            hs == hex_array_headers(endian, legacy, data@, word_count(data@)),
            file_end == data@.len(),
            data@.len() + 16 <= u64::MAX,
            forall|q: int| 0 <= q < headers@.len() ==> {
                &&& #[trigger] headers@[q].0 == hs[q].0
                &&& headers@[q].1 == hs[q].1
                &&& headers@[q].2 == hs[q].2
                &&& hs[q].0 + 8 <= data@.len()
            },
            ranges@ == array_ranges(endian, legacy, data@).take(i as int),
        decreases headers@.len() - i,
    {
        let (start, length, class) = headers[i];
        let end = if i + 1 < headers.len() {
            headers[i + 1].0
        } else {
            file_end
        };
        ranges.push(ArrayRange { start, data_start: start + 16, end, class, length });
        i += 1;
        assert(ranges@ =~= array_ranges(endian, legacy, data@).take(i as int));
    }
    assert(array_ranges(endian, legacy, data@).take(i as int) =~= array_ranges(endian, legacy, data@));
    ranges
}

} // verus!
