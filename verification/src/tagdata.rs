//! What the tag view finds in the data of one tag: arrays and the pointers to them, raw
//! strings and the pointers that may lead to them, and known string hashes.
use vstd::prelude::*;
use std::collections::HashSet;
use crate::bytes::{Endian, le_value, read_u32_at, read_u64_at};
use crate::hexview::{hex_array_headers, is_hex_array_marker};
use crate::rawstrings::{blob_size_ok, blob_strings, read_raw_string_blob};
use crate::scanner::{array_header, dword_at, is_string_blob_marker, read_array_header, word_at, word_count};

verus! {

broadcast use vstd::std_specs::hash::group_hash_axioms;

/// An array header found in tag data, with the offsets of the pointers that lead to it.
pub struct TagArray {
    pub count: u64,
    pub tagtype: u32,
    pub references: Vec<u64>,
}

/// The 64-bit words of the data, read in the given byte order.
pub open spec fn qwords(endian: Endian, data: Seq<u8>) -> Seq<u64> {
    Seq::new(data.len() / 8, |i: int| dword_at(endian, data, 8 * i))
}

/// Reads the data as 64-bit words in the given byte order.
pub fn tag_qwords(data: &[u8], endian: Endian) -> (r: Vec<u64>)
    ensures
        r@ == qwords(endian, data@),
{
    let n = data.len() / 8;
    let mut r: Vec<u64> = Vec::with_capacity(n);
    let mut i: usize = 0;
    while i < n
        invariant
            i <= n,
            n == data.len() / 8,
            r@ == qwords(endian, data@).take(i as int),
        decreases n - i,
    {
        let v = read_u64_at(data, 8 * i, endian);
        r.push(v);
        i += 1;
        assert(r@ =~= qwords(endian, data@).take(i as int));
    }
    assert(qwords(endian, data@).take(i as int) =~= qwords(endian, data@));
    r
}

/// Whether the word at index `i`, read as a signed offset from its own position, stays in the
/// signed range.
pub open spec fn relpointer_fits(i: int, v: u64) -> bool {
    i * 8 + (v as isize) <= isize::MAX
}

/// Whether every word of `data`, read as a relative pointer, stays in the signed range.
pub open spec fn relpointers_fit(data: Seq<u64>) -> bool {
    &&& data.len() * 8 <= isize::MAX
    &&& forall|i: int| 0 <= i < data.len() ==> relpointer_fits(i, #[trigger] data[i])
}

/// Whether the word at index `i`, read as a pointer relative to its own position, lands on
/// `target`.
pub open spec fn points_to(i: int, v: u64, target: u64) -> bool {
    (i * 8 + (v as isize)) as u64 == target
}

/// Offsets of the words among the first `n` that, read as pointers relative to their own
/// position, land on `target`.
pub open spec fn relpointer_hits(data: Seq<u64>, target: u64, n: nat) -> Seq<u64>
    decreases n,
{
    if n == 0 {
        seq![]
    } else {
        let rest = relpointer_hits(data, target, (n - 1) as nat);
        if points_to(n - 1, data[n - 1], target) {
            rest.push(((n - 1) * 8) as u64)
        } else {
            rest
        }
    }
}

/// Whether every word of `data`, read as a relative pointer, stays in the signed range.
pub fn check_relpointers_fit(data: &[u64]) -> (r: bool)
    ensures
        r == relpointers_fit(data@),
{
    if data.len() > (isize::MAX as usize) / 8 {
        return false;
    }
    let mut i: usize = 0;
    while i < data.len()
        invariant
            i <= data@.len(),
            data@.len() * 8 <= isize::MAX,
            forall|j: int| 0 <= j < i ==> relpointer_fits(j, #[trigger] data@[j]),
        decreases data@.len() - i,
    {
        let offset = (i as isize) * 8;
        let v = data[i] as isize;
        if v > isize::MAX - offset {
            return false;
        }
        i += 1;
    }
    true
}

/// Offsets of the words of `data` that, read as pointers relative to their own position, land
/// on `target_offset`.
pub fn find_potential_relpointers(data: &[u64], target_offset: u64) -> (r: Vec<u64>)
    requires
        relpointers_fit(data@),
    ensures
        r@ == relpointer_hits(data@, target_offset, data@.len()),
{
    let mut result: Vec<u64> = Vec::new();
    let mut i: usize = 0;
    while i < data.len()
        invariant
            i <= data@.len(),
            relpointers_fit(data@),
            result@ == relpointer_hits(data@, target_offset, i as nat),
        decreases data@.len() - i,
    {
        let v = data[i];
        assert(relpointer_fits(i as int, data@[i as int]));
        let offset = (i as isize) * 8;
        if (offset + (v as isize)) as u64 == target_offset {
            result.push(offset as u64);
        }
        i += 1;
    }
    result
}

/// Words among the first `n` whose value is one of `keys`, with their offsets.
pub open spec fn word_hits(endian: Endian, data: Seq<u8>, keys: Set<u32>, n: nat) -> Seq<(u64, u32)>
    decreases n,
{
    if n == 0 {
        seq![]
    } else {
        let rest = word_hits(endian, data, keys, (n - 1) as nat);
        let v = word_at(endian, data, 4 * (n - 1));
        if keys.contains(v) {
            rest.push(((4 * (n - 1)) as u64, v))
        } else {
            rest
        }
    }
}

/// The words of `data` whose value is one of `keys`, with their offsets.
pub fn find_word_hits(data: &[u8], endian: Endian, keys: &HashSet<u32>) -> (r: Vec<(u64, u32)>)
    ensures
        r@ == word_hits(endian, data@, keys@, word_count(data@)),
{
    let n = data.len() / 4;
    let mut r: Vec<(u64, u32)> = Vec::new();
    let mut k: usize = 0;
    while k < n
        invariant
            k <= n,
            n == data.len() / 4,
            n == word_count(data@),
            r@ == word_hits(endian, data@, keys@, k as nat),
        decreases n - k,
    {
        let v = read_u32_at(data, 4 * k, endian);
        if keys.contains(&v) {
            r.push(((4 * k) as u64, v));
        }
        k += 1;
    }
    r
}

/// Raw strings of the blobs among the first `n` words, with their offsets.
pub open spec fn tag_raw_strings(endian: Endian, legacy: bool, data: Seq<u8>, n: nat) -> Seq<(int, Seq<char>)>
    decreases n,
{
    if n == 0 {
        seq![]
    } else {
        let rest = tag_raw_strings(endian, legacy, data, (n - 1) as nat);
        let o = 4 * (n - 1);
        if is_string_blob_marker(word_at(endian, data, o)) {
            rest + blob_strings(legacy, data, o)
        } else {
            rest
        }
    }
}

/// Whether every raw string blob of the data has a size that can be allocated.
pub open spec fn blobs_fit(endian: Endian, legacy: bool, data: Seq<u8>) -> bool {
    forall|k: int|
        0 <= k < word_count(data) && is_string_blob_marker(#[trigger] word_at(endian, data, 4 * k))
            ==> blob_size_ok(legacy, data, 4 * k)
}

/// Whether `r` lists `spec`: same offsets and texts.
pub open spec fn strings_match(r: Seq<(u64, String)>, spec: Seq<(int, Seq<char>)>) -> bool {
    &&& r.len() == spec.len()
    &&& forall|i: int| 0 <= i < r.len() ==> r[i].0 as int == spec[i].0 && (#[trigger] r[i]).1@ == spec[i].1
}

/// The raw strings of every blob in the data, with their offsets.
pub fn find_tag_raw_strings(data: &[u8], endian: Endian, legacy: bool) -> (r: Vec<(u64, String)>)
    requires
        blobs_fit(endian, legacy, data@),
    ensures
        strings_match(r@, tag_raw_strings(endian, legacy, data@, word_count(data@))),
{
    let n = data.len() / 4;
    let mut r: Vec<(u64, String)> = Vec::new();
    let mut k: usize = 0;
    while k < n
        invariant
            k <= n,
            n == data.len() / 4,
            n == word_count(data@),
            blobs_fit(endian, legacy, data@),
            strings_match(r@, tag_raw_strings(endian, legacy, data@, k as nat)),
        decreases n - k,
    {
        let o = 4 * k;
        let v = read_u32_at(data, o, endian);
        if v == 0x80800065 || v == 0x808000CB {
            assert(is_string_blob_marker(word_at(endian, data@, 4 * (k as int))));
            let mut blob = read_raw_string_blob(data, o as u64, legacy);
            let ghost before = r@;
            let ghost b = blob@;
            r.append(&mut blob);
            proof {
                let want = tag_raw_strings(endian, legacy, data@, (k + 1) as nat);
                let had = tag_raw_strings(endian, legacy, data@, k as nat);
                let bs = blob_strings(legacy, data@, o as int);
                assert(want == had + bs);
                assert forall|i: int| 0 <= i < r@.len() implies r@[i].0 as int == want[i].0 && (#[trigger] r@[i]).1@ == want[i].1 by {
                    if i < before.len() {
                        assert(r@[i] == before[i]);
                    } else {
                        assert(r@[i] == b[i - before.len()]);
                    }
                }
            }
        }
        k += 1;
    }
    r
}

/// Number of 16-byte windows, at multiples of 8, that fit in `len` bytes.
pub open spec fn pair_count(len: nat) -> nat {
    if len < 16 {
        0
    } else {
        ((len - 16) / 8 + 1) as nat
    }
}

/// Whether the window at `p` (a little-endian count, then a little-endian offset relative to
/// `p + 8`) describes the array at `o` with `count` elements.
pub open spec fn pair_points_at(data: Seq<u8>, p: int, o: int, count: nat) -> bool {
    let v1 = le_value(data.subrange(p, p + 8));
    let v2 = le_value(data.subrange(p + 8, p + 16));
    let target = if p + 8 + v2 > u64::MAX { u64::MAX as int } else { p + 8 + v2 };
    v1 == count && target == o
}

/// Offsets of the windows among the first `m` that describe the array at `o` with `count`
/// elements.
pub open spec fn array_pointers(data: Seq<u8>, o: int, count: nat, m: nat) -> Seq<u64>
    decreases m,
{
    if m == 0 {
        seq![]
    } else {
        let rest = array_pointers(data, o, count, (m - 1) as nat);
        if pair_points_at(data, 8 * (m - 1), o, count) {
            rest.push((8 * (m - 1)) as u64)
        } else {
            rest
        }
    }
}

proof fn lemma_header_offsets_increase(endian: Endian, legacy: bool, data: Seq<u8>, n: nat)
    ensures
        forall|i: int, j: int|
            0 <= i < j < hex_array_headers(endian, legacy, data, n).len() ==> hex_array_headers(endian, legacy, data, n)[i].0
                < hex_array_headers(endian, legacy, data, n)[j].0,
        forall|i: int| 0 <= i < hex_array_headers(endian, legacy, data, n).len() ==> hex_array_headers(endian, legacy, data, n)[i].0 <= 4 * n,
    decreases n,
{
    if n > 0 {
        let m = (n - 1) as nat;
        lemma_header_offsets_increase(endian, legacy, data, m);
        let rest = hex_array_headers(endian, legacy, data, m);
        let all = hex_array_headers(endian, legacy, data, n);
        assert forall|i: int| 0 <= i < all.len() implies all[i].0 <= 4 * n by {
            if i < rest.len() {
                assert(all[i] == rest[i]);
            }
        }
        assert forall|i: int, j: int| 0 <= i < j < all.len() implies all[i].0 < all[j].0 by {
            if j < rest.len() {
                assert(all[i] == rest[i]);
                assert(all[j] == rest[j]);
            } else {
                assert(all[i] == rest[i]);
                assert(rest[i].0 <= 4 * m);
            }
        }
    }
}

/// The arrays of the data, each with the offsets of the windows that point at it.
pub open spec fn arrays_match(arrays: Seq<(u64, TagArray)>, endian: Endian, legacy: bool, data: Seq<u8>, m: nat) -> bool {
    let hs = hex_array_headers(endian, legacy, data, word_count(data));
    &&& arrays.len() == hs.len()
    &&& forall|i: int|
        0 <= i < arrays.len() ==> {
            &&& (#[trigger] arrays[i]).0 == hs[i].0
            &&& arrays[i].1.count == hs[i].1
            &&& arrays[i].1.tagtype == hs[i].2
            &&& arrays[i].1.references@ == array_pointers(data, hs[i].0, hs[i].1, m)
        }
}

/// The arrays of the data, with the pointers to each.
pub fn find_tag_arrays(data: &[u8], endian: Endian, legacy: bool) -> (r: Vec<(u64, TagArray)>)
    ensures
        arrays_match(r@, endian, legacy, data@, pair_count(data@.len())),
{
    let n = data.len() / 4;
    let mut arrays: Vec<(u64, TagArray)> = Vec::new();
    let mut k: usize = 0;
    while k < n
        invariant
            k <= n,
            n == word_count(data@),
            n == data.len() / 4,
            arrays@.len() == hex_array_headers(endian, legacy, data@, k as nat).len(),
            forall|i: int| 0 <= i < arrays@.len() ==> {
                let h = hex_array_headers(endian, legacy, data@, k as nat)[i];
                &&& (#[trigger] arrays@[i]).0 == h.0
                &&& arrays@[i].1.count == h.1
                &&& arrays@[i].1.tagtype == h.2
                &&& arrays@[i].1.references@.len() == 0
            },
        decreases n - k,
    {
        let o = 4 * k;
        let value = read_u32_at(data, o, endian);
        let ghost prev = hex_array_headers(endian, legacy, data@, k as nat);
        let ghost before = arrays@;
        if value == 0x80809fbd || value == 0x80809fb8 || value == 0x80800184 || value == 0x80800142 {
            match read_array_header(data, o + 4, legacy) {
                Some((count, class)) => {
                    arrays.push(((o + 4) as u64, TagArray { count, tagtype: class, references: Vec::new() }));
                    assert(hex_array_headers(endian, legacy, data@, (k + 1) as nat) == prev.push((o + 4, count as nat, class)));
                },
                None => {
                    assert(hex_array_headers(endian, legacy, data@, (k + 1) as nat) == prev);
                },
            }
        } else {
            assert(hex_array_headers(endian, legacy, data@, (k + 1) as nat) == prev);
        }
        proof {
            let cur = hex_array_headers(endian, legacy, data@, (k + 1) as nat);
            assert forall|i: int| 0 <= i < arrays@.len() implies {
                let h = cur[i];
                &&& (#[trigger] arrays@[i]).0 == h.0
                &&& arrays@[i].1.count == h.1
                &&& arrays@[i].1.tagtype == h.2
                &&& arrays@[i].1.references@.len() == 0
            } by {
                if i < before.len() {
                    assert(arrays@[i] == before[i]);
                    assert(cur[i] == prev[i]);
                }
            }
        }
        k += 1;
    }
    proof {
        lemma_header_offsets_increase(endian, legacy, data@, n as nat);
    }
    let ghost hs = hex_array_headers(endian, legacy, data@, n as nat);
    let len = data.len();
    let mut p: usize = 0;
    let mut m: usize = 0;
    while len >= 16 && p <= len - 16
        invariant
            len == data@.len(),
            p == 8 * m,
            m <= pair_count(len as nat),
            (len >= 16 && p <= len - 16) ==> m < pair_count(len as nat),
            !(len >= 16 && p <= len - 16) ==> m == pair_count(len as nat),
            hs == hex_array_headers(endian, legacy, data@, word_count(data@)),
            forall|i: int, j: int| 0 <= i < j < hs.len() ==> hs[i].0 < hs[j].0,
            arrays@.len() == hs.len(),
            forall|i: int|
                0 <= i < arrays@.len() ==> {
                    &&& (#[trigger] arrays@[i]).0 == hs[i].0
                    &&& arrays@[i].1.count == hs[i].1
                    &&& arrays@[i].1.tagtype == hs[i].2
                    &&& arrays@[i].1.references@ == array_pointers(data@, hs[i].0, hs[i].1, m as nat)
                },
        decreases len - p,
    {
        let v1 = read_u64_at(data, p, Endian::Little);
        let v2 = read_u64_at(data, p + 8, Endian::Little);
        let target = ((p + 8) as u64).saturating_add(v2);
        let ghost before = arrays@;
        let mut idx: usize = 0;
        let mut found = false;
        while idx < arrays.len()
            invariant_except_break
                !found,
            invariant
                idx <= arrays@.len(),
                arrays@ == before,
                forall|q: int| 0 <= q < idx ==> !((#[trigger] arrays@[q]).0 == target && arrays@[q].1.count == v1),
            ensures
                arrays@ == before,
                found ==> idx < arrays@.len() && arrays@[idx as int].0 == target && arrays@[idx as int].1.count == v1,
                !found ==> idx == arrays@.len(),
                !found ==> forall|q: int| 0 <= q < arrays@.len() ==> !((#[trigger] arrays@[q]).0 == target && arrays@[q].1.count == v1),
            decreases arrays@.len() - idx,
        {
            if arrays[idx].0 == target && arrays[idx].1.count == v1 {
                found = true;
                break;
            }
            idx += 1;
        }
        proof {
            assert forall|i: int| 0 <= i < arrays@.len() implies (pair_points_at(data@, 8 * m, hs[i].0, hs[i].1) <==> ((#[trigger] arrays@[i]).0 == target && arrays@[i].1.count == v1)) by {
                assert(hs[i].0 + 8 <= data@.len() || true);
            }
        }
        if found {
            arrays[idx].1.references.push(p as u64);
            proof {
                assert forall|i: int| 0 <= i < arrays@.len() implies {
                    &&& (#[trigger] arrays@[i]).0 == hs[i].0
                    &&& arrays@[i].1.count == hs[i].1
                    &&& arrays@[i].1.tagtype == hs[i].2
                    &&& arrays@[i].1.references@ == array_pointers(data@, hs[i].0, hs[i].1, (m + 1) as nat)
                } by {
                    if i != idx {
                        assert(arrays@[i] == before[i]);
                        if i > idx {
                            assert(hs[idx as int].0 < hs[i].0);
                        }
                        assert(!pair_points_at(data@, 8 * m, hs[i].0, hs[i].1));
                    } else {
                        assert(pair_points_at(data@, 8 * m, hs[i].0, hs[i].1));
                    }
                }
            }
        } else {
            proof {
                assert forall|i: int| 0 <= i < arrays@.len() implies {
                    &&& (#[trigger] arrays@[i]).0 == hs[i].0
                    &&& arrays@[i].1.count == hs[i].1
                    &&& arrays@[i].1.tagtype == hs[i].2
                    &&& arrays@[i].1.references@ == array_pointers(data@, hs[i].0, hs[i].1, (m + 1) as nat)
                } by {
                    assert(!((arrays@[i]).0 == target && arrays@[i].1.count == v1));
                    assert(arrays@[i] == before[i]);
                    assert(!pair_points_at(data@, 8 * m, hs[i].0, hs[i].1));
                }
            }
        }
        p += 8;
        m += 1;
    }
    arrays
}

/// What the tag view finds in the data of one tag.
pub struct TagDataAnalysis {
    /// Arrays, by header offset, with the pointers to each.
    pub arrays: Vec<(u64, TagArray)>,
    /// Strings of the raw string blobs, with their offsets.
    pub raw_strings: Vec<(u64, String)>,
    /// Words that are known localized string hashes, with their offsets.
    pub string_hashes: Vec<(u64, u32)>,
    /// Words that are known raw string hashes, with their offsets.
    pub raw_string_hashes: Vec<(u64, u32)>,
}

/// Finds the arrays (with the pointers to them), the raw strings and the known string hashes of
/// a tag's data. `legacy` selects the 32-bit big-endian array and blob headers of the oldest
/// releases.
pub fn analyze_tag_data(
    data: &[u8],
    endian: Endian,
    legacy: bool,
    string_keys: &HashSet<u32>,
    raw_string_keys: &HashSet<u32>,
) -> (r: TagDataAnalysis)
    requires
        blobs_fit(endian, legacy, data@),
    ensures
        arrays_match(r.arrays@, endian, legacy, data@, pair_count(data@.len())),
        strings_match(r.raw_strings@, tag_raw_strings(endian, legacy, data@, word_count(data@))),
        r.string_hashes@ == word_hits(endian, data@, string_keys@, word_count(data@)),
        r.raw_string_hashes@ == word_hits(endian, data@, raw_string_keys@, word_count(data@)),
{
    TagDataAnalysis {
        arrays: find_tag_arrays(data, endian, legacy),
        raw_strings: find_tag_raw_strings(data, endian, legacy),
        string_hashes: find_word_hits(data, endian, string_keys),
        raw_string_hashes: find_word_hits(data, endian, raw_string_keys),
    }
}

/// Whether every raw string blob of the data has a size that can be allocated.
pub fn check_blobs_fit(data: &[u8], endian: Endian, legacy: bool) -> (r: bool)
    ensures
        r == blobs_fit(endian, legacy, data@),
{
    let n = data.len() / 4;
    let mut k: usize = 0;
    while k < n
        invariant
            k <= n,
            n == data.len() / 4,
            n == word_count(data@),
            forall|j: int|
                0 <= j < k && is_string_blob_marker(#[trigger] word_at(endian, data@, 4 * j)) ==> blob_size_ok(legacy, data@, 4 * j),
        decreases n - k,
    {
        let o = 4 * k;
        let v = read_u32_at(data, o, endian);
        if v == 0x80800065 || v == 0x808000CB {
            let len = data.len();
            let size_fits = if legacy {
                if len < 8 || o > len - 8 {
                    true
                } else {
                    (read_u32_at(data, o + 4, Endian::Big) as u64) <= (isize::MAX as u64)
                }
            } else {
                if len < 12 || o > len - 12 {
                    true
                } else {
                    read_u64_at(data, o + 4, Endian::Little) <= (isize::MAX as u64)
                }
            };
            if !size_fits {
                assert(word_at(endian, data@, 4 * (k as int)) == v);
                return false;
            }
        }
        k += 1;
    }
    true
}

} // verus!
