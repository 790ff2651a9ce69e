use vstd::prelude::*;
use crate::bytes::{Endian, endian_value, le_value, be_value, read_u32_at, read_u64_at};
use crate::classes::{ClassRegistry, TagClass, spec_class_lookup};
use crate::hash::FNV1_BASE;
use crate::rawstrings::{blob_size_ok, blob_strings, read_raw_string_blob};
use crate::sorted::{contains_sorted_u32, contains_sorted_u64, sort_u32s, sort_u64s, sorted_u32, sorted_u64};
use crate::taghash::{TagHash, TagHash64, spec_is_pkg_file, spec_tag_new};

verus! {

/// What a scan looks for.
#[derive(Clone, Copy, Debug, PartialEq, Eq, Structural)]
pub enum ScannerMode {
    /// Tag references only (no raw strings).
    Tags,
    /// Strings and string hashes only (tag references are dropped).
    Hashes,
    Both,
}

/// A value found in tag data, with its byte offset.
#[derive(Clone, Copy, Debug)]
pub struct ScannedHash<T> {
    pub offset: u64,
    pub hash: T,
}

/// An array header found in tag data.
#[derive(Clone, Copy, Debug)]
pub struct ScannedArray {
    pub offset: u64,
    pub count: usize,
    pub class: u32,
}

/// Everything a scan of one tag found.
pub struct ScanResult {
    /// Were we able to read the tag data?
    pub successful: bool,
    pub file_hashes: Vec<ScannedHash<TagHash>>,
    pub file_hashes64: Vec<ScannedHash<TagHash64>>,
    pub string_hashes: Vec<ScannedHash<u32>>,
    pub wordlist_hashes: Vec<ScannedHash<u32>>,
    pub raw_strings: Vec<String>,
    /// References from other files
    pub references: Vec<TagHash>,
    pub secondary_class: Option<u32>,
}

pub open spec fn scan_result_is_empty(r: ScanResult) -> bool {
    &&& r.file_hashes@.len() == 0
    &&& r.file_hashes64@.len() == 0
    &&& r.string_hashes@.len() == 0
    &&& r.wordlist_hashes@.len() == 0
    &&& r.raw_strings@.len() == 0
    &&& r.references@.len() == 0
    &&& r.secondary_class is None
}

impl Default for ScanResult {
    fn default() -> (r: ScanResult)
        ensures
            r.successful,
            scan_result_is_empty(r),
    {
        ScanResult {
            successful: true,
            file_hashes: Vec::new(),
            file_hashes64: Vec::new(),
            string_hashes: Vec::new(),
            wordlist_hashes: Vec::new(),
            raw_strings: Vec::new(),
            references: Vec::new(),
            secondary_class: None,
        }
    }
}

/// Shareable read-only lookup tables for scanning: every list is sorted ascending.
pub struct ScannerContext {
    pub valid_file_hashes: Vec<u32>,
    pub valid_file_hashes64: Vec<u64>,
    pub known_string_hashes: Vec<u32>,
    pub known_wordlist_hashes: Vec<u32>,
    pub wordlist_hash: u64,
    pub signatures_hash: u64,
    pub endian: Endian,
    /// Do array headers and string blobs use the 32-bit big-endian layout of the oldest releases?
    pub legacy_headers: bool,
}

impl ScannerContext {
    /// Whether every lookup list is sorted ascending.
    pub open spec fn wf(&self) -> bool {
        &&& sorted_u32(self.valid_file_hashes@)
        &&& sorted_u64(self.valid_file_hashes64@)
        &&& sorted_u32(self.known_string_hashes@)
        &&& sorted_u32(self.known_wordlist_hashes@)
    }

    /// A scanner context of the given lists, each sorted ascending.
    pub fn create(
        valid_file_hashes: Vec<u32>,
        valid_file_hashes64: Vec<u64>,
        known_string_hashes: Vec<u32>,
        known_wordlist_hashes: Vec<u32>,
        wordlist_hash: u64,
        signatures_hash: u64,
        endian: Endian,
        legacy_headers: bool,
    ) -> (r: ScannerContext)
        ensures
            r.wf(),
            r.valid_file_hashes@.to_multiset() == valid_file_hashes@.to_multiset(),
            r.valid_file_hashes64@.to_multiset() == valid_file_hashes64@.to_multiset(),
            r.known_string_hashes@.to_multiset() == known_string_hashes@.to_multiset(),
            r.known_wordlist_hashes@.to_multiset() == known_wordlist_hashes@.to_multiset(),
            r.wordlist_hash == wordlist_hash,
            r.signatures_hash == signatures_hash,
            r.endian == endian,
            r.legacy_headers == legacy_headers,
    {
        let mut r = ScannerContext {
            valid_file_hashes,
            valid_file_hashes64,
            known_string_hashes,
            known_wordlist_hashes,
            wordlist_hash,
            signatures_hash,
            endian,
            legacy_headers,
        };
        sort_u32s(&mut r.valid_file_hashes);
        sort_u64s(&mut r.valid_file_hashes64);
        sort_u32s(&mut r.known_string_hashes);
        sort_u32s(&mut r.known_wordlist_hashes);
        r
    }
}

/// The tags of packages with the given entry counts: each package's entries in order, the
/// packages in the order given.
pub open spec fn package_tags(counts: Seq<(u16, u16)>) -> Seq<u32>
    decreases counts.len(),
{
    if counts.len() == 0 {
        seq![]
    } else {
        package_tags(counts.drop_last()) + Seq::new(
            counts.last().1 as nat,
            |i: int| spec_tag_new(counts.last().0, i as u16),
        )
    }
}

/// The tag of every entry of the packages with the given entry counts (see `package_tags`).
pub fn package_file_hashes(counts: &[(u16, u16)]) -> (r: Vec<u32>)
    ensures
        r@ == package_tags(counts@),
{
    let mut r: Vec<u32> = Vec::new();
    let mut p: usize = 0;
    while p < counts.len()
        invariant
            p <= counts@.len(),
            r@ == package_tags(counts@.take(p as int)),
        decreases counts@.len() - p,
    {
        let (pkg, n) = counts[p];
        let ghost base = r@;
        let mut e: u16 = 0;
        while e < n
            invariant
                e <= n,
                r@ == base + Seq::new(e as nat, |i: int| spec_tag_new(pkg, i as u16)),
            decreases n - e,
        {
            r.push(TagHash::new(pkg, e).0);
            assert(r@ =~= base + Seq::new((e + 1) as nat, |i: int| spec_tag_new(pkg, i as u16)));
            e += 1;
        }
        assert(counts@.take(p + 1).drop_last() =~= counts@.take(p as int));
        p += 1;
    }
    assert(counts@.take(p as int) =~= counts@);
    r
}

/// Class ids that mark the start of an array header.
pub open spec fn is_array_marker(v: u32) -> bool {
    v == 0x80809fbd || v == 0x80809fb8 || v == 0x80800184 || v == 0x80800142 || v == 0x8080bfcd
}

/// Class ids that mark a raw string blob.
pub open spec fn is_string_blob_marker(v: u32) -> bool {
    v == 0x80800065 || v == 0x808000CB
}

pub open spec fn word_at(endian: Endian, data: Seq<u8>, o: int) -> u32 {
    endian_value(endian, data.subrange(o, o + 4)) as u32
}

pub open spec fn dword_at(endian: Endian, data: Seq<u8>, o: int) -> u64 {
    endian_value(endian, data.subrange(o, o + 8)) as u64
}

/// Number of 4-byte words that fit in the data.
pub open spec fn word_count(data: Seq<u8>) -> nat {
    data.len() / 4
}

/// Element count and class id of the array header at `ao`, when it fits in the data.
pub open spec fn array_header(legacy: bool, data: Seq<u8>, ao: int) -> Option<(nat, u32)> {
    if legacy {
        if ao + 8 <= data.len() {
            Some(
                (
                    be_value(data.subrange(ao, ao + 4)),
                    be_value(data.subrange(ao + 4, ao + 8)) as u32,
                ),
            )
        } else {
            None
        }
    } else {
        if ao + 12 <= data.len() {
            Some(
                (
                    le_value(data.subrange(ao, ao + 8)),
                    le_value(data.subrange(ao + 8, ao + 12)) as u32,
                ),
            )
        } else {
            None
        }
    }
}

/// The data range (start and byte length) of the array whose header follows the word at `o`,
/// when that array's class blocks scanning.
pub open spec fn blocked_candidate(
    ctx: ScannerContext,
    reg: ClassRegistry,
    data: Seq<u8>,
    o: int,
) -> Option<(int, int)> {
    if o + 4 <= data.len() && is_array_marker(word_at(ctx.endian, data, o)) {
        match array_header(ctx.legacy_headers, data, o + 4) {
            Some((count, class)) => match spec_class_lookup(reg, class) {
                Some(c) => if c.block_tags {
                    Some(
                        (
                            o + 4,
                            match c.size {
                                Some(s) => s * count,
                                None => count as int,
                            },
                        ),
                    )
                } else {
                    None
                },
                None => None,
            },
            None => None,
        }
    } else {
        None
    }
}

/// Blocked ranges `[start, end)` found in the first `n` words, in order.
pub open spec fn blocked_ranges(
    ctx: ScannerContext,
    reg: ClassRegistry,
    data: Seq<u8>,
    n: nat,
) -> Seq<(int, int)>
    decreases n,
{
    if n == 0 {
        Seq::empty()
    } else {
        let prev = blocked_ranges(ctx, reg, data, (n - 1) as nat);
        match blocked_candidate(ctx, reg, data, 4 * (n - 1)) {
            Some((st, size)) => prev.push((st, st + size)),
            None => prev,
        }
    }
}

pub open spec fn in_ranges(ranges: Seq<(int, int)>, o: int) -> bool {
    exists|i: int| 0 <= i < ranges.len() && (#[trigger] ranges[i]).0 <= o < ranges[i].1
}

pub open spec fn range_views(v: Seq<(u64, u64)>) -> Seq<(int, int)> {
    v.map_values(|r: (u64, u64)| (r.0 as int, r.1 as int))
}

/// Secondary class of a pattern component: the class id stored just before the data its
/// pointer at 0x10 refers to.
pub open spec fn spec_secondary_class(
    ctx: ScannerContext,
    reg: ClassRegistry,
    data: Seq<u8>,
    entry_reference: Option<u32>,
) -> Option<u32> {
    match pattern_pointer(ctx, reg, data, entry_reference) {
        Some(off) => if off < data.len() && off > 0x10 {
            Some(word_at(ctx.endian, data, off - 4))
        } else {
            None
        },
        None => None,
    }
}

/// `0x10` plus the pointer at 0x10 of a pattern component's data.
pub open spec fn pattern_pointer(
    ctx: ScannerContext,
    reg: ClassRegistry,
    data: Seq<u8>,
    entry_reference: Option<u32>,
) -> Option<int> {
    match entry_reference {
        Some(r) => match spec_class_lookup(reg, r) {
            Some(c) => if c.name@ == "s_pattern_component"@ && data.len() > 32 {
                Some(0x10 + dword_at(ctx.endian, data, 0x10))
            } else {
                None
            },
            None => None,
        },
        None => None,
    }
}

pub open spec fn word_blocked(ctx: ScannerContext, reg: ClassRegistry, data: Seq<u8>, o: int) -> bool {
    in_ranges(blocked_ranges(ctx, reg, data, word_count(data)), o)
}

/// Inputs on which the scan's integer arithmetic and buffer allocations stay in range.
pub open spec fn scan_fits(
    ctx: ScannerContext,
    reg: ClassRegistry,
    data: Seq<u8>,
    entry_reference: Option<u32>,
    mode: ScannerMode,
) -> bool {
    &&& (pattern_pointer(ctx, reg, data, entry_reference) matches Some(off) ==> off <= u64::MAX)
    &&& forall|k: int|
        0 <= k < word_count(data) ==> (#[trigger] blocked_candidate(ctx, reg, data, 4 * k) matches Some(
            (st, size),
        ) ==> st + size <= u64::MAX)
    &&& (mode != ScannerMode::Tags ==> forall|k: int|
        0 <= k < word_count(data) && !word_blocked(ctx, reg, data, 4 * k) && is_string_blob_marker(
            word_at(ctx.endian, data, 4 * k),
        ) ==> #[trigger] blob_size_ok(ctx.legacy_headers, data, 4 * k))
}


/// Does the word at `o` hold a known tag reference?
pub open spec fn file_hash_at(ctx: ScannerContext, reg: ClassRegistry, data: Seq<u8>, o: int) -> bool {
    let v = word_at(ctx.endian, data, o);
    &&& !word_blocked(ctx, reg, data, o)
    &&& v != FNV1_BASE
    &&& spec_is_pkg_file(v)
    &&& ctx.valid_file_hashes@.contains(v)
}

/// Does the word at `o` hold a hash listed in `known`?
pub open spec fn known_hash_at(
    ctx: ScannerContext,
    reg: ClassRegistry,
    data: Seq<u8>,
    known: Seq<u32>,
    o: int,
) -> bool {
    let v = word_at(ctx.endian, data, o);
    &&& !word_blocked(ctx, reg, data, o)
    &&& v != FNV1_BASE
    &&& known.contains(v)
}

/// Does the 8-byte aligned word at `o` start a known 64-bit tag reference?
pub open spec fn file_hash64_at(ctx: ScannerContext, reg: ClassRegistry, data: Seq<u8>, o: int) -> bool {
    &&& !word_blocked(ctx, reg, data, o)
    &&& o % 8 == 0
    &&& o + 8 <= data.len()
    &&& ctx.valid_file_hashes64@.contains(dword_at(ctx.endian, data, o))
}

/// Tag references found in the first `n` words, in offset order.
pub open spec fn file_hashes_upto(
    ctx: ScannerContext,
    reg: ClassRegistry,
    data: Seq<u8>,
    n: nat,
) -> Seq<ScannedHash<TagHash>>
    decreases n,
{
    if n == 0 {
        Seq::empty()
    } else {
        let prev = file_hashes_upto(ctx, reg, data, (n - 1) as nat);
        let o = 4 * (n - 1);
        if file_hash_at(ctx, reg, data, o) {
            prev.push(ScannedHash { offset: o as u64, hash: TagHash(word_at(ctx.endian, data, o)) })
        } else {
            prev
        }
    }
}

/// Hashes listed in `known` found in the first `n` words, in offset order.
pub open spec fn known_hashes_upto(
    ctx: ScannerContext,
    reg: ClassRegistry,
    data: Seq<u8>,
    known: Seq<u32>,
    n: nat,
) -> Seq<ScannedHash<u32>>
    decreases n,
{
    if n == 0 {
        Seq::empty()
    } else {
        let prev = known_hashes_upto(ctx, reg, data, known, (n - 1) as nat);
        let o = 4 * (n - 1);
        if known_hash_at(ctx, reg, data, known, o) {
            prev.push(ScannedHash { offset: o as u64, hash: word_at(ctx.endian, data, o) })
        } else {
            prev
        }
    }
}

/// 64-bit tag references found in the first `n` words, in offset order.
pub open spec fn file_hashes64_upto(
    ctx: ScannerContext,
    reg: ClassRegistry,
    data: Seq<u8>,
    n: nat,
) -> Seq<ScannedHash<TagHash64>>
    decreases n,
{
    if n == 0 {
        Seq::empty()
    } else {
        let prev = file_hashes64_upto(ctx, reg, data, (n - 1) as nat);
        let o = 4 * (n - 1);
        if file_hash64_at(ctx, reg, data, o) {
            prev.push(ScannedHash { offset: o as u64, hash: TagHash64(dword_at(ctx.endian, data, o)) })
        } else {
            prev
        }
    }
}

/// Raw strings of the string blobs found in the first `n` words, in order.
pub open spec fn raw_strings_upto(
    ctx: ScannerContext,
    reg: ClassRegistry,
    data: Seq<u8>,
    n: nat,
) -> Seq<Seq<char>>
    decreases n,
{
    if n == 0 {
        Seq::empty()
    } else {
        let prev = raw_strings_upto(ctx, reg, data, (n - 1) as nat);
        let o = 4 * (n - 1);
        if !word_blocked(ctx, reg, data, o) && is_string_blob_marker(word_at(ctx.endian, data, o)) {
            prev + blob_strings(ctx.legacy_headers, data, o).map_values(|p: (int, Seq<char>)| p.1)
        } else {
            prev
        }
    }
}

pub open spec fn string_views(v: Seq<String>) -> Seq<Seq<char>> {
    v.map_values(|s: String| s@)
}

pub(crate) fn read_array_header(data: &[u8], ao: usize, legacy: bool) -> (r: Option<(u64, u32)>)
    ensures
        r matches Some((count, class)) ==> array_header(legacy, data@, ao as int) == Some(
            (count as nat, class),
        ),
        r is None ==> array_header(legacy, data@, ao as int) is None,
{
    let len = data.len();
    if legacy {
        if len < 8 || ao > len - 8 {
            return None;
        }
        let count = read_u32_at(data, ao, Endian::Big);
        let class = read_u32_at(data, ao + 4, Endian::Big);
        Some((count as u64, class))
    } else {
        if len < 12 || ao > len - 12 {
            return None;
        }
        let count = read_u64_at(data, ao, Endian::Little);
        let class = read_u32_at(data, ao + 8, Endian::Little);
        Some((count, class))
    }
}

fn is_array_marker_exec(v: u32) -> (r: bool)
    ensures
        r == is_array_marker(v),
{
    v == 0x80809fbd || v == 0x80809fb8 || v == 0x80800184 || v == 0x80800142 || v == 0x8080bfcd
}

/// Pass 1 of a scan: the data ranges of arrays whose classes block tag scanning.
fn find_blocked_ranges(ctx: &ScannerContext, reg: &ClassRegistry, data: &[u8]) -> (r: Vec<(u64, u64)>)
    requires
        forall|k: int|
            0 <= k < word_count(data@) ==> (#[trigger] blocked_candidate(*ctx, *reg, data@, 4 * k) matches Some(
                (st, size),
            ) ==> st + size <= u64::MAX),
    ensures
        range_views(r@) == blocked_ranges(*ctx, *reg, data@, word_count(data@)),
{
    let mut ranges: Vec<(u64, u64)> = Vec::new();
    let n = data.len() / 4;
    assert(n * 4 <= data.len());
    let mut k: usize = 0;
    while k < n
        invariant
            n == word_count(data@),
            n * 4 <= data.len(),
            k <= n,
            range_views(ranges@) == blocked_ranges(*ctx, *reg, data@, k as nat),
            forall|j: int|
                0 <= j < word_count(data@) ==> (#[trigger] blocked_candidate(*ctx, *reg, data@, 4 * j) matches Some(
                    (st, size),
                ) ==> st + size <= u64::MAX),
        decreases n - k,
    {
        let o = 4 * k;
        let v = read_u32_at(data, o, ctx.endian);
        let ghost cand = blocked_candidate(*ctx, *reg, data@, 4 * k);
        let ghost prev = ranges@;
        if is_array_marker_exec(v) {
            let ao = o + 4;
            match read_array_header(data, ao, ctx.legacy_headers) {
                Some((count, class)) => {
                    match reg.get_class_by_id(class) {
                        Some(c) => {
                            if c.block_tags {
                                assert(array_header(ctx.legacy_headers, data@, ao as int) == Some((count as nat, class)));
                                assert(spec_class_lookup(*reg, class) == Some(*c));
                                assert(cand == Some((ao as int, match c.size {
                                    Some(s) => s * count,
                                    None => count as int,
                                })));
                                let size: u64 = match c.size {
                                    Some(s) => {
                                        assert(s * count <= u64::MAX);
                                        (s as u64) * count
                                    },
                                    None => count,
                                };
                                ranges.push((ao as u64, ao as u64 + size));
                            }
                        },
                        None => {},
                    }
                },
                None => {},
            }
        }
        proof {
            assert(range_views(ranges@) =~= blocked_ranges(*ctx, *reg, data@, (k + 1) as nat));
        }
        k = k + 1;
    }
    ranges
}

fn is_blocked(ranges: &Vec<(u64, u64)>, o: u64) -> (r: bool)
    ensures
        r == in_ranges(range_views(ranges@), o as int),
{
    let mut i: usize = 0;
    while i < ranges.len()
        invariant
            i <= ranges@.len(),
            forall|j: int| 0 <= j < i ==> !((#[trigger] ranges@[j]).0 <= o < ranges@[j].1),
        decreases ranges.len() - i,
    {
        if ranges[i].0 <= o && o < ranges[i].1 {
            assert(range_views(ranges@)[i as int] == (ranges@[i as int].0 as int, ranges@[i as int].1 as int));
            return true;
        }
        i = i + 1;
    }
    proof {
        if in_ranges(range_views(ranges@), o as int) {
            let j = choose|j: int| 0 <= j < range_views(ranges@).len() && (#[trigger] range_views(ranges@)[j]).0 <= o < range_views(ranges@)[j].1;
            assert(range_views(ranges@)[j] == (ranges@[j].0 as int, ranges@[j].1 as int));
        }
    }
    false
}


/// The strings of a blob, without their offsets.
fn blob_texts(strings: Vec<(u64, String)>) -> (r: Vec<String>)
    ensures
        string_views(r@) == strings@.map_values(|p: (u64, String)| p.1@),
{
    let mut texts: Vec<String> = Vec::new();
    let mut j: usize = 0;
    while j < strings.len()
        invariant
            j <= strings@.len(),
            texts@.len() == j,
            string_views(texts@) == strings@.take(j as int).map_values(|p: (u64, String)| p.1@),
        decreases strings.len() - j,
    {
        let t = strings[j].1.clone();
        assert(t@ == strings@[j as int].1@);
        let ghost old_texts = texts@;
        texts.push(t);
        let ghost want = strings@.take(j + 1).map_values(|p: (u64, String)| p.1@);
        let ghost had = strings@.take(j as int).map_values(|p: (u64, String)| p.1@);
        assert forall|q: int| 0 <= q < j + 1 implies #[trigger] string_views(texts@)[q] == want[q] by {
            if q < j {
                assert(string_views(old_texts)[q] == had[q]);
                assert(texts@[q] == old_texts[q]);
            } else {
                assert(texts@[q] == t);
            }
        }
        assert(string_views(texts@) =~= want);
        j = j + 1;
    }
    assert(strings@.take(strings@.len() as int) == strings@);
    texts
}

fn is_string_blob_marker_exec(v: u32) -> (r: bool)
    ensures
        r == is_string_blob_marker(v),
{
    v == 0x80800065 || v == 0x808000CB
}

fn secondary_class(
    ctx: &ScannerContext,
    reg: &ClassRegistry,
    data: &[u8],
    entry_reference: Option<u32>,
) -> (r: Option<u32>)
    requires
        pattern_pointer(*ctx, *reg, data@, entry_reference) matches Some(off) ==> off <= u64::MAX,
    ensures
        r == spec_secondary_class(*ctx, *reg, data@, entry_reference),
{
    let reference = match entry_reference {
        Some(r) => r,
        None => return None,
    };
    let class = match reg.get_class_by_id(reference) {
        Some(c) => c,
        None => return None,
    };
    let pattern_name = String::from_str("s_pattern_component");
    if !(class.name == pattern_name && data.len() > 32) {
        return None;
    }
    let ptr_offset = read_u64_at(data, 0x10, ctx.endian);
    assert(pattern_pointer(*ctx, *reg, data@, entry_reference) == Some(0x10 + ptr_offset as int));
    let offset: u64 = 0x10 + ptr_offset;
    if offset < data.len() as u64 && offset > 0x10 {
        let o = offset as usize;
        Some(read_u32_at(data, o - 4, ctx.endian))
    } else {
        None
    }
}

/// Whether every blocking array found in the data ends within the 64-bit range.
fn candidates_fit(ctx: &ScannerContext, reg: &ClassRegistry, data: &[u8]) -> (r: bool)
    ensures
        r == forall|k: int|
            0 <= k < word_count(data@) ==> (#[trigger] blocked_candidate(*ctx, *reg, data@, 4 * k) matches Some(
                (st, size),
            ) ==> st + size <= u64::MAX),
{
    let n = data.len() / 4;
    assert(n * 4 <= data.len());
    let mut k: usize = 0;
    while k < n
        invariant
            n == word_count(data@),
            n * 4 <= data.len(),
            k <= n,
            forall|j: int|
                0 <= j < k ==> (#[trigger] blocked_candidate(*ctx, *reg, data@, 4 * j) matches Some(
                    (st, size),
                ) ==> st + size <= u64::MAX),
        decreases n - k,
    {
        let o = 4 * k;
        let v = read_u32_at(data, o, ctx.endian);
        let ghost cand = blocked_candidate(*ctx, *reg, data@, 4 * k);
        if is_array_marker_exec(v) {
            let ao = o + 4;
            match read_array_header(data, ao, ctx.legacy_headers) {
                Some((count, class)) => {
                    match reg.get_class_by_id(class) {
                        Some(c) => {
                            if c.block_tags {
                                assert(cand == Some((ao as int, match c.size {
                                    Some(s) => s * count,
                                    None => count as int,
                                })));
                                let size: u128 = match c.size {
                                    Some(s) => {
                                        assert((s as u128) * (count as u128) <= 0xFFFF_FFFF_FFFF_FFFF_u128 * 0xFFFF_FFFF_FFFF_FFFF_u128) by (nonlinear_arith)
                                            requires
                                                s <= 0xFFFF_FFFF_FFFF_FFFF_u128,
                                                count <= 0xFFFF_FFFF_FFFF_FFFF_u128,
                                        ;
                                        (s as u128) * (count as u128)
                                    },
                                    None => count as u128,
                                };
                                if size > 0xFFFF_FFFF_FFFF_FFFF_u128 || (ao as u128) > 0xFFFF_FFFF_FFFF_FFFF_u128 - size {
                                    return false;
                                }
                            }
                        },
                        None => {},
                    }
                },
                None => {},
            }
        }
        k = k + 1;
    }
    true
}

/// Whether the scan of `data` stays in range (see `scan_fits`): what a caller tests before
/// `scan_file`.
pub fn check_scan_fits(
    ctx: &ScannerContext,
    reg: &ClassRegistry,
    data: &[u8],
    entry_reference: Option<u32>,
    mode: ScannerMode,
) -> (r: bool)
    ensures
        r == scan_fits(*ctx, *reg, data@, entry_reference, mode),
{
    match entry_reference {
        Some(reference) => match reg.get_class_by_id(reference) {
            Some(class) => {
                let pattern_name = String::from_str("s_pattern_component");
                if class.name == pattern_name && data.len() > 32 {
                    let ptr_offset = read_u64_at(data, 0x10, ctx.endian);
                    if ptr_offset > u64::MAX - 0x10 {
                        return false;
                    }
                }
            },
            None => {},
        },
        None => {},
    }
    if !candidates_fit(ctx, reg, data) {
        return false;
    }
    if mode == ScannerMode::Tags {
        return true;
    }
    let blocked = find_blocked_ranges(ctx, reg, data);
    let n = data.len() / 4;
    assert(n * 4 <= data.len());
    let mut k: usize = 0;
    while k < n
        invariant
            n == word_count(data@),
            n * 4 <= data.len(),
            k <= n,
            range_views(blocked@) == blocked_ranges(*ctx, *reg, data@, word_count(data@)),
            mode != ScannerMode::Tags,
            pattern_pointer(*ctx, *reg, data@, entry_reference) matches Some(off) ==> off <= u64::MAX,
            forall|j: int|
                0 <= j < word_count(data@) ==> (#[trigger] blocked_candidate(*ctx, *reg, data@, 4 * j) matches Some(
                    (st, size),
                ) ==> st + size <= u64::MAX),
            forall|j: int|
                0 <= j < k && !word_blocked(*ctx, *reg, data@, 4 * j) && is_string_blob_marker(
                    word_at(ctx.endian, data@, 4 * j),
                ) ==> #[trigger] blob_size_ok(ctx.legacy_headers, data@, 4 * j),
        decreases n - k,
    {
        let o = 4 * k;
        let v = read_u32_at(data, o, ctx.endian);
        assert(v == word_at(ctx.endian, data@, 4 * (k as int)));
        if !is_blocked(&blocked, o as u64) && is_string_blob_marker_exec(v) {
            let len = data.len();
            let fits = if ctx.legacy_headers {
                if len - o >= 8 {
                    read_u32_at(data, o + 4, Endian::Big) as u64 <= isize::MAX as u64
                } else {
                    true
                }
            } else {
                if len - o >= 12 {
                    read_u64_at(data, o + 4, Endian::Little) <= isize::MAX as u64
                } else {
                    true
                }
            };
            if !fits {
                assert(!word_blocked(*ctx, *reg, data@, 4 * (k as int)));
                assert(!blob_size_ok(ctx.legacy_headers, data@, 4 * (k as int)));
                return false;
            }
        }
        k = k + 1;
    }
    true
}

/// Scans tag data word by word for references to other tags (32- and 64-bit), localized and
/// wordlist string hashes and raw string blobs, skipping the data of arrays whose class blocks
/// scanning. `entry_reference` is the class id of the tag's package entry, if known.
pub fn scan_file(
    ctx: &ScannerContext,
    reg: &ClassRegistry,
    data: &[u8],
    entry_reference: Option<u32>,
    mode: ScannerMode,
) -> (r: ScanResult)
    requires
        ctx.wf(),
        scan_fits(*ctx, *reg, data@, entry_reference, mode),
    ensures
        r.successful,
        r.references@.len() == 0,
        r.secondary_class == spec_secondary_class(*ctx, *reg, data@, entry_reference),
        r.file_hashes@ == (if mode == ScannerMode::Hashes {
            Seq::empty()
        } else {
            file_hashes_upto(*ctx, *reg, data@, word_count(data@))
        }),
        r.file_hashes64@ == (if mode == ScannerMode::Hashes {
            Seq::empty()
        } else {
            file_hashes64_upto(*ctx, *reg, data@, word_count(data@))
        }),
        r.string_hashes@ == known_hashes_upto(
            *ctx,
            *reg,
            data@,
            ctx.known_string_hashes@,
            word_count(data@),
        ),
        r.wordlist_hashes@ == known_hashes_upto(
            *ctx,
            *reg,
            data@,
            ctx.known_wordlist_hashes@,
            word_count(data@),
        ),
        string_views(r.raw_strings@) == (if mode == ScannerMode::Tags {
            Seq::empty()
        } else {
            raw_strings_upto(*ctx, *reg, data@, word_count(data@))
        }),
{
    let mut r = ScanResult::default();
    r.secondary_class = secondary_class(ctx, reg, data, entry_reference);

    // Pass 1: data ranges of arrays whose class blocks scanning.
    let blocked = find_blocked_ranges(ctx, reg, data);

    // Pass 2: everything else.
    let n = data.len() / 4;
    assert(n * 4 <= data.len());
    let ghost nw = word_count(data@);
    let mut k: usize = 0;
    while k < n
        invariant
            n == nw,
            nw == word_count(data@),
            n * 4 <= data.len(),
            k <= n,
            ctx.wf(),
            scan_fits(*ctx, *reg, data@, entry_reference, mode),
            range_views(blocked@) == blocked_ranges(*ctx, *reg, data@, nw),
            r.successful,
            r.references@.len() == 0,
            r.secondary_class == spec_secondary_class(*ctx, *reg, data@, entry_reference),
            r.file_hashes@ == file_hashes_upto(*ctx, *reg, data@, k as nat),
            r.file_hashes64@ == file_hashes64_upto(*ctx, *reg, data@, k as nat),
            r.string_hashes@ == known_hashes_upto(
                *ctx,
                *reg,
                data@,
                ctx.known_string_hashes@,
                k as nat,
            ),
            r.wordlist_hashes@ == known_hashes_upto(
                *ctx,
                *reg,
                data@,
                ctx.known_wordlist_hashes@,
                k as nat,
            ),
            string_views(r.raw_strings@) == (if mode == ScannerMode::Tags {
                Seq::empty()
            } else {
                raw_strings_upto(*ctx, *reg, data@, k as nat)
            }),
        decreases n - k,
    {
        let o = 4 * k;
        let ghost go = 4 * k as int;
        let skip = is_blocked(&blocked, o as u64);
        assert(skip == word_blocked(*ctx, *reg, data@, go));
        let ghost raw_before = r.raw_strings@;
        if !skip {
            let value = read_u32_at(data, o, ctx.endian);
            assert(value == word_at(ctx.endian, data@, go));
            let hash = TagHash(value);
            if value != FNV1_BASE && hash.is_pkg_file() && contains_sorted_u32(
                ctx.valid_file_hashes.as_slice(),
                value,
            ) {
                r.file_hashes.push(ScannedHash { offset: o as u64, hash });
            }
            if mode != ScannerMode::Tags {
                if is_string_blob_marker_exec(value) {
                    assert(blob_size_ok(ctx.legacy_headers, data@, go));
                    let strings = read_raw_string_blob(data, o as u64, ctx.legacy_headers);
                    assert(strings@.map_values(|p: (u64, String)| p.1@) =~= blob_strings(
                        ctx.legacy_headers,
                        data@,
                        go,
                    ).map_values(|p: (int, Seq<char>)| p.1));
                    let mut texts = blob_texts(strings);
                    let ghost before = r.raw_strings@;
                    r.raw_strings.append(&mut texts);
                    assert(string_views(r.raw_strings@) =~= string_views(before) + blob_strings(
                        ctx.legacy_headers,
                        data@,
                        go,
                    ).map_values(|p: (int, Seq<char>)| p.1));
                }
            }
            if value != FNV1_BASE && contains_sorted_u32(ctx.known_string_hashes.as_slice(), value) {
                r.string_hashes.push(ScannedHash { offset: o as u64, hash: value });
            }
            if value != FNV1_BASE && contains_sorted_u32(
                ctx.known_wordlist_hashes.as_slice(),
                value,
            ) {
                r.wordlist_hashes.push(ScannedHash { offset: o as u64, hash: value });
            }
            if o % 8 == 0 && data.len() >= 8 && o <= data.len() - 8 {
                let value64 = read_u64_at(data, o, ctx.endian);
                assert(value64 == dword_at(ctx.endian, data@, go));
                if contains_sorted_u64(ctx.valid_file_hashes64.as_slice(), value64) {
                    r.file_hashes64.push(ScannedHash { offset: o as u64, hash: TagHash64(value64) });
                }
            }
        }
        proof {
            assert(r.file_hashes@ =~= file_hashes_upto(*ctx, *reg, data@, (k + 1) as nat));
            assert(r.file_hashes64@ =~= file_hashes64_upto(*ctx, *reg, data@, (k + 1) as nat));
            assert(r.string_hashes@ =~= known_hashes_upto(*ctx, *reg, data@, ctx.known_string_hashes@, (k + 1) as nat));
            assert(r.wordlist_hashes@ =~= known_hashes_upto(*ctx, *reg, data@, ctx.known_wordlist_hashes@, (k + 1) as nat));
            if mode != ScannerMode::Tags {
                assert(string_views(r.raw_strings@) =~= raw_strings_upto(*ctx, *reg, data@, (k + 1) as nat));
            } else {
                assert(string_views(r.raw_strings@) =~= Seq::<Seq<char>>::empty());
            }
        }
        k = k + 1;
    }

    if mode == ScannerMode::Hashes {
        r.file_hashes.clear();
        r.file_hashes64.clear();
    }
    r
}

/// The tag references the scan reports are exactly the words, at offsets that are multiples
/// of four, outside blocked arrays, that hold a value other than the FNV-1 basis which names a
/// package file and is a known tag; each is reported with its offset and value.
pub proof fn lemma_file_hashes_complete(ctx: ScannerContext, reg: ClassRegistry, data: Seq<u8>, n: nat)
    requires
        4 * n <= u64::MAX,
    ensures
        forall|o: int|
            0 <= o < 4 * n && o % 4 == 0 && !word_blocked(ctx, reg, data, o) && #[trigger] word_at(ctx.endian, data, o)
                != FNV1_BASE && spec_is_pkg_file(word_at(ctx.endian, data, o)) && ctx.valid_file_hashes@.contains(
                word_at(ctx.endian, data, o),
            ) ==> file_hashes_upto(ctx, reg, data, n).contains(
                ScannedHash { offset: o as u64, hash: TagHash(word_at(ctx.endian, data, o)) },
            ),
        forall|j: int|
            0 <= j < file_hashes_upto(ctx, reg, data, n).len() ==> {
                let x = #[trigger] file_hashes_upto(ctx, reg, data, n)[j];
                let o = x.offset as int;
                let v = word_at(ctx.endian, data, o);
                &&& o % 4 == 0
                &&& o < 4 * n
                &&& x.hash == TagHash(v)
                &&& !word_blocked(ctx, reg, data, o)
                &&& v != FNV1_BASE
                &&& spec_is_pkg_file(v)
                &&& ctx.valid_file_hashes@.contains(v)
            },
    decreases n,
{
    if n > 0 {
        lemma_file_hashes_complete(ctx, reg, data, (n - 1) as nat);
        let prev = file_hashes_upto(ctx, reg, data, (n - 1) as nat);
        let cur = file_hashes_upto(ctx, reg, data, n);
        let last = 4 * (n - 1);
        assert forall|o: int|
            0 <= o < 4 * n && o % 4 == 0 && !word_blocked(ctx, reg, data, o) && #[trigger] word_at(ctx.endian, data, o)
                != FNV1_BASE && spec_is_pkg_file(word_at(ctx.endian, data, o)) && ctx.valid_file_hashes@.contains(
                word_at(ctx.endian, data, o),
            ) implies cur.contains(ScannedHash { offset: o as u64, hash: TagHash(word_at(ctx.endian, data, o)) }) by {
            let x = ScannedHash { offset: o as u64, hash: TagHash(word_at(ctx.endian, data, o)) };
            if o < last {
                assert(prev.contains(x));
                let i = choose|i: int| 0 <= i < prev.len() && prev[i] == x;
                if file_hash_at(ctx, reg, data, last) {
                    assert(cur[i] == x);
                }
            } else {
                assert(o == last);
                assert(file_hash_at(ctx, reg, data, last));
                assert(cur[cur.len() - 1] == x);
            }
        }
        assert forall|j: int|
            0 <= j < cur.len() implies {
                let x = #[trigger] cur[j];
                let o = x.offset as int;
                let v = word_at(ctx.endian, data, o);
                &&& o % 4 == 0
                &&& o < 4 * n
                &&& x.hash == TagHash(v)
                &&& !word_blocked(ctx, reg, data, o)
                &&& v != FNV1_BASE
                &&& spec_is_pkg_file(v)
                &&& ctx.valid_file_hashes@.contains(v)
            } by {
            if j < prev.len() {
                assert(cur[j] == prev[j]);
            } else {
                assert(file_hash_at(ctx, reg, data, last));
                assert(cur[j].offset as int == last);
            }
        }
    }
}

} // verus!
