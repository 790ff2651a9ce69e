//! The tag cache: scan results of every tag, with the reverse reference lists added.
use vstd::prelude::*;
use crate::wordlist::{zstd_decode_all, zstd_decoded};
use std::collections::{HashMap, HashSet};
use crate::scanner::{ScanResult, ScannedHash, ScannerContext, ScannerMode, scan_result_is_empty};
use crate::sorted::{contains_sorted_u32, sort_u64s, sorted_u64};
use crate::tagtypes::{TagType, type_for_version};
use crate::taghash::{TagHash, TagHash64};
use crate::version::GameVersion;
use crate::strutil::{decimal, push_char, push_decimal, push_str};

verus! {

broadcast use vstd::std_specs::hash::group_hash_axioms;

/// Scan results of every tag of a package directory.
pub struct TagCache {
    /// Timestamp of the packages directory
    pub timestamp: u64,
    pub version: u32,
    pub hashes: Vec<(TagHash, ScanResult)>,
}

/// Format version of the tag cache that this library writes.
pub const TAG_CACHE_VERSION: u32 = 8;

impl Default for TagCache {
    fn default() -> (r: TagCache)
        ensures
            r.timestamp == 0,
            r.version == TAG_CACHE_VERSION,
            r.hashes@.len() == 0,
    {
        TagCache { timestamp: 0, version: TAG_CACHE_VERSION, hashes: Vec::new() }
    }
}

/// The references that the 64-bit hashes of a scan make, through the 64-to-32-bit table, each
/// paired with the referring tag.
pub open spec fn hash64_log(hs: Seq<ScannedHash<TagHash64>>, m64: Map<u64, u32>, src: TagHash) -> Seq<
    (u32, TagHash),
>
    decreases hs.len(),
{
    if hs.len() == 0 {
        seq![]
    } else {
        let rest = hash64_log(hs.drop_last(), m64, src);
        if m64.contains_key(hs.last().hash.0) {
            rest.push((m64[hs.last().hash.0], src))
        } else {
            rest
        }
    }
}

/// The references that the 32-bit hashes of a scan make, each paired with the referring tag.
pub open spec fn hash32_log(hs: Seq<ScannedHash<TagHash>>, src: TagHash) -> Seq<(u32, TagHash)> {
    hs.map_values(|h: ScannedHash<TagHash>| (h.hash.0, src))
}

/// The references that one cache entry makes: its 32-bit hashes, then its 64-bit ones.
pub open spec fn entry_log(e: (TagHash, ScanResult), m64: Map<u64, u32>) -> Seq<(u32, TagHash)> {
    hash32_log(e.1.file_hashes@, e.0) + hash64_log(e.1.file_hashes64@, m64, e.0)
}

/// Every reference that the entries make, entry by entry.
pub open spec fn reference_log(cache: Seq<(TagHash, ScanResult)>, m64: Map<u64, u32>) -> Seq<
    (u32, TagHash),
>
    decreases cache.len(),
{
    if cache.len() == 0 {
        seq![]
    } else {
        reference_log(cache.drop_last(), m64) + entry_log(cache.last(), m64)
    }
}

/// The tags that refer to `k`, once per reference, in the order of the log.
pub open spec fn referrers(log: Seq<(u32, TagHash)>, k: u32) -> Seq<TagHash>
    decreases log.len(),
{
    if log.len() == 0 {
        seq![]
    } else {
        let r = referrers(log.drop_last(), k);
        if log.last().0 == k {
            r.push(log.last().1)
        } else {
            r
        }
    }
}

/// Lists, in order, the references that the entries of `cache` make: each 32-bit hash found,
/// and each 64-bit hash found that the table maps to a 32-bit one, with the referring tag.
pub fn build_reference_log(cache: &Vec<(TagHash, ScanResult)>, tag64_entries: &HashMap<u64, u32>) -> (r: Vec<(u32, TagHash)>)
    ensures
        r@ == reference_log(cache@, tag64_entries@),
{
    let mut log: Vec<(u32, TagHash)> = Vec::new();
    let mut i: usize = 0;
    while i < cache.len()
        invariant
            i <= cache@.len(),
            log@ == reference_log(cache@.take(i as int), tag64_entries@),
        decreases cache@.len() - i,
    {
        let src = cache[i].0;
        let hashes = &cache[i].1.file_hashes;
        let hashes64 = &cache[i].1.file_hashes64;
        let ghost base = log@;
        let mut j: usize = 0;
        while j < hashes.len()
            invariant
                j <= hashes@.len(),
                log@ == base + hash32_log(hashes@.take(j as int), src),
            decreases hashes@.len() - j,
        {
            log.push((hashes[j].hash.0, src));
            j += 1;
            assert(hash32_log(hashes@.take(j as int), src) =~= hash32_log(hashes@.take(j - 1), src).push((hashes@[j - 1].hash.0, src)));
        }
        assert(hashes@.take(j as int) =~= hashes@);
        let ghost mid = log@;
        let mut j: usize = 0;
        while j < hashes64.len()
            invariant
                j <= hashes64@.len(),
                log@ == mid + hash64_log(hashes64@.take(j as int), tag64_entries@, src),
            decreases hashes64@.len() - j,
        {
            let h = hashes64[j].hash.0;
            assert(hashes64@.take(j + 1).drop_last() =~= hashes64@.take(j as int));
            match tag64_entries.get(&h) {
                Some(t32) => {
                    log.push((*t32, src));
                },
                None => {},
            }
            j += 1;
        }
        assert(hashes64@.take(j as int) =~= hashes64@);
        proof {
            assert(cache@.take(i + 1).drop_last() =~= cache@.take(i as int));
            assert(cache@.take(i + 1).last() == cache@[i as int]);
        }
        i += 1;
    }
    assert(cache@.take(i as int) =~= cache@);
    log
}

/// Whether `groups` and `index` hold, for each referenced hash, the tags that refer to it.
pub open spec fn groups_match(groups: Seq<(u32, Vec<TagHash>)>, index: Map<u32, usize>, log: Seq<(u32, TagHash)>) -> bool {
    &&& forall|p: int|
        0 <= p < groups.len() ==> {
            &&& index.contains_key(#[trigger] groups[p].0)
            &&& index[groups[p].0] == p
            &&& groups[p].1@ == referrers(log, groups[p].0)
            &&& groups[p].1@.len() > 0
        }
    &&& forall|k: u32| #[trigger] index.contains_key(k) <==> referrers(log, k).len() > 0
    &&& forall|k: u32|
        #[trigger] index.contains_key(k) ==> index[k] < groups.len() && groups[index[k] as int].0 == k
}

/// Groups the log by referenced hash: one group per hash, in order of first reference.
pub fn group_references(log: &Vec<(u32, TagHash)>) -> (r: (Vec<(u32, Vec<TagHash>)>, HashMap<u32, usize>))
    ensures
        groups_match(r.0@, r.1@, log@),
{
    let mut groups: Vec<(u32, Vec<TagHash>)> = Vec::new();
    let mut index: HashMap<u32, usize> = HashMap::new();
    let mut n: usize = 0;
    while n < log.len()
        invariant
            n <= log@.len(),
            groups_match(groups@, index@, log@.take(n as int)),
        decreases log@.len() - n,
    {
        let (t, src) = log[n];
        let ghost prev = log@.take(n as int);
        let ghost next = log@.take(n + 1);
        proof {
            assert(next.drop_last() =~= prev);
            assert(next.last() == (t, src));
        }
        match index.get(&t) {
            Some(p) => {
                let p = *p;
                groups[p].1.push(src);
                proof {
                    assert forall|q: int| 0 <= q < groups@.len() implies {
                        &&& index@.contains_key(#[trigger] groups@[q].0)
                        &&& index@[groups@[q].0] == q
                        &&& groups@[q].1@ == referrers(next, groups@[q].0)
                        &&& groups@[q].1@.len() > 0
                    } by {
                        assert(referrers(next, groups@[q].0) == (if groups@[q].0 == t {
                            referrers(prev, groups@[q].0).push(src)
                        } else {
                            referrers(prev, groups@[q].0)
                        }));
                    }
                    assert forall|k: u32| #[trigger] index@.contains_key(k) <==> referrers(next, k).len() > 0 by {
                        assert(referrers(next, k) == (if k == t { referrers(prev, k).push(src) } else { referrers(prev, k) }));
                    }
                }
            },
            None => {
                let mut v: Vec<TagHash> = Vec::new();
                v.push(src);
                let p = groups.len();
                groups.push((t, v));
                index.insert(t, p);
                proof {
                    assert forall|q: int| 0 <= q < groups@.len() implies {
                        &&& index@.contains_key(#[trigger] groups@[q].0)
                        &&& index@[groups@[q].0] == q
                        &&& groups@[q].1@ == referrers(next, groups@[q].0)
                        &&& groups@[q].1@.len() > 0
                    } by {
                        assert(referrers(next, groups@[q].0) == (if groups@[q].0 == t {
                            referrers(prev, groups@[q].0).push(src)
                        } else {
                            referrers(prev, groups@[q].0)
                        }));
                        if q < p {
                            assert(groups@[q].0 != t);
                        } else {
                            assert(referrers(prev, t).len() == 0);
                            assert(referrers(prev, t) =~= seq![]);
                            assert(groups@[q].1@ =~= seq![src]);
                        }
                    }
                    assert forall|k: u32| #[trigger] index@.contains_key(k) <==> referrers(next, k).len() > 0 by {
                        assert(referrers(next, k) == (if k == t { referrers(prev, k).push(src) } else { referrers(prev, k) }));
                    }
                }
            },
        }
        n += 1;
    }
    assert(log@.take(n as int) =~= log@);
    (groups, index)
}

/// Whether no two entries share a tag.
pub open spec fn keys_distinct(s: Seq<(TagHash, ScanResult)>) -> bool {
    forall|i: int, j: int| 0 <= i < j < s.len() ==> s[i].0 != s[j].0
}

/// Whether some entry is for the tag `k`.
pub open spec fn has_key(s: Seq<(TagHash, ScanResult)>, k: u32) -> bool {
    exists|i: int| 0 <= i < s.len() && #[trigger] s[i].0 == TagHash(k)
}

/// Whether `a` and `b` agree on everything but their reference lists.
pub open spec fn same_except_references(a: ScanResult, b: ScanResult) -> bool {
    &&& a.successful == b.successful
    &&& a.file_hashes == b.file_hashes
    &&& a.file_hashes64 == b.file_hashes64
    &&& a.string_hashes == b.string_hashes
    &&& a.wordlist_hashes == b.wordlist_hashes
    &&& a.raw_strings == b.raw_strings
    &&& a.secondary_class == b.secondary_class
}

/// An entry for a tag that was only seen referenced: a successful, empty scan with the
/// references.
pub open spec fn referenced_only(r: ScanResult, refs: Seq<TagHash>) -> bool {
    &&& r.successful
    &&& r.file_hashes@.len() == 0
    &&& r.file_hashes64@.len() == 0
    &&& r.string_hashes@.len() == 0
    &&& r.wordlist_hashes@.len() == 0
    &&& r.raw_strings@.len() == 0
    &&& r.secondary_class is None
    &&& r.references@ == refs
}

fn clone_references(v: &Vec<TagHash>) -> (r: Vec<TagHash>)
    ensures
        r@ == v@,
{
    let mut r: Vec<TagHash> = Vec::with_capacity(v.len());
    let mut i: usize = 0;
    while i < v.len()
        invariant
            i <= v@.len(),
            r@ == v@.take(i as int),
        decreases v@.len() - i,
    {
        r.push(v[i]);
        i += 1;
        assert(r@ =~= v@.take(i as int));
    }
    assert(v@.take(i as int) =~= v@);
    r
}

/// Builds the cache from the scan results: each tag's entry gets the list of tags that refer to
/// it (when any do), and each tag that is referred to but was not scanned gets an entry of its
/// own. References through 64-bit hashes go through `tag64_entries`.
pub fn transform_tag_cache(
    cache: Vec<(TagHash, ScanResult)>,
    tag64_entries: &HashMap<u64, u32>,
    timestamp: u64,
) -> (r: TagCache)
    requires
        keys_distinct(cache@),
    ensures
        r.timestamp == timestamp,
        r.version == TAG_CACHE_VERSION,
        keys_distinct(r.hashes@),
        r.hashes@.len() >= cache@.len(),
        forall|i: int|
            0 <= i < cache@.len() ==> {
                let log = reference_log(cache@, tag64_entries@);
                let k = cache@[i].0;
                &&& #[trigger] r.hashes@[i].0 == k
                &&& same_except_references(r.hashes@[i].1, cache@[i].1)
                &&& r.hashes@[i].1.references@ == (if referrers(log, k.0).len() > 0 {
                    referrers(log, k.0)
                } else {
                    cache@[i].1.references@
                })
            },
        forall|i: int|
            #![trigger r.hashes@[i]]
            cache@.len() <= i < r.hashes@.len() ==> {
                let log = reference_log(cache@, tag64_entries@);
                let k = r.hashes@[i].0;
                &&& !has_key(cache@, k.0)
                &&& referrers(log, k.0).len() > 0
                &&& referenced_only(r.hashes@[i].1, referrers(log, k.0))
            },
        forall|k: u32|
            referrers(reference_log(cache@, tag64_entries@), k).len() > 0 ==> #[trigger] has_key(r.hashes@, k),
{
    let ghost input = cache@;
    let ghost m64 = tag64_entries@;
    let log = build_reference_log(&cache, tag64_entries);
    let (groups, index) = group_references(&log);
    let mut cache = cache;
    let mut hashes: Vec<(TagHash, ScanResult)> = Vec::new();
    let mut keys: HashSet<u32> = HashSet::new();
    let mut i: usize = 0;
    while i < cache.len()
        invariant
            cache@.len() == input.len(),
            i <= input.len(),
            keys_distinct(input),
            log@ == reference_log(input, m64),
            groups_match(groups@, index@, log@),
            forall|j: int| i <= j < input.len() ==> #[trigger] cache@[j] == input[j],
            hashes@.len() == i,
            forall|x: u32| #[trigger] keys@.contains(x) <==> exists|j: int| 0 <= j < i && #[trigger] input[j].0 == TagHash(x),
            forall|j: int|
                0 <= j < i ==> {
                    let k = input[j].0;
                    &&& #[trigger] hashes@[j].0 == k
                    &&& same_except_references(hashes@[j].1, input[j].1)
                    &&& hashes@[j].1.references@ == (if referrers(log@, k.0).len() > 0 {
                        referrers(log@, k.0)
                    } else {
                        input[j].1.references@
                    })
                },
        decreases input.len() - i,
    {
        let mut entry = (TagHash(0), ScanResult::default());
        std::mem::swap(&mut entry, &mut cache[i]);
        let (k, mut scan) = entry;
        match index.get(&k.0) {
            Some(p) => {
                scan.references = clone_references(&groups[*p].1);
            },
            None => {},
        }
        hashes.push((k, scan));
        keys.insert(k.0);
        proof {
            assert forall|x: u32| #[trigger] keys@.contains(x) <==> exists|j: int| 0 <= j < i + 1 && #[trigger] input[j].0 == TagHash(x) by {
                if x == k.0 {
                    assert(input[i as int].0 == TagHash(x));
                }
            }
        }
        i += 1;
    }
    let ghost scanned = hashes@;
    assert(forall|j: int|
        0 <= j < input.len() ==> {
            let k = input[j].0;
            &&& #[trigger] scanned[j].0 == k
            &&& same_except_references(scanned[j].1, input[j].1)
            &&& scanned[j].1.references@ == (if referrers(log@, k.0).len() > 0 {
                referrers(log@, k.0)
            } else {
                input[j].1.references@
            })
        });
    let mut p: usize = 0;
    while p < groups.len()
        invariant
            p <= groups@.len(),
            keys_distinct(input),
            log@ == reference_log(input, m64),
            groups_match(groups@, index@, log@),
            hashes@.len() >= input.len(),
            scanned.len() == input.len(),
            forall|x: u32| #[trigger] keys@.contains(x) <==> exists|j: int| 0 <= j < input.len() && #[trigger] input[j].0 == TagHash(x),
            forall|j: int| 0 <= j < input.len() ==> #[trigger] hashes@[j] == scanned[j],
            forall|j: int| 0 <= j < input.len() ==> #[trigger] scanned[j].0 == input[j].0,
            forall|j: int|
                #![trigger hashes@[j]]
                input.len() <= j < hashes@.len() ==> {
                    let k = hashes@[j].0;
                    &&& !has_key(input, k.0)
                    &&& referrers(log@, k.0).len() > 0
                    &&& referenced_only(hashes@[j].1, referrers(log@, k.0))
                    &&& index@.contains_key(k.0)
                    &&& index@[k.0] < p
                },
            keys_distinct(hashes@),
            forall|q: int| 0 <= q < p ==> #[trigger] has_key(hashes@, groups@[q].0),
        decreases groups@.len() - p,
    {
        let k = groups[p].0;
        if groups[p].1.len() > 0 && !keys.contains(&k) {
            let refs = clone_references(&groups[p].1);
            let mut scan = ScanResult::default();
            scan.references = refs;
            let ghost before = hashes@;
            hashes.push((TagHash(k), scan));
            proof {
                assert(index@.contains_key(groups@[p as int].0));
                assert(groups@[p as int].1@ == referrers(log@, k));
                assert(referenced_only(hashes@[hashes@.len() - 1].1, referrers(log@, k)));
                assert forall|j: int| #![trigger hashes@[j]] input.len() <= j < hashes@.len() - 1 implies index@[hashes@[j].0.0] < p by {
                    assert(hashes@[j] == before[j]);
                }
                assert(!has_key(input, k)) by {
                    if has_key(input, k) {
                        let j = choose|j: int| 0 <= j < input.len() && #[trigger] input[j].0 == TagHash(k);
                        assert(keys@.contains(k));
                    }
                }
                assert forall|a: int, b: int| 0 <= a < b < hashes@.len() implies hashes@[a].0 != hashes@[b].0 by {
                    if b == hashes@.len() - 1 {
                        if a < input.len() {
                            assert(hashes@[a].0 == input[a].0);
                            assert(keys@.contains(input[a].0.0));
                        } else {
                            assert(hashes@[a] == before[a]);
                            assert(index@[before[a].0.0] < p);
                            assert(index@[k] == p);
                        }
                    }
                }
                assert(has_key(hashes@, k)) by {
                    assert(hashes@[hashes@.len() - 1].0 == TagHash(k));
                }
                assert forall|q: int| 0 <= q < p + 1 implies #[trigger] has_key(hashes@, groups@[q].0) by {
                    if q < p {
                        assert(has_key(before, groups@[q].0));
                        let j = choose|j: int| 0 <= j < before.len() && #[trigger] before[j].0 == TagHash(groups@[q].0);
                        assert(hashes@[j].0 == TagHash(groups@[q].0));
                    }
                }
            }
        } else {
            proof {
                assert(keys@.contains(k));
                let j = choose|j: int| 0 <= j < input.len() && #[trigger] input[j].0 == TagHash(k);
                assert(hashes@[j].0 == TagHash(k));
                assert(has_key(hashes@, groups@[p as int].0));
            }
        }
        p += 1;
    }
    proof {
        assert forall|j: int| 0 <= j < input.len() implies {
            let k = input[j].0;
            &&& #[trigger] hashes@[j].0 == k
            &&& same_except_references(hashes@[j].1, input[j].1)
            &&& hashes@[j].1.references@ == (if referrers(log@, k.0).len() > 0 {
                referrers(log@, k.0)
            } else {
                input[j].1.references@
            })
        } by {
            assert(hashes@[j] == scanned[j]);
            assert(scanned[j].0 == input[j].0);
        }
        assert forall|k: u32| referrers(reference_log(input, m64), k).len() > 0 implies #[trigger] has_key(hashes@, k) by {
            assert(index@.contains_key(k));
            let q = index@[k] as int;
            assert(groups@[q].0 == k);
            assert(has_key(hashes@, groups@[q].0));
        }
    }
    TagCache { timestamp, version: TAG_CACHE_VERSION, hashes }
}

/// Outcome of checking a cache read from disk.
pub enum CacheLoadResult {
    Loaded(TagCache),
    Rebuild,
}

/// A cache written by a newer build, with its format version.
#[derive(Clone, Copy, Debug, PartialEq, Eq, Structural)]
pub struct CacheTooNew {
    pub version: u32,
}

/// Decides whether a decoded cache can be used: one of the current format that is not older
/// than the packages directory is loaded, an older format or an outdated one is rebuilt, and a
/// newer format is an error.
pub fn check_cache(cache: TagCache, package_dir_timestamp: u64) -> (r: Result<CacheLoadResult, CacheTooNew>)
    ensures
        cache.version > TAG_CACHE_VERSION <==> r is Err,
        r matches Err(e) ==> e.version == cache.version,
        cache.version < TAG_CACHE_VERSION ==> r matches Ok(CacheLoadResult::Rebuild),
        cache.version == TAG_CACHE_VERSION && cache.timestamp < package_dir_timestamp ==> r matches Ok(CacheLoadResult::Rebuild),
        cache.version == TAG_CACHE_VERSION && cache.timestamp >= package_dir_timestamp ==> (r matches Ok(CacheLoadResult::Loaded(c)) && c.timestamp == cache.timestamp && c.version == cache.version && c.hashes == cache.hashes),
{
    if cache.version == TAG_CACHE_VERSION {
        if cache.timestamp < package_dir_timestamp {
            Ok(CacheLoadResult::Rebuild)
        } else {
            Ok(CacheLoadResult::Loaded(cache))
        }
    } else if cache.version < TAG_CACHE_VERSION {
        Ok(CacheLoadResult::Rebuild)
    } else {
        Err(CacheTooNew { version: cache.version })
    }
}

/// Decompresses the bytes of a tag cache file (a zstd stream); `None` when they do not
/// decompress.
pub fn decompress_cache(data: &[u8]) -> (r: Option<Vec<u8>>)
    ensures
        match r {
            Some(v) => zstd_decoded(data@) == Some(v@),
            None => zstd_decoded(data@) is None,
        },
{
    zstd_decode_all(data)
}

/// What the cache builder reads of a package entry's header.
#[derive(Clone, Copy, Debug, PartialEq, Eq, Structural)]
pub struct EntryInfo {
    pub file_type: u8,
    pub file_subtype: u8,
    pub starting_block: u32,
    /// Class id of a tag, or the entry it refers to.
    pub reference: u32,
}

/// Entry types that get scanned: tags, and Wwise banks (for reverse hash lookup).
pub open spec fn scanned_type(t: TagType) -> bool {
    t is Tag || t is TagGlobal || t is WwiseBank
}

/// Whether the builder scans entry `e` under the given game version.
pub open spec fn entry_scanned(version: GameVersion, e: EntryInfo) -> bool {
    scanned_type(type_for_version(version, e.file_type, e.file_subtype))
}

/// Sort key of entry `i`: by starting block, then by position.
pub open spec fn scan_key(e: EntryInfo, i: int) -> int {
    e.starting_block * 0x1_0000_0000 + i
}

/// How an entry of the given type is scanned: Wwise banks for string hashes only.
pub open spec fn scan_mode_of(t: TagType) -> ScannerMode {
    if t is WwiseBank {
        ScannerMode::Hashes
    } else {
        ScannerMode::Both
    }
}

/// How an entry is scanned under the given game version.
pub fn scan_mode_for(version: GameVersion, file_type: u8, file_subtype: u8) -> (r: ScannerMode)
    ensures
        r == scan_mode_of(type_for_version(version, file_type, file_subtype)),
{
    match TagType::from_type_subtype_for_version(version, file_type, file_subtype) {
        TagType::WwiseBank => ScannerMode::Hashes,
        _ => ScannerMode::Both,
    }
}

/// The positions of the entries to scan, ordered by starting block (ties by position) so that
/// blocks are read sequentially.
pub fn scan_order(version: GameVersion, entries: &[EntryInfo]) -> (r: Vec<usize>)
    requires
        entries@.len() <= 0x1_0000_0000,
    ensures
        forall|i: int| 0 <= i < r@.len() ==> #[trigger] r@[i] < entries@.len() && entry_scanned(version, entries@[r@[i] as int]),
        forall|j: int| 0 <= j < entries@.len() && entry_scanned(version, #[trigger] entries@[j]) ==> r@.contains(j as usize),
        forall|a: int, b: int|
            0 <= a < b < r@.len() ==> scan_key(entries@[r@[a] as int], r@[a] as int) < scan_key(entries@[r@[b] as int], r@[b] as int),
{
    broadcast use vstd::seq_lib::group_to_multiset_ensures;
    let mut keys: Vec<u64> = Vec::new();
    let mut j: usize = 0;
    while j < entries.len()
        invariant
            j <= entries@.len(),
            entries@.len() <= 0x1_0000_0000,
            forall|i: int| 0 <= i < keys@.len() ==> {
                &&& #[trigger] (keys@[i] % 0x1_0000_0000) < j
                &&& keys@[i] == scan_key(entries@[(keys@[i] % 0x1_0000_0000) as int], (keys@[i] % 0x1_0000_0000) as int)
                &&& entry_scanned(version, entries@[(keys@[i] % 0x1_0000_0000) as int])
            },
            forall|i: int| 0 <= i < j && entry_scanned(version, #[trigger] entries@[i]) ==> keys@.contains(scan_key(entries@[i], i) as u64),
            forall|a: int, b: int| 0 <= a < b < keys@.len() ==> #[trigger] (keys@[a] % 0x1_0000_0000) < #[trigger] (keys@[b] % 0x1_0000_0000),
        decreases entries@.len() - j,
    {
        let e = entries[j];
        let t = TagType::from_type_subtype_for_version(version, e.file_type, e.file_subtype);
        let ghost before = keys@;
        if matches!(t, TagType::Tag | TagType::TagGlobal | TagType::WwiseBank) {
            let key = (e.starting_block as u64) * 0x1_0000_0000 + (j as u64);
            assert(key % 0x1_0000_0000 == j);
            keys.push(key);
            assert(keys@[keys@.len() - 1] == key);
            assert(keys@.contains(key));
        }
        proof {
            assert forall|i: int| 0 <= i < j + 1 && entry_scanned(version, #[trigger] entries@[i]) implies keys@.contains(scan_key(entries@[i], i) as u64) by {
                if i < j {
                    let x = scan_key(entries@[i], i) as u64;
                    assert(before.contains(x));
                    let p = choose|p: int| 0 <= p < before.len() && before[p] == x;
                    assert(keys@[p] == x);
                }
            }
        }
        j += 1;
    }
    let ghost unsorted = keys@;
    proof {
        assert(unsorted.no_duplicates()) by {
            assert forall|a: int, b: int| 0 <= a < unsorted.len() && 0 <= b < unsorted.len() && a != b implies unsorted[a] != unsorted[b] by {
                if a < b {
                    assert(unsorted[a] % 0x1_0000_0000 < unsorted[b] % 0x1_0000_0000);
                } else {
                    assert(unsorted[b] % 0x1_0000_0000 < unsorted[a] % 0x1_0000_0000);
                }
            }
        }
        unsorted.lemma_multiset_has_no_duplicates();
    }
    sort_u64s(&mut keys);
    proof {
        keys@.lemma_multiset_has_no_duplicates_conv();
    }
    let mut r: Vec<usize> = Vec::with_capacity(keys.len());
    let mut i: usize = 0;
    while i < keys.len()
        invariant
            i <= keys@.len(),
            r@.len() == i,
            forall|q: int| 0 <= q < i ==> #[trigger] r@[q] == keys@[q] % 0x1_0000_0000,
        decreases keys@.len() - i,
    {
        r.push((keys[i] % 0x1_0000_0000) as usize);
        i += 1;
    }
    proof {
        keys@.to_multiset_ensures();
        unsorted.to_multiset_ensures();
        assert forall|q: int| 0 <= q < r@.len() implies #[trigger] r@[q] < entries@.len() && entry_scanned(version, entries@[r@[q] as int]) by {
            assert(keys@.contains(keys@[q]));
            assert(keys@.to_multiset().count(keys@[q]) > 0);
            assert(unsorted.to_multiset().count(keys@[q]) > 0);
            assert(unsorted.contains(keys@[q]));
            let p = choose|p: int| 0 <= p < unsorted.len() && unsorted[p] == keys@[q];
        }
        assert forall|jj: int| 0 <= jj < entries@.len() && entry_scanned(version, #[trigger] entries@[jj]) implies r@.contains(jj as usize) by {
            let key = scan_key(entries@[jj], jj) as u64;
            assert(unsorted.contains(key));
            assert(unsorted.to_multiset().count(key) > 0);
            assert(keys@.to_multiset().count(key) > 0);
            assert(keys@.contains(key));
            let q = choose|q: int| 0 <= q < keys@.len() && keys@[q] == key;
            assert(r@[q] == jj);
        }
        assert forall|a: int, b: int| 0 <= a < b < r@.len() implies scan_key(entries@[r@[a] as int], r@[a] as int) < scan_key(entries@[r@[b] as int], r@[b] as int) by {
            assert(keys@.contains(keys@[a]));
            assert(keys@.contains(keys@[b]));
            assert(keys@.to_multiset().count(keys@[a]) > 0);
            assert(keys@.to_multiset().count(keys@[b]) > 0);
            assert(unsorted.to_multiset().count(keys@[a]) > 0);
            assert(unsorted.to_multiset().count(keys@[b]) > 0);
            assert(unsorted.contains(keys@[a]));
            assert(unsorted.contains(keys@[b]));
            assert(keys@[a] <= keys@[b]);
            assert(keys@[a] != keys@[b]);
        }
    }
    r
}

/// For a Destiny 1 tag, records the entry's reference as a 32-bit hash at the front of the
/// scan (offset `u64::MAX`), when it names a valid file.
pub fn add_entry_reference(r: &mut ScanResult, ctx: &ScannerContext, is_d1: bool, reference: u32)
    requires
        ctx.wf(),
    ensures
        final(r).file_hashes@ == (if is_d1 && ctx.valid_file_hashes@.contains(reference) {
            seq![ScannedHash { offset: u64::MAX, hash: TagHash(reference) }] + old(r).file_hashes@
        } else {
            old(r).file_hashes@
        }),
        same_except_file_hashes(*final(r), *old(r)),
{
    if is_d1 && contains_sorted_u32(ctx.valid_file_hashes.as_slice(), reference) {
        r.file_hashes.insert(0, ScannedHash { offset: u64::MAX, hash: TagHash(reference) });
        assert(r.file_hashes@ =~= seq![ScannedHash { offset: u64::MAX, hash: TagHash(reference) }] + old(r).file_hashes@);
    }
}

/// Whether `a` and `b` agree on everything but their 32-bit hashes.
pub open spec fn same_except_file_hashes(a: ScanResult, b: ScanResult) -> bool {
    &&& a.successful == b.successful
    &&& a.file_hashes64 == b.file_hashes64
    &&& a.string_hashes == b.string_hashes
    &&& a.wordlist_hashes == b.wordlist_hashes
    &&& a.raw_strings == b.raw_strings
    &&& a.references == b.references
    &&& a.secondary_class == b.secondary_class
}

/// Progress of building or loading the tag cache.
#[derive(Clone, Copy, Debug, PartialEq, Eq, Structural)]
pub enum ScanStatus {
    /// Nothing under way.
    Idle,
    CreatingScanner,
    Scanning { current_package: usize, total_packages: usize },
    TransformGathering,
    TransformApplying,
    WritingCache,
    LoadingCache,
}

/// The text a progress display shows for a status.
pub open spec fn scan_status_text(s: ScanStatus) -> Seq<char> {
    match s {
        ScanStatus::Idle => seq![],
        ScanStatus::CreatingScanner => "Creating scanner"@,
        ScanStatus::Scanning { current_package, total_packages } => "Creating new cache "@ + decimal(
            current_package as nat,
        ) + seq!['/'] + decimal(total_packages as nat),
        ScanStatus::TransformGathering => "Transforming cache (gathering references)"@,
        ScanStatus::TransformApplying => "Transforming cache (applying references)"@,
        ScanStatus::WritingCache => "Writing cache"@,
        ScanStatus::LoadingCache => "Loading cache"@,
    }
}

impl ScanStatus {
    /// The text a progress display shows for this status.
    pub fn to_string(&self) -> (r: String)
        ensures
            r@ == scan_status_text(*self),
    {
        let mut s = String::new();
        match self {
            ScanStatus::Idle => {},
            ScanStatus::CreatingScanner => push_str(&mut s, "Creating scanner"),
            ScanStatus::Scanning { current_package, total_packages } => {
                push_str(&mut s, "Creating new cache ");
                push_decimal(&mut s, *current_package as u64);
                push_char(&mut s, '/');
                push_decimal(&mut s, *total_packages as u64);
            },
            ScanStatus::TransformGathering => push_str(&mut s, "Transforming cache (gathering references)"),
            ScanStatus::TransformApplying => push_str(&mut s, "Transforming cache (applying references)"),
            ScanStatus::WritingCache => push_str(&mut s, "Writing cache"),
            ScanStatus::LoadingCache => push_str(&mut s, "Loading cache"),
        }
        assert(s@ =~= scan_status_text(*self));
        s
    }

    /// Counts one more package opened: returns the new status and the number of packages
    /// opened before this one (0 when no scan was under way).
    pub fn next_package(&self, total_packages: usize) -> (r: (ScanStatus, usize))
        requires
            *self matches ScanStatus::Scanning { current_package, .. } ==> current_package < usize::MAX,
        ensures
            r.1 == (match *self {
                ScanStatus::Scanning { current_package, .. } => current_package,
                _ => 0,
            }),
            r.0 == (ScanStatus::Scanning { current_package: (r.1 + 1) as usize, total_packages }),
    {
        let current = match self {
            ScanStatus::Scanning { current_package, .. } => *current_package,
            _ => 0,
        };
        (ScanStatus::Scanning { current_package: current + 1, total_packages }, current)
    }
}

} // verus!
