//! Searching the tag cache: the tags of a given type reachable from a tag through the tag
//! references the scans found.
use vstd::prelude::*;
use std::collections::{HashMap, HashSet};
use crate::cache::{EntryInfo, TagCache};
use crate::scanner::{ScanResult, ScannedHash};
use crate::tagtypes::{TagType, type_for_version};
use crate::taghash::{TagHash, TagHash64};
use crate::version::GameVersion;

verus! {

broadcast use vstd::std_specs::hash::group_hash_axioms;

/// Whether `index` maps each tag of the cache to its position.
pub open spec fn index_matches(index: Map<u32, usize>, hashes: Seq<(TagHash, ScanResult)>) -> bool {
    &&& forall|k: u32| #[trigger] index.contains_key(k) ==> index[k] < hashes.len() && hashes[index[k] as int].0 == TagHash(k)
    &&& forall|i: int| 0 <= i < hashes.len() ==> index.contains_key(#[trigger] hashes[i].0.0)
}

/// Position of the last cache entry for tag `k`, if any.
pub open spec fn last_index_of(hashes: Seq<(TagHash, ScanResult)>, k: u32) -> Option<int>
    decreases hashes.len(),
{
    if hashes.len() == 0 {
        None
    } else if hashes.last().0.0 == k {
        Some(hashes.len() - 1)
    } else {
        last_index_of(hashes.drop_last(), k)
    }
}

/// A found position is in range and holds the tag; a tag of the cache is found.
pub proof fn lemma_last_index_of(hashes: Seq<(TagHash, ScanResult)>, k: u32)
    ensures
        last_index_of(hashes, k) matches Some(p) ==> 0 <= p < hashes.len() && hashes[p].0.0 == k,
        last_index_of(hashes, k) is None ==> forall|i: int| 0 <= i < hashes.len() ==> hashes[i].0.0 != k,
    decreases hashes.len(),
{
    if hashes.len() > 0 {
        lemma_last_index_of(hashes.drop_last(), k);
        if hashes.last().0.0 != k {
            assert forall|i: int| 0 <= i < hashes.len() - 1 implies hashes[i] == hashes.drop_last()[i] by {}
        }
    }
}

/// The scan result the cache holds for a tag (its last entry), if any.
pub open spec fn cache_lookup(hashes: Seq<(TagHash, ScanResult)>, k: u32) -> Option<ScanResult> {
    match last_index_of(hashes, k) {
        Some(p) => Some(hashes[p].1),
        None => None,
    }
}

/// Whether `index` maps each tag of the cache to the position of its last entry, and nothing
/// else.
pub open spec fn index_exact(index: Map<u32, usize>, hashes: Seq<(TagHash, ScanResult)>) -> bool {
    forall|k: u32|
        #![trigger index.contains_key(k)]
        #![trigger last_index_of(hashes, k)]
        match last_index_of(hashes, k) {
            Some(p) => index.contains_key(k) && index[k] == p,
            None => !index.contains_key(k),
        }
}

/// Maps each tag of the cache to the position of its last entry.
pub fn index_tag_cache(cache: &TagCache) -> (r: HashMap<u32, usize>)
    ensures
        index_matches(r@, cache.hashes@),
        index_exact(r@, cache.hashes@),
{
    let mut m: HashMap<u32, usize> = HashMap::new();
    let mut i: usize = 0;
    assert(cache.hashes@.take(0) =~= Seq::<(TagHash, ScanResult)>::empty());
    while i < cache.hashes.len()
        invariant
            i <= cache.hashes@.len(),
            forall|k: u32| #[trigger] m@.contains_key(k) ==> m@[k] < i && cache.hashes@[m@[k] as int].0 == TagHash(k),
            forall|j: int| 0 <= j < i ==> m@.contains_key(#[trigger] cache.hashes@[j].0.0),
            index_exact(m@, cache.hashes@.take(i as int)),
        decreases cache.hashes@.len() - i,
    {
        let k = cache.hashes[i].0.0;
        m.insert(k, i);
        proof {
            let h = cache.hashes@.take(i + 1);
            assert(h.drop_last() =~= cache.hashes@.take(i as int));
            assert forall|k2: u32|
                match #[trigger] last_index_of(h, k2) {
                    Some(p) => m@.contains_key(k2) && m@[k2] == p,
                    None => !m@.contains_key(k2),
                } by {
                assert(last_index_of(cache.hashes@.take(i as int), k2) == last_index_of(h.drop_last(), k2));
            }
        }
        i += 1;
    }
    assert(cache.hashes@.take(i as int) =~= cache.hashes@);
    m
}

/// The 32-bit tag of a 64-bit one: through the table, else the "no tag" value.
pub open spec fn hash32_of(m64: Map<u64, u32>, h: u64) -> u32 {
    if m64.contains_key(h) {
        m64[h]
    } else {
        u32::MAX
    }
}

/// The tags a scan refers to: its 32-bit hashes, then its 64-bit ones resolved to 32 bits.
pub open spec fn referenced_tags(r: ScanResult, m64: Map<u64, u32>) -> Seq<u32> {
    r.file_hashes@.map_values(|h: ScannedHash<TagHash>| h.hash.0) + r.file_hashes64@.map_values(
        |h: ScannedHash<TagHash64>| hash32_of(m64, h.hash.0),
    )
}

/// Whether the search descends into a tag of type `t` with class `reference`: a tag (or global
/// tag) that is not a material impact or footstep table.
pub open spec fn search_descends(t: TagType, reference: u32) -> bool {
    (t is Tag || t is TagGlobal) && reference != 0x8080873D && reference != 0x8080873F
}

/// Search from `tag` at `depth`, with the tags already seen: the tags of type `target` found
/// (with their entries and depths), and the tags seen afterwards.
pub open spec fn search_tag(
    cache: Seq<(TagHash, ScanResult)>,
    index: Map<u32, usize>,
    entries: Map<u32, EntryInfo>,
    m64: Map<u64, u32>,
    version: GameVersion,
    target: TagType,
    max_depth: nat,
    tag: u32,
    depth: nat,
    seen: Set<u32>,
) -> (Seq<(u32, EntryInfo, nat)>, Set<u32>)
    decreases (if depth <= max_depth { max_depth + 1 - depth } else { 0 }), 1int, 0int,
{
    if depth > max_depth || !index.contains_key(tag) || index[tag] >= cache.len() {
        (seq![], seen)
    } else {
        search_list(
            cache,
            index,
            entries,
            m64,
            version,
            target,
            max_depth,
            referenced_tags(cache[index[tag] as int].1, m64),
            0,
            depth,
            seen,
        )
    }
}

/// Search through the tags `hs[i..]` that a tag at `depth` refers to.
pub open spec fn search_list(
    cache: Seq<(TagHash, ScanResult)>,
    index: Map<u32, usize>,
    entries: Map<u32, EntryInfo>,
    m64: Map<u64, u32>,
    version: GameVersion,
    target: TagType,
    max_depth: nat,
    hs: Seq<u32>,
    i: nat,
    depth: nat,
    seen: Set<u32>,
) -> (Seq<(u32, EntryInfo, nat)>, Set<u32>)
    decreases (if depth <= max_depth { max_depth + 1 - depth } else { 0 }), 0int, hs.len() - i,
{
    if i >= hs.len() || depth > max_depth {
        (seq![], seen)
    } else {
        let h = hs[i as int];
        if seen.contains(h) {
            search_list(cache, index, entries, m64, version, target, max_depth, hs, i + 1, depth, seen)
        } else if !entries.contains_key(h) {
            search_list(cache, index, entries, m64, version, target, max_depth, hs, i + 1, depth, seen.insert(h))
        } else {
            let e = entries[h];
            let t = type_for_version(version, e.file_type, e.file_subtype);
            if t == target {
                let (rest, s2) = search_list(
                    cache,
                    index,
                    entries,
                    m64,
                    version,
                    target,
                    max_depth,
                    hs,
                    i + 1,
                    depth,
                    seen.insert(h),
                );
                (seq![(h, e, depth)] + rest, s2)
            } else if search_descends(t, e.reference) {
                let (sub, s2) = search_tag(
                    cache,
                    index,
                    entries,
                    m64,
                    version,
                    target,
                    max_depth,
                    h,
                    depth + 1,
                    seen.insert(h),
                );
                let (rest, s3) = search_list(cache, index, entries, m64, version, target, max_depth, hs, i + 1, depth, s2);
                (sub + rest, s3)
            } else {
                search_list(cache, index, entries, m64, version, target, max_depth, hs, i + 1, depth, seen.insert(h))
            }
        }
    }
}

/// Search results as (tag, entry, depth) triples of plain values.
pub open spec fn result_view(r: Seq<(TagHash, EntryInfo, usize)>) -> Seq<(u32, EntryInfo, nat)> {
    r.map_values(|x: (TagHash, EntryInfo, usize)| (x.0.0, x.1, x.2 as nat))
}

/// Whether every result is a tag of type `target` with its own entry, found at a depth in
/// `lo..=hi`, not among `before` but among `after`, and no tag is found twice.
pub open spec fn results_sound(
    r: Seq<(u32, EntryInfo, nat)>,
    entries: Map<u32, EntryInfo>,
    version: GameVersion,
    target: TagType,
    lo: nat,
    hi: nat,
    before: Set<u32>,
    after: Set<u32>,
) -> bool {
    &&& forall|k: int| 0 <= k < r.len() ==> {
        let x = #[trigger] r[k];
        &&& entries.contains_key(x.0)
        &&& entries[x.0] == x.1
        &&& type_for_version(version, x.1.file_type, x.1.file_subtype) == target
        &&& lo <= x.2 <= hi
        &&& !before.contains(x.0)
        &&& after.contains(x.0)
    }
    &&& forall|j: int, k: int| 0 <= j < k < r.len() ==> (#[trigger] r[j]).0 != (#[trigger] r[k]).0
    &&& before.subset_of(after)
}

/// A search from a tag finds only tags of the type searched for, each with its entry, at depths
/// from the starting depth down to the deepest level searched, each tag once and none that was
/// seen before; the tags seen before stay seen.
pub proof fn lemma_search_tag_sound(
    cache: Seq<(TagHash, ScanResult)>,
    index: Map<u32, usize>,
    entries: Map<u32, EntryInfo>,
    m64: Map<u64, u32>,
    version: GameVersion,
    target: TagType,
    max_depth: nat,
    tag: u32,
    depth: nat,
    seen: Set<u32>,
)
    ensures
        ({
            let (r, after) = search_tag(cache, index, entries, m64, version, target, max_depth, tag, depth, seen);
            results_sound(r, entries, version, target, depth, max_depth, seen, after)
        }),
    decreases (if depth <= max_depth { max_depth + 1 - depth } else { 0 }), 1int, 0int,
{
    if !(depth > max_depth || !index.contains_key(tag) || index[tag] >= cache.len()) {
        lemma_search_list_sound(
            cache,
            index,
            entries,
            m64,
            version,
            target,
            max_depth,
            referenced_tags(cache[index[tag] as int].1, m64),
            0,
            depth,
            seen,
        );
    }
}

/// The search through the tags that one tag refers to finds what `lemma_search_tag_sound` says.
pub proof fn lemma_search_list_sound(
    cache: Seq<(TagHash, ScanResult)>,
    index: Map<u32, usize>,
    entries: Map<u32, EntryInfo>,
    m64: Map<u64, u32>,
    version: GameVersion,
    target: TagType,
    max_depth: nat,
    hs: Seq<u32>,
    i: nat,
    depth: nat,
    seen: Set<u32>,
)
    ensures
        ({
            let (r, after) = search_list(cache, index, entries, m64, version, target, max_depth, hs, i, depth, seen);
            results_sound(r, entries, version, target, depth, max_depth, seen, after)
        }),
    decreases (if depth <= max_depth { max_depth + 1 - depth } else { 0 }), 0int, hs.len() - i,
{
    if i >= hs.len() || depth > max_depth {
    } else {
        let h = hs[i as int];
        if seen.contains(h) {
            lemma_search_list_sound(cache, index, entries, m64, version, target, max_depth, hs, i + 1, depth, seen);
        } else if !entries.contains_key(h) {
            lemma_search_list_sound(cache, index, entries, m64, version, target, max_depth, hs, i + 1, depth, seen.insert(h));
        } else {
            let e = entries[h];
            let t = type_for_version(version, e.file_type, e.file_subtype);
            if t == target {
                let s1 = seen.insert(h);
                lemma_search_list_sound(cache, index, entries, m64, version, target, max_depth, hs, i + 1, depth, s1);
                let (rest, s2) = search_list(cache, index, entries, m64, version, target, max_depth, hs, i + 1, depth, s1);
                let r = seq![(h, e, depth)] + rest;
                assert forall|k: int| 0 < k < r.len() implies r[k] == rest[k - 1] by {}
                assert(results_sound(r, entries, version, target, depth, max_depth, seen, s2)) by {
                    assert forall|j: int, k: int| 0 <= j < k < r.len() implies (#[trigger] r[j]).0 != (#[trigger] r[k]).0 by {
                        if j == 0 {
                            assert(!s1.contains(rest[k - 1].0));
                        }
                    }
                }
            } else if search_descends(t, e.reference) {
                let s1 = seen.insert(h);
                lemma_search_tag_sound(cache, index, entries, m64, version, target, max_depth, h, depth + 1, s1);
                let (sub, s2) = search_tag(cache, index, entries, m64, version, target, max_depth, h, depth + 1, s1);
                lemma_search_list_sound(cache, index, entries, m64, version, target, max_depth, hs, i + 1, depth, s2);
                let (rest, s3) = search_list(cache, index, entries, m64, version, target, max_depth, hs, i + 1, depth, s2);
                let r = sub + rest;
                assert forall|k: int| 0 <= k < sub.len() implies r[k] == sub[k] by {}
                assert forall|k: int| sub.len() <= k < r.len() implies r[k] == rest[k - sub.len()] by {}
                assert(results_sound(r, entries, version, target, depth, max_depth, seen, s3)) by {
                    assert forall|k: int| 0 <= k < r.len() implies {
                        let x = #[trigger] r[k];
                        &&& entries.contains_key(x.0)
                        &&& entries[x.0] == x.1
                        &&& type_for_version(version, x.1.file_type, x.1.file_subtype) == target
                        &&& depth <= x.2 <= max_depth
                        &&& !seen.contains(x.0)
                        &&& s3.contains(x.0)
                    } by {
                        if k < sub.len() {
                            assert(r[k] == sub[k]);
                        } else {
                            assert(r[k] == rest[k - sub.len()]);
                        }
                    }
                    assert forall|j: int, k: int| 0 <= j < k < r.len() implies (#[trigger] r[j]).0 != (#[trigger] r[k]).0 by {
                        if k < sub.len() {
                            assert(r[j] == sub[j] && r[k] == sub[k]);
                        } else if j >= sub.len() {
                            assert(r[j] == rest[j - sub.len()] && r[k] == rest[k - sub.len()]);
                        } else {
                            assert(r[j] == sub[j] && r[k] == rest[k - sub.len()]);
                            assert(s2.contains(sub[j].0));
                            assert(!s2.contains(rest[k - sub.len()].0));
                        }
                    }
                }
            } else {
                lemma_search_list_sound(cache, index, entries, m64, version, target, max_depth, hs, i + 1, depth, seen.insert(h));
            }
        }
    }
}

fn referenced_tag_list(r: &ScanResult, tag64_entries: &HashMap<u64, u32>) -> (v: Vec<u32>)
    ensures
        v@ == referenced_tags(*r, tag64_entries@),
{
    let mut v: Vec<u32> = Vec::new();
    let mut i: usize = 0;
    while i < r.file_hashes.len()
        invariant
            i <= r.file_hashes@.len(),
            v@ == r.file_hashes@.take(i as int).map_values(|h: ScannedHash<TagHash>| h.hash.0),
        decreases r.file_hashes@.len() - i,
    {
        v.push(r.file_hashes[i].hash.0);
        i += 1;
        assert(v@ =~= r.file_hashes@.take(i as int).map_values(|h: ScannedHash<TagHash>| h.hash.0));
    }
    assert(r.file_hashes@.take(i as int) =~= r.file_hashes@);
    let ghost first = v@;
    let mut j: usize = 0;
    while j < r.file_hashes64.len()
        invariant
            j <= r.file_hashes64@.len(),
            v@ == first + r.file_hashes64@.take(j as int).map_values(|h: ScannedHash<TagHash64>| hash32_of(tag64_entries@, h.hash.0)),
        decreases r.file_hashes64@.len() - j,
    {
        let h = r.file_hashes64[j].hash.0;
        let t = match tag64_entries.get(&h) {
            Some(t) => *t,
            None => u32::MAX,
        };
        v.push(t);
        j += 1;
        assert(v@ =~= first + r.file_hashes64@.take(j as int).map_values(|h: ScannedHash<TagHash64>| hash32_of(tag64_entries@, h.hash.0)));
    }
    assert(r.file_hashes64@.take(j as int) =~= r.file_hashes64@);
    v
}

/// Searches the tags reachable from `tag` (down to `max_depth` levels) for tags of type
/// `target_tagtype`: each referenced tag is visited once (`seen` records them); a tag of the
/// target type is a result, other tags (but material impact and footstep tables) are searched
/// in turn.
pub fn search_for_tag(
    cache: &TagCache,
    index: &HashMap<u32, usize>,
    entries: &HashMap<u32, EntryInfo>,
    tag64_entries: &HashMap<u64, u32>,
    version: GameVersion,
    tag: TagHash,
    target_tagtype: TagType,
    depth: usize,
    max_depth: usize,
    seen: &mut HashSet<u32>,
) -> (r: Vec<(TagHash, EntryInfo, usize)>)
    requires
        index_matches(index@, cache.hashes@),
        max_depth < usize::MAX,
    ensures
        (result_view(r@), final(seen)@) == search_tag(
            cache.hashes@,
            index@,
            entries@,
            tag64_entries@,
            version,
            target_tagtype,
            max_depth as nat,
            tag.0,
            depth as nat,
            old(seen)@,
        ),
    decreases (if depth <= max_depth { max_depth + 1 - depth } else { 0 }),
{
    let ghost scope = (cache.hashes@, index@, entries@, tag64_entries@, version, target_tagtype, max_depth as nat);
    if depth > max_depth {
        return Vec::new();
    }
    let pos = match index.get(&tag.0) {
        Some(p) => *p,
        None => return Vec::new(),
    };
    let hashes = referenced_tag_list(&cache.hashes[pos].1, tag64_entries);
    let ghost hs = hashes@;
    let ghost seen0 = old(seen)@;
    let mut results: Vec<(TagHash, EntryInfo, usize)> = Vec::new();
    let mut i: usize = 0;
    while i < hashes.len()
        invariant
            i <= hashes@.len(),
            hs == hashes@,
            depth <= max_depth,
            max_depth < usize::MAX,
            index_matches(index@, cache.hashes@),
            ({
                let (rest, fin) = search_list(
                    cache.hashes@,
                    index@,
                    entries@,
                    tag64_entries@,
                    version,
                    target_tagtype,
                    max_depth as nat,
                    hs,
                    i as nat,
                    depth as nat,
                    seen@,
                );
                search_list(
                    cache.hashes@,
                    index@,
                    entries@,
                    tag64_entries@,
                    version,
                    target_tagtype,
                    max_depth as nat,
                    hs,
                    0,
                    depth as nat,
                    seen0,
                ) == (result_view(results@) + rest, fin)
            }),
        decreases hashes@.len() - i,
    {
        let h = hashes[i];
        let ghost before = results@;
        let ghost seen_before = seen@;
        if seen.contains(&h) {
            i += 1;
            continue;
        }
        seen.insert(h);
        match entries.get(&h) {
            None => {},
            Some(e) => {
                let e = *e;
                let t = TagType::from_type_subtype_for_version(version, e.file_type, e.file_subtype);
                if t == target_tagtype {
                    results.push((TagHash(h), e, depth));
                    proof {
                        assert(result_view(results@) =~= result_view(before).push((h, e, depth as nat)));
                        let (rest, fin) = search_list(
                            cache.hashes@,
                            index@,
                            entries@,
                            tag64_entries@,
                            version,
                            target_tagtype,
                            max_depth as nat,
                            hs,
                            (i + 1) as nat,
                            depth as nat,
                            seen@,
                        );
                        assert(result_view(before) + (seq![(h, e, depth as nat)] + rest) =~= result_view(results@) + rest);
                    }
                } else if (matches!(t, TagType::Tag | TagType::TagGlobal)) && e.reference != 0x8080873D && e.reference != 0x8080873F {
                    let sub = search_for_tag(
                        cache,
                        index,
                        entries,
                        tag64_entries,
                        version,
                        TagHash(h),
                        target_tagtype,
                        depth + 1,
                        max_depth,
                        seen,
                    );
                    let ghost mid = results@;
                    let mut sub = sub;
                    results.append(&mut sub);
                    proof {
                        assert(result_view(results@) =~= result_view(mid) + result_view(results@.subrange(mid.len() as int, results@.len() as int)));
                        let (rest, fin) = search_list(
                            cache.hashes@,
                            index@,
                            entries@,
                            tag64_entries@,
                            version,
                            target_tagtype,
                            max_depth as nat,
                            hs,
                            (i + 1) as nat,
                            depth as nat,
                            seen@,
                        );
                        assert(results@.subrange(mid.len() as int, results@.len() as int) =~= results@.subrange(before.len() as int, results@.len() as int));
                        assert(result_view(before) + (result_view(results@.subrange(before.len() as int, results@.len() as int)) + rest) =~= result_view(results@) + rest);
                    }
                }
            },
        }
        i += 1;
    }
    proof {
        assert(result_view(results@) + seq![] =~= result_view(results@));
    }
    results
}

/// The results deeper than `min_depth`, each tag once (at its first place), without depths.
pub open spec fn deeper_unique(r: Seq<(u32, EntryInfo, nat)>, min_depth: nat) -> Seq<(u32, EntryInfo)>
    decreases r.len(),
{
    if r.len() == 0 {
        seq![]
    } else {
        let prev = deeper_unique(r.drop_last(), min_depth);
        let x = r.last();
        if x.2 > min_depth && !(exists|j: int| 0 <= j < prev.len() && #[trigger] prev[j].0 == x.0) {
            prev.push((x.0, x.1))
        } else {
            prev
        }
    }
}

/// Searches the cache from `start_tag` for tags of type `tagtype` down to `max_depth` levels and
/// keeps those found deeper than `min_depth`, each tag once, in the order found.
pub fn perform_tagsearch(
    cache: &TagCache,
    index: &HashMap<u32, usize>,
    entries: &HashMap<u32, EntryInfo>,
    tag64_entries: &HashMap<u64, u32>,
    version: GameVersion,
    start_tag: TagHash,
    tagtype: TagType,
    max_depth: usize,
    min_depth: usize,
) -> (r: Vec<(TagHash, EntryInfo)>)
    requires
        index_matches(index@, cache.hashes@),
        max_depth < usize::MAX,
    ensures
        r@.map_values(|x: (TagHash, EntryInfo)| (x.0.0, x.1)) == deeper_unique(
            search_tag(
                cache.hashes@,
                index@,
                entries@,
                tag64_entries@,
                version,
                tagtype,
                max_depth as nat,
                start_tag.0,
                0,
                Set::empty(),
            ).0,
            min_depth as nat,
        ),
{
    let mut seen: HashSet<u32> = HashSet::new();
    let results = search_for_tag(cache, index, entries, tag64_entries, version, start_tag, tagtype, 0, max_depth, &mut seen);
    let ghost rs = result_view(results@);
    let mut out: Vec<(TagHash, EntryInfo)> = Vec::new();
    let mut keys: HashSet<u32> = HashSet::new();
    let mut i: usize = 0;
    while i < results.len()
        invariant
            i <= results@.len(),
            rs == result_view(results@),
            out@.map_values(|x: (TagHash, EntryInfo)| (x.0.0, x.1)) == deeper_unique(rs.take(i as int), min_depth as nat),
            forall|k: u32| #[trigger] keys@.contains(k) <==> exists|j: int| 0 <= j < out@.len() && #[trigger] out@[j].0.0 == k,
        decreases results@.len() - i,
    {
        let (t, e, d) = results[i];
        let ghost prev = deeper_unique(rs.take(i as int), min_depth as nat);
        let ghost before = out@;
        assert(rs.take(i + 1).drop_last() =~= rs.take(i as int));
        assert(rs.take(i + 1).last() == (t.0, e, d as nat));
        proof {
            assert(before.map_values(|x: (TagHash, EntryInfo)| (x.0.0, x.1)) == prev);
            assert((exists|j: int| 0 <= j < prev.len() && #[trigger] prev[j].0 == t.0) <==> keys@.contains(t.0)) by {
                if keys@.contains(t.0) {
                    let j = choose|j: int| 0 <= j < before.len() && #[trigger] before[j].0.0 == t.0;
                    assert(prev[j].0 == t.0);
                }
                if exists|j: int| 0 <= j < prev.len() && #[trigger] prev[j].0 == t.0 {
                    let j = choose|j: int| 0 <= j < prev.len() && #[trigger] prev[j].0 == t.0;
                    assert(before[j].0.0 == t.0);
                }
            }
        }
        if d > min_depth && !keys.contains(&t.0) {
            out.push((t, e));
            keys.insert(t.0);
            proof {
                assert(out@.map_values(|x: (TagHash, EntryInfo)| (x.0.0, x.1)) =~= prev.push((t.0, e)));
                assert forall|k: u32| #[trigger] keys@.contains(k) implies exists|j: int| 0 <= j < out@.len() && #[trigger] out@[j].0.0 == k by {
                    if k == t.0 {
                        assert(out@[out@.len() - 1].0.0 == k);
                    } else {
                        let j = choose|j: int| 0 <= j < before.len() && #[trigger] before[j].0.0 == k;
                        assert(out@[j].0.0 == k);
                    }
                }
                assert forall|k: u32| (exists|j: int| 0 <= j < out@.len() && #[trigger] out@[j].0.0 == k) implies #[trigger] keys@.contains(k) by {
                    let j = choose|j: int| 0 <= j < out@.len() && #[trigger] out@[j].0.0 == k;
                    if j < before.len() {
                        assert(before[j].0.0 == k);
                    }
                }
            }
        }
        i += 1;
    }
    assert(rs.take(i as int) =~= rs);
    out
}

/// A tag reference of either width.
#[derive(Clone, Copy, Debug, PartialEq, Eq, Structural)]
pub enum ExtendedTagHash {
    Hash32(TagHash),
    Hash64(TagHash64),
}

/// The 32-bit tag a reference names: itself, or through the table (the "no tag" value when the
/// table lacks it).
pub open spec fn extended_hash32(h: ExtendedTagHash, m64: Map<u64, u32>) -> u32 {
    match h {
        ExtendedTagHash::Hash32(t) => t.0,
        ExtendedTagHash::Hash64(t) => hash32_of(m64, t.0),
    }
}

impl ExtendedTagHash {
    /// The 32-bit tag this reference names.
    pub fn hash32(&self, tag64_entries: &HashMap<u64, u32>) -> (r: TagHash)
        ensures
            r.0 == extended_hash32(*self, tag64_entries@),
    {
        match self {
            ExtendedTagHash::Hash32(h) => *h,
            ExtendedTagHash::Hash64(h) => match tag64_entries.get(&h.0) {
                Some(t) => TagHash(*t),
                None => TagHash(u32::MAX),
            },
        }
    }
}

/// A reference found in tag data, with its offset and the package entry of the tag it names.
#[derive(Clone, Copy, Debug, PartialEq, Eq, Structural)]
pub struct ScannedHashWithEntry {
    pub offset: u64,
    pub hash: ExtendedTagHash,
    pub entry: Option<EntryInfo>,
}

/// A scan result prepared for display: references of both widths together, by offset, with
/// their entries.
pub struct ExtendedScanResult {
    pub successful: bool,
    pub file_hashes: Vec<ScannedHashWithEntry>,
    /// References from other files
    pub references: Vec<(TagHash, Option<EntryInfo>)>,
}

/// The entry of a tag, if the package lookup has one.
pub open spec fn entry_of(entries: Map<u32, EntryInfo>, t: u32) -> Option<EntryInfo> {
    if entries.contains_key(t) {
        Some(entries[t])
    } else {
        None
    }
}

/// The references of a scan, both widths, in scan order, with their entries.
pub open spec fn extended_hashes(r: ScanResult, entries: Map<u32, EntryInfo>, m64: Map<u64, u32>) -> Seq<ScannedHashWithEntry> {
    r.file_hashes@.map_values(
        |h: ScannedHash<TagHash>|
            ScannedHashWithEntry { offset: h.offset, hash: ExtendedTagHash::Hash32(h.hash), entry: entry_of(entries, h.hash.0) },
    ) + r.file_hashes64@.map_values(
        |h: ScannedHash<TagHash64>|
            ScannedHashWithEntry {
                offset: h.offset,
                hash: ExtendedTagHash::Hash64(h.hash),
                entry: entry_of(entries, hash32_of(m64, h.hash.0)),
            },
    )
}

/// Whether the references are in order of offset.
pub open spec fn sorted_by_offset(s: Seq<ScannedHashWithEntry>) -> bool {
    forall|i: int, j: int| 0 <= i < j < s.len() ==> s[i].offset <= s[j].offset
}

/// `x` inserted into `s` after the trailing elements, from the end, up to the last one whose
/// offset is not above its own.
pub open spec fn insert_by_offset_spec(s: Seq<ScannedHashWithEntry>, x: ScannedHashWithEntry) -> Seq<ScannedHashWithEntry>
    decreases s.len(),
{
    if s.len() == 0 {
        seq![x]
    } else if s.last().offset > x.offset {
        insert_by_offset_spec(s.drop_last(), x).push(s.last())
    } else {
        s.push(x)
    }
}

/// The references ordered by offset, those with equal offsets in their original order.
pub open spec fn sort_by_offset(s: Seq<ScannedHashWithEntry>) -> Seq<ScannedHashWithEntry>
    decreases s.len(),
{
    if s.len() == 0 {
        seq![]
    } else {
        insert_by_offset_spec(sort_by_offset(s.drop_last()), s.last())
    }
}

pub(crate) fn entry_lookup(entries: &HashMap<u32, EntryInfo>, t: u32) -> (r: Option<EntryInfo>)
    ensures
        r == entry_of(entries@, t),
{
    match entries.get(&t) {
        Some(e) => Some(*e),
        None => None,
    }
}

/// Inserts `x` into the offset-sorted `v` after the elements with offsets up to its own.
fn insert_by_offset(v: &mut Vec<ScannedHashWithEntry>, x: ScannedHashWithEntry)
    requires
        sorted_by_offset(old(v)@),
    ensures
        sorted_by_offset(final(v)@),
        final(v)@.to_multiset() == old(v)@.to_multiset().insert(x),
        final(v)@ == insert_by_offset_spec(old(v)@, x),
{
    broadcast use vstd::seq_lib::group_to_multiset_ensures;
    let mut pos: usize = v.len();
    assert(v@.take(v@.len() as int) =~= v@);
    assert(v@.skip(v@.len() as int) =~= Seq::<ScannedHashWithEntry>::empty());
    while pos > 0 && v[pos - 1].offset > x.offset
        invariant
            pos <= v@.len(),
            forall|j: int| pos <= j < v@.len() ==> v@[j].offset > x.offset,
            insert_by_offset_spec(v@, x) == insert_by_offset_spec(v@.take(pos as int), x) + v@.skip(pos as int),
        decreases pos,
    {
        let ghost t = v@.take(pos as int);
        assert(t.drop_last() =~= v@.take(pos - 1));
        assert(v@.skip(pos - 1) =~= seq![t.last()] + v@.skip(pos as int));
        assert(insert_by_offset_spec(v@.take(pos - 1), x).push(t.last()) + v@.skip(pos as int) =~= insert_by_offset_spec(
            v@.take(pos - 1),
            x,
        ) + v@.skip(pos - 1));
        pos -= 1;
    }
    let ghost before = v@;
    proof {
        if pos > 0 {
            assert(before.take(pos as int).last() == before[pos - 1]);
        } else {
            assert(before.take(0) =~= Seq::<ScannedHashWithEntry>::empty());
        }
    }
    v.insert(pos, x);
    proof {
        assert(v@ == before.insert(pos as int, x));
        assert(v@ =~= insert_by_offset_spec(before.take(pos as int), x) + before.skip(pos as int));
        assert forall|i: int, j: int| 0 <= i < j < v@.len() implies v@[i].offset <= v@[j].offset by {
            if j < pos {
            } else if j == pos {
                if i < pos {
                    assert(before[i].offset <= before[pos - 1].offset || i == pos - 1);
                }
            } else if i == pos {
                assert(v@[j] == before[j - 1]);
            } else if i < pos {
                assert(v@[j] == before[j - 1]);
            } else {
                assert(v@[j] == before[j - 1]);
                assert(v@[i] == before[i - 1]);
            }
        }
        vstd::seq_lib::to_multiset_insert(before, pos as int, x);
    }
}

/// The references of a scan, both widths, ordered by offset (equal offsets in scan order, the
/// 32-bit ones first), each with the package entry of the tag it names.
pub fn extended_file_hashes(
    s: &ScanResult,
    entries: &HashMap<u32, EntryInfo>,
    tag64_entries: &HashMap<u64, u32>,
) -> (r: Vec<ScannedHashWithEntry>)
    ensures
        r@ == sort_by_offset(extended_hashes(*s, entries@, tag64_entries@)),
        sorted_by_offset(r@),
        r@.to_multiset() == extended_hashes(*s, entries@, tag64_entries@).to_multiset(),
{
    let ghost all = extended_hashes(*s, entries@, tag64_entries@);
    let mut combined: Vec<ScannedHashWithEntry> = Vec::new();
    assert(combined@ =~= all.take(0));
    assert(all.take(0) =~= Seq::<ScannedHashWithEntry>::empty());
    let mut i: usize = 0;
    while i < s.file_hashes.len()
        invariant
            i <= s.file_hashes@.len(),
            all == extended_hashes(*s, entries@, tag64_entries@),
            sorted_by_offset(combined@),
            combined@.to_multiset() == all.take(i as int).to_multiset(),
            combined@ == sort_by_offset(all.take(i as int)),
        decreases s.file_hashes@.len() - i,
    {
        let h = s.file_hashes[i];
        let x = ScannedHashWithEntry { offset: h.offset, hash: ExtendedTagHash::Hash32(h.hash), entry: entry_lookup(entries, h.hash.0) };
        insert_by_offset(&mut combined, x);
        proof {
            broadcast use vstd::seq_lib::group_to_multiset_ensures;
            assert(all.take(i + 1) =~= all.take(i as int).push(x));
            assert(all.take(i + 1).drop_last() =~= all.take(i as int));
        }
        i += 1;
    }
    let n1 = s.file_hashes.len();
    let mut j: usize = 0;
    while j < s.file_hashes64.len()
        invariant
            j <= s.file_hashes64@.len(),
            n1 == s.file_hashes@.len(),
            all == extended_hashes(*s, entries@, tag64_entries@),
            sorted_by_offset(combined@),
            combined@.to_multiset() == all.take(n1 + j).to_multiset(),
            combined@ == sort_by_offset(all.take(n1 + j)),
        decreases s.file_hashes64@.len() - j,
    {
        let h = s.file_hashes64[j];
        let t32 = match tag64_entries.get(&h.hash.0) {
            Some(t) => *t,
            None => u32::MAX,
        };
        let x = ScannedHashWithEntry { offset: h.offset, hash: ExtendedTagHash::Hash64(h.hash), entry: entry_lookup(entries, t32) };
        insert_by_offset(&mut combined, x);
        proof {
            broadcast use vstd::seq_lib::group_to_multiset_ensures;
            assert(all.take(n1 + j + 1) =~= all.take(n1 + j).push(x));
            assert(all.take(n1 + j + 1).drop_last() =~= all.take(n1 + j));
        }
        j += 1;
    }
    assert(all.take(n1 + j) =~= all);
    combined
}

impl ExtendedScanResult {
    /// Prepares a scan for display: its 32-bit and 64-bit references together, ordered by
    /// offset, each with the package entry of the tag it names (64-bit ones through the table),
    /// and the referring tags with their entries.
    pub fn from_scanresult(
        s: ScanResult,
        entries: &HashMap<u32, EntryInfo>,
        tag64_entries: &HashMap<u64, u32>,
    ) -> (r: ExtendedScanResult)
        ensures
            r.successful == s.successful,
            r.file_hashes@ == sort_by_offset(extended_hashes(s, entries@, tag64_entries@)),
            sorted_by_offset(r.file_hashes@),
            r.file_hashes@.to_multiset() == extended_hashes(s, entries@, tag64_entries@).to_multiset(),
            r.references@ == s.references@.map_values(|t: TagHash| (t, entry_of(entries@, t.0))),
    {
        let combined = extended_file_hashes(&s, entries, tag64_entries);
        let mut references: Vec<(TagHash, Option<EntryInfo>)> = Vec::new();
        let mut k: usize = 0;
        while k < s.references.len()
            invariant
                k <= s.references@.len(),
                references@ == s.references@.take(k as int).map_values(|t: TagHash| (t, entry_of(entries@, t.0))),
            decreases s.references@.len() - k,
        {
            let t = s.references[k];
            references.push((t, entry_lookup(entries, t.0)));
            k += 1;
            assert(references@ =~= s.references@.take(k as int).map_values(|t: TagHash| (t, entry_of(entries@, t.0))));
        }
        assert(s.references@.take(k as int) =~= s.references@);
        ExtendedScanResult { successful: s.successful, file_hashes: combined, references }
    }
}

/// The search goes down through tags and global tags alike: when the first tag that `tag`
/// refers to is a tag or a global tag (of another type than the one searched for, not seen
/// yet, not a material impact or footstep table) and one more level is allowed, everything the
/// search from it finds comes first among what the search from `tag` finds.
pub proof fn lemma_search_descends_tags_and_globals(
    cache: Seq<(TagHash, ScanResult)>,
    index: Map<u32, usize>,
    entries: Map<u32, EntryInfo>,
    m64: Map<u64, u32>,
    version: GameVersion,
    target: TagType,
    max_depth: nat,
    tag: u32,
    depth: nat,
    seen: Set<u32>,
)
    requires
        index.contains_key(tag),
        index[tag] < cache.len(),
        referenced_tags(cache[index[tag] as int].1, m64).len() > 0,
        ({
            let h = referenced_tags(cache[index[tag] as int].1, m64)[0];
            &&& !seen.contains(h)
            &&& entries.contains_key(h)
            &&& ({
                let t = type_for_version(version, entries[h].file_type, entries[h].file_subtype);
                (t == TagType::Tag || t == TagType::TagGlobal) && t != target
            })
            &&& entries[h].reference != 0x8080873D
            &&& entries[h].reference != 0x8080873F
        }),
        depth + 1 <= max_depth,
    ensures
        ({
            let h = referenced_tags(cache[index[tag] as int].1, m64)[0];
            let sub = search_tag(cache, index, entries, m64, version, target, max_depth, h, depth + 1, seen.insert(h)).0;
            let all = search_tag(cache, index, entries, m64, version, target, max_depth, tag, depth, seen).0;
            sub.len() <= all.len() && all.subrange(0, sub.len() as int) == sub
        }),
{
    let hs = referenced_tags(cache[index[tag] as int].1, m64);
    let h = hs[0];
    let (sub, s2) = search_tag(cache, index, entries, m64, version, target, max_depth, h, depth + 1, seen.insert(h));
    let (rest, s3) = search_list(cache, index, entries, m64, version, target, max_depth, hs, 1, depth, s2);
    assert(search_tag(cache, index, entries, m64, version, target, max_depth, tag, depth, seen).0 == sub + rest);
    assert((sub + rest).subrange(0, sub.len() as int) =~= sub);
}

} // verus!
