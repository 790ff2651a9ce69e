use std::collections::{HashMap, HashSet};

use quicktag::cache::{EntryInfo, TagCache, TAG_CACHE_VERSION};
use quicktag::classes::{ClassRegistry, TagClass};
use quicktag::history::{format_tag_entry, TagHistory};
use quicktag::scanner::{ScanResult, ScannedHash};
use quicktag::tagsearch::{
    extended_file_hashes, index_tag_cache, perform_tagsearch, search_for_tag, ExtendedScanResult,
    ExtendedTagHash,
};
use quicktag::tagtypes::{TagColor, TagType};
use quicktag::taghash::{TagHash, TagHash64};
use quicktag::traversal::{
    check_listed_blobs_fit, raw_strings_block, traverse_tags, PackageLookup, TraversalDirection,
    TraversalOutput, TraversedTag,
};
use quicktag::version::{DestinyVersion, GameVersion};

const A: u32 = 0x80a00001;
const B: u32 = 0x80a00002;
const C: u32 = 0x80a00003;
const G1: u32 = 0x80a00011;
const G2: u32 = 0x80a00012;

fn d2() -> GameVersion {
    GameVersion::Destiny(DestinyVersion::Destiny2TheFinalShape)
}

fn refs(list: &[(u32, u64)]) -> ScanResult {
    let mut r = ScanResult::default();
    for (h, o) in list {
        r.file_hashes.push(ScannedHash { offset: *o, hash: TagHash(*h) });
    }
    r
}

fn entry(file_type: u8, reference: u32) -> EntryInfo {
    EntryInfo { file_type, file_subtype: 0, starting_block: 0, reference }
}

fn lookup(entries: &[(u32, EntryInfo)]) -> PackageLookup {
    let mut m = HashMap::new();
    for (t, e) in entries {
        m.insert(*t, *e);
    }
    PackageLookup {
        entries: m,
        tag64_entries: HashMap::new(),
        hash64_tags: HashSet::new(),
        named_tags: vec![],
        version: d2(),
    }
}

fn text_of(out: &[TraversalOutput]) -> String {
    let mut s = String::new();
    for o in out {
        match o {
            TraversalOutput::Text(t) => s.push_str(t),
            TraversalOutput::RawStrings(t, h) => s.push_str(&format!("{h}<strings of {:08X}>", t.0)),
        }
    }
    s
}

fn empty_registry() -> ClassRegistry {
    ClassRegistry::new(vec![], vec![])
}

fn graph() -> (TagCache, PackageLookup) {
    let cache = TagCache {
        timestamp: 0,
        version: TAG_CACHE_VERSION,
        hashes: vec![(TagHash(A), refs(&[(B, 0x10), (C, 0x8)])), (TagHash(B), refs(&[(A, 0x4)]))],
    };
    let l = lookup(&[(A, entry(8, 0x80801234)), (B, entry(8, 0x80805555)), (C, entry(8, 0))]);
    (cache, l)
}

#[test]
fn format_tag_entry_labels() {
    let reg = ClassRegistry::new(
        vec![TagClass { id: 0x80801234, name: "s_thing".to_string(), size: None, pretty_parser: None, block_tags: false }],
        vec![],
    );
    let e = entry(8, 0x80801234);
    let named = vec![(TagHash(A), "hero".to_string())];
    assert_eq!(
        format_tag_entry(TagHash(A), Some(e), &named, &reg, true, d2()),
        "\u{2605} hero 80A00001 Tag (s_thing) (8+0, ref 80801234)"
    );
    assert_eq!(format_tag_entry(TagHash(B), Some(entry(16, 7)), &named, &reg, false, d2()), "80A00002 TagGlobal (16+0, ref 00000007)");
    assert_eq!(format_tag_entry(TagHash(C), None, &named, &reg, false, d2()), "80A00003 (pkg entry not found)");
}

#[test]
fn traversal_down_lists_children_by_offset() {
    let (cache, l) = graph();
    let (tree, out) = traverse_tags(TagHash(A), 10, &cache, &l, &empty_registry(), false, TraversalDirection::Down);
    assert_eq!(
        text_of(&out),
        "80A00001 Tag (8+0, ref 80801234) @ 0x0\n\
         \u{251c}\u{2500}\u{2500}80A00003 Tag (8+0, ref 00000000) @ 0x8\n\
         \u{2514}\u{2500}\u{2500}80A00002 Tag (8+0, ref 80805555) @ 0x10\n    \
         \u{2514}\u{2500}\u{2500}80A00001 Tag (8+0, ref 80801234) @ 0x4 (parent)\n    \n\n"
    );
    assert_eq!(tree.tag, TagHash(A));
    assert_eq!(tree.reason, None);
    assert_eq!(tree.subtags.len(), 2);
    assert_eq!(tree.subtags[0].tag, TagHash(C));
    assert_eq!(tree.subtags[0].reason.as_deref(), Some("Tag not found in cache"));
    assert_eq!(tree.subtags[1].tag, TagHash(B));
    assert_eq!(tree.subtags[1].subtags.len(), 0);
}

#[test]
fn traversal_up_lists_each_referrer_once() {
    let mut r = ScanResult::default();
    r.references = vec![TagHash(B), TagHash(B), TagHash(C)];
    let cache = TagCache { timestamp: 0, version: TAG_CACHE_VERSION, hashes: vec![(TagHash(A), r)] };
    let l = lookup(&[(A, entry(8, 1)), (B, entry(8, 2))]);
    let (tree, out) = traverse_tags(TagHash(A), 4, &cache, &l, &empty_registry(), false, TraversalDirection::Up);
    let kids: Vec<TagHash> = tree.subtags.iter().map(|t: &TraversedTag| t.tag).collect();
    assert_eq!(kids, vec![TagHash(B), TagHash(C)]);
    assert_eq!(tree.subtags[1].entry, None);
    assert!(text_of(&out).contains("\u{2514}\u{2500}\u{2500}80A00003 (pkg entry not found) @ 0x0\n"));
}

#[test]
fn traversal_stops_at_depth_limit_and_blocked_classes() {
    let (cache, l) = graph();
    let (tree, out) = traverse_tags(TagHash(A), 0, &cache, &l, &empty_registry(), false, TraversalDirection::Down);
    assert_eq!(tree.reason.as_deref(), Some("Depth limit reached (0)"));
    assert_eq!(
        text_of(&out),
        "80A00001 Tag (8+0, ref 80801234) @ 0x0\n\u{2514} Depth limit reached (0)\n"
    );
    let blocked = lookup(&[(A, entry(8, 0x808099F1))]);
    let (tree, out) = traverse_tags(TagHash(A), 5, &cache, &blocked, &empty_registry(), true, TraversalDirection::Down);
    assert_eq!(tree.reason.as_deref(), Some("Reference 0x808099F1 is blocked from being scanned"));
    assert_eq!(out.len(), 1);
}

#[test]
fn traversal_marks_raw_string_places() {
    let (cache, l) = graph();
    let (_, out) = traverse_tags(TagHash(A), 10, &cache, &l, &empty_registry(), true, TraversalDirection::Down);
    let text = text_of(&out);
    assert!(text.starts_with("80A00001 Tag (8+0, ref 80801234) @ 0x0\n<strings of 80A00001>"));
    assert!(text.contains("0x10\n    <strings of 80A00002>"));
}

#[test]
fn raw_strings_block_lists_blobs_and_names() {
    let mut data = vec![0x65, 0x00, 0x80, 0x80];
    data.extend_from_slice(&6u64.to_le_bytes());
    data.extend_from_slice(b"ab\0cd\0");
    data.extend_from_slice(&[0, 0]);
    let mut names = HashMap::new();
    names.insert(0x80800065u32, vec![("marker".to_string(), false)]);
    assert!(check_listed_blobs_fit(&data, false));
    assert_eq!(
        raw_strings_block("  ", &data, false, &names),
        "  \u{251c}\u{2500}\u{2500}Raw Strings: [ab, cd]\n  \u{251c}\u{2500}\u{2500}Raw String Hashes: [marker]\n"
    );
    assert_eq!(raw_strings_block("", &[1, 2, 3, 4], false, &HashMap::new()), "");
    let mut huge = vec![0x65, 0x00, 0x80, 0x80];
    huge.extend_from_slice(&u64::MAX.to_le_bytes());
    assert!(!check_listed_blobs_fit(&huge, false));
}

#[test]
fn tag_search_finds_types_below_tags() {
    let cache = TagCache {
        timestamp: 0,
        version: TAG_CACHE_VERSION,
        hashes: vec![
            (TagHash(A), refs(&[(G1, 0), (B, 4)])),
            (TagHash(B), refs(&[(G2, 0), (G1, 4)])),
        ],
    };
    let mut entries = HashMap::new();
    entries.insert(A, entry(8, 0));
    entries.insert(B, entry(8, 0));
    entries.insert(G1, entry(16, 0));
    entries.insert(G2, entry(16, 0));
    let index = index_tag_cache(&cache);
    let t64 = HashMap::new();
    let mut seen = HashSet::new();
    let found = search_for_tag(&cache, &index, &entries, &t64, d2(), TagHash(A), TagType::TagGlobal, 0, 5, &mut seen);
    let found: Vec<(u32, usize)> = found.iter().map(|(t, _, d)| (t.0, *d)).collect();
    assert_eq!(found, vec![(G1, 0), (G2, 1)]);
    let deeper = perform_tagsearch(&cache, &index, &entries, &t64, d2(), TagHash(A), TagType::TagGlobal, 5, 0);
    let deeper: Vec<u32> = deeper.iter().map(|(t, _)| t.0).collect();
    assert_eq!(deeper, vec![G2]);
    // a depth limit of zero keeps the search at the first level
    let mut seen = HashSet::new();
    let shallow = search_for_tag(&cache, &index, &entries, &t64, d2(), TagHash(A), TagType::TagGlobal, 0, 0, &mut seen);
    assert_eq!(shallow.len(), 1);
    // every tag found has the type searched for and is found once
    let mut seen = HashSet::new();
    seen.insert(G2);
    let again = search_for_tag(&cache, &index, &entries, &t64, d2(), TagHash(A), TagType::TagGlobal, 0, 5, &mut seen);
    let again: Vec<u32> = again.iter().map(|(t, _, _)| t.0).collect();
    assert_eq!(again, vec![G1]);
    assert!(seen.contains(&G1) && seen.contains(&B) && seen.contains(&G2));
}

#[test]
fn extended_scan_orders_both_widths_by_offset() {
    let mut s = ScanResult::default();
    s.file_hashes.push(ScannedHash { offset: 0x20, hash: TagHash(A) });
    s.file_hashes.push(ScannedHash { offset: 0x8, hash: TagHash(B) });
    s.file_hashes64.push(ScannedHash { offset: 0x10, hash: TagHash64(0x1234) });
    s.file_hashes64.push(ScannedHash { offset: 0x8, hash: TagHash64(0x9999) });
    s.references = vec![TagHash(C)];
    let mut entries = HashMap::new();
    entries.insert(C, entry(8, 0));
    entries.insert(G1, entry(16, 0));
    let mut t64 = HashMap::new();
    t64.insert(0x1234u64, G1);
    let offsets: Vec<u64> = extended_file_hashes(&s, &entries, &t64).iter().map(|h| h.offset).collect();
    assert_eq!(offsets, vec![0x8, 0x8, 0x10, 0x20]);
    let r = ExtendedScanResult::from_scanresult(s, &entries, &t64);
    assert_eq!(r.file_hashes[0].hash, ExtendedTagHash::Hash32(TagHash(B)));
    assert_eq!(r.file_hashes[1].hash, ExtendedTagHash::Hash64(TagHash64(0x9999)));
    assert_eq!(r.file_hashes[2].entry, Some(entry(16, 0)));
    assert_eq!(r.references, vec![(TagHash(C), Some(entry(8, 0)))]);
    assert_eq!(ExtendedTagHash::Hash64(TagHash64(0x1234)).hash32(&t64), TagHash(G1));
    assert_eq!(ExtendedTagHash::Hash64(TagHash64(0x5)).hash32(&t64), TagHash(u32::MAX));
    assert_eq!(ExtendedTagHash::Hash32(TagHash(A)).hash32(&t64), TagHash(A));
}

#[test]
fn history_moves_back_and_forward() {
    let mut h = TagHistory::new();
    h.push(TagHash(A), Some(("first".to_string(), TagColor::Green)));
    h.push(TagHash(B), None);
    assert_eq!(h.tags[1].1, "80A00002 (pkg entry not found)");
    assert_eq!(h.tags[1].2, TagColor::LightRed);
    assert_eq!(h.back(), Some(TagHash(A)));
    assert_eq!(h.back(), None);
    assert_eq!(h.forward(), Some(TagHash(B)));
    assert_eq!(h.forward(), None);
    // opening a tag after going back drops what was ahead
    assert_eq!(h.back(), Some(TagHash(A)));
    h.push(TagHash(C), None);
    assert_eq!(h.tags.len(), 2);
    assert_eq!(h.forward(), None);
    assert_eq!(h.back(), Some(TagHash(A)));
}
