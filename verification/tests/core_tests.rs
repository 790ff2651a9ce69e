use quicktag::bytes::Endian;
use quicktag::classes::{ClassRegistry, PrettyParser, TagClass};
use quicktag::hash::fnv1;
use quicktag::rawstrings::read_raw_string_blob;
use quicktag::scanner::{scan_file, ScannerContext, ScannerMode};
use quicktag::taghash::TagHash;

#[test]
fn fnv1_of_empty_is_offset_basis() {
    assert_eq!(fnv1(b""), 0x811c9dc5);
}

#[test]
fn fnv1_known_values() {
    assert_eq!(fnv1(b"a"), 0x050c5d7e);
    assert_eq!(fnv1(b"quicktag"), 0x59e3243e);
}

#[test]
fn tag_hash_new_and_parts() {
    let t = TagHash::new(0x123, 0x56);
    assert_eq!(t.0, 0x80a46056);
    assert_eq!(t.pkg_id(), 0x123);
    assert_eq!(t.entry_index(), 0x56);
    assert!(t.is_valid());
    assert!(t.is_some());
    assert!(!t.is_none());
    let big = TagHash::new(0x1234, 0x56);
    assert_eq!(big.0, 0x82c68056);
    assert_eq!(big.pkg_id(), 0x1234);
    assert!(!big.is_valid());
}

#[test]
fn tag_hash_none_and_bounds() {
    let n = TagHash::none();
    assert_eq!(n.0, u32::MAX);
    assert!(n.is_none());
    assert!(!n.is_some());
    assert!(!TagHash(0x80800000).is_valid());
    assert!(TagHash(0x81ffffff).is_valid());
    assert!(!TagHash(0x82000000).is_valid());
}

#[test]
fn tag_hash_pkg_file_range() {
    assert!(TagHash::new(0x9, 1).is_pkg_file());
    assert!(!TagHash::new(0x8, 1).is_pkg_file());
    assert!(TagHash::new(0x9ff, 1).is_pkg_file());
    assert!(!TagHash::new(0xa00, 1).is_pkg_file());
}

#[test]
fn tag_hash_to_string_is_hex() {
    assert_eq!(TagHash(0x80a1b2c3).to_string(), "80A1B2C3");
    assert_eq!(TagHash(0x12).to_string(), "00000012");
}

fn class(id: u32, name: &str, size: Option<usize>, block: bool) -> TagClass {
    TagClass { id, name: name.to_string(), size, pretty_parser: Some(PrettyParser::Hex), block_tags: block }
}

#[test]
fn class_lookup_prefers_builtin_then_file() {
    let reg = ClassRegistry::new(
        vec![class(0x80800001, "a", None, false)],
        vec![class(0x80800001, "file_a", None, false), class(0x80800002, "b", Some(4), false)],
    );
    assert_eq!(reg.get_class_by_id(0x80800001).unwrap().name, "a");
    assert_eq!(reg.get_class_by_id(0x80800002).unwrap().name, "b");
    assert!(reg.get_class_by_id(0x80800003).is_none());
}

#[test]
fn class_array_size() {
    let c = class(1, "x", Some(12), false);
    assert_eq!(c.array_size(3), Some(36));
    let d = class(2, "y", None, false);
    assert_eq!(d.array_size(3), None);
}

#[test]
fn raw_string_blob_splits_on_nul() {
    // legacy header: marker word, then a 32-bit big-endian size
    let mut data = vec![0x80, 0x80, 0x00, 0x65, 0, 0, 0, 7];
    data.extend_from_slice(b"ab\0\0cd\0");
    let strings = read_raw_string_blob(&data, 0, true);
    assert_eq!(strings.len(), 2);
    assert_eq!(strings[0].0, 8);
    assert_eq!(strings[0].1, "ab");
    assert_eq!(strings[1].0, 12);
    assert_eq!(strings[1].1, "cd");
}

#[test]
fn raw_string_blob_past_end_is_empty() {
    let data = vec![0x65, 0x00, 0x80, 0x80, 100, 0, 0, 0, 0, 0, 0, 0, b'a'];
    let strings = read_raw_string_blob(&data, 0, false);
    assert!(strings.is_empty());
}

fn context() -> ScannerContext {
    let t = TagHash::new(0x10, 5).0;
    ScannerContext {
        valid_file_hashes: vec![t],
        valid_file_hashes64: vec![0x1122334455667788],
        known_string_hashes: vec![0xdeadbeef],
        known_wordlist_hashes: vec![],
        wordlist_hash: 0,
        signatures_hash: 0,
        endian: Endian::Little,
        legacy_headers: false,
    }
}

#[test]
fn scan_finds_references_and_string_hashes() {
    let ctx = context();
    let reg = ClassRegistry::new(vec![], vec![]);
    let t = TagHash::new(0x10, 5).0;
    let mut data = Vec::new();
    data.extend_from_slice(&t.to_le_bytes());
    data.extend_from_slice(&0u32.to_le_bytes());
    data.extend_from_slice(&0x1122334455667788u64.to_le_bytes());
    data.extend_from_slice(&0xdeadbeefu32.to_le_bytes());
    let r = scan_file(&ctx, &reg, &data, None, ScannerMode::Both);
    assert!(r.successful);
    assert_eq!(r.file_hashes.len(), 1);
    assert_eq!(r.file_hashes[0].offset, 0);
    assert_eq!(r.file_hashes[0].hash, TagHash(t));
    assert_eq!(r.file_hashes64.len(), 1);
    assert_eq!(r.file_hashes64[0].offset, 8);
    assert_eq!(r.string_hashes.len(), 1);
    assert_eq!(r.string_hashes[0].offset, 16);
    let h = scan_file(&ctx, &reg, &data, None, ScannerMode::Hashes);
    assert!(h.file_hashes.is_empty());
    assert!(h.file_hashes64.is_empty());
    assert_eq!(h.string_hashes.len(), 1);
}

#[test]
fn scan_skips_blocked_arrays() {
    let ctx = context();
    let reg = ClassRegistry::new(vec![class(0x80801234, "blob", Some(4), true)], vec![]);
    let t = TagHash::new(0x10, 5).0;
    let mut data = Vec::new();
    data.extend_from_slice(&0x80809fb8u32.to_le_bytes());
    data.extend_from_slice(&1u64.to_le_bytes());
    data.extend_from_slice(&0x80801234u32.to_le_bytes());
    data.extend_from_slice(&t.to_le_bytes());
    let r = scan_file(&ctx, &reg, &data, None, ScannerMode::Both);
    // the single element of the blocked array lies at 4..8 (the count word), so the reference
    // at 16 is still found
    assert_eq!(r.file_hashes.len(), 1);
    assert_eq!(r.file_hashes[0].offset, 16);
}

#[test]
fn raw_string_blob_past_the_end_is_empty() {
    let data = vec![0x65, 0x00, 0x80, 0x80, 2, 0, 0, 0, 0, 0, 0, 0, b'a', 0];
    assert_eq!(read_raw_string_blob(&data, 0, false), vec![(12, "a".to_string())]);
    assert!(read_raw_string_blob(&data, 14, false).is_empty());
    assert!(read_raw_string_blob(&data, 100, false).is_empty());
    assert!(read_raw_string_blob(&data, u64::MAX, true).is_empty());
}
