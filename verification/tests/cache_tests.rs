use std::collections::HashMap;

use quicktag::cache::{
    add_entry_reference, check_cache, scan_mode_for, scan_order, transform_tag_cache, CacheLoadResult,
    CacheTooNew, EntryInfo, ScanStatus, TagCache, TAG_CACHE_VERSION,
};
use quicktag::bytes::Endian;
use quicktag::scanner::{ScanResult, ScannedHash, ScannerContext, ScannerMode};
use quicktag::tagtypes::{TagCategory, TagColor, TagType};
use quicktag::taghash::{TagHash, TagHash64};
use quicktag::version::{DestinyVersion, GameVersion};

fn scan(hashes: &[u32], hashes64: &[u64]) -> ScanResult {
    let mut r = ScanResult::default();
    for (i, h) in hashes.iter().enumerate() {
        r.file_hashes.push(ScannedHash { offset: i as u64 * 4, hash: TagHash(*h) });
    }
    for (i, h) in hashes64.iter().enumerate() {
        r.file_hashes64.push(ScannedHash { offset: i as u64 * 8, hash: TagHash64(*h) });
    }
    r
}

#[test]
fn transform_adds_reverse_references() {
    let a = TagHash(0x80a00001);
    let b = TagHash(0x80a00002);
    let c = TagHash(0x80a00003);
    let cache = vec![(a, scan(&[b.0, c.0, b.0], &[])), (b, scan(&[c.0], &[0x77]))];
    let mut t64 = HashMap::new();
    t64.insert(0x77u64, a.0);
    let out = transform_tag_cache(cache, &t64, 1234);
    assert_eq!(out.timestamp, 1234);
    assert_eq!(out.version, TAG_CACHE_VERSION);
    assert_eq!(out.hashes.len(), 3);
    // a is referenced by b through the 64-bit table
    assert_eq!(out.hashes[0].0, a);
    assert_eq!(out.hashes[0].1.references, vec![b]);
    assert_eq!(out.hashes[0].1.file_hashes.len(), 3);
    // b is referenced twice by a
    assert_eq!(out.hashes[1].0, b);
    assert_eq!(out.hashes[1].1.references, vec![a, a]);
    // c was never scanned: it gets an entry of its own
    assert_eq!(out.hashes[2].0, c);
    assert_eq!(out.hashes[2].1.references, vec![a, b]);
    assert!(out.hashes[2].1.successful);
    assert!(out.hashes[2].1.file_hashes.is_empty());
}

#[test]
fn transform_keeps_references_of_unreferenced_tags() {
    let a = TagHash(0x80a00001);
    let mut s = scan(&[], &[]);
    s.references.push(TagHash(0x80a00009));
    let out = transform_tag_cache(vec![(a, s)], &HashMap::new(), 0);
    assert_eq!(out.hashes.len(), 1);
    assert_eq!(out.hashes[0].1.references, vec![TagHash(0x80a00009)]);
}

fn cache_with(version: u32, timestamp: u64) -> TagCache {
    TagCache { timestamp, version, hashes: vec![] }
}

#[test]
fn cache_checks() {
    assert!(matches!(check_cache(cache_with(TAG_CACHE_VERSION, 10), 10), Ok(CacheLoadResult::Loaded(_))));
    assert!(matches!(check_cache(cache_with(TAG_CACHE_VERSION, 9), 10), Ok(CacheLoadResult::Rebuild)));
    assert!(matches!(check_cache(cache_with(TAG_CACHE_VERSION - 1, 99), 10), Ok(CacheLoadResult::Rebuild)));
    assert_eq!(
        check_cache(cache_with(TAG_CACHE_VERSION + 1, 99), 10).err(),
        Some(CacheTooNew { version: TAG_CACHE_VERSION + 1 })
    );
    let d = TagCache::default();
    assert_eq!(d.version, TAG_CACHE_VERSION);
    assert_eq!(d.timestamp, 0);
}

#[test]
fn scan_order_sorts_by_block() {
    let v = GameVersion::Destiny(DestinyVersion::Destiny2Lightfall);
    let e = |t: u8, st: u8, b: u32| EntryInfo { file_type: t, file_subtype: st, starting_block: b, reference: 0 };
    let entries = vec![e(8, 0, 5), e(32, 1, 0), e(26, 6, 2), e(16, 0, 5), e(8, 0, 1)];
    assert_eq!(scan_order(v, &entries), vec![4, 2, 0, 3]);
    assert_eq!(scan_mode_for(v, 26, 6), ScannerMode::Hashes);
    assert_eq!(scan_mode_for(v, 8, 0), ScannerMode::Both);
}

#[test]
fn entry_reference_for_d1() {
    let ctx = ScannerContext {
        valid_file_hashes: vec![0x80a00001, 0x80a00005],
        valid_file_hashes64: vec![],
        known_string_hashes: vec![],
        known_wordlist_hashes: vec![],
        wordlist_hash: 0,
        signatures_hash: 0,
        endian: Endian::Big,
        legacy_headers: true,
    };
    let mut r = scan(&[0x80a00001], &[]);
    add_entry_reference(&mut r, &ctx, true, 0x80a00005);
    assert_eq!(r.file_hashes.len(), 2);
    assert_eq!(r.file_hashes[0].offset, u64::MAX);
    assert_eq!(r.file_hashes[0].hash, TagHash(0x80a00005));
    add_entry_reference(&mut r, &ctx, true, 0x80a00007);
    add_entry_reference(&mut r, &ctx, false, 0x80a00001);
    assert_eq!(r.file_hashes.len(), 2);
}

#[test]
fn scan_status_text() {
    assert_eq!(ScanStatus::Idle.to_string(), "");
    assert_eq!(ScanStatus::CreatingScanner.to_string(), "Creating scanner");
    let s = ScanStatus::Scanning { current_package: 3, total_packages: 120 };
    assert_eq!(s.to_string(), "Creating new cache 3/120");
    assert_eq!(ScanStatus::WritingCache.to_string(), "Writing cache");
    let (next, before) = s.next_package(120);
    assert_eq!(before, 3);
    assert_eq!(next, ScanStatus::Scanning { current_package: 4, total_packages: 120 });
    let (first, none_before) = ScanStatus::Idle.next_package(7);
    assert_eq!(none_before, 0);
    assert_eq!(first, ScanStatus::Scanning { current_package: 1, total_packages: 7 });
}

#[test]
fn tag_types_by_version() {
    assert_eq!(TagType::from_type_subtype_lf(8, 0), TagType::Tag);
    assert_eq!(TagType::from_type_subtype_lf(32, 1), TagType::Texture2D { is_header: true });
    assert_eq!(TagType::from_type_subtype_lf(40, 1), TagType::Texture2D { is_header: false });
    assert_eq!(TagType::from_type_subtype_lf(41, 6), TagType::ComputeShader { is_header: false });
    assert_eq!(TagType::from_type_subtype_lf(48, 1), TagType::TextureLargeBuffer);
    assert_eq!(TagType::from_type_subtype_sk(26, 5), TagType::WwiseBank);
    assert_eq!(TagType::from_type_subtype_sk(48, 1), TagType::Unknown { ftype: 48, fsubtype: 1 });
    assert_eq!(TagType::from_type_subtype_d1(32, 2), TagType::TextureCube { is_header: true });
    assert_eq!(TagType::from_type_subtype_d1(0, 20), TagType::WwiseBank);
    assert_eq!(TagType::from_type_subtype_devalpha(64, 3), TagType::Texture3D { is_header: false });
    assert_eq!(TagType::from_type_subtype_devalpha(0, 0), TagType::Tag);
    let v = GameVersion::Destiny(DestinyVersion::DestinyTheTakenKing);
    assert_eq!(TagType::from_type_subtype_for_version(v, 16, 0), TagType::Tag);
}

#[test]
fn tag_type_names_and_predicates() {
    assert_eq!(TagType::Texture2D { is_header: false }.to_string(), "Texture2D (Data)");
    assert_eq!(TagType::Texture2D { is_header: true }.to_string(), "Texture2D");
    assert_eq!(TagType::OtfFontOrUmbraTome.to_string(), "OTF Font / Umbra Tome");
    assert_eq!(TagType::Unknown { ftype: 7, fsubtype: 12 }.to_string(), "Unk7+12");
    assert!(TagType::TextureOld.is_texture());
    assert!(!TagType::TextureSampler { is_header: true }.is_texture());
    assert!(TagType::TextureSampler { is_header: true }.is_header());
    assert!(!TagType::GeometryShader { is_header: true }.is_header());
    assert!(TagType::TagGlobal.is_tag());
    assert!(TagType::WwiseStream.is_wwise());
    assert_eq!(TagType::all_filterable().len(), 19);
    assert_eq!(TagType::Tag.display_color(), TagColor::Gray);
    assert_eq!(TagType::PixelShader { is_header: true }.display_color(), TagColor::Rgb(249, 168, 71));
    assert_eq!(TagCategory::from(TagType::CriwareUsm), TagCategory::Video);
    assert_eq!(TagCategory::from(TagType::Havok), TagCategory::MiddlewareMisc);
}
