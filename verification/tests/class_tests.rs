use std::collections::HashMap;

use quicktag::bytes::Endian;
use quicktag::classes::{PrettyParser, PrettyValue, TagClass};
use quicktag::classtables::{classes_base, classes_bl, has_class_tables, initialize_reference_names};
use quicktag::localized::add_named_string;
use quicktag::scanner::{check_scan_fits, package_file_hashes, ScannerContext, ScannerMode};
use quicktag::taghash::TagHash;
use quicktag::version::{DestinyVersion, GameVersion, MarathonVersion};

fn class(size: Option<usize>, p: Option<PrettyParser>) -> TagClass {
    TagClass { id: 1, name: "c".to_string(), size, pretty_parser: p, block_tags: false }
}

fn text(v: Option<PrettyValue>) -> String {
    match v {
        Some(PrettyValue::Text(s)) => s,
        _ => panic!("not text"),
    }
}

#[test]
fn class_tables_by_version() {
    let base = classes_base();
    assert_eq!(base.len(), 8);
    assert_eq!(base[2].id, 0x80800007);
    assert_eq!(base[2].name, "u32");
    assert_eq!(base[2].size, Some(4));
    assert_eq!(base[2].pretty_parser, Some(PrettyParser::RawHexU32));
    assert!(base[2].block_tags);
    let bl = classes_bl();
    assert_eq!(bl.last().unwrap().id, 0x80806E89);
    let tfs = GameVersion::Destiny(DestinyVersion::Destiny2TheFinalShape);
    assert!(has_class_tables(tfs));
    assert!(!has_class_tables(GameVersion::Destiny(DestinyVersion::Destiny2TheEdgeOfFate)));
    assert!(!has_class_tables(GameVersion::Marathon(MarathonVersion::MarathonAlpha)));
    let reg = initialize_reference_names(tfs);
    assert_eq!(reg.classes.len(), 8 + bl.len());
    assert_eq!(reg.get_class_by_id(0x808099EF).unwrap().name, "s_localized_strings");
    assert_eq!(reg.get_class_by_id(0x80800090).unwrap().pretty_parser, Some(PrettyParser::Vec4));
    assert!(reg.get_class_by_id(0x12345678).is_none());
}

#[test]
fn class_values_shown() {
    let data = [0x01, 0xAB, 0x00, 0x80];
    assert_eq!(text(class(Some(4), Some(PrettyParser::Hex)).parse_and_format(&data, Endian::Little)), "01 AB 00 80 ");
    assert_eq!(text(class(Some(4), Some(PrettyParser::RawHexU32)).parse_and_format(&data, Endian::Little)), "0x8000AB01");
    assert_eq!(text(class(Some(4), Some(PrettyParser::RawHexU32)).parse_and_format(&data, Endian::Big)), "0x1AB0080");
    assert_eq!(text(class(Some(2), Some(PrettyParser::RawHexU16)).parse_and_format(&data[..2], Endian::Little)), "0xAB01");
    assert_eq!(text(class(Some(1), Some(PrettyParser::RawHexU8)).parse_and_format(&data[..1], Endian::Big)), "0x1");
    assert_eq!(text(class(Some(4), Some(PrettyParser::TagHash)).parse_and_format(&data, Endian::Big)), "tag(01AB0080)");
    assert!(class(Some(2), Some(PrettyParser::Hex)).parse_and_format(&data, Endian::Little).is_none());
    assert!(class(None, None).parse_and_format(&data, Endian::Little).is_none());
    assert_eq!(text(class(None, Some(PrettyParser::Hex)).parse_and_format(&data[..1], Endian::Little)), "01 ");
    match class(Some(4), Some(PrettyParser::RawF32)).parse_and_format(&1.5f32.to_le_bytes(), Endian::Little) {
        Some(PrettyValue::F32(bits)) => assert_eq!(f32::from_bits(bits), 1.5),
        _ => panic!("not a float"),
    }
    let pair = [1, 0, 0, 0, 2, 0, 0, 0];
    match class(Some(8), Some(PrettyParser::FnvAndTag)).parse_and_format(&pair, Endian::Little) {
        Some(PrettyValue::FnvAndTag(a, b)) => assert_eq!((a, b), (1, 2)),
        _ => panic!("not a pair"),
    }
    match class(Some(8), Some(PrettyParser::FnvAndTag)).parse_and_format(&pair, Endian::Big) {
        Some(PrettyValue::FnvAndTag(a, b)) => assert_eq!((a, b), (0x02000000, 0x01000000)),
        _ => panic!("not a pair"),
    }
}

#[test]
fn raw_string_lookup_entries() {
    let mut m: HashMap<u32, Vec<(String, bool)>> = HashMap::new();
    add_named_string(&mut m, 5, "x".to_string(), false);
    add_named_string(&mut m, 5, "x".to_string(), true);
    add_named_string(&mut m, 5, "y".to_string(), true);
    assert_eq!(m[&5], vec![("x".to_string(), false), ("y".to_string(), true)]);
}

#[test]
fn scanner_context_and_fits() {
    let ctx = ScannerContext::create(vec![3, 1, 2], vec![9, 8], vec![5, 4], vec![], 7, 0, Endian::Little, false);
    assert_eq!(ctx.valid_file_hashes, vec![1, 2, 3]);
    assert_eq!(ctx.valid_file_hashes64, vec![8, 9]);
    assert_eq!(ctx.known_string_hashes, vec![4, 5]);
    assert_eq!(ctx.wordlist_hash, 7);
    let tags = package_file_hashes(&[(0x10, 2), (0x11, 1)]);
    assert_eq!(tags, vec![TagHash::new(0x10, 0).0, TagHash::new(0x10, 1).0, TagHash::new(0x11, 0).0]);
    let reg = initialize_reference_names(GameVersion::Destiny(DestinyVersion::Destiny2TheFinalShape));
    assert!(check_scan_fits(&ctx, &reg, &[0u8; 16], None, ScannerMode::Both));
    let mut blob = vec![0x65, 0x00, 0x80, 0x80];
    blob.extend_from_slice(&u64::MAX.to_le_bytes());
    assert!(!check_scan_fits(&ctx, &reg, &blob, None, ScannerMode::Both));
    assert!(check_scan_fits(&ctx, &reg, &blob, None, ScannerMode::Tags));
}
