use std::collections::{HashMap, HashSet};

use quicktag::bytes::Endian;
use quicktag::formats::dxgi::DxgiFormat;
use quicktag::formats::surface::{GcnSurfaceFormat, XenosSurfaceFormat};
use quicktag::headers::{
    HeaderError, TextureHeaderDevAlphaX360, TextureHeaderPs3, TextureHeaderRoiPs4, TextureHeaderRoiXbox,
};
use quicktag::hexview::{find_all_array_ranges, ArrayRange};
use quicktag::history::TagHistory;
use quicktag::tagdata::{analyze_tag_data, check_relpointers_fit, find_potential_relpointers, tag_qwords};
use quicktag::tagtypes::TagColor;
use quicktag::taghash::TagHash;
use quicktag::version::{DestinyVersion, GameVersion, MarathonVersion};
use quicktag::views::{
    get_string_for_hash, wwise_bank_type, wwise_stream_type, AudioSorting, FnvHash, PackageAudioTypes, Sorting,
};
use quicktag::xg::{durango_block_grid, durango_desc, XgMipMap};

#[test]
fn history_back_and_forward() {
    let mut h = TagHistory::new();
    assert_eq!(h.back(), None);
    h.push(TagHash(1), Some(("one".to_string(), TagColor::Gray)));
    h.push(TagHash(2), None);
    h.push(TagHash(3), None);
    assert_eq!(h.tags[1].1, "00000002 (pkg entry not found)");
    assert_eq!(h.tags[1].2, TagColor::LightRed);
    assert_eq!(h.forward(), None);
    assert_eq!(h.back(), Some(TagHash(2)));
    assert_eq!(h.back(), Some(TagHash(1)));
    assert_eq!(h.back(), None);
    assert_eq!(h.forward(), Some(TagHash(2)));
    // opening a tag drops what lay ahead
    h.push(TagHash(4), None);
    assert_eq!(h.forward(), None);
    assert_eq!(h.tags.len(), 3);
    assert_eq!(h.back(), Some(TagHash(2)));
    assert_eq!(h.forward(), Some(TagHash(4)));
    // the entries kept keep their labels and colours
    assert_eq!(h.tags[0], (TagHash(1), "one".to_string(), TagColor::Gray));
}

#[test]
fn sort_labels() {
    assert!(Sorting::SizeDesc.is_descending());
    assert!(!Sorting::IndexAsc.is_descending());
    assert_eq!(Sorting::IndexAsc.to_string(), "Index \u{2B06}");
    assert_eq!(AudioSorting::DurationDesc.to_string(), "Duration \u{2B07}");
    assert_eq!(Sorting::default(), Sorting::IndexAsc);
}

#[test]
fn wwise_types() {
    let lf = GameVersion::Destiny(DestinyVersion::Destiny2Lightfall);
    assert_eq!(wwise_stream_type(lf), Some((26, 7)));
    assert_eq!(wwise_bank_type(lf), Some((26, 6)));
    let sk = GameVersion::Destiny(DestinyVersion::Destiny2Shadowkeep);
    assert_eq!(wwise_stream_type(sk), Some((26, 6)));
    assert_eq!(wwise_bank_type(GameVersion::Destiny(DestinyVersion::DestinyRiseOfIron)), Some((0, 20)));
    assert_eq!(wwise_stream_type(GameVersion::Marathon(MarathonVersion::Marathon)), None);
}

#[test]
fn package_audio_types() {
    let events = vec![TagHash::new(0x100, 1), TagHash::new(0x200, 2)];
    let streams = vec![TagHash::new(0x300, 1)];
    let t = PackageAudioTypes::by_pkg_id(0x200, &events, &streams);
    assert!(t.events);
    assert!(!t.streams);
    let u = PackageAudioTypes::by_pkg_id(0x300, &events, &streams);
    assert!(!u.events);
    assert!(u.streams);
}

#[test]
fn string_for_hash() {
    let mut m = HashMap::new();
    m.insert(5u32, vec![("first".to_string(), false), ("second".to_string(), true)]);
    m.insert(6u32, vec![]);
    assert_eq!(get_string_for_hash(Some(&m), 5), Some("first".to_string()));
    assert_eq!(get_string_for_hash(Some(&m), 6), None);
    assert_eq!(get_string_for_hash(Some(&m), 7), None);
    assert_eq!(get_string_for_hash(None, 5), None);
}

#[test]
fn fnv_hash_debug_text() {
    assert_eq!(FnvHash(0xab).to_string(), "fnv(000000AB)");
}

fn put16(d: &mut [u8], o: usize, v: u16) {
    d[o..o + 2].copy_from_slice(&v.to_le_bytes());
}

fn put32(d: &mut [u8], o: usize, v: u32) {
    d[o..o + 4].copy_from_slice(&v.to_le_bytes());
}

#[test]
fn roi_ps4_header() {
    let mut d = vec![0u8; 0x3c];
    put32(&mut d, 0, 100);
    d[4] = 7;
    put16(&mut d, 6, (0x0d << 4) | 3);
    put32(&mut d, 0x24, 0xbeefcafe);
    put16(&mut d, 0x28, 256);
    put16(&mut d, 0x2a, 128);
    put32(&mut d, 0x38, 9);
    let h = TextureHeaderRoiPs4::read(&d, Endian::Little).unwrap();
    assert_eq!(h.data_size, 100);
    assert_eq!(h.unk4, 7);
    assert_eq!(h.format.code(), 0x0d);
    assert_eq!(h.width, 256);
    assert_eq!(h.height, 128);
    assert_eq!(h.flags3, 9);
    assert_eq!(TextureHeaderRoiPs4::read(&d[..0x30], Endian::Little), Err(HeaderError::UnexpectedEnd { offset: 0x30 }));
    put32(&mut d, 0x24, 1);
    assert_eq!(TextureHeaderRoiPs4::read(&d, Endian::Little), Err(HeaderError::BadMagic { found: 1 }));
    put16(&mut d, 6, 0x3f << 4);
    assert_eq!(TextureHeaderRoiPs4::read(&d, Endian::Little), Err(HeaderError::InvalidFormat { value: 0x3f }));
}

#[test]
fn other_headers() {
    let mut x = vec![0u8; 0x38];
    put32(&mut x, 0, 71);
    put32(&mut x, 0x2c, 0xbeefcafe);
    put16(&mut x, 0x30, 64);
    let h = TextureHeaderRoiXbox::read(&x, Endian::Little).unwrap();
    assert_eq!(h.format, DxgiFormat::try_from_u32(71).unwrap());
    assert_eq!(h.width, 64);
    put32(&mut x, 0, 120);
    assert_eq!(TextureHeaderRoiXbox::read(&x, Endian::Little), Err(HeaderError::InvalidFormat { value: 120 }));

    let mut a = vec![0u8; 0x4c];
    a[0x20..0x24].copy_from_slice(&0x0000_0092u32.to_be_bytes());
    a[0x36..0x38].copy_from_slice(&32u16.to_be_bytes());
    a[0x48..0x4c].copy_from_slice(&0xbeefcafeu32.to_be_bytes());
    let h = TextureHeaderDevAlphaX360::read(&a, Endian::Big).unwrap();
    assert!(h.unk_flag);
    assert_eq!(h.format, XenosSurfaceFormat::try_from_u8(0x12).unwrap());
    assert_eq!(h.width, 32);

    let mut p = vec![0u8; 0x28];
    p[0] = 0xa5;
    p[0x1c..0x20].copy_from_slice(&0xbeefcafeu32.to_be_bytes());
    p[0x22..0x24].copy_from_slice(&16u16.to_be_bytes());
    let h = TextureHeaderPs3::read(&p).unwrap();
    assert_eq!(h.format, 0x85);
    assert_eq!(h.height, 16);
    assert_eq!(TextureHeaderPs3::read(&[]), Err(HeaderError::UnexpectedEnd { offset: 0 }));
    let _ = GcnSurfaceFormat::BC1;
}

fn array_data() -> Vec<u8> {
    let mut d = Vec::new();
    d.extend_from_slice(&0x80809fb8u32.to_le_bytes()); // 0: marker
    d.extend_from_slice(&2u64.to_le_bytes()); // 4: count
    d.extend_from_slice(&0x80801111u32.to_le_bytes()); // 12: class
    d.extend_from_slice(&[0u8; 16]); // 16..32
    d.extend_from_slice(&2u64.to_le_bytes()); // 32: count for the pointer below
    d.extend_from_slice(&(u64::MAX - 100).to_le_bytes()); // 40: relative offset (saturates)
    d.extend_from_slice(&0x80809fbdu32.to_le_bytes()); // 48: marker
    d.extend_from_slice(&0u64.to_le_bytes()); // 52: count
    d.extend_from_slice(&0x80802222u32.to_le_bytes()); // 60: class
    d
}

#[test]
fn array_ranges() {
    let d = array_data();
    let r = find_all_array_ranges(&d, Endian::Little, false);
    assert_eq!(
        r,
        vec![
            ArrayRange { start: 4, data_start: 20, end: 52, class: 0x80801111, length: 2 },
            ArrayRange { start: 52, data_start: 68, end: 64, class: 0x80802222, length: 0 },
        ]
    );
}

#[test]
fn tag_data_analysis() {
    let mut d = array_data();
    // the window at 16 (count 0, offset 28 from 24) points at the second array, at 52
    d[24..32].copy_from_slice(&28u64.to_le_bytes());
    let mut keys = HashSet::new();
    keys.insert(0x80802222u32);
    let a = analyze_tag_data(&d, Endian::Little, false, &keys, &HashSet::new());
    assert_eq!(a.arrays.len(), 2);
    assert_eq!(a.arrays[0].0, 4);
    assert_eq!(a.arrays[0].1.count, 2);
    assert_eq!(a.arrays[0].1.references, Vec::<u64>::new());
    assert_eq!(a.arrays[1].0, 52);
    assert_eq!(a.arrays[1].1.tagtype, 0x80802222);
    assert_eq!(a.arrays[1].1.references, vec![16]);
    assert_eq!(a.string_hashes, vec![(60, 0x80802222)]);
    assert!(a.raw_string_hashes.is_empty());
    assert!(a.raw_strings.is_empty());
}

#[test]
fn relative_pointers() {
    let words = vec![16u64, 0, 8, 0xffff_ffff_ffff_fff8];
    assert!(check_relpointers_fit(&words));
    assert_eq!(find_potential_relpointers(&words, 16), vec![0, 24]);
    assert_eq!(find_potential_relpointers(&words, 24), vec![16]);
    assert_eq!(find_potential_relpointers(&words, 5), Vec::<u64>::new());
    assert!(!check_relpointers_fit(&[0, i64::MAX as u64]));
    let d = [1u8, 0, 0, 0, 0, 0, 0, 0, 2, 0];
    assert_eq!(tag_qwords(&d, Endian::Little), vec![1]);
}

#[test]
fn durango_grid() {
    let mip = XgMipMap {
        size_bytes: 0,
        offset_bytes: 0,
        slice_2d_size_bytes: 0,
        pitch_pixels: 0,
        pitch_bytes: 1024,
        alignment_bytes: 0,
        padded_width_elements: 128,
        padded_height_elements: 0,
        padded_depth_or_array_size: 0,
        width_elements: 100,
        height_elements: 50,
        depth_or_array_size: 0,
        sample_count: 0,
        tile_mode: 0,
        padding1: 0,
        bank_rotation_address_bit_mask: 0,
        bank_rotation_bytes_per_slice: 0,
        slice_depth_elements: 0,
        padding2: 0,
    };
    let plane = quicktag::xg::XgPlaneLayout {
        usage: 0,
        padding1: 0,
        size_bytes: 0,
        base_offset_bytes: 0,
        base_alignment_bytes: 0,
        bytes_per_element: 0,
        padding2: 0,
        mips: [mip; 15],
    };
    let layout = quicktag::xg::XgResourceLayout {
        size_bytes: 0,
        base_alignment_bytes: 0,
        mip_levels: 1,
        plane_count: 1,
        planes: [plane; 4],
        dimension: 0,
        padding: 0,
    };
    assert_eq!(durango_block_grid(&layout), (100, 50, 8));
    let desc = durango_desc(64, 32, 1, 71, 14);
    assert_eq!(desc.bind_flags, 8);
    assert_eq!(desc.mip_levels, 1);
    assert_eq!(desc.tile_mode, 14);
}
