use quicktag::formats::surface::{GcnSurfaceFormat, XenosSurfaceFormat};
use quicktag::formats::dxgi::DxgiFormat;
use quicktag::headers::{
    HeaderError, TextureHeaderD2Ps4, TextureHeaderDevAlphaX360, TextureHeaderPC, TextureHeaderRoiPs4, TextureHeaderRoiXbox,
};
use quicktag::taghash::TagHash;
use quicktag::version::{DestinyVersion, GameVersion, MarathonVersion, Platform};
use quicktag::swizzle::ps4::{gcn_swizzle_fits_check, GcnDeswizzler};
use quicktag::swizzle::xbox::XenosDetiler;
use quicktag::swizzle::Deswizzler;
use quicktag::texdata::{
    check_gcn_prepare_fits, check_xenos_prepare_fits, prepare_gcn_texture, texture_data_sources, texture_header_kind,
    texture_kind, TextureDataError, TextureHeaderKind,
};
use quicktag::views::TextureType;

fn roi_header(flags1: u32) -> TextureHeaderRoiPs4 {
    TextureHeaderRoiPs4 {
        data_size: 0,
        unk4: 0,
        unk5: 0,
        format: GcnSurfaceFormat::Format8,
        beefcafe: 0xbeefcafe,
        width: 8,
        height: 8,
        depth: 1,
        array_size: 1,
        flags1,
        flags2: 0,
        flags3: 0,
    }
}

#[test]
fn gcn_texture_data() {
    let data: Vec<u8> = (0..64u8).collect();
    assert_eq!(
        prepare_gcn_texture(8, 8, 1, GcnSurfaceFormat::Format8, false, true, data[..63].to_vec()),
        Err(TextureDataError::SizeMismatch { expected: 64, got: 63 })
    );
    assert_eq!(prepare_gcn_texture(8, 8, 1, GcnSurfaceFormat::Format8, false, true, data.clone()), Ok(data.clone()));
    let expected = GcnDeswizzler.deswizzle(&data, 8, 8, 1, GcnSurfaceFormat::Format8, true).unwrap();
    assert_ne!(expected, data);
    assert_eq!(roi_header(0).prepare_data(data.clone()), Ok(expected));
    assert_eq!(roi_header(0x400).prepare_data(data.clone()), Ok(data.clone()));
    assert!(check_gcn_prepare_fits(8, 8, 1, GcnSurfaceFormat::Format8, true, true, 64));
    assert!(!check_gcn_prepare_fits(8, 8, 100, GcnSurfaceFormat::Format8, true, true, 64));
    assert!(check_gcn_prepare_fits(8, 8, 100, GcnSurfaceFormat::Format8, false, true, 64));
    assert!(gcn_swizzle_fits_check(64, 8, 8, 1, GcnSurfaceFormat::Format8, false));
    assert!(!gcn_swizzle_fits_check(64, usize::MAX, usize::MAX, 2, GcnSurfaceFormat::Format8, false));
}

#[test]
fn xenos_texture_data() {
    let h = TextureHeaderDevAlphaX360 {
        unk_flag: false,
        format: XenosSurfaceFormat::k_8,
        width: 32,
        height: 32,
        depth: 1,
        beefcafe: 0xbeefcafe,
    };
    let data: Vec<u8> = (0..1024u32).map(|i| (i % 251) as u8).collect();
    assert!(check_xenos_prepare_fits(32, 32, 1, XenosSurfaceFormat::k_8, data.len()));
    let expected = XenosDetiler.deswizzle(&data, 32, 32, 1, XenosSurfaceFormat::k_8, false);
    assert_eq!(h.prepare_data(data.clone()), expected.map_err(TextureDataError::Deswizzle));
    assert_eq!(
        h.prepare_data(data[..1000].to_vec()),
        Err(TextureDataError::SizeMismatch { expected: 1024, got: 1000 })
    );
}

fn le16(d: &mut [u8], p: usize, v: u16) {
    d[p..p + 2].copy_from_slice(&v.to_le_bytes());
}

fn le32(d: &mut [u8], p: usize, v: u32) {
    d[p..p + 4].copy_from_slice(&v.to_le_bytes());
}

/// A Destiny 2 PC header: R8G8B8A8_UNORM, 4x2, one slice, the large buffer tag given.
fn pc_header(prebl: bool, large: u32) -> Vec<u8> {
    let (c, lb) = if prebl { (0xc, 0x24) } else { (0x20, 0x3c) };
    let mut d = vec![0u8; lb + 4];
    le32(&mut d, 0, 32);
    le32(&mut d, 4, 28);
    le16(&mut d, c, 0xcafe);
    le16(&mut d, c + 2, 4);
    le16(&mut d, c + 4, 2);
    le16(&mut d, c + 6, 1);
    le16(&mut d, c + 8, 1);
    le32(&mut d, lb, large);
    d
}

#[test]
fn destiny2_pc_headers() {
    for prebl in [true, false] {
        let h = TextureHeaderPC::read(&pc_header(prebl, 0x80AB_0001), prebl).unwrap();
        assert_eq!(h.format, DxgiFormat::R8G8B8A8_UNORM);
        assert_eq!((h.width, h.height, h.depth, h.array_size), (4, 2, 1, 1));
        assert_eq!(h.data_size, 32);
        assert_eq!(h.large_buffer, Some(TagHash(0x80AB_0001)));
        let h = TextureHeaderPC::read(&pc_header(prebl, u32::MAX), prebl).unwrap();
        assert_eq!(h.large_buffer, None);
    }
    // the layouts differ: the marker is not where the other layout looks for it
    assert_eq!(
        TextureHeaderPC::read(&pc_header(true, 0), false),
        Err(HeaderError::BadMarker { found: 0 })
    );
    let d = pc_header(false, 0);
    assert_eq!(TextureHeaderPC::read(&d[..0x30], false), Err(HeaderError::UnexpectedEnd { offset: 0x30 }));
    assert_eq!(TextureHeaderPC::read(&d[..0x3d], false), Err(HeaderError::UnexpectedEnd { offset: 0x3c }));
    assert_eq!(TextureHeaderPC::read(&d[..6], false), Err(HeaderError::UnexpectedEnd { offset: 4 }));
    let mut bad = d.clone();
    le32(&mut bad, 4, 200);
    assert_eq!(TextureHeaderPC::read(&bad, false), Err(HeaderError::InvalidFormat { value: 200 }));
}

/// A Destiny 2 PlayStation 4 header: the GCN format code given, 8x8, the first flags given.
fn d2_ps4_header(prebl: bool, code: u16, flags1: u32) -> Vec<u8> {
    let (c, lb) = if prebl { (0x28, 0x40) } else { (0x8, 0x1e) };
    let mut d = vec![0u8; lb + 4];
    le32(&mut d, 0, 64);
    le16(&mut d, 6, code << 4);
    le16(&mut d, c, 0xcafe);
    le16(&mut d, c + 2, 8);
    le16(&mut d, c + 4, 8);
    le16(&mut d, c + 6, 1);
    le16(&mut d, c + 8, 1);
    le32(&mut d, c + 0xa, flags1);
    le32(&mut d, lb, u32::MAX);
    d
}

#[test]
fn destiny2_ps4_headers_and_data() {
    for prebl in [true, false] {
        let h = TextureHeaderD2Ps4::read(&d2_ps4_header(prebl, 1, 0x400), prebl).unwrap();
        assert_eq!(h.format, GcnSurfaceFormat::Format8);
        assert_eq!((h.width, h.height, h.flags1, h.large_buffer), (8, 8, 0x400, None));
        // stored linear: only the size is checked
        let data: Vec<u8> = (0..64u8).collect();
        assert_eq!(h.prepare_data(data.clone()), Ok(data.clone()));
        assert_eq!(
            h.prepare_data(data[..10].to_vec()),
            Err(TextureDataError::SizeMismatch { expected: 64, got: 10 })
        );
        // stored tiled: deswizzled without aligning the resolution
        let h = TextureHeaderD2Ps4::read(&d2_ps4_header(prebl, 1, 0), prebl).unwrap();
        let expected = GcnDeswizzler.deswizzle(&data, 8, 8, 1, GcnSurfaceFormat::Format8, false).unwrap();
        assert_eq!(h.prepare_data(data.clone()), Ok(expected));
    }
    assert_eq!(
        TextureHeaderD2Ps4::read(&d2_ps4_header(false, 0xf, 0), false),
        Err(HeaderError::InvalidFormat { value: 0xf })
    );
}

#[test]
fn rise_of_iron_xbox_data_and_texture_kinds() {
    let h = TextureHeaderRoiXbox {
        format: DxgiFormat::R8G8B8A8_UNORM,
        beefcafe: 0xbeefcafe,
        width: 2,
        height: 2,
        depth: 1,
        array_size: 1,
    };
    assert_eq!(h.prepare_data(vec![1; 16]), Ok(vec![1; 16]));
    assert_eq!(h.prepare_data(vec![1; 15]), Err(TextureDataError::SizeMismatch { expected: 16, got: 15 }));
    assert_eq!(texture_kind(1, 6), TextureType::TextureCube);
    assert_eq!(texture_kind(4, 1), TextureType::Texture3D);
    assert_eq!(texture_kind(1, 1), TextureType::Texture2D);
    let (a, b) = (TagHash(0x80800001), TagHash(0x80800002));
    assert_eq!(texture_data_sources(Some(a), b, true), vec![a, b]);
    assert_eq!(texture_data_sources(Some(a), b, false), vec![a]);
    assert_eq!(texture_data_sources(None, b, true), vec![b]);
}

#[test]
fn texture_headers_by_release_and_platform() {
    let d = |v| GameVersion::Destiny(v);
    assert_eq!(texture_header_kind(d(DestinyVersion::DestinyTheTakenKing), Platform::PS3), Some(TextureHeaderKind::Ps3));
    assert_eq!(
        texture_header_kind(d(DestinyVersion::DestinyInternalAlpha), Platform::X360),
        Some(TextureHeaderKind::DevAlphaX360)
    );
    assert_eq!(texture_header_kind(d(DestinyVersion::DestinyRiseOfIron), Platform::XboxOne), Some(TextureHeaderKind::RoiXbox));
    assert_eq!(texture_header_kind(d(DestinyVersion::DestinyFirstLookAlpha), Platform::PS4), Some(TextureHeaderKind::RoiPs4));
    assert_eq!(
        texture_header_kind(d(DestinyVersion::Destiny2Shadowkeep), Platform::Win64),
        Some(TextureHeaderKind::D2Pc { prebl: true })
    );
    assert_eq!(
        texture_header_kind(d(DestinyVersion::Destiny2Lightfall), Platform::PS4),
        Some(TextureHeaderKind::D2Ps4 { prebl: false })
    );
    assert_eq!(texture_header_kind(d(DestinyVersion::Destiny2Lightfall), Platform::X360), None);
    assert_eq!(texture_header_kind(GameVersion::Marathon(MarathonVersion::MarathonAlpha), Platform::Win64), Some(TextureHeaderKind::D2Pc { prebl: false }));
}
