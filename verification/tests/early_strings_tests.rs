use quicktag::early_strings::{
    read_string_data_d1_alpha, read_string_data_d1_firstlook, string_table_format, StringContainerD1,
    StringContainerD1FirstLook, StringTableFormat,
};
use quicktag::localized::StringDataError;
use quicktag::version::{DestinyVersion, GameVersion, MarathonVersion};

fn be32(d: &mut [u8], p: usize, v: u32) {
    d[p..p + 4].copy_from_slice(&v.to_be_bytes());
}

fn le64(d: &mut [u8], p: usize, v: u64) {
    d[p..p + 8].copy_from_slice(&v.to_le_bytes());
}

fn le32(d: &mut [u8], p: usize, v: u32) {
    d[p..p + 4].copy_from_slice(&v.to_le_bytes());
}

#[test]
fn big_endian_container() {
    let mut d = vec![0u8; 24];
    be32(&mut d, 0, 24);
    be32(&mut d, 4, 2);
    be32(&mut d, 8, (-8i32) as u32);
    be32(&mut d, 12, 0x80AA_BBCC);
    be32(&mut d, 16, 0x1122_3344);
    be32(&mut d, 20, 0x5566_7788);
    let c = StringContainerD1::read(&d).unwrap();
    assert_eq!(c.file_size, 24);
    assert_eq!(c.string_hashes, vec![0x1122_3344, 0x5566_7788]);
    assert_eq!(c.language_english.0, 0x80AA_BBCC);
    // the hash table runs past the end
    assert!(StringContainerD1::read(&d[..20]).is_none());
    assert!(StringContainerD1::read(&d[..12]).is_none());
}

#[test]
fn first_look_container() {
    let mut d = vec![0u8; 32];
    le64(&mut d, 0, 32);
    le64(&mut d, 8, 1);
    le64(&mut d, 16, (-4i64) as u64);
    le32(&mut d, 24, 0x80AB_CDEF);
    le32(&mut d, 28, 0x0102_0304);
    let c = StringContainerD1FirstLook::read(&d).unwrap();
    assert_eq!(c.file_size, 32);
    assert_eq!(c.string_hashes, vec![0x0102_0304]);
    assert_eq!(c.language_english.0, 0x80AB_CDEF);
    assert!(StringContainerD1FirstLook::read(&d[..30]).is_none());
}

/// Internal alpha string data with one combination of one part holding `text` (UTF-16 units).
fn alpha_data(units: &[u16], end_shift: i32) -> Vec<u8> {
    let mut d = vec![0u8; 68 + 2 * units.len()];
    let n = d.len() as u32;
    be32(&mut d, 0, n);
    // UTF-16 data table: empty, at 32
    be32(&mut d, 12, 0);
    be32(&mut d, 16, 0);
    // combinations: 1 at 40
    be32(&mut d, 20, 1);
    be32(&mut d, 24, 0);
    // the combination's parts: 1 at 48
    be32(&mut d, 40, 1);
    be32(&mut d, 44, (-12i32) as u32);
    // the part's text runs from 68 to its end
    be32(&mut d, 60, 8);
    be32(&mut d, 64, (4 + 2 * units.len() as i32 + end_shift) as u32);
    for (i, u) in units.iter().enumerate() {
        d[68 + 2 * i..70 + 2 * i].copy_from_slice(&u.to_be_bytes());
    }
    d
}

#[test]
fn internal_alpha_strings() {
    let text: Vec<u16> = "Hi!".encode_utf16().collect();
    let d = alpha_data(&text, 0);
    let r = read_string_data_d1_alpha(&d, &[0xABCD_0001]).unwrap().unwrap();
    assert_eq!(r, vec![(0xABCD_0001, "Hi!".to_string())]);
    // an odd length leaves the last byte out
    let d = alpha_data(&text, -1);
    let r = read_string_data_d1_alpha(&d, &[7]).unwrap().unwrap();
    assert_eq!(r, vec![(7, "Hi".to_string())]);
    // an unpaired surrogate becomes U+FFFD, a pair one character
    let d = alpha_data(&[0xD800, 0x0041, 0xD83D, 0xDE00], 0);
    let r = read_string_data_d1_alpha(&d, &[9]).unwrap().unwrap();
    assert_eq!(r, vec![(9, "\u{FFFD}A\u{1F600}".to_string())]);
    // the empty hash is skipped, and only as many strings as hashes are read
    let d = alpha_data(&text, 0);
    assert_eq!(read_string_data_d1_alpha(&d, &[0x811c9dc5]).unwrap().unwrap(), vec![]);
    assert_eq!(read_string_data_d1_alpha(&d, &[]).unwrap().unwrap(), vec![]);
    // a header that does not fit is no table at all
    assert_eq!(read_string_data_d1_alpha(&d[..30], &[1]), Ok(None));
    // an end before the start, or past the data, is malformed
    let d = alpha_data(&text, -10);
    assert_eq!(read_string_data_d1_alpha(&d, &[1]), Err(StringDataError::Malformed));
    let d = alpha_data(&text, 4);
    assert_eq!(read_string_data_d1_alpha(&d, &[1]), Err(StringDataError::Malformed));
}

/// First Look string data with one combination of one part holding `bytes`.
fn first_look_data(bytes: &[u8]) -> Vec<u8> {
    let mut d = vec![0u8; 128 + bytes.len()];
    let n = d.len() as u64;
    le64(&mut d, 0, n);
    // unused table, UTF-16 table (empty)
    le64(&mut d, 8, 0);
    le64(&mut d, 16, 0);
    le64(&mut d, 24, 0);
    le64(&mut d, 32, 0);
    // combinations: 1 at 64
    le64(&mut d, 40, 1);
    le64(&mut d, 48, 0);
    // the combination: one part, pointer to 80 (parts from 96)
    le64(&mut d, 64, 1);
    le64(&mut d, 72, 8);
    // the part: text from 128 to the end
    le64(&mut d, 112, 16);
    le64(&mut d, 120, 8 + bytes.len() as u64);
    d[128..].copy_from_slice(bytes);
    d
}

#[test]
fn first_look_strings() {
    let bytes: Vec<u8> = "Hi!".encode_utf16().flat_map(|u| u.to_le_bytes()).collect();
    let d = first_look_data(&bytes);
    let r = read_string_data_d1_firstlook(&d, &[0x1234_5678]).unwrap().unwrap();
    assert_eq!(r, vec![(0x1234_5678, "Hi!".to_string())]);
    assert_eq!(read_string_data_d1_firstlook(&d, &[0x811c9dc5]).unwrap().unwrap(), vec![]);
    assert_eq!(read_string_data_d1_firstlook(&d[..40], &[1]), Ok(None));
    // an unpaired surrogate fails the whole table
    let d = first_look_data(&[0x00, 0xD8]);
    assert_eq!(read_string_data_d1_firstlook(&d, &[1]), Err(StringDataError::InvalidUtf16));
    // a part whose text runs past the data
    let mut d = first_look_data(&bytes);
    le64(&mut d, 120, 100);
    assert_eq!(read_string_data_d1_firstlook(&d, &[1]), Err(StringDataError::Malformed));
}

#[test]
fn string_formats_by_release() {
    assert_eq!(
        string_table_format(GameVersion::Destiny(DestinyVersion::DestinyInternalAlpha)),
        StringTableFormat::InternalAlpha { reference: 0x808004A8 }
    );
    assert_eq!(
        string_table_format(GameVersion::Destiny(DestinyVersion::DestinyFirstLookAlpha)),
        StringTableFormat::FirstLook { reference: 0x8080035A }
    );
    assert_eq!(
        string_table_format(GameVersion::Destiny(DestinyVersion::DestinyTheTakenKing)),
        StringTableFormat::TakenKing { reference: 0x8080035A }
    );
    assert_eq!(
        string_table_format(GameVersion::Destiny(DestinyVersion::DestinyRiseOfIron)),
        StringTableFormat::Modern { reference: 0x8080035A, old_format: true }
    );
    assert_eq!(
        string_table_format(GameVersion::Destiny(DestinyVersion::Destiny2Shadowkeep)),
        StringTableFormat::Modern { reference: 0x80809A88, old_format: true }
    );
    assert_eq!(
        string_table_format(GameVersion::Destiny(DestinyVersion::Destiny2WitchQueen)),
        StringTableFormat::Modern { reference: 0x808099EF, old_format: false }
    );
    assert_eq!(
        string_table_format(GameVersion::Marathon(MarathonVersion::MarathonAlpha)),
        StringTableFormat::Unsupported
    );
}
