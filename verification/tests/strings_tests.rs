use quicktag::cache::decompress_cache;
use quicktag::wordlist::compressed_wordlist_entries;
use std::collections::HashMap;

use quicktag::hash::fnv1;
use quicktag::localized::{
    add_string, read_string_data, read_string_data_d1, string_data_old_format, string_reference_type, StringContainer,
    StringDataError,
};
use quicktag::taghash::TagHash;
use quicktag::version::{DestinyVersion, GameVersion, MarathonVersion};
use quicktag::wordlist::{split_byte_lines, wordlist_entries};

fn put64(d: &mut [u8], p: usize, v: u64) {
    d[p..p + 8].copy_from_slice(&v.to_le_bytes());
}

fn put32(d: &mut [u8], p: usize, v: u32) {
    d[p..p + 4].copy_from_slice(&v.to_le_bytes());
}

fn put16(d: &mut [u8], p: usize, v: u16) {
    d[p..p + 2].copy_from_slice(&v.to_le_bytes());
}

/// Two combinations: "Hi" followed by a variable, and the variable alone.
fn string_data(text: &[u8], cipher: u16) -> Vec<u8> {
    let mut d = vec![0u8; 200];
    put64(&mut d, 0, 200);
    // string parts: 2 at 128
    put64(&mut d, 8, 2);
    put64(&mut d, 16, 128 - 32);
    // unused table
    put64(&mut d, 24, 0);
    put64(&mut d, 32, 0);
    // string bytes at 192
    put64(&mut d, 40, 2);
    put64(&mut d, 48, 192 - 64);
    // combinations: 2 at 80
    put64(&mut d, 56, 2);
    put64(&mut d, 64, 0);
    put64(&mut d, 80, 128 - 80);
    put64(&mut d, 88, 2);
    put64(&mut d, 96, 160 - 96);
    put64(&mut d, 104, 1);
    // part at 128: text at 192
    put64(&mut d, 136, 192 - 136);
    put32(&mut d, 144, 0x811c9dc5);
    put16(&mut d, 148, text.len() as u16);
    put16(&mut d, 152, cipher);
    // part at 160: a variable
    put32(&mut d, 176, 0x12345678);
    d[192..192 + text.len()].copy_from_slice(text);
    d
}

#[test]
fn string_data_combinations() {
    let d = string_data(b"Hi", 0);
    let r = read_string_data(&d, false, &[0xAAAA, 0x811c9dc5]).unwrap();
    assert_eq!(r, vec![(0xAAAA, "Hi<12345678>".to_string())]);
    let r = read_string_data(&d, false, &[7, 8, 9]).unwrap();
    assert_eq!(r, vec![(7, "Hi<12345678>".to_string()), (8, "<12345678>".to_string())]);
    assert_eq!(read_string_data(&d, false, &[]).unwrap(), vec![]);
}

#[test]
fn string_data_cipher() {
    let d = string_data(b"Gh", 1);
    assert_eq!(read_string_data(&d, false, &[1]).unwrap(), vec![(1, "Hi<12345678>".to_string())]);
    let d = string_data(&[0xC3], 1);
    assert_eq!(read_string_data(&d, false, &[1]), Err(StringDataError::TruncatedCipherText));
}

#[test]
fn string_data_malformed() {
    let d = string_data(b"Hi", 0);
    assert_eq!(read_string_data(&d[..100], false, &[1]), Err(StringDataError::Malformed));
    // the old format has 16 more header bytes: the tables are read 16 bytes further on, where
    // this data has no combinations
    assert_eq!(read_string_data(&d, true, &[1]), Ok(vec![]));
    let mut bad = d.clone();
    put64(&mut bad, 16, (-100i64) as u64);
    assert_eq!(read_string_data(&bad, false, &[1]), Err(StringDataError::Malformed));
}

#[test]
fn string_container_fields() {
    let mut d = vec![0u8; 84];
    put64(&mut d, 0, 84);
    put64(&mut d, 8, 2);
    put64(&mut d, 16, 76 - 32);
    for j in 0..13 {
        put32(&mut d, 24 + 4 * j, 0x80a00000 + j as u32);
    }
    put32(&mut d, 76, 0x1111);
    put32(&mut d, 80, 0x2222);
    let c = StringContainer::read(&d).unwrap();
    assert_eq!(c.file_size, 84);
    assert_eq!(c.string_hashes, vec![0x1111, 0x2222]);
    assert_eq!(c.language_english, TagHash(0x80a00000));
    assert_eq!(c.language_russian, TagHash(0x80a0000c));
    let langs = c.all_languages();
    assert_eq!(langs.len(), 13);
    assert_eq!(langs[0], ("en", TagHash(0x80a00000)));
    assert_eq!(langs[5], ("es_latam", TagHash(0x80a00005)));
    assert!(StringContainer::read(&d[..80]).is_none());
}

#[test]
fn string_maps_and_versions() {
    let mut m: HashMap<u32, Vec<String>> = HashMap::new();
    add_string(&mut m, 1, "a".to_string());
    add_string(&mut m, 1, "b".to_string());
    add_string(&mut m, 1, "a".to_string());
    add_string(&mut m, 2, "c".to_string());
    assert_eq!(m[&1], vec!["a".to_string(), "b".to_string()]);
    assert_eq!(m[&2], vec!["c".to_string()]);
    let d = |v| GameVersion::Destiny(v);
    assert_eq!(string_reference_type(d(DestinyVersion::Destiny2TheFinalShape)), Some(0x808099EF));
    assert_eq!(string_reference_type(d(DestinyVersion::Destiny2Forsaken)), Some(0x80809A88));
    assert_eq!(string_reference_type(d(DestinyVersion::DestinyRiseOfIron)), Some(0x8080035A));
    assert_eq!(string_reference_type(GameVersion::Marathon(MarathonVersion::MarathonAlpha)), None);
    assert!(string_data_old_format(d(DestinyVersion::Destiny2BeyondLight)));
    assert!(!string_data_old_format(d(DestinyVersion::Destiny2WitchQueen)));
}

#[test]
fn wordlist_lines_and_hashes() {
    let data = b"hello\nworld\r\n\n\xff\xfeabc\nlast";
    let lines = split_byte_lines(data);
    assert_eq!(lines.len(), 5);
    assert_eq!(lines[1], b"world".to_vec());
    let words = wordlist_entries(data);
    assert_eq!(words, vec![("hello".to_string(), fnv1(b"hello")), ("world".to_string(), fnv1(b"world"))]);
    assert_eq!(wordlist_entries(b"a\nb\n").len(), 2);
}

fn put32be(d: &mut [u8], p: usize, v: u32) {
    d[p..p + 4].copy_from_slice(&v.to_be_bytes());
}

fn string_data_ttk() -> Vec<u8> {
    let mut d = vec![0u8; 200];
    put32be(&mut d, 0, 200);
    put32be(&mut d, 4, 1);
    put32be(&mut d, 8, 100 - 24);
    put32be(&mut d, 20, 0);
    put32be(&mut d, 24, 0);
    put32be(&mut d, 28, 2);
    put32be(&mut d, 32, 160 - 48);
    put32be(&mut d, 36, 2);
    put32be(&mut d, 40, 60 - 56);
    put32be(&mut d, 60, 100 - 60);
    put32be(&mut d, 64, 1);
    put32be(&mut d, 68, 100 - 68);
    put32be(&mut d, 72, 1);
    // the part: text at 160, two bytes, no cipher
    put32be(&mut d, 104, 160 - 104);
    d[112..114].copy_from_slice(&2u16.to_be_bytes());
    d[160..162].copy_from_slice(b"Hi");
    d
}

#[test]
fn string_data_taken_king() {
    let d = string_data_ttk();
    assert_eq!(read_string_data_d1(&d, &[0x811c9dc5, 0x1234]), Ok(Some(vec![(0x1234, "Hi".to_string())])));
    assert_eq!(read_string_data_d1(&d, &[7]), Ok(Some(vec![(7, "Hi".to_string())])));
    let mut big = d.clone();
    put32be(&mut big, 0, 0xF00000);
    assert_eq!(read_string_data_d1(&big, &[7]), Ok(None));
    let mut broken = d.clone();
    put32be(&mut broken, 64, 50);
    assert_eq!(read_string_data_d1(&broken, &[7]), Err(StringDataError::Malformed));
}

#[test]
fn adding_a_string_twice_keeps_one() {
    let mut once: HashMap<u32, Vec<String>> = HashMap::new();
    add_string(&mut once, 7, "x".to_string());
    let mut twice = once.clone();
    add_string(&mut twice, 7, "x".to_string());
    assert_eq!(once, twice);
}

#[test]
fn word_list_keeps_every_nonempty_line() {
    let words = wordlist_entries(b"\nalpha\n\nbeta\n");
    assert_eq!(words.len(), 2);
    for (w, h) in &words {
        assert_ne!(*h, 0x811c9dc5);
        assert_eq!(*h, fnv1(w.as_bytes()));
    }
}

#[test]
fn compressed_word_list() {
    let packed = zstd::stream::encode_all(&b"alpha\n\nbeta\n"[..], 3).unwrap();
    let words = compressed_wordlist_entries(&packed).unwrap();
    assert_eq!(words, vec![("alpha".to_string(), fnv1(b"alpha")), ("beta".to_string(), fnv1(b"beta"))]);
    assert_eq!(compressed_wordlist_entries(b"not zstd"), None);
    assert_eq!(decompress_cache(&packed), Some(b"alpha\n\nbeta\n".to_vec()));
    assert_eq!(decompress_cache(b"not zstd"), None);
}
