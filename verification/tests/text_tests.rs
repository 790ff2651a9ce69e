use quicktag::schema::{parse_schemafile, SchemaError};
use quicktag::signatures::{parse_sigfile, InvalidSignatureKey, Signature};
use quicktag::text::{decipher_text, decode_text, format_file_size, truncate_string_stripped};
use quicktag::classes::PrettyParser;

#[test]
fn decode_plain_text() {
    assert_eq!(decode_text(b"hello", 0), "hello");
    assert_eq!(decode_text(&[0x66, 0x6f, 0xff], 0), "fo\u{FFFD}");
}

#[test]
fn decipher_shifts_last_byte_of_each_sequence() {
    // ASCII bytes are shifted themselves
    assert_eq!(decode_text(&[0x60, 0x61], 1), "ab");
    // a two-byte sequence gets its second byte shifted
    assert_eq!(decipher_text(&[0xc3, 0xa8, 0x41], 1), Some(vec![0xc3, 0xa9, 0x42]));
    // a sequence running past the end cannot be deciphered
    assert_eq!(decipher_text(&[0x41, 0xe0, 0x80], 1), None);
    // nor can a byte that would overflow
    assert_eq!(decipher_text(&[0xff, 0x00, 0x00, 0xff], 1), None);
}

#[test]
fn truncation_escapes_newlines() {
    assert_eq!(truncate_string_stripped("a\nb", 10), "a\\nb");
    assert_eq!(truncate_string_stripped("abcdef", 3), "abc...");
    assert_eq!(truncate_string_stripped("abc", 3), "abc...");
    assert_eq!(truncate_string_stripped("ab", 3), "ab");
    // byte length counts: two 2-byte characters reach the limit of 4
    assert_eq!(truncate_string_stripped("\u{e9}\u{e9}", 4), "\u{e9}\u{e9}...");
}

#[test]
fn file_sizes() {
    assert_eq!(format_file_size(0), "0 B");
    assert_eq!(format_file_size(1023), "1023 B");
    assert_eq!(format_file_size(1024), "1.00 KB");
    assert_eq!(format_file_size(1536), "1.50 KB");
    assert_eq!(format_file_size(1034), "1.01 KB");
    // exactly halfway rounds to the even hundredth
    assert_eq!(format_file_size(1152), "1.12 KB");
    assert_eq!(format_file_size(3 * 1024 * 1024), "3.00 MB");
    assert_eq!(format_file_size(5 * 1024 * 1024 * 1024), "5.00 GB");
    assert_eq!(format_file_size(2 * 1024 * 1024 * 1024 * 1024), "2.00 TB");
}

#[test]
fn schema_lines() {
    let classes = parse_schemafile("80801234 s_thing\n8080ABCD s_other 16\r\n").unwrap();
    assert_eq!(classes.len(), 2);
    assert_eq!(classes[0].id, 0x80801234);
    assert_eq!(classes[0].name, "s_thing");
    assert_eq!(classes[0].size, None);
    assert_eq!(classes[1].id, 0x8080abcd);
    assert_eq!(classes[1].size, Some(16));
    assert_eq!(classes[1].pretty_parser, Some(PrettyParser::Hex));
    assert!(!classes[1].block_tags);
}

#[test]
fn schema_errors() {
    assert_eq!(parse_schemafile("80801234\n").err(), Some(SchemaError::MissingName { line: 0 }));
    assert_eq!(parse_schemafile("a b\nzz name\n").err(), Some(SchemaError::InvalidClassId { line: 1 }));
    assert_eq!(parse_schemafile("1 x y\n").err(), Some(SchemaError::InvalidSize { line: 0 }));
    assert_eq!(parse_schemafile("1 x\n\n2 y").err(), Some(SchemaError::MissingClassId { line: 1 }));
    assert_eq!(parse_schemafile("").unwrap().len(), 0);
}

#[test]
fn signature_lines() {
    let sigs = parse_sigfile("# comment\n0x1122AABB,Vigilance Wing\n\n0x11223344AABBCCDD,a,b\n  \n12,\n").unwrap();
    assert_eq!(sigs.len(), 3);
    assert_eq!(sigs[0].0, Signature::U32(0x1122aabb));
    assert_eq!(sigs[0].1, "Vigilance Wing");
    assert_eq!(sigs[1].0, Signature::U64(0x11223344aabbccdd));
    assert_eq!(sigs[1].1, "a,b");
    assert_eq!(sigs[2].0, Signature::U32(0x12));
    assert_eq!(sigs[2].1, "");
}

#[test]
fn signature_errors() {
    assert_eq!(parse_sigfile("0x12\nnothex,x\n").err(), Some(InvalidSignatureKey { line: 1 }));
    assert_eq!(parse_sigfile("0x112233445566778899,x").err(), Some(InvalidSignatureKey { line: 0 }));
}

#[test]
fn deciphered_text_decodes_exactly() {
    assert_eq!(decode_text(&[0x40, 0x41], 1), "AB");
    // only the last byte of a two-byte sequence is shifted: 0xA8 becomes 0xA9
    assert_eq!(decode_text(&[0xC3, 0xA8], 1), "\u{E9}");
    // the cipher is taken as a byte
    assert_eq!(decode_text(&[0x41], 256), "A");
}
