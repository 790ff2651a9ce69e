use quicktag::filters::{
    chars_contain, filter_signatures, filter_strings, filter_strings_by_hash, filter_strings_normal,
    is_devalpha_str, matches_text, parse_filter_as_hash, reset_search, strip_ansi_codes, text_contains,
};
use quicktag::signatures::Signature;

fn strings() -> Vec<(u32, Vec<String>)> {
    vec![
        (0x80a00001, vec!["Hello World".to_string()]),
        (0x12345678, vec!["str5 Hello".to_string(), "other".to_string()]),
        (0x00000003, vec!["bye".to_string()]),
    ]
}

fn keys(v: &[(u32, Vec<String>)]) -> Vec<u32> {
    v.iter().map(|(k, _)| *k).collect()
}

#[test]
fn substring_search() {
    assert!(text_contains("Hello World", "lo W"));
    assert!(text_contains("abc", ""));
    assert!(!text_contains("abc", "abcd"));
    assert!(!text_contains("abc", "ac"));
    assert!(chars_contain(&['a', 'b', 'a', 'b', 'c'], &['a', 'b', 'c']));
    assert!(matches_text("abc", "abc", true));
    assert!(!matches_text("abcd", "abc", true));
    assert!(matches_text("abcd", "abc", false));
}

#[test]
fn placeholders_and_escapes() {
    assert!(is_devalpha_str("str12 name"));
    assert!(is_devalpha_str("str"));
    assert!(!is_devalpha_str("a str"));
    assert!(!is_devalpha_str("st"));
    assert_eq!(strip_ansi_codes("\x1b[31mred\x1b[0m plain\x1b[K"), "red plain");
    assert_eq!(strip_ansi_codes("\x1b[1;2x kept"), "\x1b[1;2x kept");
    assert_eq!(strip_ansi_codes("\x1b\x1b[m!"), "\x1b!");
}

#[test]
fn filter_text_as_hash() {
    assert_eq!(parse_filter_as_hash("80a0"), Some(0x80a0));
    assert_eq!(parse_filter_as_hash("+ff"), Some(0xff));
    assert_eq!(parse_filter_as_hash("FFFFFFFF"), Some(u32::MAX));
    assert_eq!(parse_filter_as_hash("123456789"), None);
    assert_eq!(parse_filter_as_hash("xyz"), None);
    assert_eq!(parse_filter_as_hash(""), None);
}

#[test]
fn string_searches() {
    let s = strings();
    assert_eq!(keys(&filter_strings_by_hash(&s, "80a0", false)), vec![0x80a00001]);
    assert_eq!(keys(&filter_strings_by_hash(&s, "3", false)), vec![0x12345678, 0x00000003]);
    assert_eq!(keys(&filter_strings_by_hash(&s, "3", true)), vec![0x00000003]);
    assert_eq!(keys(&filter_strings_by_hash(&s, "nothex", false)), Vec::<u32>::new());
    assert_eq!(keys(&filter_strings_normal(&s, "hello", false, false, true)), vec![0x80a00001]);
    assert_eq!(keys(&filter_strings_normal(&s, "hello", false, false, false)), vec![0x80a00001, 0x12345678]);
    assert_eq!(keys(&filter_strings_normal(&s, "hello", true, false, false)), Vec::<u32>::new());
    assert_eq!(keys(&filter_strings_normal(&s, "hello world", false, true, false)), vec![0x80a00001]);
    assert_eq!(keys(&reset_search(&s, true)), vec![0x80a00001, 0x00000003]);
    assert_eq!(keys(&reset_search(&s, false)), vec![0x80a00001, 0x12345678, 0x00000003]);
    assert_eq!(keys(&filter_strings(&s, "", false, false, false, true)), vec![0x80a00001, 0x00000003]);
    assert_eq!(keys(&filter_strings(&s, "OTHER", false, false, false, true)), vec![0x12345678]);
    let found = filter_strings(&s, "bye", false, true, true, false);
    assert_eq!(found, vec![(3, vec!["bye".to_string()])]);
}

#[test]
fn signature_search() {
    let sigs = vec![(Signature::U32(1), "Vigilance Wing".to_string()), (Signature::U64(2), "Other".to_string())];
    let found = filter_signatures(&sigs, "WING", false);
    assert_eq!(found.len(), 1);
    assert_eq!(found[0].1, "Vigilance Wing");
    assert_eq!(filter_signatures(&sigs, "other", true).len(), 1);
    assert_eq!(filter_signatures(&sigs, "oth", true).len(), 0);
}

#[test]
fn searching_a_result_again_keeps_it() {
    let s = strings();
    let once = filter_strings_normal(&s, "hello", false, false, false);
    let twice = filter_strings_normal(&once, "hello", false, false, false);
    assert_eq!(once, twice);
    assert!(once.len() <= s.len());
    // an exact match is also a substring match
    assert!(matches_text("hello world", "hello world", true));
    assert!(matches_text("hello world", "hello world", false));
}
