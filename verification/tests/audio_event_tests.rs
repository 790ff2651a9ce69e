use std::collections::HashMap;

use quicktag::audio_events::{
    check_event_readable, event_layout, filter_events, read_audio_event, sort_events, AudioEvent, EventLayout,
};
use quicktag::keysort::less_chars;
use quicktag::cache::EntryInfo;
use quicktag::taghash::TagHash;
use quicktag::version::{DestinyVersion, GameVersion, MarathonVersion};

fn le32(d: &mut [u8], p: usize, v: u32) {
    d[p..p + 4].copy_from_slice(&v.to_le_bytes());
}

fn le64(d: &mut [u8], p: usize, v: u64) {
    d[p..p + 8].copy_from_slice(&v.to_le_bytes());
}

fn event(bank_hash: u32, name: Option<&str>) -> AudioEvent {
    AudioEvent { tag: TagHash(bank_hash), bank_hash, name: name.map(|s| s.to_string()), streams: vec![] }
}

#[test]
fn event_layouts_by_release() {
    let d = |v| GameVersion::Destiny(v);
    assert_eq!(
        event_layout(d(DestinyVersion::Destiny2Lightfall)),
        Some(EventLayout { bank_is_tag: true, bank_at: 0x18, count_at: 0x20, streams_at: 0x50 })
    );
    assert_eq!(
        event_layout(d(DestinyVersion::Destiny2Shadowkeep)),
        Some(EventLayout { bank_is_tag: true, bank_at: 0x14, count_at: 0x18, streams_at: 0x50 })
    );
    assert_eq!(
        event_layout(d(DestinyVersion::DestinyRiseOfIron)),
        Some(EventLayout { bank_is_tag: true, bank_at: 0x34, count_at: 0x38, streams_at: 0x70 })
    );
    assert_eq!(
        event_layout(GameVersion::Marathon(MarathonVersion::MarathonAlpha)),
        Some(EventLayout { bank_is_tag: false, bank_at: 0x8, count_at: 0x20, streams_at: 0x50 })
    );
    assert_eq!(event_layout(d(DestinyVersion::Destiny2Forsaken)), None);
    assert_eq!(event_layout(d(DestinyVersion::DestinyTheTakenKing)), None);
}

#[test]
fn reading_an_event_tag() {
    let layout = event_layout(GameVersion::Destiny(DestinyVersion::Destiny2WitchQueen)).unwrap();
    let mut d = vec![0u8; 0x58];
    le32(&mut d, 0x18, 0x80801234);
    le64(&mut d, 0x20, 2);
    le32(&mut d, 0x50, 0x80805555);
    le32(&mut d, 0x54, 0x80806666);
    let mut entries = HashMap::new();
    entries.insert(0x80801234u32, EntryInfo { file_type: 26, file_subtype: 6, starting_block: 0, reference: 0xABCD });
    let mut names = HashMap::new();
    names.insert(0xABCDu32, vec![("bank_name".to_string(), false)]);
    assert!(check_event_readable(&d, layout, &entries));
    let e = read_audio_event(TagHash(0x80800001), &d, layout, &entries, Some(&names));
    assert_eq!(e.tag, TagHash(0x80800001));
    assert_eq!(e.bank_hash, 0xABCD);
    assert_eq!(e.name, Some("bank_name".to_string()));
    assert_eq!(e.streams, vec![TagHash(0x80805555), TagHash(0x80806666)]);
    let e = read_audio_event(TagHash(0x80800001), &d, layout, &entries, None);
    assert_eq!(e.name, None);
    // a stream past the end, or a bank tag without an entry, cannot be read
    assert!(!check_event_readable(&d[..0x57], layout, &entries));
    assert!(!check_event_readable(&d, layout, &HashMap::new()));
}

#[test]
fn events_ordered_by_name_unnamed_last() {
    let events = vec![
        event(2, None),
        event(1, Some("beta")),
        event(3, Some("alpha")),
        event(0x10, None),
        event(4, Some("beta")),
    ];
    let sorted = sort_events(events);
    let order: Vec<u32> = sorted.iter().map(|e| e.bank_hash).collect();
    assert_eq!(order, vec![3, 1, 4, 2, 0x10]);
    assert!(less_chars(&['a', 'b'], &['a', 'b', 'c']));
    assert!(!less_chars(&['b'], &['a', 'z']));
    assert!(!less_chars(&['a'], &['a']));
}

#[test]
fn searching_events() {
    let events = vec![event(0xDEADBEEF, Some("music_loop")), event(0x1234, None), event(5, Some("sfx"))];
    let found: Vec<usize> = filter_events(&events, "loop").iter().map(|(i, _)| *i).collect();
    assert_eq!(found, vec![0]);
    let found: Vec<usize> = filter_events(&events, "0x00001234").iter().map(|(i, _)| *i).collect();
    assert_eq!(found, vec![1]);
    let found: Vec<usize> = filter_events(&events, "BEEF").iter().map(|(i, _)| *i).collect();
    assert_eq!(found, vec![0]);
    assert_eq!(filter_events(&events, "").len(), 3);
    let hit = &filter_events(&events, "sfx")[0];
    assert_eq!((hit.0, hit.1.bank_hash, hit.1.name.clone()), (2, 5, Some("sfx".to_string())));
}
