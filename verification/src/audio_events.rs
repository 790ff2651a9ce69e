//! Wwise event tags: where each release keeps the event's bank and its streams, the events
//! ordered by name for listing, and the search over them.
use vstd::prelude::*;
use std::collections::HashMap;
use crate::bytes::{read_u32_at, read_u64_at, Endian};
use crate::cache::EntryInfo;
use crate::filters::{contains_seq, kept, text_contains};
use crate::keysort::{sort_by_text, sort_text_keyed, strip_keys, text_keyed};
use crate::localized::{u32_at, u64_at};
use crate::strutil::{hex_upper, push_char, push_hex_upper};
use crate::taghash::TagHash;
use crate::text::str_chars;
use crate::version::{destiny_rank, DestinyVersion, GameVersion, MarathonVersion};
use crate::views::get_string_for_hash;

verus! {

/// An event: its tag, the hash of its bank (and the bank's name, where one is known) and the
/// tags of the streams it plays.
pub struct AudioEvent {
    pub tag: TagHash,
    pub bank_hash: u32,
    pub name: Option<String>,
    pub streams: Vec<TagHash>,
}

/// An event as plain values.
pub struct AudioEventModel {
    pub tag: TagHash,
    pub bank_hash: u32,
    pub name: Option<Seq<char>>,
    pub streams: Seq<TagHash>,
}

/// The plain values of an event.
pub open spec fn event_model(e: AudioEvent) -> AudioEventModel {
    AudioEventModel {
        tag: e.tag,
        bank_hash: e.bank_hash,
        name: match e.name {
            Some(n) => Some(n@),
            None => None,
        },
        streams: e.streams@,
    }
}

/// The plain values of events.
pub open spec fn event_models(s: Seq<AudioEvent>) -> Seq<AudioEventModel> {
    s.map_values(|e: AudioEvent| event_model(e))
}

fn clone_event(e: &AudioEvent) -> (r: AudioEvent)
    ensures
        event_model(r) == event_model(*e),
{
    let name = match &e.name {
        Some(n) => Some(n.clone()),
        None => None,
    };
    AudioEvent { tag: e.tag, bank_hash: e.bank_hash, name, streams: e.streams.clone() }
}

// ---------------------------------------------------------------------------------------------
// Reading an event tag

/// Where an event tag keeps its bank (the bank's hash itself, or a tag whose entry refers to
/// the bank), the 64-bit count of its streams and the streams.
#[derive(Clone, Copy, Debug, PartialEq, Eq, Structural)]
pub struct EventLayout {
    pub bank_is_tag: bool,
    pub bank_at: usize,
    pub count_at: usize,
    pub streams_at: usize,
}

/// The event layout of a release: the Marathon alpha keeps the bank hash at 8; Beyond Light and
/// later (and Marathon) a bank tag at 0x18; Shadowkeep at 0x14; Rise of Iron at 0x34. Other
/// releases' events are not read.
pub open spec fn event_layout_of(version: GameVersion) -> Option<EventLayout> {
    match version {
        GameVersion::Marathon(MarathonVersion::MarathonAlpha) => Some(
            EventLayout { bank_is_tag: false, bank_at: 0x8, count_at: 0x20, streams_at: 0x50 },
        ),
        GameVersion::Marathon(MarathonVersion::Marathon) => Some(
            EventLayout { bank_is_tag: true, bank_at: 0x18, count_at: 0x20, streams_at: 0x50 },
        ),
        GameVersion::Destiny(v) => if destiny_rank(v) >= 7 {
            Some(EventLayout { bank_is_tag: true, bank_at: 0x18, count_at: 0x20, streams_at: 0x50 })
        } else if v == DestinyVersion::Destiny2Shadowkeep {
            Some(EventLayout { bank_is_tag: true, bank_at: 0x14, count_at: 0x18, streams_at: 0x50 })
        } else if v == DestinyVersion::DestinyRiseOfIron {
            Some(EventLayout { bank_is_tag: true, bank_at: 0x34, count_at: 0x38, streams_at: 0x70 })
        } else {
            None
        },
    }
}

/// The event layout of a release (see `event_layout_of`).
pub fn event_layout(version: GameVersion) -> (r: Option<EventLayout>)
    ensures
        r == event_layout_of(version),
{
    match version {
        GameVersion::Marathon(MarathonVersion::MarathonAlpha) => Some(
            EventLayout { bank_is_tag: false, bank_at: 0x8, count_at: 0x20, streams_at: 0x50 },
        ),
        GameVersion::Marathon(MarathonVersion::Marathon) => Some(
            EventLayout { bank_is_tag: true, bank_at: 0x18, count_at: 0x20, streams_at: 0x50 },
        ),
        GameVersion::Destiny(v) => {
            if v.rank() >= 7 {
                Some(EventLayout { bank_is_tag: true, bank_at: 0x18, count_at: 0x20, streams_at: 0x50 })
            } else if v == DestinyVersion::Destiny2Shadowkeep {
                Some(EventLayout { bank_is_tag: true, bank_at: 0x14, count_at: 0x18, streams_at: 0x50 })
            } else if v == DestinyVersion::DestinyRiseOfIron {
                Some(EventLayout { bank_is_tag: true, bank_at: 0x34, count_at: 0x38, streams_at: 0x70 })
            } else {
                None
            }
        },
    }
}

/// Whether an event tag can be read with a layout: its fields and all its streams lie in the
/// data, and a bank tag has an entry.
pub open spec fn event_readable(d: Seq<u8>, layout: EventLayout, entries: Map<u32, EntryInfo>) -> bool {
    &&& layout.bank_at + 4 <= d.len()
    &&& layout.count_at + 8 <= d.len()
    &&& layout.streams_at + 4 * u64_at(d, layout.count_at as int) <= d.len()
    &&& layout.bank_is_tag ==> entries.contains_key(u32_at(d, layout.bank_at as int))
}

/// The bank hash of an event tag: the field itself, or what the bank tag's entry refers to.
pub open spec fn event_bank_hash(d: Seq<u8>, layout: EventLayout, entries: Map<u32, EntryInfo>) -> u32 {
    if layout.bank_is_tag {
        entries[u32_at(d, layout.bank_at as int)].reference
    } else {
        u32_at(d, layout.bank_at as int)
    }
}

/// The stream tags of an event tag.
pub open spec fn event_streams(d: Seq<u8>, layout: EventLayout) -> Seq<TagHash> {
    Seq::new(u64_at(d, layout.count_at as int) as nat, |i: int| TagHash(u32_at(d, layout.streams_at + 4 * i)))
}

/// Whether an event tag can be read with a layout (see `event_readable`).
pub fn check_event_readable(data: &[u8], layout: EventLayout, entries: &HashMap<u32, EntryInfo>) -> (r: bool)
    ensures
        r == event_readable(data@, layout, entries@),
{
    let len = data.len();
    if len < 4 || layout.bank_at > len - 4 || len < 8 || layout.count_at > len - 8 {
        return false;
    }
    let count = read_u64_at(data, layout.count_at, Endian::Little);
    if layout.streams_at > len || ((len - layout.streams_at) as u64) / 4 < count {
        return false;
    }
    if layout.bank_is_tag {
        let bank = read_u32_at(data, layout.bank_at, Endian::Little);
        if !entries.contains_key(&bank) {
            return false;
        }
    }
    true
}

/// Reads the event tag `tag` with a layout: its bank hash (through the bank tag's entry where
/// the layout keeps a tag), the bank's name from `names` where it has one, and its streams.
pub fn read_audio_event(
    tag: TagHash,
    data: &[u8],
    layout: EventLayout,
    entries: &HashMap<u32, EntryInfo>,
    names: Option<&HashMap<u32, Vec<(String, bool)>>>,
) -> (r: AudioEvent)
    requires
        event_readable(data@, layout, entries@),
    ensures
        r.tag == tag,
        r.bank_hash == event_bank_hash(data@, layout, entries@),
        r.streams@ == event_streams(data@, layout),
        r.name is Some <==> (names matches Some(m) && m@.contains_key(r.bank_hash) && m@[r.bank_hash]@.len() > 0),
        r.name matches Some(s) ==> (names matches Some(m) && s == m@[r.bank_hash]@[0].0),
{
    broadcast use vstd::std_specs::hash::group_hash_axioms;
    let field = read_u32_at(data, layout.bank_at, Endian::Little);
    let bank_hash = if layout.bank_is_tag {
        match entries.get(&field) {
            Some(e) => e.reference,
            None => 0,
        }
    } else {
        field
    };
    let count = read_u64_at(data, layout.count_at, Endian::Little);
    let mut streams: Vec<TagHash> = Vec::new();
    let mut i: u64 = 0;
    while i < count
        invariant
            i <= count,
            count == u64_at(data@, layout.count_at as int),
            layout.streams_at + 4 * count <= data@.len(),
            data@.len() == data.len(),
            streams@ == event_streams(data@, layout).take(i as int),
        decreases count - i,
    {
        let p = layout.streams_at + 4 * (i as usize);
        let t = read_u32_at(data, p, Endian::Little);
        streams.push(TagHash(t));
        i += 1;
        assert(streams@ =~= event_streams(data@, layout).take(i as int));
    }
    assert(event_streams(data@, layout).take(i as int) =~= event_streams(data@, layout));
    let name = get_string_for_hash(names, bank_hash);
    AudioEvent { tag, bank_hash, name, streams }
}

// ---------------------------------------------------------------------------------------------
// Ordering events by name

/// What events are ordered by: the bank's name, or (unnamed) "zzzz" and the bank hash in
/// eight upper-case hex digits, so that unnamed events come last.
pub open spec fn event_key(e: AudioEventModel) -> Seq<char> {
    match e.name {
        Some(n) => n,
        None => seq!['z', 'z', 'z', 'z'] + hex_upper(e.bank_hash as nat, 8),
    }
}

fn event_key_chars(e: &AudioEvent) -> (r: Vec<char>)
    ensures
        r@ == event_key(event_model(*e)),
{
    match &e.name {
        Some(n) => str_chars(n.as_str()),
        None => {
            let mut s = String::new();
            push_char(&mut s, 'z');
            push_char(&mut s, 'z');
            push_char(&mut s, 'z');
            push_char(&mut s, 'z');
            push_hex_upper(&mut s, e.bank_hash as u64, 8);
            assert(s@ =~= seq!['z', 'z', 'z', 'z'] + hex_upper(e.bank_hash as nat, 8));
            str_chars(s.as_str())
        },
    }
}

/// Events paired with their keys.
pub open spec fn keyed_events(s: Seq<AudioEvent>) -> Seq<(Seq<char>, AudioEvent)> {
    s.map_values(|e: AudioEvent| (event_key(event_model(e)), e))
}

/// The events ordered by their keys (see `event_key`), events with equal keys in their
/// original order (`lemma_sort_by_text` shows the result ordered and a permutation).
pub fn sort_events(events: Vec<AudioEvent>) -> (r: Vec<AudioEvent>)
    ensures
        r@ == sort_by_text(keyed_events(events@)).map_values(|p: (Seq<char>, AudioEvent)| p.1),
{
    let ghost all = events@;
    let mut rest = events;
    let n = rest.len();
    let mut keyed: Vec<(Vec<char>, AudioEvent)> = Vec::new();
    let mut i: usize = 0;
    while rest.len() > 0
        invariant
            i + rest@.len() == all.len(),
            all.len() == n,
            rest@ == all.skip(i as int),
            text_keyed(keyed@) == keyed_events(all.take(i as int)),
        decreases rest@.len(),
    {
        let x = rest.remove(0);
        assert(x == all[i as int]);
        assert(rest@ =~= all.skip(i + 1));
        let k = event_key_chars(&x);
        let ghost before = keyed@;
        keyed.push((k, x));
        assert(all.take(i + 1) =~= all.take(i as int).push(all[i as int]));
        assert(text_keyed(keyed@) =~= text_keyed(before).push((k@, x)));
        assert(keyed_events(all.take(i + 1)) =~= keyed_events(all.take(i as int)).push((event_key(event_model(x)), x)));
        i += 1;
    }
    assert(all.take(i as int) =~= all);
    let sorted = sort_text_keyed(keyed);
    let r = strip_keys(sorted);
    proof {
        assert(r@ =~= sort_by_text(keyed_events(all)).map_values(|p: (Seq<char>, AudioEvent)| p.1)) by {
            assert(text_keyed(sorted@) == sort_by_text(keyed_events(all)));
            assert forall|k: int| 0 <= k < r@.len() implies r@[k] == sort_by_text(keyed_events(all))[k].1 by {
                assert(text_keyed(sorted@)[k] == (sorted@[k].0@, sorted@[k].1));
            }
        }
    }
    r
}

// ---------------------------------------------------------------------------------------------
// Searching events

/// Whether an event is listed by a search for `query`: its bank's name contains it, or the
/// bank hash written "0x" and eight upper-case hex digits does.
pub open spec fn event_hit(e: AudioEventModel, query: Seq<char>) -> bool {
    ||| (e.name matches Some(n) && contains_seq(n, query))
    ||| contains_seq(seq!['0', 'x'] + hex_upper(e.bank_hash as nat, 8), query)
}

/// The events that a search for `query` lists, each with its place in `s`.
pub open spec fn event_hits(s: Seq<AudioEventModel>, query: Seq<char>) -> Seq<(int, AudioEventModel)> {
    kept(Seq::new(s.len(), |i: int| (i, s[i])), |p: (int, AudioEventModel)| event_hit(p.1, query))
}

/// The events that a search for `query` lists (see `event_hit`), each with its place in
/// `events`.
pub fn filter_events(events: &[AudioEvent], query: &str) -> (r: Vec<(usize, AudioEvent)>)
    ensures
        r@.map_values(|p: (usize, AudioEvent)| (p.0 as int, event_model(p.1))) == event_hits(event_models(events@), query@),
{
    let ghost ms = event_models(events@);
    let ghost all = Seq::new(ms.len(), |i: int| (i, ms[i]));
    let ghost p = |q: (int, AudioEventModel)| event_hit(q.1, query@);
    let mut r: Vec<(usize, AudioEvent)> = Vec::new();
    let mut i: usize = 0;
    assert(all.take(0) =~= Seq::<(int, AudioEventModel)>::empty());
    assert(r@.map_values(|q: (usize, AudioEvent)| (q.0 as int, event_model(q.1))) =~= Seq::<(int, AudioEventModel)>::empty());
    while i < events.len()
        invariant
            i <= events@.len(),
            ms == event_models(events@),
            all == Seq::new(ms.len(), |i: int| (i, ms[i])),
            p == (|q: (int, AudioEventModel)| event_hit(q.1, query@)),
            r@.map_values(|q: (usize, AudioEvent)| (q.0 as int, event_model(q.1))) == kept(all.take(i as int), p),
        decreases events@.len() - i,
    {
        let ghost before = r@;
        assert(all.take(i + 1).drop_last() =~= all.take(i as int));
        assert(all.take(i + 1).last() == all[i as int]);
        let e = &events[i];
        let by_name = match &e.name {
            Some(n) => text_contains(n.as_str(), query),
            None => false,
        };
        let mut hex = String::new();
        push_char(&mut hex, '0');
        push_char(&mut hex, 'x');
        push_hex_upper(&mut hex, e.bank_hash as u64, 8);
        assert(hex@ =~= seq!['0', 'x'] + hex_upper(e.bank_hash as nat, 8));
        let hit = by_name || text_contains(hex.as_str(), query);
        assert(all[i as int] == (i as int, event_model(events@[i as int])));
        assert(hit == p(all[i as int]));
        if hit {
            let c = clone_event(e);
            r.push((i, c));
            assert(r@.map_values(|q: (usize, AudioEvent)| (q.0 as int, event_model(q.1))) =~= before.map_values(
                |q: (usize, AudioEvent)| (q.0 as int, event_model(q.1)),
            ).push(all[i as int]));
        } else {
            assert(r@ == before);
        }
        i += 1;
    }
    assert(all.take(i as int) =~= all);
    r
}

} // verus!
