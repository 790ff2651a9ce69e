//! State and small decisions of the inspector's views: panels, sort orders, audio lookups and
//! string lookups.
use vstd::prelude::*;
use std::collections::HashMap;
use crate::strutil::{hex_upper, push_char, push_hex_upper, push_str};
use crate::taghash::{TagHash, spec_pkg_id};
use crate::version::{DestinyVersion, GameVersion};

verus! {

broadcast use vstd::std_specs::hash::group_hash_axioms;

/// The main panels of the inspector.
#[derive(Clone, Copy, Debug, PartialEq, Eq, Structural)]
pub enum Panel {
    Tag,
    NamedTags,
    Packages,
    Textures,
    Audio,
    Strings,
    ExternalFile,
}

/// The string lists the strings panel can show.
#[derive(Clone, Copy, Debug, PartialEq, Eq, Structural)]
pub enum StringsPanel {
    Localized,
    Raw,
    Hashes,
}

/// What a string view lists.
#[derive(Clone, Copy, Debug, PartialEq, Eq, Structural)]
pub enum StringViewVariant {
    LocalizedStrings,
    RawWordlist,
}

/// Dimensionality of a texture.
#[derive(Clone, Copy, Debug, PartialEq, Eq, Structural)]
pub enum TextureType {
    Texture2D,
    Texture3D,
    TextureCube,
}

/// Sort order of the texture list.
#[derive(Clone, Copy, Debug, PartialEq, Eq, Structural)]
pub enum Sorting {
    IndexAsc,
    IndexDesc,
    SizeAsc,
    SizeDesc,
}

impl Sorting {
    pub fn is_descending(&self) -> (r: bool)
        ensures
            r == (*self is IndexDesc || *self is SizeDesc),
    {
        matches!(self, Sorting::IndexDesc | Sorting::SizeDesc)
    }

    /// The label of the sort order, with an arrow for its direction.
    pub fn to_string(&self) -> (r: String)
        ensures
            r@ == (match *self {
                Sorting::IndexAsc => "Index \u{2B06}"@,
                Sorting::IndexDesc => "Index \u{2B07}"@,
                Sorting::SizeAsc => "Size \u{2B06}"@,
                Sorting::SizeDesc => "Size \u{2B07}"@,
            }),
    {
        let mut s = String::new();
        match self {
            Sorting::IndexAsc => push_str(&mut s, "Index \u{2B06}"),
            Sorting::IndexDesc => push_str(&mut s, "Index \u{2B07}"),
            Sorting::SizeAsc => push_str(&mut s, "Size \u{2B06}"),
            Sorting::SizeDesc => push_str(&mut s, "Size \u{2B07}"),
        }
        s
    }
}

impl Default for Sorting {
    fn default() -> (r: Sorting)
        ensures
            r == Sorting::IndexAsc,
    {
        Sorting::IndexAsc
    }
}

/// Sort order of the audio list.
#[derive(Clone, Copy, Debug, PartialEq, Eq, Structural)]
pub enum AudioSorting {
    IndexAsc,
    IndexDesc,
    DurationAsc,
    DurationDesc,
}

impl AudioSorting {
    /// The label of the sort order, with an arrow for its direction.
    pub fn to_string(&self) -> (r: String)
        ensures
            r@ == (match *self {
                AudioSorting::IndexAsc => "Index \u{2B06}"@,
                AudioSorting::IndexDesc => "Index \u{2B07}"@,
                AudioSorting::DurationAsc => "Duration \u{2B06}"@,
                AudioSorting::DurationDesc => "Duration \u{2B07}"@,
            }),
    {
        let mut s = String::new();
        match self {
            AudioSorting::IndexAsc => push_str(&mut s, "Index \u{2B06}"),
            AudioSorting::IndexDesc => push_str(&mut s, "Index \u{2B07}"),
            AudioSorting::DurationAsc => push_str(&mut s, "Duration \u{2B06}"),
            AudioSorting::DurationDesc => push_str(&mut s, "Duration \u{2B07}"),
        }
        s
    }
}

impl Default for AudioSorting {
    fn default() -> (r: AudioSorting)
        ensures
            r == AudioSorting::IndexAsc,
    {
        AudioSorting::IndexAsc
    }
}

/// Type and subtype of Wwise streams in a Destiny release.
pub open spec fn spec_wwise_stream_type(v: DestinyVersion) -> (u8, u8) {
    match v {
        DestinyVersion::DestinyInternalAlpha => (2, 16),
        DestinyVersion::DestinyFirstLookAlpha
        | DestinyVersion::DestinyTheTakenKing
        | DestinyVersion::DestinyRiseOfIron => (8, 21),
        DestinyVersion::Destiny2Beta
        | DestinyVersion::Destiny2Forsaken
        | DestinyVersion::Destiny2Shadowkeep => (26, 6),
        _ => (26, 7),
    }
}

/// Type and subtype of Wwise banks in a Destiny release.
pub open spec fn spec_wwise_bank_type(v: DestinyVersion) -> (u8, u8) {
    match v {
        DestinyVersion::DestinyInternalAlpha => (0, 15),
        DestinyVersion::DestinyFirstLookAlpha
        | DestinyVersion::DestinyTheTakenKing
        | DestinyVersion::DestinyRiseOfIron => (0, 20),
        DestinyVersion::Destiny2Beta
        | DestinyVersion::Destiny2Forsaken
        | DestinyVersion::Destiny2Shadowkeep => (26, 5),
        _ => (26, 6),
    }
}

/// Type and subtype of Wwise streams; only Destiny releases have them.
pub fn wwise_stream_type(version: GameVersion) -> (r: Option<(u8, u8)>)
    ensures
        r == (match version {
            GameVersion::Destiny(v) => Some(spec_wwise_stream_type(v)),
            _ => None,
        }),
{
    match version {
        GameVersion::Destiny(v) => Some(
            match v {
                DestinyVersion::DestinyInternalAlpha => (2, 16),
                DestinyVersion::DestinyFirstLookAlpha
                | DestinyVersion::DestinyTheTakenKing
                | DestinyVersion::DestinyRiseOfIron => (8, 21),
                DestinyVersion::Destiny2Beta
                | DestinyVersion::Destiny2Forsaken
                | DestinyVersion::Destiny2Shadowkeep => (26, 6),
                _ => (26, 7),
            },
        ),
        _ => None,
    }
}

/// Type and subtype of Wwise banks; only Destiny releases have them.
pub fn wwise_bank_type(version: GameVersion) -> (r: Option<(u8, u8)>)
    ensures
        r == (match version {
            GameVersion::Destiny(v) => Some(spec_wwise_bank_type(v)),
            _ => None,
        }),
{
    match version {
        GameVersion::Destiny(v) => Some(
            match v {
                DestinyVersion::DestinyInternalAlpha => (0, 15),
                DestinyVersion::DestinyFirstLookAlpha
                | DestinyVersion::DestinyTheTakenKing
                | DestinyVersion::DestinyRiseOfIron => (0, 20),
                DestinyVersion::Destiny2Beta
                | DestinyVersion::Destiny2Forsaken
                | DestinyVersion::Destiny2Shadowkeep => (26, 5),
                _ => (26, 6),
            },
        ),
        _ => None,
    }
}

/// Whether any of `tags` belongs to package `id`.
pub open spec fn any_in_package(tags: Seq<TagHash>, id: u16) -> bool {
    exists|i: int| 0 <= i < tags.len() && spec_pkg_id(#[trigger] tags[i].0) == id
}

fn any_tag_in_package(tags: &[TagHash], id: u16) -> (r: bool)
    ensures
        r == any_in_package(tags@, id),
{
    let mut i: usize = 0;
    while i < tags.len()
        invariant
            i <= tags@.len(),
            forall|j: int| 0 <= j < i ==> spec_pkg_id(#[trigger] tags@[j].0) != id,
        decreases tags@.len() - i,
    {
        if tags[i].pkg_id() == id {
            return true;
        }
        i += 1;
    }
    false
}

/// Which kinds of audio a package holds.
#[derive(Clone, Copy, Debug, PartialEq, Eq, Structural)]
pub struct PackageAudioTypes {
    pub streams: bool,
    pub events: bool,
}

impl PackageAudioTypes {
    /// Whether package `id` holds audio events (among `event_tags`, the tags of the event
    /// class) and audio streams (among `stream_tags`, the tags of the stream type).
    pub fn by_pkg_id(id: u16, event_tags: &[TagHash], stream_tags: &[TagHash]) -> (r: PackageAudioTypes)
        ensures
            r.events == any_in_package(event_tags@, id),
            r.streams == any_in_package(stream_tags@, id),
    {
        PackageAudioTypes {
            events: any_tag_in_package(event_tags, id),
            streams: any_tag_in_package(stream_tags, id),
        }
    }
}

/// The first raw string known for `hash`, when a lookup table is loaded and lists one.
pub fn get_string_for_hash(lookup: Option<&HashMap<u32, Vec<(String, bool)>>>, hash: u32) -> (r: Option<String>)
    ensures
        r is Some <==> (lookup matches Some(m) && m@.contains_key(hash) && m@[hash]@.len() > 0),
        r matches Some(s) ==> (lookup matches Some(m) && s == m@[hash]@[0].0),
{
    let m = match lookup {
        Some(m) => m,
        None => return None,
    };
    match m.get(&hash) {
        Some(v) => {
            if v.len() > 0 {
                Some(v[0].0.clone())
            } else {
                None
            }
        },
        None => None,
    }
}

/// A 32-bit FNV-1 hash of a name.
#[derive(Clone, Copy, Debug, PartialEq, Eq, Structural)]
pub struct FnvHash(pub u32);

impl FnvHash {
    /// Debug text: `fnv(` and the hash in eight upper-case hexadecimal digits, then `)`.
    pub fn to_string(&self) -> (r: String)
        ensures
            r@ == "fnv("@ + hex_upper(self.0 as nat, 8) + seq![')'],
    {
        let mut s = String::new();
        push_str(&mut s, "fnv(");
        push_hex_upper(&mut s, self.0 as u64, 8);
        push_char(&mut s, ')');
        s
    }
}

} // verus!
