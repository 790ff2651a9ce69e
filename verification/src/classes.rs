use vstd::prelude::*;
use crate::bytes::{endian_value, read_u16_at, read_u32_at, Endian};
use crate::strutil::{hex_digit_upper, hex_upper, push_char, push_hex_upper, push_str};

verus! {

/// How the value of a class is shown when its size is known.
#[derive(Clone, Copy, Debug, PartialEq, Eq, Structural)]
pub enum PrettyParser {
    /// Space-separated upper-case hex bytes.
    Hex,
    /// `0x` and the hex value of a `u8` read in the data's byte order.
    RawHexU8,
    /// `0x` and the hex value of a `u16` read in the data's byte order.
    RawHexU16,
    /// `0x` and the hex value of a `u32` read in the data's byte order.
    RawHexU32,
    /// `tag(XXXXXXXX)`.
    TagHash,
    /// A single 32-bit float.
    RawF32,
    /// Four 32-bit floats.
    Vec4,
    /// A pair of an FNV hash and a tag hash, debug-printed.
    FnvAndTag,
}

/// A structure class known by its 32-bit class id.
pub struct TagClass {
    pub id: u32,
    pub name: String,
    /// Size in bytes of one element, when known.
    pub size: Option<usize>,
    pub pretty_parser: Option<PrettyParser>,
    /// Should arrays of this class be skipped while scanning for tag references?
    /// Useful for eliminating false positives in byte/vec4 blobs.
    pub block_tags: bool,
}

impl TagClass {
    pub fn has_pretty_formatter(&self) -> (r: bool)
        ensures
            r == (self.pretty_parser is Some && self.size is Some),
    {
        self.pretty_parser.is_some() && self.size.is_some()
    }

    /// Byte size of an array of `array_length` elements of this class, when the class size is known.
    pub fn array_size(&self, array_length: usize) -> (r: Option<usize>)
        requires
            self.size matches Some(s) ==> s * array_length <= usize::MAX,
        ensures
            r == (match self.size {
                Some(s) => Some((s * array_length) as usize),
                None => None,
            }),
    {
        match self.size {
            Some(s) => Some(s * array_length),
            None => None,
        }
    }
}

/// The last class in `classes` with the given id (later definitions replace earlier ones).
pub open spec fn find_class_index(classes: Seq<TagClass>, id: u32) -> Option<int>
    decreases classes.len(),
{
    if classes.len() == 0 {
        None
    } else if classes.last().id == id {
        Some(classes.len() - 1)
    } else {
        find_class_index(classes.drop_last(), id)
    }
}

pub proof fn lemma_find_class_index(classes: Seq<TagClass>, id: u32)
    ensures
        find_class_index(classes, id) matches Some(i) ==> 0 <= i < classes.len() && classes[i].id
            == id && forall|j: int| i < j < classes.len() ==> classes[j].id != id,
        find_class_index(classes, id) is None ==> forall|j: int|
            0 <= j < classes.len() ==> classes[j].id != id,
    decreases classes.len(),
{
    if classes.len() > 0 {
        lemma_find_class_index(classes.drop_last(), id);
        assert(forall|j: int| 0 <= j < classes.len() - 1 ==> classes.drop_last()[j] == classes[j]);
    }
}

/// Known classes: the built-in table of the game version, then the user's schema file.
pub struct ClassRegistry {
    pub classes: Vec<TagClass>,
    pub from_file: Vec<TagClass>,
}

/// The class found for `id`: the built-in table first, then the schema file.
pub open spec fn spec_class_lookup(reg: ClassRegistry, id: u32) -> Option<TagClass> {
    match find_class_index(reg.classes@, id) {
        Some(i) => Some(reg.classes@[i]),
        None => match find_class_index(reg.from_file@, id) {
            Some(i) => Some(reg.from_file@[i]),
            None => None,
        },
    }
}

fn find_in(classes: &Vec<TagClass>, id: u32) -> (r: Option<usize>)
    ensures
        match find_class_index(classes@, id) {
            Some(i) => r == Some(i as usize),
            None => r is None,
        },
        r matches Some(i) ==> i < classes@.len() && find_class_index(classes@, id) == Some(
            i as int,
        ),
        r is None ==> find_class_index(classes@, id) is None,
{
    proof {
        lemma_find_class_index(classes@, id);
    }
    let mut i = classes.len();
    assert(classes@.take(i as int) == classes@);
    while i > 0
        invariant
            i <= classes@.len(),
            find_class_index(classes@, id) == find_class_index(classes@.take(i as int), id),
        decreases i,
    {
        let ghost t = classes@.take(i as int);
        assert(t.drop_last() == classes@.take(i - 1));
        if classes[i - 1].id == id {
            return Some(i - 1);
        }
        i = i - 1;
    }
    None
}

impl ClassRegistry {
    pub fn new(classes: Vec<TagClass>, from_file: Vec<TagClass>) -> (r: ClassRegistry)
        ensures
            r.classes == classes,
            r.from_file == from_file,
    {
        ClassRegistry { classes, from_file }
    }

    /// Looks a class up by id.
    pub fn get_class_by_id(&self, id: u32) -> (r: Option<&TagClass>)
        ensures
            r is Some <==> spec_class_lookup(*self, id) is Some,
            r matches Some(c) ==> *c == spec_class_lookup(*self, id)->0,
    {
        proof {
            assert(self.classes@.take(self.classes@.len() as int) == self.classes@);
            assert(self.from_file@.take(self.from_file@.len() as int) == self.from_file@);
        }
        match find_in(&self.classes, id) {
            Some(i) => {
                Some(&self.classes[i])
            },
            None => match find_in(&self.from_file, id) {
                Some(i) => Some(&self.from_file[i]),
                None => None,
            },
        }
    }
}

/// The value of class data as a formatter shows it: text, or the bits of 32-bit floats and the
/// two words of an FNV hash and tag pair, which the caller writes out.
pub enum PrettyValue {
    Text(String),
    F32(u32),
    Vec4(u32, u32, u32, u32),
    FnvAndTag(u32, u32),
}

/// Each byte as two upper-case hex digits and a space.
pub open spec fn hex_bytes_text(data: Seq<u8>) -> Seq<char>
    decreases data.len(),
{
    if data.len() == 0 {
        seq![]
    } else {
        hex_bytes_text(data.drop_last()) + seq![
            hex_digit_upper((data.last() / 16) as nat),
            hex_digit_upper((data.last() % 16) as nat),
            ' ',
        ]
    }
}

/// The value of the first `n` bytes in the data's byte order.
pub open spec fn value_of(endian: Endian, data: Seq<u8>, n: int) -> nat {
    endian_value(endian, data.subrange(0, n))
}

/// Whether a formatter can read the data: the integer and float formatters need their value's
/// bytes (the tag formatter exactly four, the float vector sixteen).
pub open spec fn parser_reads(p: PrettyParser, len: nat) -> bool {
    match p {
        PrettyParser::Hex => true,
        PrettyParser::RawHexU8 => len >= 1,
        PrettyParser::RawHexU16 => len >= 2,
        PrettyParser::RawHexU32 => len >= 4,
        PrettyParser::TagHash => len == 4,
        PrettyParser::RawF32 => len >= 4,
        PrettyParser::Vec4 => len >= 16,
        PrettyParser::FnvAndTag => len >= 8,
    }
}

/// What a formatter shows for data (as plain values: the text, or the words of floats and
/// pairs, with no text).
pub open spec fn pretty_text(p: PrettyParser, data: Seq<u8>, endian: Endian) -> Seq<char> {
    match p {
        PrettyParser::Hex => hex_bytes_text(data),
        PrettyParser::RawHexU8 => "0x"@ + hex_upper(value_of(endian, data, 1), 1),
        PrettyParser::RawHexU16 => "0x"@ + hex_upper(value_of(endian, data, 2), 1),
        PrettyParser::RawHexU32 => "0x"@ + hex_upper(value_of(endian, data, 4), 1),
        PrettyParser::TagHash => "tag("@ + hex_upper(value_of(endian, data, 4), 8) + seq![')'],
        _ => seq![],
    }
}

/// The words of the float and pair formatters: a pair read little-endian is its two words in
/// order; read big-endian, the eight bytes are reversed as a whole, which also swaps the words.
pub open spec fn pretty_words(p: PrettyParser, data: Seq<u8>, endian: Endian) -> Seq<nat> {
    match p {
        PrettyParser::RawF32 => seq![value_of(endian, data, 4)],
        PrettyParser::Vec4 => seq![
            endian_value(endian, data.subrange(0, 4)),
            endian_value(endian, data.subrange(4, 8)),
            endian_value(endian, data.subrange(8, 12)),
            endian_value(endian, data.subrange(12, 16)),
        ],
        PrettyParser::FnvAndTag => match endian {
            Endian::Little => seq![endian_value(endian, data.subrange(0, 4)), endian_value(endian, data.subrange(4, 8))],
            Endian::Big => seq![endian_value(endian, data.subrange(4, 8)), endian_value(endian, data.subrange(0, 4))],
        },
        _ => seq![],
    }
}

/// A shown value as plain values: its text and its words.
pub open spec fn pretty_value_view(v: PrettyValue) -> (Seq<char>, Seq<nat>) {
    match v {
        PrettyValue::Text(s) => (s@, seq![]),
        PrettyValue::F32(a) => (seq![], seq![a as nat]),
        PrettyValue::Vec4(a, b, c, d) => (seq![], seq![a as nat, b as nat, c as nat, d as nat]),
        PrettyValue::FnvAndTag(a, b) => (seq![], seq![a as nat, b as nat]),
    }
}

fn hex_digit(d: u8) -> (c: char)
    requires
        d < 16,
    ensures
        c == hex_digit_upper(d as nat),
{
    if d < 10 {
        (48u8 + d) as char
    } else {
        (55u8 + d) as char
    }
}

fn read_u8_value(data: &[u8], endian: Endian) -> (r: u8)
    requires
        data.len() >= 1,
    ensures
        r as nat == value_of(endian, data@, 1),
{
    proof {
        let s = data@.subrange(0, 1);
        reveal_with_fuel(crate::bytes::le_value, 2);
        reveal_with_fuel(crate::bytes::be_value, 2);
        assert(s.drop_first() =~= Seq::<u8>::empty());
        assert(s.drop_last() =~= Seq::<u8>::empty());
    }
    data[0]
}

impl TagClass {
    /// Shows class data with the class's formatter: `None` when the class has none, or when
    /// its size is known and the data has another length.
    pub fn parse_and_format(&self, data: &[u8], endian: Endian) -> (r: Option<PrettyValue>)
        requires
            self.pretty_parser is Some && (self.size is None || self.size == Some(data.len())) ==> parser_reads(
                self.pretty_parser->0,
                data@.len(),
            ),
        ensures
            r is Some <==> (self.pretty_parser is Some && (self.size is None || self.size == Some(data.len()))),
            r matches Some(v) ==> pretty_value_view(v) == (
                pretty_text(self.pretty_parser->0, data@, endian),
                pretty_words(self.pretty_parser->0, data@, endian),
            ),
    {
        match self.size {
            Some(n) => {
                if n != data.len() {
                    return None;
                }
            },
            None => {},
        }
        let p = match self.pretty_parser {
            Some(p) => p,
            None => return None,
        };
        let v = match p {
            PrettyParser::Hex => {
                let mut s = String::new();
                let mut i: usize = 0;
                while i < data.len()
                    invariant
                        i <= data@.len(),
                        s@ == hex_bytes_text(data@.take(i as int)),
                    decreases data@.len() - i,
                {
                    let b = data[i];
                    push_char(&mut s, hex_digit(b / 16));
                    push_char(&mut s, hex_digit(b % 16));
                    push_char(&mut s, ' ');
                    assert(data@.take(i + 1).drop_last() =~= data@.take(i as int));
                    assert(s@ =~= hex_bytes_text(data@.take(i + 1)));
                    i += 1;
                }
                assert(data@.take(i as int) =~= data@);
                PrettyValue::Text(s)
            },
            PrettyParser::RawHexU8 => {
                let v = read_u8_value(data, endian);
                let mut s = String::new();
                push_str(&mut s, "0x");
                push_hex_upper(&mut s, v as u64, 1);
                PrettyValue::Text(s)
            },
            PrettyParser::RawHexU16 => {
                let v = read_u16_at(data, 0, endian);
                let mut s = String::new();
                push_str(&mut s, "0x");
                push_hex_upper(&mut s, v as u64, 1);
                PrettyValue::Text(s)
            },
            PrettyParser::RawHexU32 => {
                let v = read_u32_at(data, 0, endian);
                let mut s = String::new();
                push_str(&mut s, "0x");
                push_hex_upper(&mut s, v as u64, 1);
                PrettyValue::Text(s)
            },
            PrettyParser::TagHash => {
                let v = read_u32_at(data, 0, endian);
                let mut s = String::new();
                push_str(&mut s, "tag(");
                push_hex_upper(&mut s, v as u64, 8);
                push_char(&mut s, ')');
                PrettyValue::Text(s)
            },
            PrettyParser::RawF32 => PrettyValue::F32(read_u32_at(data, 0, endian)),
            PrettyParser::Vec4 => PrettyValue::Vec4(
                read_u32_at(data, 0, endian),
                read_u32_at(data, 4, endian),
                read_u32_at(data, 8, endian),
                read_u32_at(data, 12, endian),
            ),
            PrettyParser::FnvAndTag => {
                let a = read_u32_at(data, 0, endian);
                let b = read_u32_at(data, 4, endian);
                match endian {
                    Endian::Little => PrettyValue::FnvAndTag(a, b),
                    Endian::Big => PrettyValue::FnvAndTag(b, a),
                }
            },
        };
        assert(pretty_value_view(v).0 =~= pretty_text(p, data@, endian));
        assert(pretty_value_view(v).1 =~= pretty_words(p, data@, endian));
        Some(v)
    }
}

} // verus!
