//! Classification of package entries by their type and subtype bytes.
use vstd::prelude::*;
use crate::strutil::{decimal, push_char, push_decimal, push_str};
use crate::version::{DestinyVersion, GameVersion};

verus! {

/// What a package entry holds, as its type and subtype bytes say.
#[derive(Clone, Copy, Debug, PartialEq, Eq, Structural)]
pub enum TagType {
    TextureOld,
    Texture2D { is_header: bool },
    TextureCube { is_header: bool },
    Texture3D { is_header: bool },
    TextureSampler { is_header: bool },
    TextureLargeBuffer,
    VertexBuffer { is_header: bool },
    IndexBuffer { is_header: bool },
    ConstantBuffer { is_header: bool },
    PixelShader { is_header: bool },
    VertexShader { is_header: bool },
    GeometryShader { is_header: bool },
    ComputeShader { is_header: bool },
    WwiseBank,
    WwiseStream,
    Havok,
    OtfFontOrUmbraTome,
    CriwareUsm,
    Tag,
    TagGlobal,
    Unknown { ftype: u8, fsubtype: u8 },
}

/// The colour a tag type is listed in.
#[derive(Clone, Copy, Debug, PartialEq, Eq, Structural)]
pub enum TagColor {
    Green,
    LightBlue,
    Rgb(u8, u8, u8),
    Yellow,
    White,
    Gray,
    LightRed,
}

pub open spec fn spec_is_texture(t: TagType) -> bool {
    t is TextureOld || t is Texture2D || t is TextureCube || t is Texture3D
}

pub open spec fn spec_is_header(t: TagType) -> bool {
    match t {
        TagType::Texture2D { is_header }
        | TagType::TextureCube { is_header }
        | TagType::Texture3D { is_header }
        | TagType::TextureSampler { is_header }
        | TagType::VertexBuffer { is_header }
        | TagType::IndexBuffer { is_header }
        | TagType::ConstantBuffer { is_header }
        | TagType::PixelShader { is_header }
        | TagType::VertexShader { is_header }
        | TagType::ComputeShader { is_header } => is_header,
        _ => false,
    }
}

pub open spec fn spec_display_color(t: TagType) -> TagColor {
    match t {
        TagType::TextureOld
        | TagType::Texture2D { .. }
        | TagType::TextureCube { .. }
        | TagType::Texture3D { .. }
        | TagType::TextureSampler { .. }
        | TagType::TextureLargeBuffer => TagColor::Green,
        TagType::VertexBuffer { .. }
        | TagType::IndexBuffer { .. }
        | TagType::ConstantBuffer { .. } => TagColor::LightBlue,
        TagType::PixelShader { .. }
        | TagType::VertexShader { .. }
        | TagType::GeometryShader { .. }
        | TagType::ComputeShader { .. } => TagColor::Rgb(249, 168, 71),
        TagType::WwiseBank | TagType::WwiseStream => TagColor::Rgb(191, 106, 247),
        TagType::Havok | TagType::OtfFontOrUmbraTome | TagType::CriwareUsm => TagColor::Yellow,
        TagType::TagGlobal => TagColor::White,
        TagType::Tag => TagColor::Gray,
        TagType::Unknown { .. } => TagColor::LightRed,
    }
}

/// The filterable tag types, in the order a filter list shows them.
pub open spec fn filterable_types() -> Seq<TagType> {
    seq![
        TagType::Texture2D { is_header: true },
        TagType::TextureCube { is_header: true },
        TagType::Texture3D { is_header: true },
        TagType::TextureSampler { is_header: true },
        TagType::TextureLargeBuffer,
        TagType::VertexBuffer { is_header: true },
        TagType::IndexBuffer { is_header: true },
        TagType::ConstantBuffer { is_header: true },
        TagType::PixelShader { is_header: true },
        TagType::VertexShader { is_header: true },
        TagType::GeometryShader { is_header: true },
        TagType::ComputeShader { is_header: true },
        TagType::WwiseBank,
        TagType::WwiseStream,
        TagType::Havok,
        TagType::OtfFontOrUmbraTome,
        TagType::CriwareUsm,
        TagType::Tag,
        TagType::TagGlobal,
    ]
}

/// A type name followed by ` (Data)` when the entry is not the header part.
pub open spec fn with_data_suffix(name: Seq<char>, is_header: bool) -> Seq<char> {
    if is_header {
        name
    } else {
        name + " (Data)"@
    }
}

/// The name a tag type is shown under.
pub open spec fn tag_type_name(t: TagType) -> Seq<char> {
    match t {
        TagType::TextureOld => "Texture (D1)"@,
        TagType::Texture2D { is_header } => with_data_suffix("Texture2D"@, is_header),
        TagType::TextureCube { is_header } => with_data_suffix("TextureCube"@, is_header),
        TagType::Texture3D { is_header } => with_data_suffix("Texture3D"@, is_header),
        TagType::TextureLargeBuffer => "TextureLargeBuffer"@,
        TagType::TextureSampler { is_header } => with_data_suffix("TextureSampler"@, is_header),
        TagType::VertexBuffer { is_header } => with_data_suffix("VertexBuffer"@, is_header),
        TagType::IndexBuffer { is_header } => with_data_suffix("IndexBuffer"@, is_header),
        TagType::ConstantBuffer { is_header } => with_data_suffix("ConstantBuffer"@, is_header),
        TagType::PixelShader { is_header } => with_data_suffix("PixelShader"@, is_header),
        TagType::VertexShader { is_header } => with_data_suffix("VertexShader"@, is_header),
        TagType::GeometryShader { is_header } => with_data_suffix("GeometryShader"@, is_header),
        TagType::ComputeShader { is_header } => with_data_suffix("ComputeShader"@, is_header),
        TagType::Tag => "Tag"@,
        TagType::TagGlobal => "TagGlobal"@,
        TagType::WwiseBank => "WwiseBank"@,
        TagType::WwiseStream => "WwiseStream"@,
        TagType::Havok => "Havok"@,
        TagType::OtfFontOrUmbraTome => "OTF Font / Umbra Tome"@,
        TagType::CriwareUsm => "CriwareUsm"@,
        TagType::Unknown { ftype, fsubtype } => "Unk"@ + decimal(ftype as nat) + seq!['+'] + decimal(
            fsubtype as nat,
        ),
    }
}

/// Classification used by pre-release Destiny packages.
pub open spec fn type_devalpha(t: u8, st: u8) -> TagType {
    let is_header = t == 32;
    if t == 0 && st == 0 {
        TagType::Tag
    } else if t == 16 && st == 0 {
        TagType::Tag
    } else if t == 128 && st == 0 {
        TagType::TagGlobal
    } else if t == 0 && st == 15 {
        TagType::WwiseBank
    } else if t == 2 && st == 16 {
        TagType::WwiseStream
    } else if t == 32 || t == 64 || t == 1 {
        d1_render_type(t, st, is_header)
    } else {
        TagType::Unknown { ftype: t, fsubtype: st }
    }
}

/// Render resource subtypes of Destiny 1 era packages.
pub open spec fn d1_render_type(t: u8, st: u8, is_header: bool) -> TagType {
    if st == 1 {
        TagType::Texture2D { is_header }
    } else if st == 2 {
        TagType::TextureCube { is_header }
    } else if st == 3 {
        TagType::Texture3D { is_header }
    } else if st == 4 {
        TagType::VertexBuffer { is_header }
    } else if st == 6 {
        TagType::IndexBuffer { is_header }
    } else if st == 8 {
        TagType::PixelShader { is_header }
    } else if st == 9 {
        TagType::VertexShader { is_header }
    } else {
        TagType::Unknown { ftype: t, fsubtype: st }
    }
}

/// Classification used by Destiny 1 packages.
pub open spec fn type_d1(t: u8, st: u8) -> TagType {
    if t == 0 && st == 20 {
        TagType::WwiseBank
    } else if t == 8 && st == 21 {
        TagType::WwiseStream
    } else if t == 16 && st == 0 {
        TagType::Tag
    } else if t == 32 || t == 1 {
        d1_render_type(t, st, t == 32)
    } else if t == 128 && st == 0 {
        TagType::TagGlobal
    } else {
        TagType::Unknown { ftype: t, fsubtype: st }
    }
}

/// Render resource subtypes of Destiny 2 packages (types 32 to 34 are headers, 40 to 42 data).
pub open spec fn d2_render_type(t: u8, st: u8) -> Option<TagType> {
    let is_header = 32 <= t <= 34;
    if t == 32 || t == 40 {
        Some(
            if st == 1 {
                TagType::Texture2D { is_header }
            } else if st == 2 {
                TagType::TextureCube { is_header }
            } else if st == 3 {
                TagType::Texture3D { is_header }
            } else if st == 4 {
                TagType::VertexBuffer { is_header }
            } else if st == 6 {
                TagType::IndexBuffer { is_header }
            } else if st == 7 {
                TagType::ConstantBuffer { is_header }
            } else {
                TagType::Unknown { ftype: t, fsubtype: st }
            },
        )
    } else if t == 33 || t == 41 {
        Some(
            if st == 0 {
                TagType::PixelShader { is_header }
            } else if st == 1 {
                TagType::VertexShader { is_header }
            } else if st == 2 {
                TagType::GeometryShader { is_header }
            } else if st == 6 {
                TagType::ComputeShader { is_header }
            } else {
                TagType::Unknown { ftype: t, fsubtype: st }
            },
        )
    } else if t == 34 || t == 42 {
        Some(
            if st == 1 {
                TagType::TextureSampler { is_header }
            } else {
                TagType::Unknown { ftype: t, fsubtype: st }
            },
        )
    } else {
        None
    }
}

/// Classification used by Destiny 2 packages up to Shadowkeep.
pub open spec fn type_sk(t: u8, st: u8) -> TagType {
    if t == 8 && st == 0 {
        TagType::Tag
    } else if t == 16 && st == 0 {
        TagType::TagGlobal
    } else if t == 26 && st == 5 {
        TagType::WwiseBank
    } else if t == 26 && st == 6 {
        TagType::WwiseStream
    } else if t == 26 && st == 7 {
        TagType::Havok
    } else if t == 27 && st == 0 {
        TagType::CriwareUsm
    } else if d2_render_type(t, st) is Some {
        d2_render_type(t, st)->0
    } else {
        TagType::Unknown { ftype: t, fsubtype: st }
    }
}

/// Classification used by Destiny 2 packages from Beyond Light on.
pub open spec fn type_lf(t: u8, st: u8) -> TagType {
    if t == 8 && st == 0 {
        TagType::Tag
    } else if t == 16 && st == 0 {
        TagType::TagGlobal
    } else if t == 24 && st == 0 {
        TagType::OtfFontOrUmbraTome
    } else if t == 26 && st == 6 {
        TagType::WwiseBank
    } else if t == 26 && st == 7 {
        TagType::WwiseStream
    } else if t == 27 && st == 0 {
        TagType::Havok
    } else if t == 27 && st == 1 {
        TagType::CriwareUsm
    } else if d2_render_type(t, st) is Some {
        d2_render_type(t, st)->0
    } else if t == 48 && st == 1 {
        TagType::TextureLargeBuffer
    } else {
        TagType::Unknown { ftype: t, fsubtype: st }
    }
}

/// Classification a game version uses.
pub open spec fn type_for_version(version: GameVersion, t: u8, st: u8) -> TagType {
    match version {
        GameVersion::Destiny(DestinyVersion::DestinyInternalAlpha) => type_devalpha(t, st),
        GameVersion::Destiny(DestinyVersion::DestinyFirstLookAlpha)
        | GameVersion::Destiny(DestinyVersion::DestinyTheTakenKing)
        | GameVersion::Destiny(DestinyVersion::DestinyRiseOfIron) => type_d1(t, st),
        GameVersion::Destiny(DestinyVersion::Destiny2Beta)
        | GameVersion::Destiny(DestinyVersion::Destiny2Forsaken)
        | GameVersion::Destiny(DestinyVersion::Destiny2Shadowkeep) => type_sk(t, st),
        _ => type_lf(t, st),
    }
}

impl TagType {
    pub fn is_texture(&self) -> (r: bool)
        ensures
            r == spec_is_texture(*self),
    {
        matches!(
            self,
            TagType::TextureOld | TagType::Texture2D { .. } | TagType::TextureCube { .. }
                | TagType::Texture3D { .. }
        )
    }

    pub fn is_header(&self) -> (r: bool)
        ensures
            r == spec_is_header(*self),
    {
        match self {
            TagType::Texture2D { is_header }
            | TagType::TextureCube { is_header }
            | TagType::Texture3D { is_header }
            | TagType::TextureSampler { is_header }
            | TagType::VertexBuffer { is_header }
            | TagType::IndexBuffer { is_header }
            | TagType::ConstantBuffer { is_header }
            | TagType::PixelShader { is_header }
            | TagType::VertexShader { is_header }
            | TagType::ComputeShader { is_header } => *is_header,
            _ => false,
        }
    }

    pub fn is_tag(&self) -> (r: bool)
        ensures
            r == (*self is Tag || *self is TagGlobal),
    {
        matches!(self, TagType::Tag | TagType::TagGlobal)
    }

    pub fn is_wwise(&self) -> (r: bool)
        ensures
            r == (*self is WwiseBank || *self is WwiseStream),
    {
        matches!(self, TagType::WwiseBank | TagType::WwiseStream)
    }

    pub fn display_color(&self) -> (r: TagColor)
        ensures
            r == spec_display_color(*self),
    {
        match self {
            TagType::TextureOld
            | TagType::Texture2D { .. }
            | TagType::TextureCube { .. }
            | TagType::Texture3D { .. }
            | TagType::TextureSampler { .. }
            | TagType::TextureLargeBuffer => TagColor::Green,
            TagType::VertexBuffer { .. }
            | TagType::IndexBuffer { .. }
            | TagType::ConstantBuffer { .. } => TagColor::LightBlue,
            TagType::PixelShader { .. }
            | TagType::VertexShader { .. }
            | TagType::GeometryShader { .. }
            | TagType::ComputeShader { .. } => TagColor::Rgb(249, 168, 71),
            TagType::WwiseBank | TagType::WwiseStream => TagColor::Rgb(191, 106, 247),
            TagType::Havok | TagType::OtfFontOrUmbraTome | TagType::CriwareUsm => TagColor::Yellow,
            TagType::TagGlobal => TagColor::White,
            TagType::Tag => TagColor::Gray,
            TagType::Unknown { .. } => TagColor::LightRed,
        }
    }

    pub fn all_filterable() -> (r: Vec<TagType>)
        ensures
            r@ == filterable_types(),
    {
        let r = vec![
            TagType::Texture2D { is_header: true },
            TagType::TextureCube { is_header: true },
            TagType::Texture3D { is_header: true },
            TagType::TextureSampler { is_header: true },
            TagType::TextureLargeBuffer,
            TagType::VertexBuffer { is_header: true },
            TagType::IndexBuffer { is_header: true },
            TagType::ConstantBuffer { is_header: true },
            TagType::PixelShader { is_header: true },
            TagType::VertexShader { is_header: true },
            TagType::GeometryShader { is_header: true },
            TagType::ComputeShader { is_header: true },
            TagType::WwiseBank,
            TagType::WwiseStream,
            TagType::Havok,
            TagType::OtfFontOrUmbraTome,
            TagType::CriwareUsm,
            TagType::Tag,
            TagType::TagGlobal,
        ];
        assert(r@ =~= filterable_types());
        r
    }

    /// The name this tag type is shown under.
    pub fn to_string(&self) -> (r: String)
        ensures
            r@ == tag_type_name(*self),
    {
        let mut s = String::new();
        let (name, header): (&str, Option<bool>) = match self {
            TagType::TextureOld => ("Texture (D1)", None),
            TagType::Texture2D { is_header } => ("Texture2D", Some(*is_header)),
            TagType::TextureCube { is_header } => ("TextureCube", Some(*is_header)),
            TagType::Texture3D { is_header } => ("Texture3D", Some(*is_header)),
            TagType::TextureLargeBuffer => ("TextureLargeBuffer", None),
            TagType::TextureSampler { is_header } => ("TextureSampler", Some(*is_header)),
            TagType::VertexBuffer { is_header } => ("VertexBuffer", Some(*is_header)),
            TagType::IndexBuffer { is_header } => ("IndexBuffer", Some(*is_header)),
            TagType::ConstantBuffer { is_header } => ("ConstantBuffer", Some(*is_header)),
            TagType::PixelShader { is_header } => ("PixelShader", Some(*is_header)),
            TagType::VertexShader { is_header } => ("VertexShader", Some(*is_header)),
            TagType::GeometryShader { is_header } => ("GeometryShader", Some(*is_header)),
            TagType::ComputeShader { is_header } => ("ComputeShader", Some(*is_header)),
            TagType::Tag => ("Tag", None),
            TagType::TagGlobal => ("TagGlobal", None),
            TagType::WwiseBank => ("WwiseBank", None),
            TagType::WwiseStream => ("WwiseStream", None),
            TagType::Havok => ("Havok", None),
            TagType::OtfFontOrUmbraTome => ("OTF Font / Umbra Tome", None),
            TagType::CriwareUsm => ("CriwareUsm", None),
            TagType::Unknown { ftype, fsubtype } => {
                push_str(&mut s, "Unk");
                push_decimal(&mut s, *ftype as u64);
                push_char(&mut s, '+');
                push_decimal(&mut s, *fsubtype as u64);
                assert(s@ == tag_type_name(*self));
                return s;
            },
        };
        push_str(&mut s, name);
        if header == Some(false) {
            push_str(&mut s, " (Data)");
        }
        assert(s@ == tag_type_name(*self));
        s
    }
}

impl TagType {
    pub fn from_type_subtype_devalpha(t: u8, st: u8) -> (r: TagType)
        ensures
            r == type_devalpha(t, st),
    {
        match (t, st) {
            (0, 0) => TagType::Tag,
            (16, 0) => TagType::Tag,
            (128, 0) => TagType::TagGlobal,
            (0, 15) => TagType::WwiseBank,
            (2, 16) => TagType::WwiseStream,
            (32 | 64 | 1, _) => {
                let is_header = t == 32;
                match st {
                    1 => TagType::Texture2D { is_header },
                    2 => TagType::TextureCube { is_header },
                    3 => TagType::Texture3D { is_header },
                    4 => TagType::VertexBuffer { is_header },
                    6 => TagType::IndexBuffer { is_header },
                    8 => TagType::PixelShader { is_header },
                    9 => TagType::VertexShader { is_header },
                    fsubtype => TagType::Unknown { ftype: t, fsubtype },
                }
            },
            (ftype, fsubtype) => TagType::Unknown { ftype, fsubtype },
        }
    }

    pub fn from_type_subtype_d1(t: u8, st: u8) -> (r: TagType)
        ensures
            r == type_d1(t, st),
    {
        match (t, st) {
            (0, 20) => TagType::WwiseBank,
            (8, 21) => TagType::WwiseStream,
            (16, 0) => TagType::Tag,
            (32 | 1, _) => {
                let is_header = t == 32;
                match st {
                    1 => TagType::Texture2D { is_header },
                    2 => TagType::TextureCube { is_header },
                    3 => TagType::Texture3D { is_header },
                    4 => TagType::VertexBuffer { is_header },
                    6 => TagType::IndexBuffer { is_header },
                    8 => TagType::PixelShader { is_header },
                    9 => TagType::VertexShader { is_header },
                    fsubtype => TagType::Unknown { ftype: t, fsubtype },
                }
            },
            (128, 0) => TagType::TagGlobal,
            (ftype, fsubtype) => TagType::Unknown { ftype, fsubtype },
        }
    }

    fn d2_render_type(t: u8, st: u8) -> (r: Option<TagType>)
        ensures
            r == d2_render_type(t, st),
    {
        let is_header = 32 <= t && t <= 34;
        match (t, st) {
            (32 | 40, _) => Some(
                match st {
                    1 => TagType::Texture2D { is_header },
                    2 => TagType::TextureCube { is_header },
                    3 => TagType::Texture3D { is_header },
                    4 => TagType::VertexBuffer { is_header },
                    6 => TagType::IndexBuffer { is_header },
                    7 => TagType::ConstantBuffer { is_header },
                    fsubtype => TagType::Unknown { ftype: t, fsubtype },
                },
            ),
            (33 | 41, _) => Some(
                match st {
                    0 => TagType::PixelShader { is_header },
                    1 => TagType::VertexShader { is_header },
                    2 => TagType::GeometryShader { is_header },
                    6 => TagType::ComputeShader { is_header },
                    fsubtype => TagType::Unknown { ftype: t, fsubtype },
                },
            ),
            (34 | 42, _) => Some(
                match st {
                    1 => TagType::TextureSampler { is_header },
                    fsubtype => TagType::Unknown { ftype: t, fsubtype },
                },
            ),
            _ => None,
        }
    }

    pub fn from_type_subtype_sk(t: u8, st: u8) -> (r: TagType)
        ensures
            r == type_sk(t, st),
    {
        match (t, st) {
            (8, 0) => TagType::Tag,
            (16, 0) => TagType::TagGlobal,
            (26, 5) => TagType::WwiseBank,
            (26, 6) => TagType::WwiseStream,
            (26, 7) => TagType::Havok,
            (27, 0) => TagType::CriwareUsm,
            (ftype, fsubtype) => match Self::d2_render_type(t, st) {
                Some(r) => r,
                None => TagType::Unknown { ftype, fsubtype },
            },
        }
    }

    pub fn from_type_subtype_lf(t: u8, st: u8) -> (r: TagType)
        ensures
            r == type_lf(t, st),
    {
        match (t, st) {
            (8, 0) => TagType::Tag,
            (16, 0) => TagType::TagGlobal,
            (24, 0) => TagType::OtfFontOrUmbraTome,
            (26, 6) => TagType::WwiseBank,
            (26, 7) => TagType::WwiseStream,
            (27, 0) => TagType::Havok,
            (27, 1) => TagType::CriwareUsm,
            (ftype, fsubtype) => match Self::d2_render_type(t, st) {
                Some(r) => r,
                None => if t == 48 && st == 1 {
                    TagType::TextureLargeBuffer
                } else {
                    TagType::Unknown { ftype, fsubtype }
                },
            },
        }
    }

    /// Classifies an entry by the rules of the given game version.
    pub fn from_type_subtype_for_version(version: GameVersion, t: u8, st: u8) -> (r: TagType)
        ensures
            r == type_for_version(version, t, st),
    {
        match version {
            GameVersion::Destiny(DestinyVersion::DestinyInternalAlpha) => Self::from_type_subtype_devalpha(t, st),
            GameVersion::Destiny(DestinyVersion::DestinyFirstLookAlpha)
            | GameVersion::Destiny(DestinyVersion::DestinyTheTakenKing)
            | GameVersion::Destiny(DestinyVersion::DestinyRiseOfIron) => Self::from_type_subtype_d1(t, st),
            GameVersion::Destiny(DestinyVersion::Destiny2Beta)
            | GameVersion::Destiny(DestinyVersion::Destiny2Forsaken)
            | GameVersion::Destiny(DestinyVersion::Destiny2Shadowkeep) => Self::from_type_subtype_sk(t, st),
            _ => Self::from_type_subtype_lf(t, st),
        }
    }
}

/// Broad kind of data a tag type holds.
#[derive(Clone, Copy, Debug, PartialEq, Eq, Structural)]
pub enum TagCategory {
    Structured,
    Texture,
    Geometry,
    Shader,
    /// Wwise
    Audio,
    /// Criware
    Video,
    /// OpenType, Umbra, Havok
    MiddlewareMisc,
    Unknown,
}

pub open spec fn category_of(t: TagType) -> TagCategory {
    match t {
        TagType::TextureOld
        | TagType::Texture2D { .. }
        | TagType::TextureCube { .. }
        | TagType::Texture3D { .. }
        | TagType::TextureSampler { .. }
        | TagType::TextureLargeBuffer => TagCategory::Texture,
        TagType::VertexBuffer { .. }
        | TagType::IndexBuffer { .. }
        | TagType::ConstantBuffer { .. } => TagCategory::Geometry,
        TagType::PixelShader { .. }
        | TagType::VertexShader { .. }
        | TagType::GeometryShader { .. }
        | TagType::ComputeShader { .. } => TagCategory::Shader,
        TagType::WwiseBank | TagType::WwiseStream => TagCategory::Audio,
        TagType::Havok | TagType::OtfFontOrUmbraTome => TagCategory::MiddlewareMisc,
        TagType::CriwareUsm => TagCategory::Video,
        TagType::Tag | TagType::TagGlobal => TagCategory::Structured,
        TagType::Unknown { .. } => TagCategory::Unknown,
    }
}

impl From<TagType> for TagCategory {
    fn from(value: TagType) -> (r: Self) {
        match value {
            TagType::TextureOld
            | TagType::Texture2D { .. }
            | TagType::TextureCube { .. }
            | TagType::Texture3D { .. }
            | TagType::TextureSampler { .. }
            | TagType::TextureLargeBuffer => Self::Texture,
            TagType::VertexBuffer { .. }
            | TagType::IndexBuffer { .. }
            | TagType::ConstantBuffer { .. } => Self::Geometry,
            TagType::PixelShader { .. }
            | TagType::VertexShader { .. }
            | TagType::GeometryShader { .. }
            | TagType::ComputeShader { .. } => Self::Shader,
            TagType::WwiseBank | TagType::WwiseStream => Self::Audio,
            TagType::Havok | TagType::OtfFontOrUmbraTome => Self::MiddlewareMisc,
            TagType::CriwareUsm => Self::Video,
            TagType::Tag | TagType::TagGlobal => Self::Structured,
            TagType::Unknown { .. } => Self::Unknown,
        }
    }
}

impl vstd::std_specs::convert::FromSpecImpl<TagType> for TagCategory {
    open spec fn obeys_from_spec() -> bool {
        true
    }

    open spec fn from_spec(v: TagType) -> TagCategory {
        category_of(v)
    }
}

/// The type and subtype bytes that name a tag type in the table of Beyond Light and later
/// releases.
pub open spec fn lf_pair(x: TagType) -> (u8, u8) {
    match x {
        TagType::Tag => (8, 0),
        TagType::TagGlobal => (16, 0),
        TagType::OtfFontOrUmbraTome => (24, 0),
        TagType::WwiseBank => (26, 6),
        TagType::WwiseStream => (26, 7),
        TagType::Havok => (27, 0),
        TagType::CriwareUsm => (27, 1),
        TagType::TextureLargeBuffer => (48, 1),
        TagType::Texture2D { is_header } => (if is_header { 32 } else { 40 }, 1),
        TagType::TextureCube { is_header } => (if is_header { 32 } else { 40 }, 2),
        TagType::Texture3D { is_header } => (if is_header { 32 } else { 40 }, 3),
        TagType::VertexBuffer { is_header } => (if is_header { 32 } else { 40 }, 4),
        TagType::IndexBuffer { is_header } => (if is_header { 32 } else { 40 }, 6),
        TagType::ConstantBuffer { is_header } => (if is_header { 32 } else { 40 }, 7),
        TagType::PixelShader { is_header } => (if is_header { 33 } else { 41 }, 0),
        TagType::VertexShader { is_header } => (if is_header { 33 } else { 41 }, 1),
        TagType::GeometryShader { is_header } => (if is_header { 33 } else { 41 }, 2),
        TagType::ComputeShader { is_header } => (if is_header { 33 } else { 41 }, 6),
        TagType::TextureSampler { is_header } => (if is_header { 34 } else { 42 }, 1),
        TagType::Unknown { ftype, fsubtype } => (ftype, fsubtype),
        TagType::TextureOld => (0, 0),
    }
}

/// The table of Beyond Light and later releases gives every type and subtype pair its own tag
/// type: `lf_pair` reads the pair back, so no two pairs share a type. In particular a Wwise
/// bank is (26, 6), a Wwise stream (26, 7), a tag (8, 0) and a global tag (16, 0).
pub proof fn lemma_lf_table_one_to_one(t: u8, st: u8)
    ensures
        lf_pair(type_lf(t, st)) == (t, st),
        type_lf(26, 6) == TagType::WwiseBank,
        type_lf(26, 7) == TagType::WwiseStream,
        forall|t2: u8, st2: u8| #[trigger] type_lf(t2, st2) == type_lf(t, st) ==> t2 == t && st2 == st,
{
    assert forall|t2: u8, st2: u8| #[trigger] type_lf(t2, st2) == type_lf(t, st) implies t2 == t && st2 == st by {
        assert(lf_pair(type_lf(t2, st2)) == (t2, st2));
    }
}

} // verus!
