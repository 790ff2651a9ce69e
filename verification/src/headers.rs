//! Texture headers of console releases, read from the bytes of a header tag.
use vstd::prelude::*;
use crate::bytes::{Endian, endian_value, read_u16_at, read_u32_at};
use crate::formats::dxgi::{DxgiFormat, dxgi_code, dxgi_code_in_range};
use crate::formats::surface::{GcnSurfaceFormat, XenosSurfaceFormat, gcn_code, gcn_code_valid, xenos_code};
use crate::taghash::TagHash;

verus! {

/// Why a header could not be read.
#[derive(Clone, Copy, Debug, PartialEq, Eq, Structural)]
pub enum HeaderError {
    /// The data ends before the field at this offset.
    UnexpectedEnd { offset: usize },
    /// The format code names no format.
    InvalidFormat { value: u32 },
    /// The marker field does not hold 0xbeefcafe.
    BadMagic { found: u32 },
    /// The 16-bit marker field does not hold 0xcafe.
    BadMarker { found: u16 },
}

/// 16-bit field at `o`.
pub open spec fn field16(e: Endian, d: Seq<u8>, o: int) -> u16 {
    endian_value(e, d.subrange(o, o + 2)) as u16
}

/// 32-bit field at `o`.
pub open spec fn field32(e: Endian, d: Seq<u8>, o: int) -> u32 {
    endian_value(e, d.subrange(o, o + 4)) as u32
}

fn get_u16(data: &[u8], o: usize, e: Endian) -> (r: Result<u16, HeaderError>)
    ensures
        o + 2 <= data@.len() <==> r is Ok,
        r matches Ok(v) ==> v == field16(e, data@, o as int),
        r matches Err(x) ==> x == (HeaderError::UnexpectedEnd { offset: o }),
{
    if data.len() < 2 || o > data.len() - 2 {
        return Err(HeaderError::UnexpectedEnd { offset: o });
    }
    Ok(read_u16_at(data, o, e))
}

fn get_u32(data: &[u8], o: usize, e: Endian) -> (r: Result<u32, HeaderError>)
    ensures
        o + 4 <= data@.len() <==> r is Ok,
        r matches Ok(v) ==> v == field32(e, data@, o as int),
        r matches Err(x) ==> x == (HeaderError::UnexpectedEnd { offset: o }),
{
    if data.len() < 4 || o > data.len() - 4 {
        return Err(HeaderError::UnexpectedEnd { offset: o });
    }
    Ok(read_u32_at(data, o, e))
}

fn check_magic(v: u32) -> (r: Result<(), HeaderError>)
    ensures
        r is Ok <==> v == 0xbeefcafe,
        r matches Err(x) ==> x == (HeaderError::BadMagic { found: v }),
{
    if v == 0xbeefcafe {
        Ok(())
    } else {
        Err(HeaderError::BadMagic { found: v })
    }
}

/// Texture header of Rise of Iron on PlayStation 4.
#[derive(Clone, Copy, Debug, PartialEq, Eq, Structural)]
pub struct TextureHeaderRoiPs4 {
    pub data_size: u32,
    pub unk4: u8,
    pub unk5: u8,
    pub format: GcnSurfaceFormat,
    pub beefcafe: u32,
    pub width: u16,
    pub height: u16,
    pub depth: u16,
    pub array_size: u16,
    pub flags1: u32,
    pub flags2: u32,
    pub flags3: u32,
}

/// The GCN format code of a Rise of Iron PlayStation 4 header: bits 4 to 9 of the word at 6.
pub open spec fn roi_ps4_format_code(e: Endian, d: Seq<u8>) -> u16 {
    (field16(e, d, 6) >> 4u16) & 0x3Fu16
}

/// The error reading a Rise of Iron PlayStation 4 header stops at, if any: fields are read in
/// order, so the first missing field, invalid format or wrong marker decides.
pub open spec fn roi_ps4_error(e: Endian, d: Seq<u8>) -> Option<HeaderError> {
    if d.len() < 4 {
        Some(HeaderError::UnexpectedEnd { offset: 0 })
    } else if d.len() < 8 {
        Some(HeaderError::UnexpectedEnd { offset: if d.len() < 5 { 4 } else if d.len() < 6 { 5 } else { 6 } })
    } else if !gcn_code_valid(roi_ps4_format_code(e, d)) {
        Some(HeaderError::InvalidFormat { value: roi_ps4_format_code(e, d) as u32 })
    } else if d.len() < 0x28 {
        Some(HeaderError::UnexpectedEnd { offset: 0x24 })
    } else if field32(e, d, 0x24) != 0xbeefcafe {
        Some(HeaderError::BadMagic { found: field32(e, d, 0x24) })
    } else if d.len() < 0x3c {
        Some(HeaderError::UnexpectedEnd { offset: if d.len() < 0x2a { 0x28 } else if d.len() < 0x2c { 0x2a } else if d.len() < 0x2e { 0x2c } else if d.len() < 0x30 { 0x2e } else if d.len() < 0x34 { 0x30 } else if d.len() < 0x38 { 0x34 } else { 0x38 } })
    } else {
        None
    }
}

impl TextureHeaderRoiPs4 {
    /// Reads the header from the start of `data`.
    pub fn read(data: &[u8], e: Endian) -> (r: Result<TextureHeaderRoiPs4, HeaderError>)
        ensures
            r is Err <==> roi_ps4_error(e, data@) is Some,
            r matches Err(x) ==> Some(x) == roi_ps4_error(e, data@),
            r matches Ok(h) ==> {
                &&& h.data_size == field32(e, data@, 0)
                &&& h.unk4 == data@[4]
                &&& h.unk5 == data@[5]
                &&& gcn_code(h.format) == roi_ps4_format_code(e, data@)
                &&& h.beefcafe == 0xbeefcafe
                &&& h.width == field16(e, data@, 0x28)
                &&& h.height == field16(e, data@, 0x2a)
                &&& h.depth == field16(e, data@, 0x2c)
                &&& h.array_size == field16(e, data@, 0x2e)
                &&& h.flags1 == field32(e, data@, 0x30)
                &&& h.flags2 == field32(e, data@, 0x34)
                &&& h.flags3 == field32(e, data@, 0x38)
            },
    {
        let data_size = get_u32(data, 0, e)?;
        if data.len() < 5 {
            return Err(HeaderError::UnexpectedEnd { offset: 4 });
        }
        let unk4 = data[4];
        if data.len() < 6 {
            return Err(HeaderError::UnexpectedEnd { offset: 5 });
        }
        let unk5 = data[5];
        let v = get_u16(data, 6, e)?;
        let code = (v >> 4) & 0x3F;
        let format = match GcnSurfaceFormat::try_from_u16(code) {
            Ok(f) => f,
            Err(_) => return Err(HeaderError::InvalidFormat { value: code as u32 }),
        };
        let beefcafe = get_u32(data, 0x24, e)?;
        check_magic(beefcafe)?;
        let width = get_u16(data, 0x28, e)?;
        let height = get_u16(data, 0x2a, e)?;
        let depth = get_u16(data, 0x2c, e)?;
        let array_size = get_u16(data, 0x2e, e)?;
        let flags1 = get_u32(data, 0x30, e)?;
        let flags2 = get_u32(data, 0x34, e)?;
        let flags3 = get_u32(data, 0x38, e)?;
        Ok(TextureHeaderRoiPs4 {
            data_size,
            unk4,
            unk5,
            format,
            beefcafe,
            width,
            height,
            depth,
            array_size,
            flags1,
            flags2,
            flags3,
        })
    }
}

/// Texture header of Rise of Iron on Xbox One.
#[derive(Clone, Copy, Debug, PartialEq, Eq, Structural)]
pub struct TextureHeaderRoiXbox {
    pub format: DxgiFormat,
    pub beefcafe: u32,
    pub width: u16,
    pub height: u16,
    pub depth: u16,
    pub array_size: u16,
}

/// The error reading a Rise of Iron Xbox One header stops at, if any.
pub open spec fn roi_xbox_error(e: Endian, d: Seq<u8>) -> Option<HeaderError> {
    if d.len() < 4 {
        Some(HeaderError::UnexpectedEnd { offset: 0 })
    } else if !dxgi_code_in_range(field32(e, d, 0)) {
        Some(HeaderError::InvalidFormat { value: field32(e, d, 0) })
    } else if d.len() < 0x30 {
        Some(HeaderError::UnexpectedEnd { offset: 0x2c })
    } else if field32(e, d, 0x2c) != 0xbeefcafe {
        Some(HeaderError::BadMagic { found: field32(e, d, 0x2c) })
    } else if d.len() < 0x38 {
        Some(HeaderError::UnexpectedEnd { offset: if d.len() < 0x32 { 0x30 } else if d.len() < 0x34 { 0x32 } else if d.len() < 0x36 { 0x34 } else { 0x36 } })
    } else {
        None
    }
}

impl TextureHeaderRoiXbox {
    /// Reads the header from the start of `data`.
    pub fn read(data: &[u8], e: Endian) -> (r: Result<TextureHeaderRoiXbox, HeaderError>)
        ensures
            r is Err <==> roi_xbox_error(e, data@) is Some,
            r matches Err(x) ==> Some(x) == roi_xbox_error(e, data@),
            r matches Ok(h) ==> {
                &&& dxgi_code(h.format) == field32(e, data@, 0)
                &&& h.beefcafe == 0xbeefcafe
                &&& h.width == field16(e, data@, 0x30)
                &&& h.height == field16(e, data@, 0x32)
                &&& h.depth == field16(e, data@, 0x34)
                &&& h.array_size == field16(e, data@, 0x36)
            },
    {
        let code = get_u32(data, 0, e)?;
        let format = match DxgiFormat::try_from_u32(code) {
            Ok(f) => f,
            Err(_) => return Err(HeaderError::InvalidFormat { value: code }),
        };
        let beefcafe = get_u32(data, 0x2c, e)?;
        check_magic(beefcafe)?;
        let width = get_u16(data, 0x30, e)?;
        let height = get_u16(data, 0x32, e)?;
        let depth = get_u16(data, 0x34, e)?;
        let array_size = get_u16(data, 0x36, e)?;
        Ok(TextureHeaderRoiXbox { format, beefcafe, width, height, depth, array_size })
    }
}

/// Texture header of pre-release Destiny on Xbox 360.
#[derive(Clone, Copy, Debug, PartialEq, Eq, Structural)]
pub struct TextureHeaderDevAlphaX360 {
    pub unk_flag: bool,
    pub format: XenosSurfaceFormat,
    pub width: u16,
    pub height: u16,
    pub depth: u16,
    pub beefcafe: u32,
}

/// The error reading a pre-release Xbox 360 header stops at, if any (the format, six bits of
/// the word at 0x20, always names one).
pub open spec fn devalpha_x360_error(e: Endian, d: Seq<u8>) -> Option<HeaderError> {
    if d.len() < 0x24 {
        Some(HeaderError::UnexpectedEnd { offset: 0x20 })
    } else if d.len() < 0x3c {
        Some(HeaderError::UnexpectedEnd { offset: if d.len() < 0x38 { 0x36 } else if d.len() < 0x3a { 0x38 } else { 0x3a } })
    } else if d.len() < 0x4c {
        Some(HeaderError::UnexpectedEnd { offset: 0x48 })
    } else if field32(e, d, 0x48) != 0xbeefcafe {
        Some(HeaderError::BadMagic { found: field32(e, d, 0x48) })
    } else {
        None
    }
}

impl TextureHeaderDevAlphaX360 {
    /// Reads the header from the start of `data`.
    pub fn read(data: &[u8], e: Endian) -> (r: Result<TextureHeaderDevAlphaX360, HeaderError>)
        ensures
            r is Err <==> devalpha_x360_error(e, data@) is Some,
            r matches Err(x) ==> Some(x) == devalpha_x360_error(e, data@),
            r matches Ok(h) ==> {
                &&& h.unk_flag == (field32(e, data@, 0x20) & 0x80u32 != 0)
                &&& xenos_code(h.format) == (field32(e, data@, 0x20) as u8) & 0x3Fu8
                &&& h.width == field16(e, data@, 0x36)
                &&& h.height == field16(e, data@, 0x38)
                &&& h.depth == field16(e, data@, 0x3a)
                &&& h.beefcafe == 0xbeefcafe
            },
    {
        let dataformat = get_u32(data, 0x20, e)?;
        let unk_flag = (dataformat & 0x80) != 0;
        let code = (dataformat as u8) & 0x3F;
        assert(code <= 63) by (bit_vector)
            requires
                code == (dataformat as u8) & 0x3Fu8;
        let format = match XenosSurfaceFormat::try_from_u8(code) {
            Ok(f) => f,
            Err(_) => return Err(HeaderError::InvalidFormat { value: code as u32 }),
        };
        let width = get_u16(data, 0x36, e)?;
        let height = get_u16(data, 0x38, e)?;
        let depth = get_u16(data, 0x3a, e)?;
        let beefcafe = get_u32(data, 0x48, e)?;
        check_magic(beefcafe)?;
        Ok(TextureHeaderDevAlphaX360 { unk_flag, format, width, height, depth, beefcafe })
    }
}

/// Texture header of The Taken King on PlayStation 3 (big-endian). The surface format is kept
/// as its code: the byte at 0 without its swizzle and normalization bits.
#[derive(Clone, Copy, Debug, PartialEq, Eq, Structural)]
pub struct TextureHeaderPs3 {
    pub format: u8,
    pub flags1: u32,
    pub beefcafe: u32,
    pub width: u16,
    pub height: u16,
    pub depth: u16,
    pub array_size: u16,
}

/// The error reading a PlayStation 3 header stops at, if any.
pub open spec fn ps3_error(d: Seq<u8>) -> Option<HeaderError> {
    if d.len() < 1 {
        Some(HeaderError::UnexpectedEnd { offset: 0 })
    } else if d.len() < 0x14 {
        Some(HeaderError::UnexpectedEnd { offset: 0x10 })
    } else if d.len() < 0x20 {
        Some(HeaderError::UnexpectedEnd { offset: 0x1c })
    } else if field32(Endian::Big, d, 0x1c) != 0xbeefcafe {
        Some(HeaderError::BadMagic { found: field32(Endian::Big, d, 0x1c) })
    } else if d.len() < 0x28 {
        Some(HeaderError::UnexpectedEnd { offset: if d.len() < 0x22 { 0x20 } else if d.len() < 0x24 { 0x22 } else if d.len() < 0x26 { 0x24 } else { 0x26 } })
    } else {
        None
    }
}

impl TextureHeaderPs3 {
    /// Reads the header from the start of `data`.
    pub fn read(data: &[u8]) -> (r: Result<TextureHeaderPs3, HeaderError>)
        ensures
            r is Err <==> ps3_error(data@) is Some,
            r matches Err(x) ==> Some(x) == ps3_error(data@),
            r matches Ok(h) ==> {
                &&& h.format == data@[0] & 0x9Fu8
                &&& h.flags1 == field32(Endian::Big, data@, 0x10)
                &&& h.beefcafe == 0xbeefcafe
                &&& h.width == field16(Endian::Big, data@, 0x20)
                &&& h.height == field16(Endian::Big, data@, 0x22)
                &&& h.depth == field16(Endian::Big, data@, 0x24)
                &&& h.array_size == field16(Endian::Big, data@, 0x26)
            },
    {
        if data.len() < 1 {
            return Err(HeaderError::UnexpectedEnd { offset: 0 });
        }
        let format = data[0] & 0x9F;
        let flags1 = get_u32(data, 0x10, Endian::Big)?;
        let beefcafe = get_u32(data, 0x1c, Endian::Big)?;
        check_magic(beefcafe)?;
        let width = get_u16(data, 0x20, Endian::Big)?;
        let height = get_u16(data, 0x22, Endian::Big)?;
        let depth = get_u16(data, 0x24, Endian::Big)?;
        let array_size = get_u16(data, 0x26, Endian::Big)?;
        Ok(TextureHeaderPs3 { format, flags1, beefcafe, width, height, depth, array_size })
    }
}

fn check_marker(v: u16) -> (r: Result<(), HeaderError>)
    ensures
        r is Ok <==> v == 0xcafe,
        r matches Err(x) ==> x == (HeaderError::BadMarker { found: v }),
{
    if v == 0xcafe {
        Ok(())
    } else {
        Err(HeaderError::BadMarker { found: v })
    }
}

/// A tag field: the "no tag" value 0xFFFFFFFF stands for none.
pub open spec fn optional_tag(v: u32) -> Option<TagHash> {
    if v == u32::MAX {
        None
    } else {
        Some(TagHash(v))
    }
}

fn to_optional_tag(v: u32) -> (r: Option<TagHash>)
    ensures
        r == optional_tag(v),
{
    if v == u32::MAX {
        None
    } else {
        Some(TagHash(v))
    }
}

/// Texture header of Destiny 2 on PC (little endian). Releases before Beyond Light lack 20
/// bytes after the first three fields and 4 bytes before the large buffer tag.
#[derive(Clone, Copy, Debug, PartialEq, Eq, Structural)]
pub struct TextureHeaderPC {
    pub data_size: u32,
    pub format: DxgiFormat,
    pub cafe: u16,
    pub width: u16,
    pub height: u16,
    pub depth: u16,
    pub array_size: u16,
    pub large_buffer: Option<TagHash>,
}

/// The error reading a Destiny 2 PC header in the layout before Beyond Light stops at, if any.
pub open spec fn pc_error_prebl(d: Seq<u8>) -> Option<HeaderError> {
    if d.len() < 0x8 {
        Some(HeaderError::UnexpectedEnd { offset: if d.len() < 0x4 { 0x0 } else { 0x4 } })
    } else if !dxgi_code_in_range(field32(Endian::Little, d, 4)) {
        Some(HeaderError::InvalidFormat { value: field32(Endian::Little, d, 4) })
    } else if d.len() < 0xe {
        Some(HeaderError::UnexpectedEnd { offset: if d.len() < 0xc { 0x8 } else { 0xc } })
    } else if field16(Endian::Little, d, 0xc) != 0xcafe {
        Some(HeaderError::BadMarker { found: field16(Endian::Little, d, 0xc) })
    } else if d.len() < 0x28 {
        Some(HeaderError::UnexpectedEnd { offset: if d.len() < 0x10 { 0xe } else if d.len() < 0x12 { 0x10 } else if d.len() < 0x14 { 0x12 } else if d.len() < 0x16 { 0x14 } else if d.len() < 0x18 { 0x16 } else if d.len() < 0x1a { 0x18 } else if d.len() < 0x1c { 0x1a } else if d.len() < 0x1e { 0x1c } else if d.len() < 0x20 { 0x1e } else if d.len() < 0x22 { 0x20 } else if d.len() < 0x24 { 0x22 } else { 0x24 } })
    } else {
        None
    }
}

/// The error reading a Destiny 2 PC header in the layout from Beyond Light on stops at, if any.
pub open spec fn pc_error_bl(d: Seq<u8>) -> Option<HeaderError> {
    if d.len() < 0x8 {
        Some(HeaderError::UnexpectedEnd { offset: if d.len() < 0x4 { 0x0 } else { 0x4 } })
    } else if !dxgi_code_in_range(field32(Endian::Little, d, 4)) {
        Some(HeaderError::InvalidFormat { value: field32(Endian::Little, d, 4) })
    } else if d.len() < 0x22 {
        Some(HeaderError::UnexpectedEnd { offset: if d.len() < 0xc { 0x8 } else if d.len() < 0x10 { 0xc } else if d.len() < 0x14 { 0x10 } else if d.len() < 0x18 { 0x14 } else if d.len() < 0x1c { 0x18 } else if d.len() < 0x20 { 0x1c } else { 0x20 } })
    } else if field16(Endian::Little, d, 0x20) != 0xcafe {
        Some(HeaderError::BadMarker { found: field16(Endian::Little, d, 0x20) })
    } else if d.len() < 0x40 {
        Some(HeaderError::UnexpectedEnd { offset: if d.len() < 0x24 { 0x22 } else if d.len() < 0x26 { 0x24 } else if d.len() < 0x28 { 0x26 } else if d.len() < 0x2a { 0x28 } else if d.len() < 0x2c { 0x2a } else if d.len() < 0x2e { 0x2c } else if d.len() < 0x30 { 0x2e } else if d.len() < 0x32 { 0x30 } else if d.len() < 0x34 { 0x32 } else if d.len() < 0x36 { 0x34 } else if d.len() < 0x38 { 0x36 } else if d.len() < 0x3c { 0x38 } else { 0x3c } })
    } else {
        None
    }
}

/// Where the fields after the format start: the 0xcafe marker, then width, height, depth and
/// array size; and where the large buffer tag is.
pub open spec fn pc_offsets(prebl: bool) -> (int, int) {
    if prebl {
        (0xc, 0x24)
    } else {
        (0x20, 0x3c)
    }
}

/// The error reading a Destiny 2 PC header stops at, if any.
pub open spec fn pc_error(d: Seq<u8>, prebl: bool) -> Option<HeaderError> {
    if prebl {
        pc_error_prebl(d)
    } else {
        pc_error_bl(d)
    }
}

impl TextureHeaderPC {
    /// Reads the header from the start of `data` in the layout of releases before Beyond Light
    /// (`prebl`) or after.
    pub fn read(data: &[u8], prebl: bool) -> (r: Result<TextureHeaderPC, HeaderError>)
        ensures
            r is Err <==> pc_error(data@, prebl) is Some,
            r matches Err(x) ==> Some(x) == pc_error(data@, prebl),
            r matches Ok(h) ==> {
                let (c, lb) = pc_offsets(prebl);
                &&& h.data_size == field32(Endian::Little, data@, 0)
                &&& dxgi_code(h.format) == field32(Endian::Little, data@, 4)
                &&& h.cafe == 0xcafe
                &&& h.width == field16(Endian::Little, data@, c + 2)
                &&& h.height == field16(Endian::Little, data@, c + 4)
                &&& h.depth == field16(Endian::Little, data@, c + 6)
                &&& h.array_size == field16(Endian::Little, data@, c + 8)
                &&& h.large_buffer == optional_tag(field32(Endian::Little, data@, lb))
            },
    {
        let e = Endian::Little;
        let data_size = get_u32(data, 0, e)?;
        let code = get_u32(data, 4, e)?;
        let format = match DxgiFormat::try_from_u32(code) {
            Ok(f) => f,
            Err(_) => return Err(HeaderError::InvalidFormat { value: code }),
        };
        get_u32(data, 8, e)?;
        let c: usize = if prebl {
            0xc
        } else {
            get_u32(data, 0xc, e)?;
            get_u32(data, 0x10, e)?;
            get_u32(data, 0x14, e)?;
            get_u32(data, 0x18, e)?;
            get_u32(data, 0x1c, e)?;
            0x20
        };
        let cafe = get_u16(data, c, e)?;
        check_marker(cafe)?;
        let width = get_u16(data, c + 2, e)?;
        let height = get_u16(data, c + 4, e)?;
        let depth = get_u16(data, c + 6, e)?;
        let array_size = get_u16(data, c + 8, e)?;
        get_u16(data, c + 0xa, e)?;
        get_u16(data, c + 0xc, e)?;
        get_u16(data, c + 0xe, e)?;
        get_u16(data, c + 0x10, e)?;
        get_u16(data, c + 0x12, e)?;
        get_u16(data, c + 0x14, e)?;
        get_u16(data, c + 0x16, e)?;
        let lb: usize = if prebl {
            0x24
        } else {
            get_u32(data, 0x38, e)?;
            0x3c
        };
        let large = get_u32(data, lb, e)?;
        Ok(TextureHeaderPC {
            data_size,
            format,
            cafe,
            width,
            height,
            depth,
            array_size,
            large_buffer: to_optional_tag(large),
        })
    }
}

/// Texture header of Destiny 2 on PlayStation 4 (little endian). Releases before Beyond Light
/// have 32 more bytes before the 0xcafe marker and 2 more bytes before the large buffer tag.
#[derive(Clone, Copy, Debug, PartialEq, Eq, Structural)]
pub struct TextureHeaderD2Ps4 {
    pub data_size: u32,
    pub unk4: u8,
    pub unk5: u8,
    pub format: GcnSurfaceFormat,
    pub cafe: u16,
    pub width: u16,
    pub height: u16,
    pub depth: u16,
    pub array_size: u16,
    pub flags1: u32,
    pub flags2: u32,
    pub flags3: u32,
    pub large_buffer: Option<TagHash>,
}

/// The GCN format code of a Destiny 2 PlayStation 4 header: bits 4 to 9 of the word at 6.
pub open spec fn d2_ps4_format_code(d: Seq<u8>) -> u16 {
    (field16(Endian::Little, d, 6) >> 4u16) & 0x3Fu16
}

/// The error reading a Destiny 2 PlayStation 4 header in the layout before Beyond Light stops at, if any.
pub open spec fn d2_ps4_error_prebl(d: Seq<u8>) -> Option<HeaderError> {
    if d.len() < 0x8 {
        Some(HeaderError::UnexpectedEnd { offset: if d.len() < 0x4 { 0x0 } else if d.len() < 0x5 { 0x4 } else if d.len() < 0x6 { 0x5 } else { 0x6 } })
    } else if !gcn_code_valid(d2_ps4_format_code(d)) {
        Some(HeaderError::InvalidFormat { value: d2_ps4_format_code(d) as u32 })
    } else if d.len() < 0x2a {
        Some(HeaderError::UnexpectedEnd { offset: if d.len() < 0xc { 0x8 } else if d.len() < 0x10 { 0xc } else if d.len() < 0x14 { 0x10 } else if d.len() < 0x18 { 0x14 } else if d.len() < 0x1c { 0x18 } else if d.len() < 0x20 { 0x1c } else if d.len() < 0x24 { 0x20 } else if d.len() < 0x28 { 0x24 } else { 0x28 } })
    } else if field16(Endian::Little, d, 0x28) != 0xcafe {
        Some(HeaderError::BadMarker { found: field16(Endian::Little, d, 0x28) })
    } else if d.len() < 0x44 {
        Some(HeaderError::UnexpectedEnd { offset: if d.len() < 0x2c { 0x2a } else if d.len() < 0x2e { 0x2c } else if d.len() < 0x30 { 0x2e } else if d.len() < 0x32 { 0x30 } else if d.len() < 0x36 { 0x32 } else if d.len() < 0x3a { 0x36 } else if d.len() < 0x3e { 0x3a } else if d.len() < 0x40 { 0x3e } else { 0x40 } })
    } else {
        None
    }
}

/// The error reading a Destiny 2 PlayStation 4 header in the layout from Beyond Light on stops at, if any.
pub open spec fn d2_ps4_error_bl(d: Seq<u8>) -> Option<HeaderError> {
    if d.len() < 0x8 {
        Some(HeaderError::UnexpectedEnd { offset: if d.len() < 0x4 { 0x0 } else if d.len() < 0x5 { 0x4 } else if d.len() < 0x6 { 0x5 } else { 0x6 } })
    } else if !gcn_code_valid(d2_ps4_format_code(d)) {
        Some(HeaderError::InvalidFormat { value: d2_ps4_format_code(d) as u32 })
    } else if d.len() < 0xa {
        Some(HeaderError::UnexpectedEnd { offset: 0x8 })
    } else if field16(Endian::Little, d, 0x8) != 0xcafe {
        Some(HeaderError::BadMarker { found: field16(Endian::Little, d, 0x8) })
    } else if d.len() < 0x22 {
        Some(HeaderError::UnexpectedEnd { offset: if d.len() < 0xc { 0xa } else if d.len() < 0xe { 0xc } else if d.len() < 0x10 { 0xe } else if d.len() < 0x12 { 0x10 } else if d.len() < 0x16 { 0x12 } else if d.len() < 0x1a { 0x16 } else if d.len() < 0x1e { 0x1a } else { 0x1e } })
    } else {
        None
    }
}

/// Where the 0xcafe marker is (width, height, depth, array size and the three flags follow)
/// and where the large buffer tag is.
pub open spec fn d2_ps4_offsets(prebl: bool) -> (int, int) {
    if prebl {
        (0x28, 0x40)
    } else {
        (0x8, 0x1e)
    }
}

/// The error reading a Destiny 2 PlayStation 4 header stops at, if any.
pub open spec fn d2_ps4_error(d: Seq<u8>, prebl: bool) -> Option<HeaderError> {
    if prebl {
        d2_ps4_error_prebl(d)
    } else {
        d2_ps4_error_bl(d)
    }
}

impl TextureHeaderD2Ps4 {
    /// Reads the header from the start of `data` in the layout of releases before Beyond Light
    /// (`prebl`) or after.
    pub fn read(data: &[u8], prebl: bool) -> (r: Result<TextureHeaderD2Ps4, HeaderError>)
        ensures
            r is Err <==> d2_ps4_error(data@, prebl) is Some,
            r matches Err(x) ==> Some(x) == d2_ps4_error(data@, prebl),
            r matches Ok(h) ==> {
                let (c, lb) = d2_ps4_offsets(prebl);
                &&& h.data_size == field32(Endian::Little, data@, 0)
                &&& h.unk4 == data@[4]
                &&& h.unk5 == data@[5]
                &&& gcn_code(h.format) == d2_ps4_format_code(data@)
                &&& h.cafe == 0xcafe
                &&& h.width == field16(Endian::Little, data@, c + 2)
                &&& h.height == field16(Endian::Little, data@, c + 4)
                &&& h.depth == field16(Endian::Little, data@, c + 6)
                &&& h.array_size == field16(Endian::Little, data@, c + 8)
                &&& h.flags1 == field32(Endian::Little, data@, c + 0xa)
                &&& h.flags2 == field32(Endian::Little, data@, c + 0xe)
                &&& h.flags3 == field32(Endian::Little, data@, c + 0x12)
                &&& h.large_buffer == optional_tag(field32(Endian::Little, data@, lb))
            },
    {
        let e = Endian::Little;
        let data_size = get_u32(data, 0, e)?;
        if data.len() < 5 {
            return Err(HeaderError::UnexpectedEnd { offset: 4 });
        }
        let unk4 = data[4];
        if data.len() < 6 {
            return Err(HeaderError::UnexpectedEnd { offset: 5 });
        }
        let unk5 = data[5];
        let v = get_u16(data, 6, e)?;
        let code = (v >> 4) & 0x3F;
        let format = match GcnSurfaceFormat::try_from_u16(code) {
            Ok(f) => f,
            Err(_) => return Err(HeaderError::InvalidFormat { value: code as u32 }),
        };
        let c: usize = if prebl {
            get_u32(data, 0x8, e)?;
            get_u32(data, 0xc, e)?;
            get_u32(data, 0x10, e)?;
            get_u32(data, 0x14, e)?;
            get_u32(data, 0x18, e)?;
            get_u32(data, 0x1c, e)?;
            get_u32(data, 0x20, e)?;
            get_u32(data, 0x24, e)?;
            0x28
        } else {
            0x8
        };
        let cafe = get_u16(data, c, e)?;
        check_marker(cafe)?;
        let width = get_u16(data, c + 2, e)?;
        let height = get_u16(data, c + 4, e)?;
        let depth = get_u16(data, c + 6, e)?;
        let array_size = get_u16(data, c + 8, e)?;
        let flags1 = get_u32(data, c + 0xa, e)?;
        let flags2 = get_u32(data, c + 0xe, e)?;
        let flags3 = get_u32(data, c + 0x12, e)?;
        let lb: usize = if prebl {
            get_u16(data, 0x3e, e)?;
            0x40
        } else {
            0x1e
        };
        let large = get_u32(data, lb, e)?;
        Ok(TextureHeaderD2Ps4 {
            data_size,
            unk4,
            unk5,
            format,
            cafe,
            width,
            height,
            depth,
            array_size,
            flags1,
            flags2,
            flags3,
            large_buffer: to_optional_tag(large),
        })
    }
}

} // verus!
