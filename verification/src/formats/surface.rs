use vstd::prelude::*;
use crate::formats::dxgi::FormatOutOfRange;

verus! {

/// GCN (PS4) surface formats.
#[allow(non_camel_case_types)]
#[derive(Clone, Copy, Debug, PartialEq, Eq, Structural, Hash)]
pub enum GcnSurfaceFormat {
    Invalid,
    Format8,
    Format16,
    Format8_8,
    Format32,
    Format16_16,
    Format10_11_11,
    Format11_11_10,
    Format10_10_10_2,
    Format2_10_10_10,
    Format8_8_8_8,
    Format32_32,
    Format16_16_16_16,
    Format32_32_32,
    Format32_32_32_32,
    Format5_6_5,
    Format1_5_5_5,
    Format5_5_5_1,
    Format4_4_4_4,
    Format8_24,
    Format24_8,
    FormatX24_8_32,
    GbGr,
    BgRg,
    Format5_9_9_9,
    BC1,
    BC2,
    BC3,
    BC4,
    BC5,
    BC6,
    BC7,
}

pub open spec fn gcn_code(f: GcnSurfaceFormat) -> u16 {
    match f {
        GcnSurfaceFormat::Invalid => 0x0,
        GcnSurfaceFormat::Format8 => 0x1,
        GcnSurfaceFormat::Format16 => 0x2,
        GcnSurfaceFormat::Format8_8 => 0x3,
        GcnSurfaceFormat::Format32 => 0x4,
        GcnSurfaceFormat::Format16_16 => 0x5,
        GcnSurfaceFormat::Format10_11_11 => 0x6,
        GcnSurfaceFormat::Format11_11_10 => 0x7,
        GcnSurfaceFormat::Format10_10_10_2 => 0x8,
        GcnSurfaceFormat::Format2_10_10_10 => 0x9,
        GcnSurfaceFormat::Format8_8_8_8 => 0xa,
        GcnSurfaceFormat::Format32_32 => 0xb,
        GcnSurfaceFormat::Format16_16_16_16 => 0xc,
        GcnSurfaceFormat::Format32_32_32 => 0xd,
        GcnSurfaceFormat::Format32_32_32_32 => 0xe,
        GcnSurfaceFormat::Format5_6_5 => 0x10,
        GcnSurfaceFormat::Format1_5_5_5 => 0x11,
        GcnSurfaceFormat::Format5_5_5_1 => 0x12,
        GcnSurfaceFormat::Format4_4_4_4 => 0x13,
        GcnSurfaceFormat::Format8_24 => 0x14,
        GcnSurfaceFormat::Format24_8 => 0x15,
        GcnSurfaceFormat::FormatX24_8_32 => 0x16,
        GcnSurfaceFormat::GbGr => 0x20,
        GcnSurfaceFormat::BgRg => 0x21,
        GcnSurfaceFormat::Format5_9_9_9 => 0x22,
        GcnSurfaceFormat::BC1 => 0x23,
        GcnSurfaceFormat::BC2 => 0x24,
        GcnSurfaceFormat::BC3 => 0x25,
        GcnSurfaceFormat::BC4 => 0x26,
        GcnSurfaceFormat::BC5 => 0x27,
        GcnSurfaceFormat::BC6 => 0x28,
        GcnSurfaceFormat::BC7 => 0x29,
    }
}

/// Codes that name a GCN format.
pub open spec fn gcn_code_valid(v: u16) -> bool {
    v == 0x0 || v == 0x1 || v == 0x2 || v == 0x3 || v == 0x4 || v == 0x5 || v == 0x6 || v == 0x7 || v == 0x8 || v == 0x9 || v == 0xa || v == 0xb || v == 0xc || v == 0xd || v == 0xe || v == 0x10 || v == 0x11 || v == 0x12 || v == 0x13 || v == 0x14 || v == 0x15 || v == 0x16 || v == 0x20 || v == 0x21 || v == 0x22 || v == 0x23 || v == 0x24 || v == 0x25 || v == 0x26 || v == 0x27 || v == 0x28 || v == 0x29
}

pub open spec fn gcn_bpp(f: GcnSurfaceFormat) -> nat {
    match f {
        GcnSurfaceFormat::Invalid => 0,
        GcnSurfaceFormat::Format8 => 8,
        GcnSurfaceFormat::Format16 => 16,
        GcnSurfaceFormat::Format8_8 => 16,
        GcnSurfaceFormat::Format32 => 32,
        GcnSurfaceFormat::Format16_16 => 32,
        GcnSurfaceFormat::Format10_11_11 => 32,
        GcnSurfaceFormat::Format11_11_10 => 32,
        GcnSurfaceFormat::Format10_10_10_2 => 32,
        GcnSurfaceFormat::Format2_10_10_10 => 32,
        GcnSurfaceFormat::Format8_8_8_8 => 32,
        GcnSurfaceFormat::Format32_32 => 64,
        GcnSurfaceFormat::Format16_16_16_16 => 64,
        GcnSurfaceFormat::Format32_32_32 => 96,
        GcnSurfaceFormat::Format32_32_32_32 => 128,
        GcnSurfaceFormat::Format5_6_5 => 16,
        GcnSurfaceFormat::Format1_5_5_5 => 16,
        GcnSurfaceFormat::Format5_5_5_1 => 16,
        GcnSurfaceFormat::Format4_4_4_4 => 16,
        GcnSurfaceFormat::Format8_24 => 32,
        GcnSurfaceFormat::Format24_8 => 32,
        GcnSurfaceFormat::FormatX24_8_32 => 64,
        GcnSurfaceFormat::GbGr => 0,
        GcnSurfaceFormat::BgRg => 0,
        GcnSurfaceFormat::Format5_9_9_9 => 32,
        GcnSurfaceFormat::BC1 => 4,
        GcnSurfaceFormat::BC2 => 8,
        GcnSurfaceFormat::BC3 => 8,
        GcnSurfaceFormat::BC4 => 4,
        GcnSurfaceFormat::BC5 => 8,
        GcnSurfaceFormat::BC6 => 8,
        GcnSurfaceFormat::BC7 => 8,
    }
}

pub open spec fn gcn_is_compressed(f: GcnSurfaceFormat) -> bool {
    match f {
        GcnSurfaceFormat::BC1 => true,
        GcnSurfaceFormat::BC2 => true,
        GcnSurfaceFormat::BC3 => true,
        GcnSurfaceFormat::BC4 => true,
        GcnSurfaceFormat::BC5 => true,
        GcnSurfaceFormat::BC6 => true,
        GcnSurfaceFormat::BC7 => true,
        _ => false,
    }
}

/// Bytes per block: 8 or 16 for block-compressed formats, else bytes per pixel.
pub open spec fn gcn_block_size(f: GcnSurfaceFormat) -> nat {
    match f {
        GcnSurfaceFormat::BC1 | GcnSurfaceFormat::BC4 => 8,
        GcnSurfaceFormat::BC2 | GcnSurfaceFormat::BC3 | GcnSurfaceFormat::BC5
        | GcnSurfaceFormat::BC6 | GcnSurfaceFormat::BC7 => 16,
        _ => gcn_bpp(f) / 8,
    }
}

/// Side in pixels of a block: 4 for block-compressed formats, else 1.
pub open spec fn gcn_pixel_block_size(f: GcnSurfaceFormat) -> nat {
    if gcn_is_compressed(f) {
        4
    } else {
        1
    }
}

impl GcnSurfaceFormat {
    pub fn code(&self) -> (r: u16)
        ensures
            r == gcn_code(*self),
    {
        match self {
            GcnSurfaceFormat::Invalid => 0x0,
            GcnSurfaceFormat::Format8 => 0x1,
            GcnSurfaceFormat::Format16 => 0x2,
            GcnSurfaceFormat::Format8_8 => 0x3,
            GcnSurfaceFormat::Format32 => 0x4,
            GcnSurfaceFormat::Format16_16 => 0x5,
            GcnSurfaceFormat::Format10_11_11 => 0x6,
            GcnSurfaceFormat::Format11_11_10 => 0x7,
            GcnSurfaceFormat::Format10_10_10_2 => 0x8,
            GcnSurfaceFormat::Format2_10_10_10 => 0x9,
            GcnSurfaceFormat::Format8_8_8_8 => 0xa,
            GcnSurfaceFormat::Format32_32 => 0xb,
            GcnSurfaceFormat::Format16_16_16_16 => 0xc,
            GcnSurfaceFormat::Format32_32_32 => 0xd,
            GcnSurfaceFormat::Format32_32_32_32 => 0xe,
            GcnSurfaceFormat::Format5_6_5 => 0x10,
            GcnSurfaceFormat::Format1_5_5_5 => 0x11,
            GcnSurfaceFormat::Format5_5_5_1 => 0x12,
            GcnSurfaceFormat::Format4_4_4_4 => 0x13,
            GcnSurfaceFormat::Format8_24 => 0x14,
            GcnSurfaceFormat::Format24_8 => 0x15,
            GcnSurfaceFormat::FormatX24_8_32 => 0x16,
            GcnSurfaceFormat::GbGr => 0x20,
            GcnSurfaceFormat::BgRg => 0x21,
            GcnSurfaceFormat::Format5_9_9_9 => 0x22,
            GcnSurfaceFormat::BC1 => 0x23,
            GcnSurfaceFormat::BC2 => 0x24,
            GcnSurfaceFormat::BC3 => 0x25,
            GcnSurfaceFormat::BC4 => 0x26,
            GcnSurfaceFormat::BC5 => 0x27,
            GcnSurfaceFormat::BC6 => 0x28,
            GcnSurfaceFormat::BC7 => 0x29,
        }
    }

    /// The format with the given code. Codes up to 0x29 that name no format are refused too.
    pub fn try_from_u16(value: u16) -> (r: Result<GcnSurfaceFormat, FormatOutOfRange>)
        ensures
            r is Ok <==> gcn_code_valid(value),
            r matches Ok(f) ==> gcn_code(f) == value,
            r matches Err(e) ==> e.value == value,
    {
        match value {
            0x0 => Ok(GcnSurfaceFormat::Invalid),
            0x1 => Ok(GcnSurfaceFormat::Format8),
            0x2 => Ok(GcnSurfaceFormat::Format16),
            0x3 => Ok(GcnSurfaceFormat::Format8_8),
            0x4 => Ok(GcnSurfaceFormat::Format32),
            0x5 => Ok(GcnSurfaceFormat::Format16_16),
            0x6 => Ok(GcnSurfaceFormat::Format10_11_11),
            0x7 => Ok(GcnSurfaceFormat::Format11_11_10),
            0x8 => Ok(GcnSurfaceFormat::Format10_10_10_2),
            0x9 => Ok(GcnSurfaceFormat::Format2_10_10_10),
            0xa => Ok(GcnSurfaceFormat::Format8_8_8_8),
            0xb => Ok(GcnSurfaceFormat::Format32_32),
            0xc => Ok(GcnSurfaceFormat::Format16_16_16_16),
            0xd => Ok(GcnSurfaceFormat::Format32_32_32),
            0xe => Ok(GcnSurfaceFormat::Format32_32_32_32),
            0x10 => Ok(GcnSurfaceFormat::Format5_6_5),
            0x11 => Ok(GcnSurfaceFormat::Format1_5_5_5),
            0x12 => Ok(GcnSurfaceFormat::Format5_5_5_1),
            0x13 => Ok(GcnSurfaceFormat::Format4_4_4_4),
            0x14 => Ok(GcnSurfaceFormat::Format8_24),
            0x15 => Ok(GcnSurfaceFormat::Format24_8),
            0x16 => Ok(GcnSurfaceFormat::FormatX24_8_32),
            0x20 => Ok(GcnSurfaceFormat::GbGr),
            0x21 => Ok(GcnSurfaceFormat::BgRg),
            0x22 => Ok(GcnSurfaceFormat::Format5_9_9_9),
            0x23 => Ok(GcnSurfaceFormat::BC1),
            0x24 => Ok(GcnSurfaceFormat::BC2),
            0x25 => Ok(GcnSurfaceFormat::BC3),
            0x26 => Ok(GcnSurfaceFormat::BC4),
            0x27 => Ok(GcnSurfaceFormat::BC5),
            0x28 => Ok(GcnSurfaceFormat::BC6),
            0x29 => Ok(GcnSurfaceFormat::BC7),
            _ => Err(FormatOutOfRange { value: value as u32 }),
        }
    }

    /// Bits per pixel.
    pub fn bpp(&self) -> (r: usize)
        ensures
            r == gcn_bpp(*self),
    {
        match self {
            GcnSurfaceFormat::Invalid => 0,
            GcnSurfaceFormat::Format8 => 8,
            GcnSurfaceFormat::Format16 => 16,
            GcnSurfaceFormat::Format8_8 => 16,
            GcnSurfaceFormat::Format32 => 32,
            GcnSurfaceFormat::Format16_16 => 32,
            GcnSurfaceFormat::Format10_11_11 => 32,
            GcnSurfaceFormat::Format11_11_10 => 32,
            GcnSurfaceFormat::Format10_10_10_2 => 32,
            GcnSurfaceFormat::Format2_10_10_10 => 32,
            GcnSurfaceFormat::Format8_8_8_8 => 32,
            GcnSurfaceFormat::Format32_32 => 64,
            GcnSurfaceFormat::Format16_16_16_16 => 64,
            GcnSurfaceFormat::Format32_32_32 => 96,
            GcnSurfaceFormat::Format32_32_32_32 => 128,
            GcnSurfaceFormat::Format5_6_5 => 16,
            GcnSurfaceFormat::Format1_5_5_5 => 16,
            GcnSurfaceFormat::Format5_5_5_1 => 16,
            GcnSurfaceFormat::Format4_4_4_4 => 16,
            GcnSurfaceFormat::Format8_24 => 32,
            GcnSurfaceFormat::Format24_8 => 32,
            GcnSurfaceFormat::FormatX24_8_32 => 64,
            GcnSurfaceFormat::GbGr => 0,
            GcnSurfaceFormat::BgRg => 0,
            GcnSurfaceFormat::Format5_9_9_9 => 32,
            GcnSurfaceFormat::BC1 => 4,
            GcnSurfaceFormat::BC2 => 8,
            GcnSurfaceFormat::BC3 => 8,
            GcnSurfaceFormat::BC4 => 4,
            GcnSurfaceFormat::BC5 => 8,
            GcnSurfaceFormat::BC6 => 8,
            GcnSurfaceFormat::BC7 => 8,
        }
    }

    pub fn block_size(&self) -> (r: usize)
        ensures
            r == gcn_block_size(*self),
    {
        match self {
            GcnSurfaceFormat::BC1 | GcnSurfaceFormat::BC4 => 8,
            GcnSurfaceFormat::BC2 | GcnSurfaceFormat::BC3 | GcnSurfaceFormat::BC5
            | GcnSurfaceFormat::BC6 | GcnSurfaceFormat::BC7 => 16,
            u => u.bpp() / 8,
        }
    }

    pub fn pixel_block_size(&self) -> (r: usize)
        ensures
            r == gcn_pixel_block_size(*self),
    {
        match self {
            GcnSurfaceFormat::BC1 | GcnSurfaceFormat::BC2 | GcnSurfaceFormat::BC3
            | GcnSurfaceFormat::BC4 | GcnSurfaceFormat::BC5 | GcnSurfaceFormat::BC6
            | GcnSurfaceFormat::BC7 => 4,
            _ => 1,
        }
    }

    pub fn is_compressed(&self) -> (r: bool)
        ensures
            r == gcn_is_compressed(*self),
    {
        match self {
            GcnSurfaceFormat::BC1 | GcnSurfaceFormat::BC2 | GcnSurfaceFormat::BC3
            | GcnSurfaceFormat::BC4 | GcnSurfaceFormat::BC5 | GcnSurfaceFormat::BC6
            | GcnSurfaceFormat::BC7 => true,
            _ => false,
        }
    }
}

/// Xenos (Xbox 360) surface formats.
#[allow(non_camel_case_types)]
#[derive(Clone, Copy, Debug, PartialEq, Eq, Structural, Hash)]
pub enum XenosSurfaceFormat {
    k_1_REVERSE,
    k_1,
    k_8,
    k_1_5_5_5,
    k_5_6_5,
    k_6_5_5,
    k_8_8_8_8,
    k_2_10_10_10,
    k_8_A,
    k_8_B,
    k_8_8,
    k_Cr_Y1_Cb_Y0_REP,
    k_Y1_Cr_Y0_Cb_REP,
    k_16_16_EDRAM,
    k_8_8_8_8_A,
    k_4_4_4_4,
    k_10_11_11,
    k_11_11_10,
    k_DXT1,
    k_DXT2_3,
    k_DXT4_5,
    k_16_16_16_16_EDRAM,
    k_24_8,
    k_24_8_FLOAT,
    k_16,
    k_16_16,
    k_16_16_16_16,
    k_16_EXPAND,
    k_16_16_EXPAND,
    k_16_16_16_16_EXPAND,
    k_16_FLOAT,
    k_16_16_FLOAT,
    k_16_16_16_16_FLOAT,
    k_32,
    k_32_32,
    k_32_32_32_32,
    k_32_FLOAT,
    k_32_32_FLOAT,
    k_32_32_32_32_FLOAT,
    k_32_AS_8,
    k_32_AS_8_8,
    k_16_MPEG,
    k_16_16_MPEG,
    k_8_INTERLACED,
    k_32_AS_8_INTERLACED,
    k_32_AS_8_8_INTERLACED,
    k_16_INTERLACED,
    k_16_MPEG_INTERLACED,
    k_16_16_MPEG_INTERLACED,
    k_DXN,
    k_8_8_8_8_AS_16_16_16_16,
    k_DXT1_AS_16_16_16_16,
    k_DXT2_3_AS_16_16_16_16,
    k_DXT4_5_AS_16_16_16_16,
    k_2_10_10_10_AS_16_16_16_16,
    k_10_11_11_AS_16_16_16_16,
    k_11_11_10_AS_16_16_16_16,
    k_32_32_32_FLOAT,
    k_DXT3A,
    k_DXT5A,
    k_CTX1,
    k_DXT3A_AS_1_1_1_1,
    k_8_8_8_8_GAMMA_EDRAM,
    k_2_10_10_10_FLOAT_EDRAM,
}

/// Block dimensions and bit depth of a surface format.
#[derive(Clone, Copy, Debug, PartialEq, Eq, Structural)]
pub struct FormatInfo {
    pub block_width: u32,
    pub block_height: u32,
    pub bits_per_pixel: u32,
}

impl FormatInfo {
    pub open spec fn spec_bytes_per_block(self) -> nat {
        (self.block_width * self.block_height * self.bits_per_pixel) as nat / 8
    }

    pub fn bytes_per_block(&self) -> (r: u32)
        requires
            self.block_width * self.block_height * self.bits_per_pixel <= u32::MAX,
        ensures
            r == self.spec_bytes_per_block(),
    {
        if self.bits_per_pixel == 0 {
            assert(self.block_width * self.block_height * 0 == 0) by (nonlinear_arith);
            return 0;
        }
        assert(self.block_width * self.block_height <= u32::MAX * u32::MAX) by (nonlinear_arith)
            requires
                self.block_width <= u32::MAX,
                self.block_height <= u32::MAX,
        ;
        let wh = self.block_width as u64 * self.block_height as u64;
        assert(wh <= wh * self.bits_per_pixel) by (nonlinear_arith)
            requires
                self.bits_per_pixel >= 1,
                wh >= 0,
        ;
        assert(wh * self.bits_per_pixel == self.block_width * self.block_height
            * self.bits_per_pixel) by (nonlinear_arith)
            requires
                wh == self.block_width * self.block_height,
        ;
        let wh32 = wh as u32;
        wh32 * self.bits_per_pixel / 8
    }
}

pub open spec fn xenos_code(f: XenosSurfaceFormat) -> u8 {
    match f {
        XenosSurfaceFormat::k_1_REVERSE => 0,
        XenosSurfaceFormat::k_1 => 1,
        XenosSurfaceFormat::k_8 => 2,
        XenosSurfaceFormat::k_1_5_5_5 => 3,
        XenosSurfaceFormat::k_5_6_5 => 4,
        XenosSurfaceFormat::k_6_5_5 => 5,
        XenosSurfaceFormat::k_8_8_8_8 => 6,
        XenosSurfaceFormat::k_2_10_10_10 => 7,
        XenosSurfaceFormat::k_8_A => 8,
        XenosSurfaceFormat::k_8_B => 9,
        XenosSurfaceFormat::k_8_8 => 10,
        XenosSurfaceFormat::k_Cr_Y1_Cb_Y0_REP => 11,
        XenosSurfaceFormat::k_Y1_Cr_Y0_Cb_REP => 12,
        XenosSurfaceFormat::k_16_16_EDRAM => 13,
        XenosSurfaceFormat::k_8_8_8_8_A => 14,
        XenosSurfaceFormat::k_4_4_4_4 => 15,
        XenosSurfaceFormat::k_10_11_11 => 16,
        XenosSurfaceFormat::k_11_11_10 => 17,
        XenosSurfaceFormat::k_DXT1 => 18,
        XenosSurfaceFormat::k_DXT2_3 => 19,
        XenosSurfaceFormat::k_DXT4_5 => 20,
        XenosSurfaceFormat::k_16_16_16_16_EDRAM => 21,
        XenosSurfaceFormat::k_24_8 => 22,
        XenosSurfaceFormat::k_24_8_FLOAT => 23,
        XenosSurfaceFormat::k_16 => 24,
        XenosSurfaceFormat::k_16_16 => 25,
        XenosSurfaceFormat::k_16_16_16_16 => 26,
        XenosSurfaceFormat::k_16_EXPAND => 27,
        XenosSurfaceFormat::k_16_16_EXPAND => 28,
        XenosSurfaceFormat::k_16_16_16_16_EXPAND => 29,
        XenosSurfaceFormat::k_16_FLOAT => 30,
        XenosSurfaceFormat::k_16_16_FLOAT => 31,
        XenosSurfaceFormat::k_16_16_16_16_FLOAT => 32,
        XenosSurfaceFormat::k_32 => 33,
        XenosSurfaceFormat::k_32_32 => 34,
        XenosSurfaceFormat::k_32_32_32_32 => 35,
        XenosSurfaceFormat::k_32_FLOAT => 36,
        XenosSurfaceFormat::k_32_32_FLOAT => 37,
        XenosSurfaceFormat::k_32_32_32_32_FLOAT => 38,
        XenosSurfaceFormat::k_32_AS_8 => 39,
        XenosSurfaceFormat::k_32_AS_8_8 => 40,
        XenosSurfaceFormat::k_16_MPEG => 41,
        XenosSurfaceFormat::k_16_16_MPEG => 42,
        XenosSurfaceFormat::k_8_INTERLACED => 43,
        XenosSurfaceFormat::k_32_AS_8_INTERLACED => 44,
        XenosSurfaceFormat::k_32_AS_8_8_INTERLACED => 45,
        XenosSurfaceFormat::k_16_INTERLACED => 46,
        XenosSurfaceFormat::k_16_MPEG_INTERLACED => 47,
        XenosSurfaceFormat::k_16_16_MPEG_INTERLACED => 48,
        XenosSurfaceFormat::k_DXN => 49,
        XenosSurfaceFormat::k_8_8_8_8_AS_16_16_16_16 => 50,
        XenosSurfaceFormat::k_DXT1_AS_16_16_16_16 => 51,
        XenosSurfaceFormat::k_DXT2_3_AS_16_16_16_16 => 52,
        XenosSurfaceFormat::k_DXT4_5_AS_16_16_16_16 => 53,
        XenosSurfaceFormat::k_2_10_10_10_AS_16_16_16_16 => 54,
        XenosSurfaceFormat::k_10_11_11_AS_16_16_16_16 => 55,
        XenosSurfaceFormat::k_11_11_10_AS_16_16_16_16 => 56,
        XenosSurfaceFormat::k_32_32_32_FLOAT => 57,
        XenosSurfaceFormat::k_DXT3A => 58,
        XenosSurfaceFormat::k_DXT5A => 59,
        XenosSurfaceFormat::k_CTX1 => 60,
        XenosSurfaceFormat::k_DXT3A_AS_1_1_1_1 => 61,
        XenosSurfaceFormat::k_8_8_8_8_GAMMA_EDRAM => 62,
        XenosSurfaceFormat::k_2_10_10_10_FLOAT_EDRAM => 63,
    }
}

pub open spec fn xenos_format_info(f: XenosSurfaceFormat) -> FormatInfo {
    match f {
        XenosSurfaceFormat::k_1_REVERSE => FormatInfo { block_width: 1, block_height: 1, bits_per_pixel: 1 },
        XenosSurfaceFormat::k_1 => FormatInfo { block_width: 1, block_height: 1, bits_per_pixel: 1 },
        XenosSurfaceFormat::k_8 => FormatInfo { block_width: 1, block_height: 1, bits_per_pixel: 8 },
        XenosSurfaceFormat::k_1_5_5_5 => FormatInfo { block_width: 1, block_height: 1, bits_per_pixel: 16 },
        XenosSurfaceFormat::k_5_6_5 => FormatInfo { block_width: 1, block_height: 1, bits_per_pixel: 16 },
        XenosSurfaceFormat::k_6_5_5 => FormatInfo { block_width: 1, block_height: 1, bits_per_pixel: 16 },
        XenosSurfaceFormat::k_8_8_8_8 => FormatInfo { block_width: 1, block_height: 1, bits_per_pixel: 32 },
        XenosSurfaceFormat::k_2_10_10_10 => FormatInfo { block_width: 1, block_height: 1, bits_per_pixel: 32 },
        XenosSurfaceFormat::k_8_A => FormatInfo { block_width: 1, block_height: 1, bits_per_pixel: 8 },
        XenosSurfaceFormat::k_8_B => FormatInfo { block_width: 1, block_height: 1, bits_per_pixel: 8 },
        XenosSurfaceFormat::k_8_8 => FormatInfo { block_width: 1, block_height: 1, bits_per_pixel: 16 },
        XenosSurfaceFormat::k_Cr_Y1_Cb_Y0_REP => FormatInfo { block_width: 2, block_height: 1, bits_per_pixel: 16 },
        XenosSurfaceFormat::k_Y1_Cr_Y0_Cb_REP => FormatInfo { block_width: 2, block_height: 1, bits_per_pixel: 16 },
        XenosSurfaceFormat::k_16_16_EDRAM => FormatInfo { block_width: 1, block_height: 1, bits_per_pixel: 32 },
        XenosSurfaceFormat::k_8_8_8_8_A => FormatInfo { block_width: 1, block_height: 1, bits_per_pixel: 32 },
        XenosSurfaceFormat::k_4_4_4_4 => FormatInfo { block_width: 1, block_height: 1, bits_per_pixel: 16 },
        XenosSurfaceFormat::k_10_11_11 => FormatInfo { block_width: 1, block_height: 1, bits_per_pixel: 32 },
        XenosSurfaceFormat::k_11_11_10 => FormatInfo { block_width: 1, block_height: 1, bits_per_pixel: 32 },
        XenosSurfaceFormat::k_DXT1 => FormatInfo { block_width: 4, block_height: 4, bits_per_pixel: 4 },
        XenosSurfaceFormat::k_DXT2_3 => FormatInfo { block_width: 4, block_height: 4, bits_per_pixel: 8 },
        XenosSurfaceFormat::k_DXT4_5 => FormatInfo { block_width: 4, block_height: 4, bits_per_pixel: 8 },
        XenosSurfaceFormat::k_16_16_16_16_EDRAM => FormatInfo { block_width: 1, block_height: 1, bits_per_pixel: 64 },
        XenosSurfaceFormat::k_24_8 => FormatInfo { block_width: 1, block_height: 1, bits_per_pixel: 32 },
        XenosSurfaceFormat::k_24_8_FLOAT => FormatInfo { block_width: 1, block_height: 1, bits_per_pixel: 32 },
        XenosSurfaceFormat::k_16 => FormatInfo { block_width: 1, block_height: 1, bits_per_pixel: 16 },
        XenosSurfaceFormat::k_16_16 => FormatInfo { block_width: 1, block_height: 1, bits_per_pixel: 32 },
        XenosSurfaceFormat::k_16_16_16_16 => FormatInfo { block_width: 1, block_height: 1, bits_per_pixel: 64 },
        XenosSurfaceFormat::k_16_EXPAND => FormatInfo { block_width: 1, block_height: 1, bits_per_pixel: 16 },
        XenosSurfaceFormat::k_16_16_EXPAND => FormatInfo { block_width: 1, block_height: 1, bits_per_pixel: 32 },
        XenosSurfaceFormat::k_16_16_16_16_EXPAND => FormatInfo { block_width: 1, block_height: 1, bits_per_pixel: 64 },
        XenosSurfaceFormat::k_16_FLOAT => FormatInfo { block_width: 1, block_height: 1, bits_per_pixel: 16 },
        XenosSurfaceFormat::k_16_16_FLOAT => FormatInfo { block_width: 1, block_height: 1, bits_per_pixel: 32 },
        XenosSurfaceFormat::k_16_16_16_16_FLOAT => FormatInfo { block_width: 1, block_height: 1, bits_per_pixel: 64 },
        XenosSurfaceFormat::k_32 => FormatInfo { block_width: 1, block_height: 1, bits_per_pixel: 32 },
        XenosSurfaceFormat::k_32_32 => FormatInfo { block_width: 1, block_height: 1, bits_per_pixel: 64 },
        XenosSurfaceFormat::k_32_32_32_32 => FormatInfo { block_width: 1, block_height: 1, bits_per_pixel: 128 },
        XenosSurfaceFormat::k_32_FLOAT => FormatInfo { block_width: 1, block_height: 1, bits_per_pixel: 32 },
        XenosSurfaceFormat::k_32_32_FLOAT => FormatInfo { block_width: 1, block_height: 1, bits_per_pixel: 64 },
        XenosSurfaceFormat::k_32_32_32_32_FLOAT => FormatInfo { block_width: 1, block_height: 1, bits_per_pixel: 128 },
        XenosSurfaceFormat::k_32_AS_8 => FormatInfo { block_width: 4, block_height: 1, bits_per_pixel: 8 },
        XenosSurfaceFormat::k_32_AS_8_8 => FormatInfo { block_width: 2, block_height: 1, bits_per_pixel: 16 },
        XenosSurfaceFormat::k_16_MPEG => FormatInfo { block_width: 1, block_height: 1, bits_per_pixel: 16 },
        XenosSurfaceFormat::k_16_16_MPEG => FormatInfo { block_width: 1, block_height: 1, bits_per_pixel: 32 },
        XenosSurfaceFormat::k_8_INTERLACED => FormatInfo { block_width: 1, block_height: 1, bits_per_pixel: 8 },
        XenosSurfaceFormat::k_32_AS_8_INTERLACED => FormatInfo { block_width: 4, block_height: 1, bits_per_pixel: 8 },
        XenosSurfaceFormat::k_32_AS_8_8_INTERLACED => FormatInfo { block_width: 1, block_height: 1, bits_per_pixel: 16 },
        XenosSurfaceFormat::k_16_INTERLACED => FormatInfo { block_width: 1, block_height: 1, bits_per_pixel: 16 },
        XenosSurfaceFormat::k_16_MPEG_INTERLACED => FormatInfo { block_width: 1, block_height: 1, bits_per_pixel: 16 },
        XenosSurfaceFormat::k_16_16_MPEG_INTERLACED => FormatInfo { block_width: 1, block_height: 1, bits_per_pixel: 32 },
        XenosSurfaceFormat::k_DXN => FormatInfo { block_width: 4, block_height: 4, bits_per_pixel: 8 },
        XenosSurfaceFormat::k_8_8_8_8_AS_16_16_16_16 => FormatInfo { block_width: 1, block_height: 1, bits_per_pixel: 32 },
        XenosSurfaceFormat::k_DXT1_AS_16_16_16_16 => FormatInfo { block_width: 4, block_height: 4, bits_per_pixel: 4 },
        XenosSurfaceFormat::k_DXT2_3_AS_16_16_16_16 => FormatInfo { block_width: 4, block_height: 4, bits_per_pixel: 8 },
        XenosSurfaceFormat::k_DXT4_5_AS_16_16_16_16 => FormatInfo { block_width: 4, block_height: 4, bits_per_pixel: 8 },
        XenosSurfaceFormat::k_2_10_10_10_AS_16_16_16_16 => FormatInfo { block_width: 1, block_height: 1, bits_per_pixel: 32 },
        XenosSurfaceFormat::k_10_11_11_AS_16_16_16_16 => FormatInfo { block_width: 1, block_height: 1, bits_per_pixel: 32 },
        XenosSurfaceFormat::k_11_11_10_AS_16_16_16_16 => FormatInfo { block_width: 1, block_height: 1, bits_per_pixel: 32 },
        XenosSurfaceFormat::k_32_32_32_FLOAT => FormatInfo { block_width: 1, block_height: 1, bits_per_pixel: 96 },
        XenosSurfaceFormat::k_DXT3A => FormatInfo { block_width: 4, block_height: 4, bits_per_pixel: 4 },
        XenosSurfaceFormat::k_DXT5A => FormatInfo { block_width: 4, block_height: 4, bits_per_pixel: 4 },
        XenosSurfaceFormat::k_CTX1 => FormatInfo { block_width: 4, block_height: 4, bits_per_pixel: 4 },
        XenosSurfaceFormat::k_DXT3A_AS_1_1_1_1 => FormatInfo { block_width: 4, block_height: 4, bits_per_pixel: 4 },
        XenosSurfaceFormat::k_8_8_8_8_GAMMA_EDRAM => FormatInfo { block_width: 1, block_height: 1, bits_per_pixel: 32 },
        XenosSurfaceFormat::k_2_10_10_10_FLOAT_EDRAM => FormatInfo { block_width: 1, block_height: 1, bits_per_pixel: 32 },
    }
}

impl XenosSurfaceFormat {
    pub fn code(&self) -> (r: u8)
        ensures
            r == xenos_code(*self),
    {
        match self {
            XenosSurfaceFormat::k_1_REVERSE => 0,
            XenosSurfaceFormat::k_1 => 1,
            XenosSurfaceFormat::k_8 => 2,
            XenosSurfaceFormat::k_1_5_5_5 => 3,
            XenosSurfaceFormat::k_5_6_5 => 4,
            XenosSurfaceFormat::k_6_5_5 => 5,
            XenosSurfaceFormat::k_8_8_8_8 => 6,
            XenosSurfaceFormat::k_2_10_10_10 => 7,
            XenosSurfaceFormat::k_8_A => 8,
            XenosSurfaceFormat::k_8_B => 9,
            XenosSurfaceFormat::k_8_8 => 10,
            XenosSurfaceFormat::k_Cr_Y1_Cb_Y0_REP => 11,
            XenosSurfaceFormat::k_Y1_Cr_Y0_Cb_REP => 12,
            XenosSurfaceFormat::k_16_16_EDRAM => 13,
            XenosSurfaceFormat::k_8_8_8_8_A => 14,
            XenosSurfaceFormat::k_4_4_4_4 => 15,
            XenosSurfaceFormat::k_10_11_11 => 16,
            XenosSurfaceFormat::k_11_11_10 => 17,
            XenosSurfaceFormat::k_DXT1 => 18,
            XenosSurfaceFormat::k_DXT2_3 => 19,
            XenosSurfaceFormat::k_DXT4_5 => 20,
            XenosSurfaceFormat::k_16_16_16_16_EDRAM => 21,
            XenosSurfaceFormat::k_24_8 => 22,
            XenosSurfaceFormat::k_24_8_FLOAT => 23,
            XenosSurfaceFormat::k_16 => 24,
            XenosSurfaceFormat::k_16_16 => 25,
            XenosSurfaceFormat::k_16_16_16_16 => 26,
            XenosSurfaceFormat::k_16_EXPAND => 27,
            XenosSurfaceFormat::k_16_16_EXPAND => 28,
            XenosSurfaceFormat::k_16_16_16_16_EXPAND => 29,
            XenosSurfaceFormat::k_16_FLOAT => 30,
            XenosSurfaceFormat::k_16_16_FLOAT => 31,
            XenosSurfaceFormat::k_16_16_16_16_FLOAT => 32,
            XenosSurfaceFormat::k_32 => 33,
            XenosSurfaceFormat::k_32_32 => 34,
            XenosSurfaceFormat::k_32_32_32_32 => 35,
            XenosSurfaceFormat::k_32_FLOAT => 36,
            XenosSurfaceFormat::k_32_32_FLOAT => 37,
            XenosSurfaceFormat::k_32_32_32_32_FLOAT => 38,
            XenosSurfaceFormat::k_32_AS_8 => 39,
            XenosSurfaceFormat::k_32_AS_8_8 => 40,
            XenosSurfaceFormat::k_16_MPEG => 41,
            XenosSurfaceFormat::k_16_16_MPEG => 42,
            XenosSurfaceFormat::k_8_INTERLACED => 43,
            XenosSurfaceFormat::k_32_AS_8_INTERLACED => 44,
            XenosSurfaceFormat::k_32_AS_8_8_INTERLACED => 45,
            XenosSurfaceFormat::k_16_INTERLACED => 46,
            XenosSurfaceFormat::k_16_MPEG_INTERLACED => 47,
            XenosSurfaceFormat::k_16_16_MPEG_INTERLACED => 48,
            XenosSurfaceFormat::k_DXN => 49,
            XenosSurfaceFormat::k_8_8_8_8_AS_16_16_16_16 => 50,
            XenosSurfaceFormat::k_DXT1_AS_16_16_16_16 => 51,
            XenosSurfaceFormat::k_DXT2_3_AS_16_16_16_16 => 52,
            XenosSurfaceFormat::k_DXT4_5_AS_16_16_16_16 => 53,
            XenosSurfaceFormat::k_2_10_10_10_AS_16_16_16_16 => 54,
            XenosSurfaceFormat::k_10_11_11_AS_16_16_16_16 => 55,
            XenosSurfaceFormat::k_11_11_10_AS_16_16_16_16 => 56,
            XenosSurfaceFormat::k_32_32_32_FLOAT => 57,
            XenosSurfaceFormat::k_DXT3A => 58,
            XenosSurfaceFormat::k_DXT5A => 59,
            XenosSurfaceFormat::k_CTX1 => 60,
            XenosSurfaceFormat::k_DXT3A_AS_1_1_1_1 => 61,
            XenosSurfaceFormat::k_8_8_8_8_GAMMA_EDRAM => 62,
            XenosSurfaceFormat::k_2_10_10_10_FLOAT_EDRAM => 63,
        }
    }

    /// The format with the given code (0..=63).
    pub fn try_from_u8(value: u8) -> (r: Result<XenosSurfaceFormat, FormatOutOfRange>)
        ensures
            r is Ok <==> value <= 63,
            r matches Ok(f) ==> xenos_code(f) == value,
            r matches Err(e) ==> e.value == value,
    {
        match value {
            0 => Ok(XenosSurfaceFormat::k_1_REVERSE),
            1 => Ok(XenosSurfaceFormat::k_1),
            2 => Ok(XenosSurfaceFormat::k_8),
            3 => Ok(XenosSurfaceFormat::k_1_5_5_5),
            4 => Ok(XenosSurfaceFormat::k_5_6_5),
            5 => Ok(XenosSurfaceFormat::k_6_5_5),
            6 => Ok(XenosSurfaceFormat::k_8_8_8_8),
            7 => Ok(XenosSurfaceFormat::k_2_10_10_10),
            8 => Ok(XenosSurfaceFormat::k_8_A),
            9 => Ok(XenosSurfaceFormat::k_8_B),
            10 => Ok(XenosSurfaceFormat::k_8_8),
            11 => Ok(XenosSurfaceFormat::k_Cr_Y1_Cb_Y0_REP),
            12 => Ok(XenosSurfaceFormat::k_Y1_Cr_Y0_Cb_REP),
            13 => Ok(XenosSurfaceFormat::k_16_16_EDRAM),
            14 => Ok(XenosSurfaceFormat::k_8_8_8_8_A),
            15 => Ok(XenosSurfaceFormat::k_4_4_4_4),
            16 => Ok(XenosSurfaceFormat::k_10_11_11),
            17 => Ok(XenosSurfaceFormat::k_11_11_10),
            18 => Ok(XenosSurfaceFormat::k_DXT1),
            19 => Ok(XenosSurfaceFormat::k_DXT2_3),
            20 => Ok(XenosSurfaceFormat::k_DXT4_5),
            21 => Ok(XenosSurfaceFormat::k_16_16_16_16_EDRAM),
            22 => Ok(XenosSurfaceFormat::k_24_8),
            23 => Ok(XenosSurfaceFormat::k_24_8_FLOAT),
            24 => Ok(XenosSurfaceFormat::k_16),
            25 => Ok(XenosSurfaceFormat::k_16_16),
            26 => Ok(XenosSurfaceFormat::k_16_16_16_16),
            27 => Ok(XenosSurfaceFormat::k_16_EXPAND),
            28 => Ok(XenosSurfaceFormat::k_16_16_EXPAND),
            29 => Ok(XenosSurfaceFormat::k_16_16_16_16_EXPAND),
            30 => Ok(XenosSurfaceFormat::k_16_FLOAT),
            31 => Ok(XenosSurfaceFormat::k_16_16_FLOAT),
            32 => Ok(XenosSurfaceFormat::k_16_16_16_16_FLOAT),
            33 => Ok(XenosSurfaceFormat::k_32),
            34 => Ok(XenosSurfaceFormat::k_32_32),
            35 => Ok(XenosSurfaceFormat::k_32_32_32_32),
            36 => Ok(XenosSurfaceFormat::k_32_FLOAT),
            37 => Ok(XenosSurfaceFormat::k_32_32_FLOAT),
            38 => Ok(XenosSurfaceFormat::k_32_32_32_32_FLOAT),
            39 => Ok(XenosSurfaceFormat::k_32_AS_8),
            40 => Ok(XenosSurfaceFormat::k_32_AS_8_8),
            41 => Ok(XenosSurfaceFormat::k_16_MPEG),
            42 => Ok(XenosSurfaceFormat::k_16_16_MPEG),
            43 => Ok(XenosSurfaceFormat::k_8_INTERLACED),
            44 => Ok(XenosSurfaceFormat::k_32_AS_8_INTERLACED),
            45 => Ok(XenosSurfaceFormat::k_32_AS_8_8_INTERLACED),
            46 => Ok(XenosSurfaceFormat::k_16_INTERLACED),
            47 => Ok(XenosSurfaceFormat::k_16_MPEG_INTERLACED),
            48 => Ok(XenosSurfaceFormat::k_16_16_MPEG_INTERLACED),
            49 => Ok(XenosSurfaceFormat::k_DXN),
            50 => Ok(XenosSurfaceFormat::k_8_8_8_8_AS_16_16_16_16),
            51 => Ok(XenosSurfaceFormat::k_DXT1_AS_16_16_16_16),
            52 => Ok(XenosSurfaceFormat::k_DXT2_3_AS_16_16_16_16),
            53 => Ok(XenosSurfaceFormat::k_DXT4_5_AS_16_16_16_16),
            54 => Ok(XenosSurfaceFormat::k_2_10_10_10_AS_16_16_16_16),
            55 => Ok(XenosSurfaceFormat::k_10_11_11_AS_16_16_16_16),
            56 => Ok(XenosSurfaceFormat::k_11_11_10_AS_16_16_16_16),
            57 => Ok(XenosSurfaceFormat::k_32_32_32_FLOAT),
            58 => Ok(XenosSurfaceFormat::k_DXT3A),
            59 => Ok(XenosSurfaceFormat::k_DXT5A),
            60 => Ok(XenosSurfaceFormat::k_CTX1),
            61 => Ok(XenosSurfaceFormat::k_DXT3A_AS_1_1_1_1),
            62 => Ok(XenosSurfaceFormat::k_8_8_8_8_GAMMA_EDRAM),
            63 => Ok(XenosSurfaceFormat::k_2_10_10_10_FLOAT_EDRAM),
            _ => Err(FormatOutOfRange { value: value as u32 }),
        }
    }

    pub fn format_info(&self) -> (r: FormatInfo)
        ensures
            r == xenos_format_info(*self),
    {
        match self {
            XenosSurfaceFormat::k_1_REVERSE => FormatInfo { block_width: 1, block_height: 1, bits_per_pixel: 1 },
            XenosSurfaceFormat::k_1 => FormatInfo { block_width: 1, block_height: 1, bits_per_pixel: 1 },
            XenosSurfaceFormat::k_8 => FormatInfo { block_width: 1, block_height: 1, bits_per_pixel: 8 },
            XenosSurfaceFormat::k_1_5_5_5 => FormatInfo { block_width: 1, block_height: 1, bits_per_pixel: 16 },
            XenosSurfaceFormat::k_5_6_5 => FormatInfo { block_width: 1, block_height: 1, bits_per_pixel: 16 },
            XenosSurfaceFormat::k_6_5_5 => FormatInfo { block_width: 1, block_height: 1, bits_per_pixel: 16 },
            XenosSurfaceFormat::k_8_8_8_8 => FormatInfo { block_width: 1, block_height: 1, bits_per_pixel: 32 },
            XenosSurfaceFormat::k_2_10_10_10 => FormatInfo { block_width: 1, block_height: 1, bits_per_pixel: 32 },
            XenosSurfaceFormat::k_8_A => FormatInfo { block_width: 1, block_height: 1, bits_per_pixel: 8 },
            XenosSurfaceFormat::k_8_B => FormatInfo { block_width: 1, block_height: 1, bits_per_pixel: 8 },
            XenosSurfaceFormat::k_8_8 => FormatInfo { block_width: 1, block_height: 1, bits_per_pixel: 16 },
            XenosSurfaceFormat::k_Cr_Y1_Cb_Y0_REP => FormatInfo { block_width: 2, block_height: 1, bits_per_pixel: 16 },
            XenosSurfaceFormat::k_Y1_Cr_Y0_Cb_REP => FormatInfo { block_width: 2, block_height: 1, bits_per_pixel: 16 },
            XenosSurfaceFormat::k_16_16_EDRAM => FormatInfo { block_width: 1, block_height: 1, bits_per_pixel: 32 },
            XenosSurfaceFormat::k_8_8_8_8_A => FormatInfo { block_width: 1, block_height: 1, bits_per_pixel: 32 },
            XenosSurfaceFormat::k_4_4_4_4 => FormatInfo { block_width: 1, block_height: 1, bits_per_pixel: 16 },
            XenosSurfaceFormat::k_10_11_11 => FormatInfo { block_width: 1, block_height: 1, bits_per_pixel: 32 },
            XenosSurfaceFormat::k_11_11_10 => FormatInfo { block_width: 1, block_height: 1, bits_per_pixel: 32 },
            XenosSurfaceFormat::k_DXT1 => FormatInfo { block_width: 4, block_height: 4, bits_per_pixel: 4 },
            XenosSurfaceFormat::k_DXT2_3 => FormatInfo { block_width: 4, block_height: 4, bits_per_pixel: 8 },
            XenosSurfaceFormat::k_DXT4_5 => FormatInfo { block_width: 4, block_height: 4, bits_per_pixel: 8 },
            XenosSurfaceFormat::k_16_16_16_16_EDRAM => FormatInfo { block_width: 1, block_height: 1, bits_per_pixel: 64 },
            XenosSurfaceFormat::k_24_8 => FormatInfo { block_width: 1, block_height: 1, bits_per_pixel: 32 },
            XenosSurfaceFormat::k_24_8_FLOAT => FormatInfo { block_width: 1, block_height: 1, bits_per_pixel: 32 },
            XenosSurfaceFormat::k_16 => FormatInfo { block_width: 1, block_height: 1, bits_per_pixel: 16 },
            XenosSurfaceFormat::k_16_16 => FormatInfo { block_width: 1, block_height: 1, bits_per_pixel: 32 },
            XenosSurfaceFormat::k_16_16_16_16 => FormatInfo { block_width: 1, block_height: 1, bits_per_pixel: 64 },
            XenosSurfaceFormat::k_16_EXPAND => FormatInfo { block_width: 1, block_height: 1, bits_per_pixel: 16 },
            XenosSurfaceFormat::k_16_16_EXPAND => FormatInfo { block_width: 1, block_height: 1, bits_per_pixel: 32 },
            XenosSurfaceFormat::k_16_16_16_16_EXPAND => FormatInfo { block_width: 1, block_height: 1, bits_per_pixel: 64 },
            XenosSurfaceFormat::k_16_FLOAT => FormatInfo { block_width: 1, block_height: 1, bits_per_pixel: 16 },
            XenosSurfaceFormat::k_16_16_FLOAT => FormatInfo { block_width: 1, block_height: 1, bits_per_pixel: 32 },
            XenosSurfaceFormat::k_16_16_16_16_FLOAT => FormatInfo { block_width: 1, block_height: 1, bits_per_pixel: 64 },
            XenosSurfaceFormat::k_32 => FormatInfo { block_width: 1, block_height: 1, bits_per_pixel: 32 },
            XenosSurfaceFormat::k_32_32 => FormatInfo { block_width: 1, block_height: 1, bits_per_pixel: 64 },
            XenosSurfaceFormat::k_32_32_32_32 => FormatInfo { block_width: 1, block_height: 1, bits_per_pixel: 128 },
            XenosSurfaceFormat::k_32_FLOAT => FormatInfo { block_width: 1, block_height: 1, bits_per_pixel: 32 },
            XenosSurfaceFormat::k_32_32_FLOAT => FormatInfo { block_width: 1, block_height: 1, bits_per_pixel: 64 },
            XenosSurfaceFormat::k_32_32_32_32_FLOAT => FormatInfo { block_width: 1, block_height: 1, bits_per_pixel: 128 },
            XenosSurfaceFormat::k_32_AS_8 => FormatInfo { block_width: 4, block_height: 1, bits_per_pixel: 8 },
            XenosSurfaceFormat::k_32_AS_8_8 => FormatInfo { block_width: 2, block_height: 1, bits_per_pixel: 16 },
            XenosSurfaceFormat::k_16_MPEG => FormatInfo { block_width: 1, block_height: 1, bits_per_pixel: 16 },
            XenosSurfaceFormat::k_16_16_MPEG => FormatInfo { block_width: 1, block_height: 1, bits_per_pixel: 32 },
            XenosSurfaceFormat::k_8_INTERLACED => FormatInfo { block_width: 1, block_height: 1, bits_per_pixel: 8 },
            XenosSurfaceFormat::k_32_AS_8_INTERLACED => FormatInfo { block_width: 4, block_height: 1, bits_per_pixel: 8 },
            XenosSurfaceFormat::k_32_AS_8_8_INTERLACED => FormatInfo { block_width: 1, block_height: 1, bits_per_pixel: 16 },
            XenosSurfaceFormat::k_16_INTERLACED => FormatInfo { block_width: 1, block_height: 1, bits_per_pixel: 16 },
            XenosSurfaceFormat::k_16_MPEG_INTERLACED => FormatInfo { block_width: 1, block_height: 1, bits_per_pixel: 16 },
            XenosSurfaceFormat::k_16_16_MPEG_INTERLACED => FormatInfo { block_width: 1, block_height: 1, bits_per_pixel: 32 },
            XenosSurfaceFormat::k_DXN => FormatInfo { block_width: 4, block_height: 4, bits_per_pixel: 8 },
            XenosSurfaceFormat::k_8_8_8_8_AS_16_16_16_16 => FormatInfo { block_width: 1, block_height: 1, bits_per_pixel: 32 },
            XenosSurfaceFormat::k_DXT1_AS_16_16_16_16 => FormatInfo { block_width: 4, block_height: 4, bits_per_pixel: 4 },
            XenosSurfaceFormat::k_DXT2_3_AS_16_16_16_16 => FormatInfo { block_width: 4, block_height: 4, bits_per_pixel: 8 },
            XenosSurfaceFormat::k_DXT4_5_AS_16_16_16_16 => FormatInfo { block_width: 4, block_height: 4, bits_per_pixel: 8 },
            XenosSurfaceFormat::k_2_10_10_10_AS_16_16_16_16 => FormatInfo { block_width: 1, block_height: 1, bits_per_pixel: 32 },
            XenosSurfaceFormat::k_10_11_11_AS_16_16_16_16 => FormatInfo { block_width: 1, block_height: 1, bits_per_pixel: 32 },
            XenosSurfaceFormat::k_11_11_10_AS_16_16_16_16 => FormatInfo { block_width: 1, block_height: 1, bits_per_pixel: 32 },
            XenosSurfaceFormat::k_32_32_32_FLOAT => FormatInfo { block_width: 1, block_height: 1, bits_per_pixel: 96 },
            XenosSurfaceFormat::k_DXT3A => FormatInfo { block_width: 4, block_height: 4, bits_per_pixel: 4 },
            XenosSurfaceFormat::k_DXT5A => FormatInfo { block_width: 4, block_height: 4, bits_per_pixel: 4 },
            XenosSurfaceFormat::k_CTX1 => FormatInfo { block_width: 4, block_height: 4, bits_per_pixel: 4 },
            XenosSurfaceFormat::k_DXT3A_AS_1_1_1_1 => FormatInfo { block_width: 4, block_height: 4, bits_per_pixel: 4 },
            XenosSurfaceFormat::k_8_8_8_8_GAMMA_EDRAM => FormatInfo { block_width: 1, block_height: 1, bits_per_pixel: 32 },
            XenosSurfaceFormat::k_2_10_10_10_FLOAT_EDRAM => FormatInfo { block_width: 1, block_height: 1, bits_per_pixel: 32 },
        }
    }

    pub fn bpp(&self) -> (r: u32)
        ensures
            r == xenos_format_info(*self).bits_per_pixel,
    {
        self.format_info().bits_per_pixel
    }

    pub fn bytes_per_block(&self) -> (r: u32)
        ensures
            r == xenos_format_info(*self).spec_bytes_per_block(),
    {
        let info = self.format_info();
        assert(info.block_width <= 4 && info.block_height <= 4 && info.bits_per_pixel <= 128);
        assert(info.block_width * info.block_height * info.bits_per_pixel <= 2048) by (nonlinear_arith)
            requires
                info.block_width <= 4,
                info.block_height <= 4,
                info.bits_per_pixel <= 128,
        ;
        info.bytes_per_block()
    }
}

/// A block holds exactly its pixels: the bytes of one block, times 8, are the bits per pixel
/// times the pixels of the block (4x4 for block-compressed formats, one pixel otherwise). So
/// moving a block moves every byte of it.
pub proof fn lemma_gcn_block_holds_its_pixels(f: GcnSurfaceFormat)
    ensures
        gcn_block_size(f) * 8 == gcn_bpp(f) * gcn_pixel_block_size(f) * gcn_pixel_block_size(f),
{
}

} // verus!
