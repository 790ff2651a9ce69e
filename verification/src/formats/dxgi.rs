use vstd::prelude::*;

verus! {

/// DXGI surface formats, as stored in texture headers of PC and Xbox One releases.
#[allow(non_camel_case_types)]
#[derive(Clone, Copy, Debug, PartialEq, Eq, Structural, Hash)]
pub enum DxgiFormat {
    Unknown,
    R32G32B32A32_TYPELESS,
    R32G32B32A32_FLOAT,
    R32G32B32A32_UINT,
    R32G32B32A32_SINT,
    R32G32B32_TYPELESS,
    R32G32B32_FLOAT,
    R32G32B32_UINT,
    R32G32B32_SINT,
    R16G16B16A16_TYPELESS,
    R16G16B16A16_FLOAT,
    R16G16B16A16_UNORM,
    R16G16B16A16_UINT,
    R16G16B16A16_SNORM,
    R16G16B16A16_SINT,
    R32G32_TYPELESS,
    R32G32_FLOAT,
    R32G32_UINT,
    R32G32_SINT,
    R32G8X24_TYPELESS,
    D32_FLOAT_S8X24_UINT,
    R32_FLOAT_X8X24_TYPELESS,
    X32_TYPELESS_G8X24_UINT,
    R10G10B10A2_TYPELESS,
    R10G10B10A2_UNORM,
    R10G10B10A2_UINT,
    R11G11B10_FLOAT,
    R8G8B8A8_TYPELESS,
    R8G8B8A8_UNORM,
    R8G8B8A8_UNORM_SRGB,
    R8G8B8A8_UINT,
    R8G8B8A8_SNORM,
    R8G8B8A8_SINT,
    R16G16_TYPELESS,
    R16G16_FLOAT,
    R16G16_UNORM,
    R16G16_UINT,
    R16G16_SNORM,
    R16G16_SINT,
    R32_TYPELESS,
    D32_FLOAT,
    R32_FLOAT,
    R32_UINT,
    R32_SINT,
    R24G8_TYPELESS,
    D24_UNORM_S8_UINT,
    R24_UNORM_X8_TYPELESS,
    X24_TYPELESS_G8_UINT,
    R8G8_TYPELESS,
    R8G8_UNORM,
    R8G8_UINT,
    R8G8_SNORM,
    R8G8_SINT,
    R16_TYPELESS,
    R16_FLOAT,
    D16_UNORM,
    R16_UNORM,
    R16_UINT,
    R16_SNORM,
    R16_SINT,
    R8_TYPELESS,
    R8_UNORM,
    R8_UINT,
    R8_SNORM,
    R8_SINT,
    A8_UNORM,
    R1_UNORM,
    R9G9B9E5_SHAREDEXP,
    R8G8_B8G8_UNORM,
    G8R8_G8B8_UNORM,
    BC1_TYPELESS,
    BC1_UNORM,
    BC1_UNORM_SRGB,
    BC2_TYPELESS,
    BC2_UNORM,
    BC2_UNORM_SRGB,
    BC3_TYPELESS,
    BC3_UNORM,
    BC3_UNORM_SRGB,
    BC4_TYPELESS,
    BC4_UNORM,
    BC4_SNORM,
    BC5_TYPELESS,
    BC5_UNORM,
    BC5_SNORM,
    B5G6R5_UNORM,
    B5G5R5A1_UNORM,
    B8G8R8A8_UNORM,
    B8G8R8X8_UNORM,
    R10G10B10_XR_BIAS_A2_UNORM,
    B8G8R8A8_TYPELESS,
    B8G8R8A8_UNORM_SRGB,
    B8G8R8X8_TYPELESS,
    B8G8R8X8_UNORM_SRGB,
    BC6H_TYPELESS,
    BC6H_UF16,
    BC6H_SF16,
    BC7_TYPELESS,
    BC7_UNORM,
    BC7_UNORM_SRGB,
    AYUV,
    Y410,
    Y416,
    NV12,
    P010,
    P016,
    OPAQUE420,
    YUY2,
    Y210,
    Y216,
    NV11,
    AI44,
    IA44,
    P8,
    A8P8,
    B4G4R4A4_UNORM,
    P208,
    V208,
    V408,
    SAMPLER_FEEDBACK_MIN_MIP_OPAQUE,
    SAMPLER_FEEDBACK_MIP_REGION_USED_OPAQUE,
    FORCE_UINT,
}

/// A numeric format code that names no format.
#[derive(Clone, Copy, Debug, PartialEq, Eq, Structural)]
pub struct FormatOutOfRange {
    pub value: u32,
}

/// Numeric code of a DXGI format.
pub open spec fn dxgi_code(f: DxgiFormat) -> u32 {
    match f {
        DxgiFormat::Unknown => 0x0,
        DxgiFormat::R32G32B32A32_TYPELESS => 0x1,
        DxgiFormat::R32G32B32A32_FLOAT => 0x2,
        DxgiFormat::R32G32B32A32_UINT => 0x3,
        DxgiFormat::R32G32B32A32_SINT => 0x4,
        DxgiFormat::R32G32B32_TYPELESS => 0x5,
        DxgiFormat::R32G32B32_FLOAT => 0x6,
        DxgiFormat::R32G32B32_UINT => 0x7,
        DxgiFormat::R32G32B32_SINT => 0x8,
        DxgiFormat::R16G16B16A16_TYPELESS => 0x9,
        DxgiFormat::R16G16B16A16_FLOAT => 0xa,
        DxgiFormat::R16G16B16A16_UNORM => 0xb,
        DxgiFormat::R16G16B16A16_UINT => 0xc,
        DxgiFormat::R16G16B16A16_SNORM => 0xd,
        DxgiFormat::R16G16B16A16_SINT => 0xe,
        DxgiFormat::R32G32_TYPELESS => 0xf,
        DxgiFormat::R32G32_FLOAT => 0x10,
        DxgiFormat::R32G32_UINT => 0x11,
        DxgiFormat::R32G32_SINT => 0x12,
        DxgiFormat::R32G8X24_TYPELESS => 0x13,
        DxgiFormat::D32_FLOAT_S8X24_UINT => 0x14,
        DxgiFormat::R32_FLOAT_X8X24_TYPELESS => 0x15,
        DxgiFormat::X32_TYPELESS_G8X24_UINT => 0x16,
        DxgiFormat::R10G10B10A2_TYPELESS => 0x17,
        DxgiFormat::R10G10B10A2_UNORM => 0x18,
        DxgiFormat::R10G10B10A2_UINT => 0x19,
        DxgiFormat::R11G11B10_FLOAT => 0x1a,
        DxgiFormat::R8G8B8A8_TYPELESS => 0x1b,
        DxgiFormat::R8G8B8A8_UNORM => 0x1c,
        DxgiFormat::R8G8B8A8_UNORM_SRGB => 0x1d,
        DxgiFormat::R8G8B8A8_UINT => 0x1e,
        DxgiFormat::R8G8B8A8_SNORM => 0x1f,
        DxgiFormat::R8G8B8A8_SINT => 0x20,
        DxgiFormat::R16G16_TYPELESS => 0x21,
        DxgiFormat::R16G16_FLOAT => 0x22,
        DxgiFormat::R16G16_UNORM => 0x23,
        DxgiFormat::R16G16_UINT => 0x24,
        DxgiFormat::R16G16_SNORM => 0x25,
        DxgiFormat::R16G16_SINT => 0x26,
        DxgiFormat::R32_TYPELESS => 0x27,
        DxgiFormat::D32_FLOAT => 0x28,
        DxgiFormat::R32_FLOAT => 0x29,
        DxgiFormat::R32_UINT => 0x2a,
        DxgiFormat::R32_SINT => 0x2b,
        DxgiFormat::R24G8_TYPELESS => 0x2c,
        DxgiFormat::D24_UNORM_S8_UINT => 0x2d,
        DxgiFormat::R24_UNORM_X8_TYPELESS => 0x2e,
        DxgiFormat::X24_TYPELESS_G8_UINT => 0x2f,
        DxgiFormat::R8G8_TYPELESS => 0x30,
        DxgiFormat::R8G8_UNORM => 0x31,
        DxgiFormat::R8G8_UINT => 0x32,
        DxgiFormat::R8G8_SNORM => 0x33,
        DxgiFormat::R8G8_SINT => 0x34,
        DxgiFormat::R16_TYPELESS => 0x35,
        DxgiFormat::R16_FLOAT => 0x36,
        DxgiFormat::D16_UNORM => 0x37,
        DxgiFormat::R16_UNORM => 0x38,
        DxgiFormat::R16_UINT => 0x39,
        DxgiFormat::R16_SNORM => 0x3a,
        DxgiFormat::R16_SINT => 0x3b,
        DxgiFormat::R8_TYPELESS => 0x3c,
        DxgiFormat::R8_UNORM => 0x3d,
        DxgiFormat::R8_UINT => 0x3e,
        DxgiFormat::R8_SNORM => 0x3f,
        DxgiFormat::R8_SINT => 0x40,
        DxgiFormat::A8_UNORM => 0x41,
        DxgiFormat::R1_UNORM => 0x42,
        DxgiFormat::R9G9B9E5_SHAREDEXP => 0x43,
        DxgiFormat::R8G8_B8G8_UNORM => 0x44,
        DxgiFormat::G8R8_G8B8_UNORM => 0x45,
        DxgiFormat::BC1_TYPELESS => 0x46,
        DxgiFormat::BC1_UNORM => 0x47,
        DxgiFormat::BC1_UNORM_SRGB => 0x48,
        DxgiFormat::BC2_TYPELESS => 0x49,
        DxgiFormat::BC2_UNORM => 0x4a,
        DxgiFormat::BC2_UNORM_SRGB => 0x4b,
        DxgiFormat::BC3_TYPELESS => 0x4c,
        DxgiFormat::BC3_UNORM => 0x4d,
        DxgiFormat::BC3_UNORM_SRGB => 0x4e,
        DxgiFormat::BC4_TYPELESS => 0x4f,
        DxgiFormat::BC4_UNORM => 0x50,
        DxgiFormat::BC4_SNORM => 0x51,
        DxgiFormat::BC5_TYPELESS => 0x52,
        DxgiFormat::BC5_UNORM => 0x53,
        DxgiFormat::BC5_SNORM => 0x54,
        DxgiFormat::B5G6R5_UNORM => 0x55,
        DxgiFormat::B5G5R5A1_UNORM => 0x56,
        DxgiFormat::B8G8R8A8_UNORM => 0x57,
        DxgiFormat::B8G8R8X8_UNORM => 0x58,
        DxgiFormat::R10G10B10_XR_BIAS_A2_UNORM => 0x59,
        DxgiFormat::B8G8R8A8_TYPELESS => 0x5a,
        DxgiFormat::B8G8R8A8_UNORM_SRGB => 0x5b,
        DxgiFormat::B8G8R8X8_TYPELESS => 0x5c,
        DxgiFormat::B8G8R8X8_UNORM_SRGB => 0x5d,
        DxgiFormat::BC6H_TYPELESS => 0x5e,
        DxgiFormat::BC6H_UF16 => 0x5f,
        DxgiFormat::BC6H_SF16 => 0x60,
        DxgiFormat::BC7_TYPELESS => 0x61,
        DxgiFormat::BC7_UNORM => 0x62,
        DxgiFormat::BC7_UNORM_SRGB => 0x63,
        DxgiFormat::AYUV => 0x64,
        DxgiFormat::Y410 => 0x65,
        DxgiFormat::Y416 => 0x66,
        DxgiFormat::NV12 => 0x67,
        DxgiFormat::P010 => 0x68,
        DxgiFormat::P016 => 0x69,
        DxgiFormat::OPAQUE420 => 0x6a,
        DxgiFormat::YUY2 => 0x6b,
        DxgiFormat::Y210 => 0x6c,
        DxgiFormat::Y216 => 0x6d,
        DxgiFormat::NV11 => 0x6e,
        DxgiFormat::AI44 => 0x6f,
        DxgiFormat::IA44 => 0x70,
        DxgiFormat::P8 => 0x71,
        DxgiFormat::A8P8 => 0x72,
        DxgiFormat::B4G4R4A4_UNORM => 0x73,
        DxgiFormat::P208 => 0x82,
        DxgiFormat::V208 => 0x83,
        DxgiFormat::V408 => 0x84,
        DxgiFormat::SAMPLER_FEEDBACK_MIN_MIP_OPAQUE => 0x85,
        DxgiFormat::SAMPLER_FEEDBACK_MIP_REGION_USED_OPAQUE => 0x86,
        DxgiFormat::FORCE_UINT => 0xffffffff,
    }
}

/// Codes that a texture header may hold: 0..=115 and 130..=132.
pub open spec fn dxgi_code_in_range(v: u32) -> bool {
    v <= 115 || (130 <= v && v <= 132)
}

/// Does the format have a known bit count per pixel?
pub open spec fn dxgi_has_bpp(f: DxgiFormat) -> bool {
    match f {
        DxgiFormat::Unknown => false,
        DxgiFormat::P208 => false,
        DxgiFormat::V208 => false,
        DxgiFormat::V408 => false,
        DxgiFormat::SAMPLER_FEEDBACK_MIN_MIP_OPAQUE => false,
        DxgiFormat::SAMPLER_FEEDBACK_MIP_REGION_USED_OPAQUE => false,
        DxgiFormat::FORCE_UINT => false,
        _ => true,
    }
}

/// Bits per pixel (per 4x4 block pixel for block-compressed formats).
pub open spec fn dxgi_bpp(f: DxgiFormat) -> nat {
    match f {
        DxgiFormat::R32G32B32A32_TYPELESS => 128,
        DxgiFormat::R32G32B32A32_FLOAT => 128,
        DxgiFormat::R32G32B32A32_UINT => 128,
        DxgiFormat::R32G32B32A32_SINT => 128,
        DxgiFormat::R32G32B32_TYPELESS => 96,
        DxgiFormat::R32G32B32_FLOAT => 96,
        DxgiFormat::R32G32B32_UINT => 96,
        DxgiFormat::R32G32B32_SINT => 96,
        DxgiFormat::R16G16B16A16_TYPELESS => 64,
        DxgiFormat::R16G16B16A16_FLOAT => 64,
        DxgiFormat::R16G16B16A16_UNORM => 64,
        DxgiFormat::R16G16B16A16_UINT => 64,
        DxgiFormat::R16G16B16A16_SNORM => 64,
        DxgiFormat::R16G16B16A16_SINT => 64,
        DxgiFormat::R32G32_TYPELESS => 64,
        DxgiFormat::R32G32_FLOAT => 64,
        DxgiFormat::R32G32_UINT => 64,
        DxgiFormat::R32G32_SINT => 64,
        DxgiFormat::R32G8X24_TYPELESS => 64,
        DxgiFormat::D32_FLOAT_S8X24_UINT => 64,
        DxgiFormat::R32_FLOAT_X8X24_TYPELESS => 64,
        DxgiFormat::X32_TYPELESS_G8X24_UINT => 64,
        DxgiFormat::R10G10B10A2_TYPELESS => 32,
        DxgiFormat::R10G10B10A2_UNORM => 32,
        DxgiFormat::R10G10B10A2_UINT => 32,
        DxgiFormat::R11G11B10_FLOAT => 32,
        DxgiFormat::R8G8B8A8_TYPELESS => 32,
        DxgiFormat::R8G8B8A8_UNORM => 32,
        DxgiFormat::R8G8B8A8_UNORM_SRGB => 32,
        DxgiFormat::R8G8B8A8_UINT => 32,
        DxgiFormat::R8G8B8A8_SNORM => 32,
        DxgiFormat::R8G8B8A8_SINT => 32,
        DxgiFormat::R16G16_TYPELESS => 32,
        DxgiFormat::R16G16_FLOAT => 32,
        DxgiFormat::R16G16_UNORM => 32,
        DxgiFormat::R16G16_UINT => 32,
        DxgiFormat::R16G16_SNORM => 32,
        DxgiFormat::R16G16_SINT => 32,
        DxgiFormat::R32_TYPELESS => 32,
        DxgiFormat::D32_FLOAT => 32,
        DxgiFormat::R32_FLOAT => 32,
        DxgiFormat::R32_UINT => 32,
        DxgiFormat::R32_SINT => 32,
        DxgiFormat::R24G8_TYPELESS => 32,
        DxgiFormat::D24_UNORM_S8_UINT => 32,
        DxgiFormat::R24_UNORM_X8_TYPELESS => 32,
        DxgiFormat::X24_TYPELESS_G8_UINT => 32,
        DxgiFormat::R8G8_TYPELESS => 16,
        DxgiFormat::R8G8_UNORM => 16,
        DxgiFormat::R8G8_UINT => 16,
        DxgiFormat::R8G8_SNORM => 16,
        DxgiFormat::R8G8_SINT => 16,
        DxgiFormat::R16_TYPELESS => 16,
        DxgiFormat::R16_FLOAT => 16,
        DxgiFormat::D16_UNORM => 16,
        DxgiFormat::R16_UNORM => 16,
        DxgiFormat::R16_UINT => 16,
        DxgiFormat::R16_SNORM => 16,
        DxgiFormat::R16_SINT => 16,
        DxgiFormat::R8_TYPELESS => 8,
        DxgiFormat::R8_UNORM => 8,
        DxgiFormat::R8_UINT => 8,
        DxgiFormat::R8_SNORM => 8,
        DxgiFormat::R8_SINT => 8,
        DxgiFormat::A8_UNORM => 8,
        DxgiFormat::R1_UNORM => 1,
        DxgiFormat::R9G9B9E5_SHAREDEXP => 32,
        DxgiFormat::R8G8_B8G8_UNORM => 32,
        DxgiFormat::G8R8_G8B8_UNORM => 32,
        DxgiFormat::BC1_TYPELESS => 4,
        DxgiFormat::BC1_UNORM => 4,
        DxgiFormat::BC1_UNORM_SRGB => 4,
        DxgiFormat::BC2_TYPELESS => 8,
        DxgiFormat::BC2_UNORM => 8,
        DxgiFormat::BC2_UNORM_SRGB => 8,
        DxgiFormat::BC3_TYPELESS => 8,
        DxgiFormat::BC3_UNORM => 8,
        DxgiFormat::BC3_UNORM_SRGB => 8,
        DxgiFormat::BC4_TYPELESS => 4,
        DxgiFormat::BC4_UNORM => 4,
        DxgiFormat::BC4_SNORM => 4,
        DxgiFormat::BC5_TYPELESS => 8,
        DxgiFormat::BC5_UNORM => 8,
        DxgiFormat::BC5_SNORM => 8,
        DxgiFormat::B5G6R5_UNORM => 16,
        DxgiFormat::B5G5R5A1_UNORM => 16,
        DxgiFormat::B8G8R8A8_UNORM => 32,
        DxgiFormat::B8G8R8X8_UNORM => 32,
        DxgiFormat::R10G10B10_XR_BIAS_A2_UNORM => 32,
        DxgiFormat::B8G8R8A8_TYPELESS => 32,
        DxgiFormat::B8G8R8A8_UNORM_SRGB => 32,
        DxgiFormat::B8G8R8X8_TYPELESS => 32,
        DxgiFormat::B8G8R8X8_UNORM_SRGB => 32,
        DxgiFormat::BC6H_TYPELESS => 8,
        DxgiFormat::BC6H_UF16 => 8,
        DxgiFormat::BC6H_SF16 => 8,
        DxgiFormat::BC7_TYPELESS => 8,
        DxgiFormat::BC7_UNORM => 8,
        DxgiFormat::BC7_UNORM_SRGB => 8,
        DxgiFormat::AYUV => 32,
        DxgiFormat::Y410 => 32,
        DxgiFormat::Y416 => 64,
        DxgiFormat::NV12 => 12,
        DxgiFormat::P010 => 24,
        DxgiFormat::P016 => 24,
        DxgiFormat::OPAQUE420 => 12,
        DxgiFormat::YUY2 => 32,
        DxgiFormat::Y210 => 64,
        DxgiFormat::Y216 => 64,
        DxgiFormat::NV11 => 12,
        DxgiFormat::AI44 => 8,
        DxgiFormat::IA44 => 8,
        DxgiFormat::P8 => 8,
        DxgiFormat::A8P8 => 16,
        DxgiFormat::B4G4R4A4_UNORM => 16,
        _ => 0,
    }
}

pub open spec fn dxgi_is_srgb(f: DxgiFormat) -> bool {
    match f {
        DxgiFormat::R8G8B8A8_UNORM_SRGB => true,
        DxgiFormat::BC1_UNORM_SRGB => true,
        DxgiFormat::BC2_UNORM_SRGB => true,
        DxgiFormat::BC3_UNORM_SRGB => true,
        DxgiFormat::B8G8R8A8_UNORM_SRGB => true,
        DxgiFormat::B8G8R8X8_UNORM_SRGB => true,
        DxgiFormat::BC7_UNORM_SRGB => true,
        _ => false,
    }
}

pub open spec fn dxgi_is_compressed(f: DxgiFormat) -> bool {
    match f {
        DxgiFormat::BC1_TYPELESS => true,
        DxgiFormat::BC1_UNORM => true,
        DxgiFormat::BC1_UNORM_SRGB => true,
        DxgiFormat::BC4_TYPELESS => true,
        DxgiFormat::BC4_UNORM => true,
        DxgiFormat::BC4_SNORM => true,
        DxgiFormat::BC2_TYPELESS => true,
        DxgiFormat::BC2_UNORM => true,
        DxgiFormat::BC2_UNORM_SRGB => true,
        DxgiFormat::BC3_TYPELESS => true,
        DxgiFormat::BC3_UNORM => true,
        DxgiFormat::BC3_UNORM_SRGB => true,
        DxgiFormat::BC5_TYPELESS => true,
        DxgiFormat::BC5_UNORM => true,
        DxgiFormat::BC5_SNORM => true,
        DxgiFormat::BC6H_TYPELESS => true,
        DxgiFormat::BC6H_UF16 => true,
        DxgiFormat::BC6H_SF16 => true,
        DxgiFormat::BC7_TYPELESS => true,
        DxgiFormat::BC7_UNORM => true,
        DxgiFormat::BC7_UNORM_SRGB => true,
        _ => false,
    }
}

/// Block-compressed formats with 8-byte 4x4 blocks.
pub open spec fn dxgi_is_bc_8(f: DxgiFormat) -> bool {
    match f {
        DxgiFormat::BC1_TYPELESS => true,
        DxgiFormat::BC1_UNORM => true,
        DxgiFormat::BC1_UNORM_SRGB => true,
        DxgiFormat::BC4_TYPELESS => true,
        DxgiFormat::BC4_UNORM => true,
        DxgiFormat::BC4_SNORM => true,
        _ => false,
    }
}

/// Block-compressed formats with 16-byte 4x4 blocks.
pub open spec fn dxgi_is_bc_16(f: DxgiFormat) -> bool {
    match f {
        DxgiFormat::BC2_TYPELESS => true,
        DxgiFormat::BC2_UNORM => true,
        DxgiFormat::BC2_UNORM_SRGB => true,
        DxgiFormat::BC3_TYPELESS => true,
        DxgiFormat::BC3_UNORM => true,
        DxgiFormat::BC3_UNORM_SRGB => true,
        DxgiFormat::BC5_TYPELESS => true,
        DxgiFormat::BC5_UNORM => true,
        DxgiFormat::BC5_SNORM => true,
        DxgiFormat::BC6H_TYPELESS => true,
        DxgiFormat::BC6H_UF16 => true,
        DxgiFormat::BC6H_SF16 => true,
        DxgiFormat::BC7_TYPELESS => true,
        DxgiFormat::BC7_UNORM => true,
        DxgiFormat::BC7_UNORM_SRGB => true,
        _ => false,
    }
}

/// Number of 4x4 blocks along a side of `n` pixels (at least one).
pub open spec fn block_count(n: int) -> int {
    if (n + 3) / 4 < 1 {
        1
    } else {
        (n + 3) / 4
    }
}

/// Row pitch and slice size in bytes of a `width` x `height` surface.
pub open spec fn dxgi_pitch(f: DxgiFormat, width: int, height: int) -> (int, int) {
    if dxgi_is_bc_8(f) {
        (block_count(width) * 8, block_count(width) * 8 * block_count(height))
    } else if dxgi_is_bc_16(f) {
        (block_count(width) * 16, block_count(width) * 16 * block_count(height))
    } else {
        ((width * dxgi_bpp(f) + 7) / 8, height * ((width * dxgi_bpp(f) + 7) / 8))
    }
}

/// Inputs on which `calculate_pitch` computes without overflow or an unknown format.
pub open spec fn dxgi_pitch_fits(f: DxgiFormat, width: int, height: int) -> bool {
    if dxgi_is_bc_8(f) || dxgi_is_bc_16(f) {
        &&& width + 3 <= i64::MAX
        &&& height + 3 <= i64::MAX
        &&& dxgi_pitch(f, width, height).1 <= usize::MAX
    } else {
        &&& dxgi_has_bpp(f)
        &&& width * dxgi_bpp(f) + 7 <= usize::MAX
        &&& dxgi_pitch(f, width, height).1 <= usize::MAX
    }
}

impl DxgiFormat {
    /// Numeric code of the format.
    pub fn code(&self) -> (r: u32)
        ensures
            r == dxgi_code(*self),
    {
        match self {
            DxgiFormat::Unknown => 0x0,
            DxgiFormat::R32G32B32A32_TYPELESS => 0x1,
            DxgiFormat::R32G32B32A32_FLOAT => 0x2,
            DxgiFormat::R32G32B32A32_UINT => 0x3,
            DxgiFormat::R32G32B32A32_SINT => 0x4,
            DxgiFormat::R32G32B32_TYPELESS => 0x5,
            DxgiFormat::R32G32B32_FLOAT => 0x6,
            DxgiFormat::R32G32B32_UINT => 0x7,
            DxgiFormat::R32G32B32_SINT => 0x8,
            DxgiFormat::R16G16B16A16_TYPELESS => 0x9,
            DxgiFormat::R16G16B16A16_FLOAT => 0xa,
            DxgiFormat::R16G16B16A16_UNORM => 0xb,
            DxgiFormat::R16G16B16A16_UINT => 0xc,
            DxgiFormat::R16G16B16A16_SNORM => 0xd,
            DxgiFormat::R16G16B16A16_SINT => 0xe,
            DxgiFormat::R32G32_TYPELESS => 0xf,
            DxgiFormat::R32G32_FLOAT => 0x10,
            DxgiFormat::R32G32_UINT => 0x11,
            DxgiFormat::R32G32_SINT => 0x12,
            DxgiFormat::R32G8X24_TYPELESS => 0x13,
            DxgiFormat::D32_FLOAT_S8X24_UINT => 0x14,
            DxgiFormat::R32_FLOAT_X8X24_TYPELESS => 0x15,
            DxgiFormat::X32_TYPELESS_G8X24_UINT => 0x16,
            DxgiFormat::R10G10B10A2_TYPELESS => 0x17,
            DxgiFormat::R10G10B10A2_UNORM => 0x18,
            DxgiFormat::R10G10B10A2_UINT => 0x19,
            DxgiFormat::R11G11B10_FLOAT => 0x1a,
            DxgiFormat::R8G8B8A8_TYPELESS => 0x1b,
            DxgiFormat::R8G8B8A8_UNORM => 0x1c,
            DxgiFormat::R8G8B8A8_UNORM_SRGB => 0x1d,
            DxgiFormat::R8G8B8A8_UINT => 0x1e,
            DxgiFormat::R8G8B8A8_SNORM => 0x1f,
            DxgiFormat::R8G8B8A8_SINT => 0x20,
            DxgiFormat::R16G16_TYPELESS => 0x21,
            DxgiFormat::R16G16_FLOAT => 0x22,
            DxgiFormat::R16G16_UNORM => 0x23,
            DxgiFormat::R16G16_UINT => 0x24,
            DxgiFormat::R16G16_SNORM => 0x25,
            DxgiFormat::R16G16_SINT => 0x26,
            DxgiFormat::R32_TYPELESS => 0x27,
            DxgiFormat::D32_FLOAT => 0x28,
            DxgiFormat::R32_FLOAT => 0x29,
            DxgiFormat::R32_UINT => 0x2a,
            DxgiFormat::R32_SINT => 0x2b,
            DxgiFormat::R24G8_TYPELESS => 0x2c,
            DxgiFormat::D24_UNORM_S8_UINT => 0x2d,
            DxgiFormat::R24_UNORM_X8_TYPELESS => 0x2e,
            DxgiFormat::X24_TYPELESS_G8_UINT => 0x2f,
            DxgiFormat::R8G8_TYPELESS => 0x30,
            DxgiFormat::R8G8_UNORM => 0x31,
            DxgiFormat::R8G8_UINT => 0x32,
            DxgiFormat::R8G8_SNORM => 0x33,
            DxgiFormat::R8G8_SINT => 0x34,
            DxgiFormat::R16_TYPELESS => 0x35,
            DxgiFormat::R16_FLOAT => 0x36,
            DxgiFormat::D16_UNORM => 0x37,
            DxgiFormat::R16_UNORM => 0x38,
            DxgiFormat::R16_UINT => 0x39,
            DxgiFormat::R16_SNORM => 0x3a,
            DxgiFormat::R16_SINT => 0x3b,
            DxgiFormat::R8_TYPELESS => 0x3c,
            DxgiFormat::R8_UNORM => 0x3d,
            DxgiFormat::R8_UINT => 0x3e,
            DxgiFormat::R8_SNORM => 0x3f,
            DxgiFormat::R8_SINT => 0x40,
            DxgiFormat::A8_UNORM => 0x41,
            DxgiFormat::R1_UNORM => 0x42,
            DxgiFormat::R9G9B9E5_SHAREDEXP => 0x43,
            DxgiFormat::R8G8_B8G8_UNORM => 0x44,
            DxgiFormat::G8R8_G8B8_UNORM => 0x45,
            DxgiFormat::BC1_TYPELESS => 0x46,
            DxgiFormat::BC1_UNORM => 0x47,
            DxgiFormat::BC1_UNORM_SRGB => 0x48,
            DxgiFormat::BC2_TYPELESS => 0x49,
            DxgiFormat::BC2_UNORM => 0x4a,
            DxgiFormat::BC2_UNORM_SRGB => 0x4b,
            DxgiFormat::BC3_TYPELESS => 0x4c,
            DxgiFormat::BC3_UNORM => 0x4d,
            DxgiFormat::BC3_UNORM_SRGB => 0x4e,
            DxgiFormat::BC4_TYPELESS => 0x4f,
            DxgiFormat::BC4_UNORM => 0x50,
            DxgiFormat::BC4_SNORM => 0x51,
            DxgiFormat::BC5_TYPELESS => 0x52,
            DxgiFormat::BC5_UNORM => 0x53,
            DxgiFormat::BC5_SNORM => 0x54,
            DxgiFormat::B5G6R5_UNORM => 0x55,
            DxgiFormat::B5G5R5A1_UNORM => 0x56,
            DxgiFormat::B8G8R8A8_UNORM => 0x57,
            DxgiFormat::B8G8R8X8_UNORM => 0x58,
            DxgiFormat::R10G10B10_XR_BIAS_A2_UNORM => 0x59,
            DxgiFormat::B8G8R8A8_TYPELESS => 0x5a,
            DxgiFormat::B8G8R8A8_UNORM_SRGB => 0x5b,
            DxgiFormat::B8G8R8X8_TYPELESS => 0x5c,
            DxgiFormat::B8G8R8X8_UNORM_SRGB => 0x5d,
            DxgiFormat::BC6H_TYPELESS => 0x5e,
            DxgiFormat::BC6H_UF16 => 0x5f,
            DxgiFormat::BC6H_SF16 => 0x60,
            DxgiFormat::BC7_TYPELESS => 0x61,
            DxgiFormat::BC7_UNORM => 0x62,
            DxgiFormat::BC7_UNORM_SRGB => 0x63,
            DxgiFormat::AYUV => 0x64,
            DxgiFormat::Y410 => 0x65,
            DxgiFormat::Y416 => 0x66,
            DxgiFormat::NV12 => 0x67,
            DxgiFormat::P010 => 0x68,
            DxgiFormat::P016 => 0x69,
            DxgiFormat::OPAQUE420 => 0x6a,
            DxgiFormat::YUY2 => 0x6b,
            DxgiFormat::Y210 => 0x6c,
            DxgiFormat::Y216 => 0x6d,
            DxgiFormat::NV11 => 0x6e,
            DxgiFormat::AI44 => 0x6f,
            DxgiFormat::IA44 => 0x70,
            DxgiFormat::P8 => 0x71,
            DxgiFormat::A8P8 => 0x72,
            DxgiFormat::B4G4R4A4_UNORM => 0x73,
            DxgiFormat::P208 => 0x82,
            DxgiFormat::V208 => 0x83,
            DxgiFormat::V408 => 0x84,
            DxgiFormat::SAMPLER_FEEDBACK_MIN_MIP_OPAQUE => 0x85,
            DxgiFormat::SAMPLER_FEEDBACK_MIP_REGION_USED_OPAQUE => 0x86,
            DxgiFormat::FORCE_UINT => 0xffffffff,
        }
    }

    /// The format with the given code; codes outside 0..=115 and 130..=132 are refused.
    pub fn try_from_u32(value: u32) -> (r: Result<DxgiFormat, FormatOutOfRange>)
        ensures
            r is Ok <==> dxgi_code_in_range(value),
            r matches Ok(f) ==> dxgi_code(f) == value,
            r matches Err(e) ==> e.value == value,
    {
        match value {
            0x0 => Ok(DxgiFormat::Unknown),
            0x1 => Ok(DxgiFormat::R32G32B32A32_TYPELESS),
            0x2 => Ok(DxgiFormat::R32G32B32A32_FLOAT),
            0x3 => Ok(DxgiFormat::R32G32B32A32_UINT),
            0x4 => Ok(DxgiFormat::R32G32B32A32_SINT),
            0x5 => Ok(DxgiFormat::R32G32B32_TYPELESS),
            0x6 => Ok(DxgiFormat::R32G32B32_FLOAT),
            0x7 => Ok(DxgiFormat::R32G32B32_UINT),
            0x8 => Ok(DxgiFormat::R32G32B32_SINT),
            0x9 => Ok(DxgiFormat::R16G16B16A16_TYPELESS),
            0xa => Ok(DxgiFormat::R16G16B16A16_FLOAT),
            0xb => Ok(DxgiFormat::R16G16B16A16_UNORM),
            0xc => Ok(DxgiFormat::R16G16B16A16_UINT),
            0xd => Ok(DxgiFormat::R16G16B16A16_SNORM),
            0xe => Ok(DxgiFormat::R16G16B16A16_SINT),
            0xf => Ok(DxgiFormat::R32G32_TYPELESS),
            0x10 => Ok(DxgiFormat::R32G32_FLOAT),
            0x11 => Ok(DxgiFormat::R32G32_UINT),
            0x12 => Ok(DxgiFormat::R32G32_SINT),
            0x13 => Ok(DxgiFormat::R32G8X24_TYPELESS),
            0x14 => Ok(DxgiFormat::D32_FLOAT_S8X24_UINT),
            0x15 => Ok(DxgiFormat::R32_FLOAT_X8X24_TYPELESS),
            0x16 => Ok(DxgiFormat::X32_TYPELESS_G8X24_UINT),
            0x17 => Ok(DxgiFormat::R10G10B10A2_TYPELESS),
            0x18 => Ok(DxgiFormat::R10G10B10A2_UNORM),
            0x19 => Ok(DxgiFormat::R10G10B10A2_UINT),
            0x1a => Ok(DxgiFormat::R11G11B10_FLOAT),
            0x1b => Ok(DxgiFormat::R8G8B8A8_TYPELESS),
            0x1c => Ok(DxgiFormat::R8G8B8A8_UNORM),
            0x1d => Ok(DxgiFormat::R8G8B8A8_UNORM_SRGB),
            0x1e => Ok(DxgiFormat::R8G8B8A8_UINT),
            0x1f => Ok(DxgiFormat::R8G8B8A8_SNORM),
            0x20 => Ok(DxgiFormat::R8G8B8A8_SINT),
            0x21 => Ok(DxgiFormat::R16G16_TYPELESS),
            0x22 => Ok(DxgiFormat::R16G16_FLOAT),
            0x23 => Ok(DxgiFormat::R16G16_UNORM),
            0x24 => Ok(DxgiFormat::R16G16_UINT),
            0x25 => Ok(DxgiFormat::R16G16_SNORM),
            0x26 => Ok(DxgiFormat::R16G16_SINT),
            0x27 => Ok(DxgiFormat::R32_TYPELESS),
            0x28 => Ok(DxgiFormat::D32_FLOAT),
            0x29 => Ok(DxgiFormat::R32_FLOAT),
            0x2a => Ok(DxgiFormat::R32_UINT),
            0x2b => Ok(DxgiFormat::R32_SINT),
            0x2c => Ok(DxgiFormat::R24G8_TYPELESS),
            0x2d => Ok(DxgiFormat::D24_UNORM_S8_UINT),
            0x2e => Ok(DxgiFormat::R24_UNORM_X8_TYPELESS),
            0x2f => Ok(DxgiFormat::X24_TYPELESS_G8_UINT),
            0x30 => Ok(DxgiFormat::R8G8_TYPELESS),
            0x31 => Ok(DxgiFormat::R8G8_UNORM),
            0x32 => Ok(DxgiFormat::R8G8_UINT),
            0x33 => Ok(DxgiFormat::R8G8_SNORM),
            0x34 => Ok(DxgiFormat::R8G8_SINT),
            0x35 => Ok(DxgiFormat::R16_TYPELESS),
            0x36 => Ok(DxgiFormat::R16_FLOAT),
            0x37 => Ok(DxgiFormat::D16_UNORM),
            0x38 => Ok(DxgiFormat::R16_UNORM),
            0x39 => Ok(DxgiFormat::R16_UINT),
            0x3a => Ok(DxgiFormat::R16_SNORM),
            0x3b => Ok(DxgiFormat::R16_SINT),
            0x3c => Ok(DxgiFormat::R8_TYPELESS),
            0x3d => Ok(DxgiFormat::R8_UNORM),
            0x3e => Ok(DxgiFormat::R8_UINT),
            0x3f => Ok(DxgiFormat::R8_SNORM),
            0x40 => Ok(DxgiFormat::R8_SINT),
            0x41 => Ok(DxgiFormat::A8_UNORM),
            0x42 => Ok(DxgiFormat::R1_UNORM),
            0x43 => Ok(DxgiFormat::R9G9B9E5_SHAREDEXP),
            0x44 => Ok(DxgiFormat::R8G8_B8G8_UNORM),
            0x45 => Ok(DxgiFormat::G8R8_G8B8_UNORM),
            0x46 => Ok(DxgiFormat::BC1_TYPELESS),
            0x47 => Ok(DxgiFormat::BC1_UNORM),
            0x48 => Ok(DxgiFormat::BC1_UNORM_SRGB),
            0x49 => Ok(DxgiFormat::BC2_TYPELESS),
            0x4a => Ok(DxgiFormat::BC2_UNORM),
            0x4b => Ok(DxgiFormat::BC2_UNORM_SRGB),
            0x4c => Ok(DxgiFormat::BC3_TYPELESS),
            0x4d => Ok(DxgiFormat::BC3_UNORM),
            0x4e => Ok(DxgiFormat::BC3_UNORM_SRGB),
            0x4f => Ok(DxgiFormat::BC4_TYPELESS),
            0x50 => Ok(DxgiFormat::BC4_UNORM),
            0x51 => Ok(DxgiFormat::BC4_SNORM),
            0x52 => Ok(DxgiFormat::BC5_TYPELESS),
            0x53 => Ok(DxgiFormat::BC5_UNORM),
            0x54 => Ok(DxgiFormat::BC5_SNORM),
            0x55 => Ok(DxgiFormat::B5G6R5_UNORM),
            0x56 => Ok(DxgiFormat::B5G5R5A1_UNORM),
            0x57 => Ok(DxgiFormat::B8G8R8A8_UNORM),
            0x58 => Ok(DxgiFormat::B8G8R8X8_UNORM),
            0x59 => Ok(DxgiFormat::R10G10B10_XR_BIAS_A2_UNORM),
            0x5a => Ok(DxgiFormat::B8G8R8A8_TYPELESS),
            0x5b => Ok(DxgiFormat::B8G8R8A8_UNORM_SRGB),
            0x5c => Ok(DxgiFormat::B8G8R8X8_TYPELESS),
            0x5d => Ok(DxgiFormat::B8G8R8X8_UNORM_SRGB),
            0x5e => Ok(DxgiFormat::BC6H_TYPELESS),
            0x5f => Ok(DxgiFormat::BC6H_UF16),
            0x60 => Ok(DxgiFormat::BC6H_SF16),
            0x61 => Ok(DxgiFormat::BC7_TYPELESS),
            0x62 => Ok(DxgiFormat::BC7_UNORM),
            0x63 => Ok(DxgiFormat::BC7_UNORM_SRGB),
            0x64 => Ok(DxgiFormat::AYUV),
            0x65 => Ok(DxgiFormat::Y410),
            0x66 => Ok(DxgiFormat::Y416),
            0x67 => Ok(DxgiFormat::NV12),
            0x68 => Ok(DxgiFormat::P010),
            0x69 => Ok(DxgiFormat::P016),
            0x6a => Ok(DxgiFormat::OPAQUE420),
            0x6b => Ok(DxgiFormat::YUY2),
            0x6c => Ok(DxgiFormat::Y210),
            0x6d => Ok(DxgiFormat::Y216),
            0x6e => Ok(DxgiFormat::NV11),
            0x6f => Ok(DxgiFormat::AI44),
            0x70 => Ok(DxgiFormat::IA44),
            0x71 => Ok(DxgiFormat::P8),
            0x72 => Ok(DxgiFormat::A8P8),
            0x73 => Ok(DxgiFormat::B4G4R4A4_UNORM),
            0x82 => Ok(DxgiFormat::P208),
            0x83 => Ok(DxgiFormat::V208),
            0x84 => Ok(DxgiFormat::V408),
            _ => Err(FormatOutOfRange { value }),
        }
    }

    /// Whether the format has a known bit count per pixel (see `dxgi_has_bpp`).
    pub fn has_bpp(&self) -> (r: bool)
        ensures
            r == dxgi_has_bpp(*self),
    {
        match self {
            DxgiFormat::Unknown => false,
            DxgiFormat::P208 => false,
            DxgiFormat::V208 => false,
            DxgiFormat::V408 => false,
            DxgiFormat::SAMPLER_FEEDBACK_MIN_MIP_OPAQUE => false,
            DxgiFormat::SAMPLER_FEEDBACK_MIP_REGION_USED_OPAQUE => false,
            DxgiFormat::FORCE_UINT => false,
            _ => true,
        }
    }

    /// Bits per pixel.
    pub fn bpp(&self) -> (r: usize)
        requires
            dxgi_has_bpp(*self),
        ensures
            r == dxgi_bpp(*self),
    {
        match self {
            DxgiFormat::R32G32B32A32_TYPELESS => 128,
            DxgiFormat::R32G32B32A32_FLOAT => 128,
            DxgiFormat::R32G32B32A32_UINT => 128,
            DxgiFormat::R32G32B32A32_SINT => 128,
            DxgiFormat::R32G32B32_TYPELESS => 96,
            DxgiFormat::R32G32B32_FLOAT => 96,
            DxgiFormat::R32G32B32_UINT => 96,
            DxgiFormat::R32G32B32_SINT => 96,
            DxgiFormat::R16G16B16A16_TYPELESS => 64,
            DxgiFormat::R16G16B16A16_FLOAT => 64,
            DxgiFormat::R16G16B16A16_UNORM => 64,
            DxgiFormat::R16G16B16A16_UINT => 64,
            DxgiFormat::R16G16B16A16_SNORM => 64,
            DxgiFormat::R16G16B16A16_SINT => 64,
            DxgiFormat::R32G32_TYPELESS => 64,
            DxgiFormat::R32G32_FLOAT => 64,
            DxgiFormat::R32G32_UINT => 64,
            DxgiFormat::R32G32_SINT => 64,
            DxgiFormat::R32G8X24_TYPELESS => 64,
            DxgiFormat::D32_FLOAT_S8X24_UINT => 64,
            DxgiFormat::R32_FLOAT_X8X24_TYPELESS => 64,
            DxgiFormat::X32_TYPELESS_G8X24_UINT => 64,
            DxgiFormat::R10G10B10A2_TYPELESS => 32,
            DxgiFormat::R10G10B10A2_UNORM => 32,
            DxgiFormat::R10G10B10A2_UINT => 32,
            DxgiFormat::R11G11B10_FLOAT => 32,
            DxgiFormat::R8G8B8A8_TYPELESS => 32,
            DxgiFormat::R8G8B8A8_UNORM => 32,
            DxgiFormat::R8G8B8A8_UNORM_SRGB => 32,
            DxgiFormat::R8G8B8A8_UINT => 32,
            DxgiFormat::R8G8B8A8_SNORM => 32,
            DxgiFormat::R8G8B8A8_SINT => 32,
            DxgiFormat::R16G16_TYPELESS => 32,
            DxgiFormat::R16G16_FLOAT => 32,
            DxgiFormat::R16G16_UNORM => 32,
            DxgiFormat::R16G16_UINT => 32,
            DxgiFormat::R16G16_SNORM => 32,
            DxgiFormat::R16G16_SINT => 32,
            DxgiFormat::R32_TYPELESS => 32,
            DxgiFormat::D32_FLOAT => 32,
            DxgiFormat::R32_FLOAT => 32,
            DxgiFormat::R32_UINT => 32,
            DxgiFormat::R32_SINT => 32,
            DxgiFormat::R24G8_TYPELESS => 32,
            DxgiFormat::D24_UNORM_S8_UINT => 32,
            DxgiFormat::R24_UNORM_X8_TYPELESS => 32,
            DxgiFormat::X24_TYPELESS_G8_UINT => 32,
            DxgiFormat::R8G8_TYPELESS => 16,
            DxgiFormat::R8G8_UNORM => 16,
            DxgiFormat::R8G8_UINT => 16,
            DxgiFormat::R8G8_SNORM => 16,
            DxgiFormat::R8G8_SINT => 16,
            DxgiFormat::R16_TYPELESS => 16,
            DxgiFormat::R16_FLOAT => 16,
            DxgiFormat::D16_UNORM => 16,
            DxgiFormat::R16_UNORM => 16,
            DxgiFormat::R16_UINT => 16,
            DxgiFormat::R16_SNORM => 16,
            DxgiFormat::R16_SINT => 16,
            DxgiFormat::R8_TYPELESS => 8,
            DxgiFormat::R8_UNORM => 8,
            DxgiFormat::R8_UINT => 8,
            DxgiFormat::R8_SNORM => 8,
            DxgiFormat::R8_SINT => 8,
            DxgiFormat::A8_UNORM => 8,
            DxgiFormat::R1_UNORM => 1,
            DxgiFormat::R9G9B9E5_SHAREDEXP => 32,
            DxgiFormat::R8G8_B8G8_UNORM => 32,
            DxgiFormat::G8R8_G8B8_UNORM => 32,
            DxgiFormat::BC1_TYPELESS => 4,
            DxgiFormat::BC1_UNORM => 4,
            DxgiFormat::BC1_UNORM_SRGB => 4,
            DxgiFormat::BC2_TYPELESS => 8,
            DxgiFormat::BC2_UNORM => 8,
            DxgiFormat::BC2_UNORM_SRGB => 8,
            DxgiFormat::BC3_TYPELESS => 8,
            DxgiFormat::BC3_UNORM => 8,
            DxgiFormat::BC3_UNORM_SRGB => 8,
            DxgiFormat::BC4_TYPELESS => 4,
            DxgiFormat::BC4_UNORM => 4,
            DxgiFormat::BC4_SNORM => 4,
            DxgiFormat::BC5_TYPELESS => 8,
            DxgiFormat::BC5_UNORM => 8,
            DxgiFormat::BC5_SNORM => 8,
            DxgiFormat::B5G6R5_UNORM => 16,
            DxgiFormat::B5G5R5A1_UNORM => 16,
            DxgiFormat::B8G8R8A8_UNORM => 32,
            DxgiFormat::B8G8R8X8_UNORM => 32,
            DxgiFormat::R10G10B10_XR_BIAS_A2_UNORM => 32,
            DxgiFormat::B8G8R8A8_TYPELESS => 32,
            DxgiFormat::B8G8R8A8_UNORM_SRGB => 32,
            DxgiFormat::B8G8R8X8_TYPELESS => 32,
            DxgiFormat::B8G8R8X8_UNORM_SRGB => 32,
            DxgiFormat::BC6H_TYPELESS => 8,
            DxgiFormat::BC6H_UF16 => 8,
            DxgiFormat::BC6H_SF16 => 8,
            DxgiFormat::BC7_TYPELESS => 8,
            DxgiFormat::BC7_UNORM => 8,
            DxgiFormat::BC7_UNORM_SRGB => 8,
            DxgiFormat::AYUV => 32,
            DxgiFormat::Y410 => 32,
            DxgiFormat::Y416 => 64,
            DxgiFormat::NV12 => 12,
            DxgiFormat::P010 => 24,
            DxgiFormat::P016 => 24,
            DxgiFormat::OPAQUE420 => 12,
            DxgiFormat::YUY2 => 32,
            DxgiFormat::Y210 => 64,
            DxgiFormat::Y216 => 64,
            DxgiFormat::NV11 => 12,
            DxgiFormat::AI44 => 8,
            DxgiFormat::IA44 => 8,
            DxgiFormat::P8 => 8,
            DxgiFormat::A8P8 => 16,
            DxgiFormat::B4G4R4A4_UNORM => 16,
            _ => 0,
        }
    }

    pub fn is_srgb(&self) -> (r: bool)
        ensures
            r == dxgi_is_srgb(*self),
    {
        match self {
            DxgiFormat::R8G8B8A8_UNORM_SRGB => true,
            DxgiFormat::BC1_UNORM_SRGB => true,
            DxgiFormat::BC2_UNORM_SRGB => true,
            DxgiFormat::BC3_UNORM_SRGB => true,
            DxgiFormat::B8G8R8A8_UNORM_SRGB => true,
            DxgiFormat::B8G8R8X8_UNORM_SRGB => true,
            DxgiFormat::BC7_UNORM_SRGB => true,
            _ => false,
        }
    }

    pub fn is_compressed(&self) -> (r: bool)
        ensures
            r == dxgi_is_compressed(*self),
    {
        match self {
            DxgiFormat::BC1_TYPELESS => true,
            DxgiFormat::BC1_UNORM => true,
            DxgiFormat::BC1_UNORM_SRGB => true,
            DxgiFormat::BC4_TYPELESS => true,
            DxgiFormat::BC4_UNORM => true,
            DxgiFormat::BC4_SNORM => true,
            DxgiFormat::BC2_TYPELESS => true,
            DxgiFormat::BC2_UNORM => true,
            DxgiFormat::BC2_UNORM_SRGB => true,
            DxgiFormat::BC3_TYPELESS => true,
            DxgiFormat::BC3_UNORM => true,
            DxgiFormat::BC3_UNORM_SRGB => true,
            DxgiFormat::BC5_TYPELESS => true,
            DxgiFormat::BC5_UNORM => true,
            DxgiFormat::BC5_SNORM => true,
            DxgiFormat::BC6H_TYPELESS => true,
            DxgiFormat::BC6H_UF16 => true,
            DxgiFormat::BC6H_SF16 => true,
            DxgiFormat::BC7_TYPELESS => true,
            DxgiFormat::BC7_UNORM => true,
            DxgiFormat::BC7_UNORM_SRGB => true,
            _ => false,
        }
    }

    fn is_bc_8(&self) -> (r: bool)
        ensures
            r == dxgi_is_bc_8(*self),
    {
        match self {
            DxgiFormat::BC1_TYPELESS => true,
            DxgiFormat::BC1_UNORM => true,
            DxgiFormat::BC1_UNORM_SRGB => true,
            DxgiFormat::BC4_TYPELESS => true,
            DxgiFormat::BC4_UNORM => true,
            DxgiFormat::BC4_SNORM => true,
            _ => false,
        }
    }

    fn is_bc_16(&self) -> (r: bool)
        ensures
            r == dxgi_is_bc_16(*self),
    {
        match self {
            DxgiFormat::BC2_TYPELESS => true,
            DxgiFormat::BC2_UNORM => true,
            DxgiFormat::BC2_UNORM_SRGB => true,
            DxgiFormat::BC3_TYPELESS => true,
            DxgiFormat::BC3_UNORM => true,
            DxgiFormat::BC3_UNORM_SRGB => true,
            DxgiFormat::BC5_TYPELESS => true,
            DxgiFormat::BC5_UNORM => true,
            DxgiFormat::BC5_SNORM => true,
            DxgiFormat::BC6H_TYPELESS => true,
            DxgiFormat::BC6H_UF16 => true,
            DxgiFormat::BC6H_SF16 => true,
            DxgiFormat::BC7_TYPELESS => true,
            DxgiFormat::BC7_UNORM => true,
            DxgiFormat::BC7_UNORM_SRGB => true,
            _ => false,
        }
    }

    /// Row pitch and slice size in bytes of a `width` x `height` surface of this format.
    pub fn calculate_pitch(&self, width: usize, height: usize) -> (r: (usize, usize))
        requires
            dxgi_pitch_fits(*self, width as int, height as int),
        ensures
            r.0 as int == dxgi_pitch(*self, width as int, height as int).0,
            r.1 as int == dxgi_pitch(*self, width as int, height as int).1,
    {
        if self.is_bc_8() || self.is_bc_16() {
            let nbw: usize = if (width as u64 + 3) / 4 < 1 {
                1
            } else {
                ((width as u64 + 3) / 4) as usize
            };
            let nbh: usize = if (height as u64 + 3) / 4 < 1 {
                1
            } else {
                ((height as u64 + 3) / 4) as usize
            };
            let block_bytes: usize = if self.is_bc_8() {
                8
            } else {
                16
            };
            assert(nbw * block_bytes * nbh <= usize::MAX);
            assert(nbw * block_bytes <= nbw * block_bytes * nbh) by (nonlinear_arith)
                requires
                    nbh >= 1,
                    nbw >= 0,
                    block_bytes >= 0,
            ;
            let pitch = nbw * block_bytes;
            (pitch, pitch * nbh)
        } else {
            let pitch = (width * self.bpp() + 7) / 8;
            (pitch, height * pitch)
        }
    }
}

} // verus!
