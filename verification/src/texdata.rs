//! Texture data as it is uploaded: checked against the size the header promises, and
//! detiled where the platform stores it tiled.
use vstd::prelude::*;
use crate::formats::surface::{gcn_bpp, xenos_format_info, GcnSurfaceFormat, XenosSurfaceFormat};
use crate::formats::dxgi::{dxgi_bpp, dxgi_has_bpp};
use crate::headers::{TextureHeaderD2Ps4, TextureHeaderDevAlphaX360, TextureHeaderRoiPs4, TextureHeaderRoiXbox};
use crate::taghash::TagHash;
use crate::version::{destiny_rank, DestinyVersion, GameVersion, Platform};
use crate::views::TextureType;
use crate::swizzle::ps4::{gcn_swizzle, gcn_swizzle_fits, gcn_swizzle_fits_check, GcnDeswizzler};
use crate::swizzle::xbox::{
    x360_fits, x360_fits_check, xenos_detile, xenos_swaps_bytes, xenos_untile_layout, XenosDetiler,
};
use crate::swizzle::{DeswizzleError, Deswizzler};

verus! {

/// Why texture data could not be prepared.
#[derive(Clone, Copy, Debug, PartialEq, Eq, Structural)]
pub enum TextureDataError {
    /// The data is shorter than width times height times bits per pixel promise.
    SizeMismatch { expected: u64, got: u64 },
    /// Detiling failed.
    Deswizzle(DeswizzleError),
}

/// Bytes a texture of the given size and bits per pixel needs at least.
pub open spec fn expected_size(width: u16, height: u16, bpp: nat) -> nat {
    width as nat * height as nat * bpp / 8
}

/// The slices a texture has: its array size when above one, else its depth.
pub open spec fn slice_count(depth: u16, array_size: u16) -> u16 {
    if array_size > 1 {
        array_size
    } else {
        depth
    }
}

/// What preparing GCN texture data gives: an error when the data is too short, else the data
/// deswizzled (when asked) or unchanged.
pub open spec fn gcn_prepared(
    width: u16,
    height: u16,
    slices: u16,
    format: GcnSurfaceFormat,
    deswizzle: bool,
    align: bool,
    data: Seq<u8>,
) -> Result<Seq<u8>, TextureDataError> {
    let expected = expected_size(width, height, gcn_bpp(format));
    if data.len() < expected {
        Err(TextureDataError::SizeMismatch { expected: expected as u64, got: data.len() as u64 })
    } else if deswizzle {
        Ok(gcn_swizzle(data, width as nat, height as nat, slices as nat, format, true, align))
    } else {
        Ok(data)
    }
}

/// Whether GCN texture data can be prepared without overflowing (see `gcn_swizzle_fits`).
pub open spec fn gcn_prepare_fits(
    width: u16,
    height: u16,
    slices: u16,
    format: GcnSurfaceFormat,
    deswizzle: bool,
    align: bool,
    len: nat,
) -> bool {
    deswizzle && len >= expected_size(width, height, gcn_bpp(format)) ==> gcn_swizzle_fits(
        len,
        width as nat,
        height as nat,
        slices as nat,
        format,
        align,
    )
}

fn size_error(expected: u64, got: usize) -> (r: TextureDataError)
    ensures
        r == (TextureDataError::SizeMismatch { expected, got: got as u64 }),
{
    TextureDataError::SizeMismatch { expected, got: got as u64 }
}

/// Prepares GCN (PlayStation 4) texture data (see `gcn_prepared`).
pub fn prepare_gcn_texture(
    width: u16,
    height: u16,
    slices: u16,
    format: GcnSurfaceFormat,
    deswizzle: bool,
    align: bool,
    data: Vec<u8>,
) -> (r: Result<Vec<u8>, TextureDataError>)
    requires
        gcn_prepare_fits(width, height, slices, format, deswizzle, align, data@.len()),
    ensures
        match (r, gcn_prepared(width, height, slices, format, deswizzle, align, data@)) {
            (Ok(v), Ok(s)) => v@ == s,
            (Err(e), Err(f)) => e == f,
            _ => false,
        },
{
    let bpp = format.bpp() as u64;
    assert((width as u64) * (height as u64) <= 0xFFFF * 0xFFFF) by (nonlinear_arith)
        requires
            width <= 0xFFFF,
            height <= 0xFFFF,
    ;
    assert((width as u64) * (height as u64) * bpp <= 0xFFFF * 0xFFFF * 128) by (nonlinear_arith)
        requires
            (width as u64) * (height as u64) <= 0xFFFF * 0xFFFF,
            bpp <= 128,
    ;
    let expected: u64 = (width as u64) * (height as u64) * bpp / 8;
    if (data.len() as u64) < expected {
        return Err(size_error(expected, data.len()));
    }
    if deswizzle {
        match GcnDeswizzler.deswizzle(data.as_slice(), width as usize, height as usize, slices as usize, format, align) {
            Ok(v) => Ok(v),
            Err(e) => Err(TextureDataError::Deswizzle(e)),
        }
    } else {
        Ok(data)
    }
}

/// Whether GCN texture data can be prepared (see `gcn_prepare_fits`).
pub fn check_gcn_prepare_fits(
    width: u16,
    height: u16,
    slices: u16,
    format: GcnSurfaceFormat,
    deswizzle: bool,
    align: bool,
    len: usize,
) -> (r: bool)
    ensures
        r == gcn_prepare_fits(width, height, slices, format, deswizzle, align, len as nat),
{
    let bpp = format.bpp() as u64;
    assert((width as u64) * (height as u64) <= 0xFFFF * 0xFFFF) by (nonlinear_arith)
        requires
            width <= 0xFFFF,
            height <= 0xFFFF,
    ;
    assert((width as u64) * (height as u64) * bpp <= 0xFFFF * 0xFFFF * 128) by (nonlinear_arith)
        requires
            (width as u64) * (height as u64) <= 0xFFFF * 0xFFFF,
            bpp <= 128,
    ;
    let expected: u64 = (width as u64) * (height as u64) * bpp / 8;
    if !deswizzle || (len as u64) < expected {
        return true;
    }
    gcn_swizzle_fits_check(len, width as usize, height as usize, slices as usize, format, align)
}

impl TextureHeaderRoiPs4 {
    /// Whether the texture data is stored tiled: bits 10 and 11 of the first flags are not
    /// exactly bit 10.
    pub open spec fn spec_is_tiled(&self) -> bool {
        self.flags1 & 0xc00 != 0x400
    }

    /// The texture data of this header ready to upload: checked against the size the header
    /// promises, and deswizzled (with the resolution aligned) when it is stored tiled.
    pub fn prepare_data(&self, data: Vec<u8>) -> (r: Result<Vec<u8>, TextureDataError>)
        requires
            gcn_prepare_fits(
                self.width,
                self.height,
                slice_count(self.depth, self.array_size),
                self.format,
                self.spec_is_tiled(),
                true,
                data@.len(),
            ),
        ensures
            match (
                r,
                gcn_prepared(
                    self.width,
                    self.height,
                    slice_count(self.depth, self.array_size),
                    self.format,
                    self.spec_is_tiled(),
                    true,
                    data@,
                ),
            ) {
                (Ok(v), Ok(s)) => v@ == s,
                (Err(e), Err(f)) => e == f,
                _ => false,
            },
    {
        let slices = if self.array_size > 1 {
            self.array_size
        } else {
            self.depth
        };
        let tiled = self.flags1 & 0xc00 != 0x400;
        prepare_gcn_texture(self.width, self.height, slices, self.format, tiled, true, data)
    }
}

/// What preparing Xenos (Xbox 360) texture data gives: an error when the data is too short,
/// else the data detiled.
pub open spec fn xenos_prepared(
    width: u16,
    height: u16,
    depth: u16,
    format: XenosSurfaceFormat,
    data: Seq<u8>,
) -> Result<Seq<u8>, TextureDataError> {
    let expected = expected_size(width, height, xenos_format_info(format).bits_per_pixel as nat);
    if data.len() < expected {
        Err(TextureDataError::SizeMismatch { expected: expected as u64, got: data.len() as u64 })
    } else {
        match xenos_detile(data, width as usize, height as usize, depth as usize, format) {
            Ok(v) => Ok(v),
            Err(e) => Err(TextureDataError::Deswizzle(e)),
        }
    }
}

/// Whether Xenos texture data of `len` bytes can be detiled.
pub open spec fn xenos_prepare_fits(width: u16, height: u16, depth: u16, format: XenosSurfaceFormat, len: nat) -> bool {
    let (bps, tbp) = xenos_untile_layout(format);
    &&& x360_fits(width as usize, height as usize, depth as usize, bps, tbp)
    &&& xenos_swaps_bytes(format) ==> len % 2 == 0
}

fn untile_layout(format: XenosSurfaceFormat) -> (r: (usize, usize))
    ensures
        r == xenos_untile_layout(format),
{
    match format {
        XenosSurfaceFormat::k_DXT1 | XenosSurfaceFormat::k_DXT1_AS_16_16_16_16 => (4, 8),
        XenosSurfaceFormat::k_DXN
        | XenosSurfaceFormat::k_DXT2_3
        | XenosSurfaceFormat::k_DXT2_3_AS_16_16_16_16
        | XenosSurfaceFormat::k_DXT3A
        | XenosSurfaceFormat::k_DXT3A_AS_1_1_1_1
        | XenosSurfaceFormat::k_DXT4_5
        | XenosSurfaceFormat::k_DXT4_5_AS_16_16_16_16
        | XenosSurfaceFormat::k_DXT5A => (4, 16),
        XenosSurfaceFormat::k_8_8_8_8
        | XenosSurfaceFormat::k_8_8_8_8_A
        | XenosSurfaceFormat::k_8_8_8_8_AS_16_16_16_16 => (1, 4),
        XenosSurfaceFormat::k_8 => (1, 1),
        _ => (1, 4),
    }
}

fn swaps_bytes(format: XenosSurfaceFormat) -> (r: bool)
    ensures
        r == xenos_swaps_bytes(format),
{
    match format {
        XenosSurfaceFormat::k_DXT1
        | XenosSurfaceFormat::k_DXT1_AS_16_16_16_16
        | XenosSurfaceFormat::k_DXN
        | XenosSurfaceFormat::k_DXT2_3
        | XenosSurfaceFormat::k_DXT2_3_AS_16_16_16_16
        | XenosSurfaceFormat::k_DXT3A
        | XenosSurfaceFormat::k_DXT3A_AS_1_1_1_1
        | XenosSurfaceFormat::k_DXT4_5
        | XenosSurfaceFormat::k_DXT4_5_AS_16_16_16_16
        | XenosSurfaceFormat::k_DXT5A => true,
        _ => false,
    }
}

/// Whether Xenos texture data can be detiled (see `xenos_prepare_fits`).
pub fn check_xenos_prepare_fits(width: u16, height: u16, depth: u16, format: XenosSurfaceFormat, len: usize) -> (r: bool)
    ensures
        r == xenos_prepare_fits(width, height, depth, format, len as nat),
{
    let (bps, tbp) = untile_layout(format);
    x360_fits_check(width as usize, height as usize, depth as usize, bps, tbp) && (!swaps_bytes(format) || len % 2 == 0)
}

impl TextureHeaderDevAlphaX360 {
    /// The texture data of this header ready to upload: checked against the size the header
    /// promises, then detiled (see `xenos_detile`).
    pub fn prepare_data(&self, data: Vec<u8>) -> (r: Result<Vec<u8>, TextureDataError>)
        requires
            xenos_prepare_fits(self.width, self.height, self.depth, self.format, data@.len()),
        ensures
            match (r, xenos_prepared(self.width, self.height, self.depth, self.format, data@)) {
                (Ok(v), Ok(s)) => v@ == s,
                (Err(e), Err(f)) => e == f,
                _ => false,
            },
    {
        let bpp = self.format.bpp() as u64;
        assert(bpp <= 128);
        assert((self.width as u64) * (self.height as u64) <= 0xFFFF * 0xFFFF) by (nonlinear_arith)
            requires
                self.width <= 0xFFFF,
                self.height <= 0xFFFF,
        ;
        assert((self.width as u64) * (self.height as u64) * bpp <= 0xFFFF * 0xFFFF * 128) by (nonlinear_arith)
            requires
                (self.width as u64) * (self.height as u64) <= 0xFFFF * 0xFFFF,
                bpp <= 128,
        ;
        let expected: u64 = (self.width as u64) * (self.height as u64) * bpp / 8;
        if (data.len() as u64) < expected {
            return Err(size_error(expected, data.len()));
        }
        match XenosDetiler.deswizzle(
            data.as_slice(),
            self.width as usize,
            self.height as usize,
            self.depth as usize,
            self.format,
            false,
        ) {
            Ok(v) => Ok(v),
            Err(e) => Err(TextureDataError::Deswizzle(e)),
        }
    }
}

impl TextureHeaderD2Ps4 {
    /// Whether the texture data is stored tiled: bits 10 and 11 of the first flags are not
    /// exactly bit 10.
    pub open spec fn spec_is_tiled(&self) -> bool {
        self.flags1 & 0xc00 != 0x400
    }

    /// The texture data of this header ready to upload: checked against the size the header
    /// promises, and deswizzled (without aligning the resolution) when it is stored tiled.
    pub fn prepare_data(&self, data: Vec<u8>) -> (r: Result<Vec<u8>, TextureDataError>)
        requires
            gcn_prepare_fits(
                self.width,
                self.height,
                slice_count(self.depth, self.array_size),
                self.format,
                self.spec_is_tiled(),
                false,
                data@.len(),
            ),
        ensures
            match (
                r,
                gcn_prepared(
                    self.width,
                    self.height,
                    slice_count(self.depth, self.array_size),
                    self.format,
                    self.spec_is_tiled(),
                    false,
                    data@,
                ),
            ) {
                (Ok(v), Ok(s)) => v@ == s,
                (Err(e), Err(f)) => e == f,
                _ => false,
            },
    {
        let slices = if self.array_size > 1 {
            self.array_size
        } else {
            self.depth
        };
        let tiled = self.flags1 & 0xc00 != 0x400;
        prepare_gcn_texture(self.width, self.height, slices, self.format, tiled, false, data)
    }
}

impl TextureHeaderRoiXbox {
    /// The texture data of this header ready to upload: checked against the size the header
    /// promises and otherwise left as it is (Xbox One tiling is not undone). The format must
    /// have a known bit count.
    pub fn prepare_data(&self, data: Vec<u8>) -> (r: Result<Vec<u8>, TextureDataError>)
        requires
            dxgi_has_bpp(self.format),
        ensures
            ({
                let expected = expected_size(self.width, self.height, dxgi_bpp(self.format));
                if data@.len() < expected {
                    r == Err::<Vec<u8>, TextureDataError>(
                        TextureDataError::SizeMismatch { expected: expected as u64, got: data@.len() as u64 },
                    )
                } else {
                    r matches Ok(v) && v@ == data@
                }
            }),
    {
        let bpp = self.format.bpp() as u64;
        assert((self.width as u64) * (self.height as u64) <= 0xFFFF * 0xFFFF) by (nonlinear_arith)
            requires
                self.width <= 0xFFFF,
                self.height <= 0xFFFF,
        ;
        assert((self.width as u64) * (self.height as u64) * bpp <= 0xFFFF * 0xFFFF * 128) by (nonlinear_arith)
            requires
                (self.width as u64) * (self.height as u64) <= 0xFFFF * 0xFFFF,
                bpp <= 128,
        ;
        let expected: u64 = (self.width as u64) * (self.height as u64) * bpp / 8;
        if (data.len() as u64) < expected {
            return Err(size_error(expected, data.len()));
        }
        Ok(data)
    }
}

/// The kind of a texture of the given depth and array size.
pub open spec fn texture_kind_of(depth: u32, array_size: u32) -> TextureType {
    if array_size == 6 {
        TextureType::TextureCube
    } else if depth > 1 {
        TextureType::Texture3D
    } else {
        TextureType::Texture2D
    }
}

/// The kind of a texture of the given depth and array size (see `texture_kind_of`).
pub fn texture_kind(depth: u32, array_size: u32) -> (r: TextureType)
    ensures
        r == texture_kind_of(depth, array_size),
{
    if array_size == 6 {
        TextureType::TextureCube
    } else if depth > 1 {
        TextureType::Texture3D
    } else {
        TextureType::Texture2D
    }
}

/// The tags whose data, joined in order, is a texture's data: its large buffer when it has
/// one (followed by the header's data tag when the full mip chain is wanted), else the
/// header's data tag.
pub open spec fn texture_data_sources_of(large_buffer: Option<TagHash>, reference: TagHash, full_mip: bool) -> Seq<
    TagHash,
> {
    match large_buffer {
        Some(t) => if full_mip {
            seq![t, reference]
        } else {
            seq![t]
        },
        None => seq![reference],
    }
}

/// The tags that hold a texture's data (see `texture_data_sources_of`).
pub fn texture_data_sources(large_buffer: Option<TagHash>, reference: TagHash, full_mip: bool) -> (r: Vec<TagHash>)
    ensures
        r@ == texture_data_sources_of(large_buffer, reference, full_mip),
{
    let mut v: Vec<TagHash> = Vec::new();
    match large_buffer {
        Some(t) => {
            v.push(t);
            if full_mip {
                v.push(reference);
            }
        },
        None => {
            v.push(reference);
        },
    }
    proof {
        assert(v@ =~= texture_data_sources_of(large_buffer, reference, full_mip));
    }
    v
}

/// Which texture header a release and platform use.
#[derive(Clone, Copy, Debug, PartialEq, Eq, Structural)]
pub enum TextureHeaderKind {
    DevAlphaX360,
    Ps3,
    RoiPs4,
    RoiXbox,
    /// Destiny 2 on PlayStation 4, in the layout before Beyond Light (`prebl`) or after.
    D2Ps4 { prebl: bool },
    /// Destiny 2 on PC, in the layout before Beyond Light (`prebl`) or after.
    D2Pc { prebl: bool },
}

/// The texture header of a release and platform: the internal alpha and The Taken King on
/// Xbox 360 and PlayStation 3, the First Look alpha and Rise of Iron on PlayStation 4 and Xbox
/// One, and later releases on PlayStation 4 and PC; none elsewhere.
pub open spec fn texture_header_kind_of(version: GameVersion, platform: Platform) -> Option<TextureHeaderKind> {
    let rank = match version {
        GameVersion::Destiny(v) => destiny_rank(v),
        GameVersion::Marathon(_) => 100,
    };
    if rank <= 2 && rank != 1 {
        match platform {
            Platform::X360 => Some(TextureHeaderKind::DevAlphaX360),
            Platform::PS3 => Some(TextureHeaderKind::Ps3),
            _ => None,
        }
    } else if rank == 1 || rank == 3 {
        match platform {
            Platform::PS4 => Some(TextureHeaderKind::RoiPs4),
            Platform::XboxOne => Some(TextureHeaderKind::RoiXbox),
            _ => None,
        }
    } else {
        let prebl = 4 <= rank <= 6;
        match platform {
            Platform::PS4 => Some(TextureHeaderKind::D2Ps4 { prebl }),
            Platform::Win64 => Some(TextureHeaderKind::D2Pc { prebl }),
            _ => None,
        }
    }
}

/// The texture header of a release and platform (see `texture_header_kind_of`).
pub fn texture_header_kind(version: GameVersion, platform: Platform) -> (r: Option<TextureHeaderKind>)
    ensures
        r == texture_header_kind_of(version, platform),
{
    let rank: u8 = match version {
        GameVersion::Destiny(v) => v.rank(),
        GameVersion::Marathon(_) => 100,
    };
    if rank <= 2 && rank != 1 {
        match platform {
            Platform::X360 => Some(TextureHeaderKind::DevAlphaX360),
            Platform::PS3 => Some(TextureHeaderKind::Ps3),
            _ => None,
        }
    } else if rank == 1 || rank == 3 {
        match platform {
            Platform::PS4 => Some(TextureHeaderKind::RoiPs4),
            Platform::XboxOne => Some(TextureHeaderKind::RoiXbox),
            _ => None,
        }
    } else {
        let prebl = 4 <= rank && rank <= 6;
        match platform {
            Platform::PS4 => Some(TextureHeaderKind::D2Ps4 { prebl }),
            Platform::Win64 => Some(TextureHeaderKind::D2Pc { prebl }),
            _ => None,
        }
    }
}

} // verus!
