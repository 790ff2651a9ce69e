//! Texture description and layout records of the Durango texture layout library, and the block
//! grid that the Durango deswizzler reads from a layout.
use vstd::prelude::*;

verus! {

#[derive(Clone, Copy, Debug, PartialEq, Eq, Structural)]
pub struct XgSampleDesc {
    pub count: u32,
    pub quality: u32,
}

#[derive(Clone, Copy, Debug, PartialEq, Eq, Structural)]
pub struct XgTexture2DDesc {
    pub width: u32,
    pub height: u32,
    pub mip_levels: u32,
    pub array_size: u32,
    pub format: u32,
    pub sample_desc: XgSampleDesc,
    pub usage: u32,
    pub bind_flags: u32,
    pub cpu_access_flags: u32,
    pub misc_flags: u32,
    pub esram_offset_bytes: u32,
    pub esram_usage_bytes: u32,
    pub tile_mode: u32,
    pub pitch: u32,
}

#[derive(Clone, Copy, Debug, PartialEq, Eq, Structural)]
pub struct XgMipMap {
    pub size_bytes: u64,
    pub offset_bytes: u64,
    pub slice_2d_size_bytes: u64,
    pub pitch_pixels: u32,
    pub pitch_bytes: u32,
    pub alignment_bytes: u32,
    pub padded_width_elements: u32,
    pub padded_height_elements: u32,
    pub padded_depth_or_array_size: u32,
    pub width_elements: u32,
    pub height_elements: u32,
    pub depth_or_array_size: u32,
    pub sample_count: u32,
    pub tile_mode: u32,
    pub padding1: i32,
    pub bank_rotation_address_bit_mask: u64,
    pub bank_rotation_bytes_per_slice: u64,
    pub slice_depth_elements: u32,
    pub padding2: i32,
}

#[derive(Clone, Copy, Debug)]
pub struct XgPlaneLayout {
    pub usage: u32,
    pub padding1: i32,
    pub size_bytes: u64,
    pub base_offset_bytes: u64,
    pub base_alignment_bytes: u64,
    pub bytes_per_element: u32,
    pub padding2: i32,
    pub mips: [XgMipMap; 15],
}

#[derive(Clone, Copy, Debug)]
pub struct XgResourceLayout {
    pub size_bytes: u64,
    pub base_alignment_bytes: u64,
    pub mip_levels: u32,
    pub plane_count: u32,
    pub planes: [XgPlaneLayout; 4],
    pub dimension: u32,
    pub padding: u32,
}

/// The description the Durango deswizzler asks the layout library about: one mip, bound as a
/// shader resource, in the given format and tile mode.
pub open spec fn durango_desc_spec(width: u32, height: u32, array_size: u32, format: u32, tile_mode: u32) -> XgTexture2DDesc {
    XgTexture2DDesc {
        width,
        height,
        mip_levels: 1,
        array_size,
        format,
        sample_desc: XgSampleDesc { count: 1, quality: 0 },
        usage: 0,
        bind_flags: 8,
        cpu_access_flags: 0,
        misc_flags: 0,
        esram_offset_bytes: 0,
        esram_usage_bytes: 0,
        tile_mode,
        pitch: 0,
    }
}

/// The description the Durango deswizzler asks the layout library about.
pub fn durango_desc(width: u32, height: u32, array_size: u32, format: u32, tile_mode: u32) -> (r: XgTexture2DDesc)
    ensures
        r == durango_desc_spec(width, height, array_size, format, tile_mode),
{
    XgTexture2DDesc {
        width,
        height,
        mip_levels: 1,
        array_size,
        format,
        sample_desc: XgSampleDesc { count: 1, quality: 0 },
        usage: 0,
        bind_flags: 8,
        cpu_access_flags: 0,
        misc_flags: 0,
        esram_offset_bytes: 0,
        esram_usage_bytes: 0,
        tile_mode,
        pitch: 0,
    }
}

/// Blocks across and down the first mip of the first plane, and bytes per block (the row pitch
/// over the padded row width).
pub fn durango_block_grid(layout: &XgResourceLayout) -> (r: (usize, usize, usize))
    requires
        layout.planes[0].mips[0].padded_width_elements > 0,
    ensures
        r.0 == layout.planes[0].mips[0].width_elements,
        r.1 == layout.planes[0].mips[0].height_elements,
        r.2 == layout.planes[0].mips[0].pitch_bytes / layout.planes[0].mips[0].padded_width_elements,
{
    let mip = &layout.planes[0].mips[0];
    (mip.width_elements as usize, mip.height_elements as usize, (mip.pitch_bytes / mip.padded_width_elements) as usize)
}

} // verus!
