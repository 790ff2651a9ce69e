use quicktag::formats::dxgi::DxgiFormat;
use quicktag::formats::surface::{GcnSurfaceFormat, XenosSurfaceFormat};
use quicktag::swizzle::ps3::{self, GcmDeswizzler, GcmLayout};
use quicktag::swizzle::ps4::{self, GcnDeswizzler};
use quicktag::swizzle::xbox::{
    swap_byte_order_x360, untile_x360_image_data, x360_fits_check, xg_address_2d_tiled_x,
    xg_address_2d_tiled_y, DurangoDeswizzler, XenosDetiler,
};
use quicktag::swizzle::{argb_to_rgba_bytes, morton, next_power_of_two, DeswizzleError, Deswizzler};

#[test]
fn morton_interleaves_bits() {
    // t = 0b110110: x bits 0,1,1 -> x = 0b110 = 6? bits go x,y,x,y,x,y from the lowest
    let expected: Vec<usize> = (0..64)
        .map(|t: usize| {
            let x = (t & 1) | ((t >> 1) & 2) | ((t >> 2) & 4);
            let y = ((t >> 1) & 1) | ((t >> 2) & 2) | ((t >> 3) & 4);
            y * 8 + x
        })
        .collect();
    for t in 0..64 {
        assert_eq!(morton(t, 8, 8), expected[t]);
    }
}

#[test]
fn morton_on_wide_grid() {
    // 4 wide, 2 high: x takes two bits, y one
    assert_eq!(morton(0, 4, 2), 0);
    assert_eq!(morton(1, 4, 2), 1);
    assert_eq!(morton(2, 4, 2), 4);
    assert_eq!(morton(3, 4, 2), 5);
    assert_eq!(morton(4, 4, 2), 2);
    assert_eq!(morton(7, 4, 2), 7);
}

#[test]
fn next_power_of_two_values() {
    assert_eq!(next_power_of_two(0), 1);
    assert_eq!(next_power_of_two(1), 1);
    assert_eq!(next_power_of_two(5), 8);
    assert_eq!(next_power_of_two(64), 64);
    assert_eq!(next_power_of_two(65), 128);
}

#[test]
fn argb_reorders_and_drops_partial_group() {
    let v = argb_to_rgba_bytes(&[1, 2, 3, 4, 5, 6, 7, 8, 9]);
    assert_eq!(v, vec![2, 3, 4, 1, 6, 7, 8, 5]);
}

fn swizzled_8x8(data: &[u8]) -> Vec<u8> {
    ps4::do_swizzle(data, 8, 8, 1, GcnSurfaceFormat::Format8, false, false)
}

#[test]
fn gcn_unswizzle_inverts_swizzle_on_full_tile() {
    let linear: Vec<u8> = (0..64u8).collect();
    let tiled = swizzled_8x8(&linear);
    assert_ne!(tiled, linear);
    // tiled position t holds the texel the Morton curve visits t-th
    for t in 0..64 {
        assert_eq!(tiled[t] as usize, morton(t, 8, 8));
    }
    let back = ps4::do_swizzle(&tiled, 8, 8, 1, GcnSurfaceFormat::Format8, true, false);
    assert_eq!(back, linear);
    let d = GcnDeswizzler.deswizzle(&tiled, 8, 8, 1, GcnSurfaceFormat::Format8, false).unwrap();
    assert_eq!(d, linear);
}

#[test]
fn gcn_partial_tile_leaves_rest_zero() {
    // a 4x4 texture still occupies a whole 8x8 tile in the tiled stream
    let tiled: Vec<u8> = (1..=64u8).collect();
    let out = ps4::do_swizzle(&tiled, 4, 4, 1, GcnSurfaceFormat::Format8, true, false);
    assert_eq!(out.len(), 64);
    assert_eq!(out[0], 1);
    assert_eq!(out[1], 2);
    assert_eq!(out[4], 3);
    assert!(out[16..].iter().all(|&b| b == 0));
}

#[test]
fn gcm_unswizzle_follows_morton_order() {
    let layout = GcmLayout { pixel_block_size: 1, block_size: 1, bpp: 8, compressed: false, argb: false };
    let swizzled: Vec<u8> = (0..16u8).collect();
    let out = ps3::do_swizzle(&swizzled, 4, 4, 1, layout, true, false);
    for t in 0..16 {
        assert_eq!(out[morton(t, 4, 4)], t as u8);
    }
    let d = GcmDeswizzler.deswizzle(&swizzled, 4, 4, 1, layout, false).unwrap();
    assert_eq!(d, out);
}

#[test]
fn gcm_color_deswizzle() {
    let argb = GcmLayout { pixel_block_size: 1, block_size: 4, bpp: 32, compressed: false, argb: true };
    assert_eq!(GcmDeswizzler::color_deswizzle(&[9, 1, 2, 3], argb), vec![1, 2, 3, 9]);
    let plain = GcmLayout { argb: false, ..argb };
    assert_eq!(GcmDeswizzler::color_deswizzle(&[9, 1, 2, 3], plain), vec![9, 1, 2, 3]);
}

#[test]
fn byte_order_swap() {
    let mut v = vec![1u8, 2, 3, 4];
    swap_byte_order_x360(&mut v);
    assert_eq!(v, vec![2, 1, 4, 3]);
}

#[test]
fn xenos_address_of_first_blocks() {
    assert_eq!(xg_address_2d_tiled_x(0, 32, 4), 0);
    assert_eq!(xg_address_2d_tiled_y(0, 32, 4), 0);
    // consecutive blocks of a micro tile walk along x
    assert_eq!(xg_address_2d_tiled_x(1, 32, 4), 1);
    assert_eq!(xg_address_2d_tiled_y(1, 32, 4), 0);
}

#[test]
fn xenos_untile_moves_blocks_and_checks_slices() {
    assert!(x360_fits_check(32, 32, 1, 1, 4));
    let data: Vec<u8> = (0..4096u32).map(|i| (i % 251) as u8 + 1).collect();
    let out = untile_x360_image_data(&data, 32, 32, 1, 1, 4, true).unwrap();
    assert_eq!(out.len(), 4096);
    for k in 0..1024usize {
        let x = xg_address_2d_tiled_x(k, 32, 4);
        let y = xg_address_2d_tiled_y(k, 32, 4);
        let d = (y * 32 + x) * 4;
        assert_eq!(&out[d..d + 4], &data[k * 4..k * 4 + 4]);
    }
    // a third slice would start past the end
    assert_eq!(
        untile_x360_image_data(&data, 32, 32, 3, 1, 4, true),
        Err(DeswizzleError::SliceSourceOutOfBounds)
    );
}

#[test]
fn xenos_untile_skips_zero_blocks() {
    let data = vec![0u8; 4096];
    let out = untile_x360_image_data(&data, 32, 32, 1, 1, 4, true).unwrap();
    assert!(out.iter().all(|&b| b == 0));
}

#[test]
fn xenos_detiler_swaps_and_reorders() {
    let data: Vec<u8> = (0..4096u32).map(|i| (i % 200) as u8 + 1).collect();
    let untiled = untile_x360_image_data(&data, 32, 32, 1, 1, 4, true).unwrap();
    let d = XenosDetiler.deswizzle(&data, 32, 32, 1, XenosSurfaceFormat::k_8_8_8_8, false).unwrap();
    assert_eq!(d, argb_to_rgba_bytes(&untiled));
}

#[test]
fn durango_blocks_gathered_by_offset() {
    let source: Vec<u8> = vec![10, 11, 20, 21, 30, 31, 40, 41];
    let offsets = vec![6i64, 4, 2, 100];
    let out = DurangoDeswizzler.deswizzle_blocks(&source, 1, 2, 2, 2, &offsets);
    assert_eq!(out, vec![40, 41, 30, 31, 20, 21, 0, 0]);
    let arr = DurangoDeswizzler.deswizzle_blocks(&source, 2, 2, 2, 2, &offsets);
    assert_eq!(arr, source);
}

#[test]
fn format_tables() {
    assert_eq!(DxgiFormat::try_from_u32(28).unwrap().code(), 28);
    assert!(DxgiFormat::try_from_u32(116).is_err());
    assert!(DxgiFormat::try_from_u32(130).is_ok());
    assert!(GcnSurfaceFormat::try_from_u16(0x2a).is_err());
    assert_eq!(GcnSurfaceFormat::BC1.block_size(), 8);
    assert_eq!(GcnSurfaceFormat::BC1.pixel_block_size(), 4);
    assert_eq!(GcnSurfaceFormat::Format8_8_8_8.bpp(), 32);
    assert!(XenosSurfaceFormat::try_from_u8(64).is_err());
    assert_eq!(XenosSurfaceFormat::k_DXT1.bytes_per_block(), 8);
}

#[test]
fn morton_visits_each_texel_once() {
    for (sx, sy) in [(8usize, 8usize), (4, 2), (1, 16), (16, 1), (2, 32)] {
        let mut seen = vec![false; sx * sy];
        for t in 0..sx * sy {
            let i = morton(t, sx, sy);
            assert!(i < sx * sy);
            assert!(!seen[i]);
            seen[i] = true;
        }
        assert!(seen.iter().all(|s| *s));
    }
}
