//! Tiled layout of GCN (PlayStation 4) textures: 8x8 tiles of blocks, each in Morton order.
use vstd::prelude::*;
use crate::formats::surface::{
    GcnSurfaceFormat, gcn_block_size, gcn_bpp, gcn_is_compressed, gcn_pixel_block_size,
};
use super::{
    copy_block, copy_block_into, lemma_product_grows, lemma_quotient_below, morton, morton_index,
    next_pow2, next_power_of_two, zeroed, DeswizzleError, Deswizzler,
};

verus! {

/// Blocks across and down the destination, and 8x8 tiles across and down the source.
pub open spec fn gcn_grid(width: nat, height: nat, format: GcnSurfaceFormat, align: bool) -> (
    nat,
    nat,
    nat,
    nat,
) {
    let pbs = gcn_pixel_block_size(format);
    let ws = if align && gcn_is_compressed(format) { next_pow2(width) } else { width };
    let hs = if align && gcn_is_compressed(format) { next_pow2(height) } else { height };
    (width / pbs, height / pbs, (ws / pbs + 7) / 8, (hs / pbs + 7) / 8)
}

/// Number of block moves: 64 per tile, every tile of every slice.
pub open spec fn gcn_move_count(
    width: nat,
    height: nat,
    depth: nat,
    format: GcnSurfaceFormat,
    align: bool,
) -> nat {
    let (wtd, htd, wta, hta) = gcn_grid(width, height, format, align);
    depth * hta * wta * 64
}

/// Byte offset of slice `z` in the destination.
pub open spec fn gcn_slice_base(z: nat, width: nat, height: nat, format: GcnSurfaceFormat) -> nat {
    z * width * height * gcn_bpp(format) / 8
}

/// Move number `k`: the `t`-th block (in Morton order) of tile `(x, y)` of slice `z` goes
/// between position `k` of the tiled stream and its row-major place in the slice, when that
/// place is inside the texture and both ranges are inside the buffers.
pub open spec fn gcn_move(
    dest: Seq<u8>,
    source: Seq<u8>,
    width: nat,
    height: nat,
    format: GcnSurfaceFormat,
    unswizzle: bool,
    align: bool,
    k: nat,
) -> Seq<u8> {
    let (wtd, htd, wta, hta) = gcn_grid(width, height, format, align);
    let bs = gcn_block_size(format);
    let t = k % 64;
    let x = (k / 64) % wta;
    let y = (k / 64 / wta) % hta;
    let z = k / 64 / wta / hta;
    let p = morton_index(t, 8, 8);
    let xo = x * 8 + p % 8;
    let yo = y * 8 + p / 8;
    if xo < wtd && yo < htd {
        let di = bs * (yo * wtd + xo);
        let data = k * bs;
        let src = if unswizzle { data } else { di };
        let dst = if unswizzle { di } else { data };
        let base = gcn_slice_base(z, width, height, format);
        if src + bs <= source.len() && base + dst + bs <= dest.len() {
            copy_block(dest, (base + dst) as int, source, src as int, bs as int)
        } else {
            dest
        }
    } else {
        dest
    }
}

/// The destination after the first `n` moves, starting from zeros.
pub open spec fn gcn_moves(
    source: Seq<u8>,
    width: nat,
    height: nat,
    format: GcnSurfaceFormat,
    unswizzle: bool,
    align: bool,
    n: nat,
) -> Seq<u8>
    decreases n,
{
    if n == 0 {
        Seq::new(source.len(), |i: int| 0u8)
    } else {
        gcn_move(
            gcn_moves(source, width, height, format, unswizzle, align, (n - 1) as nat),
            source,
            width,
            height,
            format,
            unswizzle,
            align,
            (n - 1) as nat,
        )
    }
}

/// The GCN (de)swizzle of `source`.
pub open spec fn gcn_swizzle(
    source: Seq<u8>,
    width: nat,
    height: nat,
    depth: nat,
    format: GcnSurfaceFormat,
    unswizzle: bool,
    align: bool,
) -> Seq<u8> {
    gcn_moves(
        source,
        width,
        height,
        format,
        unswizzle,
        align,
        gcn_move_count(width, height, depth, format, align),
    )
}

/// The inputs on which the GCN swizzle runs: every slice starts inside the data, and no
/// offset or size overflows a `usize`.
pub open spec fn gcn_swizzle_fits(
    len: nat,
    width: nat,
    height: nat,
    depth: nat,
    format: GcnSurfaceFormat,
    align: bool,
) -> bool {
    let (wtd, htd, wta, hta) = gcn_grid(width, height, format, align);
    let pbs = gcn_pixel_block_size(format);
    let ws = if align && gcn_is_compressed(format) { next_pow2(width) } else { width };
    let hs = if align && gcn_is_compressed(format) { next_pow2(height) } else { height };
    &&& align && gcn_is_compressed(format) ==> width <= usize::MAX / 2 + 1 && height <= usize::MAX
        / 2 + 1
    &&& ws / pbs + 7 <= usize::MAX
    &&& hs / pbs + 7 <= usize::MAX
    &&& depth * width <= usize::MAX
    &&& depth * width * height <= usize::MAX
    &&& depth * width * height * gcn_bpp(format) <= usize::MAX
    &&& gcn_move_count(width, height, depth, format, align) <= usize::MAX
    &&& gcn_move_count(width, height, depth, format, align) * gcn_block_size(format) <= usize::MAX
    &&& wtd * htd * gcn_block_size(format) <= usize::MAX
    &&& depth >= 1 ==> gcn_slice_base((depth - 1) as nat, width, height, format) <= len
}

proof fn lemma_slice_base_bounds(z: nat, width: nat, height: nat, depth: nat, format: GcnSurfaceFormat)
    requires
        z < depth,
        depth * width <= usize::MAX,
        depth * width * height <= usize::MAX,
        depth * width * height * gcn_bpp(format) <= usize::MAX,
    ensures
        z * width <= usize::MAX,
        z * width * height <= usize::MAX,
        z * width * height * gcn_bpp(format) <= usize::MAX,
        gcn_slice_base(z, width, height, format) <= gcn_slice_base(
            (depth - 1) as nat,
            width,
            height,
            format,
        ),
{
    let b = gcn_bpp(format);
    assert(z * width <= depth * width) by (nonlinear_arith)
        requires
            z < depth;
    assert(z * width * height <= depth * width * height) by (nonlinear_arith)
        requires
            z < depth;
    assert(z * width * height * b <= (depth - 1) * width * height * b) by (nonlinear_arith)
        requires
            z <= depth - 1;
    assert((depth - 1) * width * height * b <= depth * width * height * b) by (nonlinear_arith)
        requires
            depth >= 1;
    vstd::arithmetic::div_mod::lemma_div_is_ordered(
        (z * width * height * b) as int,
        ((depth - 1) * width * height * b) as int,
        8,
    );
}

/// Makes move number `k` of the GCN swizzle.
fn apply_move(
    destination: &mut Vec<u8>,
    source: &[u8],
    width: usize,
    height: usize,
    depth: usize,
    format: GcnSurfaceFormat,
    unswizzle: bool,
    align_resolution: bool,
    grid: (usize, usize, usize, usize),
    k: usize,
)
    requires
        gcn_swizzle_fits(
            source@.len(),
            width as nat,
            height as nat,
            depth as nat,
            format,
            align_resolution,
        ),
        gcn_grid(width as nat, height as nat, format, align_resolution) == (
            grid.0 as nat,
            grid.1 as nat,
            grid.2 as nat,
            grid.3 as nat,
        ),
        k < gcn_move_count(width as nat, height as nat, depth as nat, format, align_resolution),
        old(destination)@.len() == source@.len(),
    ensures
        final(destination)@ == gcn_move(
            old(destination)@,
            source@,
            width as nat,
            height as nat,
            format,
            unswizzle,
            align_resolution,
            k as nat,
        ),
        final(destination)@.len() == source@.len(),
{
    let (width_texels_dest, height_texels_dest, width_texels_aligned, height_texels_aligned) = grid;
    let block_size = format.block_size();
    let bpp = format.bpp();
    let ghost total = gcn_move_count(width as nat, height as nat, depth as nat, format, align_resolution);
    let ghost kk = k as nat;
    proof {
        assert(total == depth * height_texels_aligned * width_texels_aligned * 64);
        assert(width_texels_aligned > 0 && height_texels_aligned > 0 && depth > 0) by (nonlinear_arith)
            requires
                k < depth * height_texels_aligned * width_texels_aligned * 64;
        lemma_quotient_below(kk, 64, (depth * height_texels_aligned * width_texels_aligned) as nat);
        lemma_quotient_below(kk / 64, width_texels_aligned as nat, (depth * height_texels_aligned) as nat);
        lemma_quotient_below(kk / 64 / width_texels_aligned as nat, height_texels_aligned as nat, depth as nat);
        assert(width_texels_aligned * 64 <= total && height_texels_aligned * 64 <= total) by (nonlinear_arith)
            requires
                total == depth * height_texels_aligned * width_texels_aligned * 64,
                depth >= 1,
                height_texels_aligned >= 1,
                width_texels_aligned >= 1;
        assert(k * block_size + block_size <= total * block_size) by (nonlinear_arith)
            requires
                k < total;
    }
    let data_index = k * block_size;
    let t = k % 64;
    let q = k / 64;
    let x = q % width_texels_aligned;
    let q2 = q / width_texels_aligned;
    let y = q2 % height_texels_aligned;
    let z = q2 / height_texels_aligned;
    proof {
        lemma_slice_base_bounds(z as nat, width as nat, height as nat, depth as nat, format);
    }
    let base = (z * width * height * bpp) / 8;
    let pixel_index = morton(t, 8, 8);
    let div = pixel_index / 8;
    let rem = pixel_index % 8;
    let x_offset = (x * 8) + rem;
    let y_offset = (y * 8) + div;
    if x_offset < width_texels_dest && y_offset < height_texels_dest {
        proof {
            assert(width_texels_dest * height_texels_dest <= depth * width * height) by (nonlinear_arith)
                requires
                    width_texels_dest <= width,
                    height_texels_dest <= height,
                    depth >= 1;
            assert(y_offset * width_texels_dest + x_offset < width_texels_dest * height_texels_dest)
                by (nonlinear_arith)
                requires
                    y_offset < height_texels_dest,
                    x_offset < width_texels_dest;
            let d = y_offset * width_texels_dest + x_offset;
            assert(block_size * d + block_size <= width_texels_dest * height_texels_dest
                * block_size) by (nonlinear_arith)
                requires
                    d < width_texels_dest * height_texels_dest;
        }
        let dest_pixel_index = y_offset * width_texels_dest + x_offset;
        let dest_index = block_size * dest_pixel_index;
        let (src, dst) = if unswizzle {
            (data_index, dest_index)
        } else {
            (dest_index, data_index)
        };
        if src + block_size <= source.len() && dst + block_size <= destination.len() - base {
            copy_block_into(destination, base + dst, source, src, block_size);
        }
    }
}

/// Moves the blocks of `source` between the GCN tiled layout and row-major order: with
/// `unswizzle`, from tiled to row-major, else the other way. With `align_resolution`, a
/// block-compressed texture is tiled over its size rounded up to powers of two.
pub fn do_swizzle(
    source: &[u8],
    width: usize,
    height: usize,
    depth: usize,
    format: GcnSurfaceFormat,
    unswizzle: bool,
    align_resolution: bool,
) -> (r: Vec<u8>)
    requires
        gcn_swizzle_fits(
            source@.len(),
            width as nat,
            height as nat,
            depth as nat,
            format,
            align_resolution,
        ),
    ensures
        r@ == gcn_swizzle(
            source@,
            width as nat,
            height as nat,
            depth as nat,
            format,
            unswizzle,
            align_resolution,
        ),
{
    let mut destination = zeroed(source.len());
    let pixel_block_size = format.pixel_block_size();
    let block_size = format.block_size();
    let bpp = format.bpp();
    let (width_src, height_src) = if align_resolution && format.is_compressed() {
        (next_power_of_two(width), next_power_of_two(height))
    } else {
        (width, height)
    };
    let width_texels_dest = width / pixel_block_size;
    let height_texels_dest = height / pixel_block_size;
    let width_texels = width_src / pixel_block_size;
    let width_texels_aligned = (width_texels + 7) / 8;
    let height_texels = height_src / pixel_block_size;
    let height_texels_aligned = (height_texels + 7) / 8;
    let ghost count = gcn_move_count(width as nat, height as nat, depth as nat, format, align_resolution);
    assert(gcn_grid(width as nat, height as nat, format, align_resolution) == (
        width_texels_dest as nat,
        height_texels_dest as nat,
        width_texels_aligned as nat,
        height_texels_aligned as nat,
    ));
    let total: usize = if depth == 0 || height_texels_aligned == 0 || width_texels_aligned == 0 {
        assert(count == 0) by (nonlinear_arith)
            requires
                count == depth * height_texels_aligned * width_texels_aligned * 64,
                depth == 0 || height_texels_aligned == 0 || width_texels_aligned == 0;
        0
    } else {
        proof {
            lemma_product_grows(depth as nat, height_texels_aligned as nat);
            lemma_product_grows((depth * height_texels_aligned) as nat, width_texels_aligned as nat);
            lemma_product_grows((depth * height_texels_aligned * width_texels_aligned) as nat, 64);
        }
        depth * height_texels_aligned * width_texels_aligned * 64
    };
    let mut k: usize = 0;
    while k < total
        invariant
            k <= total,
            destination@.len() == source@.len(),
            total == gcn_move_count(width as nat, height as nat, depth as nat, format, align_resolution),
            gcn_swizzle_fits(
                source@.len(),
                width as nat,
                height as nat,
                depth as nat,
                format,
                align_resolution,
            ),
            gcn_grid(width as nat, height as nat, format, align_resolution) == (
                width_texels_dest as nat,
                height_texels_dest as nat,
                width_texels_aligned as nat,
                height_texels_aligned as nat,
            ),
            destination@ == gcn_moves(
                source@,
                width as nat,
                height as nat,
                format,
                unswizzle,
                align_resolution,
                k as nat,
            ),
        decreases total - k,
    {
        apply_move(
            &mut destination,
            source,
            width,
            height,
            depth,
            format,
            unswizzle,
            align_resolution,
            (width_texels_dest, height_texels_dest, width_texels_aligned, height_texels_aligned),
            k,
        );
        k += 1;
    }
    destination
}

/// Deswizzler for GCN (PlayStation 4) textures.
pub struct GcnDeswizzler;

impl Deswizzler for GcnDeswizzler {
    type Format = GcnSurfaceFormat;

    open spec fn deswizzle_accepts(
        &self,
        source: Seq<u8>,
        width: usize,
        height: usize,
        depth: usize,
        format: GcnSurfaceFormat,
        align_resolution: bool,
    ) -> bool {
        gcn_swizzle_fits(source.len(), width as nat, height as nat, depth as nat, format, align_resolution)
    }

    fn deswizzle(
        &self,
        source: &[u8],
        width: usize,
        height: usize,
        depth: usize,
        format: GcnSurfaceFormat,
        align_resolution: bool,
    ) -> (r: Result<Vec<u8>, DeswizzleError>)
        ensures
            r matches Ok(v) && v@ == gcn_swizzle(
                source@,
                width as nat,
                height as nat,
                depth as nat,
                format,
                true,
                align_resolution,
            ),
    {
        Ok(do_swizzle(source, width, height, depth, format, true, align_resolution))
    }
}

/// Whether the GCN swizzle runs on a source of `len` bytes (see `gcn_swizzle_fits`).
pub fn gcn_swizzle_fits_check(
    len: usize,
    width: usize,
    height: usize,
    depth: usize,
    format: GcnSurfaceFormat,
    align: bool,
) -> (r: bool)
    ensures
        r == gcn_swizzle_fits(len as nat, width as nat, height as nat, depth as nat, format, align),
{
    let max: u128 = usize::MAX as u128;
    let pbs = format.pixel_block_size();
    let bs = format.block_size();
    let bpp = format.bpp();
    let aligned = align && format.is_compressed();
    if aligned && (width > usize::MAX / 2 + 1 || height > usize::MAX / 2 + 1) {
        return false;
    }
    let ws = if aligned {
        next_power_of_two(width)
    } else {
        width
    };
    let hs = if aligned {
        next_power_of_two(height)
    } else {
        height
    };
    if ws / pbs > usize::MAX - 7 || hs / pbs > usize::MAX - 7 {
        return false;
    }
    let wta = (ws / pbs + 7) / 8;
    let hta = (hs / pbs + 7) / 8;
    let wtd = width / pbs;
    let htd = height / pbs;
    assert(gcn_grid(width as nat, height as nat, format, align) == (wtd as nat, htd as nat, wta as nat, hta as nat));
    assert((depth as u128) * (width as u128) <= 0xFFFF_FFFF_FFFF_FFFF_u128 * 0xFFFF_FFFF_FFFF_FFFF_u128) by (nonlinear_arith)
        requires
            depth <= 0xFFFF_FFFF_FFFF_FFFF_u128,
            width <= 0xFFFF_FFFF_FFFF_FFFF_u128,
    ;
    let dw: u128 = (depth as u128) * (width as u128);
    if dw > max {
        return false;
    }
    assert(dw * (height as u128) <= max * 0xFFFF_FFFF_FFFF_FFFF_u128) by (nonlinear_arith)
        requires
            dw <= max,
            height <= 0xFFFF_FFFF_FFFF_FFFF_u128,
    ;
    let dwh: u128 = dw * (height as u128);
    if dwh > max {
        return false;
    }
    assert(dwh * (bpp as u128) <= max * 128) by (nonlinear_arith)
        requires
            dwh <= max,
            bpp <= 128,
    ;
    let dwhb: u128 = dwh * (bpp as u128);
    if dwhb > max {
        return false;
    }
    assert((depth as u128) * (hta as u128) <= 0xFFFF_FFFF_FFFF_FFFF_u128 * 0xFFFF_FFFF_FFFF_FFFF_u128) by (nonlinear_arith)
        requires
            depth <= 0xFFFF_FFFF_FFFF_FFFF_u128,
            hta <= 0xFFFF_FFFF_FFFF_FFFF_u128,
    ;
    let md: u128 = (depth as u128) * (hta as u128);
    let mc: u128 = if wta == 0 {
        assert(depth * hta * 0 * 64 == 0) by (nonlinear_arith);
        0
    } else {
        if md > max {
            assert(md * (wta as u128) * 64 > max) by (nonlinear_arith)
                requires
                    md > max,
                    wta >= 1,
            ;
            return false;
        }
        assert(md * (wta as u128) <= max * 0xFFFF_FFFF_FFFF_FFFF_u128) by (nonlinear_arith)
            requires
                md <= max,
                wta <= 0xFFFF_FFFF_FFFF_FFFF_u128,
        ;
        let mdw = md * (wta as u128);
        if mdw > max {
            return false;
        }
        mdw * 64
    };
    assert(mc == gcn_move_count(width as nat, height as nat, depth as nat, format, align));
    if mc > max {
        return false;
    }
    assert(mc * (bs as u128) <= max * 16) by (nonlinear_arith)
        requires
            mc <= max,
            bs <= 16,
    ;
    if mc * (bs as u128) > max {
        return false;
    }
    assert((wtd as u128) * (htd as u128) <= 0xFFFF_FFFF_FFFF_FFFF_u128 * 0xFFFF_FFFF_FFFF_FFFF_u128) by (nonlinear_arith)
        requires
            wtd <= 0xFFFF_FFFF_FFFF_FFFF_u128,
            htd <= 0xFFFF_FFFF_FFFF_FFFF_u128,
    ;
    let wh: u128 = (wtd as u128) * (htd as u128);
    if bs != 0 {
        if wh > max {
            assert(wh * (bs as u128) > max) by (nonlinear_arith)
                requires
                    wh > max,
                    bs >= 1,
            ;
            return false;
        }
        assert(wh * (bs as u128) <= max * 16) by (nonlinear_arith)
            requires
                wh <= max,
                bs <= 16,
        ;
        if wh * (bs as u128) > max {
            return false;
        }
    } else {
        assert(wh * 0 == 0);
    }
    if depth >= 1 {
        let d1 = (depth - 1) as u128;
        assert(d1 * (width as u128) * (height as u128) * (bpp as u128) <= dwhb) by (nonlinear_arith)
            requires
                d1 + 1 == depth,
                dw == depth * width,
                dwh == dw * height,
                dwhb == dwh * bpp,
        ;
        assert(d1 * (width as u128) <= dw) by (nonlinear_arith)
            requires
                d1 + 1 == depth,
                dw == depth * width,
        ;
        assert(d1 * (width as u128) * (height as u128) <= dwh) by (nonlinear_arith)
            requires
                d1 * width <= dw,
                dwh == dw * height,
        ;
        let sb = d1 * (width as u128) * (height as u128) * (bpp as u128) / 8;
        assert(sb == gcn_slice_base((depth - 1) as nat, width as nat, height as nat, format));
        if sb > len as u128 {
            return false;
        }
    }
    true
}

} // verus!
