//! Swizzled layout of GCM (PlayStation 3) textures: blocks in Morton order over the whole slice.
use vstd::prelude::*;
use super::{
    argb_to_rgba, argb_to_rgba_bytes, copy_block, copy_block_into, lemma_product_grows,
    lemma_quotient_below, morton, morton_index, next_pow2, next_power_of_two, zeroed,
    DeswizzleError, Deswizzler,
};

verus! {

/// What the GCM swizzle needs to know of a surface format.
#[derive(Clone, Copy, Debug, PartialEq, Eq, Structural)]
pub struct GcmLayout {
    /// Side in pixels of a block (4 for block-compressed formats, else 1).
    pub pixel_block_size: usize,
    /// Bytes per block.
    pub block_size: usize,
    /// Bits per pixel.
    pub bpp: usize,
    /// Whether the format is block-compressed.
    pub compressed: bool,
    /// Whether pixels are stored A, R, G, B (8 bits each).
    pub argb: bool,
}

/// Blocks across and down the swizzled grid.
pub open spec fn gcm_grid(width: nat, height: nat, layout: GcmLayout, align: bool) -> (nat, nat) {
    let ws = if align && layout.compressed { next_pow2(width) } else { width };
    let hs = if align && layout.compressed { next_pow2(height) } else { height };
    (ws / layout.pixel_block_size as nat, hs / layout.pixel_block_size as nat)
}

/// Number of block moves: every block of the grid, every slice.
pub open spec fn gcm_move_count(width: nat, height: nat, depth: nat, layout: GcmLayout, align: bool) -> nat {
    let (wt, ht) = gcm_grid(width, height, layout, align);
    depth * (wt * ht)
}

/// Byte offset of slice `z` in the destination.
pub open spec fn gcm_slice_base(z: nat, width: nat, height: nat, layout: GcmLayout) -> nat {
    z * width * height * (layout.bpp as nat) / 8
}

/// Move number `k`: block `k` of the swizzled stream goes between that position and the
/// place that the Morton curve gives it in its slice, when both ranges are inside the buffers.
pub open spec fn gcm_move(
    dest: Seq<u8>,
    source: Seq<u8>,
    width: nat,
    height: nat,
    layout: GcmLayout,
    unswizzle: bool,
    align: bool,
    k: nat,
) -> Seq<u8> {
    let (wt, ht) = gcm_grid(width, height, layout, align);
    let bs = layout.block_size as nat;
    let t = k % (wt * ht);
    let z = k / (wt * ht);
    let di = bs * morton_index(t, wt, ht);
    let data = k * bs;
    let src = if unswizzle { data } else { di };
    let dst = if unswizzle { di } else { data };
    let base = gcm_slice_base(z, width, height, layout);
    if src + bs <= source.len() && base + dst + bs <= dest.len() {
        copy_block(dest, (base + dst) as int, source, src as int, bs as int)
    } else {
        dest
    }
}

/// The destination after the first `n` moves, starting from zeros.
pub open spec fn gcm_moves(
    source: Seq<u8>,
    width: nat,
    height: nat,
    layout: GcmLayout,
    unswizzle: bool,
    align: bool,
    n: nat,
) -> Seq<u8>
    decreases n,
{
    if n == 0 {
        Seq::new(source.len(), |i: int| 0u8)
    } else {
        gcm_move(
            gcm_moves(source, width, height, layout, unswizzle, align, (n - 1) as nat),
            source,
            width,
            height,
            layout,
            unswizzle,
            align,
            (n - 1) as nat,
        )
    }
}

/// The GCM (de)swizzle of `source`.
pub open spec fn gcm_swizzle(
    source: Seq<u8>,
    width: nat,
    height: nat,
    depth: nat,
    layout: GcmLayout,
    unswizzle: bool,
    align: bool,
) -> Seq<u8> {
    gcm_moves(source, width, height, layout, unswizzle, align, gcm_move_count(width, height, depth, layout, align))
}

/// The inputs on which the GCM swizzle runs: every slice starts inside the data, and no
/// offset or size overflows a `usize`.
pub open spec fn gcm_swizzle_fits(
    len: nat,
    width: nat,
    height: nat,
    depth: nat,
    layout: GcmLayout,
    align: bool,
) -> bool {
    let (wt, ht) = gcm_grid(width, height, layout, align);
    &&& layout.pixel_block_size >= 1
    &&& align && layout.compressed ==> width <= usize::MAX / 2 + 1 && height <= usize::MAX / 2 + 1
    &&& wt * ht <= usize::MAX
    &&& depth * width <= usize::MAX
    &&& depth * width * height <= usize::MAX
    &&& depth * width * height * layout.bpp <= usize::MAX
    &&& gcm_move_count(width, height, depth, layout, align) <= usize::MAX
    &&& gcm_move_count(width, height, depth, layout, align) * layout.block_size <= usize::MAX
    &&& depth >= 1 ==> gcm_slice_base((depth - 1) as nat, width, height, layout) <= len
}

proof fn lemma_gcm_slice_base_bounds(z: nat, width: nat, height: nat, depth: nat, layout: GcmLayout)
    requires
        z < depth,
        depth * width <= usize::MAX,
        depth * width * height <= usize::MAX,
        depth * width * height * layout.bpp <= usize::MAX,
    ensures
        z * width <= usize::MAX,
        z * width * height <= usize::MAX,
        z * width * height * layout.bpp <= usize::MAX,
        gcm_slice_base(z, width, height, layout) <= gcm_slice_base((depth - 1) as nat, width, height, layout),
{
    let b = layout.bpp as nat;
    assert(z * width <= depth * width) by (nonlinear_arith)
        requires
            z < depth;
    assert(z * width * height <= depth * width * height) by (nonlinear_arith)
        requires
            z < depth;
    assert(z * width * height * b <= (depth - 1) * width * height * b) by (nonlinear_arith)
        requires
            z <= depth - 1;
    assert((depth - 1) * width * height * b <= depth * width * height * b) by (nonlinear_arith)
        requires
            depth >= 1;
    vstd::arithmetic::div_mod::lemma_div_is_ordered(
        (z * width * height * b) as int,
        ((depth - 1) * width * height * b) as int,
        8,
    );
}

/// Makes move number `k` of the GCM swizzle.
fn apply_move(
    destination: &mut Vec<u8>,
    source: &[u8],
    width: usize,
    height: usize,
    depth: usize,
    layout: GcmLayout,
    unswizzle: bool,
    align_resolution: bool,
    grid: (usize, usize),
    k: usize,
)
    requires
        gcm_swizzle_fits(source@.len(), width as nat, height as nat, depth as nat, layout, align_resolution),
        gcm_grid(width as nat, height as nat, layout, align_resolution) == (grid.0 as nat, grid.1 as nat),
        k < gcm_move_count(width as nat, height as nat, depth as nat, layout, align_resolution),
        old(destination)@.len() == source@.len(),
    ensures
        final(destination)@ == gcm_move(
            old(destination)@,
            source@,
            width as nat,
            height as nat,
            layout,
            unswizzle,
            align_resolution,
            k as nat,
        ),
        final(destination)@.len() == source@.len(),
{
    let (width_texels, height_texels) = grid;
    let block_size = layout.block_size;
    let texel_size = width_texels * height_texels;
    let ghost total = gcm_move_count(width as nat, height as nat, depth as nat, layout, align_resolution);
    proof {
        assert(texel_size > 0 && depth > 0) by (nonlinear_arith)
            requires
                k < depth * texel_size;
        lemma_quotient_below(k as nat, texel_size as nat, depth as nat);
        assert(k * block_size + block_size <= total * block_size) by (nonlinear_arith)
            requires
                k < total;
        assert(texel_size * block_size <= total * block_size) by (nonlinear_arith)
            requires
                total == depth * texel_size,
                depth >= 1;
    }
    let data_index = k * block_size;
    let t = k % texel_size;
    let z = k / texel_size;
    proof {
        lemma_gcm_slice_base_bounds(z as nat, width as nat, height as nat, depth as nat, layout);
    }
    let base = (z * width * height * layout.bpp) / 8;
    let pixel_index = morton(t, width_texels, height_texels);
    proof {
        assert(block_size * pixel_index + block_size <= texel_size * block_size) by (nonlinear_arith)
            requires
                pixel_index < texel_size;
    }
    let dest_index = block_size * pixel_index;
    let (src, dst) = if unswizzle {
        (data_index, dest_index)
    } else {
        (dest_index, data_index)
    };
    if src + block_size <= source.len() && dst + block_size <= destination.len() - base {
        copy_block_into(destination, base + dst, source, src, block_size);
    }
}

/// Moves the blocks of `source` between the GCM swizzled layout and row-major order: with
/// `unswizzle`, from swizzled to row-major, else the other way. With `align_resolution`, a
/// block-compressed texture is swizzled over its size rounded up to powers of two.
pub fn do_swizzle(
    source: &[u8],
    width: usize,
    height: usize,
    depth: usize,
    layout: GcmLayout,
    unswizzle: bool,
    align_resolution: bool,
) -> (r: Vec<u8>)
    requires
        gcm_swizzle_fits(source@.len(), width as nat, height as nat, depth as nat, layout, align_resolution),
    ensures
        r@ == gcm_swizzle(source@, width as nat, height as nat, depth as nat, layout, unswizzle, align_resolution),
{
    let mut untiled = zeroed(source.len());
    let pixel_block_size = layout.pixel_block_size;
    let (width_src, height_src) = if align_resolution && layout.compressed {
        (next_power_of_two(width), next_power_of_two(height))
    } else {
        (width, height)
    };
    let width_texels = width_src / pixel_block_size;
    let height_texels = height_src / pixel_block_size;
    let texel_size = width_texels * height_texels;
    let ghost count = gcm_move_count(width as nat, height as nat, depth as nat, layout, align_resolution);
    let total: usize = if depth == 0 || texel_size == 0 {
        assert(count == 0) by (nonlinear_arith)
            requires
                count == depth * texel_size,
                depth == 0 || texel_size == 0;
        0
    } else {
        depth * texel_size
    };
    let mut k: usize = 0;
    while k < total
        invariant
            k <= total,
            untiled@.len() == source@.len(),
            total == gcm_move_count(width as nat, height as nat, depth as nat, layout, align_resolution),
            gcm_swizzle_fits(source@.len(), width as nat, height as nat, depth as nat, layout, align_resolution),
            gcm_grid(width as nat, height as nat, layout, align_resolution) == (width_texels as nat, height_texels as nat),
            untiled@ == gcm_moves(source@, width as nat, height as nat, layout, unswizzle, align_resolution, k as nat),
        decreases total - k,
    {
        apply_move(
            &mut untiled,
            source,
            width,
            height,
            depth,
            layout,
            unswizzle,
            align_resolution,
            (width_texels, height_texels),
            k,
        );
        k += 1;
    }
    untiled
}

/// Deswizzler for GCM (PlayStation 3) textures.
pub struct GcmDeswizzler;

impl GcmDeswizzler {
    /// Reorders the channels of an A8R8G8B8 texture to R, G, B, A; other formats are copied.
    pub fn color_deswizzle(source: &[u8], layout: GcmLayout) -> (r: Vec<u8>)
        ensures
            r@ == (if layout.argb { argb_to_rgba(source@) } else { source@ }),
    {
        if layout.argb {
            argb_to_rgba_bytes(source)
        } else {
            vstd::slice::slice_to_vec(source)
        }
    }
}

impl Deswizzler for GcmDeswizzler {
    type Format = GcmLayout;

    open spec fn deswizzle_accepts(
        &self,
        source: Seq<u8>,
        width: usize,
        height: usize,
        depth: usize,
        format: GcmLayout,
        align_resolution: bool,
    ) -> bool {
        gcm_swizzle_fits(source.len(), width as nat, height as nat, depth as nat, format, align_resolution)
    }

    fn deswizzle(
        &self,
        source: &[u8],
        width: usize,
        height: usize,
        depth: usize,
        format: GcmLayout,
        align_resolution: bool,
    ) -> (r: Result<Vec<u8>, DeswizzleError>)
        ensures
            r matches Ok(v) && v@ == gcm_swizzle(
                source@,
                width as nat,
                height as nat,
                depth as nat,
                format,
                true,
                align_resolution,
            ),
    {
        Ok(do_swizzle(source, width, height, depth, format, true, align_resolution))
    }
}

} // verus!
