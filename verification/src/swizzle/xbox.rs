//! Tiled layout of Xenos (Xbox 360) textures, and block copies for Durango (Xbox One) ones.
use vstd::prelude::*;
use vstd::slice::SliceAdditionalExecFns;
use crate::formats::surface::XenosSurfaceFormat;
use super::{argb_to_rgba, argb_to_rgba_bytes, copy_block, copy_block_into, zeroed, DeswizzleError, Deswizzler};

verus! {

/// `data` (of even length) with the two bytes of every pair swapped.
pub open spec fn swap_pairs(data: Seq<u8>) -> Seq<u8> {
    Seq::new(data.len(), |i: int| if i % 2 == 0 { data[i + 1] } else { data[i - 1] })
}

/// Swaps the two bytes of each 16-bit word, in place.
pub fn swap_byte_order_x360(image_data: &mut [u8])
    requires
        old(image_data)@.len() % 2 == 0,
    ensures
        final(image_data)@ == swap_pairs(old(image_data)@),
{
    let n = image_data.len();
    let mut i: usize = 0;
    while i < n
        invariant
            n == image_data@.len(),
            n == old(image_data)@.len(),
            n % 2 == 0,
            i <= n,
            i % 2 == 0,
            forall|j: int|
                0 <= j < n ==> #[trigger] image_data@[j] == (if j < i {
                    swap_pairs(old(image_data)@)[j]
                } else {
                    old(image_data)@[j]
                }),
        decreases n - i,
    {
        let a = image_data[i];
        let b = image_data[i + 1];
        image_data[i] = b;
        image_data[i + 1] = a;
        i = i + 2;
    }
    assert(image_data@ =~= swap_pairs(old(image_data)@));
}

/// Texel pitches the Xenos tiling formulas handle: 1 to 16 bytes.
pub open spec fn xenos_pitch_ok(texel_byte_pitch: usize) -> bool {
    1 <= texel_byte_pitch <= 16
}

/// Row widths in blocks the Xenos tiling formulas handle: positive, with room to round up to 32
/// and to add a tile's offset.
pub open spec fn xenos_width_ok(width_in_blocks: usize) -> bool {
    1 <= width_in_blocks <= usize::MAX - 256
}

/// Base-2 logarithm of the texel pitch, as the tiling formulas compute it.
pub open spec fn xenos_log_bpp(tbp: usize) -> usize {
    ((tbp >> 2usize) + ((tbp >> 1usize) >> (tbp >> 2usize))) as usize
}

/// Byte offset of a block in the tiled stream, rearranged as the tiling formulas read it.
pub open spec fn xenos_offset_tile(block_offset: usize, tbp: usize) -> usize {
    let offset_byte = block_offset << xenos_log_bpp(tbp);
    (((offset_byte & !0xFFFusize) >> 3usize) + ((offset_byte & 0x700usize) >> 2usize) + (
    offset_byte & 0x3Fusize)) as usize
}

/// Column, in blocks, of the block at `block_offset` of the tiled stream.
pub open spec fn xg_tiled_x(block_offset: usize, width_in_blocks: usize, tbp: usize) -> usize {
    let aligned_width = ((width_in_blocks + 31) as usize) & !31usize;
    let log_bpp = xenos_log_bpp(tbp);
    let offset_byte = block_offset << log_bpp;
    let offset_tile = xenos_offset_tile(block_offset, tbp);
    let offset_macro = offset_tile >> ((7 + log_bpp) as usize);
    let macro_x = (offset_macro % (aligned_width >> 5usize)) << 2usize;
    let tile = ((((offset_tile >> ((5 + log_bpp) as usize)) & 2usize) + (offset_byte >> 6usize)) as usize) & 3usize;
    let macro_ = ((macro_x + tile) as usize) << 3usize;
    let micro = ((((offset_tile >> 1usize) & !0xFusize) + (offset_tile & 0xFusize)) as usize & (((tbp
        << 3usize) - 1) as usize)) >> log_bpp;
    (macro_ + micro) as usize
}

/// Row, in blocks, of the block at `block_offset` of the tiled stream.
pub open spec fn xg_tiled_y(block_offset: usize, width_in_blocks: usize, tbp: usize) -> usize {
    let aligned_width = ((width_in_blocks + 31) as usize) & !31usize;
    let log_bpp = xenos_log_bpp(tbp);
    let offset_byte = block_offset << log_bpp;
    let offset_tile = xenos_offset_tile(block_offset, tbp);
    let offset_macro = offset_tile >> ((7 + log_bpp) as usize);
    let macro_y = (offset_macro / (aligned_width >> 5usize)) << 2usize;
    let tile = ((offset_tile >> ((6 + log_bpp) as usize)) & 1usize) + ((offset_byte & 0x800usize)
        >> 10usize);
    let macro_ = ((macro_y + tile) as usize) << 3usize;
    let micro = ((((offset_tile & ((((tbp << 6usize) - 1) as usize) & !0x1Fusize)) + ((offset_tile
        & 0xFusize) << 1usize)) as usize) >> ((3 + log_bpp) as usize)) & !1usize;
    (macro_ + micro + ((offset_tile & 0x10usize) >> 4usize)) as usize
}

proof fn lemma_xenos_small(tbp: usize)
    requires
        1 <= tbp <= 16,
    ensures
        tbp >> 2usize <= 4,
        (tbp >> 1usize) >> (tbp >> 2usize) <= 8,
        xenos_log_bpp(tbp) <= 4,
        tbp << 3usize == tbp * 8,
        tbp << 6usize == tbp * 64,
{
    assert(1 <= tbp <= 16 ==> tbp >> 2usize <= 4 && (tbp >> 1usize) >> (tbp >> 2usize) <= 8
        && ((tbp >> 2usize) + ((tbp >> 1usize) >> (tbp >> 2usize))) <= 4 && tbp << 3usize == tbp
        * 8 && tbp << 6usize == tbp * 64) by (bit_vector);
}

proof fn lemma_bits(v: usize, m: usize, w: usize)
    by (bit_vector)
    ensures
        v & m <= v,
        v & m <= m,
        v >> m <= v,
        m >= 7 ==> v >> m <= v / 128,
        v >> 1usize == v / 2,
        v >> 2usize == v / 4,
        v >> 3usize == v / 8,
        v >> 4usize == v / 16,
        v >> 5usize == v / 32,
        v >> 6usize == v / 64,
        v >> 10usize == v / 1024,
        v <= w / 2 ==> v << 1usize == v * 2,
        v <= w / 4 ==> v << 2usize == v * 4,
        v <= w / 8 ==> v << 3usize == v * 8,
        v >= 32 ==> v & !31usize >= 32,
        v & !31usize <= v,
{
}

/// Column, in blocks, of the block at `block_offset` of the Xenos tiled stream.
pub fn xg_address_2d_tiled_x(block_offset: usize, width_in_blocks: usize, texel_byte_pitch: usize) -> (r: usize)
    requires
        xenos_width_ok(width_in_blocks),
        xenos_pitch_ok(texel_byte_pitch),
    ensures
        r == xg_tiled_x(block_offset, width_in_blocks, texel_byte_pitch),
{
    proof {
        lemma_xenos_small(texel_byte_pitch);
    }
    let aligned_width = (width_in_blocks + 31) & !31;
    proof {
        lemma_bits((width_in_blocks + 31) as usize, 0, 0);
    }
    let log_bpp = (texel_byte_pitch >> 2) + ((texel_byte_pitch >> 1) >> (texel_byte_pitch >> 2));
    let offset_byte = block_offset << log_bpp;
    proof {
        lemma_bits(offset_byte & !0xFFF, 0, 0);
        lemma_bits(offset_byte, !0xFFF, 0);
        lemma_bits(offset_byte, 0x700, 0);
        lemma_bits(offset_byte & 0x700, 0, 0);
        lemma_bits(offset_byte, 0x3F, 0);
    }
    let offset_tile = ((offset_byte & !0xFFF) >> 3) + ((offset_byte & 0x700) >> 2) + (offset_byte
        & 0x3F);
    let offset_macro = offset_tile >> (7 + log_bpp);
    proof {
        lemma_bits(aligned_width, 0, 0);
        lemma_bits(offset_tile >> (5 + log_bpp), 2, 0);
        lemma_bits(offset_byte, 0, 0);
    }
    let m = offset_macro % (aligned_width >> 5);
    proof {
        lemma_bits(m, 0, aligned_width);
    }
    let macro_x = m << 2;
    let tile = (((offset_tile >> (5 + log_bpp)) & 2) + (offset_byte >> 6)) & 3;
    proof {
        lemma_bits((((offset_tile >> (5 + log_bpp)) & 2) + (offset_byte >> 6)) as usize, 3, 0);
        lemma_bits((macro_x + tile) as usize, 0, aligned_width);
        lemma_bits(offset_tile >> 1, !0xF, 0);
        lemma_bits(offset_tile, 0xF, 0);
        lemma_bits(offset_tile, 0, 0);
    }
    let macro_ = (macro_x + tile) << 3;
    let folded = ((offset_tile >> 1) & !0xF) + (offset_tile & 0xF);
    proof {
        lemma_bits(folded, ((texel_byte_pitch << 3) - 1) as usize, 0);
        lemma_bits(folded & (((texel_byte_pitch << 3) - 1) as usize), log_bpp, 0);
    }
    let micro = (folded & ((texel_byte_pitch << 3) - 1)) >> log_bpp;
    macro_ + micro
}

/// Row, in blocks, of the block at `block_offset` of the Xenos tiled stream.
pub fn xg_address_2d_tiled_y(block_offset: usize, width_in_blocks: usize, texel_byte_pitch: usize) -> (r: usize)
    requires
        xenos_width_ok(width_in_blocks),
        xenos_pitch_ok(texel_byte_pitch),
    ensures
        r == xg_tiled_y(block_offset, width_in_blocks, texel_byte_pitch),
{
    proof {
        lemma_xenos_small(texel_byte_pitch);
    }
    let aligned_width = (width_in_blocks + 31) & !31;
    proof {
        lemma_bits((width_in_blocks + 31) as usize, 0, 0);
        lemma_bits(aligned_width, 0, 0);
    }
    let log_bpp = (texel_byte_pitch >> 2) + ((texel_byte_pitch >> 1) >> (texel_byte_pitch >> 2));
    let offset_byte = block_offset << log_bpp;
    proof {
        lemma_bits(offset_byte & !0xFFF, 0, 0);
        lemma_bits(offset_byte, !0xFFF, 0);
        lemma_bits(offset_byte, 0x700, 0);
        lemma_bits(offset_byte & 0x700, 0, 0);
        lemma_bits(offset_byte, 0x3F, 0);
        lemma_bits(offset_byte, 0x800, 0);
        lemma_bits(offset_byte & 0x800, 0, 0);
    }
    let offset_tile = ((offset_byte & !0xFFF) >> 3) + ((offset_byte & 0x700) >> 2) + (offset_byte
        & 0x3F);
    proof {
        lemma_bits(offset_tile, (7 + log_bpp) as usize, 0);
        lemma_bits(offset_tile >> (6 + log_bpp), 1, 0);
    }
    let offset_macro = offset_tile >> (7 + log_bpp);
    let q = offset_macro / (aligned_width >> 5);
    proof {
        assert(q <= offset_macro) by (nonlinear_arith)
            requires
                q == offset_macro / (aligned_width / 32),
                aligned_width / 32 >= 1;
        lemma_bits(q, 0, usize::MAX);
    }
    let macro_y = q << 2;
    let tile = ((offset_tile >> (6 + log_bpp)) & 1) + ((offset_byte & 0x800) >> 10);
    proof {
        lemma_bits((macro_y + tile) as usize, 0, usize::MAX);
        let mask = (((texel_byte_pitch << 6) - 1) as usize) & !0x1F;
        lemma_bits(((texel_byte_pitch << 6) - 1) as usize, !0x1F, 0);
        lemma_bits(offset_tile, mask, 0);
        lemma_bits(offset_tile, 0xF, 0);
        lemma_bits(offset_tile & 0xF, 0, 30);
        lemma_bits(offset_tile, 0x10, 0);
        lemma_bits(offset_tile & 0x10, 0, 0);
    }
    let macro_ = (macro_y + tile) << 3;
    let folded = (offset_tile & (((texel_byte_pitch << 6) - 1) & !0x1F)) + ((offset_tile & 0xF) << 1);
    proof {
        lemma_bits(folded, (3 + log_bpp) as usize, 0);
        lemma_bits(folded >> (3 + log_bpp), !1, 0);
    }
    let micro = (folded >> (3 + log_bpp)) & !1;
    macro_ + micro + ((offset_tile & 0x10) >> 4)
}

/// Blocks across and down the image, and the same rounded up to multiples of 32.
pub open spec fn x360_grid(image_width: usize, image_height: usize, block_pixel_size: usize) -> (
    usize,
    usize,
    usize,
    usize,
) {
    let wib = image_width / block_pixel_size;
    let hib = image_height / block_pixel_size;
    (wib, hib, ((wib + 31) as usize) & !31usize, ((hib + 31) as usize) & !31usize)
}

/// Bytes of one tiled slice.
pub open spec fn x360_slice_size(grid: (usize, usize, usize, usize), tbp: usize) -> nat {
    (grid.2 * grid.3 * tbp) as nat
}

/// Whether all bytes of `s` are zero.
pub open spec fn all_zero(s: Seq<u8>) -> bool {
    forall|i: int| 0 <= i < s.len() ==> s[i] == 0
}

/// Byte offset, within its slice, of the row-major place of block `k` of the tiled stream.
pub open spec fn x360_dest_offset(k: usize, grid: (usize, usize, usize, usize), tbp: usize) -> nat {
    ((xg_tiled_y(k, grid.2, tbp) * grid.0 + xg_tiled_x(k, grid.2, tbp)) * tbp) as nat
}

/// Move `k` of slice `slice`: the block at position `k` of the tiled stream and its row-major
/// place trade bytes, when both are inside the slice; when detiling, an all-zero block is
/// skipped.
pub open spec fn x360_move(
    dest: Seq<u8>,
    image: Seq<u8>,
    grid: (usize, usize, usize, usize),
    tbp: usize,
    deswizzle: bool,
    slice: nat,
    k: usize,
) -> Seq<u8> {
    let base = slice * x360_slice_size(grid, tbp);
    let slice_len = image.len() - base;
    let src = (k * tbp) as nat;
    let dst = x360_dest_offset(k, grid, tbp);
    if dst + tbp > slice_len || src + tbp > slice_len {
        dest
    } else if deswizzle {
        if all_zero(image.subrange((base + src) as int, (base + src + tbp) as int)) {
            dest
        } else {
            copy_block(dest, (base + dst) as int, image, (base + src) as int, tbp as int)
        }
    } else {
        copy_block(dest, (base + src) as int, image, (base + dst) as int, tbp as int)
    }
}

/// The destination after the first `n` moves (slice by slice), starting from zeros.
pub open spec fn x360_moves(
    image: Seq<u8>,
    grid: (usize, usize, usize, usize),
    tbp: usize,
    deswizzle: bool,
    n: nat,
) -> Seq<u8>
    decreases n,
{
    if n == 0 {
        Seq::new(image.len(), |i: int| 0u8)
    } else {
        let area = (grid.2 * grid.3) as nat;
        let m = (n - 1) as nat;
        x360_move(
            x360_moves(image, grid, tbp, deswizzle, m),
            image,
            grid,
            tbp,
            deswizzle,
            m / area,
            (m % area) as usize,
        )
    }
}

/// The inputs on which the Xenos untiling runs without overflow.
pub open spec fn x360_fits(
    image_width: usize,
    image_height: usize,
    image_depth: usize,
    block_pixel_size: usize,
    tbp: usize,
) -> bool {
    let grid = x360_grid(image_width, image_height, block_pixel_size);
    &&& block_pixel_size >= 1
    &&& xenos_pitch_ok(tbp)
    &&& grid.0 <= usize::MAX - 512
    &&& grid.1 <= usize::MAX - 512
    &&& grid.2 * grid.3 * tbp <= usize::MAX
    &&& image_depth * x360_slice_size(grid, tbp) <= usize::MAX
    &&& forall|k: usize|
        k < grid.2 * grid.3 ==> #[trigger] x360_dest_offset(k, grid, tbp) + tbp <= usize::MAX
}

/// The result of untiling: an error when some slice starts past the end of the data, else the
/// data after every move of every slice.
pub open spec fn x360_untile(
    image: Seq<u8>,
    image_width: usize,
    image_height: usize,
    image_depth: usize,
    block_pixel_size: usize,
    tbp: usize,
    deswizzle: bool,
) -> Result<Seq<u8>, DeswizzleError> {
    let grid = x360_grid(image_width, image_height, block_pixel_size);
    if image_depth >= 1 && (image_depth - 1) * x360_slice_size(grid, tbp) > image.len() {
        Err(DeswizzleError::SliceSourceOutOfBounds)
    } else {
        Ok(x360_moves(image, grid, tbp, deswizzle, (image_depth * (grid.2 * grid.3)) as nat))
    }
}

/// Whether `s[from..from + len]` is all zeros.
fn is_zero_block(s: &[u8], from: usize, len: usize) -> (r: bool)
    requires
        from + len <= s@.len(),
    ensures
        r == all_zero(s@.subrange(from as int, from + len)),
{
    let mut i: usize = 0;
    while i < len
        invariant
            i <= len,
            from + len <= s.len(),
            forall|j: int| 0 <= j < i ==> #[trigger] s@.subrange(from as int, from + len)[j] == 0,
        decreases len - i,
    {
        if s[from + i] != 0 {
            assert(s@.subrange(from as int, from + len)[i as int] != 0);
            return false;
        }
        i += 1;
    }
    true
}

/// Move `k` of slice `slice` of the Xenos untiling.
fn x360_apply_move(
    dest: &mut Vec<u8>,
    image: &[u8],
    grid: (usize, usize, usize, usize),
    tbp: usize,
    deswizzle: bool,
    base: usize,
    slice: Ghost<nat>,
    k: usize,
)
    requires
        old(dest)@.len() == image@.len(),
        base == slice@ * x360_slice_size(grid, tbp),
        base <= image@.len(),
        k < grid.2 * grid.3,
        grid.2 * grid.3 * tbp <= usize::MAX,
        1 <= grid.2 <= usize::MAX - 256,
        xenos_pitch_ok(tbp),
        x360_dest_offset(k, grid, tbp) + tbp <= usize::MAX,
    ensures
        final(dest)@ == x360_move(old(dest)@, image@, grid, tbp, deswizzle, slice@, k),
        final(dest)@.len() == image@.len(),
{
    let (width_in_blocks, _height_in_blocks, padded_width_in_blocks, _padded_height) = grid;
    let slice_len = image.len() - base;
    let x = xg_address_2d_tiled_x(k, padded_width_in_blocks, tbp);
    let y = xg_address_2d_tiled_y(k, padded_width_in_blocks, tbp);
    proof {
        assert(k * tbp + tbp <= grid.2 * grid.3 * tbp) by (nonlinear_arith)
            requires
                k < grid.2 * grid.3;
        assert(y * width_in_blocks + x <= (y * width_in_blocks + x) * tbp) by (nonlinear_arith)
            requires
                tbp >= 1;
        assert(y * width_in_blocks <= y * width_in_blocks + x);
    }
    let src_byte_offset = k * tbp;
    let dest_byte_offset = (y * width_in_blocks + x) * tbp;
    if dest_byte_offset + tbp > slice_len || src_byte_offset + tbp > slice_len {
        return;
    }
    if deswizzle {
        if is_zero_block(image, base + src_byte_offset, tbp) {
            return;
        }
        copy_block_into(dest, base + dest_byte_offset, image, base + src_byte_offset, tbp);
    } else {
        copy_block_into(dest, base + src_byte_offset, image, base + dest_byte_offset, tbp);
    }
}

/// Moves the blocks of each slice of `image_data` between the Xenos tiled layout and
/// row-major order: with `deswizzle`, from tiled to row-major, skipping all-zero blocks.
pub fn untile_x360_image_data(
    image_data: &[u8],
    image_width: usize,
    image_height: usize,
    image_depth: usize,
    block_pixel_size: usize,
    texel_byte_pitch: usize,
    deswizzle: bool,
) -> (r: Result<Vec<u8>, DeswizzleError>)
    requires
        x360_fits(
            image_width,
            image_height,
            image_depth,
            block_pixel_size,
            texel_byte_pitch,
        ),
    ensures
        match (r, x360_untile(image_data@, image_width, image_height, image_depth, block_pixel_size, texel_byte_pitch, deswizzle)) {
            (Ok(v), Ok(s)) => v@ == s,
            (Err(e), Err(f)) => e == f,
            _ => false,
        },
{
    let ghost grid = x360_grid(image_width, image_height, block_pixel_size);
    let mut converted_data = zeroed(image_data.len());
    let width_in_blocks = image_width / block_pixel_size;
    let height_in_blocks = image_height / block_pixel_size;
    let padded_width_in_blocks = (width_in_blocks + 31) & !31;
    let padded_height_in_blocks = (height_in_blocks + 31) & !31;
    proof {
        lemma_bits((width_in_blocks + 31) as usize, 0, 0);
        lemma_bits((height_in_blocks + 31) as usize, 0, 0);
        assert(padded_width_in_blocks * padded_height_in_blocks <= padded_width_in_blocks
            * padded_height_in_blocks * texel_byte_pitch) by (nonlinear_arith)
            requires
                texel_byte_pitch >= 1;
    }
    let area = padded_width_in_blocks * padded_height_in_blocks;
    let slice_size = area * texel_byte_pitch;
    let g = (width_in_blocks, height_in_blocks, padded_width_in_blocks, padded_height_in_blocks);
    assert(g == grid);
    let mut slice: usize = 0;
    while slice < image_depth
        invariant
            slice <= image_depth,
            g == x360_grid(image_width, image_height, block_pixel_size),
            x360_fits(
                image_width,
                image_height,
                image_depth,
                block_pixel_size,
                texel_byte_pitch,
            ),
            area == g.2 * g.3,
            slice_size == x360_slice_size(g, texel_byte_pitch),
            converted_data@.len() == image_data@.len(),
            forall|z: nat| z < slice ==> #[trigger] (z * slice_size) <= image_data@.len(),
            converted_data@ == x360_moves(image_data@, g, texel_byte_pitch, deswizzle, (slice * area) as nat),
        decreases image_depth - slice,
    {
        proof {
            assert(slice * slice_size <= image_depth * slice_size) by (nonlinear_arith)
                requires
                    slice < image_depth;
        }
        let base = slice * slice_size;
        if base > image_data.len() {
            proof {
                assert((image_depth - 1) * slice_size >= slice * slice_size) by (nonlinear_arith)
                    requires
                        slice <= image_depth - 1;
            }
            return Err(DeswizzleError::SliceSourceOutOfBounds);
        }
        let mut k: usize = 0;
        while k < area
            invariant
                k <= area,
                area == g.2 * g.3,
                g == x360_grid(image_width, image_height, block_pixel_size),
                x360_fits(
                    image_width,
                    image_height,
                    image_depth,
                    block_pixel_size,
                    texel_byte_pitch,
                ),
                slice < image_depth,
                base == slice * slice_size,
                slice_size == x360_slice_size(g, texel_byte_pitch),
                base <= image_data@.len(),
                converted_data@.len() == image_data@.len(),
                converted_data@ == x360_moves(image_data@, g, texel_byte_pitch, deswizzle, (slice * area + k) as nat),
            decreases area - k,
        {
            proof {
                assert(g.2 >= 1) by (nonlinear_arith)
                    requires
                        k < g.2 * g.3;
                lemma_bits((g.0 + 31) as usize, 0, 0);
                let n: nat = (slice * area + k) as nat;
                let a: nat = area as nat;
                assert(n / a == slice && n % a == k) by (nonlinear_arith)
                    requires
                        n == slice * a + k,
                        k < a;
                assert(x360_dest_offset(k, g, texel_byte_pitch) + texel_byte_pitch <= usize::MAX);
            }
            x360_apply_move(
                &mut converted_data,
                image_data,
                g,
                texel_byte_pitch,
                deswizzle,
                base,
                Ghost(slice as nat),
                k,
            );
            k += 1;
        }
        slice += 1;
        proof {
            assert((slice - 1) * area + area == slice * area) by (nonlinear_arith);
        }
    }
    proof {
        if image_depth >= 1 {
            assert((image_depth - 1) * slice_size <= image_data@.len());
        }
    }
    Ok(converted_data)
}

/// Whether the Xenos untiling runs without overflow on these dimensions.
pub fn x360_fits_check(
    image_width: usize,
    image_height: usize,
    image_depth: usize,
    block_pixel_size: usize,
    texel_byte_pitch: usize,
) -> (r: bool)
    ensures
        r == x360_fits(image_width, image_height, image_depth, block_pixel_size, texel_byte_pitch),
{
    if block_pixel_size == 0 || texel_byte_pitch == 0 || texel_byte_pitch > 16 {
        return false;
    }
    let ghost g = x360_grid(image_width, image_height, block_pixel_size);
    let width_in_blocks = image_width / block_pixel_size;
    let height_in_blocks = image_height / block_pixel_size;
    if width_in_blocks > usize::MAX - 512 || height_in_blocks > usize::MAX - 512 {
        return false;
    }
    let padded_width_in_blocks = (width_in_blocks + 31) & !31;
    let padded_height_in_blocks = (height_in_blocks + 31) & !31;
    proof {
        lemma_bits((width_in_blocks + 31) as usize, 0, 0);
        lemma_bits((height_in_blocks + 31) as usize, 0, 0);
    }
    assert((width_in_blocks, height_in_blocks, padded_width_in_blocks, padded_height_in_blocks) == g);
    let area = match padded_width_in_blocks.checked_mul(padded_height_in_blocks) {
        Some(a) => a,
        None => {
            assert(g.2 * g.3 * texel_byte_pitch > usize::MAX) by (nonlinear_arith)
                requires
                    g.2 * g.3 > usize::MAX,
                    texel_byte_pitch >= 1;
            return false;
        },
    };
    let slice_size = match area.checked_mul(texel_byte_pitch) {
        Some(v) => v,
        None => return false,
    };
    if image_depth.checked_mul(slice_size).is_none() {
        return false;
    }
    let mut k: usize = 0;
    while k < area
        invariant
            k <= area,
            area == g.2 * g.3,
            g == (width_in_blocks, height_in_blocks, padded_width_in_blocks, padded_height_in_blocks),
            g == x360_grid(image_width, image_height, block_pixel_size),
            padded_width_in_blocks <= usize::MAX - 256,
            xenos_pitch_ok(texel_byte_pitch),
            forall|j: usize| j < k ==> #[trigger] x360_dest_offset(j, g, texel_byte_pitch) + texel_byte_pitch <= usize::MAX,
        decreases area - k,
    {
        proof {
            assert(padded_width_in_blocks >= 1) by (nonlinear_arith)
                requires
                    k < padded_width_in_blocks * padded_height_in_blocks;
        }
        let x = xg_address_2d_tiled_x(k, padded_width_in_blocks, texel_byte_pitch);
        let y = xg_address_2d_tiled_y(k, padded_width_in_blocks, texel_byte_pitch);
        let fits = match y.checked_mul(width_in_blocks) {
            None => false,
            Some(a) => match a.checked_add(x) {
                None => false,
                Some(b) => match b.checked_mul(texel_byte_pitch) {
                    None => false,
                    Some(c) => c.checked_add(texel_byte_pitch).is_some(),
                },
            },
        };
        if !fits {
            proof {
                assert(y * width_in_blocks <= (y * width_in_blocks + x) * texel_byte_pitch) by (nonlinear_arith)
                    requires
                        texel_byte_pitch >= 1;
                assert(y * width_in_blocks + x <= (y * width_in_blocks + x) * texel_byte_pitch) by (nonlinear_arith)
                    requires
                        texel_byte_pitch >= 1;
                assert(x360_dest_offset(k, g, texel_byte_pitch) == (y * width_in_blocks + x) * texel_byte_pitch);
                assert(x360_dest_offset(k, g, texel_byte_pitch) + texel_byte_pitch > usize::MAX);
            }
            return false;
        }
        k += 1;
    }
    true
}

/// Pixels per block side and bytes per block that the Xenos detiler uses for a format.
pub open spec fn xenos_untile_layout(format: XenosSurfaceFormat) -> (usize, usize) {
    match format {
        XenosSurfaceFormat::k_DXT1 | XenosSurfaceFormat::k_DXT1_AS_16_16_16_16 => (4, 8),
        XenosSurfaceFormat::k_DXN
        | XenosSurfaceFormat::k_DXT2_3
        | XenosSurfaceFormat::k_DXT2_3_AS_16_16_16_16
        | XenosSurfaceFormat::k_DXT3A
        | XenosSurfaceFormat::k_DXT3A_AS_1_1_1_1
        | XenosSurfaceFormat::k_DXT4_5
        | XenosSurfaceFormat::k_DXT4_5_AS_16_16_16_16
        | XenosSurfaceFormat::k_DXT5A => (4, 16),
        XenosSurfaceFormat::k_8_8_8_8
        | XenosSurfaceFormat::k_8_8_8_8_A
        | XenosSurfaceFormat::k_8_8_8_8_AS_16_16_16_16 => (1, 4),
        XenosSurfaceFormat::k_8 => (1, 1),
        _ => (1, 4),
    }
}

/// Whether the detiler first swaps the bytes of each 16-bit word (the block-compressed formats).
pub open spec fn xenos_swaps_bytes(format: XenosSurfaceFormat) -> bool {
    match format {
        XenosSurfaceFormat::k_DXT1
        | XenosSurfaceFormat::k_DXT1_AS_16_16_16_16
        | XenosSurfaceFormat::k_DXN
        | XenosSurfaceFormat::k_DXT2_3
        | XenosSurfaceFormat::k_DXT2_3_AS_16_16_16_16
        | XenosSurfaceFormat::k_DXT3A
        | XenosSurfaceFormat::k_DXT3A_AS_1_1_1_1
        | XenosSurfaceFormat::k_DXT4_5
        | XenosSurfaceFormat::k_DXT4_5_AS_16_16_16_16
        | XenosSurfaceFormat::k_DXT5A => true,
        _ => false,
    }
}

/// Whether the detiler reorders A, R, G, B pixels to R, G, B, A afterwards.
pub open spec fn xenos_reorders_argb(format: XenosSurfaceFormat) -> bool {
    format == XenosSurfaceFormat::k_8_8_8_8 || format == XenosSurfaceFormat::k_8_8_8_8_A
}

/// The detiled texture: bytes swapped for block-compressed formats, untiled, then ARGB pixels
/// reordered to RGBA.
pub open spec fn xenos_detile(
    data: Seq<u8>,
    width: usize,
    height: usize,
    depth: usize,
    format: XenosSurfaceFormat,
) -> Result<Seq<u8>, DeswizzleError> {
    let (bps, tbp) = xenos_untile_layout(format);
    let source = if xenos_swaps_bytes(format) { swap_pairs(data) } else { data };
    match x360_untile(source, width, height, depth, bps, tbp, true) {
        Ok(u) => Ok(if xenos_reorders_argb(format) { argb_to_rgba(u) } else { u }),
        Err(e) => Err(e),
    }
}

/// Detiler for Xenos (Xbox 360) textures.
pub struct XenosDetiler;

impl Deswizzler for XenosDetiler {
    type Format = XenosSurfaceFormat;

    open spec fn deswizzle_accepts(
        &self,
        source: Seq<u8>,
        width: usize,
        height: usize,
        depth: usize,
        format: XenosSurfaceFormat,
        align_resolution: bool,
    ) -> bool {
        let (bps, tbp) = xenos_untile_layout(format);
        &&& x360_fits(width, height, depth, bps, tbp)
        &&& xenos_swaps_bytes(format) ==> source.len() % 2 == 0
    }

    fn deswizzle(
        &self,
        source: &[u8],
        width: usize,
        height: usize,
        depth: usize,
        format: XenosSurfaceFormat,
        align_resolution: bool,
    ) -> (r: Result<Vec<u8>, DeswizzleError>)
        ensures
            match (r, xenos_detile(source@, width, height, depth, format)) {
                (Ok(v), Ok(s)) => v@ == s,
                (Err(e), Err(f)) => e == f,
                _ => false,
            },
    {
        let block_pixel_size: usize;
        let texel_byte_pitch: usize;
        match format {
            XenosSurfaceFormat::k_DXT1 | XenosSurfaceFormat::k_DXT1_AS_16_16_16_16 => {
                block_pixel_size = 4;
                texel_byte_pitch = 8;
            },
            XenosSurfaceFormat::k_DXN
            | XenosSurfaceFormat::k_DXT2_3
            | XenosSurfaceFormat::k_DXT2_3_AS_16_16_16_16
            | XenosSurfaceFormat::k_DXT3A
            | XenosSurfaceFormat::k_DXT3A_AS_1_1_1_1
            | XenosSurfaceFormat::k_DXT4_5
            | XenosSurfaceFormat::k_DXT4_5_AS_16_16_16_16
            | XenosSurfaceFormat::k_DXT5A => {
                block_pixel_size = 4;
                texel_byte_pitch = 16;
            },
            XenosSurfaceFormat::k_8_8_8_8
            | XenosSurfaceFormat::k_8_8_8_8_A
            | XenosSurfaceFormat::k_8_8_8_8_AS_16_16_16_16 => {
                block_pixel_size = 1;
                texel_byte_pitch = 4;
            },
            XenosSurfaceFormat::k_8 => {
                block_pixel_size = 1;
                texel_byte_pitch = 1;
            },
            _ => {
                block_pixel_size = 1;
                texel_byte_pitch = 4;
            },
        }
        let mut source_bytes = vstd::slice::slice_to_vec(source);
        let swaps = matches!(
            format,
            XenosSurfaceFormat::k_DXT1
                | XenosSurfaceFormat::k_DXT1_AS_16_16_16_16
                | XenosSurfaceFormat::k_DXN
                | XenosSurfaceFormat::k_DXT2_3
                | XenosSurfaceFormat::k_DXT2_3_AS_16_16_16_16
                | XenosSurfaceFormat::k_DXT3A
                | XenosSurfaceFormat::k_DXT3A_AS_1_1_1_1
                | XenosSurfaceFormat::k_DXT4_5
                | XenosSurfaceFormat::k_DXT4_5_AS_16_16_16_16
                | XenosSurfaceFormat::k_DXT5A
        );
        if swaps {
            swap_byte_order_x360(source_bytes.as_mut_slice());
        }
        let untiled = untile_x360_image_data(
            source_bytes.as_slice(),
            width,
            height,
            depth,
            block_pixel_size,
            texel_byte_pitch,
            true,
        )?;
        let reorder = matches!(format, XenosSurfaceFormat::k_8_8_8_8 | XenosSurfaceFormat::k_8_8_8_8_A);
        if reorder {
            Ok(argb_to_rgba_bytes(untiled.as_slice()))
        } else {
            Ok(untiled)
        }
    }
}

/// Whether a block whose bytes the layout places at `offset` lies inside a buffer of `len` bytes.
pub open spec fn durango_source_ok(offset: i64, texel_pitch: usize, len: nat) -> bool {
    offset >= 0 && offset + texel_pitch <= len
}

/// Block `k` (row-major) of a Durango texture: copied from `offsets[k]` in `source` to its
/// row-major place, when that offset lies inside `source`.
pub open spec fn durango_move(dest: Seq<u8>, source: Seq<u8>, texel_pitch: usize, offsets: Seq<i64>, k: int) -> Seq<u8> {
    if durango_source_ok(offsets[k], texel_pitch, source.len()) {
        copy_block(dest, k * texel_pitch, source, offsets[k] as int, texel_pitch as int)
    } else {
        dest
    }
}

/// The output after the first `n` blocks, starting from zeros.
pub open spec fn durango_moves(source: Seq<u8>, texel_pitch: usize, offsets: Seq<i64>, n: nat) -> Seq<u8>
    decreases n,
{
    if n == 0 {
        Seq::new(source.len(), |i: int| 0u8)
    } else {
        durango_move(durango_moves(source, texel_pitch, offsets, (n - 1) as nat), source, texel_pitch, offsets, n - 1)
    }
}

/// Deswizzler for Durango (Xbox One) textures. Where each block lies in the tiled data comes
/// from the platform's texture layout library, which runs outside this crate; the copying is
/// done here.
pub struct DurangoDeswizzler;

impl DurangoDeswizzler {
    /// Gathers the `blocks_x` by `blocks_y` blocks of `source` into row-major order: block `k`
    /// comes from `offsets[k]`, and is left zero when that offset is outside `source`. Arrays
    /// and 3D textures are returned unchanged.
    pub fn deswizzle_blocks(
        &self,
        source: &[u8],
        depth_or_array_size: usize,
        blocks_x: usize,
        blocks_y: usize,
        texel_pitch: usize,
        offsets: &[i64],
    ) -> (r: Vec<u8>)
        requires
            depth_or_array_size <= 1 ==> offsets@.len() == blocks_x * blocks_y,
            depth_or_array_size <= 1 ==> forall|k: int|
                0 <= k < offsets@.len() && durango_source_ok(#[trigger] offsets@[k], texel_pitch, source@.len())
                    ==> (k + 1) * texel_pitch <= source@.len(),
        ensures
            depth_or_array_size > 1 ==> r@ == source@,
            depth_or_array_size <= 1 ==> r@ == durango_moves(source@, texel_pitch, offsets@, offsets@.len()),
    {
        if depth_or_array_size > 1 {
            return vstd::slice::slice_to_vec(source);
        }
        let mut output = zeroed(source.len());
        let n = offsets.len();
        let mut k: usize = 0;
        while k < n
            invariant
                k <= n,
                n == offsets@.len(),
                output@.len() == source@.len(),
                forall|j: int|
                    0 <= j < offsets@.len() && durango_source_ok(#[trigger] offsets@[j], texel_pitch, source@.len())
                        ==> (j + 1) * texel_pitch <= source@.len(),
                output@ == durango_moves(source@, texel_pitch, offsets@, k as nat),
            decreases n - k,
        {
            let src_offset = offsets[k];
            if src_offset >= 0 && (src_offset as u64) <= (source.len() as u64) && (source.len() - (src_offset as usize)) >= texel_pitch {
                proof {
                    assert((k + 1) * texel_pitch <= source@.len());
                    assert(k * texel_pitch + texel_pitch == (k + 1) * texel_pitch) by (nonlinear_arith);
                }
                let dst_offset = k * texel_pitch;
                copy_block_into(&mut output, dst_offset, source, src_offset as usize, texel_pitch);
            }
            k += 1;
        }
        output
    }
}

} // verus!
