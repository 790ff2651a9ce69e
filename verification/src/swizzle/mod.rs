//! Texture (de)swizzling for console GPU layouts.
use vstd::prelude::*;

pub mod ps3;
pub mod ps4;
pub mod xbox;

verus! {

/// Failure of a deswizzler.
#[derive(Clone, Copy, Debug, PartialEq, Eq, Structural)]
pub enum DeswizzleError {
    /// A slice of the texture starts past the end of the data.
    SliceSourceOutOfBounds,
}

/// A deswizzler turns the bytes of a texture in a console's memory layout into rows of blocks.
pub trait Deswizzler {
    type Format;

    /// The inputs on which `deswizzle` is defined.
    spec fn deswizzle_accepts(
        &self,
        source: Seq<u8>,
        width: usize,
        height: usize,
        depth: usize,
        format: Self::Format,
        align_resolution: bool,
    ) -> bool;

    fn deswizzle(
        &self,
        source: &[u8],
        width: usize,
        height: usize,
        depth: usize,
        format: Self::Format,
        align_resolution: bool,
    ) -> (r: Result<Vec<u8>, DeswizzleError>)
        requires
            self.deswizzle_accepts(source@, width, height, depth, format, align_resolution),
    ;
}

/// `dest` with the `len` bytes at `dst` replaced by the `len` bytes of `src` at `from`.
pub open spec fn copy_block(dest: Seq<u8>, dst: int, src: Seq<u8>, from: int, len: int) -> Seq<u8> {
    Seq::new(
        dest.len(),
        |i: int|
            if dst <= i < dst + len {
                src[from + i - dst]
            } else {
                dest[i]
            },
    )
}

/// Copies `len` bytes of `src` at `from` into `dest` at `dst`.
pub fn copy_block_into(dest: &mut Vec<u8>, dst: usize, src: &[u8], from: usize, len: usize)
    requires
        dst + len <= old(dest).len(),
        from + len <= src.len(),
    ensures
        final(dest)@ == copy_block(old(dest)@, dst as int, src@, from as int, len as int),
{
    let mut i: usize = 0;
    while i < len
        invariant
            i <= len,
            dst + len <= dest.len(),
            from + len <= src.len(),
            dest@.len() == old(dest)@.len(),
            forall|j: int|
                0 <= j < dest@.len() ==> #[trigger] dest@[j] == (if dst <= j < dst + i {
                    src@[from + j - dst]
                } else {
                    old(dest)@[j]
                }),
        decreases len - i,
    {
        dest.set(dst + i, src[from + i]);
        i = i + 1;
    }
    assert(dest@ =~= copy_block(old(dest)@, dst as int, src@, from as int, len as int));
}

/// A zero-filled buffer of `n` bytes.
pub fn zeroed(n: usize) -> (r: Vec<u8>)
    ensures
        r@ == Seq::new(n as nat, |i: int| 0u8),
{
    let mut v: Vec<u8> = Vec::with_capacity(n);
    let mut i: usize = 0;
    while i < n
        invariant
            i <= n,
            v@ == Seq::new(i as nat, |j: int| 0u8),
        decreases n - i,
    {
        v.push(0u8);
        i = i + 1;
        assert(v@ =~= Seq::new(i as nat, |j: int| 0u8));
    }
    v
}

/// Coordinates of the `t`-th texel of the Morton (Z-order) curve over an `sx` by `sy` grid: bits
/// of `t` go alternately to x and y, lowest first, while the axis still has room.
pub open spec fn morton_xy(t: nat, sx: nat, sy: nat) -> (nat, nat)
    decreases sx + sy,
{
    if sx <= 1 && sy <= 1 {
        (0, 0)
    } else {
        let bx: nat = if sx > 1 { t % 2 } else { 0 };
        let t1: nat = if sx > 1 { t / 2 } else { t };
        let by: nat = if sy > 1 { t1 % 2 } else { 0 };
        let t2: nat = if sy > 1 { t1 / 2 } else { t1 };
        let sx2: nat = if sx > 1 { sx / 2 } else { sx };
        let sy2: nat = if sy > 1 { sy / 2 } else { sy };
        let (rx, ry) = morton_xy(t2, sx2, sy2);
        (if sx > 1 { bx + 2 * rx } else { rx }, if sy > 1 { by + 2 * ry } else { ry })
    }
}

/// Row-major index of the `t`-th texel of the Morton curve over an `sx` by `sy` grid.
pub open spec fn morton_index(t: nat, sx: nat, sy: nat) -> nat {
    morton_xy(t, sx, sy).1 * sx + morton_xy(t, sx, sy).0
}

proof fn lemma_low_bit(v: usize)
    by (bit_vector)
    ensures
        v & 1 == v % 2,
        v >> 1 == v / 2,
{
}

/// Row-major index of the `t`-th texel of the Morton curve over an `sx` by `sy` grid.
pub fn morton(t: usize, sx: usize, sy: usize) -> (r: usize)
    requires
        sx * sy <= usize::MAX,
    ensures
        r == morton_index(t as nat, sx as nat, sy as nat),
        sx >= 1 && sy >= 1 ==> r < sx * sy,
{
    let mut num1: usize = 1;
    let mut num2: usize = 1;
    let mut num3: usize = t;
    let mut num4: usize = sx;
    let mut num5: usize = sy;
    let mut num6: usize = 0;
    let mut num7: usize = 0;
    let ghost xy = morton_xy(t as nat, sx as nat, sy as nat);

    while num4 > 1 || num5 > 1
        invariant
            xy == morton_xy(t as nat, sx as nat, sy as nat),
            xy.0 == num6 + num2 * morton_xy(num3 as nat, num4 as nat, num5 as nat).0,
            xy.1 == num7 + num1 * morton_xy(num3 as nat, num4 as nat, num5 as nat).1,
            num2 >= 1,
            num1 >= 1,
            num6 < num2,
            num7 < num1,
            sx >= 1 ==> num4 >= 1 && num2 * num4 <= sx,
            sx == 0 ==> num4 == 0 && num2 == 1,
            sy >= 1 ==> num5 >= 1 && num1 * num5 <= sy,
            sy == 0 ==> num5 == 0 && num1 == 1,
        decreases num4 + num5,
    {
        let ghost (n3, n4, n5) = (num3 as nat, num4 as nat, num5 as nat);
        let ghost (o2, o6, o1, o7) = (num2 as int, num6 as int, num1 as int, num7 as int);
        let ghost (rx, ry) = morton_xy(
            (if n4 > 1 { if n5 > 1 { n3 / 2 / 2 } else { n3 / 2 } } else { if n5 > 1 { n3 / 2 } else { n3 } }) as nat,
            (if n4 > 1 { n4 / 2 } else { n4 }) as nat,
            (if n5 > 1 { n5 / 2 } else { n5 }) as nat,
        );
        if num4 > 1 {
            proof {
                lemma_low_bit(num3);
                lemma_low_bit(num4);
                assert(num2 * 2 <= num2 * num4) by (nonlinear_arith)
                    requires num4 >= 2;
                assert(num2 * 2 * (num4 / 2) <= num2 * num4) by (nonlinear_arith)
                    requires num2 >= 1, num4 >= 2;
                assert(num2 * (num3 % 2) <= num2) by (nonlinear_arith);
            }
            num6 += num2 * (num3 & 1);
            num3 >>= 1;
            num2 *= 2;
            num4 >>= 1;
        }
        if num5 > 1 {
            proof {
                lemma_low_bit(num3);
                lemma_low_bit(num5);
                assert(num1 * 2 <= num1 * num5) by (nonlinear_arith)
                    requires num5 >= 2;
                assert(num1 * 2 * (num5 / 2) <= num1 * num5) by (nonlinear_arith)
                    requires num1 >= 1, num5 >= 2;
                assert(num1 * (num3 % 2) <= num1) by (nonlinear_arith);
            }
            num7 += num1 * (num3 & 1);
            num3 >>= 1;
            num1 *= 2;
            num5 >>= 1;
        }
        proof {
            assert(num3 == (if n4 > 1 { if n5 > 1 { n3 / 2 / 2 } else { n3 / 2 } } else { if n5 > 1 { n3 / 2 } else { n3 } }));
            if n4 > 1 {
                assert(xy.0 == num6 + num2 * rx) by (nonlinear_arith)
                    requires
                        xy.0 == o6 + o2 * ((n3 % 2) + 2 * rx),
                        num6 == o6 + o2 * (n3 % 2),
                        num2 == o2 * 2;
            }
            if n5 > 1 {
                let t1: int = if n4 > 1 { (n3 / 2) as int } else { n3 as int };
                assert(xy.1 == num7 + num1 * ry) by (nonlinear_arith)
                    requires
                        xy.1 == o7 + o1 * ((t1 % 2) + 2 * ry),
                        num7 == o7 + o1 * (t1 % 2),
                        num1 == o1 * 2;
            }
        }
    }
    proof {
        assert(morton_xy(num3 as nat, num4 as nat, num5 as nat) == (0nat, 0nat));
        let rest = morton_xy(num3 as nat, num4 as nat, num5 as nat);
        assert(num2 * rest.0 == 0 && num1 * rest.1 == 0) by (nonlinear_arith)
            requires
                rest.0 == 0,
                rest.1 == 0;
        assert(xy.0 == num6);
        assert(xy.1 == num7);
        if sx >= 1 && sy >= 1 {
            assert(num4 == 1 && num5 == 1);
            assert(num7 * sx + num6 < sx * sy) by (nonlinear_arith)
                requires
                    num7 < num1,
                    num1 <= sy,
                    num6 < num2,
                    num2 <= sx;
        } else if sy == 0 {
            assert(num7 == 0);
        } else {
            assert(num6 == 0 && sx == 0);
        }
        assert(num7 * sx <= sx * sy) by (nonlinear_arith)
            requires
                sy >= 1 ==> num7 < sy,
                sy == 0 ==> num7 == 0;
    }
    num7 * sx + num6
}

/// Whether `n` is a power of two (1 included).
pub open spec fn is_pow2(n: nat) -> bool
    decreases n,
{
    if n == 1 {
        true
    } else if n < 2 || n % 2 != 0 {
        false
    } else {
        is_pow2(n / 2)
    }
}

/// The position on the Morton curve of the texel at column `x` and row `y` of an `sx` by `sy`
/// grid: the bits of `x` and `y` interleaved back, lowest first, while each axis has room.
pub open spec fn morton_position(x: nat, y: nat, sx: nat, sy: nat) -> nat
    decreases sx + sy,
{
    if sx <= 1 && sy <= 1 {
        0
    } else {
        let bx: nat = if sx > 1 { x % 2 } else { 0 };
        let x2: nat = if sx > 1 { x / 2 } else { x };
        let by: nat = if sy > 1 { y % 2 } else { 0 };
        let y2: nat = if sy > 1 { y / 2 } else { y };
        let sx2: nat = if sx > 1 { sx / 2 } else { sx };
        let sy2: nat = if sy > 1 { sy / 2 } else { sy };
        let r = morton_position(x2, y2, sx2, sy2);
        let t1: nat = if sy > 1 { by + 2 * r } else { r };
        if sx > 1 { bx + 2 * t1 } else { t1 }
    }
}

proof fn lemma_half_pow2(n: nat)
    requires
        is_pow2(n),
    ensures
        n >= 1,
        n > 1 ==> n % 2 == 0 && is_pow2(n / 2) && n == 2 * (n / 2),
{
}

/// Walking the curve and reading the position back: a position below `sx * sy` lands inside
/// the grid, and its texel's position is the position itself.
proof fn lemma_morton_xy_back(t: nat, sx: nat, sy: nat)
    requires
        is_pow2(sx),
        is_pow2(sy),
        t < sx * sy,
    ensures
        morton_xy(t, sx, sy).0 < sx,
        morton_xy(t, sx, sy).1 < sy,
        morton_position(morton_xy(t, sx, sy).0, morton_xy(t, sx, sy).1, sx, sy) == t,
    decreases sx + sy,
{
    lemma_half_pow2(sx);
    lemma_half_pow2(sy);
    if sx <= 1 && sy <= 1 {
        assert(sx == 1 && sy == 1);
        assert(sx * sy == 1);
    } else {
        let bx: nat = if sx > 1 { t % 2 } else { 0 };
        let t1: nat = if sx > 1 { t / 2 } else { t };
        let by: nat = if sy > 1 { t1 % 2 } else { 0 };
        let t2: nat = if sy > 1 { t1 / 2 } else { t1 };
        let sx2: nat = if sx > 1 { sx / 2 } else { sx };
        let sy2: nat = if sy > 1 { sy / 2 } else { sy };
        assert(t2 < sx2 * sy2) by (nonlinear_arith)
            requires
                t < sx * sy,
                sx > 1 ==> sx == 2 * sx2 && t1 == t / 2,
                sx <= 1 ==> sx == sx2 && t1 == t,
                sy > 1 ==> sy == 2 * sy2 && t2 == t1 / 2,
                sy <= 1 ==> sy == sy2 && t2 == t1,
                sx >= 1,
                sy >= 1,
        ;
        lemma_morton_xy_back(t2, sx2, sy2);
        let (rx, ry) = morton_xy(t2, sx2, sy2);
        let x: nat = if sx > 1 { bx + 2 * rx } else { rx };
        let y: nat = if sy > 1 { by + 2 * ry } else { ry };
        assert(morton_xy(t, sx, sy) == (x, y));
        if sx > 1 {
            assert(x % 2 == bx && x / 2 == rx) by (nonlinear_arith)
                requires
                    x == bx + 2 * rx,
                    bx < 2,
            ;
        }
        if sy > 1 {
            assert(y % 2 == by && y / 2 == ry) by (nonlinear_arith)
                requires
                    y == by + 2 * ry,
                    by < 2,
            ;
        }
        assert(t1 == (if sy > 1 { by + 2 * t2 } else { t2 })) by (nonlinear_arith)
            requires
                sy > 1 ==> by == t1 % 2 && t2 == t1 / 2,
                sy <= 1 ==> t2 == t1,
        ;
        assert(t == (if sx > 1 { bx + 2 * t1 } else { t1 })) by (nonlinear_arith)
            requires
                sx > 1 ==> bx == t % 2 && t1 == t / 2,
                sx <= 1 ==> t1 == t,
        ;
    }
}

/// Reading a texel's position and walking the curve to it: the position is below `sx * sy` and
/// leads back to the texel.
proof fn lemma_morton_position_back(x: nat, y: nat, sx: nat, sy: nat)
    requires
        is_pow2(sx),
        is_pow2(sy),
        x < sx,
        y < sy,
    ensures
        morton_position(x, y, sx, sy) < sx * sy,
        morton_xy(morton_position(x, y, sx, sy), sx, sy) == (x, y),
    decreases sx + sy,
{
    lemma_half_pow2(sx);
    lemma_half_pow2(sy);
    if sx <= 1 && sy <= 1 {
        assert(sx * sy == 1) by (nonlinear_arith)
            requires
                sx == 1,
                sy == 1,
        ;
    } else {
        let bx: nat = if sx > 1 { x % 2 } else { 0 };
        let x2: nat = if sx > 1 { x / 2 } else { x };
        let by: nat = if sy > 1 { y % 2 } else { 0 };
        let y2: nat = if sy > 1 { y / 2 } else { y };
        let sx2: nat = if sx > 1 { sx / 2 } else { sx };
        let sy2: nat = if sy > 1 { sy / 2 } else { sy };
        assert(x2 < sx2 && y2 < sy2) by (nonlinear_arith)
            requires
                x < sx,
                y < sy,
                sx > 1 ==> sx == 2 * sx2 && x2 == x / 2,
                sx <= 1 ==> sx == sx2 && x2 == x,
                sy > 1 ==> sy == 2 * sy2 && y2 == y / 2,
                sy <= 1 ==> sy == sy2 && y2 == y,
        ;
        lemma_morton_position_back(x2, y2, sx2, sy2);
        let r = morton_position(x2, y2, sx2, sy2);
        let t1: nat = if sy > 1 { by + 2 * r } else { r };
        let t: nat = if sx > 1 { bx + 2 * t1 } else { t1 };
        assert(morton_position(x, y, sx, sy) == t);
        assert(t < sx * sy) by (nonlinear_arith)
            requires
                r < sx2 * sy2,
                bx < 2,
                by < 2,
                t1 == (if sy > 1 { by + 2 * r } else { r }),
                t == (if sx > 1 { bx + 2 * t1 } else { t1 }),
                sx > 1 ==> sx == 2 * sx2,
                sx <= 1 ==> sx == sx2,
                sy > 1 ==> sy == 2 * sy2,
                sy <= 1 ==> sy == sy2,
        ;
        if sx > 1 {
            assert(t % 2 == bx && t / 2 == t1) by (nonlinear_arith)
                requires
                    t == bx + 2 * t1,
                    bx < 2,
            ;
        }
        let u1: nat = if sx > 1 { t / 2 } else { t };
        assert(u1 == t1);
        if sy > 1 {
            assert(u1 % 2 == by && u1 / 2 == r) by (nonlinear_arith)
                requires
                    u1 == by + 2 * r,
                    by < 2,
            ;
        }
        assert(x == (if sx > 1 { bx + 2 * x2 } else { x2 })) by (nonlinear_arith)
            requires
                sx > 1 ==> bx == x % 2 && x2 == x / 2,
                sx <= 1 ==> x2 == x,
        ;
        assert(y == (if sy > 1 { by + 2 * y2 } else { y2 })) by (nonlinear_arith)
            requires
                sy > 1 ==> by == y % 2 && y2 == y / 2,
                sy <= 1 ==> y2 == y,
        ;
    }
}

/// Whether some position below `sx * sy` on the Morton curve has row-major index `i`.
pub open spec fn morton_reaches(i: nat, sx: nat, sy: nat) -> bool {
    exists|t: nat| t < sx * sy && #[trigger] morton_index(t, sx, sy) == i
}

/// On a grid whose sides are powers of two, the Morton curve visits every texel exactly once:
/// `t -> morton_index(t, sx, sy)` maps `0..sx * sy` one to one onto `0..sx * sy`.
pub proof fn lemma_morton_bijective(sx: nat, sy: nat)
    requires
        is_pow2(sx),
        is_pow2(sy),
    ensures
        forall|t: nat| t < sx * sy ==> #[trigger] morton_index(t, sx, sy) < sx * sy,
        forall|t1: nat, t2: nat|
            t1 < sx * sy && t2 < sx * sy && #[trigger] morton_index(t1, sx, sy) == #[trigger] morton_index(t2, sx, sy)
                ==> t1 == t2,
        forall|i: nat| i < sx * sy ==> #[trigger] morton_reaches(i, sx, sy),
{
    lemma_half_pow2(sx);
    lemma_half_pow2(sy);
    assert forall|t: nat| t < sx * sy implies #[trigger] morton_index(t, sx, sy) < sx * sy by {
        lemma_morton_xy_back(t, sx, sy);
        let (x, y) = morton_xy(t, sx, sy);
        assert(y * sx + x < sx * sy) by (nonlinear_arith)
            requires
                x < sx,
                y < sy,
        ;
    }
    assert forall|t1: nat, t2: nat|
        t1 < sx * sy && t2 < sx * sy && #[trigger] morton_index(t1, sx, sy) == #[trigger] morton_index(t2, sx, sy)
            implies t1 == t2 by {
        lemma_morton_xy_back(t1, sx, sy);
        lemma_morton_xy_back(t2, sx, sy);
        let (x1, y1) = morton_xy(t1, sx, sy);
        let (x2, y2) = morton_xy(t2, sx, sy);
        assert(x1 == x2 && y1 == y2) by (nonlinear_arith)
            requires
                x1 < sx,
                x2 < sx,
                y1 * sx + x1 == y2 * sx + x2,
        {
            if y1 < y2 {
                assert(y1 * sx + sx <= y2 * sx);
            } else if y2 < y1 {
                assert(y2 * sx + sx <= y1 * sx);
            }
        }
    }
    assert forall|i: nat| i < sx * sy implies #[trigger] morton_reaches(i, sx, sy) by {
        let x = i % sx;
        let y = i / sx;
        assert(x < sx && y < sy && y * sx + x == i) by (nonlinear_arith)
            requires
                i < sx * sy,
                sx >= 1,
                x == i % sx,
                y == i / sx,
        ;
        lemma_morton_position_back(x, y, sx, sy);
        let t = morton_position(x, y, sx, sy);
        assert(morton_index(t, sx, sy) == i);
    }
}

/// The first power of two at or above `n`, doubling up from `p`.
pub open spec fn next_pow2_from(p: nat, n: nat) -> nat
    decreases (if p >= n { 0 } else { n - p }),
    when p >= 1
{
    if p >= n {
        p
    } else {
        next_pow2_from(2 * p, n)
    }
}

/// The smallest power of two at or above `n` (1 for 0).
pub open spec fn next_pow2(n: nat) -> nat {
    next_pow2_from(1, n)
}

/// The smallest power of two at or above `n` (1 for 0).
pub fn next_power_of_two(n: usize) -> (r: usize)
    requires
        n <= usize::MAX / 2 + 1,
    ensures
        r == next_pow2(n as nat),
        r >= n,
        r >= 1,
        n >= 1 ==> r < 2 * n,
{
    let mut p: usize = 1;
    while p < n
        invariant
            p >= 1,
            n <= usize::MAX / 2 + 1,
            next_pow2_from(p as nat, n as nat) == next_pow2(n as nat),
            p == 1 || p < 2 * n,
        decreases (if p >= n { 0 } else { n - p }),
    {
        p = p * 2;
    }
    p
}

/// `a < c * b` bounds the quotient `a / b` by `c`.
pub proof fn lemma_quotient_below(a: nat, b: nat, c: nat)
    requires
        b > 0,
        a < c * b,
    ensures
        a / b < c,
{
    assert(c * b == b * c) by (nonlinear_arith);
    vstd::arithmetic::div_mod::lemma_multiply_divide_lt(a as int, b as int, c as int);
}

/// A product does not shrink when multiplied by a positive factor.
pub proof fn lemma_product_grows(a: nat, b: nat)
    requires
        b >= 1,
    ensures
        a <= a * b,
{
    assert(a <= a * b) by (nonlinear_arith)
        requires
            b >= 1;
}

/// Each whole group of four bytes A, R, G, B reordered to R, G, B, A; a trailing partial group
/// is dropped.
pub open spec fn argb_to_rgba(s: Seq<u8>) -> Seq<u8> {
    Seq::new((s.len() / 4 * 4) as nat, |i: int| s[(i / 4) * 4 + (i % 4 + 1) % 4])
}

/// Reorders each whole group of four bytes from A, R, G, B to R, G, B, A.
pub fn argb_to_rgba_bytes(source: &[u8]) -> (r: Vec<u8>)
    ensures
        r@ == argb_to_rgba(source@),
{
    let n = source.len() / 4;
    let mut result: Vec<u8> = Vec::with_capacity(n * 4);
    let mut j: usize = 0;
    while j < n
        invariant
            j <= n,
            n == source.len() / 4,
            result@.len() == 4 * j,
            forall|i: int|
                0 <= i < 4 * j ==> #[trigger] result@[i] == source@[(i / 4) * 4 + (i % 4 + 1) % 4],
        decreases n - j,
    {
        assert(4 * j + 3 < source.len());
        let b: usize = 4 * j;
        result.push(source[b + 1]);
        result.push(source[b + 2]);
        result.push(source[b + 3]);
        result.push(source[b]);
        j += 1;
    }
    assert(result@ =~= argb_to_rgba(source@));
    result
}

} // verus!
