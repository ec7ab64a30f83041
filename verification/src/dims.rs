use vstd::arithmetic::div_mod::{
    lemma_fundamental_div_mod, lemma_mod_bound, lemma_mod_multiples_basic,
};
use vstd::prelude::*;

verus! {

/// Width and height of a raster image, in pixels.
#[derive(Clone, Copy, Debug, PartialEq, Eq, Structural)]
pub struct Dimensions {
    pub width: u32,
    pub height: u32,
}

/// The smallest multiple of `m` that is at least `v`.
pub open spec fn next_mul(v: int, m: int) -> int
    recommends
        v >= 0,
        m >= 1,
{
    ((v + m - 1) / m) * m
}

/// `next_mul(v, m)` is the unique multiple of `m` in the interval
/// `[v, v + m)`; in particular a `v` that is already a multiple of `m` is
/// its own rounding.
pub proof fn lemma_next_mul_props(v: int, m: int)
    requires
        v >= 0,
        m >= 1,
    ensures
        next_mul(v, m) % m == 0,
        v <= next_mul(v, m) < v + m,
        v % m == 0 ==> next_mul(v, m) == v,
{
    let x = v + m - 1;
    lemma_fundamental_div_mod(x, m);
    lemma_mod_bound(x, m);
    lemma_mod_multiples_basic(x / m, m);
    assert((x / m) * m == m * (x / m)) by (nonlinear_arith);
    assert(next_mul(v, m) == x - x % m);
    if v % m == 0 {
        lemma_fundamental_div_mod(v, m);
        lemma_mod_bound(v, m);
        assert(x == m * (v / m) + (m - 1));
        vstd::arithmetic::div_mod::lemma_fundamental_div_mod_converse(x, m, v / m, m - 1);
        assert(next_mul(v, m) == (v / m) * m);
        assert((v / m) * m == m * (v / m)) by (nonlinear_arith);
    }
}

/// Rounding up to a multiple is idempotent: the result of `next_mul` is a
/// fixed point of `next_mul`.
pub proof fn lemma_next_mul_idempotent(v: int, m: int)
    requires
        v >= 0,
        m >= 1,
    ensures
        next_mul(next_mul(v, m), m) == next_mul(v, m),
{
    lemma_next_mul_props(v, m);
    lemma_next_mul_props(next_mul(v, m), m);
}

/// Dimensions the downstream consumer accepts: width a multiple of 8 and
/// height a multiple of 4.
pub open spec fn compliant(d: Dimensions) -> bool {
    d.width as int % 8 == 0 && d.height as int % 4 == 0
}

/// The padded dimensions a source image of size `d` is resized to.
pub open spec fn spec_pad(d: Dimensions) -> Dimensions
    recommends
        d.width + 7 <= u32::MAX,
        d.height + 3 <= u32::MAX,
{
    Dimensions {
        width: next_mul(d.width as int, 8) as u32,
        height: next_mul(d.height as int, 4) as u32,
    }
}

/// The next multiple of 8 at or above `width`.
pub fn target_width(width: u32) -> (r: u32)
    requires
        width + 7 <= u32::MAX,
    ensures
        r == next_mul(width as int, 8),
        r % 8 == 0,
        width <= r < width + 8,
        width % 8 == 0 ==> r == width,
{
    let x: u32 = width + 7;
    let r: u32 = x & !7u32;
    proof {
        assert(x & !7u32 == (x / 8) * 8 && (x & !7u32) % 8 == 0 && x - 7 <= (x & !7u32) <= x
            && ((x - 7) % 8 == 0 ==> x & !7u32 == x - 7)) by (bit_vector)
            requires
                x >= 7u32,
        ;
    }
    r
}

/// The next multiple of 4 at or above `height`.
pub fn target_height(height: u32) -> (r: u32)
    requires
        height + 3 <= u32::MAX,
    ensures
        r == next_mul(height as int, 4),
        r % 4 == 0,
        height <= r < height + 4,
        height % 4 == 0 ==> r == height,
{
    let x: u32 = height + 3;
    let r: u32 = x & !3u32;
    proof {
        assert(x & !3u32 == (x / 4) * 4 && (x & !3u32) % 4 == 0 && x - 3 <= (x & !3u32) <= x
            && ((x - 3) % 4 == 0 ==> x & !3u32 == x - 3)) by (bit_vector)
            requires
                x >= 3u32,
        ;
    }
    r
}

/// The fixed padding policy: round the width up to the next multiple of 8 and
/// the height up to the next multiple of 4. Dimensions that already comply
/// are returned unchanged.
pub fn pad_dimensions(d: Dimensions) -> (r: Dimensions)
    requires
        d.width + 7 <= u32::MAX,
        d.height + 3 <= u32::MAX,
    ensures
        r == spec_pad(d),
        compliant(r),
        d.width <= r.width < d.width + 8,
        d.height <= r.height < d.height + 4,
        compliant(d) ==> r == d,
{
    let r = Dimensions { width: target_width(d.width), height: target_height(d.height) };
    r
}

/// Padding already-padded dimensions is a no-op: a converted image run through
/// the converter again keeps its dimensions.
pub proof fn lemma_pad_idempotent(d: Dimensions)
    requires
        d.width + 7 <= u32::MAX,
        d.height + 3 <= u32::MAX,
    ensures
        spec_pad(spec_pad(d)) == spec_pad(d),
{
    lemma_next_mul_props(d.width as int, 8);
    lemma_next_mul_props(d.height as int, 4);
    lemma_next_mul_idempotent(d.width as int, 8);
    lemma_next_mul_idempotent(d.height as int, 4);
}

} // verus!
