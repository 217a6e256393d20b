//! Distance-based shading for the render pass, in fixed point: brightness is
//! carried in thousandths, so that the policy `1 - distance / 10` can be
//! stated and proved without floating point. Distances are floors of the
//! Euclidean distance scaled by 1000.
use vstd::prelude::*;

verus! {

/// Full brightness, in thousandths.
pub const INTENSITY_FULL: i32 = 1000;

/// True when `r` is the integer square root (rounded down) of `n`.
pub open spec fn is_sqrt_floor(n: int, r: int) -> bool {
    0 <= r && r * r <= n < (r + 1) * (r + 1)
}

/// The integer square root of `n`, rounded down.
pub closed spec fn sqrt_floor(n: int) -> int {
    choose|r: int| #[trigger] is_sqrt_floor(n, r)
}

proof fn lemma_sqrt_floor_exists(n: nat)
    ensures
        exists|r: int| #[trigger] is_sqrt_floor(n as int, r),
    decreases n,
{
    if n == 0 {
        assert(is_sqrt_floor(0, 0));
    } else {
        lemma_sqrt_floor_exists((n - 1) as nat);
        let p = choose|r: int| #[trigger] is_sqrt_floor(n - 1, r);
        if (p + 1) * (p + 1) <= n {
            assert(is_sqrt_floor(n as int, p + 1)) by (nonlinear_arith)
                requires
                    0 <= p,
                    p * p <= n - 1 < (p + 1) * (p + 1),
                    (p + 1) * (p + 1) <= n,
            ;
        } else {
            assert(is_sqrt_floor(n as int, p));
        }
    }
}

/// Two integer square roots of the same number are equal.
proof fn lemma_sqrt_floor_unique(n: int, a: int, b: int)
    by (nonlinear_arith)
    requires
        is_sqrt_floor(n, a),
        is_sqrt_floor(n, b),
    ensures
        a == b,
{
}

/// `sqrt_floor` meets its defining property on every nonnegative number.
pub proof fn lemma_sqrt_floor_is_sqrt(n: int)
    requires
        0 <= n,
    ensures
        is_sqrt_floor(n, sqrt_floor(n)),
{
    lemma_sqrt_floor_exists(n as nat);
}

/// The integer square root of `n`, rounded down, for `n` below 2^48.
pub fn isqrt(n: u64) -> (r: u64)
    requires
        n < 0x1000000000000,
    ensures
        r == sqrt_floor(n as int),
{
    let mut lo: u64 = 0;
    let mut hi: u64 = 0x1000000;
    assert((0x1000000 as int) * (0x1000000 as int) == 0x1000000000000);
    while lo + 1 < hi
        invariant
            lo < hi <= 0x1000000,
            lo * lo <= n,
            n < hi * hi,
        decreases hi - lo,
    {
        let mid = lo + (hi - lo) / 2;
        assert(mid * mid <= 0x1000000000000) by (nonlinear_arith)
            requires
                0 <= mid <= 0x1000000,
        ;
        if mid * mid <= n {
            lo = mid;
        } else {
            hi = mid;
        }
    }
    proof {
        assert(is_sqrt_floor(n as int, lo as int));
        lemma_sqrt_floor_is_sqrt(n as int);
        lemma_sqrt_floor_unique(n as int, lo as int, sqrt_floor(n as int));
    }
    lo
}

/// The squared Euclidean distance between (ax, ay) and (bx, by).
pub open spec fn dist2(ax: int, ay: int, bx: int, by: int) -> int {
    (ax - bx) * (ax - bx) + (ay - by) * (ay - by)
}

/// The brightness, in thousandths, of a visible cell whose squared distance
/// to the observer is `d2`: one minus a tenth of the distance, clamped to
/// [0, 1]. The clamp keeps cells at or beyond distance ten from going
/// negative.
pub open spec fn spec_intensity(d2: int) -> int {
    let d_milli = sqrt_floor(1000000 * d2);
    if d_milli / 10 > 1000 {
        0
    } else {
        1000 - d_milli / 10
    }
}

/// Brightness of the cell at (cx, cy) as seen from (px, py), in
/// thousandths; always within [0, 1000].
pub fn intensity_milli(cx: i32, cy: i32, px: i32, py: i32) -> (r: i32)
    requires
        -5000 <= cx <= 5000,
        -5000 <= cy <= 5000,
        -5000 <= px <= 5000,
        -5000 <= py <= 5000,
    ensures
        r == spec_intensity(dist2(cx as int, cy as int, px as int, py as int)),
        0 <= r <= INTENSITY_FULL,
{
    let dx = (cx as i64) - (px as i64);
    let dy = (cy as i64) - (py as i64);
    assert(0 <= dx * dx <= 100000000 && 0 <= dy * dy <= 100000000) by (nonlinear_arith)
        requires
            -10000 <= dx <= 10000,
            -10000 <= dy <= 10000,
    ;
    let d2 = (dx * dx + dy * dy) as u64;
    let d_milli = isqrt(1000000 * d2);
    proof {
        lemma_sqrt_floor_is_sqrt(1000000 * d2 as int);
    }
    let tenth = d_milli / 10;
    if tenth > 1000 {
        0
    } else {
        1000 - (tenth as i32)
    }
}

} // verus!
