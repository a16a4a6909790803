//! Integer helpers for the fixed-point physics: saturation, truncating
//! division, integer square root, and the integer tenth root that backs the
//! radius-from-mass law.

use vstd::prelude::*;

verus! {

/// `x` held inside the symmetric interval `[-lim, lim]`.
pub open spec fn clip(x: int, lim: int) -> int {
    if x < -lim {
        -lim
    } else if x > lim {
        lim
    } else {
        x
    }
}

/// Division truncating toward zero, for a positive divisor.
pub open spec fn div_down(n: int, d: int) -> int {
    if n >= 0 {
        n / d
    } else {
        -((-n) / d)
    }
}

/// Saturate a wide intermediate back into the `[-lim, lim]` world range.
pub fn clamp_i128(x: i128, lim: i64) -> (r: i64)
    requires
        0 < lim,
    ensures
        r as int == clip(x as int, lim as int),
        -lim <= r <= lim,
{
    if x < -(lim as i128) {
        -lim
    } else if x > lim as i128 {
        lim
    } else {
        x as i64
    }
}

/// Truncating division on wide intermediates; the divisor is positive.
pub fn div_trunc(n: i128, d: i128) -> (r: i128)
    requires
        0 < d,
        i128::MIN < n,
    ensures
        r == div_down(n as int, d as int),
{
    let q: i128 = if n >= 0 {
        ((n as u128) / (d as u128)) as i128
    } else {
        let m: u128 = (-n) as u128;
        proof {
            assert(0 <= (m as int) / (d as int) <= m as int) by (nonlinear_arith)
                requires
                    0 < d as int,
                    0 <= m as int,
            ;
        }
        -((m / (d as u128)) as i128)
    };
    proof {
        if n >= 0 {
            assert(0 <= (n as int) / (d as int) <= n as int) by (nonlinear_arith)
                requires
                    0 < d as int,
                    0 <= n as int,
            ;
        }
    }
    q
}

/// A quotient with a small numerator and a large positive divisor is small.
pub proof fn lemma_div_down_le(n: int, d: int, dm: int, b: int)
    requires
        0 < dm <= d,
        0 <= b,
        -(b * dm) <= n <= b * dm,
    ensures
        -b <= div_down(n, d) <= b,
{
    if n >= 0 {
        let q = n / d;
        assert(0 <= q && q * d <= n) by (nonlinear_arith)
            requires
                0 < d,
                0 <= n,
                q == n / d,
        ;
        assert(b * dm <= b * d) by (nonlinear_arith)
            requires
                0 <= b,
                dm <= d,
        ;
        assert(q <= b) by (nonlinear_arith)
            requires
                q * d <= b * d,
                0 < d,
        ;
    } else {
        let q = (-n) / d;
        assert(0 <= q && q * d <= -n) by (nonlinear_arith)
            requires
                0 < d,
                0 <= -n,
                q == (-n) / d,
        ;
        assert(b * dm <= b * d) by (nonlinear_arith)
            requires
                0 <= b,
                dm <= d,
        ;
        assert(q <= b) by (nonlinear_arith)
            requires
                q * d <= b * d,
                0 < d,
        ;
    }
}

/// The greatest integer whose square does not exceed `n`.
pub open spec fn sqrt_floor(n: int) -> int {
    choose|r: int| 0 <= r && #[trigger] (r * r) <= n && n < (r + 1) * (r + 1)
}

/// Any integer bracketing `n` between consecutive squares is `sqrt_floor(n)`.
pub proof fn lemma_sqrt_floor_unique(n: int, r: int)
    requires
        0 <= r,
        r * r <= n,
        n < (r + 1) * (r + 1),
    ensures
        sqrt_floor(n) == r,
{
    assert(exists|q: int| 0 <= q && #[trigger] (q * q) <= n && n < (q + 1) * (q + 1)) by {
        assert(0 <= r && r * r <= n && n < (r + 1) * (r + 1));
    }
    let q = sqrt_floor(n);
    assert(0 <= q && q * q <= n && n < (q + 1) * (q + 1));
    if q < r {
        assert((q + 1) * (q + 1) <= r * r) by (nonlinear_arith)
            requires
                0 <= q,
                q < r,
        ;
    }
    if r < q {
        assert((r + 1) * (r + 1) <= q * q) by (nonlinear_arith)
            requires
                0 <= r,
                r < q,
        ;
    }
}

/// Integer square root by bisection.
pub fn isqrt(n: u128) -> (r: u128)
    ensures
        r as int == sqrt_floor(n as int),
        r * r <= n,
        n < (r + 1) * (r + 1),
        r < 0x1_0000_0000_0000_0000,
{
    let mut lo: u128 = 0;
    let mut hi: u128 = 0xFFFF_FFFF_FFFF_FFFF;
    proof {
        assert((n as int) < (hi as int + 1) * (hi as int + 1)) by (nonlinear_arith)
            requires
                n as int <= u128::MAX as int,
                hi as int == 0xFFFF_FFFF_FFFF_FFFF,
        ;
    }
    while lo < hi
        invariant
            lo <= hi,
            hi <= 0xFFFF_FFFF_FFFF_FFFF,
            (lo as int) * (lo as int) <= n as int,
            (n as int) < (hi as int + 1) * (hi as int + 1),
        decreases hi - lo,
    {
        let mid: u128 = lo + (hi - lo + 1) / 2;
        proof {
            assert((mid as int) * (mid as int) <= u128::MAX as int) by (nonlinear_arith)
                requires
                    mid as int <= 0xFFFF_FFFF_FFFF_FFFF,
                    0 <= mid as int,
            ;
        }
        if mid * mid <= n {
            lo = mid;
        } else {
            hi = mid - 1;
        }
    }
    proof {
        lemma_sqrt_floor_unique(n as int, lo as int);
    }
    lo
}

/// `x` squared, the building block of the tenth power.
pub open spec fn sq(x: int) -> int {
    x * x
}

/// `x` to the tenth, as used by the radius law.
pub open spec fn tenth_power(x: int) -> int {
    sq(sq(sq(x))) * sq(x)
}

/// The tenth power is monotone on the nonnegative integers.
pub proof fn lemma_tenth_power_le(a: int, b: int)
    requires
        0 <= a <= b,
    ensures
        tenth_power(a) <= tenth_power(b),
        0 <= tenth_power(a),
{
    assert(0 <= sq(a) <= sq(b)) by (nonlinear_arith)
        requires
            0 <= a <= b,
    ;
    assert(0 <= sq(sq(a)) <= sq(sq(b))) by (nonlinear_arith)
        requires
            0 <= sq(a) <= sq(b),
    ;
    assert(0 <= sq(sq(sq(a))) <= sq(sq(sq(b)))) by (nonlinear_arith)
        requires
            0 <= sq(sq(a)) <= sq(sq(b)),
    ;
    assert(0 <= sq(sq(sq(a))) * sq(a) <= sq(sq(sq(b))) * sq(b)) by (nonlinear_arith)
        requires
            0 <= sq(sq(sq(a))) <= sq(sq(sq(b))),
            0 <= sq(a) <= sq(b),
    ;
}

/// The tenth power of a small executable operand.
pub fn tenth_power_exec(x: u128) -> (r: u128)
    requires
        x <= 4096,
    ensures
        r as int == tenth_power(x as int),
{
    proof {
        assert(0 <= (x as int) * (x as int) <= 4096 * 4096) by (nonlinear_arith)
            requires
                0 <= x as int <= 4096,
        ;
    }
    let x2: u128 = x * x;
    proof {
        assert(0 <= (x2 as int) * (x2 as int) <= 16777216 * 16777216) by (nonlinear_arith)
            requires
                0 <= x2 as int <= 16777216,
        ;
    }
    let x4: u128 = x2 * x2;
    proof {
        assert(0 <= (x4 as int) * (x4 as int) <= 281474976710656 * 281474976710656)
            by (nonlinear_arith)
            requires
                0 <= x4 as int <= 281474976710656,
        ;
    }
    let x8: u128 = x4 * x4;
    proof {
        assert(0 <= (x8 as int) * (x2 as int) <= 0x1_0000_0000_0000_0000_0000_0000 * 16777216)
            by (nonlinear_arith)
            requires
                0 <= x8 as int <= 0x1_0000_0000_0000_0000_0000_0000,
                0 <= x2 as int <= 16777216,
        ;
    }
    x8 * x2
}

/// Integer tenth root by bisection: the radius law inverts `r^10 = m^3`.
pub fn tenth_root(n: u128) -> (r: u128)
    requires
        (n as int) < tenth_power(4096),
    ensures
        tenth_power(r as int) <= n as int,
        (n as int) < tenth_power(r as int + 1),
        r < 4096,
{
    let mut lo: u128 = 0;
    let mut hi: u128 = 4095;
    while lo < hi
        invariant
            lo <= hi,
            hi <= 4095,
            tenth_power(lo as int) <= n as int,
            (n as int) < tenth_power(hi as int + 1),
        decreases hi - lo,
    {
        let mid: u128 = lo + (hi - lo + 1) / 2;
        let p: u128 = tenth_power_exec(mid);
        if p <= n {
            lo = mid;
        } else {
            hi = mid - 1;
        }
    }
    lo
}

/// Powers of ten, for the decimal magnitude behind the softening term.
pub open spec fn ten_to(e: int) -> int
    decreases e,
{
    if e <= 0 {
        1
    } else {
        10 * ten_to(e - 1)
    }
}

/// The decimal magnitude of a milli-scaled mass: the greatest `e` with
/// `10^e <= m`, for masses up to the world's mass bound.
pub fn floor_log10(m: i64) -> (r: i64)
    requires
        1 <= m <= 100_000_000,
    ensures
        ten_to(r as int) <= m as int,
        (m as int) < ten_to(r as int + 1),
        0 <= r <= 8,
{
    proof {
        reveal_with_fuel(ten_to, 11);
    }
    if m < 10 {
        0
    } else if m < 100 {
        1
    } else if m < 1_000 {
        2
    } else if m < 10_000 {
        3
    } else if m < 100_000 {
        4
    } else if m < 1_000_000 {
        5
    } else if m < 10_000_000 {
        6
    } else if m < 100_000_000 {
        7
    } else {
        8
    }
}

} // verus!
