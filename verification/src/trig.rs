//! Sine and cosine on milli-radian angles, by a rational approximation, for
//! placing orbiters on a circle. Angles run over `[0, FULL_TURN)`; results
//! are milli-scaled, in `[-1000, 1000]`.

use vstd::prelude::*;

verus! {

/// Half a turn, in milli-radians.
pub const HALF_TURN: i64 = 3142;

/// A full turn, in milli-radians.
pub const FULL_TURN: i64 = 6284;

/// A quarter turn, in milli-radians.
pub const QUARTER_TURN: i64 = 1571;

/// Numerator of the rational sine approximation on `[0, HALF_TURN]`.
pub open spec fn sin_num(x: int) -> int {
    16000 * (x * (3142 - x))
}

/// Denominator of the rational sine approximation on `[0, HALF_TURN]`.
pub open spec fn sin_den(x: int) -> int {
    49360820 - 4 * (x * (3142 - x))
}

/// Milli-scaled sine on the first half turn.
pub open spec fn sin_first_half(x: int) -> int {
    sin_num(x) / sin_den(x)
}

/// Milli-scaled sine over a full turn.
pub open spec fn sin_milli_spec(x: int) -> int {
    if x < 3142 {
        sin_first_half(x)
    } else {
        -sin_first_half(x - 3142)
    }
}

/// Milli-scaled cosine over a full turn: the sine a quarter turn ahead.
pub open spec fn cos_milli_spec(x: int) -> int {
    if x + 1571 < 6284 {
        sin_milli_spec(x + 1571)
    } else {
        sin_milli_spec(x + 1571 - 6284)
    }
}

/// Sine on the first half turn, exactly the rational approximation.
fn sin_half_exec(x: i64) -> (r: i64)
    requires
        0 <= x <= 3142,
    ensures
        r == sin_first_half(x as int),
        0 <= r <= 1000,
{
    proof {
        assert(0 <= x * (3142 - x) && 4 * (x * (3142 - x)) <= 3142 * 3142) by (nonlinear_arith)
            requires
                0 <= x as int <= 3142,
        ;
    }
    let u: i64 = x * (3142 - x);
    let num: u64 = 16000 * (u as u64);
    let den: u64 = (49360820 - 4 * u) as u64;
    let q: u64 = num / den;
    proof {
        assert(q as int <= 1000) by (nonlinear_arith)
            requires
                q as int == num as int / den as int,
                num as int == 16000 * u as int,
                den as int == 49360820 - 4 * u as int,
                0 <= u as int,
                4 * u as int <= 9872164,
        ;
    }
    q as i64
}

/// Milli-scaled sine of an angle in `[0, FULL_TURN)`.
pub fn sin_milli(x: i64) -> (r: i64)
    requires
        0 <= x < 6284,
    ensures
        r == sin_milli_spec(x as int),
        -1000 <= r <= 1000,
{
    if x < 3142 {
        sin_half_exec(x)
    } else {
        -sin_half_exec(x - 3142)
    }
}

/// Milli-scaled cosine of an angle in `[0, FULL_TURN)`.
pub fn cos_milli(x: i64) -> (r: i64)
    requires
        0 <= x < 6284,
    ensures
        r == cos_milli_spec(x as int),
        -1000 <= r <= 1000,
{
    let y: i64 = if x + 1571 < 6284 {
        x + 1571
    } else {
        x + 1571 - 6284
    };
    sin_milli(y)
}

} // verus!
