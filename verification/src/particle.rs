//! The particle data model: position, velocity, acceleration, mass and the
//! radius derived once from mass.
//!
//! Positions, velocities and accelerations are micro-scaled (1_000_000 per
//! world unit) and bounded by the world limits below; masses are
//! milli-scaled and strictly positive. The radius law is
//! `radius = max(mass^0.3, 2)`, realised exactly on integers as the tenth
//! root of `mass^3` (centi-scaled), floored at two world units.

use vstd::prelude::*;
use crate::num::{tenth_power, tenth_root, lemma_tenth_power_le};

verus! {

/// Largest position coordinate the world carries, micro-scaled.
pub const POS_LIMIT: i64 = 1_000_000_000_000;

/// Largest velocity component the world carries, micro-scaled.
pub const VEL_LIMIT: i64 = 1_000_000_000_000;

/// Largest acceleration component the world carries, micro-scaled.
pub const ACC_LIMIT: i64 = 1_000_000_000_000;

/// Largest mass the world carries, milli-scaled.
pub const MASS_LIMIT: i64 = 100_000_000;

/// The radius law's floor of two world units, micro-scaled.
pub const RADIUS_MIN: i64 = 2_000_000;

/// Largest radius the law can produce, micro-scaled.
pub const RADIUS_LIMIT: i64 = 40_950_000;

/// A point mass.
#[derive(Clone, Copy, Debug, PartialEq, Eq, Structural)]
pub struct Particle {
    pub px: i64,
    pub py: i64,
    pub vx: i64,
    pub vy: i64,
    pub ax: i64,
    pub ay: i64,
    pub mass: i64,
    pub radius: i64,
}

/// The tenth power of the centi-scaled radius candidate must bracket
/// `mass^3`, carried to the same scale.
pub open spec fn radius_target(m: int) -> int {
    (m * m * m) * 100_000_000_000
}

/// `r` is the radius the law assigns to mass `m`: micro-scaled, equal to
/// `max(t, 200)` centi-units where `t` is the integer tenth root of the
/// scaled `m^3`.
pub open spec fn radius_matches(m: int, r: int) -> bool {
    exists|rc: int|
        #[trigger] (rc * 10_000) == r && 200 <= rc < 4096 && radius_target(m) < tenth_power(rc + 1)
            && (rc == 200 || tenth_power(rc) <= radius_target(m))
}

impl Particle {
    /// Every field sits inside the world bounds, mass is positive, and the
    /// radius is the one the law derives from the mass.
    pub open spec fn wf(self) -> bool {
        &&& -POS_LIMIT <= self.px <= POS_LIMIT
        &&& -POS_LIMIT <= self.py <= POS_LIMIT
        &&& -VEL_LIMIT <= self.vx <= VEL_LIMIT
        &&& -VEL_LIMIT <= self.vy <= VEL_LIMIT
        &&& -ACC_LIMIT <= self.ax <= ACC_LIMIT
        &&& -ACC_LIMIT <= self.ay <= ACC_LIMIT
        &&& 1 <= self.mass <= MASS_LIMIT
        &&& RADIUS_MIN <= self.radius <= RADIUS_LIMIT
        &&& radius_matches(self.mass as int, self.radius as int)
    }

    /// A particle at rest at `(x, y)` with the given mass and the radius
    /// the law assigns to it.
    pub fn new(x: i64, y: i64, mass: i64) -> (p: Particle)
        requires
            -POS_LIMIT <= x <= POS_LIMIT,
            -POS_LIMIT <= y <= POS_LIMIT,
            1 <= mass <= MASS_LIMIT,
        ensures
            p.px == x,
            p.py == y,
            p.vx == 0,
            p.vy == 0,
            p.ax == 0,
            p.ay == 0,
            p.mass == mass,
            radius_matches(mass as int, p.radius as int),
            p.wf(),
    {
        let radius = radius_from_mass(mass);
        Particle { px: x, py: y, vx: 0, vy: 0, ax: 0, ay: 0, mass, radius }
    }
}

/// The radius the law assigns to a mass: the integer tenth root of the
/// scaled `mass^3`, floored at 200 centi-units, carried to micro-scale.
pub fn radius_from_mass(mass: i64) -> (r: i64)
    requires
        1 <= mass <= MASS_LIMIT,
    ensures
        radius_matches(mass as int, r as int),
        RADIUS_MIN <= r <= RADIUS_LIMIT,
{
    let m: u128 = mass as u128;
    proof {
        assert(0 < (m as int) * (m as int) && (m as int) * (m as int)
            <= 10_000_000_000_000_000) by (nonlinear_arith)
            requires
                1 <= m as int <= 100_000_000,
        ;
        assert(0 < (m as int) * (m as int) * (m as int) && (m as int) * (m as int) * (m as int)
            <= 1_000_000_000_000_000_000_000_000) by (nonlinear_arith)
            requires
                1 <= m as int <= 100_000_000,
                (m as int) * (m as int) <= 10_000_000_000_000_000,
        ;
    }
    let target: u128 = m * m * m * 100_000_000_000;
    proof {
        assert(crate::num::sq(4096) == 16777216);
        assert(crate::num::sq(16777216) == 281474976710656);
        assert(crate::num::sq(281474976710656) == 79228162514264337593543950336);
        assert(tenth_power(4096) == 79228162514264337593543950336 * 16777216);
        assert((target as int) < tenth_power(4096));
    }
    let root: u128 = tenth_root(target);
    let rc: i64 = if root < 200 {
        200
    } else {
        root as i64
    };
    let r: i64 = rc * 10_000;
    proof {
        assert(radius_target(mass as int) == target as int);
        if root < 200 {
            lemma_tenth_power_le(root as int + 1, 201);
            assert(radius_target(mass as int) < tenth_power(rc as int + 1));
        }
        assert((rc as int) * 10_000 == r as int);
        assert(200 <= (rc as int) && (rc as int) < 4096);
        assert(radius_target(mass as int) < tenth_power(rc as int + 1));
        assert(rc as int == 200 || tenth_power(rc as int) <= radius_target(mass as int));
        assert(radius_matches(mass as int, r as int));
    }
    r
}

} // verus!
