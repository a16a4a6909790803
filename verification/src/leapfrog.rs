//! The kick-drift-kick (leapfrog) integrator: one particle advances one
//! time step against a fixed snapshot of all particles.
//!
//! The first half-kick uses the particle's stale acceleration from the
//! previous step; the acceleration is then recomputed at the drifted
//! position against the pre-step snapshot, and the second half-kick uses
//! the fresh value. Every particle of a step integrates against the same
//! snapshot, so none sees another's mid-step motion.

use vstd::prelude::*;
use crate::num::{clip, div_down, clamp_i128, div_trunc};
use crate::particle::{Particle, POS_LIMIT, VEL_LIMIT};
use crate::gravity::accel_on_spec;

verus! {

/// Longest time step a single advance accepts, milli-scaled.
pub const DT_LIMIT: i64 = 1_000_000;

/// A half-kick: velocity gains acceleration times half the step.
pub open spec fn kick(v: int, a: int, dt: int) -> int {
    clip(v + div_down(a * dt, 2000), VEL_LIMIT as int)
}

/// The drift: position gains velocity times the step.
pub open spec fn drift(p: int, v: int, dt: int) -> int {
    clip(p + div_down(v * dt, 1000), POS_LIMIT as int)
}

/// The particle at snapshot index `idx`, advanced one leapfrog step of
/// `dt` against the snapshot.
pub open spec fn advanced(p: Particle, snap: Seq<Particle>, idx: int, dt: int) -> Particle {
    let vx1 = kick(p.vx as int, p.ax as int, dt);
    let vy1 = kick(p.vy as int, p.ay as int, dt);
    let px1 = drift(p.px as int, vx1, dt);
    let py1 = drift(p.py as int, vy1, dt);
    let moved = Particle {
        px: px1 as i64,
        py: py1 as i64,
        vx: vx1 as i64,
        vy: vy1 as i64,
        ax: p.ax,
        ay: p.ay,
        mass: p.mass,
        radius: p.radius,
    };
    let acc = accel_on_spec(moved, snap, idx);
    Particle {
        px: px1 as i64,
        py: py1 as i64,
        vx: kick(vx1, acc.0, dt) as i64,
        vy: kick(vy1, acc.1, dt) as i64,
        ax: acc.0 as i64,
        ay: acc.1 as i64,
        mass: p.mass,
        radius: p.radius,
    }
}

/// One half-kick on one velocity component.
fn kick_exec(v: i64, a: i64, dt: i64) -> (r: i64)
    requires
        -VEL_LIMIT <= v <= VEL_LIMIT,
        -1_000_000_000_000 <= a <= 1_000_000_000_000,
        1 <= dt <= DT_LIMIT,
    ensures
        r as int == kick(v as int, a as int, dt as int),
        -VEL_LIMIT <= r <= VEL_LIMIT,
{
    proof {
        assert(-1_000_000_000_000_000_000 <= (a as i128) * (dt as i128)
            && (a as i128) * (dt as i128) <= 1_000_000_000_000_000_000) by (nonlinear_arith)
            requires
                -1_000_000_000_000 <= a as int <= 1_000_000_000_000,
                1 <= dt as int <= 1_000_000,
        ;
    }
    let prod: i128 = (a as i128) * (dt as i128);
    let q: i128 = div_trunc(prod, 2000);
    proof {
        lemma_div_small(prod as int, 2000, 1_000_000_000_000_000_000);
    }
    clamp_i128(v as i128 + q, VEL_LIMIT)
}

/// The drift on one position component.
fn drift_exec(p: i64, v: i64, dt: i64) -> (r: i64)
    requires
        -POS_LIMIT <= p <= POS_LIMIT,
        -VEL_LIMIT <= v <= VEL_LIMIT,
        1 <= dt <= DT_LIMIT,
    ensures
        r as int == drift(p as int, v as int, dt as int),
        -POS_LIMIT <= r <= POS_LIMIT,
{
    proof {
        assert(-1_000_000_000_000_000_000 <= (v as i128) * (dt as i128)
            && (v as i128) * (dt as i128) <= 1_000_000_000_000_000_000) by (nonlinear_arith)
            requires
                -1_000_000_000_000 <= v as int <= 1_000_000_000_000,
                1 <= dt as int <= 1_000_000,
        ;
    }
    let prod: i128 = (v as i128) * (dt as i128);
    let q: i128 = div_trunc(prod, 1000);
    proof {
        lemma_div_small(prod as int, 1000, 1_000_000_000_000_000_000);
    }
    clamp_i128(p as i128 + q, POS_LIMIT)
}

/// A truncating quotient is no larger in magnitude than its numerator's
/// bound.
proof fn lemma_div_small(n: int, d: int, b: int)
    requires
        0 < d,
        0 <= b,
        -b <= n <= b,
    ensures
        -b <= div_down(n, d) <= b,
{
    if n >= 0 {
        assert(0 <= n / d <= n) by (nonlinear_arith)
            requires
                0 < d,
                0 <= n,
        ;
    } else {
        assert(0 <= (-n) / d <= -n) by (nonlinear_arith)
            requires
                0 < d,
                0 <= -n,
        ;
    }
}

impl Particle {
    /// Advance this particle (the one at snapshot index `index`) by one
    /// leapfrog step of `dt` against the snapshot.
    pub fn update(&mut self, dt: i64, snapshot: &Vec<Particle>, index: usize)
        requires
            old(self).wf(),
            snapshot@.len() >= 1,
            forall|i: int| 0 <= i < snapshot@.len() ==> (#[trigger] snapshot@[i]).wf(),
            1 <= dt <= DT_LIMIT,
        ensures
            *final(self) == advanced(*old(self), snapshot@, index as int, dt as int),
            final(self).wf(),
            final(self).mass == old(self).mass,
            final(self).radius == old(self).radius,
    {
        self.vx = kick_exec(self.vx, self.ax, dt);
        self.vy = kick_exec(self.vy, self.ay, dt);
        self.px = drift_exec(self.px, self.vx, dt);
        self.py = drift_exec(self.py, self.vy, dt);
        self.calculate_acceleration(snapshot, index);
        self.vx = kick_exec(self.vx, self.ax, dt);
        self.vy = kick_exec(self.vy, self.ay, dt);
    }
}

} // verus!
