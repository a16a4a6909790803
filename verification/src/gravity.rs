//! The pairwise gravitational force field: softened inverse-square
//! attraction with a near-field cutoff, accumulated over a snapshot of all
//! particles.
//!
//! The softening term is global: the decimal magnitude of the first
//! particle's mass (the central/seed mass), added to every squared
//! separation. A pair closer than the sum of the two radii contributes
//! nothing, which suppresses singularities in place of modelling
//! collisions.

use vstd::prelude::*;
use crate::num::{clip, div_down, sqrt_floor, ten_to, isqrt, clamp_i128, div_trunc,
    lemma_sqrt_floor_unique, lemma_div_down_le};
use crate::particle::{Particle, ACC_LIMIT, MASS_LIMIT};

verus! {

/// Gravitational numerators are carried at this extra scale so that the
/// single truncating division at the end loses as little as possible.
pub const FORCE_SCALE: i64 = 1_000_000_000_000_000;

/// The decimal magnitude of `m`: the greatest `e` with `10^e <= m`.
pub open spec fn log10_floor_spec(m: int) -> int {
    choose|e: int| 0 <= e && #[trigger] ten_to(e) <= m && m < ten_to(e + 1)
}

/// Powers of ten do not decrease.
pub proof fn lemma_ten_to_le(a: int, b: int)
    requires
        0 <= a <= b,
    ensures
        1 <= ten_to(a) <= ten_to(b),
    decreases b,
{
    if a == b {
        lemma_ten_to_pos(a);
    } else {
        lemma_ten_to_le(a, b - 1);
    }
}

/// Powers of ten are positive.
pub proof fn lemma_ten_to_pos(a: int)
    ensures
        1 <= ten_to(a),
    decreases a,
{
    if a > 0 {
        lemma_ten_to_pos(a - 1);
    }
}

/// Any exponent bracketing `m` between consecutive powers of ten is the
/// decimal magnitude of `m`.
pub proof fn lemma_log10_floor_unique(m: int, e: int)
    requires
        0 <= e,
        ten_to(e) <= m,
        m < ten_to(e + 1),
    ensures
        log10_floor_spec(m) == e,
{
    assert(exists|q: int| 0 <= q && #[trigger] ten_to(q) <= m && m < ten_to(q + 1)) by {
        assert(0 <= e && ten_to(e) <= m && m < ten_to(e + 1));
    }
    let q = log10_floor_spec(m);
    assert(0 <= q && ten_to(q) <= m && m < ten_to(q + 1));
    if q < e {
        lemma_ten_to_le(q + 1, e);
    }
    if e < q {
        lemma_ten_to_le(e + 1, q);
    }
}

/// The global softening term for a central mass `m0` (milli-scaled): its
/// decimal magnitude less the scale's three digits, carried to the squared
/// micro scale of separations.
pub open spec fn softening_scaled(m0: int) -> int {
    (log10_floor_spec(m0) - 3) * 1_000_000_000_000
}

/// The softening the force field adds to every squared separation, from
/// the first particle's mass.
pub fn softening_from(m0: i64) -> (s: i64)
    requires
        1 <= m0 <= MASS_LIMIT,
    ensures
        s as int == softening_scaled(m0 as int),
        -3_000_000_000_000 <= s <= 5_000_000_000_000,
{
    let e: i64 = crate::num::floor_log10(m0);
    proof {
        lemma_log10_floor_unique(m0 as int, e as int);
    }
    (e - 3) * 1_000_000_000_000
}

/// Squared separation of the pair, softening included.
pub open spec fn pair_dsq(t: Particle, o: Particle, soft: int) -> int {
    let dx = o.px - t.px;
    let dy = o.py - t.py;
    dx * dx + dy * dy + soft
}

/// Softened separation of the pair; a non-positive square counts as
/// touching.
pub open spec fn pair_dist(t: Particle, o: Particle, soft: int) -> int {
    let dsq = pair_dsq(t, o, soft);
    if dsq <= 0 {
        0
    } else {
        sqrt_floor(dsq)
    }
}

/// The near-field cutoff: a pair closer than the sum of its radii exerts
/// no force.
pub open spec fn pair_blocked(t: Particle, o: Particle, soft: int) -> bool {
    pair_dist(t, o, soft) < t.radius + o.radius
}

/// Numerator of the x-acceleration `o` exerts on `t`, before the one
/// truncating division.
pub open spec fn pair_num_x(t: Particle, o: Particle) -> int {
    o.mass * (o.px - t.px) * (FORCE_SCALE as int)
}

/// Numerator of the y-acceleration `o` exerts on `t`, before the one
/// truncating division.
pub open spec fn pair_num_y(t: Particle, o: Particle) -> int {
    o.mass * (o.py - t.py) * (FORCE_SCALE as int)
}

/// Shared denominator of the pair's acceleration: squared separation times
/// separation.
pub open spec fn pair_den(t: Particle, o: Particle, soft: int) -> int {
    pair_dsq(t, o, soft) * pair_dist(t, o, soft)
}

/// The acceleration `o` exerts on `t`: zero under the cutoff, otherwise
/// `G * m_o / dsq` resolved along the separation, with `G == 1`.
pub open spec fn pair_accel(t: Particle, o: Particle, soft: int) -> (int, int) {
    if pair_blocked(t, o, soft) {
        (0, 0)
    } else {
        (
            div_down(pair_num_x(t, o), pair_den(t, o, soft)),
            div_down(pair_num_y(t, o), pair_den(t, o, soft)),
        )
    }
}

/// Net acceleration on `t` from the first `n` snapshot entries, the entry
/// at `skip` (the particle itself) left out.
pub open spec fn accel_prefix(t: Particle, snap: Seq<Particle>, skip: int, n: int) -> (int, int)
    decreases n,
{
    if n <= 0 {
        (0, 0)
    } else {
        let prev = accel_prefix(t, snap, skip, n - 1);
        if n - 1 == skip {
            prev
        } else {
            let c = pair_accel(t, snap[n - 1], softening_scaled(snap[0].mass as int));
            (prev.0 + c.0, prev.1 + c.1)
        }
    }
}

/// Net acceleration on `t` from the whole snapshot, saturated into the
/// world's acceleration bounds.
pub open spec fn accel_on_spec(t: Particle, snap: Seq<Particle>, skip: int) -> (int, int) {
    let s = accel_prefix(t, snap, skip, snap.len() as int);
    (clip(s.0, ACC_LIMIT as int), clip(s.1, ACC_LIMIT as int))
}

/// Net acceleration on `target` from every snapshot particle but the one
/// at `skip`: the force field's full sweep for one particle.
pub fn acceleration_on(target: &Particle, snapshot: &Vec<Particle>, skip: usize) -> (acc: (
    i64,
    i64,
))
    requires
        target.wf(),
        snapshot@.len() >= 1,
        forall|i: int| 0 <= i < snapshot@.len() ==> (#[trigger] snapshot@[i]).wf(),
    ensures
        (acc.0 as int, acc.1 as int) == accel_on_spec(*target, snapshot@, skip as int),
        -ACC_LIMIT <= acc.0 <= ACC_LIMIT,
        -ACC_LIMIT <= acc.1 <= ACC_LIMIT,
{
    let soft: i64 = softening_from(snapshot[0].mass);
    let n: usize = snapshot.len();
    let mut sx: i128 = 0;
    let mut sy: i128 = 0;
    let mut j: usize = 0;
    while j < n
        invariant
            n == snapshot@.len(),
            n >= 1,
            0 <= j <= n,
            target.wf(),
            forall|i: int| 0 <= i < snapshot@.len() ==> (#[trigger] snapshot@[i]).wf(),
            soft as int == softening_scaled(snapshot@[0].mass as int),
            -3_000_000_000_000 <= soft <= 5_000_000_000_000,
            (sx as int, sy as int) == accel_prefix(*target, snapshot@, skip as int, j as int),
            -(j as int) * 3_200_000_000_000_000 <= sx as int <= (j as int) * 3_200_000_000_000_000,
            -(j as int) * 3_200_000_000_000_000 <= sy as int <= (j as int) * 3_200_000_000_000_000,
        decreases n - j,
    {
        proof {
            assert((j as int) * 3_200_000_000_000_000 + 3_200_000_000_000_000 <= 59030865443440000000000000000000000)
                by (nonlinear_arith)
                requires
                    0 <= j as int <= 18446744073709551615,
            ;
        }
        if j != skip {
            let o: Particle = snapshot[j];
            let dx: i128 = o.px as i128 - target.px as i128;
            let dy: i128 = o.py as i128 - target.py as i128;
            proof {
                assert(0 <= dx * dx <= 4_000_000_000_000_000_000_000_000
                    && 0 <= dy * dy <= 4_000_000_000_000_000_000_000_000) by (nonlinear_arith)
                    requires
                        -2_000_000_000_000 <= dx as int <= 2_000_000_000_000,
                        -2_000_000_000_000 <= dy as int <= 2_000_000_000_000,
                ;
            }
            let dsq: i128 = dx * dx + dy * dy + soft as i128;
            if dsq > 0 {
                let dist_u: u128 = isqrt(dsq as u128);
                proof {
                    assert(dist_u as int <= 3_200_000_000_000) by (nonlinear_arith)
                        requires
                            (dist_u as int) * (dist_u as int) <= dsq as int,
                            dsq as int <= 9_000_000_000_000_000_000_000_000,
                            0 <= dist_u as int,
                    ;
                }
                let rsum: i64 = target.radius + o.radius;
                if dist_u >= rsum as u128 {
                    let dist: i128 = dist_u as i128;
                    proof {
                        assert(0 < dsq * dist && dsq * dist <= 28_800_000_000_000_000_000_000_000_000_000_000_000)
                            by (nonlinear_arith)
                            requires
                                0 < dsq as int <= 9_000_000_000_000_000_000_000_000,
                                4_000_000 <= dist as int <= 3_200_000_000_000,
                        ;
                        assert(dsq * dist >= 64_000_000_000_000_000_000) by (nonlinear_arith)
                            requires
                                (dist as int) * (dist as int) <= dsq as int,
                                4_000_000 <= dist as int,
                        ;
                    }
                    let den: i128 = dsq * dist;
                    proof {
                        assert(-200_000_000_000_000_000_000 <= (o.mass as i128) * dx
                            && (o.mass as i128) * dx <= 200_000_000_000_000_000_000)
                            by (nonlinear_arith)
                            requires
                                1 <= o.mass as int <= 100_000_000,
                                -2_000_000_000_000 <= dx as int <= 2_000_000_000_000,
                        ;
                        assert(-200_000_000_000_000_000_000 <= (o.mass as i128) * dy
                            && (o.mass as i128) * dy <= 200_000_000_000_000_000_000)
                            by (nonlinear_arith)
                            requires
                                1 <= o.mass as int <= 100_000_000,
                                -2_000_000_000_000 <= dy as int <= 2_000_000_000_000,
                        ;
                    }
                    let nx: i128 = (o.mass as i128) * dx * 1_000_000_000_000_000;
                    let ny: i128 = (o.mass as i128) * dy * 1_000_000_000_000_000;
                    let qx: i128 = div_trunc(nx, den);
                    let qy: i128 = div_trunc(ny, den);
                    proof {
                        lemma_div_down_le(
                            nx as int,
                            den as int,
                            64_000_000_000_000_000_000,
                            3_200_000_000_000_000,
                        );
                        lemma_div_down_le(
                            ny as int,
                            den as int,
                            64_000_000_000_000_000_000,
                            3_200_000_000_000_000,
                        );
                        let t = *target;
                        let os = snapshot@[j as int];
                        let sft = softening_scaled(snapshot@[0].mass as int);
                        assert(os == o);
                        assert(pair_dsq(t, os, sft) == dsq as int);
                        lemma_sqrt_floor_unique(dsq as int, dist_u as int);
                        assert(pair_dist(t, os, sft) == dist as int);
                        assert(!pair_blocked(t, os, sft));
                        assert(pair_num_x(t, os) == nx as int);
                        assert(pair_num_y(t, os) == ny as int);
                        assert(pair_den(t, os, sft) == den as int);
                        assert(pair_accel(t, os, sft) == (qx as int, qy as int));
                        assert(accel_prefix(t, snapshot@, skip as int, j as int + 1)
                            == (sx as int + qx as int, sy as int + qy as int));
                    }
                    sx = sx + qx;
                    sy = sy + qy;
                } else {
                    proof {
                        let t = *target;
                        let os = snapshot@[j as int];
                        let sft = softening_scaled(snapshot@[0].mass as int);
                        lemma_sqrt_floor_unique(dsq as int, dist_u as int);
                        assert(pair_dist(t, os, sft) == dist_u as int);
                        assert(pair_blocked(t, os, sft));
                        assert(accel_prefix(t, snapshot@, skip as int, j as int + 1)
                            == (sx as int, sy as int));
                    }
                }
            } else {
                proof {
                    let t = *target;
                    let os = snapshot@[j as int];
                    let sft = softening_scaled(snapshot@[0].mass as int);
                    assert(pair_dsq(t, os, sft) == dsq as int);
                    assert(pair_dist(t, os, sft) == 0);
                    assert(pair_blocked(t, os, sft));
                    assert(accel_prefix(t, snapshot@, skip as int, j as int + 1)
                        == (sx as int, sy as int));
                }
            }
        } else {
            proof {
                assert(accel_prefix(*target, snapshot@, skip as int, j as int + 1)
                    == accel_prefix(*target, snapshot@, skip as int, j as int));
            }
        }
        j += 1;
    }
    let r0: i64 = clamp_i128(sx, ACC_LIMIT);
    let r1: i64 = clamp_i128(sy, ACC_LIMIT);
    (r0, r1)
}

impl Particle {
    /// Recompute this particle's acceleration (it is the snapshot entry at
    /// `index`) from every other snapshot particle; nothing else moves.
    pub fn calculate_acceleration(&mut self, particles: &Vec<Particle>, index: usize)
        requires
            old(self).wf(),
            particles@.len() >= 1,
            forall|i: int| 0 <= i < particles@.len() ==> (#[trigger] particles@[i]).wf(),
        ensures
            (final(self).ax as int, final(self).ay as int) == accel_on_spec(
                *old(self),
                particles@,
                index as int,
            ),
            final(self).px == old(self).px,
            final(self).py == old(self).py,
            final(self).vx == old(self).vx,
            final(self).vy == old(self).vy,
            final(self).mass == old(self).mass,
            final(self).radius == old(self).radius,
            final(self).wf(),
    {
        let me: Particle = *self;
        let acc = acceleration_on(&me, particles, index);
        self.ax = acc.0;
        self.ay = acc.1;
    }
}

} // verus!
