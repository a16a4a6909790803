//! Laws of the force field and the stepper, stated over the same spec
//! functions the executable contracts use.

use vstd::prelude::*;
use crate::particle::Particle;
use crate::gravity::{pair_num_x, pair_num_y, pair_den, pair_dsq, pair_dist, pair_blocked,
    pair_accel, accel_prefix, accel_on_spec};
use crate::sim::{step_spec, orbits_center, CENTER_X, CENTER_Y};
use crate::leapfrog::{advanced, DT_LIMIT};

verus! {

/// Newton's third law of the pair terms, up to the one shared truncating
/// division: weighting each particle's raw acceleration numerator by its
/// own mass gives exactly opposite momenta, and both directions divide by
/// the same denominator, since the softening term is global rather than
/// pair-dependent. The truncated accelerations themselves are therefore
/// opposite in the ratio of the masses, up to rounding.
pub proof fn lemma_pair_momentum_balance(t: Particle, o: Particle, soft: int)
    ensures
        t.mass * pair_num_x(t, o) == -(o.mass * pair_num_x(o, t)),
        t.mass * pair_num_y(t, o) == -(o.mass * pair_num_y(o, t)),
        pair_den(t, o, soft) == pair_den(o, t, soft),
        pair_blocked(t, o, soft) == pair_blocked(o, t, soft),
{
    let tm = t.mass as int;
    let om = o.mass as int;
    let dx = o.px - t.px as int;
    let dy = o.py - t.py as int;
    assert(tm * (om * dx * 1_000_000_000_000_000) + om * (tm * (-dx) * 1_000_000_000_000_000)
        == 0) by (nonlinear_arith);
    assert(tm * (om * dy * 1_000_000_000_000_000) + om * (tm * (-dy) * 1_000_000_000_000_000)
        == 0) by (nonlinear_arith);
    assert((-dx) * (-dx) == dx * dx && (-dy) * (-dy) == dy * dy) by (nonlinear_arith);
    assert(pair_dsq(t, o, soft) == pair_dsq(o, t, soft));
    assert(pair_dist(t, o, soft) == pair_dist(o, t, soft));
}

/// A truncating quotient differs from its exact ratio by less than one:
/// `n - d * div_down(n, d)` lies strictly inside `(-d, d)`.
proof fn lemma_div_down_err(n: int, d: int)
    requires
        0 < d,
    ensures
        -d < n - d * crate::num::div_down(n, d) < d,
{
    if n >= 0 {
        assert(0 <= n - d * (n / d) < d) by (nonlinear_arith)
            requires
                0 < d,
                0 <= n,
        ;
    } else {
        assert(0 <= (-n) - d * ((-n) / d) < d) by (nonlinear_arith)
            requires
                0 < d,
                0 <= -n,
        ;
        assert(n - d * (-((-n) / d)) == -((-n) - d * ((-n) / d))) by (nonlinear_arith);
    }
}

/// Newton's third law of the accelerations actually returned: weighting
/// each truncated pair acceleration by the particle's own mass gives
/// momenta that cancel to within one truncation unit per side — the
/// magnitude of the imbalance stays below the sum of the two masses.
pub proof fn lemma_pair_momentum_balance_truncated(t: Particle, o: Particle, soft: int)
    requires
        t.wf(),
        o.wf(),
        !pair_blocked(t, o, soft),
    ensures
        -(t.mass + o.mass) < t.mass * pair_accel(t, o, soft).0 + o.mass * pair_accel(
            o,
            t,
            soft,
        ).0 < t.mass + o.mass,
        -(t.mass + o.mass) < t.mass * pair_accel(t, o, soft).1 + o.mass * pair_accel(
            o,
            t,
            soft,
        ).1 < t.mass + o.mass,
{
    lemma_pair_momentum_balance(t, o, soft);
    let den = pair_den(t, o, soft);
    let dist = pair_dist(t, o, soft);
    let dsq = pair_dsq(t, o, soft);
    assert(dist >= t.radius + o.radius);
    assert(dist >= 4_000_000);
    assert(dsq > 0);
    assert(den > 0) by (nonlinear_arith)
        requires
            den == dsq * dist,
            dsq > 0,
            dist > 0,
    ;
    let tm = t.mass as int;
    let om = o.mass as int;
    lemma_momentum_sum_bound(tm, om, pair_num_x(t, o), pair_num_x(o, t), den);
    lemma_momentum_sum_bound(tm, om, pair_num_y(t, o), pair_num_y(o, t), den);
}

/// Two quantities whose exact mass-weighted sum is zero keep, after one
/// shared truncating division each, a weighted sum of magnitude below the
/// sum of the weights.
proof fn lemma_momentum_sum_bound(tm: int, om: int, nt: int, no: int, den: int)
    requires
        0 < den,
        0 < tm,
        0 < om,
        tm * nt == -(om * no),
    ensures
        -(tm + om) < tm * crate::num::div_down(nt, den) + om * crate::num::div_down(no, den) < tm
            + om,
{
    let qt = crate::num::div_down(nt, den);
    let qo = crate::num::div_down(no, den);
    lemma_div_down_err(nt, den);
    lemma_div_down_err(no, den);
    let et = nt - den * qt;
    let eo = no - den * qo;
    assert(den * (tm * qt + om * qo) == tm * (den * qt) + om * (den * qo)) by (nonlinear_arith);
    assert(tm * (nt - et) + om * (no - eo) == tm * nt - tm * et + (om * no - om * eo))
        by (nonlinear_arith);
    assert(den * (tm * qt + om * qo) == -(tm * et + om * eo));
    assert(-(tm + om) * den < tm * et + om * eo < (tm + om) * den) by (nonlinear_arith)
        requires
            0 < tm,
            0 < om,
            0 < den,
            -den < et < den,
            -den < eo < den,
    ;
    assert(-(tm + om) < tm * qt + om * qo < tm + om) by (nonlinear_arith)
        requires
            0 < den,
            den * (tm * qt + om * qo) == -(tm * et + om * eo),
            -(tm + om) * den < tm * et + om * eo < (tm + om) * den,
    ;
}

/// The near-field cutoff: a pair closer than the sum of its radii
/// contributes exactly zero acceleration.
pub proof fn lemma_near_field_cutoff(t: Particle, o: Particle, soft: int)
    requires
        pair_dist(t, o, soft) < t.radius + o.radius,
    ensures
        pair_accel(t, o, soft) == (0int, 0int),
{
}

/// Circular-orbit seeding: a particle placed at `dist` along the
/// direction `(ca, sa)` from the scene centre, with velocity `speed`
/// turned a quarter turn from that direction, moves exactly orthogonally
/// to its radius vector, and its squared speed is `speed^2` times the
/// squared length of the direction vector.
pub proof fn lemma_circular_orbit_seeding(p: Particle, dist: int, ca: int, sa: int, speed: int)
    requires
        p.px == CENTER_X + dist * ca,
        p.py == CENTER_Y + dist * sa,
        p.vx == -(speed * sa),
        p.vy == speed * ca,
    ensures
        orbits_center(p),
        p.vx * p.vx + p.vy * p.vy == (speed * speed) * (ca * ca + sa * sa),
{
    assert((dist * ca) * (-(speed * sa)) + (dist * sa) * (speed * ca) == 0) by (nonlinear_arith);
    assert((-(speed * sa)) * (-(speed * sa)) + (speed * ca) * (speed * ca) == (speed * speed) * (
    ca * ca + sa * sa)) by (nonlinear_arith);
}

/// Step determinism: the advance of a whole snapshot is a function of the
/// particle values and the step alone; two value-identical collections
/// step to identical collections.
pub proof fn lemma_step_deterministic(a: Seq<Particle>, b: Seq<Particle>, dt: int)
    requires
        a == b,
    ensures
        step_spec(a, dt) == step_spec(b, dt),
{
}

/// A lone particle at rest feels no force (the sweep skips the particle
/// itself) and one step leaves it exactly in place.
pub proof fn lemma_lone_rest_particle_fixed(p: Particle, dt: int)
    requires
        p.wf(),
        p.vx == 0,
        p.vy == 0,
        p.ax == 0,
        p.ay == 0,
        1 <= dt <= DT_LIMIT,
    ensures
        step_spec(seq![p], dt) == seq![p],
{
    let s = seq![p];
    assert((p.ax as int) * dt == 0) by (nonlinear_arith)
        requires
            p.ax as int == 0,
    ;
    assert((p.ay as int) * dt == 0) by (nonlinear_arith)
        requires
            p.ay as int == 0,
    ;
    let vx1 = crate::leapfrog::kick(p.vx as int, p.ax as int, dt);
    let vy1 = crate::leapfrog::kick(p.vy as int, p.ay as int, dt);
    assert(crate::num::div_down(0, 2000) == 0);
    assert(vx1 == 0 && vy1 == 0);
    assert(0 * dt == 0) by (nonlinear_arith);
    assert(crate::num::div_down(0, 1000) == 0);
    assert(crate::leapfrog::drift(p.px as int, vx1, dt) == p.px);
    assert(crate::leapfrog::drift(p.py as int, vy1, dt) == p.py);
    assert(accel_prefix(p, s, 0, 1) == accel_prefix(p, s, 0, 0));
    assert(accel_prefix(p, s, 0, 0) == (0int, 0int));
    assert(accel_on_spec(p, s, 0) == (0int, 0int));
    assert(advanced(p, s, 0, dt) == p);
    assert(step_spec(s, dt) =~= s);
}

} // verus!
