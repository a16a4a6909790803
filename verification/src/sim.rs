//! The simulation: the owned particle collection, the tunable parameters,
//! scenario (re)generation, and the per-frame sweep that advances every
//! particle against one pre-step snapshot.

use vstd::prelude::*;
use vstd::pervasive::VecAdditionalExecFns;
use crate::num::div_down;
use crate::particle::{Particle, radius_matches, POS_LIMIT, MASS_LIMIT};
use crate::leapfrog::{advanced, DT_LIMIT};
use crate::trig::{sin_milli, cos_milli};
use crate::rng::{fresh_rng, sample_range};
use crate::num::isqrt;

verus! {

/// Horizontal centre of the scene, micro-scaled (a 1600-unit window).
pub const CENTER_X: i64 = 800_000_000;

/// Vertical centre of the scene, micro-scaled (a 1200-unit window).
pub const CENTER_Y: i64 = 600_000_000;

/// The fixed base step of one frame, milli-scaled (0.016 time units).
pub const BASE_DT: i64 = 16;

/// The N-body simulation: particle collection, tunable parameters, pause
/// flag.
pub struct Simulation {
    pub particles: Vec<Particle>,
    /// Orbiters created on the next reset.
    pub particle_count: usize,
    /// The mass control, milli-scaled; drives the sampling range and the
    /// mass of particles added by hand.
    pub mass_setting: i64,
    /// Lower bound of the orbiter mass sample, milli-scaled.
    pub mass_min: i64,
    /// Upper bound (exclusive) of the orbiter mass sample, milli-scaled.
    pub mass_max: i64,
    /// Scales the computed circular-orbit speed, milli-scaled.
    pub velocity_multiplier: i64,
    /// Multiplies the base step to give the effective step, milli-scaled.
    pub time_speed: i64,
    /// Mass of the central seed particle, milli-scaled.
    pub central_mass: i64,
    pub paused: bool,
}

/// The central seed particle: at the scene centre, at rest, with mass `m`.
pub open spec fn is_central(p: Particle, m: int) -> bool {
    &&& p.px == CENTER_X
    &&& p.py == CENTER_Y
    &&& p.vx == 0
    &&& p.vy == 0
    &&& p.ax == 0
    &&& p.ay == 0
    &&& p.mass == m
}

/// The velocity stands orthogonal to the radius vector from the scene
/// centre: the particle moves tangentially.
pub open spec fn orbits_center(p: Particle) -> bool {
    (p.px - CENTER_X) * p.vx + (p.py - CENTER_Y) * p.vy == 0
}

/// `p` stands on the circle of radius `dist` around the scene centre at
/// angle `ang`, moving tangentially at the circular-orbit speed for the
/// central mass, scaled by the velocity control.
pub open spec fn placed_at(p: Particle, dist: int, ang: int, central_mass: int, vmult: int) -> bool {
    let ca = crate::trig::cos_milli_spec(ang);
    let sa = crate::trig::sin_milli_spec(ang);
    let speed = (crate::num::sqrt_floor(central_mass * 1_000_000 / dist) * vmult) / 1000;
    &&& p.px == CENTER_X + dist * ca
    &&& p.py == CENTER_Y + dist * sa
    &&& p.vx == -(speed * sa)
    &&& p.vy == speed * ca
}

/// A freshly seeded orbiter: placed on some circle of the sampled range
/// at some angle, tangential, at rest in acceleration, with a sampled
/// mass inside the configured range.
pub open spec fn seeded_orbiter(
    p: Particle,
    mass_min: int,
    mass_max: int,
    central_mass: int,
    vmult: int,
) -> bool {
    &&& exists|dist: int, ang: int|
        100_000 <= dist < 300_000 && 0 <= ang < 6284 && #[trigger] placed_at(
            p,
            dist,
            ang,
            central_mass,
            vmult,
        )
    &&& orbits_center(p)
    &&& p.ax == 0
    &&& p.ay == 0
    &&& mass_min <= p.mass < mass_max
}

/// The whole particle sequence advanced one step of `dt`, every particle
/// against the same pre-step snapshot `ps`.
pub open spec fn step_spec(ps: Seq<Particle>, dt: int) -> Seq<Particle> {
    Seq::new(ps.len(), |i: int| advanced(ps[i], ps, i, dt))
}

/// The step one frame advances the world by: the base step scaled by the
/// time-speed control.
pub open spec fn effective_dt(time_speed: int) -> int {
    div_down(BASE_DT * time_speed, 1000)
}

impl Simulation {
    /// The tunable parameters sit in their working ranges.
    pub open spec fn params_wf(self) -> bool {
        &&& 1000 <= self.central_mass <= MASS_LIMIT
        &&& 1 <= self.mass_min < self.mass_max <= MASS_LIMIT
        &&& 100 <= self.velocity_multiplier <= 5000
        &&& 100 <= self.time_speed <= 10_000
        &&& 1 <= self.mass_setting <= 1_000_000
        &&& self.particle_count <= 1_000_000
    }

    /// Parameters in range, and at least the central particle present,
    /// every particle inside the world bounds.
    pub open spec fn wf(self) -> bool {
        &&& self.params_wf()
        &&& self.particles@.len() >= 1
        &&& forall|i: int| 0 <= i < self.particles@.len() ==> (#[trigger] self.particles@[i]).wf()
    }

    /// `other` carries the same parameters and pause flag as `self`.
    pub open spec fn same_params(self, other: Simulation) -> bool {
        &&& other.particle_count == self.particle_count
        &&& other.mass_setting == self.mass_setting
        &&& other.mass_min == self.mass_min
        &&& other.mass_max == self.mass_max
        &&& other.velocity_multiplier == self.velocity_multiplier
        &&& other.time_speed == self.time_speed
        &&& other.central_mass == self.central_mass
        &&& other.paused == self.paused
    }

    /// A fresh simulation with the default controls, already reset to its
    /// first scenario, paused.
    pub fn new() -> (s: Simulation)
        ensures
            s.wf(),
            s.paused,
            s.particle_count == 100,
            s.mass_setting == 3000,
            s.mass_min == 1000,
            s.mass_max == 5000,
            s.velocity_multiplier == 1000,
            s.time_speed == 1000,
            s.central_mass == 1_000_000,
            s.particles@.len() == 101,
            is_central(s.particles@[0], 1_000_000),
            forall|i: int|
                1 <= i < s.particles@.len() ==> seeded_orbiter(
                    #[trigger] s.particles@[i],
                    1000,
                    5000,
                    1_000_000,
                    1000,
                ),
    {
        let mut s = Simulation {
            particles: Vec::new(),
            particle_count: 100,
            mass_setting: 3000,
            mass_min: 1000,
            mass_max: 5000,
            velocity_multiplier: 1000,
            time_speed: 1000,
            central_mass: 1_000_000,
            paused: true,
        };
        s.reset();
        s
    }

    /// Rebuild the scenario: clear everything, seed the central mass at
    /// the scene centre, then place `particle_count` orbiters on circles
    /// of sampled radius and angle, each with a tangential velocity of the
    /// computed circular-orbit speed times the velocity control.
    pub fn reset(&mut self)
        requires
            old(self).params_wf(),
        ensures
            final(self).wf(),
            old(self).same_params(*final(self)),
            final(self).particles@.len() == 1 + old(self).particle_count,
            is_central(final(self).particles@[0], old(self).central_mass as int),
            radius_matches(old(self).central_mass as int, final(self).particles@[0].radius as int),
            forall|i: int|
                1 <= i < final(self).particles@.len() ==> seeded_orbiter(
                    #[trigger] final(self).particles@[i],
                    old(self).mass_min as int,
                    old(self).mass_max as int,
                    old(self).central_mass as int,
                    old(self).velocity_multiplier as int,
                ),
    {
        self.particles.clear();
        let central = Particle::new(CENTER_X, CENTER_Y, self.central_mass);
        self.particles.push(central);
        let mut rng = fresh_rng();
        let count: usize = self.particle_count;
        let mut i: usize = 0;
        while i < count
            invariant
                old(self).params_wf(),
                old(self).same_params(*self),
                self.particles@.len() == i + 1,
                i <= count,
                count == old(self).particle_count,
                self.particles@[0] == central,
                is_central(central, old(self).central_mass as int),
                radius_matches(old(self).central_mass as int, central.radius as int),
                forall|k: int|
                    0 <= k < self.particles@.len() ==> (#[trigger] self.particles@[k]).wf(),
                forall|k: int|
                    1 <= k < self.particles@.len() ==> seeded_orbiter(
                        #[trigger] self.particles@[k],
                        old(self).mass_min as int,
                        old(self).mass_max as int,
                        old(self).central_mass as int,
                        old(self).velocity_multiplier as int,
                    ),
            decreases count - i,
        {
            let dist = sample_range(&mut rng, 100_000, 300_000);
            let ang = sample_range(&mut rng, 0, 6284);
            let ca = cos_milli(ang);
            let sa = sin_milli(ang);
            let m = sample_range(&mut rng, self.mass_min, self.mass_max);
            let speed = orbital_speed(self.central_mass, dist, self.velocity_multiplier);
            let p = make_orbiter(dist, ca, sa, m, speed);
            proof {
                let cm = old(self).central_mass as int;
                let vm = old(self).velocity_multiplier as int;
                assert(placed_at(p, dist as int, ang as int, cm, vm));
                assert(exists|d: int, a: int|
                    100_000 <= d < 300_000 && 0 <= a < 6284 && #[trigger] placed_at(
                        p,
                        d,
                        a,
                        cm,
                        vm,
                    )) by {
                    assert(placed_at(p, dist as int, ang as int, cm, vm));
                }
            }
            self.particles.push(p);
            i += 1;
        }
    }

    /// Append one particle at `(x, y)`, at rest, with a hundred times the
    /// mass control: an instant perturbation that rebalances nothing.
    pub fn add_large_mass(&mut self, x: i64, y: i64)
        requires
            old(self).wf(),
            -POS_LIMIT <= x <= POS_LIMIT,
            -POS_LIMIT <= y <= POS_LIMIT,
        ensures
            final(self).wf(),
            old(self).same_params(*final(self)),
            final(self).particles@.len() == old(self).particles@.len() + 1,
            forall|i: int|
                0 <= i < old(self).particles@.len() ==> final(self).particles@[i] == old(
                    self,
                ).particles@[i],
            final(self).particles@.last().px == x,
            final(self).particles@.last().py == y,
            final(self).particles@.last().vx == 0,
            final(self).particles@.last().vy == 0,
            final(self).particles@.last().ax == 0,
            final(self).particles@.last().ay == 0,
            final(self).particles@.last().mass == old(self).mass_setting * 100,
    {
        let mass = self.mass_setting * 100;
        let p = Particle::new(x, y, mass);
        self.particles.push(p);
    }

    /// Advance every particle one step of `dt` against a snapshot of the
    /// collection taken before any of them moved; a no-op while paused.
    pub fn step(&mut self, dt: i64)
        requires
            old(self).wf(),
            1 <= dt <= DT_LIMIT,
        ensures
            final(self).wf(),
            old(self).same_params(*final(self)),
            old(self).paused ==> *final(self) == *old(self),
            !old(self).paused ==> final(self).particles@ == step_spec(
                old(self).particles@,
                dt as int,
            ),
    {
        if self.paused {
            return ;
        }
        let snap = clone_particles(&self.particles);
        let n: usize = self.particles.len();
        let mut i: usize = 0;
        while i < n
            invariant
                old(self).wf(),
                old(self).same_params(*self),
                n == self.particles@.len(),
                n == snap@.len(),
                snap@ == old(self).particles@,
                0 <= i <= n,
                1 <= dt <= DT_LIMIT,
                forall|k: int| 0 <= k < n ==> (#[trigger] snap@[k]).wf(),
                forall|k: int|
                    0 <= k < i ==> self.particles@[k] == advanced(
                        snap@[k],
                        snap@,
                        k,
                        dt as int,
                    ),
                forall|k: int| 0 <= k < i ==> (#[trigger] self.particles@[k]).wf(),
                forall|k: int| i <= k < n ==> self.particles@[k] == snap@[k],
            decreases n - i,
        {
            let mut p: Particle = self.particles[i];
            proof {
                assert(p == snap@[i as int]);
                assert(snap@[i as int].wf());
            }
            p.update(dt, &snap, i);
            self.particles.set(i, p);
            i += 1;
        }
        proof {
            assert(self.particles@ =~= step_spec(old(self).particles@, dt as int));
        }
    }

    /// One frame: advance by the base step scaled with the time-speed
    /// control; a no-op while paused.
    pub fn tick(&mut self)
        requires
            old(self).wf(),
        ensures
            final(self).wf(),
            old(self).same_params(*final(self)),
            old(self).paused ==> *final(self) == *old(self),
            !old(self).paused ==> final(self).particles@ == step_spec(
                old(self).particles@,
                effective_dt(old(self).time_speed as int),
            ),
    {
        let dt: i64 = (((BASE_DT as u64) * (self.time_speed as u64)) / 1000) as i64;
        proof {
            assert(1 <= (16 * (self.time_speed as int)) / 1000 && (16 * (self.time_speed as int))
                / 1000 <= 160) by (nonlinear_arith)
                requires
                    100 <= self.time_speed as int <= 10_000,
            ;
        }
        self.step(dt);
    }

    /// Pause or resume; nothing else moves.
    pub fn set_paused(&mut self, value: bool)
        requires
            old(self).wf(),
        ensures
            final(self).wf(),
            final(self).paused == value,
            final(self).particles@ == old(self).particles@,
            final(self).particle_count == old(self).particle_count,
            final(self).mass_setting == old(self).mass_setting,
            final(self).mass_min == old(self).mass_min,
            final(self).mass_max == old(self).mass_max,
            final(self).velocity_multiplier == old(self).velocity_multiplier,
            final(self).time_speed == old(self).time_speed,
            final(self).central_mass == old(self).central_mass,
    {
        self.paused = value;
    }

    /// Set how many orbiters the next reset creates.
    pub fn set_particle_count(&mut self, count: usize)
        requires
            old(self).wf(),
            count <= 1_000_000,
        ensures
            final(self).wf(),
            final(self).particle_count == count,
            final(self).particles@ == old(self).particles@,
            final(self).paused == old(self).paused,
            final(self).mass_setting == old(self).mass_setting,
            final(self).mass_min == old(self).mass_min,
            final(self).mass_max == old(self).mass_max,
            final(self).velocity_multiplier == old(self).velocity_multiplier,
            final(self).time_speed == old(self).time_speed,
            final(self).central_mass == old(self).central_mass,
    {
        self.particle_count = count;
    }

    /// Set the mass control: the sampling range becomes half to one and a
    /// half times the control, and added masses weigh a hundred times it.
    pub fn set_mass_setting(&mut self, value: i64)
        requires
            old(self).wf(),
            2 <= value <= 1_000_000,
        ensures
            final(self).wf(),
            final(self).mass_setting == value,
            final(self).mass_min == value / 2,
            final(self).mass_max == value + value / 2,
            final(self).particles@ == old(self).particles@,
            final(self).paused == old(self).paused,
            final(self).particle_count == old(self).particle_count,
            final(self).velocity_multiplier == old(self).velocity_multiplier,
            final(self).time_speed == old(self).time_speed,
            final(self).central_mass == old(self).central_mass,
    {
        let half: i64 = (((value as u64)) / 2) as i64;
        self.mass_setting = value;
        self.mass_min = half;
        self.mass_max = value + half;
    }

    /// Set the multiplier applied to the computed circular-orbit speed.
    pub fn set_velocity_multiplier(&mut self, value: i64)
        requires
            old(self).wf(),
            100 <= value <= 5000,
        ensures
            final(self).wf(),
            final(self).velocity_multiplier == value,
            final(self).particles@ == old(self).particles@,
            final(self).paused == old(self).paused,
            final(self).particle_count == old(self).particle_count,
            final(self).mass_setting == old(self).mass_setting,
            final(self).mass_min == old(self).mass_min,
            final(self).mass_max == old(self).mass_max,
            final(self).time_speed == old(self).time_speed,
            final(self).central_mass == old(self).central_mass,
    {
        self.velocity_multiplier = value;
    }

    /// Set the factor the base step is scaled by each frame.
    pub fn set_time_speed(&mut self, value: i64)
        requires
            old(self).wf(),
            100 <= value <= 10_000,
        ensures
            final(self).wf(),
            final(self).time_speed == value,
            final(self).particles@ == old(self).particles@,
            final(self).paused == old(self).paused,
            final(self).particle_count == old(self).particle_count,
            final(self).mass_setting == old(self).mass_setting,
            final(self).mass_min == old(self).mass_min,
            final(self).mass_max == old(self).mass_max,
            final(self).velocity_multiplier == old(self).velocity_multiplier,
            final(self).central_mass == old(self).central_mass,
    {
        self.time_speed = value;
    }

    /// Set the mass of the central particle the next reset seeds; at least
    /// one world unit, so the softening term never drives a squared
    /// separation negative on its own scale.
    pub fn set_central_mass(&mut self, value: i64)
        requires
            old(self).wf(),
            1000 <= value <= MASS_LIMIT,
        ensures
            final(self).wf(),
            final(self).central_mass == value,
            final(self).particles@ == old(self).particles@,
            final(self).paused == old(self).paused,
            final(self).particle_count == old(self).particle_count,
            final(self).mass_setting == old(self).mass_setting,
            final(self).mass_min == old(self).mass_min,
            final(self).mass_max == old(self).mass_max,
            final(self).velocity_multiplier == old(self).velocity_multiplier,
            final(self).time_speed == old(self).time_speed,
    {
        self.central_mass = value;
    }
}

/// The circular-orbit speed for an orbiter at `dist` from a central mass,
/// scaled by the velocity control: `sqrt(G * M / d) * multiplier`, on the
/// fixed-point scales.
pub fn orbital_speed(central_mass: i64, dist: i64, multiplier: i64) -> (v: i64)
    requires
        1000 <= central_mass <= MASS_LIMIT,
        100_000 <= dist <= 300_000,
        100 <= multiplier <= 5000,
    ensures
        0 <= v <= 1_000_000,
        v as int == (crate::num::sqrt_floor((central_mass as int) * 1_000_000 / (dist as int))
            * multiplier) / 1000,
{
    let num: u128 = (central_mass as u128) * 1_000_000;
    let t: u128 = num / (dist as u128);
    proof {
        assert(t as int <= 1_000_000_000) by (nonlinear_arith)
            requires
                t as int == (num as int) / (dist as int),
                100_000 <= dist as int,
                0 <= num as int <= 100_000_000_000_000,
        ;
    }
    let vb: u128 = isqrt(t);
    proof {
        assert(vb as int <= 40_000) by (nonlinear_arith)
            requires
                (vb as int) * (vb as int) <= t as int,
                t as int <= 1_000_000_000,
                0 <= vb as int,
        ;
        assert(((vb as int) * (multiplier as int)) / 1000 <= 200_000) by (nonlinear_arith)
            requires
                0 <= vb as int <= 40_000,
                100 <= multiplier as int <= 5000,
        ;
    }
    (((vb as u64) * (multiplier as u64)) / 1000) as i64
}

/// A particle placed at `dist` from the scene centre along the direction
/// `(ca, sa)` (milli-scaled cosine and sine), moving tangentially at
/// `speed`: its velocity is exactly orthogonal to its radius vector.
pub fn make_orbiter(dist: i64, ca: i64, sa: i64, mass: i64, speed: i64) -> (p: Particle)
    requires
        1 <= dist <= 300_000,
        -1000 <= ca <= 1000,
        -1000 <= sa <= 1000,
        1 <= mass <= MASS_LIMIT,
        0 <= speed <= 1_000_000,
    ensures
        p.wf(),
        p.px == CENTER_X + dist * ca,
        p.py == CENTER_Y + dist * sa,
        p.vx == -(speed * sa),
        p.vy == speed * ca,
        p.ax == 0,
        p.ay == 0,
        p.mass == mass,
        radius_matches(mass as int, p.radius as int),
        orbits_center(p),
        p.vx * p.vx + p.vy * p.vy == (speed * speed) * (ca * ca + sa * sa),
{
    proof {
        assert(-300_000_000 <= (dist as int) * (ca as int) && (dist as int) * (ca as int)
            <= 300_000_000 && -300_000_000 <= (dist as int) * (sa as int) && (dist as int) * (sa
            as int) <= 300_000_000) by (nonlinear_arith)
            requires
                1 <= dist as int <= 300_000,
                -1000 <= ca as int <= 1000,
                -1000 <= sa as int <= 1000,
        ;
        assert(-1_000_000_000 <= (speed as int) * (sa as int) && (speed as int) * (sa as int)
            <= 1_000_000_000 && -1_000_000_000 <= (speed as int) * (ca as int) && (speed as int)
            * (ca as int) <= 1_000_000_000) by (nonlinear_arith)
            requires
                0 <= speed as int <= 1_000_000,
                -1000 <= ca as int <= 1000,
                -1000 <= sa as int <= 1000,
        ;
    }
    let px: i64 = CENTER_X + dist * ca;
    let py: i64 = CENTER_Y + dist * sa;
    let vx: i64 = -(speed * sa);
    let vy: i64 = speed * ca;
    let base = Particle::new(px, py, mass);
    let p = Particle {
        px: base.px,
        py: base.py,
        vx,
        vy,
        ax: 0,
        ay: 0,
        mass: base.mass,
        radius: base.radius,
    };
    proof {
        assert(((dist as int) * (ca as int)) * (-((speed as int) * (sa as int))) + ((dist as int)
            * (sa as int)) * ((speed as int) * (ca as int)) == 0) by (nonlinear_arith);
        assert((-((speed as int) * (sa as int))) * (-((speed as int) * (sa as int))) + ((speed
            as int) * (ca as int)) * ((speed as int) * (ca as int)) == ((speed as int) * (speed
            as int)) * ((ca as int) * (ca as int) + (sa as int) * (sa as int)))
            by (nonlinear_arith);
    }
    p
}

/// An element-wise copy: the snapshot the step integrates against.
fn clone_particles(v: &Vec<Particle>) -> (r: Vec<Particle>)
    ensures
        r@ == v@,
{
    let mut r: Vec<Particle> = Vec::new();
    let mut i: usize = 0;
    let n: usize = v.len();
    while i < n
        invariant
            n == v@.len(),
            0 <= i <= n,
            r@ == v@.subrange(0, i as int),
        decreases n - i,
    {
        let p: Particle = v[i];
        r.push(p);
        proof {
            assert(r@ =~= v@.subrange(0, i as int + 1));
        }
        i += 1;
    }
    proof {
        assert(r@ =~= v@);
    }
    r
}

} // verus!
