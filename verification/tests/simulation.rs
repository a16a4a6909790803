use solar_system::sim::{Simulation, make_orbiter, orbital_speed, CENTER_X, CENTER_Y};
use solar_system::particle::Particle;

#[test]
fn reset_shape_is_one_plus_count() {
    let mut s = Simulation::new();
    assert_eq!(s.particles.len(), 101);
    s.set_particle_count(25);
    s.reset();
    assert_eq!(s.particles.len(), 26);
    let central = s.particles[0];
    assert_eq!(central.px, CENTER_X);
    assert_eq!(central.py, CENTER_Y);
    assert_eq!(central.vx, 0);
    assert_eq!(central.vy, 0);
    assert_eq!(central.mass, 1_000_000);
}

#[test]
fn reset_orbiters_move_tangentially() {
    let mut s = Simulation::new();
    s.reset();
    assert_eq!(s.particles.len(), 101);
    for i in 1..s.particles.len() {
        let p = s.particles[i];
        let rx = (p.px - CENTER_X) as i128;
        let ry = (p.py - CENTER_Y) as i128;
        let dot = rx * p.vx as i128 + ry * p.vy as i128;
        assert_eq!(dot, 0);
        assert!(1000 <= p.mass && p.mass < 5000);
        assert_eq!(p.ax, 0);
        assert_eq!(p.ay, 0);
    }
}

#[test]
fn orbital_speed_matches_circular_law() {
    // sqrt(G * 1000 / 200) = sqrt(5) = 2.236..., milli-scaled 2236.
    assert_eq!(orbital_speed(1_000_000, 200_000, 1000), 2236);
    // Doubling the multiplier doubles the speed (up to the shared floor).
    assert_eq!(orbital_speed(1_000_000, 200_000, 2000), 4472);
}

#[test]
fn orbiter_velocity_is_orthogonal_and_scaled() {
    let p = make_orbiter(200_000, 800, -600, 3000, 1000);
    assert_eq!(p.px, CENTER_X + 200_000 * 800);
    assert_eq!(p.py, CENTER_Y + 200_000 * -600);
    assert_eq!(p.vx, 600_000);
    assert_eq!(p.vy, 800_000);
    let dot = (p.px - CENTER_X) as i128 * p.vx as i128 + (p.py - CENTER_Y) as i128 * p.vy as i128;
    assert_eq!(dot, 0);
    let v2 = p.vx as i128 * p.vx as i128 + p.vy as i128 * p.vy as i128;
    assert_eq!(v2, 1000i128 * 1000 * (800 * 800 + 600 * 600));
}

#[test]
fn step_is_deterministic() {
    let build = || {
        let mut s = Simulation::new();
        s.set_particle_count(0);
        s.set_central_mass(1_000_000);
        s.reset();
        s.add_large_mass(900_000_000, 600_000_000);
        s.add_large_mass(700_000_000, 500_000_000);
        s.set_paused(false);
        s
    };
    let mut a = build();
    let mut b = build();
    a.step(16);
    b.step(16);
    assert_eq!(a.particles, b.particles);
    a.step(16);
    b.step(16);
    assert_eq!(a.particles, b.particles);
}

#[test]
fn step_two_bodies_exact() {
    let mut s = Simulation::new();
    s.set_particle_count(0);
    s.set_central_mass(1_000_000);
    s.reset();
    s.add_large_mass(900_000_000, 600_000_000);
    s.set_paused(false);
    s.step(16);
    let c = s.particles[0];
    assert_eq!((c.px, c.py), (800_000_000, 600_000_000));
    assert_eq!((c.vx, c.vy), (239, 0));
    assert_eq!((c.ax, c.ay), (29986, 0));
    let o = s.particles[1];
    assert_eq!((o.px, o.py), (900_000_000, 600_000_000));
    assert_eq!((o.vx, o.vy), (-799, 0));
    assert_eq!((o.ax, o.ay), (-99955, 0));
}

#[test]
fn pause_gates_every_tick() {
    let mut s = Simulation::new();
    assert!(s.paused);
    let before = s.particles.clone();
    s.tick();
    s.tick();
    s.tick();
    assert_eq!(s.particles, before);
    s.step(16);
    assert_eq!(s.particles, before);
}

#[test]
fn lone_central_particle_stays_at_rest() {
    let mut s = Simulation::new();
    s.set_particle_count(0);
    s.set_central_mass(1_000_000);
    s.reset();
    assert_eq!(s.particles.len(), 1);
    let p = s.particles[0];
    assert_eq!((p.px, p.py), (CENTER_X, CENTER_Y));
    assert_eq!((p.vx, p.vy), (0, 0));
    s.set_paused(false);
    s.step(16);
    assert_eq!(s.particles[0], p);
}

#[test]
fn add_large_mass_appends_at_rest() {
    let mut s = Simulation::new();
    let n = s.particles.len();
    s.add_large_mass(100_000_000, 50_000_000);
    assert_eq!(s.particles.len(), n + 1);
    let p = s.particles[n];
    assert_eq!(p.px, 100_000_000);
    assert_eq!(p.py, 50_000_000);
    assert_eq!((p.vx, p.vy), (0, 0));
    // A hundred times the default mass control of 3000.
    assert_eq!(p.mass, 300_000);
    assert_eq!(p.radius, 5_530_000);
}

#[test]
fn mass_setting_drives_sampling_range() {
    let mut s = Simulation::new();
    s.set_mass_setting(10_000);
    assert_eq!(s.mass_min, 5_000);
    assert_eq!(s.mass_max, 15_000);
    s.set_particle_count(20);
    s.reset();
    for i in 1..s.particles.len() {
        let m = s.particles[i].mass;
        assert!(5_000 <= m && m < 15_000);
    }
}

#[test]
fn particle_radius_law() {
    let p = Particle::new(0, 0, 1000);
    // Mass of one world unit: the law's floor of two units wins.
    assert_eq!(p.radius, 2_000_000);
    let q = Particle::new(0, 0, 100_000);
    // 100^0.3 = 3.98...: centi-scaled tenth root of the cubed mass.
    assert_eq!(q.radius, 3_980_000);
    assert_eq!((q.vx, q.vy, q.ax, q.ay), (0, 0, 0, 0));
    let c = Particle::new(0, 0, 1_000_000);
    // 1000^0.9 over the tenth root: 7.94 world units.
    assert_eq!(c.radius, 7_940_000);
}
