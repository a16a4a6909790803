use solar_system::gravity::{acceleration_on, softening_from};
use solar_system::num::{isqrt, tenth_root, floor_log10, clamp_i128, div_trunc};
use solar_system::particle::Particle;
use solar_system::trig::{sin_milli, cos_milli};

#[test]
fn overlapping_pair_exerts_no_force() {
    // Two particles one world unit apart, radii two units each: the
    // near-field cutoff suppresses the pair entirely.
    let a = Particle::new(800_000_000, 600_000_000, 1000);
    let b = Particle::new(801_000_000, 600_000_000, 1000);
    let snap = vec![a, b];
    assert_eq!(acceleration_on(&a, &snap, 0), (0, 0));
    assert_eq!(acceleration_on(&b, &snap, 1), (0, 0));
}

#[test]
fn gravity_pulls_toward_the_other_body() {
    // A heavy central body 100 world units to the left of the target:
    // softening is 3 (magnitude of mass 1000), squared separation
    // 10^16 + 3*10^12 on the micro scale.
    let central = Particle::new(800_000_000, 600_000_000, 1_000_000);
    let target = Particle::new(900_000_000, 600_000_000, 1000);
    let snap = vec![central, target];
    let acc = acceleration_on(&target, &snap, 1);
    assert_eq!(acc, (-99955, 0));
    // The pull on the central body from the light target is far weaker.
    let back = acceleration_on(&central, &snap, 0);
    assert_eq!(back.1, 0);
    assert!(0 < back.0 && back.0 < 99955);
}

#[test]
fn momentum_balance_up_to_truncation() {
    // Newton's third law holds of the pair up to the shared truncating
    // division: mass times acceleration balances across the pair within
    // one rounding unit per side.
    let central = Particle::new(800_000_000, 600_000_000, 1_000_000);
    let target = Particle::new(900_000_000, 600_000_000, 1000);
    let snap = vec![central, target];
    let on_target = acceleration_on(&target, &snap, 1);
    let on_central = acceleration_on(&central, &snap, 0);
    let p_target = target.mass as i128 * on_target.0 as i128;
    let p_central = central.mass as i128 * on_central.0 as i128;
    let imbalance = (p_target + p_central).abs();
    // Each truncation loses under one unit, scaled by the heavier mass.
    assert!(imbalance <= central.mass as i128 + target.mass as i128);
    assert_eq!(on_target.1, 0);
    assert_eq!(on_central.1, 0);
}

#[test]
fn acceleration_skips_only_the_given_index() {
    // The same field value at another index is still a source: skipping
    // goes by index, not by value.
    let a = Particle::new(800_000_000, 600_000_000, 1_000_000);
    let b = Particle::new(900_000_000, 600_000_000, 1_000_000);
    let snap = vec![a, b];
    let on_a = acceleration_on(&a, &snap, 0);
    assert!(on_a.0 > 0);
    assert_eq!(on_a.1, 0);
}

#[test]
fn softening_is_the_decimal_magnitude_of_the_seed_mass() {
    assert_eq!(softening_from(1_000_000), 3_000_000_000_000);
    assert_eq!(softening_from(1000), 0);
    assert_eq!(softening_from(999), -1_000_000_000_000);
    assert_eq!(softening_from(1), -3_000_000_000_000);
    assert_eq!(softening_from(100_000_000), 5_000_000_000_000);
}

#[test]
fn integer_square_root_brackets() {
    assert_eq!(isqrt(0), 0);
    assert_eq!(isqrt(1), 1);
    assert_eq!(isqrt(10), 3);
    assert_eq!(isqrt(10_003_000_000_000_000), 100_014_998);
    assert_eq!(isqrt(u64::MAX as u128), 4_294_967_295);
}

#[test]
fn integer_tenth_root_brackets() {
    assert_eq!(tenth_root(0), 0);
    assert_eq!(tenth_root(1023), 1);
    assert_eq!(tenth_root(1024), 2);
    assert_eq!(tenth_root(100_000_000_000_000_000_000_000_000_000_000_000), 3162);
}

#[test]
fn decimal_magnitude() {
    assert_eq!(floor_log10(1), 0);
    assert_eq!(floor_log10(9), 0);
    assert_eq!(floor_log10(10), 1);
    assert_eq!(floor_log10(99_999_999), 7);
    assert_eq!(floor_log10(100_000_000), 8);
}

#[test]
fn saturation_and_truncation() {
    assert_eq!(clamp_i128(5, 10), 5);
    assert_eq!(clamp_i128(-50, 10), -10);
    assert_eq!(clamp_i128(50, 10), 10);
    assert_eq!(div_trunc(7, 2), 3);
    assert_eq!(div_trunc(-7, 2), -3);
}

#[test]
fn milli_sine_and_cosine() {
    assert_eq!(sin_milli(0), 0);
    assert_eq!(sin_milli(1571), 1000);
    assert_eq!(sin_milli(3142), 0);
    assert_eq!(sin_milli(4713), -1000);
    assert_eq!(cos_milli(0), 1000);
    assert_eq!(cos_milli(1571), 0);
    assert_eq!(cos_milli(3142), -1000);
}
