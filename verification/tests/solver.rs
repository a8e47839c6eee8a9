use orbital_physics::solver::{newton_raphson, NEWTON_ITERATIONS};
use std::cell::RefCell;

fn kepler_root(e: f64, m: f64) -> f64 {
    newton_raphson(m, |ea: f64| ea - (ea - e * ea.sin() - m) / (1.0 - e * ea.cos()))
}

fn residual(e: f64, m: f64) -> f64 {
    let ea: f64 = kepler_root(e, m);
    (ea - e * ea.sin() - m).abs()
}

#[test]
fn the_iteration_count_is_five() {
    assert_eq!(NEWTON_ITERATIONS, 5);
}

#[test]
fn five_corrections_are_applied() {
    let calls: RefCell<usize> = RefCell::new(0);
    let root: u64 = newton_raphson(64u64, |x: u64| {
        *calls.borrow_mut() += 1;
        x / 2
    });
    assert_eq!(*calls.borrow(), 5);
    assert_eq!(root, 2);
}

#[test]
fn each_correction_gets_the_result_before_it() {
    let seen: RefCell<Vec<u32>> = RefCell::new(Vec::new());
    let root: u32 = newton_raphson(1u32, |x: u32| {
        seen.borrow_mut().push(x);
        3 * x + 1
    });
    assert_eq!(*seen.borrow(), vec![1, 4, 13, 40, 121]);
    assert_eq!(root, 364);
}

#[test]
fn no_early_exit_at_a_fixed_point() {
    let calls: RefCell<usize> = RefCell::new(0);
    let root: i32 = newton_raphson(7i32, |x: i32| {
        *calls.borrow_mut() += 1;
        x
    });
    assert_eq!(root, 7);
    assert_eq!(*calls.borrow(), 5);
}

#[test]
fn values_that_cannot_be_copied_are_moved_through() {
    let root: String = newton_raphson(String::from("E"), |s: String| s + "'");
    assert_eq!(root, "E'''''");
}

#[test]
fn circular_orbit_has_eccentric_anomaly_equal_to_mean_anomaly() {
    let m: f64 = 1.25;
    assert_eq!(kepler_root(0.0, m), m);
}

#[test]
fn kepler_residual_is_small_for_moderate_eccentricity() {
    let eccentricities: [f64; 5] = [0.0, 0.1, 0.3, 0.5, 0.7];
    for e in eccentricities {
        for k in 0..64u32 {
            let m: f64 = 2.0 * std::f64::consts::PI * (k as f64) / 64.0;
            assert!(residual(e, m) < 1e-6, "e = {}, M = {}", e, m);
        }
    }
}

#[test]
fn kepler_residual_degrades_near_parabolic_orbits() {
    let worst: f64 = (1..64u32)
        .map(|k: u32| residual(0.99, 0.2 * (k as f64) / 64.0))
        .fold(0.0, f64::max);
    assert!(worst > 1e-6);
}

#[test]
fn solving_twice_gives_the_same_root() {
    assert_eq!(kepler_root(0.4, 2.0).to_bits(), kepler_root(0.4, 2.0).to_bits());
}
