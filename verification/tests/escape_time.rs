use complex_numbers::CompNum;
use mandelbrot::complex::complex_from_ints;
use mandelbrot::escape::mandelbrot;

#[test]
fn mandelbrot_test() {
    let num_iterations: u32 = 20;

    // Not in the mandelbrot set
    let z1 = CompNum::from(0.25, 0.75);
    assert_ne!(mandelbrot(&z1, num_iterations), num_iterations);

    let z2 = CompNum::from(-1., 0.5);
    assert_ne!(mandelbrot(&z2, num_iterations), num_iterations);

    // In the mandelbrot set
    let z3 = CompNum::from(0., 0.);
    assert_eq!(mandelbrot(&z3, num_iterations), num_iterations);

    let z4 = CompNum::from(1. / 8., -1. / 8.);
    assert_eq!(mandelbrot(&z4, num_iterations), num_iterations);
}

#[test]
fn count_stays_within_budget() {
    let points = [
        CompNum::from(0.3, 0.5),
        CompNum::from(-2.0, 1.0),
        CompNum::from(2.0, 2.0),
        CompNum::from(-0.7, 0.3),
    ];
    let budgets: [u32; 4] = [0, 1, 5, 50];
    for z in &points {
        for &budget in &budgets {
            assert!(mandelbrot(z, budget) <= budget);
        }
    }
}

#[test]
fn budget_zero_returns_zero() {
    let far = CompNum::from(100.0, 100.0);
    assert_eq!(mandelbrot(&far, 0), 0);
    let near = CompNum::from(0.1, 0.1);
    assert_eq!(mandelbrot(&near, 0), 0);
}

#[test]
fn origin_never_escapes() {
    let origin = complex_from_ints(0, 0);
    let budgets: [u32; 5] = [0, 1, 7, 20, 100];
    for &budget in &budgets {
        assert_eq!(mandelbrot(&origin, budget), budget);
    }
    // The same point written with double components.
    let origin_d = CompNum::from(0.0, 0.0);
    assert_eq!(mandelbrot(&origin_d, 35), 35);
}

#[test]
fn escaping_point_count_is_exact() {
    // c = (3, 0) has magnitude 3 > 2, so the orbit seeded with c escapes
    // at the very first check.
    let z = CompNum::from(3.0, 0.0);
    assert_eq!(mandelbrot(&z, 20), 0);
    // c = (-1.9, 0) stays within radius two for one step: the first check
    // passes, the second sees z*z + c = (1.71, 0); that still has
    // magnitude below two, and the orbit wanders on for a while.
    let slow = CompNum::from(-1.9, 0.0);
    assert!(mandelbrot(&slow, 50) > 1);
}
