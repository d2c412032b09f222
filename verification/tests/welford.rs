use rustcore::arithmetic::Arithmetic;
use rustcore::scalar::{LAMBDA, ONE};
use rustcore::welford::update;

/// IEEE 754 arithmetic as the machine does it.
struct Ieee;

impl Arithmetic for Ieee {
    fn sum(&self, a: u64, b: u64) -> u64 {
        (f64::from_bits(a) + f64::from_bits(b)).to_bits()
    }

    fn difference(&self, a: u64, b: u64) -> u64 {
        (f64::from_bits(a) - f64::from_bits(b)).to_bits()
    }

    fn product(&self, a: u64, b: u64) -> u64 {
        (f64::from_bits(a) * f64::from_bits(b)).to_bits()
    }

    fn quotient(&self, a: u64, b: u64) -> u64 {
        (f64::from_bits(a) / f64::from_bits(b)).to_bits()
    }

    fn from_integer(&self, n: i128) -> u64 {
        (n as f64).to_bits()
    }

    fn narrow(&self, x: u64) -> u32 {
        (f64::from_bits(x) as f32).to_bits()
    }

    fn sum32(&self, a: u32, b: u32) -> u32 {
        (f32::from_bits(a) + f32::from_bits(b)).to_bits()
    }
}

/// Arithmetic on the integers modulo two to the power of 64, in which the
/// steps of a formula can be followed by hand.
struct Modular;

impl Arithmetic for Modular {
    fn sum(&self, a: u64, b: u64) -> u64 {
        a.wrapping_add(b)
    }

    fn difference(&self, a: u64, b: u64) -> u64 {
        a.wrapping_sub(b)
    }

    fn product(&self, a: u64, b: u64) -> u64 {
        a.wrapping_mul(b)
    }

    fn quotient(&self, a: u64, b: u64) -> u64 {
        a / b
    }

    fn from_integer(&self, n: i128) -> u64 {
        n as u64
    }

    fn narrow(&self, x: u64) -> u32 {
        x as u32
    }

    fn sum32(&self, a: u32, b: u32) -> u32 {
        a.wrapping_add(b)
    }
}

fn step(mean: f64, var: f64, value: f64, lambda: f64) -> (f64, f64) {
    let mut m = mean.to_bits();
    let mut v = var.to_bits();
    update(&mut m, &mut v, value.to_bits(), lambda.to_bits(), &Ieee);
    (f64::from_bits(m), f64::from_bits(v))
}

#[test]
fn first_step_from_zero() {
    let (mean, var) = step(0.0, 0.0, 10.0, 0.995);
    assert_eq!(mean, (1.0 - 0.995) * 10.0);
    assert_eq!(var, 0.995 * ((1.0 - 0.995) * 10.0 * 10.0));
    assert!((mean - 0.05).abs() < 1e-12);
    assert!((var - 0.4975).abs() < 1e-12);
}

#[test]
fn step_in_exact_arithmetic() {
    assert_eq!(step(2.0, 3.0, 6.0, 0.5), (4.0, 5.5));
    assert_eq!(step(4.0, 8.0, 0.0, 0.75), (3.0, 9.0));
    assert_eq!(step(1.0, 1.0, 1.0, 0.25), (1.0, 0.25));
    assert_eq!(step(-1.0, 0.0, 1.0, 0.0), (1.0, 0.0));
    assert_eq!(step(5.0, 7.0, 9.0, 1.0), (5.0, 7.0));
}

#[test]
fn step_follows_the_formula() {
    let cases = [
        (0.0, 0.0, 1.0, 0.995),
        (0.05, 0.4975, -3.0, 0.995),
        (123.456, 78.9, 1e6, 0.9),
        (-7.25, 0.001, -7.25, 0.5),
        (1e-9, 1e12, 3.5, 0.999999),
    ];
    for (mean, var, value, lambda) in cases {
        let delta = value - mean;
        let expected_mean = mean + (1.0 - lambda) * delta;
        let expected_var = lambda * (var + (1.0 - lambda) * delta * delta);
        assert_eq!(step(mean, var, value, lambda), (expected_mean, expected_var));
    }
}

#[test]
fn step_is_repeatable() {
    let a = step(0.3, 0.7, 11.0, 0.995);
    let b = step(0.3, 0.7, 11.0, 0.995);
    assert_eq!(a.0.to_bits(), b.0.to_bits());
    assert_eq!(a.1.to_bits(), b.1.to_bits());
}

#[test]
fn warm_up_starts_at_zero() {
    let mut mean = 0.0;
    let mut var = 0.0;
    for _ in 0..3 {
        let next = step(mean, var, 100.0, f64::from_bits(LAMBDA));
        mean = next.0;
        var = next.1;
    }
    assert!(mean > 1.4 && mean < 1.5);
    assert!(var > 0.0);
}

#[test]
fn step_is_stated_over_the_operations_it_is_given() {
    let mut mean: u64 = 10;
    let mut var: u64 = 3;
    update(&mut mean, &mut var, 14, 5, &Modular);
    let delta: u64 = 4;
    let weight = ONE.wrapping_sub(5);
    let gain = weight.wrapping_mul(delta);
    assert_eq!(mean, 10u64.wrapping_add(gain));
    assert_eq!(var, 5u64.wrapping_mul(3u64.wrapping_add(gain.wrapping_mul(delta))));
}
