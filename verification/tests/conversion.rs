//! Concrete conversion scenarios: known values, signs, zeros, subnormals,
//! and canonical form of the produced mantissa.

use ryu_floating_decimal::d2d;
use ryu_floating_decimal::f2d;

#[test]
fn double_pi_ish() {
    let fd = d2d(3.14f64.to_bits());
    assert!(!fd.sign);
    assert_eq!(fd.mantissa, 314);
    assert_eq!(fd.exponent, -2);
}

#[test]
fn float_example() {
    let fd = f2d(12.091f32.to_bits());
    assert!(!fd.sign);
    assert_eq!(fd.mantissa, 12091);
    assert_eq!(fd.exponent, -3);
}

#[test]
fn double_positive_zero() {
    let fd = d2d(0.0f64.to_bits());
    assert!(!fd.sign);
    assert_eq!(fd.mantissa, 0);
    assert_eq!(fd.exponent, 0);
}

#[test]
fn double_negative_zero() {
    let fd = d2d((-0.0f64).to_bits());
    assert!(fd.sign);
    assert_eq!(fd.mantissa, 0);
    assert_eq!(fd.exponent, 0);
}

#[test]
fn float_zeros() {
    let pz = f2d(0.0f32.to_bits());
    assert!(!pz.sign);
    assert_eq!(pz.mantissa, 0);
    assert_eq!(pz.exponent, 0);
    let nz = f2d((-0.0f32).to_bits());
    assert!(nz.sign);
    assert_eq!(nz.mantissa, 0);
    assert_eq!(nz.exponent, 0);
}

#[test]
fn double_one() {
    let fd = d2d(1.0f64.to_bits());
    assert!(!fd.sign);
    assert_eq!(fd.mantissa, 1);
    assert_eq!(fd.exponent, 0);
}

#[test]
fn double_smallest_subnormal() {
    // Exponent field zero, mantissa field one.
    let fd = d2d(1u64);
    assert!(!fd.sign);
    assert_eq!(fd.mantissa, 5);
    assert_eq!(fd.exponent, -324);
}

#[test]
fn sign_follows_sign_bit() {
    for v in [1.0f64, 2.5, 1e-300, 1e300, 3.14159] {
        assert!(!d2d(v.to_bits()).sign);
        assert!(d2d((-v).to_bits()).sign);
    }
    for v in [1.0f32, 2.5, 1e-40, 1e38, 3.14159] {
        assert!(!f2d(v.to_bits()).sign);
        assert!(f2d((-v).to_bits()).sign);
    }
}

#[test]
fn mantissa_is_canonical() {
    for v in [10.0f64, 100.0, 1e17, 1230.0, 0.000125, 2.0f64.powi(60)] {
        let fd = d2d(v.to_bits());
        assert!(fd.mantissa % 10 != 0, "{} -> {}", v, fd.mantissa);
    }
    for v in [10.0f32, 100.0, 1e8, 1230.0, 0.000125] {
        let fd = f2d(v.to_bits());
        assert!(fd.mantissa % 10 != 0, "{} -> {}", v, fd.mantissa);
    }
}

#[test]
fn known_double_values() {
    let cases: [(f64, u64, i32); 11] = [
        (2.0, 2, 0),
        (0.5, 5, -1),
        (1e100, 1, 100),
        (1e-100, 1, -100),
        (123456789.0, 123456789, 0),
        (2.2250738585072014e-308, 22250738585072014, -324),
        (1.7976931348623157e308, 17976931348623157, 292),
        (0.1, 1, -1),
        (1e23, 1, 23),
        (9007199254740992.0, 9007199254740992, 0),
        (0.3, 3, -1),
    ];
    for (v, m, e) in cases {
        let fd = d2d(v.to_bits());
        assert_eq!((fd.mantissa, fd.exponent), (m, e), "value {}", v);
    }
}

#[test]
fn known_float_values() {
    let cases: [(f32, u32, i32); 8] = [
        (2.0, 2, 0),
        (0.5, 5, -1),
        (1e30, 1, 30),
        (1e-30, 1, -30),
        (3.4028235e38, 34028235, 31),
        (1e-45, 1, -45),
        (0.09375, 9375, -5),
        (1.1754944e-38, 11754944, -45),
    ];
    for (v, m, e) in cases {
        let fd = f2d(v.to_bits());
        assert_eq!((fd.mantissa, fd.exponent), (m, e), "value {}", v);
    }
}
