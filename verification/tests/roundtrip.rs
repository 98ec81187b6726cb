//! Round-trip and shortest-length checks over sampled bit patterns, with
//! the `ryu` formatter as an independent oracle for the digit count.

use ryu_floating_decimal::d2d;
use ryu_floating_decimal::f2d;

fn decimal_string_64(sign: bool, mantissa: u64, exponent: i32) -> String {
    if sign {
        format!("-{}e{}", mantissa, exponent)
    } else {
        format!("{}e{}", mantissa, exponent)
    }
}

fn check_double(bits: u64) {
    let fd = d2d(bits);
    let s = decimal_string_64(fd.sign, fd.mantissa, fd.exponent);
    let back: f64 = s.parse().unwrap();
    assert_eq!(back.to_bits(), bits, "round trip through {}", s);
    // Canonical form.
    assert!(fd.mantissa == 0 || fd.mantissa % 10 != 0, "{}", s);
    // No shorter mantissa round-trips: the nearest candidates with one
    // digit fewer are the truncated mantissa and its successor.
    if fd.mantissa >= 10 {
        for cand in [fd.mantissa / 10, fd.mantissa / 10 + 1] {
            let t = decimal_string_64(fd.sign, cand, fd.exponent + 1);
            let shorter: f64 = t.parse().unwrap();
            assert_ne!(shorter.to_bits(), bits, "shorter {} also round-trips", t);
        }
    }
}

fn check_float(bits: u32) {
    let fd = f2d(bits);
    let s = decimal_string_64(fd.sign, fd.mantissa as u64, fd.exponent);
    let back: f32 = s.parse().unwrap();
    assert_eq!(back.to_bits(), bits, "round trip through {}", s);
    assert!(fd.mantissa == 0 || fd.mantissa % 10 != 0, "{}", s);
    if fd.mantissa >= 10 {
        for cand in [fd.mantissa / 10, fd.mantissa / 10 + 1] {
            let t = decimal_string_64(fd.sign, cand as u64, fd.exponent + 1);
            let shorter: f32 = t.parse().unwrap();
            assert_ne!(shorter.to_bits(), bits, "shorter {} also round-trips", t);
        }
    }
}

fn significant_digits(formatted: &str) -> usize {
    let s = formatted.trim_start_matches('-');
    let digits: &str = s.split('e').next().unwrap();
    let joined: String = digits.chars().filter(|c| c.is_ascii_digit()).collect();
    let trimmed = joined.trim_start_matches('0').trim_end_matches('0');
    if trimmed.is_empty() {
        1
    } else {
        trimmed.len()
    }
}

fn digit_count_u64(mut v: u64) -> usize {
    let mut n = 1;
    while v >= 10 {
        v /= 10;
        n += 1;
    }
    n
}

#[test]
fn double_round_trip_sampled() {
    // Deterministic linear-congruential walk over the bit patterns.
    let mut x: u64 = 0x243f6a8885a308d3;
    for _ in 0..20000 {
        x = x.wrapping_mul(6364136223846793005).wrapping_add(1442695040888963407);
        let exp_field = (x >> 52) & 0x7ff;
        if exp_field == 0x7ff {
            continue;
        }
        check_double(x);
    }
}

#[test]
fn double_round_trip_boundaries() {
    let mut cases: Vec<u64> = vec![
        0,
        1,
        2,
        0x000fffffffffffff,          // largest subnormal
        0x0010000000000000,          // smallest normal
        0x0010000000000001,
        0x001fffffffffffff,
        0x7fefffffffffffff,          // largest finite
        0x3ff0000000000000,          // 1.0
        0x3ff0000000000001,
        0x3fefffffffffffff,
        0x4000000000000000,
        0x0000000000000005,
        0x8000000000000001,          // negative smallest subnormal
    ];
    // Subnormal sweep and per-exponent smallest/largest significands.
    for m in 0..2000u64 {
        cases.push(m);
        cases.push(0x8000000000000000 | m);
    }
    for e in 1..2047u64 {
        if e == 0x7ff {
            continue;
        }
        cases.push(e << 52);
        cases.push((e << 52) | 1);
        cases.push((e << 52) | 0xfffffffffffff);
    }
    for bits in cases {
        if (bits >> 52) & 0x7ff != 0x7ff {
            check_double(bits);
        }
    }
}

#[test]
fn float_round_trip_sampled() {
    // Fixed stride that is coprime with the space of bit patterns.
    let mut bits: u32 = 0;
    for _ in 0..150000 {
        bits = bits.wrapping_add(2654435761);
        if (bits >> 23) & 0xff != 0xff {
            check_float(bits);
        }
    }
}

#[test]
fn float_round_trip_boundaries() {
    let mut cases: Vec<u32> = vec![
        0, 1, 2, 0x007fffff, 0x00800000, 0x00800001, 0x7f7fffff, 0x3f800000,
        0x80000001,
    ];
    for m in 0..5000u32 {
        cases.push(m);
        cases.push(0x80000000 | m);
    }
    for e in 1..255u32 {
        if e == 0xff {
            continue;
        }
        cases.push(e << 23);
        cases.push((e << 23) | 1);
        cases.push((e << 23) | 0x7fffff);
    }
    for bits in cases {
        if (bits >> 23) & 0xff != 0xff {
            check_float(bits);
        }
    }
}

#[test]
fn digit_count_matches_reference_formatter() {
    let mut buffer = ryu::Buffer::new();
    let mut x: u64 = 0x13198a2e03707344;
    for _ in 0..5000 {
        x = x.wrapping_mul(6364136223846793005).wrapping_add(1442695040888963407);
        let exp_field = (x >> 52) & 0x7ff;
        if exp_field == 0x7ff {
            continue;
        }
        let v = f64::from_bits(x);
        let fd = d2d(x);
        let reference = significant_digits(buffer.format_finite(v));
        let ours = if fd.mantissa == 0 {
            1
        } else {
            digit_count_u64(fd.mantissa)
        };
        assert_eq!(ours, reference, "digit count for {}", v);
    }
    let mut bits: u32 = 7;
    for _ in 0..50000 {
        bits = bits.wrapping_add(2654435761);
        if (bits >> 23) & 0xff == 0xff {
            continue;
        }
        let v = f32::from_bits(bits);
        let fd = f2d(bits);
        let reference = significant_digits(buffer.format_finite(v));
        let ours = if fd.mantissa == 0 {
            1
        } else {
            digit_count_u64(fd.mantissa as u64)
        };
        assert_eq!(ours, reference, "digit count for {}", v);
    }
}
