use astro_float::{BigFloat, Consts, RoundingMode};
use kalk_num::KalkNum;

/// Reads a finite backend value back as a 64-bit machine float: the top two
/// mantissa words give the fraction, scaled by the binary exponent.
fn to_f64(f: &BigFloat) -> f64 {
    if f.is_nan() {
        return f64::NAN;
    }
    if f.is_inf_pos() {
        return f64::INFINITY;
    }
    if f.is_inf_neg() {
        return f64::NEG_INFINITY;
    }
    if f.is_zero() {
        return if f.is_negative() { -0.0 } else { 0.0 };
    }
    let (words, _n, _s, e, _inexact) = f.as_raw_parts().unwrap();
    let len = words.len();
    let base = 18446744073709551616.0f64; // 2^64
    let top = words[len - 1] as f64;
    let next = if len >= 2 { words[len - 2] as f64 } else { 0.0 };
    let frac = top / base + next / (base * base);
    let v = frac * (2.0f64).powi(e);
    if f.is_negative() {
        -v
    } else {
        v
    }
}

fn num_of(x: f64, unit: &str) -> KalkNum {
    KalkNum::new(BigFloat::from_f64(x, 63), unit)
}

#[test]
fn real_path_matches_backend_pow() {
    let r = KalkNum::from_i32(2).pow_without_unit(KalkNum::from_i32(3));
    assert_eq!(to_f64(r.value_ref()), 8.0);
    assert!(!r.has_imaginary());
    // the same computation made directly through the backend primitive
    let mut cc = Consts::new().unwrap();
    let direct = BigFloat::from_i32(2, 63).pow(
        &BigFloat::from_i32(3, 63),
        64,
        RoundingMode::ToEven,
        &mut cc,
    );
    assert!(r.value_ref() == &direct);
}

#[test]
fn negative_zero_imaginary_normalized() {
    let neg_zero = BigFloat::new(64).neg();
    assert!(neg_zero.is_zero() && neg_zero.is_negative());
    let v = KalkNum::new_with_imaginary(BigFloat::from_f64(1.0, 63), "u", neg_zero);
    assert!(v.imaginary_ref().is_zero());
    assert!(!v.imaginary_ref().is_negative());
    let shown = format!("{}", v.imaginary_ref());
    assert!(!shown.starts_with('-'));
}

#[test]
fn negative_one_to_half_is_i() {
    let r = num_of(-1.0, "").pow_without_unit(num_of(0.5, ""));
    assert!(to_f64(r.value_ref()).abs() < 1e-15);
    assert!((to_f64(r.imaginary_ref()) - 1.0).abs() < 1e-15);
}

#[test]
fn complex_path_reduces_to_real() {
    let complex = KalkNum::from_i32(2).pow_complex(KalkNum::from_i32(3));
    let plain = KalkNum::from_i32(2).pow_without_unit(KalkNum::from_i32(3));
    let diff = to_f64(complex.value_ref()) - to_f64(plain.value_ref());
    assert!(diff.abs() < 1e-12);
    assert!(to_f64(complex.imaginary_ref()).abs() < 1e-12);
}

#[test]
fn f64_round_trip() {
    let xs = [
        0.0,
        1.0,
        -1.0,
        0.5,
        3.141592653589793,
        -123456.789,
        1e300,
        1e-300,
        4503599627370495.5,
    ];
    for &x in xs.iter() {
        let v = num_of(x, "");
        assert_eq!(to_f64(v.value_ref()), x);
        assert_eq!(to_f64(v.imaginary_ref()), 0.0);
    }
}

#[test]
fn unit_propagation_without_resolution() {
    let base = num_of(2.0, "m");
    let exponent = num_of(3.0, "s");
    let r = base.pow(None, exponent);
    assert_eq!(r.get_unit(), "s");
    assert_eq!(to_f64(r.value_ref()), 8.0);
}

#[test]
fn pow_with_resolved_unit() {
    let base = num_of(2.0, "m");
    let exponent = num_of(3.0, "s");
    let resolved = num_of(3.0, "J");
    let r = base.pow(Some(resolved), exponent);
    assert_eq!(r.get_unit(), "J");
    assert_eq!(to_f64(r.value_ref()), 8.0);
}

#[test]
fn default_equals_real_zero() {
    let d = KalkNum::default();
    let z = KalkNum::new(BigFloat::new(63), "");
    assert!(d == z);
    assert!(d != KalkNum::from_bool(false));
}

#[test]
fn from_bool_flags() {
    assert_eq!(KalkNum::from_bool(true).boolean(), Some(true));
    assert_eq!(KalkNum::from_bool(false).boolean(), Some(false));
    assert!(KalkNum::from_bool(true) == KalkNum::from_bool(true));
    assert!(KalkNum::from_bool(true) != KalkNum::from_bool(false));
    assert_eq!(KalkNum::from_bool(true).get_unit(), "");
}

#[test]
fn from_imaginary_negative_zero_normalized() {
    let neg_zero = BigFloat::new(64).neg();
    let v = KalkNum::from_imaginary(neg_zero);
    assert!(v.imaginary_ref().is_zero());
    assert!(!v.imaginary_ref().is_negative());
}

#[test]
fn from_imaginary_parts() {
    let v = KalkNum::from_imaginary(BigFloat::from_f64(2.5, 63));
    assert_eq!(to_f64(v.value_ref()), 0.0);
    assert_eq!(to_f64(v.imaginary_ref()), 2.5);
    assert_eq!(v.get_unit(), "");
    assert!(v.has_imaginary());
}

#[test]
fn to_i32_values() {
    assert_eq!(KalkNum::from_i32(7).to_i32(), 7);
    assert_eq!(KalkNum::from_i32(-7).to_i32(), -7);
    assert_eq!(num_of(13.7, "").to_i32(), 14);
    assert_eq!(num_of(13.3, "").to_i32(), 13);
    assert_eq!(num_of(-13.7, "").to_i32(), -14);
    assert_eq!(num_of(0.0, "").to_i32(), 0);
    // halfway values go to the even neighbour
    assert_eq!(num_of(2.5, "").to_i32(), 2);
    assert_eq!(num_of(3.5, "").to_i32(), 4);
    assert_eq!(num_of(-2.5, "").to_i32(), -2);
    assert_eq!(num_of(0.5, "").to_i32(), 0);
    assert_eq!(num_of(1e12, "").to_i32(), i32::MAX);
    assert_eq!(num_of(-1e12, "").to_i32(), i32::MIN);
    assert_eq!(KalkNum::new(astro_float::NAN, "").to_i32(), 0);
}

#[test]
fn integer_conversions_exact() {
    assert_eq!(to_f64(KalkNum::from_i64(1234567890123).value_ref()), 1234567890123.0);
    assert_eq!(to_f64(KalkNum::from_i64(-5).value_ref()), -5.0);
    let big = KalkNum::from_i128(1i128 << 100);
    assert_eq!(to_f64(big.value_ref()), (2.0f64).powi(100));
    assert_eq!(KalkNum::from_i128(-42).to_i32(), -42);
    // a 65-bit integer is rounded to the baseline: halfway, so to the even side
    let rounded = KalkNum::from_i128((1i128 << 64) + 1);
    assert_eq!(to_f64(rounded.value_ref()), (2.0f64).powi(64));
}

#[test]
fn complex_exponent_two_to_i() {
    let r = KalkNum::from_i32(2).pow_without_unit(KalkNum::from_imaginary(BigFloat::from_f64(
        1.0, 63,
    )));
    let ln2 = std::f64::consts::LN_2;
    assert!((to_f64(r.value_ref()) - ln2.cos()).abs() < 1e-12);
    assert!((to_f64(r.imaginary_ref()) - ln2.sin()).abs() < 1e-12);
}

#[test]
fn imaginary_unit_squared() {
    let i = KalkNum::from_imaginary(BigFloat::from_f64(1.0, 63));
    let r = i.pow_without_unit(KalkNum::from_i32(2));
    assert!((to_f64(r.value_ref()) + 1.0).abs() < 1e-15);
    assert!(to_f64(r.imaginary_ref()).abs() < 1e-15);
}

#[test]
fn i_to_the_i_is_real() {
    let i = KalkNum::from_imaginary(BigFloat::from_f64(1.0, 63));
    let exponent = KalkNum::from_imaginary(BigFloat::from_f64(1.0, 63));
    let r = i.pow_without_unit(exponent);
    let expected = (-std::f64::consts::FRAC_PI_2).exp();
    assert!((to_f64(r.value_ref()) - expected).abs() < 1e-12);
    assert!(to_f64(r.imaginary_ref()).abs() < 1e-15);
}

#[test]
fn negative_base_integer_exponent_stays_real() {
    let r = KalkNum::from_i32(-2).pow_without_unit(KalkNum::from_i32(3));
    assert_eq!(to_f64(r.value_ref()), -8.0);
    assert!(!r.has_imaginary());
}

#[test]
fn negative_base_cube_root_principal_branch() {
    let third = BigFloat::from_f64(1.0, 63).div(
        &BigFloat::from_f64(3.0, 63),
        64,
        RoundingMode::ToEven,
    );
    let r = KalkNum::from_i32(-8).pow_without_unit(KalkNum::new(third, ""));
    assert!((to_f64(r.value_ref()) - 1.0).abs() < 1e-10);
    assert!((to_f64(r.imaginary_ref()) - 3.0f64.sqrt()).abs() < 1e-10);
}

#[test]
fn get_unit_returns_tag() {
    assert_eq!(num_of(1.0, "km").get_unit(), "km");
    assert_eq!(num_of(1.0, "").get_unit(), "");
}

#[test]
fn clone_preserves_value() {
    let v = KalkNum::new_with_imaginary(
        BigFloat::from_f64(1.25, 63),
        "kg",
        BigFloat::from_f64(-4.5, 63),
    );
    let w = v.clone();
    assert!(v == w);
    assert_eq!(w.get_unit(), "kg");
}

#[test]
fn imaginary_precision_follows_real() {
    let v = KalkNum::new(BigFloat::from_f64(1.5, 200), "");
    assert_eq!(v.value_ref().mantissa_max_bit_len(), Some(256));
    assert_eq!(v.imaginary_ref().mantissa_max_bit_len(), Some(256));
}

#[test]
fn nan_base_propagates() {
    let r = KalkNum::new(astro_float::NAN, "").pow_without_unit(KalkNum::from_i32(2));
    assert!(r.value_ref().is_nan());
    assert!(!r.has_imaginary());
}
