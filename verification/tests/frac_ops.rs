//! Fixed-point arithmetic: exact values, saturation, and an exhaustive
//! comparison against the reference fixed-point implementation.

use fixed::types::I1F7;
use melee_vpad::Frac;

#[test]
fn zero_max_min() {
    assert_eq!(Frac::zero().raw, 0);
    assert_eq!(Frac::max_val().raw, 127);
    assert_eq!(Frac::min_val().raw, -128);
}

#[test]
fn saturating_add_plain() {
    let a = Frac { raw: 40 };
    let b = Frac { raw: 50 };
    assert_eq!(a.saturating_add(b).raw, 90);
    let c = Frac { raw: -60 };
    assert_eq!(a.saturating_add(c).raw, -20);
}

#[test]
fn saturating_add_clamps_high() {
    let a = Frac { raw: 100 };
    assert_eq!(a.saturating_add(a).raw, 127);
}

#[test]
fn saturating_add_clamps_low() {
    let a = Frac { raw: -100 };
    assert_eq!(a.saturating_add(a).raw, -128);
}

#[test]
fn saturating_mul_rounds_toward_negative_infinity() {
    // 127/128 * 48/128 = 47.625/128, rounded down to 47/128.
    assert_eq!(Frac { raw: 127 }.saturating_mul(Frac { raw: 48 }).raw, 47);
    // -127/128 * 48/128 = -47.625/128, rounded down to -48/128.
    assert_eq!(Frac { raw: -127 }.saturating_mul(Frac { raw: 48 }).raw, -48);
    // -128/128 * 40/128 = -40/128 exactly.
    assert_eq!(Frac { raw: -128 }.saturating_mul(Frac { raw: 40 }).raw, -40);
}

#[test]
fn saturating_mul_saturates_only_at_full_negative_square() {
    // -1.0 * -1.0 = +1.0 is not representable and saturates to 127/128.
    assert_eq!(Frac { raw: -128 }.saturating_mul(Frac { raw: -128 }).raw, 127);
}

#[test]
fn mul_by_zero_is_zero() {
    for raw in -128..=127i16 {
        let f = Frac { raw: raw as i8 };
        assert_eq!(f.saturating_mul(Frac { raw: 0 }).raw, 0);
        assert_eq!(Frac { raw: 0 }.saturating_mul(f).raw, 0);
    }
}

#[test]
fn matches_reference_fixed_point_exhaustively() {
    // Frac mirrors I1F7 (1 sign/integer bit, 7 fractional bits); its two
    // saturating operations must agree bit for bit on every operand pair.
    for a in -128..=127i16 {
        for b in -128..=127i16 {
            let fa = Frac { raw: a as i8 };
            let fb = Frac { raw: b as i8 };
            let ra = I1F7::from_bits(a as i8);
            let rb = I1F7::from_bits(b as i8);
            assert_eq!(
                fa.saturating_add(fb).raw,
                ra.saturating_add(rb).to_bits(),
                "add {a} {b}"
            );
            assert_eq!(
                fa.saturating_mul(fb).raw,
                ra.saturating_mul(rb).to_bits(),
                "mul {a} {b}"
            );
        }
    }
}
