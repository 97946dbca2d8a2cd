use tokio_pulse::single::{clamp_to_unit, exceeds, round_to_single, ONE_BITS};
use tokio_pulse::text::{decimal_text, signed_decimal_text};
use tokio_pulse::tier_manager::context::scale;

#[test]
fn decimals_agree_with_the_standard_library() {
    for n in [0, 1, 9, 10, 99, 100, 1_234_567_890, u64::MAX] {
        assert_eq!(decimal_text(n), n.to_string());
    }
    for n in [0, 7, -7, 10, -10, i32::MAX, i32::MIN] {
        assert_eq!(signed_decimal_text(n), n.to_string());
    }
}

#[test]
fn rounding_agrees_with_single_precision() {
    fastrand::seed(5);
    for x in [0u128, 1, (1 << 24) - 1, 1 << 24, (1 << 24) + 1, (1 << 24) + 3, u64::MAX as u128] {
        assert_eq!(round_to_single(x), x as f32 as u128, "{}", x);
    }
    for _ in 0..20_000 {
        let x = fastrand::u64(..) >> fastrand::u32(0..64);
        assert_eq!(round_to_single(x as u128), x as f32 as u128, "{}", x);
    }
}

#[test]
fn comparison_agrees_with_single_precision() {
    let values = [
        0.0f32,
        -0.0,
        1.0,
        -1.0,
        0.85,
        f32::MIN_POSITIVE,
        1e-45,
        -1e-45,
        f32::MAX,
        f32::INFINITY,
        f32::NEG_INFINITY,
        f32::NAN,
        -f32::NAN,
    ];
    for a in values {
        for b in values {
            assert_eq!(exceeds(a.to_bits(), b.to_bits()), a > b, "{} {}", a, b);
        }
    }
    fastrand::seed(6);
    for _ in 0..20_000 {
        let (a, b) = (fastrand::u32(..), fastrand::u32(..));
        assert_eq!(exceeds(a, b), f32::from_bits(a) > f32::from_bits(b));
    }
}

#[test]
fn clamping_agrees_with_single_precision() {
    assert_eq!(ONE_BITS, 1.0f32.to_bits());
    for x in [-3.0f32, -0.0, 0.0, 0.25, 1.0, 1.25, f32::INFINITY, f32::NEG_INFINITY, f32::NAN] {
        assert_eq!(clamp_to_unit(x.to_bits()), x.clamp(0.0, 1.0).to_bits(), "{}", x);
    }
}

#[test]
fn scaling_agrees_with_single_precision() {
    fastrand::seed(9);
    for quarters in [1, 2, 4, 8, 16] {
        for value in [0, 1, 2, 3, 5, 99, 2000, 16_777_217, u32::MAX - 1, u32::MAX] {
            let expected = ((value as f32 * (quarters as f32 / 4.0)) as u32).max(1);
            assert_eq!(scale(value, quarters), expected, "{} {}", value, quarters);
        }
        for _ in 0..5_000 {
            let value = fastrand::u32(..) >> fastrand::u32(0..32);
            let expected = ((value as f32 * (quarters as f32 / 4.0)) as u32).max(1);
            assert_eq!(scale(value, quarters), expected, "{} {}", value, quarters);
        }
    }
}
