use nep141_token_convertor_contract::rate_math::{forward, mul_div, reverse};
use nep141_token_convertor_contract::types::ConvertorError;

#[test]
fn forward_rate_ten_to_nine_gives_ninety() {
    // A pool quoted 10:9 turns 100 input units into floor(100 * 9 / 10) = 90.
    assert_eq!(forward(100, 10, 9).unwrap(), 90);
}

#[test]
fn forward_rounds_down() {
    // 7 * 1 / 3 rounds down to 2.
    assert_eq!(mul_div(7, 1, 3).unwrap(), 2);
    assert_eq!(forward(7, 3, 1).unwrap(), 2);
}

#[test]
fn forward_identity_rate() {
    assert_eq!(forward(12345, 1, 1).unwrap(), 12345);
    assert_eq!(reverse(12345, 1, 1).unwrap(), 12345);
}

#[test]
fn reverse_swaps_the_rate_operands() {
    // reverse at 10:9 multiplies by 10 and divides by 9.
    assert_eq!(reverse(90, 10, 9).unwrap(), 100);
    assert_eq!(reverse(100, 10, 9).unwrap(), 111);
}

#[test]
fn round_trip_never_gains_value() {
    for &(amount, in_rate, out_rate) in &[
        (100u128, 10u32, 9u32),
        (7, 3, 1),
        (1, 1000, 1),
        (999_999_999_999, 7, 13),
        (0, 5, 5),
    ] {
        let there = forward(amount, in_rate, out_rate).unwrap();
        let back = reverse(there, in_rate, out_rate).unwrap();
        assert!(back <= amount, "{} -> {} -> {}", amount, there, back);
    }
}

#[test]
fn wide_product_survives_the_trip_through_the_limbs() {
    // The product u128::MAX * 1000 exceeds 128 bits, yet the quotient fits.
    assert_eq!(mul_div(u128::MAX, 1000, 1000).unwrap(), u128::MAX);
    assert_eq!(mul_div(u128::MAX, 2, 4).unwrap(), u128::MAX / 2);
}

#[test]
fn quotient_too_large_is_an_overflow() {
    assert_eq!(mul_div(u128::MAX, 2, 1).unwrap_err(), ConvertorError::Overflow);
    assert_eq!(
        forward(u128::MAX, 1, 4_294_967_295).unwrap_err(),
        ConvertorError::Overflow
    );
}

#[test]
fn zero_amount_converts_to_zero() {
    assert_eq!(mul_div(0, 4_294_967_295, 1).unwrap(), 0);
}
