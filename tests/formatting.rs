use eth_gas_estimator::{decimal_text, format_ether, total_cost};

#[test]
fn one_ether_formats_with_eighteen_digits() {
    assert_eq!(format_ether(1_000_000_000_000_000_000), "1.000000000000000000");
}

#[test]
fn format_ether_is_fixed_point_at_every_magnitude() {
    assert_eq!(format_ether(0), "0.000000000000000000");
    assert_eq!(format_ether(1), "0.000000000000000001");
    assert_eq!(format_ether(21_000_000_000_000), "0.000021000000000000");
    assert_eq!(format_ether(1_234_567_890_123_456_789_012), "1234.567890123456789012");
    assert_eq!(
        format_ether(u128::MAX),
        "340282366920938463463.374607431768211455"
    );
}

#[test]
fn decimal_text_writes_integers() {
    assert_eq!(decimal_text(0), "0");
    assert_eq!(decimal_text(7), "7");
    assert_eq!(decimal_text(21000), "21000");
    assert_eq!(decimal_text(u128::MAX), "340282366920938463463374607431768211455");
}

#[test]
fn total_cost_multiplies() {
    assert_eq!(total_cost(20_000_000_000, 21_000), 420_000_000_000_000);
    assert_eq!(total_cost(0, u128::MAX), 0);
}

#[test]
fn total_cost_saturates_instead_of_wrapping() {
    assert_eq!(total_cost(u128::MAX, 2), u128::MAX);
    assert_eq!(total_cost(u128::MAX, u128::MAX), u128::MAX);
    assert_eq!(total_cost(u128::MAX, 1), u128::MAX);
    assert_eq!(total_cost(1u128 << 64, 1u128 << 64), u128::MAX);
}
