use traffic_maker::units::real_amount;

#[test]
fn real_amount_scales_by_decimals() {
    assert_eq!(real_amount(&3), 3_000_000_000_000u128);
}
