use cosmos::config::{CosmosBuilder, CosmosConfig};
use cosmos::gas::{coins_for, padded_gas, price_for_attempt, Fixed};

#[test]
fn gas_estimate_multiplier() {
    let mut cosmos = CosmosBuilder::new_osmosis_testnet();

    // the same as the padding applied after a simulation
    let multiply_estimated_gas =
        |cosmos: &CosmosBuilder, gas_used: u64| -> u64 { cosmos.config.padded_gas(gas_used) };

    assert_eq!(multiply_estimated_gas(&cosmos, 1234), 1604);
    cosmos.config.gas_estimate_multiplier = Fixed::from_nanos(4_200_000_000);
    assert_eq!(multiply_estimated_gas(&cosmos, 1234), 5182);
}

#[test]
fn padded_gas_truncates() {
    assert_eq!(padded_gas(1234, Fixed::from_nanos(1_300_000_000)), 1604);
    assert_eq!(padded_gas(0, Fixed::from_nanos(1_300_000_000)), 0);
    assert_eq!(padded_gas(10, Fixed::from_nanos(1_000_000_000)), 10);
}

#[test]
fn price_tiers_interpolate_from_low_to_high() {
    let low = Fixed::from_nanos(20_000_000);
    let high = Fixed::from_nanos(30_000_000);
    let prices: Vec<u64> = (0..6).map(|a| price_for_attempt(a, low, high, 3).nanos).collect();
    assert_eq!(prices, vec![20_000_000, 23_333_333, 26_666_666, 30_000_000, 30_000_000, 30_000_000]);
    for w in prices.windows(2) {
        assert!(w[0] <= w[1]);
    }
}

#[test]
fn price_with_no_retry_attempts_is_high() {
    let low = Fixed::from_nanos(1);
    let high = Fixed::from_nanos(7);
    assert_eq!(price_for_attempt(0, low, high, 0).nanos, 7);
    assert_eq!(price_for_attempt(5, low, high, 0).nanos, 7);
}

#[test]
fn gas_to_coins_uses_tier_price() {
    let config = CosmosConfig::default();
    assert_eq!(config.gas_to_coins(100_000, 0), 2000);
    assert_eq!(config.gas_to_coins(100_000, 1), 2333);
    assert_eq!(config.gas_to_coins(100_000, 3), 3000);
    assert_eq!(config.gas_to_coins(100_000, 9), 3000);
}

#[test]
fn coins_saturate_at_the_largest_amount() {
    assert_eq!(coins_for(u64::MAX, Fixed::from_nanos(u64::MAX)), u64::MAX);
    assert_eq!(coins_for(3, Fixed::from_nanos(500_000_000)), 1);
}

#[test]
fn fixed_from_parts_and_doubling() {
    assert_eq!(Fixed::from_parts(1, 300_000_000), Some(Fixed::from_nanos(1_300_000_000)));
    assert_eq!(Fixed::from_parts(u64::MAX, 0), None);
    assert_eq!(Fixed::from_nanos(12).doubled(), Fixed::from_nanos(24));
    assert_eq!(Fixed::from_nanos(u64::MAX).doubled(), Fixed::from_nanos(u64::MAX));
}
