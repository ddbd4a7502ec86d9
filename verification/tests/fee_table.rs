use axon::decimal::Decimal;
use axon::fee::{ExchangeId, FeeModelError, FeeTable, FeeType, VolumeTier};

fn d(mantissa: i64, scale: u32) -> Decimal {
    Decimal::new(mantissa, scale)
}

fn tier(min: Decimal, maker: FeeType, taker: FeeType, label: &str) -> VolumeTier {
    VolumeTier { min_volume: min, maker_fee: maker, taker_fee: taker, label: label.into() }
}

fn assert_send_sync<T: Send + Sync>() {}

#[test]
fn test_binance_default_tier_count() {
    let t = FeeTable::binance_default();
    assert_eq!(t.exchange, ExchangeId::Binance);
    assert_eq!(t.tier_count(), 5);
}

#[test]
fn test_binance_regular_maker_fee() {
    let t = FeeTable::binance_default();
    let fee = t.maker_fee(d(50_000, 0), d(0, 0)).expect("fee");
    assert_eq!(fee, d(50, 0));
}

#[test]
fn test_binance_vip3_maker_fee() {
    let t = FeeTable::binance_default();
    let fee = t.maker_fee(d(50_000, 0), d(10_000_000, 0)).expect("fee");
    assert_eq!(fee, d(21, 0));
}

#[test]
fn test_tier_ladder_discount() {
    let t = FeeTable::binance_default();
    let fee = t.maker_fee(d(1_000, 0), d(5_000_000, 0)).expect("fee");
    assert_eq!(fee, d(8, 1));
}

#[test]
fn test_volume_tier_threshold() {
    let t = FeeTable::binance_default();
    let fee = t.maker_fee(d(1_000, 0), d(1_000_000, 0)).expect("fee");
    assert_eq!(fee, d(9, 1));
}

#[test]
fn test_native_token_discount_applied() {
    let t = FeeTable::binance_default().with_native_token_discount(d(10, 2));
    let fee = t.taker_fee(d(50_000, 0), d(0, 0)).expect("fee");
    assert_eq!(fee, d(45, 0));
}

#[test]
fn test_institutional_discount_applied() {
    let t = FeeTable::binance_default().with_institutional_discount(d(20, 2));
    let fee = t.taker_fee(d(50_000, 0), d(0, 0)).expect("fee");
    assert_eq!(fee, d(40, 0));
}

#[test]
fn test_both_discounts_compose() {
    let t = FeeTable::binance_default()
        .with_native_token_discount(d(10, 2))
        .with_institutional_discount(d(20, 2));
    let fee = t.taker_fee(d(50_000, 0), d(0, 0)).expect("fee");
    assert_eq!(fee, d(36, 0));
}

#[test]
fn test_tiered_sort_keeps_ascending() {
    let t = FeeTable::new(ExchangeId::Binance)
        .add_tier(tier(d(100_000_000, 0), FeeType::Percentage(d(20, 5)), FeeType::Percentage(d(40, 5)), "VIP 9"))
        .add_tier(tier(d(0, 0), FeeType::Percentage(d(100, 5)), FeeType::Percentage(d(100, 5)), "Regular"));
    assert_eq!(t.tiers[0].min_volume, d(0, 0));
    assert_eq!(t.tiers[1].min_volume, d(100_000_000, 0));
}

#[test]
fn test_find_tier_returns_none_when_empty() {
    let t = FeeTable::new(ExchangeId::Binance);
    assert!(t.find_tier(d(0, 0)).is_none());
}

#[test]
fn test_calculate_fee_errors_when_no_tiers() {
    let t = FeeTable::new(ExchangeId::Binance);
    let result = t.maker_fee(d(1_000, 0), d(0, 0));
    assert!(matches!(result, Err(FeeModelError::NoTiersConfigured(_))));
}

#[test]
fn test_coinbase_default_tier_count() {
    let t = FeeTable::coinbase_default();
    assert_eq!(t.exchange, ExchangeId::CoinbasePro);
    assert_eq!(t.tier_count(), 4);
}

#[test]
fn test_kraken_default_tier_count() {
    let t = FeeTable::kraken_default();
    assert_eq!(t.exchange, ExchangeId::Kraken);
    assert_eq!(t.tier_count(), 3);
}

#[test]
fn test_table_clone_and_eq() {
    let t = FeeTable::binance_default();
    let t2 = t.clone();
    assert_eq!(t.exchange, t2.exchange);
    assert_eq!(t.tier_count(), t2.tier_count());
}

#[test]
fn test_maker_fee_zero_notional() {
    let t = FeeTable::binance_default();
    let fee = t.maker_fee(d(0, 0), d(0, 0)).expect("fee");
    assert_eq!(fee, d(0, 0));
}

#[test]
fn test_maker_fee_extreme_notional() {
    let t = FeeTable::binance_default();
    let fee = t.maker_fee(d(1_000_000_000_000_000, 0), d(0, 0)).expect("fee");
    assert_eq!(fee, d(1_000_000_000_000, 0));
}

#[test]
fn test_maker_fee_negative_notional() {
    let t = FeeTable::binance_default();
    let fee = t.maker_fee(d(-1_000, 0), d(0, 0)).expect("fee");
    assert_eq!(fee, d(-1, 0));
}

#[test]
fn test_single_tier_table() {
    let t = FeeTable::new(ExchangeId::Binance)
        .add_tier(tier(d(0, 0), FeeType::Percentage(d(2, 3)), FeeType::Percentage(d(4, 3)), "Only"));
    assert_eq!(t.tier_count(), 1);
    let fee = t.maker_fee(d(1_000, 0), d(0, 0)).expect("fee");
    assert_eq!(fee, d(2, 0));
}

#[test]
fn test_empty_tiers_table() {
    let t = FeeTable::new(ExchangeId::Binance);
    assert_eq!(t.tier_count(), 0);
    let result = t.maker_fee(d(1_000, 0), d(0, 0));
    assert!(matches!(result, Err(FeeModelError::NoTiersConfigured(_))));
}

#[test]
fn test_tiny_volume_tiny_rate() {
    let t = FeeTable::new(ExchangeId::Binance)
        .add_tier(tier(d(0, 0), FeeType::Percentage(d(1, 4)), FeeType::Percentage(d(1, 4)), "Low"));
    let fee = t.taker_fee(d(1, 2), d(0, 0)).expect("fee");
    assert_eq!(fee, d(1, 6));
}

#[test]
fn test_maker_fee_fixed_amount() {
    let t = FeeTable::new(ExchangeId::Binance)
        .add_tier(tier(d(0, 0), FeeType::Fixed(d(25, 1)), FeeType::Fixed(d(35, 1)), "Flat"));
    assert_eq!(t.maker_fee(d(1, 0), d(0, 0)).expect("fee"), d(25, 1));
    assert_eq!(t.maker_fee(d(1_000_000, 0), d(0, 0)).expect("fee"), d(25, 1));
}

#[test]
fn test_native_token_discount_full() {
    let t = FeeTable::binance_default().with_native_token_discount(d(10, 1));
    let fee = t.taker_fee(d(50_000, 0), d(0, 0)).expect("fee");
    assert_eq!(fee, d(0, 0));
}

#[test]
fn test_institutional_discount_full() {
    let t = FeeTable::binance_default().with_institutional_discount(d(10, 1));
    let fee = t.taker_fee(d(50_000, 0), d(0, 0)).expect("fee");
    assert_eq!(fee, d(0, 0));
}

#[test]
fn test_discount_above_one_yields_negative() {
    let t = FeeTable::binance_default().with_native_token_discount(d(15, 1));
    let fee = t.taker_fee(d(50_000, 0), d(0, 0)).expect("fee");
    assert_eq!(fee, d(-25, 0));
}

#[test]
fn test_discount_chain() {
    let t = FeeTable::binance_default()
        .with_native_token_discount(d(10, 2))
        .with_institutional_discount(d(20, 2));
    let fee = t.taker_fee(d(50_000, 0), d(0, 0)).expect("fee");
    assert_eq!(fee, d(36, 0));
}

#[test]
fn test_find_tier_epsilon_volume() {
    let t = FeeTable::binance_default();
    let found = t.find_tier(d(1, 4)).expect("tier");
    assert_eq!(found.label, "Regular");
}

#[test]
fn test_find_tier_extreme_volume() {
    let t = FeeTable::binance_default();
    let found = t.find_tier(d(1_000_000_000_000_000, 0)).expect("tier");
    assert_eq!(found.label, "VIP 9");
}

#[test]
fn test_find_tier_negative_volume() {
    let t = FeeTable::binance_default();
    assert!(t.find_tier(d(-1_000, 0)).is_none());
}

#[test]
fn test_tier_sort_random_order() {
    let p = FeeType::Percentage(d(1, 3));
    let t = FeeTable::new(ExchangeId::Binance)
        .add_tier(tier(d(10_000_000, 0), p, p, "C"))
        .add_tier(tier(d(100_000, 0), p, p, "B"))
        .add_tier(tier(d(1_000, 0), p, p, "A"));
    assert_eq!(t.tiers[0].label, "A");
    assert_eq!(t.tiers[1].label, "B");
    assert_eq!(t.tiers[2].label, "C");
}

#[test]
fn test_coinbase_tier_lookup() {
    let t = FeeTable::coinbase_default();
    let found = t.find_tier(d(50_000, 0)).expect("tier");
    assert_eq!(found.label, "Tier 2");
}

#[test]
fn test_kraken_tier_lookup() {
    let t = FeeTable::kraken_default();
    let found = t.find_tier(d(500_000, 0)).expect("tier");
    assert_eq!(found.label, "Tier 2");
}

#[test]
fn test_tier_boundary_values() {
    let t = FeeTable::binance_default();
    assert_eq!(t.find_tier(d(999_999, 0)).unwrap().label, "Regular");
    assert_eq!(t.find_tier(d(1_000_000, 0)).unwrap().label, "VIP 1");
    assert_eq!(t.find_tier(d(1_000_001, 0)).unwrap().label, "VIP 1");
}

#[test]
fn test_fee_table_is_send_sync() {
    assert_send_sync::<FeeTable>();
}

#[test]
fn fee_table_equal_minimums_keep_insertion_order() {
    let p = FeeType::Percentage(d(1, 3));
    let t = FeeTable::new(ExchangeId::Binance)
        .add_tier(tier(d(5, 0), p, p, "first"))
        .add_tier(tier(d(50, 1), p, p, "second"));
    assert_eq!(t.tiers[0].label, "first");
    assert_eq!(t.tiers[1].label, "second");
    assert_eq!(t.find_tier(d(5, 0)).unwrap().label, "second");
}

#[test]
fn fee_table_overflow_is_reported() {
    let big = Decimal::from_i128_with_scale(79_228_162_514_264_337_593_543_950_335, 0);
    let t = FeeTable::new(ExchangeId::Kraken)
        .add_tier(tier(d(0, 0), FeeType::Percentage(d(2, 0)), FeeType::Percentage(d(2, 0)), "x"));
    assert!(matches!(t.maker_fee(big, d(0, 0)), Err(FeeModelError::Overflow(s)) if s == "kraken"));
}

#[test]
fn fee_table_add_tier_sorts_unsorted_tiers_stably() {
    let p = FeeType::Percentage(d(1, 3));
    let mut t = FeeTable::new(ExchangeId::Binance);
    t.tiers = vec![
        tier(d(5, 0), p, p, "b1"),
        tier(d(1, 0), p, p, "a"),
        tier(d(50, 1), p, p, "b2"),
    ];
    let t = t.add_tier(tier(d(500, 2), p, p, "b3"));
    let labels: Vec<&str> = t.tiers.iter().map(|x| x.label.as_str()).collect();
    assert_eq!(labels, vec!["a", "b1", "b2", "b3"]);
}
