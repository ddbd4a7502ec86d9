use std::collections::HashSet;

use axon::decimal::Decimal;
use axon::fee::{
    ExchangeId, FeeBreakdown, FeeModel, FeeModelError, FeePosition, FeeTable, FeeTrade, FeeType,
    TieredFeeModel, TradeRole, VolumeTier,
};

fn d(mantissa: i64, scale: u32) -> Decimal {
    Decimal::new(mantissa, scale)
}

// ─── errors ─────────────────────────────────────────────

#[test]
fn test_exchange_not_registered_display() {
    let err = FeeModelError::ExchangeNotRegistered("binance".into());
    let msg = err.message();
    assert!(msg.contains("未注册"));
    assert!(msg.contains("binance"));
}

#[test]
fn test_no_tiers_configured_display() {
    let err = FeeModelError::NoTiersConfigured("kraken".into());
    let msg = err.message();
    assert!(msg.contains("未配置费率阶梯"));
    assert!(msg.contains("kraken"));
}

#[test]
fn test_invalid_rate_display() {
    let err = FeeModelError::InvalidRate("-0.001".into());
    let msg = err.message();
    assert!(msg.contains("无效的费率"));
    assert!(msg.contains("-0.001"));
}

#[test]
fn test_invalid_quantity_display() {
    let err = FeeModelError::InvalidQuantity("负数".into());
    let msg = err.message();
    assert!(msg.contains("无效的数量"));
    assert!(msg.contains("负数"));
}

#[test]
fn test_overflow_display() {
    let err = FeeModelError::Overflow("1e18 * 0.001".into());
    let msg = err.message();
    assert!(msg.contains("费用计算溢出"));
    assert!(msg.contains("1e18"));
}

#[test]
fn test_error_clone_preserves_variant() {
    let err = FeeModelError::ExchangeNotRegistered("x".into());
    let cloned = err.clone();
    assert_eq!(err, cloned);
}

#[test]
fn test_error_variants_not_equal() {
    let a = FeeModelError::ExchangeNotRegistered("x".into());
    let b = FeeModelError::NoTiersConfigured("x".into());
    assert_ne!(a, b);
}

#[test]
fn test_error_empty_string_payload() {
    let err = FeeModelError::ExchangeNotRegistered(String::new());
    assert!(err.message().contains("未注册"));
}

#[test]
fn fee_error_messages_are_exact() {
    assert_eq!(FeeModelError::ExchangeNotRegistered("okx".into()).message(), "交易所未注册：okx");
    assert_eq!(FeeModelError::Overflow("x".into()).message(), "费用计算溢出：x");
}

// ─── roles ──────────────────────────────────────────────

#[test]
fn test_role_as_str() {
    assert_eq!(TradeRole::Maker.as_str(), "maker");
    assert_eq!(TradeRole::Taker.as_str(), "taker");
}

#[test]
fn test_role_display() {
    assert_eq!(TradeRole::Maker.as_str().to_string(), "maker");
    assert_eq!(TradeRole::Taker.as_str().to_string(), "taker");
}

#[test]
fn test_role_equality() {
    assert_eq!(TradeRole::Maker, TradeRole::Maker);
    assert_ne!(TradeRole::Maker, TradeRole::Taker);
}

#[test]
fn test_role_in_hashset() {
    let mut s = HashSet::new();
    s.insert(TradeRole::Maker);
    s.insert(TradeRole::Taker);
    s.insert(TradeRole::Maker);
    assert_eq!(s.len(), 2);
}

#[test]
fn test_role_is_copy() {
    let a = TradeRole::Taker;
    let b = a;
    assert_eq!(a, b);
}

// ─── exchanges ──────────────────────────────────────────

#[test]
fn test_exchange_id_name() {
    assert_eq!(ExchangeId::Binance.name(), "binance");
    assert_eq!(ExchangeId::CoinbasePro.name(), "coinbase_pro");
    assert_eq!(ExchangeId::Custom("myex".to_string()).name(), "myex");
}

#[test]
fn test_exchange_id_display() {
    assert_eq!(ExchangeId::Binance.name().to_string(), "binance");
    assert_eq!(ExchangeId::Custom("abc".to_string()).name().to_string(), "abc");
}

#[test]
fn test_custom_exchange_empty_string() {
    let e = ExchangeId::Custom(String::new());
    assert_eq!(e.name(), "");
    assert_eq!(e.name().to_string(), "");
}

#[test]
fn test_custom_exchange_long_string() {
    let long = "x".repeat(10_000);
    let e = ExchangeId::Custom(long.clone());
    assert_eq!(e.name(), long);
}

#[test]
fn test_exchange_id_hash_consistency() {
    let mut s = HashSet::new();
    s.insert(ExchangeId::Binance);
    s.insert(ExchangeId::Binance);
    s.insert(ExchangeId::CoinbasePro);
    assert_eq!(s.len(), 2);
}

#[test]
fn test_exchange_id_equality() {
    assert_eq!(ExchangeId::Binance, ExchangeId::Binance);
    assert_ne!(ExchangeId::Binance, ExchangeId::CoinbasePro);
    assert_eq!(ExchangeId::Custom("x".to_string()), ExchangeId::Custom("x".to_string()));
    assert_ne!(ExchangeId::Custom("x".to_string()), ExchangeId::Custom("y".to_string()));
}

// ─── fee types and breakdowns ───────────────────────────

#[test]
fn fee_type_percentage_and_fixed() {
    assert_eq!(FeeType::Percentage(d(1, 3)).calculate(d(50_000, 0)), d(50, 0));
    assert_eq!(FeeType::Fixed(d(5, 0)).calculate(d(10_000_000, 0)), d(5, 0));
    assert_eq!(FeeType::zero().calculate(d(1_000, 0)), Decimal::zero());
}

#[test]
fn fee_breakdown_add_sums_each_component() {
    let mut a = FeeBreakdown::from_commission(d(10, 0));
    let b = FeeBreakdown { commission: d(5, 0), brokerage: d(2, 0), funding: d(1, 0), total: d(8, 0) };
    a.add(&b);
    assert_eq!(a.commission, d(15, 0));
    assert_eq!(a.brokerage, d(2, 0));
    assert_eq!(a.funding, d(1, 0));
    assert_eq!(a.total, d(18, 0));
    let z = FeeBreakdown::default();
    assert_eq!(z.total, Decimal::zero());
}

// ─── tables ─────────────────────────────────────────────

#[test]
fn default_tables_have_their_tiers() {
    let b = FeeTable::binance_default();
    assert_eq!(b.exchange, ExchangeId::Binance);
    assert_eq!(b.tier_count(), 5);
    assert_eq!(b.tiers[3].label, "VIP 3");
    assert_eq!(FeeTable::coinbase_default().tier_count(), 4);
    assert_eq!(FeeTable::kraken_default().tier_count(), 3);
    assert_eq!(FeeTable::kraken_default().tiers[2].label, "Tier 4");
}

#[test]
fn binance_fees_by_volume() {
    let t = FeeTable::binance_default();
    assert_eq!(t.maker_fee(d(50_000, 0), d(0, 0)).unwrap(), d(50, 0));
    assert_eq!(t.maker_fee(d(50_000, 0), d(10_000_000, 0)).unwrap(), d(21, 0));
    assert_eq!(t.maker_fee(d(1_000, 0), d(5_000_000, 0)).unwrap(), d(8, 1));
    assert_eq!(t.maker_fee(d(1_000, 0), d(1_000_000, 0)).unwrap(), d(9, 1));
}

#[test]
fn discounts_compose() {
    let t = FeeTable::binance_default().with_native_token_discount(d(10, 2));
    assert_eq!(t.taker_fee(d(50_000, 0), d(0, 0)).unwrap(), d(45, 0));
    let t = FeeTable::binance_default()
        .with_native_token_discount(d(10, 2))
        .with_institutional_discount(d(20, 2));
    assert_eq!(t.taker_fee(d(50_000, 0), d(0, 0)).unwrap(), d(36, 0));
}

#[test]
fn tiers_stay_sorted_and_empty_tables_fail() {
    let t = FeeTable::new(ExchangeId::Binance)
        .add_tier(VolumeTier {
            min_volume: d(100_000_000, 0),
            maker_fee: FeeType::Percentage(d(20, 5)),
            taker_fee: FeeType::Percentage(d(40, 5)),
            label: "VIP 9".into(),
        })
        .add_tier(VolumeTier {
            min_volume: d(0, 0),
            maker_fee: FeeType::Percentage(d(100, 5)),
            taker_fee: FeeType::Percentage(d(100, 5)),
            label: "Regular".into(),
        });
    assert_eq!(t.tiers[0].min_volume, d(0, 0));
    assert_eq!(t.tiers[1].min_volume, d(100_000_000, 0));
    let empty = FeeTable::new(ExchangeId::Kraken);
    assert!(empty.find_tier(d(0, 0)).is_none());
    assert!(matches!(
        empty.maker_fee(d(1, 0), d(0, 0)),
        Err(FeeModelError::NoTiersConfigured(s)) if s == "kraken"
    ));
}

// ─── the tiered model ───────────────────────────────────

#[test]
fn tiered_model_fees_funding_and_totals() {
    let mut m = TieredFeeModel::new();
    assert_eq!(m.exchange_count(), 0);
    m.register_exchange(FeeTable::binance_default());
    m.update_volume(ExchangeId::Binance, d(10_000_000, 0));
    let trade = FeeTrade::new(1, d(50_000, 0), d(1, 0));
    let maker = m.calculate_fee(ExchangeId::Binance, &trade, TradeRole::Maker).unwrap();
    let taker = m.calculate_fee(ExchangeId::Binance, &trade, TradeRole::Taker).unwrap();
    assert_eq!(maker.total, d(21, 0));
    assert_eq!(taker.total, d(30, 0));
    assert!(matches!(
        m.calculate_fee(ExchangeId::Kraken, &trade, TradeRole::Taker),
        Err(FeeModelError::ExchangeNotRegistered(s)) if s == "kraken"
    ));
    let pos = FeePosition::new(d(-10, 0), d(3_500, 0));
    assert_eq!(m.calculate_funding(&pos, d(-1, 4)), d(-35, 1));
    assert_eq!(m.get_tier(ExchangeId::Binance, d(10_000_000, 0)).unwrap().label, "VIP 3");
    assert_eq!(FeeTrade::new(1, d(50_000, 0), d(1, 1)).notional(), d(5_000, 0));
}
