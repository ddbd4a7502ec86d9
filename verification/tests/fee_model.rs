use axon::decimal::Decimal;
use axon::fee::{
    ExchangeId, FeeBreakdown, FeeModel, FeeModelError, FeePosition, FeeRecord, FeeTable, FeeTrade,
    TieredFeeModel, TradeRole,
};

fn d(mantissa: i64, scale: u32) -> Decimal {
    Decimal::new(mantissa, scale)
}

fn assert_send_sync<T: Send + Sync>() {}

fn binance_model() -> TieredFeeModel {
    let mut m = TieredFeeModel::new();
    m.register_exchange(FeeTable::binance_default());
    m
}

fn record(trade_id: u64, instrument: &str, role: TradeRole, fees: FeeBreakdown, timestamp: i64) -> FeeRecord {
    FeeRecord { trade_id, instrument_id: instrument.into(), role, fee_breakdown: fees, timestamp }
}

#[test]
fn test_fee_trade_notional() {
    let t = FeeTrade::new(1, d(50_000, 0), d(1, 1));
    assert_eq!(t.notional(), d(5_000, 0));
}

#[test]
fn test_fee_position_notional_uses_abs_quantity() {
    let p = FeePosition::new(d(-10, 0), d(3_500, 0));
    assert_eq!(p.notional(), d(35_000, 0));
}

#[test]
fn test_tiered_model_default() {
    let m = TieredFeeModel::new();
    assert_eq!(m.exchange_count(), 0);
    assert_eq!(m.record_count(), 0);
}

#[test]
fn test_register_exchange() {
    let mut m = TieredFeeModel::new();
    m.register_exchange(FeeTable::binance_default());
    m.register_exchange(FeeTable::coinbase_default());
    assert_eq!(m.exchange_count(), 2);
}

#[test]
fn test_calculate_fee_taker_binance() {
    let mut m = binance_model();
    m.update_volume(ExchangeId::Binance, d(0, 0));
    let trade = FeeTrade::new(1, d(50_000, 0), d(1, 0));
    let fee = m.calculate_fee(ExchangeId::Binance, &trade, TradeRole::Taker).expect("fee");
    assert_eq!(fee.total, d(50, 0));
    assert_eq!(fee.commission, d(50, 0));
}

#[test]
fn test_calculate_fee_maker_lower_than_taker() {
    let mut m = binance_model();
    m.update_volume(ExchangeId::Binance, d(10_000_000, 0));
    let trade = FeeTrade::new(1, d(50_000, 0), d(1, 0));
    let maker = m.calculate_fee(ExchangeId::Binance, &trade, TradeRole::Maker).expect("maker");
    let taker = m.calculate_fee(ExchangeId::Binance, &trade, TradeRole::Taker).expect("taker");
    assert!(maker.total < taker.total);
    assert_eq!(maker.total, d(21, 0));
    assert_eq!(taker.total, d(30, 0));
}

#[test]
fn test_calculate_fee_unregistered_exchange() {
    let m = TieredFeeModel::new();
    let trade = FeeTrade::new(1, d(1, 0), d(1, 0));
    let result = m.calculate_fee(ExchangeId::Binance, &trade, TradeRole::Taker);
    assert!(matches!(result, Err(FeeModelError::ExchangeNotRegistered(_))));
}

#[test]
fn test_calculate_funding_long_positive_rate() {
    let m = TieredFeeModel::new();
    let pos = FeePosition::new(d(10, 0), d(3_500, 0));
    assert_eq!(m.calculate_funding(&pos, d(1, 4)), d(35, 1));
}

#[test]
fn test_calculate_funding_short_negative_rate() {
    let m = TieredFeeModel::new();
    let pos = FeePosition::new(d(-10, 0), d(3_500, 0));
    assert_eq!(m.calculate_funding(&pos, d(-1, 4)), d(-35, 1));
}

#[test]
fn test_calculate_funding_zero_rate() {
    let m = TieredFeeModel::new();
    let pos = FeePosition::new(d(10, 0), d(3_500, 0));
    assert_eq!(m.calculate_funding(&pos, d(0, 0)), d(0, 0));
}

#[test]
fn test_get_tier_for_volume() {
    let m = binance_model();
    let tier = m.get_tier(ExchangeId::Binance, d(10_000_000, 0)).expect("tier");
    assert_eq!(tier.label, "VIP 3");
}

#[test]
fn test_get_tier_unregistered() {
    let m = TieredFeeModel::new();
    let result = m.get_tier(ExchangeId::Binance, d(0, 0));
    assert!(matches!(result, Err(FeeModelError::ExchangeNotRegistered(_))));
}

#[test]
fn test_get_tier_no_tiers() {
    let mut m = TieredFeeModel::new();
    m.register_exchange(FeeTable::new(ExchangeId::Binance));
    let result = m.get_tier(ExchangeId::Binance, d(0, 0));
    assert!(matches!(result, Err(FeeModelError::NoTiersConfigured(_))));
}

#[test]
fn test_accumulate_empty() {
    let m = TieredFeeModel::new();
    let total = m.accumulate(&[]);
    assert_eq!(total, FeeBreakdown::zero());
}

#[test]
fn test_accumulate_multiple_records() {
    let m = TieredFeeModel::new();
    let r1 = record(
        1,
        "BTC-USDT",
        TradeRole::Taker,
        FeeBreakdown { commission: d(50, 0), brokerage: d(0, 0), funding: d(0, 0), total: d(50, 0) },
        1_000_000_000,
    );
    let r2 = record(
        2,
        "ETH-USDT",
        TradeRole::Maker,
        FeeBreakdown { commission: d(10, 0), brokerage: d(0, 0), funding: d(0, 0), total: d(10, 0) },
        1_000_000_001,
    );
    let total = m.accumulate(&[r1, r2]);
    assert_eq!(total.commission, d(60, 0));
    assert_eq!(total.total, d(60, 0));
}

#[test]
fn test_record_appends() {
    let mut m = TieredFeeModel::new();
    m.record(record(1, "BTC-USDT", TradeRole::Taker, FeeBreakdown::from_commission(d(50, 0)), 0));
    m.record(record(2, "ETH-USDT", TradeRole::Taker, FeeBreakdown::from_commission(d(20, 0)), 0));
    assert_eq!(m.record_count(), 2);
}

#[test]
fn test_exchanges_iterator() {
    let mut m = TieredFeeModel::new();
    m.register_exchange(FeeTable::binance_default());
    m.register_exchange(FeeTable::kraken_default());
    let names: Vec<String> = m.exchanges().iter().map(|e| e.name().to_string()).collect();
    assert!(names.contains(&"binance".to_string()));
    assert!(names.contains(&"kraken".to_string()));
}

#[test]
fn test_tiered_discount_applied_to_tier() {
    let m = binance_model();
    let tier = m.get_tier(ExchangeId::Binance, d(200_000_000, 0)).expect("tier");
    assert_eq!(tier.label, "VIP 9");
}

#[test]
fn test_zero_price_trade_no_fee() {
    let m = binance_model();
    let trade = FeeTrade::new(1, d(0, 0), d(100, 0));
    let fee = m.calculate_fee(ExchangeId::Binance, &trade, TradeRole::Taker).expect("fee");
    assert_eq!(fee.total, d(0, 0));
}

#[test]
fn test_zero_quantity_trade_no_fee() {
    let m = binance_model();
    let trade = FeeTrade::new(1, d(50_000, 0), d(0, 0));
    let fee = m.calculate_fee(ExchangeId::Binance, &trade, TradeRole::Taker).expect("fee");
    assert_eq!(fee.total, d(0, 0));
}

#[test]
fn test_negative_price_trade_negative_fee() {
    let m = binance_model();
    let trade = FeeTrade::new(1, d(-100, 0), d(1, 0));
    let fee = m.calculate_fee(ExchangeId::Binance, &trade, TradeRole::Taker).expect("fee");
    assert_eq!(fee.total, d(-1, 1));
}

#[test]
fn test_negative_quantity_trade() {
    let m = binance_model();
    let trade = FeeTrade::new(1, d(100, 0), d(-2, 0));
    let fee = m.calculate_fee(ExchangeId::Binance, &trade, TradeRole::Taker).expect("fee");
    assert_eq!(fee.total, d(-2, 1));
}

#[test]
fn test_extreme_notional_trade() {
    let m = binance_model();
    let trade = FeeTrade::new(1, d(1_000_000, 0), d(1_000_000, 0));
    let fee = m.calculate_fee(ExchangeId::Binance, &trade, TradeRole::Taker).expect("fee");
    assert_eq!(fee.total, d(1_000_000_000, 0));
}

#[test]
fn test_custom_exchange_not_registered() {
    let m = TieredFeeModel::new();
    let trade = FeeTrade::new(1, d(1, 0), d(1, 0));
    let result = m.calculate_fee(ExchangeId::Custom("myex".to_string()), &trade, TradeRole::Taker);
    assert!(matches!(result, Err(FeeModelError::ExchangeNotRegistered(_))));
}

#[test]
fn test_funding_zero_position() {
    let m = TieredFeeModel::new();
    let pos = FeePosition::new(d(0, 0), d(3_500, 0));
    assert_eq!(m.calculate_funding(&pos, d(1, 4)), d(0, 0));
}

#[test]
fn test_funding_zero_price() {
    let m = TieredFeeModel::new();
    let pos = FeePosition::new(d(10, 0), d(0, 0));
    assert_eq!(m.calculate_funding(&pos, d(1, 4)), d(0, 0));
}

#[test]
fn test_funding_extreme_rate() {
    let m = TieredFeeModel::new();
    let pos = FeePosition::new(d(1, 0), d(100, 0));
    assert_eq!(m.calculate_funding(&pos, d(10, 1)), d(100, 0));
}

#[test]
fn test_funding_epsilon_rate() {
    let m = TieredFeeModel::new();
    let pos = FeePosition::new(d(1, 0), d(1, 0));
    assert_eq!(m.calculate_funding(&pos, d(1, 9)), d(1, 9));
}

#[test]
fn test_get_tier_zero_volume_lowest() {
    let m = binance_model();
    let tier = m.get_tier(ExchangeId::Binance, d(0, 0)).expect("tier");
    assert_eq!(tier.label, "Regular");
}

#[test]
fn test_get_tier_epsilon_volume() {
    let m = binance_model();
    let tier = m.get_tier(ExchangeId::Binance, d(1, 4)).expect("tier");
    assert_eq!(tier.label, "Regular");
}

#[test]
fn test_get_tier_exact_threshold() {
    let m = binance_model();
    let tier = m.get_tier(ExchangeId::Binance, d(1_000_000, 0)).expect("tier");
    assert_eq!(tier.label, "VIP 1");
}

#[test]
fn test_accumulate_many_records() {
    let m = TieredFeeModel::new();
    let records: Vec<FeeRecord> = (0..1_000u64)
        .map(|i| record(i, "BTC-USDT", TradeRole::Taker, FeeBreakdown::from_commission(d(1, 0)), i as i64))
        .collect();
    let total = m.accumulate(&records);
    assert_eq!(total.commission, d(1_000, 0));
    assert_eq!(total.total, d(1_000, 0));
}

#[test]
fn test_update_volume_negative_does_not_affect_get_tier() {
    let mut m = binance_model();
    m.update_volume(ExchangeId::Binance, d(-1000, 0));
    let result = m.get_tier(ExchangeId::Binance, d(-1000, 0));
    assert!(matches!(result, Err(FeeModelError::NoTiersConfigured(_))));
}

#[test]
fn test_register_exchange_override() {
    let mut m = binance_model();
    m.register_exchange(FeeTable::binance_default());
    assert_eq!(m.exchange_count(), 1);
}

#[test]
fn test_exchanges_empty() {
    let m = TieredFeeModel::new();
    assert_eq!(m.exchanges().len(), 0);
}

#[test]
fn test_record_count_grows() {
    let mut m = TieredFeeModel::new();
    assert_eq!(m.record_count(), 0);
    for i in 0..50u64 {
        m.record(record(i, "X", TradeRole::Maker, FeeBreakdown::zero(), 0));
    }
    assert_eq!(m.record_count(), 50);
}

#[test]
fn test_fee_trade_notional_zero() {
    let t = FeeTrade::new(1, d(0, 0), d(0, 0));
    assert_eq!(t.notional(), d(0, 0));
}

#[test]
fn test_fee_trade_notional_extreme() {
    let t = FeeTrade::new(1, d(1_000_000, 0), d(1_000_000, 0));
    assert_eq!(t.notional(), d(1_000_000_000_000, 0));
}

#[test]
fn test_fee_position_short_notional() {
    let p = FeePosition::new(d(-100, 0), d(50, 0));
    assert_eq!(p.notional(), d(5_000, 0));
}

#[test]
fn test_fee_position_zero_notional() {
    let p = FeePosition::new(d(0, 0), d(50_000, 0));
    assert_eq!(p.notional(), d(0, 0));
}

#[test]
fn test_tiered_fee_model_send_sync() {
    assert_send_sync::<TieredFeeModel>();
}

#[test]
fn fee_model_volume_update_replaces_earlier_value() {
    let mut m = binance_model();
    m.update_volume(ExchangeId::Binance, d(10_000_000, 0));
    m.update_volume(ExchangeId::Binance, d(0, 0));
    let trade = FeeTrade::new(1, d(50_000, 0), d(1, 0));
    let fee = m.calculate_fee(ExchangeId::Binance, &trade, TradeRole::Maker).expect("fee");
    assert_eq!(fee.total, d(50, 0));
}

#[test]
fn fee_model_checked_funding_and_accumulate_report_overflow() {
    let m = TieredFeeModel::new();
    let big = Decimal::from_i128_with_scale(79_228_162_514_264_337_593_543_950_335, 0);
    let pos = FeePosition::new(big, d(2, 0));
    assert!(m.checked_calculate_funding(&pos, d(1, 0)).is_none());
    let r = record(1, "X", TradeRole::Maker, FeeBreakdown::from_commission(big), 0);
    assert!(m.checked_accumulate(&[r.clone(), r]).is_none());
    let ok = record(1, "X", TradeRole::Maker, FeeBreakdown::from_commission(d(2, 0)), 0);
    assert_eq!(m.checked_accumulate(&[ok.clone(), ok]).unwrap().total, d(4, 0));
}
