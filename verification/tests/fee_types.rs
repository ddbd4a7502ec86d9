use axon::decimal::Decimal;
use axon::fee::{FeeBreakdown, FeeType};

fn d(mantissa: i64, scale: u32) -> Decimal {
    Decimal::new(mantissa, scale)
}

#[test]
fn test_fee_type_percentage() {
    let f = FeeType::Percentage(d(1, 3));
    assert_eq!(f.calculate(d(50_000, 0)), d(50, 0));
}

#[test]
fn test_fee_type_fixed() {
    let f = FeeType::Fixed(d(5, 0));
    assert_eq!(f.calculate(d(1_000, 0)), d(5, 0));
    assert_eq!(f.calculate(d(10_000_000, 0)), d(5, 0));
}

#[test]
fn test_fee_type_zero() {
    let f = FeeType::zero();
    assert_eq!(f.calculate(d(1_000, 0)), Decimal::zero());
}

#[test]
fn test_fee_breakdown_default() {
    let b = FeeBreakdown::default();
    assert_eq!(b.commission, Decimal::zero());
    assert_eq!(b.brokerage, Decimal::zero());
    assert_eq!(b.funding, Decimal::zero());
    assert_eq!(b.total, Decimal::zero());
}

#[test]
fn test_fee_breakdown_from_commission() {
    let b = FeeBreakdown::from_commission(d(10, 0));
    assert_eq!(b.commission, d(10, 0));
    assert_eq!(b.total, d(10, 0));
}

#[test]
fn test_fee_breakdown_add() {
    let mut a = FeeBreakdown::from_commission(d(10, 0));
    let b = FeeBreakdown { commission: d(5, 0), brokerage: d(2, 0), funding: d(1, 0), total: d(8, 0) };
    a.add(&b);
    assert_eq!(a.commission, d(15, 0));
    assert_eq!(a.brokerage, d(2, 0));
    assert_eq!(a.funding, d(1, 0));
    assert_eq!(a.total, d(18, 0));
}

#[test]
fn test_fee_type_percentage_min_positive_rate() {
    let f = FeeType::Percentage(d(1, 9));
    assert_eq!(f.calculate(d(1_000_000_000, 0)), d(1, 0));
}

#[test]
fn test_fee_type_percentage_one_hundred_percent() {
    let f = FeeType::Percentage(d(1, 0));
    assert_eq!(f.calculate(d(1000, 0)), d(1000, 0));
}

#[test]
fn test_fee_type_percentage_zero_rate() {
    let f = FeeType::Percentage(d(0, 0));
    assert_eq!(f.calculate(d(1_000_000, 0)), d(0, 0));
}

#[test]
fn test_fee_type_percentage_rate_above_one() {
    let f = FeeType::Percentage(d(15, 1));
    assert_eq!(f.calculate(d(100, 0)), d(150, 0));
}

#[test]
fn test_fee_type_percentage_zero_notional() {
    let f = FeeType::Percentage(d(1, 3));
    assert_eq!(f.calculate(d(0, 0)), d(0, 0));
}

#[test]
fn test_fee_type_fixed_min_positive() {
    let f = FeeType::Fixed(d(1, 9));
    assert_eq!(f.calculate(d(1_000_000, 0)), d(1, 9));
}

#[test]
fn test_fee_type_fixed_negative() {
    let f = FeeType::Fixed(d(-5, 0));
    assert_eq!(f.calculate(d(1_000, 0)), d(-5, 0));
}

#[test]
fn test_fee_type_percentage_negative_notional() {
    let f = FeeType::Percentage(d(1, 3));
    assert_eq!(f.calculate(d(-1000, 0)), d(-1, 0));
}

#[test]
fn test_fee_breakdown_default_eq_zero() {
    assert_eq!(FeeBreakdown::default(), FeeBreakdown::zero());
}

#[test]
fn test_fee_breakdown_from_negative_commission() {
    let b = FeeBreakdown::from_commission(d(-10, 0));
    assert_eq!(b.commission, d(-10, 0));
    assert_eq!(b.total, d(-10, 0));
}

#[test]
fn test_fee_breakdown_add_chain() {
    let mut a = FeeBreakdown::zero();
    for i in 1..=100i64 {
        let b = FeeBreakdown::from_commission(Decimal::from_i64(i));
        a.add(&b);
    }
    assert_eq!(a.commission, d(5050, 0));
    assert_eq!(a.total, d(5050, 0));
}

#[test]
fn test_fee_breakdown_add_self() {
    let a = FeeBreakdown::from_commission(d(10, 0));
    let mut b = a;
    b.add(&a);
    assert_eq!(b.commission, d(20, 0));
}

#[test]
fn test_fee_breakdown_checked_add_refuses_overflow() {
    let big = Decimal::from_i128_with_scale(79_228_162_514_264_337_593_543_950_335, 0);
    let mut a = FeeBreakdown::from_commission(big);
    let before = a;
    assert!(!a.checked_add(&FeeBreakdown::from_commission(d(1, 0))));
    assert_eq!(a, before);
    assert!(a.checked_add(&FeeBreakdown::from_commission(d(-1, 0))));
    assert_eq!(a.total, Decimal::from_i128_with_scale(79_228_162_514_264_337_593_543_950_334, 0));
}

#[test]
fn test_fee_breakdown_add_operator() {
    let a = FeeBreakdown::from_commission(d(10, 0));
    let b = FeeBreakdown { commission: d(5, 0), brokerage: d(2, 0), funding: d(1, 0), total: d(8, 0) };
    let c = a + b;
    assert_eq!(c.total, d(18, 0));
    assert_eq!(c.commission, d(15, 0));
    assert_eq!(c.brokerage, d(2, 0));
}
