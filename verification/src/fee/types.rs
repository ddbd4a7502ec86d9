//! Core fee types: exchanges, fee kinds, breakdowns, records and tiers.

use vstd::prelude::*;

use crate::decimal::{
    checked_add, checked_mul, decimal_checked_add, decimal_checked_mul, opt_view, Decimal,
};
use crate::fee::role::TradeRole;
use vstd::std_specs::cmp::PartialEqSpecImpl;
use vstd::std_specs::ops::AddSpecImpl;

verus! {

/// An exchange.
#[derive(Debug, Hash)]
pub enum ExchangeId {
    /// Binance.
    Binance,
    /// Coinbase Advanced Trade (formerly Coinbase Pro).
    CoinbasePro,
    /// Kraken.
    Kraken,
    /// Bybit.
    Bybit,
    /// OKX.
    Okx,
    /// Any other exchange, by name.
    Custom(String),
}

/// Two exchange identifiers name the same exchange.
pub open spec fn same_exchange(a: ExchangeId, b: ExchangeId) -> bool {
    match (a, b) {
        (ExchangeId::Custom(x), ExchangeId::Custom(y)) => x@ == y@,
        (ExchangeId::Custom(_), _) => false,
        (_, ExchangeId::Custom(_)) => false,
        _ => a == b,
    }
}

/// The name of an exchange.
pub open spec fn exchange_name(e: ExchangeId) -> Seq<char> {
    match e {
        ExchangeId::Binance => "binance"@,
        ExchangeId::CoinbasePro => "coinbase_pro"@,
        ExchangeId::Kraken => "kraken"@,
        ExchangeId::Bybit => "bybit"@,
        ExchangeId::Okx => "okx"@,
        ExchangeId::Custom(s) => s@,
    }
}

impl ExchangeId {
    /// Name of the exchange, for logs and error messages.
    pub fn name(&self) -> (r: &str)
        ensures
            r@ == exchange_name(*self),
    {
        match self {
            ExchangeId::Binance => "binance",
            ExchangeId::CoinbasePro => "coinbase_pro",
            ExchangeId::Kraken => "kraken",
            ExchangeId::Bybit => "bybit",
            ExchangeId::Okx => "okx",
            ExchangeId::Custom(s) => s.as_str(),
        }
    }

    /// Whether two identifiers name the same exchange.
    pub fn same_as(&self, other: &ExchangeId) -> (r: bool)
        ensures
            r == same_exchange(*self, *other),
    {
        match (self, other) {
            (ExchangeId::Binance, ExchangeId::Binance) => true,
            (ExchangeId::CoinbasePro, ExchangeId::CoinbasePro) => true,
            (ExchangeId::Kraken, ExchangeId::Kraken) => true,
            (ExchangeId::Bybit, ExchangeId::Bybit) => true,
            (ExchangeId::Okx, ExchangeId::Okx) => true,
            (ExchangeId::Custom(x), ExchangeId::Custom(y)) => String::eq(x, y),
            _ => false,
        }
    }
}

impl Clone for ExchangeId {
    fn clone(&self) -> (r: Self)
        ensures
            same_exchange(r, *self),
    {
        match self {
            ExchangeId::Binance => ExchangeId::Binance,
            ExchangeId::CoinbasePro => ExchangeId::CoinbasePro,
            ExchangeId::Kraken => ExchangeId::Kraken,
            ExchangeId::Bybit => ExchangeId::Bybit,
            ExchangeId::Okx => ExchangeId::Okx,
            ExchangeId::Custom(s) => ExchangeId::Custom(s.clone()),
        }
    }
}

impl PartialEq for ExchangeId {
    fn eq(&self, other: &ExchangeId) -> (r: bool) {
        self.same_as(other)
    }
}

impl PartialEqSpecImpl for ExchangeId {
    open spec fn obeys_eq_spec() -> bool {
        true
    }

    open spec fn eq_spec(&self, other: &ExchangeId) -> bool {
        same_exchange(*self, *other)
    }
}

impl Eq for ExchangeId {

}

/// A fee: a rate on the notional, or a fixed amount per trade.
#[derive(Debug, Clone, Copy)]
pub enum FeeType {
    /// A fraction of the notional (`0.001` is 0.1%).
    Percentage(Decimal),
    /// A fixed amount per trade.
    Fixed(Decimal),
}

impl FeeType {
    /// The fee for a notional amount, as `rust_decimal` computes it; `None` on overflow.
    pub open spec fn fee_for(self, notional: (int, nat)) -> Option<(int, nat)> {
        match self {
            FeeType::Percentage(rate) => decimal_checked_mul(notional, rate@),
            FeeType::Fixed(amount) => Some(amount@),
        }
    }

    /// The zero fee (a fixed amount of zero).
    pub fn zero() -> (r: FeeType)
        ensures
            r matches FeeType::Fixed(a) && a@ == (0int, 0nat),
    {
        FeeType::Fixed(Decimal::zero())
    }

    /// The fee for a notional amount: `notional * rate`, or the fixed amount.
    pub fn calculate(&self, notional: Decimal) -> (r: Decimal)
        requires
            self.fee_for(notional@) is Some,
        ensures
            Some(r@) == self.fee_for(notional@),
    {
        match self {
            FeeType::Percentage(rate) => match checked_mul(&notional, rate) {
                Some(v) => v,
                None => {
                    assert(false);
                    notional
                },
            },
            FeeType::Fixed(amount) => *amount,
        }
    }

    /// The fee for a notional amount, or `None` where the product leaves the decimal range.
    pub fn checked_calculate(&self, notional: Decimal) -> (r: Option<Decimal>)
        ensures
            opt_view(r) == self.fee_for(notional@),
    {
        let fits = match self {
            FeeType::Percentage(rate) => checked_mul(&notional, rate).is_some(),
            FeeType::Fixed(_) => true,
        };
        if fits {
            Some(self.calculate(notional))
        } else {
            None
        }
    }
}

/// Fees of a trade, by kind.
#[derive(Debug, Clone, Copy, PartialEq, Eq)]
pub struct FeeBreakdown {
    /// Trading commission.
    pub commission: Decimal,
    /// Brokerage charged on top.
    pub brokerage: Decimal,
    /// Funding (positive: paid, negative: received).
    pub funding: Decimal,
    /// Total.
    pub total: Decimal,
}

/// The four components of a breakdown.
pub type BreakdownView = ((int, nat), (int, nat), (int, nat), (int, nat));

/// Component-wise sum of two breakdowns, `None` if any sum overflows.
pub open spec fn breakdown_sum(a: BreakdownView, b: BreakdownView) -> Option<BreakdownView> {
    match (
        decimal_checked_add(a.0, b.0),
        decimal_checked_add(a.1, b.1),
        decimal_checked_add(a.2, b.2),
        decimal_checked_add(a.3, b.3),
    ) {
        (Some(c), Some(k), Some(f), Some(t)) => Some((c, k, f, t)),
        _ => None,
    }
}

/// Adding two breakdowns adds each component on its own, as `rust_decimal`
/// adds: commission to commission, brokerage to brokerage, funding to
/// funding and total to total. The sum exists exactly when none of the four
/// additions overflows.
pub proof fn breakdown_sum_adds_each_component(a: BreakdownView, b: BreakdownView)
    ensures
        breakdown_sum(a, b) is Some <==> {
            &&& decimal_checked_add(a.0, b.0) is Some
            &&& decimal_checked_add(a.1, b.1) is Some
            &&& decimal_checked_add(a.2, b.2) is Some
            &&& decimal_checked_add(a.3, b.3) is Some
        },
        forall|r: BreakdownView|
            breakdown_sum(a, b) == Some(r) ==> {
                &&& Some(r.0) == decimal_checked_add(a.0, b.0)
                &&& Some(r.1) == decimal_checked_add(a.1, b.1)
                &&& Some(r.2) == decimal_checked_add(a.2, b.2)
                &&& Some(r.3) == decimal_checked_add(a.3, b.3)
            },
{
}

impl FeeBreakdown {
    /// The four components.
    pub open spec fn view_parts(self) -> BreakdownView {
        (self.commission@, self.brokerage@, self.funding@, self.total@)
    }

    /// All components zero.
    pub fn zero() -> (r: FeeBreakdown)
        ensures
            r.view_parts() == ((0int, 0nat), (0int, 0nat), (0int, 0nat), (0int, 0nat)),
    {
        FeeBreakdown {
            commission: Decimal::zero(),
            brokerage: Decimal::zero(),
            funding: Decimal::zero(),
            total: Decimal::zero(),
        }
    }

    /// A breakdown holding only a commission, which is also the total.
    pub fn from_commission(commission: Decimal) -> (r: FeeBreakdown)
        ensures
            r.view_parts() == (commission@, (0int, 0nat), (0int, 0nat), commission@),
    {
        FeeBreakdown {
            commission,
            brokerage: Decimal::zero(),
            funding: Decimal::zero(),
            total: commission,
        }
    }

    /// Adds another breakdown, component by component.
    pub fn add(&mut self, other: &FeeBreakdown)
        requires
            breakdown_sum(old(self).view_parts(), other.view_parts()) is Some,
        ensures
            Some(final(self).view_parts()) == breakdown_sum(
                old(self).view_parts(),
                other.view_parts(),
            ),
    {
        let c = checked_add(&self.commission, &other.commission);
        let k = checked_add(&self.brokerage, &other.brokerage);
        let f = checked_add(&self.funding, &other.funding);
        let t = checked_add(&self.total, &other.total);
        match (c, k, f, t) {
            (Some(c), Some(k), Some(f), Some(t)) => {
                self.commission = c;
                self.brokerage = k;
                self.funding = f;
                self.total = t;
            },
            _ => {
                assert(false);
            },
        }
    }

    /// Adds another breakdown if no component overflows; otherwise leaves
    /// `self` unchanged and returns `false`.
    pub fn checked_add(&mut self, other: &FeeBreakdown) -> (ok: bool)
        ensures
            ok == (breakdown_sum(old(self).view_parts(), other.view_parts()) is Some),
            ok ==> Some(final(self).view_parts()) == breakdown_sum(
                old(self).view_parts(),
                other.view_parts(),
            ),
            !ok ==> final(self).view_parts() == old(self).view_parts(),
    {
        let fits = checked_add(&self.commission, &other.commission).is_some()
            && checked_add(&self.brokerage, &other.brokerage).is_some()
            && checked_add(&self.funding, &other.funding).is_some()
            && checked_add(&self.total, &other.total).is_some();
        if fits {
            self.add(other);
        }
        fits
    }
}

/// The breakdown with the four given components.
pub open spec fn breakdown_of(p: BreakdownView) -> FeeBreakdown {
    FeeBreakdown {
        commission: Decimal::from_view(p.0),
        brokerage: Decimal::from_view(p.1),
        funding: Decimal::from_view(p.2),
        total: Decimal::from_view(p.3),
    }
}

impl core::ops::Add for FeeBreakdown {
    type Output = FeeBreakdown;

    /// Component-wise sum, each component computed as `rhs + self`.
    fn add(self, rhs: FeeBreakdown) -> (r: FeeBreakdown) {
        let mut out = rhs;
        FeeBreakdown::add(&mut out, &self);
        proof {
            out.commission.lemma_from_view();
            out.brokerage.lemma_from_view();
            out.funding.lemma_from_view();
            out.total.lemma_from_view();
        }
        out
    }
}

impl AddSpecImpl for FeeBreakdown {
    open spec fn obeys_add_spec() -> bool {
        true
    }

    open spec fn add_req(self, rhs: FeeBreakdown) -> bool {
        breakdown_sum(rhs.view_parts(), self.view_parts()) is Some
    }

    open spec fn add_spec(self, rhs: FeeBreakdown) -> FeeBreakdown {
        breakdown_of(breakdown_sum(rhs.view_parts(), self.view_parts()).unwrap())
    }
}

impl Default for FeeBreakdown {
    fn default() -> (r: FeeBreakdown)
        ensures
            r.view_parts() == ((0int, 0nat), (0int, 0nat), (0int, 0nat), (0int, 0nat)),
    {
        FeeBreakdown::zero()
    }
}

/// One fee record, for reports.
#[derive(Debug, Clone, PartialEq)]
pub struct FeeRecord {
    /// Trade id.
    pub trade_id: u64,
    /// Instrument code.
    pub instrument_id: String,
    /// Role of the trade.
    pub role: TradeRole,
    /// Fees.
    pub fee_breakdown: FeeBreakdown,
    /// Unix time in nanoseconds.
    pub timestamp: i64,
}

/// A volume tier of an exchange's fee schedule.
#[derive(Debug, Clone)]
pub struct VolumeTier {
    /// Lowest 30-day volume (USDT) at which the tier applies.
    pub min_volume: Decimal,
    /// Maker fee.
    pub maker_fee: FeeType,
    /// Taker fee.
    pub taker_fee: FeeType,
    /// Label, such as "VIP 1".
    pub label: String,
}

} // verus!
