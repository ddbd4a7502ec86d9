//! The published fee schedules of some exchanges.

use vstd::prelude::*;

use crate::decimal::{pow10, value_order, Decimal};
use crate::fee::table::{tiers_sorted, FeeTable};
use crate::fee::types::{ExchangeId, FeeType, VolumeTier};

verus! {

/// A tier with a whole minimum volume and percentage fees of `mantissa / 10^scale`.
fn percentage_tier(min_volume: i64, maker: i64, taker: i64, scale: u32, label: &str) -> (r:
    VolumeTier)
    requires
        scale <= 28,
    ensures
        r.min_volume@ == (min_volume as int, 0nat),
        r.maker_fee matches FeeType::Percentage(m) && m@ == (maker as int, scale as nat),
        r.taker_fee matches FeeType::Percentage(t) && t@ == (taker as int, scale as nat),
        r.label@ == label@,
{
    VolumeTier {
        min_volume: Decimal::new(min_volume, 0),
        maker_fee: FeeType::Percentage(Decimal::new(maker, scale)),
        taker_fee: FeeType::Percentage(Decimal::new(taker, scale)),
        label: label.to_owned(),
    }
}

/// The tier has a whole minimum volume and the given percentage fees.
pub open spec fn tier_is(t: VolumeTier, min_volume: int, maker: (int, nat), taker: (int, nat)) -> bool {
    &&& t.min_volume@ == (min_volume, 0nat)
    &&& t.maker_fee matches FeeType::Percentage(m) && m@ == maker
    &&& t.taker_fee matches FeeType::Percentage(x) && x@ == taker
}

impl FeeTable {
    /// Binance's public schedule: 0.10% / 0.10% for regular users down to
    /// 0.02% / 0.04% at VIP 9.
    pub fn binance_default() -> (r: FeeTable)
        ensures
            r.exchange == ExchangeId::Binance,
            r.native_token_discount is None,
            r.institutional_discount is None,
            r.tiers@.len() == 5,
            tier_is(r.tiers@[0], 0, (100, 5), (100, 5)),
            tier_is(r.tiers@[1], 1_000_000, (90, 5), (100, 5)),
            tier_is(r.tiers@[2], 5_000_000, (80, 5), (100, 5)),
            tier_is(r.tiers@[3], 10_000_000, (42, 5), (60, 5)),
            tier_is(r.tiers@[4], 100_000_000, (20, 5), (40, 5)),
            r.tiers@[0].label@ == "Regular"@,
            r.tiers@[1].label@ == "VIP 1"@,
            r.tiers@[2].label@ == "VIP 2"@,
            r.tiers@[3].label@ == "VIP 3"@,
            r.tiers@[4].label@ == "VIP 9"@,
    {
        let t = FeeTable::new(ExchangeId::Binance);
        assert(pow10(0) == 1);
        let t0 = percentage_tier(0, 100, 100, 5, "Regular");
        let t = t.append_tier(t0);
        assert(t.tiers@.last() == t0);
        let t = t.append_tier(percentage_tier(1_000_000, 90, 100, 5, "VIP 1"));
        let t = t.append_tier(percentage_tier(5_000_000, 80, 100, 5, "VIP 2"));
        let t = t.append_tier(percentage_tier(10_000_000, 42, 60, 5, "VIP 3"));
        t.append_tier(percentage_tier(100_000_000, 20, 40, 5, "VIP 9"))
    }

    /// Coinbase Advanced Trade's schedule: 0.40% / 0.60% down to 0.10% / 0.20%.
    pub fn coinbase_default() -> (r: FeeTable)
        ensures
            r.exchange == ExchangeId::CoinbasePro,
            r.native_token_discount is None,
            r.institutional_discount is None,
            r.tiers@.len() == 4,
            tier_is(r.tiers@[0], 0, (40, 4), (60, 4)),
            tier_is(r.tiers@[1], 10_000, (25, 4), (40, 4)),
            tier_is(r.tiers@[2], 100_000, (15, 4), (25, 4)),
            tier_is(r.tiers@[3], 1_000_000, (10, 4), (20, 4)),
            r.tiers@[0].label@ == "Tier 1"@,
            r.tiers@[1].label@ == "Tier 2"@,
            r.tiers@[2].label@ == "Tier 3"@,
            r.tiers@[3].label@ == "Tier 4"@,
    {
        let t = FeeTable::new(ExchangeId::CoinbasePro);
        assert(pow10(0) == 1);
        let t0 = percentage_tier(0, 40, 60, 4, "Tier 1");
        let t = t.append_tier(t0);
        assert(t.tiers@.last() == t0);
        let t = t.append_tier(percentage_tier(10_000, 25, 40, 4, "Tier 2"));
        let t = t.append_tier(percentage_tier(100_000, 15, 25, 4, "Tier 3"));
        t.append_tier(percentage_tier(1_000_000, 10, 20, 4, "Tier 4"))
    }

    /// Kraken Pro's schedule: 0.16% / 0.26% down to 0.12% / 0.22%.
    pub fn kraken_default() -> (r: FeeTable)
        ensures
            r.exchange == ExchangeId::Kraken,
            r.native_token_discount is None,
            r.institutional_discount is None,
            r.tiers@.len() == 3,
            tier_is(r.tiers@[0], 0, (16, 4), (26, 4)),
            tier_is(r.tiers@[1], 50_000, (14, 4), (24, 4)),
            tier_is(r.tiers@[2], 1_000_000, (12, 4), (22, 4)),
            r.tiers@[0].label@ == "Tier 1"@,
            r.tiers@[1].label@ == "Tier 2"@,
            r.tiers@[2].label@ == "Tier 4"@,
    {
        let t = FeeTable::new(ExchangeId::Kraken);
        assert(pow10(0) == 1);
        let t0 = percentage_tier(0, 16, 26, 4, "Tier 1");
        let t = t.append_tier(t0);
        assert(t.tiers@.last() == t0);
        let t = t.append_tier(percentage_tier(50_000, 14, 24, 4, "Tier 2"));
        t.append_tier(percentage_tier(1_000_000, 12, 22, 4, "Tier 4"))
    }
}

} // verus!
