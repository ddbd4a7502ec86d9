//! The fee model interface and the tiered fee model.

use vstd::prelude::*;

use crate::decimal::{checked_mul, decimal_checked_add, decimal_checked_mul, opt_view, Decimal};
use crate::fee::error::{FeeModelError, FeeModelResult};
use crate::fee::role::TradeRole;
use crate::fee::table::FeeTable;
use crate::fee::types::{
    breakdown_sum, exchange_name, same_exchange, BreakdownView, ExchangeId, FeeBreakdown,
    FeeRecord, VolumeTier,
};

verus! {

/// Price and quantity of a trade, as fee computations see it.
#[derive(Debug, Clone, Copy, PartialEq, Eq)]
pub struct FeeTrade {
    /// Trade id.
    pub trade_id: u64,
    /// Price.
    pub price: Decimal,
    /// Quantity.
    pub quantity: Decimal,
}

impl FeeTrade {
    /// A trade view.
    pub fn new(trade_id: u64, price: Decimal, quantity: Decimal) -> (r: FeeTrade)
        ensures
            r.trade_id == trade_id,
            r.price@ == price@,
            r.quantity@ == quantity@,
    {
        FeeTrade { trade_id, price, quantity }
    }

    /// The notional `price * quantity`, as `rust_decimal` computes it.
    pub open spec fn notional_spec(self) -> Option<(int, nat)> {
        decimal_checked_mul(self.price@, self.quantity@)
    }

    /// Notional amount `price * quantity`.
    pub fn notional(&self) -> (r: Decimal)
        requires
            self.notional_spec() is Some,
        ensures
            Some(r@) == self.notional_spec(),
    {
        match checked_mul(&self.price, &self.quantity) {
            Some(v) => v,
            None => {
                assert(false);
                self.price
            },
        }
    }
}

/// A position, as funding computations see it.
#[derive(Debug, Clone, Copy, PartialEq, Eq)]
pub struct FeePosition {
    /// Signed quantity (positive long, negative short).
    pub quantity: Decimal,
    /// Average entry price.
    pub avg_entry_price: Decimal,
}

/// `|q|` at the scale of `q`.
pub open spec fn abs_view(q: (int, nat)) -> (int, nat) {
    (if q.0 < 0 { -q.0 } else { q.0 }, q.1)
}

impl FeePosition {
    /// A position view.
    pub fn new(quantity: Decimal, avg_entry_price: Decimal) -> (r: FeePosition)
        ensures
            r.quantity@ == quantity@,
            r.avg_entry_price@ == avg_entry_price@,
    {
        FeePosition { quantity, avg_entry_price }
    }

    /// The notional `|quantity| * avg_entry_price`, as `rust_decimal` computes it.
    pub open spec fn notional_spec(self) -> Option<(int, nat)> {
        decimal_checked_mul(abs_view(self.quantity@), self.avg_entry_price@)
    }

    /// Notional position `|quantity| * avg_entry_price`.
    pub fn notional(&self) -> (r: Decimal)
        requires
            self.notional_spec() is Some,
        ensures
            Some(r@) == self.notional_spec(),
    {
        let q = self.quantity.abs();
        match checked_mul(&q, &self.avg_entry_price) {
            Some(v) => v,
            None => {
                assert(false);
                q
            },
        }
    }
}

/// Funding for a position at a rate: `notional * rate`.
pub open spec fn funding_spec(position: FeePosition, rate: (int, nat)) -> Option<(int, nat)> {
    match position.notional_spec() {
        None => None,
        Some(n) => decimal_checked_mul(n, rate),
    }
}

/// Sum of the breakdowns of a list of records, in order.
pub open spec fn accumulate_spec(fees: Seq<FeeRecord>) -> Option<BreakdownView>
    decreases fees.len(),
{
    if fees.len() == 0 {
        Some(((0int, 0nat), (0int, 0nat), (0int, 0nat), (0int, 0nat)))
    } else {
        match accumulate_spec(fees.drop_last()) {
            None => None,
            Some(v) => breakdown_sum(v, fees.last().fee_breakdown.view_parts()),
        }
    }
}

/// Index of the first entry naming the exchange.
pub open spec fn table_index(s: Seq<FeeTable>, e: ExchangeId) -> Option<int>
    decreases s.len(),
{
    if s.len() == 0 {
        None
    } else {
        match table_index(s.drop_last(), e) {
            Some(i) => Some(i),
            None => if same_exchange(s.last().exchange, e) {
                Some(s.len() - 1)
            } else {
                None
            },
        }
    }
}

/// Index of the first volume entry naming the exchange.
pub open spec fn volume_index(s: Seq<(ExchangeId, Decimal)>, e: ExchangeId) -> Option<int>
    decreases s.len(),
{
    if s.len() == 0 {
        None
    } else {
        match volume_index(s.drop_last(), e) {
            Some(i) => Some(i),
            None => if same_exchange(s.last().0, e) {
                Some(s.len() - 1)
            } else {
                None
            },
        }
    }
}

/// No exchange occurs twice.
pub open spec fn tables_unique(s: Seq<FeeTable>) -> bool {
    forall|i: int, j: int|
        0 <= i < j < s.len() ==> !same_exchange(#[trigger] s[i].exchange, #[trigger] s[j].exchange)
}

/// No exchange occurs twice.
pub open spec fn volumes_unique(s: Seq<(ExchangeId, Decimal)>) -> bool {
    forall|i: int, j: int| 0 <= i < j < s.len() ==> !same_exchange(#[trigger] s[i].0, #[trigger] s[j].0)
}

/// Interface of fee models.
pub trait FeeModel {
    /// Funding at `rate` is within the decimal range.
    spec fn funding_defined(&self, position: FeePosition, rate: Decimal) -> bool;

    /// The records' fees add up within the decimal range.
    spec fn accumulate_defined(&self, fees: Seq<FeeRecord>) -> bool;

    /// Fee of one trade.
    fn calculate_fee(
        &self,
        exchange: ExchangeId,
        trade: &FeeTrade,
        role: TradeRole,
    ) -> FeeModelResult<FeeBreakdown>;

    /// Funding of a position.
    fn calculate_funding(&self, position: &FeePosition, rate: Decimal) -> Decimal
        requires
            self.funding_defined(*position, rate),
    ;

    /// The tier that applies at a 30-day volume.
    fn get_tier(&self, exchange: ExchangeId, volume_30d: Decimal) -> FeeModelResult<&VolumeTier>;

    /// Total of a list of fee records.
    fn accumulate(&self, fees: &[FeeRecord]) -> FeeBreakdown
        requires
            self.accumulate_defined(fees@),
    ;
}

/// Tiered fee model: a fee table and a 30-day volume per exchange.
#[derive(Debug)]
pub struct TieredFeeModel {
    fee_tables: Vec<FeeTable>,
    volumes: Vec<(ExchangeId, Decimal)>,
    accumulated_fees: Vec<FeeRecord>,
}

impl TieredFeeModel {
    #[verifier::type_invariant]
    spec fn inv(self) -> bool {
        &&& tables_unique(self.fee_tables@)
        &&& volumes_unique(self.volumes@)
    }

    /// Registered tables, one per exchange.
    pub closed spec fn tables(self) -> Seq<FeeTable> {
        self.fee_tables@
    }

    /// Recorded 30-day volumes, one per exchange.
    pub closed spec fn volume_entries(self) -> Seq<(ExchangeId, Decimal)> {
        self.volumes@
    }

    /// Recorded fees, in order.
    pub closed spec fn records(self) -> Seq<FeeRecord> {
        self.accumulated_fees@
    }

    /// The 30-day volume used for an exchange (zero if none was set).
    pub open spec fn volume_for(self, e: ExchangeId) -> (int, nat) {
        match volume_index(self.volume_entries(), e) {
            Some(i) => self.volume_entries()[i].1@,
            None => (0int, 0nat),
        }
    }

    /// The table registered for an exchange, if any.
    pub open spec fn table_for(self, e: ExchangeId) -> Option<FeeTable> {
        match table_index(self.tables(), e) {
            Some(i) => Some(self.tables()[i]),
            None => None,
        }
    }

    /// `self` is `before` with `table` registered: it replaces the table of
    /// its exchange, or comes last; volumes and records stay.
    pub open spec fn registers(self, before: TieredFeeModel, table: FeeTable) -> bool {
        &&& match table_index(before.tables(), table.exchange) {
            Some(i) => self.tables() == before.tables().update(i, table),
            None => self.tables() == before.tables().push(table),
        }
        &&& self.volume_entries() == before.volume_entries()
        &&& self.records() == before.records()
    }

    /// `self` is `before` with the 30-day volume of `exchange` set to
    /// `volume`; tables and records stay.
    pub open spec fn sets_volume(self, before: TieredFeeModel, exchange: ExchangeId, volume: Decimal) -> bool {
        &&& match volume_index(before.volume_entries(), exchange) {
            Some(i) => self.volume_entries() == before.volume_entries().update(i, (exchange, volume)),
            None => self.volume_entries() == before.volume_entries().push((exchange, volume)),
        }
        &&& self.tables() == before.tables()
        &&& self.records() == before.records()
    }

    /// Outcome of `calculate_fee`: `Ok` with the commission, or the error kind.
    pub open spec fn fee_spec(self, exchange: ExchangeId, trade: FeeTrade, role: TradeRole) -> Result<
        (int, nat),
        u8,
    > {
        match table_index(self.tables(), exchange) {
            None => Err(0u8),
            Some(i) => match trade.notional_spec() {
                None => Err(2u8),
                Some(n) => match self.tables()[i].fee_outcome(
                    role == TradeRole::Maker,
                    n,
                    self.volume_for(exchange),
                ) {
                    None => Err(1u8),
                    Some(None) => Err(2u8),
                    Some(Some(v)) => Ok(v),
                },
            },
        }
    }

    /// An empty model.
    pub fn new() -> (r: TieredFeeModel)
        ensures
            r.tables().len() == 0,
            r.volume_entries().len() == 0,
            r.records().len() == 0,
    {
        TieredFeeModel { fee_tables: Vec::new(), volumes: Vec::new(), accumulated_fees: Vec::new() }
    }

    /// Position of the table of an exchange.
    fn find_table(&self, exchange: &ExchangeId) -> (r: Option<usize>)
        ensures
            match r {
                Some(i) => table_index(self.tables(), *exchange) == Some(i as int) && i
                    < self.tables().len() && same_exchange(self.tables()[i as int].exchange, *exchange),
                None => table_index(self.tables(), *exchange) is None,
            },
    {
        let n = self.fee_tables.len();
        let mut i: usize = 0;
        while i < n
            invariant
                n == self.fee_tables@.len(),
                i <= n,
                table_index(self.fee_tables@.subrange(0, i as int), *exchange) is None,
            decreases n - i,
        {
            let ghost pre = self.fee_tables@.subrange(0, i as int);
            let ghost post = self.fee_tables@.subrange(0, i + 1);
            assert(post.drop_last() == pre);
            if self.fee_tables[i].exchange.same_as(exchange) {
                proof {
                    lemma_table_index_prefix(self.fee_tables@, i as int + 1, *exchange);
                }
                return Some(i);
            }
            i += 1;
        }
        assert(self.fee_tables@.subrange(0, n as int) == self.fee_tables@);
        None
    }

    /// Position of the volume entry of an exchange.
    fn find_volume(&self, exchange: &ExchangeId) -> (r: Option<usize>)
        ensures
            match r {
                Some(i) => volume_index(self.volume_entries(), *exchange) == Some(i as int) && i
                    < self.volume_entries().len() && same_exchange(self.volume_entries()[i as int].0, *exchange),
                None => volume_index(self.volume_entries(), *exchange) is None,
            },
    {
        let n = self.volumes.len();
        let mut i: usize = 0;
        while i < n
            invariant
                n == self.volumes@.len(),
                i <= n,
                volume_index(self.volumes@.subrange(0, i as int), *exchange) is None,
            decreases n - i,
        {
            let ghost pre = self.volumes@.subrange(0, i as int);
            let ghost post = self.volumes@.subrange(0, i + 1);
            assert(post.drop_last() == pre);
            if self.volumes[i].0.same_as(exchange) {
                proof {
                    lemma_volume_index_prefix(self.volumes@, i as int + 1, *exchange);
                }
                return Some(i);
            }
            i += 1;
        }
        assert(self.volumes@.subrange(0, n as int) == self.volumes@);
        None
    }

    /// Registers the table of its exchange, replacing an earlier one.
    pub fn register_exchange(&mut self, table: FeeTable)
        ensures
            final(self).registers(*old(self), table),
    {
        proof {
            use_type_invariant(&*self);
        }
        let ghost e = table.exchange;
        match self.find_table(&table.exchange) {
            Some(i) => {
                let mut tables = Vec::new();
                std::mem::swap(&mut tables, &mut self.fee_tables);
                tables.set(i, table);
                proof {
                    lemma_table_index_unique(old(self).fee_tables@, i as int);
                    assert forall|x: int, y: int| 0 <= x < y < tables@.len() implies !same_exchange(
                        #[trigger] tables@[x].exchange,
                        #[trigger] tables@[y].exchange,
                    ) by {
                        lemma_same_exchange_props();
                    }
                }
                self.fee_tables = tables;
            },
            None => {
                let mut tables = Vec::new();
                std::mem::swap(&mut tables, &mut self.fee_tables);
                tables.push(table);
                proof {
                    assert forall|x: int, y: int| 0 <= x < y < tables@.len() implies !same_exchange(
                        #[trigger] tables@[x].exchange,
                        #[trigger] tables@[y].exchange,
                    ) by {
                        if y == tables@.len() - 1 {
                            lemma_table_index_none(old(self).fee_tables@, e, x);
                            lemma_same_exchange_props();
                        }
                    }
                }
                self.fee_tables = tables;
            },
        }
    }

    /// Sets the 30-day volume of an exchange.
    pub fn update_volume(&mut self, exchange: ExchangeId, volume: Decimal)
        ensures
            final(self).sets_volume(*old(self), exchange, volume),
    {
        proof {
            use_type_invariant(&*self);
        }
        let ghost e = exchange;
        match self.find_volume(&exchange) {
            Some(i) => {
                let mut vols = Vec::new();
                std::mem::swap(&mut vols, &mut self.volumes);
                proof {
                    lemma_volume_index_unique(old(self).volumes@, i as int);
                }
                vols.set(i, (exchange, volume));
                proof {
                    assert forall|x: int, y: int| 0 <= x < y < vols@.len() implies !same_exchange(
                        #[trigger] vols@[x].0,
                        #[trigger] vols@[y].0,
                    ) by {
                        lemma_same_exchange_props();
                    }
                }
                self.volumes = vols;
            },
            None => {
                let mut vols = Vec::new();
                std::mem::swap(&mut vols, &mut self.volumes);
                vols.push((exchange, volume));
                proof {
                    assert forall|x: int, y: int| 0 <= x < y < vols@.len() implies !same_exchange(
                        #[trigger] vols@[x].0,
                        #[trigger] vols@[y].0,
                    ) by {
                        if y == vols@.len() - 1 {
                            lemma_volume_index_none(old(self).volumes@, e, x);
                            lemma_same_exchange_props();
                        }
                    }
                }
                self.volumes = vols;
            },
        }
    }

    /// Number of registered exchanges.
    pub fn exchange_count(&self) -> (r: usize)
        ensures
            r == self.tables().len(),
    {
        self.fee_tables.len()
    }

    /// Number of recorded fees.
    pub fn record_count(&self) -> (r: usize)
        ensures
            r == self.records().len(),
    {
        self.accumulated_fees.len()
    }

    /// Records a fee, for reports.
    pub fn record(&mut self, record: FeeRecord)
        ensures
            final(self).records() == old(self).records().push(record),
            final(self).tables() == old(self).tables(),
            final(self).volume_entries() == old(self).volume_entries(),
    {
        proof {
            use_type_invariant(&*self);
        }
        let mut recs = Vec::new();
                std::mem::swap(&mut recs, &mut self.accumulated_fees);
        recs.push(record);
        self.accumulated_fees = recs;
    }

    /// The registered exchanges, in registration order.
    pub fn exchanges(&self) -> (r: Vec<ExchangeId>)
        ensures
            r@.len() == self.tables().len(),
            forall|i: int|
                0 <= i < r@.len() ==> same_exchange(#[trigger] r@[i], self.tables()[i].exchange),
    {
        let mut out: Vec<ExchangeId> = Vec::new();
        let n = self.fee_tables.len();
        let mut i: usize = 0;
        while i < n
            invariant
                n == self.fee_tables@.len(),
                i <= n,
                out@.len() == i,
                forall|k: int|
                    0 <= k < i ==> same_exchange(#[trigger] out@[k], self.fee_tables@[k].exchange),
            decreases n - i,
        {
            out.push(self.fee_tables[i].exchange.clone());
            i += 1;
        }
        out
    }

    /// Funding, or `None` where it leaves the decimal range.
    pub fn checked_calculate_funding(&self, position: &FeePosition, rate: Decimal) -> (r: Option<
        Decimal,
    >)
        ensures
            opt_view(r) == funding_spec(*position, rate@),
    {
        let q = position.quantity.abs();
        let fits = match checked_mul(&q, &position.avg_entry_price) {
            Some(n) => checked_mul(&n, &rate).is_some(),
            None => false,
        };
        if fits {
            Some(self.calculate_funding(position, rate))
        } else {
            None
        }
    }

    /// Total of a list of fee records, or `None` where a sum leaves the decimal range.
    pub fn checked_accumulate(&self, fees: &[FeeRecord]) -> (r: Option<FeeBreakdown>)
        ensures
            match r {
                Some(b) => accumulate_spec(fees@) == Some(b.view_parts()),
                None => accumulate_spec(fees@) is None,
            },
    {
        let mut total = FeeBreakdown::zero();
        let n = fees.len();
        let mut i: usize = 0;
        while i < n
            invariant
                n == fees@.len(),
                i <= n,
                accumulate_spec(fees@.subrange(0, i as int)) == Some(total.view_parts()),
            decreases n - i,
        {
            let ghost pre = fees@.subrange(0, i as int);
            let ghost post = fees@.subrange(0, i + 1);
            assert(post.drop_last() == pre);
            assert(post.last() == fees@[i as int]);
            if !total.checked_add(&fees[i].fee_breakdown) {
                proof {
                    lemma_accumulate_none_extends(fees@, i as int + 1);
                }
                return None;
            }
            i += 1;
        }
        assert(fees@.subrange(0, n as int) == fees@);
        Some(total)
    }
}

impl Default for TieredFeeModel {
    fn default() -> (r: TieredFeeModel)
        ensures
            r.tables().len() == 0,
            r.volume_entries().len() == 0,
            r.records().len() == 0,
    {
        TieredFeeModel::new()
    }
}

impl FeeModel for TieredFeeModel {
    open spec fn funding_defined(&self, position: FeePosition, rate: Decimal) -> bool {
        funding_spec(position, rate@) is Some
    }

    open spec fn accumulate_defined(&self, fees: Seq<FeeRecord>) -> bool {
        accumulate_spec(fees) is Some
    }

    /// Fee of a trade on an exchange: its notional at the tier of the
    /// exchange's recorded 30-day volume (zero if none), with discounts.
    fn calculate_fee(&self, exchange: ExchangeId, trade: &FeeTrade, role: TradeRole) -> (r:
        FeeModelResult<FeeBreakdown>)
        ensures
            match self.fee_spec(exchange, *trade, role) {
                Ok(v) => r matches Ok(b) && b.view_parts() == (
                    v,
                    (0int, 0nat),
                    (0int, 0nat),
                    v,
                ),
                Err(k) => if k == 0 {
                    r matches Err(FeeModelError::ExchangeNotRegistered(s)) && s@ == exchange_name(
                        exchange,
                    )
                } else if k == 1 {
                    r matches Err(FeeModelError::NoTiersConfigured(_))
                } else {
                    r matches Err(FeeModelError::Overflow(_))
                },
            },
    {
        let i = match self.find_table(&exchange) {
            Some(i) => i,
            None => {
                return Err(FeeModelError::ExchangeNotRegistered(exchange.name().to_owned()));
            },
        };
        let table = &self.fee_tables[i];
        let volume = match self.find_volume(&exchange) {
            Some(j) => self.volumes[j].1,
            None => Decimal::zero(),
        };
        if checked_mul(&trade.price, &trade.quantity).is_none() {
            return Err(FeeModelError::Overflow(exchange.name().to_owned()));
        }
        let notional = trade.notional();
        let commission = match role {
            TradeRole::Maker => table.maker_fee(notional, volume),
            TradeRole::Taker => table.taker_fee(notional, volume),
        };
        match commission {
            Ok(c) => Ok(FeeBreakdown::from_commission(c)),
            Err(e) => Err(e),
        }
    }

    /// Funding of a position at a rate: `|quantity| * avg_entry_price * rate`.
    fn calculate_funding(&self, position: &FeePosition, rate: Decimal) -> (r: Decimal)
        ensures
            Some(r@) == funding_spec(*position, rate@),
    {
        let n = position.notional();
        match checked_mul(&n, &rate) {
            Some(v) => v,
            None => {
                assert(false);
                n
            },
        }
    }

    /// The tier of a registered exchange at a 30-day volume.
    fn get_tier(&self, exchange: ExchangeId, volume_30d: Decimal) -> (r: FeeModelResult<
        &VolumeTier,
    >)
        ensures
            match table_index(self.tables(), exchange) {
                None => r matches Err(FeeModelError::ExchangeNotRegistered(s)) && s@
                    == exchange_name(exchange),
                Some(i) => match self.tables()[i].tier_at(volume_30d@) {
                    None => r matches Err(FeeModelError::NoTiersConfigured(s)) && s@
                        == exchange_name(exchange),
                    Some(k) => r matches Ok(t) && *t == self.tables()[i].tiers@[k],
                },
            },
    {
        let i = match self.find_table(&exchange) {
            Some(i) => i,
            None => {
                return Err(FeeModelError::ExchangeNotRegistered(exchange.name().to_owned()));
            },
        };
        match self.fee_tables[i].find_tier(volume_30d) {
            Some(t) => Ok(t),
            None => Err(FeeModelError::NoTiersConfigured(exchange.name().to_owned())),
        }
    }

    /// Component-wise total of the records' fees.
    fn accumulate(&self, fees: &[FeeRecord]) -> (r: FeeBreakdown)
        ensures
            accumulate_spec(fees@) == Some(r.view_parts()),
    {
        match self.checked_accumulate(fees) {
            Some(b) => b,
            None => {
                assert(false);
                FeeBreakdown::zero()
            },
        }
    }
}

/// `same_exchange` is an equivalence.
pub proof fn lemma_same_exchange_props()
    ensures
        forall|a: ExchangeId| #[trigger] same_exchange(a, a),
        forall|a: ExchangeId, b: ExchangeId|
            #[trigger] same_exchange(a, b) ==> same_exchange(b, a),
        forall|a: ExchangeId, b: ExchangeId, c: ExchangeId|
            #[trigger] same_exchange(a, b) && #[trigger] same_exchange(b, c) ==> same_exchange(a, c),
{
}

/// A match found in a prefix is the first match of the whole sequence.
pub proof fn lemma_table_index_prefix(s: Seq<FeeTable>, n: int, e: ExchangeId)
    requires
        0 < n <= s.len(),
        table_index(s.subrange(0, n - 1), e) is None,
        same_exchange(s[n - 1].exchange, e),
    ensures
        table_index(s, e) == Some(n - 1),
    decreases s.len() - n,
{
    let p = s.subrange(0, n);
    assert(p.drop_last() == s.subrange(0, n - 1));
    if n < s.len() {
        assert(s.subrange(0, n + 1).drop_last() == p);
        lemma_table_index_prefix_up(s, n + 1, e, n - 1);
    } else {
        assert(p == s);
    }
}

/// Extending a sequence keeps a first match found in its prefix.
pub proof fn lemma_table_index_prefix_up(s: Seq<FeeTable>, m: int, e: ExchangeId, k: int)
    requires
        0 < m <= s.len(),
        table_index(s.subrange(0, m - 1), e) == Some(k),
    ensures
        table_index(s, e) == Some(k),
    decreases s.len() - m,
{
    assert(s.subrange(0, m).drop_last() == s.subrange(0, m - 1));
    if m < s.len() {
        lemma_table_index_prefix_up(s, m + 1, e, k);
    } else {
        assert(s.subrange(0, m) == s);
    }
}

/// In a sequence without repeats, the first match of the exchange at `i` is `i`.
pub proof fn lemma_table_index_unique(s: Seq<FeeTable>, i: int)
    requires
        tables_unique(s),
        0 <= i < s.len(),
    ensures
        forall|e: ExchangeId|
            same_exchange(s[i].exchange, e) ==> table_index(s, e) == Some(i),
        forall|j: int| 0 <= j < s.len() && j != i ==> !same_exchange(#[trigger] s[j].exchange, s[i].exchange),
{
    lemma_same_exchange_props();
    assert forall|e: ExchangeId| same_exchange(s[i].exchange, e) implies table_index(s, e) == Some(i) by {
        lemma_table_index_none_before(s, e, i);
        lemma_table_index_prefix(s, i + 1, e);
    }
}

/// No match among the first `i` entries when only entry `i` matches among distinct entries.
pub proof fn lemma_table_index_none_before(s: Seq<FeeTable>, e: ExchangeId, i: int)
    requires
        tables_unique(s),
        0 <= i < s.len(),
        same_exchange(s[i].exchange, e),
    ensures
        table_index(s.subrange(0, i), e) is None,
    decreases i,
{
    lemma_same_exchange_props();
    if i > 0 {
        let p = s.subrange(0, i);
        assert(p.drop_last() == s.subrange(0, i - 1));
        assert(p.last() == s[i - 1]);
        assert(!same_exchange(s[i - 1].exchange, s[i].exchange));
        lemma_table_index_none_before_rec(s, e, i, i - 1);
    }
}

/// Helper: no entry before `k + 1` matches.
pub proof fn lemma_table_index_none_before_rec(s: Seq<FeeTable>, e: ExchangeId, i: int, k: int)
    requires
        tables_unique(s),
        0 <= k < i < s.len(),
        same_exchange(s[i].exchange, e),
    ensures
        table_index(s.subrange(0, k + 1), e) is None,
    decreases k,
{
    lemma_same_exchange_props();
    let p = s.subrange(0, k + 1);
    assert(p.last() == s[k]);
    assert(!same_exchange(s[k].exchange, s[i].exchange));
    if same_exchange(s[k].exchange, e) {
        assert(same_exchange(e, s[i].exchange));
        assert(same_exchange(s[k].exchange, s[i].exchange));
    }
    if k == 0 {
        assert(p.drop_last().len() == 0);
        assert(table_index(p.drop_last(), e) is None);
    } else {
        assert(p.drop_last() == s.subrange(0, k));
        lemma_table_index_none_before_rec(s, e, i, k - 1);
        assert(table_index(p.drop_last(), e) is None);
    }
}

/// When nothing matches, no entry names the exchange.
pub proof fn lemma_table_index_none(s: Seq<FeeTable>, e: ExchangeId, x: int)
    requires
        table_index(s, e) is None,
        0 <= x < s.len(),
    ensures
        !same_exchange(s[x].exchange, e),
    decreases s.len(),
{
    if x < s.len() - 1 {
        assert(s.drop_last()[x] == s[x]);
        lemma_table_index_none(s.drop_last(), e, x);
    }
}

/// A match found in a prefix is the first match of the whole sequence.
pub proof fn lemma_volume_index_prefix(s: Seq<(ExchangeId, Decimal)>, n: int, e: ExchangeId)
    requires
        0 < n <= s.len(),
        volume_index(s.subrange(0, n - 1), e) is None,
        same_exchange(s[n - 1].0, e),
    ensures
        volume_index(s, e) == Some(n - 1),
    decreases s.len() - n,
{
    let p = s.subrange(0, n);
    assert(p.drop_last() == s.subrange(0, n - 1));
    if n < s.len() {
        assert(s.subrange(0, n + 1).drop_last() == p);
        lemma_volume_index_prefix_up(s, n + 1, e, n - 1);
    } else {
        assert(p == s);
    }
}

/// Extending a sequence keeps a first match found in its prefix.
pub proof fn lemma_volume_index_prefix_up(
    s: Seq<(ExchangeId, Decimal)>,
    m: int,
    e: ExchangeId,
    k: int,
)
    requires
        0 < m <= s.len(),
        volume_index(s.subrange(0, m - 1), e) == Some(k),
    ensures
        volume_index(s, e) == Some(k),
    decreases s.len() - m,
{
    assert(s.subrange(0, m).drop_last() == s.subrange(0, m - 1));
    if m < s.len() {
        lemma_volume_index_prefix_up(s, m + 1, e, k);
    } else {
        assert(s.subrange(0, m) == s);
    }
}

/// In a sequence without repeats, no other entry names the exchange at `i`.
pub proof fn lemma_volume_index_unique(s: Seq<(ExchangeId, Decimal)>, i: int)
    requires
        volumes_unique(s),
        0 <= i < s.len(),
    ensures
        forall|j: int| 0 <= j < s.len() && j != i ==> !same_exchange(#[trigger] s[j].0, s[i].0),
{
    lemma_same_exchange_props();
}

/// When nothing matches, no entry names the exchange.
pub proof fn lemma_volume_index_none(s: Seq<(ExchangeId, Decimal)>, e: ExchangeId, x: int)
    requires
        volume_index(s, e) is None,
        0 <= x < s.len(),
    ensures
        !same_exchange(s[x].0, e),
    decreases s.len(),
{
    if x < s.len() - 1 {
        assert(s.drop_last()[x] == s[x]);
        lemma_volume_index_none(s.drop_last(), e, x);
    }
}

/// An overflow in a prefix makes the whole total overflow.
pub proof fn lemma_accumulate_none_extends(fees: Seq<FeeRecord>, m: int)
    requires
        0 < m <= fees.len(),
        accumulate_spec(fees.subrange(0, m)) is None,
    ensures
        accumulate_spec(fees) is None,
    decreases fees.len() - m,
{
    if m < fees.len() {
        assert(fees.subrange(0, m + 1).drop_last() == fees.subrange(0, m));
        lemma_accumulate_none_extends(fees, m + 1);
    } else {
        assert(fees.subrange(0, m) == fees);
    }
}

/// A first match lies in the sequence and names the exchange.
pub proof fn lemma_table_index_found(s: Seq<FeeTable>, e: ExchangeId)
    ensures
        table_index(s, e) matches Some(k) ==> 0 <= k < s.len() && same_exchange(s[k].exchange, e),
    decreases s.len(),
{
    if s.len() > 0 {
        lemma_table_index_found(s.drop_last(), e);
    }
}

/// Replacing the entry at the first match of `t`'s exchange by `t` finds
/// every exchange where it was found before.
pub proof fn lemma_table_index_update(s: Seq<FeeTable>, i: int, t: FeeTable, e: ExchangeId)
    requires
        table_index(s, t.exchange) == Some(i),
    ensures
        table_index(s.update(i, t), e) == table_index(s, e),
    decreases s.len(),
{
    lemma_table_index_found(s, t.exchange);
    lemma_same_exchange_props();
    let u = s.update(i, t);
    if i == s.len() - 1 {
        assert(u.drop_last() =~= s.drop_last());
        lemma_table_index_found(s.drop_last(), t.exchange);
        assert(table_index(s.drop_last(), t.exchange) is None);
        assert(u.last() == t);
        assert(same_exchange(s.last().exchange, t.exchange));
    } else {
        assert(table_index(s.drop_last(), t.exchange) == Some(i));
        assert(u.drop_last() =~= s.drop_last().update(i, t));
        lemma_table_index_update(s.drop_last(), i, t, e);
        assert(u.last() == s.last());
    }
}

/// A first match lies in the sequence and names the exchange.
pub proof fn lemma_volume_index_found(s: Seq<(ExchangeId, Decimal)>, e: ExchangeId)
    ensures
        volume_index(s, e) matches Some(k) ==> 0 <= k < s.len() && same_exchange(s[k].0, e),
    decreases s.len(),
{
    if s.len() > 0 {
        lemma_volume_index_found(s.drop_last(), e);
    }
}

/// Replacing the entry at the first match of `v`'s exchange by `v` finds
/// every exchange where it was found before.
pub proof fn lemma_volume_index_update(
    s: Seq<(ExchangeId, Decimal)>,
    i: int,
    v: (ExchangeId, Decimal),
    e: ExchangeId,
)
    requires
        volume_index(s, v.0) == Some(i),
    ensures
        volume_index(s.update(i, v), e) == volume_index(s, e),
    decreases s.len(),
{
    lemma_volume_index_found(s, v.0);
    lemma_same_exchange_props();
    let u = s.update(i, v);
    if i == s.len() - 1 {
        assert(u.drop_last() =~= s.drop_last());
        lemma_volume_index_found(s.drop_last(), v.0);
        assert(volume_index(s.drop_last(), v.0) is None);
        assert(u.last() == v);
        assert(same_exchange(s.last().0, v.0));
    } else {
        assert(volume_index(s.drop_last(), v.0) == Some(i));
        assert(u.drop_last() =~= s.drop_last().update(i, v));
        lemma_volume_index_update(s.drop_last(), i, v, e);
        assert(u.last() == s.last());
    }
}

/// Registering a table makes it the table of its exchange, and leaves the
/// tables of every other exchange, the volumes and the records as they were.
pub proof fn registered_table_is_used(before: TieredFeeModel, table: FeeTable, after: TieredFeeModel)
    requires
        after.registers(before, table),
    ensures
        forall|e: ExchangeId| same_exchange(table.exchange, e) ==> #[trigger] after.table_for(e) == Some(table),
        forall|e: ExchangeId|
            !same_exchange(table.exchange, e) ==> #[trigger] after.table_for(e) == before.table_for(e),
        forall|e: ExchangeId| #[trigger] after.volume_for(e) == before.volume_for(e),
        after.records() == before.records(),
{
    lemma_same_exchange_props();
    let s = before.tables();
    assert forall|e: ExchangeId| same_exchange(table.exchange, e) implies #[trigger] after.table_for(e) == Some(table) by {
        lemma_table_index_found(s, table.exchange);
        lemma_table_index_same(s, table.exchange, e);
        match table_index(s, table.exchange) {
            Some(i) => {
                lemma_table_index_update(s, i, table, e);
            },
            None => {
                assert(after.tables().drop_last() =~= s);
            },
        }
    }
    assert forall|e: ExchangeId| !same_exchange(table.exchange, e) implies #[trigger] after.table_for(e) == before.table_for(e) by {
        lemma_table_index_found(s, e);
        match table_index(s, table.exchange) {
            Some(i) => {
                lemma_table_index_found(s, table.exchange);
                lemma_table_index_update(s, i, table, e);
            },
            None => {
                assert(after.tables().drop_last() =~= s);
            },
        }
    }
}

/// Exchanges that are the same have the same first match.
proof fn lemma_table_index_same(s: Seq<FeeTable>, a: ExchangeId, b: ExchangeId)
    requires
        same_exchange(a, b),
    ensures
        table_index(s, a) == table_index(s, b),
    decreases s.len(),
{
    lemma_same_exchange_props();
    if s.len() > 0 {
        lemma_table_index_same(s.drop_last(), a, b);
    }
}

/// Setting the 30-day volume of an exchange makes it the volume used for
/// that exchange, and leaves every other exchange's volume, the tables and
/// the records as they were.
pub proof fn set_volume_is_used(
    before: TieredFeeModel,
    exchange: ExchangeId,
    volume: Decimal,
    after: TieredFeeModel,
)
    requires
        after.sets_volume(before, exchange, volume),
    ensures
        forall|e: ExchangeId| same_exchange(exchange, e) ==> #[trigger] after.volume_for(e) == volume@,
        forall|e: ExchangeId|
            !same_exchange(exchange, e) ==> #[trigger] after.volume_for(e) == before.volume_for(e),
        forall|e: ExchangeId| #[trigger] after.table_for(e) == before.table_for(e),
        after.records() == before.records(),
{
    lemma_same_exchange_props();
    let s = before.volume_entries();
    let v = (exchange, volume);
    assert forall|e: ExchangeId| same_exchange(exchange, e) implies #[trigger] after.volume_for(e) == volume@ by {
        lemma_volume_index_found(s, exchange);
        lemma_volume_index_found(s, e);
        lemma_volume_index_same(s, exchange, e);
        match volume_index(s, exchange) {
            Some(i) => {
                lemma_volume_index_update(s, i, v, e);
            },
            None => {
                assert(after.volume_entries().drop_last() =~= s);
            },
        }
    }
    assert forall|e: ExchangeId| !same_exchange(exchange, e) implies #[trigger] after.volume_for(e) == before.volume_for(e) by {
        lemma_volume_index_found(s, e);
        match volume_index(s, exchange) {
            Some(i) => {
                lemma_volume_index_found(s, exchange);
                lemma_volume_index_update(s, i, v, e);
            },
            None => {
                assert(after.volume_entries().drop_last() =~= s);
            },
        }
    }
}

/// Exchanges that are the same have the same first match.
proof fn lemma_volume_index_same(s: Seq<(ExchangeId, Decimal)>, a: ExchangeId, b: ExchangeId)
    requires
        same_exchange(a, b),
    ensures
        volume_index(s, a) == volume_index(s, b),
    decreases s.len(),
{
    lemma_same_exchange_props();
    if s.len() > 0 {
        lemma_volume_index_same(s.drop_last(), a, b);
    }
}

/// The fee of a trade on an exchange is computed with the table registered
/// for that exchange, at that exchange's 30-day volume: an exchange with no
/// table is refused; otherwise the commission is that table's maker or taker
/// fee (with its discounts) on `price * quantity`, whatever other tables are
/// registered.
pub proof fn fee_uses_the_exchanges_own_table(
    m: TieredFeeModel,
    e: ExchangeId,
    trade: FeeTrade,
    role: TradeRole,
)
    ensures
        m.table_for(e) is None ==> m.fee_spec(e, trade, role) == Err::<(int, nat), u8>(0u8),
        match (m.table_for(e), trade.notional_spec()) {
            (Some(t), Some(n)) => match t.fee_outcome(role == TradeRole::Maker, n, m.volume_for(e)) {
                Some(Some(v)) => m.fee_spec(e, trade, role) == Ok::<(int, nat), u8>(v),
                _ => m.fee_spec(e, trade, role) is Err,
            },
            (Some(t), None) => m.fee_spec(e, trade, role) is Err,
            (None, _) => true,
        },
{
}

/// Which component of a breakdown: 0 commission, 1 brokerage, 2 funding, 3 total.
pub open spec fn component(b: FeeBreakdown, c: int) -> (int, nat) {
    if c == 0 {
        b.commission@
    } else if c == 1 {
        b.brokerage@
    } else if c == 2 {
        b.funding@
    } else {
        b.total@
    }
}

/// Component `c` of a breakdown view.
pub open spec fn view_component(v: BreakdownView, c: int) -> (int, nat) {
    if c == 0 {
        v.0
    } else if c == 1 {
        v.1
    } else if c == 2 {
        v.2
    } else {
        v.3
    }
}

/// Running sum, as `rust_decimal` adds, of component `c` of the records, from
/// zero; `None` once a sum overflows.
pub open spec fn component_total(fees: Seq<FeeRecord>, c: int) -> Option<(int, nat)>
    decreases fees.len(),
{
    if fees.len() == 0 {
        Some((0int, 0nat))
    } else {
        match component_total(fees.drop_last(), c) {
            None => None,
            Some(t) => decimal_checked_add(t, component(fees.last().fee_breakdown, c)),
        }
    }
}

/// Accumulating records sums each component on its own: the total exists
/// exactly when no component's running sum overflows, and then each of its
/// components (commission, brokerage, funding, total) is the running sum of
/// that component over all the records.
pub proof fn accumulate_sums_each_component(fees: Seq<FeeRecord>)
    ensures
        accumulate_spec(fees) is Some <==> (forall|c: int|
            0 <= c < 4 ==> #[trigger] component_total(fees, c) is Some),
        accumulate_spec(fees) matches Some(v) ==> forall|c: int|
            0 <= c < 4 ==> Some(view_component(v, c)) == #[trigger] component_total(fees, c),
    decreases fees.len(),
{
    if fees.len() == 0 {
        assert forall|c: int| 0 <= c < 4 implies #[trigger] component_total(fees, c) is Some by {}
    } else {
        let p = fees.drop_last();
        let last = fees.last().fee_breakdown;
        accumulate_sums_each_component(p);
        crate::fee::types::breakdown_sum_adds_each_component(
            match accumulate_spec(p) {
                Some(v) => v,
                None => ((0int, 0nat), (0int, 0nat), (0int, 0nat), (0int, 0nat)),
            },
            last.view_parts(),
        );
        match accumulate_spec(p) {
            None => {
                let c = choose|c: int| 0 <= c < 4 && !(#[trigger] component_total(p, c) is Some);
                assert(component_total(fees, c) is None);
            },
            Some(v) => {
                assert forall|c: int| 0 <= c < 4 implies #[trigger] component_total(fees, c)
                    == decimal_checked_add(view_component(v, c), component(last, c)) by {
                    assert(Some(view_component(v, c)) == component_total(p, c));
                }
                assert(component_total(fees, 0) == decimal_checked_add(v.0, last.commission@));
                assert(component_total(fees, 1) == decimal_checked_add(v.1, last.brokerage@));
                assert(component_total(fees, 2) == decimal_checked_add(v.2, last.funding@));
                assert(component_total(fees, 3) == decimal_checked_add(v.3, last.total@));
            },
        }
    }
}

} // verus!
