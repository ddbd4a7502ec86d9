//! Fee tables of exchanges: volume tiers plus optional discounts.

use vstd::prelude::*;

use crate::decimal::{
    checked_mul, checked_sub, decimal_checked_mul, decimal_checked_sub, max_mantissa, opt_view,
    pow10, value_order, Decimal,
};
use crate::decimal_ord::compare;
use crate::fee::error::{FeeModelError, FeeModelResult};
use crate::fee::types::{exchange_name, ExchangeId, FeeType, VolumeTier};

verus! {

/// Tiers ordered by ascending minimum volume (by value).
pub open spec fn tiers_sorted(s: Seq<VolumeTier>) -> bool {
    forall|i: int, j: int|
        0 <= i < j < s.len() ==> value_order(#[trigger] s[i].min_volume@, #[trigger] s[j].min_volume@)
            <= 0
}

/// Index of the highest tier whose minimum volume is at most `volume`.
pub open spec fn tier_index(s: Seq<VolumeTier>, volume: (int, nat)) -> Option<int>
    decreases s.len(),
{
    if s.len() == 0 {
        None
    } else if value_order(volume, s.last().min_volume@) >= 0 {
        Some(s.len() - 1)
    } else {
        tier_index(s.drop_last(), volume)
    }
}

/// `fee * (1 - discount)` as `rust_decimal` computes it, when a discount is set.
pub open spec fn discounted(fee: Option<(int, nat)>, discount: Option<Decimal>) -> Option<
    (int, nat),
> {
    match fee {
        None => None,
        Some(f) => match discount {
            None => Some(f),
            Some(d) => match decimal_checked_sub((1int, 0nat), d@) {
                None => None,
                Some(k) => decimal_checked_mul(f, k),
            },
        },
    }
}

/// `t` sits at position `p` of the sorted sequence `s`: everything before
/// it is at most its minimum volume, everything after is above it.
pub open spec fn insert_point(s: Seq<VolumeTier>, t: VolumeTier, p: int) -> bool {
    &&& 0 <= p <= s.len()
    &&& forall|k: int| 0 <= k < p ==> value_order(#[trigger] s[k].min_volume@, t.min_volume@) <= 0
    &&& forall|k: int|
        p <= k < s.len() ==> value_order(#[trigger] s[k].min_volume@, t.min_volume@) > 0
}

/// The test "has a minimum volume equal in value to `v`".
pub open spec fn same_minimum(v: (int, nat)) -> spec_fn(VolumeTier) -> bool {
    |t: VolumeTier| value_order(t.min_volume@, v) == 0
}

/// No tier of `s` has a minimum volume equal in value to `v`: nothing passes the test.
pub proof fn lemma_filter_none(s: Seq<VolumeTier>, v: (int, nat))
    requires
        forall|k: int| 0 <= k < s.len() ==> value_order(#[trigger] s[k].min_volume@, v) != 0,
    ensures
        s.filter(same_minimum(v)) == Seq::<VolumeTier>::empty(),
    decreases s.len(),
{
    if s.len() == 0 {
        assert(s.filter(same_minimum(v)) =~= Seq::<VolumeTier>::empty()) by {
            reveal(Seq::filter);
        }
    } else {
        assert(s.drop_last().push(s.last()) =~= s);
        lemma_filter_none(s.drop_last(), v);
        s.drop_last().lemma_filter_push(s.last(), same_minimum(v));
    }
}

/// Putting `t` in front of tiers that are all above it keeps, for every
/// minimum volume, the order of the tiers with that minimum.
pub proof fn lemma_move_before(a: Seq<VolumeTier>, t: VolumeTier, b: Seq<VolumeTier>, v: (int, nat))
    requires
        forall|k: int| 0 <= k < b.len() ==> value_order(#[trigger] b[k].min_volume@, t.min_volume@) > 0,
    ensures
        (a.push(t) + b).filter(same_minimum(v)) == (a + b).push(t).filter(same_minimum(v)),
{
    let f = same_minimum(v);
    Seq::filter_distributes_over_add(a.push(t), b, f);
    Seq::filter_distributes_over_add(a, b, f);
    a.lemma_filter_push(t, f);
    (a + b).lemma_filter_push(t, f);
    if f(t) {
        assert forall|k: int| 0 <= k < b.len() implies value_order(#[trigger] b[k].min_volume@, v) != 0 by {
            if value_order(b[k].min_volume@, v) == 0 {
                assert(value_order(v, t.min_volume@) <= 0);
                lemma_value_le_trans(b[k].min_volume@, v, t.min_volume@);
            }
        }
        lemma_filter_none(b, v);
        assert(a.filter(f).push(t) + Seq::<VolumeTier>::empty() =~= (a.filter(f) + Seq::<VolumeTier>::empty()).push(t));
    }
}

/// `10^n` is positive.
pub proof fn lemma_pow10_pos(n: nat)
    ensures
        pow10(n) > 0,
    decreases n,
{
    if n > 0 {
        lemma_pow10_pos((n - 1) as nat);
    }
}

/// Comparison by value is transitive.
pub proof fn lemma_value_le_trans(a: (int, nat), b: (int, nat), c: (int, nat))
    requires
        value_order(a, b) <= 0,
        value_order(b, c) <= 0,
    ensures
        value_order(a, c) <= 0,
{
    let pa = pow10(a.1) as int;
    let pb = pow10(b.1) as int;
    let pc = pow10(c.1) as int;
    lemma_pow10_pos(a.1);
    lemma_pow10_pos(b.1);
    lemma_pow10_pos(c.1);
    assert(a.0 * pb <= b.0 * pa);
    assert(b.0 * pc <= c.0 * pb);
    assert(a.0 * pc <= c.0 * pa) by (nonlinear_arith)
        requires
            a.0 * pb <= b.0 * pa,
            b.0 * pc <= c.0 * pb,
            pa > 0,
            pb > 0,
            pc > 0,
    {
        assert(a.0 * pb * pc <= b.0 * pa * pc);
        assert(b.0 * pc * pa <= c.0 * pb * pa);
        assert(a.0 * pc * pb <= c.0 * pa * pb);
    }
}

/// A fee schedule of one exchange.
#[derive(Debug, Clone)]
pub struct FeeTable {
    /// The exchange.
    pub exchange: ExchangeId,
    /// Tiers by ascending minimum volume.
    pub tiers: Vec<VolumeTier>,
    /// Discount for paying in the exchange's token (0.10 is 10% off).
    pub native_token_discount: Option<Decimal>,
    /// Institutional discount.
    pub institutional_discount: Option<Decimal>,
}

impl FeeTable {
    /// The tier that applies at a 30-day volume, by index.
    pub open spec fn tier_at(self, volume: (int, nat)) -> Option<int> {
        tier_index(self.tiers@, volume)
    }

    /// Discounts applied in turn: first the native token one, then the institutional one.
    pub open spec fn with_discounts(self, fee: Option<(int, nat)>) -> Option<(int, nat)> {
        discounted(discounted(fee, self.native_token_discount), self.institutional_discount)
    }

    /// Outcome of a fee lookup: `None` when no tier applies, `Some(None)` on
    /// overflow, `Some(Some(fee))` otherwise.
    pub open spec fn fee_outcome(self, maker: bool, notional: (int, nat), volume: (int, nat)) -> Option<
        Option<(int, nat)>,
    > {
        match self.tier_at(volume) {
            None => None,
            Some(i) => {
                let t = self.tiers@[i];
                let fee = if maker {
                    t.maker_fee.fee_for(notional)
                } else {
                    t.taker_fee.fee_for(notional)
                };
                Some(self.with_discounts(fee))
            },
        }
    }

    /// A table with no tiers and no discounts.
    pub fn new(exchange: ExchangeId) -> (r: FeeTable)
        ensures
            r.exchange == exchange,
            r.tiers@.len() == 0,
            r.native_token_discount is None,
            r.institutional_discount is None,
    {
        FeeTable {
            exchange,
            tiers: Vec::new(),
            native_token_discount: None,
            institutional_discount: None,
        }
    }

    /// Position after the last tier whose minimum volume is at most `key`,
    /// scanning a sorted prefix `v[0..end]`.
    fn insertion_point(v: &Vec<VolumeTier>, end: usize, key: &Decimal) -> (p: usize)
        requires
            end <= v@.len(),
            tiers_sorted(v@.subrange(0, end as int)),
        ensures
            p <= end,
            forall|k: int| 0 <= k < p ==> value_order(#[trigger] v@[k].min_volume@, key@) <= 0,
            forall|k: int| p <= k < end ==> value_order(#[trigger] v@[k].min_volume@, key@) > 0,
    {
        let mut p: usize = 0;
        while p < end
            invariant
                p <= end,
                end <= v@.len(),
                tiers_sorted(v@.subrange(0, end as int)),
                forall|k: int| 0 <= k < p ==> value_order(#[trigger] v@[k].min_volume@, key@) <= 0,
            decreases end - p,
        {
            if compare(&v[p].min_volume, key) > 0 {
                proof {
                    assert forall|k: int| p <= k < end implies value_order(
                        #[trigger] v@[k].min_volume@,
                        key@,
                    ) > 0 by {
                        if k > p {
                            let sub = v@.subrange(0, end as int);
                            assert(sub[p as int] == v@[p as int]);
                            assert(sub[k] == v@[k]);
                            assert(value_order(sub[p as int].min_volume@, sub[k].min_volume@) <= 0);
                            if value_order(v@[k].min_volume@, key@) <= 0 {
                                lemma_value_le_trans(
                                    v@[p as int].min_volume@,
                                    v@[k].min_volume@,
                                    key@,
                                );
                            }
                        }
                    }
                }
                return p;
            }
            p += 1;
        }
        p
    }

    /// Sorts tiers by minimum volume, stably; a sorted vector is left as it is.
    fn sort_tiers(v: &mut Vec<VolumeTier>)
        ensures
            tiers_sorted(final(v)@),
            final(v)@.to_multiset() == old(v)@.to_multiset(),
            tiers_sorted(old(v)@) ==> final(v)@ == old(v)@,
            forall|c: (int, nat)|
                #[trigger] final(v)@.filter(same_minimum(c)) == old(v)@.filter(same_minimum(c)),
    {
        let n = v.len();
        let mut i: usize = 0;
        while i < n
            invariant
                i <= n,
                n == v@.len(),
                tiers_sorted(v@.subrange(0, i as int)),
                v@.to_multiset() == old(v)@.to_multiset(),
                tiers_sorted(old(v)@) ==> v@ == old(v)@,
                n == old(v)@.len(),
                v@.subrange(i as int, n as int) == old(v)@.subrange(i as int, n as int),
                forall|c: (int, nat)|
                    #[trigger] v@.subrange(0, i as int).filter(same_minimum(c)) == old(v)@.subrange(
                        0,
                        i as int,
                    ).filter(same_minimum(c)),
            decreases n - i,
        {
            let ghost entry = v@;
            let key = v[i].min_volume;
            let p = Self::insertion_point(v, i, &key);
            if p < i {
                let ghost before = v@;
                let t = v.remove(i);
                proof {
                    broadcast use vstd::seq_lib::group_seq_properties;
                    assert(before.remove(i as int).to_multiset() =~= before.to_multiset().remove(
                        before[i as int],
                    ));
                    if tiers_sorted(old(v)@) {
                        assert(before == old(v)@);
                        assert(value_order(before[p as int].min_volume@, key@) > 0);
                        assert(value_order(before[p as int].min_volume@, before[i as int].min_volume@)
                            <= 0);
                        assert(false);
                    }
                }
                v.insert(p, t);
                proof {
                    broadcast use vstd::seq_lib::group_seq_properties;
                    let removed = before.remove(i as int);
                    assert(v@ == removed.insert(p as int, t));
                    assert(removed.insert(p as int, t).to_multiset() =~= removed.to_multiset().insert(t)) by {
                        let a = removed.subrange(0, p as int);
                        let b = removed.subrange(p as int, removed.len() as int);
                        assert(removed == a + b);
                        assert(removed.insert(p as int, t) == a.push(t) + b);
                        vstd::seq_lib::lemma_multiset_commutative(a.push(t), b);
                        vstd::seq_lib::lemma_multiset_commutative(a, b);
                    }
                    assert(v@.to_multiset() =~= before.to_multiset());
                    let sub = v@.subrange(0, i + 1);
                    let old_sub = before.subrange(0, i as int);
                    assert forall|x: int, y: int|
                        0 <= x < y < sub.len() implies value_order(
                        #[trigger] sub[x].min_volume@,
                        #[trigger] sub[y].min_volume@,
                    ) <= 0 by {
                        let kx = if x < p { x } else if x == p { -1 } else { x - 1 };
                        let ky = if y < p { y } else if y == p { -1 } else { y - 1 };
                        if x == p {
                            assert(sub[x] == t);
                            assert(sub[y] == before[ky]);
                            assert(value_order(before[ky].min_volume@, key@) > 0);
                        } else if y == p {
                            assert(sub[y] == t);
                            assert(sub[x] == before[kx]);
                            assert(value_order(before[kx].min_volume@, key@) <= 0);
                        } else {
                            assert(sub[x] == old_sub[kx]);
                            assert(sub[y] == old_sub[ky]);
                        }
                    }
                }
            } else {
                proof {
                    let sub = v@.subrange(0, i + 1);
                    let old_sub = v@.subrange(0, i as int);
                    assert forall|x: int, y: int|
                        0 <= x < y < sub.len() implies value_order(
                        #[trigger] sub[x].min_volume@,
                        #[trigger] sub[y].min_volume@,
                    ) <= 0 by {
                        if y == i {
                            assert(sub[x] == v@[x]);
                        } else {
                            assert(sub[x] == old_sub[x]);
                            assert(sub[y] == old_sub[y]);
                        }
                    }
                }
            }
            proof {
                let t = entry[i as int];
                assert(entry[i as int] == entry.subrange(i as int, n as int)[0]);
                assert(old(v)@[i as int] == old(v)@.subrange(i as int, n as int)[0]);
                assert(t == old(v)@[i as int]);
                assert(old(v)@.subrange(0, i + 1) =~= old(v)@.subrange(0, i as int).push(t));
                assert(entry.subrange(0, i + 1) =~= entry.subrange(0, i as int).push(t));
                assert(v@.subrange(i + 1, n as int) =~= entry.subrange(i + 1, n as int));
                assert(entry.subrange(i + 1, n as int) =~= entry.subrange(i as int, n as int).subrange(
                    1,
                    n - i,
                ));
                assert(old(v)@.subrange(i + 1, n as int) =~= old(v)@.subrange(i as int, n as int).subrange(
                    1,
                    n - i,
                ));
                let x = entry.subrange(0, p as int);
                let y = entry.subrange(p as int, i as int);
                assert(entry.subrange(0, i as int) =~= x + y);
                assert(v@.subrange(0, i + 1) =~= x.push(t) + y);
                assert forall|k: int| 0 <= k < y.len() implies value_order(
                    #[trigger] y[k].min_volume@,
                    t.min_volume@,
                ) > 0 by {
                    assert(y[k] == entry[p + k]);
                }
                assert forall|c: (int, nat)|
                    #[trigger] v@.subrange(0, i + 1).filter(same_minimum(c)) == old(v)@.subrange(
                        0,
                        i + 1,
                    ).filter(same_minimum(c)) by {
                    lemma_move_before(x, t, y, c);
                    entry.subrange(0, i as int).lemma_filter_push(t, same_minimum(c));
                    old(v)@.subrange(0, i as int).lemma_filter_push(t, same_minimum(c));
                }
            }
            i += 1;
        }
        assert(v@.subrange(0, n as int) == v@);
        assert(old(v)@.subrange(0, n as int) == old(v)@);
    }

    /// Adds a tier and keeps the tiers ordered by minimum volume (a stable sort).
    pub fn add_tier(self, tier: VolumeTier) -> (r: FeeTable)
        ensures
            r.exchange == self.exchange,
            r.native_token_discount == self.native_token_discount,
            r.institutional_discount == self.institutional_discount,
            tiers_sorted(r.tiers@),
            r.tiers@.to_multiset() == self.tiers@.push(tier).to_multiset(),
            tiers_sorted(self.tiers@) ==> exists|p: int|
                insert_point(self.tiers@, tier, p) && r.tiers@ == self.tiers@.insert(p, tier),
            forall|c: (int, nat)|
                #[trigger] r.tiers@.filter(same_minimum(c)) == self.tiers@.push(tier).filter(
                    same_minimum(c),
                ),
    {
        let mut s = self;
        let ghost orig = s.tiers@;
        Self::sort_tiers(&mut s.tiers);
        let n = s.tiers.len();
        assert(s.tiers@.subrange(0, n as int) == s.tiers@);
        let p = Self::insertion_point(&s.tiers, n, &tier.min_volume);
        let ghost sorted_old = s.tiers@;
        s.tiers.insert(p, tier);
        proof {
            broadcast use vstd::seq_lib::group_seq_properties;
            assert(sorted_old.subrange(0, n as int) == sorted_old);
            let a = sorted_old.subrange(0, p as int);
            let b = sorted_old.subrange(p as int, n as int);
            assert(sorted_old == a + b);
            assert(s.tiers@ == a.push(tier) + b);
            vstd::seq_lib::lemma_multiset_commutative(a.push(tier), b);
            vstd::seq_lib::lemma_multiset_commutative(a, b);
            assert(s.tiers@.to_multiset() =~= sorted_old.to_multiset().insert(tier));
            assert(orig.push(tier).to_multiset() =~= orig.to_multiset().insert(tier));
            assert forall|x: int, y: int|
                0 <= x < y < s.tiers@.len() implies value_order(
                #[trigger] s.tiers@[x].min_volume@,
                #[trigger] s.tiers@[y].min_volume@,
            ) <= 0 by {
                if x == p {
                    assert(s.tiers@[y] == sorted_old[y - 1]);
                } else if y == p {
                    assert(s.tiers@[x] == sorted_old[x]);
                } else {
                    let kx = if x < p { x } else { x - 1 };
                    let ky = if y < p { y } else { y - 1 };
                    assert(s.tiers@[x] == sorted_old[kx]);
                    assert(s.tiers@[y] == sorted_old[ky]);
                }
            }
            if tiers_sorted(orig) {
                assert(insert_point(orig, tier, p as int));
            }
            assert forall|k: int| 0 <= k < b.len() implies value_order(
                #[trigger] b[k].min_volume@,
                tier.min_volume@,
            ) > 0 by {
                assert(b[k] == sorted_old[p + k]);
            }
            assert(a + b =~= sorted_old);
            assert forall|c: (int, nat)|
                #[trigger] s.tiers@.filter(same_minimum(c)) == orig.push(tier).filter(same_minimum(c))
                by {
                lemma_move_before(a, tier, b, c);
                sorted_old.lemma_filter_push(tier, same_minimum(c));
                orig.lemma_filter_push(tier, same_minimum(c));
            }
        }
        s
    }

    /// Appends a tier that no existing tier is above, to a sorted table.
    pub(crate) fn append_tier(self, tier: VolumeTier) -> (r: FeeTable)
        requires
            tiers_sorted(self.tiers@),
            self.tiers@.len() > 0 ==> value_order(self.tiers@.last().min_volume@, tier.min_volume@)
                <= 0,
        ensures
            r.exchange == self.exchange,
            r.native_token_discount == self.native_token_discount,
            r.institutional_discount == self.institutional_discount,
            r.tiers@ == self.tiers@.push(tier),
            tiers_sorted(r.tiers@),
    {
        let ghost before = self.tiers@;
        proof {
            assert forall|k: int| 0 <= k < before.len() implies value_order(
                #[trigger] before[k].min_volume@,
                tier.min_volume@,
            ) <= 0 by {
                let last = before.len() - 1;
                if k < last {
                    assert(value_order(before[k].min_volume@, before[last].min_volume@) <= 0);
                    lemma_value_le_trans(
                        before[k].min_volume@,
                        before[last].min_volume@,
                        tier.min_volume@,
                    );
                }
            }
        }
        let r = self.add_tier(tier);
        proof {
            let p = choose|p: int| insert_point(before, tier, p) && r.tiers@ == before.insert(p, tier);
            if p < before.len() {
                assert(value_order(before[p].min_volume@, tier.min_volume@) > 0);
                assert(value_order(before[p].min_volume@, tier.min_volume@) <= 0);
            }
            assert(before.insert(p, tier) =~= before.push(tier));
        }
        r
    }

    /// Sets the native token discount.
    pub fn with_native_token_discount(self, discount: Decimal) -> (r: FeeTable)
        ensures
            r.exchange == self.exchange,
            r.tiers@ == self.tiers@,
            r.native_token_discount == Some(discount),
            r.institutional_discount == self.institutional_discount,
    {
        let mut s = self;
        s.native_token_discount = Some(discount);
        s
    }

    /// Sets the institutional discount.
    pub fn with_institutional_discount(self, discount: Decimal) -> (r: FeeTable)
        ensures
            r.exchange == self.exchange,
            r.tiers@ == self.tiers@,
            r.native_token_discount == self.native_token_discount,
            r.institutional_discount == Some(discount),
    {
        let mut s = self;
        s.institutional_discount = Some(discount);
        s
    }

    /// Index of the tier that applies at a 30-day volume.
    fn find_tier_index(&self, volume_30d: Decimal) -> (r: Option<usize>)
        ensures
            match r {
                Some(i) => self.tier_at(volume_30d@) == Some(i as int) && i < self.tiers@.len(),
                None => self.tier_at(volume_30d@) is None,
            },
    {
        let mut i = self.tiers.len();
        assert(self.tiers@.subrange(0, i as int) == self.tiers@);
        while i > 0
            invariant
                i <= self.tiers@.len(),
                tier_index(self.tiers@, volume_30d@) == tier_index(
                    self.tiers@.subrange(0, i as int),
                    volume_30d@,
                ),
            decreases i,
        {
            let sub = Ghost(self.tiers@.subrange(0, i as int));
            assert(sub@.last() == self.tiers@[i - 1]);
            if compare(&volume_30d, &self.tiers[i - 1].min_volume) >= 0 {
                return Some(i - 1);
            }
            assert(sub@.drop_last() == self.tiers@.subrange(0, i - 1));
            i -= 1;
        }
        None
    }

    /// The tier that applies at a 30-day volume: the highest one whose
    /// minimum volume it reaches, or `None` when it is below every tier.
    pub fn find_tier(&self, volume_30d: Decimal) -> (r: Option<&VolumeTier>)
        ensures
            match r {
                Some(t) => exists|i: int|
                    self.tier_at(volume_30d@) == Some(i) && *t == self.tiers@[i],
                None => self.tier_at(volume_30d@) is None,
            },
    {
        match self.find_tier_index(volume_30d) {
            Some(i) => Some(&self.tiers[i]),
            None => None,
        }
    }

    /// Number of tiers.
    pub fn tier_count(&self) -> (r: usize)
        ensures
            r == self.tiers@.len(),
    {
        self.tiers.len()
    }

    /// `fee * (1 - discount)`, if the discount is set.
    fn apply_discount(fee: Decimal, discount: Option<Decimal>) -> (r: Option<Decimal>)
        ensures
            opt_view(r) == discounted(Some(fee@), discount),
    {
        match discount {
            None => Some(fee),
            Some(d) => {
                let one = Decimal::one();
                match checked_sub(&one, &d) {
                    None => None,
                    Some(k) => checked_mul(&fee, &k),
                }
            },
        }
    }

    /// Fee of one role, with discounts.
    fn role_fee(&self, maker: bool, notional: Decimal, volume_30d: Decimal) -> (r: FeeModelResult<
        Decimal,
    >)
        ensures
            match self.fee_outcome(maker, notional@, volume_30d@) {
                None => r matches Err(FeeModelError::NoTiersConfigured(s)) && s@ == exchange_name(
                    self.exchange,
                ),
                Some(None) => r matches Err(FeeModelError::Overflow(s)) && s@ == exchange_name(
                    self.exchange,
                ),
                Some(Some(v)) => r matches Ok(d) && d@ == v,
            },
    {
        let i = match self.find_tier_index(volume_30d) {
            Some(i) => i,
            None => {
                return Err(FeeModelError::NoTiersConfigured(self.exchange.name().to_owned()));
            },
        };
        let tier = &self.tiers[i];
        let fee = if maker {
            tier.maker_fee.checked_calculate(notional)
        } else {
            tier.taker_fee.checked_calculate(notional)
        };
        let fee = match fee {
            Some(f) => Self::apply_discount(f, self.native_token_discount),
            None => None,
        };
        let fee = match fee {
            Some(f) => Self::apply_discount(f, self.institutional_discount),
            None => None,
        };
        match fee {
            Some(f) => Ok(f),
            None => Err(FeeModelError::Overflow(self.exchange.name().to_owned())),
        }
    }

    /// Maker fee for a notional at a 30-day volume, with discounts.
    /// Fails with `NoTiersConfigured` when no tier applies, and with
    /// `Overflow` when the computation leaves the decimal range.
    pub fn maker_fee(&self, notional: Decimal, volume_30d: Decimal) -> (r: FeeModelResult<Decimal>)
        ensures
            match self.fee_outcome(true, notional@, volume_30d@) {
                None => r matches Err(FeeModelError::NoTiersConfigured(s)) && s@ == exchange_name(
                    self.exchange,
                ),
                Some(None) => r matches Err(FeeModelError::Overflow(s)) && s@ == exchange_name(
                    self.exchange,
                ),
                Some(Some(v)) => r matches Ok(d) && d@ == v,
            },
    {
        self.role_fee(true, notional, volume_30d)
    }

    /// Taker fee for a notional at a 30-day volume, with discounts.
    /// Fails with `NoTiersConfigured` when no tier applies, and with
    /// `Overflow` when the computation leaves the decimal range.
    pub fn taker_fee(&self, notional: Decimal, volume_30d: Decimal) -> (r: FeeModelResult<Decimal>)
        ensures
            match self.fee_outcome(false, notional@, volume_30d@) {
                None => r matches Err(FeeModelError::NoTiersConfigured(s)) && s@ == exchange_name(
                    self.exchange,
                ),
                Some(None) => r matches Err(FeeModelError::Overflow(s)) && s@ == exchange_name(
                    self.exchange,
                ),
                Some(Some(v)) => r matches Ok(d) && d@ == v,
            },
    {
        self.role_fee(false, notional, volume_30d)
    }
}

} // verus!
