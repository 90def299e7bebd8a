use vstd::prelude::*;
use crate::item::Rarity;

verus! {

/// A half-open interval `[start, end)` of the weight line.
#[derive(Debug, Clone, Copy, PartialEq, Eq, Structural)]
pub struct WeightRange {
    pub start: u64,
    pub end: u64,
}

impl WeightRange {
    pub open spec fn holds(self, v: int) -> bool {
        self.start <= v < self.end
    }

    pub fn contains(&self, v: u64) -> (r: bool)
        ensures
            r == self.holds(v as int),
    {
        self.start <= v && v < self.end
    }
}

/// Sum of the weights of a rarity table.
pub open spec fn weight_sum(rs: Seq<(Rarity, u64)>) -> int
    decreases rs.len(),
{
    if rs.len() == 0 {
        0
    } else {
        weight_sum(rs.drop_last()) + rs.last().1
    }
}

/// The interval of entry `i`: from the sum of the weights before it to that
/// sum plus its own weight.
pub open spec fn interval_of(rs: Seq<(Rarity, u64)>, i: int) -> WeightRange {
    WeightRange {
        start: weight_sum(rs.take(i)) as u64,
        end: weight_sum(rs.take(i + 1)) as u64,
    }
}

/// The tier of the first interval, in declared order, that holds `v`.
pub open spec fn first_containing(ranges: Seq<(Rarity, WeightRange)>, v: int) -> Option<Rarity>
    decreases ranges.len(),
{
    if ranges.len() == 0 {
        None
    } else if ranges[0].1.holds(v) {
        Some(ranges[0].0)
    } else {
        first_containing(ranges.drop_first(), v)
    }
}

/// The tier that a roll `v` selects under the weight table `rs`.
pub open spec fn tier_at(rs: Seq<(Rarity, u64)>, v: int) -> Option<Rarity> {
    first_containing(intervals(rs), v)
}

pub proof fn lemma_weight_sum_push(rs: Seq<(Rarity, u64)>, i: int)
    requires
        0 <= i < rs.len(),
    ensures
        weight_sum(rs.take(i + 1)) == weight_sum(rs.take(i)) + rs[i].1,
{
    assert(rs.take(i + 1).drop_last() =~= rs.take(i));
}

pub proof fn lemma_weight_sum_prefix(rs: Seq<(Rarity, u64)>, i: int)
    requires
        0 <= i <= rs.len(),
    ensures
        0 <= weight_sum(rs.take(i)) <= weight_sum(rs),
    decreases rs.len() - i,
{
    lemma_weight_sum_nonneg(rs.take(i));
    if i == rs.len() {
        assert(rs.take(i) =~= rs);
        lemma_weight_sum_nonneg(rs);
    } else {
        lemma_weight_sum_push(rs, i);
        lemma_weight_sum_prefix(rs, i + 1);
    }
}

pub proof fn lemma_weight_sum_nonneg(rs: Seq<(Rarity, u64)>)
    ensures
        weight_sum(rs) >= 0,
    decreases rs.len(),
{
    if rs.len() > 0 {
        lemma_weight_sum_nonneg(rs.drop_last());
    }
}

/// The intervals of a weight table, in declared order.
pub open spec fn intervals(rs: Seq<(Rarity, u64)>) -> Seq<(Rarity, WeightRange)> {
    Seq::new(rs.len(), |i: int| (rs[i].0, interval_of(rs, i)))
}

proof fn lemma_first_containing_found(ranges: Seq<(Rarity, WeightRange)>, v: int, i: int)
    requires
        0 <= i < ranges.len(),
        ranges[i].1.holds(v),
    ensures
        first_containing(ranges, v) is Some,
    decreases ranges.len(),
{
    if !ranges[0].1.holds(v) {
        lemma_first_containing_found(ranges.drop_first(), v, i - 1);
    }
}

proof fn lemma_some_interval_holds(rs: Seq<(Rarity, u64)>, v: int, k: int)
    requires
        0 <= v,
        0 <= k <= rs.len(),
        weight_sum(rs) <= u64::MAX,
        v < weight_sum(rs.take(k)),
    ensures
        exists|i: int| 0 <= i < k && (#[trigger] interval_of(rs, i)).holds(v),
    decreases k,
{
    if k == 0 {
        assert(rs.take(0) =~= Seq::<(Rarity, u64)>::empty());
    } else {
        lemma_weight_sum_push(rs, k - 1);
        lemma_weight_sum_prefix(rs, k);
        lemma_weight_sum_prefix(rs, k - 1);
        if v < weight_sum(rs.take(k - 1)) {
            lemma_some_interval_holds(rs, v, k - 1);
        } else {
            assert(interval_of(rs, k - 1).holds(v));
        }
    }
}

/// Every roll below the total weight selects some tier.
pub proof fn lemma_roll_selects(rs: Seq<(Rarity, u64)>, v: int)
    requires
        0 <= v < weight_sum(rs),
        weight_sum(rs) <= u64::MAX,
    ensures
        tier_at(rs, v) is Some,
{
    assert(rs.take(rs.len() as int) =~= rs);
    lemma_some_interval_holds(rs, v, rs.len() as int);
    let i = choose|i: int| 0 <= i < rs.len() && (#[trigger] interval_of(rs, i)).holds(v);
    lemma_first_containing_found(intervals(rs), v, i);
}

/// Turns a weight table into contiguous half-open intervals, one per entry in
/// declared order: the first starts at 0 and each is as long as its weight.
pub fn rarity_range(rarities: &Vec<(Rarity, u64)>) -> (r: Vec<(Rarity, WeightRange)>)
    requires
        weight_sum(rarities@) <= u64::MAX,
    ensures
        r@ == intervals(rarities@),
        r@.len() > 0 ==> r@[0].1.start == 0,
        forall|i: int| 0 <= i < r@.len() ==> #[trigger] r@[i].1.end - r@[i].1.start == rarities@[i].1,
        forall|i: int| 0 < i < r@.len() ==> #[trigger] r@[i].1.start == r@[i - 1].1.end,
{
    let mut ranges: Vec<(Rarity, WeightRange)> = Vec::new();
    let mut sum: u64 = 0;
    let mut i: usize = 0;
    while i < rarities.len()
        invariant
            i <= rarities@.len(),
            weight_sum(rarities@) <= u64::MAX,
            sum == weight_sum(rarities@.take(i as int)),
            ranges@.len() == i,
            forall|j: int|
                0 <= j < i ==> #[trigger] ranges@[j] == (rarities@[j].0, interval_of(rarities@, j)),
        decreases rarities.len() - i,
    {
        let (rarity, rate) = rarities[i];
        proof {
            lemma_weight_sum_push(rarities@, i as int);
            lemma_weight_sum_prefix(rarities@, i as int + 1);
            lemma_weight_sum_prefix(rarities@, i as int);
        }
        let lo = sum;
        let hi = lo + rate;
        ranges.push((rarity, WeightRange { start: lo, end: hi }));
        sum = hi;
        i = i + 1;
    }
    proof {
        assert(ranges@ =~= intervals(rarities@));
        assert forall|i: int| 0 <= i < ranges@.len() implies #[trigger] ranges@[i].1.end
            - ranges@[i].1.start == rarities@[i].1 by {
            lemma_weight_sum_push(rarities@, i);
            lemma_weight_sum_prefix(rarities@, i + 1);
            lemma_weight_sum_prefix(rarities@, i);
        }
        if ranges@.len() > 0 {
            assert(rarities@.take(0) =~= Seq::<(Rarity, u64)>::empty());
        }
    }
    ranges
}

/// The tier of the first interval, in declared order, that holds `v`; `None`
/// where no interval holds it.
pub fn select_tier(ranges: &Vec<(Rarity, WeightRange)>, v: u64) -> (r: Option<Rarity>)
    ensures
        r == first_containing(ranges@, v as int),
{
    let mut i: usize = 0;
    assert(ranges@.subrange(0, ranges@.len() as int) =~= ranges@);
    while i < ranges.len()
        invariant
            i <= ranges@.len(),
            first_containing(ranges@, v as int) == first_containing(
                ranges@.subrange(i as int, ranges@.len() as int),
                v as int,
            ),
        decreases ranges.len() - i,
    {
        let ghost rest = ranges@.subrange(i as int, ranges@.len() as int);
        assert(rest.drop_first() =~= ranges@.subrange(i + 1, ranges@.len() as int));
        if ranges[i].1.contains(v) {
            return Some(ranges[i].0);
        }
        i = i + 1;
    }
    None
}

} // verus!
