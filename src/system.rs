use vstd::prelude::*;
use crate::error::GachaError;
use crate::item::{GachaItem, Rarity};
use crate::pity::{pity_run, pity_step, PityState};
use crate::pool::ItemPool;
use crate::table::{lemma_roll_selects, rarity_range, select_tier, tier_at, weight_sum};

verus! {

/// Relies on rand's `thread_rng` and `Rng::gen_range`: a value of `[0, bound)`.
/// `gen_range` panics on an empty range, which `bound > 0` rules out.
#[verifier::external_body]
fn random_below(bound: u64) -> (r: u64)
    requires
        bound > 0,
    ensures
        r < bound,
{
    rand::Rng::gen_range(&mut rand::thread_rng(), 0..bound)
}

/// `tier` is one that the next draw may select from pity state `p` and weight
/// table `table`: the forced tier where a pity applies, else the tier of some
/// roll below the total weight.
pub open spec fn may_select(p: PityState, table: Seq<(Rarity, u64)>, tier: Rarity) -> bool {
    match p.forced() {
        Some(t) => tier == t,
        None => exists|v: int| 0 <= v < weight_sum(table) && tier_at(table, v) == Some(tier),
    }
}

/// The error with which a draw of `tier` fails in `pool`, if it fails.
pub open spec fn pool_error(pool: ItemPool, tier: Rarity) -> Option<GachaError> {
    match pool.entry(tier) {
        None => Some(GachaError::InvalidRarity(tier)),
        Some(items) => if items.len() == 0 {
            Some(GachaError::RarityWithNoData(tier))
        } else {
            None
        },
    }
}

/// Draw `j` selected `tiers[j]`, as the pity state after the draws before it
/// allows, and gave `items[j]`, an item of that tier's entry in `pool`.
pub open spec fn valid_draws(
    p: PityState,
    table: Seq<(Rarity, u64)>,
    pool: ItemPool,
    tiers: Seq<Rarity>,
    items: Seq<GachaItem>,
) -> bool {
    &&& tiers.len() == items.len()
    &&& forall|j: int|
        0 <= j < tiers.len() ==> {
            &&& may_select(pity_run(p, #[trigger] tiers.take(j)), table, tiers[j])
            &&& pool.entry(tiers[j]) is Some
            &&& pool.entry(tiers[j])->0.contains(items[j])
        }
}

pub open spec fn min_u32(a: u32, b: u32) -> u32 {
    if a < b {
        a
    } else {
        b
    }
}

/// What a call `pull(num)` on `pre` may return as `r` and leave as `post`.
/// On success: `min(num, budget)` items, that many draws taken off the budget,
/// and a sequence of tiers, one per item, that the draws may have selected
/// and that brought the pity state to where it is. On failure: fewer draws
/// than that were made and counted, and the next one selected a tier whose
/// pool entry is missing or empty, with the matching error. Where every tier
/// has a non-empty pool entry, the call succeeds.
pub open spec fn pull_outcome(
    pre: GachaSystem,
    num: u32,
    post: GachaSystem,
    r: Result<Vec<GachaItem>, GachaError>,
) -> bool {
    &&& (forall|t: Rarity| pool_error(pre.pool(), t) is None) ==> r is Ok
    &&& match r {
        Ok(items) => {
            &&& items@.len() == min_u32(num, pre.budget())
            &&& post.budget() == pre.budget() - items@.len()
            &&& exists|tiers: Seq<Rarity>|
                {
                    &&& valid_draws(
                        pre.pity_state(),
                        pre.table(),
                        pre.pool(),
                        tiers,
                        items@,
                    )
                    &&& post.pity_state() == pity_run(pre.pity_state(), tiers)
                }
        },
        Err(e) => exists|tiers: Seq<Rarity>, items: Seq<GachaItem>, tier: Rarity|
            {
                &&& tiers.len() < min_u32(num, pre.budget())
                &&& valid_draws(
                    pre.pity_state(),
                    pre.table(),
                    pre.pool(),
                    tiers,
                    items,
                )
                &&& post.budget() == pre.budget() - tiers.len()
                &&& post.pity_state() == pity_run(pre.pity_state(), tiers)
                &&& may_select(post.pity_state(), pre.table(), tier)
                &&& pool_error(pre.pool(), tier) == Some(e)
            },
    }
}

/// The draw engine: a weight table, an item pool, the pity state and the
/// budget of draws left.
#[derive(Debug)]
pub struct GachaSystem {
    chances: u32,
    pity: PityState,
    data: ItemPool,
    rarities: Vec<(Rarity, u64)>,
}

impl GachaSystem {
    /// Draws left.
    pub closed spec fn budget(&self) -> u32 {
        self.chances
    }

    pub closed spec fn pity_state(&self) -> PityState {
        self.pity
    }

    /// The weight table.
    pub closed spec fn table(&self) -> Seq<(Rarity, u64)> {
        self.rarities@
    }

    pub closed spec fn pool(&self) -> ItemPool {
        self.data
    }

    /// The table's total weight is positive and fits in `u64`; the soft streak
    /// never exceeds the hard one, and the hard one can count every draw left.
    pub open spec fn wf(&self) -> bool {
        &&& 0 < weight_sum(self.table()) <= u64::MAX
        &&& self.pity_state().soft_streak <= self.pity_state().hard_streak
        &&& self.pity_state().hard_streak + self.budget() <= u32::MAX
    }

    /// An engine with the given budget, pity thresholds, weight table and item
    /// pool, and both streaks at 0.
    pub fn with_config(
        chances: u32,
        pity: u32,
        hard_pity: u32,
        rarities: Vec<(Rarity, u64)>,
        data: ItemPool,
    ) -> (r: GachaSystem)
        requires
            0 < weight_sum(rarities@) <= u64::MAX,
        ensures
            r.wf(),
            r.budget() == chances,
            r.pity_state() == PityState::new_spec(pity, hard_pity),
            r.table() == rarities@,
            r.pool() == data,
    {
        GachaSystem { chances, pity: PityState::new(pity, hard_pity), data, rarities }
    }

    /// An engine with a budget of 100 draws, a soft pity at 10 and a hard pity
    /// at 50, weights `SSR` 5, `SR` 20, `R` 40 and `N` 35, and an empty pool.
    pub fn new() -> (r: GachaSystem)
        ensures
            r.wf(),
            r.budget() == 100,
            r.pity_state() == PityState::new_spec(10, 50),
            r.table() == seq![(Rarity::SSR, 5u64), (Rarity::SR, 20u64), (Rarity::R, 40u64), (Rarity::N, 35u64)],
            forall|t: Rarity| r.pool().entry(t) is None,
    {
        let rarities: Vec<(Rarity, u64)> = vec![
            (Rarity::SSR, 5),
            (Rarity::SR, 20),
            (Rarity::R, 40),
            (Rarity::N, 35),
        ];
        proof {
            let rs = rarities@;
            assert(rs.drop_last().drop_last().drop_last().drop_last() =~= Seq::<(Rarity, u64)>::empty());
            assert(weight_sum(rs) == 100) by {
                reveal_with_fuel(weight_sum, 5);
            }
        }
        GachaSystem::with_config(100, 10, 50, rarities, ItemPool::new())
    }

    /// Draws left.
    pub fn chances(&self) -> (r: u32)
        ensures
            r == self.budget(),
    {
        self.chances
    }

    /// The pity streaks and thresholds.
    pub fn pity(&self) -> (r: PityState)
        ensures
            r == self.pity_state(),
    {
        self.pity
    }

    pub fn rarities(&self) -> (r: &Vec<(Rarity, u64)>)
        ensures
            r@ == self.table(),
    {
        &self.rarities
    }

    pub fn data(&self) -> (r: &ItemPool)
        ensures
            *r == self.pool(),
    {
        &self.data
    }

    /// Sets the budget of draws left; it must leave room for the hard streak
    /// to count every one of them.
    pub fn set_chances(&mut self, chances: u32)
        requires
            old(self).wf(),
            old(self).pity_state().hard_streak + chances <= u32::MAX,
        ensures
            final(self).wf(),
            final(self).budget() == chances,
            final(self).pity_state() == old(self).pity_state(),
            final(self).table() == old(self).table(),
            final(self).pool() == old(self).pool(),
    {
        self.chances = chances;
    }

    /// Sets both pity thresholds; the streaks keep their counts.
    pub fn set_thresholds(&mut self, pity: u32, hard_pity: u32)
        requires
            old(self).wf(),
        ensures
            final(self).wf(),
            final(self).budget() == old(self).budget(),
            final(self).pity_state() == (PityState {
                soft_threshold: pity,
                hard_threshold: hard_pity,
                ..old(self).pity_state()
            }),
            final(self).table() == old(self).table(),
            final(self).pool() == old(self).pool(),
    {
        self.pity.soft_threshold = pity;
        self.pity.hard_threshold = hard_pity;
    }

    /// Replaces the weight table.
    pub fn set_rarities(&mut self, rarities: Vec<(Rarity, u64)>)
        requires
            old(self).wf(),
            0 < weight_sum(rarities@) <= u64::MAX,
        ensures
            final(self).wf(),
            final(self).budget() == old(self).budget(),
            final(self).pity_state() == old(self).pity_state(),
            final(self).table() == rarities@,
            final(self).pool() == old(self).pool(),
    {
        self.rarities = rarities;
    }

    /// Replaces the item pool.
    pub fn set_data(&mut self, data: ItemPool)
        requires
            old(self).wf(),
        ensures
            final(self).wf(),
            final(self).budget() == old(self).budget(),
            final(self).pity_state() == old(self).pity_state(),
            final(self).table() == old(self).table(),
            final(self).pool() == data,
    {
        self.data = data;
    }

    /// The tier that a roll `roll` selects: the first interval of the weight
    /// table that holds it. Every roll below the total weight selects one.
    pub fn tier_for_roll(&self, roll: u64) -> (r: Rarity)
        requires
            self.wf(),
            roll < weight_sum(self.table()),
        ensures
            tier_at(self.table(), roll as int) == Some(r),
    {
        let ranges = rarity_range(&self.rarities);
        proof {
            lemma_roll_selects(self.rarities@, roll as int);
        }
        select_tier(&ranges, roll).unwrap()
    }

    /// The total weight of the table.
    fn total_weight(&self) -> (r: u64)
        requires
            self.wf(),
        ensures
            r == weight_sum(self.table()),
    {
        let ranges = rarity_range(&self.rarities);
        let last = ranges.len() - 1;
        proof {
            assert(self.rarities@.take(self.rarities@.len() as int) =~= self.rarities@);
            assert(weight_sum(Seq::<(Rarity, u64)>::empty()) == 0);
            if self.rarities@.len() == 0 {
                assert(self.rarities@ =~= Seq::<(Rarity, u64)>::empty());
            }
        }
        ranges[last].1.end
    }

    /// Picks the tier of the next draw: the forced one where a pity applies,
    /// else the tier of a fresh random roll.
    fn next_tier(&self) -> (r: Rarity)
        requires
            self.wf(),
        ensures
            may_select(self.pity_state(), self.table(), r),
    {
        match self.pity.pity_tier() {
            Some(t) => t,
            None => {
                let total = self.total_weight();
                let roll = random_below(total);
                self.tier_for_roll(roll)
            },
        }
    }

    /// Draws one item of `tier` at random and counts the draw; fails, and
    /// changes nothing, where the pool has no entry or an empty one for `tier`.
    fn draw_item(&mut self, tier: Rarity) -> (r: Result<GachaItem, GachaError>)
        requires
            old(self).wf(),
            old(self).budget() > 0,
        ensures
            final(self).wf(),
            final(self).table() == old(self).table(),
            final(self).pool() == old(self).pool(),
            match r {
                Ok(item) => {
                    &&& pool_error(old(self).pool(), tier) is None
                    &&& old(self).pool().entry(tier)->0.contains(item)
                    &&& final(self).budget() == old(self).budget() - 1
                    &&& final(self).pity_state() == pity_step(old(self).pity_state(), tier)
                },
                Err(e) => {
                    &&& pool_error(old(self).pool(), tier) == Some(e)
                    &&& *final(self) == *old(self)
                },
            },
    {
        let item = match self.data.get(tier) {
            None => {
                return Err(GachaError::InvalidRarity(tier));
            },
            Some(items) => {
                if items.len() == 0 {
                    return Err(GachaError::RarityWithNoData(tier));
                }
                let idx = random_below(items.len() as u64) as usize;
                let item = items[idx].clone();
                assert(items@[idx as int] == item);
                item
            },
        };
        self.chances = self.chances - 1;
        self.pity.record(tier);
        Ok(item)
    }
    /// Draws `num` items, or as many as the budget allows where it allows
    /// fewer, in order. Each draw takes the forced tier where a pity applies,
    /// else the tier of a fresh random roll, then an item of that tier's pool
    /// at random, and then counts itself against the budget and the pity
    /// streaks. A draw whose tier has no entry or an empty one in the pool
    /// ends the whole call with its error; the draws before it stay counted.
    pub fn pull(&mut self, num: u32) -> (r: Result<Vec<GachaItem>, GachaError>)
        requires
            old(self).wf(),
        ensures
            final(self).wf(),
            final(self).table() == old(self).table(),
            final(self).pool() == old(self).pool(),
            final(self).budget() <= old(self).budget(),
            pull_outcome(*old(self), num, *final(self), r),
    {
        let mut result: Vec<GachaItem> = Vec::new();
        let num_limit: u32 = if num < self.chances {
            num
        } else {
            self.chances
        };
        let ghost tiers: Seq<Rarity> = Seq::empty();
        let mut k: u32 = 0;
        while k < num_limit
            invariant
                self.wf(),
                self.table() == old(self).table(),
                self.pool() == old(self).pool(),
                num_limit == min_u32(num, old(self).budget()),
                k <= num_limit,
                self.budget() == old(self).budget() - k,
                result@.len() == k,
                tiers.len() == k,
                valid_draws(old(self).pity_state(), old(self).table(), old(self).pool(), tiers, result@),
                self.pity_state() == pity_run(old(self).pity_state(), tiers),
            decreases num_limit - k,
        {
            let tier = self.next_tier();
            let item = match self.draw_item(tier) {
                Ok(item) => item,
                Err(e) => {
                    return Err(e);
                },
            };
            proof {
                let old_tiers = tiers;
                tiers = tiers.push(tier);
                assert(tiers.drop_last() =~= old_tiers);
                assert(tiers.take(k as int) =~= old_tiers);
                assert forall|j: int| 0 <= j < k implies #[trigger] tiers.take(j) =~= old_tiers.take(j) by {}
            }
            result.push(item);
            k = k + 1;
        }
        Ok(result)
    }
}

} // verus!
