use vstd::prelude::*;
use crate::error::GachaError;
use crate::item::{GachaItem, Rarity};
use crate::pity::{pity_run, pity_step};
use crate::system::{pool_error, pull_outcome, GachaSystem};

verus! {

proof fn lemma_single_draw(pre: GachaSystem, post: GachaSystem, r: Result<Vec<GachaItem>, GachaError>, t: Rarity)
    requires
        pull_outcome(pre, 1, post, r),
        pre.budget() > 0,
        pre.pity_state().forced() == Some(t),
    ensures
        r matches Ok(items) ==> {
            &&& items@.len() == 1
            &&& pre.pool().entry(t) is Some
            &&& pre.pool().entry(t)->0.contains(items@[0])
            &&& post.budget() == pre.budget() - 1
            &&& post.pity_state() == pity_step(pre.pity_state(), t)
        },
        r matches Err(e) ==> {
            &&& pool_error(pre.pool(), t) == Some(e)
            &&& post.budget() == pre.budget()
            &&& post.pity_state() == pre.pity_state()
        },
{
    let p = pre.pity_state();
    assert(pity_run(p, Seq::<Rarity>::empty()) == p);
    match r {
        Ok(items) => {
            let tiers = choose|tiers: Seq<Rarity>|
                {
                    &&& crate::system::valid_draws(p, pre.table(), pre.pool(), tiers, items@)
                    &&& post.pity_state() == pity_run(p, tiers)
                };
            assert(tiers.take(0) =~= Seq::<Rarity>::empty());
            assert(tiers.drop_last() =~= Seq::<Rarity>::empty());
        },
        Err(e) => {
            let (tiers, items, tier) = choose|tiers: Seq<Rarity>, items: Seq<GachaItem>, tier: Rarity|
                {
                    &&& tiers.len() < 1
                    &&& crate::system::valid_draws(p, pre.table(), pre.pool(), tiers, items)
                    &&& post.budget() == pre.budget() - tiers.len()
                    &&& post.pity_state() == pity_run(p, tiers)
                    &&& crate::system::may_select(post.pity_state(), pre.table(), tier)
                    &&& pool_error(pre.pool(), tier) == Some(e)
                };
            assert(tiers =~= Seq::<Rarity>::empty());
        },
    }
}

/// When the soft streak reaches its threshold with the next draw and the hard
/// streak does not, a single pull draws `SR`, whatever the weights: its item
/// comes from the `SR` entry and the streaks move as for `SR`; or it fails
/// with the error of the `SR` entry and changes nothing.
pub proof fn lemma_soft_pity(pre: GachaSystem, post: GachaSystem, r: Result<Vec<GachaItem>, GachaError>)
    requires
        pre.wf(),
        pre.budget() > 0,
        pre.pity_state().soft_streak + 1 == pre.pity_state().soft_threshold,
        pre.pity_state().hard_streak + 1 != pre.pity_state().hard_threshold,
        pull_outcome(pre, 1, post, r),
    ensures
        r matches Ok(items) ==> {
            &&& items@.len() == 1
            &&& pre.pool().entry(Rarity::SR)->0.contains(items@[0])
            &&& post.pity_state() == pity_step(pre.pity_state(), Rarity::SR)
        },
        r matches Err(e) ==> pool_error(pre.pool(), Rarity::SR) == Some(e),
{
    lemma_single_draw(pre, post, r, Rarity::SR);
}

/// When the hard streak reaches its threshold with the next draw, a single
/// pull draws `SSR`, whatever the weights (a weight of 0 included): its item
/// comes from the `SSR` entry and both streaks go back to 0; or it fails with
/// the error of the `SSR` entry and changes nothing.
pub proof fn lemma_hard_pity(pre: GachaSystem, post: GachaSystem, r: Result<Vec<GachaItem>, GachaError>)
    requires
        pre.wf(),
        pre.budget() > 0,
        pre.pity_state().hard_streak + 1 == pre.pity_state().hard_threshold,
        pull_outcome(pre, 1, post, r),
    ensures
        r matches Ok(items) ==> {
            &&& items@.len() == 1
            &&& pre.pool().entry(Rarity::SSR)->0.contains(items@[0])
            &&& post.pity_state().soft_streak == 0
            &&& post.pity_state().hard_streak == 0
        },
        r matches Err(e) ==> pool_error(pre.pool(), Rarity::SSR) == Some(e),
{
    lemma_single_draw(pre, post, r, Rarity::SSR);
}

/// When a pity forces a tier whose pool entry is missing or empty, a single
/// pull fails with that entry's error, and neither the budget nor the pity
/// state moves.
pub proof fn lemma_forced_failure(
    pre: GachaSystem,
    post: GachaSystem,
    r: Result<Vec<GachaItem>, GachaError>,
    t: Rarity,
    e: GachaError,
)
    requires
        pre.wf(),
        pre.budget() > 0,
        pre.pity_state().forced() == Some(t),
        pool_error(pre.pool(), t) == Some(e),
        pull_outcome(pre, 1, post, r),
    ensures
        r == Err::<Vec<GachaItem>, GachaError>(e),
        post.budget() == pre.budget(),
        post.pity_state() == pre.pity_state(),
{
    lemma_single_draw(pre, post, r, t);
}

/// A successful pull of `num` items on a budget of `b` returns `min(num, b)`
/// items and leaves exactly that many fewer draws, and a pull succeeds
/// wherever every tier has a non-empty pool entry; a failed one never adds to
/// the budget.
pub proof fn lemma_budget(pre: GachaSystem, num: u32, post: GachaSystem, r: Result<Vec<GachaItem>, GachaError>)
    requires
        pull_outcome(pre, num, post, r),
    ensures
        r matches Ok(items) ==> {
            &&& items@.len() == if num < pre.budget() { num } else { pre.budget() }
            &&& post.budget() == pre.budget() - items@.len()
        },
        (forall|t: Rarity| pool_error(pre.pool(), t) is None) ==> r is Ok,
        post.budget() <= pre.budget(),
{
}

} // verus!
