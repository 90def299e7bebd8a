use vstd::prelude::*;
use crate::item::Rarity;

verus! {

/// The two pity streaks and the thresholds at which they force a tier.
#[derive(Debug, Clone, Copy, PartialEq, Eq, Structural)]
pub struct PityState {
    /// Draws since the last `SR` or better.
    pub soft_streak: u32,
    /// Draws since the last `SSR`.
    pub hard_streak: u32,
    pub soft_threshold: u32,
    pub hard_threshold: u32,
}

/// The state after one draw of `tier`: `SSR` resets both streaks, `SR` resets
/// the soft streak and counts one more on the hard one, any other tier counts
/// one more on both.
pub open spec fn pity_step(p: PityState, tier: Rarity) -> PityState {
    match tier {
        Rarity::SSR => PityState { soft_streak: 0, hard_streak: 0, ..p },
        Rarity::SR => PityState { soft_streak: 0, hard_streak: (p.hard_streak + 1) as u32, ..p },
        _ => PityState {
            soft_streak: (p.soft_streak + 1) as u32,
            hard_streak: (p.hard_streak + 1) as u32,
            ..p
        },
    }
}

/// The state after drawing `tiers` in order.
pub open spec fn pity_run(p: PityState, tiers: Seq<Rarity>) -> PityState
    decreases tiers.len(),
{
    if tiers.len() == 0 {
        p
    } else {
        pity_step(pity_run(p, tiers.drop_last()), tiers.last())
    }
}

impl PityState {
    pub open spec fn new_spec(soft_threshold: u32, hard_threshold: u32) -> PityState {
        PityState { soft_streak: 0, hard_streak: 0, soft_threshold, hard_threshold }
    }

    /// A tracker with both streaks at 0.
    pub fn new(soft_threshold: u32, hard_threshold: u32) -> (r: PityState)
        ensures
            r == PityState::new_spec(soft_threshold, hard_threshold),
    {
        PityState { soft_streak: 0, hard_streak: 0, soft_threshold, hard_threshold }
    }

    /// The tier that the next draw is forced to: `SSR` when the hard streak
    /// reaches its threshold with this draw, else `SR` when the soft streak
    /// does, else none.
    pub open spec fn forced(self) -> Option<Rarity> {
        if self.hard_streak + 1 == self.hard_threshold {
            Some(Rarity::SSR)
        } else if self.soft_streak + 1 == self.soft_threshold {
            Some(Rarity::SR)
        } else {
            None
        }
    }

    pub fn pity_tier(&self) -> (r: Option<Rarity>)
        ensures
            r == self.forced(),
    {
        if self.hard_threshold > 0 && self.hard_streak == self.hard_threshold - 1 {
            Some(Rarity::SSR)
        } else if self.soft_threshold > 0 && self.soft_streak == self.soft_threshold - 1 {
            Some(Rarity::SR)
        } else {
            None
        }
    }

    /// Counts one draw of `tier`.
    pub fn record(&mut self, tier: Rarity)
        requires
            old(self).soft_streak < u32::MAX,
            old(self).hard_streak < u32::MAX,
        ensures
            *final(self) == pity_step(*old(self), tier),
    {
        match tier {
            Rarity::SSR => {
                self.hard_streak = 0;
                self.soft_streak = 0;
            },
            Rarity::SR => {
                self.hard_streak = self.hard_streak + 1;
                self.soft_streak = 0;
            },
            _ => {
                self.hard_streak = self.hard_streak + 1;
                self.soft_streak = self.soft_streak + 1;
            },
        }
    }
}

/// Drawing `SSR` resets both streaks; drawing `SR` resets the soft streak and
/// adds one to the hard streak; drawing `R` or `N` adds one to both.
pub proof fn lemma_reset_law(p: PityState, tier: Rarity)
    requires
        p.soft_streak < u32::MAX,
        p.hard_streak < u32::MAX,
    ensures
        tier == Rarity::SSR ==> pity_step(p, tier).soft_streak == 0 && pity_step(p, tier).hard_streak == 0,
        tier == Rarity::SR ==> pity_step(p, tier).soft_streak == 0 && pity_step(p, tier).hard_streak
            == p.hard_streak + 1,
        (tier == Rarity::R || tier == Rarity::N) ==> pity_step(p, tier).soft_streak == p.soft_streak
            + 1 && pity_step(p, tier).hard_streak == p.hard_streak + 1,
        pity_step(p, tier).soft_threshold == p.soft_threshold,
        pity_step(p, tier).hard_threshold == p.hard_threshold,
{
}

} // verus!
