use vstd::prelude::*;
use crate::item::{GachaItem, Rarity};

verus! {

/// The items that can be drawn, by tier. A tier may have no entry at all, or
/// an entry that holds no item.
#[derive(Debug)]
pub struct ItemPool {
    ssr: Option<Vec<GachaItem>>,
    sr: Option<Vec<GachaItem>>,
    r: Option<Vec<GachaItem>>,
    n: Option<Vec<GachaItem>>,
}

impl ItemPool {
    /// The entry of `tier`.
    pub closed spec fn entry(&self, tier: Rarity) -> Option<Seq<GachaItem>> {
        let e = match tier {
            Rarity::SSR => self.ssr,
            Rarity::SR => self.sr,
            Rarity::R => self.r,
            Rarity::N => self.n,
        };
        match e {
            Some(v) => Some(v@),
            None => None,
        }
    }

    /// A pool with no entry for any tier.
    pub fn new() -> (r: ItemPool)
        ensures
            forall|t: Rarity| r.entry(t) is None,
    {
        ItemPool { ssr: None, sr: None, r: None, n: None }
    }

    /// Sets the entry of `tier` to `items`, replacing any entry it had.
    pub fn insert(&mut self, tier: Rarity, items: Vec<GachaItem>)
        ensures
            final(self).entry(tier) == Some(items@),
            forall|t: Rarity| t != tier ==> final(self).entry(t) == old(self).entry(t),
    {
        match tier {
            Rarity::SSR => self.ssr = Some(items),
            Rarity::SR => self.sr = Some(items),
            Rarity::R => self.r = Some(items),
            Rarity::N => self.n = Some(items),
        }
    }

    /// The entry of `tier`, if it has one.
    pub fn get(&self, tier: Rarity) -> (r: Option<&Vec<GachaItem>>)
        ensures
            match r {
                Some(v) => self.entry(tier) == Some(v@),
                None => self.entry(tier) is None,
            },
    {
        match tier {
            Rarity::SSR => self.ssr.as_ref(),
            Rarity::SR => self.sr.as_ref(),
            Rarity::R => self.r.as_ref(),
            Rarity::N => self.n.as_ref(),
        }
    }
}

} // verus!
