use vstd::prelude::*;

verus! {

/// A reward tier. `SSR` is the best tier and `SR` the one right below it.
#[allow(clippy::upper_case_acronyms)]
#[derive(Debug, Clone, Copy, PartialEq, Eq, Structural, PartialOrd, Ord, Hash)]
pub enum Rarity {
    SSR,
    SR,
    R,
    N,
}

impl Rarity {
    pub open spec fn label_spec(self) -> Seq<char> {
        match self {
            Rarity::SSR => "SSR"@,
            Rarity::SR => "SR"@,
            Rarity::R => "R"@,
            Rarity::N => "N"@,
        }
    }

    /// The tier's name.
    pub fn label(&self) -> (r: &'static str)
        ensures
            r@ == self.label_spec(),
    {
        match self {
            Rarity::SSR => "SSR",
            Rarity::SR => "SR",
            Rarity::R => "R",
            Rarity::N => "N",
        }
    }
}

/// One drawable reward.
#[derive(Debug)]
pub struct GachaItem {
    pub name: String,
    pub rarity: Rarity,
}

impl GachaItem {
    pub fn new(name: String, rarity: Rarity) -> (r: GachaItem)
        ensures
            r.name == name,
            r.rarity == rarity,
    {
        GachaItem { name, rarity }
    }
}

impl Clone for GachaItem {
    fn clone(&self) -> (r: GachaItem)
        ensures
            r == *self,
    {
        GachaItem { name: self.name.clone(), rarity: self.rarity }
    }
}

} // verus!
