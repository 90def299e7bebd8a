use vstd::prelude::*;
use vstd::string::StringExecFns;
use crate::item::Rarity;

verus! {

/// Why a draw could not produce an item.
#[derive(Debug, Clone, Copy, PartialEq, Eq, Structural)]
pub enum GachaError {
    /// The selected tier has no entry at all in the item pool.
    InvalidRarity(Rarity),
    /// The selected tier has an entry in the item pool, but it holds no item.
    RarityWithNoData(Rarity),
}

impl GachaError {
    pub open spec fn message_spec(self) -> Seq<char> {
        match self {
            GachaError::InvalidRarity(t) => "\""@ + t.label_spec() + "\" is not a valid rarity in gacha pool"@,
            GachaError::RarityWithNoData(t) => "gacha pool for rarity \""@ + t.label_spec() + "\" has no data"@,
        }
    }

    /// A sentence that says what went wrong.
    pub fn message(&self) -> (r: String)
        ensures
            r@ == self.message_spec(),
    {
        match self {
            GachaError::InvalidRarity(t) => {
                let mut s = String::from_str("\"");
                s.append(t.label());
                s.append("\" is not a valid rarity in gacha pool");
                s
            },
            GachaError::RarityWithNoData(t) => {
                let mut s = String::from_str("gacha pool for rarity \"");
                s.append(t.label());
                s.append("\" has no data");
                s
            },
        }
    }
}

} // verus!
