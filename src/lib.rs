//! A weighted random-reward draw engine with a two-tier pity guarantee.
//!
//! The library keeps every rule of a draw verified: how the weight table is
//! turned into intervals, which tier a roll selects, when a pity forces a
//! tier, how the streak counters and the remaining budget change, and when a
//! draw fails because the item pool cannot back the selected tier. Only the
//! random numbers come from outside, through `rand`.

pub mod error;
pub mod item;
pub mod laws;
pub mod pity;
pub mod pool;
pub mod system;
pub mod table;

pub use error::GachaError;
pub use item::{GachaItem, Rarity};
pub use pity::PityState;
pub use pool::ItemPool;
pub use system::GachaSystem;
pub use table::{rarity_range, select_tier, WeightRange};
