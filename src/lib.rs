//! A metered storage pallet: two optional `u32` cells, checked and unchecked
//! arithmetic over them, transactional and non-transactional updates, chained
//! hashing seeded by the caller, and the weight charged for each call.
pub mod arith;
pub mod hashing;
pub mod weights;
pub mod pallet;
pub mod laws;

pub use arith::checked_add;
pub use hashing::{account_seed, hash_chain};
pub use pallet::{ensure_signed, Call, Config, Error, Event, Origin, Pallet, WeightInfo};
pub use weights::{Runtime, RuntimeDbWeight};
