//! Verified building blocks for NEAR contracts: pause switch, storage
//! accounting, reputation, NFT rent, tournaments and referral programs.
use vstd::prelude::*;

pub mod collections;
pub mod order;
pub mod pause;
pub mod utils;
pub mod rent;
pub mod whitelist;
pub mod tournament;
pub mod reputation;
pub mod storage;
pub mod referral;
pub mod laws;

verus! {
} // verus!
