//! Renting out NFTs for a time, paid in NEAR or a fungible token.
use vstd::prelude::*;
use crate::utils::TokenId;

pub mod meta;
pub mod base;
pub mod enumeration;

verus! {

/// What an NFT contract offers the market so that it can be told when one of
/// its tokens is locked in a rent or released.
pub trait RentFeatureReceiver {
    fn rent_on_lock(&self, token_id: TokenId, locked: bool);
}

} // verus!
