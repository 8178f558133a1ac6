//! Referral programs: influencers bring accounts to contracts and may earn a
//! royalty; accounts join a program by its id or by its code.
use vstd::prelude::*;
use crate::utils::AccountId;

pub mod metadata;
pub mod utils;
pub mod base;
pub mod enumeration;

verus! {

/// What a contract offers the registry so that it can be told about an
/// account that joined one of its programs; it answers whether it accepted.
pub trait ReferralReceiver {
    fn refferal_on_create(&self, account_id: AccountId, influencer_id: AccountId, program_id: String) -> bool;
}

} // verus!
