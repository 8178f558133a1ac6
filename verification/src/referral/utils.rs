//! Identifiers of programs and referrals, and the deposits they require.
use vstd::prelude::*;
use crate::utils::{AccountId, join_id, spec_join};
use crate::referral::metadata::{ContractId, InfluencerId, ProgramId};

verus! {

/// What creating a program costs, in yoctoNEAR.
pub const PRICE_PER_PROGRAM: u128 = 100000000000000000000000;

/// What joining a program costs, in yoctoNEAR.
pub const PRICE_PER_REFERRAL: u128 = 20000000000000000000000;

pub open spec fn spec_program_id(contract_id: Seq<char>, influencer_id: Seq<char>, program_id: Seq<char>) -> Seq<
    char,
> {
    spec_join(spec_join(contract_id, influencer_id), program_id)
}

/// `contract||influencer||program`.
pub fn get_program_id(contract_id: &ContractId, influencer_id: &InfluencerId, program_id: &ProgramId) -> (r:
    String)
    ensures
        r@ == spec_program_id(contract_id@, influencer_id@, program_id@),
{
    let a = join_id(contract_id, influencer_id);
    join_id(&a, program_id)
}

/// `contract||account`.
pub fn contract_account_id(contract_id: &ContractId, account_id: &AccountId) -> (r: String)
    ensures
        r@ == spec_join(contract_id@, account_id@),
{
    join_id(contract_id, account_id)
}

/// Refuses unless at least the price of a program is attached.
pub fn assert_referral_program_money(deposit: u128) -> (r: Result<(), crate::referral::metadata::ReferralError>)
    ensures
        r is Ok <==> deposit >= PRICE_PER_PROGRAM,
        r is Err ==> r->Err_0 == crate::referral::metadata::ReferralError::ProgramDepositTooSmall,
{
    if deposit >= PRICE_PER_PROGRAM {
        Ok(())
    } else {
        Err(crate::referral::metadata::ReferralError::ProgramDepositTooSmall)
    }
}

/// Refuses unless at least the price of joining is attached.
pub fn assert_referral_money(deposit: u128) -> (r: Result<(), crate::referral::metadata::ReferralError>)
    ensures
        r is Ok <==> deposit >= PRICE_PER_REFERRAL,
        r is Err ==> r->Err_0 == crate::referral::metadata::ReferralError::ReferralDepositTooSmall,
{
    if deposit >= PRICE_PER_REFERRAL {
        Ok(())
    } else {
        Err(crate::referral::metadata::ReferralError::ReferralDepositTooSmall)
    }
}

} // verus!
