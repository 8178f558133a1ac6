//! View calls over referrals and programs.
use vstd::prelude::*;
use crate::collections::{entry_or_empty, inner_or_empty, key_views, AssocMap, StrSet};
use crate::order::{sort_strings, sorted_strs};
use crate::utils::AccountId;
use crate::referral::metadata::{ContractId, InfluencerId, ProgramId, ReferralError};
use crate::referral::utils::{get_program_id, spec_program_id};
use crate::referral::base::ReferralFeature;
use crate::rent::enumeration::str_views;

verus! {

/// The elements of a set under `key`, or none.
fn set_entries(m: &AssocMap<String, StrSet>, key: &String) -> (r: Vec<AccountId>)
    ensures
        str_views(r@) == entry_or_empty(crate::collections::set_map_view(m.map()), key@),
{
    match m.get(key) {
        Some(s) => s.to_vec(),
        None => {
            let v: Vec<AccountId> = Vec::new();
            assert(str_views(v@) =~= Seq::<Seq<char>>::empty());
            v
        },
    }
}

/// The keys of the inner map under `key`, ascending, or none.
fn sorted_inner_keys(m: &AssocMap<String, AssocMap<String, StrSet>>, key: &String) -> (r: Vec<String>)
    ensures
        sorted_strs(key_views(r@)),
        key_views(r@).to_set() == inner_or_empty(crate::collections::nested_view(m.map()), key@).dom(),
        key_views(r@).no_duplicates(),
{
    match m.get(key) {
        Some(inner) => {
            let ks = inner.keys();
            let r = sort_strings(ks);
            proof {
                let rs = key_views(r@);
                assert forall|i: int, j: int|
                    0 <= i < rs.len() && 0 <= j < rs.len() && i != j implies rs[i] != rs[j] by {
                    if i < j {
                        assert(crate::order::str_lt(rs[i], rs[j]));
                        crate::order::lemma_str_lt_irreflexive(rs[i]);
                    } else {
                        assert(crate::order::str_lt(rs[j], rs[i]));
                        crate::order::lemma_str_lt_irreflexive(rs[j]);
                    }
                }
                assert(inner_or_empty(crate::collections::nested_view(m.map()), key@).dom()
                    =~= inner.map().dom());
            }
            r
        },
        None => {
            let v: Vec<String> = Vec::new();
            assert(key_views(v@) =~= Seq::<Seq<char>>::empty());
            assert(inner_or_empty(crate::collections::nested_view(m.map()), key@).dom() =~= Set::empty());
            v
        },
    }
}

impl ReferralFeature {
    /// The accounts referred to `contract_id`, in joining order.
    pub fn referrals_by_contract(&self, contract_id: AccountId) -> (r: Vec<AccountId>)
        ensures
            str_views(r@) == entry_or_empty(self@.by_contract, contract_id@),
    {
        set_entries(&self.referrals_by_contract, &contract_id)
    }

    pub fn referrals_supply_by_contract(&self, contract_id: AccountId) -> (n: u128)
        ensures
            n == entry_or_empty(self@.by_contract, contract_id@).len(),
    {
        match self.referrals_by_contract.get(&contract_id) {
            Some(s) => s.len() as u128,
            None => 0,
        }
    }

    /// The accounts in a program, in joining order.
    pub fn referrals_by_program(&self, contract_id: AccountId, influencer_id: AccountId, program_id: String) -> (r:
        Vec<AccountId>)
        ensures
            str_views(r@) == entry_or_empty(
                self@.by_program,
                spec_program_id(contract_id@, influencer_id@, program_id@),
            ),
    {
        let id = get_program_id(&contract_id, &influencer_id, &program_id);
        set_entries(&self.referrals_by_program, &id)
    }

    pub fn referrals_supply_by_program(&self, contract_id: AccountId, influencer_id: AccountId, program_id: String) -> (n:
        u128)
        ensures
            n == entry_or_empty(
                self@.by_program,
                spec_program_id(contract_id@, influencer_id@, program_id@),
            ).len(),
    {
        let id = get_program_id(&contract_id, &influencer_id, &program_id);
        match self.referrals_by_program.get(&id) {
            Some(s) => s.len() as u128,
            None => 0,
        }
    }

    /// The accounts `influencer_id` brought, in joining order.
    pub fn referrals_by_influencer(&self, influencer_id: InfluencerId) -> (r: Vec<AccountId>)
        ensures
            str_views(r@) == entry_or_empty(self@.by_influencer, influencer_id@),
    {
        set_entries(&self.referrals_by_influencer, &influencer_id)
    }

    /// How many accounts `influencer_id` brought.
    pub fn referrals_supply_by_influencer(&self, influencer_id: InfluencerId) -> (n: u128)
        ensures
            n == entry_or_empty(self@.by_influencer, influencer_id@).len(),
    {
        match self.referrals_by_influencer.get(&influencer_id) {
            Some(s) => s.len() as u128,
            None => 0,
        }
    }

    /// The contracts `influencer_id` has programs with, ascending.
    pub fn referral_contracts_by_influencer(&self, influencer_id: InfluencerId) -> (r: Vec<ContractId>)
        ensures
            sorted_strs(key_views(r@)),
            key_views(r@).no_duplicates(),
            key_views(r@).to_set() == inner_or_empty(self@.programs_by_influencer, influencer_id@).dom(),
    {
        sorted_inner_keys(&self.programs_by_influencer, &influencer_id)
    }

    /// The programs of `influencer_id` with `contract_id`, in creation order.
    pub fn referral_programs_by_influencer(&self, influencer_id: InfluencerId, contract_id: ContractId) -> (r: Vec<
        ProgramId,
    >)
        ensures
            str_views(r@) == entry_or_empty(
                inner_or_empty(self@.programs_by_influencer, influencer_id@),
                contract_id@,
            ),
    {
        match self.programs_by_influencer.get(&influencer_id) {
            Some(contracts) => {
                assert(crate::collections::set_map_view(contracts.map()) =~= inner_or_empty(
                    self@.programs_by_influencer,
                    influencer_id@,
                ));
                set_entries(contracts, &contract_id)
            },
            None => {
                let v: Vec<ProgramId> = Vec::new();
                assert(str_views(v@) =~= Seq::<Seq<char>>::empty());
                v
            },
        }
    }

    /// The influencers with programs for `contract_id`, ascending.
    pub fn referral_influencers_by_contract(&self, contract_id: ContractId) -> (r: Vec<InfluencerId>)
        ensures
            sorted_strs(key_views(r@)),
            key_views(r@).no_duplicates(),
            key_views(r@).to_set() == inner_or_empty(self@.programs_by_contract, contract_id@).dom(),
    {
        sorted_inner_keys(&self.programs_by_contract, &contract_id)
    }

    /// The programs of `influencer_id` for `contract_id`, in creation order;
    /// refused when the contract has no programs.
    pub fn referral_programs_by_contract(&self, contract_id: InfluencerId, influencer_id: InfluencerId) -> (r:
        Result<Vec<ProgramId>, ReferralError>)
        ensures
            match r {
                Ok(v) => self@.programs_by_contract.contains_key(contract_id@) && str_views(v@)
                    == entry_or_empty(self@.programs_by_contract[contract_id@], influencer_id@),
                Err(e) => !self@.programs_by_contract.contains_key(contract_id@) && e
                    == ReferralError::ContractNotFound,
            },
    {
        match self.programs_by_contract.get(&contract_id) {
            None => Err(ReferralError::ContractNotFound),
            Some(influencers) => {
                assert(crate::collections::set_map_view(influencers.map())
                    =~= self@.programs_by_contract[contract_id@]);
                Ok(set_entries(influencers, &influencer_id))
            },
        }
    }
}

} // verus!
