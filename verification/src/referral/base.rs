//! Creating programs and recording who joined them.
use vstd::prelude::*;
use crate::collections::{
    AssocMap,
    StrSet,
    set_map_add,
    set_map_remove,
    set_map_view,
    set_map_removed,
    entry_or_empty,
    seq_insert,
    str_map_view,
    map_get,
    nested_add,
    nested_view,
    inner_or_empty,
};
use crate::utils::{AccountId, spec_join, decimal, u64_to_decimal};
use crate::referral::metadata::{
    ContractId,
    InfluencerId,
    ProgramId,
    InfluencerRoyalty,
    ReferralInfo,
    ReferralInfoView,
    ReferralProgramMetadata,
    ProgramMetadataView,
    ReferralProgram,
    ReferralCall,
    ReferralError,
    ReferralState,
    opt_meta_view,
};
use crate::referral::utils::{
    PRICE_PER_PROGRAM,
    PRICE_PER_REFERRAL,
    get_program_id,
    contract_account_id,
    spec_program_id,
};

verus! {

pub struct ReferralFeature {
    pub influencer_by_id: AssocMap<String, InfluencerId>,
    pub referrals_by_contract: AssocMap<String, StrSet>,
    pub referrals_by_influencer: AssocMap<String, StrSet>,
    pub referrals_by_program: AssocMap<String, StrSet>,
    pub royalty_by_program: AssocMap<String, InfluencerRoyalty>,
    pub metadata_by_program: AssocMap<String, ReferralProgramMetadata>,
    pub programs_by_contract: AssocMap<String, AssocMap<String, StrSet>>,
    pub programs_by_influencer: AssocMap<String, AssocMap<String, StrSet>>,
    pub code_by_program: AssocMap<String, String>,
    pub info_by_code: AssocMap<String, ReferralInfo>,
}

impl View for ReferralFeature {
    type V = ReferralState;

    open spec fn view(&self) -> ReferralState {
        ReferralState {
            influencer_by_id: str_map_view(self.influencer_by_id.map()),
            by_contract: set_map_view(self.referrals_by_contract.map()),
            by_influencer: set_map_view(self.referrals_by_influencer.map()),
            by_program: set_map_view(self.referrals_by_program.map()),
            royalty: self.royalty_by_program.map(),
            metadata: self.metadata_by_program.map().map_values(|m: ReferralProgramMetadata| m@),
            programs_by_contract: nested_view(self.programs_by_contract.map()),
            programs_by_influencer: nested_view(self.programs_by_influencer.map()),
            code_by_program: str_map_view(self.code_by_program.map()),
            info_by_code: self.info_by_code.map().map_values(|i: ReferralInfo| i@),
        }
    }
}

pub open spec fn as_result(e: Option<ReferralError>) -> Result<(), ReferralError> {
    match e {
        Some(e) => Err(e),
        None => Ok(()),
    }
}

/// `m` with an empty list under `k` when it has none there.
pub open spec fn keep_or_empty(m: Map<Seq<char>, Seq<Seq<char>>>, k: Seq<char>) -> Map<
    Seq<char>,
    Seq<Seq<char>>,
> {
    if m.contains_key(k) {
        m
    } else {
        m.insert(k, Seq::empty())
    }
}

impl ReferralState {
    /// Why creating a program at block time `now` is refused, if it is; the
    /// program's code is `now` in decimal.
    pub open spec fn create_error(
        self,
        contract_id: Seq<char>,
        influencer_id: Seq<char>,
        program_id: Seq<char>,
        deposit: u128,
        now: u64,
    ) -> Option<ReferralError> {
        if deposit < PRICE_PER_PROGRAM {
            Some(ReferralError::ProgramDepositTooSmall)
        } else if self.by_program.contains_key(spec_program_id(contract_id, influencer_id, program_id)) {
            Some(ReferralError::ProgramExists)
        } else if self.info_by_code.contains_key(decimal(now as nat)) {
            Some(ReferralError::CodeUsed)
        } else {
            None
        }
    }

    /// The state after a program is created: it is listed under its contract
    /// and its influencer, the contract and the influencer keep the referrals
    /// they have (an empty list where they have none), the program's list
    /// starts empty, and its royalty, metadata and code are recorded.
    pub open spec fn after_create(
        self,
        contract_id: Seq<char>,
        influencer_id: Seq<char>,
        program_id: Seq<char>,
        royalty_percent: Option<u64>,
        metadata: Option<ProgramMetadataView>,
        now: u64,
    ) -> ReferralState {
        let id = spec_program_id(contract_id, influencer_id, program_id);
        let code = decimal(now as nat);
        let pc = inner_or_empty(self.programs_by_contract, contract_id);
        let pi = inner_or_empty(self.programs_by_influencer, influencer_id);
        ReferralState {
            programs_by_contract: self.programs_by_contract.insert(
                contract_id,
                pc.insert(influencer_id, seq_insert(entry_or_empty(pc, influencer_id), program_id)),
            ),
            programs_by_influencer: self.programs_by_influencer.insert(
                influencer_id,
                pi.insert(contract_id, seq_insert(entry_or_empty(pi, contract_id), program_id)),
            ),
            by_contract: keep_or_empty(self.by_contract, contract_id),
            by_influencer: keep_or_empty(self.by_influencer, influencer_id),
            by_program: self.by_program.insert(id, Seq::empty()),
            royalty: match royalty_percent {
                Some(r) => self.royalty.insert(id, r),
                None => self.royalty,
            },
            metadata: match metadata {
                Some(m) => self.metadata.insert(id, m),
                None => self.metadata,
            },
            code_by_program: self.code_by_program.insert(id, code),
            info_by_code: self.info_by_code.insert(
                code,
                ReferralInfoView { contract_id, influencer_id, program_id },
            ),
            ..self
        }
    }

    /// The state after `account_id` joins a program: the influencer who
    /// brought it is recorded under `contract||account`, and the account is
    /// listed under the contract, the influencer and the program.
    pub open spec fn after_add_referral(
        self,
        contract_id: Seq<char>,
        influencer_id: Seq<char>,
        program_id: Seq<char>,
        account_id: Seq<char>,
    ) -> ReferralState {
        let id = spec_program_id(contract_id, influencer_id, program_id);
        ReferralState {
            influencer_by_id: self.influencer_by_id.insert(spec_join(contract_id, account_id), influencer_id),
            by_contract: self.by_contract.insert(
                contract_id,
                seq_insert(entry_or_empty(self.by_contract, contract_id), account_id),
            ),
            by_influencer: self.by_influencer.insert(
                influencer_id,
                seq_insert(entry_or_empty(self.by_influencer, influencer_id), account_id),
            ),
            by_program: self.by_program.insert(id, seq_insert(entry_or_empty(self.by_program, id), account_id)),
            ..self
        }
    }

    /// The state after `account_id` leaves a program: the record under
    /// `contract||account` and its place in each list are gone, and lists
    /// left empty are dropped.
    pub open spec fn after_remove_referral(
        self,
        contract_id: Seq<char>,
        influencer_id: Seq<char>,
        program_id: Seq<char>,
        account_id: Seq<char>,
    ) -> ReferralState {
        let id = spec_program_id(contract_id, influencer_id, program_id);
        ReferralState {
            influencer_by_id: self.influencer_by_id.remove(spec_join(contract_id, account_id)),
            by_contract: set_map_removed(self.by_contract, contract_id, account_id),
            by_influencer: set_map_removed(self.by_influencer, influencer_id, account_id),
            by_program: set_map_removed(self.by_program, id, account_id),
            ..self
        }
    }

    /// Why joining a program with `deposit` is refused, if it is.
    pub open spec fn accept_error(self, contract_id: Seq<char>, account_id: Seq<char>, deposit: u128) -> Option<
        ReferralError,
    > {
        if deposit < PRICE_PER_REFERRAL {
            Some(ReferralError::ReferralDepositTooSmall)
        } else if self.influencer_by_id.contains_key(spec_join(contract_id, account_id)) {
            Some(ReferralError::ReferralExists)
        } else {
            None
        }
    }
}

impl ReferralFeature {
    /// An empty registry.
    pub fn new() -> (r: Self)
        ensures
            r@.influencer_by_id == Map::<Seq<char>, Seq<char>>::empty(),
            r@.by_contract == Map::<Seq<char>, Seq<Seq<char>>>::empty(),
            r@.by_influencer == Map::<Seq<char>, Seq<Seq<char>>>::empty(),
            r@.by_program == Map::<Seq<char>, Seq<Seq<char>>>::empty(),
            r@.royalty == Map::<Seq<char>, u64>::empty(),
            r@.metadata == Map::<Seq<char>, ProgramMetadataView>::empty(),
            r@.programs_by_contract == Map::<Seq<char>, Map<Seq<char>, Seq<Seq<char>>>>::empty(),
            r@.programs_by_influencer == Map::<Seq<char>, Map<Seq<char>, Seq<Seq<char>>>>::empty(),
            r@.code_by_program == Map::<Seq<char>, Seq<char>>::empty(),
            r@.info_by_code == Map::<Seq<char>, ReferralInfoView>::empty(),
    {
        let r = ReferralFeature {
            influencer_by_id: AssocMap::new(),
            referrals_by_contract: AssocMap::new(),
            referrals_by_influencer: AssocMap::new(),
            referrals_by_program: AssocMap::new(),
            royalty_by_program: AssocMap::new(),
            metadata_by_program: AssocMap::new(),
            programs_by_contract: AssocMap::new(),
            programs_by_influencer: AssocMap::new(),
            code_by_program: AssocMap::new(),
            info_by_code: AssocMap::new(),
        };
        proof {
            assert(r@.influencer_by_id =~= Map::empty());
            assert(r@.by_contract =~= Map::empty());
            assert(r@.by_influencer =~= Map::empty());
            assert(r@.by_program =~= Map::empty());
            assert(r@.metadata =~= Map::empty());
            assert(r@.programs_by_contract =~= Map::empty());
            assert(r@.programs_by_influencer =~= Map::empty());
            assert(r@.code_by_program =~= Map::empty());
            assert(r@.info_by_code =~= Map::empty());
        }
        r
    }

    /// The influencer who brought `account_id` to `contract_id`, if any.
    pub fn internal_referral_by(&self, contract_id: &ContractId, account_id: &AccountId) -> (r: Option<
        InfluencerId,
    >)
        ensures
            r is Some <==> self@.influencer_by_id.contains_key(spec_join(contract_id@, account_id@)),
            r is Some ==> r.unwrap()@ == self@.influencer_by_id[spec_join(contract_id@, account_id@)],
    {
        let id = contract_account_id(contract_id, account_id);
        match self.influencer_by_id.get(&id) {
            Some(a) => Some(a.clone()),
            None => None,
        }
    }

    pub fn referral_by(&self, contract_id: AccountId, account_id: AccountId) -> (r: Option<AccountId>)
        ensures
            r is Some <==> self@.influencer_by_id.contains_key(spec_join(contract_id@, account_id@)),
            r is Some ==> r.unwrap()@ == self@.influencer_by_id[spec_join(contract_id@, account_id@)],
    {
        self.internal_referral_by(&contract_id, &account_id)
    }

    /// The code of a program, if it has one.
    pub fn referral_program_code(&self, contract_id: ContractId, influencer_id: InfluencerId, program_id: ProgramId) -> (r:
        Option<String>)
        ensures
            ({
                let id = spec_program_id(contract_id@, influencer_id@, program_id@);
                &&& r is Some <==> self@.code_by_program.contains_key(id)
                &&& r is Some ==> r.unwrap()@ == self@.code_by_program[id]
            }),
    {
        let id = get_program_id(&contract_id, &influencer_id, &program_id);
        match self.code_by_program.get(&id) {
            Some(c) => Some(c.clone()),
            None => None,
        }
    }

    /// The program a code stands for, if any.
    pub fn referral_code_info(&self, code: String) -> (r: Option<ReferralInfo>)
        ensures
            r is Some <==> self@.info_by_code.contains_key(code@),
            r is Some ==> r.unwrap()@ == self@.info_by_code[code@],
    {
        match self.info_by_code.get(&code) {
            Some(i) => Some(i.duplicate()),
            None => None,
        }
    }

    /// The program a code stands for; refused when the code is unknown.
    pub fn internal_get_info_by_code(&self, code: String) -> (r: Result<ReferralInfo, ReferralError>)
        ensures
            match r {
                Ok(i) => self@.info_by_code.contains_key(code@) && i@ == self@.info_by_code[code@],
                Err(e) => !self@.info_by_code.contains_key(code@) && e == ReferralError::InfoNotFound,
            },
    {
        match self.info_by_code.get(&code) {
            Some(i) => Ok(i.duplicate()),
            None => Err(ReferralError::InfoNotFound),
        }
    }

    /// A program with its metadata and code; there is one exactly when the
    /// program has a code.
    pub fn referral_program(&self, contract_id: ContractId, influencer_id: InfluencerId, program_id: ProgramId) -> (r:
        Option<ReferralProgram>)
        ensures
            ({
                let id = spec_program_id(contract_id@, influencer_id@, program_id@);
                &&& r is Some <==> self@.code_by_program.contains_key(id)
                &&& r is Some ==> {
                    let p = r.unwrap();
                    &&& p.contract_id@ == contract_id@ && p.influencer_id@ == influencer_id@
                    &&& p.program_id@ == program_id@
                    &&& p.code@ == self@.code_by_program[id]
                    &&& opt_meta_view(p.metadata) == map_get(self@.metadata, id)
                }
            }),
    {
        let id = get_program_id(&contract_id, &influencer_id, &program_id);
        let code = match self.code_by_program.get(&id) {
            None => {
                return None;
            },
            Some(c) => c.clone(),
        };
        let metadata = match self.metadata_by_program.get(&id) {
            Some(m) => Some(m.duplicate()),
            None => None,
        };
        Some(ReferralProgram { contract_id, influencer_id, program_id, metadata, code })
    }

    /// The royalty of a program, if it has one.
    pub fn referral_program_royalty(&self, contract_id: AccountId, influencer_id: InfluencerId, program_id: ProgramId) -> (r:
        Option<u64>)
        ensures
            r == map_get(self@.royalty, spec_program_id(contract_id@, influencer_id@, program_id@)),
    {
        let id = get_program_id(&contract_id, &influencer_id, &program_id);
        match self.royalty_by_program.get(&id) {
            Some(r) => Some(*r),
            None => None,
        }
    }

    /// The code of a program created at block time `now`.
    pub fn internal_get_random_code(&self, now: u64) -> (r: String)
        ensures
            r@ == decimal(now as nat),
    {
        u64_to_decimal(now)
    }

    /// Lists `program_id` under `contract_id`, then `influencer_id`.
    pub fn internal_add_program_to_contract(
        &mut self,
        contract_id: &ContractId,
        influencer_id: &InfluencerId,
        program_id: &ProgramId,
    )
        ensures
            ({
                let pc = inner_or_empty(old(self)@.programs_by_contract, contract_id@);
                final(self)@ == ReferralState {
                    programs_by_contract: old(self)@.programs_by_contract.insert(
                        contract_id@,
                        pc.insert(
                            influencer_id@,
                            seq_insert(entry_or_empty(pc, influencer_id@), program_id@),
                        ),
                    ),
                    ..old(self)@
                }
            }),
    {
        nested_add(&mut self.programs_by_contract, contract_id, influencer_id, program_id.clone());
    }

    /// Lists `program_id` under `influencer_id`, then `contract_id`.
    pub fn internal_add_program_to_influencer(
        &mut self,
        contract_id: &ContractId,
        influencer_id: &InfluencerId,
        program_id: &ProgramId,
    )
        ensures
            ({
                let pi = inner_or_empty(old(self)@.programs_by_influencer, influencer_id@);
                final(self)@ == ReferralState {
                    programs_by_influencer: old(self)@.programs_by_influencer.insert(
                        influencer_id@,
                        pi.insert(contract_id@, seq_insert(entry_or_empty(pi, contract_id@), program_id@)),
                    ),
                    ..old(self)@
                }
            }),
    {
        nested_add(&mut self.programs_by_influencer, influencer_id, contract_id, program_id.clone());
    }

    /// Creates a program of `influencer_id` for `contract_id`, paid with
    /// `deposit`; its code is the block time `now` in decimal.
    pub fn internal_create_program(
        &mut self,
        contract_id: &ContractId,
        influencer_id: &InfluencerId,
        program_id: &ProgramId,
        royalty_percent: &Option<u64>,
        metadata: &Option<ReferralProgramMetadata>,
        deposit: u128,
        now: u64,
    ) -> (r: Result<(), ReferralError>)
        ensures
            r == as_result(
                old(self)@.create_error(contract_id@, influencer_id@, program_id@, deposit, now),
            ),
            r is Ok ==> final(self)@ == old(self)@.after_create(
                contract_id@,
                influencer_id@,
                program_id@,
                *royalty_percent,
                opt_meta_view(*metadata),
                now,
            ),
            r is Err ==> final(self)@ == old(self)@,
    {
        crate::referral::utils::assert_referral_program_money(deposit)?;
        let id = get_program_id(contract_id, influencer_id, program_id);
        let code = self.internal_get_random_code(now);
        if self.referrals_by_program.contains_key(&id) {
            return Err(ReferralError::ProgramExists);
        }
        if self.info_by_code.contains_key(&code) {
            return Err(ReferralError::CodeUsed);
        }
        let ghost pre = self@;
        self.internal_add_program_to_contract(contract_id, influencer_id, program_id);
        self.internal_add_program_to_influencer(contract_id, influencer_id, program_id);
        if !self.referrals_by_contract.contains_key(contract_id) {
            self.referrals_by_contract.insert(contract_id.clone(), StrSet::new());
        }
        if !self.referrals_by_influencer.contains_key(influencer_id) {
            self.referrals_by_influencer.insert(influencer_id.clone(), StrSet::new());
        }
        self.referrals_by_program.insert(id.clone(), StrSet::new());
        match royalty_percent {
            Some(r) => {
                self.royalty_by_program.insert(id.clone(), *r);
            },
            None => {},
        }
        match metadata {
            Some(m) => {
                self.metadata_by_program.insert(id.clone(), m.duplicate());
            },
            None => {},
        }
        self.code_by_program.insert(id.clone(), code.clone());
        let info = ReferralInfo {
            contract_id: contract_id.clone(),
            influencer_id: influencer_id.clone(),
            program_id: program_id.clone(),
        };
        self.info_by_code.insert(code, info);
        proof {
            let post = pre.after_create(
                contract_id@,
                influencer_id@,
                program_id@,
                *royalty_percent,
                opt_meta_view(*metadata),
                now,
            );
            assert(self@.by_contract =~= post.by_contract);
            assert(self@.by_influencer =~= post.by_influencer);
            assert(self@.by_program =~= post.by_program);
            assert(self@.royalty =~= post.royalty);
            assert(self@.metadata =~= post.metadata);
            assert(self@.code_by_program =~= post.code_by_program);
            assert(self@.info_by_code =~= post.info_by_code);
        }
        Ok(())
    }

    /// The caller, a contract, creates a program for `influencer_id`.
    pub fn referral_create_program(
        &mut self,
        influencer_id: AccountId,
        program_id: ProgramId,
        royalty_percent: Option<u64>,
        metadata: Option<ReferralProgramMetadata>,
        predecessor: &AccountId,
        deposit: u128,
        now: u64,
    ) -> (r: Result<(), ReferralError>)
        ensures
            r == as_result(
                old(self)@.create_error(predecessor@, influencer_id@, program_id@, deposit, now),
            ),
            r is Ok ==> final(self)@ == old(self)@.after_create(
                predecessor@,
                influencer_id@,
                program_id@,
                royalty_percent,
                opt_meta_view(metadata),
                now,
            ),
            r is Err ==> final(self)@ == old(self)@,
    {
        self.internal_create_program(
            predecessor,
            &influencer_id,
            &program_id,
            &royalty_percent,
            &metadata,
            deposit,
            now,
        )
    }

    pub fn internal_add_referral_to_contract(&mut self, contract_id: &ContractId, account_id: &AccountId)
        ensures
            final(self)@ == (ReferralState {
                by_contract: old(self)@.by_contract.insert(
                    contract_id@,
                    seq_insert(entry_or_empty(old(self)@.by_contract, contract_id@), account_id@),
                ),
                ..old(self)@
            }),
    {
        set_map_add(&mut self.referrals_by_contract, contract_id, account_id.clone());
    }

    pub fn internal_add_referral_to_influencer(&mut self, influencer_id: &InfluencerId, account_id: &AccountId)
        ensures
            final(self)@ == (ReferralState {
                by_influencer: old(self)@.by_influencer.insert(
                    influencer_id@,
                    seq_insert(entry_or_empty(old(self)@.by_influencer, influencer_id@), account_id@),
                ),
                ..old(self)@
            }),
    {
        set_map_add(&mut self.referrals_by_influencer, influencer_id, account_id.clone());
    }

    pub fn internal_add_referral_to_program(
        &mut self,
        contract_id: &ContractId,
        influencer_id: &InfluencerId,
        program_id: &ProgramId,
        account_id: &AccountId,
    )
        ensures
            ({
                let id = spec_program_id(contract_id@, influencer_id@, program_id@);
                final(self)@ == ReferralState {
                    by_program: old(self)@.by_program.insert(
                        id,
                        seq_insert(entry_or_empty(old(self)@.by_program, id), account_id@),
                    ),
                    ..old(self)@
                }
            }),
    {
        let id = get_program_id(contract_id, influencer_id, program_id);
        set_map_add(&mut self.referrals_by_program, &id, account_id.clone());
    }

    /// Records that `account_id` joined a program.
    pub fn internal_add_referral(
        &mut self,
        contract_id: &ContractId,
        influencer_id: &InfluencerId,
        program_id: &ProgramId,
        account_id: &AccountId,
    )
        ensures
            final(self)@ == old(self)@.after_add_referral(
                contract_id@,
                influencer_id@,
                program_id@,
                account_id@,
            ),
    {
        let ghost pre = self@;
        let contract_account = contract_account_id(contract_id, account_id);
        self.influencer_by_id.insert(contract_account, influencer_id.clone());
        assert(self@.influencer_by_id =~= pre.influencer_by_id.insert(
            spec_join(contract_id@, account_id@),
            influencer_id@,
        ));
        self.internal_add_referral_to_contract(contract_id, account_id);
        self.internal_add_referral_to_influencer(influencer_id, account_id);
        self.internal_add_referral_to_program(contract_id, influencer_id, program_id, account_id);
    }

    /// Forgets that `account_id` joined a program.
    pub fn internal_remove_referral(
        &mut self,
        contract_id: &ContractId,
        influencer_id: &InfluencerId,
        program_id: &ProgramId,
        account_id: &AccountId,
    )
        ensures
            final(self)@ == old(self)@.after_remove_referral(
                contract_id@,
                influencer_id@,
                program_id@,
                account_id@,
            ),
    {
        let ghost pre = self@;
        let contract_account = contract_account_id(contract_id, account_id);
        let id = get_program_id(contract_id, influencer_id, program_id);
        self.influencer_by_id.remove(&contract_account);
        assert(self@.influencer_by_id =~= pre.influencer_by_id.remove(spec_join(contract_id@, account_id@)));
        set_map_remove(&mut self.referrals_by_contract, contract_id, account_id);
        set_map_remove(&mut self.referrals_by_influencer, influencer_id, account_id);
        set_map_remove(&mut self.referrals_by_program, &id, account_id);
    }

    /// `account_id` joins a program of `contract_id`, paying `deposit`;
    /// the contract is then to be told.
    pub fn internal_accept_referral(
        &mut self,
        contract_id: &ContractId,
        influencer_id: &InfluencerId,
        program_id: &ProgramId,
        account_id: &AccountId,
        deposit: u128,
    ) -> (r: Result<ReferralCall, ReferralError>)
        ensures
            match r {
                Ok(c) => {
                    &&& old(self)@.accept_error(contract_id@, account_id@, deposit) is None
                    &&& final(self)@ == old(self)@.after_add_referral(
                        contract_id@,
                        influencer_id@,
                        program_id@,
                        account_id@,
                    )
                    &&& c.contract_id@ == contract_id@ && c.influencer_id@ == influencer_id@
                    &&& c.program_id@ == program_id@ && c.account_id@ == account_id@
                },
                Err(e) => old(self)@.accept_error(contract_id@, account_id@, deposit) == Some(e)
                    && final(self)@ == old(self)@,
            },
    {
        crate::referral::utils::assert_referral_money(deposit)?;
        let contract_account = contract_account_id(contract_id, account_id);
        if self.influencer_by_id.contains_key(&contract_account) {
            return Err(ReferralError::ReferralExists);
        }
        self.internal_add_referral(contract_id, influencer_id, program_id, account_id);
        Ok(
            ReferralCall {
                contract_id: contract_id.clone(),
                influencer_id: influencer_id.clone(),
                program_id: program_id.clone(),
                account_id: account_id.clone(),
            },
        )
    }

    /// The caller joins a program by its id.
    pub fn referral_accept(
        &mut self,
        contract_id: AccountId,
        influencer_id: AccountId,
        program_id: ProgramId,
        predecessor: &AccountId,
        deposit: u128,
    ) -> (r: Result<ReferralCall, ReferralError>)
        ensures
            match r {
                Ok(c) => {
                    &&& old(self)@.accept_error(contract_id@, predecessor@, deposit) is None
                    &&& final(self)@ == old(self)@.after_add_referral(
                        contract_id@,
                        influencer_id@,
                        program_id@,
                        predecessor@,
                    )
                    &&& c.contract_id@ == contract_id@ && c.influencer_id@ == influencer_id@
                    &&& c.program_id@ == program_id@ && c.account_id@ == predecessor@
                },
                Err(e) => old(self)@.accept_error(contract_id@, predecessor@, deposit) == Some(e)
                    && final(self)@ == old(self)@,
            },
    {
        self.internal_accept_referral(&contract_id, &influencer_id, &program_id, predecessor, deposit)
    }

    /// The caller joins the program a code stands for.
    pub fn referral_accept_code(&mut self, code: String, predecessor: &AccountId, deposit: u128) -> (r: Result<
        ReferralCall,
        ReferralError,
    >)
        ensures
            match r {
                Ok(c) => {
                    let info = old(self)@.info_by_code[code@];
                    &&& old(self)@.info_by_code.contains_key(code@)
                    &&& old(self)@.accept_error(info.contract_id, predecessor@, deposit) is None
                    &&& final(self)@ == old(self)@.after_add_referral(
                        info.contract_id,
                        info.influencer_id,
                        info.program_id,
                        predecessor@,
                    )
                    &&& c.contract_id@ == info.contract_id && c.influencer_id@ == info.influencer_id
                    &&& c.program_id@ == info.program_id && c.account_id@ == predecessor@
                },
                Err(e) => final(self)@ == old(self)@ && if !old(self)@.info_by_code.contains_key(code@) {
                    e == ReferralError::ProgramNotFound
                } else {
                    old(self)@.accept_error(old(self)@.info_by_code[code@].contract_id, predecessor@, deposit)
                        == Some(e)
                },
            },
    {
        let info = match self.info_by_code.get(&code) {
            None => {
                return Err(ReferralError::ProgramNotFound);
            },
            Some(i) => i.duplicate(),
        };
        self.internal_accept_referral(
            &info.contract_id,
            &info.influencer_id,
            &info.program_id,
            predecessor,
            deposit,
        )
    }

    /// Settles the call that told the contract about a new referral: when it
    /// failed, the referral is recorded again; says whether it succeeded.
    pub fn resolve_on_referral_create(
        &mut self,
        contract_id: AccountId,
        influencer_id: AccountId,
        program_id: String,
        account_id: AccountId,
        is_success: bool,
    ) -> (r: bool)
        ensures
            r == is_success,
            final(self)@ == if is_success {
                old(self)@
            } else {
                old(self)@.after_add_referral(contract_id@, influencer_id@, program_id@, account_id@)
            },
    {
        if !is_success {
            self.internal_add_referral(&contract_id, &influencer_id, &program_id, &account_id);
        }
        is_success
    }
}

} // verus!
