//! Offering, updating, withdrawing, paying for and reclaiming rents.
use vstd::prelude::*;
use crate::collections::{
    AssocMap,
    StrSet,
    set_map_add,
    set_map_remove,
    set_map_view,
    set_map_removed,
    entry_or_empty,
    seq_insert,
    seq_swap_remove,
    map_get,
    str_map_view,
};
use crate::utils::{AccountId, TokenId, contract_token_id, spec_join, near_ft, spec_near_ft};
use crate::rent::meta::{
    Rent,
    RentView,
    RentState,
    RentError,
    SaleConditions,
    RentOnNftApproveArgs,
    RentOnFtTransferArgs,
    Payout,
    PayoutView,
    RentPurchase,
    RentClaimCall,
    ResolvePurchase,
};

verus! {

/// The shortest rent accepted, in nanoseconds.
pub const RENT_TIME_MIN: u64 = 3600000000000;

/// The longest rent accepted, in nanoseconds.
pub const RENT_TIME_NAX: u64 = 8640000000000000;

/// The divisor that turns a duration in nanoseconds into millionths of a
/// minute.
pub const MINUTE_DIVISOR: u64 = 60000;

/// A rent market: offers, payments in flight, running rents and the
/// indexes that list them.
pub struct RentFeature {
    pub approved_owner_by_id: Option<AssocMap<String, AccountId>>,
    pub rents_current: AssocMap<String, AccountId>,
    pub rents_pending: StrSet,
    pub rents_by_id: AssocMap<String, Rent>,
    pub rents_per_account: AssocMap<String, StrSet>,
    pub rents_end_by_id: AssocMap<String, u64>,
    pub rent_tokens_per_account: AssocMap<String, StrSet>,
    pub rent_tokens_by_contract: AssocMap<String, StrSet>,
}

pub open spec fn rents_view(m: Map<Seq<char>, Rent>) -> Map<Seq<char>, RentView> {
    m.map_values(|r: Rent| r@)
}

impl View for RentFeature {
    type V = RentState;

    open spec fn view(&self) -> RentState {
        RentState {
            approved: match self.approved_owner_by_id {
                Some(m) => Some(str_map_view(m.map())),
                None => None,
            },
            current: str_map_view(self.rents_current.map()),
            pending: self.rents_pending.seq(),
            rents: rents_view(self.rents_by_id.map()),
            per_account: set_map_view(self.rents_per_account.map()),
            ends: self.rents_end_by_id.map(),
            tokens_per_account: set_map_view(self.rent_tokens_per_account.map()),
            by_contract: set_map_view(self.rent_tokens_by_contract.map()),
        }
    }
}

/// A duration given in nanoseconds, in millionths of a minute (rounded
/// down); the price divides by a million again.
pub open spec fn spec_minutes(time: u64) -> int {
    time as int / 60000
}

pub fn time_get_minutes(time: u64) -> (m: u64)
    ensures
        m == spec_minutes(time),
{
    time / MINUTE_DIVISOR
}

/// Why a rent duration is refused, if it is.
pub open spec fn time_error(t: u64) -> Option<RentError> {
    if t < RENT_TIME_MIN {
        Some(RentError::TimeTooShort)
    } else if t > RENT_TIME_NAX {
        Some(RentError::TimeTooLong)
    } else {
        None
    }
}

pub open spec fn as_result(e: Option<RentError>) -> Result<(), RentError> {
    match e {
        Some(e) => Err(e),
        None => Ok(()),
    }
}

/// The rent record that an offer creates.
pub open spec fn new_rent_view(
    contract_id: Seq<char>,
    token_id: Seq<char>,
    owner_id: Seq<char>,
    sale_conditions: Map<Seq<char>, u128>,
    min_time: u64,
    max_time: u64,
    created_at: u64,
) -> RentView {
    RentView { token_id, contract_id, owner_id, sale_conditions, min_time, max_time, created_at }
}

impl RentState {
    /// Why `sender` may not manage the offer `id`, if it may not.
    pub open spec fn approved_error(self, id: Seq<char>, sender: Seq<char>) -> Option<RentError> {
        match self.approved {
            None => Some(RentError::ApprovalsDisabled),
            Some(a) => if !a.contains_key(id) || a[id] != sender {
                Some(RentError::NotApproved)
            } else {
                None
            },
        }
    }

    /// Why an offer of `token_id` from `contract_id` is refused, if it is.
    pub open spec fn add_error(
        self,
        contract_id: Seq<char>,
        token_id: Seq<char>,
        min_time: u64,
        max_time: u64,
    ) -> Option<RentError> {
        let id = spec_join(contract_id, token_id);
        if self.current.contains_key(id) {
            Some(RentError::AlreadyInRent)
        } else if self.rents.contains_key(id) {
            Some(RentError::AlreadyOnMarket)
        } else if time_error(min_time) is Some {
            time_error(min_time)
        } else if time_error(max_time) is Some {
            time_error(max_time)
        } else if self.approved is None {
            Some(RentError::ApprovalsDisabled)
        } else {
            None
        }
    }

    /// The state after an accepted offer.
    pub open spec fn after_add(
        self,
        contract_id: Seq<char>,
        token_id: Seq<char>,
        owner_id: Seq<char>,
        sale_conditions: Map<Seq<char>, u128>,
        min_time: u64,
        max_time: u64,
        now: u64,
    ) -> RentState {
        let id = spec_join(contract_id, token_id);
        RentState {
            approved: Some(self.approved.unwrap().insert(id, owner_id)),
            pending: seq_insert(self.pending, id),
            rents: self.rents.insert(
                id,
                new_rent_view(
                    contract_id,
                    token_id,
                    owner_id,
                    sale_conditions,
                    min_time,
                    max_time,
                    now,
                ),
            ),
            per_account: self.per_account.insert(
                owner_id,
                seq_insert(entry_or_empty(self.per_account, owner_id), id),
            ),
            by_contract: self.by_contract.insert(
                contract_id,
                seq_insert(entry_or_empty(self.by_contract, contract_id), token_id),
            ),
            ..self
        }
    }
}

/// The price of renting for `time` nanoseconds at `price_per_hour`.
pub open spec fn spec_price(price_per_hour: u128, time: u64) -> int {
    price_per_hour * spec_minutes(time) / 60 / 1_000_000
}

impl RentState {
    /// Why the owner's update of an offer is refused, if it is. (Whether the
    /// rent is running is looked up under the bare token id.)
    pub open spec fn update_error(
        self,
        contract_id: Seq<char>,
        token_id: Seq<char>,
        account_id: Seq<char>,
    ) -> Option<RentError> {
        let id = spec_join(contract_id, token_id);
        if self.current.contains_key(token_id) {
            Some(RentError::RentAlreadyStarted)
        } else if !self.rents.contains_key(id) {
            Some(RentError::RentNotFound)
        } else if self.rents[id].owner_id != account_id {
            Some(RentError::Unauthorized)
        } else {
            None
        }
    }

    /// The state after an accepted update: the price in `ft_token_id` is set,
    /// the duration bounds replaced, and the offer is open again.
    pub open spec fn after_update(
        self,
        contract_id: Seq<char>,
        token_id: Seq<char>,
        ft_token_id: Seq<char>,
        price_per_hour: u128,
        min_time: u64,
        max_time: u64,
    ) -> RentState {
        let id = spec_join(contract_id, token_id);
        let old_rent = self.rents[id];
        RentState {
            pending: seq_insert(self.pending, id),
            rents: self.rents.insert(
                id,
                RentView {
                    sale_conditions: old_rent.sale_conditions.insert(ft_token_id, price_per_hour),
                    min_time,
                    max_time,
                    ..old_rent
                },
            ),
            ..self
        }
    }

    /// Why the owner's withdrawal of an offer is refused, if it is.
    pub open spec fn remove_error(
        self,
        contract_id: Seq<char>,
        token_id: Seq<char>,
        account_id: Seq<char>,
    ) -> Option<RentError> {
        let id = spec_join(contract_id, token_id);
        if self.current.contains_key(id) {
            Some(RentError::AlreadyInRent)
        } else if !self.rents.contains_key(id) {
            Some(RentError::RentNotFound)
        } else if self.rents[id].owner_id != account_id {
            Some(RentError::OnlyOwnerCanRemove)
        } else if !self.per_account.contains_key(account_id) {
            Some(RentError::RentNotOwned)
        } else if !self.by_contract.contains_key(contract_id) {
            Some(RentError::ContractNotFound)
        } else {
            None
        }
    }

    /// The state after an offer is withdrawn.
    pub open spec fn after_remove(
        self,
        contract_id: Seq<char>,
        token_id: Seq<char>,
        account_id: Seq<char>,
    ) -> RentState {
        let id = spec_join(contract_id, token_id);
        RentState {
            rents: self.rents.remove(id),
            pending: seq_swap_remove(self.pending, id),
            per_account: set_map_removed(self.per_account, account_id, id),
            by_contract: set_map_removed(self.by_contract, contract_id, token_id),
            ..self
        }
    }

    /// Why a payment for a rent is refused, if it is.
    pub open spec fn purchase_error(
        self,
        contract_id: Seq<char>,
        token_id: Seq<char>,
        receiver_id: Seq<char>,
        time: u64,
        ft_token_id: Seq<char>,
        deposit: u128,
        now: u64,
    ) -> Option<RentError> {
        let id = spec_join(contract_id, token_id);
        let rent = self.rents[id];
        if !self.rents.contains_key(id) {
            Some(RentError::NotAvailableForRent)
        } else if self.current.contains_key(id) {
            Some(RentError::AlreadyInRent)
        } else if receiver_id == rent.owner_id {
            Some(RentError::OwnerIsReceiver)
        } else if !rent.sale_conditions.contains_key(ft_token_id) {
            Some(RentError::FtNotAvailable)
        } else if rent.sale_conditions[ft_token_id] * spec_minutes(time) > u128::MAX {
            Some(RentError::PriceOverflow)
        } else if deposit != spec_price(rent.sale_conditions[ft_token_id], time) {
            Some(RentError::InvalidDeposit)
        } else if now + time > u64::MAX {
            Some(RentError::EndTimeOverflow)
        } else if !(rent.min_time <= time <= rent.max_time) {
            Some(RentError::InvalidRentTime)
        } else {
            None
        }
    }

    /// The state after a settled purchase: the renter holds the token until
    /// `end_time` and is paid out, or, when the NFT transfer failed, the offer
    /// is open again.
    pub open spec fn after_resolve_purchase(
        self,
        contract_id: Seq<char>,
        token_id: Seq<char>,
        receiver_id: Seq<char>,
        end_time: u64,
        success: bool,
    ) -> RentState {
        let id = spec_join(contract_id, token_id);
        if success {
            RentState {
                current: self.current.insert(id, receiver_id),
                ends: self.ends.insert(id, end_time),
                tokens_per_account: self.tokens_per_account.insert(
                    receiver_id,
                    seq_insert(entry_or_empty(self.tokens_per_account, receiver_id), id),
                ),
                ..self
            }
        } else {
            RentState { pending: seq_insert(self.pending, id), ..self }
        }
    }

    /// Why a claim is refused at time `now`, if it is.
    pub open spec fn claim_error(
        self,
        contract_id: Seq<char>,
        token_id: Seq<char>,
        account_id: Seq<char>,
        now: u64,
    ) -> Option<RentError> {
        let id = spec_join(contract_id, token_id);
        if !self.rents.contains_key(id) {
            Some(RentError::RentNotFound)
        } else if self.rents[id].owner_id != account_id {
            Some(RentError::NotAuthorized)
        } else if !self.current.contains_key(id) {
            Some(RentError::RenterNotFound)
        } else if !self.ends.contains_key(id) {
            Some(RentError::EndNotFound)
        } else if !(now > self.ends[id]) {
            Some(RentError::NotExpired)
        } else {
            None
        }
    }

    /// Why closing a claimed rent is refused, if it is.
    pub open spec fn resolve_claim_error(
        self,
        contract_id: Seq<char>,
        owner_id: Seq<char>,
        renter_id: Seq<char>,
        success: bool,
    ) -> Option<RentError> {
        if !success {
            Some(RentError::TransferFailed)
        } else if !self.tokens_per_account.contains_key(renter_id) {
            Some(RentError::TokenNotOwned)
        } else if !self.by_contract.contains_key(contract_id) {
            Some(RentError::ContractNotFound)
        } else if !self.per_account.contains_key(owner_id) {
            Some(RentError::RentNotOwned)
        } else {
            None
        }
    }

    /// The state after a claimed rent is closed: the offer, the renter and
    /// the end time are gone, and every index forgets the token.
    pub open spec fn after_resolve_claim(
        self,
        contract_id: Seq<char>,
        token_id: Seq<char>,
        owner_id: Seq<char>,
        renter_id: Seq<char>,
    ) -> RentState {
        let id = spec_join(contract_id, token_id);
        RentState {
            rents: self.rents.remove(id),
            current: self.current.remove(id),
            ends: self.ends.remove(id),
            tokens_per_account: set_map_removed(self.tokens_per_account, renter_id, id),
            by_contract: set_map_removed(self.by_contract, contract_id, token_id),
            per_account: set_map_removed(self.per_account, owner_id, id),
            ..self
        }
    }
}

impl RentFeature {
    /// An empty market; `track_approvals` says whether it records who
    /// approved it for each token.
    pub fn new(track_approvals: bool) -> (r: Self)
        ensures
            r@.approved == (if track_approvals {
                Some(Map::<Seq<char>, Seq<char>>::empty())
            } else {
                None
            }),
            r@.current == Map::<Seq<char>, Seq<char>>::empty(),
            r@.pending == Seq::<Seq<char>>::empty(),
            r@.rents == Map::<Seq<char>, RentView>::empty(),
            r@.per_account == Map::<Seq<char>, Seq<Seq<char>>>::empty(),
            r@.ends == Map::<Seq<char>, u64>::empty(),
            r@.tokens_per_account == Map::<Seq<char>, Seq<Seq<char>>>::empty(),
            r@.by_contract == Map::<Seq<char>, Seq<Seq<char>>>::empty(),
    {
        let r = RentFeature {
            approved_owner_by_id: if track_approvals {
                Some(AssocMap::new())
            } else {
                None
            },
            rents_current: AssocMap::new(),
            rents_pending: StrSet::new(),
            rents_by_id: AssocMap::new(),
            rents_per_account: AssocMap::new(),
            rents_end_by_id: AssocMap::new(),
            rent_tokens_per_account: AssocMap::new(),
            rent_tokens_by_contract: AssocMap::new(),
        };
        proof {
            if track_approvals {
                assert(str_map_view(r.approved_owner_by_id.unwrap().map()) =~= Map::empty());
            }
            assert(r@.current =~= Map::empty());
            assert(r@.rents =~= Map::empty());
            assert(r@.per_account =~= Map::empty());
            assert(r@.tokens_per_account =~= Map::empty());
            assert(r@.by_contract =~= Map::empty());
        }
        r
    }

    /// Refuses unless `sender` approved the market for this token.
    pub fn assert_approved(&self, nft_contract_id: &AccountId, token_id: &TokenId, sender: &AccountId) -> (r:
        Result<(), RentError>)
        ensures
            r == as_result(self@.approved_error(spec_join(nft_contract_id@, token_id@), sender@)),
    {
        let id = contract_token_id(nft_contract_id, token_id);
        match &self.approved_owner_by_id {
            None => Err(RentError::ApprovalsDisabled),
            Some(a) => match a.get(&id) {
                None => Err(RentError::NotApproved),
                Some(owner) => {
                    if *owner == *sender {
                        Ok(())
                    } else {
                        Err(RentError::NotApproved)
                    }
                },
            },
        }
    }

    /// Refuses a rent duration outside the accepted range.
    pub fn assert_valid_time(&self, time: &u64) -> (r: Result<(), RentError>)
        ensures
            r == as_result(time_error(*time)),
    {
        if *time < RENT_TIME_MIN {
            Err(RentError::TimeTooShort)
        } else if *time > RENT_TIME_NAX {
            Err(RentError::TimeTooLong)
        } else {
            Ok(())
        }
    }

    /// Puts an NFT on offer; `now` becomes its creation time.
    pub fn internal_rent_add(
        &mut self,
        nft_contract_id: &AccountId,
        token_id: &TokenId,
        owner_id: &AccountId,
        sale_conditions: &SaleConditions,
        min_time: &u64,
        max_time: &u64,
        now: u64,
    ) -> (r: Result<(), RentError>)
        ensures
            r == as_result(old(self)@.add_error(nft_contract_id@, token_id@, *min_time, *max_time)),
            r is Ok ==> final(self)@ == old(self)@.after_add(
                nft_contract_id@,
                token_id@,
                owner_id@,
                sale_conditions.map(),
                *min_time,
                *max_time,
                now,
            ),
            r is Err ==> final(self)@ == old(self)@,
    {
        let id = contract_token_id(nft_contract_id, token_id);
        if self.rents_current.contains_key(&id) {
            return Err(RentError::AlreadyInRent);
        }
        if self.rents_by_id.contains_key(&id) {
            return Err(RentError::AlreadyOnMarket);
        }
        self.assert_valid_time(min_time)?;
        self.assert_valid_time(max_time)?;
        if self.approved_owner_by_id.is_none() {
            return Err(RentError::ApprovalsDisabled);
        }
        let ghost pre = self@;
        let rent = Rent {
            owner_id: owner_id.clone(),
            contract_id: nft_contract_id.clone(),
            token_id: token_id.clone(),
            min_time: *min_time,
            max_time: *max_time,
            created_at: now,
            sale_conditions: sale_conditions.copy_map(),
        };
        let ghost rv = rent@;
        let mut approved = self.approved_owner_by_id.take().unwrap();
        approved.insert(id.clone(), owner_id.clone());
        self.approved_owner_by_id = Some(approved);
        self.rents_pending.insert(id.clone());
        self.rents_by_id.insert(id.clone(), rent);
        set_map_add(&mut self.rents_per_account, owner_id, id);
        set_map_add(&mut self.rent_tokens_by_contract, nft_contract_id, token_id.clone());
        proof {
            let post = pre.after_add(
                nft_contract_id@,
                token_id@,
                owner_id@,
                sale_conditions.map(),
                *min_time,
                *max_time,
                now,
            );
            assert(self@.approved =~= post.approved);
            assert(self@.rents =~= post.rents);
            assert(self@.current =~= post.current);
        }
        Ok(())
    }

    /// Changes the price in one token and the duration bounds of an offer.
    pub fn internal_rent_update(
        &mut self,
        nft_contract_id: &AccountId,
        token_id: &TokenId,
        account_id: &AccountId,
        ft_token_id: &AccountId,
        price_per_hour: &u128,
        min_time: &u64,
        max_time: &u64,
    ) -> (r: Result<(), RentError>)
        ensures
            r == as_result(old(self)@.update_error(nft_contract_id@, token_id@, account_id@)),
            r is Ok ==> final(self)@ == old(self)@.after_update(
                nft_contract_id@,
                token_id@,
                ft_token_id@,
                *price_per_hour,
                *min_time,
                *max_time,
            ),
            r is Err ==> final(self)@ == old(self)@,
    {
        let id = contract_token_id(nft_contract_id, token_id);
        if self.rents_current.contains_key(token_id) {
            return Err(RentError::RentAlreadyStarted);
        }
        match self.rents_by_id.get(&id) {
            None => {
                return Err(RentError::RentNotFound);
            },
            Some(rent) => {
                if rent.owner_id != *account_id {
                    return Err(RentError::Unauthorized);
                }
            },
        }
        let ghost pre = self@;
        self.rents_pending.insert(id.clone());
        let mut rent = self.rents_by_id.remove(&id).unwrap();
        rent.sale_conditions.insert(ft_token_id.clone(), *price_per_hour);
        rent.min_time = *min_time;
        rent.max_time = *max_time;
        self.rents_by_id.insert(id, rent);
        proof {
            let post = pre.after_update(
                nft_contract_id@,
                token_id@,
                ft_token_id@,
                *price_per_hour,
                *min_time,
                *max_time,
            );
            assert(self@.rents =~= post.rents);
        }
        Ok(())
    }

    /// The owner, who approved the market for the token, changes an offer.
    pub fn rent_update(
        &mut self,
        contract_id: AccountId,
        token_id: TokenId,
        ft_token_id: &AccountId,
        price_per_hour: u128,
        min_time: u64,
        max_time: u64,
        predecessor: &AccountId,
    ) -> (r: Result<(), RentError>)
        ensures
            r == as_result(
                if old(self)@.approved_error(spec_join(contract_id@, token_id@), predecessor@) is Some {
                    old(self)@.approved_error(spec_join(contract_id@, token_id@), predecessor@)
                } else if time_error(min_time) is Some {
                    time_error(min_time)
                } else if time_error(max_time) is Some {
                    time_error(max_time)
                } else {
                    old(self)@.update_error(contract_id@, token_id@, predecessor@)
                },
            ),
            r is Ok ==> final(self)@ == old(self)@.after_update(
                contract_id@,
                token_id@,
                ft_token_id@,
                price_per_hour,
                min_time,
                max_time,
            ),
            r is Err ==> final(self)@ == old(self)@,
    {
        self.assert_approved(&contract_id, &token_id, predecessor)?;
        self.assert_valid_time(&min_time)?;
        self.assert_valid_time(&max_time)?;
        self.internal_rent_update(
            &contract_id,
            &token_id,
            predecessor,
            ft_token_id,
            &price_per_hour,
            &min_time,
            &max_time,
        )
    }

    /// Records `contract||token` among the tokens `account_id` has rented.
    pub fn internal_add_token_to_account(
        &mut self,
        account_id: &AccountId,
        contract_id: &AccountId,
        token_id: &TokenId,
    )
        ensures
            final(self)@ == (RentState {
                tokens_per_account: old(self)@.tokens_per_account.insert(
                    account_id@,
                    seq_insert(
                        entry_or_empty(old(self)@.tokens_per_account, account_id@),
                        spec_join(contract_id@, token_id@),
                    ),
                ),
                ..old(self)@
            }),
    {
        let id = contract_token_id(contract_id, token_id);
        set_map_add(&mut self.rent_tokens_per_account, account_id, id);
    }

    /// Forgets `contract||token` among the tokens `account_id` has rented.
    pub fn internal_remove_token_from_account(
        &mut self,
        account_id: &AccountId,
        nft_contract_id: &AccountId,
        token_id: &TokenId,
    ) -> (r: Result<(), RentError>)
        ensures
            r is Ok <==> old(self)@.tokens_per_account.contains_key(account_id@),
            r is Err ==> r == Err::<(), RentError>(RentError::TokenNotOwned) && final(self)@ == old(
                self,
            )@,
            r is Ok ==> final(self)@ == (RentState {
                tokens_per_account: set_map_removed(
                    old(self)@.tokens_per_account,
                    account_id@,
                    spec_join(nft_contract_id@, token_id@),
                ),
                ..old(self)@
            }),
    {
        let id = contract_token_id(nft_contract_id, token_id);
        if set_map_remove(&mut self.rent_tokens_per_account, account_id, &id) {
            Ok(())
        } else {
            Err(RentError::TokenNotOwned)
        }
    }

    /// Records the offer `id` among those of `account_id`.
    pub fn internal_add_rent_to_account(&mut self, account_id: &AccountId, id: &String)
        ensures
            final(self)@ == (RentState {
                per_account: old(self)@.per_account.insert(
                    account_id@,
                    seq_insert(entry_or_empty(old(self)@.per_account, account_id@), id@),
                ),
                ..old(self)@
            }),
    {
        set_map_add(&mut self.rents_per_account, account_id, id.clone());
    }

    /// Records `token_id` among the tokens on offer from `contract_id`.
    pub fn internal_add_rent_to_contract(&mut self, contract_id: &AccountId, token_id: &TokenId)
        ensures
            final(self)@ == (RentState {
                by_contract: old(self)@.by_contract.insert(
                    contract_id@,
                    seq_insert(entry_or_empty(old(self)@.by_contract, contract_id@), token_id@),
                ),
                ..old(self)@
            }),
    {
        set_map_add(&mut self.rent_tokens_by_contract, contract_id, token_id.clone());
    }

    /// Drops the offer, the renter and the end time of `contract||token`.
    pub fn internal_remove_current_rent(
        &mut self,
        _account_id: &AccountId,
        nft_contract_id: &AccountId,
        token_id: &TokenId,
    )
        ensures
            final(self)@ == (RentState {
                rents: old(self)@.rents.remove(spec_join(nft_contract_id@, token_id@)),
                current: old(self)@.current.remove(spec_join(nft_contract_id@, token_id@)),
                ends: old(self)@.ends.remove(spec_join(nft_contract_id@, token_id@)),
                ..old(self)@
            }),
    {
        let ghost pre = self@;
        let id = contract_token_id(nft_contract_id, token_id);
        self.rents_by_id.remove(&id);
        self.rents_current.remove(&id);
        self.rents_end_by_id.remove(&id);
        assert(self@.rents =~= pre.rents.remove(id@));
        assert(self@.current =~= pre.current.remove(id@));
    }

    /// Forgets the offer `contract||token` among those of `account_id`.
    pub fn internal_remove_rent_from_account(
        &mut self,
        account_id: &AccountId,
        nft_contract_id: &AccountId,
        token_id: &TokenId,
    ) -> (r: Result<(), RentError>)
        ensures
            r is Ok <==> old(self)@.per_account.contains_key(account_id@),
            r is Err ==> r == Err::<(), RentError>(RentError::RentNotOwned) && final(self)@ == old(
                self,
            )@,
            r is Ok ==> final(self)@ == (RentState {
                per_account: set_map_removed(
                    old(self)@.per_account,
                    account_id@,
                    spec_join(nft_contract_id@, token_id@),
                ),
                ..old(self)@
            }),
    {
        let id = contract_token_id(nft_contract_id, token_id);
        if set_map_remove(&mut self.rents_per_account, account_id, &id) {
            Ok(())
        } else {
            Err(RentError::RentNotOwned)
        }
    }

    /// Forgets `token_id` among the tokens on offer from `contract_id`.
    pub fn internal_remove_rent_from_contract(
        &mut self,
        contract_id: &AccountId,
        token_id: &TokenId,
    ) -> (r: Result<(), RentError>)
        ensures
            r is Ok <==> old(self)@.by_contract.contains_key(contract_id@),
            r is Err ==> r == Err::<(), RentError>(RentError::ContractNotFound) && final(self)@
                == old(self)@,
            r is Ok ==> final(self)@ == (RentState {
                by_contract: set_map_removed(old(self)@.by_contract, contract_id@, token_id@),
                ..old(self)@
            }),
    {
        if set_map_remove(&mut self.rent_tokens_by_contract, contract_id, token_id) {
            Ok(())
        } else {
            Err(RentError::ContractNotFound)
        }
    }

    /// The owner withdraws an offer that is not rented.
    pub fn internal_remove_pending_rent(
        &mut self,
        nft_contract_id: &AccountId,
        token_id: &TokenId,
        account_id: &AccountId,
    ) -> (r: Result<(), RentError>)
        ensures
            r == as_result(old(self)@.remove_error(nft_contract_id@, token_id@, account_id@)),
            r is Ok ==> final(self)@ == old(self)@.after_remove(
                nft_contract_id@,
                token_id@,
                account_id@,
            ),
            r is Err ==> final(self)@ == old(self)@,
    {
        let id = contract_token_id(nft_contract_id, token_id);
        if self.rents_current.contains_key(&id) {
            return Err(RentError::AlreadyInRent);
        }
        match self.rents_by_id.get(&id) {
            None => {
                return Err(RentError::RentNotFound);
            },
            Some(rent) => {
                if rent.owner_id != *account_id {
                    return Err(RentError::OnlyOwnerCanRemove);
                }
            },
        }
        if !self.rents_per_account.contains_key(account_id) {
            return Err(RentError::RentNotOwned);
        }
        if !self.rent_tokens_by_contract.contains_key(nft_contract_id) {
            return Err(RentError::ContractNotFound);
        }
        let ghost pre = self@;
        self.rents_by_id.remove(&id);
        self.rents_pending.remove(&id);
        let r1 = self.internal_remove_rent_from_account(account_id, nft_contract_id, token_id);
        let r2 = self.internal_remove_rent_from_contract(nft_contract_id, token_id);
        assert(r1 is Ok && r2 is Ok);
        assert(self@.rents =~= pre.rents.remove(id@));
        Ok(())
    }

    /// The owner, who approved the market for the token, withdraws an offer.
    pub fn rent_remove(&mut self, contract_id: AccountId, token_id: TokenId, predecessor: &AccountId) -> (r:
        Result<(), RentError>)
        ensures
            r == as_result(
                if old(self)@.approved_error(spec_join(contract_id@, token_id@), predecessor@) is Some {
                    old(self)@.approved_error(spec_join(contract_id@, token_id@), predecessor@)
                } else {
                    old(self)@.remove_error(contract_id@, token_id@, predecessor@)
                },
            ),
            r is Ok ==> final(self)@ == old(self)@.after_remove(contract_id@, token_id@, predecessor@),
            r is Err ==> final(self)@ == old(self)@,
    {
        self.assert_approved(&contract_id, &token_id, predecessor)?;
        self.internal_remove_pending_rent(&contract_id, &token_id, predecessor)
    }

    /// Whether `contract||token` is rented out now.
    pub fn internal_rent_token_is_locked(&self, nft_contract_id: &AccountId, token_id: &TokenId) -> (b:
        bool)
        ensures
            b == self@.current.contains_key(spec_join(nft_contract_id@, token_id@)),
    {
        let id = contract_token_id(nft_contract_id, token_id);
        self.rents_current.contains_key(&id)
    }

    pub fn rent_token_is_locked(&self, contract_id: AccountId, token_id: TokenId) -> (b: bool)
        ensures
            b == self@.current.contains_key(spec_join(contract_id@, token_id@)),
    {
        self.internal_rent_token_is_locked(&contract_id, &token_id)
    }

    /// Whether the rent under `id` has ended by `now`; refused when no end
    /// time is recorded.
    pub fn internal_rent_is_ended(&self, id: &String, now: u64) -> (r: Result<bool, RentError>)
        ensures
            match r {
                Ok(b) => self@.ends.contains_key(id@) && b == (now > self@.ends[id@]),
                Err(e) => !self@.ends.contains_key(id@) && e == RentError::EndNotFound,
            },
    {
        match self.rents_end_by_id.get(id) {
            Some(end) => Ok(now > *end),
            None => Err(RentError::EndNotFound),
        }
    }

    pub fn rent_is_ended(&self, contract_id: AccountId, token_id: TokenId, now: u64) -> (r: Result<
        bool,
        RentError,
    >)
        ensures
            match r {
                Ok(b) => self@.ends.contains_key(spec_join(contract_id@, token_id@)) && b == (now
                    > self@.ends[spec_join(contract_id@, token_id@)]),
                Err(e) => !self@.ends.contains_key(spec_join(contract_id@, token_id@)) && e
                    == RentError::EndNotFound,
            },
    {
        let id = contract_token_id(&contract_id, &token_id);
        self.internal_rent_is_ended(&id, now)
    }

    /// The number of offers open for payment.
    pub fn rent_total_supply(&self) -> (n: u64)
        ensures
            n == self@.pending.len() as u64,
    {
        self.rents_pending.len() as u64
    }

    /// Whether `account_id` approved the market for `contract||token`;
    /// refused when approvals are not tracked.
    pub fn rent_is_approved(&self, contract_id: AccountId, token_id: TokenId, account_id: AccountId) -> (r:
        Result<bool, RentError>)
        ensures
            match r {
                Ok(b) => self@.approved is Some && b == (map_get(
                    self@.approved.unwrap(),
                    spec_join(contract_id@, token_id@),
                ) == Some(account_id@)),
                Err(e) => self@.approved is None && e == RentError::ApprovalsDisabled,
            },
    {
        let id = contract_token_id(&contract_id, &token_id);
        match &self.approved_owner_by_id {
            None => Err(RentError::ApprovalsDisabled),
            Some(a) => match a.get(&id) {
                Some(approve_id) => Ok(account_id == *approve_id),
                None => Ok(false),
            },
        }
    }

    /// Accepts a payment of `deposit` in `ft_token_id` by `buyer_id` for
    /// renting to `receiver_id` for `time`; the offer leaves the open list
    /// until the purchase settles.
    pub fn internal_process_purchase(
        &mut self,
        contract_id: &AccountId,
        token_id: &TokenId,
        buyer_id: &AccountId,
        receiver_id: &AccountId,
        time: &u64,
        ft_token_id: &AccountId,
        deposit: &u128,
        now: u64,
    ) -> (r: Result<RentPurchase, RentError>)
        ensures
            match r {
                Ok(p) => {
                    let id = spec_join(contract_id@, token_id@);
                    &&& old(self)@.purchase_error(
                        contract_id@,
                        token_id@,
                        receiver_id@,
                        *time,
                        ft_token_id@,
                        *deposit,
                        now,
                    ) is None
                    &&& final(self)@ == (RentState {
                        pending: seq_swap_remove(old(self)@.pending, id),
                        ..old(self)@
                    })
                    &&& p.contract_id@ == contract_id@ && p.token_id@ == token_id@
                    &&& p.buyer_id@ == buyer_id@ && p.receiver_id@ == receiver_id@
                    &&& p.owner_id@ == old(self)@.rents[id].owner_id
                    &&& p.time == *time && p.end_time == now + *time
                    &&& p.ft_token_id@ == ft_token_id@ && p.price == *deposit
                },
                Err(e) => old(self)@.purchase_error(
                    contract_id@,
                    token_id@,
                    receiver_id@,
                    *time,
                    ft_token_id@,
                    *deposit,
                    now,
                ) == Some(e) && final(self)@ == old(self)@,
            },
    {
        let id = contract_token_id(contract_id, token_id);
        let rent = match self.rents_by_id.get(&id) {
            None => {
                return Err(RentError::NotAvailableForRent);
            },
            Some(rent) => rent,
        };
        if self.rents_current.contains_key(&id) {
            return Err(RentError::AlreadyInRent);
        }
        if *receiver_id == rent.owner_id {
            return Err(RentError::OwnerIsReceiver);
        }
        let minutes = time_get_minutes(*time) as u128;
        let price_per_hour = match rent.sale_conditions.get(ft_token_id) {
            None => {
                return Err(RentError::FtNotAvailable);
            },
            Some(p) => *p,
        };
        let product = match price_per_hour.checked_mul(minutes) {
            None => {
                return Err(RentError::PriceOverflow);
            },
            Some(v) => v,
        };
        let price = product / 60 / 1_000_000;
        if *deposit != price {
            return Err(RentError::InvalidDeposit);
        }
        let end_time = match now.checked_add(*time) {
            None => {
                return Err(RentError::EndTimeOverflow);
            },
            Some(v) => v,
        };
        if !(*time >= rent.min_time && *time <= rent.max_time) {
            return Err(RentError::InvalidRentTime);
        }
        let owner_id = rent.owner_id.clone();
        self.rents_pending.remove(&id);
        Ok(
            RentPurchase {
                contract_id: contract_id.clone(),
                token_id: token_id.clone(),
                buyer_id: buyer_id.clone(),
                owner_id,
                receiver_id: receiver_id.clone(),
                time: *time,
                end_time,
                ft_token_id: ft_token_id.clone(),
                price: *deposit,
            },
        )
    }

    /// A payment in NEAR attached to the call.
    pub fn rent_pay(
        &mut self,
        contract_id: AccountId,
        token_id: TokenId,
        time: u64,
        receiver_id: AccountId,
        predecessor: &AccountId,
        deposit: u128,
        now: u64,
    ) -> (r: Result<RentPurchase, RentError>)
        ensures
            match r {
                Ok(p) => {
                    let id = spec_join(contract_id@, token_id@);
                    &&& old(self)@.purchase_error(
                        contract_id@,
                        token_id@,
                        receiver_id@,
                        time,
                        spec_near_ft(),
                        deposit,
                        now,
                    ) is None
                    &&& final(self)@ == (RentState {
                        pending: seq_swap_remove(old(self)@.pending, id),
                        ..old(self)@
                    })
                    &&& p.contract_id@ == contract_id@ && p.token_id@ == token_id@
                    &&& p.buyer_id@ == predecessor@ && p.receiver_id@ == receiver_id@
                    &&& p.owner_id@ == old(self)@.rents[id].owner_id
                    &&& p.time == time && p.end_time == now + time
                    &&& p.ft_token_id@ == spec_near_ft() && p.price == deposit
                },
                Err(e) => old(self)@.purchase_error(
                    contract_id@,
                    token_id@,
                    receiver_id@,
                    time,
                    spec_near_ft(),
                    deposit,
                    now,
                ) == Some(e) && final(self)@ == old(self)@,
            },
    {
        let near = near_ft();
        self.internal_process_purchase(
            &contract_id,
            &token_id,
            predecessor,
            &receiver_id,
            &time,
            &near,
            &deposit,
            now,
        )
    }

    /// Settles a purchase once the NFT transfer to the market has finished
    /// (`success`) or failed.
    pub fn internal_resolve_purchase(
        &mut self,
        contract_id: &AccountId,
        token_id: &TokenId,
        buyer_id: &AccountId,
        owner_id: &AccountId,
        receiver_id: &AccountId,
        time: &u64,
        end_time: &u64,
        ft_token_id: &AccountId,
        price: &u128,
        success: bool,
    ) -> (r: ResolvePurchase)
        ensures
            final(self)@ == old(self)@.after_resolve_purchase(
                contract_id@,
                token_id@,
                receiver_id@,
                *end_time,
                success,
            ),
            success ==> r.refund == 0,
            !success ==> r.refund == *price,
            r.payout is Some <==> (success || ft_token_id@ == spec_near_ft()),
            r.payout is Some ==> r.payout.unwrap()@ == (if !success {
                PayoutView::Near { receiver_id: buyer_id@, amount: *price }
            } else if ft_token_id@ == spec_near_ft() {
                PayoutView::Near { receiver_id: owner_id@, amount: *price }
            } else {
                PayoutView::Ft { ft_contract_id: ft_token_id@, receiver_id: owner_id@, amount: *price }
            }),
    {
        let id = contract_token_id(contract_id, token_id);
        let near = near_ft();
        let is_near = *ft_token_id == near;
        if !success {
            self.rents_pending.insert(id);
            let payout = if is_near {
                Some(Payout::Near { receiver_id: buyer_id.clone(), amount: *price })
            } else {
                None
            };
            return ResolvePurchase { refund: *price, payout };
        }
        let ghost pre = self@;
        self.rents_current.insert(id.clone(), receiver_id.clone());
        self.rents_end_by_id.insert(id, *end_time);
        self.internal_add_token_to_account(receiver_id, contract_id, token_id);
        assert(self@.current =~= pre.current.insert(spec_join(contract_id@, token_id@), receiver_id@));
        let payout = if is_near {
            Payout::Near { receiver_id: owner_id.clone(), amount: *price }
        } else {
            Payout::Ft {
                ft_contract_id: ft_token_id.clone(),
                receiver_id: owner_id.clone(),
                amount: *price,
            }
        };
        ResolvePurchase { refund: 0, payout: Some(payout) }
    }

    pub fn rent_resolve_pay(
        &mut self,
        contract_id: AccountId,
        token_id: TokenId,
        buyer_id: AccountId,
        owner_id: AccountId,
        receiver_id: AccountId,
        time: u64,
        end_time: u64,
        ft_token_id: AccountId,
        price: u128,
        success: bool,
    ) -> (r: ResolvePurchase)
        ensures
            final(self)@ == old(self)@.after_resolve_purchase(
                contract_id@,
                token_id@,
                receiver_id@,
                end_time,
                success,
            ),
            success ==> r.refund == 0,
            !success ==> r.refund == price,
            r.payout is Some <==> (success || ft_token_id@ == spec_near_ft()),
            r.payout is Some ==> r.payout.unwrap()@ == (if !success {
                PayoutView::Near { receiver_id: buyer_id@, amount: price }
            } else if ft_token_id@ == spec_near_ft() {
                PayoutView::Near { receiver_id: owner_id@, amount: price }
            } else {
                PayoutView::Ft { ft_contract_id: ft_token_id@, receiver_id: owner_id@, amount: price }
            }),
    {
        self.internal_resolve_purchase(
            &contract_id,
            &token_id,
            &buyer_id,
            &owner_id,
            &receiver_id,
            &time,
            &end_time,
            &ft_token_id,
            &price,
            success,
        )
    }

    /// The owner asks for the NFT back once the rent has ended by `now`.
    pub fn rent_claim(
        &mut self,
        contract_id: AccountId,
        token_id: TokenId,
        predecessor: &AccountId,
        now: u64,
    ) -> (r: Result<RentClaimCall, RentError>)
        ensures
            final(self)@ == old(self)@,
            match r {
                Ok(c) => {
                    let id = spec_join(contract_id@, token_id@);
                    &&& old(self)@.claim_error(contract_id@, token_id@, predecessor@, now) is None
                    &&& c.contract_id@ == contract_id@ && c.token_id@ == token_id@
                    &&& c.owner_id@ == predecessor@ && c.renter_id@ == old(self)@.current[id]
                },
                Err(e) => old(self)@.claim_error(contract_id@, token_id@, predecessor@, now) == Some(e),
            },
    {
        let id = contract_token_id(&contract_id, &token_id);
        match self.rents_by_id.get(&id) {
            None => {
                return Err(RentError::RentNotFound);
            },
            Some(rent) => {
                if rent.owner_id != *predecessor {
                    return Err(RentError::NotAuthorized);
                }
            },
        }
        let renter_id = match self.rents_current.get(&id) {
            None => {
                return Err(RentError::RenterNotFound);
            },
            Some(r) => r.clone(),
        };
        let is_ended = self.internal_rent_is_ended(&id, now)?;
        if !is_ended {
            return Err(RentError::NotExpired);
        }
        Ok(RentClaimCall { contract_id, token_id, owner_id: predecessor.clone(), renter_id })
    }

    /// Closes a claimed rent once the NFT went back to its owner.
    pub fn rent_resolve_claim(
        &mut self,
        contract_id: AccountId,
        token_id: TokenId,
        owner_id: AccountId,
        renter_id: AccountId,
        success: bool,
    ) -> (r: Result<(), RentError>)
        ensures
            r == as_result(old(self)@.resolve_claim_error(contract_id@, owner_id@, renter_id@, success)),
            r is Ok ==> final(self)@ == old(self)@.after_resolve_claim(
                contract_id@,
                token_id@,
                owner_id@,
                renter_id@,
            ),
            r is Err ==> final(self)@ == old(self)@,
    {
        if !success {
            return Err(RentError::TransferFailed);
        }
        if !self.rent_tokens_per_account.contains_key(&renter_id) {
            return Err(RentError::TokenNotOwned);
        }
        if !self.rent_tokens_by_contract.contains_key(&contract_id) {
            return Err(RentError::ContractNotFound);
        }
        if !self.rents_per_account.contains_key(&owner_id) {
            return Err(RentError::RentNotOwned);
        }
        self.internal_remove_current_rent(&owner_id, &contract_id, &token_id);
        let r1 = self.internal_remove_token_from_account(&renter_id, &contract_id, &token_id);
        let r2 = self.internal_remove_rent_from_contract(&contract_id, &token_id);
        let r3 = self.internal_remove_rent_from_account(&owner_id, &contract_id, &token_id);
        assert(r1 is Ok && r2 is Ok && r3 is Ok);
        Ok(())
    }

    /// The owner approved the market for an NFT: it goes on offer with the
    /// given terms.
    pub fn internal_on_nft_approve(
        &mut self,
        args: &RentOnNftApproveArgs,
        contract_id: &AccountId,
        token_id: &TokenId,
        owner_id: &AccountId,
        now: u64,
    ) -> (r: Result<String, RentError>)
        ensures
            r is Ok <==> old(self)@.add_error(contract_id@, token_id@, args.min_time, args.max_time)
                is None,
            r is Ok ==> r.unwrap()@ == seq!['t', 'r', 'u', 'e'] && final(self)@ == old(self)@.after_add(
                contract_id@,
                token_id@,
                owner_id@,
                args.sale_conditions.map(),
                args.min_time,
                args.max_time,
                now,
            ),
            r is Err ==> Some(r->Err_0) == old(self)@.add_error(
                contract_id@,
                token_id@,
                args.min_time,
                args.max_time,
            ) && final(self)@ == old(self)@,
    {
        self.internal_rent_add(
            contract_id,
            token_id,
            owner_id,
            &args.sale_conditions,
            &args.min_time,
            &args.max_time,
            now,
        )?;
        let t = "true";
        proof {
            reveal_strlit("true");
        }
        let r = String::from_str(t);
        assert(r@ =~= seq!['t', 'r', 'u', 'e']);
        Ok(r)
    }

    /// A payment arrived through a fungible token contract.
    pub fn internal_on_ft_transfer(
        &mut self,
        args: &RentOnFtTransferArgs,
        ft_token_id: &AccountId,
        amount: &u128,
        sender_id: &AccountId,
        now: u64,
    ) -> (r: Result<RentPurchase, RentError>)
        ensures
            match r {
                Ok(p) => {
                    let id = spec_join(args.contract_id@, args.token_id@);
                    &&& old(self)@.purchase_error(
                        args.contract_id@,
                        args.token_id@,
                        args.receiver_id@,
                        args.time,
                        ft_token_id@,
                        *amount,
                        now,
                    ) is None
                    &&& final(self)@ == (RentState {
                        pending: seq_swap_remove(old(self)@.pending, id),
                        ..old(self)@
                    })
                    &&& p.contract_id@ == args.contract_id@ && p.token_id@ == args.token_id@
                    &&& p.buyer_id@ == sender_id@ && p.receiver_id@ == args.receiver_id@
                    &&& p.owner_id@ == old(self)@.rents[id].owner_id
                    &&& p.time == args.time && p.end_time == now + args.time
                    &&& p.ft_token_id@ == ft_token_id@ && p.price == *amount
                },
                Err(e) => old(self)@.purchase_error(
                    args.contract_id@,
                    args.token_id@,
                    args.receiver_id@,
                    args.time,
                    ft_token_id@,
                    *amount,
                    now,
                ) == Some(e) && final(self)@ == old(self)@,
            },
    {
        self.internal_process_purchase(
            &args.contract_id,
            &args.token_id,
            sender_id,
            &args.receiver_id,
            &args.time,
            ft_token_id,
            amount,
            now,
        )
    }
}

} // verus!
