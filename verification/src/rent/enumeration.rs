//! Listing offers and rents, a page at a time.
use vstd::prelude::*;
use crate::collections::{entry_or_empty, map_get};
use crate::utils::{AccountId, TokenId, contract_token_id, spec_join};
use crate::rent::meta::{JsonRent, JsonRentView, RentState, RentError, opt_str_view};
use crate::rent::base::RentFeature;

verus! {

/// The elements of `s` after skipping `start` of them, at most `limit`.
pub open spec fn page<T>(s: Seq<T>, start: int, limit: int) -> Seq<T> {
    let a = if start < s.len() {
        start
    } else {
        s.len() as int
    };
    let b = if limit < s.len() - a {
        a + limit
    } else {
        s.len() as int
    };
    s.subrange(a, b)
}

/// The bounds of a page: skip `start`, take at most `limit`.
pub fn page_bounds(len: usize, start: usize, limit: usize) -> (r: (usize, usize))
    ensures
        r.0 <= r.1 <= len,
        forall|s: Seq<Seq<char>>|
            s.len() == len ==> #[trigger] page(s, start as int, limit as int) == s.subrange(
                r.0 as int,
                r.1 as int,
            ),
{
    let a = if start < len {
        start
    } else {
        len
    };
    let b = if limit < len - a {
        a + limit
    } else {
        len
    };
    (a, b)
}

pub fn vec_subrange(v: &Vec<String>, a: usize, b: usize) -> (r: Vec<String>)
    requires
        a <= b <= v@.len(),
    ensures
        r@.map_values(|s: String| s@) == v@.map_values(|s: String| s@).subrange(a as int, b as int),
{
    let mut r: Vec<String> = Vec::new();
    let mut i = a;
    while i < b
        invariant
            a <= i <= b <= v@.len(),
            r@.len() == i - a,
            forall|j: int| 0 <= j < r@.len() ==> #[trigger] r@[j]@ == v@[a + j]@,
        decreases b - i,
    {
        r.push(v[i].clone());
        i = i + 1;
    }
    assert(r@.map_values(|s: String| s@) =~= v@.map_values(|s: String| s@).subrange(a as int, b as int));
    r
}

/// The ids in `s` whose rent has not ended by `now`, in order.
pub open spec fn active_ids(s: Seq<Seq<char>>, ends: Map<Seq<char>, u64>, now: u64) -> Seq<Seq<char>>
    decreases s.len(),
{
    if s.len() == 0 {
        Seq::empty()
    } else {
        let r = active_ids(s.drop_last(), ends, now);
        if now > ends[s.last()] {
            r
        } else {
            r.push(s.last())
        }
    }
}

impl RentState {
    /// What a view call shows of the offer under `id`.
    pub open spec fn json(self, id: Seq<char>) -> JsonRentView {
        JsonRentView {
            rent: self.rents[id],
            ended_at: map_get(self.ends, id),
            renter_id: map_get(self.current, id),
        }
    }

    /// Every id in `ids` has an offer.
    pub open spec fn all_present(self, ids: Seq<Seq<char>>) -> bool {
        forall|i: int| 0 <= i < ids.len() ==> self.rents.contains_key(#[trigger] ids[i])
    }

    /// What a view call shows for each id in `ids`.
    pub open spec fn jsons(self, ids: Seq<Seq<char>>) -> Seq<JsonRentView> {
        ids.map_values(|id: Seq<char>| self.json(id))
    }
}

pub open spec fn json_views(v: Seq<JsonRent>) -> Seq<JsonRentView> {
    v.map_values(|j: JsonRent| j@)
}

pub open spec fn str_views(v: Seq<String>) -> Seq<Seq<char>> {
    v.map_values(|s: String| s@)
}

impl RentFeature {
    /// The offer under `id`, as a view call shows it.
    pub fn enum_rent(&self, contract_token_id: &String) -> (r: Option<JsonRent>)
        ensures
            r is Some <==> self@.rents.contains_key(contract_token_id@),
            r is Some ==> r.unwrap()@ == self@.json(contract_token_id@),
    {
        match self.rents_by_id.get(contract_token_id) {
            None => None,
            Some(rent) => {
                let ended_at = match self.rents_end_by_id.get(contract_token_id) {
                    Some(e) => Some(*e),
                    None => None,
                };
                let renter_id = match self.rents_current.get(contract_token_id) {
                    Some(a) => Some(a.clone()),
                    None => None,
                };
                let j = JsonRent {
                    token_id: rent.token_id.clone(),
                    contract_id: rent.contract_id.clone(),
                    owner_id: rent.owner_id.clone(),
                    sale_conditions: rent.sale_conditions.copy_map(),
                    min_time: rent.min_time,
                    max_time: rent.max_time,
                    created_at: rent.created_at,
                    ended_at,
                    renter_id,
                };
                assert(j@.rent == self@.rents[contract_token_id@]);
                Some(j)
            },
        }
    }

    /// The offers under `ids`; refused when one of them has none.
    pub fn collect_rents(&self, ids: &Vec<String>) -> (r: Result<Vec<JsonRent>, RentError>)
        ensures
            r is Ok <==> self@.all_present(str_views(ids@)),
            r is Ok ==> json_views(r.unwrap()@) == self@.jsons(str_views(ids@)),
            r is Err ==> r == Err::<Vec<JsonRent>, RentError>(RentError::MissingRecord),
    {
        let mut out: Vec<JsonRent> = Vec::new();
        let mut i: usize = 0;
        while i < ids.len()
            invariant
                i <= ids@.len(),
                out@.len() == i,
                forall|j: int| 0 <= j < i ==> self@.rents.contains_key(#[trigger] ids@[j]@),
                forall|j: int| 0 <= j < i ==> #[trigger] out@[j]@ == self@.json(ids@[j]@),
            decreases ids@.len() - i,
        {
            match self.enum_rent(&ids[i]) {
                Some(j) => {
                    out.push(j);
                },
                None => {
                    assert(str_views(ids@)[i as int] == ids@[i as int]@);
                    return Err(RentError::MissingRecord);
                },
            }
            i = i + 1;
        }
        proof {
            assert forall|j: int| 0 <= j < str_views(ids@).len() implies self@.rents.contains_key(
                #[trigger] str_views(ids@)[j],
            ) by {
                assert(str_views(ids@)[j] == ids@[j]@);
            }
            assert(json_views(out@) =~= self@.jsons(str_views(ids@)));
        }
        Ok(out)
    }

    /// A page of the offers open for payment; `limit` defaults to none.
    pub fn rents(&self, from_index: Option<u128>, limit: Option<u64>) -> (r: Result<
        Vec<JsonRent>,
        RentError,
    >)
        ensures
            ({
                let ids = page(
                    self@.pending,
                    (match from_index {
                        Some(f) => f,
                        None => 0,
                    }) as usize as int,
                    (match limit {
                        Some(l) => l,
                        None => 0,
                    }) as usize as int,
                );
                &&& r is Ok <==> self@.all_present(ids)
                &&& r is Ok ==> json_views(r.unwrap()@) == self@.jsons(ids)
                &&& r is Err ==> r == Err::<Vec<JsonRent>, RentError>(RentError::MissingRecord)
            }),
    {
        let keys = self.rents_pending.to_vec();
        let start = match from_index {
            Some(f) => f,
            None => 0,
        };
        let lim = match limit {
            Some(l) => l,
            None => 0,
        };
        let (a, b) = page_bounds(keys.len(), start as usize, lim as usize);
        let ids = vec_subrange(&keys, a, b);
        assert(page(str_views(keys@), start as usize as int, lim as usize as int) == str_views(
            keys@,
        ).subrange(a as int, b as int));
        self.collect_rents(&ids)
    }

    /// The offers with the given ids.
    pub fn rents_by_ids(&self, ids: Vec<TokenId>) -> (r: Result<Vec<JsonRent>, RentError>)
        ensures
            r is Ok <==> self@.all_present(str_views(ids@)),
            r is Ok ==> json_views(r.unwrap()@) == self@.jsons(str_views(ids@)),
            r is Err ==> r == Err::<Vec<JsonRent>, RentError>(RentError::MissingRecord),
    {
        self.collect_rents(&ids)
    }

    /// The offer ids of `account_id`, in enumeration order.
    pub fn internal_tokens_for_account(&self, account_id: &AccountId) -> (r: Vec<String>)
        ensures
            str_views(r@) == entry_or_empty(self@.per_account, account_id@),
    {
        match self.rents_per_account.get(account_id) {
            Some(s) => s.to_vec(),
            None => {
                let v: Vec<String> = Vec::new();
                assert(str_views(v@) =~= Seq::<Seq<char>>::empty());
                v
            },
        }
    }

    /// A page of the offers of `account_id`.
    pub fn rents_for_account(&self, account_id: AccountId, from_index: Option<u128>, limit: Option<u64>) -> (r:
        Result<Vec<JsonRent>, RentError>)
        ensures
            ({
                let ids = page(
                    entry_or_empty(self@.per_account, account_id@),
                    (match from_index {
                        Some(f) => f,
                        None => 0,
                    }) as usize as int,
                    (match limit {
                        Some(l) => l,
                        None => 0,
                    }) as usize as int,
                );
                &&& r is Ok <==> self@.all_present(ids)
                &&& r is Ok ==> json_views(r.unwrap()@) == self@.jsons(ids)
                &&& r is Err ==> r == Err::<Vec<JsonRent>, RentError>(RentError::MissingRecord)
            }),
    {
        let keys = self.internal_tokens_for_account(&account_id);
        let start = match from_index {
            Some(f) => f,
            None => 0,
        };
        let lim = match limit {
            Some(l) => l,
            None => 0,
        };
        let (a, b) = page_bounds(keys.len(), start as usize, lim as usize);
        let ids = vec_subrange(&keys, a, b);
        assert(page(str_views(keys@), start as usize as int, lim as usize as int) == str_views(
            keys@,
        ).subrange(a as int, b as int));
        self.collect_rents(&ids)
    }

    /// How many offers `account_id` has.
    pub fn rents_supply_for_account(&self, account_id: AccountId) -> (n: u128)
        ensures
            n == entry_or_empty(self@.per_account, account_id@).len(),
    {
        match self.rents_per_account.get(&account_id) {
            Some(s) => s.len() as u128,
            None => 0,
        }
    }

    /// The offer for `contract||token`, if any.
    pub fn rent(&self, contract_id: AccountId, token_id: TokenId) -> (r: Option<JsonRent>)
        ensures
            r is Some <==> self@.rents.contains_key(spec_join(contract_id@, token_id@)),
            r is Some ==> r.unwrap()@ == self@.json(spec_join(contract_id@, token_id@)),
    {
        let id = contract_token_id(&contract_id, &token_id);
        self.enum_rent(&id)
    }

    /// The tokens `account_id` has rented whose rent has not ended by `now`;
    /// refused when one of them has no end time.
    pub fn internal_rent_token_ids_for_account(&self, account_id: &AccountId, now: u64) -> (r: Result<
        Vec<TokenId>,
        RentError,
    >)
        ensures
            ({
                let ids = entry_or_empty(self@.tokens_per_account, account_id@);
                &&& r is Ok <==> forall|i: int|
                    0 <= i < ids.len() ==> self@.ends.contains_key(#[trigger] ids[i])
                &&& r is Ok ==> str_views(r.unwrap()@) == active_ids(ids, self@.ends, now)
                &&& r is Err ==> r == Err::<Vec<TokenId>, RentError>(RentError::EndNotFound)
            }),
    {
        let ids = self.internal_rent_tokens_all(account_id);
        let ghost s = str_views(ids@);
        let mut out: Vec<String> = Vec::new();
        let mut i: usize = 0;
        while i < ids.len()
            invariant
                i <= ids@.len(),
                s == str_views(ids@),
                s == entry_or_empty(self@.tokens_per_account, account_id@),
                forall|j: int| 0 <= j < i ==> self@.ends.contains_key(#[trigger] s[j]),
                str_views(out@) == active_ids(s.subrange(0, i as int), self@.ends, now),
            decreases ids@.len() - i,
        {
            assert(s[i as int] == ids@[i as int]@);
            assert(s.subrange(0, i + 1).drop_last() =~= s.subrange(0, i as int));
            match self.internal_rent_is_ended(&ids[i], now) {
                Err(e) => {
                    assert(!self@.ends.contains_key(s[i as int]));
                    return Err(e);
                },
                Ok(ended) => {
                    if !ended {
                        let ghost before = str_views(out@);
                        out.push(ids[i].clone());
                        assert(str_views(out@) =~= before.push(s[i as int]));
                    }
                },
            }
            i = i + 1;
        }
        assert(s.subrange(0, ids@.len() as int) =~= s);
        Ok(out)
    }

    fn internal_rent_tokens_all(&self, account_id: &AccountId) -> (r: Vec<String>)
        ensures
            str_views(r@) == entry_or_empty(self@.tokens_per_account, account_id@),
    {
        match self.rent_tokens_per_account.get(account_id) {
            Some(s) => s.to_vec(),
            None => {
                let v: Vec<String> = Vec::new();
                assert(str_views(v@) =~= Seq::<Seq<char>>::empty());
                v
            },
        }
    }

    /// A page of the running rents of `account_id` at `now`.
    pub fn rented_tokens_for_account(
        &self,
        account_id: AccountId,
        from_index: Option<u128>,
        limit: Option<u64>,
        now: u64,
    ) -> (r: Result<Vec<JsonRent>, RentError>)
        ensures
            ({
                let all = entry_or_empty(self@.tokens_per_account, account_id@);
                let ids = page(
                    active_ids(all, self@.ends, now),
                    (match from_index {
                        Some(f) => f,
                        None => 0,
                    }) as usize as int,
                    (match limit {
                        Some(l) => l,
                        None => 0,
                    }) as usize as int,
                );
                &&& r is Ok <==> (forall|i: int|
                    0 <= i < all.len() ==> self@.ends.contains_key(#[trigger] all[i]))
                    && self@.all_present(ids)
                &&& r is Ok ==> json_views(r.unwrap()@) == self@.jsons(ids)
            }),
    {
        let keys = self.internal_rent_token_ids_for_account(&account_id, now)?;
        let start = match from_index {
            Some(f) => f,
            None => 0,
        };
        let lim = match limit {
            Some(l) => l,
            None => 0,
        };
        let (a, b) = page_bounds(keys.len(), start as usize, lim as usize);
        let ids = vec_subrange(&keys, a, b);
        assert(page(str_views(keys@), start as usize as int, lim as usize as int) == str_views(
            keys@,
        ).subrange(a as int, b as int));
        self.collect_rents(&ids)
    }

    /// How many running rents `account_id` has at `now`.
    pub fn rented_tokens_supply_for_account(&self, account_id: AccountId, now: u64) -> (r: Result<
        u128,
        RentError,
    >)
        ensures
            ({
                let all = entry_or_empty(self@.tokens_per_account, account_id@);
                &&& r is Ok <==> forall|i: int|
                    0 <= i < all.len() ==> self@.ends.contains_key(#[trigger] all[i])
                &&& r is Ok ==> r.unwrap() == active_ids(all, self@.ends, now).len()
            }),
    {
        let ids = self.internal_rent_token_ids_for_account(&account_id, now)?;
        Ok(ids.len() as u128)
    }

    /// A page of the offers of tokens from `contract_id`.
    pub fn rents_by_contract(&self, contract_id: AccountId, from_index: Option<u128>, limit: Option<u64>) -> (r:
        Result<Vec<JsonRent>, RentError>)
        ensures
            ({
                let tokens = page(
                    entry_or_empty(self@.by_contract, contract_id@),
                    (match from_index {
                        Some(f) => f,
                        None => 0,
                    }) as usize as int,
                    (match limit {
                        Some(l) => l,
                        None => 0,
                    }) as usize as int,
                );
                let ids = tokens.map_values(|t: Seq<char>| spec_join(contract_id@, t));
                &&& r is Ok <==> self@.all_present(ids)
                &&& r is Ok ==> json_views(r.unwrap()@) == self@.jsons(ids)
                &&& r is Err ==> r == Err::<Vec<JsonRent>, RentError>(RentError::MissingRecord)
            }),
    {
        let keys = match self.rent_tokens_by_contract.get(&contract_id) {
            Some(s) => s.to_vec(),
            None => {
                let v: Vec<String> = Vec::new();
                assert(str_views(v@) =~= Seq::<Seq<char>>::empty());
                v
            },
        };
        let start = match from_index {
            Some(f) => f,
            None => 0,
        };
        let lim = match limit {
            Some(l) => l,
            None => 0,
        };
        let (a, b) = page_bounds(keys.len(), start as usize, lim as usize);
        let tokens = vec_subrange(&keys, a, b);
        assert(page(str_views(keys@), start as usize as int, lim as usize as int) == str_views(
            keys@,
        ).subrange(a as int, b as int));
        let mut ids: Vec<String> = Vec::new();
        let mut i: usize = 0;
        while i < tokens.len()
            invariant
                i <= tokens@.len(),
                ids@.len() == i,
                forall|j: int| 0 <= j < i ==> #[trigger] ids@[j]@ == spec_join(
                    contract_id@,
                    tokens@[j]@,
                ),
            decreases tokens@.len() - i,
        {
            ids.push(contract_token_id(&contract_id, &tokens[i]));
            i = i + 1;
        }
        assert(str_views(ids@) =~= str_views(tokens@).map_values(
            |t: Seq<char>| spec_join(contract_id@, t),
        ));
        self.collect_rents(&ids)
    }

    /// How many tokens from `contract_id` are on offer.
    pub fn rents_supply_by_contract(&self, contract_id: AccountId) -> (n: u128)
        ensures
            n == entry_or_empty(self@.by_contract, contract_id@).len(),
    {
        match self.rent_tokens_by_contract.get(&contract_id) {
            Some(s) => s.len() as u128,
            None => 0,
        }
    }
}

} // verus!
