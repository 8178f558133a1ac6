//! Storage deposits per account, and what each account has used of them.
use vstd::prelude::*;
use crate::collections::AssocMap;
use crate::utils::AccountId;

verus! {

/// The deposit of an account and how much of it is not used.
pub struct StorageBalance {
    pub total: u128,
    pub available: u128,
}

/// Why a storage request was refused.
#[derive(PartialEq, Eq, Structural, Debug, Clone, Copy)]
pub enum StorageError {
    StorageTooSmall,
    RequiresOneYocto,
    TooLargeAmount,
    Overflow,
}

impl StorageError {
    pub fn message(&self) -> (s: &'static str)
        ensures
            s@ == (match self {
                StorageError::StorageTooSmall => "Storage is too small"@,
                StorageError::RequiresOneYocto => "Requires attached deposit of exactly 1 yoctoNEAR"@,
                StorageError::TooLargeAmount => "To large amount to withdraw"@,
                StorageError::Overflow => "attempt to add with overflow"@,
            }),
    {
        match self {
            StorageError::StorageTooSmall => "Storage is too small",
            StorageError::RequiresOneYocto => "Requires attached deposit of exactly 1 yoctoNEAR",
            StorageError::TooLargeAmount => "To large amount to withdraw",
            StorageError::Overflow => "attempt to add with overflow",
        }
    }
}

pub struct StorageFeature {
    cost: u128,
    amount_by_account: AssocMap<String, u128>,
    used_by_account: AssocMap<String, u128>,
}

/// The value under `k`, or zero.
pub open spec fn get0(m: Map<Seq<char>, u128>, k: Seq<char>) -> u128 {
    if m.contains_key(k) {
        m[k]
    } else {
        0
    }
}

impl StorageFeature {
    pub closed spec fn cost_spec(&self) -> u128 {
        self.cost
    }

    /// Deposited amount by account.
    pub closed spec fn amounts(&self) -> Map<Seq<char>, u128> {
        self.amount_by_account.map()
    }

    /// Used amount by account.
    pub closed spec fn useds(&self) -> Map<Seq<char>, u128> {
        self.used_by_account.map()
    }

    pub open spec fn amount(&self, a: Seq<char>) -> u128 {
        get0(self.amounts(), a)
    }

    pub open spec fn used(&self, a: Seq<char>) -> u128 {
        get0(self.useds(), a)
    }

    /// No account uses more than it deposited.
    #[verifier::type_invariant]
    closed spec fn inv(&self) -> bool {
        forall|a: Seq<char>| #[trigger] get0(self.useds(), a) <= get0(self.amounts(), a)
    }

    /// Law: no account has used more than it deposited.
    pub fn used_within_deposit(&self)
        ensures
            forall|a: Seq<char>| #[trigger] self.used(a) <= self.amount(a),
    {
        proof {
            use_type_invariant(self);
        }
    }

    pub fn new(cost: u128) -> (r: Self)
        ensures
            r.cost_spec() == cost,
            r.amounts() == Map::<Seq<char>, u128>::empty(),
            r.useds() == Map::<Seq<char>, u128>::empty(),
    {
        StorageFeature { cost, amount_by_account: AssocMap::new(), used_by_account: AssocMap::new() }
    }

    pub fn internal_balance_of(&self, account_id: &AccountId) -> (b: StorageBalance)
        ensures
            b.total == self.amount(account_id@),
            b.available == self.amount(account_id@) - self.used(account_id@),
    {
        proof {
            use_type_invariant(self);
        }
        let amount = match self.amount_by_account.get(account_id) {
            Some(a) => *a,
            None => 0,
        };
        let used = match self.used_by_account.get(account_id) {
            Some(u) => *u,
            None => 0,
        };
        assert(used == self.used(account_id@) && amount == self.amount(account_id@));
        StorageBalance { total: amount, available: amount - used }
    }

    /// What `account_id` has deposited and not used.
    pub fn internal_available(&self, account_id: &AccountId) -> (n: u128)
        ensures
            n == self.amount(account_id@) - self.used(account_id@),
    {
        let b = self.internal_balance_of(account_id);
        b.available
    }

    /// Gives back `value` of what `account_id` used, when it used at least
    /// that much; otherwise nothing changes.
    pub fn internal_decrease(&mut self, account_id: &AccountId, value: u128)
        ensures
            final(self).cost_spec() == old(self).cost_spec(),
            final(self).amounts() == old(self).amounts(),
            final(self).useds() == if old(self).used(account_id@) >= value {
                old(self).useds().insert(account_id@, (old(self).used(account_id@) - value) as u128)
            } else {
                old(self).useds()
            },
    {
        proof {
            use_type_invariant(&*self);
        }
        let used = match self.used_by_account.get(account_id) {
            Some(u) => *u,
            None => 0,
        };
        if used >= value {
            let ghost amounts = self.amounts();
            let ghost useds = self.useds();
            assert(forall|a: Seq<char>| #[trigger] get0(useds, a) <= get0(amounts, a));
            let mut whole = StorageFeature::new(0);
            std::mem::swap(&mut whole, self);
            let StorageFeature { cost, amount_by_account, mut used_by_account } = whole;
            used_by_account.insert(account_id.clone(), used - value);
            assert forall|a: Seq<char>| #[trigger] get0(used_by_account.map(), a) <= get0(
                amount_by_account.map(),
                a,
            ) by {
                if a != account_id@ {
                    assert(get0(useds, a) <= get0(amounts, a));
                } else {
                    assert(get0(useds, a) <= get0(amounts, a));
                }
            }
            *self = StorageFeature { cost, amount_by_account, used_by_account };
        }
    }

    /// `account_id` uses `value` more of its deposit; refused when that
    /// exceeds the deposit.
    pub fn internal_increase(&mut self, account_id: &AccountId, value: u128) -> (r: Result<(), StorageError>)
        ensures
            final(self).cost_spec() == old(self).cost_spec(),
            final(self).amounts() == old(self).amounts(),
            match r {
                Ok(()) => old(self).used(account_id@) + value <= old(self).amount(account_id@)
                    && final(self).useds() == old(self).useds().insert(
                    account_id@,
                    (old(self).used(account_id@) + value) as u128,
                ),
                Err(e) => final(self).useds() == old(self).useds() && e == StorageError::StorageTooSmall
                    && old(self).used(account_id@) + value > old(self).amount(account_id@),
            },
    {
        proof {
            use_type_invariant(&*self);
        }
        let amount = match self.amount_by_account.get(account_id) {
            Some(a) => *a,
            None => 0,
        };
        let used = match self.used_by_account.get(account_id) {
            Some(u) => *u,
            None => 0,
        };
        if value > amount - used {
            return Err(StorageError::StorageTooSmall);
        }
        let next = used + value;
        let ghost amounts = self.amounts();
        let ghost useds = self.useds();
        assert(forall|a: Seq<char>| #[trigger] get0(useds, a) <= get0(amounts, a));
        let mut whole = StorageFeature::new(0);
        std::mem::swap(&mut whole, self);
        let StorageFeature { cost, amount_by_account, mut used_by_account } = whole;
        used_by_account.insert(account_id.clone(), next);
        assert forall|a: Seq<char>| #[trigger] get0(used_by_account.map(), a) <= get0(
            amount_by_account.map(),
            a,
        ) by {
            assert(get0(useds, a) <= get0(amounts, a));
        }
        *self = StorageFeature { cost, amount_by_account, used_by_account };
        Ok(())
    }

    pub fn internal_update_cost_unguarded(&mut self, cost: u128)
        ensures
            final(self).cost_spec() == cost,
            final(self).amounts() == old(self).amounts(),
            final(self).useds() == old(self).useds(),
    {
        proof {
            use_type_invariant(&*self);
        }
        let ghost amounts = self.amounts();
        let ghost useds = self.useds();
        assert(forall|a: Seq<char>| #[trigger] get0(useds, a) <= get0(amounts, a));
        let mut whole = StorageFeature::new(0);
        std::mem::swap(&mut whole, self);
        let StorageFeature { cost: _, amount_by_account, used_by_account } = whole;
        assert(amount_by_account.map() == amounts && used_by_account.map() == useds);
        *self = StorageFeature { cost, amount_by_account, used_by_account };
    }

    fn set_amount(&mut self, account_id: &AccountId, amount: u128)
        requires
            old(self).used(account_id@) <= amount,
        ensures
            final(self).cost_spec() == old(self).cost_spec(),
            final(self).useds() == old(self).useds(),
            final(self).amounts() == old(self).amounts().insert(account_id@, amount),
    {
        proof {
            use_type_invariant(&*self);
        }
        let ghost amounts = self.amounts();
        let ghost useds = self.useds();
        assert(forall|a: Seq<char>| #[trigger] get0(useds, a) <= get0(amounts, a));
        let mut whole = StorageFeature::new(0);
        std::mem::swap(&mut whole, self);
        let StorageFeature { cost, mut amount_by_account, used_by_account } = whole;
        amount_by_account.insert(account_id.clone(), amount);
        assert forall|a: Seq<char>| #[trigger] get0(used_by_account.map(), a) <= get0(
            amount_by_account.map(),
            a,
        ) by {
            assert(get0(useds, a) <= get0(amounts, a));
        }
        *self = StorageFeature { cost, amount_by_account, used_by_account };
    }

    /// Adds the attached `deposit` to the deposit of `account_id`, or of the
    /// caller when none is named.
    pub fn storage_deposit(&mut self, account_id: Option<AccountId>, deposit: u128, predecessor: &AccountId) -> (r:
        Result<StorageBalance, StorageError>)
        ensures
            final(self).cost_spec() == old(self).cost_spec(),
            final(self).useds() == old(self).useds(),
            ({
                let a = match account_id {
                    Some(x) => x@,
                    None => predecessor@,
                };
                match r {
                    Ok(b) => {
                        &&& old(self).amount(a) + deposit <= u128::MAX
                        &&& final(self).amounts() == old(self).amounts().insert(
                            a,
                            (old(self).amount(a) + deposit) as u128,
                        )
                        &&& b.total == old(self).amount(a) + deposit
                        &&& b.available == old(self).amount(a) + deposit - old(self).used(a)
                    },
                    Err(e) => e == StorageError::Overflow && old(self).amount(a) + deposit > u128::MAX
                        && final(self).amounts() == old(self).amounts(),
                }
            }),
    {
        self.used_within_deposit();
        let account_id = match account_id {
            Some(a) => a,
            None => predecessor.clone(),
        };
        let balance = match self.amount_by_account.get(&account_id) {
            Some(a) => *a,
            None => 0,
        };
        let next = match balance.checked_add(deposit) {
            None => {
                return Err(StorageError::Overflow);
            },
            Some(n) => n,
        };
        self.set_amount(&account_id, next);
        Ok(self.internal_balance_of(&account_id))
    }

    /// The caller, attaching exactly one yoctoNEAR, asks for its balance back:
    /// nothing is ever withdrawn, so any positive `amount` is refused, and
    /// otherwise the balance is returned unchanged.
    pub fn storage_withdraw(&mut self, amount: Option<u128>, deposit: u128, predecessor: &AccountId) -> (r:
        Result<StorageBalance, StorageError>)
        ensures
            final(self).cost_spec() == old(self).cost_spec(),
            final(self).amounts() == old(self).amounts(),
            final(self).useds() == old(self).useds(),
            ({
                let a = predecessor@;
                match r {
                    Ok(b) => {
                        &&& deposit == 1
                        &&& (amount is None || amount == Some(0u128))
                        &&& b.total == old(self).amount(a)
                        &&& b.available == old(self).amount(a) - old(self).used(a)
                    },
                    Err(e) => if deposit != 1 {
                        e == StorageError::RequiresOneYocto
                    } else {
                        e == StorageError::TooLargeAmount && amount is Some && amount.unwrap() > 0
                    },
                }
            }),
    {
        if deposit != 1 {
            return Err(StorageError::RequiresOneYocto);
        }
        match amount {
            Some(x) => {
                if x > 0 {
                    return Err(StorageError::TooLargeAmount);
                }
            },
            None => {},
        }
        Ok(self.internal_balance_of(predecessor))
    }

    pub fn storage_balance_of(&self, account_id: AccountId) -> (b: StorageBalance)
        ensures
            b.total == self.amount(account_id@),
            b.available == self.amount(account_id@) - self.used(account_id@),
    {
        self.internal_balance_of(&account_id)
    }

    pub fn storage_cost(&self) -> (c: u128)
        ensures
            c == self.cost_spec(),
    {
        self.cost
    }
}

} // verus!
