//! A list of accounts allowed to do something.
use vstd::prelude::*;
use crate::collections::StrSet;
use crate::utils::AccountId;

verus! {

pub struct WhitelistFeature {
    pub list: StrSet,
}

impl WhitelistFeature {
    pub open spec fn accounts(&self) -> Seq<Seq<char>> {
        self.list.seq()
    }

    pub fn new() -> (r: Self)
        ensures
            r.accounts() == Seq::<Seq<char>>::empty(),
    {
        WhitelistFeature { list: StrSet::new() }
    }

    /// Adds `account_id` at the end unless present; says whether it was added.
    pub fn whitelist_add(&mut self, account_id: AccountId) -> (added: bool)
        ensures
            added == !old(self).accounts().contains(account_id@),
            final(self).accounts() == (if added {
                old(self).accounts().push(account_id@)
            } else {
                old(self).accounts()
            }),
    {
        self.list.insert(account_id)
    }

    pub fn internal_is_whitelist(&self, account_id: &AccountId) -> (b: bool)
        ensures
            b == self.accounts().contains(account_id@),
    {
        self.list.contains(account_id)
    }

    pub fn is_whitelist(&self, account_id: AccountId) -> (b: bool)
        ensures
            b == self.accounts().contains(account_id@),
    {
        self.list.contains(&account_id)
    }

    /// The accounts in the order they were added.
    pub fn internal_list(&self) -> (r: Vec<AccountId>)
        ensures
            r@.map_values(|s: String| s@) == self.accounts(),
    {
        self.list.to_vec()
    }
}

} // verus!
