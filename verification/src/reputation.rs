//! Reputation points, capped, that accounts can share with each other a few
//! times a day.
use vstd::prelude::*;
use crate::collections::AssocMap;
use crate::utils::AccountId;

verus! {

pub const MAX_REPUTATION: u32 = 100_000;

pub const MIN_REPUTATION: u32 = 0;

/// Reputation earned by buying.
pub const BUY_INCREMENT: u32 = 10;

/// Reputation earned by selling.
pub const SALE_INCREMENT: u32 = 5;

/// How many points an account may share per day.
pub const DAILY_SHARE_CAP: u32 = 6;

/// Nanoseconds in a day.
pub const NANOS_PER_DAY: u64 = 86_400_000_000_000;

/// Why a reputation request was refused.
#[derive(PartialEq, Eq, Structural, Debug, Clone, Copy)]
pub enum ReputationError {
    SharingDisabled,
    AllVotesUsed,
    NotEnoughReputation,
    SelfSharing,
    Overflow,
}

impl ReputationError {
    /// The text a contract panics with for this refusal.
    pub fn message(&self) -> (s: &'static str)
        ensures
            s@ == (match self {
                ReputationError::SharingDisabled => "Reputation sharing is not implemented"@,
                ReputationError::AllVotesUsed => "All daily votes used"@,
                ReputationError::NotEnoughReputation => "Don't have enough reputation for sharing"@,
                ReputationError::SelfSharing => "Self sharing not allowed"@,
                ReputationError::Overflow => "Reputation overflow"@,
            }),
    {
        match self {
            ReputationError::SharingDisabled => "Reputation sharing is not implemented",
            ReputationError::AllVotesUsed => "All daily votes used",
            ReputationError::NotEnoughReputation => "Don't have enough reputation for sharing",
            ReputationError::SelfSharing => "Self sharing not allowed",
            ReputationError::Overflow => "Reputation overflow",
        }
    }
}

/// The day that a block time in nanoseconds falls in.
pub open spec fn spec_current_day(now: u64) -> u64 {
    (now / NANOS_PER_DAY) as u64
}

pub fn current_day(now: u64) -> (d: u64)
    ensures
        d == spec_current_day(now),
{
    now / NANOS_PER_DAY
}

pub struct ReputationFeature {
    reputation_by_id: AssocMap<String, u32>,
    shares_by_id: Option<AssocMap<String, AssocMap<u64, u32>>>,
}

/// The value under `k`, or zero.
pub open spec fn get_or_zero<K>(m: Map<K, u32>, k: K) -> u32 {
    if m.contains_key(k) {
        m[k]
    } else {
        0
    }
}

pub open spec fn min_u32(a: u32, b: u32) -> u32 {
    if a <= b {
        a
    } else {
        b
    }
}

impl ReputationFeature {
    /// Reputation by account.
    pub closed spec fn reputations(&self) -> Map<Seq<char>, u32> {
        self.reputation_by_id.map()
    }

    /// Points shared per day, by account, when sharing is kept track of.
    pub closed spec fn shares(&self) -> Option<Map<Seq<char>, Map<u64, u32>>> {
        match self.shares_by_id {
            Some(m) => Some(m.map().map_values(|d: AssocMap<u64, u32>| d.map())),
            None => None,
        }
    }

    pub open spec fn rep(&self, account: Seq<char>) -> u32 {
        get_or_zero(self.reputations(), account)
    }

    /// The points `account` has shared on `day`.
    pub open spec fn used(&self, account: Seq<char>, day: u64) -> u32 {
        let s = self.shares().unwrap();
        if s.contains_key(account) {
            get_or_zero(s[account], day)
        } else {
            0
        }
    }

    #[verifier::type_invariant]
    closed spec fn inv(&self) -> bool {
        &&& forall|a: Seq<char>| #[trigger]
            self.reputations().contains_key(a) ==> self.reputations()[a] <= MAX_REPUTATION
        &&& self.shares() is Some ==> forall|a: Seq<char>, d: u64| #[trigger]
            self.shares().unwrap().contains_key(a) && self.shares().unwrap()[a].contains_key(d) ==> #[trigger]
            self.shares().unwrap()[a][d] <= DAILY_SHARE_CAP
    }

    /// Every reputation is at most the cap, and no account shared more than
    /// the daily cap on any day.
    pub fn limits_hold(&self)
        ensures
            forall|a: Seq<char>| #[trigger] self.rep(a) <= MAX_REPUTATION,
            self.shares() is Some ==> forall|a: Seq<char>, d: u64| #[trigger]
                self.used(a, d) <= DAILY_SHARE_CAP,
    {
        proof {
            use_type_invariant(self);
            assert forall|a: Seq<char>, d: u64| self.shares() is Some implies #[trigger]
                self.used(a, d) <= DAILY_SHARE_CAP by {
                let s = self.shares().unwrap();
                if s.contains_key(a) && s[a].contains_key(d) {
                    assert(s[a][d] <= DAILY_SHARE_CAP);
                }
            }
        }
    }

    /// No one has reputation; sharing is kept track of.
    pub fn new() -> (r: Self)
        ensures
            r.reputations() == Map::<Seq<char>, u32>::empty(),
            r.shares() == Some(Map::<Seq<char>, Map<u64, u32>>::empty()),
    {
        let r = ReputationFeature {
            reputation_by_id: AssocMap::new(),
            shares_by_id: Some(AssocMap::new()),
        };
        assert(r.shares().unwrap() =~= Map::empty());
        r
    }

    /// Adds `amount`, capped at the maximum; refused when the sum does not fit
    /// in 32 bits.
    pub fn internal_add_reputation(&mut self, account_id: &AccountId, amount: &u32) -> (r: Result<
        u32,
        ReputationError,
    >)
        ensures
            match r {
                Ok(n) => {
                    &&& old(self).rep(account_id@) + *amount <= u32::MAX
                    &&& n == (if old(self).rep(account_id@) + *amount > MAX_REPUTATION {
                        MAX_REPUTATION
                    } else {
                        (old(self).rep(account_id@) + *amount) as u32
                    })
                    &&& final(self).reputations() == old(self).reputations().insert(account_id@, n)
                    &&& final(self).shares() == old(self).shares()
                },
                Err(e) => e == ReputationError::Overflow && old(self).rep(account_id@) + *amount
                    > u32::MAX && final(self).reputations() == old(self).reputations()
                    && final(self).shares() == old(self).shares(),
            },
    {
        proof {
            use_type_invariant(&*self);
        }
        let current = match self.reputation_by_id.get(account_id) {
            Some(r) => *r,
            None => 0,
        };
        let next = match current.checked_add(*amount) {
            None => {
                return Err(ReputationError::Overflow);
            },
            Some(sum) => if sum > MAX_REPUTATION {
                MAX_REPUTATION
            } else {
                sum
            },
        };
        let ghost old_reps = self.reputations();
        assert(forall|a: Seq<char>| #[trigger] old_reps.contains_key(a) ==> old_reps[a] <= MAX_REPUTATION);
        let mut whole = ReputationFeature { reputation_by_id: AssocMap::new(), shares_by_id: None };
        std::mem::swap(&mut whole, self);
        let ReputationFeature { mut reputation_by_id, shares_by_id } = whole;
        let ghost before = reputation_by_id.map();
        assert(before == old_reps);
        reputation_by_id.insert(account_id.clone(), next);
        assert forall|a: Seq<char>| #[trigger] reputation_by_id.map().contains_key(a) implies
            reputation_by_id.map()[a] <= MAX_REPUTATION by {
            if a != account_id@ {
                assert(before.contains_key(a));
            }
        }
        *self = ReputationFeature { reputation_by_id, shares_by_id };
        Ok(next)
    }

    /// Subtracts `amount`, stopping at zero.
    pub fn internal_sub_reputation(&mut self, account_id: &AccountId, amount: &u32) -> (n: u32)
        ensures
            n == (if old(self).rep(account_id@) > *amount {
                (old(self).rep(account_id@) - *amount) as u32
            } else {
                MIN_REPUTATION
            }),
            final(self).reputations() == old(self).reputations().insert(account_id@, n),
            final(self).shares() == old(self).shares(),
    {
        proof {
            use_type_invariant(&*self);
        }
        let next = match self.reputation_by_id.get(account_id) {
            Some(r) => if *r > *amount {
                *r - *amount
            } else {
                MIN_REPUTATION
            },
            None => MIN_REPUTATION,
        };
        let ghost old_reps = self.reputations();
        assert(forall|a: Seq<char>| #[trigger] old_reps.contains_key(a) ==> old_reps[a] <= MAX_REPUTATION);
        let mut whole = ReputationFeature { reputation_by_id: AssocMap::new(), shares_by_id: None };
        std::mem::swap(&mut whole, self);
        let ReputationFeature { mut reputation_by_id, shares_by_id } = whole;
        let ghost before = reputation_by_id.map();
        assert(before == old_reps);
        reputation_by_id.insert(account_id.clone(), next);
        assert forall|a: Seq<char>| #[trigger] reputation_by_id.map().contains_key(a) implies
            reputation_by_id.map()[a] <= MAX_REPUTATION by {
            if a != account_id@ {
                assert(before.contains_key(a));
            }
        }
        *self = ReputationFeature { reputation_by_id, shares_by_id };
        next
    }

    pub fn internal_reputation(&self, account_id: &AccountId) -> (n: u32)
        ensures
            n == self.rep(account_id@),
    {
        match self.reputation_by_id.get(account_id) {
            Some(r) => *r,
            None => 0,
        }
    }

    pub fn reputation(&self, account_id: AccountId) -> (n: u32)
        ensures
            n == self.rep(account_id@),
    {
        self.internal_reputation(&account_id)
    }

    /// Uses `amount` of the sender's daily shares on `day`; returns how many
    /// are left for the day.
    pub fn internal_decrease_shares(&mut self, sender_id: &AccountId, amount: &u32, day: u64) -> (r:
        Result<u32, ReputationError>)
        ensures
            final(self).reputations() == old(self).reputations(),
            match r {
                Ok(left) => {
                    &&& old(self).shares() is Some
                    &&& old(self).used(sender_id@, day) + *amount <= DAILY_SHARE_CAP
                    &&& left == DAILY_SHARE_CAP - old(self).used(sender_id@, day) - *amount
                    &&& final(self).shares() == Some(
                        old(self).shares().unwrap().insert(
                            sender_id@,
                            (if old(self).shares().unwrap().contains_key(sender_id@) {
                                old(self).shares().unwrap()[sender_id@]
                            } else {
                                Map::<u64, u32>::empty()
                            }).insert(day, (old(self).used(sender_id@, day) + *amount) as u32),
                        ),
                    )
                },
                Err(e) => final(self).shares() == old(self).shares() && if old(self).shares() is None {
                    e == ReputationError::SharingDisabled
                } else {
                    e == ReputationError::AllVotesUsed && old(self).used(sender_id@, day) + *amount
                        > DAILY_SHARE_CAP
                },
            },
    {
        proof {
            use_type_invariant(&*self);
        }
        self.limits_hold();
        let shares_exist = self.shares_by_id.is_some();
        if !shares_exist {
            return Err(ReputationError::SharingDisabled);
        }
        let used = {
            let shares = self.shares_by_id.as_ref().unwrap();
            match shares.get(sender_id) {
                Some(m) => match m.get(&day) {
                    Some(u) => *u,
                    None => 0,
                },
                None => 0,
            }
        };
        assert(used == self.used(sender_id@, day));
        let left_for_share = DAILY_SHARE_CAP - used;
        if left_for_share < *amount {
            return Err(ReputationError::AllVotesUsed);
        }
        let next_used = used + *amount;
        let ghost old_shares = self.shares().unwrap();
        let ghost old_reps = self.reputations();
        assert(forall|a: Seq<char>| #[trigger] old_reps.contains_key(a) ==> old_reps[a] <= MAX_REPUTATION);
        let mut whole = ReputationFeature { reputation_by_id: AssocMap::new(), shares_by_id: None };
        std::mem::swap(&mut whole, self);
        let ReputationFeature { reputation_by_id, shares_by_id } = whole;
        let mut shares = shares_by_id.unwrap();
        let mut account_shares = match shares.remove(sender_id) {
            Some(m) => m,
            None => AssocMap::new(),
        };
        let ghost old_acc = account_shares.map();
        account_shares.insert(day, next_used);
        let ghost new_acc = account_shares.map();
        shares.insert(sender_id.clone(), account_shares);
        proof {
            let sv = shares.map().map_values(|d: AssocMap<u64, u32>| d.map());
            assert(sv =~= old_shares.insert(sender_id@, new_acc));
            assert forall|a: Seq<char>, d: u64| #[trigger]
                sv.contains_key(a) && sv[a].contains_key(d) implies #[trigger] sv[a][d] <= DAILY_SHARE_CAP by {
                if a != sender_id@ {
                    assert(old_shares.contains_key(a) && old_shares[a].contains_key(d));
                } else if d != day {
                    assert(old_shares.contains_key(a) && old_shares[a].contains_key(d));
                }
            }
        }
        assert(reputation_by_id.map() == old_reps);
        *self = ReputationFeature { reputation_by_id, shares_by_id: Some(shares) };
        Ok(left_for_share - *amount)
    }

    /// How many points `account_id` can still share on `day`: its
    /// reputation, at most what is left of the daily cap.
    pub fn internal_shares_left(&self, account_id: &AccountId, day: u64) -> (r: Result<u32, ReputationError>)
        ensures
            match r {
                Ok(n) => self.shares() is Some && n == min_u32(
                    self.rep(account_id@),
                    (DAILY_SHARE_CAP - self.used(account_id@, day)) as u32,
                ),
                Err(e) => self.shares() is None && e == ReputationError::SharingDisabled,
            },
    {
        self.limits_hold();
        let reputation = self.internal_reputation(account_id);
        match &self.shares_by_id {
            None => Err(ReputationError::SharingDisabled),
            Some(shares) => {
                let used = match shares.get(account_id) {
                    Some(m) => match m.get(&day) {
                        Some(u) => *u,
                        None => 0,
                    },
                    None => 0,
                };
                assert(used == self.used(account_id@, day));
                let left = DAILY_SHARE_CAP - used;
                Ok(
                    if reputation <= left {
                        reputation
                    } else {
                        left
                    },
                )
            },
        }
    }

    pub fn reputation_shares_left(&self, account_id: AccountId, day: u64) -> (r: Result<u32, ReputationError>)
        ensures
            match r {
                Ok(n) => self.shares() is Some && n == min_u32(
                    self.rep(account_id@),
                    (DAILY_SHARE_CAP - self.used(account_id@, day)) as u32,
                ),
                Err(e) => self.shares() is None && e == ReputationError::SharingDisabled,
            },
    {
        self.internal_shares_left(&account_id, day)
    }

    /// `sender_id` gives `amount` of its reputation to `receiver_id` on
    /// `day`; returns how many shares the sender has left for the day.
    pub fn reputation_share(&mut self, receiver_id: AccountId, amount: u32, sender_id: &AccountId, day: u64) -> (r:
        Result<u32, ReputationError>)
        ensures
            match r {
                Ok(left) => {
                    &&& old(self).rep(sender_id@) >= amount
                    &&& sender_id@ != receiver_id@
                    &&& old(self).shares() is Some
                    &&& old(self).used(sender_id@, day) + amount <= DAILY_SHARE_CAP
                    &&& left == DAILY_SHARE_CAP - old(self).used(sender_id@, day) - amount
                    &&& final(self).rep(sender_id@) == old(self).rep(sender_id@) - amount
                    &&& final(self).rep(receiver_id@) == min_u32(
                        (old(self).rep(receiver_id@) + amount) as u32,
                        MAX_REPUTATION,
                    )
                    &&& forall|a: Seq<char>|
                        a != sender_id@ && a != receiver_id@ ==> #[trigger] final(self).rep(a)
                            == old(self).rep(a)
                    &&& final(self).used(sender_id@, day) == old(self).used(sender_id@, day) + amount
                },
                Err(e) => final(self).reputations() == old(self).reputations() && final(self).shares()
                    == old(self).shares() && if old(self).rep(sender_id@) < amount {
                    e == ReputationError::NotEnoughReputation
                } else if sender_id@ == receiver_id@ {
                    e == ReputationError::SelfSharing
                } else if old(self).shares() is None {
                    e == ReputationError::SharingDisabled
                } else {
                    e == ReputationError::AllVotesUsed && old(self).used(sender_id@, day) + amount
                        > DAILY_SHARE_CAP
                },
            },
    {
        self.limits_hold();
        let reputation = self.internal_reputation(sender_id);
        if reputation < amount {
            return Err(ReputationError::NotEnoughReputation);
        }
        if *sender_id == receiver_id {
            return Err(ReputationError::SelfSharing);
        }
        let left_for_share = self.internal_decrease_shares(sender_id, &amount, day)?;
        let ghost mid = *self;
        self.internal_sub_reputation(sender_id, &amount);
        self.limits_hold();
        let added = self.internal_add_reputation(&receiver_id, &amount);
        assert(added is Ok);
        Ok(left_for_share)
    }
}

} // verus!
