//! Entry to a tournament by presenting an NFT from a given contract.
use vstd::prelude::*;
use crate::collections::{StrSet, set_map_view, entry_or_empty, seq_insert};
use crate::utils::{AccountId, TokenId};
use crate::tournament::metadata::{TournamentId, TournamentState, TournamentError};
use crate::tournament::utils::{contract_tournament_id, spec_tournament_id};
use crate::tournament::base::{TournamentFactory, as_result};

verus! {

/// `s` after inserting each of `xs` in turn.
pub open spec fn seq_insert_all(s: Seq<Seq<char>>, xs: Seq<Seq<char>>) -> Seq<Seq<char>>
    decreases xs.len(),
{
    if xs.len() == 0 {
        s
    } else {
        seq_insert(seq_insert_all(s, xs.drop_last()), xs.last())
    }
}

impl TournamentState {
    /// Why `token_id` does not admit a player to `id`, if it does not.
    pub open spec fn nft_access_error(self, id: Seq<char>, token_id: Seq<char>) -> Option<TournamentError> {
        if !self.access_nft.contains_key(id) {
            Some(TournamentError::AccessNotFound)
        } else if !self.access_nft[id].contains(token_id) {
            Some(TournamentError::InvalidAccess)
        } else {
            None
        }
    }

    /// Why entering `id` with `token_id` from `nft_contract_id` is refused,
    /// if it is.
    pub open spec fn use_access_error(
        self,
        id: Seq<char>,
        token_id: Seq<char>,
        account_id: Seq<char>,
        nft_contract_id: Seq<char>,
    ) -> Option<TournamentError> {
        let t = self.tournaments[id];
        if !self.tournaments.contains_key(id) {
            Some(TournamentError::NotFound)
        } else if t.access_nft_contract is None {
            Some(TournamentError::NftAccessUnavailable)
        } else if t.access_nft_contract.unwrap() != nft_contract_id {
            Some(TournamentError::InvalidContract)
        } else if self.nft_access_error(id, token_id) is Some {
            self.nft_access_error(id, token_id)
        } else if t.started_at is Some {
            Some(TournamentError::AlreadyStarted)
        } else if self.players_count(id) >= t.players_number {
            Some(TournamentError::Full)
        } else if entry_or_empty(self.players, id).contains(account_id) {
            Some(TournamentError::AlreadyJoined)
        } else {
            None
        }
    }
}

impl TournamentFactory {
    /// The token ids that admit a player to `owner||tournament`; refused
    /// when none were ever listed.
    pub fn internal_nft_access(&self, tournament_id: &TournamentId, owner_id: &AccountId) -> (r: Result<
        Vec<TokenId>,
        TournamentError,
    >)
        ensures
            ({
                let id = spec_tournament_id(owner_id@, tournament_id@);
                match r {
                    Ok(v) => self@.access_nft.contains_key(id) && v@.map_values(|s: String| s@)
                        == self@.access_nft[id],
                    Err(e) => !self@.access_nft.contains_key(id) && e == TournamentError::AccessNotFound,
                }
            }),
    {
        let id = contract_tournament_id(owner_id, tournament_id);
        match self.tournament_access_nft.get(&id) {
            Some(s) => Ok(s.to_vec()),
            None => Err(TournamentError::AccessNotFound),
        }
    }

    pub fn tournament_nft_access(&self, tournament_id: TournamentId, owner_id: AccountId) -> (r: Result<
        Vec<TokenId>,
        TournamentError,
    >)
        ensures
            ({
                let id = spec_tournament_id(owner_id@, tournament_id@);
                match r {
                    Ok(v) => self@.access_nft.contains_key(id) && v@.map_values(|s: String| s@)
                        == self@.access_nft[id],
                    Err(e) => !self@.access_nft.contains_key(id) && e == TournamentError::AccessNotFound,
                }
            }),
    {
        self.internal_nft_access(&tournament_id, &owner_id)
    }

    /// Refuses unless `token_id` admits a player to `owner||tournament`.
    pub fn assert_nft_access(&self, tournament_id: &TournamentId, owner_id: &AccountId, token_id: &TokenId) -> (r:
        Result<(), TournamentError>)
        ensures
            r == as_result(
                self@.nft_access_error(spec_tournament_id(owner_id@, tournament_id@), token_id@),
            ),
    {
        let id = contract_tournament_id(owner_id, tournament_id);
        match self.tournament_access_nft.get(&id) {
            None => Err(TournamentError::AccessNotFound),
            Some(list) => {
                if list.contains(token_id) {
                    Ok(())
                } else {
                    Err(TournamentError::InvalidAccess)
                }
            },
        }
    }

    /// `account_id` enters `owner||tournament` with `token_id` from
    /// `nft_contract_id`.
    pub fn internal_use_nft_access(
        &mut self,
        tournament_id: &TournamentId,
        owner_id: &AccountId,
        token_id: &TokenId,
        account_id: &AccountId,
        nft_contract_id: &AccountId,
    ) -> (r: Result<(), TournamentError>)
        requires
            old(self)@.wf(),
        ensures
            final(self)@.wf(),
            ({
                let id = spec_tournament_id(owner_id@, tournament_id@);
                &&& r == as_result(
                    old(self)@.use_access_error(id, token_id@, account_id@, nft_contract_id@),
                )
                &&& r is Ok ==> final(self)@ == old(self)@.after_join(id, account_id@)
                &&& r is Err ==> final(self)@ == old(self)@
            }),
    {
        let id = contract_tournament_id(owner_id, tournament_id);
        let access_nft = match self.tournaments_by_id.get(&id) {
            None => {
                return Err(TournamentError::NotFound);
            },
            Some(t) => match &t.access_nft_contract {
                None => {
                    return Err(TournamentError::NftAccessUnavailable);
                },
                Some(a) => a.clone(),
            },
        };
        if access_nft != *nft_contract_id {
            return Err(TournamentError::InvalidContract);
        }
        self.assert_nft_access(tournament_id, owner_id, token_id)?;
        self.assert_tournament_not_started(&id)?;
        self.assert_tournament_players(&id)?;
        match self.players_per_tournament.get(&id) {
            Some(s) => {
                if s.contains(account_id) {
                    return Err(TournamentError::AlreadyJoined);
                }
            },
            None => {},
        }
        let ghost pre = self@;
        self.internal_add_player_to_tournament(tournament_id, owner_id, account_id);
        assert(self@.tournaments == pre.tournaments && self@.metadata == pre.metadata && self@.by_owner
            == pre.by_owner);
        Ok(())
    }

    /// The owner lists NFT token ids that admit a player.
    pub fn tournament_add_nft_access(
        &mut self,
        tournament_id: TournamentId,
        token_ids: Vec<TokenId>,
        predecessor: &AccountId,
    ) -> (r: Result<(), TournamentError>)
        requires
            old(self)@.wf(),
        ensures
            final(self)@.wf(),
            ({
                let id = spec_tournament_id(predecessor@, tournament_id@);
                let err = if old(self)@.not_started_error(id) is Some {
                    old(self)@.not_started_error(id)
                } else if old(self)@.tournaments[id].owner_id != predecessor@ {
                    Some(TournamentError::NotOwner)
                } else if old(self)@.tournaments[id].access_nft_contract is None {
                    Some(TournamentError::NftAccessUnavailable)
                } else {
                    None
                };
                &&& r == as_result(err)
                &&& r is Ok ==> final(self)@ == (TournamentState {
                    access_nft: old(self)@.access_nft.insert(
                        id,
                        seq_insert_all(
                            entry_or_empty(old(self)@.access_nft, id),
                            token_ids@.map_values(|s: String| s@),
                        ),
                    ),
                    ..old(self)@
                })
                &&& r is Err ==> final(self)@ == old(self)@
            }),
    {
        let id = contract_tournament_id(predecessor, &tournament_id);
        let tournament = self.assert_tournament_not_started(&id)?;
        if *predecessor != tournament.owner_id {
            return Err(TournamentError::NotOwner);
        }
        if tournament.access_nft_contract.is_none() {
            return Err(TournamentError::NftAccessUnavailable);
        }
        let ghost pre = self@;
        let ghost start = entry_or_empty(pre.access_nft, id@);
        let ghost xs = token_ids@.map_values(|s: String| s@);
        let mut arr = match self.tournament_access_nft.remove(&id) {
            Some(s) => s,
            None => StrSet::new(),
        };
        let mut i: usize = 0;
        while i < token_ids.len()
            invariant
                i <= token_ids@.len(),
                xs == token_ids@.map_values(|s: String| s@),
                arr.seq() == seq_insert_all(start, xs.subrange(0, i as int)),
            decreases token_ids@.len() - i,
        {
            assert(xs.subrange(0, i + 1).drop_last() =~= xs.subrange(0, i as int));
            arr.insert(token_ids[i].clone());
            i = i + 1;
        }
        assert(xs.subrange(0, token_ids@.len() as int) =~= xs);
        let ghost ns = arr.seq();
        self.tournament_access_nft.insert(id, arr);
        assert(self@.access_nft =~= pre.access_nft.insert(id@, ns));
        assert(self@.tournaments == pre.tournaments && self@.metadata == pre.metadata && self@.by_owner
            == pre.by_owner);
        Ok(())
    }
}

} // verus!
