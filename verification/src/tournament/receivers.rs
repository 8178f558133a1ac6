//! Prizes and entries that arrive through token transfers to the factory.
use vstd::prelude::*;
use crate::utils::{AccountId, TokenId};
use crate::tournament::metadata::{
    TournamentState,
    TournamentError,
    TournamentOnFtTransferArgs,
    TournamentOnNftTransferArgs,
    RewardPrize,
    PrizeView,
};
use crate::tournament::utils::{contract_tournament_id, spec_tournament_id};
use crate::tournament::base::{TournamentFactory, as_result};

verus! {

impl TournamentState {
    /// Why a fungible token amount sent as a prize for `place` is refused, if
    /// it is. A transfer with no place is not handled.
    pub open spec fn ft_prize_error(
        self,
        id: Seq<char>,
        owner_id: Seq<char>,
        place: Option<u8>,
        prize_id: Option<Seq<char>>,
    ) -> Option<TournamentError> {
        if place is None {
            Some(TournamentError::NotHandled)
        } else if self.not_started_error(id) is Some {
            self.not_started_error(id)
        } else if owner_id != self.tournaments[id].owner_id {
            Some(TournamentError::NotOwner)
        } else if prize_id is None {
            Some(TournamentError::InvalidArgs)
        } else {
            self.add_prize_error(id, place.unwrap(), prize_id.unwrap())
        }
    }

    /// Why an NFT sent as a prize for `place` is refused, if it is; anyone may
    /// put one up.
    pub open spec fn nft_prize_error(
        self,
        id: Seq<char>,
        account_id: Seq<char>,
        nft_contract_id: Seq<char>,
        place: u8,
        prize_id: Option<Seq<char>>,
    ) -> Option<TournamentError> {
        let t = self.tournaments[id];
        if self.not_started_error(id) is Some {
            self.not_started_error(id)
        } else if t.access_nft_contract is None {
            Some(TournamentError::NftAccessUnavailable)
        } else if nft_contract_id != t.access_nft_contract.unwrap() {
            Some(TournamentError::InvalidContract)
        } else if prize_id is None {
            Some(TournamentError::InvalidArgs)
        } else {
            self.add_prize_error(id, place, prize_id.unwrap())
        }
    }
}

pub open spec fn opt_view(o: Option<String>) -> Option<Seq<char>> {
    match o {
        Some(s) => Some(s@),
        None => None,
    }
}

impl TournamentFactory {
    /// A fungible token amount arrived as a prize; nothing is kept back from
    /// the transfer.
    pub fn internal_on_ft_transfer(
        &mut self,
        args: &TournamentOnFtTransferArgs,
        ft_contract_id: &AccountId,
        amount: &u128,
        sender_id: &AccountId,
    ) -> (r: Result<u128, TournamentError>)
        requires
            old(self)@.wf(),
        ensures
            final(self)@.wf(),
            ({
                let id = spec_tournament_id(args.owner_id@, args.tournament_id@);
                let err = old(self)@.ft_prize_error(id, args.owner_id@, args.place, opt_view(args.prize_id));
                &&& r is Ok <==> err is None
                &&& r is Ok ==> r.unwrap() == 0 && final(self)@ == old(self)@.after_add_prize(
                    id,
                    args.place.unwrap(),
                    args.prize_id.unwrap()@,
                    PrizeView::Ft {
                        ft_contract_id: ft_contract_id@,
                        amount: *amount,
                        owner_id: Some(args.owner_id@),
                    },
                )
                &&& r is Err ==> err == Some(r->Err_0) && final(self)@ == old(self)@
            }),
    {
        let id = contract_tournament_id(&args.owner_id, &args.tournament_id);
        match args.place {
            Some(place) => {
                let tournament = self.assert_tournament_not_started(&id)?;
                if args.owner_id != tournament.owner_id {
                    return Err(TournamentError::NotOwner);
                }
                let prize_id = match &args.prize_id {
                    None => {
                        return Err(TournamentError::InvalidArgs);
                    },
                    Some(p) => p,
                };
                let prize = RewardPrize::Ft {
                    amount: *amount,
                    ft_contract_id: ft_contract_id.clone(),
                    owner_id: Some(args.owner_id.clone()),
                };
                self.internal_tournament_add_prize(&id, &place, prize_id, &prize)?;
                Ok(0)
            },
            None => Err(TournamentError::NotHandled),
        }
    }

    /// An NFT arrived: with a place it is a prize put up by `account_id`,
    /// whoever that is; without one it is `account_id` entering the
    /// tournament. The NFT is never sent back.
    pub fn internal_on_nft_transfer(
        &mut self,
        args: &TournamentOnNftTransferArgs,
        nft_contract_id: &AccountId,
        token_id: &TokenId,
        account_id: &AccountId,
    ) -> (r: Result<bool, TournamentError>)
        requires
            old(self)@.wf(),
        ensures
            final(self)@.wf(),
            ({
                let id = spec_tournament_id(args.owner_id@, args.tournament_id@);
                let err = match args.place {
                    Some(place) => old(self)@.nft_prize_error(
                        id,
                        account_id@,
                        nft_contract_id@,
                        place,
                        opt_view(args.prize_id),
                    ),
                    None => old(self)@.use_access_error(id, token_id@, account_id@, nft_contract_id@),
                };
                &&& r is Ok <==> err is None
                &&& r is Ok ==> r.unwrap() == false && final(self)@ == match args.place {
                    Some(place) => old(self)@.after_add_prize(
                        id,
                        place,
                        args.prize_id.unwrap()@,
                        PrizeView::Nft {
                            nft_contract_id: nft_contract_id@,
                            token_id: token_id@,
                            owner_id: Some(account_id@),
                        },
                    ),
                    None => old(self)@.after_join(id, account_id@),
                }
                &&& r is Err ==> err == Some(r->Err_0) && final(self)@ == old(self)@
            }),
    {
        let id = contract_tournament_id(&args.owner_id, &args.tournament_id);
        match args.place {
            Some(place) => {
                let tournament = self.assert_tournament_not_started(&id)?;
                match &tournament.access_nft_contract {
                    None => {
                        return Err(TournamentError::NftAccessUnavailable);
                    },
                    Some(a) => {
                        if *nft_contract_id != *a {
                            return Err(TournamentError::InvalidContract);
                        }
                    },
                }
                let prize_id = match &args.prize_id {
                    None => {
                        return Err(TournamentError::InvalidArgs);
                    },
                    Some(p) => p,
                };
                let prize = RewardPrize::Nft {
                    token_id: token_id.clone(),
                    nft_contract_id: nft_contract_id.clone(),
                    owner_id: Some(account_id.clone()),
                };
                self.internal_tournament_add_prize(&id, &place, prize_id, &prize)?;
            },
            None => {
                self.internal_use_nft_access(
                    &args.tournament_id,
                    &args.owner_id,
                    token_id,
                    account_id,
                    nft_contract_id,
                )?;
            },
        }
        Ok(false)
    }
}

} // verus!
