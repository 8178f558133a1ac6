//! Identifiers of tournaments, places and prizes.
use vstd::prelude::*;
use crate::utils::{AccountId, TokenId, join_id, spec_join, decimal, u64_to_decimal};
use crate::tournament::metadata::TournamentId;

verus! {

/// The entry fee for creating a tournament, in yoctoNEAR.
pub const CREATE_PRICE: u128 = 100_000_000_000_000_000_000_000;

pub open spec fn spec_tournament_id(owner_id: Seq<char>, tournament_id: Seq<char>) -> Seq<char> {
    spec_join(owner_id, tournament_id)
}

pub open spec fn spec_place_id(owner_id: Seq<char>, tournament_id: Seq<char>, place: u8) -> Seq<char> {
    spec_join(spec_join(owner_id, tournament_id), decimal(place as nat))
}

pub open spec fn spec_prize_id(
    owner_id: Seq<char>,
    tournament_id: Seq<char>,
    place: u8,
    prize_id: Seq<char>,
) -> Seq<char> {
    spec_join(spec_place_id(owner_id, tournament_id, place), prize_id)
}

/// `owner||tournament`.
pub fn contract_tournament_id(owner_id: &AccountId, tournament_id: &TournamentId) -> (r: TournamentId)
    ensures
        r@ == spec_tournament_id(owner_id@, tournament_id@),
{
    join_id(owner_id, tournament_id)
}

/// `owner||tournament||place`.
pub fn tournament_place_id(owner_id: &AccountId, tournament_id: &TournamentId, place: &u8) -> (r: String)
    ensures
        r@ == spec_place_id(owner_id@, tournament_id@, *place),
{
    let base = join_id(owner_id, tournament_id);
    let p = u64_to_decimal(*place as u64);
    join_id(&base, &p)
}

/// `owner||tournament||place||prize`.
pub fn tournament_prize_id(
    owner_id: &AccountId,
    tournament_id: &TournamentId,
    place: &u8,
    prize_id: &TokenId,
) -> (r: TokenId)
    ensures
        r@ == spec_prize_id(owner_id@, tournament_id@, *place, prize_id@),
{
    let p = tournament_place_id(owner_id, tournament_id, place);
    join_id(&p, prize_id)
}

/// Refuses unless exactly the creation fee is attached.
pub fn assert_tx_money(deposit: u128) -> (r: Result<(), crate::tournament::metadata::TournamentError>)
    ensures
        r is Ok <==> deposit == CREATE_PRICE,
        r is Err ==> r->Err_0 == crate::tournament::metadata::TournamentError::WrongDeposit,
{
    if deposit == CREATE_PRICE {
        Ok(())
    } else {
        Err(crate::tournament::metadata::TournamentError::WrongDeposit)
    }
}

} // verus!
