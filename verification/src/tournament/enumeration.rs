//! View calls over tournaments, players, prizes and prize owners.
use vstd::prelude::*;
use std::collections::HashMap;
use crate::collections::{entry_or_empty, StrSet, key_views};
use crate::utils::AccountId;
use crate::tournament::metadata::{
    TournamentId,
    TournamentState,
    TournamentError,
    JsonTournament,
    JsonTournamentView,
    RewardPrize,
    PrizeView,
    WinnerPlace,
};
use crate::tournament::utils::{
    contract_tournament_id,
    tournament_place_id,
    tournament_prize_id,
    spec_tournament_id,
    spec_place_id,
    spec_prize_id,
};
use crate::tournament::base::{TournamentFactory, place_map_view};
use crate::rent::enumeration::{page, page_bounds, vec_subrange, str_views};

verus! {

broadcast use vstd::std_specs::hash::group_hash_axioms;

impl TournamentState {
    /// What a view call shows of the tournament `id`.
    pub open spec fn json(self, id: Seq<char>) -> JsonTournamentView {
        JsonTournamentView {
            tournament: self.tournaments[id],
            metadata: self.metadata[id],
            players_current: self.players_count(id),
        }
    }

    /// The prizes of `place` of `owner||tournament`, in the order put up.
    pub open spec fn prizes_of_place(
        self,
        owner_id: Seq<char>,
        tournament_id: Seq<char>,
        place: u8,
        pids: Seq<Seq<char>>,
    ) -> Seq<PrizeView> {
        pids.map_values(|pid: Seq<char>| self.prizes[spec_prize_id(owner_id, tournament_id, place, pid)])
    }
}

pub open spec fn json_views(v: Seq<JsonTournament>) -> Seq<JsonTournamentView> {
    v.map_values(|j: JsonTournament| j@)
}

pub open spec fn prize_views(v: Seq<RewardPrize>) -> Seq<PrizeView> {
    v.map_values(|p: RewardPrize| p@)
}

impl TournamentFactory {
    /// The tournament `owner||tournament`, if any.
    pub fn tournament(&self, tournament_id: TournamentId, owner_id: AccountId) -> (r: Option<JsonTournament>)
        requires
            self@.wf(),
        ensures
            r is Some <==> self@.tournaments.contains_key(spec_tournament_id(owner_id@, tournament_id@)),
            r is Some ==> r.unwrap()@ == self@.json(spec_tournament_id(owner_id@, tournament_id@)),
    {
        let id = contract_tournament_id(&owner_id, &tournament_id);
        self.enum_tournament(&id)
    }

    /// A page of the tournaments `owner_id` created, in creation order.
    /// `from_index` must fall inside the list and `limit`, when given, must
    /// not be zero.
    pub fn tournaments(&self, owner_id: AccountId, from_index: Option<u128>, limit: Option<u64>) -> (r:
        Result<Vec<JsonTournament>, TournamentError>)
        requires
            self@.wf(),
        ensures
            ({
                let list = entry_or_empty(self@.by_owner, owner_id@);
                let start = match from_index {
                    Some(f) => f,
                    None => 0,
                };
                let lim: usize = match limit {
                    Some(l) => l as usize,
                    None => usize::MAX,
                };
                if !self@.by_owner.contains_key(owner_id@) {
                    r is Ok && r.unwrap()@.len() == 0
                } else if list.len() <= start {
                    r == Err::<Vec<JsonTournament>, TournamentError>(TournamentError::OutOfBounds)
                } else if lim == 0 {
                    r == Err::<Vec<JsonTournament>, TournamentError>(TournamentError::ZeroLimit)
                } else {
                    r is Ok && json_views(r.unwrap()@) == page(list, start as int, lim as int).map_values(
                        |tid: Seq<char>| self@.json(spec_tournament_id(owner_id@, tid)),
                    )
                }
            }),
    {
        let list = match self.tournaments_by_owner.get(&owner_id) {
            Some(l) => l.to_vec(),
            None => {
                return Ok(Vec::new());
            },
        };
        let start = match from_index {
            Some(f) => f,
            None => 0,
        };
        if !((list.len() as u128) > start) {
            return Err(TournamentError::OutOfBounds);
        }
        let lim: usize = match limit {
            Some(l) => l as usize,
            None => usize::MAX,
        };
        if lim == 0 {
            return Err(TournamentError::ZeroLimit);
        }
        let (a, b) = page_bounds(list.len(), start as usize, lim);
        let ids = vec_subrange(&list, a, b);
        let ghost sel = str_views(ids@);
        assert(page(str_views(list@), start as usize as int, lim as int) == sel);
        let mut out: Vec<JsonTournament> = Vec::new();
        let mut i: usize = 0;
        while i < ids.len()
            invariant
                self@.wf(),
                i <= ids@.len(),
                sel == str_views(ids@),
                sel == str_views(list@).subrange(a as int, b as int),
                a <= b <= list@.len(),
                str_views(list@) == entry_or_empty(self@.by_owner, owner_id@),
                self@.by_owner.contains_key(owner_id@),
                out@.len() == i,
                forall|j: int|
                    0 <= j < i ==> #[trigger] out@[j]@ == self@.json(spec_tournament_id(owner_id@, sel[j])),
            decreases ids@.len() - i,
        {
            let id = contract_tournament_id(&owner_id, &ids[i]);
            assert(sel[i as int] == ids@[i as int]@);
            assert(sel.len() == b - a);
            assert(str_views(list@)[a + i] == sel[i as int]);
            assert(self@.by_owner[owner_id@][a + i] == sel[i as int]);
            assert(self@.tournaments.contains_key(
                spec_tournament_id(owner_id@, self@.by_owner[owner_id@][a + i]),
            ));
            let j = self.enum_tournament(&id).unwrap();
            out.push(j);
            i = i + 1;
        }
        assert(json_views(out@) =~= sel.map_values(
            |tid: Seq<char>| self@.json(spec_tournament_id(owner_id@, tid)),
        ));
        Ok(out)
    }

    /// The players of `owner||tournament`, in joining order; refused when it
    /// has none recorded.
    pub fn tournament_players(&self, tournament_id: TournamentId, owner_id: AccountId) -> (r: Result<
        Vec<AccountId>,
        TournamentError,
    >)
        ensures
            ({
                let id = spec_tournament_id(owner_id@, tournament_id@);
                match r {
                    Ok(v) => self@.players.contains_key(id) && str_views(v@) == self@.players[id],
                    Err(e) => !self@.players.contains_key(id) && e == TournamentError::PlayersNotFound,
                }
            }),
    {
        let id = contract_tournament_id(&owner_id, &tournament_id);
        match self.players_per_tournament.get(&id) {
            Some(s) => Ok(s.to_vec()),
            None => Err(TournamentError::PlayersNotFound),
        }
    }

    fn place_prizes(
        &self,
        tournament_id: &TournamentId,
        owner_id: &AccountId,
        place: u8,
        pids: &StrSet,
    ) -> (r: Result<Vec<RewardPrize>, TournamentError>)
        ensures
            ({
                let ok = forall|i: int|
                    0 <= i < pids.seq().len() ==> self@.prizes.contains_key(
                        spec_prize_id(owner_id@, tournament_id@, place, #[trigger] pids.seq()[i]),
                    );
                &&& r is Ok <==> ok
                &&& r is Ok ==> prize_views(r.unwrap()@) == self@.prizes_of_place(
                    owner_id@,
                    tournament_id@,
                    place,
                    pids.seq(),
                )
                &&& r is Err ==> r->Err_0 == TournamentError::PrizeNotFound
            }),
    {
        let ghost s = pids.seq();
        let mut out: Vec<RewardPrize> = Vec::new();
        let mut i: usize = 0;
        while i < pids.len()
            invariant
                i <= s.len(),
                s == pids.seq(),
                out@.len() == i,
                forall|j: int|
                    0 <= j < i ==> self@.prizes.contains_key(
                        spec_prize_id(owner_id@, tournament_id@, place, #[trigger] s[j]),
                    ),
                forall|j: int|
                    0 <= j < i ==> #[trigger] out@[j]@ == self@.prizes[spec_prize_id(
                        owner_id@,
                        tournament_id@,
                        place,
                        s[j],
                    )],
            decreases s.len() - i,
        {
            let tpid = tournament_prize_id(owner_id, tournament_id, &place, pids.index(i));
            match self.prize_by_id.get(&tpid) {
                None => {
                    assert(!self@.prizes.contains_key(
                        spec_prize_id(owner_id@, tournament_id@, place, s[i as int]),
                    ));
                    return Err(TournamentError::PrizeNotFound);
                },
                Some(p) => {
                    out.push(p.duplicate());
                },
            }
            i = i + 1;
        }
        assert(prize_views(out@) =~= self@.prizes_of_place(owner_id@, tournament_id@, place, s));
        Ok(out)
    }

    /// The prizes of `owner||tournament` by place; refused when a listed prize
    /// has no record.
    pub fn tournament_prizes(&self, tournament_id: TournamentId, owner_id: AccountId) -> (r: Result<
        HashMap<WinnerPlace, Vec<RewardPrize>>,
        TournamentError,
    >)
        ensures
            ({
                let id = spec_tournament_id(owner_id@, tournament_id@);
                let places = self@.prizes_by_tournament[id];
                if !self@.prizes_by_tournament.contains_key(id) {
                    r is Ok && r.unwrap()@ == Map::<u8, Vec<RewardPrize>>::empty()
                } else {
                    let ok = forall|p: u8, i: int|
                        places.contains_key(p) && 0 <= i < places[p].len() ==> self@.prizes.contains_key(
                            spec_prize_id(owner_id@, tournament_id@, p, #[trigger] places[p][i]),
                        );
                    &&& r is Ok <==> ok
                    &&& r is Ok ==> r.unwrap()@.dom() == places.dom() && forall|p: u8| #[trigger]
                        places.contains_key(p) ==> prize_views(r.unwrap()@[p]@) == self@.prizes_of_place(
                            owner_id@,
                            tournament_id@,
                            p,
                            places[p],
                        )
                    &&& r is Err ==> r->Err_0 == TournamentError::PrizeNotFound
                }
            }),
    {
        let id = contract_tournament_id(&owner_id, &tournament_id);
        let mut map: HashMap<u8, Vec<RewardPrize>> = HashMap::new();
        match self.prizes_by_tournament.get(&id) {
            None => {
                return Ok(map);
            },
            Some(prizes) => {
                let ghost places = place_map_view(*prizes);
                assert(places == self@.prizes_by_tournament[id@]);
                let keys = prizes.keys();
                let ghost ks = key_views(keys@);
                let mut i: usize = 0;
                while i < keys.len()
                    invariant
                        i <= keys@.len(),
                        ks == key_views(keys@),
                        ks.to_set() == prizes.map().dom(),
                        ks.no_duplicates(),
                        places == place_map_view(*prizes),
                        id@ == spec_tournament_id(owner_id@, tournament_id@),
                        self@.prizes_by_tournament.contains_key(id@),
                        places == self@.prizes_by_tournament[id@],
                        map@.dom() == ks.subrange(0, i as int).to_set(),
                        forall|p: u8| #[trigger]
                            map@.contains_key(p) ==> prize_views(map@[p]@) == self@.prizes_of_place(
                                owner_id@,
                                tournament_id@,
                                p,
                                places[p],
                            ),
                        forall|p: u8, k: int|
                            map@.contains_key(p) && 0 <= k < places[p].len() ==> self@.prizes.contains_key(
                                spec_prize_id(owner_id@, tournament_id@, p, #[trigger] places[p][k]),
                            ),
                    decreases keys@.len() - i,
                {
                    let place = keys[i];
                    assert(ks[i as int] == place);
                    assert(ks.to_set().contains(place));
                    let set = prizes.get(&place).unwrap();
                    assert(set.seq() == places[place]);
                    match self.place_prizes(&tournament_id, &owner_id, place, set) {
                        Err(e) => {
                            proof {
                                let w = choose|w: int|
                                    0 <= w < set.seq().len() && !self@.prizes.contains_key(
                                        spec_prize_id(owner_id@, tournament_id@, place, #[trigger] set.seq()[w]),
                                    );
                                assert(places.contains_key(place));
                                assert(!self@.prizes.contains_key(
                                    spec_prize_id(owner_id@, tournament_id@, place, places[place][w]),
                                ));
                            }
                            return Err(e);
                        },
                        Ok(v) => {
                            let ghost prev = ks.subrange(0, i as int);
                            map.insert(place, v);
                            proof {
                                assert(ks.subrange(0, i + 1) =~= prev.push(place));
                                prev.lemma_push_to_set_commute(place);
                            }
                        },
                    }
                    i = i + 1;
                }
                proof {
                    assert(ks.subrange(0, keys@.len() as int) =~= ks);
                    assert(map@.dom() =~= places.dom());
                    assert forall|p: u8, k: int|
                        places.contains_key(p) && 0 <= k < places[p].len() implies self@.prizes.contains_key(
                            spec_prize_id(owner_id@, tournament_id@, p, #[trigger] places[p][k]),
                        ) by {
                        assert(map@.contains_key(p));
                    }
                }
                Ok(map)
            },
        }
    }

    /// The free places of `owner||tournament`; refused when it does not
    /// exist or has more players than places.
    pub fn tournament_free_places(&self, tournament_id: TournamentId, owner_id: AccountId) -> (r: Result<
        Option<u64>,
        TournamentError,
    >)
        ensures
            ({
                let id = spec_tournament_id(owner_id@, tournament_id@);
                match r {
                    Ok(v) => self@.tournaments.contains_key(id) && self@.players_count(id)
                        <= self@.tournaments[id].players_number && v == Some(
                        (self@.tournaments[id].players_number - self@.players_count(id)) as u64,
                    ),
                    Err(e) => if !self@.tournaments.contains_key(id) {
                        e == TournamentError::NotFound
                    } else {
                        e == TournamentError::Full && self@.players_count(id)
                            > self@.tournaments[id].players_number
                    },
                }
            }),
    {
        let id = contract_tournament_id(&owner_id, &tournament_id);
        let number = match self.tournaments_by_id.get(&id) {
            None => {
                return Err(TournamentError::NotFound);
            },
            Some(t) => t.players_number,
        };
        let count = self.internal_get_players_number_in_tournament(&id);
        if count > number {
            return Err(TournamentError::Full);
        }
        Ok(Some((number - count) as u64))
    }

    /// Whether `account_id` plays in `owner||tournament`; refused when it has
    /// no players recorded.
    pub fn tournament_member(&self, tournament_id: TournamentId, owner_id: AccountId, account_id: AccountId) -> (r:
        Result<bool, TournamentError>)
        ensures
            ({
                let id = spec_tournament_id(owner_id@, tournament_id@);
                match r {
                    Ok(b) => self@.players.contains_key(id) && b == self@.players[id].contains(account_id@),
                    Err(e) => !self@.players.contains_key(id) && e == TournamentError::PlayersNotFound,
                }
            }),
    {
        let id = contract_tournament_id(&owner_id, &tournament_id);
        match self.players_per_tournament.get(&id) {
            None => Err(TournamentError::PlayersNotFound),
            Some(s) => Ok(s.contains(&account_id)),
        }
    }

    /// Whether `account_id` may put up prizes for `owner||tournament`.
    pub fn tournament_is_whitelist_prize_owner(
        &self,
        tournament_id: TournamentId,
        owner_id: AccountId,
        account_id: AccountId,
    ) -> (b: bool)
        ensures
            b == entry_or_empty(
                self@.whitelist,
                spec_tournament_id(owner_id@, tournament_id@),
            ).contains(account_id@),
    {
        let id = contract_tournament_id(&owner_id, &tournament_id);
        match self.whitelist_prize_owners.get(&id) {
            Some(w) => w.is_whitelist(account_id),
            None => false,
        }
    }

    /// Who may put up prizes for `owner||tournament`, in the order allowed.
    pub fn tournament_whitelist_prize_owners(&self, tournament_id: TournamentId, owner_id: AccountId) -> (r: Vec<
        AccountId,
    >)
        ensures
            str_views(r@) == entry_or_empty(
                self@.whitelist,
                spec_tournament_id(owner_id@, tournament_id@),
            ),
    {
        let id = contract_tournament_id(&owner_id, &tournament_id);
        match self.whitelist_prize_owners.get(&id) {
            Some(w) => w.internal_list(),
            None => {
                let v: Vec<AccountId> = Vec::new();
                assert(str_views(v@) =~= Seq::<Seq<char>>::empty());
                v
            },
        }
    }

    /// Whether `place` of `owner||tournament` has been paid out.
    pub fn tournament_is_rewarded(&self, tournament_id: TournamentId, owner_id: AccountId, place: u8) -> (b:
        bool)
        ensures
            b == self@.rewarded.contains(spec_place_id(owner_id@, tournament_id@, place)),
    {
        let place_id = tournament_place_id(&owner_id, &tournament_id, &place);
        self.prizes_per_place_rewarded.contains(&place_id)
    }
}

} // verus!
