//! Creating, joining, starting and ending tournaments, and putting up and
//! paying out prizes.
use vstd::prelude::*;
use crate::collections::{
    AssocMap,
    StrSet,
    set_map_add,
    set_map_view,
    entry_or_empty,
    seq_insert,
};
use crate::utils::AccountId;
use crate::whitelist::WhitelistFeature;
use crate::tournament::metadata::{
    TournamentId,
    Tournament,
    TournamentView,
    TournamentMetadata,
    MetadataView,
    RewardPrize,
    PrizeView,
    TournamentState,
    TournamentError,
    TournamentPayout,
    TournamentPayoutView,
    JsonTournament,
    JsonTournamentView,
};
use crate::tournament::utils::{
    CREATE_PRICE,
    contract_tournament_id,
    tournament_place_id,
    tournament_prize_id,
    spec_tournament_id,
    spec_place_id,
    spec_prize_id,
};
use crate::rent::meta::opt_str_view;

verus! {

/// The smallest prize in NEAR, in yoctoNEAR.
pub const MIN_PRIZE_NEAR: u128 = 1_000_000_000_000_000_000_000_000;

/// The most prizes one place can have.
pub const MAX_PRIZES_PER_PLACE: usize = 5;

pub struct TournamentFactory {
    pub players_per_tournament: AssocMap<String, StrSet>,
    pub tournaments_by_id: AssocMap<String, Tournament>,
    pub tournament_metadata_by_id: AssocMap<String, TournamentMetadata>,
    pub prize_by_id: AssocMap<String, RewardPrize>,
    pub prizes_by_tournament: AssocMap<String, AssocMap<u8, StrSet>>,
    pub prizes_per_place_rewarded: StrSet,
    pub tournament_access_nft: AssocMap<String, StrSet>,
    pub tournaments_by_owner: AssocMap<String, StrSet>,
    pub whitelist_prize_owners: AssocMap<String, WhitelistFeature>,
}

pub open spec fn place_map_view(m: AssocMap<u8, StrSet>) -> Map<u8, Seq<Seq<char>>> {
    m.map().map_values(|s: StrSet| s.seq())
}

impl View for TournamentFactory {
    type V = TournamentState;

    open spec fn view(&self) -> TournamentState {
        TournamentState {
            players: set_map_view(self.players_per_tournament.map()),
            tournaments: self.tournaments_by_id.map().map_values(|t: Tournament| t@),
            metadata: self.tournament_metadata_by_id.map().map_values(|m: TournamentMetadata| m@),
            prizes: self.prize_by_id.map().map_values(|p: RewardPrize| p@),
            prizes_by_tournament: self.prizes_by_tournament.map().map_values(
                |m: AssocMap<u8, StrSet>| place_map_view(m),
            ),
            rewarded: self.prizes_per_place_rewarded.seq(),
            access_nft: set_map_view(self.tournament_access_nft.map()),
            by_owner: set_map_view(self.tournaments_by_owner.map()),
            whitelist: self.whitelist_prize_owners.map().map_values(|w: WhitelistFeature| w.accounts()),
        }
    }
}

pub open spec fn as_result(e: Option<TournamentError>) -> Result<(), TournamentError> {
    match e {
        Some(e) => Err(e),
        None => Ok(()),
    }
}

/// What `place` gets of the places map, or nothing.
pub open spec fn place_entry(m: Map<u8, Seq<Seq<char>>>, place: u8) -> Seq<Seq<char>> {
    if m.contains_key(place) {
        m[place]
    } else {
        Seq::empty()
    }
}

/// What a winner at `place` receives for a prize.
pub open spec fn payout_of(prize: PrizeView, winner: Seq<char>, place: u8) -> TournamentPayoutView {
    match prize {
        PrizeView::Near { amount, .. } => TournamentPayoutView::Near { receiver_id: winner, amount },
        PrizeView::Ft { ft_contract_id, amount, .. } => TournamentPayoutView::Ft {
            ft_contract_id,
            receiver_id: winner,
            amount,
            place,
        },
        PrizeView::Nft { nft_contract_id, token_id, .. } => TournamentPayoutView::Nft {
            nft_contract_id,
            receiver_id: winner,
            token_id,
            place,
        },
    }
}

pub open spec fn payout_views(v: Seq<TournamentPayout>) -> Seq<TournamentPayoutView> {
    v.map_values(|p: TournamentPayout| p@)
}

impl TournamentState {
    /// Every tournament has its metadata, and every tournament an owner lists
    /// exists.
    pub open spec fn wf(self) -> bool {
        &&& forall|id: Seq<char>| #[trigger]
            self.tournaments.contains_key(id) ==> self.metadata.contains_key(id)
        &&& forall|o: Seq<char>, i: int|
            self.by_owner.contains_key(o) && 0 <= i < self.by_owner[o].len() ==> #[trigger]
            self.tournaments.contains_key(spec_tournament_id(o, #[trigger] self.by_owner[o][i]))
    }

    /// The number of players of `id`, as the byte the contract counts in.
    pub open spec fn players_count(self, id: Seq<char>) -> u8 {
        entry_or_empty(self.players, id).len() as u8
    }

    /// Why a tournament that must not have started is refused, if it is.
    pub open spec fn not_started_error(self, id: Seq<char>) -> Option<TournamentError> {
        if !self.tournaments.contains_key(id) {
            Some(TournamentError::NotFound)
        } else if self.tournaments[id].started_at is Some {
            Some(TournamentError::AlreadyStarted)
        } else {
            None
        }
    }

    /// Why a tournament that must have started is refused, if it is.
    pub open spec fn started_error(self, id: Seq<char>) -> Option<TournamentError> {
        if !self.tournaments.contains_key(id) {
            Some(TournamentError::NotFound)
        } else if self.tournaments[id].started_at is None {
            Some(TournamentError::NotStarted)
        } else {
            None
        }
    }

    /// Why a prize for `place` under `prize_id` is refused, if it is. (The
    /// check for a taken id looks up the bare prize id.)
    pub open spec fn add_prize_error(self, id: Seq<char>, place: u8, prize_id: Seq<char>) -> Option<
        TournamentError,
    > {
        let t = self.tournaments[id];
        if !self.tournaments.contains_key(id) {
            Some(TournamentError::NotFound)
        } else if !(0 < place && place <= t.players_number) {
            Some(TournamentError::InvalidPlace)
        } else if self.prizes.contains_key(prize_id) {
            Some(TournamentError::PrizeIdTaken)
        } else if place_entry(
            if self.prizes_by_tournament.contains_key(id) {
                self.prizes_by_tournament[id]
            } else {
                Map::empty()
            },
            place,
        ).len() >= 5 {
            Some(TournamentError::TooManyPrizes)
        } else {
            None
        }
    }

    /// The state after a prize is put up.
    pub open spec fn after_add_prize(self, id: Seq<char>, place: u8, prize_id: Seq<char>, prize: PrizeView) -> TournamentState {
        let t = self.tournaments[id];
        let places = if self.prizes_by_tournament.contains_key(id) {
            self.prizes_by_tournament[id]
        } else {
            Map::empty()
        };
        TournamentState {
            prizes_by_tournament: self.prizes_by_tournament.insert(
                id,
                places.insert(place, seq_insert(place_entry(places, place), prize_id)),
            ),
            prizes: self.prizes.insert(spec_prize_id(t.owner_id, t.tournament_id, place, prize_id), prize),
            ..self
        }
    }

    /// The state after `account_id` is added to those who may put up prizes.
    pub open spec fn after_add_prize_owner(self, id: Seq<char>, account_id: Seq<char>) -> TournamentState {
        TournamentState {
            whitelist: self.whitelist.insert(
                id,
                seq_insert(entry_or_empty(self.whitelist, id), account_id),
            ),
            ..self
        }
    }

    /// Why creating a tournament is refused, if it is.
    pub open spec fn create_error(
        self,
        tournament_id: Seq<char>,
        price: Option<u128>,
        predecessor: Seq<char>,
        deposit: u128,
    ) -> Option<TournamentError> {
        if deposit != CREATE_PRICE {
            Some(TournamentError::WrongDeposit)
        } else if price == Some(0u128) {
            Some(TournamentError::ZeroPrice)
        } else if self.tournaments.contains_key(spec_tournament_id(predecessor, tournament_id)) {
            Some(TournamentError::AlreadyExists)
        } else {
            None
        }
    }

    /// The state after a tournament is created: it, its metadata, its place
    /// in the owner's list, and the owner among those who may put up prizes.
    pub open spec fn after_create(
        self,
        tournament_id: Seq<char>,
        players_number: u8,
        price: Option<u128>,
        metadata: MetadataView,
        nft_access_contract: Option<Seq<char>>,
        predecessor: Seq<char>,
        now: u64,
    ) -> TournamentState {
        let id = spec_tournament_id(predecessor, tournament_id);
        TournamentState {
            tournaments: self.tournaments.insert(
                id,
                TournamentView {
                    tournament_id,
                    owner_id: predecessor,
                    access_nft_contract: nft_access_contract,
                    players_number,
                    price,
                    started_at: None,
                    ended_at: None,
                    created_at: now,
                },
            ),
            metadata: self.metadata.insert(id, metadata),
            by_owner: self.by_owner.insert(
                predecessor,
                seq_insert(entry_or_empty(self.by_owner, predecessor), tournament_id),
            ),
            whitelist: self.whitelist.insert(
                id,
                seq_insert(entry_or_empty(self.whitelist, id), predecessor),
            ),
            ..self
        }
    }

    /// Why starting `id` is refused, if it is.
    pub open spec fn start_error(self, id: Seq<char>, predecessor: Seq<char>) -> Option<TournamentError> {
        if self.not_started_error(id) is Some {
            self.not_started_error(id)
        } else if self.tournaments[id].owner_id != predecessor {
            Some(TournamentError::NotOwner)
        } else if self.players_count(id) != self.tournaments[id].players_number {
            Some(TournamentError::NotFilled)
        } else {
            None
        }
    }

    /// Why ending `id` is refused, if it is.
    pub open spec fn end_error(self, id: Seq<char>, predecessor: Seq<char>) -> Option<TournamentError> {
        if self.started_error(id) is Some {
            self.started_error(id)
        } else if self.tournaments[id].ended_at is Some {
            Some(TournamentError::AlreadyEnded)
        } else if self.tournaments[id].owner_id != predecessor {
            Some(TournamentError::NotOwner)
        } else {
            None
        }
    }

    /// Why joining `id` with `deposit` is refused, if it is.
    pub open spec fn join_error(self, id: Seq<char>, predecessor: Seq<char>, deposit: u128) -> Option<
        TournamentError,
    > {
        let t = self.tournaments[id];
        if self.not_started_error(id) is Some {
            self.not_started_error(id)
        } else if t.price is None {
            Some(TournamentError::Unavailable)
        } else if deposit < t.price.unwrap() {
            Some(TournamentError::DepositTooSmall)
        } else if self.players_count(id) >= t.players_number {
            Some(TournamentError::Full)
        } else if entry_or_empty(self.players, id).contains(predecessor) {
            Some(TournamentError::AlreadyJoined)
        } else {
            None
        }
    }

    /// The transfers a join makes: what is left over back to the caller when
    /// that is more than one yoctoNEAR, then the price to the owner.
    pub open spec fn join_payouts(self, id: Seq<char>, predecessor: Seq<char>, deposit: u128) -> Seq<
        TournamentPayoutView,
    > {
        let t = self.tournaments[id];
        let price = t.price.unwrap();
        let to_owner = TournamentPayoutView::Near { receiver_id: t.owner_id, amount: price };
        if deposit - price > 1 {
            seq![
                TournamentPayoutView::Near { receiver_id: predecessor, amount: (deposit - price) as u128 },
                to_owner,
            ]
        } else {
            seq![to_owner]
        }
    }

    /// The state after `account_id` joins `id`.
    pub open spec fn after_join(self, id: Seq<char>, account_id: Seq<char>) -> TournamentState {
        TournamentState {
            players: self.players.insert(
                id,
                seq_insert(entry_or_empty(self.players, id), account_id),
            ),
            ..self
        }
    }

    /// Why `predecessor` may not put up a prize for `id` in NEAR, if it may not.
    pub open spec fn prize_owner_error(self, id: Seq<char>, predecessor: Seq<char>) -> Option<TournamentError> {
        if self.tournaments[id].owner_id == predecessor {
            None
        } else if !self.whitelist.contains_key(id) {
            Some(TournamentError::NoWhitelist)
        } else if !self.whitelist[id].contains(predecessor) {
            Some(TournamentError::NotWhitelisted)
        } else {
            None
        }
    }

    /// The prize ids of `place` in `id`, when the tournament has any prizes.
    pub open spec fn place_prizes(self, id: Seq<char>, place: u8) -> Seq<Seq<char>> {
        self.prizes_by_tournament[id][place]
    }

    /// Why paying out `place` of `id` to `account_id` is refused, if it is.
    pub open spec fn reward_error(
        self,
        tournament_id: Seq<char>,
        place: u8,
        account_id: Seq<char>,
        predecessor: Seq<char>,
    ) -> Option<TournamentError> {
        let id = spec_tournament_id(predecessor, tournament_id);
        if self.started_error(id) is Some {
            self.started_error(id)
        } else if self.tournaments[id].owner_id != predecessor {
            Some(TournamentError::NotOwner)
        } else if !self.players.contains_key(id) {
            Some(TournamentError::PlayersNotFound)
        } else if !self.players[id].contains(account_id) {
            Some(TournamentError::NotMember)
        } else if self.rewarded.contains(spec_place_id(predecessor, tournament_id, place)) {
            Some(TournamentError::AlreadyRewarded)
        } else if !self.prizes_by_tournament.contains_key(id) || !self.prizes_by_tournament[id].contains_key(place) {
            Some(TournamentError::NoPrizes)
        } else if exists|i: int|
            0 <= i < self.place_prizes(id, place).len() && !self.prizes.contains_key(
                spec_prize_id(predecessor, tournament_id, place, #[trigger] self.place_prizes(id, place)[i]),
            ) {
            Some(TournamentError::PrizeNotFound)
        } else {
            None
        }
    }
}

impl TournamentFactory {
    /// An empty factory.
    pub fn new() -> (r: Self)
        ensures
            r@.wf(),
            r@.players == Map::<Seq<char>, Seq<Seq<char>>>::empty(),
            r@.tournaments == Map::<Seq<char>, TournamentView>::empty(),
            r@.metadata == Map::<Seq<char>, MetadataView>::empty(),
            r@.prizes == Map::<Seq<char>, PrizeView>::empty(),
            r@.prizes_by_tournament == Map::<Seq<char>, Map<u8, Seq<Seq<char>>>>::empty(),
            r@.rewarded == Seq::<Seq<char>>::empty(),
            r@.access_nft == Map::<Seq<char>, Seq<Seq<char>>>::empty(),
            r@.by_owner == Map::<Seq<char>, Seq<Seq<char>>>::empty(),
            r@.whitelist == Map::<Seq<char>, Seq<Seq<char>>>::empty(),
    {
        let r = TournamentFactory {
            players_per_tournament: AssocMap::new(),
            tournaments_by_id: AssocMap::new(),
            tournament_metadata_by_id: AssocMap::new(),
            prize_by_id: AssocMap::new(),
            prizes_by_tournament: AssocMap::new(),
            prizes_per_place_rewarded: StrSet::new(),
            tournament_access_nft: AssocMap::new(),
            tournaments_by_owner: AssocMap::new(),
            whitelist_prize_owners: AssocMap::new(),
        };
        proof {
            assert(r@.players =~= Map::empty());
            assert(r@.tournaments =~= Map::empty());
            assert(r@.metadata =~= Map::empty());
            assert(r@.prizes =~= Map::empty());
            assert(r@.prizes_by_tournament =~= Map::empty());
            assert(r@.access_nft =~= Map::empty());
            assert(r@.by_owner =~= Map::empty());
            assert(r@.whitelist =~= Map::empty());
        }
        r
    }

    /// Adds `account_id` to the players of `owner||tournament`; says whether
    /// it was new.
    pub fn internal_add_player_to_tournament(
        &mut self,
        tournament_id: &TournamentId,
        owner_id: &AccountId,
        account_id: &AccountId,
    ) -> (added: bool)
        ensures
            added == !entry_or_empty(
                old(self)@.players,
                spec_tournament_id(owner_id@, tournament_id@),
            ).contains(account_id@),
            final(self)@ == old(self)@.after_join(
                spec_tournament_id(owner_id@, tournament_id@),
                account_id@,
            ),
    {
        let id = contract_tournament_id(owner_id, tournament_id);
        set_map_add(&mut self.players_per_tournament, &id, account_id.clone())
    }

    /// The number of players of `id`, counted in a byte.
    pub fn internal_get_players_number_in_tournament(&self, id: &TournamentId) -> (n: u8)
        ensures
            n == self@.players_count(id@),
    {
        match self.players_per_tournament.get(id) {
            Some(s) => s.len() as u8,
            None => 0,
        }
    }

    /// The tournament `id`, as a view call shows it.
    pub fn enum_tournament(&self, id: &TournamentId) -> (r: Option<JsonTournament>)
        requires
            self@.wf(),
        ensures
            r is Some <==> self@.tournaments.contains_key(id@),
            r is Some ==> r.unwrap()@ == (JsonTournamentView {
                tournament: self@.tournaments[id@],
                metadata: self@.metadata[id@],
                players_current: self@.players_count(id@),
            }),
    {
        match self.tournaments_by_id.get(id) {
            None => None,
            Some(t) => {
                assert(self@.tournaments.contains_key(id@));
                let metadata = self.tournament_metadata_by_id.get(id).unwrap().duplicate();
                let players_current = self.internal_get_players_number_in_tournament(id);
                let j = JsonTournament {
                    tournament_id: t.tournament_id.clone(),
                    owner_id: t.owner_id.clone(),
                    access_nft_contract: crate::tournament::metadata::clone_opt_str(
                        &t.access_nft_contract,
                    ),
                    metadata,
                    started_at: t.started_at,
                    ended_at: t.ended_at,
                    created_at: t.created_at,
                    players_total: t.players_number,
                    players_current,
                    price: t.price,
                };
                assert(j@.tournament == self@.tournaments[id@]);
                Some(j)
            },
        }
    }

    /// The tournament `id`, refused when missing or already started.
    pub fn assert_tournament_not_started(&self, id: &TournamentId) -> (r: Result<Tournament, TournamentError>)
        ensures
            match r {
                Ok(t) => self@.not_started_error(id@) is None && t@ == self@.tournaments[id@],
                Err(e) => self@.not_started_error(id@) == Some(e),
            },
    {
        match self.tournaments_by_id.get(id) {
            None => Err(TournamentError::NotFound),
            Some(t) => {
                if t.started_at.is_some() {
                    Err(TournamentError::AlreadyStarted)
                } else {
                    Ok(t.duplicate())
                }
            },
        }
    }

    /// The tournament `id`, refused when missing or not started.
    pub fn assert_tournament_started(&self, id: &TournamentId) -> (r: Result<Tournament, TournamentError>)
        ensures
            match r {
                Ok(t) => self@.started_error(id@) is None && t@ == self@.tournaments[id@],
                Err(e) => self@.started_error(id@) == Some(e),
            },
    {
        match self.tournaments_by_id.get(id) {
            None => Err(TournamentError::NotFound),
            Some(t) => {
                if t.started_at.is_none() {
                    Err(TournamentError::NotStarted)
                } else {
                    Ok(t.duplicate())
                }
            },
        }
    }

    /// The tournament `id`, refused when missing or when no place is free.
    pub fn assert_tournament_players(&self, id: &TournamentId) -> (r: Result<Tournament, TournamentError>)
        ensures
            match r {
                Ok(t) => self@.tournaments.contains_key(id@) && t@ == self@.tournaments[id@]
                    && self@.players_count(id@) < t.players_number,
                Err(e) => if !self@.tournaments.contains_key(id@) {
                    e == TournamentError::NotFound
                } else {
                    e == TournamentError::Full && self@.players_count(id@)
                        >= self@.tournaments[id@].players_number
                },
            },
    {
        match self.tournaments_by_id.get(id) {
            None => Err(TournamentError::NotFound),
            Some(t) => {
                let count = self.internal_get_players_number_in_tournament(id);
                if count < t.players_number {
                    Ok(t.duplicate())
                } else {
                    Err(TournamentError::Full)
                }
            },
        }
    }

    /// Puts up `prize` for `place` of the tournament `id` under `prize_id`.
    pub fn internal_tournament_add_prize(
        &mut self,
        owner_tournament_id: &TournamentId,
        place_number: &u8,
        prize_id: &String,
        prize: &RewardPrize,
    ) -> (r: Result<(), TournamentError>)
        requires
            old(self)@.wf(),
        ensures
            final(self)@.wf(),
            r == as_result(old(self)@.add_prize_error(owner_tournament_id@, *place_number, prize_id@)),
            r is Ok ==> final(self)@ == old(self)@.after_add_prize(
                owner_tournament_id@,
                *place_number,
                prize_id@,
                prize@,
            ),
            r is Err ==> final(self)@ == old(self)@,
    {
        let t = match self.tournaments_by_id.get(owner_tournament_id) {
            None => {
                return Err(TournamentError::NotFound);
            },
            Some(t) => t,
        };
        let tpid = tournament_prize_id(&t.owner_id, &t.tournament_id, place_number, prize_id);
        if !(*place_number > 0 && *place_number <= t.players_number) {
            return Err(TournamentError::InvalidPlace);
        }
        if self.prize_by_id.contains_key(prize_id) {
            return Err(TournamentError::PrizeIdTaken);
        }
        let ghost pre = self@;
        let ghost places_v = if pre.prizes_by_tournament.contains_key(owner_tournament_id@) {
            pre.prizes_by_tournament[owner_tournament_id@]
        } else {
            Map::empty()
        };
        let removed = self.prizes_by_tournament.remove(owner_tournament_id);
        let existed = removed.is_some();
        let mut places: AssocMap<u8, StrSet> = match removed {
            Some(p) => p,
            None => AssocMap::new(),
        };
        assert(place_map_view(places) =~= places_v);
        let mut set = match places.remove(place_number) {
            Some(s) => s,
            None => StrSet::new(),
        };
        assert(set.seq() == place_entry(places_v, *place_number));
        if set.len() >= MAX_PRIZES_PER_PLACE {
            places.insert(*place_number, set);
            assert(place_map_view(places) =~= places_v);
            if existed {
                self.prizes_by_tournament.insert(owner_tournament_id.clone(), places);
            }
            assert(self@.prizes_by_tournament =~= pre.prizes_by_tournament);
            return Err(TournamentError::TooManyPrizes);
        }
        set.insert(prize_id.clone());
        let ghost new_set = set.seq();
        places.insert(*place_number, set);
        let ghost new_places = place_map_view(places);
        assert(new_places =~= places_v.insert(*place_number, new_set));
        self.prizes_by_tournament.insert(owner_tournament_id.clone(), places);
        self.prize_by_id.insert(tpid, prize.duplicate());
        proof {
            let post = pre.after_add_prize(owner_tournament_id@, *place_number, prize_id@, prize@);
            assert(self@.prizes_by_tournament =~= post.prizes_by_tournament);
            assert(self@.prizes =~= post.prizes);
        }
        Ok(())
    }

    /// Adds `account_id` to those who may put up prizes for `id`.
    pub fn internal_add_prize_owner(&mut self, id: &String, account_id: &AccountId)
        requires
            old(self)@.wf(),
        ensures
            final(self)@.wf(),
            final(self)@ == old(self)@.after_add_prize_owner(id@, account_id@),
    {
        let ghost pre = self@;
        let mut whitelist = match self.whitelist_prize_owners.remove(id) {
            Some(w) => w,
            None => WhitelistFeature::new(),
        };
        assert(whitelist.accounts() == entry_or_empty(pre.whitelist, id@));
        whitelist.whitelist_add(account_id.clone());
        let ghost ns = whitelist.accounts();
        self.whitelist_prize_owners.insert(id.clone(), whitelist);
        assert(self@.whitelist =~= pre.whitelist.insert(id@, ns));
        assert(self@.tournaments == pre.tournaments);
        assert(self@.metadata == pre.metadata);
        assert(self@.by_owner == pre.by_owner);
    }

    /// Replaces the record of an existing tournament.
    fn set_tournament(&mut self, id: &TournamentId, t: Tournament)
        requires
            old(self)@.wf(),
            old(self)@.tournaments.contains_key(id@),
        ensures
            final(self)@.wf(),
            final(self)@ == (TournamentState {
                tournaments: old(self)@.tournaments.insert(id@, t@),
                ..old(self)@
            }),
    {
        let ghost pre = self@;
        let ghost tv = t@;
        self.tournaments_by_id.insert(id.clone(), t);
        assert(self@.tournaments =~= pre.tournaments.insert(id@, tv));
        assert(self@.tournaments.dom() =~= pre.tournaments.dom());
    }

    /// Creates a tournament owned by the caller, who pays the creation fee
    /// and may then put up prizes; `now` becomes its creation time.
    pub fn tournament_create(
        &mut self,
        tournament_id: TournamentId,
        players_number: u8,
        price: Option<u128>,
        name: String,
        media: Option<String>,
        summary: Option<String>,
        nft_access_contract: Option<AccountId>,
        predecessor: &AccountId,
        deposit: u128,
        now: u64,
    ) -> (r: Result<(), TournamentError>)
        requires
            old(self)@.wf(),
        ensures
            final(self)@.wf(),
            r == as_result(old(self)@.create_error(tournament_id@, price, predecessor@, deposit)),
            r is Ok ==> final(self)@ == old(self)@.after_create(
                tournament_id@,
                players_number,
                price,
                MetadataView {
                    name: name@,
                    media: opt_str_view(media),
                    summary: opt_str_view(summary),
                },
                opt_str_view(nft_access_contract),
                predecessor@,
                now,
            ),
            r is Err ==> final(self)@ == old(self)@,
    {
        crate::tournament::utils::assert_tx_money(deposit)?;
        match price {
            Some(p) => {
                if p == 0 {
                    return Err(TournamentError::ZeroPrice);
                }
            },
            None => {},
        }
        let id = contract_tournament_id(predecessor, &tournament_id);
        if self.tournaments_by_id.contains_key(&id) {
            return Err(TournamentError::AlreadyExists);
        }
        let ghost pre = self@;
        let ghost mv = MetadataView {
            name: name@,
            media: opt_str_view(media),
            summary: opt_str_view(summary),
        };
        let tournament = Tournament {
            tournament_id: tournament_id.clone(),
            owner_id: predecessor.clone(),
            ended_at: None,
            started_at: None,
            created_at: now,
            players_number,
            price,
            access_nft_contract: nft_access_contract,
        };
        let ghost tv = tournament@;
        self.tournaments_by_id.insert(id.clone(), tournament);
        let metadata = TournamentMetadata { name, media, summary };
        self.tournament_metadata_by_id.insert(id.clone(), metadata);
        set_map_add(&mut self.tournaments_by_owner, predecessor, tournament_id);
        let ghost mid = self@;
        proof {
            assert(mid.tournaments =~= pre.tournaments.insert(id@, tv));
            assert(mid.metadata =~= pre.metadata.insert(id@, mv));
            assert forall|o: Seq<char>, i: int|
                mid.by_owner.contains_key(o) && 0 <= i < mid.by_owner[o].len() implies #[trigger]
                mid.tournaments.contains_key(spec_tournament_id(o, #[trigger] mid.by_owner[o][i])) by {
                if o == predecessor@ && i == entry_or_empty(pre.by_owner, o).len() {
                } else {
                    assert(pre.by_owner.contains_key(o));
                    assert(mid.by_owner[o][i] == pre.by_owner[o][i]);
                }
            }
        }
        self.internal_add_prize_owner(&id, predecessor);
        Ok(())
    }

    /// The owner starts a full tournament at `now`.
    pub fn tournament_start(&mut self, tournament_id: TournamentId, predecessor: &AccountId, now: u64) -> (r:
        Result<(), TournamentError>)
        requires
            old(self)@.wf(),
        ensures
            final(self)@.wf(),
            ({
                let id = spec_tournament_id(predecessor@, tournament_id@);
                &&& r == as_result(old(self)@.start_error(id, predecessor@))
                &&& r is Ok ==> final(self)@ == (TournamentState {
                    tournaments: old(self)@.tournaments.insert(
                        id,
                        TournamentView { started_at: Some(now), ..old(self)@.tournaments[id] },
                    ),
                    ..old(self)@
                })
                &&& r is Err ==> final(self)@ == old(self)@
            }),
    {
        let id = contract_tournament_id(predecessor, &tournament_id);
        let mut tournament = self.assert_tournament_not_started(&id)?;
        let players = self.internal_get_players_number_in_tournament(&id);
        if *predecessor != tournament.owner_id {
            return Err(TournamentError::NotOwner);
        }
        if players != tournament.players_number {
            return Err(TournamentError::NotFilled);
        }
        tournament.started_at = Some(now);
        self.set_tournament(&id, tournament);
        Ok(())
    }

    /// The owner ends a started tournament at `now`.
    pub fn tournament_end(&mut self, tournament_id: TournamentId, predecessor: &AccountId, now: u64) -> (r:
        Result<(), TournamentError>)
        requires
            old(self)@.wf(),
        ensures
            final(self)@.wf(),
            ({
                let id = spec_tournament_id(predecessor@, tournament_id@);
                &&& r == as_result(old(self)@.end_error(id, predecessor@))
                &&& r is Ok ==> final(self)@ == (TournamentState {
                    tournaments: old(self)@.tournaments.insert(
                        id,
                        TournamentView { ended_at: Some(now), ..old(self)@.tournaments[id] },
                    ),
                    ..old(self)@
                })
                &&& r is Err ==> final(self)@ == old(self)@
            }),
    {
        let id = contract_tournament_id(predecessor, &tournament_id);
        let mut tournament = self.assert_tournament_started(&id)?;
        if tournament.ended_at.is_some() {
            return Err(TournamentError::AlreadyEnded);
        }
        if *predecessor != tournament.owner_id {
            return Err(TournamentError::NotOwner);
        }
        tournament.ended_at = Some(now);
        self.set_tournament(&id, tournament);
        Ok(())
    }

    /// The caller joins `owner||tournament`, which must not be full, paying at
    /// least its price; the price goes to the owner and, when more than one
    /// yoctoNEAR is left over, the rest back to the caller.
    pub fn tournament_join(
        &mut self,
        tournament_id: TournamentId,
        owner_id: AccountId,
        predecessor: &AccountId,
        deposit: u128,
    ) -> (r: Result<Vec<TournamentPayout>, TournamentError>)
        requires
            old(self)@.wf(),
        ensures
            final(self)@.wf(),
            ({
                let id = spec_tournament_id(owner_id@, tournament_id@);
                match r {
                    Ok(payouts) => {
                        &&& old(self)@.join_error(id, predecessor@, deposit) is None
                        &&& final(self)@ == old(self)@.after_join(id, predecessor@)
                        &&& payout_views(payouts@) == old(self)@.join_payouts(id, predecessor@, deposit)
                    },
                    Err(e) => old(self)@.join_error(id, predecessor@, deposit) == Some(e)
                        && final(self)@ == old(self)@,
                }
            }),
    {
        let id = contract_tournament_id(&owner_id, &tournament_id);
        let tournament = self.assert_tournament_not_started(&id)?;
        let price = match tournament.price {
            None => {
                return Err(TournamentError::Unavailable);
            },
            Some(p) => p,
        };
        if deposit < price {
            return Err(TournamentError::DepositTooSmall);
        }
        self.assert_tournament_players(&id)?;
        match self.players_per_tournament.get(&id) {
            Some(s) => {
                if s.contains(predecessor) {
                    return Err(TournamentError::AlreadyJoined);
                }
            },
            None => {},
        }
        let ghost pre = self@;
        self.internal_add_player_to_tournament(&tournament_id, &owner_id, predecessor);
        assert(self@.tournaments == pre.tournaments && self@.metadata == pre.metadata && self@.by_owner
            == pre.by_owner);
        let refund = deposit - price;
        let mut payouts: Vec<TournamentPayout> = Vec::new();
        if refund > 1 {
            payouts.push(TournamentPayout::Near { receiver_id: predecessor.clone(), amount: refund });
        }
        payouts.push(TournamentPayout::Near { receiver_id: tournament.owner_id, amount: price });
        assert(payout_views(payouts@) =~= if deposit - price > 1 {
            seq![
                TournamentPayoutView::Near { receiver_id: predecessor@, amount: (deposit - price) as u128 },
                TournamentPayoutView::Near { receiver_id: pre.tournaments[id@].owner_id, amount: price },
            ]
        } else {
            seq![TournamentPayoutView::Near { receiver_id: pre.tournaments[id@].owner_id, amount: price }]
        });
        Ok(payouts)
    }

    /// Puts up the attached NEAR (at least one NEAR) as a prize for `place`;
    /// the caller must own the tournament or be allowed to put up prizes.
    pub fn tournament_add_prize(
        &mut self,
        tournament_id: TournamentId,
        owner_id: AccountId,
        place_number: u8,
        prize_id: String,
        predecessor: &AccountId,
        deposit: u128,
    ) -> (r: Result<(), TournamentError>)
        requires
            old(self)@.wf(),
        ensures
            final(self)@.wf(),
            ({
                let id = spec_tournament_id(owner_id@, tournament_id@);
                let err = if deposit < MIN_PRIZE_NEAR {
                    Some(TournamentError::PrizeTooSmall)
                } else if old(self)@.not_started_error(id) is Some {
                    old(self)@.not_started_error(id)
                } else if old(self)@.prize_owner_error(id, predecessor@) is Some {
                    old(self)@.prize_owner_error(id, predecessor@)
                } else {
                    old(self)@.add_prize_error(id, place_number, prize_id@)
                };
                &&& r == as_result(err)
                &&& r is Ok ==> final(self)@ == old(self)@.after_add_prize(
                    id,
                    place_number,
                    prize_id@,
                    PrizeView::Near { amount: deposit, owner_id: Some(predecessor@) },
                )
                &&& r is Err ==> final(self)@ == old(self)@
            }),
    {
        let id = contract_tournament_id(&owner_id, &tournament_id);
        if deposit < MIN_PRIZE_NEAR {
            return Err(TournamentError::PrizeTooSmall);
        }
        let tournament = self.assert_tournament_not_started(&id)?;
        if tournament.owner_id != *predecessor {
            match self.whitelist_prize_owners.get(&id) {
                None => {
                    return Err(TournamentError::NoWhitelist);
                },
                Some(w) => {
                    if !w.internal_is_whitelist(predecessor) {
                        return Err(TournamentError::NotWhitelisted);
                    }
                },
            }
        }
        let prize = RewardPrize::Near { amount: deposit, owner_id: Some(predecessor.clone()) };
        self.internal_tournament_add_prize(&id, &place_number, &prize_id, &prize)
    }

    /// The owner pays out the prizes of `winner_place` to `account_id`, a
    /// player, once per place; the payouts follow the order the prizes were
    /// put up.
    pub fn tournament_execute_reward(
        &mut self,
        tournament_id: TournamentId,
        winner_place: u8,
        account_id: AccountId,
        predecessor: &AccountId,
    ) -> (r: Result<Vec<TournamentPayout>, TournamentError>)
        requires
            old(self)@.wf(),
        ensures
            final(self)@.wf(),
            ({
                let id = spec_tournament_id(predecessor@, tournament_id@);
                let err = old(self)@.reward_error(tournament_id@, winner_place, account_id@, predecessor@);
                match r {
                    Ok(payouts) => {
                        &&& err is None
                        &&& final(self)@ == (TournamentState {
                            rewarded: old(self)@.rewarded.push(
                                spec_place_id(predecessor@, tournament_id@, winner_place),
                            ),
                            ..old(self)@
                        })
                        &&& payout_views(payouts@) == old(self)@.place_prizes(id, winner_place).map_values(
                            |pid: Seq<char>|
                                payout_of(
                                    old(self)@.prizes[spec_prize_id(
                                        predecessor@,
                                        tournament_id@,
                                        winner_place,
                                        pid,
                                    )],
                                    account_id@,
                                    winner_place,
                                ),
                        )
                    },
                    Err(e) => err == Some(e) && final(self)@ == old(self)@,
                }
            }),
    {
        let id = contract_tournament_id(predecessor, &tournament_id);
        let tournament = self.assert_tournament_started(&id)?;
        if *predecessor != tournament.owner_id {
            return Err(TournamentError::NotOwner);
        }
        match self.players_per_tournament.get(&id) {
            None => {
                return Err(TournamentError::PlayersNotFound);
            },
            Some(members) => {
                if !members.contains(&account_id) {
                    return Err(TournamentError::NotMember);
                }
            },
        }
        let place_id = tournament_place_id(predecessor, &tournament_id, &winner_place);
        if self.prizes_per_place_rewarded.contains(&place_id) {
            return Err(TournamentError::AlreadyRewarded);
        }
        let places = match self.prizes_by_tournament.get(&id) {
            None => {
                return Err(TournamentError::NoPrizes);
            },
            Some(p) => p,
        };
        let prizes = match places.get(&winner_place) {
            None => {
                return Err(TournamentError::NoPrizes);
            },
            Some(s) => s,
        };
        let ghost pids = prizes.seq();
        assert(pids == self@.place_prizes(id@, winner_place));
        let mut payouts: Vec<TournamentPayout> = Vec::new();
        let mut i: usize = 0;
        #[verifier::loop_isolation(false)]
        while i < prizes.len()
            invariant
                i <= pids.len(),
                pids == prizes.seq(),
                payouts@.len() == i,
                forall|j: int|
                    0 <= j < i ==> self@.prizes.contains_key(
                        spec_prize_id(predecessor@, tournament_id@, winner_place, #[trigger] pids[j]),
                    ),
                forall|j: int|
                    0 <= j < i ==> #[trigger] payouts@[j]@ == payout_of(
                        self@.prizes[spec_prize_id(predecessor@, tournament_id@, winner_place, pids[j])],
                        account_id@,
                        winner_place,
                    ),
            decreases pids.len() - i,
        {
            let pid = prizes.index(i);
            let tpid = tournament_prize_id(predecessor, &tournament_id, &winner_place, pid);
            let prize = match self.prize_by_id.get(&tpid) {
                None => {
                    assert(!self@.prizes.contains_key(
                        spec_prize_id(predecessor@, tournament_id@, winner_place, pids[i as int]),
                    ));
                    return Err(TournamentError::PrizeNotFound);
                },
                Some(p) => p,
            };
            let payout = match prize {
                RewardPrize::Near { amount, .. } => TournamentPayout::Near {
                    receiver_id: account_id.clone(),
                    amount: *amount,
                },
                RewardPrize::Ft { amount, ft_contract_id, .. } => TournamentPayout::Ft {
                    ft_contract_id: ft_contract_id.clone(),
                    receiver_id: account_id.clone(),
                    amount: *amount,
                    place: winner_place,
                },
                RewardPrize::Nft { token_id, nft_contract_id, .. } => TournamentPayout::Nft {
                    nft_contract_id: nft_contract_id.clone(),
                    receiver_id: account_id.clone(),
                    token_id: token_id.clone(),
                    place: winner_place,
                },
            };
            payouts.push(payout);
            i = i + 1;
        }
        let ghost pre = self@;
        self.prizes_per_place_rewarded.insert(place_id);
        proof {
            assert(payout_views(payouts@) =~= pre.place_prizes(id@, winner_place).map_values(
                |pid: Seq<char>|
                    payout_of(
                        pre.prizes[spec_prize_id(predecessor@, tournament_id@, winner_place, pid)],
                        account_id@,
                        winner_place,
                    ),
            ));
        }
        Ok(payouts)
    }

    /// The owner allows `account_id` to put up prizes.
    pub fn tournament_add_whitelist_prize_owner(
        &mut self,
        tournament_id: TournamentId,
        account_id: AccountId,
        predecessor: &AccountId,
    ) -> (r: Result<(), TournamentError>)
        requires
            old(self)@.wf(),
        ensures
            final(self)@.wf(),
            ({
                let id = spec_tournament_id(predecessor@, tournament_id@);
                let err = if old(self)@.not_started_error(id) is Some {
                    old(self)@.not_started_error(id)
                } else if old(self)@.tournaments[id].owner_id != predecessor@ {
                    Some(TournamentError::AccessDenied)
                } else {
                    None
                };
                &&& r == as_result(err)
                &&& r is Ok ==> final(self)@ == old(self)@.after_add_prize_owner(id, account_id@)
                &&& r is Err ==> final(self)@ == old(self)@
            }),
    {
        let id = contract_tournament_id(predecessor, &tournament_id);
        let tournament = self.assert_tournament_not_started(&id)?;
        if tournament.owner_id != *predecessor {
            return Err(TournamentError::AccessDenied);
        }
        self.internal_add_prize_owner(&id, &account_id);
        Ok(())
    }
}

} // verus!
