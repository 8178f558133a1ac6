//! Properties of the library that span several operations.
use vstd::prelude::*;
use crate::collections::{seq_insert, seq_swap_remove, entry_or_empty, set_map_removed};
use crate::utils::spec_join;
use crate::rent::meta::{RentState, RentError};
use crate::rent::base::{spec_price, new_rent_view};
use crate::tournament::metadata::{TournamentState, TournamentError, TournamentPayoutView, TournamentView, MetadataView, PrizeView};
use crate::tournament::utils::{spec_tournament_id, spec_place_id, spec_prize_id};
use crate::tournament::base::payout_of;
use crate::rent::enumeration::active_ids;
use crate::referral::metadata::{ReferralState, ReferralError, ReferralInfoView};
use crate::referral::utils::spec_program_id;
use crate::utils::decimal;

verus! {

/// Inserting into a sequence without duplicates keeps it without duplicates
/// and adds exactly the element to its set.
pub proof fn lemma_seq_insert(s: Seq<Seq<char>>, x: Seq<char>)
    requires
        s.no_duplicates(),
    ensures
        seq_insert(s, x).no_duplicates(),
        seq_insert(s, x).to_set() == s.to_set().insert(x),
        seq_insert(s, x).contains(x),
{
    if s.contains(x) {
        assert(s.to_set() =~= s.to_set().insert(x));
    } else {
        s.lemma_push_to_set_commute(x);
        assert(s.push(x)[s.len() as int] == x);
        assert forall|i: int, j: int|
            0 <= i < s.len() + 1 && 0 <= j < s.len() + 1 && i != j implies s.push(x)[i] != s.push(x)[j] by {
            if i == s.len() {
                assert(s.push(x)[j] == s[j]);
            } else if j == s.len() {
                assert(s.push(x)[i] == s[i]);
            }
        }
    }
}

/// Whatever was in the sequence, the inserted element is in it afterwards.
pub proof fn lemma_seq_insert_contains(s: Seq<Seq<char>>, x: Seq<char>)
    ensures
        seq_insert(s, x).contains(x),
{
    if !s.contains(x) {
        assert(s.push(x)[s.len() as int] == x);
    }
}

/// Removing an element from a sequence without duplicates, by moving the
/// last one into its slot, removes exactly that element from its set.
pub proof fn lemma_seq_swap_remove(s: Seq<Seq<char>>, x: Seq<char>)
    requires
        s.no_duplicates(),
    ensures
        seq_swap_remove(s, x).no_duplicates(),
        seq_swap_remove(s, x).to_set() == s.to_set().remove(x),
        !seq_swap_remove(s, x).contains(x),
{
    if s.contains(x) {
        let i = s.index_of(x);
        let ns = s.update(i, s.last()).drop_last();
        assert forall|a: int, b: int| 0 <= a < ns.len() && 0 <= b < ns.len() && a != b implies ns[a]
            != ns[b] by {
            let a2 = if a == i { s.len() - 1 } else { a };
            let b2 = if b == i { s.len() - 1 } else { b };
            assert(ns[a] == s[a2]);
            assert(ns[b] == s[b2]);
        }
        assert forall|y: Seq<char>| ns.to_set().contains(y) <==> s.to_set().remove(x).contains(y) by {
            if ns.contains(y) {
                let a = choose|a: int| 0 <= a < ns.len() && ns[a] == y;
                let a2 = if a == i { s.len() - 1 } else { a };
                assert(ns[a] == s[a2]);
            }
            if s.contains(y) && y != x {
                let a = choose|a: int| 0 <= a < s.len() && s[a] == y;
                if a == s.len() - 1 {
                    assert(ns[i] == y);
                } else {
                    assert(ns[a] == y);
                }
            }
        }
        assert(ns.to_set() =~= s.to_set().remove(x));
        assert(!ns.to_set().contains(x));
    } else {
        assert(s.to_set() =~= s.to_set().remove(x));
    }
}

/// Appending an absent element and then removing it gives the sequence back.
pub proof fn lemma_push_then_swap_remove(s: Seq<Seq<char>>, x: Seq<char>)
    requires
        !s.contains(x),
    ensures
        seq_swap_remove(s.push(x), x) == s,
{
    let t = s.push(x);
    assert(t[s.len() as int] == x);
    assert(t.contains(x));
    let i = t.index_of(x);
    if i != s.len() {
        assert(s[i] == x);
    }
    assert(t.update(i, t.last()).drop_last() =~= s);
}

/// An accepted offer can be withdrawn by its owner at once, and that
/// withdrawal forgets the offer and takes it off the open list.
pub proof fn law_rent_offer_then_withdraw(
    st: RentState,
    contract_id: Seq<char>,
    token_id: Seq<char>,
    owner_id: Seq<char>,
    sale_conditions: Map<Seq<char>, u128>,
    min_time: u64,
    max_time: u64,
    now: u64,
)
    requires
        st.add_error(contract_id, token_id, min_time, max_time) is None,
        st.pending.no_duplicates(),
    ensures
        ({
            let id = spec_join(contract_id, token_id);
            let s1 = st.after_add(contract_id, token_id, owner_id, sale_conditions, min_time, max_time, now);
            let s2 = s1.after_remove(contract_id, token_id, owner_id);
            &&& s1.approved_error(id, owner_id) is None
            &&& s1.remove_error(contract_id, token_id, owner_id) is None
            &&& s2.rents == st.rents
            &&& s2.current == st.current
            &&& s2.ends == st.ends
            &&& s2.pending.to_set() == st.pending.to_set().remove(id)
            &&& !s2.pending.contains(id)
        }),
{
    let id = spec_join(contract_id, token_id);
    let s1 = st.after_add(contract_id, token_id, owner_id, sale_conditions, min_time, max_time, now);
    let s2 = s1.after_remove(contract_id, token_id, owner_id);
    lemma_seq_insert(st.pending, id);
    lemma_seq_swap_remove(s1.pending, id);
    assert(s2.rents =~= st.rents);
    assert(s2.pending.to_set() =~= st.pending.to_set().remove(id));
}

/// An accepted offer reads back as offered, not rented, listed under its
/// owner and its contract and open for payment; offering it again is
/// refused.
pub proof fn law_rent_offer_reads_back(
    st: RentState,
    contract_id: Seq<char>,
    token_id: Seq<char>,
    owner_id: Seq<char>,
    sale_conditions: Map<Seq<char>, u128>,
    min_time: u64,
    max_time: u64,
    now: u64,
)
    requires
        st.add_error(contract_id, token_id, min_time, max_time) is None,
    ensures
        ({
            let id = spec_join(contract_id, token_id);
            let s1 = st.after_add(contract_id, token_id, owner_id, sale_conditions, min_time, max_time, now);
            &&& s1.json(id).rent == new_rent_view(
                contract_id,
                token_id,
                owner_id,
                sale_conditions,
                min_time,
                max_time,
                now,
            )
            &&& s1.json(id).renter_id is None
            &&& s1.pending.contains(id)
            &&& entry_or_empty(s1.per_account, owner_id).contains(id)
            &&& entry_or_empty(s1.by_contract, contract_id).contains(token_id)
            &&& s1.approved_error(id, owner_id) is None
            &&& s1.add_error(contract_id, token_id, min_time, max_time) == Some(RentError::AlreadyOnMarket)
        }),
{
    let id = spec_join(contract_id, token_id);
    lemma_seq_insert_contains(st.pending, id);
    lemma_seq_insert_contains(entry_or_empty(st.per_account, owner_id), id);
    lemma_seq_insert_contains(entry_or_empty(st.by_contract, contract_id), token_id);
}

/// A paid rent locks the token for the renter until its end time, and the
/// owner's claim is refused at every moment up to that end.
pub proof fn law_rent_locked_until_end(
    st: RentState,
    contract_id: Seq<char>,
    token_id: Seq<char>,
    receiver_id: Seq<char>,
    time: u64,
    ft_token_id: Seq<char>,
    deposit: u128,
    now: u64,
    later: u64,
)
    requires
        st.purchase_error(contract_id, token_id, receiver_id, time, ft_token_id, deposit, now) is None,
        later <= now + time,
    ensures
        ({
            let id = spec_join(contract_id, token_id);
            let rent = st.rents[id];
            let s1 = RentState { pending: seq_swap_remove(st.pending, id), ..st };
            let s2 = s1.after_resolve_purchase(contract_id, token_id, receiver_id, (now + time) as u64, true);
            &&& deposit == spec_price(rent.sale_conditions[ft_token_id], time)
            &&& rent.min_time <= time <= rent.max_time
            &&& s2.current[id] == receiver_id
            &&& s2.ends[id] == now + time
            &&& s2.claim_error(contract_id, token_id, rent.owner_id, later) == Some(RentError::NotExpired)
        }),
{
}

/// When the NFT could not be moved to the market, the offer is open again.
pub proof fn law_rent_failed_payment_reopens(
    st: RentState,
    contract_id: Seq<char>,
    token_id: Seq<char>,
    receiver_id: Seq<char>,
    end_time: u64,
)
    ensures
        st.after_resolve_purchase(contract_id, token_id, receiver_id, end_time, false).pending.contains(
            spec_join(contract_id, token_id),
        ),
        st.after_resolve_purchase(contract_id, token_id, receiver_id, end_time, false).current == st.current,
{
    let id = spec_join(contract_id, token_id);
    if !st.pending.contains(id) {
        assert(st.pending.push(id)[st.pending.len() as int] == id);
    }
}

/// Once a rent has ended, its owner's claim goes through, and closing it
/// unlocks the token and forgets the offer.
pub proof fn law_rent_claim_after_end(
    st: RentState,
    contract_id: Seq<char>,
    token_id: Seq<char>,
    owner_id: Seq<char>,
    renter_id: Seq<char>,
    now: u64,
)
    requires
        st.rents.contains_key(spec_join(contract_id, token_id)),
        st.rents[spec_join(contract_id, token_id)].owner_id == owner_id,
        st.current.contains_key(spec_join(contract_id, token_id)),
        st.current[spec_join(contract_id, token_id)] == renter_id,
        st.ends.contains_key(spec_join(contract_id, token_id)),
        now > st.ends[spec_join(contract_id, token_id)],
        st.tokens_per_account.contains_key(renter_id),
        st.by_contract.contains_key(contract_id),
        st.per_account.contains_key(owner_id),
    ensures
        st.claim_error(contract_id, token_id, owner_id, now) is None,
        st.resolve_claim_error(contract_id, owner_id, renter_id, true) is None,
        !st.after_resolve_claim(contract_id, token_id, owner_id, renter_id).current.contains_key(
            spec_join(contract_id, token_id),
        ),
        !st.after_resolve_claim(contract_id, token_id, owner_id, renter_id).rents.contains_key(
            spec_join(contract_id, token_id),
        ),
{
}

/// A created tournament reads back as created, not started, with its
/// metadata, listed under its owner, who may put up prizes; creating it
/// again is refused.
pub proof fn law_tournament_create_reads_back(
    st: TournamentState,
    tournament_id: Seq<char>,
    players_number: u8,
    price: Option<u128>,
    metadata: MetadataView,
    nft_access_contract: Option<Seq<char>>,
    predecessor: Seq<char>,
    deposit: u128,
    now: u64,
)
    requires
        st.create_error(tournament_id, price, predecessor, deposit) is None,
    ensures
        ({
            let id = spec_tournament_id(predecessor, tournament_id);
            let s1 = st.after_create(
                tournament_id,
                players_number,
                price,
                metadata,
                nft_access_contract,
                predecessor,
                now,
            );
            &&& s1.json(id).tournament == (TournamentView {
                tournament_id,
                owner_id: predecessor,
                access_nft_contract: nft_access_contract,
                players_number,
                price,
                started_at: None,
                ended_at: None,
                created_at: now,
            })
            &&& s1.json(id).metadata == metadata
            &&& s1.not_started_error(id) is None
            &&& entry_or_empty(s1.by_owner, predecessor).contains(tournament_id)
            &&& s1.prize_owner_error(id, predecessor) is None
            &&& entry_or_empty(s1.whitelist, id).contains(predecessor)
            &&& s1.create_error(tournament_id, price, predecessor, deposit) == Some(TournamentError::AlreadyExists)
        }),
{
    let id = spec_tournament_id(predecessor, tournament_id);
    lemma_seq_insert_contains(entry_or_empty(st.by_owner, predecessor), tournament_id);
    lemma_seq_insert_contains(entry_or_empty(st.whitelist, id), predecessor);
}

/// A tournament starts only when it has exactly as many players as places,
/// and only by its owner.
pub proof fn law_tournament_starts_full(st: TournamentState, id: Seq<char>, predecessor: Seq<char>)
    requires
        st.start_error(id, predecessor) is None,
    ensures
        st.tournaments.contains_key(id),
        st.tournaments[id].owner_id == predecessor,
        st.players_count(id) == st.tournaments[id].players_number,
        st.tournaments[id].started_at is None,
{
}

/// A prize put up for one tournament leaves every other tournament's prize
/// fund as it was: its places, the prize ids listed under them, and the
/// record of each of those prizes, as long as the new prize's key is not one
/// of theirs.
pub proof fn law_tournament_prizes_stay_apart(
    st: TournamentState,
    id: Seq<char>,
    place: u8,
    prize_id: Seq<char>,
    prize: PrizeView,
    owner_id: Seq<char>,
    tournament_id: Seq<char>,
)
    requires
        spec_tournament_id(owner_id, tournament_id) != id,
        st.prizes_by_tournament.contains_key(spec_tournament_id(owner_id, tournament_id)) ==> forall|
            p: u8,
            i: int,
        |
            #![trigger st.prizes_by_tournament[spec_tournament_id(owner_id, tournament_id)][p][i]]
            st.prizes_by_tournament[spec_tournament_id(owner_id, tournament_id)].contains_key(p) && 0 <= i
                < st.prizes_by_tournament[spec_tournament_id(owner_id, tournament_id)][p].len()
                ==> spec_prize_id(
                owner_id,
                tournament_id,
                p,
                st.prizes_by_tournament[spec_tournament_id(owner_id, tournament_id)][p][i],
            ) != spec_prize_id(st.tournaments[id].owner_id, st.tournaments[id].tournament_id, place, prize_id),
    ensures
        ({
            let a = spec_tournament_id(owner_id, tournament_id);
            let s2 = st.after_add_prize(id, place, prize_id, prize);
            let places = st.prizes_by_tournament[a];
            &&& s2.prizes_by_tournament.contains_key(a) == st.prizes_by_tournament.contains_key(a)
            &&& st.prizes_by_tournament.contains_key(a) ==> s2.prizes_by_tournament[a] == places
            &&& st.prizes_by_tournament.contains_key(a) ==> forall|p: u8, i: int|
                #![trigger places[p][i]]
                places.contains_key(p) && 0 <= i < places[p].len() ==> {
                    let k = spec_prize_id(owner_id, tournament_id, p, places[p][i]);
                    &&& s2.prizes.contains_key(k) == st.prizes.contains_key(k)
                    &&& s2.prizes[k] == st.prizes[k]
                }
        }),
{
}

/// The rented tokens listed for an account at `now` are exactly those of
/// its tokens whose rent runs until `now` or later: an ended rent is never
/// listed, and a running one always is.
pub proof fn law_rented_listing_is_running(s: Seq<Seq<char>>, ends: Map<Seq<char>, u64>, now: u64)
    requires
        forall|i: int| 0 <= i < s.len() ==> ends.contains_key(#[trigger] s[i]),
    ensures
        forall|x: Seq<char>| #[trigger]
            active_ids(s, ends, now).contains(x) <==> (s.contains(x) && now <= ends[x]),
    decreases s.len(),
{
    if s.len() > 0 {
        let t = s.drop_last();
        let last = s.last();
        law_rented_listing_is_running(t, ends, now);
        let r = active_ids(t, ends, now);
        let a = active_ids(s, ends, now);
        assert(a == (if now > ends[last] { r } else { r.push(last) }));
        assert(s == t.push(last));
        assert forall|x: Seq<char>| #[trigger] a.contains(x) <==> (s.contains(x) && now <= ends[x]) by {
            assert(s.contains(x) <==> (t.contains(x) || x == last)) by {
                if s.contains(x) {
                    let i = choose|i: int| 0 <= i < s.len() && s[i] == x;
                    if i < t.len() {
                        assert(t[i] == x);
                    }
                }
                if t.contains(x) {
                    let i = choose|i: int| 0 <= i < t.len() && t[i] == x;
                    assert(s[i] == x);
                }
                if x == last {
                    assert(s[s.len() - 1] == x);
                }
            }
            if now <= ends[last] {
                assert(r.push(last).contains(x) <==> (r.contains(x) || x == last)) by {
                    if r.push(last).contains(x) {
                        let j = choose|j: int| 0 <= j < r.len() + 1 && r.push(last)[j] == x;
                        if j < r.len() {
                            assert(r[j] == x);
                        }
                    }
                    if r.contains(x) {
                        let j = choose|j: int| 0 <= j < r.len() && r[j] == x;
                        assert(r.push(last)[j] == x);
                    }
                    if x == last {
                        assert(r.push(last)[r.len() as int] == x);
                    }
                }
            }
        }
    }
}

/// The account a payout goes to.
pub open spec fn payout_receiver(p: TournamentPayoutView) -> Seq<char> {
    match p {
        TournamentPayoutView::Near { receiver_id, .. } => receiver_id,
        TournamentPayoutView::Ft { receiver_id, .. } => receiver_id,
        TournamentPayoutView::Nft { receiver_id, .. } => receiver_id,
    }
}

/// Every payout of a place's reward goes to the winning account, whatever
/// the kind of prize and whoever put it up, and carries the prize's own
/// amount or token.
pub proof fn law_tournament_reward_goes_to_winner(
    st: TournamentState,
    tournament_id: Seq<char>,
    place: u8,
    account_id: Seq<char>,
    predecessor: Seq<char>,
)
    ensures
        ({
            let id = spec_tournament_id(predecessor, tournament_id);
            let pids = st.place_prizes(id, place);
            let ps = pids.map_values(
                |pid: Seq<char>|
                    payout_of(st.prizes[spec_prize_id(predecessor, tournament_id, place, pid)], account_id, place),
            );
            &&& ps.len() == pids.len()
            &&& forall|i: int| 0 <= i < ps.len() ==> payout_receiver(#[trigger] ps[i]) == account_id
            &&& forall|i: int|
                0 <= i < ps.len() ==> match (st.prizes[spec_prize_id(predecessor, tournament_id, place, pids[i])], #[trigger] ps[i]) {
                    (PrizeView::Near { amount: a, .. }, TournamentPayoutView::Near { amount: b, .. }) => a == b,
                    (PrizeView::Ft { ft_contract_id: c, amount: a, .. }, TournamentPayoutView::Ft {
                        ft_contract_id: d,
                        amount: b,
                        ..
                    }) => c == d && a == b,
                    (PrizeView::Nft { nft_contract_id: c, token_id: t, .. }, TournamentPayoutView::Nft {
                        nft_contract_id: d,
                        token_id: u,
                        ..
                    }) => c == d && t == u,
                    _ => false,
                }
        }),
{
}

/// No tournament has more players than places.
pub open spec fn within_places(st: TournamentState, id: Seq<char>) -> bool {
    entry_or_empty(st.players, id).len() <= st.tournaments[id].players_number
}

/// Entering a tournament by NFT adds exactly the entrant and never takes the
/// players past the number of places.
pub proof fn law_nft_entry_within_places(
    st: TournamentState,
    id: Seq<char>,
    token_id: Seq<char>,
    account_id: Seq<char>,
    nft_contract_id: Seq<char>,
)
    requires
        within_places(st, id),
        st.use_access_error(id, token_id, account_id, nft_contract_id) is None,
    ensures
        entry_or_empty(st.after_join(id, account_id).players, id).len() == entry_or_empty(st.players, id).len() + 1,
        entry_or_empty(st.after_join(id, account_id).players, id).contains(account_id),
        within_places(st.after_join(id, account_id), id),
{
    let s = entry_or_empty(st.players, id);
    assert(s.len() <= 255);
    assert(s.push(account_id)[s.len() as int] == account_id);
}

/// Joining by paying never takes the players past the number of places.
pub proof fn law_join_within_places(st: TournamentState, id: Seq<char>, predecessor: Seq<char>, deposit: u128)
    requires
        within_places(st, id),
        st.join_error(id, predecessor, deposit) is None,
    ensures
        entry_or_empty(st.after_join(id, predecessor).players, id).len() == entry_or_empty(st.players, id).len() + 1,
        within_places(st.after_join(id, predecessor), id),
{
    let s = entry_or_empty(st.players, id);
    assert(s.len() <= 255);
}

/// The prizes of a place are paid out at most once.
pub proof fn law_tournament_reward_once(
    st: TournamentState,
    tournament_id: Seq<char>,
    place: u8,
    account_id: Seq<char>,
    other_account: Seq<char>,
    predecessor: Seq<char>,
)
    requires
        st.reward_error(tournament_id, place, account_id, predecessor) is None,
    ensures
        ({
            let after = TournamentState {
                rewarded: st.rewarded.push(spec_place_id(predecessor, tournament_id, place)),
                ..st
            };
            after.reward_error(tournament_id, place, other_account, predecessor) is Some
        }),
{
    let pid = spec_place_id(predecessor, tournament_id, place);
    assert(st.rewarded.push(pid)[st.rewarded.len() as int] == pid);
}

/// The NEAR a list of tournament transfers pays out.
pub open spec fn near_total(ps: Seq<TournamentPayoutView>) -> int
    decreases ps.len(),
{
    if ps.len() == 0 {
        0
    } else {
        near_total(ps.drop_last()) + match ps.last() {
            TournamentPayoutView::Near { amount, .. } => amount as int,
            _ => 0,
        }
    }
}

/// Joining pays the owner exactly the price and pays out no more than the
/// deposit: all of it, or all but at most one yoctoNEAR when that little is
/// left over.
pub proof fn law_tournament_join_pays_out_deposit(st: TournamentState, id: Seq<char>, predecessor: Seq<char>, deposit: u128)
    requires
        st.join_error(id, predecessor, deposit) is None,
    ensures
        ({
            let ps = st.join_payouts(id, predecessor, deposit);
            let t = st.tournaments[id];
            &&& t.price is Some
            &&& ps.last() == (TournamentPayoutView::Near { receiver_id: t.owner_id, amount: t.price.unwrap() })
            &&& near_total(ps) <= deposit
            &&& deposit - near_total(ps) <= 1
        }),
{
    let ps = st.join_payouts(id, predecessor, deposit);
    reveal_with_fuel(near_total, 3);
    if ps.len() == 2 {
        assert(ps.drop_last().drop_last() =~= Seq::<TournamentPayoutView>::empty());
    } else {
        assert(ps.drop_last() =~= Seq::<TournamentPayoutView>::empty());
    }
}

/// An account joins the programs of a contract at most once.
pub proof fn law_referral_join_once(
    st: ReferralState,
    contract_id: Seq<char>,
    influencer_id: Seq<char>,
    program_id: Seq<char>,
    account_id: Seq<char>,
    deposit: u128,
    other_influencer: Seq<char>,
    other_program: Seq<char>,
    other_deposit: u128,
)
    requires
        st.accept_error(contract_id, account_id, deposit) is None,
    ensures
        st.after_add_referral(contract_id, influencer_id, program_id, account_id).accept_error(
            contract_id,
            account_id,
            other_deposit,
        ) is Some,
{
}

/// A new program's code stands for it, and the program records that code.
pub proof fn law_referral_code_roundtrip(
    st: ReferralState,
    contract_id: Seq<char>,
    influencer_id: Seq<char>,
    program_id: Seq<char>,
    royalty_percent: Option<u64>,
    deposit: u128,
    now: u64,
)
    requires
        st.create_error(contract_id, influencer_id, program_id, deposit, now) is None,
    ensures
        ({
            let s1 = st.after_create(contract_id, influencer_id, program_id, royalty_percent, None, now);
            let code = decimal(now as nat);
            &&& s1.info_by_code[code] == (ReferralInfoView { contract_id, influencer_id, program_id })
            &&& s1.code_by_program[spec_program_id(contract_id, influencer_id, program_id)] == code
            &&& s1.create_error(contract_id, influencer_id, program_id, deposit, now) == Some(
                ReferralError::ProgramExists,
            )
        }),
{
}

/// Removing a referral right after adding it leaves every list as it was
/// (a list left empty may be dropped) and forgets the account.
pub proof fn law_referral_remove_undoes_add(
    st: ReferralState,
    contract_id: Seq<char>,
    influencer_id: Seq<char>,
    program_id: Seq<char>,
    account_id: Seq<char>,
)
    requires
        !st.influencer_by_id.contains_key(spec_join(contract_id, account_id)),
        !entry_or_empty(st.by_contract, contract_id).contains(account_id),
        !entry_or_empty(st.by_influencer, influencer_id).contains(account_id),
        !entry_or_empty(
            st.by_program,
            spec_program_id(contract_id, influencer_id, program_id),
        ).contains(account_id),
    ensures
        ({
            let s2 = st.after_add_referral(contract_id, influencer_id, program_id, account_id).after_remove_referral(
                contract_id,
                influencer_id,
                program_id,
                account_id,
            );
            &&& s2.influencer_by_id == st.influencer_by_id
            &&& forall|k: Seq<char>| #[trigger] entry_or_empty(s2.by_contract, k) == entry_or_empty(st.by_contract, k)
            &&& forall|k: Seq<char>| #[trigger] entry_or_empty(s2.by_influencer, k) == entry_or_empty(st.by_influencer, k)
            &&& forall|k: Seq<char>| #[trigger] entry_or_empty(s2.by_program, k) == entry_or_empty(st.by_program, k)
        }),
{
    let id = spec_program_id(contract_id, influencer_id, program_id);
    let s1 = st.after_add_referral(contract_id, influencer_id, program_id, account_id);
    let s2 = s1.after_remove_referral(contract_id, influencer_id, program_id, account_id);
    lemma_push_then_swap_remove(entry_or_empty(st.by_contract, contract_id), account_id);
    lemma_push_then_swap_remove(entry_or_empty(st.by_influencer, influencer_id), account_id);
    lemma_push_then_swap_remove(entry_or_empty(st.by_program, id), account_id);
    assert(s2.influencer_by_id =~= st.influencer_by_id);
    assert forall|k: Seq<char>| #[trigger] entry_or_empty(s2.by_contract, k) == entry_or_empty(st.by_contract, k) by {
        if k == contract_id {
            let e = entry_or_empty(st.by_contract, contract_id);
            if e.len() == 0 {
                assert(e =~= Seq::<Seq<char>>::empty());
            }
        }
    }
    assert forall|k: Seq<char>| #[trigger] entry_or_empty(s2.by_influencer, k) == entry_or_empty(st.by_influencer, k) by {
        if k == influencer_id {
            let e = entry_or_empty(st.by_influencer, influencer_id);
            if e.len() == 0 {
                assert(e =~= Seq::<Seq<char>>::empty());
            }
        }
    }
    assert forall|k: Seq<char>| #[trigger] entry_or_empty(s2.by_program, k) == entry_or_empty(st.by_program, k) by {
        if k == id {
            let e = entry_or_empty(st.by_program, id);
            if e.len() == 0 {
                assert(e =~= Seq::<Seq<char>>::empty());
            }
        }
    }
}

} // verus!
