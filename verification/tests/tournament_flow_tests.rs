use mfight_sdk::tournament::base::TournamentFactory;
use mfight_sdk::tournament::metadata::{
    RewardPrize,
    TournamentError,
    TournamentOnFtTransferArgs,
    TournamentOnNftTransferArgs,
    TournamentPayout,
};
use mfight_sdk::tournament::utils::{contract_tournament_id, tournament_place_id, tournament_prize_id, CREATE_PRICE};

const PRICE: u128 = 10_000_000_000_000_000_000_000;
const ONE_NEAR: u128 = 1_000_000_000_000_000_000_000_000;

fn owner() -> String {
    "alice".to_string()
}

fn tid() -> String {
    "Cup".to_string()
}

fn factory_with(players: u8, price: Option<u128>, access: Option<String>) -> TournamentFactory {
    let mut f = TournamentFactory::new();
    f.tournament_create(
        tid(),
        players,
        price,
        "Cup name".to_string(),
        None,
        None,
        access,
        &owner(),
        CREATE_PRICE,
        5,
    )
    .unwrap();
    f
}

#[test]
fn ids_are_joined_with_double_bars() {
    let o = owner();
    let t = tid();
    assert_eq!(contract_tournament_id(&o, &t), "alice||Cup".to_string());
    assert_eq!(tournament_place_id(&o, &t, &0), "alice||Cup||0".to_string());
    assert_eq!(tournament_place_id(&o, &t, &255), "alice||Cup||255".to_string());
    assert_eq!(tournament_prize_id(&o, &t, &3, &"P".to_string()), "alice||Cup||3||P".to_string());
}

#[test]
fn tournament_create_errors() {
    let mut f = TournamentFactory::new();
    let r = f.tournament_create(tid(), 2, Some(PRICE), "n".to_string(), None, None, None, &owner(), 1, 0);
    assert_eq!(r, Err(TournamentError::WrongDeposit));
    let r = f.tournament_create(tid(), 2, Some(0), "n".to_string(), None, None, None, &owner(), CREATE_PRICE, 0);
    assert_eq!(r, Err(TournamentError::ZeroPrice));
    let mut f = factory_with(2, Some(PRICE), None);
    let r = f.tournament_create(tid(), 2, Some(PRICE), "n".to_string(), None, None, None, &owner(), CREATE_PRICE, 0);
    assert_eq!(r, Err(TournamentError::AlreadyExists));
    assert_eq!(f.tournament(tid(), owner()).unwrap().created_at, 5);
}

#[test]
fn join_pays_price_to_owner_and_refunds_the_rest() {
    let mut f = factory_with(2, Some(PRICE), None);
    let payouts = f.tournament_join(tid(), owner(), &"bob".to_string(), PRICE + 100).unwrap();
    assert_eq!(payouts.len(), 2);
    match &payouts[0] {
        TournamentPayout::Near { receiver_id, amount } => {
            assert_eq!(*receiver_id, "bob".to_string());
            assert_eq!(*amount, 100);
        },
        _ => panic!("expected a refund"),
    }
    match &payouts[1] {
        TournamentPayout::Near { receiver_id, amount } => {
            assert_eq!(*receiver_id, owner());
            assert_eq!(*amount, PRICE);
        },
        _ => panic!("expected the price for the owner"),
    }
    let payouts = f.tournament_join(tid(), owner(), &"carol".to_string(), PRICE + 1).unwrap();
    assert_eq!(payouts.len(), 1);
}

#[test]
fn join_errors() {
    let mut f = factory_with(2, Some(PRICE), None);
    let bob = "bob".to_string();
    assert_eq!(f.tournament_join("Nope".to_string(), owner(), &bob, PRICE).err(), Some(TournamentError::NotFound));
    assert_eq!(f.tournament_join(tid(), owner(), &bob, PRICE - 1).err(), Some(TournamentError::DepositTooSmall));
    f.tournament_join(tid(), owner(), &bob, PRICE).unwrap();
    assert_eq!(f.tournament_join(tid(), owner(), &bob, PRICE).err(), Some(TournamentError::AlreadyJoined));
    let mut free = factory_with(2, None, None);
    assert_eq!(free.tournament_join(tid(), owner(), &bob, PRICE).err(), Some(TournamentError::Unavailable));
}

#[test]
fn start_needs_exactly_a_full_tournament() {
    let mut f = factory_with(2, Some(PRICE), None);
    f.tournament_join(tid(), owner(), &"bob".to_string(), PRICE).unwrap();
    assert_eq!(f.tournament_start(tid(), &owner(), 7).err(), Some(TournamentError::NotFilled));
    f.tournament_join(tid(), owner(), &"carol".to_string(), PRICE).unwrap();
    assert_eq!(f.tournament_free_places(tid(), owner()).unwrap(), Some(0));
    assert_eq!(f.tournament_join(tid(), owner(), &"dan".to_string(), PRICE).err(), Some(TournamentError::Full));
    assert_eq!(f.tournament_member(tid(), owner(), "dan".to_string()).unwrap(), false);

    let mut g = factory_with(2, Some(PRICE), None);
    g.tournament_join(tid(), owner(), &"bob".to_string(), PRICE).unwrap();
    g.tournament_join(tid(), owner(), &"carol".to_string(), PRICE).unwrap();
    assert_eq!(g.tournament_start(tid(), &"bob".to_string(), 7).err(), Some(TournamentError::NotFound));
    g.tournament_start(tid(), &owner(), 7).unwrap();
    assert_eq!(g.tournament(tid(), owner()).unwrap().started_at, Some(7));
    assert_eq!(g.tournament_start(tid(), &owner(), 8).err(), Some(TournamentError::AlreadyStarted));
    assert_eq!(
        g.tournament_join(tid(), owner(), &"dan".to_string(), PRICE).err(),
        Some(TournamentError::AlreadyStarted)
    );
    g.tournament_end(tid(), &owner(), 9).unwrap();
    assert_eq!(g.tournament_end(tid(), &owner(), 10).err(), Some(TournamentError::AlreadyEnded));
    assert_eq!(g.tournament(tid(), owner()).unwrap().ended_at, Some(9));
}

#[test]
fn reward_is_paid_once_in_prize_order() {
    let mut f = factory_with(2, Some(PRICE), None);
    f.tournament_add_prize(tid(), owner(), 1, "P1".to_string(), &owner(), ONE_NEAR).unwrap();
    f.tournament_add_prize(tid(), owner(), 1, "P2".to_string(), &owner(), 2 * ONE_NEAR).unwrap();
    f.tournament_join(tid(), owner(), &"bob".to_string(), PRICE).unwrap();
    f.tournament_join(tid(), owner(), &"carol".to_string(), PRICE).unwrap();
    assert_eq!(
        f.tournament_execute_reward(tid(), 1, "bob".to_string(), &owner()).err(),
        Some(TournamentError::NotStarted)
    );
    f.tournament_start(tid(), &owner(), 1).unwrap();
    assert_eq!(
        f.tournament_execute_reward(tid(), 1, "zed".to_string(), &owner()).err(),
        Some(TournamentError::NotMember)
    );
    assert_eq!(
        f.tournament_execute_reward(tid(), 2, "bob".to_string(), &owner()).err(),
        Some(TournamentError::NoPrizes)
    );
    let payouts = f.tournament_execute_reward(tid(), 1, "bob".to_string(), &owner()).unwrap();
    assert_eq!(payouts.len(), 2);
    match (&payouts[0], &payouts[1]) {
        (
            TournamentPayout::Near { receiver_id: r0, amount: a0 },
            TournamentPayout::Near { receiver_id: r1, amount: a1 },
        ) => {
            assert_eq!(*r0, "bob".to_string());
            assert_eq!(*a0, ONE_NEAR);
            assert_eq!(*r1, "bob".to_string());
            assert_eq!(*a1, 2 * ONE_NEAR);
        },
        _ => panic!("expected two NEAR payouts"),
    }
    assert!(f.tournament_is_rewarded(tid(), owner(), 1));
    assert_eq!(
        f.tournament_execute_reward(tid(), 1, "carol".to_string(), &owner()).err(),
        Some(TournamentError::AlreadyRewarded)
    );
}

#[test]
fn prize_errors() {
    let mut f = factory_with(2, Some(PRICE), None);
    let bob = "bob".to_string();
    assert_eq!(
        f.tournament_add_prize(tid(), owner(), 1, "P".to_string(), &owner(), ONE_NEAR - 1).err(),
        Some(TournamentError::PrizeTooSmall)
    );
    assert_eq!(
        f.tournament_add_prize(tid(), owner(), 3, "P".to_string(), &owner(), ONE_NEAR).err(),
        Some(TournamentError::InvalidPlace)
    );
    assert_eq!(
        f.tournament_add_prize(tid(), owner(), 0, "P".to_string(), &owner(), ONE_NEAR).err(),
        Some(TournamentError::InvalidPlace)
    );
    assert_eq!(
        f.tournament_add_prize(tid(), owner(), 1, "P".to_string(), &bob, ONE_NEAR).err(),
        Some(TournamentError::NotWhitelisted)
    );
    for i in 0..5 {
        f.tournament_add_prize(tid(), owner(), 1, format!("P{}", i), &owner(), ONE_NEAR).unwrap();
    }
    assert_eq!(
        f.tournament_add_prize(tid(), owner(), 1, "P9".to_string(), &owner(), ONE_NEAR).err(),
        Some(TournamentError::TooManyPrizes)
    );
    let prizes = f.tournament_prizes(tid(), owner()).unwrap();
    assert_eq!(prizes.get(&1).unwrap().len(), 5);
    assert!(prizes.get(&2).is_none());
    assert_eq!(
        f.tournament_add_whitelist_prize_owner(tid(), bob.clone(), &bob).err(),
        Some(TournamentError::NotFound)
    );
}

#[test]
fn prize_is_stored_under_the_tournament_owner() {
    let mut f = factory_with(2, Some(PRICE), None);
    let dan = "dan".to_string();
    f.tournament_add_whitelist_prize_owner(tid(), dan.clone(), &owner()).unwrap();
    assert!(f.tournament_is_whitelist_prize_owner(tid(), owner(), dan.clone()));
    f.tournament_add_prize(tid(), owner(), 2, "P".to_string(), &dan, ONE_NEAR).unwrap();
    let under_owner = tournament_prize_id(&owner(), &tid(), &2, &"P".to_string());
    let under_giver = tournament_prize_id(&dan, &tid(), &2, &"P".to_string());
    assert!(f.prize_by_id.contains_key(&under_owner));
    assert!(!f.prize_by_id.contains_key(&under_giver));
    match f.prize_by_id.get(&under_owner).unwrap() {
        RewardPrize::Near { amount, owner_id } => {
            assert_eq!(*amount, ONE_NEAR);
            assert_eq!(*owner_id, Some(dan.clone()));
        },
        _ => panic!("expected a NEAR prize"),
    }
}

#[test]
fn listings_of_an_unknown_tournament() {
    let f = TournamentFactory::new();
    assert!(f.tournament(tid(), owner()).is_none());
    assert_eq!(f.tournament_players(tid(), owner()).err(), Some(TournamentError::PlayersNotFound));
    assert_eq!(f.tournament_member(tid(), owner(), owner()).err(), Some(TournamentError::PlayersNotFound));
    assert_eq!(f.tournament_nft_access(tid(), owner()).err(), Some(TournamentError::AccessNotFound));
    assert_eq!(f.tournament_free_places(tid(), owner()).err(), Some(TournamentError::NotFound));
    assert_eq!(f.tournament_prizes(tid(), owner()).unwrap().len(), 0);
    assert_eq!(f.tournaments(owner(), None, None).unwrap().len(), 0);
    assert!(f.tournament_whitelist_prize_owners(tid(), owner()).is_empty());
    assert!(!f.tournament_is_rewarded(tid(), owner(), 1));
}

#[test]
fn tournament_pages() {
    let mut f = TournamentFactory::new();
    for t in ["A", "B", "C"] {
        f.tournament_create(t.to_string(), 2, Some(PRICE), t.to_string(), None, None, None, &owner(), CREATE_PRICE, 0)
            .unwrap();
    }
    let page = f.tournaments(owner(), Some(1), Some(10)).unwrap();
    assert_eq!(page.len(), 2);
    assert_eq!(page[0].tournament_id, "B".to_string());
    assert_eq!(f.tournaments(owner(), Some(3), Some(1)).err(), Some(TournamentError::OutOfBounds));
    assert_eq!(f.tournaments(owner(), Some(0), Some(0)).err(), Some(TournamentError::ZeroLimit));
}

#[test]
fn nft_access_admits_a_listed_token_once() {
    let nft = "nft.near".to_string();
    let mut f = factory_with(2, Some(PRICE), Some(nft.clone()));
    f.tournament_add_nft_access(tid(), vec!["t1".to_string(), "t2".to_string()], &owner()).unwrap();
    assert_eq!(
        f.tournament_add_nft_access(tid(), vec!["t3".to_string()], &"bob".to_string()).err(),
        Some(TournamentError::NotFound)
    );
    let bob = "bob".to_string();
    assert_eq!(
        f.internal_use_nft_access(&tid(), &owner(), &"t9".to_string(), &bob, &nft).err(),
        Some(TournamentError::InvalidAccess)
    );
    assert_eq!(
        f.internal_use_nft_access(&tid(), &owner(), &"t1".to_string(), &bob, &"other".to_string()).err(),
        Some(TournamentError::InvalidContract)
    );
    f.internal_use_nft_access(&tid(), &owner(), &"t1".to_string(), &bob, &nft).unwrap();
    assert!(f.tournament_member(tid(), owner(), bob.clone()).unwrap());
    assert_eq!(
        f.internal_use_nft_access(&tid(), &owner(), &"t2".to_string(), &bob, &nft).err(),
        Some(TournamentError::AlreadyJoined)
    );
    let mut no_access = factory_with(2, Some(PRICE), None);
    assert_eq!(
        no_access.tournament_add_nft_access(tid(), vec!["t1".to_string()], &owner()).err(),
        Some(TournamentError::NftAccessUnavailable)
    );
    assert_eq!(
        no_access.internal_use_nft_access(&tid(), &owner(), &"t1".to_string(), &bob, &nft).err(),
        Some(TournamentError::NftAccessUnavailable)
    );
}

#[test]
fn receivers_record_prizes_and_entries() {
    let nft = "nft.near".to_string();
    let mut f = factory_with(2, Some(PRICE), Some(nft.clone()));
    let args = TournamentOnFtTransferArgs {
        tournament_id: tid(),
        owner_id: owner(),
        place: Some(1),
        prize_id: Some("F".to_string()),
    };
    assert_eq!(f.internal_on_ft_transfer(&args, &"usdc".to_string(), &500, &owner()).unwrap(), 0);
    let prizes = f.tournament_prizes(tid(), owner()).unwrap();
    match &prizes.get(&1).unwrap()[0] {
        RewardPrize::Ft { ft_contract_id, amount, .. } => {
            assert_eq!(*ft_contract_id, "usdc".to_string());
            assert_eq!(*amount, 500);
        },
        _ => panic!("expected a token prize"),
    }
    let no_place = TournamentOnFtTransferArgs { tournament_id: tid(), owner_id: owner(), place: None, prize_id: None };
    assert_eq!(
        f.internal_on_ft_transfer(&no_place, &"usdc".to_string(), &500, &owner()).err(),
        Some(TournamentError::NotHandled)
    );

    let nft_prize = TournamentOnNftTransferArgs {
        tournament_id: tid(),
        owner_id: owner(),
        place: Some(2),
        prize_id: Some("N".to_string()),
    };
    let giver = "zed".to_string();
    assert_eq!(f.internal_on_nft_transfer(&nft_prize, &nft, &"sword".to_string(), &giver).unwrap(), false);
    match &f.tournament_prizes(tid(), owner()).unwrap().get(&2).unwrap()[0] {
        RewardPrize::Nft { token_id, owner_id, .. } => {
            assert_eq!(*token_id, "sword".to_string());
            assert_eq!(*owner_id, Some(giver.clone()));
        },
        _ => panic!("expected an NFT prize"),
    }

    f.tournament_add_nft_access(tid(), vec!["pass".to_string()], &owner()).unwrap();
    let entry = TournamentOnNftTransferArgs { tournament_id: tid(), owner_id: owner(), place: None, prize_id: None };
    assert_eq!(f.internal_on_nft_transfer(&entry, &nft, &"pass".to_string(), &"bob".to_string()).unwrap(), false);
    assert!(f.tournament_member(tid(), owner(), "bob".to_string()).unwrap());
}
