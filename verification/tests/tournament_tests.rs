use mfight_sdk::tournament::base::TournamentFactory;
use mfight_sdk::tournament::metadata::RewardPrize;
use mfight_sdk::tournament::utils::{contract_tournament_id, tournament_place_id, tournament_prize_id};

const PLAYERS_NUMBER: u8 = 4;
const PRICE: u128 = 10_000_000_000_000_000_000_000;
const ATTACHED_SUPPLY: u128 = 100_000_000_000_000_000_000_000;
const ATTACHED_1_NEAR: u128 = 1_000_000_000_000_000_000_000_000;
/// The block time the scenarios run at.
const NOW: u64 = 0;

fn account(i: usize) -> String {
    ["alice", "bob", "charlie", "danny", "eugene", "fargo"][i].to_string()
}

fn get_instance() -> TournamentFactory {
    TournamentFactory::new()
}

/// Creates "Tournament1" as `owner_id`, with the access contract given.
fn create_tournament(instance: &mut TournamentFactory, owner_id: &String, nft_access_contract: Option<String>) {
    instance
        .tournament_create(
            "Tournament1".to_string(),
            PLAYERS_NUMBER,
            Some(PRICE),
            "Tournament_name".to_string(),
            Some("Media".to_string()),
            Some("Summary".to_string()),
            nft_access_contract,
            owner_id,
            ATTACHED_SUPPLY,
            NOW,
        )
        .unwrap();
}

fn join(instance: &mut TournamentFactory, tournament_id: &String, owner_id: &String, player: &String) {
    instance.tournament_join(tournament_id.clone(), owner_id.clone(), player, ATTACHED_SUPPLY).unwrap();
}

#[test]
fn test_tournament_create() {
    let owner_id = account(1);
    let mut instance = get_instance();
    let tournament_id = "Tournament1".to_string();
    let price = Some(PRICE);
    let name = "Tournament_name".to_string();
    let media = Some("Media".to_string());
    let summary = Some("Summary".to_string());
    let nft_access_contract = Some(account(2));

    instance
        .tournament_create(
            tournament_id.clone(),
            PLAYERS_NUMBER,
            price,
            name.clone(),
            media.clone(),
            summary.clone(),
            nft_access_contract.clone(),
            &owner_id,
            ATTACHED_SUPPLY,
            NOW,
        )
        .unwrap();

    let id = contract_tournament_id(&owner_id, &tournament_id);

    if let Some(tournament) = instance.tournaments_by_id.get(&id) {
        assert_eq!(tournament.tournament_id, tournament_id);
        assert_eq!(tournament.owner_id, owner_id);
        assert_eq!(tournament.access_nft_contract, nft_access_contract);
        assert_eq!(tournament.players_number, PLAYERS_NUMBER);
        assert_eq!(tournament.price, price);
        assert_eq!(tournament.started_at, None);
        assert_eq!(tournament.ended_at, None);
        assert_eq!(tournament.created_at, NOW);
    }

    if let Some(tournament_meta) = instance.tournament_metadata_by_id.get(&id) {
        assert_eq!(tournament_meta.name, name);
        assert_eq!(tournament_meta.media, media);
        assert_eq!(tournament_meta.summary, summary);
    }

    if let Some(set) = instance.tournaments_by_owner.get(&owner_id) {
        assert_eq!(set.contains(&tournament_id), true);
    }

    if let Some(list) = instance.whitelist_prize_owners.get(&id) {
        assert_eq!(list.internal_is_whitelist(&owner_id), true);
    }
}

#[test]
fn test_tournament_add_prize_and_whitelist_prize_owner() {
    let owner = account(1);
    let mut instance = get_instance();
    let tournament_id = "Tournament1".to_string();
    create_tournament(&mut instance, &owner, Some(account(2)));

    let place_number: u8 = 1;
    let prize_id = "Prize1".to_string();
    let prize_owner = account(3);

    instance.tournament_add_whitelist_prize_owner(tournament_id.clone(), prize_owner.clone(), &owner).unwrap();

    instance
        .tournament_add_prize(
            tournament_id.clone(),
            owner.clone(),
            place_number,
            prize_id.clone(),
            &prize_owner,
            ATTACHED_1_NEAR,
        )
        .unwrap();

    let id = contract_tournament_id(&owner, &tournament_id);

    if let Some(tree) = instance.prizes_by_tournament.get(&id) {
        if let Some(set) = tree.get(&place_number) {
            assert_eq!(set.contains(&prize_id), true);
        }
    }

    let tournament_prize_id = tournament_prize_id(&prize_owner, &tournament_id, &place_number, &prize_id);

    if let Some(prize) = instance.prize_by_id.get(&tournament_prize_id) {
        if let RewardPrize::Near { amount, owner_id } = prize {
            assert_eq!(*amount, ATTACHED_1_NEAR);
            assert_eq!(*owner_id, Some(prize_owner));
        }
    }
}

#[test]
fn test_tournament_join() {
    let owner_id = account(1);
    let mut instance = get_instance();
    let tournament_id = "Tournament1".to_string();
    create_tournament(&mut instance, &owner_id, Some(account(2)));

    let player_id = account(3);
    join(&mut instance, &tournament_id, &owner_id, &player_id);

    let id = contract_tournament_id(&owner_id, &tournament_id);

    if let Some(set) = instance.players_per_tournament.get(&id) {
        assert_eq!(set.contains(&player_id), true);
    }
}

/// A full tournament of `account(0)`: four players joined.
fn full_tournament(with_prize: bool) -> (TournamentFactory, String, String) {
    let owner_id = account(0);
    let mut instance = get_instance();
    let tournament_id = "Tournament1".to_string();
    create_tournament(&mut instance, &owner_id, Some(account(1)));
    if with_prize {
        instance
            .tournament_add_prize(
                tournament_id.clone(),
                owner_id.clone(),
                1,
                "Prize1".to_string(),
                &owner_id,
                ATTACHED_1_NEAR,
            )
            .unwrap();
    }
    for i in 2..6 {
        join(&mut instance, &tournament_id, &owner_id, &account(i));
    }
    (instance, owner_id, tournament_id)
}

#[test]
fn test_tournament_start() {
    let (mut instance, owner_id, tournament_id) = full_tournament(false);

    instance.tournament_start(tournament_id.clone(), &owner_id, NOW).unwrap();

    let id = contract_tournament_id(&owner_id, &tournament_id);

    if let Some(tournament) = instance.tournaments_by_id.get(&id) {
        assert_eq!(tournament.started_at, Some(NOW));
    }
}

#[test]
fn test_tournament_execute_reward() {
    let (mut instance, owner_id, tournament_id) = full_tournament(true);
    instance.tournament_start(tournament_id.clone(), &owner_id, NOW).unwrap();
    let winner = account(5);
    let winner_place: u8 = 1;

    instance.tournament_execute_reward(tournament_id.clone(), winner_place, winner.clone(), &owner_id).unwrap();

    let tournament_place_id = tournament_place_id(&owner_id, &tournament_id, &winner_place);

    assert_eq!(instance.prizes_per_place_rewarded.contains(&tournament_place_id), true);
}

#[test]
fn test_tournament_end() {
    let (mut instance, owner_id, tournament_id) = full_tournament(false);
    instance.tournament_start(tournament_id.clone(), &owner_id, NOW).unwrap();

    instance.tournament_end(tournament_id.clone(), &owner_id, NOW).unwrap();

    let id = contract_tournament_id(&owner_id, &tournament_id);

    if let Some(tournament) = instance.tournaments_by_id.get(&id) {
        assert_eq!(tournament.ended_at, Some(NOW));
    }
}

#[test]
fn test_enum_tournament() {
    let owner_id = account(1);
    let mut instance = get_instance();
    let tournament_id = "Tournament1".to_string();
    create_tournament(&mut instance, &owner_id, Some(account(2)));

    if let Some(json_tournament) = instance.tournament(tournament_id.clone(), owner_id.clone()) {
        assert_eq!(json_tournament.tournament_id, tournament_id);
        assert_eq!(json_tournament.metadata.name, "Tournament_name".to_string());
        assert_eq!(json_tournament.metadata.media, Some("Media".to_string()));
        assert_eq!(json_tournament.metadata.summary, Some("Summary".to_string()));
        assert_eq!(json_tournament.started_at, None);
        assert_eq!(json_tournament.ended_at, None);
        assert_eq!(json_tournament.created_at, NOW);
        assert_eq!(json_tournament.players_total, PLAYERS_NUMBER);
        assert_eq!(json_tournament.players_current, 0);
        assert_eq!(json_tournament.price, Some(PRICE));
    }
}

#[test]
fn test_enum_tournaments() {
    let owner_id = account(1);
    let mut instance = get_instance();
    let tournament_id = "Tournament1".to_string();
    let price = Some(PRICE);
    create_tournament(&mut instance, &owner_id, Some(account(2)));

    let tournament_id2 = "Tournament2".to_string();
    let name2 = "Tournament_name2".to_string();
    let media2 = Some("Media2".to_string());
    let summary2 = Some("Summary2".to_string());
    instance
        .tournament_create(
            tournament_id2.clone(),
            PLAYERS_NUMBER,
            price,
            name2.clone(),
            media2.clone(),
            summary2.clone(),
            Some(account(3)),
            &owner_id,
            ATTACHED_SUPPLY,
            NOW,
        )
        .unwrap();

    let tournaments = instance.tournaments(owner_id.clone(), Some(0), Some(3)).unwrap();

    let tournament1 = &tournaments[0];
    assert_eq!(tournament1.tournament_id, tournament_id);
    assert_eq!(tournament1.metadata.name, "Tournament_name".to_string());
    assert_eq!(tournament1.metadata.media, Some("Media".to_string()));
    assert_eq!(tournament1.metadata.summary, Some("Summary".to_string()));
    assert_eq!(tournament1.started_at, None);
    assert_eq!(tournament1.ended_at, None);
    assert_eq!(tournament1.created_at, NOW);
    assert_eq!(tournament1.players_total, PLAYERS_NUMBER);
    assert_eq!(tournament1.players_current, 0);
    assert_eq!(tournament1.price, price);

    let tournament2 = &tournaments[1];
    assert_eq!(tournament2.tournament_id, tournament_id2);
    assert_eq!(tournament2.metadata.name, name2);
    assert_eq!(tournament2.metadata.media, media2);
    assert_eq!(tournament2.metadata.summary, summary2);
    assert_eq!(tournament2.started_at, None);
    assert_eq!(tournament2.ended_at, None);
    assert_eq!(tournament2.created_at, NOW);
    assert_eq!(tournament2.players_total, PLAYERS_NUMBER);
    assert_eq!(tournament2.players_current, 0);
    assert_eq!(tournament2.price, price);
}

#[test]
fn test_enum_tournament_players() {
    let owner_id = account(1);
    let mut instance = get_instance();
    let tournament_id = "Tournament1".to_string();
    create_tournament(&mut instance, &owner_id, Some(account(2)));
    let player_id1 = account(3);
    join(&mut instance, &tournament_id, &owner_id, &player_id1);
    let player_id2 = account(4);
    join(&mut instance, &tournament_id, &owner_id, &player_id2);

    let players = instance.tournament_players(tournament_id.clone(), owner_id.clone()).unwrap();

    assert_eq!(players[0], player_id1);
    assert_eq!(players[1], player_id2);
}

#[test]
fn test_enum_tournament_prizes() {
    let owner_id = account(1);
    let mut instance = get_instance();
    let tournament_id = "Tournament1".to_string();
    create_tournament(&mut instance, &owner_id, Some(account(2)));

    let prize_owner = account(3);
    instance.tournament_add_whitelist_prize_owner(tournament_id.clone(), prize_owner.clone(), &owner_id).unwrap();

    let place_number1: u8 = 1;
    let amount1: u128 = ATTACHED_1_NEAR + 1_000_000_000;
    instance
        .tournament_add_prize(
            tournament_id.clone(),
            owner_id.clone(),
            place_number1,
            "Prize1".to_string(),
            &prize_owner,
            amount1,
        )
        .unwrap();

    let place_number2: u8 = 2;
    let amount2: u128 = ATTACHED_1_NEAR + 1_000_000;
    instance
        .tournament_add_prize(
            tournament_id.clone(),
            owner_id.clone(),
            place_number2,
            "Prize2".to_string(),
            &prize_owner,
            amount2,
        )
        .unwrap();

    let place_number3: u8 = 3;
    let amount3: u128 = ATTACHED_1_NEAR + 1_000;
    instance
        .tournament_add_prize(
            tournament_id.clone(),
            owner_id.clone(),
            place_number3,
            "Prize3".to_string(),
            &prize_owner,
            amount3,
        )
        .unwrap();

    let tournament_prizes = instance.tournament_prizes(tournament_id.clone(), owner_id.clone()).unwrap();

    if let Some(prizes) = tournament_prizes.get(&place_number1) {
        if let RewardPrize::Near { amount, owner_id } = &prizes[0] {
            assert_eq!(*amount, amount1);
            assert_eq!(*owner_id, Some(prize_owner.clone()));
        }
    }

    if let Some(prizes) = tournament_prizes.get(&place_number2) {
        if let RewardPrize::Near { amount, owner_id } = &prizes[0] {
            assert_eq!(*amount, amount2);
            assert_eq!(*owner_id, Some(prize_owner.clone()));
        }
    }

    if let Some(prizes) = tournament_prizes.get(&place_number3) {
        if let RewardPrize::Near { amount, owner_id } = &prizes[0] {
            assert_eq!(*amount, amount3);
            assert_eq!(*owner_id, Some(prize_owner.clone()));
        }
    }
}

#[test]
fn test_enum_tournament_free_places() {
    let owner_id = account(1);
    let mut instance = get_instance();
    let tournament_id = "Tournament1".to_string();
    create_tournament(&mut instance, &owner_id, Some(account(2)));
    join(&mut instance, &tournament_id, &owner_id, &account(3));
    join(&mut instance, &tournament_id, &owner_id, &account(4));

    let free_places = instance.tournament_free_places(tournament_id.clone(), owner_id.clone()).unwrap();

    assert_eq!(free_places, Some(2));
}

#[test]
fn test_enum_tournament_member() {
    let owner_id = account(1);
    let mut instance = get_instance();
    let tournament_id = "Tournament1".to_string();
    create_tournament(&mut instance, &owner_id, Some(account(2)));
    let player_id = account(3);
    join(&mut instance, &tournament_id, &owner_id, &player_id);

    let is_member = instance.tournament_member(tournament_id.clone(), owner_id.clone(), player_id.clone()).unwrap();

    assert_eq!(is_member, true);
}

#[test]
fn test_enum_tournament_whitelist_prize_owners() {
    let owner_id = account(1);
    let mut instance = get_instance();
    let tournament_id = "Tournament1".to_string();
    create_tournament(&mut instance, &owner_id, Some(account(2)));

    let prize_owner1 = account(3);
    instance.tournament_add_whitelist_prize_owner(tournament_id.clone(), prize_owner1.clone(), &owner_id).unwrap();
    let prize_owner2 = account(4);
    instance.tournament_add_whitelist_prize_owner(tournament_id.clone(), prize_owner2.clone(), &owner_id).unwrap();

    let prize_owners = instance.tournament_whitelist_prize_owners(tournament_id.clone(), owner_id.clone());

    assert_eq!(prize_owners[0], owner_id);
    assert_eq!(prize_owners[1], prize_owner1);
    assert_eq!(prize_owners[2], prize_owner2);
}

#[test]
fn test_enum_tournament_is_rewarded() {
    let (mut instance, owner_id, tournament_id) = full_tournament(true);
    instance.tournament_start(tournament_id.clone(), &owner_id, NOW).unwrap();
    let winner = account(5);
    let winner_place: u8 = 1;
    instance.tournament_execute_reward(tournament_id.clone(), winner_place, winner.clone(), &owner_id).unwrap();

    let is_rewarded = instance.tournament_is_rewarded(tournament_id.clone(), owner_id.clone(), winner_place);

    assert_eq!(is_rewarded, true);
}

fn tournament_with_access() -> (TournamentFactory, String, String, Vec<String>) {
    let owner_id = account(1);
    let mut instance = get_instance();
    let tournament_id = "Tournament1".to_string();
    create_tournament(&mut instance, &owner_id, Some(account(2)));
    let token_ids = vec!["token_1".to_string(), "token_2".to_string()];
    instance.tournament_add_nft_access(tournament_id.clone(), token_ids.clone(), &owner_id).unwrap();
    (instance, owner_id, tournament_id, token_ids)
}

#[test]
fn test_nft_tournament_add_nft_access() {
    let (instance, owner_id, tournament_id, token_ids) = tournament_with_access();

    let id = contract_tournament_id(&owner_id, &tournament_id);

    if let Some(set) = instance.tournament_access_nft.get(&id) {
        assert_eq!(set.contains(&token_ids[0]), true);
        assert_eq!(set.contains(&token_ids[1]), true);
    }
}

#[test]
fn test_nft_tournament_nft_access() {
    let (instance, owner_id, tournament_id, token_ids) = tournament_with_access();

    let tokens = instance.tournament_nft_access(tournament_id.clone(), owner_id.clone()).unwrap();

    assert_eq!(tokens, token_ids);
}

#[test]
fn test_nft_tournament_assert_nft_access() {
    let (instance, owner_id, tournament_id, token_ids) = tournament_with_access();

    assert!(instance.assert_nft_access(&tournament_id, &owner_id, &token_ids[0]).is_ok());
}

#[test]
fn test_nft_tournament_internal_use_nft_access() {
    let (mut instance, owner_id, tournament_id, token_ids) = tournament_with_access();
    let player_id = account(3);
    let nft_access_contract = Some(account(2));

    instance
        .internal_use_nft_access(&tournament_id, &owner_id, &token_ids[0], &player_id, &nft_access_contract.unwrap())
        .unwrap();

    let id = contract_tournament_id(&owner_id, &tournament_id);

    if let Some(set) = instance.players_per_tournament.get(&id) {
        assert_eq!(set.contains(&player_id), true);
    }
}
