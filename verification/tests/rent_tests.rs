use mfight_sdk::collections::AssocMap;
use mfight_sdk::rent::base::RentFeature;
use mfight_sdk::rent::meta::SaleConditions;
use mfight_sdk::utils::contract_token_id;

const PRICE_PER_HOUR: u128 = 10_000_000_000_000_000_000_000;
const MIN_TIME: u64 = 3700000000000;
const MAX_TIME: u64 = 8540000000000000;
/// The block time the scenarios run at.
const NOW: u64 = 0;

fn account(i: usize) -> String {
    ["alice", "bob", "charlie", "danny", "eugene", "fargo"][i].to_string()
}

fn get_instance() -> RentFeature {
    RentFeature::new(true)
}

fn conditions(ft: &str, price: u128) -> SaleConditions {
    let mut c = AssocMap::new();
    c.insert(ft.to_string(), price);
    c
}

fn same_conditions(a: &SaleConditions, b: &SaleConditions) -> bool {
    if a.len() != b.len() {
        return false;
    }
    for k in a.keys() {
        if a.get(&k) != b.get(&k) {
            return false;
        }
    }
    true
}

fn add_offer(instance: &mut RentFeature, contract: &String, token: &String, owner: &String, c: &SaleConditions) {
    instance.internal_rent_add(contract, token, owner, c, &MIN_TIME, &MAX_TIME, NOW).unwrap();
}

#[test]
fn test_rent_add_internal() {
    let owner_id = account(1);
    let mut instance = get_instance();
    let nft_contract_id = "nft_token_contract".to_string();
    let token_id = "Token1".to_string();
    let sale_conditions = conditions("ft_token", PRICE_PER_HOUR);

    instance
        .internal_rent_add(&nft_contract_id, &token_id, &owner_id, &sale_conditions, &MIN_TIME, &MAX_TIME, NOW)
        .unwrap();

    let id = contract_token_id(&nft_contract_id, &token_id);

    if let Some(owner_by_id) = &instance.approved_owner_by_id {
        if let Some(owner) = owner_by_id.get(&id) {
            assert_eq!(*owner, owner_id);
        }
    }

    assert_eq!(instance.rents_pending.contains(&id), true);

    if let Some(rent) = instance.rents_by_id.get(&id) {
        assert_eq!(rent.owner_id, owner_id);
        assert_eq!(rent.contract_id, nft_contract_id);
        assert_eq!(rent.token_id, token_id);
        assert_eq!(rent.min_time, MIN_TIME);
        assert_eq!(rent.max_time, MAX_TIME);
        assert_eq!(rent.created_at, NOW);
        assert!(same_conditions(&rent.sale_conditions, &sale_conditions));
    }

    if let Some(set) = instance.rents_per_account.get(&owner_id) {
        assert_eq!(set.contains(&id), true);
    }

    if let Some(set) = instance.rent_tokens_by_contract.get(&nft_contract_id) {
        assert_eq!(set.contains(&token_id), true);
    }
}

#[test]
fn test_rent_update() {
    let owner_id = account(1);
    let mut instance = get_instance();
    let nft_contract_id = "nft_token_contract".to_string();
    let token_id = "Token1".to_string();
    let ft_token_id = "ft_token".to_string();
    let sale_conditions = conditions("ft_token", PRICE_PER_HOUR);
    let add_date = NOW;

    add_offer(&mut instance, &nft_contract_id, &token_id, &owner_id, &sale_conditions);

    let ft_token_id_new = "ft_token2".to_string();
    let min_time_new: u64 = MIN_TIME + 1_000_000;
    let max_time_new: u64 = MAX_TIME - 10_000_000;
    let price_per_hour_new: u128 = 1_000_000_000_000_000_000_000;

    instance
        .rent_update(
            nft_contract_id.clone(),
            token_id.clone(),
            &ft_token_id_new,
            price_per_hour_new,
            min_time_new,
            max_time_new,
            &owner_id,
        )
        .unwrap();

    let id = contract_token_id(&nft_contract_id, &token_id);

    assert_eq!(instance.rents_pending.contains(&id), true);

    if let Some(rent) = instance.rents_by_id.get(&id) {
        assert_eq!(rent.owner_id, owner_id);
        assert_eq!(rent.contract_id, nft_contract_id);
        assert_eq!(rent.token_id, token_id);
        assert_eq!(rent.min_time, min_time_new);
        assert_eq!(rent.max_time, max_time_new);
        assert_eq!(rent.created_at, add_date);
        assert_eq!(rent.sale_conditions.get(&ft_token_id), Some(&PRICE_PER_HOUR));
        assert_eq!(rent.sale_conditions.get(&ft_token_id_new), Some(&price_per_hour_new));
    }
}

#[test]
fn test_rent_remove() {
    let owner_id = account(1);
    let mut instance = get_instance();
    let nft_contract_id = "nft_token_contract".to_string();
    let token_id = "Token1".to_string();
    let sale_conditions = conditions("ft_token", PRICE_PER_HOUR);

    add_offer(&mut instance, &nft_contract_id, &token_id, &owner_id, &sale_conditions);

    instance.rent_remove(nft_contract_id.clone(), token_id.clone(), &owner_id).unwrap();

    let id = contract_token_id(&nft_contract_id, &token_id);

    assert_eq!(instance.rents_by_id.contains_key(&id), false);
    assert_eq!(instance.rents_pending.contains(&id), false);

    if let Some(set) = instance.rents_per_account.get(&owner_id) {
        assert_eq!(set.contains(&id), false);
    } else {
        assert_eq!(instance.rents_per_account.contains_key(&owner_id), false);
    }

    if let Some(set) = instance.rent_tokens_by_contract.get(&nft_contract_id) {
        assert_eq!(set.contains(&token_id), false);
    } else {
        assert_eq!(instance.rent_tokens_by_contract.contains_key(&nft_contract_id), false);
    }
}

#[test]
fn test_rent_token_is_locked() {
    let owner_id = account(1);
    let mut instance = get_instance();
    let nft_contract_id = "nft_token_contract".to_string();
    let token_id = "Token1".to_string();
    let sale_conditions = conditions("ft_token", PRICE_PER_HOUR);

    add_offer(&mut instance, &nft_contract_id, &token_id, &owner_id, &sale_conditions);

    let is_locked = instance.rent_token_is_locked(nft_contract_id, token_id);

    assert_eq!(is_locked, false);
}

#[test]
fn test_rent_is_ended_internal() {
    let owner_id = account(1);
    let mut instance = get_instance();
    let nft_contract_id = "nft_token_contract".to_string();
    let token_id = "Token1".to_string();
    let sale_conditions = conditions("ft_token", PRICE_PER_HOUR);

    add_offer(&mut instance, &nft_contract_id, &token_id, &owner_id, &sale_conditions);

    let end_time = NOW + 1_000;
    let id = contract_token_id(&nft_contract_id, &token_id);
    instance.rents_end_by_id.insert(id, end_time);

    let is_ended = instance.rent_is_ended(nft_contract_id, token_id, NOW).unwrap();

    assert_eq!(is_ended, false);
}

#[test]
fn test_rent_total_supply() {
    let owner_id = account(1);
    let mut instance = get_instance();
    let nft_contract_id = "nft_token_contract".to_string();
    let token_id = "Token1".to_string();
    let sale_conditions = conditions("ft_token", PRICE_PER_HOUR);

    add_offer(&mut instance, &nft_contract_id, &token_id, &owner_id, &sale_conditions);

    let supply = instance.rent_total_supply();

    assert_eq!(supply, 1);
}

#[test]
fn test_rent_is_approved() {
    let owner_id = account(1);
    let mut instance = get_instance();
    let nft_contract_id = "nft_token_contract".to_string();
    let token_id = "Token1".to_string();
    let sale_conditions = conditions("ft_token", PRICE_PER_HOUR);

    add_offer(&mut instance, &nft_contract_id, &token_id, &owner_id, &sale_conditions);

    let approved = instance.rent_is_approved(nft_contract_id, token_id, owner_id).unwrap();

    assert_eq!(approved, true);
}

/// Two offers of the same owner on the same contract, as several scenarios
/// set them up.
struct TwoOffers {
    instance: RentFeature,
    owner_id: String,
    nft_contract_id: String,
    token_id: String,
    token_id2: String,
    sale_conditions: SaleConditions,
    sale_conditions2: SaleConditions,
}

fn two_offers() -> TwoOffers {
    let owner_id = account(1);
    let mut instance = get_instance();
    let nft_contract_id = "nft_token_contract".to_string();
    let token_id = "Token1".to_string();
    let sale_conditions = conditions("ft_token", PRICE_PER_HOUR);
    add_offer(&mut instance, &nft_contract_id, &token_id, &owner_id, &sale_conditions);
    let token_id2 = "Token2".to_string();
    let sale_conditions2 = conditions("ft_token2", PRICE_PER_HOUR);
    add_offer(&mut instance, &nft_contract_id, &token_id2, &owner_id, &sale_conditions2);
    TwoOffers { instance, owner_id, nft_contract_id, token_id, token_id2, sale_conditions, sale_conditions2 }
}

#[test]
fn test_enum_rents() {
    let t = two_offers();
    let date1 = NOW;
    let date2 = NOW;

    let json_rent = t.instance.rents(Some(0), Some(5)).unwrap();

    assert_eq!(json_rent[0].token_id, t.token_id);
    assert_eq!(json_rent[0].contract_id, t.nft_contract_id);
    assert_eq!(json_rent[0].owner_id, t.owner_id);
    assert!(same_conditions(&json_rent[0].sale_conditions, &t.sale_conditions));
    assert_eq!(json_rent[0].min_time, MIN_TIME);
    assert_eq!(json_rent[0].max_time, MAX_TIME);
    assert_eq!(json_rent[0].ended_at, None);
    assert_eq!(json_rent[0].renter_id, None);
    assert_eq!(json_rent[0].created_at, date1);

    assert_eq!(json_rent[1].token_id, t.token_id2);
    assert_eq!(json_rent[1].contract_id, t.nft_contract_id);
    assert_eq!(json_rent[1].owner_id, t.owner_id);
    assert!(same_conditions(&json_rent[1].sale_conditions, &t.sale_conditions2));
    assert_eq!(json_rent[1].min_time, MIN_TIME);
    assert_eq!(json_rent[1].max_time, MAX_TIME);
    assert_eq!(json_rent[1].ended_at, None);
    assert_eq!(json_rent[1].renter_id, None);
    assert_eq!(json_rent[1].created_at, date2);
}

#[test]
fn test_enum_rents_for_account() {
    let t = two_offers();
    let date1 = NOW;
    let date2 = NOW;

    let json_rent = t.instance.rents_for_account(t.owner_id.clone(), Some(0), Some(2)).unwrap();

    assert_eq!(json_rent[0].token_id, t.token_id);
    assert_eq!(json_rent[0].contract_id, t.nft_contract_id);
    assert_eq!(json_rent[0].owner_id, t.owner_id);
    assert!(same_conditions(&json_rent[0].sale_conditions, &t.sale_conditions));
    assert_eq!(json_rent[0].min_time, MIN_TIME);
    assert_eq!(json_rent[0].max_time, MAX_TIME);
    assert_eq!(json_rent[0].ended_at, None);
    assert_eq!(json_rent[0].renter_id, None);
    assert_eq!(json_rent[0].created_at, date1);

    assert_eq!(json_rent[1].token_id, t.token_id2);
    assert_eq!(json_rent[1].contract_id, t.nft_contract_id);
    assert_eq!(json_rent[1].owner_id, t.owner_id);
    assert!(same_conditions(&json_rent[1].sale_conditions, &t.sale_conditions2));
    assert_eq!(json_rent[1].min_time, MIN_TIME);
    assert_eq!(json_rent[1].max_time, MAX_TIME);
    assert_eq!(json_rent[1].ended_at, None);
    assert_eq!(json_rent[1].renter_id, None);
    assert_eq!(json_rent[1].created_at, date2);
}

#[test]
fn test_enum_rents_by_ids() {
    let t = two_offers();
    let date1 = NOW;
    let date2 = NOW;
    let id1 = contract_token_id(&t.nft_contract_id, &t.token_id);
    let id2 = contract_token_id(&t.nft_contract_id, &t.token_id2);
    let token_vec = vec![id1, id2];

    let json_rent = t.instance.rents_by_ids(token_vec).unwrap();

    assert_eq!(json_rent[0].token_id, t.token_id);
    assert_eq!(json_rent[0].contract_id, t.nft_contract_id);
    assert_eq!(json_rent[0].owner_id, t.owner_id);
    assert!(same_conditions(&json_rent[0].sale_conditions, &t.sale_conditions));
    assert_eq!(json_rent[0].min_time, MIN_TIME);
    assert_eq!(json_rent[0].max_time, MAX_TIME);
    assert_eq!(json_rent[0].ended_at, None);
    assert_eq!(json_rent[0].renter_id, None);
    assert_eq!(json_rent[0].created_at, date1);

    assert_eq!(json_rent[1].token_id, t.token_id2);
    assert_eq!(json_rent[1].contract_id, t.nft_contract_id);
    assert_eq!(json_rent[1].owner_id, t.owner_id);
    assert!(same_conditions(&json_rent[1].sale_conditions, &t.sale_conditions2));
    assert_eq!(json_rent[1].min_time, MIN_TIME);
    assert_eq!(json_rent[1].max_time, MAX_TIME);
    assert_eq!(json_rent[1].ended_at, None);
    assert_eq!(json_rent[1].renter_id, None);
    assert_eq!(json_rent[1].created_at, date2);
}

#[test]
fn test_enum_rents_supply_for_account() {
    let t = two_offers();

    let supply = t.instance.rents_supply_for_account(t.owner_id.clone());

    assert_eq!(supply, 2);
}

#[test]
fn test_enum_rent() {
    let owner_id = account(1);
    let mut instance = get_instance();
    let nft_contract_id = "nft_token_contract".to_string();
    let token_id = "Token1".to_string();
    let sale_conditions = conditions("ft_token", PRICE_PER_HOUR);
    let date = NOW;

    add_offer(&mut instance, &nft_contract_id, &token_id, &owner_id, &sale_conditions);

    if let Some(json_rent) = instance.rent(nft_contract_id.clone(), token_id.clone()) {
        assert_eq!(json_rent.token_id, token_id);
        assert_eq!(json_rent.contract_id, nft_contract_id);
        assert_eq!(json_rent.owner_id, owner_id);
        assert!(same_conditions(&json_rent.sale_conditions, &sale_conditions));
        assert_eq!(json_rent.min_time, MIN_TIME);
        assert_eq!(json_rent.max_time, MAX_TIME);
        assert_eq!(json_rent.ended_at, None);
        assert_eq!(json_rent.renter_id, None);
        assert_eq!(json_rent.created_at, date);
    }
}

#[test]
fn test_enum_rented_tokens_for_account() {
    let mut t = two_offers();
    let date1 = NOW;
    let date2 = NOW;
    let end_time1 = date1 + 1_000_000;
    let end_time2 = date1 + 1_000_000;
    let receiver_id = account(2);

    let id = contract_token_id(&t.nft_contract_id, &t.token_id);
    t.instance.internal_add_token_to_account(&receiver_id, &t.nft_contract_id, &t.token_id);
    t.instance.rents_end_by_id.insert(id, end_time1);
    let id2 = contract_token_id(&t.nft_contract_id, &t.token_id2);
    t.instance.internal_add_token_to_account(&receiver_id, &t.nft_contract_id, &t.token_id2);
    t.instance.rents_end_by_id.insert(id2, end_time2);

    let json_rent = t.instance.rented_tokens_for_account(receiver_id.clone(), Some(0), Some(5), NOW).unwrap();

    assert_eq!(json_rent[0].token_id, t.token_id);
    assert_eq!(json_rent[0].contract_id, t.nft_contract_id);
    assert_eq!(json_rent[0].owner_id, t.owner_id);
    assert!(same_conditions(&json_rent[0].sale_conditions, &t.sale_conditions));
    assert_eq!(json_rent[0].min_time, MIN_TIME);
    assert_eq!(json_rent[0].max_time, MAX_TIME);
    assert_eq!(json_rent[0].ended_at, Some(end_time1));
    assert_eq!(json_rent[0].renter_id, None);
    assert_eq!(json_rent[0].created_at, date1);

    assert_eq!(json_rent[1].token_id, t.token_id2);
    assert_eq!(json_rent[1].contract_id, t.nft_contract_id);
    assert_eq!(json_rent[1].owner_id, t.owner_id);
    assert!(same_conditions(&json_rent[1].sale_conditions, &t.sale_conditions2));
    assert_eq!(json_rent[1].min_time, MIN_TIME);
    assert_eq!(json_rent[1].max_time, MAX_TIME);
    assert_eq!(json_rent[1].ended_at, Some(end_time2));
    assert_eq!(json_rent[1].renter_id, None);
    assert_eq!(json_rent[1].created_at, date2);
}

#[test]
fn test_enum_rented_tokens_supply_for_account() {
    let mut t = two_offers();
    let end_time = NOW + 1_000_000;
    let receiver_id = account(2);

    let id = contract_token_id(&t.nft_contract_id, &t.token_id);
    t.instance.internal_add_token_to_account(&receiver_id, &t.nft_contract_id, &t.token_id);
    t.instance.rents_end_by_id.insert(id, end_time);
    let id2 = contract_token_id(&t.nft_contract_id, &t.token_id2);
    t.instance.internal_add_token_to_account(&receiver_id, &t.nft_contract_id, &t.token_id2);
    t.instance.rents_end_by_id.insert(id2, end_time);

    let supply = t.instance.rented_tokens_supply_for_account(receiver_id.clone(), NOW).unwrap();

    assert_eq!(supply, 2);
}

#[test]
fn test_enum_rents_by_contract() {
    let t = two_offers();
    let date1 = NOW;
    let date2 = NOW;

    let json_rent = t.instance.rents_by_contract(t.nft_contract_id.clone(), Some(0), Some(5)).unwrap();

    assert_eq!(json_rent[0].token_id, t.token_id);
    assert_eq!(json_rent[0].contract_id, t.nft_contract_id);
    assert_eq!(json_rent[0].owner_id, t.owner_id);
    assert!(same_conditions(&json_rent[0].sale_conditions, &t.sale_conditions));
    assert_eq!(json_rent[0].min_time, MIN_TIME);
    assert_eq!(json_rent[0].max_time, MAX_TIME);
    assert_eq!(json_rent[0].ended_at, None);
    assert_eq!(json_rent[0].renter_id, None);
    assert_eq!(json_rent[0].created_at, date1);

    assert_eq!(json_rent[1].token_id, t.token_id2);
    assert_eq!(json_rent[1].contract_id, t.nft_contract_id);
    assert_eq!(json_rent[1].owner_id, t.owner_id);
    assert!(same_conditions(&json_rent[1].sale_conditions, &t.sale_conditions2));
    assert_eq!(json_rent[1].min_time, MIN_TIME);
    assert_eq!(json_rent[1].max_time, MAX_TIME);
    assert_eq!(json_rent[1].ended_at, None);
    assert_eq!(json_rent[1].renter_id, None);
    assert_eq!(json_rent[1].created_at, date2);
}

#[test]
fn test_enum_rents_supply_by_contract() {
    let t = two_offers();

    let supply = t.instance.rents_supply_by_contract(t.nft_contract_id.clone());

    assert_eq!(supply, 2);
}
