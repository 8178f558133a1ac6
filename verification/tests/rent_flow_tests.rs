use mfight_sdk::collections::AssocMap;
use mfight_sdk::rent::base::{time_get_minutes, RentFeature, RENT_TIME_MIN};
use mfight_sdk::rent::meta::{Payout, RentError, RentOnFtTransferArgs, RentOnNftApproveArgs, SaleConditions};
use mfight_sdk::utils::contract_token_id;

const PRICE_PER_HOUR: u128 = 10_000_000_000_000_000_000_000;
const HOUR: u64 = 3_600_000_000_000;
const MIN_TIME: u64 = HOUR;
const MAX_TIME: u64 = 10 * HOUR;
const START: u64 = 1_000;

fn owner() -> String {
    "bob".to_string()
}

fn renter() -> String {
    "charlie".to_string()
}

fn contract() -> String {
    "nft_token_contract".to_string()
}

fn token() -> String {
    "Token1".to_string()
}

fn near_conditions() -> SaleConditions {
    let mut c = AssocMap::new();
    c.insert("near".to_string(), PRICE_PER_HOUR);
    c
}

fn market_with_offer() -> RentFeature {
    let mut m = RentFeature::new(true);
    m.internal_rent_add(&contract(), &token(), &owner(), &near_conditions(), &MIN_TIME, &MAX_TIME, START).unwrap();
    m
}

/// Rents the token for two hours to `renter()` at `START` and settles the
/// purchase with the given transfer outcome.
fn pay_two_hours(m: &mut RentFeature, success: bool) -> (u64, u128) {
    let time = 2 * HOUR;
    let price = 2 * PRICE_PER_HOUR;
    let p = m.rent_pay(contract(), token(), time, renter(), &renter(), price, START).unwrap();
    assert_eq!(p.price, price);
    assert_eq!(p.end_time, START + time);
    assert_eq!(p.owner_id, owner());
    let r = m.rent_resolve_pay(
        p.contract_id,
        p.token_id,
        p.buyer_id,
        p.owner_id,
        p.receiver_id,
        p.time,
        p.end_time,
        p.ft_token_id,
        p.price,
        success,
    );
    if success {
        assert_eq!(r.refund, 0);
        match r.payout {
            Some(Payout::Near { receiver_id, amount }) => {
                assert_eq!(receiver_id, owner());
                assert_eq!(amount, price);
            },
            _ => panic!("expected a NEAR payout to the owner"),
        }
    } else {
        assert_eq!(r.refund, price);
        match r.payout {
            Some(Payout::Near { receiver_id, amount }) => {
                assert_eq!(receiver_id, renter());
                assert_eq!(amount, price);
            },
            _ => panic!("expected the NEAR to go back to the buyer"),
        }
    }
    (START + time, price)
}

#[test]
fn minutes_divide_by_sixty_thousand() {
    assert_eq!(time_get_minutes(0), 0);
    assert_eq!(time_get_minutes(59_999), 0);
    assert_eq!(time_get_minutes(60_000), 1);
    assert_eq!(time_get_minutes(HOUR), 60_000_000);
}

#[test]
fn offer_then_withdraw_forgets_it() {
    let mut m = market_with_offer();
    assert_eq!(m.rent_total_supply(), 1);
    m.rent_remove(contract(), token(), &owner()).unwrap();
    assert_eq!(m.rent_total_supply(), 0);
    assert!(m.rent(contract(), token()).is_none());
    assert_eq!(m.rents_supply_for_account(owner()), 0);
    assert_eq!(m.rents_supply_by_contract(contract()), 0);
}

#[test]
fn paid_rent_locks_until_end_then_claim_closes_it() {
    let mut m = market_with_offer();
    let (end, _) = pay_two_hours(&mut m, true);
    assert!(m.rent_token_is_locked(contract(), token()));
    assert_eq!(m.rent_total_supply(), 0);
    assert_eq!(m.rent_is_ended(contract(), token(), end).unwrap(), false);
    assert_eq!(m.rent_claim(contract(), token(), &owner(), end).err(), Some(RentError::NotExpired));
    assert_eq!(m.rented_tokens_supply_for_account(renter(), START).unwrap(), 1);
    let view = m.rent(contract(), token()).unwrap();
    assert_eq!(view.renter_id, Some(renter()));
    assert_eq!(view.ended_at, Some(end));

    let call = m.rent_claim(contract(), token(), &owner(), end + 1).unwrap();
    assert_eq!(call.renter_id, renter());
    assert_eq!(call.owner_id, owner());
    m.rent_resolve_claim(call.contract_id, call.token_id, call.owner_id, call.renter_id, true).unwrap();
    assert!(!m.rent_token_is_locked(contract(), token()));
    assert!(m.rent(contract(), token()).is_none());
    assert!(m.rent_is_ended(contract(), token(), end + 1).is_err());
    assert_eq!(m.rented_tokens_supply_for_account(renter(), START).unwrap(), 0);
}

#[test]
fn failed_transfer_reopens_the_offer() {
    let mut m = market_with_offer();
    pay_two_hours(&mut m, false);
    assert_eq!(m.rent_total_supply(), 1);
    assert!(!m.rent_token_is_locked(contract(), token()));
    let id = contract_token_id(&contract(), &token());
    assert!(m.rents_pending.contains(&id));
}

#[test]
fn purchase_errors() {
    let mut m = market_with_offer();
    let time = 2 * HOUR;
    let price = 2 * PRICE_PER_HOUR;
    assert_eq!(
        m.rent_pay(contract(), "Other".to_string(), time, renter(), &renter(), price, START).err(),
        Some(RentError::NotAvailableForRent)
    );
    assert_eq!(
        m.rent_pay(contract(), token(), time, owner(), &renter(), price, START).err(),
        Some(RentError::OwnerIsReceiver)
    );
    assert_eq!(
        m.rent_pay(contract(), token(), time, renter(), &renter(), price + 1, START).err(),
        Some(RentError::InvalidDeposit)
    );
    assert_eq!(
        m.rent_pay(contract(), token(), 20 * HOUR, renter(), &renter(), 20 * PRICE_PER_HOUR, START).err(),
        Some(RentError::InvalidRentTime)
    );
    assert_eq!(
        m.rent_pay(contract(), token(), time, renter(), &renter(), price, u64::MAX).err(),
        Some(RentError::EndTimeOverflow)
    );
    let args = RentOnFtTransferArgs {
        token_id: token(),
        contract_id: contract(),
        receiver_id: renter(),
        time,
    };
    assert_eq!(
        m.internal_on_ft_transfer(&args, &"usdc".to_string(), &price, &renter(), START).err(),
        Some(RentError::FtNotAvailable)
    );
    assert_eq!(m.rent_total_supply(), 1);
    pay_two_hours(&mut m, true);
    assert_eq!(
        m.rent_pay(contract(), token(), time, renter(), &renter(), price, START).err(),
        Some(RentError::AlreadyInRent)
    );
}

#[test]
fn price_overflow_is_refused() {
    let mut m = RentFeature::new(true);
    let mut c = AssocMap::new();
    c.insert("near".to_string(), u128::MAX);
    m.internal_rent_add(&contract(), &token(), &owner(), &c, &MIN_TIME, &MAX_TIME, START).unwrap();
    assert_eq!(
        m.rent_pay(contract(), token(), 2 * HOUR, renter(), &renter(), 1, START).err(),
        Some(RentError::PriceOverflow)
    );
}

#[test]
fn offer_errors() {
    let mut m = market_with_offer();
    assert_eq!(
        m.internal_rent_add(&contract(), &token(), &owner(), &near_conditions(), &MIN_TIME, &MAX_TIME, START).err(),
        Some(RentError::AlreadyOnMarket)
    );
    let short = RENT_TIME_MIN - 1;
    assert_eq!(
        m.internal_rent_add(&contract(), &"T2".to_string(), &owner(), &near_conditions(), &short, &MAX_TIME, START)
            .err(),
        Some(RentError::TimeTooShort)
    );
    let long = 101 * 24 * HOUR;
    assert_eq!(
        m.internal_rent_add(&contract(), &"T2".to_string(), &owner(), &near_conditions(), &MIN_TIME, &long, START)
            .err(),
        Some(RentError::TimeTooLong)
    );
    let mut untracked = RentFeature::new(false);
    assert_eq!(
        untracked
            .internal_rent_add(&contract(), &token(), &owner(), &near_conditions(), &MIN_TIME, &MAX_TIME, START)
            .err(),
        Some(RentError::ApprovalsDisabled)
    );
    assert_eq!(
        untracked.rent_is_approved(contract(), token(), owner()).err(),
        Some(RentError::ApprovalsDisabled)
    );
    assert_eq!(m.rent_remove(contract(), token(), &renter()).err(), Some(RentError::NotApproved));
    assert_eq!(
        m.rent_update(contract(), token(), &"near".to_string(), 1, short, MAX_TIME, &owner()).err(),
        Some(RentError::TimeTooShort)
    );
    pay_two_hours(&mut m, true);
    assert_eq!(m.rent_remove(contract(), token(), &owner()).err(), Some(RentError::AlreadyInRent));
    assert_eq!(m.rent_claim(contract(), token(), &renter(), u64::MAX).err(), Some(RentError::NotAuthorized));
}

#[test]
fn approve_call_puts_token_on_offer() {
    let mut m = RentFeature::new(true);
    let args = RentOnNftApproveArgs { sale_conditions: near_conditions(), min_time: MIN_TIME, max_time: MAX_TIME };
    let r = m.internal_on_nft_approve(&args, &contract(), &token(), &owner(), START).unwrap();
    assert_eq!(r, "true".to_string());
    let view = m.rent(contract(), token()).unwrap();
    assert_eq!(view.created_at, START);
    assert_eq!(view.owner_id, owner());
    assert_eq!(m.rent_is_approved(contract(), token(), owner()).unwrap(), true);
    assert_eq!(m.rent_is_approved(contract(), token(), renter()).unwrap(), false);
}

#[test]
fn ft_payment_pays_owner_in_that_token() {
    let mut m = RentFeature::new(true);
    let mut c = AssocMap::new();
    c.insert("usdc".to_string(), 3_000_000);
    m.internal_rent_add(&contract(), &token(), &owner(), &c, &MIN_TIME, &MAX_TIME, START).unwrap();
    let args = RentOnFtTransferArgs { token_id: token(), contract_id: contract(), receiver_id: renter(), time: HOUR };
    let p = m.internal_on_ft_transfer(&args, &"usdc".to_string(), &3_000_000, &"dave".to_string(), START).unwrap();
    assert_eq!(p.buyer_id, "dave".to_string());
    let r = m.internal_resolve_purchase(
        &p.contract_id,
        &p.token_id,
        &p.buyer_id,
        &p.owner_id,
        &p.receiver_id,
        &p.time,
        &p.end_time,
        &p.ft_token_id,
        &p.price,
        true,
    );
    match r.payout {
        Some(Payout::Ft { ft_contract_id, receiver_id, amount }) => {
            assert_eq!(ft_contract_id, "usdc".to_string());
            assert_eq!(receiver_id, owner());
            assert_eq!(amount, 3_000_000);
        },
        _ => panic!("expected a token payout"),
    }
}

#[test]
fn pages_start_and_stop_within_bounds() {
    let mut m = RentFeature::new(true);
    for t in ["A", "B", "C"] {
        m.internal_rent_add(&contract(), &t.to_string(), &owner(), &near_conditions(), &MIN_TIME, &MAX_TIME, START)
            .unwrap();
    }
    let page = m.rents(Some(1), Some(5)).unwrap();
    assert_eq!(page.len(), 2);
    assert_eq!(page[0].token_id, "B".to_string());
    assert_eq!(page[1].token_id, "C".to_string());
    assert_eq!(m.rents(Some(7), Some(5)).unwrap().len(), 0);
    assert_eq!(m.rents(None, None).unwrap().len(), 0);
    let by_contract = m.rents_by_contract(contract(), Some(0), Some(2)).unwrap();
    assert_eq!(by_contract.len(), 2);
    assert_eq!(by_contract[1].token_id, "B".to_string());
    assert_eq!(m.rents_by_ids(vec!["missing".to_string()]).err(), Some(RentError::MissingRecord));
}
