use mfight_sdk::referral::base::ReferralFeature;
use mfight_sdk::referral::metadata::{ReferralError, ReferralProgramMetadata};
use mfight_sdk::referral::utils::{contract_account_id, get_program_id, PRICE_PER_PROGRAM, PRICE_PER_REFERRAL};

fn game() -> String {
    "game.near".to_string()
}

fn influencer() -> String {
    "inf.near".to_string()
}

fn registry_with_program(now: u64) -> ReferralFeature {
    let mut r = ReferralFeature::new();
    let meta = ReferralProgramMetadata {
        title: Some("Title".to_string()),
        media: None,
        description: None,
        url: Some("https://x".to_string()),
    };
    r.referral_create_program(influencer(), "p1".to_string(), Some(5), Some(meta), &game(), PRICE_PER_PROGRAM, now)
        .unwrap();
    r
}

#[test]
fn program_ids_join_their_parts() {
    assert_eq!(get_program_id(&game(), &influencer(), &"p1".to_string()), "game.near||inf.near||p1".to_string());
    assert_eq!(contract_account_id(&game(), &"bob".to_string()), "game.near||bob".to_string());
}

#[test]
fn program_code_is_the_creation_time_and_stands_for_it() {
    let r = registry_with_program(1_700_000_000);
    let code = r.referral_program_code(game(), influencer(), "p1".to_string()).unwrap();
    assert_eq!(code, "1700000000".to_string());
    let info = r.referral_code_info(code.clone()).unwrap();
    assert_eq!(info.contract_id, game());
    assert_eq!(info.influencer_id, influencer());
    assert_eq!(info.program_id, "p1".to_string());
    let p = r.referral_program(game(), influencer(), "p1".to_string()).unwrap();
    assert_eq!(p.code, code);
    assert_eq!(p.metadata.unwrap().title, Some("Title".to_string()));
    assert_eq!(r.referral_program_royalty(game(), influencer(), "p1".to_string()), Some(5));
    assert!(r.referral_program(game(), influencer(), "p2".to_string()).is_none());
    assert_eq!(r.internal_get_info_by_code("42".to_string()).err(), Some(ReferralError::InfoNotFound));
}

#[test]
fn program_create_errors() {
    let mut r = registry_with_program(10);
    assert_eq!(
        r.referral_create_program(influencer(), "p2".to_string(), None, None, &game(), PRICE_PER_PROGRAM - 1, 11)
            .err(),
        Some(ReferralError::ProgramDepositTooSmall)
    );
    assert_eq!(
        r.referral_create_program(influencer(), "p1".to_string(), None, None, &game(), PRICE_PER_PROGRAM, 11).err(),
        Some(ReferralError::ProgramExists)
    );
    assert_eq!(
        r.referral_create_program(influencer(), "p2".to_string(), None, None, &game(), PRICE_PER_PROGRAM, 10).err(),
        Some(ReferralError::CodeUsed)
    );
}

#[test]
fn joining_once_per_contract() {
    let mut r = registry_with_program(10);
    let bob = "bob".to_string();
    assert_eq!(
        r.referral_accept(game(), influencer(), "p1".to_string(), &bob, PRICE_PER_REFERRAL - 1).err(),
        Some(ReferralError::ReferralDepositTooSmall)
    );
    let call = r.referral_accept_code("10".to_string(), &bob, PRICE_PER_REFERRAL).unwrap();
    assert_eq!(call.account_id, bob);
    assert_eq!(call.program_id, "p1".to_string());
    assert_eq!(
        r.referral_accept(game(), influencer(), "p1".to_string(), &bob, PRICE_PER_REFERRAL).err(),
        Some(ReferralError::ReferralExists)
    );
    assert_eq!(r.referral_accept_code("99".to_string(), &bob, PRICE_PER_REFERRAL).err(), Some(ReferralError::ProgramNotFound));
    assert_eq!(r.referral_by(game(), bob.clone()), Some(influencer()));
    assert_eq!(r.referrals_by_contract(game()), vec![bob.clone()]);
    assert_eq!(r.referrals_supply_by_contract(game()), 1);
    assert_eq!(r.referrals_by_program(game(), influencer(), "p1".to_string()), vec![bob.clone()]);
    assert_eq!(r.referrals_supply_by_program(game(), influencer(), "p1".to_string()), 1);
    assert_eq!(r.referrals_by_influencer(influencer()), vec![bob.clone()]);
    assert_eq!(r.referrals_supply_by_influencer(influencer()), 1);
    assert_eq!(r.referrals_supply_by_influencer(game()), 0);
}

#[test]
fn failed_notification_records_the_referral_again() {
    let mut r = registry_with_program(10);
    let carol = "carol".to_string();
    assert!(r.resolve_on_referral_create(game(), influencer(), "p1".to_string(), carol.clone(), true));
    assert_eq!(r.referral_by(game(), carol.clone()), None);
    assert!(!r.resolve_on_referral_create(game(), influencer(), "p1".to_string(), carol.clone(), false));
    assert_eq!(r.referral_by(game(), carol.clone()), Some(influencer()));
}

#[test]
fn remove_undoes_add() {
    let mut r = registry_with_program(10);
    let dan = "dan".to_string();
    r.internal_add_referral(&game(), &influencer(), &"p1".to_string(), &dan);
    assert_eq!(r.referrals_supply_by_program(game(), influencer(), "p1".to_string()), 1);
    r.internal_remove_referral(&game(), &influencer(), &"p1".to_string(), &dan);
    assert_eq!(r.referral_by(game(), dan.clone()), None);
    assert_eq!(r.referrals_supply_by_program(game(), influencer(), "p1".to_string()), 0);
    assert_eq!(r.referrals_supply_by_contract(game()), 0);
}

#[test]
fn listings_are_sorted_and_without_repeats() {
    let mut r = ReferralFeature::new();
    let mut now: u64 = 100;
    for (contract, inf, p) in [
        ("zeta.near", "inf.near", "a"),
        ("alpha.near", "inf.near", "b"),
        ("mid.near", "inf.near", "c"),
        ("alpha.near", "inf.near", "d"),
        ("alpha.near", "beta.near", "e"),
    ] {
        r.referral_create_program(inf.to_string(), p.to_string(), None, None, &contract.to_string(), PRICE_PER_PROGRAM, now)
            .unwrap();
        now += 1;
    }
    assert_eq!(
        r.referral_contracts_by_influencer(influencer()),
        vec!["alpha.near".to_string(), "mid.near".to_string(), "zeta.near".to_string()]
    );
    assert_eq!(
        r.referral_influencers_by_contract("alpha.near".to_string()),
        vec!["beta.near".to_string(), "inf.near".to_string()]
    );
    assert_eq!(
        r.referral_programs_by_influencer(influencer(), "alpha.near".to_string()),
        vec!["b".to_string(), "d".to_string()]
    );
    assert_eq!(
        r.referral_programs_by_contract("alpha.near".to_string(), influencer()).unwrap(),
        vec!["b".to_string(), "d".to_string()]
    );
    assert_eq!(
        r.referral_programs_by_contract("none.near".to_string(), influencer()).err(),
        Some(ReferralError::ContractNotFound)
    );
}

#[test]
fn new_program_keeps_earlier_referrals() {
    let mut r = registry_with_program(10);
    let bob = "bob".to_string();
    r.referral_accept(game(), influencer(), "p1".to_string(), &bob, PRICE_PER_REFERRAL).unwrap();
    r.referral_create_program(influencer(), "p2".to_string(), None, None, &game(), PRICE_PER_PROGRAM, 11).unwrap();
    assert_eq!(r.referrals_by_contract(game()), vec![bob.clone()]);
    assert_eq!(r.referrals_by_influencer(influencer()), vec![bob.clone()]);
    assert_eq!(r.referrals_supply_by_program(game(), influencer(), "p2".to_string()), 0);
    assert_eq!(r.referral_by(game(), bob.clone()), Some(influencer()));
}
