use mfight_sdk::order::sort_strings;
use mfight_sdk::pause::PauseError;
use mfight_sdk::pause::PauseFeature;
use mfight_sdk::reputation::{current_day, ReputationError, ReputationFeature, DAILY_SHARE_CAP, MAX_REPUTATION};
use mfight_sdk::storage::calc::{Storage, StorageCalcError};
use mfight_sdk::storage::storage_impl::{StorageError, StorageFeature};
use mfight_sdk::utils::{assert_at_least_one_yocto, assert_tx_money, join_id, u64_to_decimal, DepositError, PRICE};
use mfight_sdk::whitelist::WhitelistFeature;

fn s(x: &str) -> String {
    x.to_string()
}

#[test]
fn decimal_rendering() {
    assert_eq!(u64_to_decimal(0), s("0"));
    assert_eq!(u64_to_decimal(7), s("7"));
    assert_eq!(u64_to_decimal(1234567), s("1234567"));
    assert_eq!(u64_to_decimal(u64::MAX), s("18446744073709551615"));
    assert_eq!(join_id(&s("a"), &s("")), s("a||"));
}

#[test]
fn deposits() {
    assert!(assert_tx_money(PRICE).is_ok());
    assert_eq!(assert_tx_money(PRICE + 1), Err(DepositError::WrongFee));
    assert_eq!(assert_at_least_one_yocto(0), Err(DepositError::NoYocto));
    assert!(assert_at_least_one_yocto(1).is_ok());
    assert_eq!(DepositError::WrongFee.message(), "Requires attached deposit of 0.01 NEAR");
}

#[test]
fn pause_refuses_while_paused() {
    let mut p = PauseFeature::new();
    assert!(p.assert_not_pause().is_ok());
    assert!(p.internal_set_pause(&true));
    assert_eq!(p.assert_not_pause(), Err(PauseError::ContractPaused));
    assert!(!p.internal_set_pause(&false));
    assert!(p.assert_not_pause().is_ok());
}

#[test]
fn whitelist_keeps_insertion_order_without_repeats() {
    let mut w = WhitelistFeature::new();
    assert!(w.whitelist_add(s("b")));
    assert!(w.whitelist_add(s("a")));
    assert!(!w.whitelist_add(s("b")));
    assert!(w.is_whitelist(s("a")));
    assert!(!w.internal_is_whitelist(&s("c")));
    assert_eq!(w.internal_list(), vec![s("b"), s("a")]);
}

#[test]
fn sorting_orders_by_characters() {
    let v = sort_strings(vec![s("b"), s("ab"), s("a"), s(""), s("B")]);
    assert_eq!(v, vec![s(""), s("B"), s("a"), s("ab"), s("b")]);
}

#[test]
fn storage_deposit_and_withdraw() {
    let mut st = StorageFeature::new(10);
    assert_eq!(st.storage_cost(), 10);
    let bob = s("bob");
    let b = st.storage_deposit(None, 100, &bob).unwrap();
    assert_eq!((b.total, b.available), (100, 100));
    let b = st.storage_deposit(Some(bob.clone()), 50, &s("alice")).unwrap();
    assert_eq!((b.total, b.available), (150, 150));
    st.internal_increase(&bob, 40).unwrap();
    assert_eq!(st.internal_available(&bob), 110);
    assert_eq!(st.internal_increase(&bob, 111), Err(StorageError::StorageTooSmall));
    assert_eq!(st.storage_withdraw(Some(1), 0, &bob).err(), Some(StorageError::RequiresOneYocto));
    assert_eq!(st.storage_withdraw(Some(10), 1, &bob).err(), Some(StorageError::TooLargeAmount));
    let b = st.storage_withdraw(Some(0), 1, &bob).unwrap();
    assert_eq!((b.total, b.available), (150, 110));
    let b = st.storage_withdraw(None, 1, &bob).unwrap();
    assert_eq!((b.total, b.available), (150, 110));
    st.internal_decrease(&bob, 50);
    assert_eq!(st.storage_balance_of(bob.clone()).available, 110);
    st.internal_decrease(&bob, 40);
    assert_eq!(st.storage_balance_of(bob.clone()).available, 150);
    assert_eq!(st.storage_deposit(None, u128::MAX, &bob).err(), Some(StorageError::Overflow));
    st.internal_update_cost_unguarded(3);
    assert_eq!(st.storage_cost(), 3);
}

#[test]
fn storage_measurement_refund() {
    let mut m = Storage::start(1000);
    assert_eq!(m.refund(1100, &5000, 10), Ok(4000));
    assert_eq!((m.prev, m.next, m.diff), (1000, 1100, 100));
    let mut m = Storage::start(1000);
    assert_eq!(m.refund(1100, &999, 10), Err(StorageCalcError::NotEnoughDeposit));
    assert_eq!(m.refund(999, &5000, 10), Err(StorageCalcError::UsageUnderflow));
    let mut m = Storage::start(1000);
    m.end(1200).unwrap();
    assert_eq!(m.diff, 1200);
    m.end(1300).unwrap();
    assert_eq!(m.diff, 100);
}

#[test]
fn reputation_is_capped_and_shared_daily() {
    let mut r = ReputationFeature::new();
    let a = s("alice");
    let b = s("bob");
    assert_eq!(r.internal_add_reputation(&a, &(MAX_REPUTATION - 3)), Ok(MAX_REPUTATION - 3));
    assert_eq!(r.internal_add_reputation(&a, &10), Ok(MAX_REPUTATION));
    assert_eq!(r.internal_add_reputation(&a, &u32::MAX), Err(ReputationError::Overflow));
    assert_eq!(r.reputation(a.clone()), MAX_REPUTATION);
    assert_eq!(r.internal_sub_reputation(&b, &5), 0);
    assert_eq!(r.reputation_shares_left(a.clone(), 3), Ok(DAILY_SHARE_CAP));
    assert_eq!(r.reputation_share(b.clone(), 4, &a, 3), Ok(2));
    assert_eq!(r.reputation(a.clone()), MAX_REPUTATION - 4);
    assert_eq!(r.reputation(b.clone()), 4);
    assert_eq!(r.reputation_share(b.clone(), 3, &a, 3), Err(ReputationError::AllVotesUsed));
    assert_eq!(r.reputation_share(b.clone(), 2, &a, 4), Ok(4));
    assert_eq!(r.reputation_share(a.clone(), 1, &a, 4), Err(ReputationError::SelfSharing));
    assert_eq!(r.reputation_share(a.clone(), 7, &b, 4), Err(ReputationError::NotEnoughReputation));
    assert_eq!(r.reputation_shares_left(b.clone(), 4), Ok(6));
    assert_eq!(r.reputation_shares_left(b.clone(), 9), Ok(6));
    assert_eq!(current_day(86_400_000_000_000 * 3 + 5), 3);
}
