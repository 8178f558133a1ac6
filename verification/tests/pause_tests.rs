use mfight_sdk::pause::{ContractPause, PauseFeature, PauseError};

#[test]
fn pause_starts_off_and_reads_back() {
    let mut p = PauseFeature::new();
    assert!(!p.is_paused());
    assert_eq!(p.assert_not_pause(), Ok(()));
    assert!(p.set_is_paused(true));
    assert!(p.is_paused());
    assert_eq!(p.assert_not_pause(), Err(PauseError::ContractPaused));
    assert_eq!(PauseError::ContractPaused.message(), "Contract paused");
    assert!(!p.set_is_paused(false));
    assert!(!p.is_paused());
}
