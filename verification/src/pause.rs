//! A switch that stops a contract's state-changing methods.
use vstd::prelude::*;

verus! {

/// The interface a contract exposes for its pause switch.
pub trait ContractPause {
    spec fn paused_state(&self) -> bool;

    fn is_paused(&self) -> (r: bool)
        ensures
            r == self.paused_state(),
    ;

    fn set_is_paused(&mut self, pause: bool) -> (r: bool)
        ensures
            r == pause,
            final(self).paused_state() == pause,
    ;
}

pub struct PauseFeature {
    paused: bool,
}

/// Why a paused contract refused a call.
#[derive(PartialEq, Eq, Structural, Debug, Clone, Copy)]
pub enum PauseError {
    ContractPaused,
}

impl PauseError {
    pub fn message(&self) -> (s: &'static str)
        ensures
            s@ == (match self {
                PauseError::ContractPaused => "Contract paused"@,
            }),
    {
        match self {
            PauseError::ContractPaused => "Contract paused",
        }
    }
}

impl PauseFeature {
    pub closed spec fn is_paused_spec(&self) -> bool {
        self.paused
    }

    /// A switch that starts out not paused.
    pub fn new() -> (r: Self)
        ensures
            !r.is_paused_spec(),
    {
        PauseFeature { paused: false }
    }

    pub fn internal_set_pause(&mut self, pause: &bool) -> (r: bool)
        ensures
            r == *pause,
            final(self).is_paused_spec() == *pause,
    {
        self.paused = *pause;
        self.paused
    }

    /// Refuses when the switch is on.
    pub fn assert_not_pause(&self) -> (r: Result<(), PauseError>)
        ensures
            r is Ok <==> !self.is_paused_spec(),
            r is Err ==> r == Err::<(), PauseError>(PauseError::ContractPaused),
    {
        if self.paused {
            Err(PauseError::ContractPaused)
        } else {
            Ok(())
        }
    }
}

impl ContractPause for PauseFeature {
    open spec fn paused_state(&self) -> bool {
        self.is_paused_spec()
    }

    fn is_paused(&self) -> (r: bool) {
        self.paused
    }

    fn set_is_paused(&mut self, pause: bool) -> (r: bool) {
        self.internal_set_pause(&pause)
    }
}

} // verus!
