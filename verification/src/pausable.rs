//! Pause guard: a switch that stops transfers while it is on.

use crate::error::Error;
use crate::events::{Paused, Unpaused};
use crate::ids::AccountId;
use vstd::prelude::*;

verus! {

/// The answer to "may transfers run?" when the switch is `paused`.
pub open spec fn pause_check(paused: bool) -> Result<(), Error> {
    if paused {
        Err(Error::ContractPaused)
    } else {
        Ok(())
    }
}

/// Holds the pause switch.  It knows nothing of ownership: whoever composes
/// it with an owner guard checks the caller first.
pub struct PauseGuard {
    paused: bool,
}

impl View for PauseGuard {
    type V = bool;

    closed spec fn view(&self) -> bool {
        self.paused
    }
}

impl PauseGuard {
    /// A guard that is not paused.
    pub fn new() -> (guard: PauseGuard)
        ensures
            !guard@,
    {
        PauseGuard { paused: false }
    }

    /// Whether the switch is on.
    pub fn paused(&self) -> (paused: bool)
        ensures
            paused == self@,
    {
        self.paused
    }

    /// Fails with `ContractPaused` exactly when the switch is on.
    pub fn ensure_not_paused(&self) -> (outcome: Result<(), Error>)
        ensures
            outcome == pause_check(self@),
    {
        if self.paused {
            Err(Error::ContractPaused)
        } else {
            Ok(())
        }
    }

    /// Turns the switch on for `caller`; fails with `AlreadyPaused` if it is
    /// on already.
    pub fn pause(&mut self, caller: AccountId) -> (outcome: Result<Paused, Error>)
        ensures
            final(self)@,
            match outcome {
                Ok(event) => !old(self)@ && event == (Paused { account: caller }),
                Err(error) => old(self)@ && error == Error::AlreadyPaused,
            },
    {
        if self.paused {
            Err(Error::AlreadyPaused)
        } else {
            self.paused = true;
            Ok(Paused { account: caller })
        }
    }

    /// Turns the switch off for `caller`; fails with `NotPaused` if it is
    /// off already.
    pub fn unpause(&mut self, caller: AccountId) -> (outcome: Result<Unpaused, Error>)
        ensures
            !final(self)@,
            match outcome {
                Ok(event) => old(self)@ && event == (Unpaused { account: caller }),
                Err(error) => !old(self)@ && error == Error::NotPaused,
            },
    {
        if self.paused {
            self.paused = false;
            Ok(Unpaused { account: caller })
        } else {
            Err(Error::NotPaused)
        }
    }
}

} // verus!
