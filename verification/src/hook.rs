//! The pre-transfer hook: a veto asked before any balance moves.

use crate::error::Error;
use crate::ids::{AccountId, Balance, TokenId};
use crate::pausable::{pause_check, PauseGuard};
use vstd::prelude::*;

verus! {

/// Decides, before any balance changes, whether a mint, burn or transfer may
/// go ahead.  A mint has no source and a burn no destination.
pub trait TransferHook {
    /// What the hook answers to a request.
    spec fn verdict(
        &self,
        operator: AccountId,
        from: Option<AccountId>,
        to: Option<AccountId>,
        ids: Seq<TokenId>,
        amounts: Seq<Balance>,
        data: Seq<u8>,
    ) -> Result<(), Error>;

    /// Answers a request; any error stops the operation before it changes
    /// anything.
    fn before_token_transfer(
        &self,
        operator: &AccountId,
        from: &Option<AccountId>,
        to: &Option<AccountId>,
        ids: &Vec<TokenId>,
        amounts: &Vec<Balance>,
        data: &Vec<u8>,
    ) -> (outcome: Result<(), Error>)
        ensures
            outcome == self.verdict(*operator, *from, *to, ids@, amounts@, data@),
    ;
}

/// The hook that lets everything pass.
pub struct NoHook;

impl TransferHook for NoHook {
    open spec fn verdict(
        &self,
        operator: AccountId,
        from: Option<AccountId>,
        to: Option<AccountId>,
        ids: Seq<TokenId>,
        amounts: Seq<Balance>,
        data: Seq<u8>,
    ) -> Result<(), Error> {
        Ok(())
    }

    fn before_token_transfer(
        &self,
        operator: &AccountId,
        from: &Option<AccountId>,
        to: &Option<AccountId>,
        ids: &Vec<TokenId>,
        amounts: &Vec<Balance>,
        data: &Vec<u8>,
    ) -> (outcome: Result<(), Error>) {
        Ok(())
    }
}

/// A pause guard used as hook stops every request while it is paused.
impl TransferHook for PauseGuard {
    open spec fn verdict(
        &self,
        operator: AccountId,
        from: Option<AccountId>,
        to: Option<AccountId>,
        ids: Seq<TokenId>,
        amounts: Seq<Balance>,
        data: Seq<u8>,
    ) -> Result<(), Error> {
        pause_check(self@)
    }

    fn before_token_transfer(
        &self,
        operator: &AccountId,
        from: &Option<AccountId>,
        to: &Option<AccountId>,
        ids: &Vec<TokenId>,
        amounts: &Vec<Balance>,
        data: &Vec<u8>,
    ) -> (outcome: Result<(), Error>) {
        self.ensure_not_paused()
    }
}

} // verus!
