//! Single-owner guard: who may perform owner-only operations.

use crate::error::Error;
use crate::events::OwnershipTransferred;
use crate::ids::AccountId;
use vstd::prelude::*;

verus! {

/// The answer to "is `caller` the owner?" when the owner is `owner`;
/// `None` stands for renounced ownership.
pub open spec fn owner_check(owner: Option<AccountId>, caller: AccountId) -> Result<(), Error> {
    if owner == Some(caller) {
        Ok(())
    } else {
        Err(Error::CallerIsNotOwner)
    }
}

/// The owner after `caller` asked to hand ownership to `new_owner`.
pub open spec fn after_transfer_ownership(
    owner: Option<AccountId>,
    caller: AccountId,
    new_owner: AccountId,
) -> Option<AccountId> {
    if owner == Some(caller) {
        Some(new_owner)
    } else {
        owner
    }
}

/// The owner after `caller` asked to renounce ownership.
pub open spec fn after_renounce_ownership(
    owner: Option<AccountId>,
    caller: AccountId,
) -> Option<AccountId> {
    if owner == Some(caller) {
        None
    } else {
        owner
    }
}

/// Once ownership is renounced it stays renounced: whoever calls, the owner
/// check fails with `CallerIsNotOwner`, and neither a transfer nor another
/// renouncement brings an owner back.
pub proof fn lemma_renounced_is_terminal(caller: AccountId, new_owner: AccountId)
    ensures
        owner_check(None, caller) == Err::<(), Error>(Error::CallerIsNotOwner),
        after_transfer_ownership(None, caller, new_owner) == None::<AccountId>,
        after_renounce_ownership(None, caller) == None::<AccountId>,
{
}

/// A successful renouncement leaves no owner.
pub proof fn lemma_renounce_leaves_no_owner(owner: Option<AccountId>, caller: AccountId)
    requires
        owner_check(owner, caller) is Ok,
    ensures
        after_renounce_ownership(owner, caller) == None::<AccountId>,
{
}

/// Holds the current owner, if any.
pub struct OwnershipGuard {
    owner: Option<AccountId>,
}

impl View for OwnershipGuard {
    type V = Option<AccountId>;

    closed spec fn view(&self) -> Option<AccountId> {
        self.owner
    }
}

impl OwnershipGuard {
    /// A guard owned by `owner`.
    pub fn new(owner: AccountId) -> (guard: OwnershipGuard)
        ensures
            guard@ == Some(owner),
    {
        OwnershipGuard { owner: Some(owner) }
    }

    /// The current owner; `None` once ownership was renounced.
    pub fn owner(&self) -> (owner: Option<AccountId>)
        ensures
            owner == self@,
    {
        self.owner
    }

    /// Succeeds exactly when `caller` is the current owner.
    pub fn ensure_caller_is_owner(&self, caller: &AccountId) -> (outcome: Result<(), Error>)
        ensures
            outcome == owner_check(self@, *caller),
    {
        match self.owner {
            Some(owner) => {
                if owner == *caller {
                    Ok(())
                } else {
                    Err(Error::CallerIsNotOwner)
                }
            },
            None => Err(Error::CallerIsNotOwner),
        }
    }

    /// Hands ownership to `new_owner` if `caller` is the current owner, and
    /// returns the record of the change.
    pub fn transfer_ownership(
        &mut self,
        caller: AccountId,
        new_owner: AccountId,
    ) -> (outcome: Result<OwnershipTransferred, Error>)
        ensures
            final(self)@ == after_transfer_ownership(old(self)@, caller, new_owner),
            match outcome {
                Ok(event) => owner_check(old(self)@, caller) is Ok && event == (
                OwnershipTransferred { previous_owner: Some(caller), new_owner: Some(new_owner) }),
                Err(error) => owner_check(old(self)@, caller) is Err && error
                    == Error::CallerIsNotOwner,
            },
    {
        match self.ensure_caller_is_owner(&caller) {
            Ok(()) => {
                self.owner = Some(new_owner);
                Ok(OwnershipTransferred { previous_owner: Some(caller), new_owner: Some(new_owner) })
            },
            Err(error) => Err(error),
        }
    }

    /// Gives ownership up for good if `caller` is the current owner, and
    /// returns the record of the change.
    pub fn renounce_ownership(
        &mut self,
        caller: AccountId,
    ) -> (outcome: Result<OwnershipTransferred, Error>)
        ensures
            final(self)@ == after_renounce_ownership(old(self)@, caller),
            match outcome {
                Ok(event) => owner_check(old(self)@, caller) is Ok && event == (
                OwnershipTransferred { previous_owner: Some(caller), new_owner: None }),
                Err(error) => owner_check(old(self)@, caller) is Err && error
                    == Error::CallerIsNotOwner,
            },
    {
        match self.ensure_caller_is_owner(&caller) {
            Ok(()) => {
                self.owner = None;
                Ok(OwnershipTransferred { previous_owner: Some(caller), new_owner: None })
            },
            Err(error) => Err(error),
        }
    }
}

} // verus!
