//! A pausable, owned multi-class token: the transfer engine behind an owner
//! guard and a pause guard.
//!
//! Every operation names its caller.  While the token is paused no balance
//! moves; only the owner pauses and resumes.

use crate::approvals::{may_move, with_approval, Approvals};
use crate::engine::{
    batch_result, burn_result, mint_result, moved, transfer_result, TransferEngine,
};
use crate::error::Error;
use crate::events::{
    ApprovalForAll, OwnershipTransferred, Paused, TransferBatch, TransferSingle, Unpaused,
};
use crate::ids::{AccountId, Balance, TokenId};
use crate::ledger::{credited, debited, no_balances, Balances};
use crate::metadata::MetadataStore;
use crate::ownable::{
    after_renounce_ownership, after_transfer_ownership, owner_check, OwnershipGuard,
};
use crate::pausable::{pause_check, PauseGuard};
use vstd::prelude::*;

verus! {

/// Everything the token holds.
pub struct Erc1155State {
    pub balances: Balances,
    pub approvals: Approvals,
    pub owner: Option<AccountId>,
    pub paused: bool,
    pub url: Seq<char>,
}

/// The outcome of `caller` asking to pause: the owner check comes first.
pub open spec fn pause_result(
    owner: Option<AccountId>,
    paused: bool,
    caller: AccountId,
) -> Result<(), Error> {
    if owner_check(owner, caller) is Err {
        Err(Error::CallerIsNotOwner)
    } else if paused {
        Err(Error::AlreadyPaused)
    } else {
        Ok(())
    }
}

/// The outcome of `caller` asking to resume: the owner check comes first.
pub open spec fn unpause_result(
    owner: Option<AccountId>,
    paused: bool,
    caller: AccountId,
) -> Result<(), Error> {
    if owner_check(owner, caller) is Err {
        Err(Error::CallerIsNotOwner)
    } else if !paused {
        Err(Error::NotPaused)
    } else {
        Ok(())
    }
}

/// Without an owner nobody can pause or resume, whatever the switch says.
pub proof fn lemma_no_owner_no_pause(paused: bool, caller: AccountId)
    ensures
        pause_result(None, paused, caller) == Err::<(), Error>(Error::CallerIsNotOwner),
        unpause_result(None, paused, caller) == Err::<(), Error>(Error::CallerIsNotOwner),
{
}

/// While paused every mint and burn is refused with `ContractPaused`, and
/// so is every transfer that an authorised caller asks for.
pub proof fn lemma_paused_moves_nothing(
    balances: Balances,
    approvals: Approvals,
    caller: AccountId,
    from: AccountId,
    to: AccountId,
    id: TokenId,
    amount: Balance,
)
    ensures
        may_move(approvals, caller, from) ==> transfer_result(
            balances,
            approvals,
            pause_check(true),
            caller,
            from,
            to,
            id,
            amount,
        ) == Err::<(), Error>(Error::ContractPaused),
        mint_result(balances, pause_check(true), to, id, amount) == Err::<(), Error>(
            Error::ContractPaused,
        ),
        burn_result(balances, pause_check(true), from, id, amount) == Err::<(), Error>(
            Error::ContractPaused,
        ),
{
}

/// The token: balances, approvals, URI, owner and pause switch.
pub struct Erc1155 {
    erc1155: TransferEngine,
    metadata: MetadataStore,
    ownable: OwnershipGuard,
    pausable: PauseGuard,
}

impl View for Erc1155 {
    type V = Erc1155State;

    closed spec fn view(&self) -> Erc1155State {
        Erc1155State {
            balances: self.erc1155@.balances,
            approvals: self.erc1155@.approvals,
            owner: self.ownable@,
            paused: self.pausable@,
            url: self.metadata@,
        }
    }
}

impl Erc1155 {
    /// A token owned by `owner`, not paused, with no balances and no
    /// approvals, that answers `url` for every class.
    pub fn new(owner: AccountId, url: String) -> (token: Erc1155)
        ensures
            token@ == (Erc1155State {
                balances: no_balances(),
                approvals: Set::<(AccountId, AccountId)>::empty(),
                owner: Some(owner),
                paused: false,
                url: url@,
            }),
    {
        Erc1155 {
            erc1155: TransferEngine::new(),
            metadata: MetadataStore::new(url),
            ownable: OwnershipGuard::new(owner),
            pausable: PauseGuard::new(),
        }
    }

    /// The URI of class `token_id`: the same for all classes.
    pub fn url(&self, token_id: TokenId) -> (url: String)
        ensures
            url@ == self@.url,
    {
        self.metadata.uri(&token_id)
    }

    /// What `owner` holds of class `id`.
    pub fn balance_of(&self, owner: AccountId, id: TokenId) -> (balance: Balance)
        ensures
            balance == self@.balances[(owner, id)],
    {
        self.erc1155.balance_of(&owner, &id)
    }

    /// Looks up `accounts[i]`'s balance of class `ids[i]` for each position
    /// that both inputs have, in order.
    pub fn balance_of_batch(
        &self,
        accounts: Vec<AccountId>,
        ids: Vec<TokenId>,
    ) -> (balances: Vec<Balance>)
        ensures
            balances@.len() == if accounts@.len() <= ids@.len() {
                accounts@.len()
            } else {
                ids@.len()
            },
            forall|i: int|
                0 <= i < balances@.len() ==> #[trigger] balances@[i] == self@.balances[(
                    accounts@[i],
                    ids@[i],
                )],
    {
        self.erc1155.balance_of_batch(&accounts, &ids)
    }

    /// Whether `owner` has approved `operator`.
    pub fn is_approved_for_all(&self, owner: AccountId, operator: AccountId) -> (approved: bool)
        ensures
            approved == self@.approvals.contains((owner, operator)),
    {
        self.erc1155.is_approved_for_all(&owner, &operator)
    }

    /// Sets whether `operator` may move all tokens of `caller`.
    pub fn set_approval_for_all(
        &mut self,
        caller: AccountId,
        operator: AccountId,
        approved: bool,
    ) -> (event: ApprovalForAll)
        ensures
            final(self)@ == (Erc1155State {
                approvals: with_approval(old(self)@.approvals, caller, operator, approved),
                ..old(self)@
            }),
            event == (ApprovalForAll { owner: caller, operator, approved }),
    {
        self.erc1155.set_approval_for_all(caller, operator, approved)
    }

    /// Moves `amount` of class `id` from `from` to `to` for `caller`, or
    /// changes nothing.
    pub fn safe_transfer_from(
        &mut self,
        caller: AccountId,
        from: AccountId,
        to: AccountId,
        id: TokenId,
        amount: Balance,
        data: Vec<u8>,
    ) -> (outcome: Result<TransferSingle, Error>)
        ensures
            match outcome {
                Ok(event) => {
                    &&& transfer_result(
                        old(self)@.balances,
                        old(self)@.approvals,
                        pause_check(old(self)@.paused),
                        caller,
                        from,
                        to,
                        id,
                        amount,
                    ) is Ok
                    &&& final(self)@ == (Erc1155State {
                        balances: moved(old(self)@.balances, from, to, id, amount),
                        ..old(self)@
                    })
                    &&& event == (TransferSingle {
                        operator: caller,
                        from: Some(from),
                        to: Some(to),
                        id,
                        value: amount,
                    })
                },
                Err(error) => {
                    &&& transfer_result(
                        old(self)@.balances,
                        old(self)@.approvals,
                        pause_check(old(self)@.paused),
                        caller,
                        from,
                        to,
                        id,
                        amount,
                    ) == Err::<(), Error>(error)
                    &&& final(self)@ == old(self)@
                },
            },
    {
        self.erc1155.safe_transfer(&self.pausable, caller, from, to, id, amount, data)
    }

    /// Moves `amount[i]` of class `id[i]` from `from` to `to` for `caller`,
    /// leg by leg in the order given, or changes nothing.
    pub fn safe_batch_transfer_from(
        &mut self,
        caller: AccountId,
        from: AccountId,
        to: AccountId,
        id: Vec<TokenId>,
        amount: Vec<Balance>,
        data: Vec<u8>,
    ) -> (outcome: Result<TransferBatch, Error>)
        ensures
            match outcome {
                Ok(event) => {
                    &&& batch_result(
                        old(self)@.balances,
                        old(self)@.approvals,
                        pause_check(old(self)@.paused),
                        caller,
                        from,
                        to,
                        id@,
                        amount@,
                    ) == Ok::<Balances, Error>(final(self)@.balances)
                    &&& final(self)@ == (Erc1155State {
                        balances: final(self)@.balances,
                        ..old(self)@
                    })
                    &&& event.operator == caller
                    &&& event.from == Some(from)
                    &&& event.to == Some(to)
                    &&& event.id@ == id@
                    &&& event.value@ == amount@
                },
                Err(error) => {
                    &&& batch_result(
                        old(self)@.balances,
                        old(self)@.approvals,
                        pause_check(old(self)@.paused),
                        caller,
                        from,
                        to,
                        id@,
                        amount@,
                    ) == Err::<Balances, Error>(error)
                    &&& final(self)@ == old(self)@
                },
            },
    {
        self.erc1155.safe_batch_transfer(&self.pausable, caller, from, to, id, amount, data)
    }

    /// Creates `amount` new tokens of class `id` for `to`, whoever asks, or
    /// changes nothing.
    pub fn mint_test(
        &mut self,
        caller: AccountId,
        to: AccountId,
        id: TokenId,
        amount: Balance,
        data: Vec<u8>,
    ) -> (outcome: Result<TransferSingle, Error>)
        ensures
            match outcome {
                Ok(event) => {
                    &&& mint_result(
                        old(self)@.balances,
                        pause_check(old(self)@.paused),
                        to,
                        id,
                        amount,
                    ) is Ok
                    &&& final(self)@ == (Erc1155State {
                        balances: credited(old(self)@.balances, to, id, amount),
                        ..old(self)@
                    })
                    &&& event == (TransferSingle {
                        operator: caller,
                        from: None,
                        to: Some(to),
                        id,
                        value: amount,
                    })
                },
                Err(error) => {
                    &&& mint_result(
                        old(self)@.balances,
                        pause_check(old(self)@.paused),
                        to,
                        id,
                        amount,
                    ) == Err::<(), Error>(error)
                    &&& final(self)@ == old(self)@
                },
            },
    {
        self.erc1155.mint(&self.pausable, caller, to, id, amount, data)
    }

    /// Destroys `amount` tokens of class `id` held by `account`, whoever
    /// asks, or changes nothing.
    pub fn burn_test(
        &mut self,
        caller: AccountId,
        account: AccountId,
        id: TokenId,
        amount: Balance,
    ) -> (outcome: Result<TransferSingle, Error>)
        ensures
            match outcome {
                Ok(event) => {
                    &&& burn_result(
                        old(self)@.balances,
                        pause_check(old(self)@.paused),
                        account,
                        id,
                        amount,
                    ) is Ok
                    &&& final(self)@ == (Erc1155State {
                        balances: debited(old(self)@.balances, account, id, amount),
                        ..old(self)@
                    })
                    &&& event == (TransferSingle {
                        operator: caller,
                        from: Some(account),
                        to: None,
                        id,
                        value: amount,
                    })
                },
                Err(error) => {
                    &&& burn_result(
                        old(self)@.balances,
                        pause_check(old(self)@.paused),
                        account,
                        id,
                        amount,
                    ) == Err::<(), Error>(error)
                    &&& final(self)@ == old(self)@
                },
            },
    {
        self.erc1155.burn(&self.pausable, caller, account, id, amount)
    }

    /// The current owner; `None` once ownership was renounced.
    pub fn get_ownership(&self) -> (owner: Option<AccountId>)
        ensures
            owner == self@.owner,
    {
        self.ownable.owner()
    }

    /// Gives ownership up for good if `caller` is the owner.
    pub fn renounce_ownership(
        &mut self,
        caller: AccountId,
    ) -> (outcome: Result<OwnershipTransferred, Error>)
        ensures
            final(self)@ == (Erc1155State {
                owner: after_renounce_ownership(old(self)@.owner, caller),
                ..old(self)@
            }),
            match outcome {
                Ok(event) => owner_check(old(self)@.owner, caller) is Ok && event == (
                OwnershipTransferred { previous_owner: Some(caller), new_owner: None }),
                Err(error) => owner_check(old(self)@.owner, caller) is Err && error
                    == Error::CallerIsNotOwner,
            },
    {
        self.ownable.renounce_ownership(caller)
    }

    /// Hands ownership to `new_owner` if `caller` is the owner.
    pub fn transfer_ownership(
        &mut self,
        caller: AccountId,
        new_owner: AccountId,
    ) -> (outcome: Result<OwnershipTransferred, Error>)
        ensures
            final(self)@ == (Erc1155State {
                owner: after_transfer_ownership(old(self)@.owner, caller, new_owner),
                ..old(self)@
            }),
            match outcome {
                Ok(event) => owner_check(old(self)@.owner, caller) is Ok && event == (
                OwnershipTransferred { previous_owner: Some(caller), new_owner: Some(new_owner) }),
                Err(error) => owner_check(old(self)@.owner, caller) is Err && error
                    == Error::CallerIsNotOwner,
            },
    {
        self.ownable.transfer_ownership(caller, new_owner)
    }

    /// Whether the token is paused.
    pub fn paused(&self) -> (paused: bool)
        ensures
            paused == self@.paused,
    {
        self.pausable.paused()
    }

    /// Pauses the token if `caller` is the owner and it is not paused.
    pub fn pause(&mut self, caller: AccountId) -> (outcome: Result<Paused, Error>)
        ensures
            match outcome {
                Ok(event) => {
                    &&& pause_result(old(self)@.owner, old(self)@.paused, caller) is Ok
                    &&& final(self)@ == (Erc1155State { paused: true, ..old(self)@ })
                    &&& event == (Paused { account: caller })
                },
                Err(error) => {
                    &&& pause_result(old(self)@.owner, old(self)@.paused, caller) == Err::<
                        (),
                        Error,
                    >(error)
                    &&& final(self)@ == old(self)@
                },
            },
    {
        match self.ownable.ensure_caller_is_owner(&caller) {
            Err(error) => {
                return Err(error);
            },
            Ok(()) => {},
        }
        self.pausable.pause(caller)
    }

    /// Resumes the token if `caller` is the owner and it is paused.
    pub fn unpause(&mut self, caller: AccountId) -> (outcome: Result<Unpaused, Error>)
        ensures
            match outcome {
                Ok(event) => {
                    &&& unpause_result(old(self)@.owner, old(self)@.paused, caller) is Ok
                    &&& final(self)@ == (Erc1155State { paused: false, ..old(self)@ })
                    &&& event == (Unpaused { account: caller })
                },
                Err(error) => {
                    &&& unpause_result(old(self)@.owner, old(self)@.paused, caller) == Err::<
                        (),
                        Error,
                    >(error)
                    &&& final(self)@ == old(self)@
                },
            },
    {
        match self.ownable.ensure_caller_is_owner(&caller) {
            Err(error) => {
                return Err(error);
            },
            Ok(()) => {},
        }
        self.pausable.unpause(caller)
    }
}

} // verus!
