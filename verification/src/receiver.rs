//! A receiver of unique tokens: it answers a token contract that asks
//! whether it takes a token, and takes tokens only from contracts that its
//! owner has listed.

use crate::error::Error;
use crate::events::Erc721Received;
use crate::ids::{AccountId, TokenId};
use crate::ownable::{owner_check, OwnershipGuard};
use ink_storage::collections::HashMap as StorageHashMap;
use vstd::prelude::*;

verus! {

/// The token contracts a receiver takes tokens from.  They are the keys of a
/// `HashMap` of `ink_storage::collections`, each the 32 bytes of a contract's
/// account; the values are empty.  The map is made empty and is reached
/// through the five functions below only, so that what it holds depends on
/// nothing but the calls made on it.
#[verifier::external_body]
pub struct AcceptList {
    contracts: StorageHashMap<[u8; 32], ()>,
}

/// The accounts whose bytes are keys of the map in `list`.
pub uninterp spec fn listed(list: AcceptList) -> Set<AccountId>;

impl AcceptList {
    /// Calls `HashMap::new` of `ink_storage::collections`, which makes a map
    /// without entries.
    #[verifier::external_body]
    fn new() -> (list: AcceptList)
        ensures
            listed(list) == Set::<AccountId>::empty(),
    {
        AcceptList { contracts: StorageHashMap::new() }
    }

    /// Calls `HashMap::len` of `ink_storage::collections`, which returns the
    /// number of keys in the map.
    #[verifier::external_body]
    fn len(&self) -> (count: u32)
        ensures
            count == listed(*self).len(),
    {
        self.contracts.len()
    }

    /// Calls `HashMap::contains_key` of `ink_storage::collections`, which
    /// tells whether the map has an entry under the key.
    #[verifier::external_body]
    fn contains_key(&self, contract: &AccountId) -> (present: bool)
        ensures
            present == listed(*self).contains(*contract),
    {
        self.contracts.contains_key(&contract.0)
    }

    /// Calls `HashMap::insert` of `ink_storage::collections`, which puts the
    /// key into the map if it is not there and returns the value that was
    /// under it, if any.  The map counts its keys in a `u32`, so a new key
    /// needs room in that count.
    #[verifier::external_body]
    fn insert(&mut self, contract: AccountId) -> (previous: Option<()>)
        requires
            listed(*old(self)).contains(contract) || listed(*old(self)).len() < u32::MAX,
        ensures
            listed(*final(self)) == listed(*old(self)).insert(contract),
            previous is Some <==> listed(*old(self)).contains(contract),
    {
        self.contracts.insert(contract.0, ())
    }

    /// Calls `HashMap::take` of `ink_storage::collections`, which removes the
    /// key from the map and returns the value that was under it, if any.
    #[verifier::external_body]
    fn take(&mut self, contract: &AccountId) -> (removed: Option<()>)
        ensures
            listed(*final(self)) == listed(*old(self)).remove(*contract),
            removed is Some <==> listed(*old(self)).contains(*contract),
    {
        self.contracts.take(&contract.0)
    }
}

/// Everything the receiver holds.
pub struct ReceiverState {
    pub owner: Option<AccountId>,
    pub is_receive: bool,
    pub accepted: Set<AccountId>,
}

/// The four bytes that tell a token contract that its token was taken.
pub open spec fn taken_answer() -> Seq<u8> {
    seq![90u8, 119u8, 73u8, 174u8]
}

/// The four bytes that tell a token contract that its token was not taken.
pub open spec fn refused_answer() -> Seq<u8> {
    seq![0u8, 0u8, 0u8, 0u8]
}

/// The receiver: an owner, a switch that opens it for tokens, and the list
/// of token contracts it takes tokens from.
pub struct Erc721Receiver {
    ownable: OwnershipGuard,
    is_receive: bool,
    erc721_receive: AcceptList,
}

impl View for Erc721Receiver {
    type V = ReceiverState;

    closed spec fn view(&self) -> ReceiverState {
        ReceiverState {
            owner: self.ownable@,
            is_receive: self.is_receive,
            accepted: listed(self.erc721_receive),
        }
    }
}

impl Erc721Receiver {
    /// A receiver owned by `owner`, closed for tokens, with an empty list.
    pub fn new(owner: AccountId) -> (receiver: Erc721Receiver)
        ensures
            receiver@ == (ReceiverState {
                owner: Some(owner),
                is_receive: false,
                accepted: Set::<AccountId>::empty(),
            }),
    {
        Erc721Receiver::default(owner)
    }

    /// A receiver owned by `owner`, closed for tokens, with an empty list.
    pub fn default(owner: AccountId) -> (receiver: Erc721Receiver)
        ensures
            receiver@ == (ReceiverState {
                owner: Some(owner),
                is_receive: false,
                accepted: Set::<AccountId>::empty(),
            }),
    {
        Erc721Receiver {
            ownable: OwnershipGuard::new(owner),
            is_receive: false,
            erc721_receive: AcceptList::new(),
        }
    }

    /// Whether the receiver is open for tokens.
    pub fn is_receive(&self) -> (open: bool)
        ensures
            open == self@.is_receive,
    {
        self.is_receive
    }

    /// Whether tokens of `contract` are taken.
    pub fn is_accepted(&self, contract: &AccountId) -> (accepted: bool)
        ensures
            accepted == self@.accepted.contains(*contract),
    {
        self.erc721_receive.contains_key(contract)
    }

    /// Opens or closes the receiver for tokens, if `caller` is the owner.
    pub fn set_receive_status(
        &mut self,
        caller: AccountId,
        is_receive: bool,
    ) -> (outcome: Result<(), Error>)
        ensures
            outcome == owner_check(old(self)@.owner, caller),
            outcome is Ok ==> final(self)@ == (ReceiverState { is_receive, ..old(self)@ }),
            outcome is Err ==> final(self)@ == old(self)@,
    {
        match self.ownable.ensure_caller_is_owner(&caller) {
            Err(error) => Err(error),
            Ok(()) => {
                self.is_receive = is_receive;
                Ok(())
            },
        }
    }

    /// Puts `contract` on the list, if `caller` is the owner.  The list
    /// counts its entries in a `u32`: a contract that is not yet on it
    /// needs room in that count.
    pub fn add_accept_token(
        &mut self,
        caller: AccountId,
        contract: AccountId,
    ) -> (outcome: Result<(), Error>)
        requires
            old(self)@.accepted.contains(contract) || old(self)@.accepted.len() < u32::MAX,
        ensures
            outcome == owner_check(old(self)@.owner, caller),
            outcome is Ok ==> final(self)@ == (ReceiverState {
                accepted: old(self)@.accepted.insert(contract),
                ..old(self)@
            }),
            outcome is Err ==> final(self)@ == old(self)@,
    {
        match self.ownable.ensure_caller_is_owner(&caller) {
            Err(error) => Err(error),
            Ok(()) => {
                self.erc721_receive.insert(contract);
                Ok(())
            },
        }
    }

    /// Puts `contract` on the list as `add_accept_token` does, after making
    /// sure that the list has room for it.  Returns `None`, and changes
    /// nothing, where it has not.
    pub fn try_add_accept_token(
        &mut self,
        caller: AccountId,
        contract: AccountId,
    ) -> (outcome: Option<Result<(), Error>>)
        ensures
            outcome is Some <==> old(self)@.accepted.contains(contract)
                || old(self)@.accepted.len() < u32::MAX,
            outcome is None ==> final(self)@ == old(self)@,
            outcome matches Some(answer) ==> {
                &&& answer == owner_check(old(self)@.owner, caller)
                &&& answer is Ok ==> final(self)@ == (ReceiverState {
                    accepted: old(self)@.accepted.insert(contract),
                    ..old(self)@
                })
                &&& answer is Err ==> final(self)@ == old(self)@
            },
    {
        if self.erc721_receive.contains_key(&contract) || self.erc721_receive.len() < u32::MAX {
            Some(self.add_accept_token(caller, contract))
        } else {
            None
        }
    }

    /// Takes `contract` off the list, if `caller` is the owner.
    pub fn del_accept_token(
        &mut self,
        caller: AccountId,
        contract: AccountId,
    ) -> (outcome: Result<(), Error>)
        ensures
            outcome == owner_check(old(self)@.owner, caller),
            outcome is Ok ==> final(self)@ == (ReceiverState {
                accepted: old(self)@.accepted.remove(contract),
                ..old(self)@
            }),
            outcome is Err ==> final(self)@ == old(self)@,
    {
        match self.ownable.ensure_caller_is_owner(&caller) {
            Err(error) => Err(error),
            Ok(()) => {
                self.erc721_receive.take(&contract);
                Ok(())
            },
        }
    }

    /// Answers the token contract `caller`, which reports that `operator`
    /// sent token `token_id` of `from` with `data`.  The receiver must be
    /// open.  A listed contract gets the answer for "taken", together with
    /// the record of the receipt; any other gets the answer for "not taken".
    pub fn on_erc721_received(
        &self,
        caller: AccountId,
        operator: AccountId,
        from: AccountId,
        token_id: TokenId,
        data: Vec<u8>,
    ) -> (outcome: ([u8; 4], Option<Erc721Received>))
        requires
            self@.is_receive,
        ensures
            self@.accepted.contains(caller) ==> {
                &&& outcome.0@ == taken_answer()
                &&& outcome.1 matches Some(event)
                &&& event.operator == operator
                &&& event.from == from
                &&& event.token_id == token_id
                &&& event.data@ == data@
            },
            !self@.accepted.contains(caller) ==> {
                &&& outcome.0@ == refused_answer()
                &&& outcome.1 is None
            },
    {
        if self.erc721_receive.contains_key(&caller) {
            let answer: [u8; 4] = [90u8, 119u8, 73u8, 174u8];
            (answer, Some(Erc721Received { operator, from, token_id, data }))
        } else {
            let answer: [u8; 4] = [0u8, 0u8, 0u8, 0u8];
            (answer, None)
        }
    }
}

} // verus!
