//! Records that describe a completed state change, to be handed to an event sink.

use crate::ids::{AccountId, Balance, TokenId};
use vstd::prelude::*;

verus! {

/// `value` tokens of class `id` moved from `from` to `to` at the request of
/// `operator`.  A mint has no source, a burn no destination.
#[derive(Clone, Copy, Debug, PartialEq, Eq)]
pub struct TransferSingle {
    pub operator: AccountId,
    pub from: Option<AccountId>,
    pub to: Option<AccountId>,
    pub id: TokenId,
    pub value: Balance,
}

/// Several classes moved at once between the same two accounts; `id` and
/// `value` pair up position by position, in the order requested.
#[derive(Clone, Debug, PartialEq, Eq)]
pub struct TransferBatch {
    pub operator: AccountId,
    pub from: Option<AccountId>,
    pub to: Option<AccountId>,
    pub id: Vec<TokenId>,
    pub value: Vec<Balance>,
}

/// `owner` allowed (`approved`) or forbade `operator` to move all its tokens.
#[derive(Clone, Copy, Debug, PartialEq, Eq)]
pub struct ApprovalForAll {
    pub owner: AccountId,
    pub operator: AccountId,
    pub approved: bool,
}

/// The URI of token class `id` changed to `value`.
#[derive(Clone, Debug, PartialEq, Eq)]
pub struct Url {
    pub value: String,
    pub id: TokenId,
}

/// Ownership passed from `previous_owner` to `new_owner`; `None` stands for
/// no owner.
#[derive(Clone, Copy, Debug, PartialEq, Eq)]
pub struct OwnershipTransferred {
    pub previous_owner: Option<AccountId>,
    pub new_owner: Option<AccountId>,
}

/// `account` paused transfers.
#[derive(Clone, Copy, Debug, PartialEq, Eq)]
pub struct Paused {
    pub account: AccountId,
}

/// `account` resumed transfers.
#[derive(Clone, Copy, Debug, PartialEq, Eq)]
pub struct Unpaused {
    pub account: AccountId,
}

/// Token `token_id` arrived from `from`, sent by `operator` with `data`.
#[derive(Clone, Debug, PartialEq, Eq)]
pub struct Erc721Received {
    pub operator: AccountId,
    pub from: AccountId,
    pub token_id: TokenId,
    pub data: Vec<u8>,
}

} // verus!
