//! Multi-class token ledger with ownership and pause guards.
//!
//! The ledger keeps one balance per (account, token class) pair and one
//! operator approval per (owner, operator) pair.  Transfers, single or in
//! batches, are all-or-nothing and may be vetoed by a pre-transfer hook.
//!
//! - [`ledger`], [`approvals`], [`ownable`], [`pausable`], [`metadata`]: the
//!   parts, each with its own state.
//! - [`hook`] and [`engine`]: the transfer engine and the veto it asks for.
//! - [`supply`]: the supply of a class and why only mints and burns change it.
//! - [`erc1155`]: the pausable, owned token made of the parts.
//! - [`receiver`]: a receiver of unique tokens with a list of accepted
//!   token contracts.
//! - [`ids`], [`events`], [`error`]: identifiers, event records, refusals.
//!
//! No function here reads a clock, a caller or a chain: whoever calls names
//! the caller, and gets back the event record to emit.

pub mod approvals;
pub mod engine;
pub mod erc1155;
pub mod error;
pub mod events;
pub mod hook;
pub mod ids;
pub mod ledger;
pub mod metadata;
pub mod ownable;
pub mod pausable;
pub mod receiver;
pub mod supply;
