//! Reasons for which an operation is refused.

use vstd::prelude::*;

verus! {

/// Why an operation was refused.  A refused operation changes nothing.
#[derive(Clone, Copy, Debug, PartialEq, Eq, Structural)]
pub enum Error {
    /// The source account holds less than the amount to take.
    InsufficientBalance,
    /// The receiving balance would exceed the largest representable amount.
    Overflow,
    /// The caller is neither the source account nor one of its operators.
    UnauthorizedOperator,
    /// A batch names a different number of classes and amounts.
    LengthMismatch,
    /// The caller is not the current owner.
    CallerIsNotOwner,
    /// Transfers are paused.
    ContractPaused,
    /// A pause was asked for while paused.
    AlreadyPaused,
    /// A resume was asked for while not paused.
    NotPaused,
}

} // verus!
