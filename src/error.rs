use vstd::prelude::*;

verus! {

/// Which way a piece of fee arithmetic left the range of a `u64`.
#[derive(Debug, Clone, Copy, PartialEq, Eq, Structural)]
pub enum ArithmeticFault {
    /// A result is larger than `u64::MAX`.
    Overflow,
    /// A subtraction would go below zero.
    Underflow,
}

/// Why an operation on an agreement was refused. Any error leaves the
/// agreement exactly as it was.
#[derive(Debug, Clone, Copy, PartialEq, Eq, Structural)]
pub enum ContractError {
    /// Malformed creation parameters or operation inputs.
    ValidationError,
    /// The operation is not valid in the agreement's current lifecycle state.
    StateError,
    /// Fee or counter arithmetic left the range of a `u64`.
    ArithmeticError(ArithmeticFault),
    /// The caller lacks a required capability.
    AuthorizationError,
    /// A transfer of the batch failed, or the batch did not run to its end.
    TransferError,
}

} // verus!
