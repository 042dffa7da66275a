//! The ways in which a call on the adapter can fail.

use vstd::prelude::*;

verus! {

/// The adapter's typed errors.
#[derive(Copy, Clone, Debug, PartialEq, Eq, PartialOrd, Ord, Structural)]
pub enum ContractError {
    /// `initialize` was called on an adapter that already has a vault set.
    AlreadyInitialized,
    /// An intermediate arithmetic operation would overflow `i128`.
    Overflow,
    /// A state-mutating call was made before `initialize`.
    NotInitialized,
}

impl ContractError {
    /// The number under which the error is reported on the ledger.
    pub open spec fn spec_code(self) -> u32 {
        match self {
            ContractError::AlreadyInitialized => 1,
            ContractError::Overflow => 2,
            ContractError::NotInitialized => 3,
        }
    }

    /// The number under which the error is reported on the ledger.
    pub fn code(self) -> (code: u32)
        ensures
            code == self.spec_code(),
            self is AlreadyInitialized ==> code == 1,
            self is Overflow ==> code == 2,
            self is NotInitialized ==> code == 3,
    {
        match self {
            ContractError::AlreadyInitialized => 1,
            ContractError::Overflow => 2,
            ContractError::NotInitialized => 3,
        }
    }
}

/// Why a call is given up. The host unwinds the whole invocation, so an aborted call leaves no
/// trace.
#[derive(Copy, Clone, Debug, PartialEq, Eq, Structural)]
pub enum Abort {
    /// The call stops with a typed error.
    Error(ContractError),
    /// A sum or a difference of amounts does not fit in `i128`.
    Arithmetic,
    /// The host handed back a value of another shape than the one that was asked for.
    MalformedValue,
}

} // verus!
