//! What the adapter asks of the host, and what the host answers.

use soroban_sdk::Address;
use vstd::prelude::*;

use crate::error::Abort;
use crate::pool::{Positions, Request, Reserve};

verus! {

/// The arguments of a token transfer.
pub struct TransferArgs {
    pub from: Address,
    pub to: Address,
    pub amount: i128,
}

/// The authorization of one call, of `fn_name` on `contract`, that another contract makes on the
/// adapter's behalf. It covers no call further down.
pub struct AuthEntry {
    pub contract: Address,
    pub fn_name: &'static str,
    pub args: TransferArgs,
}

/// A call that the adapter makes. The host performs it and answers with a [`HostReply`].
pub enum HostCall {
    /// Demand that `address` has authorized the current invocation. Answered with `Done`; where it
    /// has not, the host aborts and does not answer.
    RequireAuth { address: Address },
    /// Read the pool's reserve for `asset`. Answered with `Reserve`.
    GetReserve { pool: Address, asset: Address },
    /// Read the positions of `address` in the pool. Answered with `Positions`.
    GetPositions { pool: Address, address: Address },
    /// Read the balance of `holder` in `token`. Answered with `Balance`.
    GetBalance { token: Address, holder: Address },
    /// Authorize `entry`, and nothing else, in the adapter's own name. It lasts until the next call
    /// returns. Answered with `Done`.
    AuthorizeAsCurrentContract { entry: AuthEntry },
    /// Submit a list that holds `request` alone to the pool. Answered with `Done`.
    Submit { pool: Address, from: Address, spender: Address, to: Address, request: Request },
}

/// The host's answer to a [`HostCall`].
pub enum HostReply {
    Done,
    Reserve(Reserve),
    Positions(Positions),
    Balance(i128),
}

/// What comes next in an operation of the adapter.
pub enum Progress<R, T> {
    /// Perform this call, and resume the operation with the answer.
    Call(HostCall, R),
    /// The operation is over and returns this.
    Return(T),
    /// The operation is given up, and the host unwinds it.
    Abort(Abort),
}

} // verus!
