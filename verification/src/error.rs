//! Error taxonomy of the router.
//!
//! Every fault aborts the whole execution; the host reverts all effects of
//! the transaction, so no variant carries partial results.

use vstd::prelude::*;

verus! {

/// All errors the router's logic can report.
#[derive(Debug, Clone, PartialEq, Eq)]
pub enum ContractError {
    /// An internal step was invoked by a caller other than the contract
    /// itself, or a config update came from a non-owner.
    Unauthorized {},
    /// An empty route set or route, an asset missing from a pool's asset
    /// list, a malformed legacy hop, or a dead (zero-output) hop.
    InvalidRoute {},
    /// A wrapped inbound instruction that the router does not recognize.
    InvalidCw20HookMessage {},
    /// Overflow or underflow in fee or amount accounting.
    ArithmeticFault {},
    /// The final output fell short of the caller's declared minimum.
    AssertionMinimumReceive { receive: u128, amount: u128 },
}

} // verus!
