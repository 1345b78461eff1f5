use vstd::prelude::*;

verus! {

/// Why a fundraising operation was rejected.
#[derive(Clone, Copy, Debug, PartialEq, Eq, Structural)]
pub enum ContractError {
    /// An overflow, an underflow or a division by zero.
    Overflow,
    /// The funding is over: the target is reached or the deadline has
    /// passed.
    FundingFinished,
    /// The attached coins are not what the operation needs.
    InvalidCoinAmount,
    /// The funding is still running.
    FundingNotFinished,
    /// The sender is not the administrator.
    Unauthorized,
    /// There is nothing under the key asked for.
    NotFound,
    /// Input that the host could not make sense of.
    Generic,
    /// The token has been handed out already.
    TokenAlreadyDistributed,
}

} // verus!
