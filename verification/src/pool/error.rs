use vstd::prelude::*;

verus! {

/// Why a pool operation was rejected. Every error is terminal for the
/// operation that raised it; the stored records are left as they were.
#[derive(Clone, Copy, Debug, PartialEq, Eq, Structural)]
pub enum ContractError {
    /// The two assets of a pair are the same asset.
    OverlappingAssets,
    /// An issued asset's address is not a valid address, or a native denom
    /// is neither lowercase nor an `ibc/` denom.
    InvalidAsset,
    /// The attached funds do not hold exactly the stated native amount.
    NativeTokenMismatch,
    /// An asset is not one of the pair's two assets.
    AssetMismatch,
    /// One of the reserves is empty.
    NoLiquidity,
    /// The output falls outside what the caller accepts.
    SlippageExceeded,
    /// Both deposits are zero.
    InvalidZeroAmount,
    /// The second deposit is smaller than the pool's ratio requires.
    InsufficientSecondAsset { required: u128, supplied: u128 },
    /// More liquidity tokens were requested than the caller holds.
    InsufficientBalance { available: u128, requested: u128 },
    /// An overflow, an underflow or a division by zero.
    ArithmeticError,
    /// The liquidity token is provisioned twice, or used before it exists.
    Unauthorized,
    /// Input that the host or a parser could not make sense of.
    Generic,
}

} // verus!
