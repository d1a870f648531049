//! The defaults that a freshly initialized configuration carries.

use vstd::prelude::*;

verus! {

/// Decimal places of a token.
pub const DEFAULT_DECIMALS: u32 = 6;

/// Indivisible units in one token: ten to the power of `DEFAULT_DECIMALS`.
pub const DEFAULT_TOKEN_LAMPORTS: u64 = 1_000_000;

/// Indivisible units in the supply of a new token: a billion tokens.
pub const DEFAULT_TOKEN_SUPPLY: u64 = 1_000_000_000_000_000;

/// The virtual sol reserve of a new curve.
pub const DEFAULT_VIRTUAL_SOL_RESERVES: u64 = 30_000_000_000;

/// The virtual token reserve of a new curve.
pub const DEFAULT_VIRTUAL_TOKEN_RESERVES: u64 = 1_073_000_000_000_000;

/// The trading fee of a fresh configuration: one percent.
pub const DEFAULT_FEE_BASIS_POINTS: u64 = 100;

} // verus!
