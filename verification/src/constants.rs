use vstd::prelude::*;

verus! {

/// Denominator of every rate in basis points: a rate `r` stands for
/// `r / MAX_FEE_BASIS_POINTS` of an amount.
pub const MAX_FEE_BASIS_POINTS: u64 = 10_000;

/// Swap fee that a pool is priced with until its configuration account has
/// been read for the first time (one percent, the rate the program starts with).
pub const DEFAULT_SWAP_FEE_RATE_BPS: u64 = 100;

/// Seed of the program's configuration account: the ASCII text `global_config`.
pub const GLOBAL_CONFIG_SEED: [u8; 13] = [
    103, 108, 111, 98, 97, 108, 95, 99, 111, 110, 102, 105, 103,
];

/// Seed of the program's native-asset vault: the ASCII text `sol_vault`.
pub const SOL_VAULT_SEED: [u8; 9] = [115, 111, 108, 95, 118, 97, 117, 108, 116];

} // verus!
