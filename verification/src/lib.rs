//! Prices swaps against the bonding-curve pools of the Pumpkin program and
//! lists the accounts that such a swap needs, for a router that builds the
//! transactions itself.
//!
//! The pools are constant-product curves with the fee taken from the amount
//! paid in. Prices are computed in integers, as the program computes them.
//! What every function returns is stated in its contract and proved.

pub mod account_meta_for_swap;
pub mod accounts;
pub mod address;
pub mod amm;
pub mod codec;
pub mod constants;
pub mod error;
pub mod instruction;
pub mod math;
pub mod pda;
pub mod programs;
pub mod snapshot;
