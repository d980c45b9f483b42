use vstd::prelude::*;

use crate::address::{Address, ZERO_BYTES};

verus! {

/// Bytes of the token program's address, `TokenkegQfeZyiNwAJbNbGKPFXCWuBvf9Ss623VQ5DA`.
pub const TOKEN_PROGRAM_BYTES: [u8; 32] = [
    6, 221, 246, 225, 215, 101, 161, 147, 217, 203, 225, 70, 206, 235, 121, 172,
    28, 180, 133, 237, 95, 91, 55, 145, 58, 140, 245, 133, 126, 255, 0, 169,
];

/// Bytes of the associated-token program's address,
/// `ATokenGPvbdGVxr1b2hvZbsiqW5xWH25efTNsLJA8knL`.
pub const ASSOCIATED_TOKEN_PROGRAM_BYTES: [u8; 32] = [
    140, 151, 37, 143, 78, 36, 137, 241, 187, 61, 16, 41, 20, 142, 13, 131,
    11, 90, 19, 153, 218, 255, 16, 132, 4, 142, 123, 216, 219, 233, 248, 89,
];

/// Bytes of the system program's address, `11111111111111111111111111111111`:
/// all of them zero.
pub const SYSTEM_PROGRAM_BYTES: [u8; 32] = ZERO_BYTES;

/// Bytes of the mint that stands for the native asset,
/// `So11111111111111111111111111111111111111112`.
pub const NATIVE_MINT_BYTES: [u8; 32] = [
    6, 155, 136, 87, 254, 171, 129, 132, 251, 104, 127, 99, 70, 24, 192, 53,
    218, 196, 57, 220, 26, 235, 59, 85, 152, 160, 240, 0, 0, 0, 0, 1,
];

/// The address of the token program.
pub open spec fn token_program() -> Address {
    Address { bytes: TOKEN_PROGRAM_BYTES }
}

/// The address of the associated-token program.
pub open spec fn associated_token_program() -> Address {
    Address { bytes: ASSOCIATED_TOKEN_PROGRAM_BYTES }
}

/// The address of the system program.
pub open spec fn system_program() -> Address {
    Address { bytes: SYSTEM_PROGRAM_BYTES }
}

/// Reads `anchor_spl::token::ID`.
///
/// Trusted: the constant holds the bytes of `TOKEN_PROGRAM_BYTES`.
#[verifier::external_body]
pub(crate) fn token_program_id() -> (id: Address)
    ensures
        id == token_program(),
{
    Address { bytes: anchor_spl::token::ID.to_bytes() }
}

/// Reads `anchor_spl::associated_token::ID`.
///
/// Trusted: the constant holds the bytes of `ASSOCIATED_TOKEN_PROGRAM_BYTES`.
#[verifier::external_body]
pub(crate) fn associated_token_program_id() -> (id: Address)
    ensures
        id == associated_token_program(),
{
    Address { bytes: anchor_spl::associated_token::ID.to_bytes() }
}

/// Reads `anchor_lang::solana_program::system_program::ID`.
///
/// Trusted: the constant holds the bytes of `SYSTEM_PROGRAM_BYTES`.
#[verifier::external_body]
pub(crate) fn system_program_id() -> (id: Address)
    ensures
        id == system_program(),
{
    Address { bytes: anchor_lang::solana_program::system_program::ID.to_bytes() }
}

/// The mint under which the native asset is traded.
pub open spec fn native_mint_address() -> Address {
    Address { bytes: NATIVE_MINT_BYTES }
}

/// The mint under which the native asset is traded.
pub fn native_mint() -> (mint: Address)
    ensures
        mint == native_mint_address(),
{
    Address { bytes: NATIVE_MINT_BYTES }
}

} // verus!
