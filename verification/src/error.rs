use vstd::prelude::*;

use crate::address::Address;

verus! {

/// Why a swap amount could not be computed.
#[derive(Clone, Copy, Debug, PartialEq, Eq, Structural)]
pub enum ArithmeticError {
    /// The fee rate is above `MAX_FEE_BASIS_POINTS`.
    InvalidFeeRate,
    /// A product does not fit in 128 bits, or the result does not fit in 64.
    Overflow,
    /// The denominator of the swap formula is zero.
    DivisionByZero,
}

/// Why account data could not be read as the account it should hold.
#[derive(Clone, Copy, Debug, PartialEq, Eq, Structural)]
pub enum DecodeError {
    /// The data is shorter than a discriminator.
    DiscriminatorNotFound,
    /// The data starts with the discriminator of another kind of account.
    DiscriminatorMismatch,
    /// The fields after the discriminator are cut short or hold an invalid value.
    DidNotDeserialize,
}

/// Every way in which an operation of the adapter fails.
#[derive(Clone, Copy, Debug, PartialEq, Eq)]
pub enum AmmError {
    /// An account could not be read.
    Decode(DecodeError),
    /// A price could not be computed.
    Arithmetic(ArithmeticError),
    /// The snapshot handed to `update` holds no account at this address.
    MissingAccount(Address),
    /// No program address exists for the seeds that one was asked for.
    AddressNotFound,
}

} // verus!
