use vstd::arithmetic::mul::lemma_mul_nonnegative;
use vstd::prelude::*;

use crate::address::Address;
use crate::codec::{address_at, read_address, read_u64, starts_with, u64_at};
use crate::constants::MAX_FEE_BASIS_POINTS;
use crate::error::{ArithmeticError, DecodeError};
use crate::math::{constant_product_out, lemma_swap_outcome_monotonic, swap_outcome};

verus! {

/// First eight bytes of every configuration account: the start of the
/// SHA-256 hash of the text `account:GlobalConfig`.
pub const GLOBAL_CONFIG_DISCRIMINATOR: [u8; 8] = [149, 8, 156, 202, 160, 252, 176, 217];

/// First eight bytes of every bonding-curve account: the start of the
/// SHA-256 hash of the text `account:BondingCurve`.
pub const BONDING_CURVE_DISCRIMINATOR: [u8; 8] = [23, 183, 248, 55, 96, 216, 172, 96];

/// Length of a discriminator.
pub const DISCRIMINATOR_LEN: usize = 8;

/// Length of a configuration account: the discriminator, five addresses,
/// nine numbers and the bump seed.
pub const GLOBAL_CONFIG_LEN: usize = 241;

/// Length of a bonding-curve account: the discriminator, two addresses, six
/// numbers, the completion flag and the bump seed.
pub const BONDING_CURVE_LEN: usize = 122;

/// Why `data` cannot hold an account that starts with `discriminator` and is
/// `len` bytes long; `None` where it can. Bytes after the first `len` are
/// ignored.
pub open spec fn layout_error(data: Seq<u8>, discriminator: Seq<u8>, len: int) -> Option<
    DecodeError,
> {
    if data.len() < discriminator.len() {
        Some(DecodeError::DiscriminatorNotFound)
    } else if data.subrange(0, discriminator.len() as int) != discriminator {
        Some(DecodeError::DiscriminatorMismatch)
    } else if data.len() < len {
        Some(DecodeError::DidNotDeserialize)
    } else {
        None
    }
}

/// The program's configuration, as its account holds it.
#[derive(Clone, Copy, Debug, PartialEq, Eq)]
pub struct GlobalConfig {
    pub admin: Address,
    pub protocol_sol_fee_recipient: Address,
    pub index_fund_recipient: Address,
    pub migrator: Address,
    pub authenticator: Address,
    pub swap_fee_rate_bps: u64,
    pub creator_fee_portion_bps: u64,
    pub pkin_staking_fee_portion_bps: u64,
    pub staking_reward_period_duration: u64,
    pub pkin_staking_rewards_threshold: u64,
    pub index_fund_transfer_threshold: u64,
    pub bonding_curve_completion_threshold: u64,
    pub accrued_protocol_sol_fee: u64,
    pub pkin_staking_rewards: u64,
    pub bump: u8,
}

impl GlobalConfig {
    /// Why `data` is no configuration account, or `None` where it is one.
    pub open spec fn decode_error(data: Seq<u8>) -> Option<DecodeError> {
        layout_error(data, GLOBAL_CONFIG_DISCRIMINATOR@, GLOBAL_CONFIG_LEN as int)
    }

    /// The fields that the bytes of `data` hold, each at its place.
    pub open spec fn fields_of(data: Seq<u8>) -> GlobalConfig {
        GlobalConfig {
            admin: address_at(data, 8),
            protocol_sol_fee_recipient: address_at(data, 40),
            index_fund_recipient: address_at(data, 72),
            migrator: address_at(data, 104),
            authenticator: address_at(data, 136),
            swap_fee_rate_bps: u64_at(data, 168) as u64,
            creator_fee_portion_bps: u64_at(data, 176) as u64,
            pkin_staking_fee_portion_bps: u64_at(data, 184) as u64,
            staking_reward_period_duration: u64_at(data, 192) as u64,
            pkin_staking_rewards_threshold: u64_at(data, 200) as u64,
            index_fund_transfer_threshold: u64_at(data, 208) as u64,
            bonding_curve_completion_threshold: u64_at(data, 216) as u64,
            accrued_protocol_sol_fee: u64_at(data, 224) as u64,
            pkin_staking_rewards: u64_at(data, 232) as u64,
            bump: data[240],
        }
    }

    /// What reading `data` as a configuration account gives.
    pub open spec fn decoded(data: Seq<u8>) -> Result<GlobalConfig, DecodeError> {
        match Self::decode_error(data) {
            Some(error) => Err(error),
            None => Ok(Self::fields_of(data)),
        }
    }

    /// Reads a configuration account: the discriminator, then the fields in
    /// the order of their declaration, numbers least significant byte first.
    pub fn try_deserialize(buf: &[u8]) -> (result: Result<GlobalConfig, DecodeError>)
        ensures
            result == Self::decoded(buf@),
    {
        if buf.len() < DISCRIMINATOR_LEN {
            return Err(DecodeError::DiscriminatorNotFound);
        }
        if !starts_with(buf, GLOBAL_CONFIG_DISCRIMINATOR.as_slice()) {
            return Err(DecodeError::DiscriminatorMismatch);
        }
        if buf.len() < GLOBAL_CONFIG_LEN {
            return Err(DecodeError::DidNotDeserialize);
        }
        Ok(
            GlobalConfig {
                admin: read_address(buf, 8),
                protocol_sol_fee_recipient: read_address(buf, 40),
                index_fund_recipient: read_address(buf, 72),
                migrator: read_address(buf, 104),
                authenticator: read_address(buf, 136),
                swap_fee_rate_bps: read_u64(buf, 168),
                creator_fee_portion_bps: read_u64(buf, 176),
                pkin_staking_fee_portion_bps: read_u64(buf, 184),
                staking_reward_period_duration: read_u64(buf, 192),
                pkin_staking_rewards_threshold: read_u64(buf, 200),
                index_fund_transfer_threshold: read_u64(buf, 208),
                bonding_curve_completion_threshold: read_u64(buf, 216),
                accrued_protocol_sol_fee: read_u64(buf, 224),
                pkin_staking_rewards: read_u64(buf, 232),
                bump: buf[240],
            },
        )
    }
}

/// One pool, as its account holds it.
#[derive(Clone, Copy, Debug, PartialEq, Eq)]
pub struct BondingCurve {
    pub token: Address,
    pub creator: Address,
    pub virtual_token_reserves: u64,
    pub virtual_sol_reserves: u64,
    pub real_token_reserves: u64,
    pub real_sol_reserves: u64,
    pub accrued_creator_sol_fee: u64,
    pub index_fund_buffer: u64,
    pub complete: bool,
    pub bump: u8,
}

impl BondingCurve {
    /// What the program keeps true of every pool: while a pool is open,
    /// both of its virtual reserves are positive. Reading an account does
    /// not check it; pricing answers with an error where a reserve that it
    /// divides by is zero.
    pub open spec fn has_reserves(&self) -> bool {
        !self.complete ==> self.virtual_token_reserves > 0 && self.virtual_sol_reserves > 0
    }

    /// Why `data` is no bonding-curve account, or `None` where it is one.
    pub open spec fn decode_error(data: Seq<u8>) -> Option<DecodeError> {
        match layout_error(data, BONDING_CURVE_DISCRIMINATOR@, BONDING_CURVE_LEN as int) {
            Some(error) => Some(error),
            None => if data[120] > 1 {
                Some(DecodeError::DidNotDeserialize)
            } else {
                None
            },
        }
    }

    /// The fields that the bytes of `data` hold, each at its place.
    pub open spec fn fields_of(data: Seq<u8>) -> BondingCurve {
        BondingCurve {
            token: address_at(data, 8),
            creator: address_at(data, 40),
            virtual_token_reserves: u64_at(data, 72) as u64,
            virtual_sol_reserves: u64_at(data, 80) as u64,
            real_token_reserves: u64_at(data, 88) as u64,
            real_sol_reserves: u64_at(data, 96) as u64,
            accrued_creator_sol_fee: u64_at(data, 104) as u64,
            index_fund_buffer: u64_at(data, 112) as u64,
            complete: data[120] == 1,
            bump: data[121],
        }
    }

    /// What reading `data` as a bonding-curve account gives.
    pub open spec fn decoded(data: Seq<u8>) -> Result<BondingCurve, DecodeError> {
        match Self::decode_error(data) {
            Some(error) => Err(error),
            None => Ok(Self::fields_of(data)),
        }
    }

    /// Reads a bonding-curve account: the discriminator, then the fields in
    /// the order of their declaration, numbers least significant byte first
    /// and the flag as one byte that is 0 or 1.
    pub fn try_deserialize(buf: &[u8]) -> (result: Result<BondingCurve, DecodeError>)
        ensures
            result == Self::decoded(buf@),
    {
        if buf.len() < DISCRIMINATOR_LEN {
            return Err(DecodeError::DiscriminatorNotFound);
        }
        if !starts_with(buf, BONDING_CURVE_DISCRIMINATOR.as_slice()) {
            return Err(DecodeError::DiscriminatorMismatch);
        }
        if buf.len() < BONDING_CURVE_LEN {
            return Err(DecodeError::DidNotDeserialize);
        }
        if buf[120] > 1 {
            return Err(DecodeError::DidNotDeserialize);
        }
        Ok(
            BondingCurve {
                token: read_address(buf, 8),
                creator: read_address(buf, 40),
                virtual_token_reserves: read_u64(buf, 72),
                virtual_sol_reserves: read_u64(buf, 80),
                real_token_reserves: read_u64(buf, 88),
                real_sol_reserves: read_u64(buf, 96),
                accrued_creator_sol_fee: read_u64(buf, 104),
                index_fund_buffer: read_u64(buf, 112),
                complete: buf[120] == 1,
                bump: buf[121],
            },
        )
    }

    /// What `calculate_amount_out` answers: a swap of the token for the
    /// native asset is priced with the token reserve as the input side, a
    /// swap of the native asset for the token the other way round.
    pub open spec fn amount_out_outcome(
        &self,
        sol_out: bool,
        amount_in: u64,
        fee_basis_points: u64,
    ) -> Result<u64, ArithmeticError> {
        if sol_out {
            swap_outcome(
                amount_in,
                self.virtual_token_reserves,
                self.virtual_sol_reserves,
                fee_basis_points,
            )
        } else {
            swap_outcome(
                amount_in,
                self.virtual_sol_reserves,
                self.virtual_token_reserves,
                fee_basis_points,
            )
        }
    }

    /// An open pool that has its reserves always has a price under a fee rate
    /// in range, unless the amounts leave 128 bits: the formula never divides
    /// by zero, and the price stays below the reserve that it is paid from.
    pub proof fn lemma_open_pool_is_priced(
        &self,
        sol_out: bool,
        amount_in: u64,
        fee_basis_points: u64,
    )
        requires
            self.has_reserves(),
            !self.complete,
            fee_basis_points <= MAX_FEE_BASIS_POINTS,
        ensures
            self.amount_out_outcome(sol_out, amount_in, fee_basis_points) != Err::<
                u64,
                ArithmeticError,
            >(ArithmeticError::DivisionByZero),
            self.amount_out_outcome(sol_out, amount_in, fee_basis_points) != Err::<
                u64,
                ArithmeticError,
            >(ArithmeticError::InvalidFeeRate),
            self.amount_out_outcome(sol_out, amount_in, fee_basis_points) matches Ok(out) ==> out < (
            if sol_out {
                self.virtual_sol_reserves
            } else {
                self.virtual_token_reserves
            }),
    {
        let reserve_in = if sol_out {
            self.virtual_token_reserves
        } else {
            self.virtual_sol_reserves
        };
        let reserve_out = if sol_out {
            self.virtual_sol_reserves
        } else {
            self.virtual_token_reserves
        };
        lemma_swap_outcome_monotonic(amount_in, amount_in, reserve_in, reserve_out, fee_basis_points);
        lemma_mul_nonnegative(
            amount_in as int,
            MAX_FEE_BASIS_POINTS as int - fee_basis_points as int,
        );
    }

    /// The amount that a swap of `amount_in` pays out, in the direction that
    /// `sol_out` names.
    pub fn calculate_amount_out(
        &self,
        sol_out: bool,
        amount_in: u64,
        fee_basis_points: u64,
    ) -> (result: Result<u64, ArithmeticError>)
        ensures
            result == self.amount_out_outcome(sol_out, amount_in, fee_basis_points),
    {
        if sol_out {
            return self.calculate_sol_out(amount_in, fee_basis_points);
        }
        self.calculate_token_out(amount_in, fee_basis_points)
    }

    /// The amount of the token that `sol_amount_in` of the native asset buys.
    pub fn calculate_token_out(&self, sol_amount_in: u64, fee_basis_points: u64) -> (result: Result<
        u64,
        ArithmeticError,
    >)
        ensures
            result == swap_outcome(
                sol_amount_in,
                self.virtual_sol_reserves,
                self.virtual_token_reserves,
                fee_basis_points,
            ),
    {
        constant_product_out(
            sol_amount_in,
            self.virtual_sol_reserves,
            self.virtual_token_reserves,
            fee_basis_points,
        )
    }

    /// The amount of the native asset that selling `token_amount_in` of the
    /// token brings.
    pub fn calculate_sol_out(&self, token_amount_in: u64, fee_basis_points: u64) -> (result: Result<
        u64,
        ArithmeticError,
    >)
        ensures
            result == swap_outcome(
                token_amount_in,
                self.virtual_token_reserves,
                self.virtual_sol_reserves,
                fee_basis_points,
            ),
    {
        constant_product_out(
            token_amount_in,
            self.virtual_token_reserves,
            self.virtual_sol_reserves,
            fee_basis_points,
        )
    }
}

} // verus!
