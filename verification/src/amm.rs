use vstd::prelude::*;

use crate::account_meta_for_swap::{SwapSolForToken, SwapTokenForSol};
use crate::accounts::{BondingCurve, GlobalConfig};
use crate::address::Address;
use crate::constants::{DEFAULT_SWAP_FEE_RATE_BPS, MAX_FEE_BASIS_POINTS};
use crate::error::AmmError;
use crate::instruction::AccountMeta;
use crate::math::{
    amount_out, fee_amount, fee_on, lemma_amount_out_bounds, lemma_amount_out_without_fee,
    lemma_fee_within_amount, lemma_round_trip_never_gains, swap_denominator, swap_numerator,
};
use crate::pda::{
    associated_token_address, get_associated_token_address, get_global_config_address,
    get_sol_vault_address, global_config_address, sol_vault_address,
};
use crate::programs::{native_mint, native_mint_address};
use crate::snapshot::{account_data, try_get_account_data, Account, AccountMap, KeyedAccount};

verus! {

/// A request for a price: how much of which mint is paid in.
#[derive(Clone, Copy, Debug)]
pub struct QuoteParams {
    pub amount: u64,
    pub input_mint: Address,
    pub output_mint: Address,
}

/// A price: what a swap of `in_amount` would pay out.
#[derive(Clone, Copy, Debug, PartialEq, Eq)]
pub struct Quote {
    pub in_amount: u64,
    pub out_amount: u64,
    /// The fee, for display: `out_amount` is already net of it.
    pub fee_amount: u64,
    /// The mint in which `fee_amount` is counted.
    pub fee_mint: Address,
}

/// A request for the accounts of a swap.
#[derive(Clone, Copy, Debug)]
pub struct SwapParams {
    pub source_mint: Address,
    pub destination_mint: Address,
    pub source_token_account: Address,
    pub destination_token_account: Address,
    /// The user, or the program that may move the source tokens.
    pub token_transfer_authority: Address,
}

/// Which swap an instruction has to perform.
#[derive(Clone, Copy, Debug, PartialEq, Eq, Structural)]
pub enum Swap {
    /// A swap against a bonding curve; `sol_out` says that the token is paid
    /// in and the native asset is paid out.
    PumpkinSwap { sol_out: bool },
}

/// The swap to perform and the accounts that it needs, in order.
#[derive(Debug)]
pub struct SwapAndAccountMetas {
    pub swap: Swap,
    pub account_metas: Vec<AccountMeta>,
}

/// One pool as the adapter last saw it, with the fee rate and the
/// index-fund recipient of the program's configuration.
#[derive(Debug, PartialEq, Eq)]
pub struct PumpkinSwap {
    key: Address,
    program_id: Address,
    global_config: Address,
    state: BondingCurve,
    swap_fee_rate_bps: u64,
    index_fund_recipient: Address,
}

/// What an adapter holds, as contracts speak of it.
pub struct PumpkinSwapView {
    /// Address of the pool's account.
    pub key: Address,
    /// The program that owns the pool.
    pub program_id: Address,
    /// The pool, as last read.
    pub state: BondingCurve,
    /// The swap fee, as last read from the configuration.
    pub swap_fee_rate_bps: u64,
    /// Who receives a share of what a sale of the token pays out.
    pub index_fund_recipient: Address,
}

impl View for PumpkinSwap {
    type V = PumpkinSwapView;

    closed spec fn view(&self) -> PumpkinSwapView {
        PumpkinSwapView {
            key: self.key,
            program_id: self.program_id,
            state: self.state,
            swap_fee_rate_bps: self.swap_fee_rate_bps,
            index_fund_recipient: self.index_fund_recipient,
        }
    }
}

impl PumpkinSwapView {
    /// What an adapter holds when it has been made from `keyed_account` and
    /// has not been updated yet, or why none can be made from it.
    pub open spec fn initial(keyed_account: KeyedAccount) -> Result<PumpkinSwapView, AmmError> {
        match BondingCurve::decoded(keyed_account.account.data@) {
            Err(error) => Err(AmmError::Decode(error)),
            Ok(state) => if global_config_address(keyed_account.account.owner) is None {
                Err(AmmError::AddressNotFound)
            } else {
                Ok(
                    PumpkinSwapView {
                        key: keyed_account.key,
                        program_id: keyed_account.account.owner,
                        state,
                        swap_fee_rate_bps: DEFAULT_SWAP_FEE_RATE_BPS,
                        index_fund_recipient: Address::zero(),
                    },
                )
            },
        }
    }

    /// The accounts that an update reads: the pool and the configuration.
    pub open spec fn accounts_to_update(self) -> Seq<Address> {
        seq![self.key, global_config_address(self.program_id).unwrap()]
    }

    /// What the adapter holds after an update from `accounts`, or why the
    /// update fails: the first of a missing pool account, a pool account that
    /// cannot be read, a missing configuration account and a configuration
    /// account that cannot be read.
    pub open spec fn updated(self, accounts: Map<Address, Account>) -> Result<
        PumpkinSwapView,
        AmmError,
    > {
        match account_data(accounts, self.accounts_to_update()[0]) {
            Err(error) => Err(error),
            Ok(pool_data) => match BondingCurve::decoded(pool_data) {
                Err(error) => Err(AmmError::Decode(error)),
                Ok(state) => match account_data(accounts, self.accounts_to_update()[1]) {
                    Err(error) => Err(error),
                    Ok(config_data) => match GlobalConfig::decoded(config_data) {
                        Err(error) => Err(AmmError::Decode(error)),
                        Ok(config) => Ok(
                            PumpkinSwapView {
                                state,
                                swap_fee_rate_bps: config.swap_fee_rate_bps,
                                index_fund_recipient: config.index_fund_recipient,
                                ..self
                            },
                        ),
                    },
                },
            },
        }
    }

    /// Whether a swap that pays in `input_mint` pays out the native asset:
    /// it does where the mint paid in is the pool's token.
    pub open spec fn sol_out(self, input_mint: Address) -> bool {
        input_mint == self.state.token
    }

    /// Whether the pool still trades.
    pub open spec fn is_active(self) -> bool {
        !self.state.complete
    }

    /// The reserve of the asset that a swap pays in.
    pub open spec fn reserve_in(self, input_mint: Address) -> u64 {
        if self.sol_out(input_mint) {
            self.state.virtual_token_reserves
        } else {
            self.state.virtual_sol_reserves
        }
    }

    /// The reserve of the asset that a swap pays out.
    pub open spec fn reserve_out(self, input_mint: Address) -> u64 {
        if self.sol_out(input_mint) {
            self.state.virtual_sol_reserves
        } else {
            self.state.virtual_token_reserves
        }
    }

    /// The answer to a request for a price: the pricing error where the
    /// formula fails, and else the amounts, with the fee counted in the mint
    /// that is paid in.
    pub open spec fn quote(self, params: QuoteParams) -> Result<Quote, AmmError> {
        match self.state.amount_out_outcome(
            self.sol_out(params.input_mint),
            params.amount,
            self.swap_fee_rate_bps,
        ) {
            Err(error) => Err(AmmError::Arithmetic(error)),
            Ok(out_amount) => Ok(
                Quote {
                    in_amount: params.amount,
                    out_amount,
                    fee_amount: fee_on(params.amount as int, self.swap_fee_rate_bps as int) as u64,
                    fee_mint: params.input_mint,
                },
            ),
        }
    }

    /// The accounts of a sale of the token, where all their addresses exist.
    pub open spec fn token_for_sol(self, params: SwapParams) -> Option<SwapTokenForSol> {
        match (
            global_config_address(self.program_id),
            associated_token_address(self.key, self.state.token),
            sol_vault_address(self.program_id),
            associated_token_address(self.index_fund_recipient, self.state.token),
        ) {
            (
                Some(global_config),
                Some(bonding_curve_token_vault),
                Some(sol_vault),
                Some(index_fund_recipient_token_account),
            ) => Some(
                SwapTokenForSol {
                    global_config,
                    bonding_curve: self.key,
                    mint: self.state.token,
                    bonding_curve_token_vault,
                    sol_vault,
                    index_fund_recipient: self.index_fund_recipient,
                    index_fund_recipient_token_account,
                    user_token_account: params.source_token_account,
                    user: params.token_transfer_authority,
                },
            ),
            _ => None,
        }
    }

    /// The accounts of a purchase of the token, where all their addresses
    /// exist.
    pub open spec fn sol_for_token(self, params: SwapParams) -> Option<SwapSolForToken> {
        match (
            global_config_address(self.program_id),
            associated_token_address(self.key, self.state.token),
            sol_vault_address(self.program_id),
        ) {
            (Some(global_config), Some(bonding_curve_token_vault), Some(sol_vault)) => Some(
                SwapSolForToken {
                    global_config,
                    bonding_curve: self.key,
                    mint: self.state.token,
                    bonding_curve_token_vault,
                    sol_vault,
                    user_token_account: params.destination_token_account,
                    user: params.token_transfer_authority,
                },
            ),
            _ => None,
        }
    }

    /// The account list of the swap that `params` asks for, where the
    /// addresses of all its accounts exist.
    pub open spec fn account_metas(self, params: SwapParams) -> Option<Seq<AccountMeta>> {
        if self.sol_out(params.source_mint) {
            match self.token_for_sol(params) {
                Some(accounts) => Some(accounts.account_metas()),
                None => None,
            }
        } else {
            match self.sol_for_token(params) {
                Some(accounts) => Some(accounts.account_metas()),
                None => None,
            }
        }
    }
}

/// Without a fee a quote is the plain constant-product price,
/// `amount * reserve_out / (reserve_in + amount)`, and it shows no fee.
pub proof fn lemma_quote_without_fee(pool: PumpkinSwapView, params: QuoteParams)
    requires
        pool.swap_fee_rate_bps == 0,
    ensures
        pool.quote(params) matches Ok(quote) ==> {
            &&& quote.out_amount == (params.amount * pool.reserve_out(params.input_mint)) / (
            pool.reserve_in(params.input_mint) + params.amount)
            &&& quote.fee_amount == 0
        },
{
    let reserve_in = pool.reserve_in(params.input_mint) as int;
    let reserve_out = pool.reserve_out(params.input_mint) as int;
    if pool.quote(params) is Ok {
        assert(swap_denominator(params.amount as int, reserve_in, 0) != 0);
        assert(reserve_in + params.amount > 0);
        lemma_amount_out_without_fee(params.amount as int, reserve_in, reserve_out);
        lemma_amount_out_bounds(params.amount as int, reserve_in, reserve_out, 0);
        lemma_fee_within_amount(params.amount as int, 0);
        assert(params.amount * 0 == 0);
    }
}

/// A quote for nothing pays out nothing and shows no fee, where the fee rate
/// is in range and the reserve on the input side is not empty.
pub proof fn lemma_quote_of_nothing(pool: PumpkinSwapView, params: QuoteParams)
    requires
        params.amount == 0,
        pool.swap_fee_rate_bps <= MAX_FEE_BASIS_POINTS,
        pool.reserve_in(params.input_mint) > 0,
    ensures
        pool.quote(params) == Ok::<Quote, AmmError>(
            Quote { in_amount: 0, out_amount: 0, fee_amount: 0, fee_mint: params.input_mint },
        ),
{
    let reserve_in = pool.reserve_in(params.input_mint) as int;
    let reserve_out = pool.reserve_out(params.input_mint) as int;
    let fee = pool.swap_fee_rate_bps as int;
    assert(0 * (MAX_FEE_BASIS_POINTS as int - fee) == 0);
    assert(0 * reserve_out == 0);
    assert(0 * fee == 0);
    assert(swap_numerator(0, reserve_out, fee) == 0);
    assert(swap_denominator(0, reserve_in, fee) == reserve_in * (MAX_FEE_BASIS_POINTS as int));
    assert(amount_out(0, reserve_in, reserve_out, fee) == 0);
}

/// Fees and rounding never create value: where an amount is swapped one way
/// and what it pays out is swapped back the other way, against the same
/// pool, no more comes back than was paid in at first.
pub proof fn lemma_quote_round_trip(
    pool: PumpkinSwapView,
    amount: u64,
    first_mint: Address,
    second_mint: Address,
)
    requires
        pool.sol_out(first_mint) != pool.sol_out(second_mint),
    ensures
        pool.quote(QuoteParams { amount, input_mint: first_mint, output_mint: second_mint })
            matches Ok(there) ==> pool.quote(
            QuoteParams { amount: there.out_amount, input_mint: second_mint, output_mint: first_mint },
        ) matches Ok(back) ==> back.out_amount <= amount,
{
    let first = QuoteParams { amount, input_mint: first_mint, output_mint: second_mint };
    if let Ok(there) = pool.quote(first) {
        let second = QuoteParams {
            amount: there.out_amount,
            input_mint: second_mint,
            output_mint: first_mint,
        };
        if pool.quote(second) is Ok {
            let reserve_a = pool.reserve_in(first_mint) as int;
            let reserve_b = pool.reserve_out(first_mint) as int;
            let fee = pool.swap_fee_rate_bps as int;
            lemma_amount_out_bounds(amount as int, reserve_a, reserve_b, fee);
            lemma_round_trip_never_gains(amount as int, reserve_a, reserve_b, fee);
            lemma_amount_out_bounds(there.out_amount as int, reserve_b, reserve_a, fee);
        }
    }
}

/// After an update the pool is active exactly if the pool account that the
/// update read is not marked complete.
pub proof fn lemma_active_after_update(pool: PumpkinSwapView, accounts: Map<Address, Account>)
    ensures
        pool.updated(accounts) matches Ok(after) ==> {
            &&& accounts.contains_key(pool.key)
            &&& BondingCurve::decoded(accounts[pool.key].data@) matches Ok(state)
            &&& after.is_active() == !state.complete
        },
{
}

impl Clone for PumpkinSwap {
    fn clone(&self) -> (copy: PumpkinSwap)
        ensures
            copy == *self,
    {
        proof {
            use_type_invariant(self);
        }
        PumpkinSwap {
            key: self.key,
            program_id: self.program_id,
            global_config: self.global_config,
            state: self.state,
            swap_fee_rate_bps: self.swap_fee_rate_bps,
            index_fund_recipient: self.index_fund_recipient,
        }
    }
}

impl PumpkinSwap {
    /// The address of the configuration account is kept beside the program
    /// that it is derived from.
    #[verifier::type_invariant]
    spec fn config_is_derived(&self) -> bool {
        global_config_address(self.program_id) == Some(self.global_config)
    }

    /// Makes an adapter for the pool in `keyed_account`. The pool is owned by
    /// the program that owns the account. Until the first update the fee is
    /// `DEFAULT_SWAP_FEE_RATE_BPS` and the index-fund recipient is not set.
    pub fn from_keyed_account(keyed_account: &KeyedAccount) -> (result: Result<PumpkinSwap, AmmError>)
        ensures
            match result {
                Ok(amm) => PumpkinSwapView::initial(*keyed_account) == Ok::<
                    PumpkinSwapView,
                    AmmError,
                >(amm@),
                Err(error) => PumpkinSwapView::initial(*keyed_account) == Err::<
                    PumpkinSwapView,
                    AmmError,
                >(error),
            },
    {
        let state = match BondingCurve::try_deserialize(keyed_account.account.data.as_slice()) {
            Ok(state) => state,
            Err(error) => {
                return Err(AmmError::Decode(error));
            },
        };
        let global_config = match get_global_config_address(&keyed_account.account.owner) {
            Some(address) => address,
            None => {
                return Err(AmmError::AddressNotFound);
            },
        };
        Ok(
            PumpkinSwap {
                key: keyed_account.key,
                program_id: keyed_account.account.owner,
                global_config,
                state,
                swap_fee_rate_bps: DEFAULT_SWAP_FEE_RATE_BPS,
                index_fund_recipient: Address::default(),
            },
        )
    }

    /// The name under which the pools of this program are shown.
    pub fn label(&self) -> (label: String)
        ensures
            label@ == "Pumpkin swap"@,
    {
        "Pumpkin swap".to_owned()
    }

    /// The program that owns the pool.
    pub fn program_id(&self) -> (program_id: Address)
        ensures
            program_id == self@.program_id,
    {
        self.program_id
    }

    /// The address of the pool's account.
    pub fn key(&self) -> (key: Address)
        ensures
            key == self@.key,
    {
        self.key
    }

    /// The two mints that the pool trades: the native asset first, then the
    /// pool's token.
    pub fn get_reserve_mints(&self) -> (mints: Vec<Address>)
        ensures
            mints@ == seq![native_mint_address(), self@.state.token],
    {
        let mints: Vec<Address> = vec![native_mint(), self.state.token];
        assert(mints@ =~= seq![native_mint_address(), self@.state.token]);
        mints
    }

    /// The accounts that `update` reads: the pool's account, then the
    /// program's configuration account.
    pub fn get_accounts_to_update(&self) -> (accounts: Vec<Address>)
        ensures
            accounts@ == self@.accounts_to_update(),
            global_config_address(self@.program_id) is Some,
    {
        proof {
            use_type_invariant(self);
        }
        let accounts: Vec<Address> = vec![self.key, self.global_config];
        assert(accounts@ =~= self@.accounts_to_update());
        accounts
    }

    /// Reads the pool and the configuration out of `account_map` and takes
    /// the pool, the fee rate and the index-fund recipient from them. Where
    /// one of the two accounts is missing or cannot be read, nothing changes.
    pub fn update(&mut self, account_map: &AccountMap) -> (result: Result<(), AmmError>)
        ensures
            match result {
                Ok(_) => old(self)@.updated(account_map@) == Ok::<PumpkinSwapView, AmmError>(
                    final(self)@,
                ),
                Err(error) => old(self)@.updated(account_map@) == Err::<PumpkinSwapView, AmmError>(
                    error,
                ) && *final(self) == *old(self),
            },
    {
        proof {
            use_type_invariant(&*self);
        }
        let bonding_curve_data = match try_get_account_data(account_map, &self.key) {
            Ok(data) => data,
            Err(error) => {
                return Err(error);
            },
        };
        let state = match BondingCurve::try_deserialize(bonding_curve_data) {
            Ok(state) => state,
            Err(error) => {
                return Err(AmmError::Decode(error));
            },
        };
        let global_config_data = match try_get_account_data(account_map, &self.global_config) {
            Ok(data) => data,
            Err(error) => {
                return Err(error);
            },
        };
        let config = match GlobalConfig::try_deserialize(global_config_data) {
            Ok(config) => config,
            Err(error) => {
                return Err(AmmError::Decode(error));
            },
        };
        self.state = state;
        self.swap_fee_rate_bps = config.swap_fee_rate_bps;
        self.index_fund_recipient = config.index_fund_recipient;
        Ok(())
    }

    /// Prices a swap of `quote_params.amount` of the mint
    /// `quote_params.input_mint`. The pool's token is sold for the native
    /// asset; any other mint is taken for the native asset and buys the token.
    pub fn quote(&self, quote_params: &QuoteParams) -> (result: Result<Quote, AmmError>)
        ensures
            result == self@.quote(*quote_params),
    {
        let sol_out = quote_params.input_mint == self.state.token;
        let amount_out = match self.state.calculate_amount_out(
            sol_out,
            quote_params.amount,
            self.swap_fee_rate_bps,
        ) {
            Ok(amount_out) => amount_out,
            Err(error) => {
                return Err(AmmError::Arithmetic(error));
            },
        };
        proof {
            lemma_fee_within_amount(quote_params.amount as int, self.swap_fee_rate_bps as int);
        }
        let fee_amount = match fee_amount(quote_params.amount, self.swap_fee_rate_bps) {
            Ok(fee_amount) => fee_amount,
            Err(error) => {
                return Err(AmmError::Arithmetic(error));
            },
        };
        Ok(
            Quote {
                out_amount: amount_out,
                in_amount: quote_params.amount,
                fee_mint: quote_params.input_mint,
                fee_amount,
            },
        )
    }

    /// The swap that `swap_params` asks for and the accounts that it needs,
    /// in the order and with the access that the program expects. It fails
    /// only where one of the addresses to derive does not exist.
    pub fn get_swap_and_account_metas(&self, swap_params: &SwapParams) -> (result: Result<
        SwapAndAccountMetas,
        AmmError,
    >)
        ensures
            match result {
                Ok(swap) => {
                    &&& swap.swap == (Swap::PumpkinSwap {
                        sol_out: self@.sol_out(swap_params.source_mint),
                    })
                    &&& self@.account_metas(*swap_params) == Some(swap.account_metas@)
                },
                Err(error) => {
                    &&& error == AmmError::AddressNotFound
                    &&& self@.account_metas(*swap_params) is None
                },
            },
    {
        proof {
            use_type_invariant(self);
        }
        let sol_out = swap_params.source_mint == self.state.token;
        let bonding_curve_token_vault = match get_associated_token_address(
            &self.key,
            &self.state.token,
        ) {
            Some(address) => address,
            None => {
                return Err(AmmError::AddressNotFound);
            },
        };
        let sol_vault = match get_sol_vault_address(&self.program_id) {
            Some(address) => address,
            None => {
                return Err(AmmError::AddressNotFound);
            },
        };
        let account_metas: Vec<AccountMeta> = if sol_out {
            let index_fund_recipient_token_account = match get_associated_token_address(
                &self.index_fund_recipient,
                &self.state.token,
            ) {
                Some(address) => address,
                None => {
                    return Err(AmmError::AddressNotFound);
                },
            };
            SwapTokenForSol {
                global_config: self.global_config,
                bonding_curve: self.key,
                mint: self.state.token,
                bonding_curve_token_vault,
                sol_vault,
                index_fund_recipient: self.index_fund_recipient,
                index_fund_recipient_token_account,
                user_token_account: swap_params.source_token_account,
                user: swap_params.token_transfer_authority,
            }.to_account_metas()
        } else {
            SwapSolForToken {
                global_config: self.global_config,
                bonding_curve: self.key,
                mint: self.state.token,
                bonding_curve_token_vault,
                sol_vault,
                user_token_account: swap_params.destination_token_account,
                user: swap_params.token_transfer_authority,
            }.to_account_metas()
        };
        Ok(SwapAndAccountMetas { swap: Swap::PumpkinSwap { sol_out }, account_metas })
    }

    /// Whether the pool still trades: it does until it is complete.
    pub fn is_active(&self) -> (active: bool)
        ensures
            active == self@.is_active(),
    {
        !self.state.complete
    }
}

} // verus!
