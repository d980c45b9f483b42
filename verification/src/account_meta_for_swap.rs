use vstd::prelude::*;

use crate::address::Address;
use crate::instruction::{readonly, writable, AccountMeta};
use crate::programs::{
    associated_token_program, associated_token_program_id, system_program, system_program_id,
    token_program, token_program_id,
};

verus! {

/// The accounts of a swap that pays in the native asset and pays out the token.
#[derive(Clone, Copy, Debug)]
pub struct SwapSolForToken {
    pub global_config: Address,
    pub bonding_curve: Address,
    pub mint: Address,
    pub bonding_curve_token_vault: Address,
    pub sol_vault: Address,
    pub user_token_account: Address,
    pub user: Address,
}

impl SwapSolForToken {
    /// The accounts of the swap in the order in which the program reads
    /// them, each with what the swap may do to it. None of them signs.
    pub open spec fn account_metas(&self) -> Seq<AccountMeta> {
        seq![
            writable(self.global_config),
            writable(self.bonding_curve),
            readonly(self.mint),
            writable(self.bonding_curve_token_vault),
            writable(self.sol_vault),
            writable(self.user_token_account),
            writable(self.user),
            readonly(token_program()),
            readonly(associated_token_program()),
            readonly(system_program()),
        ]
    }

    /// The account list of this swap.
    pub fn to_account_metas(&self) -> (metas: Vec<AccountMeta>)
        ensures
            metas@ == self.account_metas(),
    {
        let metas: Vec<AccountMeta> = vec![
            AccountMeta::new(self.global_config, false),
            AccountMeta::new(self.bonding_curve, false),
            AccountMeta::new_readonly(self.mint, false),
            AccountMeta::new(self.bonding_curve_token_vault, false),
            AccountMeta::new(self.sol_vault, false),
            AccountMeta::new(self.user_token_account, false),
            AccountMeta::new(self.user, false),
            AccountMeta::new_readonly(token_program_id(), false),
            AccountMeta::new_readonly(associated_token_program_id(), false),
            AccountMeta::new_readonly(system_program_id(), false),
        ];
        assert(metas@ =~= self.account_metas());
        metas
    }
}

/// The accounts of a swap that pays in the token and pays out the native asset.
#[derive(Clone, Copy, Debug)]
pub struct SwapTokenForSol {
    pub global_config: Address,
    pub bonding_curve: Address,
    pub mint: Address,
    pub bonding_curve_token_vault: Address,
    pub sol_vault: Address,
    pub index_fund_recipient: Address,
    pub index_fund_recipient_token_account: Address,
    pub user_token_account: Address,
    pub user: Address,
}

impl SwapTokenForSol {
    /// The accounts of the swap in the order in which the program reads
    /// them, each with what the swap may do to it. None of them signs.
    pub open spec fn account_metas(&self) -> Seq<AccountMeta> {
        seq![
            readonly(self.global_config),
            writable(self.bonding_curve),
            writable(self.mint),
            writable(self.bonding_curve_token_vault),
            writable(self.sol_vault),
            readonly(self.index_fund_recipient),
            writable(self.index_fund_recipient_token_account),
            writable(self.user_token_account),
            writable(self.user),
            readonly(token_program()),
            readonly(associated_token_program()),
            readonly(system_program()),
        ]
    }

    /// The account list of this swap.
    pub fn to_account_metas(&self) -> (metas: Vec<AccountMeta>)
        ensures
            metas@ == self.account_metas(),
    {
        let metas: Vec<AccountMeta> = vec![
            AccountMeta::new_readonly(self.global_config, false),
            AccountMeta::new(self.bonding_curve, false),
            AccountMeta::new(self.mint, false),
            AccountMeta::new(self.bonding_curve_token_vault, false),
            AccountMeta::new(self.sol_vault, false),
            AccountMeta::new_readonly(self.index_fund_recipient, false),
            AccountMeta::new(self.index_fund_recipient_token_account, false),
            AccountMeta::new(self.user_token_account, false),
            AccountMeta::new(self.user, false),
            AccountMeta::new_readonly(token_program_id(), false),
            AccountMeta::new_readonly(associated_token_program_id(), false),
            AccountMeta::new_readonly(system_program_id(), false),
        ];
        assert(metas@ =~= self.account_metas());
        metas
    }
}

} // verus!
