use vstd::prelude::*;

use crate::address::Address;
use crate::constants::{GLOBAL_CONFIG_SEED, SOL_VAULT_SEED};
use crate::programs::{
    associated_token_program, associated_token_program_id, token_program, token_program_id,
};

verus! {

/// The address that a program derives from a list of seeds, where one exists:
/// the result of the ledger's search for a bump seed that leads off the curve.
/// It depends on the seeds and the program alone.
pub uninterp spec fn program_address(seeds: Seq<Seq<u8>>, program_id: Seq<u8>) -> Option<Seq<u8>>;

/// The seeds of a slice of byte slices, each as the sequence of its bytes.
pub open spec fn seeds_view(seeds: &[&[u8]]) -> Seq<Seq<u8>> {
    Seq::new(seeds@.len(), |i: int| seeds@[i]@)
}

/// The bytes of an address that may be missing.
pub open spec fn address_bytes(address: Option<Address>) -> Option<Seq<u8>> {
    match address {
        Some(found) => Some(found@),
        None => None,
    }
}

/// The address that `program_id` derives from `seeds`, where one exists.
pub open spec fn derived_address(seeds: Seq<Seq<u8>>, program_id: Address) -> Option<Address> {
    match program_address(seeds, program_id@) {
        Some(bytes) => Some(Address::from_seq(bytes)),
        None => None,
    }
}

/// The address of the configuration account of a program, where one exists.
pub open spec fn global_config_address(program_id: Address) -> Option<Address> {
    derived_address(seq![GLOBAL_CONFIG_SEED@], program_id)
}

/// The address of the native-asset vault of a program, where one exists.
pub open spec fn sol_vault_address(program_id: Address) -> Option<Address> {
    derived_address(seq![SOL_VAULT_SEED@], program_id)
}

/// The address of the account in which `wallet` holds tokens of `mint`, where
/// one exists: the address that the associated-token program derives from the
/// wallet, the token program and the mint, in this order.
pub open spec fn associated_token_address(wallet: Address, mint: Address) -> Option<Address> {
    derived_address(seq![wallet@, token_program()@, mint@], associated_token_program())
}

/// Calls `Pubkey::try_find_program_address` and keeps the address, without
/// its bump seed.
///
/// Trusted: the result is `program_address` of the arguments. The outside
/// function returns `None`, and does not panic, where the seeds are too many
/// or too long or where no bump seed gives an address.
#[verifier::external_body]
fn try_find_program_address(seeds: &[&[u8]], program_id: &Address) -> (found: Option<Address>)
    ensures
        address_bytes(found) == program_address(seeds_view(seeds), program_id@),
{
    let program = anchor_lang::prelude::Pubkey::new_from_array(program_id.bytes);
    anchor_lang::prelude::Pubkey::try_find_program_address(seeds, &program).map(
        |found| Address { bytes: found.0.to_bytes() },
    )
}

/// Derives the address that `program_id` owns under the single seed `tag`.
pub fn derive_address(program_id: &Address, tag: &[u8]) -> (address: Option<Address>)
    ensures
        address == derived_address(seq![tag@], *program_id),
{
    let seeds: [&[u8]; 1] = [tag];
    let seeds: &[&[u8]] = seeds.as_slice();
    assert(seeds_view(seeds) =~= seq![tag@]);
    let address = try_find_program_address(seeds, program_id);
    proof {
        if let Some(found) = address {
            found.lemma_from_seq_of_view();
        }
    }
    address
}

/// The address of the configuration account of the bonding-curve program.
pub fn get_global_config_address(bounding_curve_program: &Address) -> (address: Option<Address>)
    ensures
        address == global_config_address(*bounding_curve_program),
{
    derive_address(bounding_curve_program, GLOBAL_CONFIG_SEED.as_slice())
}

/// The address of the account in which the bonding-curve program keeps the
/// native asset.
pub fn get_sol_vault_address(bounding_curve_program: &Address) -> (address: Option<Address>)
    ensures
        address == sol_vault_address(*bounding_curve_program),
{
    derive_address(bounding_curve_program, SOL_VAULT_SEED.as_slice())
}

/// The address of the token account that belongs to a wallet and a mint.
pub fn get_associated_token_address(
    wallet_address: &Address,
    token_mint_address: &Address,
) -> (address: Option<Address>)
    ensures
        address == associated_token_address(*wallet_address, *token_mint_address),
{
    let token_program_id = token_program_id();
    let program = associated_token_program_id();
    let seeds: [&[u8]; 3] = [
        wallet_address.bytes.as_slice(),
        token_program_id.bytes.as_slice(),
        token_mint_address.bytes.as_slice(),
    ];
    let seeds: &[&[u8]] = seeds.as_slice();
    assert(seeds_view(seeds) =~= seq![wallet_address@, token_program()@, token_mint_address@]);
    let address = try_find_program_address(seeds, &program);
    proof {
        if let Some(found) = address {
            found.lemma_from_seq_of_view();
        }
    }
    address
}

} // verus!
