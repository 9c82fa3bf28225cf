//! Checks that several instructions share.
use vstd::prelude::*;

use crate::account::AccountInfo;
use crate::address::{address_eq, is_zero_address, zero_address, Address};
use crate::error::{DexError, ProgramError};
use crate::native_dex::constants::DexParams;
use crate::native_dex::state::LiquidityNexus;

pub use crate::account::{
    read_token_account_amount, read_token_account_mint, read_token_account_owner,
};

verus! {

/// Whether `vault` is the expected one.
pub open spec fn vault_matches(vault: AccountInfo, expected: Address) -> Result<(), ProgramError> {
    if vault.address == expected {
        Ok(())
    } else {
        Err(ProgramError::Dex(DexError::InvalidVault))
    }
}

/// Refuses a vault account that is not the one stored in the pool.
pub fn validate_vault(vault: &AccountInfo, expected: &Address) -> (r: Result<(), ProgramError>)
    ensures
        r == vault_matches(*vault, *expected),
{
    if address_eq(&vault.address, expected) {
        Ok(())
    } else {
        Err(ProgramError::Dex(DexError::InvalidVault))
    }
}

/// The address of an account.
pub fn pubkey_bytes(account: &AccountInfo) -> (key: Address)
    ensures
        key == account.address,
{
    account.address
}

/// Whether an address is the reward token's mint.
pub fn is_rwt_mint(addr: &Address, params: &DexParams) -> (yes: bool)
    ensures
        yes == (*addr == params.rwt_mint),
{
    address_eq(addr, &params.rwt_mint)
}

/// Which side of a pair is the reward token: `true` for side A.
pub open spec fn rwt_side(token_a_mint: Address, token_b_mint: Address, params: DexParams) -> Result<
    bool,
    ProgramError,
> {
    if token_a_mint == params.rwt_mint {
        Ok(true)
    } else if token_b_mint == params.rwt_mint {
        Ok(false)
    } else {
        Err(ProgramError::Dex(DexError::MissingRwtMint))
    }
}

/// Which side of a pair is the reward token: `true` for side A.
pub fn token_a_is_rwt(
    token_a_mint: &Address,
    token_b_mint: &Address,
    params: &DexParams,
) -> (side: Result<bool, ProgramError>)
    ensures
        side == rwt_side(*token_a_mint, *token_b_mint, *params),
{
    if is_rwt_mint(token_a_mint, params) {
        Ok(true)
    } else if is_rwt_mint(token_b_mint, params) {
        Ok(false)
    } else {
        Err(ProgramError::Dex(DexError::MissingRwtMint))
    }
}

/// Whether `signer` may trade for the nexus. A zero manager refuses everyone, whoever signs.
pub open spec fn manager_check(nexus: LiquidityNexus, signer: Address) -> Result<(), ProgramError> {
    if nexus.manager == zero_address() {
        Err(ProgramError::Dex(DexError::NexusManagerDisabled))
    } else if signer != nexus.manager {
        Err(ProgramError::Dex(DexError::InvalidNexusManager))
    } else {
        Ok(())
    }
}

/// Refuses everyone while the manager is the zero address, and anyone but the manager otherwise.
pub fn assert_manager(nexus: &LiquidityNexus, signer: &AccountInfo) -> (r: Result<(), ProgramError>)
    ensures
        r == manager_check(*nexus, signer.address),
{
    if is_zero_address(&nexus.manager) {
        return Err(ProgramError::Dex(DexError::NexusManagerDisabled));
    }
    if !address_eq(&signer.address, &nexus.manager) {
        return Err(ProgramError::Dex(DexError::InvalidNexusManager));
    }
    Ok(())
}

} // verus!
