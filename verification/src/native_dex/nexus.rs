//! What the instructions of the nexus share.
use vstd::prelude::*;

use crate::account::AccountInfo;
use crate::address::{zero_address, Address};
use crate::error::{DexError, ProgramError};
use crate::native_dex::constants::{DexParams, TOKEN_KIND_RWT, TOKEN_KIND_USDC};
use crate::native_dex::state::LiquidityNexus;
use crate::native_dex::validation::{assert_manager, manager_check};
use crate::seeds::SignedBy;

verus! {

/// The mint that a token tag stands for.
pub open spec fn mint_of_kind(token_kind: u8, params: DexParams) -> Result<Address, ProgramError> {
    if token_kind == TOKEN_KIND_USDC {
        Ok(params.usdc_mint)
    } else if token_kind == TOKEN_KIND_RWT {
        Ok(params.rwt_mint)
    } else {
        Err(ProgramError::Dex(DexError::InvalidNexusToken))
    }
}

/// The mint that a token tag stands for.
pub fn expected_mint(token_kind: u8, params: &DexParams) -> (mint: Result<Address, ProgramError>)
    ensures
        mint == mint_of_kind(token_kind, *params),
{
    if token_kind == TOKEN_KIND_USDC {
        Ok(params.usdc_mint)
    } else if token_kind == TOKEN_KIND_RWT {
        Ok(params.rwt_mint)
    } else {
        Err(ProgramError::Dex(DexError::InvalidNexusToken))
    }
}

/// What was deposited so far of the token that a tag stands for. It must never leave the nexus.
pub open spec fn principal(nexus: LiquidityNexus, token_kind: u8) -> u64 {
    if token_kind == TOKEN_KIND_USDC {
        nexus.total_deposited_usdc
    } else {
        nexus.total_deposited_rwt
    }
}

/// What was deposited so far of the token that a tag stands for.
pub fn principal_floor(nexus: &LiquidityNexus, token_kind: u8) -> (floor: u64)
    ensures
        floor == principal(*nexus, token_kind),
{
    if token_kind == TOKEN_KIND_USDC {
        nexus.total_deposited_usdc
    } else {
        nexus.total_deposited_rwt
    }
}

/// The nexus after a deposit of `amount`: one counter grows by it, the other stays.
pub open spec fn counted(nexus: LiquidityNexus, token_kind: u8, amount: u64) -> Result<
    LiquidityNexus,
    ProgramError,
> {
    if !nexus.is_active {
        Err(ProgramError::Dex(DexError::NexusNotActive))
    } else if principal(nexus, token_kind) + amount > u64::MAX {
        Err(ProgramError::Dex(DexError::MathOverflow))
    } else if token_kind == TOKEN_KIND_USDC {
        Ok(
            LiquidityNexus {
                total_deposited_usdc: (nexus.total_deposited_usdc + amount) as u64,
                ..nexus
            },
        )
    } else {
        Ok(
            LiquidityNexus {
                total_deposited_rwt: (nexus.total_deposited_rwt + amount) as u64,
                ..nexus
            },
        )
    }
}

/// Counts a deposit of `amount`.
pub fn count_deposit(nexus: &LiquidityNexus, token_kind: u8, amount: u64) -> (r: Result<
    LiquidityNexus,
    ProgramError,
>)
    ensures
        r == counted(*nexus, token_kind, amount),
{
    if !nexus.is_active {
        return Err(ProgramError::Dex(DexError::NexusNotActive));
    }
    let mut updated = *nexus;
    if token_kind == TOKEN_KIND_USDC {
        match nexus.total_deposited_usdc.checked_add(amount) {
            None => {
                return Err(ProgramError::Dex(DexError::MathOverflow));
            },
            Some(total) => {
                updated.total_deposited_usdc = total;
            },
        }
    } else {
        match nexus.total_deposited_rwt.checked_add(amount) {
            None => {
                return Err(ProgramError::Dex(DexError::MathOverflow));
            },
            Some(total) => {
                updated.total_deposited_rwt = total;
            },
        }
    }
    Ok(updated)
}

/// Neither deposit counter ever falls, and only the deposited token's grows.
pub proof fn deposits_never_fall(nexus: LiquidityNexus, token_kind: u8, other_kind: u8, amount: u64)
    requires
        token_kind == TOKEN_KIND_USDC || token_kind == TOKEN_KIND_RWT,
        other_kind == TOKEN_KIND_USDC || other_kind == TOKEN_KIND_RWT,
        other_kind != token_kind,
    ensures
        counted(nexus, token_kind, amount) matches Ok(after) ==> principal(after, token_kind)
            == principal(nexus, token_kind) + amount && principal(after, other_kind) == principal(
            nexus,
            other_kind,
        ) && after.manager == nexus.manager && after.is_active == nexus.is_active,
{
}

/// Whether `manager` may trade for the nexus now, and the signature under which it then acts.
pub open spec fn manager_gate(nexus: LiquidityNexus, manager: Address) -> Result<
    SignedBy,
    ProgramError,
> {
    if !nexus.is_active {
        Err(ProgramError::Dex(DexError::NexusNotActive))
    } else {
        match manager_check(nexus, manager) {
            Err(e) => Err(e),
            Ok(_) => Ok(SignedBy::Nexus { bump: nexus.bump }),
        }
    }
}

/// Lets the manager of an active nexus act under the nexus's signature.
pub fn pass_manager_gate(nexus: &LiquidityNexus, manager: &AccountInfo) -> (r: Result<
    SignedBy,
    ProgramError,
>)
    ensures
        r == manager_gate(*nexus, manager.address),
{
    if !nexus.is_active {
        return Err(ProgramError::Dex(DexError::NexusNotActive));
    }
    match assert_manager(nexus, manager) {
        Err(e) => Err(e),
        Ok(_) => Ok(SignedBy::Nexus { bump: nexus.bump }),
    }
}

/// While the manager is the zero address nobody may trade for the nexus, not even a signer whose
/// address is all zero.
pub proof fn zero_manager_refuses_everyone(nexus: LiquidityNexus, signer: Address)
    requires
        nexus.manager == zero_address(),
    ensures
        manager_check(nexus, signer) == Err::<(), ProgramError>(
            ProgramError::Dex(DexError::NexusManagerDisabled),
        ),
        manager_gate(nexus, signer) is Err,
{
}

} // verus!
