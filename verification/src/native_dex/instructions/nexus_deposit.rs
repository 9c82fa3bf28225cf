//! Deposits of a wallet into the nexus.
use vstd::prelude::*;

use crate::account::{AccountInfo, Context};
use crate::actions::TokenTransfer;
use crate::address::address_eq;
use crate::error::{DexError, ProgramError};
use crate::native_dex::constants::{DexParams, NEXUS_DEPOSIT_SOURCE_DIRECT};
use crate::native_dex::events::NexusDeposited;
use crate::native_dex::nexus::{
    count_deposit, counted, expected_mint, mint_of_kind, principal, principal_floor,
};
use crate::native_dex::state::LiquidityNexus;
use crate::native_dex::validation::{read_token_account_mint, read_token_account_owner};
use crate::seeds::SignedBy;

verus! {

/// The accounts of a deposit into the nexus.
pub struct NexusDeposit {
    pub depositor: AccountInfo,
    pub liquidity_nexus: AccountInfo,
    pub depositor_token_ata: AccountInfo,
    pub nexus_token_ata: AccountInfo,
}

/// An accepted deposit into the nexus.
#[derive(Clone, Copy, Debug, PartialEq, Eq)]
pub struct NexusDepositOutcome {
    pub nexus: LiquidityNexus,
    pub transfer: TokenTransfer,
    pub event: NexusDeposited,
}

/// What a deposit into the nexus does, or why it is refused. The receiving account must hold the
/// tagged token and belong to the nexus.
pub open spec fn nexus_deposit_result(
    params: DexParams,
    accounts: NexusDeposit,
    nexus: LiquidityNexus,
    amount: u64,
    token_kind: u8,
    now: i64,
) -> Result<NexusDepositOutcome, ProgramError> {
    let ata = accounts.nexus_token_ata;
    if amount == 0 {
        Err(ProgramError::Dex(DexError::ZeroAmount))
    } else {
        match (mint_of_kind(token_kind, params), ata.token_mint(), ata.token_owner()) {
            (Err(e), _, _) => Err(e),
            (_, Err(e), _) => Err(e),
            (Ok(expected), Ok(mint), owner) => if mint != expected {
                Err(ProgramError::Dex(DexError::InvalidNexusToken))
            } else {
                match owner {
                    Err(e) => Err(e),
                    Ok(owner) => if owner != accounts.liquidity_nexus.address {
                        Err(ProgramError::Dex(DexError::InvalidTokenAccount))
                    } else {
                        match counted(nexus, token_kind, amount) {
                            Err(e) => Err(e),
                            Ok(after) => Ok(
                                NexusDepositOutcome {
                                    nexus: after,
                                    transfer: TokenTransfer {
                                        from: accounts.depositor_token_ata.address,
                                        to: ata.address,
                                        authority: accounts.depositor.address,
                                        amount,
                                        signed_by: SignedBy::Transaction,
                                    },
                                    event: NexusDeposited {
                                        token_mint: expected,
                                        amount,
                                        new_total_deposited: principal(after, token_kind),
                                        source_kind: NEXUS_DEPOSIT_SOURCE_DIRECT,
                                        timestamp: now,
                                    },
                                },
                            ),
                        }
                    },
                }
            },
        }
    }
}

/// Takes a wallet's tokens into the nexus and counts them. Anyone may deposit.
pub fn handler(
    ctx: &Context<'_, NexusDeposit>,
    params: &DexParams,
    nexus: &LiquidityNexus,
    amount: u64,
    token_kind: u8,
) -> (r: Result<NexusDepositOutcome, ProgramError>)
    ensures
        r == nexus_deposit_result(*params, *ctx.accounts, *nexus, amount, token_kind, ctx.now),
{
    if amount == 0 {
        return Err(ProgramError::Dex(DexError::ZeroAmount));
    }
    let expected = match expected_mint(token_kind, params) {
        Err(e) => {
            return Err(e);
        },
        Ok(expected) => expected,
    };
    let ata = &ctx.accounts.nexus_token_ata;
    match read_token_account_mint(ata) {
        Err(e) => {
            return Err(e);
        },
        Ok(mint) => {
            if !address_eq(&mint, &expected) {
                return Err(ProgramError::Dex(DexError::InvalidNexusToken));
            }
        },
    }
    match read_token_account_owner(ata) {
        Err(e) => {
            return Err(e);
        },
        Ok(owner) => {
            if !address_eq(&owner, &ctx.accounts.liquidity_nexus.address) {
                return Err(ProgramError::Dex(DexError::InvalidTokenAccount));
            }
        },
    }
    let after = match count_deposit(nexus, token_kind, amount) {
        Err(e) => {
            return Err(e);
        },
        Ok(after) => after,
    };
    Ok(
        NexusDepositOutcome {
            nexus: after,
            transfer: TokenTransfer {
                from: ctx.accounts.depositor_token_ata.address,
                to: ata.address,
                authority: ctx.accounts.depositor.address,
                amount,
                signed_by: SignedBy::Transaction,
            },
            event: NexusDeposited {
                token_mint: expected,
                amount,
                new_total_deposited: principal_floor(&after, token_kind),
                source_kind: NEXUS_DEPOSIT_SOURCE_DIRECT,
                timestamp: ctx.now,
            },
        },
    )
}

} // verus!
