//! Payouts of the treasury.
use vstd::prelude::*;

use crate::account::{read_token_account_mint, AccountInfo, Context};
use crate::actions::TokenTransfer;
use crate::address::address_eq;
use crate::bytes::{address_at, read_address};
use crate::error::{OtError, ProgramError};
use crate::ownership_token::events::TreasurySpent;
use crate::ownership_token::state::{OtGovernance, OtTreasury};
use crate::seeds::SignedBy;

verus! {

/// The accounts of a payout.
pub struct SpendTreasury {
    pub authority: AccountInfo,
    pub ot_mint: AccountInfo,
    pub ot_governance: AccountInfo,
    pub ot_treasury: AccountInfo,
    pub treasury_token_account: AccountInfo,
    pub destination_token_account: AccountInfo,
    pub token_mint: AccountInfo,
    pub token_program: AccountInfo,
}

/// What a payout does, or why it is refused. The source must be the treasury's, and source and
/// destination must hold the named token.
pub open spec fn spend_result(
    accounts: SpendTreasury,
    governance: OtGovernance,
    treasury: OtTreasury,
    amount: u64,
    now: i64,
) -> Result<(TokenTransfer, TreasurySpent), ProgramError> {
    let source = accounts.treasury_token_account;
    if amount == 0 {
        Err(ProgramError::Ot(OtError::ZeroAmount))
    } else if !governance.is_active {
        Err(ProgramError::Ot(OtError::GovernanceInactive))
    } else if source.data@.len() < 64 {
        Err(ProgramError::InvalidAccountData)
    } else if address_at(source.data@, 0) != accounts.token_mint.address {
        Err(ProgramError::Ot(OtError::TokenMintMismatch))
    } else if address_at(source.data@, 32) != accounts.ot_treasury.address {
        Err(ProgramError::Ot(OtError::InvalidTokenAccountOwner))
    } else {
        match accounts.destination_token_account.token_mint() {
            Err(e) => Err(e),
            Ok(mint) => if mint != accounts.token_mint.address {
                Err(ProgramError::Ot(OtError::TokenMintMismatch))
            } else {
                Ok(
                    (
                        TokenTransfer {
                            from: source.address,
                            to: accounts.destination_token_account.address,
                            authority: accounts.ot_treasury.address,
                            amount,
                            signed_by: SignedBy::OtTreasury {
                                ot_mint: treasury.ot_mint,
                                bump: treasury.bump,
                            },
                        },
                        TreasurySpent {
                            ot_mint: treasury.ot_mint,
                            token_mint: accounts.token_mint.address,
                            amount,
                            destination: accounts.destination_token_account.address,
                            timestamp: now,
                        },
                    ),
                )
            },
        }
    }
}

/// Pays tokens of the treasury out to any account of the same token.
pub fn handler(
    ctx: &Context<'_, SpendTreasury>,
    governance: &OtGovernance,
    treasury: &OtTreasury,
    amount: u64,
) -> (r: Result<(TokenTransfer, TreasurySpent), ProgramError>)
    ensures
        r == spend_result(*ctx.accounts, *governance, *treasury, amount, ctx.now),
{
    let a = ctx.accounts;
    let source = &a.treasury_token_account;
    if amount == 0 {
        return Err(ProgramError::Ot(OtError::ZeroAmount));
    }
    if !governance.is_active {
        return Err(ProgramError::Ot(OtError::GovernanceInactive));
    }
    if source.data.len() < 64 {
        return Err(ProgramError::InvalidAccountData);
    }
    let source_mint = read_address(&source.data, 0);
    if !address_eq(&source_mint, &a.token_mint.address) {
        return Err(ProgramError::Ot(OtError::TokenMintMismatch));
    }
    let source_owner = read_address(&source.data, 32);
    if !address_eq(&source_owner, &a.ot_treasury.address) {
        return Err(ProgramError::Ot(OtError::InvalidTokenAccountOwner));
    }
    match read_token_account_mint(&a.destination_token_account) {
        Err(e) => {
            return Err(e);
        },
        Ok(mint) => {
            if !address_eq(&mint, &a.token_mint.address) {
                return Err(ProgramError::Ot(OtError::TokenMintMismatch));
            }
        },
    }
    Ok(
        (
            TokenTransfer {
                from: source.address,
                to: a.destination_token_account.address,
                authority: a.ot_treasury.address,
                amount,
                signed_by: SignedBy::OtTreasury { ot_mint: treasury.ot_mint, bump: treasury.bump },
            },
            TreasurySpent {
                ot_mint: treasury.ot_mint,
                token_mint: a.token_mint.address,
                amount,
                destination: a.destination_token_account.address,
                timestamp: ctx.now,
            },
        ),
    )
}

} // verus!
