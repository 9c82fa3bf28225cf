//! Minting of an ownership token.
use vstd::prelude::*;

use crate::account::{AccountInfo, Context};
use crate::actions::{CreateAssociatedAccount, MintTokens};
use crate::error::{OtError, ProgramError};
use crate::ownership_token::events::OtMinted;
use crate::ownership_token::state::{OtConfig, OtGovernance};
use crate::seeds::SignedBy;

verus! {

/// The accounts of a minting.
pub struct MintOt {
    pub authority: AccountInfo,
    pub ot_governance: AccountInfo,
    pub ot_config: AccountInfo,
    pub ot_mint: AccountInfo,
    pub recipient_token_account: AccountInfo,
    pub recipient: AccountInfo,
    pub payer: AccountInfo,
    pub token_program: AccountInfo,
    pub system_program: AccountInfo,
    pub ata_program: AccountInfo,
}

/// An accepted minting.
#[derive(Clone, Copy, Debug, PartialEq, Eq)]
pub struct MintOutcome {
    pub config: OtConfig,
    /// Makes the recipient's token account where there is none.
    pub create: CreateAssociatedAccount,
    pub mint: MintTokens,
    pub event: OtMinted,
}

/// What a minting does, or why it is refused.
pub open spec fn mint_result(
    accounts: MintOt,
    governance: OtGovernance,
    config: OtConfig,
    amount: u64,
    now: i64,
) -> Result<MintOutcome, ProgramError> {
    if amount == 0 {
        Err(ProgramError::Ot(OtError::ZeroAmount))
    } else if !governance.is_active {
        Err(ProgramError::Ot(OtError::GovernanceInactive))
    } else if config.total_minted + amount > u64::MAX {
        Err(ProgramError::Ot(OtError::MathOverflow))
    } else {
        let total = (config.total_minted + amount) as u64;
        Ok(
            MintOutcome {
                config: OtConfig { total_minted: total, ..config },
                create: CreateAssociatedAccount {
                    payer: accounts.payer.address,
                    account: accounts.recipient_token_account.address,
                    wallet: accounts.recipient.address,
                    mint: accounts.ot_mint.address,
                    keep_existing: true,
                },
                mint: MintTokens {
                    mint: accounts.ot_mint.address,
                    account: accounts.recipient_token_account.address,
                    mint_authority: accounts.ot_config.address,
                    amount,
                    signed_by: SignedBy::OtConfig { ot_mint: config.ot_mint, bump: config.bump },
                },
                event: OtMinted {
                    ot_mint: config.ot_mint,
                    recipient: accounts.recipient.address,
                    amount,
                    new_total_minted: total,
                    timestamp: now,
                },
            },
        )
    }
}

/// Mints ownership tokens to any wallet.
pub fn handler(
    ctx: &Context<'_, MintOt>,
    governance: &OtGovernance,
    config: &OtConfig,
    amount: u64,
) -> (r: Result<MintOutcome, ProgramError>)
    ensures
        r == mint_result(*ctx.accounts, *governance, *config, amount, ctx.now),
{
    let a = ctx.accounts;
    if amount == 0 {
        return Err(ProgramError::Ot(OtError::ZeroAmount));
    }
    if !governance.is_active {
        return Err(ProgramError::Ot(OtError::GovernanceInactive));
    }
    let total: u64 = match config.total_minted.checked_add(amount) {
        None => {
            return Err(ProgramError::Ot(OtError::MathOverflow));
        },
        Some(total) => total,
    };
    let mut updated = *config;
    updated.total_minted = total;
    Ok(
        MintOutcome {
            config: updated,
            create: CreateAssociatedAccount {
                payer: a.payer.address,
                account: a.recipient_token_account.address,
                wallet: a.recipient.address,
                mint: a.ot_mint.address,
                keep_existing: true,
            },
            mint: MintTokens {
                mint: a.ot_mint.address,
                account: a.recipient_token_account.address,
                mint_authority: a.ot_config.address,
                amount,
                signed_by: SignedBy::OtConfig { ot_mint: config.ot_mint, bump: config.bump },
            },
            event: OtMinted {
                ot_mint: config.ot_mint,
                recipient: a.recipient.address,
                amount,
                new_total_minted: total,
                timestamp: ctx.now,
            },
        },
    )
}

/// The counter rises by exactly what is minted, so after two mintings it counts both.
pub proof fn counter_matches_mints(
    accounts: MintOt,
    governance: OtGovernance,
    config: OtConfig,
    first: u64,
    second: u64,
    now: i64,
    later: i64,
)
    ensures
        mint_result(accounts, governance, config, first, now) matches Ok(one) ==> {
            &&& one.config.total_minted == config.total_minted + one.mint.amount
            &&& mint_result(accounts, governance, one.config, second, later) matches Ok(two)
                ==> two.config.total_minted == config.total_minted + one.mint.amount
                + two.mint.amount
        },
{
}

} // verus!
