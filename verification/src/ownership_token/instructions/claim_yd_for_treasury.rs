//! Yield that the treasury claims from the yield program.
use vstd::prelude::*;

use crate::account::{read_token_account_amount, AccountInfo, Context};
use crate::address::{address_eq, derived_address, find_address_2, Address};
use crate::bytes::{address_at, read_address, read_u64, u64_at};
use crate::calls::{cpi_yd_claim, is_claim_call, Instruction, YdClaim};
use crate::error::{OtError, ProgramError};
use crate::ownership_token::events::TreasuryYieldClaimed;
use crate::programs::yd_program_id;
use crate::seeds::{ot_treasury_seed, SignedBy};

verus! {

/// The accounts of a claim. The token whose yield is claimed may differ from the treasury's own.
pub struct ClaimYdForTreasury {
    pub crank: AccountInfo,
    pub ot_mint: AccountInfo,
    pub ot_treasury: AccountInfo,
    pub treasury_rwt_ata: AccountInfo,
    pub yd_config: AccountInfo,
    pub yd_ot_mint: AccountInfo,
    pub yd_distributor: AccountInfo,
    pub yd_claim_status: AccountInfo,
    pub yd_reward_vault: AccountInfo,
    pub yd_program: AccountInfo,
    pub token_program: AccountInfo,
    pub system_program: AccountInfo,
}

/// What a claim does before the yield program answers.
#[derive(Clone, Copy, Debug, PartialEq, Eq)]
pub struct TreasuryClaimPlan {
    pub claim: YdClaim,
    /// The treasury's own token.
    pub ot_mint: Address,
    /// The treasury's reward balance before the claim.
    pub before: u64,
}

/// The claim that the treasury makes, signed with its derived address's `bump`.
pub open spec fn treasury_claim(accounts: ClaimYdForTreasury, bump: u8) -> YdClaim {
    YdClaim {
        claimant: accounts.ot_treasury.address,
        payer: accounts.crank.address,
        config: accounts.yd_config.address,
        ot_mint: accounts.yd_ot_mint.address,
        distributor: accounts.yd_distributor.address,
        claim_status: accounts.yd_claim_status.address,
        reward_vault: accounts.yd_reward_vault.address,
        claimant_token: accounts.treasury_rwt_ata.address,
        token_program: accounts.token_program.address,
        system_program: accounts.system_program.address,
        program: accounts.yd_program.address,
        signed_by: SignedBy::OtTreasury { ot_mint: accounts.ot_mint.address, bump },
    }
}

/// What a claim asks of the yield program, or why it is refused before that. The receiving
/// account must hold reward tokens and belong to the treasury.
pub open spec fn treasury_claim_plan(
    accounts: ClaimYdForTreasury,
    program_id: Address,
    rwt_mint: Address,
) -> Result<TreasuryClaimPlan, ProgramError> {
    let ata = accounts.treasury_rwt_ata;
    if accounts.yd_program.address != yd_program_id() {
        Err(ProgramError::Ot(OtError::InvalidYdProgram))
    } else {
        match derived_address(
            seq![ot_treasury_seed()@, accounts.ot_mint.address@],
            program_id@,
        ) {
            None => Err(ProgramError::InvalidSeeds),
            Some((treasury, bump)) => if accounts.ot_treasury.address != treasury {
                Err(ProgramError::Ot(OtError::InvalidOtTreasuryPda))
            } else if ata.data@.len() < 72 {
                Err(ProgramError::InvalidAccountData)
            } else if address_at(ata.data@, 0) != rwt_mint {
                Err(ProgramError::Ot(OtError::InvalidTreasuryAtaMint))
            } else if address_at(ata.data@, 32) != accounts.ot_treasury.address {
                Err(ProgramError::Ot(OtError::InvalidTreasuryAtaOwner))
            } else {
                Ok(
                    TreasuryClaimPlan {
                        claim: treasury_claim(accounts, bump),
                        ot_mint: accounts.ot_mint.address,
                        before: u64_at(ata.data@, 64),
                    },
                )
            },
        }
    }
}

/// Prepares a claim: checks the accounts, and builds the call into the yield program.
pub fn handler(
    ctx: &Context<'_, ClaimYdForTreasury>,
    rwt_mint: &Address,
    cumulative_amount: u64,
    merkle_proof: &Vec<Address>,
) -> (r: Result<(TreasuryClaimPlan, Instruction), ProgramError>)
    requires
        merkle_proof@.len() <= u32::MAX,
    ensures
        match (r, treasury_claim_plan(*ctx.accounts, *ctx.program_id, *rwt_mint)) {
            (Ok((plan, call)), Ok(expected)) => plan == expected && is_claim_call(
                call,
                expected.claim,
                cumulative_amount,
                merkle_proof@,
            ),
            (Err(e), Err(expected)) => e == expected,
            _ => false,
        },
{
    let a = ctx.accounts;
    let ata = &a.treasury_rwt_ata;
    let yd = yd_program_id();
    if !a.yd_program.is_at(&yd) {
        return Err(ProgramError::Ot(OtError::InvalidYdProgram));
    }
    let seed = ot_treasury_seed();
    let (treasury, bump) = match find_address_2(
        seed.as_slice(),
        a.ot_mint.address.as_slice(),
        ctx.program_id,
    ) {
        None => {
            return Err(ProgramError::InvalidSeeds);
        },
        Some(found) => found,
    };
    if !a.ot_treasury.is_at(&treasury) {
        return Err(ProgramError::Ot(OtError::InvalidOtTreasuryPda));
    }
    if ata.data.len() < 72 {
        return Err(ProgramError::InvalidAccountData);
    }
    let mint = read_address(&ata.data, 0);
    if !address_eq(&mint, rwt_mint) {
        return Err(ProgramError::Ot(OtError::InvalidTreasuryAtaMint));
    }
    let owner = read_address(&ata.data, 32);
    if !address_eq(&owner, &a.ot_treasury.address) {
        return Err(ProgramError::Ot(OtError::InvalidTreasuryAtaOwner));
    }
    let before: u64 = read_u64(&ata.data, 64);
    let claim = YdClaim {
        claimant: a.ot_treasury.address,
        payer: a.crank.address,
        config: a.yd_config.address,
        ot_mint: a.yd_ot_mint.address,
        distributor: a.yd_distributor.address,
        claim_status: a.yd_claim_status.address,
        reward_vault: a.yd_reward_vault.address,
        claimant_token: ata.address,
        token_program: a.token_program.address,
        system_program: a.system_program.address,
        program: a.yd_program.address,
        signed_by: SignedBy::OtTreasury { ot_mint: a.ot_mint.address, bump },
    };
    let call = cpi_yd_claim(&claim, cumulative_amount, merkle_proof);
    Ok((TreasuryClaimPlan { claim, ot_mint: a.ot_mint.address, before }, call))
}

/// What a claim reports once the yield program has answered; `ata` is the treasury's reward
/// account after the claim. Nothing is reported where nothing arrived.
pub open spec fn treasury_claimed(plan: TreasuryClaimPlan, ata: AccountInfo, now: i64) -> Result<
    Option<TreasuryYieldClaimed>,
    ProgramError,
> {
    match ata.token_amount() {
        Err(e) => Err(e),
        Ok(after) => if after < plan.before {
            Err(ProgramError::Ot(OtError::MathOverflow))
        } else if after == plan.before {
            Ok(None)
        } else {
            Ok(
                Some(
                    TreasuryYieldClaimed {
                        ot_mint: plan.ot_mint,
                        yd_ot_mint: plan.claim.ot_mint,
                        amount: (after - plan.before) as u64,
                        timestamp: now,
                    },
                ),
            )
        },
    }
}

/// Reports what the claim brought.
pub fn finish(plan: &TreasuryClaimPlan, ata: &AccountInfo, now: i64) -> (r: Result<
    Option<TreasuryYieldClaimed>,
    ProgramError,
>)
    ensures
        r == treasury_claimed(*plan, *ata, now),
{
    let after: u64 = match read_token_account_amount(ata) {
        Err(e) => {
            return Err(e);
        },
        Ok(after) => after,
    };
    match after.checked_sub(plan.before) {
        None => Err(ProgramError::Ot(OtError::MathOverflow)),
        Some(amount) => {
            if amount == 0 {
                return Ok(None);
            }
            Ok(
                Some(
                    TreasuryYieldClaimed {
                        ot_mint: plan.ot_mint,
                        yd_ot_mint: plan.claim.ot_mint,
                        amount,
                        timestamp: now,
                    },
                ),
            )
        },
    }
}

} // verus!
