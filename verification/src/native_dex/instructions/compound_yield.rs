//! Yield that a pool claims for itself and adds to its reward reserve.
use vstd::prelude::*;

use crate::account::{read_token_account_amount, AccountInfo, Context};
use crate::address::{derived_address, find_address_3, Address};
use crate::calls::{cpi_yd_claim, is_claim_call, Instruction, YdClaim};
use crate::error::{DexError, ProgramError};
use crate::native_dex::constants::DexParams;
use crate::native_dex::events::CompoundYieldExecuted;
use crate::native_dex::state::PoolState;
use crate::native_dex::validation::is_rwt_mint;
use crate::programs::yd_program_id;
use crate::seeds::{pool_seed, SignedBy};

verus! {

/// The accounts of a compounding.
pub struct CompoundYield {
    pub crank: AccountInfo,
    pub pool_state: AccountInfo,
    pub target_vault: AccountInfo,
    pub yd_config: AccountInfo,
    pub ot_mint: AccountInfo,
    pub yd_distributor: AccountInfo,
    pub yd_claim_status: AccountInfo,
    pub yd_reward_vault: AccountInfo,
    pub yd_program: AccountInfo,
    pub token_program: AccountInfo,
    pub system_program: AccountInfo,
}

/// What a compounding does before the yield program answers.
#[derive(Clone, Copy, Debug, PartialEq, Eq)]
pub struct CompoundPlan {
    pub claim: YdClaim,
    /// `0` where side A is the reward token, `1` where side B is.
    pub rwt_side: u8,
    /// The reward vault's balance before the claim.
    pub before: u64,
}

/// Which side of a pool is the reward token: `0` for A, `1` for B.
pub open spec fn rwt_side_of(pool: PoolState, params: DexParams) -> Option<u8> {
    if pool.token_a_mint == params.rwt_mint {
        Some(0)
    } else if pool.token_b_mint == params.rwt_mint {
        Some(1)
    } else {
        None
    }
}

/// The claim that a compounding makes.
pub open spec fn pool_claim(accounts: CompoundYield, pool: PoolState) -> YdClaim {
    YdClaim {
        claimant: accounts.pool_state.address,
        payer: accounts.crank.address,
        config: accounts.yd_config.address,
        ot_mint: accounts.ot_mint.address,
        distributor: accounts.yd_distributor.address,
        claim_status: accounts.yd_claim_status.address,
        reward_vault: accounts.yd_reward_vault.address,
        claimant_token: accounts.target_vault.address,
        token_program: accounts.token_program.address,
        system_program: accounts.system_program.address,
        program: accounts.yd_program.address,
        signed_by: SignedBy::Pool {
            token_a_mint: pool.token_a_mint,
            token_b_mint: pool.token_b_mint,
            bump: pool.bump,
        },
    }
}

/// What a compounding asks of the yield program, or why it is refused before that.
pub open spec fn compound_plan(
    params: DexParams,
    accounts: CompoundYield,
    program_id: Address,
    pool: PoolState,
) -> Result<CompoundPlan, ProgramError> {
    if accounts.yd_program.address != yd_program_id() {
        Err(ProgramError::Dex(DexError::InvalidYdProgram))
    } else if !pool.is_active {
        Err(ProgramError::Dex(DexError::PoolNotActive))
    } else {
        match rwt_side_of(pool, params) {
            None => Err(ProgramError::Dex(DexError::TargetVaultNotRwt)),
            Some(rwt_side) => {
                let (vault, ot_mint) = if rwt_side == 0 {
                    (pool.vault_a, pool.token_b_mint)
                } else {
                    (pool.vault_b, pool.token_a_mint)
                };
                match derived_address(
                    seq![pool_seed()@, pool.token_a_mint@, pool.token_b_mint@],
                    program_id@,
                ) {
                    None => Err(ProgramError::InvalidSeeds),
                    Some((address, bump)) => if accounts.pool_state.address != address || bump
                        != pool.bump {
                        Err(ProgramError::Dex(DexError::InvalidPoolPda))
                    } else if accounts.target_vault.address != vault {
                        Err(ProgramError::Dex(DexError::InvalidTargetVault))
                    } else if accounts.ot_mint.address != ot_mint {
                        Err(ProgramError::Dex(DexError::InvalidOtMint))
                    } else {
                        match accounts.target_vault.token_amount() {
                            Err(e) => Err(e),
                            Ok(before) => Ok(
                                CompoundPlan {
                                    claim: pool_claim(accounts, pool),
                                    rwt_side,
                                    before,
                                },
                            ),
                        }
                    },
                }
            },
        }
    }
}

/// Prepares a compounding: checks the accounts, and builds the call into the yield program.
pub fn handler(
    ctx: &Context<'_, CompoundYield>,
    params: &DexParams,
    pool: &PoolState,
    cumulative_amount: u64,
    merkle_proof: &Vec<Address>,
) -> (r: Result<(CompoundPlan, Instruction), ProgramError>)
    requires
        merkle_proof@.len() <= u32::MAX,
    ensures
        match (r, compound_plan(*params, *ctx.accounts, *ctx.program_id, *pool)) {
            (Ok((plan, call)), Ok(expected)) => plan == expected && is_claim_call(
                call,
                expected.claim,
                cumulative_amount,
                merkle_proof@,
            ),
            (Err(e), Err(expected)) => e == expected,
            _ => false,
        },
{
    let a = ctx.accounts;
    let yd = yd_program_id();
    if !a.yd_program.is_at(&yd) {
        return Err(ProgramError::Dex(DexError::InvalidYdProgram));
    }
    if !pool.is_active {
        return Err(ProgramError::Dex(DexError::PoolNotActive));
    }
    let rwt_side: u8 = if is_rwt_mint(&pool.token_a_mint, params) {
        0
    } else if is_rwt_mint(&pool.token_b_mint, params) {
        1
    } else {
        return Err(ProgramError::Dex(DexError::TargetVaultNotRwt));
    };
    let seed = pool_seed();
    match find_address_3(
        seed.as_slice(),
        pool.token_a_mint.as_slice(),
        pool.token_b_mint.as_slice(),
        ctx.program_id,
    ) {
        None => {
            return Err(ProgramError::InvalidSeeds);
        },
        Some((address, bump)) => {
            if !a.pool_state.is_at(&address) {
                return Err(ProgramError::Dex(DexError::InvalidPoolPda));
            }
            if bump != pool.bump {
                return Err(ProgramError::Dex(DexError::InvalidPoolPda));
            }
        },
    }
    let (vault, ot_mint) = if rwt_side == 0 {
        (&pool.vault_a, &pool.token_b_mint)
    } else {
        (&pool.vault_b, &pool.token_a_mint)
    };
    if !a.target_vault.is_at(vault) {
        return Err(ProgramError::Dex(DexError::InvalidTargetVault));
    }
    if !a.ot_mint.is_at(ot_mint) {
        return Err(ProgramError::Dex(DexError::InvalidOtMint));
    }
    let before: u64 = match read_token_account_amount(&a.target_vault) {
        Err(e) => {
            return Err(e);
        },
        Ok(before) => before,
    };
    let claim = YdClaim {
        claimant: a.pool_state.address,
        payer: a.crank.address,
        config: a.yd_config.address,
        ot_mint: a.ot_mint.address,
        distributor: a.yd_distributor.address,
        claim_status: a.yd_claim_status.address,
        reward_vault: a.yd_reward_vault.address,
        claimant_token: a.target_vault.address,
        token_program: a.token_program.address,
        system_program: a.system_program.address,
        program: a.yd_program.address,
        signed_by: SignedBy::Pool {
            token_a_mint: pool.token_a_mint,
            token_b_mint: pool.token_b_mint,
            bump: pool.bump,
        },
    };
    let call = cpi_yd_claim(&claim, cumulative_amount, merkle_proof);
    Ok((CompoundPlan { claim, rwt_side, before }, call))
}

/// What a compounding does once the yield program has answered. `target_vault` is the reward
/// vault after the claim. Nothing changes where nothing arrived.
pub open spec fn compounded(
    plan: CompoundPlan,
    target_vault: AccountInfo,
    pool: PoolState,
    now: i64,
) -> Result<Option<(PoolState, CompoundYieldExecuted)>, ProgramError> {
    match target_vault.token_amount() {
        Err(e) => Err(e),
        Ok(after) => if after < plan.before {
            Err(ProgramError::Dex(DexError::MathOverflow))
        } else if after == plan.before {
            Ok(None)
        } else {
            let received = (after - plan.before) as u64;
            let reserve = if plan.rwt_side == 0 {
                pool.reserve_a
            } else {
                pool.reserve_b
            };
            let reserve_after = reserve + received;
            if reserve_after > u64::MAX {
                Err(ProgramError::Dex(DexError::MathOverflow))
            } else {
                let updated = if plan.rwt_side == 0 {
                    PoolState { reserve_a: reserve_after as u64, ..pool }
                } else {
                    PoolState { reserve_b: reserve_after as u64, ..pool }
                };
                Ok(
                    Some(
                        (
                            updated,
                            CompoundYieldExecuted {
                                pool: plan.claim.claimant,
                                ot_mint: plan.claim.ot_mint,
                                rwt_claimed: received,
                                rwt_side: plan.rwt_side,
                                reserve_after: reserve_after as u64,
                                timestamp: now,
                            },
                        ),
                    ),
                )
            }
        },
    }
}

/// Adds what the claim brought to the pool's reward reserve.
pub fn finish(plan: &CompoundPlan, target_vault: &AccountInfo, pool: &PoolState, now: i64) -> (r:
    Result<Option<(PoolState, CompoundYieldExecuted)>, ProgramError>)
    ensures
        r == compounded(*plan, *target_vault, *pool, now),
{
    let after: u64 = match read_token_account_amount(target_vault) {
        Err(e) => {
            return Err(e);
        },
        Ok(after) => after,
    };
    let received: u64 = match after.checked_sub(plan.before) {
        None => {
            return Err(ProgramError::Dex(DexError::MathOverflow));
        },
        Some(received) => received,
    };
    if received == 0 {
        return Ok(None);
    }
    let reserve: u64 = if plan.rwt_side == 0 {
        pool.reserve_a
    } else {
        pool.reserve_b
    };
    let reserve_after: u64 = match reserve.checked_add(received) {
        None => {
            return Err(ProgramError::Dex(DexError::MathOverflow));
        },
        Some(reserve_after) => reserve_after,
    };
    let mut updated = *pool;
    if plan.rwt_side == 0 {
        updated.reserve_a = reserve_after;
    } else {
        updated.reserve_b = reserve_after;
    }
    Ok(
        Some(
            (
                updated,
                CompoundYieldExecuted {
                    pool: plan.claim.claimant,
                    ot_mint: plan.claim.ot_mint,
                    rwt_claimed: received,
                    rwt_side: plan.rwt_side,
                    reserve_after,
                    timestamp: now,
                },
            ),
        ),
    )
}

/// Compounding raises the product of the reserves where the other side is not empty, by exactly
/// what arrived, and leaves the shares alone: every share is worth more.
pub proof fn compounding_raises_the_product(
    plan: CompoundPlan,
    target_vault: AccountInfo,
    pool: PoolState,
    now: i64,
)
    ensures
        compounded(plan, target_vault, pool, now) matches Ok(Some((after, event))) ==> {
            &&& after.total_lp_shares == pool.total_lp_shares
            &&& after.reserve_a + after.reserve_b == pool.reserve_a + pool.reserve_b
                + event.rwt_claimed
            &&& after.reserve_a >= pool.reserve_a
            &&& after.reserve_b >= pool.reserve_b
            &&& event.rwt_claimed > 0
            &&& pool.reserve_a > 0 && pool.reserve_b > 0 ==> after.reserve_a * after.reserve_b
                > pool.reserve_a * pool.reserve_b
        },
{
    if let Ok(Some((after, event))) = compounded(plan, target_vault, pool, now) {
        if pool.reserve_a > 0 && pool.reserve_b > 0 {
            if plan.rwt_side == 0 {
                vstd::arithmetic::mul::lemma_mul_strict_inequality(
                    pool.reserve_a as int,
                    after.reserve_a as int,
                    pool.reserve_b as int,
                );
            } else {
                vstd::arithmetic::mul::lemma_mul_strict_inequality(
                    pool.reserve_b as int,
                    after.reserve_b as int,
                    pool.reserve_a as int,
                );
                vstd::arithmetic::mul::lemma_mul_is_commutative(
                    pool.reserve_a as int,
                    pool.reserve_b as int,
                );
                vstd::arithmetic::mul::lemma_mul_is_commutative(
                    after.reserve_a as int,
                    after.reserve_b as int,
                );
            }
        }
    }
}

} // verus!
